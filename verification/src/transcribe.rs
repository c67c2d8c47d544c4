//! The transcription client: what is uploaded, and what each answer from the
//! wire leads to.
//!
//! A transcription is a short sequence of steps. `begin` yields the first; the
//! caller carries out the pending step, reports what came of it as a
//! `WireEvent`, and `advance` yields the next, until the step is `Done`.

use vstd::prelude::*;

use crate::error::{
    lemma_transcribe_message_embeds_details, outcome_view, TranscribeError, TranscribeErrorView,
};
use crate::payload::{decode_transcript, decoded, json_parse, transcript_key, Members};
use crate::status::{is_status_code, is_success_code, status_line, HttpStatus};
use crate::text::occurs_in;

verus! {

/// A text field of the upload form.
#[derive(Clone, Debug, PartialEq, Eq)]
pub struct TextPart {
    pub name: String,
    pub value: String,
}

/// A file field of the upload form.
#[derive(Clone, Debug, PartialEq, Eq)]
pub struct FilePart {
    pub name: String,
    pub file_name: String,
    pub content_type: String,
    pub bytes: Vec<u8>,
}

/// The method of an HTTP request.
#[derive(Clone, Copy, Debug, PartialEq, Eq)]
pub enum HttpMethod {
    Get,
    Post,
}

/// One upload: a request to `url` whose body is a multipart form of exactly two
/// parts, a text part followed by a file part, and whose `Authorization` header
/// presents `bearer_token` as a bearer credential.
///
/// The type has no `Debug` on purpose: it holds the credential, which is not to
/// end up in a log.
#[derive(PartialEq, Eq)]
pub struct TranscriptionRequest {
    pub method: HttpMethod,
    pub url: String,
    pub bearer_token: String,
    pub model: TextPart,
    pub file: FilePart,
}

/// A `TextPart` with its texts as sequences of characters.
pub struct TextPartView {
    pub name: Seq<char>,
    pub value: Seq<char>,
}

/// A `FilePart` with its texts and bytes as sequences.
pub struct FilePartView {
    pub name: Seq<char>,
    pub file_name: Seq<char>,
    pub content_type: Seq<char>,
    pub bytes: Seq<u8>,
}

/// A `TranscriptionRequest` with its texts and bytes as sequences.
pub struct TranscriptionRequestView {
    pub method: HttpMethod,
    pub url: Seq<char>,
    pub bearer_token: Seq<char>,
    pub model: TextPartView,
    pub file: FilePartView,
}

impl View for TextPart {
    type V = TextPartView;

    open spec fn view(&self) -> TextPartView {
        TextPartView { name: self.name@, value: self.value@ }
    }
}

impl View for FilePart {
    type V = FilePartView;

    open spec fn view(&self) -> FilePartView {
        FilePartView {
            name: self.name@,
            file_name: self.file_name@,
            content_type: self.content_type@,
            bytes: self.bytes@,
        }
    }
}

impl View for TranscriptionRequest {
    type V = TranscriptionRequestView;

    open spec fn view(&self) -> TranscriptionRequestView {
        TranscriptionRequestView {
            method: self.method,
            url: self.url@,
            bearer_token: self.bearer_token@,
            model: self.model@,
            file: self.file@,
        }
    }
}

/// The upload that asks for a transcript of `audio` on behalf of `api_key`.
/// Everything but the clip and the credential is fixed.
pub open spec fn request_for(audio: Seq<u8>, api_key: Seq<char>) -> TranscriptionRequestView {
    TranscriptionRequestView {
        method: HttpMethod::Post,
        url: "https://api.openai.com/v1/audio/transcriptions"@,
        bearer_token: api_key,
        model: TextPartView { name: "model"@, value: "gpt-4o-transcribe"@ },
        file: FilePartView {
            name: "file"@,
            file_name: "audio.webm"@,
            content_type: "audio/webm"@,
            bytes: audio,
        },
    }
}

/// Builds the upload for one clip. The clip is passed on byte for byte and the
/// credential character for character; neither is looked into.
pub fn transcription_request(audio: Vec<u8>, api_key: String) -> (request: TranscriptionRequest)
    ensures
        request@ == request_for(audio@, api_key@),
{
    TranscriptionRequest {
        method: HttpMethod::Post,
        url: "https://api.openai.com/v1/audio/transcriptions".to_owned(),
        bearer_token: api_key,
        model: TextPart { name: "model".to_owned(), value: "gpt-4o-transcribe".to_owned() },
        file: FilePart {
            name: "file".to_owned(),
            file_name: "audio.webm".to_owned(),
            content_type: "audio/webm".to_owned(),
            bytes: audio,
        },
    }
}

/// What a complete response amounts to: the transcript that its body decodes
/// to if the status reports success, and an `Api` failure that keeps the status
/// and the body as they came otherwise.
pub open spec fn interpreted(status: u16, body: Seq<char>) -> Result<
    Seq<char>,
    TranscribeErrorView,
> {
    if is_success_code(status) {
        decoded(body)
    } else {
        Err(TranscribeErrorView::Api { status, body })
    }
}

/// Classifies a complete response.
pub fn interpret_response(status: HttpStatus, body: String) -> (outcome: Result<
    String,
    TranscribeError,
>)
    ensures
        outcome_view(outcome) == interpreted(status@, body@),
{
    if status.is_success() {
        decode_transcript(body.as_str())
    } else {
        Err(TranscribeError::Api { status, body })
    }
}

/// Where a transcription stands: what the caller is to do next, or how it
/// ended. Like the request it may hold, a step has no `Debug`.
#[derive(PartialEq, Eq)]
pub enum TranscribeStep {
    /// Send `request` once, and wait for the status line.
    Send { request: TranscriptionRequest },
    /// A status line has arrived: read the whole body as text, whatever the
    /// status.
    ReadBody { status: HttpStatus },
    /// Nothing is left to do.
    Done { outcome: Result<String, TranscribeError> },
}

/// What came of carrying out a step.
#[derive(Clone, Debug, PartialEq, Eq)]
pub enum WireEvent {
    /// The upload could not be put together, so nothing was sent.
    BuildFailed { cause: String },
    /// The request was sent, or tried, and no status line came back.
    SendFailed { cause: String },
    /// A status line came back, with this status code.
    Responded { code: u16 },
    /// The body broke off before its end.
    BodyFailed { cause: String },
    /// The whole body, as text.
    BodyRead { body: String },
}

/// A `TranscribeStep` with its texts and bytes as sequences.
pub enum TranscribeStepView {
    Send { request: TranscriptionRequestView },
    ReadBody { status: u16 },
    Done { outcome: Result<Seq<char>, TranscribeErrorView> },
}

/// A `WireEvent` with its texts as sequences of characters.
pub enum WireEventView {
    BuildFailed { cause: Seq<char> },
    SendFailed { cause: Seq<char> },
    Responded { code: u16 },
    BodyFailed { cause: Seq<char> },
    BodyRead { body: Seq<char> },
}

impl View for TranscribeStep {
    type V = TranscribeStepView;

    open spec fn view(&self) -> TranscribeStepView {
        match *self {
            TranscribeStep::Send { request } => TranscribeStepView::Send { request: request@ },
            TranscribeStep::ReadBody { status } => TranscribeStepView::ReadBody {
                status: status@,
            },
            TranscribeStep::Done { outcome } => TranscribeStepView::Done {
                outcome: outcome_view(outcome),
            },
        }
    }
}

impl View for WireEvent {
    type V = WireEventView;

    open spec fn view(&self) -> WireEventView {
        match *self {
            WireEvent::BuildFailed { cause } => WireEventView::BuildFailed { cause: cause@ },
            WireEvent::SendFailed { cause } => WireEventView::SendFailed { cause: cause@ },
            WireEvent::Responded { code } => WireEventView::Responded { code },
            WireEvent::BodyFailed { cause } => WireEventView::BodyFailed { cause: cause@ },
            WireEvent::BodyRead { body } => WireEventView::BodyRead { body: body@ },
        }
    }
}

/// The first step of a transcription: send the upload for this clip.
pub open spec fn begun(audio: Seq<u8>, api_key: Seq<char>) -> TranscribeStepView {
    TranscribeStepView::Send { request: request_for(audio, api_key) }
}

/// Whether `event` tells what came of carrying out `step`. Nothing answers a
/// step that is `Done`.
pub open spec fn answers(event: WireEventView, step: TranscribeStepView) -> bool {
    match step {
        TranscribeStepView::Send { .. } => event is BuildFailed || event is SendFailed
            || event is Responded,
        TranscribeStepView::ReadBody { .. } => event is BodyFailed || event is BodyRead,
        TranscribeStepView::Done { .. } => false,
    }
}

/// The cause given when a status line carries a code that is no status code.
pub open spec fn invalid_status() -> Seq<char> {
    "invalid status code"@
}

/// The step that follows `step` once `event` is reported. A status line whose
/// code is no status code counts as no answer at all, and so as a `Transport`
/// failure. An event that does not answer the pending step leaves the step as
/// it is.
pub open spec fn advanced(step: TranscribeStepView, event: WireEventView) -> TranscribeStepView {
    match (step, event) {
        (TranscribeStepView::Send { .. }, WireEventView::BuildFailed { cause }) => {
            TranscribeStepView::Done { outcome: Err(TranscribeErrorView::RequestBuild { cause }) }
        },
        (TranscribeStepView::Send { .. }, WireEventView::SendFailed { cause }) => {
            TranscribeStepView::Done { outcome: Err(TranscribeErrorView::Transport { cause }) }
        },
        (TranscribeStepView::Send { .. }, WireEventView::Responded { code }) => {
            if is_status_code(code) {
                TranscribeStepView::ReadBody { status: code }
            } else {
                TranscribeStepView::Done {
                    outcome: Err(TranscribeErrorView::Transport { cause: invalid_status() }),
                }
            }
        },
        (TranscribeStepView::ReadBody { .. }, WireEventView::BodyFailed { cause }) => {
            TranscribeStepView::Done { outcome: Err(TranscribeErrorView::ResponseRead { cause }) }
        },
        (TranscribeStepView::ReadBody { status }, WireEventView::BodyRead { body }) => {
            TranscribeStepView::Done { outcome: interpreted(status, body) }
        },
        _ => step,
    }
}

/// Starts a transcription of `audio` on behalf of `api_key`.
pub fn begin(audio: Vec<u8>, api_key: String) -> (step: TranscribeStep)
    ensures
        step@ == begun(audio@, api_key@),
{
    TranscribeStep::Send { request: transcription_request(audio, api_key) }
}

/// Takes a transcription one step further.
pub fn advance(step: TranscribeStep, event: WireEvent) -> (next: TranscribeStep)
    ensures
        next@ == advanced(step@, event@),
{
    match step {
        TranscribeStep::Send { request } => match event {
            WireEvent::BuildFailed { cause } => TranscribeStep::Done {
                outcome: Err(TranscribeError::RequestBuild { cause }),
            },
            WireEvent::SendFailed { cause } => TranscribeStep::Done {
                outcome: Err(TranscribeError::Transport { cause }),
            },
            WireEvent::Responded { code } => match HttpStatus::new(code) {
                Some(status) => TranscribeStep::ReadBody { status },
                None => TranscribeStep::Done {
                    outcome: Err(
                        TranscribeError::Transport { cause: "invalid status code".to_owned() },
                    ),
                },
            },
            _ => TranscribeStep::Send { request },
        },
        TranscribeStep::ReadBody { status } => match event {
            WireEvent::BodyFailed { cause } => TranscribeStep::Done {
                outcome: Err(TranscribeError::ResponseRead { cause }),
            },
            WireEvent::BodyRead { body } => TranscribeStep::Done {
                outcome: interpret_response(status, body),
            },
            _ => TranscribeStep::ReadBody { status },
        },
        TranscribeStep::Done { outcome } => TranscribeStep::Done { outcome },
    }
}

/// A response that reports success and whose body holds a text under the
/// transcript key ends the transcription with exactly that text, whatever the
/// clip and the credential were.
pub proof fn lemma_successful_response_yields_its_text(
    audio: Seq<u8>,
    api_key: Seq<char>,
    status: u16,
    body: Seq<char>,
    members: Members,
    text: Seq<char>,
)
    requires
        is_success_code(status),
        (json_parse(body) matches Ok(held) && held == members),
        members.contains_key(transcript_key()),
        members[transcript_key()] == Some(text),
    ensures
        advanced(
            advanced(begun(audio, api_key), (WireEventView::Responded { code: status })),
            (WireEventView::BodyRead { body }),
        ) == (TranscribeStepView::Done { outcome: Ok(text) }),
{
}

/// A response whose status does not report success ends the transcription
/// with an `Api` failure, whatever the body holds; the line shown for it
/// contains both the status line and the body as it came.
pub proof fn lemma_rejected_response_is_an_api_failure(
    audio: Seq<u8>,
    api_key: Seq<char>,
    status: u16,
    body: Seq<char>,
)
    requires
        is_status_code(status),
        !is_success_code(status),
    ensures
        advanced(
            advanced(begun(audio, api_key), (WireEventView::Responded { code: status })),
            (WireEventView::BodyRead { body }),
        ) == (TranscribeStepView::Done {
            outcome: Err(TranscribeErrorView::Api { status, body }),
        }),
        occurs_in(status_line(status), (TranscribeErrorView::Api { status, body }).message()),
        occurs_in(body, (TranscribeErrorView::Api { status, body }).message()),
{
    let failure = TranscribeErrorView::Api { status, body };
    lemma_transcribe_message_embeds_details(failure, 0);
    lemma_transcribe_message_embeds_details(failure, 1);
}

/// A response that reports success but whose body the parser refuses ends the
/// transcription with a `PayloadDecode` failure that gives the parser's words
/// as the reason; the line shown for it contains the body as it came.
pub proof fn lemma_malformed_body_is_a_decode_failure(
    audio: Seq<u8>,
    api_key: Seq<char>,
    status: u16,
    body: Seq<char>,
    reason: Seq<char>,
)
    requires
        is_success_code(status),
        (json_parse(body) matches Err(refusal) && refusal == reason),
    ensures
        advanced(
            advanced(begun(audio, api_key), (WireEventView::Responded { code: status })),
            (WireEventView::BodyRead { body }),
        ) == (TranscribeStepView::Done {
            outcome: Err(TranscribeErrorView::PayloadDecode { reason, body }),
        }),
        occurs_in(body, (TranscribeErrorView::PayloadDecode { reason, body }).message()),
{
    lemma_transcribe_message_embeds_details(
        TranscribeErrorView::PayloadDecode { reason, body },
        1,
    );
}

/// A request that gets no status line ends the transcription with a
/// `Transport` failure that carries the cause as it was reported.
pub proof fn lemma_unanswered_request_is_a_transport_failure(
    audio: Seq<u8>,
    api_key: Seq<char>,
    cause: Seq<char>,
)
    ensures
        advanced(begun(audio, api_key), (WireEventView::SendFailed { cause }))
            == (TranscribeStepView::Done {
            outcome: Err(TranscribeErrorView::Transport { cause }),
        }),
        occurs_in(cause, (TranscribeErrorView::Transport { cause }).message()),
{
    lemma_transcribe_message_embeds_details(TranscribeErrorView::Transport { cause }, 0);
}

/// A transcription ends with a text in one way only: a body arrives after a
/// status that reports success, and decodes to that text.
pub proof fn lemma_text_comes_only_from_a_successful_response(
    step: TranscribeStepView,
    event: WireEventView,
    text: Seq<char>,
)
    requires
        !(step is Done),
        advanced(step, event) == (TranscribeStepView::Done { outcome: Ok(text) }),
    ensures
        (step matches TranscribeStepView::ReadBody { status } && is_success_code(status)),
        (event matches WireEventView::BodyRead { body } && decoded(body) matches Ok(read)
            && read == text),
{
}

/// An event that answers nothing pending changes nothing.
pub proof fn lemma_stray_event_changes_nothing(step: TranscribeStepView, event: WireEventView)
    requires
        !answers(event, step),
    ensures
        advanced(step, event) == step,
{
}

/// A request is sent at most once: whatever answers a pending `Send` moves the
/// transcription on, and nothing leads back to `Send`.
pub proof fn lemma_nothing_is_sent_twice(step: TranscribeStepView, event: WireEventView)
    ensures
        advanced(step, event) is Send ==> step is Send && !answers(event, step),
{
}

/// A transcription is done after two answers at most: one to the upload, and
/// one to the reading of the body if a status line came back.
pub proof fn lemma_two_answers_suffice(
    audio: Seq<u8>,
    api_key: Seq<char>,
    first: WireEventView,
    second: WireEventView,
)
    requires
        answers(first, begun(audio, api_key)),
        answers(second, advanced(begun(audio, api_key), first)) || advanced(
            begun(audio, api_key),
            first,
        ) is Done,
    ensures
        advanced(advanced(begun(audio, api_key), first), second) is Done,
{
}

/// The body is asked for whatever the status line says.
pub proof fn lemma_body_is_read_whatever_the_status(
    audio: Seq<u8>,
    api_key: Seq<char>,
    status: u16,
)
    requires
        is_status_code(status),
    ensures
        advanced(begun(audio, api_key), (WireEventView::Responded { code: status }))
            == (TranscribeStepView::ReadBody { status }),
{
}

} // verus!
