//! The ways in which a command can fail, and the one line of text that each
//! failure becomes when it is shown.

use vstd::prelude::*;

use crate::status::{code_digits, status_line, HttpStatus};
use crate::text::{lemma_occurs_at_end, lemma_occurs_between, lemma_occurs_in_part, occurs_in};

verus! {

/// Why a transcription did not yield a text.
#[derive(Clone, Debug, PartialEq, Eq)]
pub enum TranscribeError {
    /// The upload could not be put together.
    RequestBuild { cause: String },
    /// No status line was received: the request never got an answer.
    Transport { cause: String },
    /// A status line was received, but the body could not be read to its end.
    ResponseRead { cause: String },
    /// The remote service answered with a status outside the success class.
    Api { status: HttpStatus, body: String },
    /// The service reported success, but the body does not hold a transcript.
    PayloadDecode { reason: String, body: String },
}

/// A `TranscribeError` with its texts as sequences of characters.
pub enum TranscribeErrorView {
    RequestBuild { cause: Seq<char> },
    Transport { cause: Seq<char> },
    ResponseRead { cause: Seq<char> },
    Api { status: u16, body: Seq<char> },
    PayloadDecode { reason: Seq<char>, body: Seq<char> },
}

impl View for TranscribeError {
    type V = TranscribeErrorView;

    open spec fn view(&self) -> TranscribeErrorView {
        match *self {
            TranscribeError::RequestBuild { cause } => TranscribeErrorView::RequestBuild {
                cause: cause@,
            },
            TranscribeError::Transport { cause } => TranscribeErrorView::Transport {
                cause: cause@,
            },
            TranscribeError::ResponseRead { cause } => TranscribeErrorView::ResponseRead {
                cause: cause@,
            },
            TranscribeError::Api { status, body } => TranscribeErrorView::Api {
                status: status@,
                body: body@,
            },
            TranscribeError::PayloadDecode { reason, body } => TranscribeErrorView::PayloadDecode {
                reason: reason@,
                body: body@,
            },
        }
    }
}

impl TranscribeErrorView {
    /// The line shown for this failure.
    pub open spec fn message(self) -> Seq<char> {
        match self {
            TranscribeErrorView::RequestBuild { cause } => "Mime error: "@ + cause,
            TranscribeErrorView::Transport { cause } => "Request error: "@ + cause,
            TranscribeErrorView::ResponseRead { cause } => "Response read error: "@ + cause,
            TranscribeErrorView::Api { status, body } => "OpenAI error "@ + status_line(status)
                + ": "@ + body,
            TranscribeErrorView::PayloadDecode { reason, body } => "JSON parse error: "@ + reason
                + ", body: "@ + body,
        }
    }

    /// What the failure carries from outside: the underlying cause, or the
    /// status line and the raw body, or the reason and the raw body.
    pub open spec fn details(self) -> Seq<Seq<char>> {
        match self {
            TranscribeErrorView::RequestBuild { cause } => seq![cause],
            TranscribeErrorView::Transport { cause } => seq![cause],
            TranscribeErrorView::ResponseRead { cause } => seq![cause],
            TranscribeErrorView::Api { status, body } => seq![status_line(status), body],
            TranscribeErrorView::PayloadDecode { reason, body } => seq![reason, body],
        }
    }
}

/// How a transcription ended, with its texts as sequences of characters.
pub open spec fn outcome_view(outcome: Result<String, TranscribeError>) -> Result<
    Seq<char>,
    TranscribeErrorView,
> {
    match outcome {
        Ok(text) => Ok(text@),
        Err(error) => Err(error@),
    }
}

/// The line shown for a failure holds, unbroken and unchanged, every detail
/// that the failure carries.
pub proof fn lemma_transcribe_message_embeds_details(error: TranscribeErrorView, i: int)
    requires
        0 <= i < error.details().len(),
    ensures
        occurs_in(error.details()[i], error.message()),
{
    match error {
        TranscribeErrorView::RequestBuild { cause } => {
            lemma_occurs_at_end("Mime error: "@, cause);
        },
        TranscribeErrorView::Transport { cause } => {
            lemma_occurs_at_end("Request error: "@, cause);
        },
        TranscribeErrorView::ResponseRead { cause } => {
            lemma_occurs_at_end("Response read error: "@, cause);
        },
        TranscribeErrorView::Api { status, body } => {
            if i == 0 {
                lemma_occurs_between("OpenAI error "@, status_line(status), ": "@ + body);
                assert("OpenAI error "@ + status_line(status) + (": "@ + body)
                    =~= error.message());
            } else {
                lemma_occurs_at_end("OpenAI error "@ + status_line(status) + ": "@, body);
            }
        },
        TranscribeErrorView::PayloadDecode { reason, body } => {
            if i == 0 {
                lemma_occurs_between("JSON parse error: "@, reason, ", body: "@ + body);
                assert("JSON parse error: "@ + reason + (", body: "@ + body)
                    =~= error.message());
            } else {
                lemma_occurs_at_end("JSON parse error: "@ + reason + ", body: "@, body);
            }
        },
    }
}

/// The line shown for an `Api` failure, given the status line as it is
/// displayed and the body as it came.
pub fn api_message(shown_status: &str, body: &str) -> (line: String)
    ensures
        line@ == "OpenAI error "@ + shown_status@ + ": "@ + body@,
{
    "OpenAI error ".to_owned().concat(shown_status).concat(": ").concat(body)
}

impl TranscribeError {
    /// The one line of text that this failure becomes when it is shown.
    pub fn message(&self) -> (line: String)
        ensures
            line@ == self@.message(),
            (self matches TranscribeError::Api { status, .. } ==> occurs_in(
                code_digits(status@),
                line@,
            )),
    {
        match self {
            TranscribeError::RequestBuild { cause } => {
                "Mime error: ".to_owned().concat(cause.as_str())
            },
            TranscribeError::Transport { cause } => {
                "Request error: ".to_owned().concat(cause.as_str())
            },
            TranscribeError::ResponseRead { cause } => {
                "Response read error: ".to_owned().concat(cause.as_str())
            },
            TranscribeError::Api { status, body } => {
                let shown = status.line();
                let line = api_message(shown.as_str(), body.as_str());
                proof {
                    lemma_occurs_in_part(
                        code_digits(status@),
                        "OpenAI error "@,
                        shown@,
                        ": "@ + body@,
                    );
                    assert("OpenAI error "@ + shown@ + (": "@ + body@) =~= line@);
                }
                line
            },
            TranscribeError::PayloadDecode { reason, body } => {
                "JSON parse error: ".to_owned().concat(reason.as_str()).concat(", body: ").concat(
                    body.as_str(),
                )
            },
        }
    }
}

/// Why the state file could not be read or written.
#[derive(Clone, Debug, PartialEq, Eq)]
pub enum StateError {
    /// The host could not say where the application keeps its data.
    PathResolution { cause: String },
    /// The state file is there but could not be read as text.
    IoRead { cause: String },
    /// A directory above the state file could not be created.
    IoCreateDir { cause: String },
    /// The state file could not be written.
    IoWrite { cause: String },
}

/// A `StateError` with its text as a sequence of characters.
pub enum StateErrorView {
    PathResolution { cause: Seq<char> },
    IoRead { cause: Seq<char> },
    IoCreateDir { cause: Seq<char> },
    IoWrite { cause: Seq<char> },
}

impl View for StateError {
    type V = StateErrorView;

    open spec fn view(&self) -> StateErrorView {
        match *self {
            StateError::PathResolution { cause } => StateErrorView::PathResolution {
                cause: cause@,
            },
            StateError::IoRead { cause } => StateErrorView::IoRead { cause: cause@ },
            StateError::IoCreateDir { cause } => StateErrorView::IoCreateDir { cause: cause@ },
            StateError::IoWrite { cause } => StateErrorView::IoWrite { cause: cause@ },
        }
    }
}

impl StateErrorView {
    /// The underlying cause, as the host or the file system worded it.
    pub open spec fn cause(self) -> Seq<char> {
        match self {
            StateErrorView::PathResolution { cause } => cause,
            StateErrorView::IoRead { cause } => cause,
            StateErrorView::IoCreateDir { cause } => cause,
            StateErrorView::IoWrite { cause } => cause,
        }
    }

    /// The line shown for this failure.
    pub open spec fn message(self) -> Seq<char> {
        match self {
            StateErrorView::PathResolution { cause } => "Could not resolve app data dir: "@
                + cause,
            StateErrorView::IoRead { cause } => "Failed to read file: "@ + cause,
            StateErrorView::IoCreateDir { cause } => "Failed to create dirs: "@ + cause,
            StateErrorView::IoWrite { cause } => "Failed to write file: "@ + cause,
        }
    }
}

/// The line shown for a failure holds its underlying cause, unbroken and
/// unchanged.
pub proof fn lemma_state_message_embeds_cause(error: StateErrorView)
    ensures
        occurs_in(error.cause(), error.message()),
{
    match error {
        StateErrorView::PathResolution { cause } => {
            lemma_occurs_at_end("Could not resolve app data dir: "@, cause);
        },
        StateErrorView::IoRead { cause } => {
            lemma_occurs_at_end("Failed to read file: "@, cause);
        },
        StateErrorView::IoCreateDir { cause } => {
            lemma_occurs_at_end("Failed to create dirs: "@, cause);
        },
        StateErrorView::IoWrite { cause } => {
            lemma_occurs_at_end("Failed to write file: "@, cause);
        },
    }
}

impl StateError {
    /// The one line of text that this failure becomes when it is shown.
    pub fn message(&self) -> (line: String)
        ensures
            line@ == self@.message(),
    {
        match self {
            StateError::PathResolution { cause } => {
                "Could not resolve app data dir: ".to_owned().concat(cause.as_str())
            },
            StateError::IoRead { cause } => {
                "Failed to read file: ".to_owned().concat(cause.as_str())
            },
            StateError::IoCreateDir { cause } => {
                "Failed to create dirs: ".to_owned().concat(cause.as_str())
            },
            StateError::IoWrite { cause } => {
                "Failed to write file: ".to_owned().concat(cause.as_str())
            },
        }
    }
}

} // verus!
