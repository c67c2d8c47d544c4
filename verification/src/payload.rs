//! Reading the transcript out of the body of a successful response.
//!
//! The body is JSON. Parsing is left to `serde_json`; what is decided here is
//! what a parsed document must hold to count as a transcript, and what is
//! reported when it does not.

use vstd::prelude::*;

use crate::error::{outcome_view, TranscribeError, TranscribeErrorView};

verus! {

/// `serde_json::Value`, a parsed JSON document. Nothing is known of what is
/// inside one but what `json_members` names.
#[verifier::external_type_specification]
#[verifier::external_body]
pub struct ExJsonValue(serde_json::Value);

/// The members of a JSON object by key: each with the text it holds if its
/// value is a JSON string, and with `None` if its value is anything else.
pub type Members = Map<Seq<char>, Option<Seq<char>>>;

/// The members of a parsed document: those of its top-level object. A document
/// that is not an object has no members.
pub uninterp spec fn json_members(doc: serde_json::Value) -> Members;

/// What `serde_json::from_str` makes of a text: the members of the document it
/// parses to, or the words in which the parser refuses it.
pub uninterp spec fn json_parse(body: Seq<char>) -> Result<Members, Seq<char>>;

/// What a document holds under `key`: nothing, something that is no string, or
/// a text.
pub open spec fn member_of(members: Members, key: Seq<char>) -> Option<Option<Seq<char>>> {
    if members.contains_key(key) {
        Some(members[key])
    } else {
        None
    }
}

/// A looked-up member with its text as a sequence of characters.
pub open spec fn member_view(held: Option<Option<String>>) -> Option<Option<Seq<char>>> {
    match held {
        None => None,
        Some(None) => Some(None),
        Some(Some(text)) => Some(Some(text@)),
    }
}

/// What parsing came to, seen through what the document holds.
pub open spec fn parse_view(parsed: Result<serde_json::Value, String>) -> Result<
    Members,
    Seq<char>,
> {
    match parsed {
        Ok(doc) => Ok(json_members(doc)),
        Err(reason) => Err(reason@),
    }
}

/// Parses `body` with `serde_json::from_str` into a `serde_json::Value`; a
/// parse error is handed on as the text that it displays. Trusted: that the
/// outcome depends on `body` alone.
#[verifier::external_body]
fn parse_document(body: &str) -> (parsed: Result<serde_json::Value, String>)
    ensures
        parse_view(parsed) == json_parse(body@),
{
    serde_json::from_str::<serde_json::Value>(body).map_err(|error| error.to_string())
}

/// Looks `key` up with `serde_json::Value::get` and hands the member out as a
/// text where `Value::as_str` finds one. Trusted: that `get` finds exactly the
/// members of a top-level object, and that `as_str` yields the text of a JSON
/// string and nothing for any other value.
#[verifier::external_body]
fn string_member(doc: &serde_json::Value, key: &str) -> (held: Option<Option<String>>)
    ensures
        member_view(held) == member_of(json_members(*doc), key@),
{
    doc.get(key).map(|value| value.as_str().map(|text| text.to_owned()))
}

/// The key under which a response carries the transcript.
pub open spec fn transcript_key() -> Seq<char> {
    "text"@
}

/// The reason given when a document has no member under the transcript key.
pub open spec fn missing_reason() -> Seq<char> {
    "missing field `text`"@
}

/// The reason given when the member under the transcript key is no string.
pub open spec fn mistyped_reason() -> Seq<char> {
    "invalid type for field `text`, expected a string"@
}

/// What looking for the transcript in a body came to: the parser's refusal, or
/// what the parsed document holds under the transcript key.
pub open spec fn looked_up(body: Seq<char>) -> Result<Option<Option<Seq<char>>>, Seq<char>> {
    match json_parse(body) {
        Ok(members) => Ok(member_of(members, transcript_key())),
        Err(reason) => Err(reason),
    }
}

/// A lookup with its texts as sequences of characters.
pub open spec fn lookup_view(lookup: Result<Option<Option<String>>, String>) -> Result<
    Option<Option<Seq<char>>>,
    Seq<char>,
> {
    match lookup {
        Ok(held) => Ok(member_view(held)),
        Err(reason) => Err(reason@),
    }
}

/// The transcript that a lookup amounts to. Only a text counts, and it counts
/// as it is. Everything else is a `PayloadDecode` failure that says why and
/// quotes `body`: in the parser's words where the body is no JSON, in this
/// library's where the document lacks the member or holds no string there.
pub open spec fn transcript_from(
    lookup: Result<Option<Option<Seq<char>>>, Seq<char>>,
    body: Seq<char>,
) -> Result<Seq<char>, TranscribeErrorView> {
    match lookup {
        Ok(Some(Some(text))) => Ok(text),
        Ok(Some(None)) => Err(
            TranscribeErrorView::PayloadDecode { reason: mistyped_reason(), body },
        ),
        Ok(None) => Err(TranscribeErrorView::PayloadDecode { reason: missing_reason(), body }),
        Err(reason) => Err(TranscribeErrorView::PayloadDecode { reason, body }),
    }
}

/// The transcript that a response body amounts to.
pub open spec fn decoded(body: Seq<char>) -> Result<Seq<char>, TranscribeErrorView> {
    transcript_from(looked_up(body), body)
}

/// Turns what looking for the transcript came to into the outcome of the
/// transcription. `body` is the body that was looked into.
pub fn transcript_from_lookup(
    lookup: Result<Option<Option<String>>, String>,
    body: &str,
) -> (outcome: Result<String, TranscribeError>)
    ensures
        outcome_view(outcome) == transcript_from(lookup_view(lookup), body@),
{
    match lookup {
        Ok(Some(Some(text))) => Ok(text),
        Ok(Some(None)) => Err(
            TranscribeError::PayloadDecode {
                reason: "invalid type for field `text`, expected a string".to_owned(),
                body: body.to_owned(),
            },
        ),
        Ok(None) => Err(
            TranscribeError::PayloadDecode {
                reason: "missing field `text`".to_owned(),
                body: body.to_owned(),
            },
        ),
        Err(reason) => Err(TranscribeError::PayloadDecode { reason, body: body.to_owned() }),
    }
}

/// Reads the transcript out of a response body: the text that the document
/// holds under `text`, exactly as it stands there. A body that is not JSON, or
/// holds no text there, is a `PayloadDecode` failure that quotes the body.
pub fn decode_transcript(body: &str) -> (outcome: Result<String, TranscribeError>)
    ensures
        outcome_view(outcome) == decoded(body@),
{
    let lookup = match parse_document(body) {
        Ok(doc) => Ok(string_member(&doc, "text")),
        Err(reason) => Err(reason),
    };
    transcript_from_lookup(lookup, body)
}

/// A body that parses and holds a text under the transcript key decodes to
/// exactly that text.
pub proof fn lemma_text_member_is_the_transcript(
    body: Seq<char>,
    members: Members,
    text: Seq<char>,
)
    requires
        (json_parse(body) matches Ok(held) && held == members),
        members.contains_key(transcript_key()),
        members[transcript_key()] == Some(text),
    ensures
        (decoded(body) matches Ok(read) && read == text),
{
}

/// Decoding succeeds only on a body that parses and holds a text under the
/// transcript key; every other body is a `PayloadDecode` failure that carries
/// the body unchanged.
pub proof fn lemma_decoding_fails_with_the_body(body: Seq<char>)
    ensures
        decoded(body) is Ok <==> (json_parse(body) matches Ok(members) && member_of(
            members,
            transcript_key(),
        ) matches Some(Some(_))),
        decoded(body) matches Err(error) ==> (error matches TranscribeErrorView::PayloadDecode {
            body: quoted,
            ..
        } && quoted == body),
{
}

} // verus!
