use scribe_core::error::{api_message, StateError, TranscribeError};
use scribe_core::status::HttpStatus;

#[test]
fn request_build_message() {
    let error = TranscribeError::RequestBuild { cause: "invalid mime".to_string() };
    assert_eq!(error.message(), "Mime error: invalid mime");
}

#[test]
fn transport_message() {
    let error = TranscribeError::Transport { cause: "connection refused".to_string() };
    assert_eq!(error.message(), "Request error: connection refused");
}

#[test]
fn response_read_message() {
    let error = TranscribeError::ResponseRead { cause: "unexpected end of stream".to_string() };
    assert_eq!(error.message(), "Response read error: unexpected end of stream");
}

#[test]
fn api_message_holds_status_and_body() {
    let body = "{\"error\": {\"message\": \"Incorrect API key\"}}";
    let error = TranscribeError::Api {
        status: HttpStatus::new(401).unwrap(),
        body: body.to_string(),
    };
    let line = error.message();
    assert_eq!(
        line,
        "OpenAI error 401 Unauthorized: {\"error\": {\"message\": \"Incorrect API key\"}}"
    );
    assert!(line.contains("401"));
    assert!(line.contains("Unauthorized"));
    assert!(line.contains(body));
}

#[test]
fn api_message_with_an_empty_body() {
    let error = TranscribeError::Api { status: HttpStatus::new(503).unwrap(), body: String::new() };
    assert_eq!(error.message(), "OpenAI error 503 Service Unavailable: ");
}

#[test]
fn payload_decode_message_holds_reason_and_body() {
    let error = TranscribeError::PayloadDecode {
        reason: "expected value at line 1 column 1".to_string(),
        body: "<html>".to_string(),
    };
    assert_eq!(
        error.message(),
        "JSON parse error: expected value at line 1 column 1, body: <html>"
    );
}

#[test]
fn message_keeps_the_cause_verbatim() {
    let cause = "  odd\ncause: with, punctuation \u{1F600} ";
    let error = TranscribeError::Transport { cause: cause.to_string() };
    assert_eq!(error.message(), format!("Request error: {cause}"));
    let error = TranscribeError::Transport { cause: String::new() };
    assert_eq!(error.message(), "Request error: ");
}

#[test]
fn path_resolution_message() {
    let error = StateError::PathResolution { cause: "unknown path".to_string() };
    assert_eq!(error.message(), "Could not resolve app data dir: unknown path");
}

#[test]
fn io_read_message() {
    let error = StateError::IoRead { cause: "permission denied".to_string() };
    assert_eq!(error.message(), "Failed to read file: permission denied");
}

#[test]
fn io_create_dir_message() {
    let error = StateError::IoCreateDir { cause: "read-only file system".to_string() };
    assert_eq!(error.message(), "Failed to create dirs: read-only file system");
}

#[test]
fn io_write_message() {
    let error = StateError::IoWrite { cause: "no space left on device".to_string() };
    assert_eq!(error.message(), "Failed to write file: no space left on device");
}

#[test]
fn failures_of_different_kinds_differ() {
    let cause = "same cause".to_string();
    let transport = TranscribeError::Transport { cause: cause.clone() };
    let read = TranscribeError::ResponseRead { cause: cause.clone() };
    let build = TranscribeError::RequestBuild { cause: cause.clone() };
    assert_ne!(transport, read);
    assert_ne!(transport, build);
    assert_ne!(read, build);
    assert_ne!(
        StateError::IoRead { cause: cause.clone() },
        StateError::IoWrite { cause: cause.clone() }
    );
    assert_ne!(
        StateError::IoCreateDir { cause: cause.clone() },
        StateError::PathResolution { cause }
    );
}

#[test]
fn api_message_frames_status_and_body() {
    assert_eq!(api_message("404 Not Found", "{}"), "OpenAI error 404 Not Found: {}");
    assert_eq!(api_message("", ""), "OpenAI error : ");
}
