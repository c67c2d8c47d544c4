use scribe_core::error::TranscribeError;
use scribe_core::status::HttpStatus;
use scribe_core::transcribe::{
    advance, begin, interpret_response, transcription_request, HttpMethod, TranscribeStep,
    WireEvent,
};

fn http(code: u16) -> HttpStatus {
    HttpStatus::new(code).expect("a three-digit status code")
}

fn clip() -> Vec<u8> {
    vec![0x1a, 0x45, 0xdf, 0xa3, 0x00, 0xff, 0x10]
}

fn answered(code: u16, body: &str) -> TranscribeStep {
    let step = begin(clip(), "sk-test".to_string());
    let step = advance(step, WireEvent::Responded { code });
    advance(step, WireEvent::BodyRead { body: body.to_string() })
}

fn outcome_of(step: TranscribeStep) -> Result<String, TranscribeError> {
    match step {
        TranscribeStep::Done { outcome } => outcome,
        TranscribeStep::Send { .. } => panic!("the upload is still to be sent"),
        TranscribeStep::ReadBody { .. } => panic!("the body is still to be read"),
    }
}

#[test]
fn request_is_the_fixed_upload() {
    let request = transcription_request(clip(), "sk-test".to_string());
    assert_eq!(request.method, HttpMethod::Post);
    assert_eq!(request.url, "https://api.openai.com/v1/audio/transcriptions");
    assert_eq!(request.bearer_token, "sk-test");
    assert_eq!(request.model.name, "model");
    assert_eq!(request.model.value, "gpt-4o-transcribe");
    assert_eq!(request.file.name, "file");
    assert_eq!(request.file.file_name, "audio.webm");
    assert_eq!(request.file.content_type, "audio/webm");
    assert_eq!(request.file.bytes, clip());
}

#[test]
fn request_passes_clip_and_credential_through_unread() {
    let request = transcription_request(Vec::new(), String::new());
    assert_eq!(request.file.bytes, Vec::<u8>::new());
    assert_eq!(request.bearer_token, "");
    let odd = "  Bearer sk \u{e9}\n".to_string();
    let bytes: Vec<u8> = (0..=255u8).collect();
    let request = transcription_request(bytes.clone(), odd.clone());
    assert_eq!(request.file.bytes, bytes);
    assert_eq!(request.bearer_token, odd);
    assert_eq!(request.url, "https://api.openai.com/v1/audio/transcriptions");
}

#[test]
fn begin_asks_for_the_upload_to_be_sent() {
    let step = begin(clip(), "sk-test".to_string());
    let expected =
        TranscribeStep::Send { request: transcription_request(clip(), "sk-test".to_string()) };
    assert!(step == expected);
}

#[test]
fn successful_response_yields_exactly_its_text() {
    let step = answered(200, "{\"text\": \" Hello there.\\n\"}");
    assert_eq!(outcome_of(step), Ok(" Hello there.\n".to_string()));
}

#[test]
fn any_success_status_yields_the_text() {
    for code in [200, 201, 204, 299] {
        assert_eq!(outcome_of(answered(code, "{\"text\": \"ok\"}")), Ok("ok".to_string()));
    }
}

#[test]
fn text_does_not_depend_on_clip_or_credential() {
    for (audio, key) in [(Vec::new(), ""), (clip(), "sk-a"), (vec![7; 4096], "another key")] {
        let step = begin(audio, key.to_string());
        let step = advance(step, WireEvent::Responded { code: 200 });
        let step = advance(step, WireEvent::BodyRead { body: "{\"text\": \"same\"}".to_string() });
        assert_eq!(outcome_of(step), Ok("same".to_string()));
    }
}

#[test]
fn rejected_response_is_an_api_failure_with_status_and_body() {
    let body = "{\"error\": {\"message\": \"Incorrect API key provided\"}}";
    let failure = outcome_of(answered(401, body)).unwrap_err();
    assert_eq!(failure, TranscribeError::Api { status: http(401), body: body.to_string() });
    let line = failure.message();
    assert_eq!(line, format!("OpenAI error 401 Unauthorized: {body}"));
    assert!(line.contains("401"));
    assert!(line.contains(body));
}

#[test]
fn every_status_outside_the_success_class_is_an_api_failure() {
    for code in (100..200u16).chain(300..=999) {
        let failure = outcome_of(answered(code, "{\"text\": \"not read as a transcript\"}"));
        assert_eq!(
            failure,
            Err(TranscribeError::Api {
                status: http(code),
                body: "{\"text\": \"not read as a transcript\"}".to_string(),
            })
        );
    }
}

#[test]
fn rejected_response_keeps_a_body_that_is_not_json() {
    let failure = outcome_of(answered(502, "<html>Bad Gateway</html>")).unwrap_err();
    assert_eq!(failure.message(), "OpenAI error 502 Bad Gateway: <html>Bad Gateway</html>");
}

#[test]
fn malformed_body_with_success_status_is_a_decode_failure() {
    let failure = outcome_of(answered(200, "not json at all")).unwrap_err();
    match &failure {
        TranscribeError::PayloadDecode { reason, body } => {
            assert_eq!(reason, "expected ident at line 1 column 2");
            assert_eq!(body, "not json at all");
        }
        other => panic!("expected a decode failure, got {other:?}"),
    }
    assert_eq!(
        failure.message(),
        "JSON parse error: expected ident at line 1 column 2, body: not json at all"
    );
}

#[test]
fn success_status_without_a_text_field_is_a_decode_failure() {
    let failure = outcome_of(answered(200, "{\"transcript\": \"hi\"}")).unwrap_err();
    assert_eq!(
        failure,
        TranscribeError::PayloadDecode {
            reason: "missing field `text`".to_string(),
            body: "{\"transcript\": \"hi\"}".to_string(),
        }
    );
    assert!(failure.message().contains("{\"transcript\": \"hi\"}"));
}

#[test]
fn unreachable_endpoint_is_a_transport_failure() {
    let step = begin(clip(), "sk-test".to_string());
    let cause = "error sending request for url (https://api.openai.com/v1/audio/transcriptions)";
    let step = advance(step, WireEvent::SendFailed { cause: cause.to_string() });
    let failure = outcome_of(step).unwrap_err();
    assert_eq!(failure, TranscribeError::Transport { cause: cause.to_string() });
    assert_eq!(failure.message(), format!("Request error: {cause}"));
}

#[test]
fn upload_that_cannot_be_built_is_a_request_build_failure() {
    let step = begin(clip(), "sk-test".to_string());
    let step = advance(step, WireEvent::BuildFailed { cause: "invalid MIME type".to_string() });
    let failure = outcome_of(step).unwrap_err();
    assert_eq!(failure, TranscribeError::RequestBuild { cause: "invalid MIME type".to_string() });
    assert_eq!(failure.message(), "Mime error: invalid MIME type");
}

#[test]
fn body_is_asked_for_whatever_the_status() {
    for code in [100, 200, 301, 404, 500, 999] {
        let step = begin(clip(), "sk-test".to_string());
        let step = advance(step, WireEvent::Responded { code });
        assert!(step == TranscribeStep::ReadBody { status: http(code) });
    }
}

#[test]
fn body_that_breaks_off_is_a_response_read_failure() {
    for code in [200, 500] {
        let step = begin(clip(), "sk-test".to_string());
        let step = advance(step, WireEvent::Responded { code });
        let step = advance(step, WireEvent::BodyFailed { cause: "connection reset".to_string() });
        let failure = outcome_of(step).unwrap_err();
        assert_eq!(failure, TranscribeError::ResponseRead { cause: "connection reset".to_string() });
        assert_eq!(failure.message(), "Response read error: connection reset");
    }
}

#[test]
fn event_that_answers_nothing_pending_changes_nothing() {
    let sending = begin(clip(), "sk-test".to_string());
    let still = advance(sending, WireEvent::BodyRead { body: "{\"text\": \"early\"}".to_string() });
    assert!(still == begin(clip(), "sk-test".to_string()));
    let still = advance(still, WireEvent::BodyFailed { cause: "early".to_string() });
    assert!(still == begin(clip(), "sk-test".to_string()));

    let reading = advance(still, WireEvent::Responded { code: 200 });
    let still = advance(reading, WireEvent::SendFailed { cause: "late".to_string() });
    assert!(still == TranscribeStep::ReadBody { status: http(200) });
    let still = advance(still, WireEvent::BuildFailed { cause: "late".to_string() });
    assert!(still == TranscribeStep::ReadBody { status: http(200) });
    let still = advance(still, WireEvent::Responded { code: 500 });
    assert!(still == TranscribeStep::ReadBody { status: http(200) });
}

#[test]
fn finished_transcription_stays_as_it_ended() {
    let events = [
        WireEvent::BuildFailed { cause: "x".to_string() },
        WireEvent::SendFailed { cause: "x".to_string() },
        WireEvent::Responded { code: 500 },
        WireEvent::BodyFailed { cause: "x".to_string() },
        WireEvent::BodyRead { body: "{\"text\": \"other\"}".to_string() },
    ];
    for event in events {
        let done = answered(200, "{\"text\": \"first\"}");
        assert_eq!(outcome_of(advance(done, event)), Ok("first".to_string()));
    }
}

#[test]
fn interpret_goes_by_the_status_first() {
    assert_eq!(
        interpret_response(http(200), "{\"text\": \"yes\"}".to_string()),
        Ok("yes".to_string())
    );
    assert_eq!(
        interpret_response(http(404), "{\"text\": \"yes\"}".to_string()),
        Err(TranscribeError::Api { status: http(404), body: "{\"text\": \"yes\"}".to_string() })
    );
    assert_eq!(
        interpret_response(http(300), String::new()),
        Err(TranscribeError::Api { status: http(300), body: String::new() })
    );
    assert_eq!(
        interpret_response(http(199), String::new()),
        Err(TranscribeError::Api { status: http(199), body: String::new() })
    );
}

#[test]
fn status_line_with_an_impossible_code_is_a_transport_failure() {
    for code in [0, 42, 99, 1000, u16::MAX] {
        let step = begin(clip(), "sk-test".to_string());
        let step = advance(step, WireEvent::Responded { code });
        let failure = outcome_of(step).unwrap_err();
        assert_eq!(failure, TranscribeError::Transport { cause: "invalid status code".to_string() });
        assert_eq!(failure.message(), "Request error: invalid status code");
    }
}
