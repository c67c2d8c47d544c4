use scribe_core::error::TranscribeError;
use scribe_core::payload::{decode_transcript, transcript_from_lookup};

fn decode_failure(body: &str) -> (String, String) {
    match decode_transcript(body) {
        Err(TranscribeError::PayloadDecode { reason, body }) => (reason, body),
        other => panic!("expected a decode failure, got {other:?}"),
    }
}

#[test]
fn decode_returns_the_text_field() {
    assert_eq!(decode_transcript("{\"text\": \"hello world\"}"), Ok("hello world".to_string()));
}

#[test]
fn decode_does_not_trim_or_normalise() {
    assert_eq!(
        decode_transcript("{\"text\": \"  Hello,\\n World \\t\"}"),
        Ok("  Hello,\n World \t".to_string())
    );
    assert_eq!(decode_transcript("{\"text\": \"\"}"), Ok(String::new()));
}

#[test]
fn decode_resolves_json_escapes() {
    assert_eq!(
        decode_transcript("{\"text\": \"caf\\u00e9 \\\"quoted\\\" \\\\ \\ud83d\\ude00\"}"),
        Ok("caf\u{e9} \"quoted\" \\ \u{1F600}".to_string())
    );
}

#[test]
fn decode_ignores_other_fields() {
    let body = "{\"language\": \"en\", \"text\": \"hi\", \"duration\": 1.5, \"words\": [1, 2]}";
    assert_eq!(decode_transcript(body), Ok("hi".to_string()));
}

#[test]
fn decode_reports_a_missing_field() {
    let (reason, body) = decode_failure("{\"transcript\": \"hi\"}");
    assert_eq!(reason, "missing field `text`");
    assert_eq!(body, "{\"transcript\": \"hi\"}");
    let (reason, _) = decode_failure("{}");
    assert_eq!(reason, "missing field `text`");
}

#[test]
fn decode_reports_a_field_of_the_wrong_type() {
    for body in [
        "{\"text\": 5}",
        "{\"text\": null}",
        "{\"text\": true}",
        "{\"text\": [\"hi\"]}",
        "{\"text\": {\"text\": \"hi\"}}",
    ] {
        let (reason, quoted) = decode_failure(body);
        assert_eq!(reason, "invalid type for field `text`, expected a string");
        assert_eq!(quoted, body);
    }
}

#[test]
fn decode_reports_a_document_that_is_no_object() {
    for body in ["[\"hi\"]", "\"hi\"", "42", "null", "true"] {
        let (reason, quoted) = decode_failure(body);
        assert_eq!(reason, "missing field `text`");
        assert_eq!(quoted, body);
    }
}

#[test]
fn decode_reports_malformed_json_in_the_parser_s_words() {
    let (reason, body) = decode_failure("<html>Bad Gateway</html>");
    assert_eq!(reason, "expected value at line 1 column 1");
    assert_eq!(body, "<html>Bad Gateway</html>");

    let (reason, body) = decode_failure("");
    assert_eq!(reason, "EOF while parsing a value at line 1 column 0");
    assert_eq!(body, "");

    let (reason, body) = decode_failure("{\"text\": \"hi\"");
    assert_eq!(reason, "EOF while parsing an object at line 1 column 13");
    assert_eq!(body, "{\"text\": \"hi\"");

    let (reason, _) = decode_failure("{\"text\": \"hi\"} trailing");
    assert_eq!(reason, "trailing characters at line 1 column 16");
}

#[test]
fn decode_failure_message_contains_the_raw_body() {
    let body = "{\"text\": \n  5,\n \"note\": \"\u{fc}ber\"}";
    let error = decode_transcript(body).unwrap_err();
    let line = error.message();
    assert!(line.starts_with("JSON parse error: "));
    assert!(line.ends_with(&format!(", body: {body}")));
    assert!(line.contains(body));
}

#[test]
fn decode_takes_the_top_level_field_only() {
    let (reason, _) = decode_failure("{\"result\": {\"text\": \"nested\"}}");
    assert_eq!(reason, "missing field `text`");
}

#[test]
fn decode_is_case_sensitive_about_the_key() {
    let (reason, _) = decode_failure("{\"Text\": \"hi\"}");
    assert_eq!(reason, "missing field `text`");
}

#[test]
fn lookup_that_found_a_text_is_the_transcript() {
    assert_eq!(
        transcript_from_lookup(Ok(Some(Some(" as it is ".to_string()))), "ignored"),
        Ok(" as it is ".to_string())
    );
}

#[test]
fn lookup_that_found_no_text_is_a_decode_failure() {
    assert_eq!(
        transcript_from_lookup(Ok(Some(None)), "{\"text\": 1}"),
        Err(TranscribeError::PayloadDecode {
            reason: "invalid type for field `text`, expected a string".to_string(),
            body: "{\"text\": 1}".to_string(),
        })
    );
}

#[test]
fn lookup_that_found_nothing_is_a_decode_failure() {
    assert_eq!(
        transcript_from_lookup(Ok(None), "{}"),
        Err(TranscribeError::PayloadDecode {
            reason: "missing field `text`".to_string(),
            body: "{}".to_string(),
        })
    );
}

#[test]
fn lookup_that_the_parser_refused_is_a_decode_failure_in_its_words() {
    assert_eq!(
        transcript_from_lookup(Err("expected value at line 1 column 1".to_string()), "oops"),
        Err(TranscribeError::PayloadDecode {
            reason: "expected value at line 1 column 1".to_string(),
            body: "oops".to_string(),
        })
    );
}

#[test]
fn decode_takes_the_last_of_repeated_keys() {
    assert_eq!(
        decode_transcript("{\"text\": \"first\", \"text\": \"second\"}"),
        Ok("second".to_string())
    );
    let (reason, _) = decode_failure("{\"text\": \"first\", \"text\": 2}");
    assert_eq!(reason, "invalid type for field `text`, expected a string");
}

#[test]
fn decode_wants_the_whole_body_to_be_sound_json() {
    let (reason, _) = decode_failure("{\"text\": \"hi\", \"size\": 1e999}");
    assert_eq!(reason, "number out of range at line 1 column 28");
    let (reason, _) = decode_failure("{\"text\": \"hi\", \"rest\": [1, 2,]}");
    assert_eq!(reason, "trailing comma at line 1 column 30");
}

#[test]
fn decode_accepts_surrounding_white_space() {
    assert_eq!(decode_transcript(" \n\t{ \"text\" : \"hi\" }\r\n "), Ok("hi".to_string()));
}
