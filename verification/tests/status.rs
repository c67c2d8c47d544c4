use scribe_core::status::HttpStatus;

fn status(code: u16) -> HttpStatus {
    HttpStatus::new(code).expect("a three-digit status code")
}

#[test]
fn status_exists_for_three_digit_codes_only() {
    assert!(HttpStatus::new(100).is_some());
    assert!(HttpStatus::new(200).is_some());
    assert!(HttpStatus::new(999).is_some());
    assert!(HttpStatus::new(0).is_none());
    assert!(HttpStatus::new(99).is_none());
    assert!(HttpStatus::new(1000).is_none());
    assert!(HttpStatus::new(u16::MAX).is_none());
}

#[test]
fn status_keeps_its_code() {
    assert_eq!(status(100).code(), 100);
    assert_eq!(status(404).code(), 404);
    assert_eq!(status(999).code(), 999);
}

#[test]
fn status_success_is_the_two_hundreds() {
    assert!(status(200).is_success());
    assert!(status(204).is_success());
    assert!(status(299).is_success());
    assert!(!status(100).is_success());
    assert!(!status(199).is_success());
    assert!(!status(300).is_success());
    assert!(!status(401).is_success());
    assert!(!status(500).is_success());
    assert!(!status(999).is_success());
}

#[test]
fn status_line_is_code_and_reason() {
    assert_eq!(status(200).line(), "200 OK");
    assert_eq!(status(401).line(), "401 Unauthorized");
    assert_eq!(status(404).line(), "404 Not Found");
    assert_eq!(status(429).line(), "429 Too Many Requests");
    assert_eq!(status(500).line(), "500 Internal Server Error");
}

#[test]
fn status_line_of_an_unregistered_code() {
    assert_eq!(status(799).line(), "799 <unknown status code>");
}

#[test]
fn status_line_opens_with_the_digits_and_a_space() {
    for code in 100..=999u16 {
        let line = status(code).line();
        assert!(line.len() >= 4);
        assert_eq!(&line[..3], format!("{code}"));
        assert_eq!(&line[3..4], " ");
    }
}

#[test]
fn status_line_agrees_with_the_http_stack() {
    for code in 100..=999u16 {
        let theirs = reqwest::StatusCode::from_u16(code).expect("a valid code");
        assert_eq!(status(code).line(), theirs.to_string());
        assert_eq!(status(code).is_success(), theirs.is_success());
        assert_eq!(status(code).code(), theirs.as_u16());
    }
}
