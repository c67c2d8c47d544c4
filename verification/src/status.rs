//! HTTP status codes as the transcription client reads them.

use vstd::prelude::*;

use crate::text::{occurs_at, occurs_in};

verus! {

/// The three-digit status code of an HTTP response.
#[derive(Clone, Copy, Debug, PartialEq, Eq)]
pub struct HttpStatus {
    code: u16,
}

/// Whether `code` can be the status code of an HTTP response.
pub open spec fn is_status_code(code: u16) -> bool {
    100 <= code <= 999
}

/// Whether `code` lies in the success class.
pub open spec fn is_success_code(code: u16) -> bool {
    200 <= code < 300
}

/// The decimal digit `d` as a character.
pub open spec fn digit_char(d: int) -> char
    recommends
        0 <= d <= 9,
{
    ((d + 48) as u8) as char
}

/// The three decimal digits of a status code.
pub open spec fn code_digits(code: u16) -> Seq<char>
    recommends
        is_status_code(code),
{
    seq![
        digit_char(code as int / 100),
        digit_char((code as int / 10) % 10),
        digit_char(code as int % 10),
    ]
}

/// The line that `http::StatusCode` displays for `code`: the code, a space and
/// the reason phrase registered for it.
pub uninterp spec fn status_line(code: u16) -> Seq<char>;

/// Formats `code` as `http::StatusCode` (which `reqwest` hands out) displays
/// it. Trusted: that the text is the same for the same code, and that it opens
/// with the code's three digits and a space, as the `Display` impl writes them.
#[verifier::external_body]
fn display_status(code: u16) -> (line: String)
    requires
        is_status_code(code),
    ensures
        line@ == status_line(code),
        line@.len() >= 4,
        line@.subrange(0, 3) == code_digits(code),
        line@[3] == ' ',
{
    match reqwest::StatusCode::from_u16(code) {
        Ok(status) => status.to_string(),
        Err(invalid) => invalid.to_string(),
    }
}

impl View for HttpStatus {
    type V = u16;

    closed spec fn view(&self) -> u16 {
        self.code
    }
}

impl HttpStatus {
    #[verifier::type_invariant]
    spec fn well_formed(self) -> bool {
        is_status_code(self.code)
    }

    /// The status with the given code, if there is one.
    pub fn new(code: u16) -> (status: Option<HttpStatus>)
        ensures
            status is Some <==> is_status_code(code),
            status matches Some(s) ==> s@ == code,
    {
        if 100 <= code && code <= 999 {
            Some(HttpStatus { code })
        } else {
            None
        }
    }

    /// The numeric code.
    pub fn code(&self) -> (code: u16)
        ensures
            code == self@,
            is_status_code(code),
    {
        proof {
            use_type_invariant(self);
        }
        self.code
    }

    /// Whether the status reports success.
    pub fn is_success(&self) -> (yes: bool)
        ensures
            yes == is_success_code(self@),
    {
        200 <= self.code && self.code < 300
    }

    /// The status as it is shown to a reader: the code and its reason phrase.
    pub fn line(&self) -> (line: String)
        ensures
            line@ == status_line(self@),
            occurs_in(code_digits(self@), line@),
    {
        proof {
            use_type_invariant(self);
        }
        let line = display_status(self.code);
        proof {
            assert(occurs_at(code_digits(self@), line@, 0));
        }
        line
    }
}

} // verus!
