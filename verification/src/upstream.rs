//! The values that upstream HTTP exchanges leave in this library's
//! errors (`reqwest` transport errors, HTTP status codes, `serde_json`
//! and I/O errors), and the renderings of them that the error messages
//! embed.

use vstd::prelude::*;

use crate::text::decimal;

verus! {

#[verifier::external_type_specification]
#[verifier::external_body]
pub struct ExReqwestError(reqwest::Error);

#[verifier::external_type_specification]
#[verifier::external_body]
pub struct ExSerdeJsonError(serde_json::Error);

#[verifier::external_type_specification]
#[verifier::external_body]
pub struct ExIoError(std::io::Error);

/// The text that `http::StatusCode`'s `Display` prints after the numeric
/// code and a space: the canonical reason phrase of `code`, or
/// `<unknown status code>`.
pub uninterp spec fn status_reason(code: u16) -> Seq<char>;

/// An HTTP status code as an upstream reported it: a number in
/// `100..=999`, the range `http::StatusCode` admits.
#[derive(Debug, Clone, Copy, PartialEq, Eq, Structural)]
pub struct HttpStatus {
    code: u16,
}

impl HttpStatus {
    /// Status codes are three-digit numbers.
    #[verifier::type_invariant]
    spec fn well_formed(self) -> bool {
        100 <= self.code <= 999
    }

    /// The numeric code.
    pub closed spec fn number(self) -> u16 {
        self.code
    }

    /// The status numbered `code`, or `None` outside `100..=999`.
    pub fn from_code(code: u16) -> (r: Option<Self>)
        ensures
            r is Some <==> 100 <= code <= 999,
            r matches Some(s) ==> s.number() == code,
    {
        if 100 <= code && code <= 999 {
            Some(HttpStatus { code })
        } else {
            None
        }
    }

    /// The numeric code, always in `100..=999`.
    pub fn code(&self) -> (c: u16)
        ensures
            c == self.number(),
            100 <= c <= 999,
    {
        proof {
            use_type_invariant(self);
        }
        self.code
    }
}

/// `http::StatusCode`'s `Display` for the status numbered `code`
/// (built with `StatusCode::from_u16`, which accepts exactly
/// `100..=999`). The `http` source writes `"{} {}"` with the number and
/// then the canonical reason (or `<unknown status code>`); the reason is
/// named, not spelled out.
#[verifier::external_body]
pub(crate) fn status_display(code: u16) -> (text: String)
    requires
        100 <= code <= 999,
    ensures
        text@ == decimal(code as nat) + " "@ + status_reason(code),
{
    match reqwest::StatusCode::from_u16(code) {
        Ok(status) => status.to_string(),
        Err(_) => String::new(),
    }
}

/// `reqwest::Error`'s `Display`. Nothing is stated of the text: the type
/// is opaque here, so there is no value to tie it to.
#[verifier::external_body]
pub(crate) fn network_error_text(error: &reqwest::Error) -> String {
    error.to_string()
}

/// `serde_json::Error`'s `Display`. Nothing is stated of the text: the
/// type is opaque here, so there is no value to tie it to.
#[verifier::external_body]
pub(crate) fn json_error_text(error: &serde_json::Error) -> String {
    error.to_string()
}

/// `std::io::Error`'s `Display`. Nothing is stated of the text: the type
/// is opaque here, so there is no value to tie it to.
#[verifier::external_body]
pub(crate) fn io_error_text(error: &std::io::Error) -> String {
    error.to_string()
}

} // verus!
