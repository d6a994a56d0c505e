//! HTTP status codes as the backend's responses carry them.

use vstd::prelude::*;
use crate::text::decimal;

verus! {

/// `code` is a status code that an HTTP response can carry: three digits.
pub open spec fn valid_status(code: u16) -> bool {
    100 <= code <= 999
}

/// A status code is a success when it lies in 200 to 299.
pub open spec fn success_status(code: u16) -> bool {
    200 <= code < 300
}

/// How a status is shown in messages: its code, a space, and the standard
/// reason phrase of that code (a placeholder where the code has none).
pub uninterp spec fn status_display(code: u16) -> Seq<char>;

/// `reqwest::StatusCode::is_success`, on the status made of `code` by
/// `StatusCode::from_u16`. That conversion accepts exactly the codes from 100
/// to 999, and the test holds exactly of the codes from 200 to 299.
#[verifier::external_body]
fn code_is_success(code: u16) -> (success: bool)
    requires
        valid_status(code),
    ensures
        success == success_status(code),
{
    reqwest::StatusCode::from_u16(code).unwrap().is_success()
}

/// The `Display` text of `reqwest::StatusCode`, on the status made of `code`
/// by `StatusCode::from_u16`. The text is named by [`status_display`]; of its
/// content only this is claimed: it opens with the code's numeral and a space.
#[verifier::external_body]
fn code_display(code: u16) -> (text: String)
    requires
        valid_status(code),
    ensures
        text@ == status_display(code),
        (decimal(code as nat) + seq![' ']).is_prefix_of(text@),
{
    reqwest::StatusCode::from_u16(code).unwrap().to_string()
}

/// The status of an HTTP response.
#[derive(Clone, Copy, Debug, PartialEq, Eq)]
pub struct HttpStatus {
    code: u16,
}

impl View for HttpStatus {
    type V = u16;

    closed spec fn view(&self) -> u16 {
        self.code
    }
}

impl HttpStatus {
    #[verifier::type_invariant]
    spec fn well_formed(self) -> bool {
        valid_status(self.code)
    }

    /// The status with this code, for the codes from 100 to 999; none for any
    /// other number.
    pub fn new(code: u16) -> (status: Option<HttpStatus>)
        ensures
            status is Some <==> valid_status(code),
            status is Some ==> status->0@ == code,
    {
        if 100 <= code && code <= 999 {
            Some(HttpStatus { code })
        } else {
            None
        }
    }

    /// The numeric code.
    pub fn code(&self) -> (code: u16)
        ensures
            code == self@,
            valid_status(code),
    {
        proof {
            use_type_invariant(self);
        }
        self.code
    }

    /// Whether the status reports success.
    pub fn is_success(&self) -> (success: bool)
        ensures
            success == success_status(self@),
    {
        proof {
            use_type_invariant(self);
        }
        code_is_success(self.code)
    }

    /// The status as it is shown in messages.
    pub fn display(&self) -> (text: String)
        ensures
            text@ == status_display(self@),
            (decimal(self@ as nat) + seq![' ']).is_prefix_of(text@),
    {
        proof {
            use_type_invariant(self);
        }
        code_display(self.code)
    }
}

} // verus!
