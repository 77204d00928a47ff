//! HTTP status codes.

use vstd::prelude::*;

verus! {

/// How `http::StatusCode`, which `reqwest` hands out, shows a status code:
/// the number and the reason phrase that is registered for it.
pub uninterp spec fn status_display(code: u16) -> Seq<char>;

/// `StatusCode::from_u16` and then the `Display` impl of `StatusCode`.
/// Every code from 100 to 999 is a `StatusCode`, and its text depends on
/// the number alone.
#[verifier::external_body]
fn display_status(code: u16) -> (r: String)
    requires
        100 <= code <= 999,
    ensures
        r@ == status_display(code),
{
    match reqwest::StatusCode::from_u16(code) {
        Ok(status) => status.to_string(),
        Err(_) => String::new(),
    }
}

/// The status code of an HTTP response: a number from 100 to 999.
#[derive(Clone, Copy, Debug, PartialEq, Eq)]
pub struct HttpStatus {
    code: u16,
}

impl HttpStatus {
    #[verifier::type_invariant]
    spec fn in_range(self) -> bool {
        100 <= self.code <= 999
    }

    /// The number of the status.
    pub closed spec fn spec_code(self) -> u16 {
        self.code
    }

    /// The status of the given number, if there is one.
    pub fn from_u16(code: u16) -> (r: Option<HttpStatus>)
        ensures
            match r {
                Some(status) => 100 <= code <= 999 && status.spec_code() == code,
                None => !(100 <= code <= 999),
            },
    {
        if 100 <= code && code <= 999 {
            Some(HttpStatus { code })
        } else {
            None
        }
    }

    /// The number of the status.
    pub fn code(&self) -> (r: u16)
        ensures
            r == self.spec_code(),
            100 <= r <= 999,
    {
        proof {
            use_type_invariant(self);
        }
        self.code
    }

    /// Whether the status reports success: a number from 200 to 299.
    pub fn is_success(&self) -> (r: bool)
        ensures
            r == (200 <= self.spec_code() <= 299),
    {
        200 <= self.code && self.code <= 299
    }

    /// The status as a response shows it.
    pub fn to_string(&self) -> (r: String)
        ensures
            r@ == status_display(self.spec_code()),
    {
        proof {
            use_type_invariant(self);
        }
        display_status(self.code)
    }
}

} // verus!
