//! HTTP status codes carried by API responses.

use vstd::prelude::*;

verus! {

/// Relies on `http::StatusCode::from_u16`: it accepts exactly the codes 100 to 999.
#[verifier::external_body]
fn status_in_range(code: u16) -> (r: bool)
    ensures
        r == (100 <= code <= 999),
{
    http::StatusCode::from_u16(code).is_ok()
}

/// An HTTP status code, always in the range 100 to 999.
#[derive(Clone, Copy, Debug, PartialEq, Eq)]
pub struct StatusCode {
    code: u16,
}

impl StatusCode {
    /// The numeric value of the status code.
    pub closed spec fn value(self) -> u16 {
        self.code
    }

    #[verifier::type_invariant]
    spec fn in_range(self) -> bool {
        100 <= self.code <= 999
    }

    /// Accepts the status codes that HTTP can carry: 100 to 999.
    pub fn from_u16(code: u16) -> (r: Option<StatusCode>)
        ensures
            r is Some <==> 100 <= code <= 999,
            r matches Some(s) ==> s.value() == code,
    {
        if status_in_range(code) {
            Some(StatusCode { code })
        } else {
            None
        }
    }

    /// The numeric value of the status code.
    pub fn as_u16(&self) -> (r: u16)
        ensures
            r == self.value(),
            100 <= r <= 999,
    {
        proof {
            use_type_invariant(self);
        }
        self.code
    }

    /// Whether the code is in the success family, 200 to 299.
    pub fn is_success(&self) -> (r: bool)
        ensures
            r == (200 <= self.value() <= 299),
    {
        200 <= self.code && self.code <= 299
    }
}

} // verus!
