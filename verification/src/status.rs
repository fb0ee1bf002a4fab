//! HTTP status codes as the client sees them.

use vstd::prelude::*;

verus! {

/// The text that `http::StatusCode`, which `reqwest` hands out as
/// `reqwest::StatusCode`, writes for the status with the number `code`: the
/// number, a space and the reason phrase that the crate's table holds for it.
pub uninterp spec fn status_line(code: u16) -> Seq<char>;

/// Writes the status with the number `code` as `reqwest::StatusCode` does.
/// The crate makes a status of every number from 100 to 999 and of no other,
/// and what it writes for one depends on the number alone.
#[verifier::external_body]
fn status_to_string(code: u16) -> (text: Option<String>)
    ensures
        text is Some <==> 100 <= code <= 999,
        text matches Some(line) ==> line@ == status_line(code),
{
    match reqwest::StatusCode::from_u16(code) {
        Ok(status) => Some(status.to_string()),
        Err(_) => None,
    }
}

/// An HTTP status code: a number from 100 to 999.
#[derive(Debug, Clone, Copy)]
pub struct Status {
    code: u16,
}

impl Status {
    #[verifier::type_invariant]
    spec fn in_range(self) -> bool {
        Status::valid(self.code)
    }

    /// Whether `code` is a number that a status can hold.
    pub open spec fn valid(code: u16) -> bool {
        100 <= code <= 999
    }

    /// The number this status stands for.
    pub closed spec fn code(self) -> u16 {
        self.code
    }

    /// Makes a status from its number; `None` where the number is no status
    /// code.
    pub fn from_u16(code: u16) -> (r: Option<Status>)
        ensures
            r is Some <==> Status::valid(code),
            r matches Some(status) ==> status.code() == code,
    {
        if 100 <= code && code <= 999 {
            Some(Status { code })
        } else {
            None
        }
    }

    /// The status code as a number.
    pub fn as_u16(&self) -> (r: u16)
        ensures
            r == self.code(),
            Status::valid(r),
    {
        proof {
            use_type_invariant(self);
        }
        self.code
    }

    /// Whether the status reports success: a code from 200 to 299.
    pub fn is_success(&self) -> (r: bool)
        ensures
            r == (200 <= self.code() <= 299),
    {
        200 <= self.code && self.code <= 299
    }

    /// The status written out, with its reason phrase.
    pub fn to_text(&self) -> (text: String)
        ensures
            text@ == status_line(self.code()),
    {
        proof {
            use_type_invariant(self);
        }
        status_to_string(self.code).unwrap()
    }
}

} // verus!
