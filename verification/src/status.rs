//! HTTP status codes as the catalog client reads them.

use vstd::prelude::*;

verus! {

/// What `reqwest::StatusCode` writes when the status with the number `code`
/// is displayed: the number, a space, and the canonical reason phrase of the
/// status, or a fixed placeholder where the status has none.
pub uninterp spec fn status_line(code: nat) -> Seq<char>;

/// The status of an HTTP response: a number from 100 to 999.
#[derive(Debug, Clone, Copy, PartialEq, Eq)]
pub struct HttpStatus {
    code: u16,
}

impl HttpStatus {
    #[verifier::type_invariant]
    spec fn in_range(self) -> bool {
        100 <= self.code <= 999
    }

    /// The number of the status.
    pub closed spec fn code(self) -> nat {
        self.code as nat
    }

    /// Whether a status with this number tells that the request succeeded.
    pub open spec fn success(code: nat) -> bool {
        200 <= code < 300
    }

    /// Whether a status with this number tells that the server failed.
    pub open spec fn server_error(code: nat) -> bool {
        500 <= code < 600
    }

    /// Whether a status with this number tells that the client is sending
    /// too many requests.
    pub open spec fn too_many_requests(code: nat) -> bool {
        code == 429
    }

    /// The status with the number `code`, where that is a status at all.
    pub fn from_u16(code: u16) -> (status: Option<HttpStatus>)
        ensures
            status is Some <==> 100 <= code <= 999,
            status matches Some(s) ==> s.code() == code,
    {
        if 100 <= code && code <= 999 {
            Some(HttpStatus { code })
        } else {
            None
        }
    }

    pub fn as_u16(&self) -> (code: u16)
        ensures
            code == self.code(),
            100 <= code <= 999,
    {
        proof {
            use_type_invariant(self);
        }
        self.code
    }

    pub fn is_success(&self) -> (yes: bool)
        ensures
            yes == Self::success(self.code()),
    {
        200 <= self.code && self.code < 300
    }

    pub fn is_server_error(&self) -> (yes: bool)
        ensures
            yes == Self::server_error(self.code()),
    {
        500 <= self.code && self.code < 600
    }

    pub fn is_too_many_requests(&self) -> (yes: bool)
        ensures
            yes == Self::too_many_requests(self.code()),
    {
        self.code == 429
    }

    /// The status as text, as `reqwest` displays it.
    pub fn to_text(&self) -> (text: String)
        ensures
            text@ == status_line(self.code()),
    {
        proof {
            use_type_invariant(self);
        }
        display_status(self.code)
    }
}

/// Builds the `reqwest::StatusCode` of `code` with `StatusCode::from_u16`, which
/// accepts exactly the numbers from 100 to 999, and returns what its `Display`
/// writes. The contract only gives that text its name.
#[verifier::external_body]
fn display_status(code: u16) -> (line: String)
    requires
        100 <= code <= 999,
    ensures
        line@ == status_line(code as nat),
{
    match reqwest::StatusCode::from_u16(code) {
        Ok(status) => status.to_string(),
        Err(_) => String::new(),
    }
}

} // verus!
