//! The catalog client's policy: how long a request may take, how often it is
//! tried, and which responses are worth another try.

use crate::status::HttpStatus;
use vstd::prelude::*;

verus! {

/// Seconds allowed for opening a connection.
pub const CONNECT_TIMEOUT_SECS: u64 = 1;

/// Seconds allowed for one request as a whole.
pub const REQUEST_TIMEOUT_SECS: u64 = 1;

/// Seconds an idle connection is kept.
pub const POOL_IDLE_TIMEOUT_SECS: u64 = 5;

/// Idle connections kept for one host.
pub const POOL_MAX_IDLE_PER_HOST: usize = 1;

/// How often one request is sent at most, the first time included.
pub const MAX_ATTEMPTS: u32 = 3;

/// How often a request may be sent again after its first attempt.
pub fn max_retries() -> (retries: u32)
    ensures
        retries + 1 == MAX_ATTEMPTS,
{
    MAX_ATTEMPTS - 1
}

/// What a failed attempt calls for.
#[derive(Debug, Clone, Copy, PartialEq, Eq)]
pub enum Retryable {
    /// The failure may pass: the request is worth another attempt.
    Transient,
    /// The failure will not pass: the request is given up.
    Fatal,
}

/// How a response with the status number `code` is classed: a success is no
/// failure at all, a server error may pass, and everything else is final,
/// the rate limit and every other client error among it.
pub open spec fn response_class(code: nat) -> Option<Retryable> {
    if HttpStatus::success(code) {
        None
    } else if HttpStatus::server_error(code) {
        Some(Retryable::Transient)
    } else {
        Some(Retryable::Fatal)
    }
}

/// Classes a response by its status.
pub fn on_response(status: HttpStatus) -> (class: Option<Retryable>)
    ensures
        class == response_class(status.code()),
{
    if status.is_success() {
        None
    } else if status.is_server_error() {
        Some(Retryable::Transient)
    } else {
        Some(Retryable::Fatal)
    }
}

/// A response is tried again only where the server failed: never after a
/// success, never after the rate limit, never after any other client error.
pub proof fn lemma_only_server_errors_are_retried(code: nat)
    ensures
        response_class(code) == Some(Retryable::Transient) <==> 500 <= code < 600,
        HttpStatus::too_many_requests(code) ==> response_class(code) == Some(Retryable::Fatal),
        400 <= code < 500 ==> response_class(code) == Some(Retryable::Fatal),
        response_class(code) is None <==> HttpStatus::success(code),
{
}

} // verus!
