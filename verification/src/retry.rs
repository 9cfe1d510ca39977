//! The delivery retry policy: a client-side failure aborts at once, since
//! retrying cannot succeed; everything else retries with exponential
//! backoff under a fixed ceiling, so no alert is ever silently abandoned.

use vstd::prelude::*;

verus! {

/// The first pause before a retry, in milliseconds.
pub const INITIAL_RETRY_SLEEP_MILLIS: u64 = 500;

/// The longest pause between retries, in milliseconds.
pub const MAX_RETRY_SLEEP_MILLIS: u64 = 30000;

/// What one delivery attempt's outcome means for the retry loop.
#[derive(Clone, Copy, Debug, PartialEq, Eq, Structural)]
pub enum RequestClass {
    /// The request went through; the alert is delivered.
    Success,
    /// The service rejected the request as malformed or unauthorized;
    /// retrying cannot succeed, so the error is surfaced at once.
    ClientSide,
    /// A transport failure or a server-side rejection; worth retrying.
    ServerSide,
}

/// The class of an HTTP outcome: a 2xx status is success, a 4xx status a
/// client-side rejection, anything else — a transport failure included —
/// a server-side condition.
pub open spec fn spec_classify(status: Option<u16>) -> RequestClass {
    match status {
        None => RequestClass::ServerSide,
        Some(code) => if 200 <= code < 300 {
            RequestClass::Success
        } else if 400 <= code < 500 {
            RequestClass::ClientSide
        } else {
            RequestClass::ServerSide
        },
    }
}

/// Classify one delivery attempt's outcome; `None` stands for a transport
/// failure with no HTTP status at all.
pub fn classify_status(status: Option<u16>) -> (r: RequestClass)
    ensures
        r == spec_classify(status),
{
    match status {
        None => RequestClass::ServerSide,
        Some(code) => {
            if 200 <= code && code < 300 {
                RequestClass::Success
            } else if 400 <= code && code < 500 {
                RequestClass::ClientSide
            } else {
                RequestClass::ServerSide
            }
        },
    }
}

/// The pause after the next failure: double the current pause, capped at
/// the ceiling.
pub open spec fn spec_next_backoff(current: u64) -> u64 {
    if current > MAX_RETRY_SLEEP_MILLIS / 2 {
        MAX_RETRY_SLEEP_MILLIS
    } else {
        (current * 2) as u64
    }
}

/// The pause to take after one more failure: it never exceeds the ceiling,
/// and never shrinks below a current pause that is within the ceiling.
pub fn next_backoff(current: u64) -> (r: u64)
    ensures
        r == spec_next_backoff(current),
        r <= MAX_RETRY_SLEEP_MILLIS,
        current <= MAX_RETRY_SLEEP_MILLIS ==> r >= current,
{
    if current > MAX_RETRY_SLEEP_MILLIS / 2 {
        MAX_RETRY_SLEEP_MILLIS
    } else {
        current * 2
    }
}

} // verus!
