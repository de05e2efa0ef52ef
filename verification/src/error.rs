//! The error taxonomy of the library.
//!
//! Every endpoint call ends either in a value or in exactly one of these
//! errors; no retry is ever attempted, so each error is terminal for the
//! call that produced it.

use vstd::prelude::*;

verus! {

/// The classified failure of one endpoint call.
#[derive(Clone, Debug, PartialEq, Eq)]
pub enum RoboatError {
    /// The endpoint requires an authentication cookie and the session holds
    /// none. Raised before any network call is made.
    MissingAuthentication,
    /// The transport could not complete the request at all; carries the
    /// transport's own description of the failure.
    ConnectionFailed(String),
    /// The remote service answered 401 or 403: the cookie was rejected.
    AuthenticationRejected,
    /// The remote service answered 429: the caller is rate limited.
    RateLimited,
    /// The remote service answered some other non-2xx status; carries the
    /// status code and the raw body for diagnostics.
    UnexpectedStatus(u16, String),
    /// The 2xx body did not match the expected schema; carries the decoder's
    /// description. Distinct from HTTP-level failures: it indicates a
    /// contract mismatch with the remote service, not a connectivity problem.
    DecodeFailure(String),
}

} // verus!
