//! Classification of transport outcomes into success or a typed error.
//!
//! Every endpoint funnels its raw HTTP outcome through
//! [`validate_request_result`] before any decoding happens, so the error
//! taxonomy is decided in exactly one place.

use vstd::prelude::*;

use crate::error::RoboatError;

verus! {

/// The raw outcome of one HTTP round trip: the status code and the body
/// text, as the transport produced them.
#[derive(Clone, Debug, PartialEq, Eq)]
pub struct HttpResponse {
    pub status: u16,
    pub body: String,
}

/// Whether a status code counts as success.
pub open spec fn is_success_status(status: u16) -> bool {
    200 <= status < 300
}

/// The error a given non-success status classifies to, together with the
/// response body it arrived with.
pub open spec fn status_error(status: u16, body: String) -> RoboatError {
    if status == 401 || status == 403 {
        RoboatError::AuthenticationRejected
    } else if status == 429 {
        RoboatError::RateLimited
    } else {
        RoboatError::UnexpectedStatus(status, body)
    }
}

/// Classifies a response by its status code: 2xx passes the body through to
/// the decoder; 401/403 means the cookie was rejected; 429 means the caller
/// is rate limited; any other status is surfaced with its code and body.
pub fn validate_response(response: HttpResponse) -> (r: Result<String, RoboatError>)
    ensures
        is_success_status(response.status) ==> r == Ok::<String, RoboatError>(response.body),
        !is_success_status(response.status) ==> r == Err::<String, RoboatError>(
            status_error(response.status, response.body),
        ),
{
    if 200 <= response.status && response.status < 300 {
        Ok(response.body)
    } else if response.status == 401 || response.status == 403 {
        Err(RoboatError::AuthenticationRejected)
    } else if response.status == 429 {
        Err(RoboatError::RateLimited)
    } else {
        Err(RoboatError::UnexpectedStatus(response.status, response.body))
    }
}

/// What one HTTP round trip classifies to: a transport-level failure
/// becomes [`RoboatError::ConnectionFailed`] with the transport's message; a
/// completed response is classified by its status code.
pub open spec fn classified_result(request_result: Result<HttpResponse, String>) -> Result<
    String,
    RoboatError,
> {
    match request_result {
        Ok(resp) => if is_success_status(resp.status) {
            Ok(resp.body)
        } else {
            Err(status_error(resp.status, resp.body))
        },
        Err(m) => Err(RoboatError::ConnectionFailed(m)),
    }
}

/// Classifies the outcome of one HTTP round trip, exactly as
/// [`classified_result`] states.
pub fn validate_request_result(request_result: Result<HttpResponse, String>) -> (r: Result<
    String,
    RoboatError,
>)
    ensures
        r == classified_result(request_result),
{
    match request_result {
        Ok(response) => validate_response(response),
        Err(message) => Err(RoboatError::ConnectionFailed(message)),
    }
}

} // verus!
