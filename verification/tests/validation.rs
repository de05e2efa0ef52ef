use roboat::validation::{validate_request_result, validate_response, HttpResponse};
use roboat::RoboatError;

fn resp(status: u16, body: &str) -> HttpResponse {
    HttpResponse { status, body: body.to_string() }
}

#[test]
fn success_passes_body_through() {
    let r = validate_request_result(Ok(resp(200, "{\"count\":3}")));
    assert_eq!(r, Ok("{\"count\":3}".to_string()));
}

#[test]
fn success_covers_whole_2xx_range() {
    assert_eq!(validate_response(resp(201, "a")), Ok("a".to_string()));
    assert_eq!(validate_response(resp(299, "b")), Ok("b".to_string()));
}

#[test]
fn rate_limited_is_not_unexpected_status() {
    let r = validate_request_result(Ok(resp(429, "slow down")));
    assert_eq!(r, Err(RoboatError::RateLimited));
}

#[test]
fn auth_rejected_on_401() {
    let r = validate_request_result(Ok(resp(401, "")));
    assert_eq!(r, Err(RoboatError::AuthenticationRejected));
}

#[test]
fn auth_rejected_on_403() {
    let r = validate_request_result(Ok(resp(403, "")));
    assert_eq!(r, Err(RoboatError::AuthenticationRejected));
}

#[test]
fn unexpected_status_carries_status_and_body() {
    let r = validate_request_result(Ok(resp(404, "not found")));
    assert_eq!(r, Err(RoboatError::UnexpectedStatus(404, "not found".to_string())));
    let r = validate_request_result(Ok(resp(500, "boom")));
    assert_eq!(r, Err(RoboatError::UnexpectedStatus(500, "boom".to_string())));
}

#[test]
fn status_just_outside_2xx_is_unexpected() {
    assert_eq!(
        validate_response(resp(199, "x")),
        Err(RoboatError::UnexpectedStatus(199, "x".to_string()))
    );
    assert_eq!(
        validate_response(resp(300, "y")),
        Err(RoboatError::UnexpectedStatus(300, "y".to_string()))
    );
}

#[test]
fn transport_failure_becomes_connection_failed() {
    let r = validate_request_result(Err("dns lookup failed".to_string()));
    assert_eq!(r, Err(RoboatError::ConnectionFailed("dns lookup failed".to_string())));
}
