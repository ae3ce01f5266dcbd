use bytes::Bytes;
use marta_cache::error::{
    check_status, find_reason, handle_client_error, handle_response, status_line, status_text,
    MartaError,
};

#[test]
fn success_statuses_give_the_body() {
    assert_eq!(handle_response(200, Bytes::from_static(b"ok")), Ok(Bytes::from_static(b"ok")));
    assert_eq!(handle_response(204, Bytes::new()), Ok(Bytes::new()));
    assert_eq!(handle_response(299, Bytes::from_static(b"x")), Ok(Bytes::from_static(b"x")));
    assert_eq!(check_status(200), Ok(()));
    assert_eq!(check_status(299), Ok(()));
}

#[test]
fn failure_statuses_are_sorted() {
    let body = Bytes::from_static(b"ignored");
    assert_eq!(handle_response(401, body.clone()), Err(MartaError::Unauthorized));
    assert_eq!(handle_response(500, body.clone()), Err(MartaError::InternalServerError));
    assert_eq!(handle_response(404, body.clone()), Err(MartaError::GenericError(404)));
    assert_eq!(handle_response(199, body.clone()), Err(MartaError::GenericError(199)));
    assert_eq!(handle_response(300, body.clone()), Err(MartaError::GenericError(300)));
    assert_eq!(handle_response(503, body.clone()), Err(MartaError::GenericError(503)));
    assert_eq!(handle_response(0, body), Err(MartaError::GenericError(0)));
    assert_eq!(check_status(401), Err(MartaError::Unauthorized));
    assert_eq!(check_status(500), Err(MartaError::InternalServerError));
    assert_eq!(check_status(302), Err(MartaError::GenericError(302)));
}

#[test]
fn client_errors_are_sorted() {
    assert_eq!(handle_client_error(true), MartaError::TimeoutError);
    assert_eq!(handle_client_error(false), MartaError::TransportError);
}

#[test]
fn messages_name_the_failure() {
    assert_eq!(MartaError::Unauthorized.message(), "Authorization failed against MARTA API");
    assert_eq!(MartaError::InternalServerError.message(), "MARTA API did not return results");
    assert_eq!(MartaError::TimeoutError.message(), "MARTA API timed out");
    assert_eq!(MartaError::GenericError(404).message(), "MARTA API returned HTTP 404 Not Found");
    assert_eq!(
        MartaError::GenericError(503).message(),
        "MARTA API returned HTTP 503 Service Unavailable"
    );
    assert_eq!(
        MartaError::GenericError(599).message(),
        "MARTA API returned HTTP 599 <unknown status code>"
    );
    assert_eq!(
        MartaError::GenericError(42).message(),
        "MARTA API returned HTTP 42 <unknown status code>"
    );
    assert_eq!(MartaError::TransportError.message(), "MARTA API could not be reached");
}

#[test]
fn status_codes_are_written_in_decimal() {
    assert_eq!(status_text(0), "0");
    assert_eq!(status_text(7), "7");
    assert_eq!(status_text(10), "10");
    assert_eq!(status_text(404), "404");
    assert_eq!(status_text(1000), "1000");
    assert_eq!(status_text(65535), "65535");
}

#[test]
fn reason_phrases_are_looked_up() {
    assert_eq!(find_reason(404), Some("Not Found"));
    assert_eq!(find_reason(302), Some("Found"));
    assert_eq!(find_reason(429), Some("Too Many Requests"));
    assert_eq!(find_reason(100), Some("Continue"));
    assert_eq!(find_reason(999), None);
    assert_eq!(find_reason(99), None);
    assert_eq!(find_reason(1000), None);
    assert_eq!(find_reason(0), None);
}

#[test]
fn status_lines_join_number_and_phrase() {
    assert_eq!(status_line(404, Some("Not Found")), "404 Not Found");
    assert_eq!(status_line(418, None), "418 <unknown status code>");
    assert_eq!(status_line(7, Some("Seven")), "7 Seven");
}
