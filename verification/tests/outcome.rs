use fcm::response::handle_response;
use fcm::Client;
use fcm::ErrorReason;
use fcm::FcmError;
use fcm::HttpDate;
use fcm::RetryAfter;

#[test]
fn ok_body_yields_its_identifier() {
    let r = handle_response(200, None, "{\"name\":\"projects/p/messages/123\"}");
    let resp = r.unwrap();
    assert_eq!(resp.message_id.as_deref(), Some("projects/p/messages/123"));
    assert_eq!(resp.error, None);
}

#[test]
fn ok_with_unavailable_reason_is_server_error_with_delay() {
    let r = handle_response(
        200,
        Some("120"),
        "{\"name\":\"projects/p/messages/1\",\"error\":\"Unavailable\"}",
    );
    assert_eq!(
        r.unwrap_err(),
        FcmError::ServerError(Some(RetryAfter::DelaySeconds(120)))
    );
}

#[test]
fn ok_with_internal_server_error_reason_is_server_error() {
    let r = handle_response(200, None, "{\"error\":\"InternalServerError\"}");
    assert_eq!(r.unwrap_err(), FcmError::ServerError(None));
}

#[test]
fn ok_with_unknown_error_code_is_tolerated() {
    let r = handle_response(200, None, "{\"name\":\"n\",\"error\":\"SomethingElse\"}");
    let resp = r.unwrap();
    assert_eq!(resp.message_id.as_deref(), Some("n"));
    assert_eq!(resp.error, None);
}

#[test]
fn unauthorized_regardless_of_body() {
    let r = handle_response(401, None, "{\"name\":\"projects/p/messages/1\"}");
    assert_eq!(r.unwrap_err(), FcmError::Unauthorized);
    let r2 = handle_response(401, Some("120"), "not json at all");
    assert_eq!(r2.unwrap_err(), FcmError::Unauthorized);
}

#[test]
fn bad_request_is_invalid_message() {
    let r = handle_response(400, None, "{}");
    assert_eq!(r.unwrap_err(), FcmError::InvalidMessage("Bad Request".to_string()));
}

#[test]
fn server_error_with_http_date_hint() {
    let r = handle_response(503, Some("Wed, 21 Oct 2024 07:28:00 GMT"), "");
    assert_eq!(
        r.unwrap_err(),
        FcmError::ServerError(Some(RetryAfter::DateTime(HttpDate {
            year: 2024,
            month: 10,
            day: 21,
            hour: 7,
            minute: 28,
            second: 0,
        })))
    );
}

#[test]
fn unmapped_status_is_unknown_error() {
    let r = handle_response(418, None, "{}");
    assert_eq!(r.unwrap_err(), FcmError::InvalidMessage("Unknown Error".to_string()));
}

#[test]
fn malformed_retry_after_is_discarded() {
    let r = handle_response(503, Some("soon"), "");
    assert_eq!(r.unwrap_err(), FcmError::ServerError(None));
}

#[test]
fn retry_after_parses_delta_seconds() {
    assert_eq!(RetryAfter::parse("0"), Some(RetryAfter::DelaySeconds(0)));
    assert_eq!(RetryAfter::parse("120"), Some(RetryAfter::DelaySeconds(120)));
    assert_eq!(RetryAfter::parse("007"), Some(RetryAfter::DelaySeconds(7)));
    assert_eq!(RetryAfter::parse(""), None);
    assert_eq!(RetryAfter::parse("12a"), None);
    assert_eq!(RetryAfter::parse("-5"), None);
    assert_eq!(
        RetryAfter::parse("18446744073709551615"),
        Some(RetryAfter::DelaySeconds(u64::MAX))
    );
    assert_eq!(RetryAfter::parse("18446744073709551616"), None);
}

#[test]
fn retry_after_rejects_malformed_dates() {
    assert_eq!(RetryAfter::parse("Xyz, 21 Oct 2024 07:28:00 GMT"), None);
    assert_eq!(RetryAfter::parse("Wed, 21 Xxx 2024 07:28:00 GMT"), None);
    assert_eq!(RetryAfter::parse("Wed, 00 Oct 2024 07:28:00 GMT"), None);
    assert_eq!(RetryAfter::parse("Wed, 32 Oct 2024 07:28:00 GMT"), None);
    assert_eq!(RetryAfter::parse("Wed, 21 Oct 2024 24:28:00 GMT"), None);
    assert_eq!(RetryAfter::parse("Wed, 21 Oct 2024 07:60:00 GMT"), None);
    assert_eq!(RetryAfter::parse("Wed, 21 Oct 2024 07:28:00 UTC"), None);
    assert_eq!(RetryAfter::parse("Wed, 21 Oct 2024 07:28:00"), None);
}

#[test]
fn retry_after_parses_every_month() {
    let months = [
        ("Jan", 1u8), ("Feb", 2), ("Mar", 3), ("Apr", 4), ("May", 5), ("Jun", 6),
        ("Jul", 7), ("Aug", 8), ("Sep", 9), ("Oct", 10), ("Nov", 11), ("Dec", 12),
    ];
    for (name, number) in months {
        let value = format!("Fri, 05 {} 2021 23:59:59 GMT", name);
        match RetryAfter::parse(&value) {
            Some(RetryAfter::DateTime(d)) => assert_eq!(d.month, number),
            other => panic!("{} did not parse: {:?}", name, other),
        }
    }
}

#[test]
fn error_reason_parse_recognizes_the_two_transient_codes() {
    assert_eq!(ErrorReason::parse("Unavailable"), Some(ErrorReason::Unavailable));
    assert_eq!(
        ErrorReason::parse("InternalServerError"),
        Some(ErrorReason::InternalServerError)
    );
    assert_eq!(ErrorReason::parse("MissingRegistration"), None);
    assert_eq!(ErrorReason::parse(""), None);
}

#[test]
fn client_builds_endpoint_and_auth_header() {
    let client = Client::new("proj1".to_string(), "SECRET-REDACTED".to_string());
    assert_eq!(
        client.endpoint_url(),
        "https://fcm.googleapis.com/v1/projects/proj1/messages:send"
    );
    assert_eq!(client.auth_header_value(), "Bearer SECRET-REDACTED");
}

#[test]
fn default_client_is_empty() {
    let client = Client::default();
    assert_eq!(client.project_id, "");
    assert_eq!(client.token, "");
}

#[test]
fn one_client_serves_independent_calls() {
    let client = Client::new("proj1".to_string(), "tok".to_string());
    let first = handle_response(200, None, "{\"name\":\"a\"}");
    let second = handle_response(503, Some("1"), "");
    assert_eq!(first.unwrap().message_id.as_deref(), Some("a"));
    assert_eq!(
        second.unwrap_err(),
        FcmError::ServerError(Some(RetryAfter::DelaySeconds(1)))
    );
    assert_eq!(client.endpoint_url(), client.endpoint_url());
}
