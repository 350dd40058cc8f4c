use std::time::Duration;

use honcho_ai::error::{from_response, parse_error_body, HonchoError};
use honcho_ai::message::{Message, Timestamp};

#[test]
fn detail_string_becomes_the_message() {
    let (msg, body) = parse_error_body(br#"{"detail":"Workspace not found"}"#);
    assert_eq!(msg, "Workspace not found");
    assert!(body.is_some());
}

#[test]
fn detail_array_messages_are_joined() {
    let (msg, _) = parse_error_body(
        br#"{"detail":[{"loc":["body","id"],"msg":"field required","type":"missing"},"bad id",{"loc":[]},7]}"#,
    );
    assert_eq!(msg, "field required; bad id");
}

#[test]
fn message_then_error_fields_are_used() {
    assert_eq!(parse_error_body(br#"{"message":"m","error":"e"}"#).0, "m");
    assert_eq!(parse_error_body(br#"{"error":"e"}"#).0, "e");
    assert_eq!(parse_error_body(br#"{"detail":[], "error":"e"}"#).0, "e");
}

#[test]
fn unreadable_objects_and_other_json_are_rendered() {
    assert_eq!(parse_error_body(br#"{"code":5}"#).0, r#"{"code":5}"#);
    assert_eq!(parse_error_body(br#""plain""#).0, "plain");
    assert_eq!(parse_error_body(b"[1,2]").0, "[1,2]");
}

#[test]
fn non_json_body_is_decoded_lossily() {
    let (msg, body) = parse_error_body(b"Bad gateway \xff!");
    assert_eq!(msg, "Bad gateway \u{fffd}!");
    assert!(body.is_none());
}

#[test]
fn statuses_map_to_variants() {
    let body = br#"{"detail":"nope"}"#;
    assert!(matches!(from_response(400, body, None), HonchoError::BadRequest { .. }));
    assert!(matches!(from_response(401, body, None), HonchoError::Authentication { .. }));
    assert!(matches!(from_response(403, body, None), HonchoError::PermissionDenied { .. }));
    assert!(matches!(from_response(404, body, None), HonchoError::NotFound { .. }));
    assert!(matches!(from_response(409, body, None), HonchoError::Conflict { .. }));
    assert!(matches!(from_response(422, body, None), HonchoError::UnprocessableEntity { .. }));
    assert!(matches!(from_response(418, body, None), HonchoError::Client { status: 418, .. }));
    assert!(matches!(from_response(503, body, None), HonchoError::Server { status: 503, .. }));
    assert_eq!(from_response(404, body, None).message(), "nope");
}

#[test]
fn rate_limit_keeps_retry_after() {
    let e = from_response(429, b"slow down", Some(Duration::from_secs(3)));
    assert_eq!(e.code(), "rate_limit_exceeded");
    assert_eq!(e.retry_after(), Some(Duration::from_secs(3)));
    assert!(e.is_retryable());
    assert_eq!(e.status_code(), Some(429));
}

#[test]
fn redirects_and_odd_statuses_get_their_own_message() {
    let e = from_response(302, b"", None);
    assert!(matches!(e, HonchoError::Client { status: 302, .. }));
    assert_eq!(e.message(), "unexpected redirect status 302");
    let e = from_response(204, b"", None);
    assert_eq!(e.message(), "unexpected response status 204");
}

#[test]
fn retry_policy() {
    assert!(from_response(500, b"", None).is_retryable());
    assert!(from_response(502, b"", None).is_retryable());
    assert!(!from_response(501, b"", None).is_retryable());
    assert!(!from_response(400, b"", None).is_retryable());
    assert!(HonchoError::Timeout { message: "t".into() }.is_retryable());
    assert!(!HonchoError::Validation("v".into()).is_retryable());
}

#[test]
fn partial_failure_exposes_inner_error() {
    let msg = Message::from_parts(
        "ws".into(),
        "m1".into(),
        "hi".into(),
        "p".into(),
        "s".into(),
        Default::default(),
        Timestamp { unix_seconds: 0, subsec_nanos: 0 },
        1,
    );
    let e = HonchoError::PartialFailure {
        messages: vec![msg],
        sent: 1,
        error: Box::new(from_response(503, b"down", None)),
    };
    assert!(e.is_partial_failure());
    assert!(!e.is_retryable());
    assert_eq!(e.status_code(), Some(503));
    assert_eq!(e.message(), "down");
    let (messages, inner) = e.into_partial_failure().unwrap();
    assert_eq!(messages[0].id(), "m1");
    assert_eq!(inner.code(), "server_error");
}

#[test]
fn statuses_outside_every_category_are_client_errors() {
    let e = from_response(600, b"proxy error", None);
    assert!(matches!(e, HonchoError::Client { status: 600, .. }));
    assert_eq!(e.code(), "client_error");
    assert_eq!(e.message(), "unexpected response status 600");
    assert!(!e.is_retryable());
    assert!(matches!(from_response(599, b"x", None), HonchoError::Server { status: 599, .. }));
}
