use std::time::Duration;

use honcho_ai::error::{from_response, HonchoError};
use honcho_ai::retry::{backoff_ms, next_retry_delay, DEFAULT_MAX_RETRIES};

#[test]
fn backoff_doubles_up_to_the_cap() {
    assert_eq!(backoff_ms(0), 500);
    assert_eq!(backoff_ms(1), 1000);
    assert_eq!(backoff_ms(2), 2000);
    assert_eq!(backoff_ms(4), 8000);
    assert_eq!(backoff_ms(5), 8000);
    assert_eq!(backoff_ms(u32::MAX), 8000);
}

#[test]
fn transient_errors_are_retried_twice() {
    let e = from_response(503, b"down", None);
    assert_eq!(next_retry_delay(0, DEFAULT_MAX_RETRIES, &e), Some(Duration::from_millis(500)));
    assert_eq!(next_retry_delay(1, DEFAULT_MAX_RETRIES, &e), Some(Duration::from_millis(1000)));
    assert_eq!(next_retry_delay(2, DEFAULT_MAX_RETRIES, &e), None);
}

#[test]
fn retry_after_is_respected() {
    let e = from_response(429, b"slow", Some(Duration::from_secs(7)));
    assert_eq!(next_retry_delay(0, 2, &e), Some(Duration::from_secs(7)));
}

#[test]
fn permanent_errors_are_not_retried() {
    assert_eq!(next_retry_delay(0, 2, &from_response(404, b"", None)), None);
    assert_eq!(next_retry_delay(0, 2, &HonchoError::Validation("v".into())), None);
    let timeout = HonchoError::Timeout { message: "t".into() };
    assert_eq!(next_retry_delay(0, 0, &timeout), None);
    assert_eq!(next_retry_delay(0, 1, &timeout), Some(Duration::from_millis(500)));
}
