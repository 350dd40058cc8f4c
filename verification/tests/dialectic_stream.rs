use honcho_ai::dialectic_stream::{DialecticStream, FinalResponse};
use honcho_ai::error::{HonchoError, Result};

fn ok_chunk(s: &str) -> Option<Result<String>> {
    Some(Ok(s.to_string()))
}

fn drain(stream: &mut DialecticStream<()>, polls: Vec<Option<Result<String>>>) -> Vec<Result<String>> {
    let mut out = Vec::new();
    for p in polls {
        if let Some(item) = stream.observe(p) {
            out.push(item);
        }
    }
    out
}

#[test]
fn dialectic_stream_accumulates_during_iteration() {
    let mut stream = DialecticStream::new(());
    let collected: Vec<String> = drain(&mut stream, vec![ok_chunk("hello"), ok_chunk(" "), ok_chunk("world"), None])
        .into_iter()
        .map(|r| r.unwrap())
        .collect();
    assert_eq!(collected, vec!["hello", " ", "world"]);
    assert_eq!(stream.final_response().content(), "hello world");
}

#[test]
fn dialectic_stream_is_complete_after_done() {
    let mut stream = DialecticStream::new(());
    assert!(!stream.is_complete());
    drain(&mut stream, vec![ok_chunk("a"), ok_chunk("b"), None]);
    assert!(stream.is_complete());
    assert_eq!(stream.final_response().content(), "ab");
}

#[test]
fn dialectic_stream_final_response_before_completion_returns_partial() {
    let mut stream = DialecticStream::new(());
    let first = stream.observe(ok_chunk("first")).unwrap().unwrap();
    assert_eq!(first, "first");
    assert_eq!(stream.final_response().content(), "first");
    assert!(!stream.is_complete());
}

#[test]
fn error_sets_complete_and_errored_state() {
    let mut stream = DialecticStream::new(());
    assert_eq!(stream.observe(ok_chunk("partial")).unwrap().unwrap(), "partial");
    assert!(!stream.is_complete());
    assert!(!stream.is_errored());
    let err = stream
        .observe(Some(Err(HonchoError::Connection { message: "boom".to_string() })))
        .unwrap()
        .unwrap_err();
    assert!(matches!(err, HonchoError::Connection { .. }));
    assert!(stream.is_complete());
    assert!(stream.is_errored());
    assert_eq!(stream.final_response().content(), "partial");
    assert!(stream.observe(ok_chunk("late")).is_none());
    assert_eq!(stream.final_response().content(), "partial");
}

#[test]
fn dialectic_stream_empty_input() {
    let mut stream = DialecticStream::new(());
    assert!(stream.observe(None).is_none());
    assert!(stream.is_complete());
    assert!(!stream.is_errored());
    assert_eq!(stream.final_response().content(), "");
}

#[test]
fn nothing_passes_after_the_end() {
    let mut stream = DialecticStream::new(());
    assert!(stream.observe(None).is_none());
    assert!(stream.observe(ok_chunk("x")).is_none());
    assert_eq!(stream.final_response().content(), "");
}

#[test]
fn dialectic_stream_final_response_display() {
    let mut stream = DialecticStream::new(());
    drain(&mut stream, vec![ok_chunk("hello"), None]);
    assert_eq!(stream.final_response().to_string(), "hello");
}

#[test]
fn dialectic_stream_final_response_eq() {
    let mut stream = DialecticStream::new(());
    drain(&mut stream, vec![ok_chunk("abc"), None]);
    assert_eq!(stream.final_response(), &FinalResponse::new("abc".to_string()));
}

#[test]
fn inner_stream_is_reachable() {
    let mut stream = DialecticStream::new(vec![1, 2]);
    stream.inner_mut().push(3);
    assert_eq!(stream.inner_mut(), &vec![1, 2, 3]);
}

#[test]
fn dialectic_stream_propagates_errors() {
    let mut stream = DialecticStream::new(());
    let first = stream.observe(ok_chunk("ok")).unwrap().unwrap();
    assert_eq!(first, "ok");
    let err = stream
        .observe(Some(Err(HonchoError::Connection { message: "boom".to_string() })))
        .unwrap()
        .unwrap_err();
    assert!(matches!(err, HonchoError::Connection { .. }));
    assert_eq!(stream.final_response().content(), "ok");
}

#[test]
fn poll_next_after_end_does_not_touch_inner() {
    let mut stream = DialecticStream::new(());
    assert!(stream.observe(None).is_none());
    assert!(stream.is_complete());
    assert!(stream.observe(None).is_none());
    assert!(stream.observe(ok_chunk("late")).is_none());
    assert!(stream.is_complete());
}

#[test]
fn fused_stream_is_terminated_tracks_completion() {
    let mut stream = DialecticStream::new(());
    assert!(!stream.is_complete());
    drain(&mut stream, vec![ok_chunk("x"), None]);
    assert!(stream.is_complete());
}

#[test]
fn flags_follow_the_first_answer_that_is_not_a_chunk() {
    let mut ended = DialecticStream::new(());
    drain(&mut ended, vec![ok_chunk("a"), None, Some(Err(HonchoError::Connection { message: "late".to_string() }))]);
    assert!(ended.is_complete());
    assert!(!ended.is_errored());
    assert_eq!(ended.final_response().content(), "a");

    let mut failed = DialecticStream::new(());
    drain(&mut failed, vec![ok_chunk("a"), Some(Err(HonchoError::Connection { message: "late".to_string() })), None]);
    assert!(failed.is_complete());
    assert!(failed.is_errored());

    let mut running = DialecticStream::new(());
    drain(&mut running, vec![ok_chunk("a"), ok_chunk("b")]);
    assert!(!running.is_complete());
    assert!(!running.is_errored());
}
