use std::collections::HashMap;

use honcho_ai::message::{Message, Timestamp};

fn fake(content: &str, workspace_id: &str) -> Message {
    Message::from_parts(
        workspace_id.to_owned(),
        "msg_1".to_owned(),
        content.to_owned(),
        "peer_a".to_owned(),
        "sess_x".to_owned(),
        HashMap::new(),
        Timestamp { unix_seconds: 1_736_937_000, subsec_nanos: 0 },
        3,
    )
}

#[test]
fn from_raw_maps_fields() {
    let msg = fake("hello world", "ws_1");
    assert_eq!(msg.id(), "msg_1");
    assert_eq!(msg.content(), "hello world");
    assert_eq!(msg.peer_id(), "peer_a");
    assert_eq!(msg.session_id(), "sess_x");
    assert_eq!(msg.workspace_id(), "ws_1");
    assert_eq!(msg.token_count(), 3);
    assert!(msg.metadata().is_empty());
    assert_eq!(msg.created_at().unix_seconds, 1_736_937_000);
}

#[test]
fn from_raw_stores_response_workspace_id() {
    let msg = fake("hello world", "ws_from_server");
    assert_eq!(msg.workspace_id(), "ws_from_server");
}

#[test]
fn debug_truncates_long_content() {
    let msg = fake(&"a".repeat(80), "ws_1");
    let dbg = msg.debug_string();
    assert!(dbg.contains("aaa..."));
    assert!(!dbg.contains(&"a".repeat(80)));
}

#[test]
fn debug_short_content_not_truncated() {
    let msg = fake("hello world", "ws_1");
    let dbg = msg.debug_string();
    assert!(dbg.contains("hello world"));
    assert!(!dbg.contains("..."));
}

#[test]
fn display_returns_full_content() {
    let msg = fake(&"a".repeat(80), "ws_1");
    assert_eq!(msg.to_string(), "a".repeat(80));
}

#[test]
fn debug_truncation_multibyte_utf8() {
    let msg = fake(&"\u{4e00}".repeat(60), "ws_1");
    let dbg = msg.debug_string();
    assert!(dbg.contains("..."));
}

#[test]
fn debug_rendering_matches_the_struct_form() {
    let msg = fake("say \"hi\"", "ws_1");
    assert_eq!(
        msg.debug_string(),
        "Message { id: \"msg_1\", content: \"say \\\"hi\\\"\", peer_id: \"peer_a\", session_id: \"sess_x\", .. }"
    );
    let long = fake(&"b".repeat(51), "ws_1");
    assert_eq!(
        long.debug_string(),
        format!("Message {{ id: \"msg_1\", content: \"{}...\", peer_id: \"peer_a\", session_id: \"sess_x\", .. }}", "b".repeat(50))
    );
    let exact = fake(&"c".repeat(50), "ws_1");
    assert!(!exact.debug_string().contains("..."));
}
