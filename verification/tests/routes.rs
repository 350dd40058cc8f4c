use honcho_ai::error::HonchoError;
use honcho_ai::routes::{
    conclusion, conclusion_delete, conclusions, conclusions_list, conclusions_query, encode, message,
    messages, messages_list, messages_upload, peer, peer_card, peer_chat, peer_context,
    peer_representation, peer_search, peer_sessions_list, peers, peers_list, session,
    session_clone, session_context, session_peer_config, session_peers, session_search,
    session_summaries, sessions, sessions_list, validate_id, workspace, workspace_queue_status,
    workspace_schedule_dream, workspace_search, workspaces, workspaces_list,
};

#[test]
fn test_workspaces() {
    assert_eq!(workspaces(), "/v3/workspaces");
}

#[test]
fn test_workspaces_list() {
    assert_eq!(workspaces_list(), "/v3/workspaces/list");
}

#[test]
fn test_workspace() {
    assert_eq!(workspace("ws1").unwrap(), "/v3/workspaces/ws1");
}

#[test]
fn test_workspace_search() {
    assert_eq!(
        workspace_search("ws1").unwrap(),
        "/v3/workspaces/ws1/search"
    );
}

#[test]
fn test_workspace_queue_status() {
    assert_eq!(
        workspace_queue_status("ws1").unwrap(),
        "/v3/workspaces/ws1/queue/status"
    );
}

#[test]
fn test_workspace_schedule_dream() {
    assert_eq!(
        workspace_schedule_dream("ws1").unwrap(),
        "/v3/workspaces/ws1/schedule_dream"
    );
}

#[test]
fn test_peers() {
    assert_eq!(peers("ws1").unwrap(), "/v3/workspaces/ws1/peers");
}

#[test]
fn test_peers_list() {
    assert_eq!(peers_list("ws1").unwrap(), "/v3/workspaces/ws1/peers/list");
}

#[test]
fn test_peer() {
    assert_eq!(
        peer("ws1", "alice").unwrap(),
        "/v3/workspaces/ws1/peers/alice"
    );
}

#[test]
fn test_peer_chat() {
    assert_eq!(
        peer_chat("ws1", "alice").unwrap(),
        "/v3/workspaces/ws1/peers/alice/chat"
    );
}

#[test]
fn test_peer_representation() {
    assert_eq!(
        peer_representation("ws1", "alice").unwrap(),
        "/v3/workspaces/ws1/peers/alice/representation"
    );
}

#[test]
fn test_peer_card() {
    assert_eq!(
        peer_card("ws1", "alice").unwrap(),
        "/v3/workspaces/ws1/peers/alice/card"
    );
}

#[test]
fn test_peer_context() {
    assert_eq!(
        peer_context("ws1", "alice").unwrap(),
        "/v3/workspaces/ws1/peers/alice/context"
    );
}

#[test]
fn test_peer_search() {
    assert_eq!(
        peer_search("ws1", "alice").unwrap(),
        "/v3/workspaces/ws1/peers/alice/search"
    );
}

#[test]
fn test_peer_sessions_list() {
    assert_eq!(
        peer_sessions_list("ws1", "alice").unwrap(),
        "/v3/workspaces/ws1/peers/alice/sessions"
    );
}

#[test]
fn test_sessions() {
    assert_eq!(sessions("ws1").unwrap(), "/v3/workspaces/ws1/sessions");
}

#[test]
fn test_sessions_list() {
    assert_eq!(
        sessions_list("ws1").unwrap(),
        "/v3/workspaces/ws1/sessions/list"
    );
}

#[test]
fn test_session() {
    assert_eq!(
        session("ws1", "sess1").unwrap(),
        "/v3/workspaces/ws1/sessions/sess1"
    );
}

#[test]
fn test_session_clone() {
    assert_eq!(
        session_clone("ws1", "sess1").unwrap(),
        "/v3/workspaces/ws1/sessions/sess1/clone"
    );
}

#[test]
fn test_session_context() {
    assert_eq!(
        session_context("ws1", "sess1").unwrap(),
        "/v3/workspaces/ws1/sessions/sess1/context"
    );
}

#[test]
fn test_session_summaries() {
    assert_eq!(
        session_summaries("ws1", "sess1").unwrap(),
        "/v3/workspaces/ws1/sessions/sess1/summaries"
    );
}

#[test]
fn test_session_search() {
    assert_eq!(
        session_search("ws1", "sess1").unwrap(),
        "/v3/workspaces/ws1/sessions/sess1/search"
    );
}

#[test]
fn test_session_peers() {
    assert_eq!(
        session_peers("ws1", "sess1").unwrap(),
        "/v3/workspaces/ws1/sessions/sess1/peers"
    );
}

#[test]
fn test_session_peer_config() {
    assert_eq!(
        session_peer_config("ws1", "sess1", "alice").unwrap(),
        "/v3/workspaces/ws1/sessions/sess1/peers/alice/config"
    );
}

#[test]
fn test_messages() {
    assert_eq!(
        messages("ws1", "sess1").unwrap(),
        "/v3/workspaces/ws1/sessions/sess1/messages"
    );
}

#[test]
fn test_messages_list() {
    assert_eq!(
        messages_list("ws1", "sess1").unwrap(),
        "/v3/workspaces/ws1/sessions/sess1/messages/list"
    );
}

#[test]
fn test_message() {
    assert_eq!(
        message("ws1", "sess1", "msg1").unwrap(),
        "/v3/workspaces/ws1/sessions/sess1/messages/msg1"
    );
}

#[test]
fn test_messages_upload() {
    assert_eq!(
        messages_upload("ws1", "sess1").unwrap(),
        "/v3/workspaces/ws1/sessions/sess1/messages/upload"
    );
}

#[test]
fn test_conclusions() {
    assert_eq!(
        conclusions("ws1").unwrap(),
        "/v3/workspaces/ws1/conclusions"
    );
}

#[test]
fn test_conclusions_list() {
    assert_eq!(
        conclusions_list("ws1").unwrap(),
        "/v3/workspaces/ws1/conclusions/list"
    );
}

#[test]
fn test_conclusions_query() {
    assert_eq!(
        conclusions_query("ws1").unwrap(),
        "/v3/workspaces/ws1/conclusions/query"
    );
}

#[test]
fn test_conclusion() {
    assert_eq!(
        conclusion("ws1", "conc1").unwrap(),
        "/v3/workspaces/ws1/conclusions/conc1"
    );
}

#[test]
fn test_workspace_empty_id_returns_validation_error() {
    let err = workspace("").unwrap_err();
    assert!(matches!(err, HonchoError::Validation(_)));
    assert!(err.message().to_string().contains("workspace_id"));
}

#[test]
fn test_peer_empty_peer_id_returns_validation_error() {
    let err = peer("ws1", "").unwrap_err();
    assert!(matches!(err, HonchoError::Validation(_)));
    assert!(err.message().to_string().contains("peer_id"));
}

#[test]
fn test_session_empty_session_id_returns_validation_error() {
    let err = session("ws1", "").unwrap_err();
    assert!(matches!(err, HonchoError::Validation(_)));
    assert!(err.message().to_string().contains("session_id"));
}

#[test]
fn test_message_empty_message_id_returns_validation_error() {
    let err = message("ws1", "sess1", "").unwrap_err();
    assert!(matches!(err, HonchoError::Validation(_)));
    assert!(err.message().to_string().contains("message_id"));
}

#[test]
fn test_conclusion_empty_id_returns_validation_error() {
    let err = conclusion("ws1", "").unwrap_err();
    assert!(matches!(err, HonchoError::Validation(_)));
    assert!(err.message().to_string().contains("conclusion_id"));
}

#[test]
fn test_workspace_dot_segment_rejected() {
    assert!(matches!(
        workspace(".").unwrap_err(),
        HonchoError::Validation(_)
    ));
    assert!(matches!(
        workspace("..").unwrap_err(),
        HonchoError::Validation(_)
    ));
}

#[test]
fn test_workspace_percent_encoded_dot_rejected() {
    assert!(matches!(
        workspace("%2e").unwrap_err(),
        HonchoError::Validation(_)
    ));
    assert!(matches!(
        workspace("%2e%2e").unwrap_err(),
        HonchoError::Validation(_)
    ));
    assert!(matches!(
        workspace("%2E").unwrap_err(),
        HonchoError::Validation(_)
    ));
}

#[test]
fn test_workspace_whitespace_only_rejected() {
    assert!(matches!(
        workspace("   ").unwrap_err(),
        HonchoError::Validation(_)
    ));
}

#[test]
fn test_encode_space() {
    assert_eq!(encode("hello world"), "hello%20world");
}

#[test]
fn test_encode_slash() {
    assert_eq!(encode("a/b"), "a%2Fb");
}

#[test]
fn test_encode_unicode() {
    assert_eq!(encode("café"), "caf%C3%A9");
}

#[test]
fn test_encode_percent() {
    assert_eq!(encode("100%"), "100%25");
}

#[test]
fn test_encode_unreserved() {
    assert_eq!(encode("A-Z.0-9_-~"), "A-Z.0-9_-~");
}

#[test]
fn conclusion_delete_uses_the_conclusion_path() {
    assert_eq!(
        conclusion_delete("ws1", "c 1").unwrap(),
        "/v3/workspaces/ws1/conclusions/c%201"
    );
}

#[test]
fn encoded_ids_keep_slashes_out_of_the_path() {
    assert_eq!(
        peer("team/a", "x?y").unwrap(),
        "/v3/workspaces/team%2Fa/peers/x%3Fy"
    );
}

#[test]
fn encode_of_empty_is_empty() {
    assert_eq!(encode(""), "");
}

#[test]
fn encode_escapes_every_reserved_ascii_byte_in_upper_hex() {
    assert_eq!(encode("a b#?&=+:@"), "a%20b%23%3F%26%3D%2B%3A%40");
}

#[test]
fn validation_names_the_second_id_when_only_it_is_bad() {
    let err = session_peer_config("ws1", "s1", "..").unwrap_err();
    assert!(matches!(err, HonchoError::Validation(_)));
    assert_eq!(err.message(), "peer_id must not be a dot-segment ('.' or '..')");
}

#[test]
fn first_bad_id_is_reported() {
    let err = message(" ", "", "").unwrap_err();
    assert_eq!(err.message(), "workspace_id must not be empty or whitespace-only");
}

#[test]
fn validate_id_accepts_dots_inside_names() {
    assert!(validate_id("a.b", "workspace_id").is_ok());
    assert!(validate_id("...", "workspace_id").is_ok());
    assert!(validate_id("%2e%2E", "workspace_id").is_err());
}
