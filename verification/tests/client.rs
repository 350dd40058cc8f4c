use honcho_ai::client::{
    non_empty, queue_status_query, resolve_api_key, resolve_base_url, resolve_workspace_id,
    schedule_dream_body, session_queue_status_query, validate_workspace_id, Environment,
    EnsureState,
};
use honcho_ai::error::{from_response, HonchoError};
use honcho_ai::types::dream::DreamType;

#[test]
fn environment_base_urls() {
    assert_eq!(Environment::Local.base_url(), "http://localhost:8000");
    assert_eq!(Environment::Production.base_url(), "https://api.honcho.dev");
    assert_eq!(Environment::default(), Environment::Production);
}

#[test]
fn empty_honcho_url_falls_back_to_default() {
    let url = resolve_base_url(None, Some(String::new()), None, Environment::default());
    assert!(
        url.starts_with("https://api.honcho.dev"),
        "empty HONCHO_URL should fall back to the default, got {url}"
    );
}

#[test]
fn base_url_prefers_explicit_then_env_in_order() {
    let explicit = resolve_base_url(
        Some("http://a".into()),
        Some("http://b".into()),
        Some("http://c".into()),
        Environment::Local,
    );
    assert_eq!(explicit, "http://a");
    let first_env = resolve_base_url(None, Some("http://b".into()), Some("http://c".into()), Environment::Local);
    assert_eq!(first_env, "http://b");
    let second_env = resolve_base_url(None, Some(String::new()), Some("http://c".into()), Environment::Local);
    assert_eq!(second_env, "http://c");
    let fallback = resolve_base_url(None, None, Some(String::new()), Environment::Local);
    assert_eq!(fallback, "http://localhost:8000");
}

#[test]
fn api_key_and_workspace_resolution() {
    assert_eq!(resolve_api_key(Some("k".into()), Some("env".into())), Some("k".to_string()));
    assert_eq!(resolve_api_key(None, Some("env".into())), Some("env".to_string()));
    assert_eq!(resolve_api_key(None, Some(String::new())), None);
    assert_eq!(resolve_workspace_id(None, None), "default");
    assert_eq!(resolve_workspace_id(None, Some(String::new())), "default");
    assert_eq!(resolve_workspace_id(None, Some("ws-env".into())), "ws-env");
    assert_eq!(resolve_workspace_id(Some("ws".into()), Some("ws-env".into())), "ws");
    assert_eq!(non_empty(Some(String::new())), None);
    assert_eq!(non_empty(Some("x".into())), Some("x".to_string()));
}

#[test]
fn workspace_id_rules() {
    assert!(validate_workspace_id("my-workspace_01").is_ok());
    assert!(validate_workspace_id(&"a".repeat(512)).is_ok());

    let empty = validate_workspace_id("").unwrap_err();
    assert!(matches!(empty, HonchoError::Configuration(_)));
    assert_eq!(empty.message(), "workspace_id must not be empty");

    let long = validate_workspace_id(&"a".repeat(513)).unwrap_err();
    assert_eq!(long.message(), "workspace_id must be at most 512 characters");

    for bad in ["has space", "dot.ted", "caf\u{e9}", "a/b"] {
        let err = validate_workspace_id(bad).unwrap_err();
        assert_eq!(err.message(), "workspace_id must match [a-zA-Z0-9_-]+");
    }
}

#[test]
fn force_ensure_reissues_every_call() {
    let mut state = EnsureState::new();
    assert!(state.needs_ensure());
    assert!(state.on_ensure_result(Ok(())).is_ok());
    assert!(!state.needs_ensure());
    state.reset();
    assert!(state.needs_ensure());
    state.reset();
    assert!(state.needs_ensure());
}

#[test]
fn delete_self_workspace_resets_ensure() {
    let mut state = EnsureState::new();
    state.on_workspace_read();
    assert!(!state.needs_ensure());
    state.on_workspace_deleted("ws-1", "ws-1");
    assert!(state.needs_ensure());
}

#[test]
fn delete_other_workspace_keeps_ensure() {
    let mut state = EnsureState::new();
    state.on_workspace_read();
    state.on_workspace_deleted("other", "ws-1");
    assert!(!state.needs_ensure());
}

#[test]
fn ensure_conflict_counts_as_existing() {
    let mut state = EnsureState::new();
    let conflict = from_response(409, br#"{"detail":"exists"}"#, None);
    assert!(state.on_ensure_result(Err(conflict)).is_ok());
    assert!(!state.needs_ensure());
    let mut fresh = EnsureState::new();
    let err = fresh.on_ensure_result(Err(from_response(500, b"", None))).unwrap_err();
    assert_eq!(err.code(), "server_error");
    assert!(fresh.needs_ensure());
}

#[test]
fn queue_status_queries() {
    assert_eq!(
        queue_status_query(Some("o".into()), None, Some("s".into())),
        vec![("observer_id".to_string(), "o".to_string()), ("session_id".to_string(), "s".to_string())]
    );
    assert!(queue_status_query(None, None, None).is_empty());
    assert_eq!(
        session_queue_status_query("sess".into(), None, Some("u".into())),
        vec![("session_id".to_string(), "sess".to_string()), ("sender_id".to_string(), "u".to_string())]
    );
}

#[test]
fn schedule_dream_defaults_observed_to_observer() {
    let body = schedule_dream_body("alice", None, None).unwrap();
    assert_eq!(body.observer, "alice");
    assert_eq!(body.observed.as_deref(), Some("alice"));
    assert_eq!(body.dream_type, DreamType::Omni);
    let body = schedule_dream_body("alice", Some("s1".into()), Some("bob".into())).unwrap();
    assert_eq!(body.observed.as_deref(), Some("bob"));
    assert_eq!(body.session_id.as_deref(), Some("s1"));
    assert_eq!(
        schedule_dream_body("", None, None).unwrap_err().message(),
        "observer must not be empty"
    );
}
