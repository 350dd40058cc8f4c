use honcho_ai::blocking::conclusion::{Conclusion, ConclusionCreateParams, ConclusionScope};
use honcho_ai::blocking::session::{BlockingSessionContextBuilder, BlockingSessionRepresentationBuilder};
use honcho_ai::error::HonchoError;
use honcho_ai::message::Timestamp;
use honcho_ai::request::Method;
use honcho_ai::types::conclusion::{ConclusionLevel, ConclusionResponse};

fn scope(observer: &str, observed: &str) -> ConclusionScope {
    ConclusionScope::new("ws1".into(), observer.into(), observed.into())
}

#[test]
fn conclusion_getters_read_the_response() {
    let c = Conclusion::from_response(
        "ws1".into(),
        ConclusionResponse {
            id: "c1".into(),
            content: "Likes hiking".into(),
            observer_id: "alice".into(),
            observed_id: "bob".into(),
            session_id: Some("s1".into()),
            created_at: Timestamp { unix_seconds: 1_736_937_000, subsec_nanos: 5 },
            level: ConclusionLevel::Deductive,
        },
    );
    assert_eq!(c.id(), "c1");
    assert_eq!(c.content(), "Likes hiking");
    assert_eq!(c.observer_id(), "alice");
    assert_eq!(c.observed_id(), "bob");
    assert_eq!(c.session_id(), Some("s1"));
    assert_eq!(c.created_at(), Timestamp { unix_seconds: 1_736_937_000, subsec_nanos: 5 });
    assert_eq!(c.level(), ConclusionLevel::Deductive);
    assert_eq!(c.workspace_id(), "ws1");
}

#[test]
fn create_injects_the_scope_peers() {
    let s = scope("alice", "bob");
    assert_eq!(s.observer_id(), "alice");
    assert_eq!(s.observed_id(), "bob");
    let mut with_session = ConclusionCreateParams::new("b".into());
    with_session.session_id = Some("s1".into());
    let req = s.create(vec![ConclusionCreateParams::new("a".into()), with_session]).unwrap();
    assert_eq!(req.method, Method::Post);
    assert_eq!(req.route, "/v3/workspaces/ws1/conclusions");
    let cs = &req.body.conclusions;
    assert_eq!(cs.len(), 2);
    assert_eq!((cs[0].content.as_str(), cs[0].observer_id.as_str(), cs[0].observed_id.as_str()), ("a", "alice", "bob"));
    assert_eq!(cs[0].session_id, None);
    assert_eq!(cs[1].session_id.as_deref(), Some("s1"));
}

#[test]
fn create_refuses_a_bad_workspace() {
    let s = ConclusionScope::new("..".into(), "a".into(), "a".into());
    assert!(matches!(s.create(Vec::new()), Err(HonchoError::Validation(_))));
}

#[test]
fn delete_targets_the_conclusion() {
    let req = scope("a", "a").delete("c 1".into()).unwrap();
    assert_eq!(req.method, Method::Delete);
    assert_eq!(req.route, "/v3/workspaces/ws1/conclusions/c%201");
    assert!(scope("a", "a").delete(String::new()).is_err());
}

#[test]
fn scoped_representation_targets_the_observed_peer() {
    let req = scope("alice", "bob")
        .representation()
        .search_query("personality".into())
        .max_conclusions(20)
        .search_top_k(10)
        .include_most_frequent(true)
        .send()
        .unwrap();
    assert_eq!(req.route, "/v3/workspaces/ws1/peers/alice/representation");
    assert_eq!(req.body.target.as_deref(), Some("bob"));
    assert_eq!(req.body.search_query.as_deref(), Some("personality"));
    assert_eq!(req.body.search_top_k, Some(10));
    assert_eq!(req.body.max_conclusions, Some(20));
    assert_eq!(req.body.include_most_frequent, Some(true));
    let own = scope("alice", "alice").representation().send().unwrap();
    assert_eq!(own.body.target, None);
}

#[test]
fn scoped_representation_checks_ranges() {
    let err = scope("a", "b").representation().search_top_k(0).send().unwrap_err();
    assert_eq!(err.message(), "search_top_k must be between 1 and 100");
    let err = scope("a", "b").representation().max_conclusions(101).send().unwrap_err();
    assert_eq!(err.message(), "max_conclusions must be between 1 and 100");
}

#[test]
fn list_builder_pages_with_scope_filters() {
    let (req, page, size, reverse) = scope("alice", "bob").list().page(2).size(10).session("s1".into()).reverse(true).send().unwrap();
    assert_eq!((page, size, reverse), (2, 10, true));
    assert_eq!(req.route, "/v3/workspaces/ws1/conclusions/list");
    assert_eq!(req.body.observer_id, "alice");
    assert_eq!(req.body.observed_id, "bob");
    assert_eq!(req.body.session_id.as_deref(), Some("s1"));
    let (_, page, size, reverse) = scope("a", "a").list().send().unwrap();
    assert_eq!((page, size, reverse), (1, 50, false));
    assert!(matches!(scope("a", "a").list().size(101).send(), Err(HonchoError::Validation(_))));
    assert!(matches!(scope("a", "a").list().page(0).send(), Err(HonchoError::Validation(_))));
}

#[test]
fn query_builder_sends_text_and_top_k() {
    let req = scope("alice", "bob").query("Rust".into()).send().unwrap();
    assert_eq!(req.route, "/v3/workspaces/ws1/conclusions/query");
    assert_eq!(req.body.query, "Rust");
    assert_eq!(req.body.top_k, 10);
    assert_eq!(req.body.filters.observed_id, "bob");
    let req = scope("alice", "bob").query("Rust".into()).top_k(5).send().unwrap();
    assert_eq!(req.body.top_k, 5);
}

#[test]
fn session_representation_is_scoped_to_the_session() {
    let req = BlockingSessionRepresentationBuilder::new("ws1".into(), "sess1".into(), "alice".into())
        .target("bob".into())
        .search_query("hobbies".into())
        .search_top_k(10)
        .include_most_frequent(false)
        .max_conclusions(25)
        .send()
        .unwrap();
    assert_eq!(req.method, Method::Post);
    assert_eq!(req.route, "/v3/workspaces/ws1/peers/alice/representation");
    assert_eq!(req.body.session_id.as_deref(), Some("sess1"));
    assert_eq!(req.body.target.as_deref(), Some("bob"));
    assert_eq!(req.body.max_conclusions, Some(25));
    let err = BlockingSessionRepresentationBuilder::new("ws1".into(), "sess1".into(), "alice".into())
        .search_top_k(200)
        .send()
        .unwrap_err();
    assert_eq!(err.code(), "validation_error");
}

#[test]
fn session_context_builder_checks_then_gets() {
    let req = BlockingSessionContextBuilder::new("ws1".into(), "sess1".into())
        .summary(false)
        .limit_to_session(true)
        .tokens(500)
        .peer_target("alice".into())
        .peer_perspective("bob".into())
        .search_query("preferences".into())
        .search_top_k(10)
        .include_most_frequent(true)
        .max_conclusions(5)
        .send()
        .unwrap();
    assert_eq!(req.method, Method::Get);
    assert_eq!(req.route, "/v3/workspaces/ws1/sessions/sess1/context");
    assert!(!req.body.summary);
    assert!(req.body.limit_to_session);
    assert_eq!(req.body.tokens, Some(500));
    let default = BlockingSessionContextBuilder::new("ws1".into(), "sess1".into()).send().unwrap();
    assert!(default.body.summary);
    assert!(!default.body.limit_to_session);
    let err = BlockingSessionContextBuilder::new("ws1".into(), "sess1".into())
        .peer_perspective("bob".into())
        .send()
        .unwrap_err();
    assert!(err.message().contains("perspective"));
}
