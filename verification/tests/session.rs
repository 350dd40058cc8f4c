use honcho_ai::error::HonchoError;
use honcho_ai::message::{Message, Timestamp};
use honcho_ai::session::{
    batch_failure, derive_path_filename, filename_from_component, next_listing_page,
    normalize_peers, split_batches, validate_context_params, validate_search_params,
    validate_search_query, PeerSpec,
    SessionContextParams, SessionPeerConfig,
};
use honcho_ai::upload::{check_content_type, check_upload, UploadSourceKind, UploadTarget};

fn cfg(me: bool) -> SessionPeerConfig {
    SessionPeerConfig {
        observe_me: Some(me),
        observe_others: None,
    }
}

#[test]
fn into_parts_defaults_bare_ids() {
    let (id, c) = PeerSpec::Id("alice".into()).into_parts();
    assert_eq!(id, "alice");
    assert_eq!(c, honcho_ai::session::SessionPeerConfig::default());
    let (id, c) = PeerSpec::WithConfig("bob".into(), cfg(true)).into_parts();
    assert_eq!(id, "bob");
    assert_eq!(c, cfg(true));
}

#[test]
fn normalize_peers_keeps_order_and_configs() {
    let out = normalize_peers(vec![
        PeerSpec::Id("alice".into()),
        PeerSpec::WithConfig("bob".into(), cfg(false)),
    ])
    .unwrap();
    assert_eq!(
        out,
        vec![
            ("alice".to_string(), honcho_ai::session::SessionPeerConfig::default()),
            ("bob".to_string(), cfg(false)),
        ]
    );
    assert!(normalize_peers(Vec::new()).unwrap().is_empty());
}

#[test]
fn add_peers_duplicate_ids_returns_validation_error() {
    let err = normalize_peers(vec![PeerSpec::Id("alice".into()), PeerSpec::Id("alice".into())])
        .unwrap_err();
    assert_eq!(err.code(), "validation_error");
    assert_eq!(err.message(), "duplicate peer id: alice");
}

#[test]
fn first_repeated_id_is_named() {
    let err = normalize_peers(vec![
        PeerSpec::Id("a".into()),
        PeerSpec::Id("b".into()),
        PeerSpec::WithConfig("b".into(), cfg(true)),
        PeerSpec::Id("a".into()),
    ])
    .unwrap_err();
    assert_eq!(err.message(), "duplicate peer id: b");
}

#[test]
fn path_filenames() {
    assert_eq!(derive_path_filename("/tmp/notes.txt").unwrap(), "notes.txt");
    assert_eq!(derive_path_filename("dir/report.pdf/").unwrap(), "report.pdf");
    let err = derive_path_filename("/").unwrap_err();
    assert!(matches!(err, HonchoError::Validation(_)));
    assert_eq!(err.message(), "file source path has no file name component: /");
    assert!(derive_path_filename("a/..").is_err());
}

#[test]
fn filename_from_a_component() {
    assert_eq!(filename_from_component("x/y", Some("y".into())).unwrap(), "y");
    assert_eq!(
        filename_from_component("x/", Some(String::new())).unwrap_err().message(),
        "file source path has no file name component: x/"
    );
    assert!(filename_from_component("..", None).is_err());
}

#[test]
fn search_params_ranges() {
    assert!(validate_search_params(None, None).is_ok());
    assert!(validate_search_params(Some(1), Some(100)).is_ok());
    assert_eq!(
        validate_search_params(Some(0), None).unwrap_err().message(),
        "search_top_k must be between 1 and 100"
    );
    assert_eq!(
        validate_search_params(Some(5), Some(101)).unwrap_err().message(),
        "max_conclusions must be between 1 and 100"
    );
}

fn ctx() -> SessionContextParams {
    SessionContextParams {
        summary: true,
        limit_to_session: false,
        tokens: None,
        peer_target: None,
        peer_perspective: None,
        search_query: None,
        search_top_k: None,
        include_most_frequent: None,
        max_conclusions: None,
    }
}

#[test]
fn context_params_rules() {
    assert!(validate_context_params(&ctx()).is_ok());
    let mut p = ctx();
    p.peer_perspective = Some("x".into());
    assert!(validate_context_params(&p).unwrap_err().message().contains("perspective"));
    let mut p = ctx();
    p.search_query = Some("x".into());
    assert!(validate_context_params(&p).unwrap_err().message().contains("search"));
    let mut p = ctx();
    p.search_top_k = Some(200);
    assert!(validate_context_params(&p).unwrap_err().message().contains("top_k"));
    let mut p = ctx();
    p.max_conclusions = Some(0);
    assert!(validate_context_params(&p).unwrap_err().message().contains("conclusions"));
    let mut p = ctx();
    p.tokens = Some(0);
    assert!(validate_context_params(&p).unwrap_err().message().contains("token"));
    let mut p = ctx();
    p.peer_target = Some("t".into());
    p.peer_perspective = Some("x".into());
    p.search_query = Some("q".into());
    p.tokens = Some(10);
    assert!(validate_context_params(&p).is_ok());
}

#[test]
fn batches_are_full_hundreds_then_the_rest() {
    let items: Vec<u32> = (0..250).collect();
    let batches = split_batches(items.clone());
    assert_eq!(batches.len(), 3);
    assert_eq!(batches[0].len(), 100);
    assert_eq!(batches[1].len(), 100);
    assert_eq!(batches[2].len(), 50);
    assert_eq!(batches.concat(), items);
    assert_eq!(split_batches((0..100).collect::<Vec<u32>>()).len(), 1);
    assert!(split_batches(Vec::<u32>::new()).is_empty());
}

#[test]
fn batch_failure_before_any_message_is_the_error_itself() {
    let e = batch_failure(Vec::new(), HonchoError::Timeout { message: "t".into() });
    assert!(matches!(e, HonchoError::Timeout { .. }));
}

#[test]
fn batch_failure_after_messages_is_partial() {
    let m = Message::from_parts(
        "ws".into(),
        "m1".into(),
        "hi".into(),
        "p".into(),
        "s".into(),
        Default::default(),
        Timestamp { unix_seconds: 0, subsec_nanos: 0 },
        1,
    );
    let e = batch_failure(vec![m.clone(), m], HonchoError::Timeout { message: "t".into() });
    match e {
        HonchoError::PartialFailure { messages, sent, error } => {
            assert_eq!(messages.len(), 2);
            assert_eq!(sent, 2);
            assert!(matches!(*error, HonchoError::Timeout { .. }));
        }
        other => panic!("expected a partial failure, got {other:?}"),
    }
}

#[test]
fn listing_walk_stops_at_the_last_or_an_empty_page() {
    assert_eq!(next_listing_page(1, 3, false), Some(2));
    assert_eq!(next_listing_page(3, 3, false), None);
    assert_eq!(next_listing_page(1, 3, true), None);
    assert_eq!(next_listing_page(1, 0, false), None);
}

#[test]
fn upload_needs_a_peer_then_a_source() {
    let err = check_upload(None, None).unwrap_err();
    assert_eq!(err.message(), "peer_id is required");
    let err = check_upload(Some("alice".into()), None).unwrap_err();
    assert_eq!(err.message(), "file source is required");
    let (peer, target) = check_upload(
        Some("alice".into()),
        Some(UploadSourceKind::Named { filename: "f.txt".into(), content_type: "text/plain".into() }),
    )
    .unwrap();
    assert_eq!(peer, "alice");
    assert_eq!(
        target,
        UploadTarget::Named { filename: "f.txt".into(), content_type: "text/plain".into() }
    );
}

#[test]
fn path_uploads_are_named_by_their_file() {
    let (_, target) = check_upload(Some("a".into()), Some(UploadSourceKind::Path("/data/doc.pdf".into()))).unwrap();
    assert_eq!(target, UploadTarget::Path { path: "/data/doc.pdf".into(), filename: "doc.pdf".into() });
    let err = check_upload(Some("a".into()), Some(UploadSourceKind::Path("/".into()))).unwrap_err();
    assert_eq!(err.code(), "validation_error");
}

#[test]
fn upload_invalid_content_type_returns_validation_error() {
    let err = check_content_type("text/plain\n").unwrap_err();
    assert_eq!(err.code(), "validation_error");
    assert_eq!(err.message(), "invalid content_type");
    assert!(check_content_type("text/plain; charset=utf-8").is_ok());
    assert!(check_content_type("caf\u{e9}/x\t").is_ok());
    assert!(check_content_type("a\u{7f}").is_err());
}

#[test]
fn upload_file_path_without_filename_returns_validation_error() {
    let err = check_upload(Some("alice".into()), Some(UploadSourceKind::Path("/".into()))).unwrap_err();
    assert_eq!(err.code(), "validation_error");
}

#[test]
fn upload_file_without_peer_returns_validation_error() {
    let source = UploadSourceKind::Named { filename: "f.txt".into(), content_type: "text/plain".into() };
    let err = check_upload(None, Some(source)).unwrap_err();
    assert_eq!(err.code(), "validation_error");
}

#[test]
fn peers_traverses_all_pages() {
    let mut visited = vec![1u64];
    let mut page = 1u64;
    while let Some(next) = next_listing_page(page, 3, false) {
        visited.push(next);
        page = next;
    }
    assert_eq!(visited, vec![1, 2, 3]);
}

#[test]
fn session_search_needs_a_query() {
    assert!(validate_search_query("x").is_ok());
    assert!(validate_search_query(" ").is_ok());
    assert_eq!(validate_search_query("").unwrap_err().message(), "query must not be empty");
}

#[test]
fn upload_text_fields_keep_their_order_and_skip_absent_ones() {
    let all = honcho_ai::upload::upload_text_fields(
        Some("{\"a\":1}".to_string()),
        Some("{}".to_string()),
        Some("2024-01-01T00:00:00+00:00".to_string()),
    );
    assert_eq!(
        all,
        vec![
            ("metadata".to_string(), "{\"a\":1}".to_string()),
            ("configuration".to_string(), "{}".to_string()),
            ("created_at".to_string(), "2024-01-01T00:00:00+00:00".to_string()),
        ]
    );
    let some = honcho_ai::upload::upload_text_fields(None, Some("{}".to_string()), None);
    assert_eq!(some, vec![("configuration".to_string(), "{}".to_string())]);
    assert!(honcho_ai::upload::upload_text_fields(None, None, None).is_empty());
}

#[test]
fn peer_specs_convert_from_an_id_and_from_an_id_with_config() {
    let bare: honcho_ai::session::PeerSpec = "alice".to_string().into();
    assert_eq!(bare.into_parts(), ("alice".to_string(), honcho_ai::session::SessionPeerConfig::default()));
    let cfg = honcho_ai::session::SessionPeerConfig { observe_me: Some(false), observe_others: Some(true) };
    let with = honcho_ai::session::PeerSpec::from(("bob".to_string(), cfg));
    assert_eq!(with.into_parts(), ("bob".to_string(), cfg));
}
