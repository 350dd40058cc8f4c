use honcho_ai::error::HonchoError;
use honcho_ai::types::pagination::{
    build_page_query, check_collect_cap, next_stream_page, validate_pagination, Page, PageResponse,
    MAX_COLLECT_PAGES,
};

#[test]
fn page_from_response_keeps_items_and_counters() {
    let resp = PageResponse::new(vec!["alice", "bob"], 5, 1, 2, 3);
    let page = Page::from_page_response(resp);
    assert_eq!(page.items(), vec!["alice", "bob"]);
    assert_eq!(page.raw_items(), &["alice", "bob"]);
    assert_eq!(page.items_ref(), &["alice", "bob"]);
    assert_eq!(page.total(), 5);
    assert_eq!(page.page(), 1);
    assert_eq!(page.size(), 2);
    assert_eq!(page.pages(), 3);
    assert!(page.has_next());
    assert_eq!(page.next_page_number(), Some(2));
    assert_eq!(page.into_items(), vec!["alice", "bob"]);
}

#[test]
fn last_page_has_no_next() {
    let page = Page::new(vec![1, 2], 4, 2, 2, 2);
    assert!(!page.has_next());
    assert_eq!(page.next_page_number(), None);
    let empty = Page::new(Vec::<u8>::new(), 0, 9999, 100, 0);
    assert!(!empty.has_next());
}

#[test]
fn last_possible_page_number_has_no_next() {
    let page = Page::new(vec![0u8], 1, u64::MAX, 1, u64::MAX);
    assert!(!page.has_next());
    assert_eq!(page.next_page_number(), None);
}

#[test]
fn map_transforms_every_item_and_keeps_counters() {
    let page = Page::new(vec![1u32, 2, 3], 7, 2, 3, 3);
    let mapped = page.map(|n| format!("#{n}"));
    assert_eq!(mapped.items(), vec!["#1", "#2", "#3"]);
    assert_eq!(mapped.total(), 7);
    assert_eq!(mapped.page(), 2);
    assert_eq!(mapped.size(), 3);
    assert_eq!(mapped.pages(), 3);
}

#[test]
fn map_composes() {
    let page = Page::new(vec![1u32, 2], 2, 1, 2, 1);
    let twice = page.map(|n| n * 10).map(|n| n + 1);
    assert_eq!(twice.items(), vec![11, 21]);
    assert_eq!(twice.raw_items(), &[1, 2]);
}

#[test]
fn map_keeps_the_raw_items() {
    let page = Page::new(vec![1u32], 1, 1, 1, 1);
    let mapped = page.clone().map(|_| 0u32);
    assert_eq!(mapped.raw_items(), &[1]);
    assert_eq!(mapped.items(), vec![0]);
    assert_eq!(page.items(), vec![1]);
    assert_eq!(mapped.items(), mapped.items());
}

#[test]
fn defaults_are_an_empty_first_page() {
    let resp: PageResponse<u8> = PageResponse::default();
    assert!(resp.items.is_empty());
    assert_eq!((resp.total, resp.page, resp.size, resp.pages), (0, 1, 0, 0));
    let page: Page<u8> = Page::default();
    assert!(page.items().is_empty());
    assert_eq!(page.page(), 1);
    assert!(!page.has_next());
}

#[test]
fn pages_compare_by_items_and_counters() {
    assert_eq!(Page::new(vec![1], 1, 1, 1, 1), Page::new(vec![1], 1, 1, 1, 1));
    assert_ne!(Page::new(vec![1], 1, 1, 1, 1), Page::new(vec![2], 1, 1, 1, 1));
}

#[test]
fn paginate_post_rejects_invalid_page_and_size_before_request() {
    for (page, size) in [(0, 50), (1, 0), (1, 101)] {
        let err = validate_pagination(page, size).unwrap_err();
        assert!(matches!(err, HonchoError::Validation(_)));
    }
}

#[test]
fn paginate_post_allows_large_page_and_size_100() {
    assert!(validate_pagination(9999, 100).is_ok());
    assert!(validate_pagination(1, 1).is_ok());
}

#[test]
fn pagination_error_messages() {
    assert_eq!(
        validate_pagination(0, 0).unwrap_err().message(),
        "page must be greater than or equal to 1"
    );
    assert_eq!(
        validate_pagination(3, 101).unwrap_err().message(),
        "size must be between 1 and 100"
    );
}

#[test]
fn page_query_lists_page_size_and_reverse() {
    assert_eq!(build_page_query("1", "2", false), vec![("page", "1"), ("size", "2")]);
    assert_eq!(
        build_page_query("3", "50", true),
        vec![("page", "3"), ("size", "50"), ("reverse", "true")]
    );
}

#[test]
fn stream_walk_moves_forward_until_the_last_page() {
    assert_eq!(next_stream_page(2, 2, 3), Some(3));
    assert_eq!(next_stream_page(3, 3, 3), None);
    assert_eq!(next_stream_page(2, 5, 4), None);
    assert_eq!(next_stream_page(5, 2, 9), None);
    assert_eq!(next_stream_page(4, 3, 9), None);
}

#[test]
fn collect_cap_stops_only_when_pages_remain() {
    assert!(check_collect_cap(MAX_COLLECT_PAGES - 1, true).is_ok());
    assert!(check_collect_cap(MAX_COLLECT_PAGES, false).is_ok());
    let err = check_collect_cap(MAX_COLLECT_PAGES, true).unwrap_err();
    assert!(matches!(err, HonchoError::Configuration(_)));
    assert_eq!(
        err.message(),
        "pagination exceeded 1000 pages; refusing to fetch more to enforce the loop safety cap"
    );
}
