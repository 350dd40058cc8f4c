//! Pages of results of list endpoints, and the rules of walking them.

use vstd::prelude::*;

use crate::error::{HonchoError, Result};

verus! {

/// Largest page size a paginated request may ask for.
pub const MAX_PAGE_SIZE: u64 = 100;

/// Most pages that collecting a whole listing fetches.
pub const MAX_COLLECT_PAGES: u32 = 1000;

/// A page of results as the API sends it.
#[derive(Debug, Clone, PartialEq, Eq)]
pub struct PageResponse<T> {
    /// The items in this page.
    pub items: Vec<T>,
    /// Total number of items across all pages.
    pub total: u64,
    /// Current page number (1-based).
    pub page: u64,
    /// Number of items per page.
    pub size: u64,
    /// Total number of pages.
    pub pages: u64,
}

impl<T> PageResponse<T> {
    /// Create a new `PageResponse`.
    pub fn new(items: Vec<T>, total: u64, page: u64, size: u64, pages: u64) -> (r: Self)
        ensures
            r.items@ == items@,
            r.total == total,
            r.page == page,
            r.size == size,
            r.pages == pages,
    {
        PageResponse { items, total, page, size, pages }
    }
}

impl<T> Default for PageResponse<T> {
    /// An empty first page.
    fn default() -> (r: Self)
        ensures
            r.items@.len() == 0,
            r.total == 0,
            r.page == 1,
            r.size == 0,
            r.pages == 0,
    {
        PageResponse { items: Vec::new(), total: 0, page: 1, size: 0, pages: 0 }
    }
}

/// A transform of the items of a page, applied when the items are read.
pub trait ItemMap<A> {
    /// What an item becomes.
    type Out;

    /// Whether the transform may be applied to `a`.
    spec fn accepts(&self, a: A) -> bool;

    /// Whether the transform may turn `a` into `b`.
    spec fn maps(&self, a: A, b: Self::Out) -> bool;

    /// Apply the transform to `a`.
    fn apply(&self, a: A) -> (b: Self::Out)
        requires
            self.accepts(a),
        ensures
            self.maps(a, b),
    ;
}

/// The transform that leaves items as they are.
#[derive(Debug, Clone, Copy, PartialEq, Eq, Default)]
pub struct Identity;

impl<A> ItemMap<A> for Identity {
    type Out = A;

    open spec fn accepts(&self, a: A) -> bool {
        true
    }

    open spec fn maps(&self, a: A, b: A) -> bool {
        b == a
    }

    fn apply(&self, a: A) -> (b: A) {
        a
    }
}

/// The transform `first` followed by the function `next`.
#[derive(Clone)]
pub struct Then<M, F> {
    /// The transform applied first.
    pub first: M,
    /// The function applied to its result.
    pub next: F,
}

impl<A, U, M: ItemMap<A>, F: Fn(M::Out) -> U> ItemMap<A> for Then<M, F> {
    type Out = U;

    open spec fn accepts(&self, a: A) -> bool {
        &&& self.first.accepts(a)
        &&& forall|b: M::Out| self.first.maps(a, b) ==> #[trigger] self.next.requires((b,))
    }

    open spec fn maps(&self, a: A, c: U) -> bool {
        exists|b: M::Out| #[trigger] self.first.maps(a, b) && self.next.ensures((b,), c)
    }

    fn apply(&self, a: A) -> (c: U) {
        let b = self.first.apply(a);
        (self.next)(b)
    }
}

/// Law: a page mapped with `f` and then with `g` turns an item `a` into `c`
/// exactly when its earlier transform turns `a` into some `b`, `f` turns
/// `b` into some `b2` and `g` turns `b2` into `c`.
pub proof fn law_map_composes<A, U, W, M: ItemMap<A>, F: Fn(M::Out) -> U, G: Fn(U) -> W>(
    m: M,
    f: F,
    g: G,
    a: A,
    c: W,
)
    ensures
        (Then { first: Then { first: m, next: f }, next: g }).maps(a, c) <==> exists|b: M::Out, b2: U|
            #[trigger] m.maps(a, b) && #[trigger] f.ensures((b,), b2) && g.ensures((b2,), c),
{
    let t = Then { first: m, next: f };
    if (Then { first: t, next: g }).maps(a, c) {
        let b2 = choose|b2: U| #[trigger] t.maps(a, b2) && g.ensures((b2,), c);
        let b = choose|b: M::Out| #[trigger] m.maps(a, b) && f.ensures((b,), b2);
        assert(m.maps(a, b) && f.ensures((b,), b2) && g.ensures((b2,), c));
    }
    if exists|b: M::Out, b2: U| #[trigger] m.maps(a, b) && #[trigger] f.ensures((b,), b2) && g.ensures((b2,), c) {
        let (b, b2) = choose|b: M::Out, b2: U| #[trigger] m.maps(a, b) && #[trigger] f.ensures((b,), b2) && g.ensures(
            (b2,),
            c,
        );
        assert(t.first.maps(a, b) && t.next.ensures((b,), b2));
        assert(t.maps(a, b2));
        assert((Then { first: t, next: g }).first.maps(a, b2) && (Then { first: t, next: g }).next.ensures((b2,), c));
        assert((Then { first: t, next: g }).maps(a, c));
    }
}

/// Whether reading the raw item `raw` through `m` may give `out`: a clone
/// of it, passed through the transform.
pub open spec fn reads_as<T: Clone, M: ItemMap<T>>(m: M, raw: T, out: M::Out) -> bool {
    exists|c: T| cloned(raw, c) && #[trigger] m.maps(c, out)
}

/// Law: read through the identity transform, an item is its raw item, for
/// an item type whose clone gives back an equal value (as integers' does).
pub proof fn law_identity_reads_raw<T: Clone>(raw: T, out: T)
    requires
        forall|a: T, b: T| #[trigger] cloned(a, b) ==> a == b,
        reads_as(Identity, raw, out),
    ensures
        out == raw,
{
    let c = choose|c: T| cloned(raw, c) && #[trigger] Identity.maps(c, out);
    assert(cloned(raw, c));
}

/// Proof that integers clone to themselves, so that [`law_identity_reads_raw`]
/// applies to pages of `u64`.
pub proof fn lemma_u64_clone_is_copy()
    ensures
        forall|a: u64, b: u64| #[trigger] cloned(a, b) ==> a == b,
{
}

/// What a page holds: its raw items and the counters the API reported.
pub struct PageView<T> {
    pub items: Seq<T>,
    pub total: u64,
    pub page: u64,
    pub size: u64,
    pub pages: u64,
}

/// A page of results: the raw items, the counters, and the transform the
/// items go through when they are read.
#[derive(Debug, Clone, PartialEq, Eq)]
pub struct Page<T, M = Identity> {
    items: Vec<T>,
    total: u64,
    page: u64,
    size: u64,
    pages: u64,
    transform: M,
}

impl<T, M> View for Page<T, M> {
    type V = PageView<T>;

    closed spec fn view(&self) -> PageView<T> {
        PageView { items: self.items@, total: self.total, page: self.page, size: self.size, pages: self.pages }
    }
}

impl<T> Page<T, Identity> {
    /// Create a new `Page` from raw data, with no transform.
    pub fn new(items: Vec<T>, total: u64, page: u64, size: u64, pages: u64) -> (r: Self)
        ensures
            r@ == (PageView { items: items@, total, page, size, pages }),
    {
        Page { items, total, page, size, pages, transform: Identity }
    }

    /// Create a `Page` from a [`PageResponse`], with no transform.
    pub fn from_page_response(resp: PageResponse<T>) -> (r: Self)
        ensures
            r@ == (PageView { items: resp.items@, total: resp.total, page: resp.page, size: resp.size, pages: resp.pages }),
    {
        Page::new(resp.items, resp.total, resp.page, resp.size, resp.pages)
    }

    /// The items of the page, borrowed.
    pub fn items_ref(&self) -> (r: &[T])
        ensures
            r@ == self@.items,
    {
        self.items.as_slice()
    }

    /// Consume the page and return its items.
    pub fn into_items(self) -> (r: Vec<T>)
        ensures
            r@ == self@.items,
    {
        self.items
    }
}

impl<T, M> Page<T, M> {
    /// The transform the items go through when they are read.
    pub closed spec fn spec_transform(&self) -> M {
        self.transform
    }

    /// The raw (untransformed) items of the page.
    pub fn raw_items(&self) -> (r: &[T])
        ensures
            r@ == self@.items,
    {
        self.items.as_slice()
    }

    /// Total number of items across all pages.
    pub fn total(&self) -> (r: u64)
        ensures
            r == self@.total,
    {
        self.total
    }

    /// Current page number (1-based).
    pub fn page(&self) -> (r: u64)
        ensures
            r == self@.page,
    {
        self.page
    }

    /// Number of items per page.
    pub fn size(&self) -> (r: u64)
        ensures
            r == self@.size,
    {
        self.size
    }

    /// Total number of pages.
    pub fn pages(&self) -> (r: u64)
        ensures
            r == self@.pages,
    {
        self.pages
    }

    /// Whether there are more pages after this one.
    pub fn has_next(&self) -> (r: bool)
        ensures
            r == (self@.page < self@.pages),
    {
        self.page < self.pages
    }

    /// The number of the page that follows this one, when there is one.
    pub fn next_page_number(&self) -> (r: Option<u64>)
        ensures
            r == (if self@.page < self@.pages { Some((self@.page + 1) as u64) } else { None::<u64> }),
    {
        if self.page < self.pages {
            Some(self.page + 1)
        } else {
            None
        }
    }

    /// Add `f` after the transform of the page: the raw items and the
    /// counters stay as they are, and only what reading the items gives
    /// changes.
    pub fn map<U, F: Fn(M::Out) -> U>(self, f: F) -> (r: Page<T, Then<M, F>>)
        where
            M: ItemMap<T>,
        ensures
            r@ == self@,
            r.spec_transform() == (Then { first: self.spec_transform(), next: f }),
    {
        let Page { items, total, page, size, pages, transform } = self;
        Page { items, total, page, size, pages, transform: Then { first: transform, next: f } }
    }

    /// The transformed items, in order: each raw item is cloned and passed
    /// through the transform.
    pub fn items(&self) -> (r: Vec<M::Out>)
        where
            T: Clone,
            M: ItemMap<T>,
        requires
            forall|x: T| #[trigger] self.spec_transform().accepts(x),
        ensures
            r@.len() == self@.items.len(),
            forall|i: int| 0 <= i < r@.len() ==> reads_as(self.spec_transform(), self@.items[i], #[trigger] r@[i]),
    {
        let mut out: Vec<M::Out> = Vec::new();
        let n = self.items.len();
        let mut i: usize = 0;
        while i < n
            invariant
                n == self.items@.len(),
                i <= n,
                out@.len() == i,
                forall|x: T| #[trigger] self.spec_transform().accepts(x),
                forall|j: int| 0 <= j < i ==> reads_as(self.spec_transform(), self.items@[j], #[trigger] out@[j]),
            decreases n - i,
        {
            let c = self.items[i].clone();
            assert(self.spec_transform().accepts(c));
            let y = self.transform.apply(c);
            out.push(y);
            assert(cloned(self.items@[i as int], c) && self.spec_transform().maps(c, out@[i as int]));
            assert(reads_as(self.spec_transform(), self.items@[i as int], out@[i as int]));
            i = i + 1;
        }
        out
    }
}

impl<T> Default for Page<T, Identity> {
    /// An empty first page.
    fn default() -> (r: Self)
        ensures
            r@.items.len() == 0,
            r@.total == 0,
            r@.page == 1,
            r@.size == 0,
            r@.pages == 0,
    {
        Page { items: Vec::new(), total: 0, page: 1, size: 0, pages: 0, transform: Identity }
    }
}

/// The page a walk over all pages fetches after `current` was requested
/// and answered with page `resp_page` of `resp_pages`: none after the last
/// page, nor when the answer does not move past the page requested.
pub fn next_stream_page(current: u64, resp_page: u64, resp_pages: u64) -> (r: Option<u64>)
    ensures
        r == (if resp_page >= resp_pages || resp_page + 1 <= current {
            None::<u64>
        } else {
            Some((resp_page + 1) as u64)
        }),
        r matches Some(n) ==> n > current,
{
    if resp_page >= resp_pages {
        return None;
    }
    let next = resp_page + 1;
    if next <= current {
        None
    } else {
        Some(next)
    }
}

/// Whether collecting every page may fetch another one after `fetched`
/// pages: an error once the cap is reached while pages remain.
pub fn check_collect_cap(fetched: u32, has_next: bool) -> (r: Result<()>)
    ensures
        r is Ok <==> !(fetched >= MAX_COLLECT_PAGES && has_next),
        r matches Err(e) ==> (e matches HonchoError::Configuration(m)
            && m@ == "pagination exceeded 1000 pages; refusing to fetch more to enforce the loop safety cap"@),
{
    if fetched >= MAX_COLLECT_PAGES && has_next {
        return Err(HonchoError::Configuration(
            String::from_str("pagination exceeded 1000 pages; refusing to fetch more to enforce the loop safety cap"),
        ));
    }
    Ok(())
}

/// The `page` / `size` / `reverse` query parameters of a paginated request.
pub fn build_page_query<'a>(page: &'a str, size: &'a str, reverse: bool) -> (r: Vec<(&'a str, &'a str)>)
    ensures
        r@.len() == if reverse { 3int } else { 2int },
        r@[0].0@ == "page"@ && r@[0].1@ == page@,
        r@[1].0@ == "size"@ && r@[1].1@ == size@,
        reverse ==> (r@[2].0@ == "reverse"@ && r@[2].1@ == "true"@),
{
    let mut query: Vec<(&'a str, &'a str)> = Vec::new();
    query.push(("page", page));
    query.push(("size", size));
    if reverse {
        query.push(("reverse", "true"));
    }
    query
}

/// Check the page number and page size of a paginated request.
pub fn validate_pagination(page: u64, size: u64) -> (r: Result<()>)
    ensures
        r is Ok <==> (page >= 1 && 1 <= size <= MAX_PAGE_SIZE),
        page == 0 ==> (r matches Err(HonchoError::Validation(m)) && m@ == "page must be greater than or equal to 1"@),
        page >= 1 && !(1 <= size <= MAX_PAGE_SIZE) ==> (r matches Err(HonchoError::Validation(m))
            && m@ == "size must be between 1 and 100"@),
{
    if page == 0 {
        return Err(HonchoError::Validation(String::from_str("page must be greater than or equal to 1")));
    }
    if !(1 <= size && size <= MAX_PAGE_SIZE) {
        return Err(HonchoError::Validation(String::from_str("size must be between 1 and 100")));
    }
    Ok(())
}

} // verus!
