//! Conclusions about peers, the scope they are read and written in, and
//! the builders of scoped requests.

use vstd::prelude::*;

use crate::error::{HonchoError, Result};
use crate::json::str_equal;
use crate::message::Timestamp;
use crate::request::{route_of, ApiRequest, Method};
use crate::routes::{conclusion_delete, conclusions, conclusions_list, conclusions_query, peer_representation, route1, route2};
use crate::session::{spec_search_check, validate_search_params};
use crate::types::conclusion::{ConclusionBatchCreate, ConclusionCreate, ConclusionLevel, ConclusionResponse, DEFAULT_TOP_K};
use crate::types::pagination::validate_pagination;

verus! {

/// A conclusion about a peer, in its workspace.
#[derive(Debug, Clone, PartialEq, Eq)]
pub struct Conclusion {
    id: String,
    content: String,
    observer_id: String,
    observed_id: String,
    session_id: Option<String>,
    created_at: Timestamp,
    level: ConclusionLevel,
    workspace_id: String,
}

impl Conclusion {
    /// The response the conclusion was made from.
    pub closed spec fn spec_response(&self) -> ConclusionResponse {
        ConclusionResponse {
            id: self.id,
            content: self.content,
            observer_id: self.observer_id,
            observed_id: self.observed_id,
            session_id: self.session_id,
            created_at: self.created_at,
            level: self.level,
        }
    }

    /// The workspace the conclusion belongs to.
    pub closed spec fn spec_workspace_id(&self) -> Seq<char> {
        self.workspace_id@
    }

    /// A conclusion of workspace `workspace_id` from the API's response.
    pub fn from_response(workspace_id: String, resp: ConclusionResponse) -> (r: Self)
        ensures
            r.spec_response() == resp,
            r.spec_workspace_id() == workspace_id@,
    {
        Conclusion {
            id: resp.id,
            content: resp.content,
            observer_id: resp.observer_id,
            observed_id: resp.observed_id,
            session_id: resp.session_id,
            created_at: resp.created_at,
            level: resp.level,
            workspace_id,
        }
    }

    /// Unique identifier.
    pub fn id(&self) -> (r: &str)
        ensures
            r@ == self.spec_response().id@,
    {
        self.id.as_str()
    }

    /// Content text.
    pub fn content(&self) -> (r: &str)
        ensures
            r@ == self.spec_response().content@,
    {
        self.content.as_str()
    }

    /// Observer peer ID.
    pub fn observer_id(&self) -> (r: &str)
        ensures
            r@ == self.spec_response().observer_id@,
    {
        self.observer_id.as_str()
    }

    /// Observed peer ID.
    pub fn observed_id(&self) -> (r: &str)
        ensures
            r@ == self.spec_response().observed_id@,
    {
        self.observed_id.as_str()
    }

    /// Optional session scope.
    pub fn session_id(&self) -> (r: Option<&str>)
        ensures
            r is Some == self.spec_response().session_id is Some,
            r matches Some(s) ==> s@ == self.spec_response().session_id->0@,
    {
        match &self.session_id {
            Some(s) => Some(s.as_str()),
            None => None,
        }
    }

    /// Creation timestamp.
    pub fn created_at(&self) -> (r: Timestamp)
        ensures
            r == self.spec_response().created_at,
    {
        self.created_at
    }

    /// Reasoning level.
    pub fn level(&self) -> (r: ConclusionLevel)
        ensures
            r == self.spec_response().level,
    {
        self.level
    }

    /// Workspace ID.
    pub fn workspace_id(&self) -> (r: &str)
        ensures
            r@ == self.spec_workspace_id(),
    {
        self.workspace_id.as_str()
    }
}

/// A conclusion to create in a scope: its content and, optionally, the
/// session it belongs to.
#[derive(Debug, Clone, PartialEq, Eq)]
pub struct ConclusionCreateParams {
    /// The conclusion content.
    pub content: String,
    /// Optional session to associate the conclusion with.
    pub session_id: Option<String>,
}

impl ConclusionCreateParams {
    /// A conclusion with `content` and no session.
    pub fn new(content: String) -> (r: Self)
        ensures
            r.content@ == content@,
            r.session_id is None,
    {
        ConclusionCreateParams { content, session_id: None }
    }
}

/// The conclusions made by one peer (the observer) about another (the
/// observed, possibly the same peer), in a workspace.
#[derive(Debug, Clone, PartialEq, Eq)]
pub struct ConclusionScope {
    workspace_id: String,
    observer_id: String,
    observed_id: String,
}

/// Whether `b` creates `params` in the scope of `observer` about `observed`.
pub open spec fn is_batch_of(b: ConclusionBatchCreate, params: Seq<ConclusionCreateParams>, observer: Seq<char>, observed: Seq<char>) -> bool {
    &&& b.conclusions@.len() == params.len()
    &&& forall|i: int| 0 <= i < params.len() ==> {
        let c = #[trigger] b.conclusions@[i];
        &&& c.content == params[i].content
        &&& c.observer_id@ == observer
        &&& c.observed_id@ == observed
        &&& c.session_id == params[i].session_id
    }
}

impl ConclusionScope {
    /// The workspace of the scope.
    pub closed spec fn spec_workspace_id(&self) -> Seq<char> {
        self.workspace_id@
    }

    /// The observer of the scope.
    pub closed spec fn spec_observer_id(&self) -> Seq<char> {
        self.observer_id@
    }

    /// The observed peer of the scope.
    pub closed spec fn spec_observed_id(&self) -> Seq<char> {
        self.observed_id@
    }

    /// The conclusions `observer_id` made about `observed_id` in `workspace_id`.
    pub fn new(workspace_id: String, observer_id: String, observed_id: String) -> (r: Self)
        ensures
            r.spec_workspace_id() == workspace_id@,
            r.spec_observer_id() == observer_id@,
            r.spec_observed_id() == observed_id@,
    {
        ConclusionScope { workspace_id, observer_id, observed_id }
    }

    /// Observer peer ID.
    pub fn observer_id(&self) -> (r: &str)
        ensures
            r@ == self.spec_observer_id(),
    {
        self.observer_id.as_str()
    }

    /// Observed peer ID.
    pub fn observed_id(&self) -> (r: &str)
        ensures
            r@ == self.spec_observed_id(),
    {
        self.observed_id.as_str()
    }

    /// The request creating `conclusions` in this scope: a `POST` of the
    /// batch, each conclusion made by the observer about the observed peer.
    pub fn create(&self, conclusions_in: Vec<ConclusionCreateParams>) -> (r: Result<ApiRequest<ConclusionBatchCreate>>)
        ensures
            route1(route_of(r), self.spec_workspace_id(), "workspace_id"@, "/v3/workspaces/"@, "/conclusions"@),
            r matches Ok(q) ==> q.method == Method::Post && q.query@.len() == 0 && is_batch_of(
                q.body,
                conclusions_in@,
                self.spec_observer_id(),
                self.spec_observed_id(),
            ),
    {
        let route = match conclusions(self.workspace_id.as_str()) {
            Ok(p) => p,
            Err(e) => {
                return Err(e);
            },
        };
        let ghost orig = conclusions_in@;
        let mut rest = conclusions_in;
        let mut out: Vec<ConclusionCreate> = Vec::new();
        while rest.len() > 0
            invariant
                out@.len() + rest@.len() == orig.len(),
                rest@ == orig.skip(out@.len() as int),
                forall|i: int| 0 <= i < out@.len() ==> {
                    let c = #[trigger] out@[i];
                    &&& c.content == orig[i].content
                    &&& c.observer_id@ == self.observer_id@
                    &&& c.observed_id@ == self.observed_id@
                    &&& c.session_id == orig[i].session_id
                },
            decreases rest@.len(),
        {
            let ghost k = out@.len() as int;
            let p = rest.remove(0);
            assert(p == orig[k]);
            out.push(
                ConclusionCreate {
                    content: p.content,
                    observer_id: self.observer_id.clone(),
                    observed_id: self.observed_id.clone(),
                    session_id: p.session_id,
                },
            );
            assert(rest@ =~= orig.skip(out@.len() as int));
        }
        Ok(ApiRequest { method: Method::Post, route, query: Vec::new(), body: ConclusionBatchCreate { conclusions: out } })
    }

    /// Builder for the representation of the observed peer by the observer.
    pub fn representation(&self) -> (r: BlockingConclusionRepresentationBuilder)
        ensures
            r.spec_scope() == *self,
            r.spec_params() == (ScopedRepresentationParams {
                search_query: None,
                search_top_k: None,
                include_most_frequent: None,
                max_conclusions: None,
            }),
    {
        BlockingConclusionRepresentationBuilder {
            scope: self.clone_scope(),
            params: ScopedRepresentationParams {
                search_query: None,
                search_top_k: None,
                include_most_frequent: None,
                max_conclusions: None,
            },
        }
    }

    /// Builder for listing the conclusions of the scope.
    pub fn list(&self) -> (r: BlockingListConclusionsBuilder)
        ensures
            r.spec_scope() == *self,
            r.spec_params() == (ListConclusionsParams { page: None, size: None, session: None, reverse: false }),
    {
        BlockingListConclusionsBuilder {
            scope: self.clone_scope(),
            params: ListConclusionsParams { page: None, size: None, session: None, reverse: false },
        }
    }

    /// Builder for a semantic query over the conclusions of the scope.
    pub fn query(&self, query: String) -> (r: BlockingQueryConclusionsBuilder)
        ensures
            r.spec_scope() == *self,
            r.spec_query() == query@,
            r.spec_top_k() == DEFAULT_TOP_K,
    {
        BlockingQueryConclusionsBuilder { scope: self.clone_scope(), query, top_k: DEFAULT_TOP_K }
    }

    /// The request deleting conclusion `conclusion_id`.
    pub fn delete(&self, conclusion_id: String) -> (r: Result<ApiRequest<()>>)
        ensures
            route2(
                route_of(r),
                self.spec_workspace_id(),
                "workspace_id"@,
                conclusion_id@,
                "conclusion_id"@,
                "/v3/workspaces/"@,
                "/conclusions/"@,
                ""@,
            ),
            r matches Ok(q) ==> q.method == Method::Delete && q.query@.len() == 0,
    {
        let route = conclusion_delete(self.workspace_id.as_str(), conclusion_id.as_str())?;
        Ok(ApiRequest { method: Method::Delete, route, query: Vec::new(), body: () })
    }

    fn clone_scope(&self) -> (r: Self)
        ensures
            r == *self,
    {
        ConclusionScope {
            workspace_id: self.workspace_id.clone(),
            observer_id: self.observer_id.clone(),
            observed_id: self.observed_id.clone(),
        }
    }
}

/// The optional parameters of a scoped representation request.
#[derive(Debug, Clone, PartialEq, Eq)]
pub struct ScopedRepresentationParams {
    /// Semantic search query.
    pub search_query: Option<String>,
    /// Number of conclusions retrieved by the search (1–100).
    pub search_top_k: Option<u32>,
    /// Whether to include the most frequent conclusions.
    pub include_most_frequent: Option<bool>,
    /// Most conclusions to include (1–100).
    pub max_conclusions: Option<u32>,
}

/// The body of a representation request.
#[derive(Debug, Clone, PartialEq, Eq)]
pub struct RepresentationQuery {
    /// Session to scope the representation to.
    pub session_id: Option<String>,
    /// Peer whose representation is asked for, from the asking peer's view.
    pub target: Option<String>,
    /// Semantic search query.
    pub search_query: Option<String>,
    /// Number of conclusions retrieved by the search.
    pub search_top_k: Option<u32>,
    /// Whether to include the most frequent conclusions.
    pub include_most_frequent: Option<bool>,
    /// Most conclusions to include.
    pub max_conclusions: Option<u32>,
}

/// Builder for the representation of the observed peer in a conclusion scope.
pub struct BlockingConclusionRepresentationBuilder {
    scope: ConclusionScope,
    params: ScopedRepresentationParams,
}

impl BlockingConclusionRepresentationBuilder {
    /// The scope of the request.
    pub closed spec fn spec_scope(&self) -> ConclusionScope {
        self.scope
    }

    /// The parameters set so far.
    pub closed spec fn spec_params(&self) -> ScopedRepresentationParams {
        self.params
    }

    /// Semantic search query.
    pub fn search_query(self, val: String) -> (r: Self)
        ensures
            r.spec_scope() == self.spec_scope(),
            r.spec_params() == (ScopedRepresentationParams { search_query: Some(val), ..self.spec_params() }),
    {
        let BlockingConclusionRepresentationBuilder { scope, params } = self;
        BlockingConclusionRepresentationBuilder {
            scope,
            params: ScopedRepresentationParams { search_query: Some(val), ..params },
        }
    }

    /// Top-K (1–100).
    pub fn search_top_k(self, val: u32) -> (r: Self)
        ensures
            r.spec_scope() == self.spec_scope(),
            r.spec_params() == (ScopedRepresentationParams { search_top_k: Some(val), ..self.spec_params() }),
    {
        let BlockingConclusionRepresentationBuilder { scope, params } = self;
        BlockingConclusionRepresentationBuilder {
            scope,
            params: ScopedRepresentationParams { search_top_k: Some(val), ..params },
        }
    }

    /// Include most frequent conclusions.
    pub fn include_most_frequent(self, val: bool) -> (r: Self)
        ensures
            r.spec_scope() == self.spec_scope(),
            r.spec_params() == (ScopedRepresentationParams { include_most_frequent: Some(val), ..self.spec_params() }),
    {
        let BlockingConclusionRepresentationBuilder { scope, params } = self;
        BlockingConclusionRepresentationBuilder {
            scope,
            params: ScopedRepresentationParams { include_most_frequent: Some(val), ..params },
        }
    }

    /// Max conclusions (1–100).
    pub fn max_conclusions(self, val: u32) -> (r: Self)
        ensures
            r.spec_scope() == self.spec_scope(),
            r.spec_params() == (ScopedRepresentationParams { max_conclusions: Some(val), ..self.spec_params() }),
    {
        let BlockingConclusionRepresentationBuilder { scope, params } = self;
        BlockingConclusionRepresentationBuilder {
            scope,
            params: ScopedRepresentationParams { max_conclusions: Some(val), ..params },
        }
    }

    /// The request for the representation: the counted parameters are
    /// checked first; then a `POST` to the observer's representation
    /// endpoint, targeting the observed peer when it is another peer.
    pub fn send(self) -> (r: Result<ApiRequest<RepresentationQuery>>)
        ensures
            ({
                let s = self.spec_scope();
                let p = self.spec_params();
                match spec_search_check(p.search_top_k, p.max_conclusions) {
                    Some(m) => r matches Err(HonchoError::Validation(msg)) && msg@ == m,
                    None => {
                        &&& route2(
                            route_of(r),
                            s.spec_workspace_id(),
                            "workspace_id"@,
                            s.spec_observer_id(),
                            "peer_id"@,
                            "/v3/workspaces/"@,
                            "/peers/"@,
                            "/representation"@,
                        )
                        &&& r matches Ok(q) ==> {
                            &&& q.method == Method::Post
                            &&& q.query@.len() == 0
                            &&& q.body.session_id is None
                            &&& (if s.spec_observed_id() == s.spec_observer_id() {
                                q.body.target is None
                            } else {
                                q.body.target matches Some(t) && t@ == s.spec_observed_id()
                            })
                            &&& q.body.search_query == p.search_query
                            &&& q.body.search_top_k == p.search_top_k
                            &&& q.body.include_most_frequent == p.include_most_frequent
                            &&& q.body.max_conclusions == p.max_conclusions
                        }
                    },
                }
            }),
    {
        let BlockingConclusionRepresentationBuilder { scope, params } = self;
        validate_search_params(params.search_top_k, params.max_conclusions)?;
        let route = peer_representation(scope.workspace_id.as_str(), scope.observer_id.as_str())?;
        let target = if str_equal(scope.observed_id.as_str(), scope.observer_id.as_str()) {
            None
        } else {
            Some(scope.observed_id)
        };
        let body = RepresentationQuery {
            session_id: None,
            target,
            search_query: params.search_query,
            search_top_k: params.search_top_k,
            include_most_frequent: params.include_most_frequent,
            max_conclusions: params.max_conclusions,
        };
        Ok(ApiRequest { method: Method::Post, route, query: Vec::new(), body })
    }
}

/// The parameters of a conclusion listing.
#[derive(Debug, Clone, PartialEq, Eq)]
pub struct ListConclusionsParams {
    /// Page number (1-based).
    pub page: Option<u32>,
    /// Page size (1–100).
    pub size: Option<u32>,
    /// Session to filter to.
    pub session: Option<String>,
    /// Reverse ordering.
    pub reverse: bool,
}

/// The filters a scoped listing or query sends: the scope's peers and,
/// for a listing, the session.
#[derive(Debug, Clone, PartialEq, Eq)]
pub struct ScopeFilters {
    /// The observer.
    pub observer_id: String,
    /// The observed peer.
    pub observed_id: String,
    /// The session to filter to.
    pub session_id: Option<String>,
}

/// Page number a listing asks for when none is set.
pub const DEFAULT_LIST_PAGE: u32 = 1;

/// Page size a listing asks for when none is set.
pub const DEFAULT_LIST_SIZE: u32 = 50;

/// Builder for listing the conclusions of a scope.
pub struct BlockingListConclusionsBuilder {
    scope: ConclusionScope,
    params: ListConclusionsParams,
}

impl BlockingListConclusionsBuilder {
    /// The scope of the request.
    pub closed spec fn spec_scope(&self) -> ConclusionScope {
        self.scope
    }

    /// The parameters set so far.
    pub closed spec fn spec_params(&self) -> ListConclusionsParams {
        self.params
    }

    /// Page number (1-based).
    pub fn page(self, page: u32) -> (r: Self)
        ensures
            r.spec_scope() == self.spec_scope(),
            r.spec_params() == (ListConclusionsParams { page: Some(page), ..self.spec_params() }),
    {
        let BlockingListConclusionsBuilder { scope, params } = self;
        BlockingListConclusionsBuilder { scope, params: ListConclusionsParams { page: Some(page), ..params } }
    }

    /// Page size. Must be in `1..=100`.
    pub fn size(self, size: u32) -> (r: Self)
        ensures
            r.spec_scope() == self.spec_scope(),
            r.spec_params() == (ListConclusionsParams { size: Some(size), ..self.spec_params() }),
    {
        let BlockingListConclusionsBuilder { scope, params } = self;
        BlockingListConclusionsBuilder { scope, params: ListConclusionsParams { size: Some(size), ..params } }
    }

    /// Filter to a session.
    pub fn session(self, session_id: String) -> (r: Self)
        ensures
            r.spec_scope() == self.spec_scope(),
            r.spec_params() == (ListConclusionsParams { session: Some(session_id), ..self.spec_params() }),
    {
        let BlockingListConclusionsBuilder { scope, params } = self;
        BlockingListConclusionsBuilder {
            scope,
            params: ListConclusionsParams { session: Some(session_id), ..params },
        }
    }

    /// Reverse ordering.
    pub fn reverse(self, reverse: bool) -> (r: Self)
        ensures
            r.spec_scope() == self.spec_scope(),
            r.spec_params() == (ListConclusionsParams { reverse, ..self.spec_params() }),
    {
        let BlockingListConclusionsBuilder { scope, params } = self;
        BlockingListConclusionsBuilder { scope, params: ListConclusionsParams { reverse, ..params } }
    }

    /// The page and size the listing asks for, checked, the filters it
    /// sends and its ordering; the transport pages through the list
    /// endpoint with them.
    pub fn send(self) -> (r: Result<(ApiRequest<ScopeFilters>, u64, u64, bool)>)
        ensures
            ({
                let s = self.spec_scope();
                let p = self.spec_params();
                let page = match p.page {
                    Some(n) => n as u64,
                    None => DEFAULT_LIST_PAGE as u64,
                };
                let size = match p.size {
                    Some(n) => n as u64,
                    None => DEFAULT_LIST_SIZE as u64,
                };
                &&& (r is Ok) == (page >= 1 && 1 <= size <= 100 && crate::routes::id_ok(s.spec_workspace_id()))
                &&& r matches Err(e) ==> (if page == 0 {
                    e matches HonchoError::Validation(m) && m@ == "page must be greater than or equal to 1"@
                } else if !(1 <= size <= 100) {
                    e matches HonchoError::Validation(m) && m@ == "size must be between 1 and 100"@
                } else {
                    crate::routes::is_id_error(e, s.spec_workspace_id(), "workspace_id"@)
                })
                &&& r matches Ok((q, pg, sz, rev)) ==> {
                    &&& pg == page && sz == size && rev == p.reverse
                    &&& q.method == Method::Post
                    &&& route1(
                        Ok(q.route),
                        s.spec_workspace_id(),
                        "workspace_id"@,
                        "/v3/workspaces/"@,
                        "/conclusions/list"@,
                    )
                    &&& q.query@.len() == 0
                    &&& q.body.observer_id@ == s.spec_observer_id()
                    &&& q.body.observed_id@ == s.spec_observed_id()
                    &&& q.body.session_id == p.session
                }
            }),
    {
        let BlockingListConclusionsBuilder { scope, params } = self;
        let page: u64 = match params.page {
            Some(n) => n as u64,
            None => DEFAULT_LIST_PAGE as u64,
        };
        let size: u64 = match params.size {
            Some(n) => n as u64,
            None => DEFAULT_LIST_SIZE as u64,
        };
        validate_pagination(page, size)?;
        let route = conclusions_list(scope.workspace_id.as_str())?;
        let body = ScopeFilters {
            observer_id: scope.observer_id,
            observed_id: scope.observed_id,
            session_id: params.session,
        };
        Ok((ApiRequest { method: Method::Post, route, query: Vec::new(), body }, page, size, params.reverse))
    }
}

/// The body of a semantic query over conclusions.
#[derive(Debug, Clone, PartialEq, Eq)]
pub struct ConclusionQueryBody {
    /// Semantic search query string.
    pub query: String,
    /// Number of results to return.
    pub top_k: u32,
    /// The scope's peers.
    pub filters: ScopeFilters,
}

/// Builder for a semantic query over the conclusions of a scope.
pub struct BlockingQueryConclusionsBuilder {
    scope: ConclusionScope,
    query: String,
    top_k: u32,
}

impl BlockingQueryConclusionsBuilder {
    /// The scope of the request.
    pub closed spec fn spec_scope(&self) -> ConclusionScope {
        self.scope
    }

    /// The query text.
    pub closed spec fn spec_query(&self) -> Seq<char> {
        self.query@
    }

    /// The number of results asked for.
    pub closed spec fn spec_top_k(&self) -> u32 {
        self.top_k
    }

    /// Number of results (1–100).
    pub fn top_k(self, top_k: u32) -> (r: Self)
        ensures
            r.spec_scope() == self.spec_scope(),
            r.spec_query() == self.spec_query(),
            r.spec_top_k() == top_k,
    {
        BlockingQueryConclusionsBuilder { scope: self.scope, query: self.query, top_k }
    }

    /// The query request: a `POST` to the query endpoint with the text,
    /// the number of results and the scope's peers as filters.
    pub fn send(self) -> (r: Result<ApiRequest<ConclusionQueryBody>>)
        ensures
            route1(route_of(r), self.spec_scope().spec_workspace_id(), "workspace_id"@, "/v3/workspaces/"@, "/conclusions/query"@),
            r matches Ok(q) ==> {
                &&& q.method == Method::Post
                &&& q.query@.len() == 0
                &&& q.body.query@ == self.spec_query()
                &&& q.body.top_k == self.spec_top_k()
                &&& q.body.filters.observer_id@ == self.spec_scope().spec_observer_id()
                &&& q.body.filters.observed_id@ == self.spec_scope().spec_observed_id()
                &&& q.body.filters.session_id is None
            },
    {
        let BlockingQueryConclusionsBuilder { scope, query, top_k } = self;
        let route = conclusions_query(scope.workspace_id.as_str())?;
        let filters = ScopeFilters { observer_id: scope.observer_id, observed_id: scope.observed_id, session_id: None };
        Ok(ApiRequest { method: Method::Post, route, query: Vec::new(), body: ConclusionQueryBody { query, top_k, filters } })
    }
}

} // verus!
