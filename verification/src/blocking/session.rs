//! Builders of session representation and context requests.

use vstd::prelude::*;

use crate::blocking::conclusion::RepresentationQuery;
use crate::error::{HonchoError, Result};
use crate::request::{route_of, ApiRequest, Method};
use crate::routes::{peer_representation, route2, session_context};
use crate::session::{spec_context_check, spec_search_check, validate_context_params, validate_search_params, SessionContextParams};

verus! {

/// The optional parameters of a session representation request.
#[derive(Debug, Clone, PartialEq, Eq)]
pub struct SessionRepresentationParams {
    /// Peer whose representation is asked for, from the asking peer's view.
    pub target: Option<String>,
    /// Semantic search query.
    pub search_query: Option<String>,
    /// Number of conclusions retrieved by the search (1–100).
    pub search_top_k: Option<u32>,
    /// Whether to include the most frequent conclusions.
    pub include_most_frequent: Option<bool>,
    /// Most conclusions to include (1–100).
    pub max_conclusions: Option<u32>,
}

/// Builder for the representation of a peer, scoped to a session.
pub struct BlockingSessionRepresentationBuilder {
    workspace_id: String,
    session_id: String,
    peer_id: String,
    params: SessionRepresentationParams,
}

impl BlockingSessionRepresentationBuilder {
    /// The workspace of the session.
    pub closed spec fn spec_workspace_id(&self) -> Seq<char> {
        self.workspace_id@
    }

    /// The session.
    pub closed spec fn spec_session_id(&self) -> Seq<char> {
        self.session_id@
    }

    /// The peer whose representation is asked for.
    pub closed spec fn spec_peer_id(&self) -> Seq<char> {
        self.peer_id@
    }

    /// The parameters set so far.
    pub closed spec fn spec_params(&self) -> SessionRepresentationParams {
        self.params
    }

    /// A request for the representation of `peer_id` in session `session_id`.
    pub fn new(workspace_id: String, session_id: String, peer_id: String) -> (r: Self)
        ensures
            r.spec_workspace_id() == workspace_id@,
            r.spec_session_id() == session_id@,
            r.spec_peer_id() == peer_id@,
            r.spec_params() == (SessionRepresentationParams {
                target: None,
                search_query: None,
                search_top_k: None,
                include_most_frequent: None,
                max_conclusions: None,
            }),
    {
        BlockingSessionRepresentationBuilder {
            workspace_id,
            session_id,
            peer_id,
            params: SessionRepresentationParams {
                target: None,
                search_query: None,
                search_top_k: None,
                include_most_frequent: None,
                max_conclusions: None,
            },
        }
    }

    /// Set the target peer.
    pub fn target(self, target: String) -> (r: Self)
        ensures
            r.spec_workspace_id() == self.spec_workspace_id(),
            r.spec_session_id() == self.spec_session_id(),
            r.spec_peer_id() == self.spec_peer_id(),
            r.spec_params() == (SessionRepresentationParams { target: Some(target), ..self.spec_params() }),
    {
        let BlockingSessionRepresentationBuilder { workspace_id, session_id, peer_id, params } = self;
        BlockingSessionRepresentationBuilder {
            workspace_id,
            session_id,
            peer_id,
            params: SessionRepresentationParams { target: Some(target), ..params },
        }
    }

    /// Set a semantic search query.
    pub fn search_query(self, query: String) -> (r: Self)
        ensures
            r.spec_workspace_id() == self.spec_workspace_id(),
            r.spec_session_id() == self.spec_session_id(),
            r.spec_peer_id() == self.spec_peer_id(),
            r.spec_params() == (SessionRepresentationParams { search_query: Some(query), ..self.spec_params() }),
    {
        let BlockingSessionRepresentationBuilder { workspace_id, session_id, peer_id, params } = self;
        BlockingSessionRepresentationBuilder {
            workspace_id,
            session_id,
            peer_id,
            params: SessionRepresentationParams { search_query: Some(query), ..params },
        }
    }

    /// Set the number of top search results.
    pub fn search_top_k(self, k: u32) -> (r: Self)
        ensures
            r.spec_workspace_id() == self.spec_workspace_id(),
            r.spec_session_id() == self.spec_session_id(),
            r.spec_peer_id() == self.spec_peer_id(),
            r.spec_params() == (SessionRepresentationParams { search_top_k: Some(k), ..self.spec_params() }),
    {
        let BlockingSessionRepresentationBuilder { workspace_id, session_id, peer_id, params } = self;
        BlockingSessionRepresentationBuilder {
            workspace_id,
            session_id,
            peer_id,
            params: SessionRepresentationParams { search_top_k: Some(k), ..params },
        }
    }

    /// Include the most frequent conclusions.
    pub fn include_most_frequent(self, v: bool) -> (r: Self)
        ensures
            r.spec_workspace_id() == self.spec_workspace_id(),
            r.spec_session_id() == self.spec_session_id(),
            r.spec_peer_id() == self.spec_peer_id(),
            r.spec_params() == (SessionRepresentationParams { include_most_frequent: Some(v), ..self.spec_params() }),
    {
        let BlockingSessionRepresentationBuilder { workspace_id, session_id, peer_id, params } = self;
        BlockingSessionRepresentationBuilder {
            workspace_id,
            session_id,
            peer_id,
            params: SessionRepresentationParams { include_most_frequent: Some(v), ..params },
        }
    }

    /// Set the maximum number of conclusions.
    pub fn max_conclusions(self, m: u32) -> (r: Self)
        ensures
            r.spec_workspace_id() == self.spec_workspace_id(),
            r.spec_session_id() == self.spec_session_id(),
            r.spec_peer_id() == self.spec_peer_id(),
            r.spec_params() == (SessionRepresentationParams { max_conclusions: Some(m), ..self.spec_params() }),
    {
        let BlockingSessionRepresentationBuilder { workspace_id, session_id, peer_id, params } = self;
        BlockingSessionRepresentationBuilder {
            workspace_id,
            session_id,
            peer_id,
            params: SessionRepresentationParams { max_conclusions: Some(m), ..params },
        }
    }

    /// The representation request: the counted parameters are checked
    /// first; then a `POST` to the peer's representation endpoint, scoped
    /// to the session.
    pub fn send(self) -> (r: Result<ApiRequest<RepresentationQuery>>)
        ensures
            ({
                let p = self.spec_params();
                match spec_search_check(p.search_top_k, p.max_conclusions) {
                    Some(m) => r matches Err(HonchoError::Validation(msg)) && msg@ == m,
                    None => {
                        &&& route2(
                            route_of(r),
                            self.spec_workspace_id(),
                            "workspace_id"@,
                            self.spec_peer_id(),
                            "peer_id"@,
                            "/v3/workspaces/"@,
                            "/peers/"@,
                            "/representation"@,
                        )
                        &&& r matches Ok(q) ==> {
                            &&& q.method == Method::Post
                            &&& q.query@.len() == 0
                            &&& q.body.session_id matches Some(s) && s@ == self.spec_session_id()
                            &&& q.body.target == p.target
                            &&& q.body.search_query == p.search_query
                            &&& q.body.search_top_k == p.search_top_k
                            &&& q.body.include_most_frequent == p.include_most_frequent
                            &&& q.body.max_conclusions == p.max_conclusions
                        }
                    },
                }
            }),
    {
        let BlockingSessionRepresentationBuilder { workspace_id, session_id, peer_id, params } = self;
        validate_search_params(params.search_top_k, params.max_conclusions)?;
        let route = peer_representation(workspace_id.as_str(), peer_id.as_str())?;
        let body = RepresentationQuery {
            session_id: Some(session_id),
            target: params.target,
            search_query: params.search_query,
            search_top_k: params.search_top_k,
            include_most_frequent: params.include_most_frequent,
            max_conclusions: params.max_conclusions,
        };
        Ok(ApiRequest { method: Method::Post, route, query: Vec::new(), body })
    }
}

/// The parameters a context request starts with: summaries included,
/// not limited to the session, nothing else set.
pub open spec fn default_context_params() -> SessionContextParams {
    SessionContextParams {
        summary: true,
        limit_to_session: false,
        tokens: None,
        peer_target: None,
        peer_perspective: None,
        search_query: None,
        search_top_k: None,
        include_most_frequent: None,
        max_conclusions: None,
    }
}

/// Builder for the context of a session.
pub struct BlockingSessionContextBuilder {
    workspace_id: String,
    session_id: String,
    params: SessionContextParams,
}

impl BlockingSessionContextBuilder {
    /// The workspace of the session.
    pub closed spec fn spec_workspace_id(&self) -> Seq<char> {
        self.workspace_id@
    }

    /// The session.
    pub closed spec fn spec_session_id(&self) -> Seq<char> {
        self.session_id@
    }

    /// The parameters set so far.
    pub closed spec fn spec_params(&self) -> SessionContextParams {
        self.params
    }

    /// A context request for session `session_id`, with the default parameters.
    pub fn new(workspace_id: String, session_id: String) -> (r: Self)
        ensures
            r.spec_workspace_id() == workspace_id@,
            r.spec_session_id() == session_id@,
            r.spec_params() == default_context_params(),
    {
        BlockingSessionContextBuilder {
            workspace_id,
            session_id,
            params: SessionContextParams {
                summary: true,
                limit_to_session: false,
                tokens: None,
                peer_target: None,
                peer_perspective: None,
                search_query: None,
                search_top_k: None,
                include_most_frequent: None,
                max_conclusions: None,
            },
        }
    }

    /// Whether to include summaries (default: `true`).
    pub fn summary(self, val: bool) -> (r: Self)
        ensures
            r.spec_workspace_id() == self.spec_workspace_id(),
            r.spec_session_id() == self.spec_session_id(),
            r.spec_params() == (SessionContextParams { summary: val, ..self.spec_params() }),
    {
        let BlockingSessionContextBuilder { workspace_id, session_id, params } = self;
        BlockingSessionContextBuilder { workspace_id, session_id, params: SessionContextParams { summary: val, ..params } }
    }

    /// Limit context to this session only (default: `false`).
    pub fn limit_to_session(self, val: bool) -> (r: Self)
        ensures
            r.spec_workspace_id() == self.spec_workspace_id(),
            r.spec_session_id() == self.spec_session_id(),
            r.spec_params() == (SessionContextParams { limit_to_session: val, ..self.spec_params() }),
    {
        let BlockingSessionContextBuilder { workspace_id, session_id, params } = self;
        BlockingSessionContextBuilder {
            workspace_id,
            session_id,
            params: SessionContextParams { limit_to_session: val, ..params },
        }
    }

    /// Maximum number of tokens for the context.
    pub fn tokens(self, val: u32) -> (r: Self)
        ensures
            r.spec_workspace_id() == self.spec_workspace_id(),
            r.spec_session_id() == self.spec_session_id(),
            r.spec_params() == (SessionContextParams { tokens: Some(val), ..self.spec_params() }),
    {
        let BlockingSessionContextBuilder { workspace_id, session_id, params } = self;
        BlockingSessionContextBuilder { workspace_id, session_id, params: SessionContextParams { tokens: Some(val), ..params } }
    }

    /// Target peer for perspective-based context.
    pub fn peer_target(self, val: String) -> (r: Self)
        ensures
            r.spec_workspace_id() == self.spec_workspace_id(),
            r.spec_session_id() == self.spec_session_id(),
            r.spec_params() == (SessionContextParams { peer_target: Some(val), ..self.spec_params() }),
    {
        let BlockingSessionContextBuilder { workspace_id, session_id, params } = self;
        BlockingSessionContextBuilder {
            workspace_id,
            session_id,
            params: SessionContextParams { peer_target: Some(val), ..params },
        }
    }

    /// Perspective peer for viewing context.
    pub fn peer_perspective(self, val: String) -> (r: Self)
        ensures
            r.spec_workspace_id() == self.spec_workspace_id(),
            r.spec_session_id() == self.spec_session_id(),
            r.spec_params() == (SessionContextParams { peer_perspective: Some(val), ..self.spec_params() }),
    {
        let BlockingSessionContextBuilder { workspace_id, session_id, params } = self;
        BlockingSessionContextBuilder {
            workspace_id,
            session_id,
            params: SessionContextParams { peer_perspective: Some(val), ..params },
        }
    }

    /// Semantic search query to filter relevant conclusions.
    pub fn search_query(self, val: String) -> (r: Self)
        ensures
            r.spec_workspace_id() == self.spec_workspace_id(),
            r.spec_session_id() == self.spec_session_id(),
            r.spec_params() == (SessionContextParams { search_query: Some(val), ..self.spec_params() }),
    {
        let BlockingSessionContextBuilder { workspace_id, session_id, params } = self;
        BlockingSessionContextBuilder {
            workspace_id,
            session_id,
            params: SessionContextParams { search_query: Some(val), ..params },
        }
    }

    /// Number of semantic-search-retrieved conclusions (1–100).
    pub fn search_top_k(self, k: u32) -> (r: Self)
        ensures
            r.spec_workspace_id() == self.spec_workspace_id(),
            r.spec_session_id() == self.spec_session_id(),
            r.spec_params() == (SessionContextParams { search_top_k: Some(k), ..self.spec_params() }),
    {
        let BlockingSessionContextBuilder { workspace_id, session_id, params } = self;
        BlockingSessionContextBuilder {
            workspace_id,
            session_id,
            params: SessionContextParams { search_top_k: Some(k), ..params },
        }
    }

    /// Include the most frequent conclusions.
    pub fn include_most_frequent(self, v: bool) -> (r: Self)
        ensures
            r.spec_workspace_id() == self.spec_workspace_id(),
            r.spec_session_id() == self.spec_session_id(),
            r.spec_params() == (SessionContextParams { include_most_frequent: Some(v), ..self.spec_params() }),
    {
        let BlockingSessionContextBuilder { workspace_id, session_id, params } = self;
        BlockingSessionContextBuilder {
            workspace_id,
            session_id,
            params: SessionContextParams { include_most_frequent: Some(v), ..params },
        }
    }

    /// Maximum number of conclusions to include (1–100).
    pub fn max_conclusions(self, m: u32) -> (r: Self)
        ensures
            r.spec_workspace_id() == self.spec_workspace_id(),
            r.spec_session_id() == self.spec_session_id(),
            r.spec_params() == (SessionContextParams { max_conclusions: Some(m), ..self.spec_params() }),
    {
        let BlockingSessionContextBuilder { workspace_id, session_id, params } = self;
        BlockingSessionContextBuilder {
            workspace_id,
            session_id,
            params: SessionContextParams { max_conclusions: Some(m), ..params },
        }
    }

    /// The context request: the parameters are checked first; then a `GET`
    /// of the session's context endpoint with them.
    pub fn send(self) -> (r: Result<ApiRequest<SessionContextParams>>)
        ensures
            ({
                let p = self.spec_params();
                match spec_context_check(p) {
                    Some(m) => r matches Err(HonchoError::Validation(msg)) && msg@ == m,
                    None => {
                        &&& route2(
                            route_of(r),
                            self.spec_workspace_id(),
                            "workspace_id"@,
                            self.spec_session_id(),
                            "session_id"@,
                            "/v3/workspaces/"@,
                            "/sessions/"@,
                            "/context"@,
                        )
                        &&& r matches Ok(q) ==> q.method == Method::Get && q.query@.len() == 0 && q.body == p
                    },
                }
            }),
    {
        let BlockingSessionContextBuilder { workspace_id, session_id, params } = self;
        validate_context_params(&params)?;
        let route = session_context(workspace_id.as_str(), session_id.as_str())?;
        Ok(ApiRequest { method: Method::Get, route, query: Vec::new(), body: params })
    }
}

} // verus!
