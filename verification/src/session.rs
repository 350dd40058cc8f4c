//! Session-side rules: how peers are specified and normalized, how an
//! uploaded file is named, and which search and context parameters a
//! request may carry.

use vstd::prelude::*;

use crate::error::{HonchoError, Result};
use crate::json::{opt_chars, str_equal};
use crate::message::Message;

verus! {

/// Per-session observation settings of a peer.
#[derive(Debug, Clone, Copy, PartialEq, Eq, Default)]
pub struct SessionPeerConfig {
    /// Whether other peers in this session should form representations of this peer.
    pub observe_me: Option<bool>,
    /// Whether this peer should form representations of others in this session.
    pub observe_others: Option<bool>,
}

/// The configuration with every setting unset.
pub open spec fn unset_config() -> SessionPeerConfig {
    SessionPeerConfig { observe_me: None, observe_others: None }
}

/// Specification for adding/setting peers on a session.
#[derive(Debug, Clone)]
pub enum PeerSpec {
    /// A peer identified by ID with no explicit config.
    Id(String),
    /// A peer identified by ID with per-session configuration.
    WithConfig(String, SessionPeerConfig),
}

/// The peer a specification names.
pub open spec fn spec_peer_id(s: PeerSpec) -> Seq<char> {
    match s {
        PeerSpec::Id(id) => id@,
        PeerSpec::WithConfig(id, _) => id@,
    }
}

/// The configuration a specification gives (unset for a bare identifier).
pub open spec fn spec_peer_config(s: PeerSpec) -> SessionPeerConfig {
    match s {
        PeerSpec::Id(_) => unset_config(),
        PeerSpec::WithConfig(_, cfg) => cfg,
    }
}

impl PeerSpec {
    /// Decompose into `(peer_id, config)`; a bare identifier yields the
    /// configuration with every setting unset.
    pub fn into_parts(self) -> (r: (String, SessionPeerConfig))
        ensures
            r.0@ == spec_peer_id(self),
            r.1 == spec_peer_config(self),
    {
        match self {
            PeerSpec::Id(id) => (id, SessionPeerConfig { observe_me: None, observe_others: None }),
            PeerSpec::WithConfig(id, cfg) => (id, cfg),
        }
    }
}

/// A bare peer identifier.
impl From<String> for PeerSpec {
    fn from(id: String) -> (r: Self) {
        PeerSpec::Id(id)
    }
}

impl vstd::std_specs::convert::FromSpecImpl<String> for PeerSpec {
    open spec fn obeys_from_spec() -> bool {
        true
    }

    open spec fn from_spec(id: String) -> Self {
        PeerSpec::Id(id)
    }
}

/// A peer identifier with its per-session configuration.
impl From<(String, SessionPeerConfig)> for PeerSpec {
    fn from(parts: (String, SessionPeerConfig)) -> (r: Self) {
        PeerSpec::WithConfig(parts.0, parts.1)
    }
}

impl vstd::std_specs::convert::FromSpecImpl<(String, SessionPeerConfig)> for PeerSpec {
    open spec fn obeys_from_spec() -> bool {
        true
    }

    open spec fn from_spec(parts: (String, SessionPeerConfig)) -> Self {
        PeerSpec::WithConfig(parts.0, parts.1)
    }
}

/// The peers the specifications name, in order.
pub open spec fn spec_ids(specs: Seq<PeerSpec>) -> Seq<Seq<char>> {
    specs.map_values(|s: PeerSpec| spec_peer_id(s))
}

/// Whether the `j`-th identifier repeats an earlier one.
pub open spec fn repeats_earlier(ids: Seq<Seq<char>>, j: int) -> bool {
    exists|i: int| 0 <= i < j && ids[i] == #[trigger] ids[j]
}

/// Whether the `j`-th identifier is the first to repeat an earlier one.
pub open spec fn is_first_repeat(ids: Seq<Seq<char>>, j: int) -> bool {
    &&& 0 <= j < ids.len()
    &&& repeats_earlier(ids, j)
    &&& forall|jj: int| 0 <= jj < j ==> !repeats_earlier(ids, jj)
}

/// Whether `e` is the error for the repeated peer `id`.
pub open spec fn is_duplicate_error(e: HonchoError, id: Seq<char>) -> bool {
    e matches HonchoError::Validation(m) && m@ == duplicate_message(id)
}

/// The message of the error for a repeated peer.
pub open spec fn duplicate_message(id: Seq<char>) -> Seq<char> {
    "duplicate peer id: "@ + id
}

/// Turn peer specifications into `(peer_id, config)` pairs, in order,
/// refusing a peer named twice: the error names the first identifier that
/// repeats an earlier one.
pub fn normalize_peers(specs: Vec<PeerSpec>) -> (r: Result<Vec<(String, SessionPeerConfig)>>)
    ensures
        ({
            let ids = spec_ids(specs@);
            match r {
                Ok(v) => {
                    &&& forall|j: int| 0 <= j < ids.len() ==> !repeats_earlier(ids, j)
                    &&& v@.len() == specs@.len()
                    &&& forall|k: int| 0 <= k < v@.len() ==> (#[trigger] v@[k]).0@ == ids[k] && v@[k].1
                        == spec_peer_config(specs@[k])
                    &&& forall|i: int, j: int| 0 <= i < j < v@.len() ==> (#[trigger] v@[i]).0@ != (#[trigger] v@[j]).0@
                },
                Err(e) => exists|j: int| #[trigger] is_first_repeat(ids, j) && is_duplicate_error(e, ids[j]),
            }
        }),
{
    let ghost orig = specs@;
    let ghost ids = spec_ids(orig);
    let mut rest = specs;
    let mut out: Vec<(String, SessionPeerConfig)> = Vec::new();
    while rest.len() > 0
        invariant
            ids == spec_ids(orig),
            orig == specs@,
            out@.len() + rest@.len() == orig.len(),
            rest@ == orig.skip(out@.len() as int),
            forall|k: int| 0 <= k < out@.len() ==> (#[trigger] out@[k]).0@ == ids[k] && out@[k].1
                == spec_peer_config(orig[k]),
            forall|j: int| 0 <= j < out@.len() ==> !repeats_earlier(ids, j),
        decreases rest@.len(),
    {
        let ghost k = out@.len() as int;
        let spec_k = rest.remove(0);
        assert(spec_k == orig[k]);
        let (id, cfg) = spec_k.into_parts();
        assert(id@ == ids[k]);
        let mut m: usize = 0;
        while m < out.len()
            invariant
                ids == spec_ids(orig),
                orig == specs@,
                k == out@.len(),
                0 <= k < orig.len(),
                id@ == ids[k],
                m <= out@.len(),
                forall|kk: int| 0 <= kk < out@.len() ==> (#[trigger] out@[kk]).0@ == ids[kk],
                forall|t: int| 0 <= t < m ==> ids[t] != ids[k],
                forall|j: int| 0 <= j < out@.len() ==> !repeats_earlier(ids, j),
            decreases out@.len() - m,
        {
            if str_equal(out[m].0.as_str(), id.as_str()) {
                assert(ids[m as int] == ids[k]);
                assert(repeats_earlier(ids, k));
                assert(is_first_repeat(ids, k));
                let mut msg = String::from_str("duplicate peer id: ");
                msg.append(id.as_str());
                let e = HonchoError::Validation(msg);
                assert(is_duplicate_error(e, ids[k]));
                return Err(e);
            }
            m = m + 1;
        }
        assert(!repeats_earlier(ids, k));
        out.push((id, cfg));
        assert(rest@ =~= orig.skip(out@.len() as int));
    }
    assert forall|i: int, j: int| 0 <= i < j < out@.len() implies (#[trigger] out@[i]).0@ != (#[trigger] out@[j]).0@ by {
        if out@[i].0@ == out@[j].0@ {
            assert(ids[i] == ids[j]);
            assert(repeats_earlier(ids, j));
        }
    }
    Ok(out)
}

/// The final component of a path, as `std::path::Path::file_name` finds it.
pub uninterp spec fn spec_path_file_name(path: Seq<char>) -> Option<Seq<char>>;

/// `std::path::Path::file_name` on `path`, read back as a string. Its
/// result is only named here: the final component of the path, if there
/// is one.
#[verifier::external_body]
fn path_file_name(path: &str) -> (r: Option<String>)
    ensures
        opt_chars(r) == spec_path_file_name(path@),
{
    match std::path::Path::new(path).file_name() {
        Some(n) => Some(n.to_string_lossy().into_owned()),
        None => None,
    }
}

/// The message of the error for a path with no file name.
pub open spec fn no_file_name_message(path: Seq<char>) -> Seq<char> {
    "file source path has no file name component: "@ + path
}

/// Whether `r` is what naming an upload from `path`, whose final component
/// is `name`, gives.
pub open spec fn is_filename_result(r: Result<String>, path: Seq<char>, name: Option<Seq<char>>) -> bool {
    match name {
        Some(n) if n.len() > 0 => r matches Ok(s) && s@ == n,
        _ => r matches Err(HonchoError::Validation(m)) && m@ == no_file_name_message(path),
    }
}

/// The file name of an upload from `path` whose final component is
/// `name`: that component, unless there is none or it is empty.
pub fn filename_from_component(path: &str, name: Option<String>) -> (r: Result<String>)
    ensures
        is_filename_result(r, path@, opt_chars(name)),
{
    match name {
        Some(n) => {
            if !n.as_str().is_empty() {
                return Ok(n);
            }
        },
        None => {},
    }
    let mut msg = String::from_str("file source path has no file name component: ");
    msg.append(path);
    Err(HonchoError::Validation(msg))
}

/// Derive the multipart filename for a path upload, refusing a path with
/// no final file-name component (such as `/` or one ending in `..`).
pub fn derive_path_filename(path: &str) -> (r: Result<String>)
    ensures
        is_filename_result(r, path@, spec_path_file_name(path@)),
{
    let name = path_file_name(path);
    filename_from_component(path, name)
}

/// Whether an optional count lies in `1..=100` (or is unset).
pub open spec fn count_ok(v: Option<u32>) -> bool {
    match v {
        Some(n) => 1 <= n <= 100,
        None => true,
    }
}

/// The message of the first search parameter out of range, if any.
pub open spec fn spec_search_check(search_top_k: Option<u32>, max_conclusions: Option<u32>) -> Option<Seq<char>> {
    if !count_ok(search_top_k) {
        Some("search_top_k must be between 1 and 100"@)
    } else if !count_ok(max_conclusions) {
        Some("max_conclusions must be between 1 and 100"@)
    } else {
        None
    }
}

/// Whether `r` reports the outcome `check` of a validation.
pub open spec fn reports(r: Result<()>, check: Option<Seq<char>>) -> bool {
    match check {
        None => r is Ok,
        Some(m) => r matches Err(HonchoError::Validation(msg)) && msg@ == m,
    }
}

/// Check the counted search parameters of a representation or context
/// request: each, when set, lies in `1..=100`.
pub fn validate_search_params(search_top_k: Option<u32>, max_conclusions: Option<u32>) -> (r: Result<()>)
    ensures
        reports(r, spec_search_check(search_top_k, max_conclusions)),
{
    match search_top_k {
        Some(n) => if !(1 <= n && n <= 100) {
            return Err(HonchoError::Validation(String::from_str("search_top_k must be between 1 and 100")));
        },
        None => {},
    }
    match max_conclusions {
        Some(n) => if !(1 <= n && n <= 100) {
            return Err(HonchoError::Validation(String::from_str("max_conclusions must be between 1 and 100")));
        },
        None => {},
    }
    Ok(())
}

} // verus!

verus! {

/// The parameters of a session context request.
#[derive(Debug, Clone, PartialEq, Eq)]
pub struct SessionContextParams {
    /// Whether to include summaries.
    pub summary: bool,
    /// Limit context to this session only.
    pub limit_to_session: bool,
    /// Maximum number of tokens for the context.
    pub tokens: Option<u32>,
    /// Target peer for perspective-based context.
    pub peer_target: Option<String>,
    /// Perspective peer for viewing context.
    pub peer_perspective: Option<String>,
    /// Semantic search query to filter relevant conclusions.
    pub search_query: Option<String>,
    /// Number of conclusions retrieved by the search (1–100).
    pub search_top_k: Option<u32>,
    /// Whether to include the most frequent conclusions.
    pub include_most_frequent: Option<bool>,
    /// Most conclusions to include (1–100).
    pub max_conclusions: Option<u32>,
}

/// The message of the first rule the context parameters break, if any.
pub open spec fn spec_context_check(p: SessionContextParams) -> Option<Seq<char>> {
    if p.peer_perspective is Some && p.peer_target is None {
        Some("peer_perspective requires peer_target"@)
    } else if p.search_query is Some && p.peer_target is None {
        Some("search_query requires peer_target"@)
    } else if spec_search_check(p.search_top_k, p.max_conclusions) is Some {
        spec_search_check(p.search_top_k, p.max_conclusions)
    } else if p.tokens == Some(0u32) {
        Some("tokens must be at least 1"@)
    } else {
        None
    }
}

/// Law: a context request is accepted exactly when a perspective or a
/// search query comes only with a target peer, each counted search
/// parameter that is set lies in `1..=100`, and a token budget that is set
/// is at least 1. So a request with a target peer, sound counts and no
/// zero token budget is accepted, whatever its search query.
pub proof fn law_context_check_accepts(p: SessionContextParams)
    ensures
        spec_context_check(p) is None <==> {
            &&& (p.peer_perspective is Some ==> p.peer_target is Some)
            &&& (p.search_query is Some ==> p.peer_target is Some)
            &&& (p.search_top_k matches Some(n) ==> 1 <= n <= 100)
            &&& (p.max_conclusions matches Some(n) ==> 1 <= n <= 100)
            &&& (p.tokens matches Some(n) ==> n >= 1)
        },
{
}

/// Law: the counted search parameters are accepted exactly when each one
/// that is set lies in `1..=100`.
pub proof fn law_search_check_accepts(search_top_k: Option<u32>, max_conclusions: Option<u32>)
    ensures
        spec_search_check(search_top_k, max_conclusions) is None <==> (search_top_k matches Some(n) ==> 1 <= n
            <= 100) && (max_conclusions matches Some(n) ==> 1 <= n <= 100),
{
}

/// Check the parameters of a session context request: a perspective and a
/// search query each need a target peer, the counted search parameters lie
/// in `1..=100`, and a token budget is at least 1.
pub fn validate_context_params(p: &SessionContextParams) -> (r: Result<()>)
    ensures
        reports(r, spec_context_check(*p)),
{
    if p.peer_perspective.is_some() && p.peer_target.is_none() {
        return Err(HonchoError::Validation(String::from_str("peer_perspective requires peer_target")));
    }
    if p.search_query.is_some() && p.peer_target.is_none() {
        return Err(HonchoError::Validation(String::from_str("search_query requires peer_target")));
    }
    validate_search_params(p.search_top_k, p.max_conclusions)?;
    match p.tokens {
        Some(n) => if n == 0 {
            return Err(HonchoError::Validation(String::from_str("tokens must be at least 1")));
        },
        None => {},
    }
    Ok(())
}

} // verus!

verus! {

/// Most messages one request creates.
pub const MAX_MESSAGES_PER_BATCH: usize = 100;

/// The items of `batches`, in order.
pub open spec fn joined_batches<T>(batches: Seq<Vec<T>>) -> Seq<T>
    decreases batches.len(),
{
    if batches.len() == 0 {
        Seq::empty()
    } else {
        joined_batches(batches.drop_last()) + batches.last()@
    }
}

/// Whether `batches` cut a list into full batches of
/// [`MAX_MESSAGES_PER_BATCH`] items, the last possibly shorter but not empty.
pub open spec fn well_cut<T>(batches: Seq<Vec<T>>) -> bool {
    &&& forall|i: int| 0 <= i < batches.len() ==> 1 <= (#[trigger] batches[i])@.len() <= MAX_MESSAGES_PER_BATCH
    &&& forall|i: int| 0 <= i < batches.len() - 1 ==> (#[trigger] batches[i])@.len() == MAX_MESSAGES_PER_BATCH
}

/// Cut `items` into the batches that creating them sends, in order: full
/// batches of [`MAX_MESSAGES_PER_BATCH`], then the rest; none for no items.
pub fn split_batches<T>(items: Vec<T>) -> (r: Vec<Vec<T>>)
    ensures
        joined_batches(r@) == items@,
        well_cut(r@),
{
    let ghost orig = items@;
    let mut rest = items;
    let mut out: Vec<Vec<T>> = Vec::new();
    let mut cur: Vec<T> = Vec::new();
    let ghost mut taken: int = 0;
    while rest.len() > 0
        invariant
            0 <= taken <= orig.len(),
            rest@ == orig.skip(taken),
            joined_batches(out@) + cur@ == orig.take(taken),
            cur@.len() < MAX_MESSAGES_PER_BATCH,
            forall|i: int| 0 <= i < out@.len() ==> (#[trigger] out@[i])@.len() == MAX_MESSAGES_PER_BATCH,
        decreases rest@.len(),
    {
        let x = rest.remove(0);
        proof {
            assert(x == orig[taken]);
            assert(orig.take(taken + 1) =~= orig.take(taken).push(x));
            taken = taken + 1;
        }
        cur.push(x);
        assert(joined_batches(out@) + cur@ =~= orig.take(taken));
        assert(rest@ =~= orig.skip(taken));
        if cur.len() == MAX_MESSAGES_PER_BATCH {
            let full = cur;
            cur = Vec::new();
            let ghost before = out@;
            out.push(full);
            assert(out@.drop_last() =~= before);
            assert(joined_batches(out@) + cur@ =~= orig.take(taken));
        }
    }
    assert(orig.take(taken) =~= orig);
    if cur.len() > 0 {
        let ghost before = out@;
        out.push(cur);
        assert(out@.drop_last() =~= before);
    } else {
        assert(joined_batches(out@) + cur@ =~= joined_batches(out@));
    }
    out
}

/// The error creating messages in batches ends with when a batch fails
/// with `error` after `created` were made: the error itself when none
/// were, else a partial failure that hands back the messages made.
pub fn batch_failure(created: Vec<Message>, error: HonchoError) -> (r: HonchoError)
    ensures
        created@.len() == 0 ==> r == error,
        created@.len() > 0 ==> (r matches HonchoError::PartialFailure { messages, sent, error: inner } && messages@
            == created@ && sent == created@.len() && *inner == error),
{
    if created.len() == 0 {
        error
    } else {
        let sent = created.len();
        HonchoError::PartialFailure { messages: created, sent, error: Box::new(error) }
    }
}

/// The page a walk over a listing fetches after page `page` of `pages`:
/// none after the last page, nor after a page that came back empty.
pub fn next_listing_page(page: u64, pages: u64, was_empty: bool) -> (r: Option<u64>)
    ensures
        r == (if was_empty || page >= pages { None::<u64> } else { Some((page + 1) as u64) }),
        r matches Some(n) ==> page < n <= pages,
{
    if was_empty || page >= pages {
        None
    } else {
        Some(page + 1)
    }
}

} // verus!

verus! {

/// Default number of results of a session message search.
pub const DEFAULT_SESSION_SEARCH_LIMIT: u32 = 10;

/// Check the query of a session message search: it must not be empty.
pub fn validate_search_query(query: &str) -> (r: Result<()>)
    ensures
        r is Ok <==> query@.len() > 0,
        r matches Err(e) ==> (e matches HonchoError::Validation(m) && m@ == "query must not be empty"@),
{
    if query.is_empty() {
        return Err(HonchoError::Validation(String::from_str("query must not be empty")));
    }
    Ok(())
}

} // verus!
