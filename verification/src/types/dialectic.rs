//! Dialectic API types: chat and query with representation-backed answers.

use vstd::prelude::*;
use vstd::string::StringSliceAdditionalSpecFns;

use crate::error::{HonchoError, Result};
use crate::text::{is_blank, spec_is_blank};

verus! {

/// Most characters a dialectic query may have.
pub const MAX_DIALECTIC_QUERY_CHARS: usize = 10000;

/// Reasoning effort level for dialectic queries.
#[derive(Debug, Clone, Copy, PartialEq, Eq)]
pub enum ReasoningLevel {
    /// Minimal reasoning.
    Minimal,
    /// Low reasoning (default).
    Low,
    /// Medium reasoning.
    Medium,
    /// High reasoning.
    High,
    /// Maximum reasoning.
    Max,
    /// A level this SDK version does not know.
    Unknown,
}

impl Default for ReasoningLevel {
    /// [`ReasoningLevel::Low`].
    fn default() -> (r: Self)
        ensures
            r == ReasoningLevel::Low,
    {
        ReasoningLevel::Low
    }
}

/// Whether `level` is the default level, which requests leave out.
pub fn is_default_reasoning_level(level: &ReasoningLevel) -> (r: bool)
    ensures
        r == (*level == ReasoningLevel::Low),
{
    match level {
        ReasoningLevel::Low => true,
        _ => false,
    }
}

/// Whether `val` is the default flag (`false`), which requests leave out.
pub fn is_default_bool(val: &bool) -> (r: bool)
    ensures
        r == !*val,
{
    !*val
}

/// Whether `e` is the validation error with message `m`.
pub open spec fn is_validation(e: HonchoError, m: Seq<char>) -> bool {
    e matches HonchoError::Validation(msg) && msg@ == m
}

/// The outcome of checking a dialectic query.
pub open spec fn spec_query_check(query: Seq<char>) -> Option<Seq<char>> {
    if spec_is_blank(query) {
        Some("query must not be empty"@)
    } else if query.len() > MAX_DIALECTIC_QUERY_CHARS {
        Some("query must be at most 10000 characters"@)
    } else {
        None
    }
}

/// Validate a dialectic query before sending it to the API: it must hold a
/// character other than white space, and at most 10000 characters.
pub fn validate_dialectic_query(query: &str) -> (r: Result<()>)
    ensures
        match spec_query_check(query@) {
            None => r is Ok,
            Some(m) => r matches Err(e) && is_validation(e, m),
        },
{
    if is_blank(query) {
        return Err(HonchoError::Validation(String::from_str("query must not be empty")));
    }
    if query.unicode_len() > MAX_DIALECTIC_QUERY_CHARS {
        return Err(HonchoError::Validation(String::from_str("query must be at most 10000 characters")));
    }
    Ok(())
}

/// Options for a dialectic chat request.
#[derive(Debug, Clone, PartialEq, Eq)]
pub struct DialecticOptions {
    /// Dialectic API prompt (1–10,000 chars).
    pub query: String,
    /// ID of the session to scope the representation to.
    pub session_id: Option<String>,
    /// Optional peer to get the representation for, from the perspective of this peer.
    pub target: Option<String>,
    /// Whether to stream the response.
    pub stream: bool,
    /// Level of reasoning to apply.
    pub reasoning_level: ReasoningLevel,
}

impl DialecticOptions {
    /// Options for `query` with every other field at its default.
    pub fn new(query: String) -> (r: Self)
        ensures
            r.query@ == query@,
            r.session_id is None,
            r.target is None,
            !r.stream,
            r.reasoning_level == ReasoningLevel::Low,
    {
        DialecticOptions { query, session_id: None, target: None, stream: false, reasoning_level: ReasoningLevel::Low }
    }

    /// Validate options before sending them to the API.
    pub fn validate(&self) -> (r: Result<()>)
        ensures
            match spec_query_check(self.query@) {
                None => r is Ok,
                Some(m) => r matches Err(e) && is_validation(e, m),
            },
    {
        validate_dialectic_query(self.query.as_str())
    }
}

/// Response from the representation endpoint.
#[derive(Debug, Clone, PartialEq, Eq)]
pub struct RepresentationResponse {
    /// The peer representation text.
    pub representation: String,
}

} // verus!
