//! Conclusion types of the Honcho API.

use vstd::prelude::*;

use crate::message::Timestamp;

verus! {

/// Reasoning level of a conclusion.
#[derive(Debug, Clone, Copy, PartialEq, Eq)]
pub enum ConclusionLevel {
    /// Extracted directly from a message.
    Explicit,
    /// Derived during dreaming.
    Deductive,
    /// Derived during dreaming.
    Inductive,
    /// Derived during dreaming; records a contradiction.
    Contradiction,
    /// A level this SDK version does not know.
    Unknown,
}

impl Default for ConclusionLevel {
    /// [`ConclusionLevel::Explicit`].
    fn default() -> (r: Self)
        ensures
            r == ConclusionLevel::Explicit,
    {
        ConclusionLevel::Explicit
    }
}

/// The wire name of a level.
pub open spec fn spec_level_name(level: ConclusionLevel) -> Seq<char> {
    match level {
        ConclusionLevel::Explicit => "explicit"@,
        ConclusionLevel::Deductive => "deductive"@,
        ConclusionLevel::Inductive => "inductive"@,
        ConclusionLevel::Contradiction => "contradiction"@,
        ConclusionLevel::Unknown => "unknown"@,
    }
}

impl ConclusionLevel {
    /// The wire name of the level (`explicit`, `deductive`, …).
    pub fn as_str(&self) -> (r: &'static str)
        ensures
            r@ == spec_level_name(*self),
    {
        match self {
            ConclusionLevel::Explicit => "explicit",
            ConclusionLevel::Deductive => "deductive",
            ConclusionLevel::Inductive => "inductive",
            ConclusionLevel::Contradiction => "contradiction",
            ConclusionLevel::Unknown => "unknown",
        }
    }

    /// The display form of the level: its wire name.
    pub fn to_string(&self) -> (r: String)
        ensures
            r@ == spec_level_name(*self),
    {
        String::from_str(self.as_str())
    }
}

/// A conclusion about a peer, as the API returns it.
#[derive(Debug, Clone, PartialEq, Eq)]
pub struct ConclusionResponse {
    /// Unique identifier.
    pub id: String,
    /// The conclusion content text.
    pub content: String,
    /// The peer who made the conclusion.
    pub observer_id: String,
    /// The peer the conclusion is about.
    pub observed_id: String,
    /// Optional session ID the conclusion belongs to.
    pub session_id: Option<String>,
    /// When the conclusion was created.
    pub created_at: Timestamp,
    /// Reasoning level (`Explicit` when the server leaves it out).
    pub level: ConclusionLevel,
}

/// Request body for creating a single conclusion.
#[derive(Debug, Clone, PartialEq, Eq)]
pub struct ConclusionCreate {
    /// The conclusion content (1–65535 chars).
    pub content: String,
    /// The peer making the conclusion.
    pub observer_id: String,
    /// The peer the conclusion is about.
    pub observed_id: String,
    /// Optional session ID to associate the conclusion with.
    pub session_id: Option<String>,
}

/// Request body for batch-creating conclusions (1–100 items).
#[derive(Debug, Clone, PartialEq, Eq)]
pub struct ConclusionBatchCreate {
    /// The conclusions to create.
    pub conclusions: Vec<ConclusionCreate>,
}

/// Default number of semantic-search results a conclusion query asks for.
pub const DEFAULT_TOP_K: u32 = 10;

/// The number of results a conclusion query asks for when none is given.
pub fn default_top_k() -> (r: u32)
    ensures
        r == DEFAULT_TOP_K,
{
    DEFAULT_TOP_K
}

} // verus!
