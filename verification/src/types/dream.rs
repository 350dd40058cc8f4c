//! Dream API types: scheduling of background memory consolidation.

use std::collections::HashMap;

use vstd::prelude::*;

verus! {

/// Types of dreams that can be triggered.
#[derive(Debug, Clone, Copy, PartialEq, Eq, Hash)]
pub enum DreamType {
    /// Omni dream — consolidate all observations.
    Omni,
    /// A dream type this SDK version does not know.
    Unknown,
}

/// Request to schedule a dream task.
#[derive(Debug, Clone, PartialEq, Eq)]
pub struct ScheduleDreamRequest {
    /// Observer peer name.
    pub observer: String,
    /// Type of dream to schedule.
    pub dream_type: DreamType,
    /// Observed peer name (defaults to observer if not specified).
    pub observed: Option<String>,
    /// Session ID to scope the dream to.
    pub session_id: Option<String>,
}

impl ScheduleDreamRequest {
    /// An omni dream for `observer`, on no particular peer or session.
    pub fn new(observer: String) -> (r: Self)
        ensures
            r.observer@ == observer@,
            r.dream_type == DreamType::Omni,
            r.observed is None,
            r.session_id is None,
    {
        ScheduleDreamRequest { observer, dream_type: DreamType::Omni, observed: None, session_id: None }
    }
}

/// Status for a specific session within the processing queue.
#[derive(Debug, Clone, PartialEq, Eq)]
pub struct SessionQueueStatus {
    /// Session ID if filtered by session.
    pub session_id: Option<String>,
    /// Total work units.
    pub total_work_units: u64,
    /// Completed work units (since last periodic cleanup).
    pub completed_work_units: u64,
    /// Work units currently being processed.
    pub in_progress_work_units: u64,
    /// Work units waiting to be processed.
    pub pending_work_units: u64,
}

/// Aggregated processing queue status.
#[derive(Debug, Clone, PartialEq, Eq)]
pub struct QueueStatus {
    /// Total work units.
    pub total_work_units: u64,
    /// Completed work units (since last periodic cleanup).
    pub completed_work_units: u64,
    /// Work units currently being processed.
    pub in_progress_work_units: u64,
    /// Work units waiting to be processed.
    pub pending_work_units: u64,
    /// Per-session status when not filtered by session.
    pub sessions: Option<HashMap<String, SessionQueueStatus>>,
}

} // verus!
