//! Configuration types shared across workspaces, sessions and peers.

use vstd::prelude::*;

verus! {

/// Configuration for reasoning functionality.
#[derive(Debug, Clone, Default, PartialEq, Eq)]
pub struct ReasoningConfiguration {
    /// Whether to enable reasoning functionality.
    pub enabled: Option<bool>,
    /// Custom instructions for the reasoning system.
    pub custom_instructions: Option<String>,
}

/// Configuration for automatic session summarization.
#[derive(Debug, Clone, Default, PartialEq, Eq)]
pub struct SummaryConfiguration {
    /// Whether to enable summary functionality.
    pub enabled: Option<bool>,
    /// Number of messages per short summary (minimum 10, server-validated).
    pub messages_per_short_summary: Option<u32>,
    /// Number of messages per long summary (minimum 20, server-validated).
    pub messages_per_long_summary: Option<u32>,
}

/// Configuration for dream functionality.
#[derive(Debug, Clone, Default, PartialEq, Eq)]
pub struct DreamConfiguration {
    /// Whether to enable dream functionality.
    pub enabled: Option<bool>,
}

/// Configuration for peer card generation and usage.
#[derive(Debug, Clone, Default, PartialEq, Eq)]
pub struct PeerCardConfiguration {
    /// Whether to use the peer card during the reasoning process.
    pub use_peer_card: Option<bool>,
    /// Whether to generate a peer card based on content.
    pub create: Option<bool>,
}

/// The options of a workspace-level configuration; session-level
/// configuration overrides it, and it overrides the global one.
#[derive(Debug, Clone, Default, PartialEq, Eq)]
pub struct WorkspaceConfiguration {
    /// Configuration for reasoning functionality.
    pub reasoning: Option<ReasoningConfiguration>,
    /// Configuration for peer card functionality.
    pub peer_card: Option<PeerCardConfiguration>,
    /// Configuration for summary functionality.
    pub summary: Option<SummaryConfiguration>,
    /// Configuration for dream functionality.
    pub dream: Option<DreamConfiguration>,
}

} // verus!
