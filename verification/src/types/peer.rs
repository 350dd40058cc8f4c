//! Peer configuration, card and context types.

use vstd::prelude::*;

verus! {

/// Typed peer configuration with known fields.
#[derive(Debug, Clone, PartialEq, Eq, Default)]
pub struct PeerConfig {
    /// Whether Honcho will use reasoning to form a representation of this peer.
    pub observe_me: Option<bool>,
    /// Whether this peer should form representations of other peers.
    pub observe_others: Option<bool>,
}

/// Request body for setting peer configuration (replaces it entirely).
#[derive(Debug, Clone, PartialEq, Eq)]
pub struct PeerConfigurationSet {
    /// Configuration to set.
    pub configuration: PeerConfig,
}

/// Response from getting a peer card.
#[derive(Debug, Clone, PartialEq, Eq)]
pub struct PeerCardResponse {
    /// The peer card content lines, or `None` if no card exists.
    pub peer_card: Option<Vec<String>>,
}

/// Request body for setting a peer card.
#[derive(Debug, Clone, PartialEq, Eq)]
pub struct PeerCardSet {
    /// The peer card content lines to set.
    pub peer_card: Vec<String>,
}

/// Context for a peer, combining representation and peer card.
#[derive(Debug, Clone, PartialEq, Eq)]
pub struct PeerContext {
    /// The ID of the observer peer.
    pub peer_id: String,
    /// The ID of the target peer being observed.
    pub target_id: String,
    /// Curated subset of the representation of the target from the observer's perspective.
    pub representation: Option<String>,
    /// The peer card for the target from the observer's perspective.
    pub peer_card: Option<Vec<String>>,
}

} // verus!
