//! Data types of the Honcho API and the rules that go with them.

pub mod common;
pub mod conclusion;
pub mod dialectic;
pub mod dream;
pub mod pagination;
pub mod peer;
pub mod validation;
