//! The synchronous facade: value types and request builders whose requests
//! the caller's transport runs to completion.

pub mod conclusion;
pub mod session;
