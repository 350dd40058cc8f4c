//! Verified core of the Honcho SDK: request routing, stream parsing,
//! pagination, validation and the error model.

pub mod blocking;
pub mod client;
pub mod deps;
pub mod dialectic_stream;
pub mod error;
pub mod json;
pub mod message;
pub mod request;
pub mod retry;
pub mod routes;
pub mod session;
pub mod sse;
pub mod text;
pub mod types;
pub mod upload;
