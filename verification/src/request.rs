//! Requests the library prepares and the transport sends.

use vstd::prelude::*;

use crate::error::Result;

verus! {

/// HTTP method of a request.
#[derive(Debug, Clone, Copy, PartialEq, Eq)]
pub enum Method {
    /// `GET`
    Get,
    /// `POST`
    Post,
    /// `PUT`
    Put,
    /// `DELETE`
    Delete,
}

/// A request ready to send: method, path below the base URL, query
/// parameters in order, and body.
#[derive(Debug, Clone, PartialEq, Eq)]
pub struct ApiRequest<B> {
    /// HTTP method.
    pub method: Method,
    /// Path of the endpoint.
    pub route: String,
    /// Query parameters, in order.
    pub query: Vec<(String, String)>,
    /// Body of the request.
    pub body: B,
}

/// The path a prepared request goes to, or the error preparing it gave.
pub open spec fn route_of<B>(r: Result<ApiRequest<B>>) -> Result<String> {
    match r {
        Ok(q) => Ok(q.route),
        Err(e) => Err(e),
    }
}

} // verus!
