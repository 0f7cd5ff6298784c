//! Defines the trait that sends the HTTP request over the wire
use vstd::prelude::*;

use crate::error::Error;

verus! {

/// One HTTP request, as plain values: the method, the full URL, the
/// headers in the order they are attached, and the body text.
#[derive(Debug, Clone, PartialEq, Eq)]
pub struct WireRequest {
    /// The HTTP method
    pub method: String,
    /// The full request URL
    pub uri: String,
    /// The headers, name and value pairs in order
    pub headers: Vec<(String, String)>,
    /// The request body
    pub body: String,
}

/// One HTTP reply, as plain values: the status code and the raw body.
#[derive(Debug, Clone, PartialEq, Eq)]
pub struct HttpReply {
    /// The HTTP status code
    pub status: u16,
    /// The raw response body
    pub body: Vec<u8>,
}

/// Trait for sending HTTP requests
///
/// The transport is supplied by the caller: anything that can carry
/// the request to the provider and hand its reply back.
pub trait Execute {
    /// Sends the request and returns the provider's reply
    ///
    /// It returns an error if something goes wrong on the way.
    fn execute(&self, request: &WireRequest) -> Result<HttpReply, Error>;
}

} // verus!
