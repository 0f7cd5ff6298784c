//! API request trait and utilities
//!
//! This module provides the [`ApiRequest`] trait, which describes how a
//! request type should be sent to an HTTP API.  Each request type that
//! implements this trait declares its own HTTP method, endpoint path,
//! and JSON body.
use vstd::prelude::*;

verus! {

/// A trait for types that represent API requests
///
/// Implementors define the HTTP method, the endpoint path, and the JSON
/// body of the request, allowing generic clients to route requests
/// without hardcoding API details.
pub trait ApiRequest: Sized {
    /// The HTTP method of the request.
    spec fn spec_method(&self) -> Seq<char>;

    /// The endpoint path of the request: the path portion of the URL,
    /// starting with a `/`.  The base URL is provided by the client
    /// configuration.
    spec fn spec_endpoint(&self) -> Seq<char>;

    /// The JSON text that the request serializes to.
    spec fn spec_body_json(&self) -> Seq<char>;

    /// The HTTP method for this request
    fn method(&self) -> (m: String)
        ensures
            m@ == self.spec_method(),
    ;

    /// The API endpoint path for this request
    fn endpoint(&self) -> (e: String)
        ensures
            e@ == self.spec_endpoint(),
    ;

    /// Serializes the request into its JSON body
    fn body_json(&self) -> (b: String)
        ensures
            b@ == self.spec_body_json(),
    ;
}

} // verus!
