//! Validation and translation between a generic HTTP request description and what a host
//! transport takes, and from the transport's answer back to a generic response description.
use vstd::prelude::*;

pub mod laws;
mod outside;
pub mod request;
pub mod response;
pub mod text;

pub use outside::{is_json_text, parsed_scheme};
pub use request::{build_outcome, header_pairs, OutgoingRequest};
pub use response::ResponseHead;

verus! {

/// A request as the caller describes it.
#[derive(Debug)]
pub struct HttpRequest {
    pub method: String,
    pub url: String,
    pub headers: Vec<(String, String)>,
    pub body: String,
}

/// A response as handed back to the caller; `time` is the dispatch-to-completion interval in
/// milliseconds.
#[derive(Debug)]
pub struct HttpResponse {
    pub status: u16,
    pub status_text: String,
    pub headers: Vec<(String, String)>,
    pub body: String,
    pub time: u64,
}

/// The entry point: `build` checks a request, `receive` and `finish` turn what the transport
/// answered into a response.
pub struct ApiClient;

/// Why a call ended without a response.
#[derive(Debug, PartialEq, Eq)]
pub enum RequestError {
    /// The URL does not parse as an absolute URL.
    MalformedUrl,
    /// The URL's scheme is neither `http` nor `https`.
    UnsupportedScheme,
    /// The method is not one of GET, POST, PUT, DELETE, PATCH, HEAD, OPTIONS.
    UnsupportedMethod,
    /// The body is declared as JSON and does not parse as JSON.
    InvalidJsonBody,
    /// A body was given for POST, PUT or PATCH without a `Content-Type` header.
    MissingContentType,
    /// The transport failed; the host's diagnostic.
    NetworkError(String),
    /// The response body could not be read; the host's diagnostic.
    BodyReadError(String),
    /// The inbound value does not have the request's shape, or the response could not be
    /// encoded.
    SerializationError(String),
    /// The host offers no networking primitive.
    HostUnavailable,
}

} // verus!
