//! The generic HTTP passthrough: its request and response shapes and the
//! time allowed for a request.

use std::collections::HashMap;
use vstd::prelude::*;

verus! {

/// Milliseconds allowed for a request that names no timeout of its own.
pub const DEFAULT_TIMEOUT_MS: u64 = 30_000;

/// A request to pass through.
#[derive(Debug)]
pub struct HttpRequest {
    pub url: String,
    /// The method by name, such as `GET` or `POST`.
    pub method: String,
    pub headers: Option<HashMap<String, String>>,
    pub body: Option<serde_json::Value>,
    pub timeout_ms: Option<u64>,
}

/// The upstream's answer to a passed-through request.
#[derive(Debug)]
pub struct HttpResponse {
    pub status: u16,
    pub headers: HashMap<String, String>,
    pub body: serde_json::Value,
}

/// The time allowed for a request: its own timeout, or thirty seconds.
pub open spec fn timeout_ms(request: HttpRequest) -> u64 {
    match request.timeout_ms {
        Some(ms) => ms,
        None => DEFAULT_TIMEOUT_MS,
    }
}

/// The milliseconds to allow for a request.
pub fn request_timeout_ms(request: &HttpRequest) -> (ms: u64)
    ensures
        ms == timeout_ms(*request),
{
    match request.timeout_ms {
        Some(ms) => ms,
        None => DEFAULT_TIMEOUT_MS,
    }
}

} // verus!
