//! The requests that the client sends: method, path under the API root, and
//! an optional JSON body. Sending them is the caller's part.
use vstd::prelude::*;

verus! {

#[derive(Debug, Clone, Copy, PartialEq, Eq, Structural)]
pub enum Method {
    Get,
    Post,
    Put,
    Delete,
}

/// One request to the API.
#[derive(Debug, Clone)]
pub struct ApiRequest {
    pub method: Method,
    /// Path under the host, starting with `/`.
    pub path: String,
    /// JSON text to send, with a JSON content type.
    pub body: Option<String>,
}

/// The API is served over HTTPS on port 12445.
pub open spec fn url_text(host: Seq<char>, path: Seq<char>) -> Seq<char> {
    "https://"@ + host + ":12445"@ + path
}

/// The URL of `path` on `host`.
pub fn request_url(host: &str, path: &str) -> (r: String)
    ensures
        r@ == url_text(host@, path@),
{
    let mut s = "https://".to_owned();
    s.append(host);
    s.append(":12445");
    s.append(path);
    s
}

/// `prefix` followed by `tail`.
pub fn joined(prefix: &str, tail: &str) -> (r: String)
    ensures
        r@ == prefix@ + tail@,
{
    let mut s = prefix.to_owned();
    s.append(tail);
    s
}

} // verus!
