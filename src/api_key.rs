//! The guard in front of the HTTP endpoints: a request passes when it goes to
//! the WebSocket endpoint or carries the right API key.
use vstd::prelude::*;
use crate::text::{same_text, starts_with_text};

verus! {

/// The key that publishers must send in the `X-Api-Key` header.
pub const API_KEY: &'static str = "your_secret_api_key";

/// The path prefix of the WebSocket endpoint, which needs no key.
pub const WS_PREFIX: &'static str = "/ws/";

/// Whether a request to `path`, carrying `api_key` (the header's value, if
/// any), is let through.
pub open spec fn admitted(path: Seq<char>, api_key: Option<Seq<char>>) -> bool {
    (4 <= path.len() && path.subrange(0, 4) == "/ws/"@) || api_key == Some("your_secret_api_key"@)
}

/// The guard itself; `new_transform` wraps a service in it.
pub struct ApiKey;

/// A service behind the guard.
pub struct ApiKeyMiddleware<S> {
    service: S,
}

impl ApiKey {
    /// Puts `service` behind the guard.
    pub fn new_transform<S>(&self, service: S) -> (r: ApiKeyMiddleware<S>)
        ensures
            r.service() == service,
    {
        ApiKeyMiddleware { service }
    }
}

impl<S> ApiKeyMiddleware<S> {
    pub closed spec fn service(&self) -> S {
        self.service
    }

    /// The service behind the guard.
    pub fn inner(&self) -> (r: &S)
        ensures
            *r == self.service(),
    {
        &self.service
    }

    /// Whether a request to `path` carrying `api_key` reaches the service;
    /// the others get an "Unauthorized" reply.
    pub fn admits(path: &str, api_key: Option<&str>) -> (r: bool)
        ensures
            r == admitted(
                path@,
                match api_key {
                    Some(k) => Some(k@),
                    None => None,
                },
            ),
    {
        proof {
            reveal_strlit("/ws/");
            reveal_strlit("your_secret_api_key");
        }
        if starts_with_text(path, WS_PREFIX) {
            return true;
        }
        match api_key {
            Some(k) => same_text(k, API_KEY),
            None => false,
        }
    }
}

} // verus!
