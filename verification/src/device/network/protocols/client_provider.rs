use vstd::prelude::*;

use super::HttpClient;

verus! {

/// An owned HTTP client of any implementation.
pub struct BoxedHttpClient(pub Box<dyn HttpClient>);

/// Creates platform-specific HTTP clients.
pub trait HttpClientProvider {
    /// Creates a new HTTP client.
    fn create_http_client(&self) -> BoxedHttpClient;
}

} // verus!
