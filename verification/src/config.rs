//! The configuration of the client: where the verification service lives.

use vstd::prelude::*;
use vstd::string::*;

verus! {

/// The seconds after which a call to the service is given up.
pub const DEFAULT_TIMEOUT_SECS: u64 = 30;

/// The address of the service where none is configured.
pub open spec fn default_backend_url() -> Seq<char> {
    "http://localhost:3000"@
}

/// The address that a configured value stands for: the value itself, or the
/// default where the value is empty.
pub open spec fn effective_backend_url(configured: Seq<char>) -> Seq<char> {
    if configured.len() == 0 {
        default_backend_url()
    } else {
        configured
    }
}

/// The address that an optional override stands for.
pub open spec fn configured_backend_url(value: Option<String>) -> Seq<char> {
    match value {
        Some(text) => text@,
        None => default_backend_url(),
    }
}

/// The application's settings.
pub struct AppConfig {
    /// The base address of the verification service; empty for the default.
    pub backend_url: String,
}

impl AppConfig {
    /// The settings for an override taken from the environment: the
    /// override where there is one, the default address otherwise.
    pub fn from_override(value: Option<String>) -> (config: Self)
        ensures
            config.backend_url@ == configured_backend_url(value),
    {
        match value {
            Some(text) => AppConfig { backend_url: text },
            None => AppConfig { backend_url: String::from_str("http://localhost:3000") },
        }
    }

    /// The base address of the service, with the default in place of an
    /// empty setting.
    pub fn backend_url(&self) -> (url: &str)
        ensures
            url@ == effective_backend_url(self.backend_url@),
    {
        if self.backend_url.as_str().is_empty() {
            "http://localhost:3000"
        } else {
            self.backend_url.as_str()
        }
    }
}

/// The base address of the service under the given settings, as an owned
/// string.
pub fn get_backend_url(config: &AppConfig) -> (url: String)
    ensures
        url@ == effective_backend_url(config.backend_url@),
{
    String::from_str(config.backend_url())
}

/// Whatever the override is, the address in use is never empty.
pub proof fn lemma_backend_url_never_empty(configured: Seq<char>)
    ensures
        effective_backend_url(configured).len() > 0,
{
    reveal_strlit("http://localhost:3000");
}

} // verus!
