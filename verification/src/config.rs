//! The one piece of shared mutable state in the core: the currently
//! configured base URL of the primary backend. The shell guards a value of
//! this type with its own lock; every critical section is a plain read or a
//! plain overwrite, which these methods model.

use vstd::prelude::*;

verus! {

/// The base URL a fresh process starts with.
pub open spec fn spec_default_base_url() -> Seq<char> {
    "http://localhost:8080"@
}

/// Process-wide runtime configuration: the primary API base URL currently in
/// effect. Overwritten unconditionally by `set_api_base_url` and read by every
/// subsequent primary health check.
pub struct SharedRuntimeConfig {
    pub api_base_url: String,
}

/// The configuration value that `set_api_base_url` leaves behind: the new URL,
/// with no dependence on the previous value.
pub open spec fn spec_set_api_base_url(cfg: SharedRuntimeConfig, url: String) -> SharedRuntimeConfig {
    SharedRuntimeConfig { api_base_url: url }
}

impl SharedRuntimeConfig {
    /// The configuration a process starts with.
    pub fn new() -> (c: Self)
        ensures
            c.api_base_url@ == spec_default_base_url(),
    {
        SharedRuntimeConfig { api_base_url: String::from_str("http://localhost:8080") }
    }

    /// Overwrites the stored base URL unconditionally. No validation is
    /// performed here: a malformed URL simply makes later checks fail with a
    /// connection error.
    pub fn set_api_base_url(&mut self, url: String)
        ensures
            *final(self) == spec_set_api_base_url(*old(self), url),
            final(self).api_base_url@ == url@,
    {
        self.api_base_url = url;
    }

    /// A copy of the base URL currently in effect.
    pub fn current_base_url(&self) -> (r: String)
        ensures
            r@ == self.api_base_url@,
    {
        self.api_base_url.clone()
    }
}

/// Law: writes to the shared configuration are last-write-wins, and a read
/// after a write sees exactly the written value. Setting the URL twice leaves
/// the second value, whatever was stored before.
pub proof fn lemma_config_last_write_wins(
    cfg: SharedRuntimeConfig,
    first: String,
    second: String,
)
    ensures
        spec_set_api_base_url(cfg, first).api_base_url == first,
        spec_set_api_base_url(spec_set_api_base_url(cfg, first), second)
            == spec_set_api_base_url(cfg, second),
{
}

} // verus!
