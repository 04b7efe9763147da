//! Liveness endpoints: every one of them answers with a plain `ok`.

use vstd::prelude::*;

verus! {

/// The liveness API. Each endpoint reports the process as alive, with
/// no further state to consult.
pub struct HealthApi;

impl HealthApi {
    /// Basic liveness endpoint.
    pub fn healthz(&self) -> (r: &'static str)
        ensures
            r@ == "ok"@,
    {
        "ok"
    }

    /// Hosting-platform healthcheck endpoint, under the path the
    /// platform probes (which misspells "health").
    pub fn kaithheathcheck(&self) -> (r: &'static str)
        ensures
            r@ == "ok"@,
    {
        "ok"
    }

    /// Hosting-platform healthcheck endpoint, correctly spelled.
    pub fn kaithhealthcheck(&self) -> (r: &'static str)
        ensures
            r@ == "ok"@,
    {
        "ok"
    }
}

} // verus!
