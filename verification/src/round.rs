//! Bookkeeping of one full probing round and the replies of the two
//! endpoints.
//!
//! The transport layer probes every registered target concurrently and hands
//! back one result per target, in registry order. This module pairs each
//! result with its target's name, merges the round into the cache, and
//! reduces it to the overall verdict.

use vstd::prelude::*;
use crate::aggregate::determine_overall_status;
use crate::aggregate::overall_spec;
use crate::cache::HealthCache;
use crate::cache::entries_map;
use crate::cache::unique_keys;
use crate::probe::ServiceHealthInfo;
use crate::registry::unique_names;

verus! {

/// The payload answered to a validation request: the snapshot of the
/// just-finished round, one entry per registered target, and the overall
/// verdict derived from it.
pub struct ValidateResponse {
    pub services: Vec<(String, ServiceHealthInfo)>,
    pub overall: String,
}

/// The liveness payload of this service itself.
pub struct HealthResponse {
    pub status: String,
    pub service: String,
}

/// The liveness reply: this process is up, independent of any target.
pub fn health_response() -> (r: HealthResponse)
    ensures
        r.status@ == "healthy"@,
        r.service@ == "validator-rust"@,
{
    HealthResponse { status: "healthy".to_owned(), service: "validator-rust".to_owned() }
}

/// Bookkeeping of one probing round over `registry`, whose probe results
/// arrive in `results`, one per target and in registry order. The response
/// holds exactly one entry per registered target, each carrying its target's
/// result; the round is merged into the cache, replacing or adding keys and
/// removing none; and the verdict is the fixed reduction of the round's
/// statuses. No probe outcome is an error: the round never fails.
pub fn run_round(
    registry: &Vec<(&'static str, &'static str)>,
    results: Vec<ServiceHealthInfo>,
    cache: &mut HealthCache,
) -> (resp: ValidateResponse)
    requires
        old(cache).wf(),
        registry@.len() == results@.len(),
    ensures
        final(cache).wf(),
        resp.services@.len() == registry@.len(),
        forall|i: int|
            0 <= i < registry@.len() ==> (#[trigger] resp.services@[i]).0@ == registry@[i].0@
                && resp.services@[i].1 == results@[i],
        unique_names(registry@) ==> unique_keys(resp.services@),
        resp.overall@ == overall_spec(resp.services@),
        final(cache)@ == old(cache)@.union_prefer_right(entries_map(resp.services@)),
{
    let mut services: Vec<(String, ServiceHealthInfo)> = Vec::new();
    let mut i: usize = 0;
    while i < registry.len()
        invariant
            registry@.len() == results@.len(),
            i <= registry@.len(),
            services@.len() == i,
            forall|k: int|
                0 <= k < i ==> (#[trigger] services@[k]).0@ == registry@[k].0@ && services@[k].1
                    == results@[k],
        decreases registry@.len() - i,
    {
        let name = registry[i].0.to_owned();
        let info = results[i].duplicate();
        services.push((name, info));
        i += 1;
    }
    let overall = determine_overall_status(&services);
    cache.put_many(&services);
    proof {
        if unique_names(registry@) {
            assert forall|a: int, b: int|
                0 <= a < b < services@.len() implies services@[a].0@ != services@[b].0@ by {
                assert(registry@[a].0@ != registry@[b].0@);
            }
        }
    }
    ValidateResponse { services, overall }
}

} // verus!
