//! Reduction of one round's per-service results to a single overall verdict.

use vstd::prelude::*;
use crate::probe::ServiceHealthInfo;
use crate::status::ServiceStatus;

verus! {

/// Some entry of the round has the given status.
pub open spec fn has_status(s: Seq<(String, ServiceHealthInfo)>, st: ServiceStatus) -> bool {
    exists|i: int| 0 <= i < s.len() && s[i].1.status == st
}

/// Every entry of the round is `Healthy` (vacuously true of an empty round).
pub open spec fn all_healthy(s: Seq<(String, ServiceHealthInfo)>) -> bool {
    forall|i: int| 0 <= i < s.len() ==> s[i].1.status == ServiceStatus::Healthy
}

/// The overall verdict over one round of results: a single `Offline` entry
/// makes the fleet `"unhealthy"`; otherwise a single `Slow` entry makes it
/// `"degraded"`; otherwise it is `"healthy"`. Order-independent and with no
/// weighting by how many entries are affected.
pub open spec fn overall_spec(s: Seq<(String, ServiceHealthInfo)>) -> Seq<char> {
    if has_status(s, ServiceStatus::Offline) {
        "unhealthy"@
    } else if has_status(s, ServiceStatus::Slow) {
        "degraded"@
    } else {
        "healthy"@
    }
}

/// Reduces a round of per-service results to the overall verdict.
pub fn determine_overall_status(services: &Vec<(String, ServiceHealthInfo)>) -> (overall: String)
    ensures
        overall@ == overall_spec(services@),
{
    let mut has_offline = false;
    let mut has_slow = false;
    let mut i: usize = 0;
    while i < services.len()
        invariant
            i <= services.len(),
            has_offline == has_status(services@.take(i as int), ServiceStatus::Offline),
            has_slow == has_status(services@.take(i as int), ServiceStatus::Slow),
        decreases services.len() - i,
    {
        proof {
            assert(services@.take(i + 1).drop_last() =~= services@.take(i as int));
            assert(services@.take(i + 1).last() == services@[i as int]);
            assert forall|st: ServiceStatus| has_status(
                services@.take(i + 1),
                st,
            ) == (has_status(services@.take(i as int), st) || services@[i as int].1.status
                == st) by {
                let pre = services@.take(i as int);
                let ext = services@.take(i + 1);
                if has_status(pre, st) {
                    let k = choose|k: int| 0 <= k < pre.len() && pre[k].1.status == st;
                    assert(ext[k].1.status == st);
                }
                if has_status(ext, st) {
                    let k = choose|k: int| 0 <= k < ext.len() && ext[k].1.status == st;
                    if k < pre.len() {
                        assert(pre[k].1.status == st);
                    }
                }
            }
        }
        match services[i].1.status {
            ServiceStatus::Offline => {
                has_offline = true;
            },
            ServiceStatus::Slow => {
                has_slow = true;
            },
            ServiceStatus::Healthy => {},
        }
        i += 1;
    }
    proof {
        assert(services@.take(services@.len() as int) =~= services@);
    }
    if has_offline {
        "unhealthy".to_owned()
    } else if has_slow {
        "degraded".to_owned()
    } else {
        "healthy".to_owned()
    }
}

/// The verdict is `"unhealthy"` exactly when at least one service is
/// `Offline`.
pub proof fn lemma_overall_unhealthy_iff(s: Seq<(String, ServiceHealthInfo)>)
    ensures
        (overall_spec(s) == "unhealthy"@) <==> has_status(s, ServiceStatus::Offline),
{
    reveal_strlit("unhealthy");
    reveal_strlit("degraded");
    reveal_strlit("healthy");
    assert("unhealthy"@.len() == 9);
    assert("degraded"@.len() == 8);
    assert("healthy"@.len() == 7);
}

/// The verdict is `"degraded"` exactly when no service is `Offline` and at
/// least one is `Slow`.
pub proof fn lemma_overall_degraded_iff(s: Seq<(String, ServiceHealthInfo)>)
    ensures
        (overall_spec(s) == "degraded"@) <==> (!has_status(s, ServiceStatus::Offline)
            && has_status(s, ServiceStatus::Slow)),
{
    reveal_strlit("unhealthy");
    reveal_strlit("degraded");
    reveal_strlit("healthy");
    assert("unhealthy"@.len() == 9);
    assert("degraded"@.len() == 8);
    assert("healthy"@.len() == 7);
}

/// The verdict is `"healthy"` exactly when every service is `Healthy`,
/// vacuously so for an empty round.
pub proof fn lemma_overall_healthy_iff(s: Seq<(String, ServiceHealthInfo)>)
    ensures
        (overall_spec(s) == "healthy"@) <==> all_healthy(s),
{
    reveal_strlit("unhealthy");
    reveal_strlit("degraded");
    reveal_strlit("healthy");
    assert("unhealthy"@.len() == 9);
    assert("degraded"@.len() == 8);
    assert("healthy"@.len() == 7);
    if !has_status(s, ServiceStatus::Offline) && !has_status(s, ServiceStatus::Slow) {
        assert forall|i: int| 0 <= i < s.len() implies s[i].1.status
            == ServiceStatus::Healthy by {
            if s[i].1.status == ServiceStatus::Offline {
                assert(has_status(s, ServiceStatus::Offline));
            }
            if s[i].1.status == ServiceStatus::Slow {
                assert(has_status(s, ServiceStatus::Slow));
            }
        }
    }
    if all_healthy(s) {
        assert(!has_status(s, ServiceStatus::Offline));
        assert(!has_status(s, ServiceStatus::Slow));
    }
}

} // verus!
