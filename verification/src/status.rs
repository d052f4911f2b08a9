//! The health tier of a probed service and its wire representation.

use vstd::prelude::*;

verus! {

/// Health tier of one probed service, ordered by severity:
/// `Healthy` < `Slow` < `Offline`.
#[derive(Clone, Copy, Debug, PartialEq, Eq, Structural)]
pub enum ServiceStatus {
    Healthy,
    Slow,
    Offline,
}

/// Lowercase wire label of a status.
pub open spec fn status_label(s: ServiceStatus) -> Seq<char> {
    match s {
        ServiceStatus::Healthy => "healthy"@,
        ServiceStatus::Slow => "slow"@,
        ServiceStatus::Offline => "offline"@,
    }
}

impl ServiceStatus {
    /// The lowercase wire string of this status.
    pub fn as_str(&self) -> (r: &'static str)
        ensures
            r@ == status_label(*self),
    {
        match self {
            ServiceStatus::Healthy => "healthy",
            ServiceStatus::Slow => "slow",
            ServiceStatus::Offline => "offline",
        }
    }
}

} // verus!
