//! Classification of a single probe's outcome.
//!
//! A probe is one bounded-timeout HTTP GET against a target. The transport
//! layer reports whether the request completed with a success status within
//! the timeout and how many milliseconds elapsed; this module turns that
//! outcome into the health record kept for the service.

use vstd::prelude::*;
use crate::status::ServiceStatus;

verus! {

/// A successful probe at or above this many milliseconds of latency counts
/// as `Slow` rather than `Healthy`.
pub const SLOW_THRESHOLD_MS: u64 = 500;

/// Hard per-probe timeout, in milliseconds.
pub const PROBE_TIMEOUT_MS: u64 = 3000;

/// The result of one probe of one service: its health tier, the elapsed
/// latency in milliseconds, and the wall-clock timestamp captured when the
/// probe started, as an RFC 3339 string.
#[derive(Clone, Debug)]
pub struct ServiceHealthInfo {
    pub status: ServiceStatus,
    pub latency_ms: u64,
    pub last_check: String,
}

/// Mathematical model of a [`ServiceHealthInfo`].
pub ghost struct HealthInfoView {
    pub status: ServiceStatus,
    pub latency_ms: u64,
    pub last_check: Seq<char>,
}

impl View for ServiceHealthInfo {
    type V = HealthInfoView;

    open spec fn view(&self) -> HealthInfoView {
        HealthInfoView {
            status: self.status,
            latency_ms: self.latency_ms,
            last_check: self.last_check@,
        }
    }
}

impl ServiceHealthInfo {
    /// A deep copy of this record.
    pub fn duplicate(&self) -> (r: ServiceHealthInfo)
        ensures
            r == *self,
    {
        ServiceHealthInfo {
            status: self.status,
            latency_ms: self.latency_ms,
            last_check: self.last_check.clone(),
        }
    }
}

/// The health tier assigned to a probe outcome. `success` says the request
/// completed with a 2xx status within the timeout; `latency_ms` is the
/// elapsed time. Timeouts, transport errors and non-success responses are
/// all folded into `Offline`; a success is `Healthy` below the slowness
/// threshold and `Slow` at or above it.
pub open spec fn classify_spec(success: bool, latency_ms: u64) -> ServiceStatus {
    if !success {
        ServiceStatus::Offline
    } else if latency_ms < SLOW_THRESHOLD_MS {
        ServiceStatus::Healthy
    } else {
        ServiceStatus::Slow
    }
}

/// Builds the health record for one finished probe. Never fails: every
/// outcome, error or not, maps to a record.
pub fn classify_probe(success: bool, latency_ms: u64, last_check: String) -> (info: ServiceHealthInfo)
    ensures
        info.status == classify_spec(success, latency_ms),
        info.latency_ms == latency_ms,
        info.last_check == last_check,
{
    let status = if !success {
        ServiceStatus::Offline
    } else if latency_ms < SLOW_THRESHOLD_MS {
        ServiceStatus::Healthy
    } else {
        ServiceStatus::Slow
    };
    ServiceHealthInfo { status, latency_ms, last_check }
}

/// Classification is deterministic: the tier is a pure function of the
/// injected latency and the transport outcome, following the fixed policy.
pub proof fn lemma_classification_deterministic(success: bool, latency_ms: u64)
    ensures
        success && latency_ms < SLOW_THRESHOLD_MS ==> classify_spec(
            success,
            latency_ms,
        ) == ServiceStatus::Healthy,
        success && latency_ms >= SLOW_THRESHOLD_MS ==> classify_spec(
            success,
            latency_ms,
        ) == ServiceStatus::Slow,
        !success ==> classify_spec(success, latency_ms) == ServiceStatus::Offline,
{
}

/// The `T` separator and the `HH:MM:SS` time block stand just before a
/// subsecond fraction of `f` characters and the six-character offset that
/// end the timestamp.
pub open spec fn rfc3339_time_block_at(t: Seq<char>, f: int) -> bool {
    &&& t.len() - 6 - f - 9 >= 10
    &&& t[t.len() - 6 - f - 9] == 'T'
    &&& t[t.len() - 6 - f - 6] == ':'
    &&& t[t.len() - 6 - f - 3] == ':'
    &&& (f > 0 ==> t[t.len() - 6 - f] == '.')
}

/// The shape of every timestamp `Utc::now().to_rfc3339()` can produce: a
/// date of at least ten characters, the separator `T`, a six-character
/// `HH:MM:SS` time with its two colons, a subsecond fraction that is absent
/// or a point followed by three, six or nine digits, and the fixed UTC
/// offset suffix `+00:00` — at least 25 characters in all, as in
/// `1996-12-19T16:39:57-08:00`.
pub open spec fn rfc3339_utc_shape(t: Seq<char>) -> bool {
    &&& t.len() >= 25
    &&& t.subrange(t.len() - 6, t.len() as int) == "+00:00"@
    &&& exists|f: int|
        (f == 0 || f == 4 || f == 7 || f == 10) && #[trigger] rfc3339_time_block_at(t, f)
}

/// Relies on chrono: `Utc::now().to_rfc3339()` writes a four-or-more-digit
/// year, `-`, month, `-`, day, `T`, `HH:MM:SS`, an optional `.` with three,
/// six or nine subsecond digits, and — the offset being UTC — the fixed
/// suffix `+00:00`. Which instant comes back depends on the clock; the shape
/// holds of every outcome.
#[verifier::external_body]
fn now_rfc3339() -> (t: String)
    ensures
        rfc3339_utc_shape(t@),
{
    chrono::Utc::now().to_rfc3339()
}

/// The wall-clock timestamp to record as `last_check`, captured at the start
/// of a probe. The value depends on the moment of the call; what is promised
/// is what holds of every outcome: the RFC 3339 UTC shape.
pub fn probe_timestamp() -> (t: String)
    ensures
        rfc3339_utc_shape(t@),
{
    now_rfc3339()
}

} // verus!
