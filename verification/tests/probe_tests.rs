use validator_rust::probe::classify_probe;
use validator_rust::probe::probe_timestamp;
use validator_rust::probe::PROBE_TIMEOUT_MS;
use validator_rust::probe::SLOW_THRESHOLD_MS;
use validator_rust::status::ServiceStatus;

fn ts() -> String {
    "2024-01-02T03:04:05+00:00".to_owned()
}

#[test]
fn fast_success_is_healthy() {
    let info = classify_probe(true, 100, ts());
    assert_eq!(info.status, ServiceStatus::Healthy);
    assert_eq!(info.latency_ms, 100);
    assert_eq!(info.last_check, ts());
}

#[test]
fn slow_success_is_slow() {
    let info = classify_probe(true, 800, ts());
    assert_eq!(info.status, ServiceStatus::Slow);
    assert_eq!(info.latency_ms, 800);
}

#[test]
fn threshold_boundary() {
    assert_eq!(SLOW_THRESHOLD_MS, 500);
    assert_eq!(classify_probe(true, 499, ts()).status, ServiceStatus::Healthy);
    assert_eq!(classify_probe(true, 500, ts()).status, ServiceStatus::Slow);
}

#[test]
fn transport_error_is_offline() {
    let info = classify_probe(false, 12, ts());
    assert_eq!(info.status, ServiceStatus::Offline);
    assert_eq!(info.latency_ms, 12);
}

#[test]
fn timeout_is_offline_with_elapsed_latency() {
    assert_eq!(PROBE_TIMEOUT_MS, 3000);
    let info = classify_probe(false, 3000, ts());
    assert_eq!(info.status, ServiceStatus::Offline);
    assert_eq!(info.latency_ms, 3000);
}

#[test]
fn classification_is_deterministic() {
    for &(success, latency) in &[(true, 0u64), (true, 499), (true, 500), (true, 2999), (false, 7)] {
        let a = classify_probe(success, latency, ts());
        let b = classify_probe(success, latency, ts());
        assert_eq!(a.status, b.status);
        assert_eq!(a.latency_ms, b.latency_ms);
    }
}

#[test]
fn zero_latency_failure_is_offline() {
    assert_eq!(classify_probe(false, 0, ts()).status, ServiceStatus::Offline);
}

#[test]
fn status_wire_labels() {
    assert_eq!(ServiceStatus::Healthy.as_str(), "healthy");
    assert_eq!(ServiceStatus::Slow.as_str(), "slow");
    assert_eq!(ServiceStatus::Offline.as_str(), "offline");
}

#[test]
fn timestamp_is_rfc3339() {
    let t = probe_timestamp();
    assert!(t.len() >= 25);
    assert!(t.ends_with("+00:00"));
    assert!(t.contains('T'));
    assert!(chrono::DateTime::parse_from_rfc3339(&t).is_ok());
}

#[test]
fn timestamps_never_go_backwards() {
    let t1 = probe_timestamp();
    let t2 = probe_timestamp();
    let p1 = chrono::DateTime::parse_from_rfc3339(&t1).unwrap();
    let p2 = chrono::DateTime::parse_from_rfc3339(&t2).unwrap();
    assert!(p1 <= p2);
}
