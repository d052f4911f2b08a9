use validator_rust::cache::HealthCache;
use validator_rust::probe::classify_probe;
use validator_rust::probe::ServiceHealthInfo;
use validator_rust::registry::get_service_endpoints;
use validator_rust::round::health_response;
use validator_rust::round::run_round;
use validator_rust::status::ServiceStatus;

fn info(success: bool, latency_ms: u64, when: &str) -> ServiceHealthInfo {
    classify_probe(success, latency_ms, when.to_owned())
}

#[test]
fn registry_has_four_distinct_targets() {
    let registry = get_service_endpoints();
    assert_eq!(registry.len(), 4);
    let expected = [
        ("python", "http://metrics:8000/health"),
        ("go", "http://load:8002/health"),
        ("cpp", "http://chaos:8003/health"),
        ("java", "http://rules:8080/health"),
    ];
    for (got, want) in registry.iter().zip(expected.iter()) {
        assert_eq!(got, want);
    }
    for i in 0..registry.len() {
        for j in (i + 1)..registry.len() {
            assert_ne!(registry[i].0, registry[j].0);
        }
    }
}

#[test]
fn cache_starts_empty_and_grows() {
    let mut cache = HealthCache::new();
    assert!(cache.get("python").is_none());
    assert_eq!(cache.get_all().len(), 0);

    let updates = vec![("python".to_owned(), info(true, 42, "2024-01-02T03:04:05+00:00"))];
    cache.put_many(&updates);
    let got = cache.get("python").expect("entry was just written");
    assert_eq!(got.status, ServiceStatus::Healthy);
    assert_eq!(got.latency_ms, 42);
    assert!(cache.get("go").is_none());
}

#[test]
fn later_round_wins_per_key_and_nothing_is_dropped() {
    let mut cache = HealthCache::new();
    let round1 = vec![
        ("x".to_owned(), info(true, 100, "2024-01-02T03:04:05+00:00")),
        ("y".to_owned(), info(true, 200, "2024-01-02T03:04:05+00:00")),
    ];
    cache.put_many(&round1);
    let round2 = vec![("x".to_owned(), info(false, 3000, "2024-01-02T03:04:06+00:00"))];
    cache.put_many(&round2);

    let x = cache.get("x").expect("x stays cached");
    assert_eq!(x.status, ServiceStatus::Offline);
    assert_eq!(x.latency_ms, 3000);
    assert_eq!(x.last_check, "2024-01-02T03:04:06+00:00");

    let y = cache.get("y").expect("a key absent from round 2 is kept");
    assert_eq!(y.latency_ms, 200);

    let all = cache.get_all();
    assert_eq!(all.len(), 2);
}

#[test]
fn last_check_advances_across_rounds() {
    let mut cache = HealthCache::new();
    let first = vec![("x".to_owned(), classify_probe(true, 1, validator_rust::probe::probe_timestamp()))];
    cache.put_many(&first);
    let before = cache.get("x").unwrap().last_check.clone();

    let second = vec![("x".to_owned(), classify_probe(true, 1, validator_rust::probe::probe_timestamp()))];
    cache.put_many(&second);
    let after = cache.get("x").unwrap().last_check.clone();

    let before = chrono::DateTime::parse_from_rfc3339(&before).unwrap();
    let after = chrono::DateTime::parse_from_rfc3339(&after).unwrap();
    assert!(after >= before);
}

#[test]
fn round_has_one_entry_per_target() {
    let registry = get_service_endpoints();
    let when = "2024-01-02T03:04:05+00:00";
    let results = vec![
        info(true, 10, when),
        info(true, 800, when),
        info(false, 3000, when),
        info(true, 20, when),
    ];
    let mut cache = HealthCache::new();
    let resp = run_round(&registry, results, &mut cache);
    assert_eq!(resp.services.len(), registry.len());
    for (i, (name, _)) in registry.iter().enumerate() {
        assert_eq!(resp.services[i].0, *name);
    }
    assert_eq!(resp.services[1].1.latency_ms, 800);
    assert_eq!(resp.overall, "unhealthy");
}

#[test]
fn all_targets_fast_gives_healthy_overall() {
    let registry = get_service_endpoints();
    let when = "2024-01-02T03:04:05+00:00";
    let results = vec![info(true, 10, when), info(true, 20, when), info(true, 30, when), info(true, 40, when)];
    let mut cache = HealthCache::new();
    let resp = run_round(&registry, results, &mut cache);
    assert_eq!(resp.overall, "healthy");
    for (_, i) in &resp.services {
        assert_eq!(i.status, ServiceStatus::Healthy);
    }
    assert_eq!(cache.get_all().len(), 4);
    assert!(cache.get("java").is_some());
}

#[test]
fn offline_target_makes_round_unhealthy() {
    let registry = get_service_endpoints();
    let when = "2024-01-02T03:04:05+00:00";
    let results = vec![info(true, 10, when), info(true, 20, when), info(true, 30, when), info(false, 1, when)];
    let mut cache = HealthCache::new();
    let resp = run_round(&registry, results, &mut cache);
    assert_eq!(resp.overall, "unhealthy");
    assert_eq!(cache.get("java").unwrap().status, ServiceStatus::Offline);
}

#[test]
fn slow_target_degrades_round() {
    let registry = get_service_endpoints();
    let when = "2024-01-02T03:04:05+00:00";
    let results = vec![info(true, 10, when), info(true, 600, when), info(true, 30, when), info(true, 40, when)];
    let mut cache = HealthCache::new();
    let resp = run_round(&registry, results, &mut cache);
    assert_eq!(resp.overall, "degraded");
}

#[test]
fn liveness_reply() {
    let r = health_response();
    assert_eq!(r.status, "healthy");
    assert_eq!(r.service, "validator-rust");
}
