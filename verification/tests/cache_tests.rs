//! Tests of the result cache and the query service.

use speedtest_statuspage::CacheSlot;
use speedtest_statuspage::ClientInfo;
use speedtest_statuspage::Mbps;
use speedtest_statuspage::ResultCache;
use speedtest_statuspage::ServerInfo;
use speedtest_statuspage::SpeedTestResult;
use speedtest_statuspage::clear_last_result_for_test;
use speedtest_statuspage::get_cached_speedtest_result;
use speedtest_statuspage::get_last_result;
use speedtest_statuspage::set_last_result_for_test;

/// A fixed example result: 1,000,000 bps down (1 Mbps), 500,000 bps up
/// (0.5 Mbps), 20 ms ping, all in micro-units.
fn dummy_result() -> SpeedTestResult {
    SpeedTestResult {
        bytes_received: 100,
        bytes_sent: 200,
        download_bps: 1_000_000_000_000,
        upload_bps: 500_000_000_000,
        download_mbps: Mbps { whole: 1, frac: 0 },
        upload_mbps: Mbps { whole: 0, frac: 500_000_000_000 },
        ping_ms: 20_000_000,
        client: ClientInfo::default(),
        server: ServerInfo::default(),
        share: None,
        timestamp: "2025-08-07T12:34:56Z".to_string(),
    }
}

#[test]
fn test_set_get_clear_last_result_for_test() {
    let cache = ResultCache::new();
    clear_last_result_for_test(&cache);
    assert!(get_last_result(&cache).is_none());

    let res = dummy_result();
    set_last_result_for_test(&cache, res.clone(), 0);
    let cached = get_last_result(&cache).unwrap();
    assert_eq!(cached.download_mbps, res.download_mbps);

    clear_last_result_for_test(&cache);
    assert!(get_last_result(&cache).is_none());
}

#[test]
fn write_then_read_returns_written_value() {
    let cache = ResultCache::new();
    let res = dummy_result();
    cache.write(res.clone(), 7);
    assert_eq!(cache.read(), Some(res));
}

#[test]
fn slot_write_then_read_round_trip() {
    let mut slot = CacheSlot::empty();
    let res = dummy_result();
    slot.write(res.clone(), 3);
    assert_eq!(slot.read(), Some(res.clone()));
    let other = SpeedTestResult { bytes_received: 101, ..dummy_result() };
    slot.write(other.clone(), 4);
    assert_eq!(slot.read(), Some(other));
}

#[test]
fn clear_then_read_returns_absent() {
    let cache = ResultCache::new();
    cache.write(dummy_result(), 1);
    cache.clear();
    assert!(cache.read().is_none());

    let mut slot = CacheSlot::empty();
    slot.write(dummy_result(), 1);
    slot.clear();
    assert!(slot.read().is_none());
}

#[test]
fn query_service_reports_not_ready_on_empty_cache() {
    let cache = ResultCache::new();
    let err = get_cached_speedtest_result(&cache).unwrap_err();
    assert_eq!(err.message(), "Speedtest result not available yet.");
}

#[test]
fn query_service_returns_cached_value() {
    let cache = ResultCache::new();
    let res = dummy_result();
    set_last_result_for_test(&cache, res.clone(), 2);
    let got = get_cached_speedtest_result(&cache).unwrap();
    assert_eq!(got, res);
}
