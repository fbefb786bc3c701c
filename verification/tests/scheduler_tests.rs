//! Tests of the scheduler: fetch cycles, failure handling, logical
//! ticks, and the interval configuration.

use std::cell::Cell;

use speedtest_statuspage::CacheSlot;
use speedtest_statuspage::ClientInfo;
use speedtest_statuspage::CycleError;
use speedtest_statuspage::Mbps;
use speedtest_statuspage::ResultCache;
use speedtest_statuspage::RunnerError;
use speedtest_statuspage::ServerInfo;
use speedtest_statuspage::SpeedTestResult;
use speedtest_statuspage::SpeedtestRunner;
use speedtest_statuspage::classify_tool_output;
use speedtest_statuspage::get_cached_speedtest_result;
use speedtest_statuspage::min_frequency_duration;
use speedtest_statuspage::run_speedtest_and_cache_with_runner;
use speedtest_statuspage::scheduler::run_scheduler_ticks;
use speedtest_statuspage::set_last_result_for_test;

/// A raw payload with a 50,000,000 bps download rate.
fn fixed_payload() -> String {
    r#"
    {
        "bytes_received": 1000,
        "bytes_sent": 2000,
        "client": {
            "country": "UK", "ip": "192.0.2.1", "isp": "Example ISP",
            "ispdlavg": "50", "isprating": "4", "ispulavg": "10",
            "lat": "51.5074", "loggedin": "false", "lon": "-0.1278",
            "rating": "4.5"
        },
        "download": 50000000.0,
        "ping": 20.0,
        "server": {
            "cc": "GB", "country": "United Kingdom", "d": 5.0,
            "host": "speedtest.example.com", "id": "12345",
            "lat": "51.5074", "latency": 10.5, "lon": "-0.1278",
            "name": "London Server", "sponsor": "Example Sponsor",
            "url": "http://speedtest.example.com"
        },
        "share": null,
        "timestamp": "2025-08-07T12:00:00Z",
        "upload": 10000000.0
    }
    "#
    .to_string()
}

/// A runner that returns a canned payload and counts its invocations.
struct CannedRunner {
    payload: String,
    calls: Cell<u64>,
}

impl SpeedtestRunner for CannedRunner {
    fn run_speedtest(&self) -> Result<String, RunnerError> {
        self.calls.set(self.calls.get() + 1);
        Ok(self.payload.clone())
    }
}

/// A runner whose tool always fails.
struct FailingRunner;

impl SpeedtestRunner for FailingRunner {
    fn run_speedtest(&self) -> Result<String, RunnerError> {
        Err(RunnerError::ToolFailed("simulated tool failure".to_string()))
    }
}

/// A runner whose tool cannot be started.
struct UnspawnableRunner;

impl SpeedtestRunner for UnspawnableRunner {
    fn run_speedtest(&self) -> Result<String, RunnerError> {
        Err(RunnerError::SpawnFailed("binary missing".to_string()))
    }
}

fn seeded_result() -> SpeedTestResult {
    SpeedTestResult {
        bytes_received: 100,
        bytes_sent: 200,
        download_bps: 1_000_000_000_000,
        upload_bps: 500_000_000_000,
        download_mbps: Mbps { whole: 1, frac: 0 },
        upload_mbps: Mbps { whole: 0, frac: 500_000_000_000 },
        ping_ms: 20_000_000,
        client: ClientInfo::default(),
        server: ServerInfo::default(),
        share: None,
        timestamp: "2025-08-07T12:34:56Z".to_string(),
    }
}

#[test]
fn failing_runner_leaves_cached_entry_unchanged() {
    let cache = ResultCache::new();
    let seeded = seeded_result();
    set_last_result_for_test(&cache, seeded.clone(), 1);

    let (r, _) = run_speedtest_and_cache_with_runner(&FailingRunner, &cache, 2);
    assert!(matches!(
        r,
        Err(CycleError::Runner(RunnerError::ToolFailed(_)))
    ));
    assert_eq!(cache.read(), Some(seeded));
}

#[test]
fn failing_runner_leaves_owned_slot_unchanged() {
    let mut slot = CacheSlot::empty();
    let seeded = seeded_result();
    slot.write(seeded.clone(), 1);

    let cycles = run_scheduler_ticks(&FailingRunner, &mut slot, 3, 2);
    assert_eq!(cycles, 3);
    assert_eq!(slot.read(), Some(seeded));
}

#[test]
fn malformed_output_leaves_cache_unchanged() {
    let cache = ResultCache::new();
    let seeded = seeded_result();
    set_last_result_for_test(&cache, seeded.clone(), 1);

    let garbage = CannedRunner { payload: "{ not json".to_string(), calls: Cell::new(0) };
    let (r, _) = run_speedtest_and_cache_with_runner(&garbage, &cache, 2);
    assert!(matches!(r, Err(CycleError::Parse(_))));
    assert_eq!(cache.read(), Some(seeded));
}

#[test]
fn spawn_failure_maps_to_runner_cycle_error() {
    let cache = ResultCache::new();
    let (r, _) = run_speedtest_and_cache_with_runner(&UnspawnableRunner, &cache, 0);
    assert!(matches!(
        r,
        Err(CycleError::Runner(RunnerError::SpawnFailed(_)))
    ));
    assert!(cache.read().is_none());
}

#[test]
fn end_to_end_not_ready_then_ready() {
    let cache = ResultCache::new();

    // before any cycle: the query service reports "not ready"
    let err = get_cached_speedtest_result(&cache).unwrap_err();
    assert_eq!(err.message(), "Speedtest result not available yet.");

    // one successful cycle with a fixed payload of 50,000,000 bps down
    let runner = CannedRunner { payload: fixed_payload(), calls: Cell::new(0) };
    let (r, _) = run_speedtest_and_cache_with_runner(&runner, &cache, 5);
    assert!(r.is_ok());

    // the query service now reports 50 Mbps exactly
    let got = get_cached_speedtest_result(&cache).unwrap();
    assert_eq!(got.download_mbps, Mbps { whole: 50, frac: 0 });
    assert_eq!(got.download_bps, 50_000_000_000_000);
}

#[test]
fn two_ticks_run_exactly_two_fetch_cycles() {
    let runner = CannedRunner { payload: fixed_payload(), calls: Cell::new(0) };
    let mut slot = CacheSlot::empty();

    let cycles = run_scheduler_ticks(&runner, &mut slot, 2, 0);

    assert_eq!(cycles, 2);
    assert_eq!(runner.calls.get(), 2);
    let cached = slot.read().unwrap();
    assert_eq!(cached.download_mbps, Mbps { whole: 50, frac: 0 });
}

#[test]
fn tool_output_is_classified_by_exit_status() {
    let ok = classify_tool_output(true, "out".to_string(), "err".to_string());
    assert_eq!(ok.unwrap(), "out");

    let failed = classify_tool_output(false, "out".to_string(), "diag".to_string());
    match failed {
        Err(RunnerError::ToolFailed(d)) => assert_eq!(d, "diag"),
        _ => panic!("expected ToolFailed"),
    }
}

#[test]
fn interval_defaults_to_ten_minutes() {
    assert_eq!(min_frequency_duration(None), 600);
    assert_eq!(min_frequency_duration(Some("garbage")), 600);
    assert_eq!(min_frequency_duration(Some("")), 600);
    assert_eq!(min_frequency_duration(Some("-2")), 600);
}

#[test]
fn interval_parses_minutes() {
    assert_eq!(min_frequency_duration(Some("3")), 180);
    assert_eq!(min_frequency_duration(Some("1")), 60);
    assert_eq!(min_frequency_duration(Some("60")), 3600);
}

#[test]
fn interval_zero_is_raised_to_minimum() {
    assert_eq!(min_frequency_duration(Some("0")), 60);
}

#[test]
fn interval_overlarge_minutes_fall_back_to_default() {
    // does not parse as a sixty-four bit count of minutes
    assert_eq!(min_frequency_duration(Some("99999999999999999999999")), 600);
}
