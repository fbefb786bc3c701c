//! The scheduler: periodic refresh of the result cache.
//!
//! Each logical tick performs one fetch cycle: run the measurement,
//! parse its output, and on success replace the cache entry. Any
//! failure ends the cycle with the cache untouched; the next tick
//! retries implicitly. The measurement itself stands behind the
//! `SpeedtestRunner` capability, so the cycle and tick logic here is
//! verified independently of the external tool; the caller owns the
//! timer and hands each cycle its capture tick.

use vstd::prelude::*;

use crate::cache::CacheSlot;
use crate::cache::ResultCache;
use crate::cache::slot_wf;
use crate::digits::all_digits;
use crate::digits::digits_val;
use crate::digits::parse_u64_digits;
use crate::models::result_wf;
use crate::parser::ParseError;
use crate::parser::is_parsed_result;
use crate::parser::parse;
use crate::parser::raw_ok;

verus! {

/// Why a measurement run failed.
#[derive(Debug)]
pub enum RunnerError {
    /// The external tool could not be started; the detail says why.
    SpawnFailed(String),
    /// The tool ran but exited unsuccessfully; the detail is its
    /// captured standard-error text.
    ToolFailed(String),
}

/// The capability of running one network-speed measurement.
///
/// The production implementation shells out to the external measurement
/// tool; test implementations return canned text or failures, so the
/// scheduler's caching and tick logic runs without any external
/// process. Nothing is assumed about what a run returns.
pub trait SpeedtestRunner {
    /// Runs one measurement and returns the raw JSON text on success.
    fn run_speedtest(&self) -> Result<String, RunnerError>;
}

/// Why one fetch cycle ended without updating the cache.
#[derive(Debug)]
pub enum CycleError {
    /// The runner failed before producing output.
    Runner(RunnerError),
    /// The runner's output could not be parsed.
    Parse(ParseError),
}

/// Applies one run's outcome to an owned cache slot: a successful run
/// whose output parses replaces the slot with the parsed result at the
/// given tick; any failure leaves the slot exactly as it was and
/// reports which stage failed. The cycle succeeds exactly when the run
/// succeeded and its text parses (`raw_ok`), and the written entry is
/// exactly the parse of that text.
pub fn apply_run_outcome(slot: &mut CacheSlot, outcome: Result<String, RunnerError>, at: u64) -> (r:
    Result<(), CycleError>)
    ensures
        r is Ok ==> (final(slot).entry matches Some(e) && e.captured_at == at && result_wf(
            e.result,
        )),
        r is Err ==> *final(slot) == *old(slot),
        outcome matches Err(e) ==> r == Err::<(), CycleError>(CycleError::Runner(e)),
        outcome matches Ok(t) ==> (r is Ok <==> raw_ok(t@)),
        outcome matches Ok(t) ==> (r is Ok || (r matches Err(ce) && ce is Parse)),
        outcome matches Ok(t) ==> (r is Ok ==> (final(slot).entry matches Some(e)
            && is_parsed_result(e.result, t@))),
        slot_wf(*old(slot)) ==> slot_wf(*final(slot)),
        old(slot).entry is Some ==> final(slot).entry is Some,
{
    match outcome {
        Ok(text) => match parse(text.as_str()) {
            Ok(c) => {
                slot.write(c, at);
                Ok(())
            },
            Err(pe) => Err(CycleError::Parse(pe)),
        },
        Err(re) => Err(CycleError::Runner(re)),
    }
}

/// One fetch cycle against an owned cache slot: runs the measurement
/// and applies its outcome (`apply_run_outcome` fixes exactly when a
/// given outcome succeeds). On failure at either stage the slot is left
/// exactly as it was; on success it holds a well-formed result captured
/// at the given tick. A filled slot is never emptied.
pub fn run_fetch_cycle<R: SpeedtestRunner>(runner: &R, slot: &mut CacheSlot, at: u64) -> (r: Result<
    (),
    CycleError,
>)
    ensures
        r is Ok ==> (final(slot).entry matches Some(e) && e.captured_at == at && result_wf(
            e.result,
        )),
        r is Err ==> *final(slot) == *old(slot),
        slot_wf(*old(slot)) ==> slot_wf(*final(slot)),
        old(slot).entry is Some ==> final(slot).entry is Some,
{
    let outcome = runner.run_speedtest();
    apply_run_outcome(slot, outcome, at)
}

/// Applies one run's outcome to the shared cache: a successful run
/// whose output parses atomically replaces the cache entry; any failure
/// leaves the cache untouched and reports which stage failed. The cycle
/// succeeds exactly when the run succeeded and its text parses
/// (`raw_ok`). Parsing happens before the cache is locked.
pub fn record_run_outcome(cache: &ResultCache, outcome: Result<String, RunnerError>, at: u64) -> (r:
    Result<(), CycleError>)
    ensures
        outcome matches Err(e) ==> r == Err::<(), CycleError>(CycleError::Runner(e)),
        outcome matches Ok(t) ==> (r is Ok <==> raw_ok(t@)),
        outcome matches Ok(t) ==> (r is Ok || (r matches Err(ce) && ce is Parse)),
{
    match outcome {
        Ok(text) => match parse(text.as_str()) {
            Ok(c) => {
                cache.write(c, at);
                Ok(())
            },
            Err(pe) => Err(CycleError::Parse(pe)),
        },
        Err(re) => Err(CycleError::Runner(re)),
    }
}

/// Runs the measurement with the given runner, parses its output, and
/// caches the canonical result at the given tick. Any failure leaves
/// the cache unchanged; the returned error says which stage failed, for
/// the caller's observability sink. The run's outcome is returned as a
/// ghost witness, against which the result is pinned: a failed run
/// yields its runner error, and a completed run's cycle succeeds
/// exactly when the returned text parses (`raw_ok`).
pub fn run_speedtest_and_cache_with_runner<R: SpeedtestRunner>(
    runner: &R,
    cache: &ResultCache,
    at: u64,
) -> (r: (Result<(), CycleError>, Ghost<Result<String, RunnerError>>))
    ensures
        (r.1@ matches Err(e) ==> r.0 == Err::<(), CycleError>(CycleError::Runner(e))),
        (r.1@ matches Ok(t) ==> (r.0 is Ok <==> raw_ok(t@))),
        (r.1@ matches Ok(t) ==> (r.0 is Ok || (r.0 matches Err(ce) && ce is Parse))),
{
    let outcome = runner.run_speedtest();
    let ghost witness = outcome;
    let res = record_run_outcome(cache, outcome, at);
    (res, Ghost(witness))
}

/// Classifies a finished tool invocation, as the production runner
/// reports it: a successful exit yields the captured standard-output
/// text, an unsuccessful one fails with `ToolFailed` carrying the
/// caller's diagnostic text.
pub fn classify_tool_output(success: bool, stdout_text: String, stderr_text: String) -> (r: Result<
    String,
    RunnerError,
>)
    ensures
        success ==> r == Ok::<String, RunnerError>(stdout_text),
        !success ==> r == Err::<String, RunnerError>(RunnerError::ToolFailed(stderr_text)),
{
    if success {
        Ok(stdout_text)
    } else {
        Err(RunnerError::ToolFailed(stderr_text))
    }
}

/// Drives the scheduler for a given number of logical ticks against an
/// owned slot: each tick performs exactly one fetch cycle, and the
/// count of cycles performed is returned. The first tick fires
/// immediately on start — a cold cache is populated as soon as a cycle
/// succeeds — and the cycle of tick `i` is captured at `start_at + i`
/// (saturating). A failed cycle never disturbs the slot, so across any
/// number of ticks a filled slot stays filled: the slot only ever goes
/// from absent to some full entry or from one full entry to another,
/// never back to absent.
pub fn run_scheduler_ticks<R: SpeedtestRunner>(
    runner: &R,
    slot: &mut CacheSlot,
    ticks: u64,
    start_at: u64,
) -> (cycles: u64)
    ensures
        cycles == ticks,
        slot_wf(*old(slot)) ==> slot_wf(*final(slot)),
        old(slot).entry is Some ==> final(slot).entry is Some,
{
    let mut i: u64 = 0;
    while i < ticks
        invariant
            0 <= i <= ticks,
            slot_wf(*old(slot)) ==> slot_wf(*slot),
            old(slot).entry is Some ==> slot.entry is Some,
        decreases ticks - i,
    {
        let at: u64 = if i <= u64::MAX - start_at {
            start_at + i
        } else {
            u64::MAX
        };
        let _ = run_fetch_cycle(runner, slot, at);
        i = i + 1;
    }
    i
}

/// Default refresh interval, in minutes.
pub const DEFAULT_INTERVAL_MINUTES: u64 = 10;

/// Smallest accepted refresh interval, in minutes: a configured zero
/// would degenerate into a busy loop, so it is raised to this minimum.
pub const MIN_INTERVAL_MINUTES: u64 = 1;

/// The refresh interval in minutes chosen for a raw configuration
/// value: absent or non-numeric text falls back to the default of ten
/// minutes, and zero is raised to the minimum of one minute.
pub open spec fn spec_interval_minutes(raw: Option<Seq<char>>) -> int {
    match raw {
        Some(s) => {
            if s.len() > 0 && all_digits(s) && digits_val(s) <= u64::MAX {
                if digits_val(s) < MIN_INTERVAL_MINUTES as int {
                    MIN_INTERVAL_MINUTES as int
                } else {
                    digits_val(s)
                }
            } else {
                DEFAULT_INTERVAL_MINUTES as int
            }
        },
        None => DEFAULT_INTERVAL_MINUTES as int,
    }
}

/// The refresh interval in seconds: the minutes times sixty, saturating
/// at the largest representable value.
pub open spec fn spec_interval_secs(raw: Option<Seq<char>>) -> int {
    if spec_interval_minutes(raw) * 60 <= u64::MAX {
        spec_interval_minutes(raw) * 60
    } else {
        u64::MAX as int
    }
}

/// How long to wait between fetch cycles, in seconds, for a raw
/// configuration value (the interval in minutes as decimal text, or
/// absent). Non-numeric or overlarge text falls back to the default of
/// ten minutes; a configured zero is raised to the documented minimum
/// of one minute.
pub fn min_frequency_duration(raw: Option<&str>) -> (secs: u64)
    ensures
        raw matches Some(s) ==> secs == spec_interval_secs(Some(s@)),
        raw is None ==> secs == spec_interval_secs(None::<Seq<char>>),
{
    let minutes: u64 = match raw {
        Some(s) => match parse_u64_digits(s) {
            Some(m) => {
                if m < MIN_INTERVAL_MINUTES {
                    MIN_INTERVAL_MINUTES
                } else {
                    m
                }
            },
            None => DEFAULT_INTERVAL_MINUTES,
        },
        None => DEFAULT_INTERVAL_MINUTES,
    };
    if minutes <= u64::MAX / 60 {
        minutes * 60
    } else {
        u64::MAX
    }
}

} // verus!
