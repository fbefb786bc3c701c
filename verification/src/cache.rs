//! The result cache: a single slot holding the most recent canonical
//! measurement and its capture tick.
//!
//! `CacheSlot` is the slot's state with exact sequential contracts:
//! writing replaces the whole slot, clearing empties it, reading copies
//! it. `ResultCache` shares one slot under a reader-writer lock whose
//! invariant is the slot's well-formedness: a writer replaces the slot
//! as one value inside the critical section, so a concurrent reader
//! observes either the complete previous entry or the complete new one,
//! never a mixture, and every observed entry is well-formed.

use vstd::prelude::*;

use vstd::rwlock::RwLock;
use vstd::rwlock::RwLockPredicate;

use crate::models::SpeedTestResult;
use crate::models::result_wf;

verus! {

/// One cached measurement and the tick at which it was captured.
pub struct CacheEntry {
    /// The canonical measurement.
    pub result: SpeedTestResult,
    /// The caller-supplied capture tick.
    pub captured_at: u64,
}

/// The cache's state: at most one entry.
pub struct CacheSlot {
    /// The cached entry, absent until the first successful write.
    pub entry: Option<CacheEntry>,
}

/// A slot is well-formed when its entry, if any, holds a well-formed
/// canonical record.
pub open spec fn slot_wf(s: CacheSlot) -> bool {
    s.entry matches Some(e) ==> result_wf(e.result)
}

/// The slot after a write: exactly the written entry.
pub open spec fn spec_write(s: CacheSlot, result: SpeedTestResult, at: u64) -> CacheSlot {
    CacheSlot { entry: Some(CacheEntry { result, captured_at: at }) }
}

/// The slot after a clear: empty.
pub open spec fn spec_clear(s: CacheSlot) -> CacheSlot {
    CacheSlot { entry: None }
}

/// What a read of the slot returns: the cached result, if any.
pub open spec fn spec_read(s: CacheSlot) -> Option<SpeedTestResult> {
    match s.entry {
        Some(e) => Some(e.result),
        None => None,
    }
}

impl CacheSlot {
    /// An empty slot.
    pub fn empty() -> (s: CacheSlot)
        ensures
            s.entry is None,
    {
        CacheSlot { entry: None }
    }

    /// A copy of the cached result, or `None` while the slot is empty.
    pub fn read(&self) -> (r: Option<SpeedTestResult>)
        ensures
            r == spec_read(*self),
    {
        match &self.entry {
            Some(e) => Some(e.result.duplicate()),
            None => None,
        }
    }

    /// Replaces the slot with the given result, captured at the given
    /// tick. The previous entry, if any, is discarded.
    pub fn write(&mut self, result: SpeedTestResult, at: u64)
        ensures
            *final(self) == spec_write(*old(self), result, at),
    {
        self.entry = Some(CacheEntry { result, captured_at: at });
    }

    /// Resets the slot to absent.
    pub fn clear(&mut self)
        ensures
            *final(self) == spec_clear(*old(self)),
    {
        self.entry = None;
    }
}

/// A write followed immediately by a read returns exactly the value
/// that was written (round trip), whatever the slot held before.
pub proof fn lemma_write_then_read(s: CacheSlot, result: SpeedTestResult, at: u64)
    ensures
        spec_read(spec_write(s, result, at)) == Some(result),
{
}

/// A clear followed by a read returns absent, whatever the slot held
/// before.
pub proof fn lemma_clear_then_read(s: CacheSlot)
    ensures
        spec_read(spec_clear(s)) is None,
{
}

/// The lock invariant of the shared cache: the slot is well-formed.
pub struct SlotInv {}

impl RwLockPredicate<CacheSlot> for SlotInv {
    open spec fn inv(self, s: CacheSlot) -> bool {
        slot_wf(s)
    }
}

/// The shared result cache: one slot under a reader-writer lock.
///
/// Exactly one writer at a time replaces the slot, as one value, inside
/// the lock's critical section; any number of readers may read
/// concurrently and each observes a complete, well-formed entry or
/// none. A reader waits at most for the critical section of a
/// concurrent write.
pub struct ResultCache {
    lock: RwLock<CacheSlot, SlotInv>,
}

impl ResultCache {
    /// A fresh, empty cache.
    pub fn new() -> ResultCache {
        ResultCache { lock: RwLock::new(CacheSlot { entry: None }, Ghost(SlotInv {})) }
    }

    /// A copy of the most recent cached result, or `None` while nothing
    /// has been cached. Every returned result is well-formed: it was
    /// written whole by some single write.
    pub fn read(&self) -> (r: Option<SpeedTestResult>)
        ensures
            r matches Some(c) ==> result_wf(c),
    {
        let handle = self.lock.acquire_read();
        let r = handle.borrow().read();
        handle.release_read();
        r
    }

    /// Atomically replaces the slot with the given well-formed result,
    /// captured at the given tick; the previous entry is discarded.
    pub fn write(&self, result: SpeedTestResult, at: u64)
        requires
            result_wf(result),
    {
        let (mut slot, handle) = self.lock.acquire_write();
        slot.write(result, at);
        handle.release_write(slot);
    }

    /// Atomically resets the cache to absent.
    pub fn clear(&self) {
        let (mut slot, handle) = self.lock.acquire_write();
        slot.clear();
        handle.release_write(slot);
    }
}

/// Retrieves the last cached measurement, if one is available.
pub fn get_last_result(cache: &ResultCache) -> (r: Option<SpeedTestResult>)
    ensures
        r matches Some(c) ==> result_wf(c),
{
    cache.read()
}

/// Seeds the cache with a well-formed result captured at the given
/// tick. A testing and seeding utility; the production write path is
/// the scheduler's fetch cycle.
pub fn set_last_result_for_test(cache: &ResultCache, result: SpeedTestResult, at: u64)
    requires
        result_wf(result),
{
    cache.write(result, at);
}

/// Clears the cached measurement. A testing and reset utility; nothing
/// on the production path removes a cached result.
pub fn clear_last_result_for_test(cache: &ResultCache) {
    cache.clear();
}

/// A read was attempted before any successful fetch cycle filled the
/// cache.
#[derive(Debug, PartialEq, Eq, Structural, Clone, Copy)]
pub struct NotReadyError {}

impl NotReadyError {
    /// The message the query boundary serves while no result is cached.
    pub fn message(&self) -> (r: String)
        ensures
            r@ == "Speedtest result not available yet."@,
    {
        "Speedtest result not available yet.".to_owned()
    }
}

/// The query service: a copy of the cached result, or `NotReadyError`
/// while the cache is empty (cold start, before the first successful
/// fetch cycle). Every returned result is well-formed.
pub fn get_cached_speedtest_result(cache: &ResultCache) -> (r: Result<
    SpeedTestResult,
    NotReadyError,
>)
    ensures
        r matches Ok(c) ==> result_wf(c),
{
    match cache.read() {
        Some(c) => Ok(c),
        None => Err(NotReadyError {}),
    }
}

} // verus!
