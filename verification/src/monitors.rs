//! The cached display layout and its debounced refresh.
//!
//! Enumerating displays is the adapter's work; this cache decides when a
//! fresh enumeration is due. Times are monotonic milliseconds supplied by
//! the caller.

use vstd::prelude::*;
use crate::engine::snap::MonitorSnapshot;

verus! {

/// After a refresh request, a refresh happens only once this much time has
/// passed; later requests within the window restart it.
pub const DEBOUNCE_MS: u64 = 200;

pub struct MonitorCache {
    snapshot: MonitorSnapshot,
    last_refreshed_ms: u64,
    /// A layout change arrived during a drag; refresh when it ends.
    dirty: bool,
    /// Time of the most recent refresh request still waiting.
    pending_refresh_ms: Option<u64>,
}

/// Elapsed milliseconds, counting a clock that went backwards as no time.
pub open spec fn elapsed(now: u64, since: u64) -> int {
    if now >= since { now - since } else { 0 }
}

impl MonitorCache {
    pub closed spec fn view_snapshot(self) -> MonitorSnapshot {
        self.snapshot
    }

    pub closed spec fn is_dirty(self) -> bool {
        self.dirty
    }

    pub closed spec fn pending(self) -> Option<u64> {
        self.pending_refresh_ms
    }

    pub closed spec fn last_refreshed(self) -> u64 {
        self.last_refreshed_ms
    }

    /// A cache holding `snapshot`, taken at `now_ms`, with nothing pending.
    pub fn new(snapshot: MonitorSnapshot, now_ms: u64) -> (r: Self)
        ensures
            r.view_snapshot() == snapshot,
            r.last_refreshed() == now_ms,
            !r.is_dirty(),
            r.pending() is None,
    {
        MonitorCache { snapshot, last_refreshed_ms: now_ms, dirty: false, pending_refresh_ms: None }
    }

    /// The cached snapshot.
    pub fn current(&self) -> (r: &MonitorSnapshot)
        ensures
            *r == self.view_snapshot(),
    {
        &self.snapshot
    }

    /// A layout-change broadcast arrived. During a drag the refresh is
    /// deferred to the drag's end; otherwise a debounced refresh is
    /// scheduled from `now_ms`.
    pub fn request_refresh(&mut self, drag_active: bool, now_ms: u64)
        ensures
            drag_active ==> final(self).is_dirty() && final(self).pending() == old(self).pending(),
            !drag_active ==> final(self).is_dirty() == old(self).is_dirty() && final(self).pending() == Some(now_ms),
            final(self).view_snapshot() == old(self).view_snapshot(),
            final(self).last_refreshed() == old(self).last_refreshed(),
    {
        if drag_active {
            self.dirty = true;
            return;
        }
        self.pending_refresh_ms = Some(now_ms);
    }

    /// The debounce timer fired: returns whether the refresh is due (a
    /// request is pending and at least `DEBOUNCE_MS` passed since it). When
    /// due, the pending request and the deferred flag are cleared and the
    /// caller stores a fresh snapshot with `store`.
    pub fn flush_pending(&mut self, now_ms: u64) -> (due: bool)
        ensures
            due == (old(self).pending() matches Some(t0) && elapsed(now_ms, t0) >= DEBOUNCE_MS),
            due ==> final(self).pending() is None && !final(self).is_dirty(),
            !due ==> final(self).pending() == old(self).pending() && final(self).is_dirty() == old(self).is_dirty(),
            final(self).view_snapshot() == old(self).view_snapshot(),
            final(self).last_refreshed() == old(self).last_refreshed(),
    {
        let t0 = match self.pending_refresh_ms {
            Some(t0) => t0,
            None => {
                return false;
            },
        };
        if now_ms.saturating_sub(t0) < DEBOUNCE_MS {
            return false;
        }
        self.pending_refresh_ms = None;
        self.dirty = false;
        true
    }

    /// A drag ended: returns whether a layout change arrived during it, in
    /// which case the flag is cleared and the caller stores a fresh
    /// snapshot with `store`.
    pub fn on_drag_ended(&mut self) -> (due: bool)
        ensures
            due == old(self).is_dirty(),
            !final(self).is_dirty(),
            final(self).pending() == old(self).pending(),
            final(self).view_snapshot() == old(self).view_snapshot(),
            final(self).last_refreshed() == old(self).last_refreshed(),
    {
        if self.dirty {
            self.dirty = false;
            return true;
        }
        false
    }

    /// Stores a fresh snapshot taken at `now_ms`.
    pub fn store(&mut self, snapshot: MonitorSnapshot, now_ms: u64)
        ensures
            final(self).view_snapshot() == snapshot,
            final(self).last_refreshed() == now_ms,
            final(self).is_dirty() == old(self).is_dirty(),
            final(self).pending() == old(self).pending(),
    {
        self.snapshot = snapshot;
        self.last_refreshed_ms = now_ms;
    }
}

/// Debounce: a refresh request followed by a timer tick less than
/// `DEBOUNCE_MS` later is not due, and one at least `DEBOUNCE_MS` later is.
pub proof fn lemma_debounce(t0: u64, now: u64)
    ensures
        now >= t0 && now - t0 < DEBOUNCE_MS ==> elapsed(now, t0) < DEBOUNCE_MS,
        now >= t0 && now - t0 >= DEBOUNCE_MS ==> elapsed(now, t0) >= DEBOUNCE_MS,
        now < t0 ==> elapsed(now, t0) < DEBOUNCE_MS,
{
}

} // verus!
