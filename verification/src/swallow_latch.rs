//! Adapter-owned latch that swallows the matching middle-button release after
//! the engine has acted on a middle-button press.
//!
//! The latch takes a monotonic-millisecond timestamp as an explicit argument
//! on every operation; the adapter passes the system tick count and keeps the
//! latch behind a lock.

use vstd::prelude::*;

verus! {

/// 500 ms safety clear window.
pub const SAFETY_CLEAR_MS: u64 = 500;

#[derive(Debug)]
pub struct SwallowLatch {
    armed: bool,
    armed_at_ms: u64,
}

impl SwallowLatch {
    pub closed spec fn is_armed(self) -> bool {
        self.armed
    }

    pub closed spec fn armed_at(self) -> u64 {
        self.armed_at_ms
    }

    /// A clear latch.
    pub fn new() -> (r: Self)
        ensures
            !r.is_armed(),
            r.armed_at() == 0,
    {
        SwallowLatch { armed: false, armed_at_ms: 0 }
    }

    /// Arm the latch at `now_ms`.
    pub fn set(&mut self, now_ms: u64)
        ensures
            final(self).is_armed(),
            final(self).armed_at() == now_ms,
    {
        self.armed_at_ms = now_ms;
        self.armed = true;
    }

    /// True iff armed.
    pub fn is_set(&self) -> (r: bool)
        ensures
            r == self.is_armed(),
    {
        self.armed
    }

    /// Attempt to swallow a middle-button release: returns whether the latch
    /// was armed, and clears it. `now_ms` is not consulted.
    pub fn try_swallow(&mut self, now_ms: u64) -> (r: bool)
        ensures
            r == old(self).is_armed(),
            !final(self).is_armed(),
            final(self).armed_at() == old(self).armed_at(),
    {
        let was = self.armed;
        self.armed = false;
        was
    }

    /// A drag start clears the latch defensively.
    pub fn on_begin_drag(&mut self)
        ensures
            !final(self).is_armed(),
            final(self).armed_at() == old(self).armed_at(),
    {
        self.armed = false;
    }

    /// Safety clear: if the latch was armed at least `SAFETY_CLEAR_MS` ago
    /// (with a clock that went backwards counting as no time), clear it.
    pub fn on_timer(&mut self, now_ms: u64)
        ensures
            final(self).armed_at() == old(self).armed_at(),
            final(self).is_armed() == (old(self).is_armed() && within_safety_window(old(self).armed_at(), now_ms)),
    {
        if !self.is_set() {
            return;
        }
        let armed_at = self.armed_at_ms;
        if now_ms.saturating_sub(armed_at) >= SAFETY_CLEAR_MS {
            self.armed = false;
        }
    }
}

impl Default for SwallowLatch {
    fn default() -> (r: Self)
        ensures
            !r.is_armed(),
    {
        Self::new()
    }
}

/// Less than `SAFETY_CLEAR_MS` have passed since `armed_at` (a clock that
/// went backwards counts as no time).
pub open spec fn within_safety_window(armed_at: u64, now: u64) -> bool {
    (if now >= armed_at { now - armed_at } else { 0 }) < SAFETY_CLEAR_MS
}

/// The safety timer keeps an armed latch while fewer than `SAFETY_CLEAR_MS`
/// have passed since it was armed (a clock that went backwards counting as
/// no time), and clears it once they have.
pub proof fn lemma_safety_window(t: u64, now: u64)
    ensures
        t <= now && now - t < SAFETY_CLEAR_MS ==> within_safety_window(t, now),
        t <= now && now - t >= SAFETY_CLEAR_MS ==> !within_safety_window(t, now),
        now < t ==> within_safety_window(t, now),
{
}

} // verus!
