//! Decisions the Windows adapter takes around the engine's actions: what a
//! batch of actions asks of the input hook and the middle-button latch, and
//! when to tell the user that a window could not be moved.

use vstd::prelude::*;
use crate::engine::state::Action;

verus! {

/// What a batch of engine actions asks of the adapter as a whole.
#[derive(Debug, Clone, Copy, PartialEq, Eq, Structural)]
pub struct BatchPlan {
    /// A drag begins in this batch: clear the middle-button latch first.
    pub clear_latch: bool,
    /// The input event that produced the batch must not reach the target.
    pub swallow: bool,
    /// Whether a drag is in progress after the batch, when the batch says:
    /// `Some(true)` if its last drag boundary begins a drag, `Some(false)` if
    /// it ends one, `None` if it has neither.
    pub drag_after: Option<bool>,
}

/// The drag state a batch leaves behind, from its last `BeginDrag` or
/// `EndDrag`.
pub open spec fn last_drag_boundary(actions: Seq<Action>) -> Option<bool>
    decreases actions.len(),
{
    if actions.len() == 0 {
        None
    } else if actions.last() is BeginDrag {
        Some(true)
    } else if actions.last() is EndDrag {
        Some(false)
    } else {
        last_drag_boundary(actions.drop_last())
    }
}

/// Some action of the batch begins a drag.
pub open spec fn begins_drag(actions: Seq<Action>) -> bool {
    exists|i: int| 0 <= i < actions.len() && #[trigger] actions[i] is BeginDrag
}

/// Some action of the batch swallows the input event.
pub open spec fn swallows(actions: Seq<Action>) -> bool {
    exists|i: int| 0 <= i < actions.len() && #[trigger] actions[i] is SwallowEvent
}

/// The plan for a batch: clear the latch iff a drag begins, swallow iff
/// some action says so, and the drag state its last drag boundary leaves.
pub fn plan_batch(actions: &[Action]) -> (p: BatchPlan)
    ensures
        p.clear_latch == begins_drag(actions@),
        p.swallow == swallows(actions@),
        p.drag_after == last_drag_boundary(actions@),
{
    let mut clear_latch = false;
    let mut swallow = false;
    let mut drag_after: Option<bool> = None;
    let mut i: usize = 0;
    while i < actions.len()
        invariant
            i <= actions.len(),
            clear_latch == (exists|k: int| 0 <= k < i && #[trigger] actions@[k] is BeginDrag),
            swallow == (exists|k: int| 0 <= k < i && #[trigger] actions@[k] is SwallowEvent),
            drag_after == last_drag_boundary(actions@.take(i as int)),
        decreases actions.len() - i,
    {
        proof {
            assert(actions@.take(i + 1).drop_last() =~= actions@.take(i as int));
            assert(actions@.take(i + 1).last() == actions@[i as int]);
        }
        match &actions[i] {
            Action::BeginDrag { .. } => {
                clear_latch = true;
                drag_after = Some(true);
            },
            Action::EndDrag { .. } => {
                drag_after = Some(false);
            },
            Action::SwallowEvent => {
                swallow = true;
            },
            _ => {},
        }
        i += 1;
    }
    proof {
        assert(actions@.take(actions@.len() as int) =~= actions@);
    }
    BatchPlan { clear_latch, swallow, drag_after }
}

/// Whether a window drag is in progress, as the adapter sees it from the
/// batches it carried out: from a `BeginDrag` to the next `EndDrag`.
#[derive(Debug, Clone, Copy)]
pub struct DragTracker {
    dragging: bool,
}

impl DragTracker {
    pub closed spec fn is_dragging(self) -> bool {
        self.dragging
    }

    /// No drag at start.
    pub fn new() -> (r: Self)
        ensures
            !r.is_dragging(),
    {
        DragTracker { dragging: false }
    }

    /// Takes note of a carried-out batch: its last drag boundary, if it has
    /// one, decides; otherwise nothing changes.
    pub fn observe(&mut self, plan: &BatchPlan)
        ensures
            final(self).is_dragging() == (match plan.drag_after {
                Some(d) => d,
                None => old(self).is_dragging(),
            }),
    {
        match plan.drag_after {
            Some(d) => {
                self.dragging = d;
            },
            None => {},
        }
    }
}

impl Default for DragTracker {
    fn default() -> (r: Self)
        ensures
            !r.is_dragging(),
    {
        Self::new()
    }
}

/// Whether a window drag is currently in progress: true from the batch that
/// begins it to the batch that ends it. A layout change during a drag is
/// refreshed when the drag ends.
pub fn drag_active(tracker: &DragTracker) -> (r: bool)
    ensures
        r == tracker.is_dragging(),
{
    tracker.dragging
}

/// How to answer `ToggleMaximize`.
#[derive(Debug, Clone, Copy, PartialEq, Eq, Structural)]
pub enum ShowCommand {
    Restore,
    Maximize,
}

/// A maximized window is restored, any other is maximized.
pub fn toggle_maximize_command(is_zoomed: bool) -> (c: ShowCommand)
    ensures
        c == (if is_zoomed { ShowCommand::Restore } else { ShowCommand::Maximize }),
{
    if is_zoomed {
        ShowCommand::Restore
    } else {
        ShowCommand::Maximize
    }
}

/// The least number of seconds between two "cannot move this window"
/// notifications.
pub const BALLOON_INTERVAL_SECS: u64 = 60;

/// Rate limit for the notification shown when moving a window fails while
/// the process is not elevated (Windows refuses input to elevated windows
/// from an unelevated process). Times are seconds since the Unix epoch.
#[derive(Debug, Clone, Copy)]
pub struct BalloonThrottle {
    last_shown_secs: u64,
}

/// Seconds from `last` to `now`, a clock that went backwards counting as none.
pub open spec fn secs_since(now: u64, last: u64) -> int {
    if now >= last { now - last } else { 0 }
}

impl BalloonThrottle {
    /// When the notification was last shown (0: never).
    pub closed spec fn last_shown(self) -> u64 {
        self.last_shown_secs
    }

    /// A throttle that has never shown the notification.
    pub fn new() -> (r: Self)
        ensures
            r.last_shown() == 0,
    {
        BalloonThrottle { last_shown_secs: 0 }
    }

    /// The adapter tried to move or resize a window at `now_secs`. Returns
    /// whether to show the notification: only when the move failed, the
    /// process is not elevated, and at least `BALLOON_INTERVAL_SECS` passed
    /// since it was last shown; then `now_secs` becomes the last showing.
    pub fn on_move_result(&mut self, moved: bool, elevated: bool, now_secs: u64) -> (show: bool)
        ensures
            show == (!moved && !elevated && secs_since(now_secs, old(self).last_shown()) >= BALLOON_INTERVAL_SECS),
            final(self).last_shown() == (if show { now_secs } else { old(self).last_shown() }),
    {
        if moved || elevated {
            return false;
        }
        if now_secs.saturating_sub(self.last_shown_secs) < BALLOON_INTERVAL_SECS {
            return false;
        }
        self.last_shown_secs = now_secs;
        true
    }
}

impl Default for BalloonThrottle {
    fn default() -> (r: Self)
        ensures
            r.last_shown() == 0,
    {
        Self::new()
    }
}

/// Two failed moves less than `BALLOON_INTERVAL_SECS` apart show the
/// notification at most once: after it was shown at `t`, a failure at any
/// `u` with `t <= u < t + BALLOON_INTERVAL_SECS` shows nothing.
pub proof fn lemma_balloon_throttled(t: u64, u: u64)
    requires
        t <= u,
        u - t < BALLOON_INTERVAL_SECS,
    ensures
        !(secs_since(u, t) >= BALLOON_INTERVAL_SECS),
{
}

} // verus!
