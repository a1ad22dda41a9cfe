//! The adapter's window-system boundary.
//!
//! The real implementation lives in the Windows adapter; `RecordingWinApi`
//! records every call for ordering and idempotence tests on any platform.

use vstd::prelude::*;
use crate::engine::geometry::Rect;
use crate::engine::state::WindowId;

verus! {

/// The adapter's single window-system surface. All side effects go through
/// here so tests can stand in for them.
pub trait WinApi {
    /// `Err(())` when the window could not be moved.
    fn set_window_rect(&mut self, hwnd: WindowId, rect: Rect) -> Result<(), ()>;

    fn is_zoomed(&mut self, hwnd: WindowId) -> bool;

    fn show_maximize(&mut self, hwnd: WindowId);

    fn show_restore(&mut self, hwnd: WindowId);

    fn capture_mouse(&mut self, hwnd: WindowId);

    fn release_mouse(&mut self);

    fn overlay_show(&mut self, rect: Rect);

    fn overlay_hide(&mut self);
}

#[derive(Debug, Clone, Copy, PartialEq, Eq)]
pub enum Call {
    SetWindowRect(WindowId, Rect),
    IsZoomed(WindowId),
    ShowMaximize(WindowId),
    ShowRestore(WindowId),
    CaptureMouse(WindowId),
    ReleaseMouse,
    OverlayShow(Rect),
    OverlayHide,
}

/// Recording stand-in for the window system.
pub struct RecordingWinApi {
    pub calls: Vec<Call>,
    pub overlay_visible: bool,
    /// If true, the next `set_window_rect` call fails (then this flag clears).
    pub fail_next_set_window_rect: bool,
    /// What `is_zoomed` answers.
    pub zoomed: bool,
}

impl Default for RecordingWinApi {
    fn default() -> (r: Self)
        ensures
            r.calls@.len() == 0,
            !r.overlay_visible && !r.fail_next_set_window_rect && !r.zoomed,
    {
        Self::new()
    }
}

/// The last overlay call (show or hide) among `calls`, if any.
pub open spec fn last_overlay_call(calls: Seq<Call>) -> Option<Call>
    decreases calls.len(),
{
    if calls.len() == 0 {
        None
    } else if calls.last() is OverlayShow || calls.last() is OverlayHide {
        Some(calls.last())
    } else {
        last_overlay_call(calls.drop_last())
    }
}

/// A show at `rect` is a repeat when the overlay is visible and the last
/// overlay call already showed it at `rect`.
pub open spec fn repeat_show(visible: bool, calls: Seq<Call>, rect: Rect) -> bool {
    visible && last_overlay_call(calls) == Some(Call::OverlayShow(rect))
}

impl RecordingWinApi {
    pub fn new() -> (r: Self)
        ensures
            r.calls@.len() == 0,
            !r.overlay_visible && !r.fail_next_set_window_rect && !r.zoomed,
    {
        RecordingWinApi { calls: Vec::new(), overlay_visible: false, fail_next_set_window_rect: false, zoomed: false }
    }

    fn last_overlay(&self) -> (r: Option<Call>)
        ensures
            r == last_overlay_call(self.calls@),
    {
        let mut i: usize = self.calls.len();
        assert(self.calls@.take(i as int) =~= self.calls@);
        while i > 0
            invariant
                i <= self.calls@.len(),
                last_overlay_call(self.calls@) == last_overlay_call(self.calls@.take(i as int)),
            decreases i,
        {
            proof {
                assert(self.calls@.take(i as int).drop_last() =~= self.calls@.take(i - 1));
                assert(self.calls@.take(i as int).last() == self.calls@[i - 1]);
            }
            let c = self.calls[i - 1];
            match c {
                Call::OverlayShow(_) | Call::OverlayHide => {
                    return Some(c);
                },
                _ => {},
            }
            i -= 1;
        }
        None
    }
}

impl WinApi for RecordingWinApi {
    /// Records the call; fails once if asked to.
    fn set_window_rect(&mut self, hwnd: WindowId, rect: Rect) -> (r: Result<(), ()>)
        ensures
            final(self).calls@ == old(self).calls@.push(Call::SetWindowRect(hwnd, rect)),
            r is Err <==> old(self).fail_next_set_window_rect,
            !final(self).fail_next_set_window_rect,
            final(self).overlay_visible == old(self).overlay_visible,
            final(self).zoomed == old(self).zoomed,
    {
        self.calls.push(Call::SetWindowRect(hwnd, rect));
        if self.fail_next_set_window_rect {
            self.fail_next_set_window_rect = false;
            Err(())
        } else {
            Ok(())
        }
    }

    fn is_zoomed(&mut self, hwnd: WindowId) -> (r: bool)
        ensures
            final(self).calls@ == old(self).calls@.push(Call::IsZoomed(hwnd)),
            r == old(self).zoomed,
            final(self).overlay_visible == old(self).overlay_visible,
            final(self).fail_next_set_window_rect == old(self).fail_next_set_window_rect,
            final(self).zoomed == old(self).zoomed,
    {
        self.calls.push(Call::IsZoomed(hwnd));
        self.zoomed
    }

    fn show_maximize(&mut self, hwnd: WindowId)
        ensures
            final(self).calls@ == old(self).calls@.push(Call::ShowMaximize(hwnd)),
            final(self).overlay_visible == old(self).overlay_visible,
            final(self).fail_next_set_window_rect == old(self).fail_next_set_window_rect,
            final(self).zoomed == old(self).zoomed,
    {
        self.calls.push(Call::ShowMaximize(hwnd));
    }

    fn show_restore(&mut self, hwnd: WindowId)
        ensures
            final(self).calls@ == old(self).calls@.push(Call::ShowRestore(hwnd)),
            final(self).overlay_visible == old(self).overlay_visible,
            final(self).fail_next_set_window_rect == old(self).fail_next_set_window_rect,
            final(self).zoomed == old(self).zoomed,
    {
        self.calls.push(Call::ShowRestore(hwnd));
    }

    fn capture_mouse(&mut self, hwnd: WindowId)
        ensures
            final(self).calls@ == old(self).calls@.push(Call::CaptureMouse(hwnd)),
            final(self).overlay_visible == old(self).overlay_visible,
            final(self).fail_next_set_window_rect == old(self).fail_next_set_window_rect,
            final(self).zoomed == old(self).zoomed,
    {
        self.calls.push(Call::CaptureMouse(hwnd));
    }

    fn release_mouse(&mut self)
        ensures
            final(self).calls@ == old(self).calls@.push(Call::ReleaseMouse),
            final(self).overlay_visible == old(self).overlay_visible,
            final(self).fail_next_set_window_rect == old(self).fail_next_set_window_rect,
            final(self).zoomed == old(self).zoomed,
    {
        self.calls.push(Call::ReleaseMouse);
    }

    /// Idempotent: a repeated show at the same rect records nothing.
    fn overlay_show(&mut self, rect: Rect)
        ensures
            repeat_show(old(self).overlay_visible, old(self).calls@, rect) ==> final(self).calls@ == old(
                self,
            ).calls@ && final(self).overlay_visible == old(self).overlay_visible,
            !repeat_show(old(self).overlay_visible, old(self).calls@, rect) ==> final(self).calls@ == old(
                self,
            ).calls@.push(Call::OverlayShow(rect)) && final(self).overlay_visible,
            final(self).fail_next_set_window_rect == old(self).fail_next_set_window_rect,
            final(self).zoomed == old(self).zoomed,
    {
        if self.overlay_visible {
            match self.last_overlay() {
                Some(Call::OverlayShow(last)) => {
                    if last == rect {
                        return;
                    }
                },
                _ => {},
            }
        }
        self.overlay_visible = true;
        self.calls.push(Call::OverlayShow(rect));
    }

    /// Records a hide only when the overlay is visible.
    fn overlay_hide(&mut self)
        ensures
            old(self).overlay_visible ==> final(self).calls@ == old(self).calls@.push(Call::OverlayHide),
            !old(self).overlay_visible ==> final(self).calls@ == old(self).calls@,
            !final(self).overlay_visible,
            final(self).fail_next_set_window_rect == old(self).fail_next_set_window_rect,
            final(self).zoomed == old(self).zoomed,
    {
        if !self.overlay_visible {
            return;
        }
        self.overlay_visible = false;
        self.calls.push(Call::OverlayHide);
    }
}

/// Overlay idempotence: showing twice at the same rect records one show,
/// and a hide of a hidden overlay records nothing.
pub proof fn lemma_overlay_idempotent(calls: Seq<Call>, rect: Rect)
    ensures
        repeat_show(true, calls.push(Call::OverlayShow(rect)), rect),
        last_overlay_call(calls.push(Call::OverlayHide)) == Some(Call::OverlayHide),
{
    assert(calls.push(Call::OverlayShow(rect)).last() == Call::OverlayShow(rect));
    assert(calls.push(Call::OverlayHide).last() == Call::OverlayHide);
}

} // verus!
