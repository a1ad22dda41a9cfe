//! Whether the engine can take an event without leaving `i32` arithmetic.
//!
//! `Engine::handle` requires `event_ok`: the pixel arithmetic of a press on
//! a target (band edges, baked snap zones) and of a move during a drag
//! (cursor offset, moved or resized rectangle, snap distances) must stay
//! within `i32`. The adapter asks `Engine::accepts` before handing an event
//! over.

use vstd::prelude::*;
use crate::engine::{event_ok, monitors_ok, offset, target_ok, Engine};
use crate::engine::geometry::{can_resize, fits_i32, Point, Rect, ResizeAnchor};
use crate::engine::snap::{bounds_ok, distance_ok, guard_pending, snapshot_ok, work_area_ok, MonitorSnapshot};
use crate::engine::state::{DragTarget, Event, State};

verus! {

fn fits(v: i64) -> (r: bool)
    ensures
        r == fits_i32(v as int),
{
    v >= i32::MIN as i64 && v <= i32::MAX as i64
}

fn snapshot_usable(m: &MonitorSnapshot) -> (r: bool)
    ensures
        r == (snapshot_ok(*m) && monitors_ok(*m)),
{
    let mut i: usize = 0;
    while i < m.monitors.len()
        invariant
            i <= m.monitors@.len(),
            forall|k: int| 0 <= k < i ==> work_area_ok(#[trigger] m.monitors@[k].work_area),
            forall|k: int| 0 <= k < i ==> bounds_ok(#[trigger] m.monitors@[k].bounds),
        decreases m.monitors.len() - i,
    {
        let wa = m.monitors[i].work_area;
        let b = m.monitors[i].bounds;
        let wa_w = wa.right as i64 - wa.left as i64;
        let wa_h = wa.bottom as i64 - wa.top as i64;
        let b_w = b.right as i64 - b.left as i64;
        let b_h = b.bottom as i64 - b.top as i64;
        if !(fits(wa_w) && fits(wa_h) && fits(2 * wa_w) && fits(b_w) && fits(2 * b_w) && fits(b_h)) {
            assert(!work_area_ok(m.monitors@[i as int].work_area) || !bounds_ok(m.monitors@[i as int].bounds));
            return false;
        }
        assert(work_area_ok(m.monitors@[i as int].work_area) && bounds_ok(m.monitors@[i as int].bounds));
        i += 1;
    }
    true
}

fn target_usable(target: &Option<DragTarget>) -> (r: bool)
    ensures
        r == target_ok(*target),
{
    match target {
        Some(t) => match &t.monitor_snapshot {
            Some(m) => snapshot_usable(m),
            None => true,
        },
        None => true,
    }
}

fn translate_fits(r: Rect, dx: i64, dy: i64) -> (ok: bool)
    requires
        fits_i32(dx as int),
        fits_i32(dy as int),
    ensures
        ok == r.can_translate(Point { x: dx as i32, y: dy as i32 }),
{
    fits(r.left as i64 + dx) && fits(r.top as i64 + dy) && fits(r.right as i64 + dx) && fits(r.bottom as i64 + dy)
}

fn resize_fits(r: Rect, anchor: ResizeAnchor, dx: i64, dy: i64) -> (ok: bool)
    requires
        fits_i32(dx as int),
        fits_i32(dy as int),
    ensures
        ok == can_resize(r, anchor, Point { x: dx as i32, y: dy as i32 }),
{
    let l = r.left as i64;
    let t = r.top as i64;
    let rr = r.right as i64;
    let b = r.bottom as i64;
    match anchor {
        ResizeAnchor::TopLeft => fits(l + dx) && fits(t + dy),
        ResizeAnchor::Top => fits(t + dy),
        ResizeAnchor::TopRight => fits(rr + dx) && fits(t + dy),
        ResizeAnchor::Left => fits(l + dx),
        ResizeAnchor::Right => fits(rr + dx),
        ResizeAnchor::BottomLeft => fits(l + dx) && fits(b + dy),
        ResizeAnchor::Bottom => fits(b + dy),
        ResizeAnchor::BottomRight => fits(rr + dx) && fits(b + dy),
        ResizeAnchor::CenterSymmetric => fits(l - dx) && fits(t - dy) && fits(rr + dx) && fits(b + dy),
    }
}

fn distance_fits(r: Rect, c: Point) -> (ok: bool)
    ensures
        ok == distance_ok(r, c),
{
    let x = c.x as i64;
    let y = c.y as i64;
    fits(x - r.left as i64) && fits(r.right as i64 - x) && fits(y - r.top as i64) && fits(r.bottom as i64 - y)
        && fits(r.left as i64 - x) && fits(x - r.right as i64) && fits(r.top as i64 - y) && fits(y - r.bottom as i64)
}

impl Engine {
    /// Whether `handle` can take `event` in the current state: exactly the
    /// events of `event_ok`. An event it refuses would overflow the engine's
    /// pixel arithmetic.
    pub fn accepts(&self, event: &Event) -> (r: bool)
        ensures
            r == event_ok(self.view_state(), *event),
    {
        match event {
            Event::LeftDown { target, .. } => target_usable(target),
            Event::RightDown { cursor: _, target, bands } => {
                if !target_usable(target) {
                    return false;
                }
                match target {
                    Some(t) => {
                        let r = t.initial_rect;
                        fits(r.left as i64 + bands.side_width as i64) && fits(r.right as i64 - bands.side_width as i64)
                            && fits(r.top as i64 + bands.side_height as i64) && fits(
                            r.bottom as i64 - bands.side_height as i64,
                        )
                    },
                    None => true,
                }
            },
            Event::MouseMove { cursor } => match self.state() {
                State::Moving { initial_rect, grab, snap_session, .. } => {
                    let dx = cursor.x as i64 - grab.x as i64;
                    let dy = cursor.y as i64 - grab.y as i64;
                    if !(fits(dx) && fits(dy)) {
                        return false;
                    }
                    proof {
                        assert(offset(*cursor, *grab) == Point { x: dx as i32, y: dy as i32 });
                    }
                    if !translate_fits(*initial_rect, dx, dy) {
                        return false;
                    }
                    match snap_session {
                        Some(s) => {
                            let pending = s.ctx.restore_guard_active && !s.restore_guard_cleared;
                            if pending && (dx == i32::MIN as i64 || dy == i32::MIN as i64) {
                                return false;
                            }
                            match &s.engaged {
                                Some(ez) => distance_fits(ez.target_rect, *cursor),
                                None => true,
                            }
                        },
                        None => true,
                    }
                },
                State::Resizing { initial_rect, grab, anchor, .. } => {
                    let dx = cursor.x as i64 - grab.x as i64;
                    let dy = cursor.y as i64 - grab.y as i64;
                    if !(fits(dx) && fits(dy)) {
                        return false;
                    }
                    proof {
                        assert(offset(*cursor, *grab) == Point { x: dx as i32, y: dy as i32 });
                    }
                    resize_fits(*initial_rect, *anchor, dx, dy)
                },
                _ => true,
            },
            _ => true,
        }
    }
}

} // verus!
