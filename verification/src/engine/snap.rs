//! Snap engine: zone baking, proximity + hysteresis, tie-break priority.
//! Called only while moving a window.

use vstd::prelude::*;
use crate::engine::config::{SnapEngineConfig, ZoneToggles};
use crate::engine::geometry::{Point, Rect, fits_i32};

verus! {

#[derive(Debug, Clone, Copy, PartialEq, Eq)]
pub enum Decision {
    /// A zone was engaged (or another zone took over); show its preview.
    Engage(EngagedZone),
    /// The engaged zone stays engaged.
    Hold,
    /// The engaged zone let go; hide the preview.
    Disengage,
    /// Nothing engaged and nothing to engage.
    Nothing,
}

#[derive(Debug, Clone, Copy, PartialEq, Eq)]
pub struct MonitorInfo {
    pub bounds: Rect,
    pub work_area: Rect,
    pub scale: u32,
}

#[derive(Debug, Clone, PartialEq, Eq)]
pub struct MonitorSnapshot {
    pub monitors: Vec<MonitorInfo>,
}

#[derive(Debug, Clone, Copy, PartialEq, Eq, Structural)]
pub enum SnapZoneId {
    TopLeftQuarter,
    TopRightQuarter,
    BottomLeftQuarter,
    BottomRightQuarter,
    TopMaximize,
    BottomMaximize,
    LeftHalf,
    RightHalf,
    LeftThird,
    MiddleThird,
    RightThird,
}

#[derive(Debug, Clone, Copy, PartialEq, Eq)]
pub struct SnapZone {
    pub id: SnapZoneId,
    pub target_rect: Rect,
    pub monitor_index: usize,
}

/// One engagement record on an active drag.
#[derive(Debug, Clone, Copy, PartialEq, Eq)]
pub struct EngagedZone {
    pub id: SnapZoneId,
    pub target_rect: Rect,
    pub entered_at_cursor: Point,
}

/// Immutable-per-drag inputs to snap evaluation.
#[derive(Debug, Clone, PartialEq, Eq)]
pub struct SnapContext {
    pub monitors: MonitorSnapshot,
    pub zones: Vec<SnapZone>,
    pub engage_px: u32,
    pub disengage_px: u32,
    /// Cursor point at drag start.
    pub grab: Point,
    /// True iff the drag target was maximized at drag start and was restored;
    /// while the guard holds, `evaluate` returns `None` until the cursor has
    /// moved 16 px from `grab`.
    pub restore_guard_active: bool,
}

/// Mutable-per-drag snap state.
#[derive(Debug, Clone, PartialEq, Eq)]
pub struct SnapSession {
    pub ctx: SnapContext,
    pub engaged: Option<EngagedZone>,
    pub last_preview_rect: Option<Rect>,
    pub suspended: bool,
    /// Latches true once the cursor has moved 16 px from `ctx.grab`.
    pub restore_guard_cleared: bool,
}

// ---------------------------------------------------------------------------
// Zone baking
// ---------------------------------------------------------------------------

/// The work-area arithmetic of zone baking stays within `i32`.
pub open spec fn work_area_ok(wa: Rect) -> bool {
    &&& fits_i32(wa.right - wa.left)
    &&& fits_i32(wa.bottom - wa.top)
    &&& fits_i32(2 * (wa.right - wa.left))
}

pub open spec fn snapshot_ok(snapshot: MonitorSnapshot) -> bool {
    forall|i: int| 0 <= i < snapshot.monitors@.len() ==> work_area_ok(#[trigger] snapshot.monitors@[i].work_area)
}

/// Division rounding toward zero, as Rust's `/` does on integers.
pub open spec fn tdiv(a: int, b: int) -> int {
    if a >= 0 { a / b } else { -((-a) / b) }
}

pub open spec fn spec_mid_x(wa: Rect) -> int {
    wa.left + tdiv(wa.right - wa.left, 2)
}

pub open spec fn spec_mid_y(wa: Rect) -> int {
    wa.top + tdiv(wa.bottom - wa.top, 2)
}

pub open spec fn spec_third_x1(wa: Rect) -> int {
    wa.left + tdiv(wa.right - wa.left, 3)
}

pub open spec fn spec_third_x2(wa: Rect) -> int {
    wa.left + tdiv(2 * (wa.right - wa.left), 3)
}

pub open spec fn mk_rect(l: int, t: int, r: int, b: int) -> Rect {
    Rect { left: l as i32, top: t as i32, right: r as i32, bottom: b as i32 }
}

/// The target rectangle of a zone on a monitor with work area `wa`:
/// quarters split at the middle of both axes, maximize zones are the whole
/// work area, halves split at the middle of the width, thirds at a third and
/// two thirds of it.
pub open spec fn zone_rect(id: SnapZoneId, wa: Rect) -> Rect {
    match id {
        SnapZoneId::TopLeftQuarter => mk_rect(wa.left as int, wa.top as int, spec_mid_x(wa), spec_mid_y(wa)),
        SnapZoneId::TopRightQuarter => mk_rect(spec_mid_x(wa), wa.top as int, wa.right as int, spec_mid_y(wa)),
        SnapZoneId::BottomLeftQuarter => mk_rect(wa.left as int, spec_mid_y(wa), spec_mid_x(wa), wa.bottom as int),
        SnapZoneId::BottomRightQuarter => mk_rect(spec_mid_x(wa), spec_mid_y(wa), wa.right as int, wa.bottom as int),
        SnapZoneId::TopMaximize => wa,
        SnapZoneId::BottomMaximize => wa,
        SnapZoneId::LeftHalf => mk_rect(wa.left as int, wa.top as int, spec_mid_x(wa), wa.bottom as int),
        SnapZoneId::RightHalf => mk_rect(spec_mid_x(wa), wa.top as int, wa.right as int, wa.bottom as int),
        SnapZoneId::LeftThird => mk_rect(wa.left as int, wa.top as int, spec_third_x1(wa), wa.bottom as int),
        SnapZoneId::MiddleThird => mk_rect(spec_third_x1(wa), wa.top as int, spec_third_x2(wa), wa.bottom as int),
        SnapZoneId::RightThird => mk_rect(spec_third_x2(wa), wa.top as int, wa.right as int, wa.bottom as int),
    }
}

pub open spec fn zone_toggle(z: ZoneToggles, id: SnapZoneId) -> bool {
    match id {
        SnapZoneId::TopLeftQuarter => z.top_left_quarter,
        SnapZoneId::TopRightQuarter => z.top_right_quarter,
        SnapZoneId::BottomLeftQuarter => z.bottom_left_quarter,
        SnapZoneId::BottomRightQuarter => z.bottom_right_quarter,
        SnapZoneId::TopMaximize => z.top_maximize,
        SnapZoneId::BottomMaximize => z.bottom_maximize,
        SnapZoneId::LeftHalf => z.left_half,
        SnapZoneId::RightHalf => z.right_half,
        SnapZoneId::LeftThird => z.left_third,
        SnapZoneId::MiddleThird => z.middle_third,
        SnapZoneId::RightThird => z.right_third,
    }
}

/// The order in which a monitor's zones are baked: quarters, maximize zones,
/// halves, thirds.
pub open spec fn bake_order() -> Seq<SnapZoneId> {
    seq![
        SnapZoneId::TopLeftQuarter,
        SnapZoneId::TopRightQuarter,
        SnapZoneId::BottomLeftQuarter,
        SnapZoneId::BottomRightQuarter,
        SnapZoneId::TopMaximize,
        SnapZoneId::BottomMaximize,
        SnapZoneId::LeftHalf,
        SnapZoneId::RightHalf,
        SnapZoneId::LeftThird,
        SnapZoneId::MiddleThird,
        SnapZoneId::RightThird,
    ]
}

/// The zone `id` on monitor `idx`, if it is enabled.
pub open spec fn opt_zone(z: ZoneToggles, id: SnapZoneId, idx: usize, mon: MonitorInfo) -> Seq<SnapZone> {
    if zone_toggle(z, id) {
        seq![SnapZone { id, target_rect: zone_rect(id, mon.work_area), monitor_index: idx }]
    } else {
        Seq::empty()
    }
}

/// The enabled zones of the first `n` entries of the bake order.
pub open spec fn monitor_zones_upto(z: ZoneToggles, idx: usize, mon: MonitorInfo, n: int) -> Seq<SnapZone>
    decreases n,
{
    if n <= 0 {
        Seq::empty()
    } else {
        monitor_zones_upto(z, idx, mon, n - 1) + opt_zone(z, bake_order()[n - 1], idx, mon)
    }
}

/// The enabled zones of one monitor, in bake order.
pub open spec fn monitor_zones(z: ZoneToggles, idx: usize, mon: MonitorInfo) -> Seq<SnapZone> {
    monitor_zones_upto(z, idx, mon, 11)
}

/// The zones of the first `n` monitors.
pub open spec fn zones_upto(z: ZoneToggles, mons: Seq<MonitorInfo>, n: int) -> Seq<SnapZone>
    decreases n,
{
    if n <= 0 {
        Seq::empty()
    } else {
        zones_upto(z, mons, n - 1) + monitor_zones(z, (n - 1) as usize, mons[n - 1])
    }
}

/// All zones of a snapshot: none when snap is disabled, else each monitor's
/// enabled zones, monitor by monitor.
pub open spec fn baked_zones(cfg: SnapEngineConfig, snapshot: MonitorSnapshot) -> Seq<SnapZone> {
    if !cfg.enabled {
        Seq::empty()
    } else {
        zones_upto(cfg.zones, snapshot.monitors@, snapshot.monitors@.len() as int)
    }
}

/// Materialise the full list of snap zones from the current monitor snapshot
/// and config. Called once per drag at drag start.
pub fn bake_zones(cfg: &SnapEngineConfig, snapshot: &MonitorSnapshot) -> (out: Vec<SnapZone>)
    requires
        snapshot_ok(*snapshot),
    ensures
        out@ == baked_zones(*cfg, *snapshot),
{
    let mut out: Vec<SnapZone> = Vec::new();
    if !cfg.enabled {
        return out;
    }
    let mut idx: usize = 0;
    while idx < snapshot.monitors.len()
        invariant
            idx <= snapshot.monitors@.len(),
            snapshot_ok(*snapshot),
            out@ == zones_upto(cfg.zones, snapshot.monitors@, idx as int),
        decreases snapshot.monitors.len() - idx,
    {
        push_enabled(&mut out, cfg.zones, idx, &snapshot.monitors[idx]);
        idx += 1;
    }
    out
}

fn push_zone(out: &mut Vec<SnapZone>, on: bool, id: SnapZoneId, r: Rect, idx: usize, mon: &MonitorInfo, z: ZoneToggles)
    requires
        on == zone_toggle(z, id),
        r == zone_rect(id, mon.work_area),
    ensures
        final(out)@ == old(out)@ + opt_zone(z, id, idx, *mon),
{
    if on {
        out.push(SnapZone { id, target_rect: r, monitor_index: idx });
    }
}

/// The split points of a work area: middle x, middle y, first and second
/// third of the width.
fn split_points(wa: Rect) -> (r: (i32, i32, i32, i32))
    requires
        work_area_ok(wa),
    ensures
        r.0 == spec_mid_x(wa),
        r.1 == spec_mid_y(wa),
        r.2 == spec_third_x1(wa),
        r.3 == spec_third_x2(wa),
{
    let w = wa.right - wa.left;
    let h = wa.bottom - wa.top;
    let mid_x = wa.left + w / 2;
    let mid_y = wa.top + h / 2;
    let third_x1 = wa.left + w / 3;
    let third_x2 = wa.left + (2 * w) / 3;
    (mid_x, mid_y, third_x1, third_x2)
}

/// One more entry of the bake order.
proof fn lemma_upto_step(z: ZoneToggles, idx: usize, mon: MonitorInfo, o: Seq<SnapZone>, k: int, id: SnapZoneId)
    requires
        1 <= k <= 11,
        bake_order()[k - 1] == id,
    ensures
        (o + monitor_zones_upto(z, idx, mon, k - 1)) + opt_zone(z, id, idx, mon) == o + monitor_zones_upto(z, idx, mon, k),
{
    assert((o + monitor_zones_upto(z, idx, mon, k - 1)) + opt_zone(z, id, idx, mon) =~= o + monitor_zones_upto(z, idx, mon, k));
}

/// Appends the enabled zones of one monitor, in bake order.
fn push_enabled(out: &mut Vec<SnapZone>, z: ZoneToggles, idx: usize, mon: &MonitorInfo)
    requires
        work_area_ok(mon.work_area),
    ensures
        final(out)@ == old(out)@ + monitor_zones(z, idx, *mon),
{
    let wa = mon.work_area;
    let (mid_x, mid_y, third_x1, third_x2) = split_points(wa);
    let ghost o = old(out)@;
    let ghost m = *mon;
    assert(o + monitor_zones_upto(z, idx, m, 0) =~= o);

    push_zone(out, z.top_left_quarter, SnapZoneId::TopLeftQuarter,
        Rect { left: wa.left, top: wa.top, right: mid_x, bottom: mid_y }, idx, mon, z);
    proof { lemma_upto_step(z, idx, m, o, 1, SnapZoneId::TopLeftQuarter); }
    push_zone(out, z.top_right_quarter, SnapZoneId::TopRightQuarter,
        Rect { left: mid_x, top: wa.top, right: wa.right, bottom: mid_y }, idx, mon, z);
    proof { lemma_upto_step(z, idx, m, o, 2, SnapZoneId::TopRightQuarter); }
    push_zone(out, z.bottom_left_quarter, SnapZoneId::BottomLeftQuarter,
        Rect { left: wa.left, top: mid_y, right: mid_x, bottom: wa.bottom }, idx, mon, z);
    proof { lemma_upto_step(z, idx, m, o, 3, SnapZoneId::BottomLeftQuarter); }
    push_zone(out, z.bottom_right_quarter, SnapZoneId::BottomRightQuarter,
        Rect { left: mid_x, top: mid_y, right: wa.right, bottom: wa.bottom }, idx, mon, z);
    proof { lemma_upto_step(z, idx, m, o, 4, SnapZoneId::BottomRightQuarter); }
    push_zone(out, z.top_maximize, SnapZoneId::TopMaximize, wa, idx, mon, z);
    proof { lemma_upto_step(z, idx, m, o, 5, SnapZoneId::TopMaximize); }
    push_zone(out, z.bottom_maximize, SnapZoneId::BottomMaximize, wa, idx, mon, z);
    proof { lemma_upto_step(z, idx, m, o, 6, SnapZoneId::BottomMaximize); }
    push_zone(out, z.left_half, SnapZoneId::LeftHalf,
        Rect { left: wa.left, top: wa.top, right: mid_x, bottom: wa.bottom }, idx, mon, z);
    proof { lemma_upto_step(z, idx, m, o, 7, SnapZoneId::LeftHalf); }
    push_zone(out, z.right_half, SnapZoneId::RightHalf,
        Rect { left: mid_x, top: wa.top, right: wa.right, bottom: wa.bottom }, idx, mon, z);
    proof { lemma_upto_step(z, idx, m, o, 8, SnapZoneId::RightHalf); }
    push_zone(out, z.left_third, SnapZoneId::LeftThird,
        Rect { left: wa.left, top: wa.top, right: third_x1, bottom: wa.bottom }, idx, mon, z);
    proof { lemma_upto_step(z, idx, m, o, 9, SnapZoneId::LeftThird); }
    push_zone(out, z.middle_third, SnapZoneId::MiddleThird,
        Rect { left: third_x1, top: wa.top, right: third_x2, bottom: wa.bottom }, idx, mon, z);
    proof { lemma_upto_step(z, idx, m, o, 10, SnapZoneId::MiddleThird); }
    push_zone(out, z.right_third, SnapZoneId::RightThird,
        Rect { left: third_x2, top: wa.top, right: wa.right, bottom: wa.bottom }, idx, mon, z);
    proof { lemma_upto_step(z, idx, m, o, 11, SnapZoneId::RightThird); }
}

// ---------------------------------------------------------------------------
// Evaluation
// ---------------------------------------------------------------------------

/// The monitor-bounds arithmetic of eligibility checks stays within `i32`.
pub open spec fn bounds_ok(b: Rect) -> bool {
    &&& fits_i32(b.right - b.left)
    &&& fits_i32(2 * (b.right - b.left))
    &&& fits_i32(b.bottom - b.top)
}

/// A context is usable: every zone names an existing monitor and every
/// monitor's bounds are small enough for the eligibility arithmetic.
pub open spec fn ctx_ok(ctx: SnapContext) -> bool {
    &&& forall|i: int| 0 <= i < ctx.zones@.len() ==> (#[trigger] ctx.zones@[i]).monitor_index < ctx.monitors.monitors@.len()
    &&& forall|i: int| 0 <= i < ctx.monitors.monitors@.len() ==> bounds_ok(#[trigger] ctx.monitors.monitors@[i].bounds)
}

/// Absolute value as an integer.
pub open spec fn iabs(v: int) -> int {
    if v < 0 { -v } else { v }
}

/// Whether the cursor is within `engage_px` of the zone's triggering edge or
/// corner of its monitor's bounds, and on that monitor at all (bounds taken
/// inclusively). The middle third has no edge: it is eligible anywhere in the
/// middle third of the monitor's width, exclusive.
pub open spec fn eligible(id: SnapZoneId, c: Point, e: int, b: Rect) -> bool {
    let near_left = iabs(c.x - b.left) <= e;
    let near_right = iabs(c.x - b.right) <= e;
    let near_top = iabs(c.y - b.top) <= e;
    let near_bottom = iabs(c.y - b.bottom) <= e;
    let in_x = b.left <= c.x <= b.right;
    let in_y = b.top <= c.y <= b.bottom;
    &&& in_x && in_y
    &&& match id {
        SnapZoneId::TopLeftQuarter => near_left && near_top,
        SnapZoneId::TopRightQuarter => near_right && near_top,
        SnapZoneId::BottomLeftQuarter => near_left && near_bottom,
        SnapZoneId::BottomRightQuarter => near_right && near_bottom,
        SnapZoneId::TopMaximize => near_top,
        SnapZoneId::BottomMaximize => near_bottom,
        SnapZoneId::LeftHalf => near_left,
        SnapZoneId::RightHalf => near_right,
        SnapZoneId::LeftThird => near_left,
        SnapZoneId::MiddleThird => c.x > b.left + tdiv(b.right - b.left, 3) && c.x < b.left + tdiv(
            2 * (b.right - b.left),
            3,
        ),
        SnapZoneId::RightThird => near_right,
    }
}

/// True iff the cursor is within `engage_px` of the zone's triggering edge or
/// corner (edges use `bounds` so an auto-hidden taskbar does not defeat the
/// top edge).
fn cursor_eligible(z: &SnapZone, cursor: Point, engage_px: i32, mon: &MonitorInfo) -> (r: bool)
    requires
        bounds_ok(mon.bounds),
    ensures
        r == eligible(z.id, cursor, engage_px as int, mon.bounds),
{
    let b = mon.bounds;
    if cursor.x < b.left || cursor.x > b.right || cursor.y < b.top || cursor.y > b.bottom {
        return false;
    }
    let near_left = cursor.x - b.left <= engage_px;
    let near_right = b.right - cursor.x <= engage_px;
    let near_top = cursor.y - b.top <= engage_px;
    let near_bottom = b.bottom - cursor.y <= engage_px;
    match z.id {
        SnapZoneId::TopLeftQuarter => near_left && near_top,
        SnapZoneId::TopRightQuarter => near_right && near_top,
        SnapZoneId::BottomLeftQuarter => near_left && near_bottom,
        SnapZoneId::BottomRightQuarter => near_right && near_bottom,
        SnapZoneId::TopMaximize => near_top && cursor.x >= b.left && cursor.x <= b.right,
        SnapZoneId::BottomMaximize => near_bottom && cursor.x >= b.left && cursor.x <= b.right,
        SnapZoneId::LeftHalf => near_left && cursor.y >= b.top && cursor.y <= b.bottom,
        SnapZoneId::RightHalf => near_right && cursor.y >= b.top && cursor.y <= b.bottom,
        SnapZoneId::LeftThird => near_left,
        SnapZoneId::MiddleThird => {
            cursor.x > b.left + (b.right - b.left) / 3 && cursor.x < b.left + 2 * (b.right - b.left) / 3
        },
        SnapZoneId::RightThird => near_right,
    }
}

/// Lower number = higher priority: quarters, then top maximize, bottom
/// maximize, halves, thirds.
pub open spec fn priority(id: SnapZoneId) -> u8 {
    match id {
        SnapZoneId::TopLeftQuarter | SnapZoneId::TopRightQuarter | SnapZoneId::BottomLeftQuarter
        | SnapZoneId::BottomRightQuarter => 0,
        SnapZoneId::TopMaximize => 1,
        SnapZoneId::BottomMaximize => 2,
        SnapZoneId::LeftHalf | SnapZoneId::RightHalf => 3,
        SnapZoneId::LeftThird | SnapZoneId::MiddleThird | SnapZoneId::RightThird => 4,
    }
}

fn priority_rank(id: SnapZoneId) -> (r: u8)
    ensures
        r == priority(id),
{
    match id {
        SnapZoneId::TopLeftQuarter | SnapZoneId::TopRightQuarter | SnapZoneId::BottomLeftQuarter
        | SnapZoneId::BottomRightQuarter => 0,
        SnapZoneId::TopMaximize => 1,
        SnapZoneId::BottomMaximize => 2,
        SnapZoneId::LeftHalf | SnapZoneId::RightHalf => 3,
        SnapZoneId::LeftThird | SnapZoneId::MiddleThird | SnapZoneId::RightThird => 4,
    }
}

/// Whether zone `i` of the context is eligible for the cursor.
pub open spec fn zone_eligible(ctx: SnapContext, c: Point, e: int, i: int) -> bool {
    eligible(ctx.zones@[i].id, c, e, ctx.monitors.monitors@[ctx.zones@[i].monitor_index as int].bounds)
}

/// Among the first `n` zones, the index of the best eligible one: lowest
/// priority rank, and the earliest in bake order among equals.
pub open spec fn best_upto(ctx: SnapContext, c: Point, e: int, n: int) -> Option<int>
    decreases n,
{
    if n <= 0 {
        None
    } else {
        let prev = best_upto(ctx, c, e, n - 1);
        if zone_eligible(ctx, c, e, n - 1) {
            match prev {
                None => Some(n - 1),
                Some(k) => if priority(ctx.zones@[n - 1].id) < priority(ctx.zones@[k].id) {
                    Some(n - 1)
                } else {
                    Some(k)
                },
            }
        } else {
            prev
        }
    }
}

/// The best eligible zone of the context for the cursor.
pub open spec fn best_zone(ctx: SnapContext, c: Point, e: int) -> Option<int> {
    best_upto(ctx, c, e, ctx.zones@.len() as int)
}

fn best_candidate(ctx: &SnapContext, cursor: Point, engage_px: i32) -> (r: Option<usize>)
    requires
        ctx_ok(*ctx),
    ensures
        r matches Some(i) ==> i < ctx.zones@.len(),
        match r {
            Some(i) => best_zone(*ctx, cursor, engage_px as int) == Some(i as int),
            None => best_zone(*ctx, cursor, engage_px as int) is None,
        },
{
    let mut best: Option<(usize, u8)> = None;
    let mut i: usize = 0;
    while i < ctx.zones.len()
        invariant
            ctx_ok(*ctx),
            i <= ctx.zones@.len(),
            match best {
                Some((k, pr)) => best_upto(*ctx, cursor, engage_px as int, i as int) == Some(k as int)
                    && pr == priority(ctx.zones@[k as int].id) && k < i,
                None => best_upto(*ctx, cursor, engage_px as int, i as int) is None,
            },
        decreases ctx.zones.len() - i,
    {
        let z = &ctx.zones[i];
        proof {
            assert(ctx.zones@[i as int].monitor_index < ctx.monitors.monitors@.len());
        }
        if cursor_eligible(z, cursor, engage_px, &ctx.monitors.monitors[z.monitor_index]) {
            let pr = priority_rank(z.id);
            best = match best {
                None => Some((i, pr)),
                Some((k, br)) => if pr < br {
                    Some((i, pr))
                } else {
                    Some((k, br))
                },
            };
        }
        i += 1;
    }
    match best {
        Some((k, _)) => Some(k),
        None => None,
    }
}

/// Distance from the cursor to the nearest edge of `r`: inside (edges
/// inclusive) the least distance to any edge, outside the Chebyshev distance
/// to the boundary.
pub open spec fn edge_distance(r: Rect, c: Point) -> int {
    let inside = r.left <= c.x <= r.right && r.top <= c.y <= r.bottom;
    if inside {
        let m1 = if c.x - r.left <= r.right - c.x { c.x - r.left } else { r.right - c.x };
        let m2 = if m1 <= c.y - r.top { m1 } else { c.y - r.top };
        let m3 = if m2 <= r.bottom - c.y { m2 } else { r.bottom - c.y };
        if m3 >= 0 { m3 } else { 0 }
    } else {
        let ax = if r.left - c.x >= c.x - r.right { r.left - c.x } else { c.x - r.right };
        let ay = if r.top - c.y >= c.y - r.bottom { r.top - c.y } else { c.y - r.bottom };
        let dx = if ax >= 0 { ax } else { 0 };
        let dy = if ay >= 0 { ay } else { 0 };
        if dx >= dy { dx } else { dy }
    }
}

/// The edge-distance arithmetic stays within `i32`.
pub open spec fn distance_ok(r: Rect, c: Point) -> bool {
    &&& fits_i32(c.x - r.left)
    &&& fits_i32(r.right - c.x)
    &&& fits_i32(c.y - r.top)
    &&& fits_i32(r.bottom - c.y)
    &&& fits_i32(r.left - c.x)
    &&& fits_i32(c.x - r.right)
    &&& fits_i32(r.top - c.y)
    &&& fits_i32(c.y - r.bottom)
}

/// Distance from the cursor to the engaged zone's target rect (`i32::MAX`
/// when nothing is engaged).
fn disengage_distance_to_current(session: &SnapSession, cursor: Point) -> (d: i32)
    requires
        session.engaged matches Some(ez) ==> distance_ok(ez.target_rect, cursor),
    ensures
        match session.engaged {
            Some(ez) => d == edge_distance(ez.target_rect, cursor),
            None => d == i32::MAX,
        },
{
    let ez = match &session.engaged {
        Some(ez) => ez,
        None => {
            return i32::MAX;
        },
    };
    let r = ez.target_rect;
    let inside_x = cursor.x >= r.left && cursor.x <= r.right;
    let inside_y = cursor.y >= r.top && cursor.y <= r.bottom;
    if inside_x && inside_y {
        let dl = cursor.x - r.left;
        let dr = r.right - cursor.x;
        let dt = cursor.y - r.top;
        let db = r.bottom - cursor.y;
        let m1 = if dl <= dr { dl } else { dr };
        let m2 = if m1 <= dt { m1 } else { dt };
        let m3 = if m2 <= db { m2 } else { db };
        if m3 >= 0 { m3 } else { 0 }
    } else {
        let ax = if r.left - cursor.x >= cursor.x - r.right { r.left - cursor.x } else { cursor.x - r.right };
        let ay = if r.top - cursor.y >= cursor.y - r.bottom { r.top - cursor.y } else { cursor.y - r.bottom };
        let dx = if ax >= 0 { ax } else { 0 };
        let dy = if ay >= 0 { ay } else { 0 };
        if dx >= dy { dx } else { dy }
    }
}

/// The cursor is still within the 16 px restore guard around `grab`.
pub open spec fn within_guard(c: Point, grab: Point) -> bool {
    let dx = c.x - grab.x;
    let dy = c.y - grab.y;
    iabs(dx) < 16 && iabs(dy) < 16 && dx * dx + dy * dy < 256
}

/// The guard is in force for this session.
pub open spec fn guard_pending(s: SnapSession) -> bool {
    s.ctx.restore_guard_active && !s.restore_guard_cleared
}

/// What `evaluate` needs of its inputs: a usable context, and cursor offsets
/// small enough for the guard and distance arithmetic.
pub open spec fn evaluate_ok(s: SnapSession, c: Point) -> bool {
    &&& ctx_ok(s.ctx)
    &&& guard_pending(s) ==> (fits_i32(c.x - s.ctx.grab.x) && c.x - s.ctx.grab.x != i32::MIN
        && fits_i32(c.y - s.ctx.grab.y) && c.y - s.ctx.grab.y != i32::MIN)
    &&& s.engaged matches Some(ez) ==> distance_ok(ez.target_rect, c)
}

/// Engage zone `z` at cursor `c`.
pub open spec fn engaged_at(z: SnapZone, c: Point) -> EngagedZone {
    EngagedZone { id: z.id, target_rect: z.target_rect, entered_at_cursor: c }
}

/// The session after engaging `ez`.
pub open spec fn with_engaged(s: SnapSession, ez: EngagedZone) -> SnapSession {
    SnapSession { engaged: Some(ez), last_preview_rect: Some(ez.target_rect), ..s }
}

/// The session with nothing engaged and no preview.
pub open spec fn disengaged(s: SnapSession) -> SnapSession {
    SnapSession { engaged: None, last_preview_rect: None, ..s }
}

/// One evaluation of a mouse move: the next session and the decision.
///
/// Suspended: an engaged zone is dropped (`Disengage`), else `Nothing`.
/// Restore guard pending and the cursor within 16 px of the grab: `Nothing`;
/// once beyond, the guard clears for good. Then the best eligible zone
/// (lowest priority rank, first in bake order) decides: a new or different
/// zone engages, the same zone holds, and with no eligible zone the engaged
/// one holds until the cursor is `disengage_px` away from its rect.
pub open spec fn step(s: SnapSession, c: Point) -> (SnapSession, Decision) {
    if s.suspended {
        if s.engaged is Some {
            (disengaged(s), Decision::Disengage)
        } else {
            (s, Decision::Nothing)
        }
    } else if guard_pending(s) && within_guard(c, s.ctx.grab) {
        (s, Decision::Nothing)
    } else {
        let s1 = if guard_pending(s) { SnapSession { restore_guard_cleared: true, ..s } } else { s };
        match (s1.engaged, best_zone(s1.ctx, c, s1.ctx.engage_px as i32 as int)) {
            (None, None) => (s1, Decision::Nothing),
            (None, Some(k)) => {
                let ez = engaged_at(s1.ctx.zones@[k], c);
                (with_engaged(s1, ez), Decision::Engage(ez))
            },
            (Some(cur), Some(k)) => if cur.id == s1.ctx.zones@[k].id {
                (s1, Decision::Hold)
            } else {
                let ez = engaged_at(s1.ctx.zones@[k], c);
                (with_engaged(s1, ez), Decision::Engage(ez))
            },
            (Some(cur), None) => if edge_distance(cur.target_rect, c) >= s1.ctx.disengage_px as i32 as int {
                (disengaged(s1), Decision::Disengage)
            } else {
                (s1, Decision::Hold)
            },
        }
    }
}

/// Returns the decision for this mouse move and updates the engagement and
/// preview. Never engages while suspended or while the restore guard holds.
pub fn evaluate(session: &mut SnapSession, cursor: Point) -> (d: Decision)
    requires
        evaluate_ok(*old(session), cursor),
    ensures
        (*final(session), d) == step(*old(session), cursor),
{
    if session.suspended {
        if session.engaged.is_some() {
            session.engaged = None;
            session.last_preview_rect = None;
            return Decision::Disengage;
        }
        return Decision::Nothing;
    }

    if session.ctx.restore_guard_active && !session.restore_guard_cleared {
        let dx = cursor.x - session.ctx.grab.x;
        let dy = cursor.y - session.ctx.grab.y;
        let adx = if dx < 0 { -dx } else { dx };
        let ady = if dy < 0 { -dy } else { dy };
        if adx < 16 && ady < 16 {
            proof {
                assert(0 <= dx * dx <= 225 && 0 <= dy * dy <= 225) by (nonlinear_arith)
                    requires
                        -16 < dx < 16,
                        -16 < dy < 16,
                ;
            }
            if (dx * dx + dy * dy) < (16 * 16) {
                return Decision::Nothing;
            }
        }
        session.restore_guard_cleared = true;
    }

    let winner = best_candidate(&session.ctx, cursor, session.ctx.engage_px as i32);

    match winner {
        None => {
            if session.engaged.is_none() {
                Decision::Nothing
            } else {
                let dist_px = disengage_distance_to_current(session, cursor);
                if dist_px >= session.ctx.disengage_px as i32 {
                    session.engaged = None;
                    session.last_preview_rect = None;
                    Decision::Disengage
                } else {
                    Decision::Hold
                }
            }
        },
        Some(k) => {
            let z = session.ctx.zones[k];
            let same = match &session.engaged {
                Some(cur) => cur.id == z.id,
                None => false,
            };
            if same {
                Decision::Hold
            } else {
                let ez = EngagedZone { id: z.id, target_rect: z.target_rect, entered_at_cursor: cursor };
                session.engaged = Some(ez);
                session.last_preview_rect = Some(z.target_rect);
                Decision::Engage(ez)
            }
        },
    }
}

// ---------------------------------------------------------------------------
// Laws
// ---------------------------------------------------------------------------

/// The preview shown is the engaged zone's rect, and no preview without an
/// engagement.
pub open spec fn preview_consistent(s: SnapSession) -> bool {
    match s.engaged {
        Some(ez) => s.last_preview_rect == Some(ez.target_rect),
        None => s.last_preview_rect is None,
    }
}

/// Evaluation keeps the drag's context (zones, monitors, distances, grab)
/// unchanged, keeps the preview in step with the engagement, never engages
/// while suspended or while the restore guard holds, reports `Engage` exactly
/// when it records a new engagement, and `Disengage` exactly when it drops
/// one.
pub proof fn lemma_step_laws(s: SnapSession, c: Point)
    ensures
        step(s, c).0.ctx == s.ctx,
        step(s, c).0.suspended == s.suspended,
        preview_consistent(s) ==> preview_consistent(step(s, c).0),
        s.suspended ==> !(step(s, c).1 is Engage),
        !s.suspended && guard_pending(s) && within_guard(c, s.ctx.grab) ==> step(s, c).1 == Decision::Nothing,
        step(s, c).1 matches Decision::Engage(ez) ==> step(s, c).0.engaged == Some(ez),
        step(s, c).1 == Decision::Disengage ==> s.engaged is Some && step(s, c).0.engaged is None,
        step(s, c).1 == Decision::Hold ==> step(s, c).0.engaged == s.engaged && s.engaged is Some,
        step(s, c).1 == Decision::Nothing ==> step(s, c).0.engaged == s.engaged,
{
}

/// The best zone is eligible, no eligible zone has a lower priority rank, and
/// no earlier eligible zone has the same rank; with no eligible zone there is
/// no best zone. So a corner quarter outranks the top maximize zone and the
/// halves, and ties go to the zone baked first.
pub proof fn lemma_best_zone_is_first_of_lowest_rank(ctx: SnapContext, c: Point, e: int, n: int)
    requires
        0 <= n <= ctx.zones@.len(),
    ensures
        match best_upto(ctx, c, e, n) {
            Some(k) => {
                &&& 0 <= k < n
                &&& zone_eligible(ctx, c, e, k)
                &&& forall|j: int| 0 <= j < n && zone_eligible(ctx, c, e, j) ==> priority(ctx.zones@[k].id)
                    <= priority(#[trigger] ctx.zones@[j].id)
                &&& forall|j: int| 0 <= j < k && zone_eligible(ctx, c, e, j) ==> priority(ctx.zones@[k].id)
                    < priority(#[trigger] ctx.zones@[j].id)
            },
            None => forall|j: int| 0 <= j < n ==> !#[trigger] zone_eligible(ctx, c, e, j),
        },
    decreases n,
{
    if n > 0 {
        lemma_best_zone_is_first_of_lowest_rank(ctx, c, e, n - 1);
    }
}

/// Whether `inner` lies within `outer`.
pub open spec fn rect_within(inner: Rect, outer: Rect) -> bool {
    &&& outer.left <= inner.left
    &&& outer.top <= inner.top
    &&& inner.right <= outer.right
    &&& inner.bottom <= outer.bottom
}

/// A work area with its edges in order.
pub open spec fn ordered(wa: Rect) -> bool {
    wa.left <= wa.right && wa.top <= wa.bottom
}

/// Every zone rect lies within the work area it was cut from.
pub proof fn lemma_zone_rect_within(id: SnapZoneId, wa: Rect)
    requires
        work_area_ok(wa),
        ordered(wa),
    ensures
        rect_within(zone_rect(id, wa), wa),
{
    let w = wa.right - wa.left;
    let h = wa.bottom - wa.top;
    assert(0 <= tdiv(w, 2) <= w);
    assert(0 <= tdiv(h, 2) <= h);
    assert(0 <= tdiv(w, 3) <= tdiv(2 * w, 3) <= w);
}

/// Every baked zone names a monitor of the snapshot and, when that monitor's
/// work area has its edges in order, lies within the work area.
pub proof fn lemma_baked_zones_within_work_area(cfg: SnapEngineConfig, snapshot: MonitorSnapshot)
    requires
        snapshot.monitors@.len() <= usize::MAX,
        snapshot_ok(snapshot),
    ensures
        forall|j: int| 0 <= j < baked_zones(cfg, snapshot).len() ==> {
            let z = #[trigger] baked_zones(cfg, snapshot)[j];
            &&& z.monitor_index < snapshot.monitors@.len()
            &&& ordered(snapshot.monitors@[z.monitor_index as int].work_area) ==> rect_within(
                z.target_rect,
                snapshot.monitors@[z.monitor_index as int].work_area,
            )
        },
{
    if cfg.enabled {
        lemma_zones_upto_within(cfg.zones, snapshot, snapshot.monitors@.len() as int);
    }
}

proof fn lemma_zones_upto_within(z: ZoneToggles, snapshot: MonitorSnapshot, n: int)
    requires
        0 <= n <= snapshot.monitors@.len(),
        snapshot.monitors@.len() <= usize::MAX,
        snapshot_ok(snapshot),
    ensures
        forall|j: int| 0 <= j < zones_upto(z, snapshot.monitors@, n).len() ==> {
            let zz = #[trigger] zones_upto(z, snapshot.monitors@, n)[j];
            &&& zz.monitor_index < n
            &&& ordered(snapshot.monitors@[zz.monitor_index as int].work_area) ==> rect_within(
                zz.target_rect,
                snapshot.monitors@[zz.monitor_index as int].work_area,
            )
        },
    decreases n,
{
    if n > 0 {
        lemma_zones_upto_within(z, snapshot, n - 1);
        let mon = snapshot.monitors@[n - 1];
        let idx = (n - 1) as usize;
        lemma_monitor_zones_within(z, idx, mon, 11);
        let prev = zones_upto(z, snapshot.monitors@, n - 1);
        let cur = monitor_zones(z, idx, mon);
        assert forall|j: int| 0 <= j < zones_upto(z, snapshot.monitors@, n).len() implies {
            let zz = #[trigger] zones_upto(z, snapshot.monitors@, n)[j];
            &&& zz.monitor_index < n
            &&& ordered(snapshot.monitors@[zz.monitor_index as int].work_area) ==> rect_within(
                zz.target_rect,
                snapshot.monitors@[zz.monitor_index as int].work_area,
            )
        } by {
            if j >= prev.len() {
                assert(zones_upto(z, snapshot.monitors@, n)[j] == cur[j - prev.len()]);
            } else {
                assert(zones_upto(z, snapshot.monitors@, n)[j] == prev[j]);
            }
        }
    }
}

proof fn lemma_monitor_zones_within(z: ZoneToggles, idx: usize, mon: MonitorInfo, k: int)
    requires
        0 <= k <= 11,
        work_area_ok(mon.work_area),
    ensures
        forall|j: int| 0 <= j < monitor_zones_upto(z, idx, mon, k).len() ==> {
            let zz = #[trigger] monitor_zones_upto(z, idx, mon, k)[j];
            &&& zz.monitor_index == idx
            &&& ordered(mon.work_area) ==> rect_within(zz.target_rect, mon.work_area)
        },
    decreases k,
{
    if k > 0 {
        lemma_monitor_zones_within(z, idx, mon, k - 1);
        let id = bake_order()[k - 1];
        if ordered(mon.work_area) {
            lemma_zone_rect_within(id, mon.work_area);
        }
        let prev = monitor_zones_upto(z, idx, mon, k - 1);
        let cur = opt_zone(z, id, idx, mon);
        assert forall|j: int| 0 <= j < monitor_zones_upto(z, idx, mon, k).len() implies {
            let zz = #[trigger] monitor_zones_upto(z, idx, mon, k)[j];
            &&& zz.monitor_index == idx
            &&& ordered(mon.work_area) ==> rect_within(zz.target_rect, mon.work_area)
        } by {
            if j >= prev.len() {
                assert(monitor_zones_upto(z, idx, mon, k)[j] == cur[j - prev.len()]);
            } else {
                assert(monitor_zones_upto(z, idx, mon, k)[j] == prev[j]);
            }
        }
    }
}


/// How many of the first `n` zones of the bake order are enabled.
pub open spec fn enabled_upto(z: ZoneToggles, n: int) -> int
    decreases n,
{
    if n <= 0 {
        0
    } else {
        enabled_upto(z, n - 1) + (if zone_toggle(z, bake_order()[n - 1]) { 1int } else { 0int })
    }
}

/// How many zones are enabled.
pub open spec fn enabled_zone_count(z: ZoneToggles) -> int {
    enabled_upto(z, 11)
}

proof fn lemma_monitor_zones_count(z: ZoneToggles, idx: usize, mon: MonitorInfo, k: int)
    requires
        0 <= k <= 11,
    ensures
        monitor_zones_upto(z, idx, mon, k).len() == enabled_upto(z, k),
        forall|j: int| 0 <= j < monitor_zones_upto(z, idx, mon, k).len() ==> (#[trigger] monitor_zones_upto(
            z,
            idx,
            mon,
            k,
        )[j]).monitor_index == idx,
    decreases k,
{
    if k > 0 {
        lemma_monitor_zones_count(z, idx, mon, k - 1);
        let prev = monitor_zones_upto(z, idx, mon, k - 1);
        let cur = opt_zone(z, bake_order()[k - 1], idx, mon);
        assert forall|j: int| 0 <= j < monitor_zones_upto(z, idx, mon, k).len() implies (
        #[trigger] monitor_zones_upto(z, idx, mon, k)[j]).monitor_index == idx by {
            if j >= prev.len() {
                assert(monitor_zones_upto(z, idx, mon, k)[j] == cur[j - prev.len()]);
            } else {
                assert(monitor_zones_upto(z, idx, mon, k)[j] == prev[j]);
            }
        }
    }
}

proof fn lemma_zones_upto_count_and_order(z: ZoneToggles, mons: Seq<MonitorInfo>, n: int)
    requires
        0 <= n <= mons.len(),
        mons.len() <= usize::MAX,
    ensures
        zones_upto(z, mons, n).len() == n * enabled_zone_count(z),
        forall|j: int| 0 <= j < zones_upto(z, mons, n).len() ==> (#[trigger] zones_upto(z, mons, n)[j]).monitor_index
            < n,
        forall|i: int, j: int|
            0 <= i <= j < zones_upto(z, mons, n).len() ==> (#[trigger] zones_upto(z, mons, n)[i]).monitor_index
                <= (#[trigger] zones_upto(z, mons, n)[j]).monitor_index,
    decreases n,
{
    if n > 0 {
        lemma_zones_upto_count_and_order(z, mons, n - 1);
        let idx = (n - 1) as usize;
        lemma_monitor_zones_count(z, idx, mons[n - 1], 11);
        let prev = zones_upto(z, mons, n - 1);
        let cur = monitor_zones(z, idx, mons[n - 1]);
        let all = zones_upto(z, mons, n);
        let c = enabled_zone_count(z);
        assert((n - 1) * c + c == n * c) by (nonlinear_arith);
        assert forall|j: int| 0 <= j < all.len() implies (#[trigger] all[j]).monitor_index < n && (j >= prev.len()
            ==> all[j].monitor_index == n - 1) by {
            if j >= prev.len() {
                assert(all[j] == cur[j - prev.len()]);
            } else {
                assert(all[j] == prev[j]);
            }
        }
        assert forall|i: int, j: int| 0 <= i <= j < all.len() implies (#[trigger] all[i]).monitor_index
            <= (#[trigger] all[j]).monitor_index by {
            if j < prev.len() {
                assert(all[i] == prev[i]);
                assert(all[j] == prev[j]);
            } else if i < prev.len() {
                assert(all[i] == prev[i]);
            }
        }
    }
}

/// The baked zones are each monitor's enabled zones, monitor by monitor:
/// none when snap is disabled, otherwise as many per monitor as zones are
/// enabled, with monitor indices in range and in non-decreasing order.
pub proof fn lemma_baked_zones_count_and_order(cfg: SnapEngineConfig, snapshot: MonitorSnapshot)
    requires
        snapshot.monitors@.len() <= usize::MAX,
    ensures
        !cfg.enabled ==> baked_zones(cfg, snapshot).len() == 0,
        cfg.enabled ==> baked_zones(cfg, snapshot).len() == snapshot.monitors@.len() * enabled_zone_count(cfg.zones),
        forall|j: int| 0 <= j < baked_zones(cfg, snapshot).len() ==> (#[trigger] baked_zones(cfg, snapshot)[j]).monitor_index
            < snapshot.monitors@.len(),
        forall|i: int, j: int|
            0 <= i <= j < baked_zones(cfg, snapshot).len() ==> (#[trigger] baked_zones(cfg, snapshot)[i]).monitor_index
                <= (#[trigger] baked_zones(cfg, snapshot)[j]).monitor_index,
{
    if cfg.enabled {
        lemma_zones_upto_count_and_order(cfg.zones, snapshot.monitors@, snapshot.monitors@.len() as int);
    }
}


/// One monitor's zones, as `bake_zones` appends them for it: one per enabled
/// zone, each naming that monitor and, when its work area has its edges in
/// order, lying within the work area.
pub proof fn lemma_monitor_zones(z: ZoneToggles, idx: usize, mon: MonitorInfo)
    requires
        work_area_ok(mon.work_area),
    ensures
        monitor_zones(z, idx, mon).len() == enabled_zone_count(z),
        forall|j: int| 0 <= j < monitor_zones(z, idx, mon).len() ==> {
            let zz = #[trigger] monitor_zones(z, idx, mon)[j];
            &&& zz.monitor_index == idx
            &&& ordered(mon.work_area) ==> rect_within(zz.target_rect, mon.work_area)
        },
{
    lemma_monitor_zones_count(z, idx, mon, 11);
    lemma_monitor_zones_within(z, idx, mon, 11);
}


proof fn lemma_monitor_zones_rects(z: ZoneToggles, idx: usize, mon: MonitorInfo, k: int)
    requires
        0 <= k <= 11,
    ensures
        forall|j: int| 0 <= j < monitor_zones_upto(z, idx, mon, k).len() ==> {
            let zz = #[trigger] monitor_zones_upto(z, idx, mon, k)[j];
            &&& zz.target_rect == zone_rect(zz.id, mon.work_area)
            &&& zone_toggle(z, zz.id)
        },
    decreases k,
{
    if k > 0 {
        lemma_monitor_zones_rects(z, idx, mon, k - 1);
        let prev = monitor_zones_upto(z, idx, mon, k - 1);
        let cur = opt_zone(z, bake_order()[k - 1], idx, mon);
        assert forall|j: int| 0 <= j < monitor_zones_upto(z, idx, mon, k).len() implies {
            let zz = #[trigger] monitor_zones_upto(z, idx, mon, k)[j];
            &&& zz.target_rect == zone_rect(zz.id, mon.work_area)
            &&& zone_toggle(z, zz.id)
        } by {
            if j >= prev.len() {
                assert(monitor_zones_upto(z, idx, mon, k)[j] == cur[j - prev.len()]);
            } else {
                assert(monitor_zones_upto(z, idx, mon, k)[j] == prev[j]);
            }
        }
    }
}

proof fn lemma_zones_upto_rects(z: ZoneToggles, mons: Seq<MonitorInfo>, n: int)
    requires
        0 <= n <= mons.len(),
        mons.len() <= usize::MAX,
    ensures
        forall|j: int| 0 <= j < zones_upto(z, mons, n).len() ==> {
            let zz = #[trigger] zones_upto(z, mons, n)[j];
            &&& zz.monitor_index < n
            &&& zz.target_rect == zone_rect(zz.id, mons[zz.monitor_index as int].work_area)
            &&& zone_toggle(z, zz.id)
        },
    decreases n,
{
    if n > 0 {
        lemma_zones_upto_rects(z, mons, n - 1);
        let idx = (n - 1) as usize;
        lemma_monitor_zones_rects(z, idx, mons[n - 1], 11);
        lemma_monitor_zones_count(z, idx, mons[n - 1], 11);
        let prev = zones_upto(z, mons, n - 1);
        let cur = monitor_zones(z, idx, mons[n - 1]);
        assert forall|j: int| 0 <= j < zones_upto(z, mons, n).len() implies {
            let zz = #[trigger] zones_upto(z, mons, n)[j];
            &&& zz.monitor_index < n
            &&& zz.target_rect == zone_rect(zz.id, mons[zz.monitor_index as int].work_area)
            &&& zone_toggle(z, zz.id)
        } by {
            if j >= prev.len() {
                assert(zones_upto(z, mons, n)[j] == cur[j - prev.len()]);
            } else {
                assert(zones_upto(z, mons, n)[j] == prev[j]);
            }
        }
    }
}

/// The target rectangle of each zone kind, on a work area `wa` with its
/// edges in order, with `mx`, `my` the middles of its width and height and
/// `x1`, `x2` the points at a third and two thirds of its width: the four
/// quarters are the four cells split at (`mx`, `my`) (the top ones from the
/// top edge down to `my`, the bottom ones from `my` down to the bottom
/// edge, the left ones from the left edge to `mx`, the right ones from `mx`
/// to the right edge); the maximize zones are the whole work area; the
/// halves split the width at `mx`; the thirds split it at `x1` and `x2`.
pub open spec fn zone_rect_is(id: SnapZoneId, wa: Rect, r: Rect) -> bool {
    let mx = wa.left + (wa.right - wa.left) / 2;
    let my = wa.top + (wa.bottom - wa.top) / 2;
    let x1 = wa.left + (wa.right - wa.left) / 3;
    let x2 = wa.left + (2 * (wa.right - wa.left)) / 3;
    let (l, t, rr, b) = (r.left as int, r.top as int, r.right as int, r.bottom as int);
    match id {
        SnapZoneId::TopLeftQuarter => l == wa.left && t == wa.top && rr == mx && b == my,
        SnapZoneId::TopRightQuarter => l == mx && t == wa.top && rr == wa.right && b == my,
        SnapZoneId::BottomLeftQuarter => l == wa.left && t == my && rr == mx && b == wa.bottom,
        SnapZoneId::BottomRightQuarter => l == mx && t == my && rr == wa.right && b == wa.bottom,
        SnapZoneId::TopMaximize => r == wa,
        SnapZoneId::BottomMaximize => r == wa,
        SnapZoneId::LeftHalf => l == wa.left && t == wa.top && rr == mx && b == wa.bottom,
        SnapZoneId::RightHalf => l == mx && t == wa.top && rr == wa.right && b == wa.bottom,
        SnapZoneId::LeftThird => l == wa.left && t == wa.top && rr == x1 && b == wa.bottom,
        SnapZoneId::MiddleThird => l == x1 && t == wa.top && rr == x2 && b == wa.bottom,
        SnapZoneId::RightThird => l == x2 && t == wa.top && rr == wa.right && b == wa.bottom,
    }
}

/// Every baked zone is an enabled zone kind, and its target rectangle is the
/// part of its monitor's work area that the kind names (`zone_rect_is`): a
/// quarter covers exactly one quarter, a half one half, and so on.
pub proof fn lemma_baked_zone_rects(cfg: SnapEngineConfig, snapshot: MonitorSnapshot)
    requires
        snapshot.monitors@.len() <= usize::MAX,
        snapshot_ok(snapshot),
    ensures
        forall|j: int| 0 <= j < baked_zones(cfg, snapshot).len() ==> {
            let z = #[trigger] baked_zones(cfg, snapshot)[j];
            let wa = snapshot.monitors@[z.monitor_index as int].work_area;
            &&& zone_toggle(cfg.zones, z.id)
            &&& ordered(wa) ==> zone_rect_is(z.id, wa, z.target_rect)
        },
{
    if cfg.enabled {
        let mons = snapshot.monitors@;
        lemma_zones_upto_rects(cfg.zones, mons, mons.len() as int);
        assert forall|j: int| 0 <= j < baked_zones(cfg, snapshot).len() implies {
            let z = #[trigger] baked_zones(cfg, snapshot)[j];
            let wa = snapshot.monitors@[z.monitor_index as int].work_area;
            &&& zone_toggle(cfg.zones, z.id)
            &&& ordered(wa) ==> zone_rect_is(z.id, wa, z.target_rect)
        } by {
            let z = baked_zones(cfg, snapshot)[j];
            let wa = mons[z.monitor_index as int].work_area;
            if ordered(wa) {
                assert(work_area_ok(wa));
                lemma_zone_rect_is(z.id, wa);
            }
        }
    }
}

proof fn lemma_zone_rect_is(id: SnapZoneId, wa: Rect)
    requires
        work_area_ok(wa),
        ordered(wa),
    ensures
        zone_rect_is(id, wa, zone_rect(id, wa)),
{
    let w = wa.right - wa.left;
    let h = wa.bottom - wa.top;
    assert(tdiv(w, 2) == w / 2);
    assert(tdiv(h, 2) == h / 2);
    assert(tdiv(w, 3) == w / 3);
    assert(tdiv(2 * w, 3) == (2 * w) / 3);
    lemma_zone_rect_within(id, wa);
    assert(0 <= w / 2 <= w);
    assert(0 <= h / 2 <= h);
    assert(0 <= w / 3 <= (2 * w) / 3 <= w);
}


/// Which zones a cursor position makes eligible on a monitor with bounds
/// `b`, for an engage distance `e`: the cursor must be on the monitor (edges
/// included); then a corner quarter needs the cursor within `e` of both
/// edges that meet at its corner, a maximize zone within `e` of its edge
/// (top or bottom), a half or outer third within `e` of its side (left or
/// right), and the middle third strictly between the thirds of the width.
pub proof fn lemma_eligibility(id: SnapZoneId, c: Point, e: int, b: Rect)
    ensures
        ({
            let on = b.left <= c.x <= b.right && b.top <= c.y <= b.bottom;
            let to_left = c.x - b.left <= e;
            let to_right = b.right - c.x <= e;
            let to_top = c.y - b.top <= e;
            let to_bottom = b.bottom - c.y <= e;
            let w = b.right - b.left;
            eligible(id, c, e, b) == (on && match id {
                SnapZoneId::TopLeftQuarter => to_left && to_top,
                SnapZoneId::TopRightQuarter => to_right && to_top,
                SnapZoneId::BottomLeftQuarter => to_left && to_bottom,
                SnapZoneId::BottomRightQuarter => to_right && to_bottom,
                SnapZoneId::TopMaximize => to_top,
                SnapZoneId::BottomMaximize => to_bottom,
                SnapZoneId::LeftHalf => to_left,
                SnapZoneId::RightHalf => to_right,
                SnapZoneId::LeftThird => to_left,
                SnapZoneId::MiddleThird => b.left + w / 3 < c.x < b.left + (2 * w) / 3,
                SnapZoneId::RightThird => to_right,
            })
        }),
{
    let w = b.right - b.left;
    if b.left <= c.x <= b.right && b.top <= c.y <= b.bottom {
        assert(tdiv(w, 3) == w / 3);
        assert(tdiv(2 * w, 3) == (2 * w) / 3);
    }
}

/// At a corner of a monitor only that corner's quarter is eligible among
/// the quarters: a cursor on the monitor within `e` of its left and bottom
/// edges and farther than `e` from its right and top edges makes the
/// bottom-left quarter eligible and no other quarter. The other corners
/// follow from `lemma_eligibility` in the same way.
pub proof fn lemma_corner_quarter(c: Point, e: int, b: Rect)
    requires
        b.left <= c.x <= b.right && b.top <= c.y <= b.bottom,
        c.x - b.left <= e && b.bottom - c.y <= e,
        b.right - c.x > e && c.y - b.top > e,
    ensures
        eligible(SnapZoneId::BottomLeftQuarter, c, e, b),
        !eligible(SnapZoneId::BottomRightQuarter, c, e, b),
        !eligible(SnapZoneId::TopLeftQuarter, c, e, b),
        !eligible(SnapZoneId::TopRightQuarter, c, e, b),
{
    lemma_eligibility(SnapZoneId::BottomLeftQuarter, c, e, b);
    lemma_eligibility(SnapZoneId::BottomRightQuarter, c, e, b);
    lemma_eligibility(SnapZoneId::TopLeftQuarter, c, e, b);
    lemma_eligibility(SnapZoneId::TopRightQuarter, c, e, b);
}

} // verus!
