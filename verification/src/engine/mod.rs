//! The drag engine: a pure state machine with no platform types.
//!
//! `Engine::handle` takes one input event and returns the actions the adapter
//! carries out; everything it decides is stated by the spec predicate
//! `handled`.

pub mod admission;
pub mod config;
pub mod geometry;
pub mod laws;
pub mod modifiers;
pub mod policy;
pub mod rules;
pub mod snap;
pub mod state;

use vstd::prelude::*;
use crate::engine::config::{CenterMode, EngineConfig, MiddleClickAction};
use crate::engine::geometry::{
    Point, Rect, ResizeAnchor, Sector, apply_resize, can_resize, fits_i32, pick_sector_in_bands, resized,
    sector_in_bands,
};
use crate::engine::modifiers::Modifiers;
use crate::engine::policy::ActivationPolicy;
use crate::engine::snap::{
    Decision, MonitorInfo, MonitorSnapshot, SnapContext, SnapSession, SnapZone, baked_zones, bake_zones,
    bounds_ok, ctx_ok, evaluate, evaluate_ok, preview_consistent, snapshot_ok, step, zones_upto,
    monitor_zones, monitor_zones_upto, opt_zone, guard_pending, distance_ok,
};
use crate::engine::state::{
    Action, DragMode, DragOrigin, DragTarget, Event, SectorBands, State, VirtualKey, WindowId, vk_bit, vk_bits,
};

verus! {

// ---------------------------------------------------------------------------
// Specification of one step
// ---------------------------------------------------------------------------

/// Modifiers after a key goes down or up: its bit is added or removed; keys
/// without a bit change nothing.
pub open spec fn key_mods(m: Modifiers, vk: VirtualKey, down: bool) -> Modifiers {
    let bit = vk_bits(vk);
    if bit == 0 {
        m
    } else if down {
        Modifiers { bits: m.bits | bit }
    } else {
        Modifiers { bits: m.bits & !bit }
    }
}

/// Idle and Armed follow whether the arm matcher matches the modifiers;
/// every other state is left alone (a drag continues when the modifier is
/// released).
pub open spec fn reconciled(st: State, m: Modifiers, policy: ActivationPolicy) -> State {
    match st {
        State::Idle | State::Armed => if policy.arm.spec_matches(m) {
            State::Armed
        } else {
            State::Idle
        },
        _ => st,
    }
}

/// Where a finished drag lands: PassThrough when a fullscreen application
/// took the foreground during the drag, else Idle.
pub open spec fn after_drag(pending_passthrough: bool) -> State {
    if pending_passthrough { State::PassThrough } else { State::Idle }
}

/// Whether a drag start raises the window.
pub open spec fn raises(cfg: EngineConfig, m: Modifiers) -> bool {
    cfg.raise_on_drag || cfg.policy.raise.spec_matches(m)
}

pub open spec fn raise_part(cfg: EngineConfig, m: Modifiers, hwnd: WindowId) -> Seq<Action> {
    if raises(cfg, m) { seq![Action::RaiseWindow { hwnd }] } else { seq![] }
}

/// The engaged zone of an optional session.
pub open spec fn engaged_of(ss: Option<SnapSession>) -> Option<crate::engine::snap::EngagedZone> {
    match ss {
        Some(s) => s.engaged,
        None => None,
    }
}

/// Actions that end a move: hide the preview if a zone is engaged, commit
/// that zone's rect when `commit`, then end the drag and, when
/// `cancel_menu`, cancel menu activation.
pub open spec fn exit_actions(hwnd: WindowId, ss: Option<SnapSession>, commit: bool, cancel_menu: bool) -> Seq<Action> {
    let head = match engaged_of(ss) {
        Some(ez) => if commit {
            seq![Action::HideSnapPreview, Action::ApplySnapRect { hwnd, rect: ez.target_rect }]
        } else {
            seq![Action::HideSnapPreview]
        },
        None => Seq::<Action>::empty(),
    };
    let tail = if cancel_menu {
        seq![Action::EndDrag { hwnd }, Action::CancelMenuActivation]
    } else {
        seq![Action::EndDrag { hwnd }]
    };
    head.add(tail)
}

/// A fresh snap session for a move, or none: there is one exactly when snap
/// is enabled and the target came with a display snapshot. Its context holds
/// that snapshot, the zones baked from it, the configured distances, the grab
/// point and the restore guard; nothing is engaged, and it starts suspended
/// when the no-snap matcher matches.
pub open spec fn session_started(
    ss: Option<SnapSession>,
    cfg: EngineConfig,
    t: DragTarget,
    cursor: Point,
    guard: bool,
    m: Modifiers,
) -> bool {
    if cfg.snap.enabled && t.monitor_snapshot is Some {
        &&& ss matches Some(s)
        &&& s.ctx.monitors == t.monitor_snapshot->0
        &&& s.ctx.zones@ == baked_zones(cfg.snap, t.monitor_snapshot->0)
        &&& s.ctx.engage_px == cfg.snap.engage_px
        &&& s.ctx.disengage_px == cfg.snap.disengage_px
        &&& s.ctx.grab == cursor
        &&& s.ctx.restore_guard_active == guard
        &&& s.engaged is None
        &&& s.last_preview_rect is None
        &&& s.suspended == cfg.policy.no_snap.spec_matches(m)
        &&& !s.restore_guard_cleared
    } else {
        ss is None
    }
}

/// The context handed out with `BeginDrag` is a copy of the session's.
pub open spec fn ctx_copy(snap: Option<SnapContext>, ss: Option<SnapSession>) -> bool {
    match (snap, ss) {
        (None, None) => true,
        (Some(c), Some(s)) => {
            &&& c.monitors.monitors@ == s.ctx.monitors.monitors@
            &&& c.zones@ == s.ctx.zones@
            &&& c.engage_px == s.ctx.engage_px
            &&& c.disengage_px == s.ctx.disengage_px
            &&& c.grab == s.ctx.grab
            &&& c.restore_guard_active == s.ctx.restore_guard_active
        },
        _ => false,
    }
}

/// A move of `t` started at `cursor`: the engine is Moving with the given
/// origin and a fresh session, and the actions are `prefix`, then
/// `BeginDrag` (mode Move, carrying a copy of the session's context), then
/// `SwallowEvent`.
pub open spec fn move_started(
    st2: State,
    acts: Seq<Action>,
    cfg: EngineConfig,
    m: Modifiers,
    t: DragTarget,
    cursor: Point,
    origin: DragOrigin,
    prefix: Seq<Action>,
    guard: bool,
) -> bool {
    &&& st2 matches State::Moving { hwnd, initial_rect, grab, drag_origin, pending_passthrough, snap_session }
    &&& hwnd == t.hwnd
    &&& initial_rect == t.initial_rect
    &&& grab == cursor
    &&& drag_origin == origin
    &&& !pending_passthrough
    &&& session_started(snap_session, cfg, t, cursor, guard, m)
    &&& acts.len() == prefix.len() + 2
    &&& acts.subrange(0, prefix.len() as int) == prefix
    &&& acts[prefix.len() as int] matches Action::BeginDrag { hwnd: h, initial_rect: r, grab: g, mode, snap }
    &&& h == t.hwnd
    &&& r == t.initial_rect
    &&& g == cursor
    &&& mode == DragMode::Move
    &&& ctx_copy(snap, snap_session)
    &&& acts[prefix.len() + 1int] == Action::SwallowEvent
}

/// The resize anchor of a sector; the center sector resizes symmetrically
/// unless the center mode is `BottomRight`, which anchors at the top-left.
pub open spec fn anchor_for(s: Sector, center_mode: CenterMode) -> ResizeAnchor {
    match s {
        Sector::TopLeft => ResizeAnchor::TopLeft,
        Sector::Top => ResizeAnchor::Top,
        Sector::TopRight => ResizeAnchor::TopRight,
        Sector::Left => ResizeAnchor::Left,
        Sector::Center => match center_mode {
            CenterMode::BottomRight => ResizeAnchor::TopLeft,
            _ => ResizeAnchor::CenterSymmetric,
        },
        Sector::Right => ResizeAnchor::Right,
        Sector::BottomLeft => ResizeAnchor::BottomLeft,
        Sector::Bottom => ResizeAnchor::Bottom,
        Sector::BottomRight => ResizeAnchor::BottomRight,
    }
}

/// The cursor offset from the grab point.
pub open spec fn offset(cursor: Point, grab: Point) -> Point {
    Point { x: (cursor.x - grab.x) as i32, y: (cursor.y - grab.y) as i32 }
}

/// Preview actions for a snap decision.
pub open spec fn preview_actions(d: Decision) -> Seq<Action> {
    match d {
        Decision::Engage(ez) => seq![Action::ShowSnapPreview { rect: ez.target_rect }],
        Decision::Disengage => seq![Action::HideSnapPreview],
        _ => seq![],
    }
}

/// Re-evaluates snap suspension after a key change during a move: the
/// session is suspended exactly while the no-snap matcher matches; becoming
/// suspended drops an engaged zone and hides its preview.
pub open spec fn suspend_update(st: State, m: Modifiers, cfg: EngineConfig) -> (State, Seq<Action>) {
    match st {
        State::Moving { hwnd, initial_rect, grab, drag_origin, pending_passthrough, snap_session: Some(s) } => {
            let susp = cfg.policy.no_snap.spec_matches(m);
            if susp && s.engaged is Some {
                (
                    State::Moving {
                        hwnd,
                        initial_rect,
                        grab,
                        drag_origin,
                        pending_passthrough,
                        snap_session: Some(SnapSession { suspended: true, engaged: None, last_preview_rect: None, ..s }),
                    },
                    seq![Action::HideSnapPreview],
                )
            } else {
                (
                    State::Moving {
                        hwnd,
                        initial_rect,
                        grab,
                        drag_origin,
                        pending_passthrough,
                        snap_session: Some(SnapSession { suspended: susp, ..s }),
                    },
                    seq![],
                )
            }
        },
        _ => (st, seq![]),
    }
}

/// The state with its pending-passthrough flag set to `pp` (drags only).
pub open spec fn with_pending(st: State, pp: bool) -> State {
    match st {
        State::Moving { hwnd, initial_rect, grab, drag_origin, pending_passthrough: _, snap_session } =>
            State::Moving { hwnd, initial_rect, grab, drag_origin, pending_passthrough: pp, snap_session },
        State::Resizing { hwnd, initial_rect, grab, anchor, pending_passthrough: _ } =>
            State::Resizing { hwnd, initial_rect, grab, anchor, pending_passthrough: pp },
        _ => st,
    }
}

/// A button press on a usable target while armed.
pub open spec fn usable(st: State, target: Option<DragTarget>) -> bool {
    &&& st is Armed
    &&& target matches Some(t) && !t.exclude
}

/// A left press: while armed, with moving enabled and a usable target, a
/// move starts (restoring a maximized window first when configured, raising
/// it when the policy says so); otherwise nothing happens.
pub open spec fn left_down_spec(st: State, m: Modifiers, cfg: EngineConfig, cursor: Point, target: Option<DragTarget>, st2: State, acts: Seq<Action>) -> bool {
    if usable(st, target) && cfg.enable_move {
        let t = target->0;
        let restore = if t.is_maximized && cfg.restore_maximized_on_move {
            seq![Action::RestoreIfMaximized { hwnd: t.hwnd, cursor }]
        } else {
            seq![]
        };
        move_started(
            st2,
            acts,
            cfg,
            m,
            t,
            cursor,
            DragOrigin::PrimaryButton,
            restore + raise_part(cfg, m, t.hwnd),
            t.is_maximized && cfg.restore_maximized_on_move,
        )
    } else {
        st2 == st && acts == Seq::<Action>::empty()
    }
}

/// A right press: while armed, with resizing enabled and a usable target, a
/// resize starts from the anchor of the cursor's sector (or, in the center
/// sector with the `move` center mode, a move starts); otherwise nothing.
pub open spec fn right_down_spec(st: State, m: Modifiers, cfg: EngineConfig, cursor: Point, target: Option<DragTarget>, bands: SectorBands, st2: State, acts: Seq<Action>) -> bool {
    if usable(st, target) && cfg.enable_resize {
        let t = target->0;
        let sector = sector_in_bands(t.initial_rect, cursor, bands.side_width as int, bands.side_height as int);
        if sector == Sector::Center && cfg.center_mode == CenterMode::Move {
            move_started(st2, acts, cfg, m, t, cursor, DragOrigin::CenterMoveMode, raise_part(cfg, m, t.hwnd), false)
        } else {
            let anchor = anchor_for(sector, cfg.center_mode);
            &&& st2 == State::Resizing {
                hwnd: t.hwnd,
                initial_rect: t.initial_rect,
                grab: cursor,
                anchor,
                pending_passthrough: false,
            }
            &&& acts == raise_part(cfg, m, t.hwnd) + seq![
                Action::BeginDrag {
                    hwnd: t.hwnd,
                    initial_rect: t.initial_rect,
                    grab: cursor,
                    mode: DragMode::Resize { anchor },
                    snap: None,
                },
                Action::SwallowEvent,
            ]
        }
    } else {
        st2 == st && acts == Seq::<Action>::empty()
    }
}

/// A middle press: while armed on a usable target with the toggle-maximize
/// action configured, toggle maximize and swallow the press.
pub open spec fn middle_down_spec(st: State, cfg: EngineConfig, target: Option<DragTarget>, st2: State, acts: Seq<Action>) -> bool {
    &&& st2 == st
    &&& acts == if usable(st, target) && cfg.middle_click_action == MiddleClickAction::ToggleMaximize {
        seq![Action::ToggleMaximize { hwnd: target->0.hwnd }, Action::SwallowEvent]
    } else {
        Seq::<Action>::empty()
    }
}

/// A mouse move: a move translates the initial rect by the cursor offset
/// from the grab point and lets the snap session evaluate the cursor; a
/// resize applies the resize math; otherwise nothing.
pub open spec fn mouse_move_spec(st: State, cursor: Point, st2: State, acts: Seq<Action>) -> bool {
    match st {
        State::Moving { hwnd, initial_rect, grab, drag_origin, pending_passthrough, snap_session } => {
            let upd = Action::UpdateDrag { hwnd, new_rect: initial_rect.translated(offset(cursor, grab)) };
            match snap_session {
                None => st2 == st && acts == seq![upd],
                Some(s) => {
                    let (s2, d) = step(s, cursor);
                    &&& st2 == State::Moving {
                        hwnd,
                        initial_rect,
                        grab,
                        drag_origin,
                        pending_passthrough,
                        snap_session: Some(s2),
                    }
                    &&& acts == seq![upd] + preview_actions(d)
                },
            }
        },
        State::Resizing { hwnd, initial_rect, grab, anchor, .. } => {
            &&& st2 == st
            &&& acts == seq![Action::UpdateDrag { hwnd, new_rect: resized(initial_rect, anchor, offset(cursor, grab)) }]
        },
        _ => st2 == st && acts == Seq::<Action>::empty(),
    }
}

/// Releasing a button ends a drag it started: the left button any move, the
/// right button a resize or a center-sector move. A move commits the engaged
/// zone. The engine then returns to Idle or Armed, or to PassThrough when a
/// fullscreen application took over meanwhile.
pub open spec fn button_up_spec(st: State, m: Modifiers, cfg: EngineConfig, left: bool, st2: State, acts: Seq<Action>) -> bool {
    match st {
        State::Moving { hwnd, pending_passthrough, snap_session, drag_origin, .. } => if left || drag_origin
            == DragOrigin::CenterMoveMode {
            &&& acts == exit_actions(hwnd, snap_session, true, true)
            &&& st2 == reconciled(after_drag(pending_passthrough), m, cfg.policy)
        } else {
            st2 == st && acts == Seq::<Action>::empty()
        },
        State::Resizing { hwnd, pending_passthrough, .. } => if !left {
            &&& acts == seq![Action::EndDrag { hwnd }, Action::CancelMenuActivation]
            &&& st2 == reconciled(after_drag(pending_passthrough), m, cfg.policy)
        } else {
            st2 == st && acts == Seq::<Action>::empty()
        },
        _ => st2 == st && acts == Seq::<Action>::empty(),
    }
}

/// The enable toggle: Disabled turns on (re-arming from the held
/// modifiers); any other state ends its drag and turns off.
pub open spec fn toggle_spec(st: State, m: Modifiers, cfg: EngineConfig, st2: State, acts: Seq<Action>) -> bool {
    match st {
        State::Moving { hwnd, snap_session, .. } => {
            &&& acts == exit_actions(hwnd, snap_session, false, true) + seq![Action::UpdateTrayIcon { enabled: false }]
            &&& st2 == State::Disabled
        },
        State::Disabled => {
            &&& acts == seq![Action::UpdateTrayIcon { enabled: true }]
            &&& st2 == reconciled(State::Idle, m, cfg.policy)
        },
        State::Resizing { hwnd, .. } => {
            &&& acts == seq![Action::EndDrag { hwnd }, Action::CancelMenuActivation, Action::UpdateTrayIcon { enabled: false }]
            &&& st2 == State::Disabled
        },
        _ => {
            &&& acts == seq![Action::UpdateTrayIcon { enabled: false }]
            &&& st2 == State::Disabled
        },
    }
}

/// A fullscreen application took the foreground: Idle and Armed pass
/// through; a drag is never aborted, it only notes to pass through when it
/// ends.
pub open spec fn fullscreen_focused_state(st: State) -> State {
    match st {
        State::Idle | State::Armed => State::PassThrough,
        _ => with_pending(st, true),
    }
}

/// The fullscreen application lost the foreground: PassThrough resumes
/// (re-arming from the held modifiers); a drag forgets the pending pass-through.
pub open spec fn fullscreen_unfocused_state(st: State, m: Modifiers, cfg: EngineConfig) -> State {
    match st {
        State::PassThrough => reconciled(State::Idle, m, cfg.policy),
        _ => with_pending(st, false),
    }
}

/// The adapter gave up on the drag: end it without committing a snap.
pub open spec fn aborted_spec(st: State, m: Modifiers, cfg: EngineConfig, st2: State, acts: Seq<Action>) -> bool {
    match st {
        State::Moving { hwnd, pending_passthrough, snap_session, .. } => {
            &&& acts == exit_actions(hwnd, snap_session, false, false)
            &&& st2 == reconciled(after_drag(pending_passthrough), m, cfg.policy)
        },
        State::Resizing { hwnd, pending_passthrough, .. } => {
            &&& acts == seq![Action::EndDrag { hwnd }]
            &&& st2 == reconciled(after_drag(pending_passthrough), m, cfg.policy)
        },
        _ => st2 == st && acts == Seq::<Action>::empty(),
    }
}

/// Whether an event gets past a Disabled or PassThrough engine.
pub open spec fn gated(st: State, ev: Event) -> bool {
    (st is Disabled || st is PassThrough) && !(ev is ToggleEnable || ev is FullscreenFocused || ev is FullscreenUnfocused)
}

/// What one event does to the engine: the state `st2`, modifiers `m2` and
/// actions `acts` that follow from state `st`, modifiers `m` and config
/// `cfg`. Disabled and PassThrough only track the modifiers, except for the
/// enable toggle and fullscreen changes.
pub open spec fn handled(
    st: State,
    m: Modifiers,
    cfg: EngineConfig,
    ev: Event,
    st2: State,
    m2: Modifiers,
    acts: Seq<Action>,
) -> bool {
    if gated(st, ev) {
        &&& st2 == st
        &&& m2 == (match ev {
            Event::KeyChange { vk, down } => key_mods(m, vk, down),
            _ => m,
        })
        &&& acts == Seq::<Action>::empty()
    } else {
        match ev {
            Event::KeyChange { vk, down } => {
                let mk = key_mods(m, vk, down);
                &&& m2 == mk
                &&& st2 == reconciled(suspend_update(st, mk, cfg).0, mk, cfg.policy)
                &&& acts == suspend_update(st, mk, cfg).1
            },
            Event::LeftDown { cursor, target } => m2 == m && left_down_spec(st, m, cfg, cursor, target, st2, acts),
            Event::RightDown { cursor, target, bands } => m2 == m && right_down_spec(
                st,
                m,
                cfg,
                cursor,
                target,
                bands,
                st2,
                acts,
            ),
            Event::MiddleDown { cursor: _, target } => m2 == m && middle_down_spec(st, cfg, target, st2, acts),
            Event::MouseMove { cursor } => m2 == m && mouse_move_spec(st, cursor, st2, acts),
            Event::LeftUp => m2 == m && button_up_spec(st, m, cfg, true, st2, acts),
            Event::RightUp => m2 == m && button_up_spec(st, m, cfg, false, st2, acts),
            Event::ToggleEnable => m2 == m && toggle_spec(st, m, cfg, st2, acts),
            Event::FullscreenFocused => m2 == m && acts == Seq::<Action>::empty() && st2 == fullscreen_focused_state(st),
            Event::FullscreenUnfocused => m2 == m && acts == Seq::<Action>::empty() && st2
                == fullscreen_unfocused_state(st, m, cfg),
            Event::DragAborted { .. } => m2 == m && aborted_spec(st, m, cfg, st2, acts),
        }
    }
}

/// Replacing the config: turning it on wakes a Disabled engine (re-arming
/// from the held modifiers); turning it off ends any drag and disables;
/// otherwise the state is kept.
pub open spec fn config_set(st: State, m: Modifiers, cfg: EngineConfig, st2: State, acts: Seq<Action>) -> bool {
    let was_enabled = !(st is Disabled);
    if cfg.enabled && !was_enabled {
        &&& st2 == reconciled(State::Idle, m, cfg.policy)
        &&& acts == seq![Action::UpdateTrayIcon { enabled: true }]
    } else if !cfg.enabled && was_enabled {
        &&& st2 == State::Disabled
        &&& acts == (match st {
            State::Moving { hwnd, snap_session, .. } => exit_actions(hwnd, snap_session, false, true),
            State::Resizing { hwnd, .. } => seq![Action::EndDrag { hwnd }, Action::CancelMenuActivation],
            _ => Seq::<Action>::empty(),
        }) + seq![Action::UpdateTrayIcon { enabled: false }]
    } else {
        st2 == st && acts == Seq::<Action>::empty()
    }
}

/// Every monitor's bounds are small enough for the eligibility arithmetic.
pub open spec fn monitors_ok(m: MonitorSnapshot) -> bool {
    forall|i: int| 0 <= i < m.monitors@.len() ==> bounds_ok(#[trigger] m.monitors@[i].bounds)
}

/// A target's display snapshot is small enough to bake zones from.
pub open spec fn target_ok(target: Option<DragTarget>) -> bool {
    target matches Some(t) ==> (t.monitor_snapshot matches Some(m) ==> snapshot_ok(m) && monitors_ok(m))
}

/// What `handle` needs of an event so that its pixel arithmetic stays within
/// `i32`: band edges for a right press, and for a mouse move during a drag
/// the cursor offset, the moved or resized rect and the snap distances.
pub open spec fn event_ok(st: State, ev: Event) -> bool {
    match ev {
        Event::LeftDown { target, .. } => target_ok(target),
        Event::MiddleDown { .. } => true,
        Event::RightDown { cursor: _, target, bands } => {
            &&& target_ok(target)
            &&& target matches Some(t) ==> {
                &&& fits_i32(t.initial_rect.left + bands.side_width)
                &&& fits_i32(t.initial_rect.right - bands.side_width)
                &&& fits_i32(t.initial_rect.top + bands.side_height)
                &&& fits_i32(t.initial_rect.bottom - bands.side_height)
            }
        },
        Event::MouseMove { cursor } => match st {
            State::Moving { initial_rect, grab, snap_session, .. } => {
                &&& fits_i32(cursor.x - grab.x)
                &&& fits_i32(cursor.y - grab.y)
                &&& initial_rect.can_translate(offset(cursor, grab))
                &&& snap_session matches Some(s) ==> {
                    &&& guard_pending(s) ==> cursor.x - grab.x != i32::MIN && cursor.y - grab.y != i32::MIN
                    &&& s.engaged matches Some(ez) ==> distance_ok(ez.target_rect, cursor)
                }
            },
            State::Resizing { initial_rect, grab, anchor, .. } => {
                &&& fits_i32(cursor.x - grab.x)
                &&& fits_i32(cursor.y - grab.y)
                &&& can_resize(initial_rect, anchor, offset(cursor, grab))
            },
            _ => true,
        },
        _ => true,
    }
}

/// Every snap session the engine holds has a usable context and a preview
/// in step with its engagement.
pub open spec fn state_ok(st: State) -> bool {
    st matches State::Moving { snap_session: Some(s), grab, .. } ==> ctx_ok(s.ctx) && preview_consistent(s)
        && s.ctx.grab == grab
}

// ---------------------------------------------------------------------------
// The engine
// ---------------------------------------------------------------------------

/// Reason for leaving `State::Moving`.
#[derive(Debug, Clone, Copy, PartialEq, Eq)]
pub(crate) enum ExitMovingReason {
    /// The button that started the move was released.
    ButtonUp,
    DragAborted,
    DisabledFromToggle,
    DisabledFromReload,
}

pub struct Engine {
    state: State,
    mods: Modifiers,
    config: EngineConfig,
}

impl Engine {
    #[verifier::type_invariant]
    spec fn inv(self) -> bool {
        state_ok(self.state)
    }

    pub closed spec fn view_state(self) -> State {
        self.state
    }

    pub closed spec fn view_mods(self) -> Modifiers {
        self.mods
    }

    pub closed spec fn view_config(self) -> EngineConfig {
        self.config
    }

    /// A new engine is Idle (or Disabled when the config says so) with no
    /// modifiers held.
    pub fn new(config: EngineConfig) -> (e: Self)
        ensures
            e.view_state() == (if config.enabled { State::Idle } else { State::Disabled }),
            e.view_mods().bits == 0,
            e.view_config() == config,
    {
        let state = if config.enabled { State::Idle } else { State::Disabled };
        Engine { state, mods: Modifiers::none(), config }
    }

    pub fn state(&self) -> (r: &State)
        ensures
            *r == self.view_state(),
    {
        &self.state
    }

    pub fn mods(&self) -> (r: Modifiers)
        ensures
            r == self.view_mods(),
    {
        self.mods
    }

    pub fn config(&self) -> (r: &EngineConfig)
        ensures
            *r == self.view_config(),
    {
        &self.config
    }
}

// ---------------------------------------------------------------------------
// Transition helpers
// ---------------------------------------------------------------------------

fn apply_key(m: Modifiers, vk: VirtualKey, down: bool) -> (r: Modifiers)
    ensures
        r == key_mods(m, vk, down),
{
    let bit = vk_bit(vk);
    if bit.is_empty() {
        m
    } else if down {
        m.with(bit)
    } else {
        m.without(bit)
    }
}

fn reconcile(st: State, m: Modifiers, policy: ActivationPolicy) -> (r: State)
    ensures
        r == reconciled(st, m, policy),
{
    let arm = policy.arm.matches(m);
    match st {
        State::Idle | State::Armed => if arm {
            State::Armed
        } else {
            State::Idle
        },
        other => other,
    }
}

fn after_drag_state(pending_passthrough: bool) -> (r: State)
    ensures
        r == after_drag(pending_passthrough),
{
    if pending_passthrough {
        State::PassThrough
    } else {
        State::Idle
    }
}

fn copy_monitors(v: &Vec<MonitorInfo>) -> (r: Vec<MonitorInfo>)
    ensures
        r@ == v@,
{
    let mut r: Vec<MonitorInfo> = Vec::new();
    let mut i: usize = 0;
    while i < v.len()
        invariant
            i <= v@.len(),
            r@ == v@.take(i as int),
        decreases v.len() - i,
    {
        r.push(v[i]);
        i += 1;
        assert(r@ =~= v@.take(i as int));
    }
    assert(v@.take(v@.len() as int) =~= v@);
    r
}

fn copy_zones(v: &Vec<SnapZone>) -> (r: Vec<SnapZone>)
    ensures
        r@ == v@,
{
    let mut r: Vec<SnapZone> = Vec::new();
    let mut i: usize = 0;
    while i < v.len()
        invariant
            i <= v@.len(),
            r@ == v@.take(i as int),
        decreases v.len() - i,
    {
        r.push(v[i]);
        i += 1;
        assert(r@ =~= v@.take(i as int));
    }
    assert(v@.take(v@.len() as int) =~= v@);
    r
}

fn copy_ctx(c: &SnapContext) -> (r: SnapContext)
    ensures
        r.monitors.monitors@ == c.monitors.monitors@,
        r.zones@ == c.zones@,
        r.engage_px == c.engage_px,
        r.disengage_px == c.disengage_px,
        r.grab == c.grab,
        r.restore_guard_active == c.restore_guard_active,
{
    SnapContext {
        monitors: MonitorSnapshot { monitors: copy_monitors(&c.monitors.monitors) },
        zones: copy_zones(&c.zones),
        engage_px: c.engage_px,
        disengage_px: c.disengage_px,
        grab: c.grab,
        restore_guard_active: c.restore_guard_active,
    }
}

/// Appends the actions that end a move (see `exit_actions`).
fn push_exit(acts: &mut Vec<Action>, hwnd: WindowId, ss: &Option<SnapSession>, commit: bool, cancel_menu: bool)
    ensures
        final(acts)@ == old(acts)@ + exit_actions(hwnd, *ss, commit, cancel_menu),
{
    let engaged = match ss {
        Some(s) => s.engaged,
        None => None,
    };
    if let Some(ez) = engaged {
        acts.push(Action::HideSnapPreview);
        if commit {
            acts.push(Action::ApplySnapRect { hwnd, rect: ez.target_rect });
        }
    }
    acts.push(Action::EndDrag { hwnd });
    if cancel_menu {
        acts.push(Action::CancelMenuActivation);
    }
    proof {
        assert(final(acts)@ =~= old(acts)@ + exit_actions(hwnd, *ss, commit, cancel_menu));
    }
}

/// Starts a move of `t`: builds the snap session when snap is on and the
/// target carries a display snapshot, then appends `BeginDrag` and
/// `SwallowEvent` to `acts`.
fn start_move(
    cfg: &EngineConfig,
    m: Modifiers,
    t: DragTarget,
    cursor: Point,
    origin: DragOrigin,
    acts: Vec<Action>,
    guard: bool,
) -> (r: (State, Vec<Action>))
    requires
        target_ok(Some(t)),
    ensures
        move_started(r.0, r.1@, *cfg, m, t, cursor, origin, acts@, guard),
        state_ok(r.0),
{
    let mut acts = acts;
    let ghost prefix = acts@;
    let ghost t0 = t;
    let hwnd = t.hwnd;
    let rect = t.initial_rect;
    let suspended = cfg.policy.no_snap.matches(m);
    let (session, snap) = match t.monitor_snapshot {
        Some(mons) => {
            if cfg.snap.enabled {
                let n_monitors = mons.monitors.len();
                proof {
                    assert(mons.monitors@.len() == n_monitors);
                    crate::engine::snap::lemma_baked_zones_within_work_area(cfg.snap, mons);
                }
                let zones = bake_zones(&cfg.snap, &mons);
                let ctx = SnapContext {
                    monitors: mons,
                    zones,
                    engage_px: cfg.snap.engage_px,
                    disengage_px: cfg.snap.disengage_px,
                    grab: cursor,
                    restore_guard_active: guard,
                };
                let copy = copy_ctx(&ctx);
                let s = SnapSession {
                    ctx,
                    engaged: None,
                    last_preview_rect: None,
                    suspended,
                    restore_guard_cleared: false,
                };
                (Some(s), Some(copy))
            } else {
                (None, None)
            }
        },
        None => (None, None),
    };
    acts.push(Action::BeginDrag { hwnd, initial_rect: rect, grab: cursor, mode: DragMode::Move, snap });
    acts.push(Action::SwallowEvent);
    proof {
        assert(acts@.subrange(0, prefix.len() as int) =~= prefix);
    }
    let st = State::Moving {
        hwnd,
        initial_rect: rect,
        grab: cursor,
        drag_origin: origin,
        pending_passthrough: false,
        snap_session: session,
    };
    (st, acts)
}

fn on_left_down(
    st: State,
    m: Modifiers,
    cfg: &EngineConfig,
    cursor: Point,
    target: Option<DragTarget>,
) -> (r: (State, Vec<Action>))
    requires
        target_ok(target),
        state_ok(st),
    ensures
        left_down_spec(st, m, *cfg, cursor, target, r.0, r.1@),
        state_ok(r.0),
{
    let armed = matches!(st, State::Armed);
    if !armed || !cfg.enable_move {
        return (st, Vec::new());
    }
    let t = match target {
        Some(t) => t,
        None => {
            return (st, Vec::new());
        },
    };
    if t.exclude {
        return (st, Vec::new());
    }
    let mut acts: Vec<Action> = Vec::new();
    let restoring = t.is_maximized && cfg.restore_maximized_on_move;
    if restoring {
        acts.push(Action::RestoreIfMaximized { hwnd: t.hwnd, cursor });
    }
    if cfg.raise_on_drag || cfg.policy.raise.matches(m) {
        acts.push(Action::RaiseWindow { hwnd: t.hwnd });
    }
    proof {
        let restore = if t.is_maximized && cfg.restore_maximized_on_move {
            seq![Action::RestoreIfMaximized { hwnd: t.hwnd, cursor }]
        } else {
            seq![]
        };
        assert(acts@ =~= restore + raise_part(*cfg, m, t.hwnd));
    }
    start_move(cfg, m, t, cursor, DragOrigin::PrimaryButton, acts, restoring)
}

fn sector_to_anchor(s: Sector, center_mode: CenterMode) -> (r: ResizeAnchor)
    ensures
        r == anchor_for(s, center_mode),
{
    match s {
        Sector::TopLeft => ResizeAnchor::TopLeft,
        Sector::Top => ResizeAnchor::Top,
        Sector::TopRight => ResizeAnchor::TopRight,
        Sector::Left => ResizeAnchor::Left,
        Sector::Center => match center_mode {
            CenterMode::BottomRight => ResizeAnchor::TopLeft,
            _ => ResizeAnchor::CenterSymmetric,
        },
        Sector::Right => ResizeAnchor::Right,
        Sector::BottomLeft => ResizeAnchor::BottomLeft,
        Sector::Bottom => ResizeAnchor::Bottom,
        Sector::BottomRight => ResizeAnchor::BottomRight,
    }
}

fn on_right_down(
    st: State,
    m: Modifiers,
    cfg: &EngineConfig,
    cursor: Point,
    target: Option<DragTarget>,
    bands: SectorBands,
) -> (r: (State, Vec<Action>))
    requires
        event_ok(st, Event::RightDown { cursor, target, bands }),
        state_ok(st),
    ensures
        right_down_spec(st, m, *cfg, cursor, target, bands, r.0, r.1@),
        state_ok(r.0),
{
    let armed = matches!(st, State::Armed);
    if !armed || !cfg.enable_resize {
        return (st, Vec::new());
    }
    let t = match target {
        Some(t) => t,
        None => {
            return (st, Vec::new());
        },
    };
    if t.exclude {
        return (st, Vec::new());
    }
    let sector = pick_sector_in_bands(t.initial_rect, cursor, bands.side_width, bands.side_height);
    let mut acts: Vec<Action> = Vec::new();
    if cfg.raise_on_drag || cfg.policy.raise.matches(m) {
        acts.push(Action::RaiseWindow { hwnd: t.hwnd });
    }
    proof {
        assert(acts@ =~= raise_part(*cfg, m, t.hwnd));
    }
    let center_move = match (sector, cfg.center_mode) {
        (Sector::Center, CenterMode::Move) => true,
        _ => false,
    };
    if center_move {
        return start_move(cfg, m, t, cursor, DragOrigin::CenterMoveMode, acts, false);
    }
    let anchor = sector_to_anchor(sector, cfg.center_mode);
    acts.push(Action::BeginDrag {
        hwnd: t.hwnd,
        initial_rect: t.initial_rect,
        grab: cursor,
        mode: DragMode::Resize { anchor },
        snap: None,
    });
    acts.push(Action::SwallowEvent);
    proof {
        assert(acts@ =~= raise_part(*cfg, m, t.hwnd) + seq![
            Action::BeginDrag {
                hwnd: t.hwnd,
                initial_rect: t.initial_rect,
                grab: cursor,
                mode: DragMode::Resize { anchor },
                snap: None,
            },
            Action::SwallowEvent,
        ]);
    }
    let st2 = State::Resizing {
        hwnd: t.hwnd,
        initial_rect: t.initial_rect,
        grab: cursor,
        anchor,
        pending_passthrough: false,
    };
    (st2, acts)
}

fn on_middle_down(st: &State, cfg: &EngineConfig, target: Option<DragTarget>) -> (acts: Vec<Action>)
    ensures
        middle_down_spec(*st, *cfg, target, *st, acts@),
{
    let mut acts: Vec<Action> = Vec::new();
    let armed = matches!(st, State::Armed);
    if !armed {
        return acts;
    }
    let t = match target {
        Some(t) => t,
        None => {
            return acts;
        },
    };
    if t.exclude {
        return acts;
    }
    match cfg.middle_click_action {
        MiddleClickAction::Nothing => {},
        MiddleClickAction::ToggleMaximize => {
            acts.push(Action::ToggleMaximize { hwnd: t.hwnd });
            acts.push(Action::SwallowEvent);
            assert(acts@ =~= seq![Action::ToggleMaximize { hwnd: t.hwnd }, Action::SwallowEvent]);
        },
    }
    acts
}

fn on_mouse_move(st: State, cursor: Point) -> (r: (State, Vec<Action>))
    requires
        event_ok(st, Event::MouseMove { cursor }),
        state_ok(st),
    ensures
        mouse_move_spec(st, cursor, r.0, r.1@),
        state_ok(r.0),
{
    match st {
        State::Moving { hwnd, initial_rect, grab, drag_origin, pending_passthrough, snap_session } => {
            let d = cursor.delta(grab);
            let mut acts: Vec<Action> = Vec::new();
            acts.push(Action::UpdateDrag { hwnd, new_rect: initial_rect.translate_by(d) });
            let new_session = match snap_session {
                Some(s) => {
                    let mut s = s;
                    let ghost s0 = s;
                    proof {
                        crate::engine::snap::lemma_step_laws(s0, cursor);
                    }
                    let dec = evaluate(&mut s, cursor);
                    match dec {
                        Decision::Engage(ez) => acts.push(Action::ShowSnapPreview { rect: ez.target_rect }),
                        Decision::Disengage => acts.push(Action::HideSnapPreview),
                        _ => {},
                    }
                    proof {
                        assert(acts@ =~= seq![Action::UpdateDrag { hwnd, new_rect: initial_rect.translated(offset(cursor, grab)) }]
                            + preview_actions(dec));
                    }
                    Some(s)
                },
                None => None,
            };
            let st2 = State::Moving {
                hwnd,
                initial_rect,
                grab,
                drag_origin,
                pending_passthrough,
                snap_session: new_session,
            };
            (st2, acts)
        },
        State::Resizing { hwnd, initial_rect, grab, anchor, pending_passthrough } => {
            let d = cursor.delta(grab);
            let new_rect = apply_resize(initial_rect, anchor, d);
            let mut acts: Vec<Action> = Vec::new();
            acts.push(Action::UpdateDrag { hwnd, new_rect });
            (State::Resizing { hwnd, initial_rect, grab, anchor, pending_passthrough }, acts)
        },
        other => (other, Vec::new()),
    }
}

fn on_button_up(st: State, m: Modifiers, cfg: &EngineConfig, left: bool) -> (r: (State, Vec<Action>))
    requires
        state_ok(st),
    ensures
        button_up_spec(st, m, *cfg, left, r.0, r.1@),
        state_ok(r.0),
{
    match st {
        State::Moving { hwnd, initial_rect, grab, drag_origin, pending_passthrough, snap_session } => {
            let ends = left || match drag_origin {
                DragOrigin::CenterMoveMode => true,
                DragOrigin::PrimaryButton => false,
            };
            if ends {
                let mut acts: Vec<Action> = Vec::new();
                push_exit(&mut acts, hwnd, &snap_session, true, true);
                assert(acts@ =~= exit_actions(hwnd, snap_session, true, true));
                (reconcile(after_drag_state(pending_passthrough), m, cfg.policy), acts)
            } else {
                (State::Moving { hwnd, initial_rect, grab, drag_origin, pending_passthrough, snap_session }, Vec::new())
            }
        },
        State::Resizing { hwnd, initial_rect, grab, anchor, pending_passthrough } => {
            if !left {
                let mut acts: Vec<Action> = Vec::new();
                acts.push(Action::EndDrag { hwnd });
                acts.push(Action::CancelMenuActivation);
                assert(acts@ =~= seq![Action::EndDrag { hwnd }, Action::CancelMenuActivation]);
                (reconcile(after_drag_state(pending_passthrough), m, cfg.policy), acts)
            } else {
                (State::Resizing { hwnd, initial_rect, grab, anchor, pending_passthrough }, Vec::new())
            }
        },
        other => (other, Vec::new()),
    }
}

fn on_toggle(st: State, m: Modifiers, cfg: &EngineConfig) -> (r: (State, Vec<Action>))
    ensures
        toggle_spec(st, m, *cfg, r.0, r.1@),
        state_ok(r.0),
{
    let mut acts: Vec<Action> = Vec::new();
    match st {
        State::Moving { hwnd, snap_session, .. } => {
            push_exit(&mut acts, hwnd, &snap_session, false, true);
            acts.push(Action::UpdateTrayIcon { enabled: false });
            assert(acts@ =~= exit_actions(hwnd, snap_session, false, true) + seq![Action::UpdateTrayIcon { enabled: false }]);
            (State::Disabled, acts)
        },
        State::Disabled => {
            acts.push(Action::UpdateTrayIcon { enabled: true });
            assert(acts@ =~= seq![Action::UpdateTrayIcon { enabled: true }]);
            (reconcile(State::Idle, m, cfg.policy), acts)
        },
        State::Resizing { hwnd, .. } => {
            acts.push(Action::EndDrag { hwnd });
            acts.push(Action::CancelMenuActivation);
            acts.push(Action::UpdateTrayIcon { enabled: false });
            assert(acts@ =~= seq![Action::EndDrag { hwnd }, Action::CancelMenuActivation, Action::UpdateTrayIcon { enabled: false }]);
            (State::Disabled, acts)
        },
        _ => {
            acts.push(Action::UpdateTrayIcon { enabled: false });
            assert(acts@ =~= seq![Action::UpdateTrayIcon { enabled: false }]);
            (State::Disabled, acts)
        },
    }
}

fn set_pending(st: State, pp: bool) -> (r: State)
    requires
        state_ok(st),
    ensures
        r == with_pending(st, pp),
        state_ok(r),
{
    match st {
        State::Moving { hwnd, initial_rect, grab, drag_origin, pending_passthrough: _, snap_session } =>
            State::Moving { hwnd, initial_rect, grab, drag_origin, pending_passthrough: pp, snap_session },
        State::Resizing { hwnd, initial_rect, grab, anchor, pending_passthrough: _ } =>
            State::Resizing { hwnd, initial_rect, grab, anchor, pending_passthrough: pp },
        other => other,
    }
}

fn on_aborted(st: State, m: Modifiers, cfg: &EngineConfig) -> (r: (State, Vec<Action>))
    requires
        state_ok(st),
    ensures
        aborted_spec(st, m, *cfg, r.0, r.1@),
        state_ok(r.0),
{
    match st {
        State::Moving { hwnd, pending_passthrough, snap_session, .. } => {
            let mut acts: Vec<Action> = Vec::new();
            push_exit(&mut acts, hwnd, &snap_session, false, false);
            assert(acts@ =~= exit_actions(hwnd, snap_session, false, false));
            (reconcile(after_drag_state(pending_passthrough), m, cfg.policy), acts)
        },
        State::Resizing { hwnd, pending_passthrough, .. } => {
            let mut acts: Vec<Action> = Vec::new();
            acts.push(Action::EndDrag { hwnd });
            assert(acts@ =~= seq![Action::EndDrag { hwnd }]);
            (reconcile(after_drag_state(pending_passthrough), m, cfg.policy), acts)
        },
        other => (other, Vec::new()),
    }
}

/// Re-evaluates snap suspension after a key change (see `suspend_update`).
fn on_keys_during_move(st: State, m: Modifiers, cfg: &EngineConfig) -> (r: (State, Vec<Action>))
    requires
        state_ok(st),
    ensures
        (r.0, r.1@) == suspend_update(st, m, *cfg),
        state_ok(r.0),
{
    match st {
        State::Moving { hwnd, initial_rect, grab, drag_origin, pending_passthrough, snap_session: Some(s) } => {
            let mut s = s;
            let ghost s0 = s;
            let susp = cfg.policy.no_snap.matches(m);
            let mut acts: Vec<Action> = Vec::new();
            s.suspended = susp;
            if susp && s.engaged.is_some() {
                s.engaged = None;
                s.last_preview_rect = None;
                acts.push(Action::HideSnapPreview);
                assert(acts@ =~= seq![Action::HideSnapPreview]);
                assert(s == SnapSession { suspended: true, engaged: None, last_preview_rect: None, ..s0 });
            } else {
                assert(acts@ =~= Seq::<Action>::empty());
                assert(s == SnapSession { suspended: susp, ..s0 });
            }
            (State::Moving { hwnd, initial_rect, grab, drag_origin, pending_passthrough, snap_session: Some(s) }, acts)
        },
        other => (other, Vec::new()),
    }
}

impl Engine {
    /// Process one event; return the actions for the adapter to execute, in
    /// order.
    pub fn handle(&mut self, event: Event) -> (actions: Vec<Action>)
        requires
            event_ok(old(self).view_state(), event),
        ensures
            handled(
                old(self).view_state(),
                old(self).view_mods(),
                old(self).view_config(),
                event,
                final(self).view_state(),
                final(self).view_mods(),
                actions@,
            ),
            final(self).view_config() == old(self).view_config(),
    {
        proof {
            use_type_invariant(&*self);
        }
        let ghost ev0 = event;
        let is_gated = matches!(self.state, State::Disabled | State::PassThrough) && !matches!(
            event,
            Event::ToggleEnable | Event::FullscreenFocused | Event::FullscreenUnfocused
        );
        if is_gated {
            if let Event::KeyChange { vk, down } = event {
                self.mods = apply_key(self.mods, vk, down);
            }
            return Vec::new();
        }
        let mut st = State::Idle;
        std::mem::swap(&mut st, &mut self.state);
        let m = self.mods;
        let (st2, m2, acts) = match event {
            Event::KeyChange { vk, down } => {
                let mk = apply_key(m, vk, down);
                let (s1, a) = on_keys_during_move(st, mk, &self.config);
                (reconcile(s1, mk, self.config.policy), mk, a)
            },
            Event::LeftDown { cursor, target } => {
                let (s, a) = on_left_down(st, m, &self.config, cursor, target);
                (s, m, a)
            },
            Event::RightDown { cursor, target, bands } => {
                let (s, a) = on_right_down(st, m, &self.config, cursor, target, bands);
                (s, m, a)
            },
            Event::MiddleDown { cursor: _, target } => {
                let a = on_middle_down(&st, &self.config, target);
                (st, m, a)
            },
            Event::MouseMove { cursor } => {
                let (s, a) = on_mouse_move(st, cursor);
                (s, m, a)
            },
            Event::LeftUp => {
                let (s, a) = on_button_up(st, m, &self.config, true);
                (s, m, a)
            },
            Event::RightUp => {
                let (s, a) = on_button_up(st, m, &self.config, false);
                (s, m, a)
            },
            Event::ToggleEnable => {
                let (s, a) = on_toggle(st, m, &self.config);
                (s, m, a)
            },
            Event::FullscreenFocused => {
                let s = match st {
                    State::Idle | State::Armed => State::PassThrough,
                    other => set_pending(other, true),
                };
                (s, m, Vec::new())
            },
            Event::FullscreenUnfocused => {
                let s = match st {
                    State::PassThrough => reconcile(State::Idle, m, self.config.policy),
                    other => set_pending(other, false),
                };
                (s, m, Vec::new())
            },
            Event::DragAborted { .. } => {
                let (s, a) = on_aborted(st, m, &self.config);
                (s, m, a)
            },
        };
        self.state = st2;
        self.mods = m2;
        acts
    }

    /// Replace the current config (hot reload). The state is kept, except
    /// that a config with `enabled = false` disables the engine (ending any
    /// drag) and one with `enabled = true` wakes a disabled engine.
    pub fn set_config(&mut self, cfg: EngineConfig) -> (actions: Vec<Action>)
        ensures
            config_set(old(self).view_state(), old(self).view_mods(), cfg, final(self).view_state(), actions@),
            final(self).view_config() == cfg,
            final(self).view_mods() == old(self).view_mods(),
    {
        proof {
            use_type_invariant(&*self);
        }
        let mut actions: Vec<Action> = Vec::new();
        let was_enabled = !matches!(self.state, State::Disabled);
        self.config = cfg;
        if self.config.enabled && !was_enabled {
            self.state = reconcile(State::Idle, self.mods, self.config.policy);
            actions.push(Action::UpdateTrayIcon { enabled: true });
            assert(actions@ =~= seq![Action::UpdateTrayIcon { enabled: true }]);
        } else if !self.config.enabled && was_enabled {
            let mut st = State::Disabled;
            std::mem::swap(&mut st, &mut self.state);
            match st {
                State::Moving { hwnd, snap_session, .. } => {
                    push_exit(&mut actions, hwnd, &snap_session, false, true);
                    assert(actions@ =~= exit_actions(hwnd, snap_session, false, true));
                },
                State::Resizing { hwnd, .. } => {
                    actions.push(Action::EndDrag { hwnd });
                    actions.push(Action::CancelMenuActivation);
                    assert(actions@ =~= seq![Action::EndDrag { hwnd }, Action::CancelMenuActivation]);
                },
                _ => {},
            }
            let ghost before = actions@;
            actions.push(Action::UpdateTrayIcon { enabled: false });
            assert(actions@ =~= before + seq![Action::UpdateTrayIcon { enabled: false }]);
        }
        actions
    }
}

} // verus!
