//! Properties of the engine that span its transitions.

use vstd::prelude::*;
use crate::engine::config::EngineConfig;
use crate::engine::modifiers::Modifiers;
use crate::engine::snap::{Decision, SnapSession, step};
use crate::engine::state::{Action, DragMode, Event, State, WindowId};
use crate::engine::geometry::ResizeAnchor;
use crate::engine::config::CenterMode;
use crate::engine::{handled, gated, key_mods, exit_actions, move_started, preview_actions, engaged_of, reconciled};
use crate::adapter::last_drag_boundary;

verus! {

/// Some action of the batch begins a drag of `h`.
pub open spec fn has_begin(acts: Seq<Action>, h: WindowId) -> bool {
    exists|i: int| 0 <= i < acts.len() && (#[trigger] acts[i] matches Action::BeginDrag { hwnd, .. } && hwnd == h)
}

/// No action of the batch begins a drag.
pub open spec fn no_begin(acts: Seq<Action>) -> bool {
    forall|i: int| 0 <= i < acts.len() ==> !(#[trigger] acts[i] is BeginDrag)
}

/// No action of the batch ends a drag.
pub open spec fn no_end(acts: Seq<Action>) -> bool {
    forall|i: int| 0 <= i < acts.len() ==> !(#[trigger] acts[i] is EndDrag)
}

proof fn lemma_exit_ends(h: WindowId, ss: Option<SnapSession>, commit: bool, cancel: bool)
    ensures
        exit_actions(h, ss, commit, cancel).contains(Action::EndDrag { hwnd: h }),
        no_begin(exit_actions(h, ss, commit, cancel)),
{
    let a = exit_actions(h, ss, commit, cancel);
    let k = if engaged_of(ss) is Some { if commit { 2int } else { 1int } } else { 0int };
    assert(a[k] == Action::EndDrag { hwnd: h });
}

proof fn lemma_move_started_begins(
    st2: State,
    acts: Seq<Action>,
    cfg: EngineConfig,
    m: Modifiers,
    t: crate::engine::state::DragTarget,
    cursor: crate::engine::geometry::Point,
    origin: crate::engine::state::DragOrigin,
    prefix: Seq<Action>,
    guard: bool,
)
    requires
        move_started(st2, acts, cfg, m, t, cursor, origin, prefix, guard),
    ensures
        has_begin(acts, st2.drag_hwnd()),
        acts.contains(Action::SwallowEvent),
        no_end(acts) <== no_end(prefix),
{
    assert(acts[prefix.len() as int] is BeginDrag);
    assert(acts[prefix.len() + 1int] == Action::SwallowEvent);
    if no_end(prefix) {
        assert forall|i: int| 0 <= i < acts.len() implies !(#[trigger] acts[i] is EndDrag) by {
            if i < prefix.len() {
                assert(acts[i] == acts.subrange(0, prefix.len() as int)[i]);
            }
        }
    }
}

/// The drag lifecycle: a step that starts a drag emits a `BeginDrag` for the
/// dragged window and swallows the press; a step that ends a drag emits an
/// `EndDrag` for it; a drag that goes on keeps its window and emits neither.
/// So the adapter's mouse capture is taken and released exactly once per
/// drag.
pub proof fn lemma_drag_lifecycle(
    st: State,
    m: Modifiers,
    cfg: EngineConfig,
    ev: Event,
    st2: State,
    m2: Modifiers,
    acts: Seq<Action>,
)
    requires
        handled(st, m, cfg, ev, st2, m2, acts),
    ensures
        !st.is_dragging() && st2.is_dragging() ==> has_begin(acts, st2.drag_hwnd()) && acts.contains(
            Action::SwallowEvent,
        ),
        st.is_dragging() && !st2.is_dragging() ==> acts.contains(Action::EndDrag { hwnd: st.drag_hwnd() }),
        st.is_dragging() && st2.is_dragging() ==> st2.drag_hwnd() == st.drag_hwnd() && no_begin(acts) && no_end(acts),
{
    if !gated(st, ev) {
        match ev {
            Event::LeftDown { cursor, target } => {
                if st2.is_dragging() && !st.is_dragging() {
                    let t = target->0;
                    let restore = if t.is_maximized && cfg.restore_maximized_on_move {
                        seq![Action::RestoreIfMaximized { hwnd: t.hwnd, cursor }]
                    } else {
                        seq![]
                    };
                    lemma_move_started_begins(
                        st2,
                        acts,
                        cfg,
                        m,
                        t,
                        cursor,
                        crate::engine::state::DragOrigin::PrimaryButton,
                        restore + crate::engine::raise_part(cfg, m, t.hwnd),
                        t.is_maximized && cfg.restore_maximized_on_move,
                    );
                }
            },
            Event::RightDown { cursor, target, bands } => {
                if st2.is_dragging() && !st.is_dragging() {
                    let t = target->0;
                    let sector = crate::engine::geometry::sector_in_bands(
                        t.initial_rect,
                        cursor,
                        bands.side_width as int,
                        bands.side_height as int,
                    );
                    if sector == crate::engine::geometry::Sector::Center && cfg.center_mode
                        == crate::engine::config::CenterMode::Move {
                        lemma_move_started_begins(
                            st2,
                            acts,
                            cfg,
                            m,
                            t,
                            cursor,
                            crate::engine::state::DragOrigin::CenterMoveMode,
                            crate::engine::raise_part(cfg, m, t.hwnd),
                            false,
                        );
                    } else {
                        let k = crate::engine::raise_part(cfg, m, t.hwnd).len() as int;
                        assert(acts[k] is BeginDrag);
                        assert(acts[k + 1] == Action::SwallowEvent);
                    }
                }
            },
            Event::LeftUp | Event::RightUp | Event::DragAborted { .. } => {
                match st {
                    State::Moving { hwnd, snap_session, .. } => {
                        lemma_exit_ends(hwnd, snap_session, true, true);
                        lemma_exit_ends(hwnd, snap_session, false, false);
                    },
                    State::Resizing { hwnd, .. } => {
                        if !st2.is_dragging() {
                            assert(acts[0] == Action::EndDrag { hwnd });
                        }
                    },
                    _ => {},
                }
            },
            Event::ToggleEnable => {
                match st {
                    State::Moving { hwnd, snap_session, .. } => {
                        lemma_exit_ends(hwnd, snap_session, false, true);
                        let e = exit_actions(hwnd, snap_session, false, true);
                        assert(acts.subrange(0, e.len() as int) =~= e);
                        let k = choose|k: int| 0 <= k < e.len() && e[k] == Action::EndDrag { hwnd };
                        assert(acts[k] == e[k]);
                    },
                    State::Resizing { hwnd, .. } => {
                        assert(acts[0] == Action::EndDrag { hwnd });
                    },
                    _ => {},
                }
            },
            Event::MouseMove { cursor } => {
                match st {
                    State::Moving { snap_session: Some(s), .. } => {
                        let d = step(s, cursor).1;
                        assert forall|i: int| 0 <= i < acts.len() implies !(#[trigger] acts[i] is BeginDrag)
                            && !(acts[i] is EndDrag) by {
                            if i > 0 {
                                assert(acts[i] == preview_actions(d)[i - 1]);
                            }
                        }
                    },
                    _ => {},
                }
            },
            _ => {},
        }
    }
}

/// Pass-through safety: while Disabled or passing through, mouse presses,
/// releases and moves do nothing at all.
pub proof fn lemma_inactive_ignores_mouse(
    st: State,
    m: Modifiers,
    cfg: EngineConfig,
    ev: Event,
    st2: State,
    m2: Modifiers,
    acts: Seq<Action>,
)
    requires
        handled(st, m, cfg, ev, st2, m2, acts),
        st is Disabled || st is PassThrough,
        ev is LeftDown || ev is LeftUp || ev is RightDown || ev is RightUp || ev is MiddleDown || ev is MouseMove,
    ensures
        st2 == st,
        m2 == m,
        acts.len() == 0,
{
}

/// A fullscreen application taking the foreground never aborts a drag: the
/// drag goes on with the same window and only notes to pass through when it
/// ends; nothing is emitted.
pub proof fn lemma_fullscreen_keeps_drag(
    st: State,
    m: Modifiers,
    cfg: EngineConfig,
    st2: State,
    m2: Modifiers,
    acts: Seq<Action>,
)
    requires
        handled(st, m, cfg, Event::FullscreenFocused, st2, m2, acts),
        st.is_dragging(),
    ensures
        st2.is_dragging(),
        st2.drag_hwnd() == st.drag_hwnd(),
        st2 matches State::Moving { pending_passthrough, .. } ==> pending_passthrough,
        st2 matches State::Resizing { pending_passthrough, .. } ==> pending_passthrough,
        acts.len() == 0,
{
}

/// The modifiers are tracked in every state: a key change always adds or
/// removes the key's bit, whatever the engine is doing; other events leave
/// them alone.
pub proof fn lemma_modifiers_tracked(
    st: State,
    m: Modifiers,
    cfg: EngineConfig,
    ev: Event,
    st2: State,
    m2: Modifiers,
    acts: Seq<Action>,
)
    requires
        handled(st, m, cfg, ev, st2, m2, acts),
    ensures
        ev matches Event::KeyChange { vk, down } ==> m2 == key_mods(m, vk, down),
        !(ev is KeyChange) ==> m2 == m,
{
}

/// Releasing the modifier during a drag does not end it; between drags,
/// Idle and Armed follow the arm matcher on every key change.
pub proof fn lemma_key_change_arms(
    st: State,
    m: Modifiers,
    cfg: EngineConfig,
    ev: Event,
    st2: State,
    m2: Modifiers,
    acts: Seq<Action>,
)
    requires
        handled(st, m, cfg, ev, st2, m2, acts),
        ev is KeyChange,
    ensures
        st.is_dragging() ==> st2.is_dragging() && st2.drag_hwnd() == st.drag_hwnd(),
        (st is Idle || st is Armed) ==> (st2 is Armed <==> cfg.policy.arm.spec_matches(m2)) && (st2 is Idle
            <==> !cfg.policy.arm.spec_matches(m2)),
        !st.is_dragging() ==> acts.len() == 0,
{
}

/// Whether the snap preview is showing: a move whose session has an
/// engaged zone.
pub open spec fn shown_preview(st: State) -> Option<crate::engine::geometry::Rect> {
    match st {
        State::Moving { snap_session: Some(s), .. } => match s.engaged {
            Some(ez) => Some(ez.target_rect),
            None => None,
        },
        _ => None,
    }
}

/// The overlay follows the engagement: whenever a step drops the engaged
/// zone it emits `HideSnapPreview`, and whenever it engages a new zone it
/// emits `ShowSnapPreview` for that zone's rect.
pub proof fn lemma_preview_follows_engagement(
    st: State,
    m: Modifiers,
    cfg: EngineConfig,
    ev: Event,
    st2: State,
    m2: Modifiers,
    acts: Seq<Action>,
)
    requires
        handled(st, m, cfg, ev, st2, m2, acts),
    ensures
        shown_preview(st) is Some && shown_preview(st2) is None ==> acts.contains(Action::HideSnapPreview),
        shown_preview(st2) is Some && shown_preview(st) != shown_preview(st2) ==> acts.contains(
            Action::ShowSnapPreview { rect: shown_preview(st2)->0 },
        ),
{
    if !gated(st, ev) {
        match st {
            State::Moving { hwnd, snap_session, .. } => {
                match ev {
                    Event::MouseMove { cursor } => {
                        if let Some(s) = snap_session {
                            crate::engine::snap::lemma_step_laws(s, cursor);
                            let d = step(s, cursor).1;
                            if d is Engage || d is Disengage {
                                assert(acts[1] == preview_actions(d)[0]);
                            }
                        }
                    },
                    Event::KeyChange { .. } => {
                        if shown_preview(st) is Some && shown_preview(st2) is None {
                            assert(acts[0] == Action::HideSnapPreview);
                        }
                    },
                    Event::LeftUp | Event::RightUp | Event::DragAborted { .. } | Event::ToggleEnable => {
                        if shown_preview(st) is Some && shown_preview(st2) is None {
                            assert(acts[0] == Action::HideSnapPreview);
                        }
                    },
                    _ => {},
                }
            },
            _ => {},
        }
    }
}

proof fn lemma_exit_no_update(h: WindowId, ss: Option<SnapSession>, commit: bool, cancel: bool)
    ensures
        forall|k: int| 0 <= k < exit_actions(h, ss, commit, cancel).len() ==> !(#[trigger] exit_actions(
            h,
            ss,
            commit,
            cancel,
        )[k] is UpdateDrag) && (!commit ==> !(exit_actions(h, ss, commit, cancel)[k] is ApplySnapRect)),
{
}

/// The actions of a started move hold neither a geometry update nor a snap
/// commit.
proof fn lemma_move_started_shape(
    st2: State,
    acts: Seq<Action>,
    cfg: EngineConfig,
    m: Modifiers,
    t: crate::engine::state::DragTarget,
    cursor: crate::engine::geometry::Point,
    origin: crate::engine::state::DragOrigin,
    prefix: Seq<Action>,
    guard: bool,
)
    requires
        move_started(st2, acts, cfg, m, t, cursor, origin, prefix, guard),
        forall|k: int| 0 <= k < prefix.len() ==> (#[trigger] prefix[k] is RaiseWindow || prefix[k] is RestoreIfMaximized),
    ensures
        forall|k: int| 0 <= k < acts.len() ==> !(#[trigger] acts[k] is UpdateDrag) && !(acts[k] is ApplySnapRect),
{
    assert forall|k: int| 0 <= k < acts.len() implies !(#[trigger] acts[k] is UpdateDrag) && !(acts[k] is ApplySnapRect) by {
        if k < prefix.len() {
            assert(acts[k] == acts.subrange(0, prefix.len() as int)[k]);
        }
    }
}

/// A committed snap is the last geometry change of its batch: no
/// `UpdateDrag` follows an `ApplySnapRect` in the actions of one step.
pub proof fn lemma_apply_snap_is_terminal(
    st: State,
    m: Modifiers,
    cfg: EngineConfig,
    ev: Event,
    st2: State,
    m2: Modifiers,
    acts: Seq<Action>,
)
    requires
        handled(st, m, cfg, ev, st2, m2, acts),
    ensures
        forall|i: int, j: int| 0 <= i < j < acts.len() && #[trigger] acts[i] is ApplySnapRect ==> !(
        #[trigger] acts[j] is UpdateDrag),
{
    if !gated(st, ev) {
        match ev {
            Event::MouseMove { cursor } => {
                match st {
                    State::Moving { snap_session: Some(s), .. } => {
                        let d = step(s, cursor).1;
                        assert forall|i: int| 0 <= i < acts.len() implies !(#[trigger] acts[i] is ApplySnapRect) by {
                            if i > 0 {
                                assert(acts[i] == preview_actions(d)[i - 1]);
                            }
                        }
                    },
                    _ => {},
                }
            },
            Event::LeftDown { cursor, target } => {
                if acts.len() > 0 {
                    let t = target->0;
                    let restore = if t.is_maximized && cfg.restore_maximized_on_move {
                        seq![Action::RestoreIfMaximized { hwnd: t.hwnd, cursor }]
                    } else {
                        seq![]
                    };
                    let prefix = restore + crate::engine::raise_part(cfg, m, t.hwnd);
                    assert forall|k: int| 0 <= k < prefix.len() implies (#[trigger] prefix[k] is RaiseWindow
                        || prefix[k] is RestoreIfMaximized) by {
                        if k < restore.len() {
                            assert(prefix[k] == restore[k]);
                        } else {
                            assert(prefix[k] == crate::engine::raise_part(cfg, m, t.hwnd)[k - restore.len()]);
                        }
                    }
                    lemma_move_started_shape(
                        st2,
                        acts,
                        cfg,
                        m,
                        t,
                        cursor,
                        crate::engine::state::DragOrigin::PrimaryButton,
                        prefix,
                        t.is_maximized && cfg.restore_maximized_on_move,
                    );
                }
            },
            Event::RightDown { cursor, target, bands } => {
                if acts.len() > 0 {
                    let t = target->0;
                    let prefix = crate::engine::raise_part(cfg, m, t.hwnd);
                    let sector = crate::engine::geometry::sector_in_bands(
                        t.initial_rect,
                        cursor,
                        bands.side_width as int,
                        bands.side_height as int,
                    );
                    if sector == crate::engine::geometry::Sector::Center && cfg.center_mode
                        == crate::engine::config::CenterMode::Move {
                        lemma_move_started_shape(
                            st2,
                            acts,
                            cfg,
                            m,
                            t,
                            cursor,
                            crate::engine::state::DragOrigin::CenterMoveMode,
                            prefix,
                            false,
                        );
                    } else {
                        assert forall|k: int| 0 <= k < acts.len() implies !(#[trigger] acts[k] is ApplySnapRect) by {
                            if k < prefix.len() {
                                assert(acts[k] == prefix[k]);
                            }
                        }
                    }
                }
            },
            Event::LeftUp | Event::RightUp | Event::DragAborted { .. } => {
                match st {
                    State::Moving { hwnd, snap_session, .. } => {
                        lemma_exit_no_update(hwnd, snap_session, true, true);
                        lemma_exit_no_update(hwnd, snap_session, false, false);
                    },
                    _ => {},
                }
            },
            Event::ToggleEnable => {
                match st {
                    State::Moving { hwnd, snap_session, .. } => {
                        lemma_exit_no_update(hwnd, snap_session, false, true);
                        let e = exit_actions(hwnd, snap_session, false, true);
                        assert forall|k: int| 0 <= k < acts.len() implies !(#[trigger] acts[k] is ApplySnapRect) by {
                            if k < e.len() {
                                assert(acts[k] == e[k]);
                            }
                        }
                    },
                    _ => {},
                }
            },
            _ => {},
        }
    }
}


/// The tray toggle: `ToggleEnable` disables a running engine (ending any
/// drag) and re-enables a disabled one, and its last action always reports
/// the new state to the tray icon. Toggling twice from Idle or Armed, with
/// that state in agreement with the held modifiers, comes back to the same
/// state.
pub proof fn lemma_toggle_flips(
    st: State,
    m: Modifiers,
    cfg: EngineConfig,
    st2: State,
    m2: Modifiers,
    acts: Seq<Action>,
    st3: State,
    m3: Modifiers,
    acts2: Seq<Action>,
)
    requires
        handled(st, m, cfg, Event::ToggleEnable, st2, m2, acts),
        handled(st2, m2, cfg, Event::ToggleEnable, st3, m3, acts2),
    ensures
        m2 == m && m3 == m,
        st2 is Disabled <==> !(st is Disabled),
        acts.len() > 0 && acts.last() == (Action::UpdateTrayIcon { enabled: !(st2 is Disabled) }),
        st is Disabled ==> st2 == reconciled(State::Idle, m, cfg.policy),
        st.is_dragging() ==> acts.contains(Action::EndDrag { hwnd: st.drag_hwnd() }),
        (st is Idle || st is Armed) && st == reconciled(State::Idle, m, cfg.policy) ==> st3 == st,
{
    match st {
        State::Moving { hwnd, snap_session, .. } => {
            lemma_exit_ends(hwnd, snap_session, false, true);
            let e = exit_actions(hwnd, snap_session, false, true);
            let i = choose|i: int| 0 <= i < e.len() && e[i] == (Action::EndDrag { hwnd });
            assert(acts[i] == e[i]);
        },
        State::Resizing { hwnd, .. } => {
            assert(acts[0] == Action::EndDrag { hwnd });
        },
        _ => {},
    }
}


/// The target a button press carries, if any.
pub open spec fn press_target(ev: Event) -> Option<crate::engine::state::DragTarget> {
    match ev {
        Event::LeftDown { target, .. } => target,
        Event::RightDown { target, .. } => target,
        Event::MiddleDown { target, .. } => target,
        _ => None,
    }
}

/// Excluded windows are left alone: a button press on a target that the
/// window rules exclude changes no state and emits nothing, so it is
/// neither dragged, resized, maximized nor swallowed.
pub proof fn lemma_excluded_target_untouched(
    st: State,
    m: Modifiers,
    cfg: EngineConfig,
    ev: Event,
    st2: State,
    m2: Modifiers,
    acts: Seq<Action>,
)
    requires
        handled(st, m, cfg, ev, st2, m2, acts),
        press_target(ev) matches Some(t) && t.exclude,
    ensures
        st2 == st,
        m2 == m,
        acts.len() == 0,
{
}


proof fn lemma_boundary_none(a: Seq<Action>)
    requires
        no_begin(a),
        no_end(a),
    ensures
        last_drag_boundary(a) is None,
    decreases a.len(),
{
    if a.len() > 0 {
        assert(!(a[a.len() - 1] is BeginDrag) && !(a[a.len() - 1] is EndDrag));
        let b = a.drop_last();
        assert forall|i: int| 0 <= i < b.len() implies !(#[trigger] b[i] is BeginDrag) && !(b[i] is EndDrag) by {
            assert(b[i] == a[i]);
        }
        lemma_boundary_none(b);
    }
}

proof fn lemma_boundary_concat(a: Seq<Action>, b: Seq<Action>)
    ensures
        last_drag_boundary(a + b) == (if last_drag_boundary(b) is Some {
            last_drag_boundary(b)
        } else {
            last_drag_boundary(a)
        }),
    decreases b.len(),
{
    if b.len() == 0 {
        assert(a + b =~= a);
    } else {
        assert((a + b).drop_last() =~= a + b.drop_last());
        assert((a + b).last() == b.last());
        lemma_boundary_concat(a, b.drop_last());
    }
}

proof fn lemma_exit_boundary(h: WindowId, ss: Option<SnapSession>, commit: bool, cancel: bool)
    ensures
        last_drag_boundary(exit_actions(h, ss, commit, cancel)) == Some(false),
{
    let head = match engaged_of(ss) {
        Some(ez) => if commit {
            seq![Action::HideSnapPreview, Action::ApplySnapRect { hwnd: h, rect: ez.target_rect }]
        } else {
            seq![Action::HideSnapPreview]
        },
        None => Seq::<Action>::empty(),
    };
    let tail = if cancel {
        seq![Action::EndDrag { hwnd: h }, Action::CancelMenuActivation]
    } else {
        seq![Action::EndDrag { hwnd: h }]
    };
    assert(exit_actions(h, ss, commit, cancel) == head + tail);
    lemma_boundary_concat(head, tail);
    let end = seq![Action::EndDrag { hwnd: h }];
    assert(last_drag_boundary(end) == Some(false));
    if cancel {
        assert(tail.drop_last() =~= end);
        assert(last_drag_boundary(tail) == last_drag_boundary(end));
    } else {
        assert(tail =~= end);
    }
}

proof fn lemma_start_boundary(acts: Seq<Action>, k: int)
    requires
        0 <= k,
        acts.len() == k + 2,
        acts[k] is BeginDrag,
        acts[k + 1] == Action::SwallowEvent,
    ensures
        last_drag_boundary(acts) == Some(true),
{
    assert(acts.drop_last().last() == acts[k]);
    assert(last_drag_boundary(acts.drop_last()) == Some(true));
}

/// No action of `a` from index `k` on begins or ends a drag.
spec fn boundary_free_from(a: Seq<Action>, k: int) -> bool {
    forall|j: int| k <= j < a.len() ==> !(#[trigger] a[j] is BeginDrag) && !(a[j] is EndDrag)
}

proof fn lemma_boundary_at(a: Seq<Action>, k: int)
    requires
        0 <= k < a.len(),
        a[k] is BeginDrag || a[k] is EndDrag,
        boundary_free_from(a, k + 1),
    ensures
        last_drag_boundary(a) == Some(a[k] is BeginDrag),
    decreases a.len(),
{
    if k < a.len() - 1 {
        let b = a.drop_last();
        assert(!(a[a.len() - 1] is BeginDrag) && !(a[a.len() - 1] is EndDrag));
        assert forall|j: int| k + 1 <= j < b.len() implies !(#[trigger] b[j] is BeginDrag) && !(b[j] is EndDrag) by {
            assert(b[j] == a[j]);
        }
        assert(b[k] == a[k]);
        lemma_boundary_at(b, k);
    }
}

proof fn lemma_boundary_free(a: Seq<Action>)
    requires
        boundary_free_from(a, 0),
    ensures
        last_drag_boundary(a) is None,
{
    lemma_boundary_none(a);
}

/// The adapter's drag tracker follows the engine: if before a step it said
/// "dragging" exactly when the engine was dragging, then after noting the
/// step's actions (their last `BeginDrag` or `EndDrag`, if any) it says so
/// exactly when the engine is dragging.
pub proof fn lemma_tracker_follows_engine(
    st: State,
    m: Modifiers,
    cfg: EngineConfig,
    ev: Event,
    st2: State,
    m2: Modifiers,
    acts: Seq<Action>,
)
    requires
        handled(st, m, cfg, ev, st2, m2, acts),
    ensures
        (match last_drag_boundary(acts) {
            Some(d) => d,
            None => st.is_dragging(),
        }) == st2.is_dragging(),
{
    lemma_drag_lifecycle(st, m, cfg, ev, st2, m2, acts);
    if st.is_dragging() && st2.is_dragging() {
        lemma_boundary_none(acts);
    } else if gated(st, ev) {
    } else {
        match ev {
            Event::LeftDown { cursor, target } => {
                if st2.is_dragging() {
                    let t = target->0;
                    let restore = if t.is_maximized && cfg.restore_maximized_on_move {
                        seq![Action::RestoreIfMaximized { hwnd: t.hwnd, cursor }]
                    } else {
                        seq![]
                    };
                    lemma_start_boundary(acts, (restore + crate::engine::raise_part(cfg, m, t.hwnd)).len() as int);
                }
            },
            Event::RightDown { cursor, target, bands } => {
                if st2.is_dragging() {
                    let t = target->0;
                    lemma_start_boundary(acts, crate::engine::raise_part(cfg, m, t.hwnd).len() as int);
                }
            },
            Event::ToggleEnable => {
                match st {
                    State::Moving { hwnd, snap_session, .. } => {
                        lemma_exit_boundary(hwnd, snap_session, false, true);
                        lemma_boundary_concat(
                            exit_actions(hwnd, snap_session, false, true),
                            seq![Action::UpdateTrayIcon { enabled: false }],
                        );
                        lemma_boundary_free(seq![Action::UpdateTrayIcon { enabled: false }]);
                    },
                    State::Resizing { hwnd, .. } => {
                        lemma_boundary_at(acts, 0);
                    },
                    _ => {
                        lemma_boundary_free(acts);
                    },
                }
            },
            Event::LeftUp | Event::RightUp | Event::DragAborted { .. } => {
                match st {
                    State::Moving { hwnd, snap_session, .. } => {
                        lemma_exit_boundary(hwnd, snap_session, true, true);
                        lemma_exit_boundary(hwnd, snap_session, false, false);
                    },
                    State::Resizing { hwnd, .. } => {
                        if acts.len() > 0 {
                            lemma_boundary_at(acts, 0);
                        }
                    },
                    _ => {},
                }
            },
            _ => {
                lemma_boundary_free(acts);
            },
        }
    }
}


/// A right-button resize takes its anchor from the cursor's place in the
/// target's 3x3 grid (outer bands `side_width` wide at the left and right,
/// `side_height` high at the top and bottom): the edges that follow the
/// cursor are those on the cursor's side of the window. Left of the left
/// band edge the left edge moves, at or right of the right band edge the
/// right edge, above the top band edge the top edge, at or below the bottom
/// band edge the bottom edge; in the middle cell the resize is symmetric,
/// or anchored at the top-left corner in the `bottom_right` center mode.
/// The `BeginDrag` of the step names the same anchor. (A press during a
/// drag changes nothing and is left out.)
pub proof fn lemma_resize_anchor_follows_cursor(
    st: State,
    m: Modifiers,
    cfg: EngineConfig,
    cursor: crate::engine::geometry::Point,
    t: crate::engine::state::DragTarget,
    bands: crate::engine::state::SectorBands,
    st2: State,
    m2: Modifiers,
    acts: Seq<Action>,
)
    requires
        handled(st, m, cfg, Event::RightDown { cursor, target: Some(t), bands }, st2, m2, acts),
        !st.is_dragging(),
        st2 is Resizing,
    ensures
        ({
            let r = t.initial_rect;
            let left = cursor.x < r.left + bands.side_width;
            let right = !left && cursor.x >= r.right - bands.side_width;
            let top = cursor.y < r.top + bands.side_height;
            let bottom = !top && cursor.y >= r.bottom - bands.side_height;
            let mid_x = !left && !right;
            let mid_y = !top && !bottom;
            let anchor = st2->Resizing_anchor;
            &&& top && left ==> anchor == ResizeAnchor::TopLeft
            &&& top && mid_x ==> anchor == ResizeAnchor::Top
            &&& top && right ==> anchor == ResizeAnchor::TopRight
            &&& mid_y && left ==> anchor == ResizeAnchor::Left
            &&& mid_y && right ==> anchor == ResizeAnchor::Right
            &&& bottom && left ==> anchor == ResizeAnchor::BottomLeft
            &&& bottom && mid_x ==> anchor == ResizeAnchor::Bottom
            &&& bottom && right ==> anchor == ResizeAnchor::BottomRight
            &&& mid_y && mid_x ==> anchor == (if cfg.center_mode == CenterMode::BottomRight {
                ResizeAnchor::TopLeft
            } else {
                ResizeAnchor::CenterSymmetric
            })
            &&& exists|i: int|
                0 <= i < acts.len() && #[trigger] acts[i] == (Action::BeginDrag {
                    hwnd: t.hwnd,
                    initial_rect: r,
                    grab: cursor,
                    mode: DragMode::Resize { anchor },
                    snap: None,
                })
        }),
{
    let k = crate::engine::raise_part(cfg, m, t.hwnd).len() as int;
    assert(acts[k] is BeginDrag);
}

} // verus!
