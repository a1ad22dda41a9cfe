//! Finite-state machine types: State, Event, Action.

use vstd::prelude::*;
use crate::engine::geometry::{Point, Rect, ResizeAnchor};
use crate::engine::modifiers::Modifiers;
use crate::engine::snap::{MonitorSnapshot, SnapContext, SnapSession};

verus! {

/// Opaque wrapper over the adapter's window handle. The engine is handle-agnostic.
#[derive(Debug, Clone, Copy, PartialEq, Eq, Hash, Structural)]
pub struct WindowId(pub u64);

#[derive(Debug, Clone, Copy, PartialEq, Eq, Structural)]
pub enum VirtualKey {
    Alt,
    Ctrl,
    Shift,
    Win,
    Space,
    Other(u16),
}

/// Which button press started a move.
#[derive(Debug, Clone, Copy, PartialEq, Eq, Structural)]
pub enum DragOrigin {
    /// Modifier + left button.
    PrimaryButton,
    /// Modifier + right button in the center sector with the `move` center mode.
    CenterMoveMode,
}

/// Why the adapter gave up on a drag.
#[derive(Debug, Clone, Copy, PartialEq, Eq, Structural)]
pub enum DragAbortReason {
    /// Moving or resizing the window failed hard.
    ApplyGeometryFailed,
    /// The target window went away.
    TargetGone,
}

#[derive(Debug, Clone, PartialEq, Eq)]
pub enum State {
    Disabled,
    Idle,
    Armed,
    Moving {
        hwnd: WindowId,
        initial_rect: Rect,
        grab: Point,
        drag_origin: DragOrigin,
        pending_passthrough: bool,
        snap_session: Option<SnapSession>,
    },
    Resizing {
        hwnd: WindowId,
        initial_rect: Rect,
        grab: Point,
        anchor: ResizeAnchor,
        pending_passthrough: bool,
    },
    PassThrough,
}

/// The target window the adapter attaches to button-down events.
#[derive(Debug, Clone)]
pub struct DragTarget {
    pub hwnd: WindowId,
    pub initial_rect: Rect,
    pub is_maximized: bool,
    /// Precomputed by the adapter from the rule engine.
    pub exclude: bool,
    /// The display layout at the press, when the adapter has one.
    pub monitor_snapshot: Option<MonitorSnapshot>,
}

/// Widths of the outer bands of a target's 3x3 resize grid: `side_width`
/// pixels at the left and right, `side_height` at the top and bottom. The
/// adapter derives them from the configured center fraction.
#[derive(Debug, Clone, Copy, PartialEq, Eq, Structural)]
pub struct SectorBands {
    pub side_width: i32,
    pub side_height: i32,
}

#[derive(Debug, Clone)]
pub enum Event {
    KeyChange { vk: VirtualKey, down: bool },
    LeftDown { cursor: Point, target: Option<DragTarget> },
    LeftUp,
    RightDown { cursor: Point, target: Option<DragTarget>, bands: SectorBands },
    RightUp,
    MiddleDown { cursor: Point, target: Option<DragTarget> },
    MouseMove { cursor: Point },
    FullscreenFocused,
    FullscreenUnfocused,
    ToggleEnable,
    DragAborted { reason: DragAbortReason },
}

#[derive(Debug, Clone, Copy, PartialEq, Eq, Structural)]
pub enum DragMode {
    Move,
    Resize { anchor: ResizeAnchor },
}

#[derive(Debug, Clone, PartialEq, Eq)]
pub enum Action {
    BeginDrag { hwnd: WindowId, initial_rect: Rect, grab: Point, mode: DragMode, snap: Option<SnapContext> },
    UpdateDrag { hwnd: WindowId, new_rect: Rect },
    EndDrag { hwnd: WindowId },
    /// Restore the window before the drag; the adapter keeps the cursor over it.
    RestoreIfMaximized { hwnd: WindowId, cursor: Point },
    RaiseWindow { hwnd: WindowId },
    /// Kill Alt-triggered menu-bar activation.
    CancelMenuActivation,
    /// Suppress the input event from reaching the target application.
    SwallowEvent,
    UpdateTrayIcon { enabled: bool },
    ToggleMaximize { hwnd: WindowId },
    ShowSnapPreview { rect: Rect },
    HideSnapPreview,
    ApplySnapRect { hwnd: WindowId, rect: Rect },
}

/// The modifier bit of a key: alt 1, ctrl 2, shift 4, win 8, space 16,
/// other keys none.
pub open spec fn vk_bits(vk: VirtualKey) -> u16 {
    match vk {
        VirtualKey::Alt => 1,
        VirtualKey::Ctrl => 2,
        VirtualKey::Shift => 4,
        VirtualKey::Win => 8,
        VirtualKey::Space => 16,
        VirtualKey::Other(_) => 0,
    }
}

/// The modifier bit of a key.
pub fn vk_bit(vk: VirtualKey) -> (r: Modifiers)
    ensures
        r.bits == vk_bits(vk),
{
    match vk {
        VirtualKey::Alt => Modifiers::alt(),
        VirtualKey::Ctrl => Modifiers::ctrl(),
        VirtualKey::Shift => Modifiers::shift(),
        VirtualKey::Win => Modifiers::win(),
        VirtualKey::Space => Modifiers::space(),
        VirtualKey::Other(_) => Modifiers::none(),
    }
}

impl State {
    /// A drag (move or resize) is in progress.
    pub open spec fn is_dragging(self) -> bool {
        self is Moving || self is Resizing
    }

    /// The dragged window, during a drag.
    pub open spec fn drag_hwnd(self) -> WindowId {
        match self {
            State::Moving { hwnd, .. } => hwnd,
            State::Resizing { hwnd, .. } => hwnd,
            _ => WindowId(0),
        }
    }
}

} // verus!
