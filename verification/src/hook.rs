//! Decoding of low-level mouse and keyboard hook messages into engine events.
//!
//! Installing the hooks and reading the hook structures is the adapter's
//! work; it hands the message identifier, the virtual-key code and the
//! cursor position to these functions.

use vstd::prelude::*;
use crate::engine::geometry::Point;
use crate::engine::state::{DragTarget, Event, SectorBands, VirtualKey};
use crate::swallow_latch::SwallowLatch;

verus! {

/// Win32 `WM_MOUSEMOVE`.
pub const WM_MOUSEMOVE: u32 = 0x0200;
/// Win32 `WM_LBUTTONDOWN`.
pub const WM_LBUTTONDOWN: u32 = 0x0201;
/// Win32 `WM_LBUTTONUP`.
pub const WM_LBUTTONUP: u32 = 0x0202;
/// Win32 `WM_RBUTTONDOWN`.
pub const WM_RBUTTONDOWN: u32 = 0x0204;
/// Win32 `WM_RBUTTONUP`.
pub const WM_RBUTTONUP: u32 = 0x0205;
/// Win32 `WM_MBUTTONDOWN`.
pub const WM_MBUTTONDOWN: u32 = 0x0207;
/// Win32 `WM_MBUTTONUP`.
pub const WM_MBUTTONUP: u32 = 0x0208;
/// Win32 `WM_KEYDOWN`.
pub const WM_KEYDOWN: u32 = 0x0100;
/// Win32 `WM_KEYUP`.
pub const WM_KEYUP: u32 = 0x0101;
/// Win32 `WM_SYSKEYDOWN`.
pub const WM_SYSKEYDOWN: u32 = 0x0104;
/// Win32 `WM_SYSKEYUP`.
pub const WM_SYSKEYUP: u32 = 0x0105;

/// The key a Win32 virtual-key code stands for: the generic, left and right
/// Alt (`VK_MENU` 0x12, 0xA4, 0xA5), Ctrl (0x11, 0xA2, 0xA3) and Shift
/// (0x10, 0xA0, 0xA1) codes, the two Windows keys (0x5B, 0x5C), Space (0x20),
/// and every other code as itself.
pub open spec fn vk_of(code: u16) -> VirtualKey {
    if code == 0x12 || code == 0xA4 || code == 0xA5 {
        VirtualKey::Alt
    } else if code == 0x11 || code == 0xA2 || code == 0xA3 {
        VirtualKey::Ctrl
    } else if code == 0x10 || code == 0xA0 || code == 0xA1 {
        VirtualKey::Shift
    } else if code == 0x5B || code == 0x5C {
        VirtualKey::Win
    } else if code == 0x20 {
        VirtualKey::Space
    } else {
        VirtualKey::Other(code)
    }
}

/// Maps a virtual-key code to the engine's key. Every code maps to a key.
pub fn map_vk(code: u16) -> (r: Option<VirtualKey>)
    ensures
        r == Some(vk_of(code)),
{
    if code == 0x12 || code == 0xA4 || code == 0xA5 {
        Some(VirtualKey::Alt)
    } else if code == 0x11 || code == 0xA2 || code == 0xA3 {
        Some(VirtualKey::Ctrl)
    } else if code == 0x10 || code == 0xA0 || code == 0xA1 {
        Some(VirtualKey::Shift)
    } else if code == 0x5B || code == 0x5C {
        Some(VirtualKey::Win)
    } else if code == 0x20 {
        Some(VirtualKey::Space)
    } else {
        Some(VirtualKey::Other(code))
    }
}

/// The mouse messages the engine reacts to.
#[derive(Debug, Clone, Copy, PartialEq, Eq, Structural)]
pub enum MouseMessage {
    Move,
    LeftDown,
    LeftUp,
    RightDown,
    RightUp,
    MiddleDown,
    MiddleUp,
}

/// The mouse message a hook message identifier stands for, if any.
pub open spec fn mouse_message_of(msg: u32) -> Option<MouseMessage> {
    if msg == WM_MOUSEMOVE {
        Some(MouseMessage::Move)
    } else if msg == WM_LBUTTONDOWN {
        Some(MouseMessage::LeftDown)
    } else if msg == WM_LBUTTONUP {
        Some(MouseMessage::LeftUp)
    } else if msg == WM_RBUTTONDOWN {
        Some(MouseMessage::RightDown)
    } else if msg == WM_RBUTTONUP {
        Some(MouseMessage::RightUp)
    } else if msg == WM_MBUTTONDOWN {
        Some(MouseMessage::MiddleDown)
    } else if msg == WM_MBUTTONUP {
        Some(MouseMessage::MiddleUp)
    } else {
        None
    }
}

/// Classifies a mouse hook message; other messages (wheel, extra buttons)
/// are `None` and go on to the next hook untouched.
pub fn mouse_message(msg: u32) -> (r: Option<MouseMessage>)
    ensures
        r == mouse_message_of(msg),
{
    if msg == WM_MOUSEMOVE {
        Some(MouseMessage::Move)
    } else if msg == WM_LBUTTONDOWN {
        Some(MouseMessage::LeftDown)
    } else if msg == WM_LBUTTONUP {
        Some(MouseMessage::LeftUp)
    } else if msg == WM_RBUTTONDOWN {
        Some(MouseMessage::RightDown)
    } else if msg == WM_RBUTTONUP {
        Some(MouseMessage::RightUp)
    } else if msg == WM_MBUTTONDOWN {
        Some(MouseMessage::MiddleDown)
    } else if msg == WM_MBUTTONUP {
        Some(MouseMessage::MiddleUp)
    } else {
        None
    }
}

/// Whether the adapter must look up the window under the cursor for this
/// message: only for button presses.
pub open spec fn wants_target(m: MouseMessage) -> bool {
    m is LeftDown || m is RightDown || m is MiddleDown
}

/// Whether the message is a button press that carries a target.
pub fn needs_target(m: MouseMessage) -> (r: bool)
    ensures
        r == wants_target(m),
{
    match m {
        MouseMessage::LeftDown | MouseMessage::RightDown | MouseMessage::MiddleDown => true,
        _ => false,
    }
}

/// The engine event for a mouse message at `cursor`. `target` is what the
/// adapter found under the cursor (used for presses only) and `bands` the
/// resize grid of that target (used for the right press only). The middle
/// release is no engine event: the adapter's latch decides it.
pub open spec fn mouse_event_of(m: MouseMessage, cursor: Point, target: Option<DragTarget>, bands: SectorBands) -> Option<Event> {
    match m {
        MouseMessage::Move => Some(Event::MouseMove { cursor }),
        MouseMessage::LeftDown => Some(Event::LeftDown { cursor, target }),
        MouseMessage::LeftUp => Some(Event::LeftUp),
        MouseMessage::RightDown => Some(Event::RightDown { cursor, target, bands }),
        MouseMessage::RightUp => Some(Event::RightUp),
        MouseMessage::MiddleDown => Some(Event::MiddleDown { cursor, target }),
        MouseMessage::MiddleUp => None,
    }
}

/// Builds the engine event for a classified mouse message.
pub fn mouse_event(m: MouseMessage, cursor: Point, target: Option<DragTarget>, bands: SectorBands) -> (e: Option<Event>)
    ensures
        e == mouse_event_of(m, cursor, target, bands),
{
    match m {
        MouseMessage::Move => Some(Event::MouseMove { cursor }),
        MouseMessage::LeftDown => Some(Event::LeftDown { cursor, target }),
        MouseMessage::LeftUp => Some(Event::LeftUp),
        MouseMessage::RightDown => Some(Event::RightDown { cursor, target, bands }),
        MouseMessage::RightUp => Some(Event::RightUp),
        MouseMessage::MiddleDown => Some(Event::MiddleDown { cursor, target }),
        MouseMessage::MiddleUp => None,
    }
}

/// Whether the hook swallows the release of this message: a middle-button
/// release is swallowed exactly when the latch was armed (by a middle press
/// the engine acted on), and the latch is then cleared; every other message
/// leaves the latch alone and is not swallowed here.
pub fn release_swallowed(m: MouseMessage, latch: &mut SwallowLatch, now_ms: u64) -> (r: bool)
    ensures
        m is MiddleUp ==> r == old(latch).is_armed() && !final(latch).is_armed() && final(latch).armed_at()
            == old(latch).armed_at(),
        !(m is MiddleUp) ==> !r && *final(latch) == *old(latch),
{
    match m {
        MouseMessage::MiddleUp => latch.try_swallow(now_ms),
        _ => false,
    }
}

/// Key press (`Some(true)`: `WM_KEYDOWN`, `WM_SYSKEYDOWN`) or release
/// (`Some(false)`: `WM_KEYUP`, `WM_SYSKEYUP`); other messages `None`.
pub open spec fn key_direction_of(msg: u32) -> Option<bool> {
    if msg == WM_KEYDOWN || msg == WM_SYSKEYDOWN {
        Some(true)
    } else if msg == WM_KEYUP || msg == WM_SYSKEYUP {
        Some(false)
    } else {
        None
    }
}

/// The engine event for a keyboard hook message with virtual-key code `code`:
/// a key change for presses and releases, nothing for other messages.
pub open spec fn key_event_of(msg: u32, code: u16) -> Option<Event> {
    match key_direction_of(msg) {
        Some(down) => Some(Event::KeyChange { vk: vk_of(code), down }),
        None => None,
    }
}

/// Decodes a keyboard hook message. The hook always passes the key on to
/// the next hook; the event only keeps the engine's modifier state.
pub fn key_event(msg: u32, code: u16) -> (r: Option<Event>)
    ensures
        r == key_event_of(msg, code),
{
    let down = msg == WM_KEYDOWN || msg == WM_SYSKEYDOWN;
    let up = msg == WM_KEYUP || msg == WM_SYSKEYUP;
    if !(down || up) {
        return None;
    }
    match map_vk(code) {
        Some(vk) => Some(Event::KeyChange { vk, down }),
        None => None,
    }
}

} // verus!
