//! Routing of the messages the hidden tool window receives.
//!
//! The tool window hosts the tray icon, owns the adapter's timers and
//! receives the display-change broadcasts. The adapter's window procedure
//! asks `route_message` what a message means and acts on the answer.

use vstd::prelude::*;
use crate::tray::WM_TRAY_CALLBACK;

verus! {

/// Win32 `WM_DESTROY`.
pub const WM_DESTROY: u32 = 0x0002;
/// Win32 `WM_SETTINGCHANGE`.
pub const WM_SETTINGCHANGE: u32 = 0x001A;
/// Win32 `WM_DISPLAYCHANGE`.
pub const WM_DISPLAYCHANGE: u32 = 0x007E;
/// Win32 `WM_COMMAND`.
pub const WM_COMMAND: u32 = 0x0111;
/// Win32 `WM_TIMER`.
pub const WM_TIMER: u32 = 0x0113;
/// The `SPI_SETWORKAREA` category of `WM_SETTINGCHANGE`.
pub const SPI_SETWORKAREA: u32 = 0x002F;

/// Timer that drives the middle-button latch's safety clear.
pub const TIMER_ID_SWALLOW_LATCH: usize = 0x4153_0001;
/// Timer that completes a debounced monitor-layout refresh.
pub const TIMER_ID_MONITOR_REFRESH: usize = 0x4153_0002;
/// Period of the latch timer, in milliseconds.
pub const LATCH_TIMER_PERIOD_MS: u32 = 250;
/// Delay of the monitor-refresh timer, in milliseconds.
pub const MONITOR_REFRESH_DELAY_MS: u32 = 200;

/// What the tool window does with a message.
#[derive(Debug, Clone, Copy, PartialEq, Eq, Structural)]
pub enum ToolMessage {
    /// Post the quit message.
    Quit,
    /// A notification of the tray icon; the `lParam` tells which.
    Tray,
    /// A menu command with this identifier.
    Command { id: u32 },
    /// Run the latch's safety clear.
    LatchTimer,
    /// Complete a pending monitor refresh and stop the timer.
    MonitorTimer,
    /// The display layout or work area changed: request a refresh and
    /// start the refresh timer.
    LayoutChanged,
    /// Handled without doing anything.
    Handled,
    /// Hand the message to the default window procedure.
    Default,
}

/// The routing of a message with its `wParam`.
pub open spec fn route_of(msg: u32, wparam: usize) -> ToolMessage {
    if msg == WM_DESTROY {
        ToolMessage::Quit
    } else if msg == WM_TRAY_CALLBACK {
        ToolMessage::Tray
    } else if msg == WM_COMMAND {
        ToolMessage::Command { id: (wparam as u32) & 0xFFFF }
    } else if msg == WM_TIMER {
        if wparam == TIMER_ID_SWALLOW_LATCH {
            ToolMessage::LatchTimer
        } else if wparam == TIMER_ID_MONITOR_REFRESH {
            ToolMessage::MonitorTimer
        } else {
            ToolMessage::Default
        }
    } else if msg == WM_DISPLAYCHANGE {
        ToolMessage::LayoutChanged
    } else if msg == WM_SETTINGCHANGE {
        if (wparam as u32) == SPI_SETWORKAREA {
            ToolMessage::LayoutChanged
        } else {
            ToolMessage::Handled
        }
    } else {
        ToolMessage::Default
    }
}

/// Routes a message of the tool window.
pub fn route_message(msg: u32, wparam: usize) -> (r: ToolMessage)
    ensures
        r == route_of(msg, wparam),
{
    if msg == WM_DESTROY {
        ToolMessage::Quit
    } else if msg == WM_TRAY_CALLBACK {
        ToolMessage::Tray
    } else if msg == WM_COMMAND {
        ToolMessage::Command { id: (wparam as u32) & 0xFFFF }
    } else if msg == WM_TIMER {
        if wparam == TIMER_ID_SWALLOW_LATCH {
            ToolMessage::LatchTimer
        } else if wparam == TIMER_ID_MONITOR_REFRESH {
            ToolMessage::MonitorTimer
        } else {
            ToolMessage::Default
        }
    } else if msg == WM_DISPLAYCHANGE {
        ToolMessage::LayoutChanged
    } else if msg == WM_SETTINGCHANGE {
        if (wparam as u32) == SPI_SETWORKAREA {
            ToolMessage::LayoutChanged
        } else {
            ToolMessage::Handled
        }
    } else {
        ToolMessage::Default
    }
}

} // verus!
