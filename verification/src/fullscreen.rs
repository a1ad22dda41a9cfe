//! Whether the window that took the foreground is a fullscreen application,
//! so that the engine passes input through while it has the focus.
//!
//! The adapter reads the window's attributes (cloaking, class name, window
//! and monitor rectangles, styles) and hands them over as a
//! `FullscreenProbe`.

use vstd::prelude::*;
use crate::engine::geometry::Rect;
use crate::engine::rules::str_equal;

verus! {

/// Win32 `WS_EX_TOPMOST`.
pub const WS_EX_TOPMOST: u32 = 0x0000_0008;
/// Win32 `WS_CAPTION`.
pub const WS_CAPTION: u32 = 0x00C0_0000;
/// Win32 `WS_POPUP`.
pub const WS_POPUP: u32 = 0x8000_0000;
/// Win32 `WS_OVERLAPPED` (no bit set).
pub const WS_OVERLAPPED: u32 = 0;

/// What the adapter read of the foreground window.
#[derive(Debug, Clone)]
pub struct FullscreenProbe {
    /// The DWM cloaking attribute (0: not cloaked).
    pub cloaked: u32,
    /// The window class name, `None` when it could not be read.
    pub class_name: Option<String>,
    /// The window rectangle, `None` when it could not be read.
    pub window_rect: Option<Rect>,
    /// The rectangle of the nearest monitor, `None` when it could not be read.
    pub monitor_rect: Option<Rect>,
    /// The extended window styles.
    pub ex_style: u32,
    /// The window styles.
    pub style: u32,
}

/// Shell and system windows that cover a monitor without being fullscreen
/// applications: the desktop, the taskbars and the UWP/XAML host frames.
pub open spec fn is_shell_class(c: Seq<char>) -> bool {
    ||| c == "Progman"@
    ||| c == "WorkerW"@
    ||| c == "Shell_TrayWnd"@
    ||| c == "Shell_SecondaryTrayWnd"@
    ||| c == "Windows.UI.Core.CoreWindow"@
    ||| c == "ApplicationFrameWindow"@
    ||| c == "XamlExplorerHostIslandWindow"@
}

/// Whether a class name is one of the shell classes.
pub fn shell_class(c: &str) -> (r: bool)
    ensures
        r == is_shell_class(c@),
{
    str_equal(c, "Progman") || str_equal(c, "WorkerW") || str_equal(c, "Shell_TrayWnd")
        || str_equal(c, "Shell_SecondaryTrayWnd") || str_equal(c, "Windows.UI.Core.CoreWindow")
        || str_equal(c, "ApplicationFrameWindow") || str_equal(c, "XamlExplorerHostIslandWindow")
}

/// A window style that a fullscreen application uses: always on top, or
/// without a caption, or a popup that is not an overlapped window.
pub open spec fn fullscreen_style(ex_style: u32, style: u32) -> bool {
    ||| (ex_style & WS_EX_TOPMOST) != 0
    ||| (style & WS_CAPTION) == 0
    ||| ((style & WS_POPUP) != 0 && (style & WS_OVERLAPPED) == 0)
}

/// The window is a fullscreen application: not cloaked, not of a shell
/// class (a class name that could not be read does not exclude it), its
/// rectangle read and equal to its monitor's, and of a fullscreen style.
pub open spec fn is_fullscreen(p: FullscreenProbe) -> bool {
    &&& p.cloaked == 0
    &&& !(p.class_name matches Some(c) && is_shell_class(c@))
    &&& p.window_rect matches Some(w)
    &&& p.monitor_rect matches Some(m)
    &&& w == m
    &&& fullscreen_style(p.ex_style, p.style)
}

/// Classifies the foreground window.
pub fn is_fullscreen_window(p: &FullscreenProbe) -> (r: bool)
    ensures
        r == is_fullscreen(*p),
{
    if p.cloaked != 0 {
        return false;
    }
    match &p.class_name {
        Some(c) => {
            if shell_class(c.as_str()) {
                return false;
            }
        },
        None => {},
    }
    let w = match p.window_rect {
        Some(w) => w,
        None => {
            return false;
        },
    };
    let m = match p.monitor_rect {
        Some(m) => m,
        None => {
            return false;
        },
    };
    let same = w.left == m.left && w.top == m.top && w.right == m.right && w.bottom == m.bottom;
    if !same {
        return false;
    }
    let topmost = (p.ex_style & WS_EX_TOPMOST) != 0;
    let no_caption = (p.style & WS_CAPTION) == 0;
    let popup_no_overlap = (p.style & WS_POPUP) != 0 && (p.style & WS_OVERLAPPED) == 0;
    topmost || no_caption || popup_no_overlap
}

} // verus!
