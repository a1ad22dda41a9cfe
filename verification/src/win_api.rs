//! What the rule engine is told about the window under the cursor.
//!
//! The adapter reads the class name, title, process image name, extended
//! styles and cloaking attribute of the root window under the cursor; these
//! functions turn what it read into a `WindowInfo`.

use vstd::prelude::*;
use crate::engine::rules::{lowercase, str_equal, str_to_lowercase, WindowInfo, WindowTraits};

verus! {

/// Win32 `WS_EX_TOPMOST`.
pub const WS_EX_TOPMOST: u32 = 0x0000_0008;
/// Win32 `WS_EX_TOOLWINDOW`.
pub const WS_EX_TOOLWINDOW: u32 = 0x0000_0080;

/// Windows that are never drag targets: the desktop, the taskbars and the
/// desktop's "Show Desktop" button.
pub open spec fn is_skipped_class(c: Seq<char>) -> bool {
    ||| c == "Progman"@
    ||| c == "WorkerW"@
    ||| c == "Shell_TrayWnd"@
    ||| c == "Shell_SecondaryTrayWnd"@
    ||| c == "Button"@
}

/// Whether a class name is one of the skipped classes.
pub fn skipped_class(c: &str) -> (r: bool)
    ensures
        r == is_skipped_class(c@),
{
    str_equal(c, "Progman") || str_equal(c, "WorkerW") || str_equal(c, "Shell_TrayWnd")
        || str_equal(c, "Shell_SecondaryTrayWnd") || str_equal(c, "Button")
}

/// The traits read from the extended styles and the DWM cloaking attribute.
/// Ownership is not read: `is_owned` is always false.
pub open spec fn traits_of(ex_style: u32, cloaked: u32) -> WindowTraits {
    WindowTraits {
        is_topmost: (ex_style & WS_EX_TOPMOST) != 0,
        is_cloaked: cloaked != 0,
        is_tool: (ex_style & WS_EX_TOOLWINDOW) != 0,
        is_owned: false,
    }
}

pub fn traits_from_styles(ex_style: u32, cloaked: u32) -> (t: WindowTraits)
    ensures
        t == traits_of(ex_style, cloaked),
{
    WindowTraits {
        is_topmost: (ex_style & WS_EX_TOPMOST) != 0,
        is_cloaked: cloaked != 0,
        is_tool: (ex_style & WS_EX_TOOLWINDOW) != 0,
        is_owned: false,
    }
}

/// The window's description for the rule engine. `class` is `None` when
/// the class name could not be read and `process` when the process image
/// name could not be; either makes the window no target, as does a skipped
/// class. The process name is lowercased.
pub fn collect_window_info(class: Option<String>, title: String, process: Option<String>, traits: WindowTraits) -> (r: Option<WindowInfo>)
    ensures
        r is Some <==> (class matches Some(c) && !is_skipped_class(c@) && process is Some),
        r matches Some(w) ==> {
            &&& w.class_name@ == class->0@
            &&& w.title@ == title@
            &&& w.process_basename@ == lowercase(process->0@)
            &&& w.traits == traits
        },
{
    let class = match class {
        Some(c) => c,
        None => {
            return None;
        },
    };
    if skipped_class(class.as_str()) {
        return None;
    }
    let process = match process {
        Some(p) => p,
        None => {
            return None;
        },
    };
    let process_basename = str_to_lowercase(process.as_str());
    Some(WindowInfo { process_basename, class_name: class, title, traits })
}

} // verus!
