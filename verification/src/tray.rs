//! The tray icon's menu and the decoding of its notifications.
//!
//! The adapter adds the icon, shows the popup menu and runs the chosen
//! command; this module decides what the menu holds, what a click on the
//! icon means and which command a menu identifier names.

use vstd::prelude::*;
use crate::engine::state::State;

verus! {

/// The window message the tray icon sends its notifications with
/// (`WM_APP + 1`).
pub const WM_TRAY_CALLBACK: u32 = 0x8000 + 1;

/// A left-button release on the icon (Win32 `WM_LBUTTONUP`).
pub const TRAY_LBUTTONUP: u32 = 0x0202;
/// A right-button release on the icon (Win32 `WM_RBUTTONUP`).
pub const TRAY_RBUTTONUP: u32 = 0x0205;

/// What a notification from the icon asks for.
#[derive(Debug, Clone, Copy, PartialEq, Eq, Structural)]
pub enum TrayClick {
    /// Left click: switch the engine on or off.
    ToggleEnabled,
    /// Right click: show the menu.
    ShowMenu,
    /// Anything else.
    Ignore,
}

/// The low 16 bits of a notification's `lParam`, which carry the mouse
/// message.
pub open spec fn low_word(lparam: isize) -> u32 {
    (lparam as u32) & 0xFFFF
}

pub open spec fn tray_click_of(lparam: isize) -> TrayClick {
    if low_word(lparam) == TRAY_LBUTTONUP {
        TrayClick::ToggleEnabled
    } else if low_word(lparam) == TRAY_RBUTTONUP {
        TrayClick::ShowMenu
    } else {
        TrayClick::Ignore
    }
}

/// Decodes a tray notification's `lParam`.
pub fn on_tray_message(lparam: isize) -> (r: TrayClick)
    ensures
        r == tray_click_of(lparam),
{
    let event = (lparam as u32) & 0xFFFF;
    if event == TRAY_LBUTTONUP {
        TrayClick::ToggleEnabled
    } else if event == TRAY_RBUTTONUP {
        TrayClick::ShowMenu
    } else {
        TrayClick::Ignore
    }
}

/// The commands of the tray menu.
#[derive(Debug, Clone, Copy, PartialEq, Eq, Structural)]
pub enum TrayCommand {
    ToggleEnabled,
    OpenConfig,
    ReloadConfig,
    AutostartNormal,
    AutostartElevated,
    RestartElevated,
    RestartNormal,
    About,
    Exit,
}

/// The menu identifier of each command: 100 to 108 in menu-definition order.
pub open spec fn id_of(c: TrayCommand) -> u32 {
    match c {
        TrayCommand::ToggleEnabled => 100,
        TrayCommand::OpenConfig => 101,
        TrayCommand::ReloadConfig => 102,
        TrayCommand::AutostartNormal => 103,
        TrayCommand::AutostartElevated => 104,
        TrayCommand::RestartElevated => 105,
        TrayCommand::RestartNormal => 106,
        TrayCommand::About => 107,
        TrayCommand::Exit => 108,
    }
}

/// The command a menu identifier names, if any.
pub open spec fn command_of_id(id: u32) -> Option<TrayCommand> {
    if id == 100 {
        Some(TrayCommand::ToggleEnabled)
    } else if id == 101 {
        Some(TrayCommand::OpenConfig)
    } else if id == 102 {
        Some(TrayCommand::ReloadConfig)
    } else if id == 103 {
        Some(TrayCommand::AutostartNormal)
    } else if id == 104 {
        Some(TrayCommand::AutostartElevated)
    } else if id == 105 {
        Some(TrayCommand::RestartElevated)
    } else if id == 106 {
        Some(TrayCommand::RestartNormal)
    } else if id == 107 {
        Some(TrayCommand::About)
    } else if id == 108 {
        Some(TrayCommand::Exit)
    } else {
        None
    }
}

/// The menu identifier of a command.
pub fn command_id(c: TrayCommand) -> (r: u32)
    ensures
        r == id_of(c),
{
    match c {
        TrayCommand::ToggleEnabled => 100,
        TrayCommand::OpenConfig => 101,
        TrayCommand::ReloadConfig => 102,
        TrayCommand::AutostartNormal => 103,
        TrayCommand::AutostartElevated => 104,
        TrayCommand::RestartElevated => 105,
        TrayCommand::RestartNormal => 106,
        TrayCommand::About => 107,
        TrayCommand::Exit => 108,
    }
}

/// The command chosen from the menu; unknown identifiers do nothing.
pub fn on_command(id: u32) -> (r: Option<TrayCommand>)
    ensures
        r == command_of_id(id),
{
    if id == 100 {
        Some(TrayCommand::ToggleEnabled)
    } else if id == 101 {
        Some(TrayCommand::OpenConfig)
    } else if id == 102 {
        Some(TrayCommand::ReloadConfig)
    } else if id == 103 {
        Some(TrayCommand::AutostartNormal)
    } else if id == 104 {
        Some(TrayCommand::AutostartElevated)
    } else if id == 105 {
        Some(TrayCommand::RestartElevated)
    } else if id == 106 {
        Some(TrayCommand::RestartNormal)
    } else if id == 107 {
        Some(TrayCommand::About)
    } else if id == 108 {
        Some(TrayCommand::Exit)
    } else {
        None
    }
}

/// Every command is found again from its identifier, and distinct commands
/// have distinct identifiers.
pub proof fn lemma_command_ids_round_trip(c: TrayCommand, d: TrayCommand)
    ensures
        command_of_id(id_of(c)) == Some(c),
        id_of(c) == id_of(d) ==> c == d,
{
}

/// One line of the tray menu.
#[derive(Debug, Clone, Copy, PartialEq, Eq, Structural)]
pub enum MenuEntry {
    /// A command, with a check mark state where the line has one.
    Command { command: TrayCommand, checked: Option<bool> },
    Separator,
}

pub open spec fn cmd(c: TrayCommand) -> MenuEntry {
    MenuEntry::Command { command: c, checked: None }
}

/// The menu: the checked "Enabled" line, the two autostart lines, the
/// restart line that changes the integrity level (normal when elevated,
/// elevated otherwise), the two configuration lines, "About" and "Exit",
/// in groups parted by separators.
pub open spec fn menu_of(enabled: bool, elevated: bool) -> Seq<MenuEntry> {
    seq![
        MenuEntry::Command { command: TrayCommand::ToggleEnabled, checked: Some(enabled) },
        MenuEntry::Separator,
        cmd(TrayCommand::AutostartNormal),
        cmd(TrayCommand::AutostartElevated),
        MenuEntry::Separator,
        cmd(if elevated { TrayCommand::RestartNormal } else { TrayCommand::RestartElevated }),
        MenuEntry::Separator,
        cmd(TrayCommand::OpenConfig),
        cmd(TrayCommand::ReloadConfig),
        MenuEntry::Separator,
        cmd(TrayCommand::About),
        cmd(TrayCommand::Exit),
    ]
}

/// The lines of the tray menu, top to bottom.
pub fn menu_entries(enabled: bool, elevated: bool) -> (r: Vec<MenuEntry>)
    ensures
        r@ == menu_of(enabled, elevated),
{
    let mut v: Vec<MenuEntry> = Vec::new();
    v.push(MenuEntry::Command { command: TrayCommand::ToggleEnabled, checked: Some(enabled) });
    v.push(MenuEntry::Separator);
    v.push(MenuEntry::Command { command: TrayCommand::AutostartNormal, checked: None });
    v.push(MenuEntry::Command { command: TrayCommand::AutostartElevated, checked: None });
    v.push(MenuEntry::Separator);
    let restart = if elevated {
        TrayCommand::RestartNormal
    } else {
        TrayCommand::RestartElevated
    };
    v.push(MenuEntry::Command { command: restart, checked: None });
    v.push(MenuEntry::Separator);
    v.push(MenuEntry::Command { command: TrayCommand::OpenConfig, checked: None });
    v.push(MenuEntry::Command { command: TrayCommand::ReloadConfig, checked: None });
    v.push(MenuEntry::Separator);
    v.push(MenuEntry::Command { command: TrayCommand::About, checked: None });
    v.push(MenuEntry::Command { command: TrayCommand::Exit, checked: None });
    v
}

/// The tray's copy of whether the engine is enabled, shown as the check
/// mark of the "Enabled" line.
#[derive(Debug, Clone, Copy)]
pub struct TrayState {
    enabled: bool,
}

impl TrayState {
    pub closed spec fn shows_enabled(self) -> bool {
        self.enabled
    }

    /// The engine starts enabled.
    pub fn new() -> (r: Self)
        ensures
            r.shows_enabled(),
    {
        TrayState { enabled: true }
    }

    /// Records the engine's `UpdateTrayIcon` action.
    pub fn set_enabled_flag(&mut self, enabled: bool)
        ensures
            final(self).shows_enabled() == enabled,
    {
        self.enabled = enabled;
    }

    /// After a toggle from the tray: enabled unless the engine is disabled.
    pub fn sync_with(&mut self, state: &State)
        ensures
            final(self).shows_enabled() == !(*state is Disabled),
    {
        self.enabled = match state {
            State::Disabled => false,
            _ => true,
        };
    }

    pub fn is_enabled(&self) -> (r: bool)
        ensures
            r == self.shows_enabled(),
    {
        self.enabled
    }
}

impl Default for TrayState {
    fn default() -> (r: Self)
        ensures
            r.shows_enabled(),
    {
        Self::new()
    }
}

} // verus!
