use alt3rsnap::adapter::{
    drag_active, plan_batch, toggle_maximize_command, BalloonThrottle, BatchPlan, DragTracker, ShowCommand,
    BALLOON_INTERVAL_SECS,
};
use alt3rsnap::engine::geometry::{Point, Rect};
use alt3rsnap::engine::rules::WindowTraits;
use alt3rsnap::engine::state::{Action, DragMode, Event, SectorBands, State, VirtualKey, WindowId};
use alt3rsnap::fullscreen::{is_fullscreen_window, FullscreenProbe};
use alt3rsnap::hook::{
    key_event, map_vk, mouse_event, mouse_message, needs_target, release_swallowed, MouseMessage,
};
use alt3rsnap::swallow_latch::SwallowLatch;
use alt3rsnap::overlay::{accent_colorref, OverlaySettings, DEFAULT_OPACITY, FALLBACK_COLORREF};
use alt3rsnap::tool_window::{route_message, ToolMessage, TIMER_ID_MONITOR_REFRESH, TIMER_ID_SWALLOW_LATCH};
use alt3rsnap::tray::{
    command_id, menu_entries, on_command, on_tray_message, MenuEntry, TrayClick, TrayCommand, TrayState,
    WM_TRAY_CALLBACK,
};
use alt3rsnap::win_api::{collect_window_info, traits_from_styles};

fn rect(l: i32, t: i32, r: i32, b: i32) -> Rect {
    Rect { left: l, top: t, right: r, bottom: b }
}

// ---- hook decoding ----

#[test]
fn map_vk_covers_generic_left_and_right_keys() {
    for c in [0x12u16, 0xA4, 0xA5] {
        assert_eq!(map_vk(c), Some(VirtualKey::Alt));
    }
    for c in [0x11u16, 0xA2, 0xA3] {
        assert_eq!(map_vk(c), Some(VirtualKey::Ctrl));
    }
    for c in [0x10u16, 0xA0, 0xA1] {
        assert_eq!(map_vk(c), Some(VirtualKey::Shift));
    }
    assert_eq!(map_vk(0x5B), Some(VirtualKey::Win));
    assert_eq!(map_vk(0x5C), Some(VirtualKey::Win));
    assert_eq!(map_vk(0x20), Some(VirtualKey::Space));
    assert_eq!(map_vk(0x41), Some(VirtualKey::Other(0x41)));
}

#[test]
fn mouse_messages_are_classified() {
    assert_eq!(mouse_message(0x0200), Some(MouseMessage::Move));
    assert_eq!(mouse_message(0x0201), Some(MouseMessage::LeftDown));
    assert_eq!(mouse_message(0x0202), Some(MouseMessage::LeftUp));
    assert_eq!(mouse_message(0x0204), Some(MouseMessage::RightDown));
    assert_eq!(mouse_message(0x0205), Some(MouseMessage::RightUp));
    assert_eq!(mouse_message(0x0207), Some(MouseMessage::MiddleDown));
    assert_eq!(mouse_message(0x0208), Some(MouseMessage::MiddleUp));
    assert_eq!(mouse_message(0x020A), None);
    assert!(needs_target(MouseMessage::LeftDown));
    assert!(needs_target(MouseMessage::RightDown));
    assert!(needs_target(MouseMessage::MiddleDown));
    assert!(!needs_target(MouseMessage::MiddleUp));
    assert!(!needs_target(MouseMessage::Move));
}

#[test]
fn mouse_event_carries_cursor_target_and_bands() {
    let p = Point { x: 5, y: 6 };
    let bands = SectorBands { side_width: 3, side_height: 4 };
    assert!(matches!(mouse_event(MouseMessage::Move, p, None, bands), Some(Event::MouseMove { cursor }) if cursor == p));
    assert!(matches!(
        mouse_event(MouseMessage::RightDown, p, None, bands),
        Some(Event::RightDown { cursor, target: None, bands: b }) if cursor == p && b == bands
    ));
    assert!(matches!(mouse_event(MouseMessage::LeftUp, p, None, bands), Some(Event::LeftUp)));
    assert!(matches!(
        mouse_event(MouseMessage::MiddleDown, p, None, bands),
        Some(Event::MiddleDown { cursor, target: None }) if cursor == p
    ));
    assert!(mouse_event(MouseMessage::MiddleUp, p, None, bands).is_none());
}

#[test]
fn key_messages_become_key_changes() {
    assert!(matches!(key_event(0x0100, 0x12), Some(Event::KeyChange { vk: VirtualKey::Alt, down: true })));
    assert!(matches!(key_event(0x0104, 0x12), Some(Event::KeyChange { vk: VirtualKey::Alt, down: true })));
    assert!(matches!(key_event(0x0101, 0xA2), Some(Event::KeyChange { vk: VirtualKey::Ctrl, down: false })));
    assert!(matches!(key_event(0x0105, 0x20), Some(Event::KeyChange { vk: VirtualKey::Space, down: false })));
    assert!(key_event(0x0102, 0x12).is_none());
}

// ---- batch handling ----

#[test]
fn plan_batch_detects_begin_drag_and_swallow() {
    let begin = Action::BeginDrag {
        hwnd: WindowId(1),
        initial_rect: rect(0, 0, 10, 10),
        grab: Point { x: 1, y: 1 },
        mode: DragMode::Move,
        snap: None,
    };
    assert_eq!(
        plan_batch(&[begin.clone(), Action::SwallowEvent]),
        BatchPlan { clear_latch: true, swallow: true, drag_after: Some(true) }
    );
    assert_eq!(
        plan_batch(&[Action::SwallowEvent, Action::CancelMenuActivation]),
        BatchPlan { clear_latch: false, swallow: true, drag_after: None }
    );
    assert_eq!(plan_batch(&[begin]), BatchPlan { clear_latch: true, swallow: false, drag_after: Some(true) });
    assert_eq!(plan_batch(&[]), BatchPlan { clear_latch: false, swallow: false, drag_after: None });
    assert_eq!(
        plan_batch(&[Action::EndDrag { hwnd: WindowId(1) }, Action::CancelMenuActivation]),
        BatchPlan { clear_latch: false, swallow: false, drag_after: Some(false) }
    );
}

#[test]
fn toggle_maximize_restores_zoomed_windows() {
    assert_eq!(toggle_maximize_command(true), ShowCommand::Restore);
    assert_eq!(toggle_maximize_command(false), ShowCommand::Maximize);
}

#[test]
fn drag_tracker_follows_begin_and_end() {
    let begin = Action::BeginDrag {
        hwnd: WindowId(1),
        initial_rect: rect(0, 0, 10, 10),
        grab: Point { x: 1, y: 1 },
        mode: DragMode::Move,
        snap: None,
    };
    let mut t = DragTracker::new();
    assert!(!drag_active(&t));
    t.observe(&plan_batch(&[begin, Action::SwallowEvent]));
    assert!(drag_active(&t));
    t.observe(&plan_batch(&[Action::UpdateDrag { hwnd: WindowId(1), new_rect: rect(1, 1, 11, 11) }]));
    assert!(drag_active(&t));
    t.observe(&plan_batch(&[Action::EndDrag { hwnd: WindowId(1) }, Action::CancelMenuActivation]));
    assert!(!drag_active(&t));
}

#[test]
fn middle_release_is_swallowed_once_after_the_latch_is_set() {
    let mut latch = SwallowLatch::new();
    assert!(!release_swallowed(MouseMessage::MiddleUp, &mut latch, 0));
    latch.set(100);
    assert!(!release_swallowed(MouseMessage::LeftUp, &mut latch, 110));
    assert!(latch.is_set());
    assert!(release_swallowed(MouseMessage::MiddleUp, &mut latch, 120));
    assert!(!latch.is_set());
    assert!(!release_swallowed(MouseMessage::MiddleUp, &mut latch, 130));
}

#[test]
fn balloon_is_throttled_to_one_per_interval() {
    let mut b = BalloonThrottle::new();
    assert!(b.on_move_result(false, false, 1_000));
    assert!(!b.on_move_result(false, false, 1_000 + BALLOON_INTERVAL_SECS - 1));
    assert!(b.on_move_result(false, false, 1_000 + BALLOON_INTERVAL_SECS));
}

#[test]
fn balloon_needs_failed_move_while_unelevated() {
    let mut b = BalloonThrottle::default();
    assert!(!b.on_move_result(true, false, 1_000));
    assert!(!b.on_move_result(false, true, 1_000));
    assert!(b.on_move_result(false, false, 1_000));
}

#[test]
fn balloon_first_failure_right_after_epoch_start_is_throttled() {
    let mut b = BalloonThrottle::new();
    assert!(!b.on_move_result(false, false, 30));
}

// ---- overlay ----

#[test]
fn accent_colour_swaps_red_and_blue_and_drops_alpha() {
    assert_eq!(accent_colorref(Some(0xC4_11_22_33)), 0x00_33_22_11);
    assert_eq!(accent_colorref(Some(0xFF_00_78_D7)), FALLBACK_COLORREF);
    assert_eq!(accent_colorref(None), 0x00D7_7800);
}

#[test]
fn overlay_opacity_defaults_and_updates() {
    let mut s = OverlaySettings::new();
    assert_eq!(s.opacity(), DEFAULT_OPACITY);
    s.set_opacity(0x40);
    assert_eq!(s.opacity(), 0x40);
}

// ---- tray ----

#[test]
fn tray_clicks_decode_low_word() {
    assert_eq!(on_tray_message(0x0202), TrayClick::ToggleEnabled);
    assert_eq!(on_tray_message(0x0205), TrayClick::ShowMenu);
    assert_eq!(on_tray_message(0x7_0202), TrayClick::ToggleEnabled);
    assert_eq!(on_tray_message(0x0200), TrayClick::Ignore);
    assert_eq!(WM_TRAY_CALLBACK, 0x8001);
}

#[test]
fn tray_command_ids_round_trip() {
    let all = [
        TrayCommand::ToggleEnabled,
        TrayCommand::OpenConfig,
        TrayCommand::ReloadConfig,
        TrayCommand::AutostartNormal,
        TrayCommand::AutostartElevated,
        TrayCommand::RestartElevated,
        TrayCommand::RestartNormal,
        TrayCommand::About,
        TrayCommand::Exit,
    ];
    for (i, c) in all.iter().enumerate() {
        assert_eq!(command_id(*c), 100 + i as u32);
        assert_eq!(on_command(command_id(*c)), Some(*c));
    }
    assert_eq!(on_command(99), None);
    assert_eq!(on_command(109), None);
}

#[test]
fn tray_menu_offers_the_other_integrity_level() {
    let unelevated = menu_entries(true, false);
    assert_eq!(unelevated.len(), 12);
    assert_eq!(
        unelevated[0],
        MenuEntry::Command { command: TrayCommand::ToggleEnabled, checked: Some(true) }
    );
    assert_eq!(
        unelevated[5],
        MenuEntry::Command { command: TrayCommand::RestartElevated, checked: None }
    );
    let elevated = menu_entries(false, true);
    assert_eq!(
        elevated[0],
        MenuEntry::Command { command: TrayCommand::ToggleEnabled, checked: Some(false) }
    );
    assert_eq!(
        elevated[5],
        MenuEntry::Command { command: TrayCommand::RestartNormal, checked: None }
    );
    assert_eq!(elevated[11], MenuEntry::Command { command: TrayCommand::Exit, checked: None });
    assert_eq!(elevated.iter().filter(|e| **e == MenuEntry::Separator).count(), 4);
}

#[test]
fn tray_state_follows_engine() {
    let mut t = TrayState::new();
    assert!(t.is_enabled());
    t.set_enabled_flag(false);
    assert!(!t.is_enabled());
    t.sync_with(&State::Idle);
    assert!(t.is_enabled());
    t.sync_with(&State::Disabled);
    assert!(!t.is_enabled());
}

// ---- tool window ----

#[test]
fn tool_window_routes_messages() {
    assert_eq!(route_message(0x0002, 0), ToolMessage::Quit);
    assert_eq!(route_message(WM_TRAY_CALLBACK, 0), ToolMessage::Tray);
    assert_eq!(route_message(0x0111, 0x0001_0065), ToolMessage::Command { id: 101 });
    assert_eq!(route_message(0x0113, TIMER_ID_SWALLOW_LATCH), ToolMessage::LatchTimer);
    assert_eq!(route_message(0x0113, TIMER_ID_MONITOR_REFRESH), ToolMessage::MonitorTimer);
    assert_eq!(route_message(0x0113, 7), ToolMessage::Default);
    assert_eq!(route_message(0x007E, 0), ToolMessage::LayoutChanged);
    assert_eq!(route_message(0x001A, 0x2F), ToolMessage::LayoutChanged);
    assert_eq!(route_message(0x001A, 0x30), ToolMessage::Handled);
    assert_eq!(route_message(0x000F, 0), ToolMessage::Default);
}

// ---- fullscreen ----

fn probe() -> FullscreenProbe {
    FullscreenProbe {
        cloaked: 0,
        class_name: Some("UnityWndClass".to_string()),
        window_rect: Some(rect(0, 0, 1920, 1080)),
        monitor_rect: Some(rect(0, 0, 1920, 1080)),
        ex_style: 0,
        style: 0x8000_0000,
    }
}

#[test]
fn borderless_window_covering_monitor_is_fullscreen() {
    assert!(is_fullscreen_window(&probe()));
    let mut p = probe();
    p.class_name = None;
    assert!(is_fullscreen_window(&p));
}

#[test]
fn fullscreen_requires_every_condition() {
    let mut p = probe();
    p.cloaked = 1;
    assert!(!is_fullscreen_window(&p));
    let mut p = probe();
    p.class_name = Some("WorkerW".to_string());
    assert!(!is_fullscreen_window(&p));
    let mut p = probe();
    p.class_name = Some("ApplicationFrameWindow".to_string());
    assert!(!is_fullscreen_window(&p));
    let mut p = probe();
    p.window_rect = Some(rect(0, 0, 1920, 1040));
    assert!(!is_fullscreen_window(&p));
    let mut p = probe();
    p.monitor_rect = None;
    assert!(!is_fullscreen_window(&p));
    let mut p = probe();
    p.window_rect = None;
    assert!(!is_fullscreen_window(&p));
}

#[test]
fn fullscreen_style_conditions() {
    // A captioned window is fullscreen only when topmost.
    let mut p = probe();
    p.style = 0x00C0_0000;
    assert!(!is_fullscreen_window(&p));
    p.ex_style = 0x8;
    assert!(is_fullscreen_window(&p));
    // No caption bits at all.
    let mut p = probe();
    p.style = 0x1000_0000;
    assert!(is_fullscreen_window(&p));
}

// ---- window info ----

#[test]
fn window_info_lowercases_process_and_keeps_class_and_title() {
    let t = traits_from_styles(0x8 | 0x80, 2);
    assert_eq!(t, WindowTraits { is_topmost: true, is_cloaked: true, is_tool: true, is_owned: false });
    let w = collect_window_info(
        Some("Notepad".to_string()),
        "Untitled - Notepad".to_string(),
        Some("NOTEPAD.EXE".to_string()),
        t,
    )
    .expect("a target");
    assert_eq!(w.process_basename, "notepad.exe");
    assert_eq!(w.class_name, "Notepad");
    assert_eq!(w.title, "Untitled - Notepad");
    assert_eq!(w.traits, t);
}

#[test]
fn shell_windows_and_unreadable_ones_are_no_targets() {
    let t = traits_from_styles(0, 0);
    assert_eq!(t, WindowTraits::default());
    for c in ["Progman", "WorkerW", "Shell_TrayWnd", "Shell_SecondaryTrayWnd", "Button"] {
        assert!(collect_window_info(Some(c.to_string()), String::new(), Some("explorer.exe".to_string()), t).is_none());
    }
    assert!(collect_window_info(None, String::new(), Some("x.exe".to_string()), t).is_none());
    assert!(collect_window_info(Some("X".to_string()), String::new(), None, t).is_none());
}
