//! Engine-visible config view.

use vstd::prelude::*;
use crate::engine::policy::{ActivationPolicy, default_policy};
use crate::engine::rules::WindowRule;

verus! {

#[derive(Debug, Clone, Copy, PartialEq, Eq, Structural)]
pub enum MiddleClickAction {
    /// Middle clicks pass through untouched.
    Nothing,
    ToggleMaximize,
}

/// Which snap zones are offered.
#[derive(Debug, Clone, Copy, PartialEq, Eq, Structural)]
pub struct ZoneToggles {
    pub top_maximize: bool,
    pub bottom_maximize: bool,
    pub left_half: bool,
    pub right_half: bool,
    pub top_left_quarter: bool,
    pub top_right_quarter: bool,
    pub bottom_left_quarter: bool,
    pub bottom_right_quarter: bool,
    pub left_third: bool,
    pub middle_third: bool,
    pub right_third: bool,
}

/// Aero-like defaults: top maximize, both halves and all four quarters;
/// bottom maximize and the thirds off.
pub open spec fn default_zone_toggles() -> ZoneToggles {
    ZoneToggles {
        top_maximize: true,
        bottom_maximize: false,
        left_half: true,
        right_half: true,
        top_left_quarter: true,
        top_right_quarter: true,
        bottom_left_quarter: true,
        bottom_right_quarter: true,
        left_third: false,
        middle_third: false,
        right_third: false,
    }
}

impl Default for ZoneToggles {
    fn default() -> (r: Self)
        ensures
            r == default_zone_toggles(),
    {
        ZoneToggles {
            top_maximize: true,
            bottom_maximize: false,
            left_half: true,
            right_half: true,
            top_left_quarter: true,
            top_right_quarter: true,
            bottom_left_quarter: true,
            bottom_right_quarter: true,
            left_third: false,
            middle_third: false,
            right_third: false,
        }
    }
}

#[derive(Debug, Clone, Copy, PartialEq, Eq, Structural)]
pub struct SnapEngineConfig {
    pub enabled: bool,
    /// Distance (px) from a monitor edge at which a zone engages.
    pub engage_px: u32,
    /// Distance (px) from the engaged zone's rect at which it lets go.
    pub disengage_px: u32,
    pub zones: ZoneToggles,
}

/// Snap on, engage within 24 px, disengage beyond 32 px, default zones.
pub open spec fn default_snap_config() -> SnapEngineConfig {
    SnapEngineConfig { enabled: true, engage_px: 24, disengage_px: 32, zones: default_zone_toggles() }
}

impl Default for SnapEngineConfig {
    fn default() -> (r: Self)
        ensures
            r == default_snap_config(),
    {
        SnapEngineConfig { enabled: true, engage_px: 24, disengage_px: 32, zones: ZoneToggles::default() }
    }
}

/// What the center sector of a right-drag does.
#[derive(Debug, Clone, Copy, PartialEq, Eq, Structural)]
pub enum CenterMode {
    /// Resize symmetrically about the center.
    Symmetric,
    /// Resize from the top-left corner (bottom-right stays fixed).
    BottomRight,
    /// Move the window instead of resizing it.
    Move,
}

/// The engine's configuration. The size of the center resize sector is a
/// fraction held by the adapter, which hands the engine the resulting band
/// widths with each right-button press.
#[derive(Debug, Clone)]
pub struct EngineConfig {
    pub enabled: bool,
    pub enable_move: bool,
    pub enable_resize: bool,
    pub raise_on_drag: bool,
    pub restore_maximized_on_move: bool,
    pub policy: ActivationPolicy,
    pub rules: Vec<WindowRule>,
    pub center_mode: CenterMode,
    pub middle_click_action: MiddleClickAction,
    pub snap: SnapEngineConfig,
}

impl EngineConfig {
    /// The default configuration, field by field (no rules).
    pub open spec fn is_default(self) -> bool {
        &&& self.enabled
        &&& self.enable_move
        &&& self.enable_resize
        &&& !self.raise_on_drag
        &&& self.restore_maximized_on_move
        &&& self.policy == default_policy()
        &&& self.rules@.len() == 0
        &&& self.center_mode == CenterMode::Symmetric
        &&& self.middle_click_action == MiddleClickAction::Nothing
        &&& self.snap == default_snap_config()
    }
}

impl Default for EngineConfig {
    fn default() -> (r: EngineConfig)
        ensures
            r.is_default(),
    {
        EngineConfig {
            enabled: true,
            enable_move: true,
            enable_resize: true,
            raise_on_drag: false,
            restore_maximized_on_move: true,
            policy: ActivationPolicy::default(),
            rules: Vec::new(),
            center_mode: CenterMode::Symmetric,
            middle_click_action: MiddleClickAction::Nothing,
            snap: SnapEngineConfig::default(),
        }
    }
}

} // verus!
