//! Alt3rSnap: move and resize windows by dragging with a modifier key.
//!
//! The crate is the platform-independent core: the drag state machine, the
//! snap-zone engine, window rules, geometry, configuration bridging and the
//! decisions the Windows adapter takes around them (hook decoding, batch
//! handling, fullscreen detection, tray menu, message routing).

pub mod adapter;
pub mod autostart;
pub mod config;
pub mod engine;
pub mod fullscreen;
pub mod hook;
pub mod monitors;
pub mod overlay;
pub mod swallow_latch;
pub mod tool_window;
pub mod tray;
pub mod win_api;
pub mod win_api_trait;
