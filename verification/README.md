# alt3rsnap

Move and resize windows by dragging with a modifier key (Windows), with
edge snapping, window rules and a tray icon.

## Layout

- `src/` — the library, verified with Verus:
  - `engine/` — the drag state machine (`Engine::handle`, specified by
    `handled`), modifiers and activation policy, geometry and the 3×3
    resize grid, window rules (exact, glob and regex patterns), snap zones
    and their engagement, and `laws.rs`, the properties that span
    transitions;
  - `config.rs` — the file configuration and its bridge to the engine's;
  - `adapter.rs`, `hook.rs`, `fullscreen.rs`, `win_api.rs`, `tray.rs`,
    `tool_window.rs`, `overlay.rs`, `monitors.rs`, `swallow_latch.rs`,
    `autostart.rs` — the decisions the Windows adapter takes: decoding hook
    and window messages, batch handling, fullscreen detection, the tray
    menu, the monitor-cache debounce, the middle-button latch and the
    autostart plans;
  - `win_api_trait.rs` — the adapter's window-system boundary and a
    recording stand-in.
- `tests/` — tests of the library.
- `app/` — the Windows program: hooks, Win32 calls, registry, files, TOML
  (serde copies of the file-configuration types), logging, and the float
  arithmetic of the resize grid.
