# zerolaunch

The decision-making core of the ZeroLaunch launcher and of its release
build tool, written in Verus and proved against its contracts.

- `src/setting_window_state.rs` — the stored settings-window geometry and
  its partial updates.
- `src/window_layout.rs` — where the settings window is placed on a monitor.
- `src/storage.rs` — the storage manager's write-back cache (built on
  `dashmap`), transfer-reply handling and first-start decisions.
- `src/icon.rs` — icon cache file names (bincode + BLAKE3), the index of
  cached and in-flight icon requests, and the icon plan for search results.
- `src/build_plan.rs` — release targets, build command lines and artifact
  names.
- `src/ui.rs` — computed replies of UI commands (background picture,
  dominant-colour CSS).
- `src/text.rs` — character-level string searches used by the above.

`app/` holds the parts that do I/O: the `xtask` build tool's command line,
process runs and packaging, the asynchronous storage and icon managers,
serde forms of the configuration types, and the floating-point window
sizing.
The Tauri window commands (search bar update, hiding the main window,
showing the settings and welcome windows, the system theme) are not
carried over: Tauri is not a dependency of this crate.
