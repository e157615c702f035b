//! Verified core of the ZeroLaunch launcher: window-state configuration,
//! the storage write-back cache, the icon cache index and the release
//! build planner.
pub mod setting_window_state;
pub mod text;
pub mod build_plan;
pub mod storage;
pub mod icon;
pub mod window_layout;
pub mod ui;
