//! Keyboard-driven launcher core: input handling, suggestion building,
//! shortcut matching, configuration defaults and hotkey detection.

pub mod text;
pub mod keys;
pub mod config;
pub mod app;
pub mod view;
pub mod hotkey;
pub mod fixed_hotkey;
