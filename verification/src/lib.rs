//! Automatic layer switching for QMK/Vial keyboards: regex rules map the title
//! of the focused window to a keyboard layer, with a default layer for every
//! other window.
//!
//! The library holds what is decided from plain values; the surrounding program
//! reads the operating system, performs what the library asks for and hands the
//! outcome back, and lays out the window in pixels.

pub mod autostart;
pub mod config;
pub mod device;
pub mod diagnostics;
pub mod hid;
pub mod icon;
pub mod launch;
pub mod matcher;
pub mod pattern;
pub mod rules;
pub mod settings;
pub mod text;
pub mod tray;
pub mod window;
