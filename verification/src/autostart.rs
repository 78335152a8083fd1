//! Starting at login. Linux: an XDG autostart entry. Windows: a value under the
//! per-user `Run` registry key. Both point at the program's own path.
pub mod desktop_entry;
pub mod run_key;
