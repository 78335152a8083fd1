//! Finding out which window has the focus, and which windows are open.
pub mod linux;
pub mod windows;
