//! Minimize windows of a tiling compositor into tray icons and restore them.
//!
//! The library holds the logic of a minimize/restore session as verified,
//! side-effect free code: the persisted window stack and its file format, the
//! compositor commands, the tray icon and menu object model, the background
//! monitors' decisions and the minimize and restore workflows as step machines.
//! The program around it performs the I/O each step asks for.
pub mod text;

pub mod compositor;
pub mod stack;
pub mod config;
pub mod action;
pub mod tray;
pub mod restore;
pub mod minimize;
pub mod launcher;
