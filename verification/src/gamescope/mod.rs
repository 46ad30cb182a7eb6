//! The overlay inside a gamescope session: its displays, its windows and what
//! the X server is told of them.

pub mod displays;
pub mod overlay;
pub mod windows;
