//! The z13ctl daemon: its messages, its client, its fan companion and the
//! profiles that are kept for it.

pub mod apply;
pub mod client;
pub mod config;
pub mod curve;
pub mod debounce;
pub mod error;
pub mod label;
pub mod manual_fan;
pub mod panel;
pub mod profile;
pub mod types;
