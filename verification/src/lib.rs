//! Profiles, fan curves, power limits and daemon protocol of the Z13 helper.

pub mod apply;
pub mod client;
pub mod config;
pub mod config_store;
pub mod controller;
pub mod ctl;
pub mod curve;
pub mod debounce;
pub mod envelope;
pub mod error;
pub mod fan_service;
pub mod gamescope;
pub mod hud;
pub mod json;
pub mod label;
pub mod number;
pub mod power;
pub mod profile;
pub mod profile_coordinator;
pub mod protocol;
pub mod subscribe;
pub mod sync;
pub mod text;
pub mod text_map;
pub mod ui;
pub mod z13ctl;
