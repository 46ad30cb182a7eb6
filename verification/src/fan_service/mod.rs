//! The manual fan service: curves, requests, sensors and the control loop.

pub mod curve;
pub mod protocol;
pub mod sensors;
pub mod service;
