//! Capture-session control for a live network-traffic monitor.

pub mod capture;
pub mod controller;
pub mod device;
pub mod filters;
pub mod generation;
pub mod protocol;
pub mod status;
pub mod styles;
pub mod traffic;
