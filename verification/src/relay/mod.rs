//! Relay services
pub mod hid;
pub mod mctp;
