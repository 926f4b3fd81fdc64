//! Embedded controller services: message formats, HID descriptor handling, type-C event
//! bookkeeping and power-policy state, specified and proved with Verus.
pub mod battery_service;
pub mod battery_service_relay;
pub mod cfu;
pub mod debug_service_messages;
pub mod ec_type;
pub mod hid;
pub mod keyboard;
pub mod power;
pub mod relay;
pub mod transport;
pub mod type_c;
