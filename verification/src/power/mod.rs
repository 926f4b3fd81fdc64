//! Power management: the power policy service's data and the device and charger state machines.
pub mod policy;
