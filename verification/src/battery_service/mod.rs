//! Battery service: fuel gauge device data and the decisions of the fuel gauge handlers.
pub mod device;
pub mod fuel_gauge;
