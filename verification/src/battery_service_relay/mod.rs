//! Battery service relay: the ACPI battery requests that travel over the MCTP relay.
pub mod serialization;
