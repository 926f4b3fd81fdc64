//! Charger device data: identifiers, events, errors and states
use vstd::prelude::*;

use super::{Error, PowerCapability};

verus! {

/// Charger Device ID new type
#[derive(Debug, Clone, Copy, PartialEq, Eq, Structural)]
pub struct ChargerId(pub u8);

/// OEM-specific state IDs
#[derive(Debug, Clone, Copy, PartialEq, Eq, Structural)]
pub struct OemStateId(pub u8);

/// Data for a device request
#[derive(Debug, Clone, Copy, PartialEq, Eq, Structural)]
pub enum ChargerEvent {
    /// Charger finished initialization sequence
    Initialized,
    /// PSU attached and we want to switch to it
    PsuAttached,
    /// PSU detached
    PsuDetached,
    /// A timeout of some sort was detected
    Timeout,
    /// An error occured on the bus
    BusError,
    /// OEM specific events
    Oem(OemStateId),
}

/// Charger state errors
#[derive(Debug, Clone, Copy, PartialEq, Eq, Structural)]
pub enum ChargerError {
    /// Charger received command in an invalid state
    InvalidState(State),
    /// Charger hardware timed out responding
    Timeout,
    /// Charger underlying bus error
    BusError,
}

/// The power policy error that a charger error stands for.
pub open spec fn policy_error_of(e: ChargerError) -> Error {
    match e {
        ChargerError::InvalidState(_) | ChargerError::Timeout => Error::Failed,
        ChargerError::BusError => Error::Bus,
    }
}

impl From<ChargerError> for Error {
    fn from(value: ChargerError) -> (r: Self)
        ensures
            r == policy_error_of(value),
    {
        match value {
            ChargerError::InvalidState(_) | ChargerError::Timeout => Self::Failed,
            ChargerError::BusError => Self::Bus,
        }
    }
}

impl vstd::std_specs::convert::FromSpecImpl<ChargerError> for Error {
    open spec fn obeys_from_spec() -> bool {
        true
    }

    open spec fn from_spec(value: ChargerError) -> Error {
        policy_error_of(value)
    }
}

/// Data for a device request
#[derive(Debug, Clone, Copy, PartialEq, Eq, Structural)]
pub enum PolicyEvent {
    /// Request to initialize charger hardware
    InitRequest,
    /// PSU attached and we want to switch to it
    PolicyConfiguration(PowerCapability),
    /// OEM specific events
    Oem(OemStateId),
}

/// Data for a device request
#[derive(Debug, Clone, Copy, PartialEq, Eq, Structural)]
pub enum ChargerResponseData {
    /// Command completed
    Ack,
}

/// Response for charger requests from policy commands
pub type ChargerResponse = Result<ChargerResponseData, ChargerError>;

/// Current state of the charger
#[derive(Debug, Clone, Copy, PartialEq, Eq, Structural)]
pub enum State {
    /// Device is initializing
    Init,
    /// Device is waiting for an event
    Idle,
    /// PSU is attached and device can charge if desired
    PsuAttached,
    /// PSU is detached
    PsuDetached,
    /// OEM specific state(s)
    Oem(OemStateId),
}

/// Current state of the charger
#[derive(Debug, Clone, Copy, PartialEq, Eq, Structural)]
pub struct InternalState {
    /// Charger device state
    pub state: State,
    /// Current charger capability
    pub capability: Option<PowerCapability>,
}

/// Channel size for charger requests
pub const CHARGER_CHANNEL_SIZE: usize = 1;

} // verus!
