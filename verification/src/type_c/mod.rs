//! Type-C service: identifiers, port event bookkeeping and message data.
use vstd::prelude::*;

pub mod controller;
pub mod event;
pub mod external;
pub mod ucsi;

verus! {

/// Global port ID, used to uniquely identify a port
#[derive(Copy, Clone, Debug, PartialEq, Eq, Structural)]
pub struct GlobalPortId(pub u8);

/// Port ID local to a controller: the index of the port among the controller's ports
#[derive(Copy, Clone, Debug, PartialEq, Eq, Structural)]
pub struct LocalPortId(pub u8);

/// Controller ID
#[derive(Copy, Clone, Debug, PartialEq, Eq, Structural)]
pub struct ControllerId(pub u8);

/// Errors of port and controller operations
#[derive(Copy, Clone, Debug, PartialEq, Eq, Structural)]
pub enum PdError {
    /// Invalid parameters, such as a port the controller does not have
    InvalidParams,
    /// A response other than the one the command calls for
    InvalidResponse,
    /// No such controller
    InvalidController,
    /// No controller has the port
    InvalidPort,
    /// The controller did not answer in time
    Timeout,
}

} // verus!
