//! Message definitions for external type-C commands
use vstd::prelude::*;

use super::controller::ControllerStatus;
use super::{ControllerId, GlobalPortId};

verus! {

/// Data for controller-specific commands
#[derive(Copy, Clone, Debug, PartialEq, Eq, Structural)]
pub enum ControllerCommandData {
    /// Get controller status
    ControllerStatus,
}

/// Controller-specific commands
#[derive(Copy, Clone, Debug, PartialEq, Eq, Structural)]
pub struct ControllerCommand {
    /// Controller ID
    pub id: ControllerId,
    /// Command data
    pub data: ControllerCommandData,
}

/// Response data for controller-specific commands
#[derive(Copy, Clone, Debug)]
pub enum ControllerResponseData<'a> {
    /// Get controller status
    ControllerStatus(ControllerStatus<'a>),
}

/// Data for port-specific commands
#[derive(Copy, Clone, Debug, PartialEq, Eq, Structural)]
pub enum PortCommandData {
    /// Get port status
    PortStatus,
}

/// Port-specific commands
#[derive(Copy, Clone, Debug, PartialEq, Eq, Structural)]
pub struct PortCommand {
    /// Port ID
    pub port: GlobalPortId,
    /// Command data
    pub data: PortCommandData,
}

/// External commands for type-C service
#[derive(Copy, Clone, Debug, PartialEq, Eq, Structural)]
pub enum Command {
    /// Port command
    Port(PortCommand),
    /// Controller command
    Controller(ControllerCommand),
}

} // verus!
