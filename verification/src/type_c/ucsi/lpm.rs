//! LPM (local policy manager) commands and responses
use vstd::prelude::*;

use crate::type_c::{GlobalPortId, PdError};

verus! {

/// Connector reset types
#[derive(Copy, Clone, Debug, PartialEq, Eq, Structural)]
#[allow(missing_docs)]
pub enum ResetType {
    Hard,
    Data,
}

/// LPM command data
#[derive(Copy, Clone, Debug, PartialEq, Eq, Structural)]
#[allow(missing_docs)]
pub enum CommandData {
    ConnectorReset(ResetType),
}

/// LPM commands
#[derive(Copy, Clone, Debug, PartialEq, Eq, Structural)]
#[allow(missing_docs)]
pub struct Command {
    pub port: GlobalPortId,
    pub operation: CommandData,
}

/// LPM response data
#[derive(Copy, Clone, Debug, PartialEq, Eq, Structural)]
#[allow(missing_docs)]
pub enum ResponseData {
    Complete,
}

/// LPM command response
pub type Response = Result<ResponseData, PdError>;

} // verus!
