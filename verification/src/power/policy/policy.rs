//! Requests and responses of the power policy service
use vstd::prelude::*;

use super::{DeviceId, Error, PowerCapability};

verus! {

/// Data for a power policy request
#[derive(Debug, Clone, Copy, PartialEq, Eq, Structural)]
pub enum RequestData {
    /// Notify that a device has attached
    NotifyAttached,
    /// Notify that available power for consumption has changed
    NotifyConsumerCapability(Option<PowerCapability>),
    /// Request the given amount of power to provider
    RequestProviderCapability(PowerCapability),
    /// Notify that a device cannot consume or provide power anymore
    NotifyDisconnect,
    /// Notify that a device has detached
    NotifyDetached,
}

/// Request to the power policy service
#[derive(Debug, Clone, Copy, PartialEq, Eq, Structural)]
pub struct Request {
    /// Device that sent this request
    pub id: DeviceId,
    /// Request data
    pub data: RequestData,
}

/// Data for a power policy response
#[derive(Debug, Clone, Copy, PartialEq, Eq, Structural)]
pub enum ResponseData {
    /// The request was completed successfully
    Complete,
}

impl ResponseData {
    /// Returns an InvalidResponse error if the response is not complete
    pub fn complete_or_err(self) -> (r: Result<(), Error>)
        ensures
            self == ResponseData::Complete ==> r == Ok::<(), Error>(()),
    {
        match self {
            ResponseData::Complete => Ok(()),
        }
    }
}

/// Response from the power policy service
#[derive(Debug, Clone, Copy, PartialEq, Eq, Structural)]
pub struct Response {
    /// Target device
    pub id: DeviceId,
    /// Response data
    pub data: ResponseData,
}

/// Type to provide access to the power policy context for service implementations
pub struct ContextToken(());

impl ContextToken {
    /// Create a new context token, returning None if one was created before.
    ///
    /// `created` records whether a token exists; it is set by the first call.
    pub fn create(created: &mut bool) -> (r: Option<Self>)
        ensures
            r is Some <==> !*old(created),
            *final(created),
    {
        if *created {
            return None;
        }
        *created = true;
        Some(ContextToken(()))
    }
}

} // verus!
