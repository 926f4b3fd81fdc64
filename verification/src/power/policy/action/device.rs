//! Device state machine actions
use vstd::prelude::*;

use core::marker::PhantomData;

use super::super::policy::RequestData;
use super::super::PowerCapability;
use super::{provider_capability_of, ConnectedConsumer, ConnectedProvider, Detached, DeviceState, Idle, Kind, State, StateKind};

verus! {

/// Device state machine control
pub struct Device<S: Kind> {
    _state: PhantomData<S>,
}

/// Enum to contain any state
pub enum AnyState {
    /// Detached
    Detached(Device<Detached>),
    /// Idle
    Idle(Device<Idle>),
    /// Connected Consumer
    ConnectedConsumer(Device<ConnectedConsumer>),
    /// Connected Provider
    ConnectedProvider(Device<ConnectedProvider>),
}

impl AnyState {
    /// The kind of the contained state
    pub open spec fn kind_spec(&self) -> StateKind {
        match self {
            AnyState::Detached(_) => StateKind::Detached,
            AnyState::Idle(_) => StateKind::Idle,
            AnyState::ConnectedConsumer(_) => StateKind::ConnectedConsumer,
            AnyState::ConnectedProvider(_) => StateKind::ConnectedProvider,
        }
    }

    /// Return the kind of the contained state
    pub fn kind(&self) -> (r: StateKind)
        ensures
            r == self.kind_spec(),
    {
        match self {
            AnyState::Detached(_) => StateKind::Detached,
            AnyState::Idle(_) => StateKind::Idle,
            AnyState::ConnectedConsumer(_) => StateKind::ConnectedConsumer,
            AnyState::ConnectedProvider(_) => StateKind::ConnectedProvider,
        }
    }
}

impl<S: Kind> Device<S> {
    /// Create a new state machine
    pub(crate) fn new() -> Self {
        Device { _state: PhantomData }
    }

    /// Detach the device: it becomes detached, forgets its consumer capability and leaves
    /// recovery, and the power policy service is to be told with the returned request. The new
    /// handle is valid once the service has completed that request.
    pub fn detach(self, device: &mut DeviceState) -> (r: (Device<Detached>, RequestData))
        ensures
            *final(device) == (DeviceState {
                state: State::Detached,
                consumer_capability: None,
                in_recovery: false,
            }),
            r.1 == RequestData::NotifyDetached,
    {
        device.state = State::Detached;
        device.consumer_capability = None;
        device.in_recovery = false;
        (Device::new(), RequestData::NotifyDetached)
    }

    /// Disconnect this device: it becomes idle and leaves recovery, and the power policy service
    /// is to be told with the returned request
    fn disconnect_internal(&self, device: &mut DeviceState) -> (r: RequestData)
        ensures
            *final(device) == (DeviceState { state: State::Idle, in_recovery: false, ..*old(device) }),
            r == RequestData::NotifyDisconnect,
    {
        device.state = State::Idle;
        device.in_recovery = false;
        RequestData::NotifyDisconnect
    }

    /// Record an updated consumer power capability; the power policy service is to be told with
    /// the returned request
    fn notify_consumer_power_capability_internal(
        &self,
        device: &mut DeviceState,
        capability: Option<PowerCapability>,
    ) -> (r: RequestData)
        ensures
            *final(device) == (DeviceState { consumer_capability: capability, ..*old(device) }),
            r == RequestData::NotifyConsumerCapability(capability),
    {
        device.consumer_capability = capability;
        RequestData::NotifyConsumerCapability(capability)
    }

    /// The request that asks the power policy service for the given power, or `None` when the
    /// device already provides exactly that power and the service is already aware of it
    fn request_provider_power_capability_internal(&self, device: &DeviceState, capability: PowerCapability) -> (r:
        Option<RequestData>)
        ensures
            r == (if provider_capability_of(device.state) == Some(capability) {
                None
            } else {
                Some(RequestData::RequestProviderCapability(capability))
            }),
    {
        match device.provider_capability() {
            Some(current) => {
                if current == capability {
                    return None;
                }
            },
            None => {},
        }
        Some(RequestData::RequestProviderCapability(capability))
    }
}

impl Device<Detached> {
    /// Attach the device: it becomes idle, and the power policy service is to be told with the
    /// returned request
    pub fn attach(self, device: &mut DeviceState) -> (r: (Device<Idle>, RequestData))
        ensures
            *final(device) == (DeviceState { state: State::Idle, ..*old(device) }),
            r.1 == RequestData::NotifyAttached,
    {
        device.state = State::Idle;
        (Device::new(), RequestData::NotifyAttached)
    }
}

impl Device<Idle> {
    /// Record an updated consumer power capability; the power policy service is to be told with
    /// the returned request
    pub fn notify_consumer_power_capability(&self, device: &mut DeviceState, capability: Option<PowerCapability>) -> (r:
        RequestData)
        ensures
            *final(device) == (DeviceState { consumer_capability: capability, ..*old(device) }),
            r == RequestData::NotifyConsumerCapability(capability),
    {
        self.notify_consumer_power_capability_internal(device, capability)
    }

    /// The request that asks the power policy service for the given power, or `None` when the
    /// device already provides exactly that power
    pub fn request_provider_power_capability(&self, device: &DeviceState, capability: PowerCapability) -> (r: Option<
        RequestData,
    >)
        ensures
            r == (if provider_capability_of(device.state) == Some(capability) {
                None
            } else {
                Some(RequestData::RequestProviderCapability(capability))
            }),
    {
        self.request_provider_power_capability_internal(device, capability)
    }
}

impl Device<ConnectedConsumer> {
    /// Disconnect this device: it becomes idle and leaves recovery, and the power policy service
    /// is to be told with the returned request
    pub fn disconnect(self, device: &mut DeviceState) -> (r: (Device<Idle>, RequestData))
        ensures
            *final(device) == (DeviceState { state: State::Idle, in_recovery: false, ..*old(device) }),
            r.1 == RequestData::NotifyDisconnect,
    {
        let request = self.disconnect_internal(device);
        (Device::new(), request)
    }

    /// Record an updated consumer power capability; the power policy service is to be told with
    /// the returned request
    pub fn notify_consumer_power_capability(&self, device: &mut DeviceState, capability: Option<PowerCapability>) -> (r:
        RequestData)
        ensures
            *final(device) == (DeviceState { consumer_capability: capability, ..*old(device) }),
            r == RequestData::NotifyConsumerCapability(capability),
    {
        self.notify_consumer_power_capability_internal(device, capability)
    }
}

impl Device<ConnectedProvider> {
    /// Disconnect this device: it becomes idle and leaves recovery, and the power policy service
    /// is to be told with the returned request
    pub fn disconnect(self, device: &mut DeviceState) -> (r: (Device<Idle>, RequestData))
        ensures
            *final(device) == (DeviceState { state: State::Idle, in_recovery: false, ..*old(device) }),
            r.1 == RequestData::NotifyDisconnect,
    {
        let request = self.disconnect_internal(device);
        (Device::new(), request)
    }

    /// The request that asks the power policy service for the given power, or `None` when the
    /// device already provides exactly that power
    pub fn request_provider_power_capability(&self, device: &DeviceState, capability: PowerCapability) -> (r: Option<
        RequestData,
    >)
        ensures
            r == (if provider_capability_of(device.state) == Some(capability) {
                None
            } else {
                Some(RequestData::RequestProviderCapability(capability))
            }),
    {
        self.request_provider_power_capability_internal(device, capability)
    }
}

} // verus!
