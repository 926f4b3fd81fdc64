//! Policy state machine actions
use vstd::prelude::*;

use core::marker::PhantomData;

use super::super::device::state_machine::completed;
use super::super::device::InternalResponseData;
use super::super::{Error, PowerCapability};
use super::{provider_capability_of, ConnectedConsumer, ConnectedProvider, Detached, DeviceState, Idle, Kind, State, StateKind};

verus! {

/// Policy state machine control
pub struct Policy<S: Kind> {
    _state: PhantomData<S>,
}

/// Enum to contain any state
pub enum AnyState {
    /// Detached
    Detached(Policy<Detached>),
    /// Idle
    Idle(Policy<Idle>),
    /// Connected Consumer
    ConnectedConsumer(Policy<ConnectedConsumer>),
    /// Connected Provider
    ConnectedProvider(Policy<ConnectedProvider>),
}

impl AnyState {
    /// The kind of the contained state
    pub open spec fn kind_spec(&self) -> StateKind {
        match self {
            AnyState::Detached(_) => StateKind::Detached,
            AnyState::Idle(_) => StateKind::Idle,
            AnyState::ConnectedConsumer(_) => StateKind::ConnectedConsumer,
            AnyState::ConnectedProvider(_) => StateKind::ConnectedProvider,
        }
    }

    /// Return the kind of the contained state
    pub fn kind(&self) -> (r: StateKind)
        ensures
            r == self.kind_spec(),
    {
        match self {
            AnyState::Detached(_) => StateKind::Detached,
            AnyState::Idle(_) => StateKind::Idle,
            AnyState::ConnectedConsumer(_) => StateKind::ConnectedConsumer,
            AnyState::ConnectedProvider(_) => StateKind::ConnectedProvider,
        }
    }
}

impl<S: Kind> Policy<S> {
    /// Create a new state machine
    pub(crate) fn new() -> Self {
        Policy { _state: PhantomData }
    }

    /// Finish a disconnect, given the device's `response` to the disconnect command: on
    /// completion the device becomes idle and leaves recovery; on failure nothing changes.
    fn disconnect_internal(&self, device: &mut DeviceState, response: InternalResponseData) -> (r: Result<(), Error>)
        ensures
            r == completed(response),
            r is Ok ==> *final(device) == (DeviceState { state: State::Idle, in_recovery: false, ..*old(device) }),
            r is Err ==> *final(device) == *old(device),
    {
        match response {
            Ok(data) => match data.complete_or_err() {
                Ok(()) => {
                    device.state = State::Idle;
                    device.in_recovery = false;
                    Ok(())
                },
                Err(e) => Err(e),
            },
            Err(e) => Err(e),
        }
    }

    /// Finish connecting as a provider, given the device's `response` to the connect-provider
    /// command: on completion the device provides `capability`; on failure nothing changes.
    fn connect_provider_internal(
        &self,
        device: &mut DeviceState,
        capability: PowerCapability,
        response: InternalResponseData,
    ) -> (r: Result<(), Error>)
        ensures
            r == completed(response),
            r is Ok ==> *final(device) == (DeviceState {
                state: State::ConnectedProvider(capability),
                ..*old(device)
            }),
            r is Err ==> *final(device) == *old(device),
    {
        match response {
            Ok(data) => match data.complete_or_err() {
                Ok(()) => {
                    device.state = State::ConnectedProvider(capability);
                    Ok(())
                },
                Err(e) => Err(e),
            },
            Err(e) => Err(e),
        }
    }
}

impl Policy<Idle> {
    /// Connect this device as a consumer, given its `response` to the connect-consumer command:
    /// on completion it consumes `capability`; on failure nothing changes and the error is
    /// returned.
    pub fn connect_consumer(self, device: &mut DeviceState, capability: PowerCapability, response: InternalResponseData) -> (r:
        Result<Policy<ConnectedConsumer>, Error>)
        ensures
            r is Ok <==> completed(response) is Ok,
            r is Err ==> r->Err_0 == completed(response)->Err_0 && *final(device) == *old(device),
            r is Ok ==> *final(device) == (DeviceState {
                state: State::ConnectedConsumer(capability),
                ..*old(device)
            }),
    {
        match response {
            Ok(data) => match data.complete_or_err() {
                Ok(()) => {
                    device.state = State::ConnectedConsumer(capability);
                    Ok(Policy::new())
                },
                Err(e) => Err(e),
            },
            Err(e) => Err(e),
        }
    }

    /// Connect this device as a provider, given its `response` to the connect-provider command:
    /// on completion it provides `capability`; on failure nothing changes and the error is
    /// returned.
    pub fn connect_provider(self, device: &mut DeviceState, capability: PowerCapability, response: InternalResponseData) -> (r:
        Result<Policy<ConnectedProvider>, Error>)
        ensures
            r is Ok <==> completed(response) is Ok,
            r is Err ==> r->Err_0 == completed(response)->Err_0 && *final(device) == *old(device),
            r is Ok ==> *final(device) == (DeviceState {
                state: State::ConnectedProvider(capability),
                ..*old(device)
            }),
    {
        match self.connect_provider_internal(device, capability, response) {
            Ok(()) => Ok(Policy::new()),
            Err(e) => Err(e),
        }
    }
}

impl Policy<ConnectedConsumer> {
    /// Disconnect this device, given its `response` to the disconnect command: on completion it
    /// becomes idle and leaves recovery; on failure nothing changes and the error is returned.
    pub fn disconnect(self, device: &mut DeviceState, response: InternalResponseData) -> (r: Result<Policy<Idle>, Error>)
        ensures
            r is Ok <==> completed(response) is Ok,
            r is Err ==> r->Err_0 == completed(response)->Err_0 && *final(device) == *old(device),
            r is Ok ==> *final(device) == (DeviceState { state: State::Idle, in_recovery: false, ..*old(device) }),
    {
        match self.disconnect_internal(device, response) {
            Ok(()) => Ok(Policy::new()),
            Err(e) => Err(e),
        }
    }
}

impl Policy<ConnectedProvider> {
    /// Disconnect this device, given its `response` to the disconnect command: on completion it
    /// becomes idle and leaves recovery; on failure it enters recovery and the error is returned.
    pub fn disconnect(self, device: &mut DeviceState, response: InternalResponseData) -> (r: Result<Policy<Idle>, Error>)
        ensures
            r is Ok <==> completed(response) is Ok,
            r is Err ==> r->Err_0 == completed(response)->Err_0 && *final(device) == (DeviceState {
                in_recovery: true,
                ..*old(device)
            }),
            r is Ok ==> *final(device) == (DeviceState { state: State::Idle, in_recovery: false, ..*old(device) }),
    {
        match self.disconnect_internal(device, response) {
            Ok(()) => Ok(Policy::new()),
            Err(e) => {
                device.in_recovery = true;
                Err(e)
            },
        }
    }

    /// Connect this device as a provider again with a new capability, given its `response` to
    /// the connect-provider command: on completion it provides `capability`; on failure nothing
    /// changes and the error is returned.
    pub fn connect_provider(&self, device: &mut DeviceState, capability: PowerCapability, response: InternalResponseData) -> (r:
        Result<Policy<ConnectedProvider>, Error>)
        ensures
            r is Ok <==> completed(response) is Ok,
            r is Err ==> r->Err_0 == completed(response)->Err_0 && *final(device) == *old(device),
            r is Ok ==> *final(device) == (DeviceState {
                state: State::ConnectedProvider(capability),
                ..*old(device)
            }),
    {
        match self.connect_provider_internal(device, capability, response) {
            Ok(()) => Ok(Policy::new()),
            Err(e) => Err(e),
        }
    }

    /// The power this device provides
    pub fn power_capability(&self, device: &DeviceState) -> (r: PowerCapability)
        requires
            provider_capability_of(device.state) is Some,
        ensures
            Some(r) == provider_capability_of(device.state),
    {
        device.provider_capability().unwrap()
    }
}

} // verus!
