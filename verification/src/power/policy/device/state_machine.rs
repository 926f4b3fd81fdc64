//! States for the compile time enforced device state machine
//!
//! A handle of type `Device<S>` or `Policy<S>` is handed out only while the
//! device is in a state of kind `S` (see `Device::try_device_state_machine`),
//! and each transition consumes the handle and gives back one for the state
//! that the transition leads to. The transitions change the device's state;
//! what they must tell the other side, and what the other side answered, is
//! passed in and out as plain values.
use vstd::prelude::*;

use core::marker::PhantomData;

use super::super::policy;
use super::super::{Error, PowerCapability};
use super::{InternalResponseData, InternalState, ResponseData, State, StateKind};

verus! {

/// Trait to provide the kind of a state type
pub trait Kind {
    /// The kind of this state type
    spec fn kind_spec() -> StateKind;

    /// Return the kind of a state type
    fn kind() -> (r: StateKind)
        ensures
            r == Self::kind_spec(),
    ;
}

/// State machine for device that is detached
pub struct Detached;

impl Kind for Detached {
    open spec fn kind_spec() -> StateKind {
        StateKind::Detached
    }

    fn kind() -> (r: StateKind) {
        StateKind::Detached
    }
}

/// State machine for device that is attached
pub struct Attached;

impl Kind for Attached {
    open spec fn kind_spec() -> StateKind {
        StateKind::Attached
    }

    fn kind() -> (r: StateKind) {
        StateKind::Attached
    }
}

/// State machine for device that is sourcing power
pub struct Source;

impl Kind for Source {
    open spec fn kind_spec() -> StateKind {
        StateKind::Source
    }

    fn kind() -> (r: StateKind) {
        StateKind::Source
    }
}

/// State machine for device that is sinking power
pub struct Sink;

impl Kind for Sink {
    open spec fn kind_spec() -> StateKind {
        StateKind::Sink
    }

    fn kind() -> (r: StateKind) {
        StateKind::Sink
    }
}

/// The result of a request whose response must be `Complete`: the error of
/// a failed request, or `Ok` for a completed one.
pub open spec fn completed(response: InternalResponseData) -> Result<(), Error> {
    match response {
        Ok(ResponseData::Complete) => Ok(()),
        Err(e) => Err(e),
    }
}

/// Device state machine control
pub struct Device<S: Kind> {
    _state: PhantomData<S>,
}

impl<S: Kind> Device<S> {
    /// Create a new state machine
    pub(super) fn new() -> Self {
        Device { _state: PhantomData }
    }

    /// Detach the device: its state becomes `Detached`, and the power policy
    /// service is to be told with the returned request. The new handle is
    /// valid once the service has completed that request.
    pub fn detach(self, device: &mut super::Device) -> (r: (Device<Detached>, policy::RequestData))
        ensures
            final(device).ident() == old(device).ident(),
            final(device).current() == (InternalState {
                state: State::Detached,
                ..old(device).current()
            }),
            r.1 == policy::RequestData::NotifyDetached,
    {
        device.set_state(State::Detached);
        (Device::new(), policy::RequestData::NotifyDetached)
    }

    /// Disconnect this device: its state becomes `Attached`, and the power
    /// policy service is to be told with the returned request
    fn disconnect_internal(&self, device: &mut super::Device) -> (r: policy::RequestData)
        ensures
            final(device).ident() == old(device).ident(),
            final(device).current() == (InternalState {
                state: State::Attached,
                ..old(device).current()
            }),
            r == policy::RequestData::NotifyDisconnect,
    {
        device.set_state(State::Attached);
        policy::RequestData::NotifyDisconnect
    }
}

impl Device<Detached> {
    /// Attach the device: its state becomes `Attached`, and the power policy
    /// service is to be told with the returned request
    pub fn attach(self, device: &mut super::Device) -> (r: (Device<Attached>, policy::RequestData))
        ensures
            final(device).ident() == old(device).ident(),
            final(device).current() == (InternalState {
                state: State::Attached,
                ..old(device).current()
            }),
            r.1 == policy::RequestData::NotifyAttached,
    {
        device.set_state(State::Attached);
        (Device::new(), policy::RequestData::NotifyAttached)
    }
}

impl Device<Attached> {
    /// Record an updated sink power capability; the power policy service is
    /// to be told with the returned request
    pub fn notify_sink_power_capability(
        &self,
        device: &mut super::Device,
        capability: Option<PowerCapability>,
    ) -> (r: policy::RequestData)
        ensures
            final(device).ident() == old(device).ident(),
            final(device).current() == (InternalState {
                sink_capability: capability,
                ..old(device).current()
            }),
            r == policy::RequestData::NotifyConsumerCapability(capability),
    {
        device.update_sink_capability(capability);
        policy::RequestData::NotifyConsumerCapability(capability)
    }

    /// The request that asks the power policy service for the given power
    pub fn request_source_power_capability(&self, capability: PowerCapability) -> (r:
        policy::RequestData)
        ensures
            r == policy::RequestData::RequestProviderCapability(capability),
    {
        policy::RequestData::RequestProviderCapability(capability)
    }
}

impl Device<Sink> {
    /// Disconnect this device: its state becomes `Attached`, and the power
    /// policy service is to be told with the returned request
    pub fn disconnect(self, device: &mut super::Device) -> (r: (Device<Attached>, policy::RequestData))
        ensures
            final(device).ident() == old(device).ident(),
            final(device).current() == (InternalState {
                state: State::Attached,
                ..old(device).current()
            }),
            r.1 == policy::RequestData::NotifyDisconnect,
    {
        let request = self.disconnect_internal(device);
        (Device::new(), request)
    }
}

impl Device<Source> {
    /// Disconnect this device: its state becomes `Attached`, and the power
    /// policy service is to be told with the returned request
    pub fn disconnect(self, device: &mut super::Device) -> (r: (Device<Attached>, policy::RequestData))
        ensures
            final(device).ident() == old(device).ident(),
            final(device).current() == (InternalState {
                state: State::Attached,
                ..old(device).current()
            }),
            r.1 == policy::RequestData::NotifyDisconnect,
    {
        let request = self.disconnect_internal(device);
        (Device::new(), request)
    }
}

/// Policy state machine control
pub struct Policy<S: Kind> {
    _state: PhantomData<S>,
}

impl<S: Kind> Policy<S> {
    /// Create a new state machine
    pub(super) fn new() -> Self {
        Policy { _state: PhantomData }
    }
}

impl Policy<Attached> {
    /// Connect this device as a sink, given the device's `response` to
    /// `RequestData::ConnectSink(capability)`: on completion its state becomes
    /// `Sink(capability)`; on failure nothing changes and the error is returned.
    pub fn connect_sink(
        self,
        device: &mut super::Device,
        capability: PowerCapability,
        response: InternalResponseData,
    ) -> (r: Result<Policy<Sink>, Error>)
        ensures
            final(device).ident() == old(device).ident(),
            completed(response) is Ok ==> r is Ok && final(device).current() == (InternalState {
                state: State::Sink(capability),
                ..old(device).current()
            }),
            completed(response) is Err ==> r is Err && r->Err_0 == completed(response)->Err_0
                && final(device).current() == old(device).current(),
    {
        match response {
            Ok(data) => match data.complete_or_err() {
                Ok(()) => {
                    device.set_state(State::Sink(capability));
                    Ok(Policy::new())
                },
                Err(e) => Err(e),
            },
            Err(e) => Err(e),
        }
    }

    /// Connect this device as a source, given the device's `response` to
    /// `RequestData::ConnectSource(capability)`: on completion its state
    /// becomes `Source(capability)` and the device-side handle of that state is
    /// returned; on failure nothing changes and the error is returned.
    pub fn connect_source(
        self,
        device: &mut super::Device,
        capability: PowerCapability,
        response: InternalResponseData,
    ) -> (r: Result<Device<Source>, Error>)
        ensures
            final(device).ident() == old(device).ident(),
            completed(response) is Ok ==> r is Ok && final(device).current() == (InternalState {
                state: State::Source(capability),
                ..old(device).current()
            }),
            completed(response) is Err ==> r is Err && r->Err_0 == completed(response)->Err_0
                && final(device).current() == old(device).current(),
    {
        match response {
            Ok(data) => match data.complete_or_err() {
                Ok(()) => {
                    device.set_state(State::Source(capability));
                    Ok(Device::new())
                },
                Err(e) => Err(e),
            },
            Err(e) => Err(e),
        }
    }
}

impl Policy<Sink> {
    /// Disconnect this device, given its `response` to `RequestData::Disconnect`
    pub fn disconnect(self, response: InternalResponseData) -> (r: Result<Policy<Attached>, Error>)
        ensures
            completed(response) is Ok <==> r is Ok,
            r is Err ==> r->Err_0 == completed(response)->Err_0,
    {
        match response {
            Ok(data) => match data.complete_or_err() {
                Ok(()) => Ok(Policy::new()),
                Err(e) => Err(e),
            },
            Err(e) => Err(e),
        }
    }
}

impl Policy<Source> {
    /// Disconnect this device, given its `response` to `RequestData::Disconnect`
    pub fn disconnect(self, response: InternalResponseData) -> (r: Result<Policy<Attached>, Error>)
        ensures
            completed(response) is Ok <==> r is Ok,
            r is Err ==> r->Err_0 == completed(response)->Err_0,
    {
        match response {
            Ok(data) => match data.complete_or_err() {
                Ok(()) => Ok(Policy::new()),
                Err(e) => Err(e),
            },
            Err(e) => Err(e),
        }
    }
}

} // verus!
