//! Power policy device data and state
use vstd::prelude::*;

use super::{DeviceId, Error, PowerCapability};

pub mod state_machine;

verus! {

/// Most basic device states
#[derive(Debug, Clone, Copy, PartialEq, Eq, Structural)]
pub enum StateKind {
    /// No device attached
    Detached,
    /// Device is attached
    Attached,
    /// Device is sourcing power
    Source,
    /// Device is sinking power
    Sink,
}

/// Current state of the power device
#[derive(Debug, Clone, Copy, PartialEq, Eq, Structural)]
pub enum State {
    /// Device is attached, but is not currently sourcing or sinking power
    Attached,
    /// Device is attached and is currently sourcing power
    Source(PowerCapability),
    /// Device is attached and is currently sinking power
    Sink(PowerCapability),
    /// No device attached
    Detached,
}

/// The kind of a state: the state without its capability.
pub open spec fn kind_of(s: State) -> StateKind {
    match s {
        State::Attached => StateKind::Attached,
        State::Source(_) => StateKind::Source,
        State::Sink(_) => StateKind::Sink,
        State::Detached => StateKind::Detached,
    }
}

impl State {
    /// The kind of this state
    pub fn kind(&self) -> (r: StateKind)
        ensures
            r == kind_of(*self),
    {
        match self {
            State::Attached => StateKind::Attached,
            State::Source(_) => StateKind::Source,
            State::Sink(_) => StateKind::Sink,
            State::Detached => StateKind::Detached,
        }
    }
}

/// Internal device state for power policy
#[derive(Debug, Clone, Copy, PartialEq, Eq, Structural)]
pub struct InternalState {
    /// Current state of the device
    pub state: State,
    /// Current sink capability
    pub sink_capability: Option<PowerCapability>,
}

/// Data for a device request
#[derive(Debug, Clone, Copy, PartialEq, Eq, Structural)]
pub enum RequestData {
    /// Start sinking on this port
    ConnectSink(PowerCapability),
    /// Start sourcing on this port
    ConnectSource(PowerCapability),
    /// Stop sourcing or sinking on this port
    Disconnect,
}

/// Request from power policy service to a device
#[derive(Debug, Clone, Copy, PartialEq, Eq, Structural)]
pub struct Request {
    /// Target device
    pub id: DeviceId,
    /// Request data
    pub data: RequestData,
}

/// Data for a device response
#[derive(Debug, Clone, Copy, PartialEq, Eq, Structural)]
pub enum ResponseData {
    /// The request was successful
    Complete,
}

impl ResponseData {
    /// Returns an InvalidResponse error if the response is not complete
    pub fn complete_or_err(self) -> (r: Result<(), Error>)
        ensures
            self == ResponseData::Complete ==> r == Ok::<(), Error>(()),
    {
        match self {
            ResponseData::Complete => Ok(()),
        }
    }
}

/// Wrapper type to make code cleaner
pub type InternalResponseData = Result<ResponseData, Error>;

/// Response from a device to the power policy service
pub struct Response {
    /// Target device
    pub id: DeviceId,
    /// Response data
    pub data: ResponseData,
}

/// Channel size for device requests
pub const DEVICE_CHANNEL_SIZE: usize = 1;

/// A power device as the power policy sees it: its id and its current state.
///
/// The state changes only through the device-side and policy-side state
/// machines of `state_machine`, which check the state's kind first.
pub struct Device {
    /// Device ID
    id: DeviceId,
    /// Current state of the device
    state: InternalState,
}

impl Device {
    /// The id of this device
    pub closed spec fn ident(&self) -> DeviceId {
        self.id
    }

    /// The current state and sink capability of this device
    pub closed spec fn current(&self) -> InternalState {
        self.state
    }

    /// Create a new device: detached, with no sink capability
    pub fn new(id: DeviceId) -> (r: Self)
        ensures
            r.ident() == id,
            r.current() == (InternalState { state: State::Detached, sink_capability: None }),
    {
        Device { id, state: InternalState { state: State::Detached, sink_capability: None } }
    }

    /// Get the device ID
    pub fn id(&self) -> (r: DeviceId)
        ensures
            r == self.ident(),
    {
        self.id
    }

    /// Returns the current state of the device
    pub fn state(&self) -> (r: State)
        ensures
            r == self.current().state,
    {
        self.state.state
    }

    /// Returns the current sink capability of the device
    pub fn sink_capability(&self) -> (r: Option<PowerCapability>)
        ensures
            r == self.current().sink_capability,
    {
        self.state.sink_capability
    }

    /// Returns true if the device is currently sinking power
    pub fn is_sink(&self) -> (r: bool)
        ensures
            r == (kind_of(self.current().state) == StateKind::Sink),
    {
        self.state.state.kind() == StateKind::Sink
    }

    /// Replace the state, keeping the id and the sink capability
    fn set_state(&mut self, new_state: State)
        ensures
            final(self).ident() == old(self).ident(),
            final(self).current() == (InternalState { state: new_state, ..old(self).current() }),
    {
        self.state.state = new_state;
    }

    /// Replace the sink capability, keeping the id and the state
    fn update_sink_capability(&mut self, capability: Option<PowerCapability>)
        ensures
            final(self).ident() == old(self).ident(),
            final(self).current() == (InternalState {
                sink_capability: capability,
                ..old(self).current()
            }),
    {
        self.state.sink_capability = capability;
    }

    /// Check that the device is in a state of kind `expected`
    fn check_kind(&self, expected: StateKind) -> (r: Result<(), Error>)
        ensures
            r == (if kind_of(self.current().state) == expected {
                Ok::<(), Error>(())
            } else {
                Err(Error::InvalidState(expected, kind_of(self.current().state)))
            }),
    {
        let state = self.state.state.kind();
        if expected != state {
            return Err(Error::InvalidState(expected, state));
        }
        Ok(())
    }

    /// Try to provide access to the device-side state machine
    pub fn try_device_state_machine<S: state_machine::Kind>(&self) -> (r: Result<
        state_machine::Device<S>,
        Error,
    >)
        ensures
            r is Ok <==> kind_of(self.current().state) == S::kind_spec(),
            r is Err ==> r == Err::<state_machine::Device<S>, Error>(
                Error::InvalidState(S::kind_spec(), kind_of(self.current().state)),
            ),
    {
        let expected = S::kind();
        match self.check_kind(expected) {
            Ok(()) => Ok(state_machine::Device::new()),
            Err(e) => Err(e),
        }
    }

    /// Try to provide access to the power policy-side state machine
    pub fn try_policy_state_machine<S: state_machine::Kind>(&self) -> (r: Result<
        state_machine::Policy<S>,
        Error,
    >)
        ensures
            r is Ok <==> kind_of(self.current().state) == S::kind_spec(),
            r is Err ==> r == Err::<state_machine::Policy<S>, Error>(
                Error::InvalidState(S::kind_spec(), kind_of(self.current().state)),
            ),
    {
        let expected = S::kind();
        match self.check_kind(expected) {
            Ok(()) => Ok(state_machine::Policy::new()),
            Err(e) => Err(e),
        }
    }
}

} // verus!
