//! Power policy actions
//!
//! This module holds wrapper types that use type states to enforce the valid actions for each
//! device state: a handle of type `device::Device<S>` or `policy::Policy<S>` is handed out (through
//! [`DeviceState::device_action`] and [`DeviceState::policy_action`]) for the state the device is
//! in, and each action consumes it and gives back one for the state the action leads to. The
//! actions change the device's state; what must be told to the other side, and what it answered,
//! travel in and out as plain values.
use vstd::prelude::*;

use super::PowerCapability;

pub mod device;
pub mod policy;

verus! {

/// The kinds of state that the actions tell apart
#[derive(Debug, Clone, Copy, PartialEq, Eq, Structural)]
pub enum StateKind {
    /// No device attached
    Detached,
    /// Device is attached, and neither provides nor consumes power
    Idle,
    /// Device is providing power
    ConnectedProvider,
    /// Device is consuming power
    ConnectedConsumer,
}

/// State of a power device
#[derive(Debug, Clone, Copy, PartialEq, Eq, Structural)]
pub enum State {
    /// No device attached
    Detached,
    /// Device is attached, and neither provides nor consumes power
    Idle,
    /// Device is consuming power with the given capability
    ConnectedConsumer(PowerCapability),
    /// Device is providing power with the given capability
    ConnectedProvider(PowerCapability),
}

/// The kind of a state: the state without its capability.
pub open spec fn kind_of(s: State) -> StateKind {
    match s {
        State::Detached => StateKind::Detached,
        State::Idle => StateKind::Idle,
        State::ConnectedConsumer(_) => StateKind::ConnectedConsumer,
        State::ConnectedProvider(_) => StateKind::ConnectedProvider,
    }
}

/// The capability a device provides: the one of its state, while it is a connected provider.
pub open spec fn provider_capability_of(s: State) -> Option<PowerCapability> {
    match s {
        State::ConnectedProvider(c) => Some(c),
        _ => None,
    }
}

impl State {
    /// The kind of this state
    pub fn kind(&self) -> (r: StateKind)
        ensures
            r == kind_of(*self),
    {
        match self {
            State::Detached => StateKind::Detached,
            State::Idle => StateKind::Idle,
            State::ConnectedConsumer(_) => StateKind::ConnectedConsumer,
            State::ConnectedProvider(_) => StateKind::ConnectedProvider,
        }
    }
}

/// What the actions read and change of a power device
#[derive(Debug, Clone, Copy, PartialEq, Eq, Structural)]
pub struct DeviceState {
    /// Current state
    pub state: State,
    /// The power the device can consume, as it last announced it
    pub consumer_capability: Option<PowerCapability>,
    /// The device is being recovered after a failed disconnect
    pub in_recovery: bool,
}

impl DeviceState {
    /// A device that is detached, announces no consumer capability and is not in recovery
    pub fn new() -> (r: Self)
        ensures
            r == (DeviceState { state: State::Detached, consumer_capability: None, in_recovery: false }),
    {
        DeviceState { state: State::Detached, consumer_capability: None, in_recovery: false }
    }

    /// The capability the device provides, while it is a connected provider
    pub fn provider_capability(&self) -> (r: Option<PowerCapability>)
        ensures
            r == provider_capability_of(self.state),
    {
        match self.state {
            State::ConnectedProvider(c) => Some(c),
            _ => None,
        }
    }

    /// Provide access to the device-side actions of the current state
    pub fn device_action(&self) -> (r: device::AnyState)
        ensures
            r.kind_spec() == kind_of(self.state),
    {
        match self.state {
            State::Detached => device::AnyState::Detached(device::Device::new()),
            State::Idle => device::AnyState::Idle(device::Device::new()),
            State::ConnectedConsumer(_) => device::AnyState::ConnectedConsumer(device::Device::new()),
            State::ConnectedProvider(_) => device::AnyState::ConnectedProvider(device::Device::new()),
        }
    }

    /// Provide access to the policy-side actions of the current state
    pub fn policy_action(&self) -> (r: policy::AnyState)
        ensures
            r.kind_spec() == kind_of(self.state),
    {
        match self.state {
            State::Detached => policy::AnyState::Detached(policy::Policy::new()),
            State::Idle => policy::AnyState::Idle(policy::Policy::new()),
            State::ConnectedConsumer(_) => policy::AnyState::ConnectedConsumer(policy::Policy::new()),
            State::ConnectedProvider(_) => policy::AnyState::ConnectedProvider(policy::Policy::new()),
        }
    }
}

/// Trait to provide the kind of a state type
pub trait Kind {
    /// The kind of this state type
    spec fn kind_spec() -> StateKind;

    /// Return the kind of a state type
    fn kind() -> (r: StateKind)
        ensures
            r == Self::kind_spec(),
    ;
}

/// State type for a detached device
pub struct Detached;

impl Kind for Detached {
    open spec fn kind_spec() -> StateKind {
        StateKind::Detached
    }

    fn kind() -> (r: StateKind) {
        StateKind::Detached
    }
}

/// State type for an attached device
pub struct Idle;

impl Kind for Idle {
    open spec fn kind_spec() -> StateKind {
        StateKind::Idle
    }

    fn kind() -> (r: StateKind) {
        StateKind::Idle
    }
}

/// State type for a device that is providing power
pub struct ConnectedProvider;

impl Kind for ConnectedProvider {
    open spec fn kind_spec() -> StateKind {
        StateKind::ConnectedProvider
    }

    fn kind() -> (r: StateKind) {
        StateKind::ConnectedProvider
    }
}

/// State type for a device that is consuming power
pub struct ConnectedConsumer;

impl Kind for ConnectedConsumer {
    open spec fn kind_spec() -> StateKind {
        StateKind::ConnectedConsumer
    }

    fn kind() -> (r: StateKind) {
        StateKind::ConnectedConsumer
    }
}

} // verus!
