//! Keyboard service data types and broadcast configuration
use vstd::prelude::*;

verus! {

/// Keyboard device ID
#[derive(Debug, Clone, Copy, PartialEq, Eq, Structural)]
pub struct DeviceId(pub u8);

/// Keyboard key
#[derive(Debug, Clone, Copy, PartialEq, Eq, Structural)]
pub struct Key(pub u8);

/// Key event data
#[derive(Debug, Clone, Copy, PartialEq, Eq, Structural)]
pub enum KeyEvent {
    /// Key release
    Break(Key),
    /// Key press
    Make(Key),
}

/// Keyboard event messages
#[derive(Clone, Copy, Debug)]
pub enum Event<'a> {
    /// Key events from a device, in the order they happened
    KeyEvent(DeviceId, &'a [KeyEvent]),
}

/// Top-level message data enum
#[derive(Clone, Copy, Debug)]
pub enum MessageData<'a> {
    /// Event
    Event(Event<'a>),
}

/// Top-level message struct
#[derive(Clone, Copy, Debug)]
pub struct Message<'a> {
    /// Target/source device ID
    pub device_id: DeviceId,
    /// Message data
    pub data: MessageData<'a>,
}

/// Broadcast target configuration
#[derive(Copy, Clone, Debug, PartialEq, Eq, Structural)]
pub struct BroadcastConfig {
    /// Enable broadcasting to the HID endpoint
    broadcast_hid: bool,
    /// Enable broadcasting to the host endpoint
    broadcast_host: bool,
}

impl BroadcastConfig {
    /// Messages go to the HID endpoint.
    pub closed spec fn spec_hid(self) -> bool {
        self.broadcast_hid
    }

    /// Messages go to the host endpoint.
    pub closed spec fn spec_host(self) -> bool {
        self.broadcast_host
    }

    /// Whether messages go to the HID endpoint
    pub fn broadcast_hid(&self) -> (r: bool)
        ensures
            r == self.spec_hid(),
    {
        self.broadcast_hid
    }

    /// Whether messages go to the host endpoint
    pub fn broadcast_host(&self) -> (r: bool)
        ensures
            r == self.spec_host(),
    {
        self.broadcast_host
    }

    /// Enable broadcasting messages to the host endpoint
    pub fn enable_broadcast_host(&mut self)
        ensures
            final(self).spec_host(),
            final(self).spec_hid() == old(self).spec_hid(),
    {
        self.broadcast_host = true;
    }

    /// Enable broadcasting messages to the HID endpoint
    pub fn enable_broadcast_hid(&mut self)
        ensures
            final(self).spec_hid(),
            final(self).spec_host() == old(self).spec_host(),
    {
        self.broadcast_hid = true;
    }
}

/// By default messages go nowhere.
impl Default for BroadcastConfig {
    fn default() -> (r: Self)
        ensures
            !r.spec_hid(),
            !r.spec_host(),
    {
        BroadcastConfig { broadcast_hid: false, broadcast_host: false }
    }
}

} // verus!
