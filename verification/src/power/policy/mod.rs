//! Power policy related data structures and messages
use vstd::prelude::*;

use core::cmp::Ordering;
use vstd::std_specs::cmp::PartialOrdSpec;

pub mod action;
pub mod charger;
pub mod device;
pub mod policy;

verus! {

/// Error type
#[derive(Debug, Clone, Copy, PartialEq, Eq, Structural)]
pub enum Error {
    /// The requested device does not exist
    InvalidDevice,
    /// The provide request was denied, contains maximum available power
    CannotProvide(Option<PowerCapability>),
    /// The consume request was denied, contains maximum available power
    CannotConsume(Option<PowerCapability>),
    /// The device is not in the correct state (expected, actual)
    InvalidState(device::StateKind, device::StateKind),
    /// Invalid response
    InvalidResponse,
    /// Timeout
    Timeout,
    /// Bus error
    Bus,
    /// Generic failure
    Failed,
}

/// Device ID new type
#[derive(Debug, Clone, Copy, PartialEq, Eq, Structural)]
pub struct DeviceId(pub u8);

/// Amount of power that a device can provider or consume
#[derive(Debug, Clone, Copy, PartialEq, Eq, Structural)]
pub struct PowerCapability {
    /// Available voltage in mV
    pub voltage_mv: u16,
    /// Max available current in mA
    pub current_ma: u16,
}

/// Power in mW of `c`: voltage times current, over 1000, rounded down.
pub open spec fn max_power(c: PowerCapability) -> u32 {
    (c.voltage_mv * c.current_ma / 1000) as u32
}

/// How two amounts of power compare.
pub open spec fn order_of(a: u32, b: u32) -> Ordering {
    if a < b {
        Ordering::Less
    } else if a == b {
        Ordering::Equal
    } else {
        Ordering::Greater
    }
}

impl PowerCapability {
    /// Calculate maximum power
    pub fn max_power_mw(&self) -> (r: u32)
        ensures
            r == max_power(*self),
    {
        let v: u32 = self.voltage_mv as u32;
        let c: u32 = self.current_ma as u32;
        assert(v * c <= 0xffff * 0xffff) by (nonlinear_arith)
            requires
                v <= 0xffff,
                c <= 0xffff,
        ;
        v * c / 1000
    }
}

/// Capabilities are ordered by the power they stand for.
impl PartialOrd for PowerCapability {
    fn partial_cmp(&self, other: &Self) -> (r: Option<Ordering>) {
        let a = self.max_power_mw();
        let b = other.max_power_mw();
        if a < b {
            Some(Ordering::Less)
        } else if a == b {
            Some(Ordering::Equal)
        } else {
            Some(Ordering::Greater)
        }
    }
}

impl vstd::std_specs::cmp::PartialOrdSpecImpl for PowerCapability {
    open spec fn obeys_partial_cmp_spec() -> bool {
        true
    }

    open spec fn partial_cmp_spec(&self, other: &Self) -> Option<Ordering> {
        Some(order_of(max_power(*self), max_power(*other)))
    }
}

/// Capabilities compare as the powers they stand for: the comparison is always defined, it is
/// `Equal` exactly for equal powers, and swapping the sides swaps `Less` and `Greater`.
pub proof fn lemma_power_order(a: PowerCapability, b: PowerCapability)
    ensures
        a.partial_cmp_spec(&b) == Some(order_of(max_power(a), max_power(b))),
        (order_of(max_power(a), max_power(b)) == Ordering::Equal) <==> max_power(a) == max_power(b),
        (order_of(max_power(a), max_power(b)) == Ordering::Less) <==> (order_of(max_power(b), max_power(a))
            == Ordering::Greater),
        (order_of(max_power(a), max_power(b)) == Ordering::Less) <==> max_power(a) < max_power(b),
{
}

/// Data to send with the comms service
#[derive(Debug, Clone, Copy, PartialEq, Eq, Structural)]
pub enum CommsData {
    /// Consumer disconnected
    ConsumerDisconnected(DeviceId),
    /// Consumer connected
    ConsumerConnected(DeviceId, PowerCapability),
}

/// Message to send with the comms service
pub struct CommsMessage {
    /// Message data
    pub data: CommsData,
}

} // verus!
