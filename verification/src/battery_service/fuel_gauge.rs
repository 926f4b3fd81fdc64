//! Fuel gauge service messages: which smart-battery reading answers a battery message, and the
//! message that a reading makes.
use vstd::prelude::*;

use crate::ec_type::message::BatteryMessage;

verus! {

/// Fuel gauge errors
#[derive(Clone, Copy, Debug, PartialEq, Eq, Structural)]
pub enum FuelGaugeError {
    /// Bus error
    Bus,
}

/// A smart-battery reading that the fuel gauge takes to answer a battery message.
#[derive(Clone, Copy, Debug, PartialEq, Eq, Structural)]
pub enum FuelGaugeQuery {
    /// Charge/discharge cycle count
    CycleCount,
    /// Battery status flags
    BatteryStatus,
    /// Present current
    Current,
    /// Remaining capacity
    RemainingCapacity,
    /// Present voltage
    Voltage,
}

/// A smart-battery reading, as plain values.
#[derive(Clone, Copy, Debug, PartialEq, Eq, Structural)]
pub enum FuelGaugeReading {
    /// Charge/discharge cycle count
    CycleCount(u16),
    /// Battery status: whether the battery is discharging
    BatteryStatus { discharging: bool },
    /// Present current in mA, negative while discharging
    Current(i16),
    /// Remaining capacity, in the battery's capacity unit
    RemainingCapacity(u16),
    /// Present voltage in mV
    Voltage(u16),
}

/// The reading that answers `msg`; `None` for the messages the fuel gauge does not serve.
pub open spec fn query_of(msg: BatteryMessage) -> Option<FuelGaugeQuery> {
    match msg {
        BatteryMessage::CycleCount(_) => Some(FuelGaugeQuery::CycleCount),
        BatteryMessage::State(_) => Some(FuelGaugeQuery::BatteryStatus),
        BatteryMessage::PresentRate(_) => Some(FuelGaugeQuery::Current),
        BatteryMessage::RemainCap(_) => Some(FuelGaugeQuery::RemainingCapacity),
        BatteryMessage::PresentVolt(_) => Some(FuelGaugeQuery::Voltage),
        _ => None,
    }
}

/// Battery state reported while discharging.
pub const BATTERY_STATE_DISCHARGING: u32 = 0x01;

/// Battery state reported while not discharging.
pub const BATTERY_STATE_CHARGING: u32 = 0x02;

/// The magnitude of a current.
pub open spec fn abs_current(c: i16) -> u32 {
    if c < 0 {
        (-c) as u32
    } else {
        c as u32
    }
}

/// The message that answers with `reading`.
pub open spec fn message_of(reading: FuelGaugeReading) -> BatteryMessage {
    match reading {
        FuelGaugeReading::CycleCount(c) => BatteryMessage::CycleCount(c as u32),
        FuelGaugeReading::BatteryStatus { discharging } => BatteryMessage::State(
            if discharging {
                BATTERY_STATE_DISCHARGING
            } else {
                BATTERY_STATE_CHARGING
            },
        ),
        FuelGaugeReading::Current(c) => BatteryMessage::PresentRate(abs_current(c)),
        FuelGaugeReading::RemainingCapacity(c) => BatteryMessage::RemainCap(c as u32),
        FuelGaugeReading::Voltage(v) => BatteryMessage::PresentVolt(v as u32),
    }
}

/// The reading that answers `msg`, or `None` where the fuel gauge does not serve it.
pub fn query_for(msg: &BatteryMessage) -> (r: Option<FuelGaugeQuery>)
    ensures
        r == query_of(*msg),
{
    match msg {
        BatteryMessage::CycleCount(_) => Some(FuelGaugeQuery::CycleCount),
        BatteryMessage::State(_) => Some(FuelGaugeQuery::BatteryStatus),
        BatteryMessage::PresentRate(_) => Some(FuelGaugeQuery::Current),
        BatteryMessage::RemainCap(_) => Some(FuelGaugeQuery::RemainingCapacity),
        BatteryMessage::PresentVolt(_) => Some(FuelGaugeQuery::Voltage),
        _ => None,
    }
}

/// The message that answers with `reading`.
pub fn message_for(reading: FuelGaugeReading) -> (r: BatteryMessage)
    ensures
        r == message_of(reading),
{
    match reading {
        FuelGaugeReading::CycleCount(c) => BatteryMessage::CycleCount(c as u32),
        FuelGaugeReading::BatteryStatus { discharging } => BatteryMessage::State(
            if discharging {
                BATTERY_STATE_DISCHARGING
            } else {
                BATTERY_STATE_CHARGING
            },
        ),
        FuelGaugeReading::Current(c) => {
            let magnitude: u16 = if c < 0 {
                (0i32 - c as i32) as u16
            } else {
                c as u16
            };
            BatteryMessage::PresentRate(magnitude as u32)
        },
        FuelGaugeReading::RemainingCapacity(c) => BatteryMessage::RemainCap(c as u32),
        FuelGaugeReading::Voltage(v) => BatteryMessage::PresentVolt(v as u32),
    }
}

/// The reading that a query takes.
pub open spec fn reading_answers(q: FuelGaugeQuery, reading: FuelGaugeReading) -> bool {
    match (q, reading) {
        (FuelGaugeQuery::CycleCount, FuelGaugeReading::CycleCount(_)) => true,
        (FuelGaugeQuery::BatteryStatus, FuelGaugeReading::BatteryStatus { .. }) => true,
        (FuelGaugeQuery::Current, FuelGaugeReading::Current(_)) => true,
        (FuelGaugeQuery::RemainingCapacity, FuelGaugeReading::RemainingCapacity(_)) => true,
        (FuelGaugeQuery::Voltage, FuelGaugeReading::Voltage(_)) => true,
        _ => false,
    }
}

/// A message is answered by a message of its own kind: the reading its query takes makes a message
/// whose query is the same.
pub proof fn lemma_answer_has_same_kind(msg: BatteryMessage, reading: FuelGaugeReading)
    requires
        query_of(msg) matches Some(q) && reading_answers(q, reading),
    ensures
        query_of(message_of(reading)) == query_of(msg),
{
}


/// The fuel gauge answers each battery message it serves from the reading of that message's own
/// quantity, and in a message of the same kind: the cycle count from the cycle count, the state
/// from the battery status (1 while discharging, 2 otherwise), the present rate from the
/// magnitude of the current, the remaining capacity from the remaining capacity and the present
/// voltage from the voltage; it serves no other message.
pub proof fn lemma_fuel_gauge_answers(msg: BatteryMessage, reading: FuelGaugeReading)
    ensures
        match msg {
            BatteryMessage::CycleCount(_) => query_of(msg) == Some(FuelGaugeQuery::CycleCount),
            BatteryMessage::State(_) => query_of(msg) == Some(FuelGaugeQuery::BatteryStatus),
            BatteryMessage::PresentRate(_) => query_of(msg) == Some(FuelGaugeQuery::Current),
            BatteryMessage::RemainCap(_) => query_of(msg) == Some(FuelGaugeQuery::RemainingCapacity),
            BatteryMessage::PresentVolt(_) => query_of(msg) == Some(FuelGaugeQuery::Voltage),
            _ => query_of(msg) is None,
        },
        match reading {
            FuelGaugeReading::CycleCount(c) => message_of(reading) == BatteryMessage::CycleCount(c as u32),
            FuelGaugeReading::BatteryStatus { discharging } => message_of(reading) == BatteryMessage::State(
                if discharging { 1u32 } else { 2u32 },
            ),
            FuelGaugeReading::Current(c) => message_of(reading) == BatteryMessage::PresentRate(
                if c < 0 { (0 - c) as u32 } else { c as u32 },
            ),
            FuelGaugeReading::RemainingCapacity(c) => message_of(reading) == BatteryMessage::RemainCap(c as u32),
            FuelGaugeReading::Voltage(v) => message_of(reading) == BatteryMessage::PresentVolt(v as u32),
        },
{
}

} // verus!
