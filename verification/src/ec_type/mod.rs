//! Standard EC types: the memory map shared with the host and the messages that update it.
//!
//! A message names one field of a section and carries its value. The `update_*_section`
//! functions write a message into the memory map; the `mem_map_to_*_msg` functions read the field
//! found at a byte offset back out as a message, and advance the offset past it.
use vstd::prelude::*;

pub mod message;
pub mod structure;

use message::{BatteryMessage, CapabilitiesMessage, ThermalMessage, TimeAlarmMessage};
use structure::{Battery, Capabilities, ECMemory, Thermal, TimeAlarm};

verus! {

/// Byte offset of the version section in the memory map.
pub const VERSION_OFFSET: usize = 0;

/// Byte offset of the capabilities section in the memory map.
pub const CAPABILITIES_OFFSET: usize = 4;

/// Byte offset of the notifications section in the memory map.
pub const NOTIFICATIONS_OFFSET: usize = 24;

/// Byte offset of the time/alarm section in the memory map.
pub const TIME_ALARM_OFFSET: usize = 28;

/// Size in bytes of the time/alarm section.
pub const TIME_ALARM_SIZE: usize = 36;

/// Byte offset of the battery section in the memory map.
pub const BATTERY_OFFSET: usize = 64;

/// Size in bytes of the battery section.
pub const BATTERY_SIZE: usize = 100;

/// Byte offset of the thermal section in the memory map.
pub const THERMAL_OFFSET: usize = 164;

/// Size in bytes of the thermal section.
pub const THERMAL_SIZE: usize = 64;

/// Size in bytes of the whole memory map.
pub const EC_MEMORY_SIZE: usize = 228;

/// Error type
#[derive(Debug, Clone, Copy, PartialEq, Eq, Structural)]
pub enum Error {
    /// The requested base + offset is invalid
    InvalidLocation,
}

/// `b` with the field named by `msg` set to the value `msg` carries.
pub open spec fn battery_with(b: Battery, msg: BatteryMessage) -> Battery {
    match msg {
        BatteryMessage::Events(v) => Battery { events: v, ..b },
        BatteryMessage::Status(v) => Battery { status: v, ..b },
        BatteryMessage::LastFullCharge(v) => Battery { last_full_charge: v, ..b },
        BatteryMessage::CycleCount(v) => Battery { cycle_count: v, ..b },
        BatteryMessage::State(v) => Battery { state: v, ..b },
        BatteryMessage::PresentRate(v) => Battery { present_rate: v, ..b },
        BatteryMessage::RemainCap(v) => Battery { remain_cap: v, ..b },
        BatteryMessage::PresentVolt(v) => Battery { present_volt: v, ..b },
        BatteryMessage::PsrState(v) => Battery { psr_state: v, ..b },
        BatteryMessage::PsrMaxOut(v) => Battery { psr_max_out: v, ..b },
        BatteryMessage::PsrMaxIn(v) => Battery { psr_max_in: v, ..b },
        BatteryMessage::PeakLevel(v) => Battery { peak_level: v, ..b },
        BatteryMessage::PeakPower(v) => Battery { peak_power: v, ..b },
        BatteryMessage::SusLevel(v) => Battery { sus_level: v, ..b },
        BatteryMessage::SusPower(v) => Battery { sus_power: v, ..b },
        BatteryMessage::PeakThres(v) => Battery { peak_thres: v, ..b },
        BatteryMessage::SusThres(v) => Battery { sus_thres: v, ..b },
        BatteryMessage::TripThres(v) => Battery { trip_thres: v, ..b },
        BatteryMessage::BmcData(v) => Battery { bmc_data: v, ..b },
        BatteryMessage::BmdData(v) => Battery { bmd_data: v, ..b },
        BatteryMessage::BmdFlags(v) => Battery { bmd_flags: v, ..b },
        BatteryMessage::BmdCount(v) => Battery { bmd_count: v, ..b },
        BatteryMessage::ChargeTime(v) => Battery { charge_time: v, ..b },
        BatteryMessage::RunTime(v) => Battery { run_time: v, ..b },
        BatteryMessage::SampleTime(v) => Battery { sample_time: v, ..b },
    }
}

/// Byte offset, within the battery section, of the field that `msg` names.
pub open spec fn battery_field_offset(msg: BatteryMessage) -> int {
    match msg {
        BatteryMessage::Events(_) => 0,
        BatteryMessage::Status(_) => 4,
        BatteryMessage::LastFullCharge(_) => 8,
        BatteryMessage::CycleCount(_) => 12,
        BatteryMessage::State(_) => 16,
        BatteryMessage::PresentRate(_) => 20,
        BatteryMessage::RemainCap(_) => 24,
        BatteryMessage::PresentVolt(_) => 28,
        BatteryMessage::PsrState(_) => 32,
        BatteryMessage::PsrMaxOut(_) => 36,
        BatteryMessage::PsrMaxIn(_) => 40,
        BatteryMessage::PeakLevel(_) => 44,
        BatteryMessage::PeakPower(_) => 48,
        BatteryMessage::SusLevel(_) => 52,
        BatteryMessage::SusPower(_) => 56,
        BatteryMessage::PeakThres(_) => 60,
        BatteryMessage::SusThres(_) => 64,
        BatteryMessage::TripThres(_) => 68,
        BatteryMessage::BmcData(_) => 72,
        BatteryMessage::BmdData(_) => 76,
        BatteryMessage::BmdFlags(_) => 80,
        BatteryMessage::BmdCount(_) => 84,
        BatteryMessage::ChargeTime(_) => 88,
        BatteryMessage::RunTime(_) => 92,
        BatteryMessage::SampleTime(_) => 96,
    }
}

/// Size in bytes of the field that `msg` names.
pub open spec fn battery_field_size(msg: BatteryMessage) -> int {
    4
}

/// The field of `b` that starts at byte `local` of the battery section, as a message; `None` where
/// no field starts there.
pub open spec fn battery_msg_at(b: Battery, local: int) -> Option<BatteryMessage> {
    if local == 0 {
        Some(BatteryMessage::Events(b.events))
    } else if local == 4 {
        Some(BatteryMessage::Status(b.status))
    } else if local == 8 {
        Some(BatteryMessage::LastFullCharge(b.last_full_charge))
    } else if local == 12 {
        Some(BatteryMessage::CycleCount(b.cycle_count))
    } else if local == 16 {
        Some(BatteryMessage::State(b.state))
    } else if local == 20 {
        Some(BatteryMessage::PresentRate(b.present_rate))
    } else if local == 24 {
        Some(BatteryMessage::RemainCap(b.remain_cap))
    } else if local == 28 {
        Some(BatteryMessage::PresentVolt(b.present_volt))
    } else if local == 32 {
        Some(BatteryMessage::PsrState(b.psr_state))
    } else if local == 36 {
        Some(BatteryMessage::PsrMaxOut(b.psr_max_out))
    } else if local == 40 {
        Some(BatteryMessage::PsrMaxIn(b.psr_max_in))
    } else if local == 44 {
        Some(BatteryMessage::PeakLevel(b.peak_level))
    } else if local == 48 {
        Some(BatteryMessage::PeakPower(b.peak_power))
    } else if local == 52 {
        Some(BatteryMessage::SusLevel(b.sus_level))
    } else if local == 56 {
        Some(BatteryMessage::SusPower(b.sus_power))
    } else if local == 60 {
        Some(BatteryMessage::PeakThres(b.peak_thres))
    } else if local == 64 {
        Some(BatteryMessage::SusThres(b.sus_thres))
    } else if local == 68 {
        Some(BatteryMessage::TripThres(b.trip_thres))
    } else if local == 72 {
        Some(BatteryMessage::BmcData(b.bmc_data))
    } else if local == 76 {
        Some(BatteryMessage::BmdData(b.bmd_data))
    } else if local == 80 {
        Some(BatteryMessage::BmdFlags(b.bmd_flags))
    } else if local == 84 {
        Some(BatteryMessage::BmdCount(b.bmd_count))
    } else if local == 88 {
        Some(BatteryMessage::ChargeTime(b.charge_time))
    } else if local == 92 {
        Some(BatteryMessage::RunTime(b.run_time))
    } else if local == 96 {
        Some(BatteryMessage::SampleTime(b.sample_time))
    } else {
        None
    }
}

/// Update battery section of memory map based on battery message
pub fn update_battery_section(msg: &BatteryMessage, memory_map: &mut ECMemory)
    ensures
        final(memory_map).batt == battery_with(old(memory_map).batt, *msg),
        final(memory_map).ver == old(memory_map).ver,
        final(memory_map).caps == old(memory_map).caps,
        final(memory_map).notif == old(memory_map).notif,
        final(memory_map).alarm == old(memory_map).alarm,
        final(memory_map).therm == old(memory_map).therm,
{
    match *msg {
        BatteryMessage::Events(v) => memory_map.batt.events = v,
        BatteryMessage::Status(v) => memory_map.batt.status = v,
        BatteryMessage::LastFullCharge(v) => memory_map.batt.last_full_charge = v,
        BatteryMessage::CycleCount(v) => memory_map.batt.cycle_count = v,
        BatteryMessage::State(v) => memory_map.batt.state = v,
        BatteryMessage::PresentRate(v) => memory_map.batt.present_rate = v,
        BatteryMessage::RemainCap(v) => memory_map.batt.remain_cap = v,
        BatteryMessage::PresentVolt(v) => memory_map.batt.present_volt = v,
        BatteryMessage::PsrState(v) => memory_map.batt.psr_state = v,
        BatteryMessage::PsrMaxOut(v) => memory_map.batt.psr_max_out = v,
        BatteryMessage::PsrMaxIn(v) => memory_map.batt.psr_max_in = v,
        BatteryMessage::PeakLevel(v) => memory_map.batt.peak_level = v,
        BatteryMessage::PeakPower(v) => memory_map.batt.peak_power = v,
        BatteryMessage::SusLevel(v) => memory_map.batt.sus_level = v,
        BatteryMessage::SusPower(v) => memory_map.batt.sus_power = v,
        BatteryMessage::PeakThres(v) => memory_map.batt.peak_thres = v,
        BatteryMessage::SusThres(v) => memory_map.batt.sus_thres = v,
        BatteryMessage::TripThres(v) => memory_map.batt.trip_thres = v,
        BatteryMessage::BmcData(v) => memory_map.batt.bmc_data = v,
        BatteryMessage::BmdData(v) => memory_map.batt.bmd_data = v,
        BatteryMessage::BmdFlags(v) => memory_map.batt.bmd_flags = v,
        BatteryMessage::BmdCount(v) => memory_map.batt.bmd_count = v,
        BatteryMessage::ChargeTime(v) => memory_map.batt.charge_time = v,
        BatteryMessage::RunTime(v) => memory_map.batt.run_time = v,
        BatteryMessage::SampleTime(v) => memory_map.batt.sample_time = v,
    }
}

/// Convert from memory map offset and length to battery message
/// Modifies offset and length: on success both move past the field that was read.
pub fn mem_map_to_battery_msg(
    memory_map: &ECMemory,
    offset: &mut usize,
    length: &mut usize,
) -> (r: Result<BatteryMessage, Error>)
    requires
        *old(offset) >= BATTERY_OFFSET,
        battery_msg_at(memory_map.batt, *old(offset) - BATTERY_OFFSET) matches Some(m) ==> *old(length) >= battery_field_size(m),
    ensures
        match battery_msg_at(memory_map.batt, *old(offset) - BATTERY_OFFSET) {
            Some(m) => r == Ok::<BatteryMessage, Error>(m) && *final(offset) == *old(offset) + battery_field_size(m)
                && *final(length) == *old(length) - battery_field_size(m),
            None => r == Err::<BatteryMessage, Error>(Error::InvalidLocation) && *final(offset) == *old(offset)
                && *final(length) == *old(length),
        },
{
    let local_offset = *offset - BATTERY_OFFSET;
    let s = &memory_map.batt;
    let (msg, size): (BatteryMessage, usize) = 
    if local_offset == 0 {
        (BatteryMessage::Events(s.events), 4)
    } else if local_offset == 4 {
        (BatteryMessage::Status(s.status), 4)
    } else if local_offset == 8 {
        (BatteryMessage::LastFullCharge(s.last_full_charge), 4)
    } else if local_offset == 12 {
        (BatteryMessage::CycleCount(s.cycle_count), 4)
    } else if local_offset == 16 {
        (BatteryMessage::State(s.state), 4)
    } else if local_offset == 20 {
        (BatteryMessage::PresentRate(s.present_rate), 4)
    } else if local_offset == 24 {
        (BatteryMessage::RemainCap(s.remain_cap), 4)
    } else if local_offset == 28 {
        (BatteryMessage::PresentVolt(s.present_volt), 4)
    } else if local_offset == 32 {
        (BatteryMessage::PsrState(s.psr_state), 4)
    } else if local_offset == 36 {
        (BatteryMessage::PsrMaxOut(s.psr_max_out), 4)
    } else if local_offset == 40 {
        (BatteryMessage::PsrMaxIn(s.psr_max_in), 4)
    } else if local_offset == 44 {
        (BatteryMessage::PeakLevel(s.peak_level), 4)
    } else if local_offset == 48 {
        (BatteryMessage::PeakPower(s.peak_power), 4)
    } else if local_offset == 52 {
        (BatteryMessage::SusLevel(s.sus_level), 4)
    } else if local_offset == 56 {
        (BatteryMessage::SusPower(s.sus_power), 4)
    } else if local_offset == 60 {
        (BatteryMessage::PeakThres(s.peak_thres), 4)
    } else if local_offset == 64 {
        (BatteryMessage::SusThres(s.sus_thres), 4)
    } else if local_offset == 68 {
        (BatteryMessage::TripThres(s.trip_thres), 4)
    } else if local_offset == 72 {
        (BatteryMessage::BmcData(s.bmc_data), 4)
    } else if local_offset == 76 {
        (BatteryMessage::BmdData(s.bmd_data), 4)
    } else if local_offset == 80 {
        (BatteryMessage::BmdFlags(s.bmd_flags), 4)
    } else if local_offset == 84 {
        (BatteryMessage::BmdCount(s.bmd_count), 4)
    } else if local_offset == 88 {
        (BatteryMessage::ChargeTime(s.charge_time), 4)
    } else if local_offset == 92 {
        (BatteryMessage::RunTime(s.run_time), 4)
    } else if local_offset == 96 {
        (BatteryMessage::SampleTime(s.sample_time), 4)
    } else {
        return Err(Error::InvalidLocation);
    };
    *offset = *offset + size;
    *length = *length - size;
    Ok(msg)
}

/// Reading back the field that an update wrote gives the message that was written.
pub proof fn lemma_battery_read_after_update(b: Battery, msg: BatteryMessage)
    ensures
        battery_msg_at(battery_with(b, msg), battery_field_offset(msg)) == Some(msg),
{
}

/// A field read out as a message sits at the offset the message names, has the size it names,
/// and writing it back leaves the section as it was.
pub proof fn lemma_battery_update_with_read(b: Battery, local: int)
    requires
        battery_msg_at(b, local) is Some,
    ensures
        battery_field_offset(battery_msg_at(b, local)->0) == local,
        0 <= local && local + battery_field_size(battery_msg_at(b, local)->0) <= 100,
        battery_with(b, battery_msg_at(b, local)->0) == b,
{
}

/// `b` with the field named by `msg` set to the value `msg` carries.
pub open spec fn thermal_with(b: Thermal, msg: ThermalMessage) -> Thermal {
    match msg {
        ThermalMessage::Events(v) => Thermal { events: v, ..b },
        ThermalMessage::CoolMode(v) => Thermal { cool_mode: v, ..b },
        ThermalMessage::DbaLimit(v) => Thermal { dba_limit: v, ..b },
        ThermalMessage::SonneLimit(v) => Thermal { sonne_limit: v, ..b },
        ThermalMessage::MaLimit(v) => Thermal { ma_limit: v, ..b },
        ThermalMessage::Fan1OnTemp(v) => Thermal { fan1_on_temp: v, ..b },
        ThermalMessage::Fan1RampTemp(v) => Thermal { fan1_ramp_temp: v, ..b },
        ThermalMessage::Fan1MaxTemp(v) => Thermal { fan1_max_temp: v, ..b },
        ThermalMessage::Fan1CrtTemp(v) => Thermal { fan1_crt_temp: v, ..b },
        ThermalMessage::Fan1HotTemp(v) => Thermal { fan1_hot_temp: v, ..b },
        ThermalMessage::Fan1MaxRpm(v) => Thermal { fan1_max_rpm: v, ..b },
        ThermalMessage::Fan1CurRpm(v) => Thermal { fan1_cur_rpm: v, ..b },
        ThermalMessage::Tmp1Val(v) => Thermal { tmp1_val: v, ..b },
        ThermalMessage::Tmp1Timeout(v) => Thermal { tmp1_timeout: v, ..b },
        ThermalMessage::Tmp1Low(v) => Thermal { tmp1_low: v, ..b },
        ThermalMessage::Tmp1High(v) => Thermal { tmp1_high: v, ..b },
    }
}

/// Byte offset, within the thermal section, of the field that `msg` names.
pub open spec fn thermal_field_offset(msg: ThermalMessage) -> int {
    match msg {
        ThermalMessage::Events(_) => 0,
        ThermalMessage::CoolMode(_) => 4,
        ThermalMessage::DbaLimit(_) => 8,
        ThermalMessage::SonneLimit(_) => 12,
        ThermalMessage::MaLimit(_) => 16,
        ThermalMessage::Fan1OnTemp(_) => 20,
        ThermalMessage::Fan1RampTemp(_) => 24,
        ThermalMessage::Fan1MaxTemp(_) => 28,
        ThermalMessage::Fan1CrtTemp(_) => 32,
        ThermalMessage::Fan1HotTemp(_) => 36,
        ThermalMessage::Fan1MaxRpm(_) => 40,
        ThermalMessage::Fan1CurRpm(_) => 44,
        ThermalMessage::Tmp1Val(_) => 48,
        ThermalMessage::Tmp1Timeout(_) => 52,
        ThermalMessage::Tmp1Low(_) => 56,
        ThermalMessage::Tmp1High(_) => 60,
    }
}

/// Size in bytes of the field that `msg` names.
pub open spec fn thermal_field_size(msg: ThermalMessage) -> int {
    4
}

/// The field of `b` that starts at byte `local` of the thermal section, as a message; `None` where
/// no field starts there.
pub open spec fn thermal_msg_at(b: Thermal, local: int) -> Option<ThermalMessage> {
    if local == 0 {
        Some(ThermalMessage::Events(b.events))
    } else if local == 4 {
        Some(ThermalMessage::CoolMode(b.cool_mode))
    } else if local == 8 {
        Some(ThermalMessage::DbaLimit(b.dba_limit))
    } else if local == 12 {
        Some(ThermalMessage::SonneLimit(b.sonne_limit))
    } else if local == 16 {
        Some(ThermalMessage::MaLimit(b.ma_limit))
    } else if local == 20 {
        Some(ThermalMessage::Fan1OnTemp(b.fan1_on_temp))
    } else if local == 24 {
        Some(ThermalMessage::Fan1RampTemp(b.fan1_ramp_temp))
    } else if local == 28 {
        Some(ThermalMessage::Fan1MaxTemp(b.fan1_max_temp))
    } else if local == 32 {
        Some(ThermalMessage::Fan1CrtTemp(b.fan1_crt_temp))
    } else if local == 36 {
        Some(ThermalMessage::Fan1HotTemp(b.fan1_hot_temp))
    } else if local == 40 {
        Some(ThermalMessage::Fan1MaxRpm(b.fan1_max_rpm))
    } else if local == 44 {
        Some(ThermalMessage::Fan1CurRpm(b.fan1_cur_rpm))
    } else if local == 48 {
        Some(ThermalMessage::Tmp1Val(b.tmp1_val))
    } else if local == 52 {
        Some(ThermalMessage::Tmp1Timeout(b.tmp1_timeout))
    } else if local == 56 {
        Some(ThermalMessage::Tmp1Low(b.tmp1_low))
    } else if local == 60 {
        Some(ThermalMessage::Tmp1High(b.tmp1_high))
    } else {
        None
    }
}

/// Update thermal section of memory map based on thermal message
pub fn update_thermal_section(msg: &ThermalMessage, memory_map: &mut ECMemory)
    ensures
        final(memory_map).therm == thermal_with(old(memory_map).therm, *msg),
        final(memory_map).ver == old(memory_map).ver,
        final(memory_map).caps == old(memory_map).caps,
        final(memory_map).notif == old(memory_map).notif,
        final(memory_map).alarm == old(memory_map).alarm,
        final(memory_map).batt == old(memory_map).batt,
{
    match *msg {
        ThermalMessage::Events(v) => memory_map.therm.events = v,
        ThermalMessage::CoolMode(v) => memory_map.therm.cool_mode = v,
        ThermalMessage::DbaLimit(v) => memory_map.therm.dba_limit = v,
        ThermalMessage::SonneLimit(v) => memory_map.therm.sonne_limit = v,
        ThermalMessage::MaLimit(v) => memory_map.therm.ma_limit = v,
        ThermalMessage::Fan1OnTemp(v) => memory_map.therm.fan1_on_temp = v,
        ThermalMessage::Fan1RampTemp(v) => memory_map.therm.fan1_ramp_temp = v,
        ThermalMessage::Fan1MaxTemp(v) => memory_map.therm.fan1_max_temp = v,
        ThermalMessage::Fan1CrtTemp(v) => memory_map.therm.fan1_crt_temp = v,
        ThermalMessage::Fan1HotTemp(v) => memory_map.therm.fan1_hot_temp = v,
        ThermalMessage::Fan1MaxRpm(v) => memory_map.therm.fan1_max_rpm = v,
        ThermalMessage::Fan1CurRpm(v) => memory_map.therm.fan1_cur_rpm = v,
        ThermalMessage::Tmp1Val(v) => memory_map.therm.tmp1_val = v,
        ThermalMessage::Tmp1Timeout(v) => memory_map.therm.tmp1_timeout = v,
        ThermalMessage::Tmp1Low(v) => memory_map.therm.tmp1_low = v,
        ThermalMessage::Tmp1High(v) => memory_map.therm.tmp1_high = v,
    }
}

/// Convert from memory map offset and length to thermal message
/// Modifies offset and length: on success both move past the field that was read.
pub fn mem_map_to_thermal_msg(
    memory_map: &ECMemory,
    offset: &mut usize,
    length: &mut usize,
) -> (r: Result<ThermalMessage, Error>)
    requires
        *old(offset) >= THERMAL_OFFSET,
        thermal_msg_at(memory_map.therm, *old(offset) - THERMAL_OFFSET) matches Some(m) ==> *old(length) >= thermal_field_size(m),
    ensures
        match thermal_msg_at(memory_map.therm, *old(offset) - THERMAL_OFFSET) {
            Some(m) => r == Ok::<ThermalMessage, Error>(m) && *final(offset) == *old(offset) + thermal_field_size(m)
                && *final(length) == *old(length) - thermal_field_size(m),
            None => r == Err::<ThermalMessage, Error>(Error::InvalidLocation) && *final(offset) == *old(offset)
                && *final(length) == *old(length),
        },
{
    let local_offset = *offset - THERMAL_OFFSET;
    let s = &memory_map.therm;
    let (msg, size): (ThermalMessage, usize) = 
    if local_offset == 0 {
        (ThermalMessage::Events(s.events), 4)
    } else if local_offset == 4 {
        (ThermalMessage::CoolMode(s.cool_mode), 4)
    } else if local_offset == 8 {
        (ThermalMessage::DbaLimit(s.dba_limit), 4)
    } else if local_offset == 12 {
        (ThermalMessage::SonneLimit(s.sonne_limit), 4)
    } else if local_offset == 16 {
        (ThermalMessage::MaLimit(s.ma_limit), 4)
    } else if local_offset == 20 {
        (ThermalMessage::Fan1OnTemp(s.fan1_on_temp), 4)
    } else if local_offset == 24 {
        (ThermalMessage::Fan1RampTemp(s.fan1_ramp_temp), 4)
    } else if local_offset == 28 {
        (ThermalMessage::Fan1MaxTemp(s.fan1_max_temp), 4)
    } else if local_offset == 32 {
        (ThermalMessage::Fan1CrtTemp(s.fan1_crt_temp), 4)
    } else if local_offset == 36 {
        (ThermalMessage::Fan1HotTemp(s.fan1_hot_temp), 4)
    } else if local_offset == 40 {
        (ThermalMessage::Fan1MaxRpm(s.fan1_max_rpm), 4)
    } else if local_offset == 44 {
        (ThermalMessage::Fan1CurRpm(s.fan1_cur_rpm), 4)
    } else if local_offset == 48 {
        (ThermalMessage::Tmp1Val(s.tmp1_val), 4)
    } else if local_offset == 52 {
        (ThermalMessage::Tmp1Timeout(s.tmp1_timeout), 4)
    } else if local_offset == 56 {
        (ThermalMessage::Tmp1Low(s.tmp1_low), 4)
    } else if local_offset == 60 {
        (ThermalMessage::Tmp1High(s.tmp1_high), 4)
    } else {
        return Err(Error::InvalidLocation);
    };
    *offset = *offset + size;
    *length = *length - size;
    Ok(msg)
}

/// Reading back the field that an update wrote gives the message that was written.
pub proof fn lemma_thermal_read_after_update(b: Thermal, msg: ThermalMessage)
    ensures
        thermal_msg_at(thermal_with(b, msg), thermal_field_offset(msg)) == Some(msg),
{
}

/// A field read out as a message sits at the offset the message names, has the size it names,
/// and writing it back leaves the section as it was.
pub proof fn lemma_thermal_update_with_read(b: Thermal, local: int)
    requires
        thermal_msg_at(b, local) is Some,
    ensures
        thermal_field_offset(thermal_msg_at(b, local)->0) == local,
        0 <= local && local + thermal_field_size(thermal_msg_at(b, local)->0) <= 64,
        thermal_with(b, thermal_msg_at(b, local)->0) == b,
{
}

/// `b` with the field named by `msg` set to the value `msg` carries.
pub open spec fn time_alarm_with(b: TimeAlarm, msg: TimeAlarmMessage) -> TimeAlarm {
    match msg {
        TimeAlarmMessage::Events(v) => TimeAlarm { events: v, ..b },
        TimeAlarmMessage::Capability(v) => TimeAlarm { capability: v, ..b },
        TimeAlarmMessage::Year(v) => TimeAlarm { year: v, ..b },
        TimeAlarmMessage::Month(v) => TimeAlarm { month: v, ..b },
        TimeAlarmMessage::Day(v) => TimeAlarm { day: v, ..b },
        TimeAlarmMessage::Hour(v) => TimeAlarm { hour: v, ..b },
        TimeAlarmMessage::Minute(v) => TimeAlarm { minute: v, ..b },
        TimeAlarmMessage::Second(v) => TimeAlarm { second: v, ..b },
        TimeAlarmMessage::Valid(v) => TimeAlarm { valid: v, ..b },
        TimeAlarmMessage::Daylight(v) => TimeAlarm { daylight: v, ..b },
        TimeAlarmMessage::Res1(v) => TimeAlarm { res1: v, ..b },
        TimeAlarmMessage::Milli(v) => TimeAlarm { milli: v, ..b },
        TimeAlarmMessage::TimeZone(v) => TimeAlarm { time_zone: v, ..b },
        TimeAlarmMessage::Res2(v) => TimeAlarm { res2: v, ..b },
        TimeAlarmMessage::AlarmStatus(v) => TimeAlarm { alarm_status: v, ..b },
        TimeAlarmMessage::AcTimeVal(v) => TimeAlarm { ac_time_val: v, ..b },
        TimeAlarmMessage::DcTimeVal(v) => TimeAlarm { dc_time_val: v, ..b },
    }
}

/// Byte offset, within the time alarm section, of the field that `msg` names.
pub open spec fn time_alarm_field_offset(msg: TimeAlarmMessage) -> int {
    match msg {
        TimeAlarmMessage::Events(_) => 0,
        TimeAlarmMessage::Capability(_) => 4,
        TimeAlarmMessage::Year(_) => 8,
        TimeAlarmMessage::Month(_) => 10,
        TimeAlarmMessage::Day(_) => 11,
        TimeAlarmMessage::Hour(_) => 12,
        TimeAlarmMessage::Minute(_) => 13,
        TimeAlarmMessage::Second(_) => 14,
        TimeAlarmMessage::Valid(_) => 15,
        TimeAlarmMessage::Daylight(_) => 16,
        TimeAlarmMessage::Res1(_) => 17,
        TimeAlarmMessage::Milli(_) => 18,
        TimeAlarmMessage::TimeZone(_) => 20,
        TimeAlarmMessage::Res2(_) => 22,
        TimeAlarmMessage::AlarmStatus(_) => 24,
        TimeAlarmMessage::AcTimeVal(_) => 28,
        TimeAlarmMessage::DcTimeVal(_) => 32,
    }
}

/// Size in bytes of the field that `msg` names.
pub open spec fn time_alarm_field_size(msg: TimeAlarmMessage) -> int {
    match msg {
        TimeAlarmMessage::Events(_) => 4,
        TimeAlarmMessage::Capability(_) => 4,
        TimeAlarmMessage::Year(_) => 2,
        TimeAlarmMessage::Month(_) => 1,
        TimeAlarmMessage::Day(_) => 1,
        TimeAlarmMessage::Hour(_) => 1,
        TimeAlarmMessage::Minute(_) => 1,
        TimeAlarmMessage::Second(_) => 1,
        TimeAlarmMessage::Valid(_) => 1,
        TimeAlarmMessage::Daylight(_) => 1,
        TimeAlarmMessage::Res1(_) => 1,
        TimeAlarmMessage::Milli(_) => 2,
        TimeAlarmMessage::TimeZone(_) => 2,
        TimeAlarmMessage::Res2(_) => 2,
        TimeAlarmMessage::AlarmStatus(_) => 4,
        TimeAlarmMessage::AcTimeVal(_) => 4,
        TimeAlarmMessage::DcTimeVal(_) => 4,
    }
}

/// The field of `b` that starts at byte `local` of the time alarm section, as a message; `None` where
/// no field starts there.
pub open spec fn time_alarm_msg_at(b: TimeAlarm, local: int) -> Option<TimeAlarmMessage> {
    if local == 0 {
        Some(TimeAlarmMessage::Events(b.events))
    } else if local == 4 {
        Some(TimeAlarmMessage::Capability(b.capability))
    } else if local == 8 {
        Some(TimeAlarmMessage::Year(b.year))
    } else if local == 10 {
        Some(TimeAlarmMessage::Month(b.month))
    } else if local == 11 {
        Some(TimeAlarmMessage::Day(b.day))
    } else if local == 12 {
        Some(TimeAlarmMessage::Hour(b.hour))
    } else if local == 13 {
        Some(TimeAlarmMessage::Minute(b.minute))
    } else if local == 14 {
        Some(TimeAlarmMessage::Second(b.second))
    } else if local == 15 {
        Some(TimeAlarmMessage::Valid(b.valid))
    } else if local == 16 {
        Some(TimeAlarmMessage::Daylight(b.daylight))
    } else if local == 17 {
        Some(TimeAlarmMessage::Res1(b.res1))
    } else if local == 18 {
        Some(TimeAlarmMessage::Milli(b.milli))
    } else if local == 20 {
        Some(TimeAlarmMessage::TimeZone(b.time_zone))
    } else if local == 22 {
        Some(TimeAlarmMessage::Res2(b.res2))
    } else if local == 24 {
        Some(TimeAlarmMessage::AlarmStatus(b.alarm_status))
    } else if local == 28 {
        Some(TimeAlarmMessage::AcTimeVal(b.ac_time_val))
    } else if local == 32 {
        Some(TimeAlarmMessage::DcTimeVal(b.dc_time_val))
    } else {
        None
    }
}

/// Update time alarm section of memory map based on time alarm message
pub fn update_time_alarm_section(msg: &TimeAlarmMessage, memory_map: &mut ECMemory)
    ensures
        final(memory_map).alarm == time_alarm_with(old(memory_map).alarm, *msg),
        final(memory_map).ver == old(memory_map).ver,
        final(memory_map).caps == old(memory_map).caps,
        final(memory_map).notif == old(memory_map).notif,
        final(memory_map).batt == old(memory_map).batt,
        final(memory_map).therm == old(memory_map).therm,
{
    match *msg {
        TimeAlarmMessage::Events(v) => memory_map.alarm.events = v,
        TimeAlarmMessage::Capability(v) => memory_map.alarm.capability = v,
        TimeAlarmMessage::Year(v) => memory_map.alarm.year = v,
        TimeAlarmMessage::Month(v) => memory_map.alarm.month = v,
        TimeAlarmMessage::Day(v) => memory_map.alarm.day = v,
        TimeAlarmMessage::Hour(v) => memory_map.alarm.hour = v,
        TimeAlarmMessage::Minute(v) => memory_map.alarm.minute = v,
        TimeAlarmMessage::Second(v) => memory_map.alarm.second = v,
        TimeAlarmMessage::Valid(v) => memory_map.alarm.valid = v,
        TimeAlarmMessage::Daylight(v) => memory_map.alarm.daylight = v,
        TimeAlarmMessage::Res1(v) => memory_map.alarm.res1 = v,
        TimeAlarmMessage::Milli(v) => memory_map.alarm.milli = v,
        TimeAlarmMessage::TimeZone(v) => memory_map.alarm.time_zone = v,
        TimeAlarmMessage::Res2(v) => memory_map.alarm.res2 = v,
        TimeAlarmMessage::AlarmStatus(v) => memory_map.alarm.alarm_status = v,
        TimeAlarmMessage::AcTimeVal(v) => memory_map.alarm.ac_time_val = v,
        TimeAlarmMessage::DcTimeVal(v) => memory_map.alarm.dc_time_val = v,
    }
}

/// Convert from memory map offset and length to time alarm message
/// Modifies offset and length: on success both move past the field that was read.
pub fn mem_map_to_time_alarm_msg(
    memory_map: &ECMemory,
    offset: &mut usize,
    length: &mut usize,
) -> (r: Result<TimeAlarmMessage, Error>)
    requires
        *old(offset) >= TIME_ALARM_OFFSET,
        time_alarm_msg_at(memory_map.alarm, *old(offset) - TIME_ALARM_OFFSET) matches Some(m) ==> *old(length) >= time_alarm_field_size(m),
    ensures
        match time_alarm_msg_at(memory_map.alarm, *old(offset) - TIME_ALARM_OFFSET) {
            Some(m) => r == Ok::<TimeAlarmMessage, Error>(m) && *final(offset) == *old(offset) + time_alarm_field_size(m)
                && *final(length) == *old(length) - time_alarm_field_size(m),
            None => r == Err::<TimeAlarmMessage, Error>(Error::InvalidLocation) && *final(offset) == *old(offset)
                && *final(length) == *old(length),
        },
{
    let local_offset = *offset - TIME_ALARM_OFFSET;
    let s = &memory_map.alarm;
    let (msg, size): (TimeAlarmMessage, usize) = 
    if local_offset == 0 {
        (TimeAlarmMessage::Events(s.events), 4)
    } else if local_offset == 4 {
        (TimeAlarmMessage::Capability(s.capability), 4)
    } else if local_offset == 8 {
        (TimeAlarmMessage::Year(s.year), 2)
    } else if local_offset == 10 {
        (TimeAlarmMessage::Month(s.month), 1)
    } else if local_offset == 11 {
        (TimeAlarmMessage::Day(s.day), 1)
    } else if local_offset == 12 {
        (TimeAlarmMessage::Hour(s.hour), 1)
    } else if local_offset == 13 {
        (TimeAlarmMessage::Minute(s.minute), 1)
    } else if local_offset == 14 {
        (TimeAlarmMessage::Second(s.second), 1)
    } else if local_offset == 15 {
        (TimeAlarmMessage::Valid(s.valid), 1)
    } else if local_offset == 16 {
        (TimeAlarmMessage::Daylight(s.daylight), 1)
    } else if local_offset == 17 {
        (TimeAlarmMessage::Res1(s.res1), 1)
    } else if local_offset == 18 {
        (TimeAlarmMessage::Milli(s.milli), 2)
    } else if local_offset == 20 {
        (TimeAlarmMessage::TimeZone(s.time_zone), 2)
    } else if local_offset == 22 {
        (TimeAlarmMessage::Res2(s.res2), 2)
    } else if local_offset == 24 {
        (TimeAlarmMessage::AlarmStatus(s.alarm_status), 4)
    } else if local_offset == 28 {
        (TimeAlarmMessage::AcTimeVal(s.ac_time_val), 4)
    } else if local_offset == 32 {
        (TimeAlarmMessage::DcTimeVal(s.dc_time_val), 4)
    } else {
        return Err(Error::InvalidLocation);
    };
    *offset = *offset + size;
    *length = *length - size;
    Ok(msg)
}

/// Reading back the field that an update wrote gives the message that was written.
pub proof fn lemma_time_alarm_read_after_update(b: TimeAlarm, msg: TimeAlarmMessage)
    ensures
        time_alarm_msg_at(time_alarm_with(b, msg), time_alarm_field_offset(msg)) == Some(msg),
{
}

/// A field read out as a message sits at the offset the message names, has the size it names,
/// and writing it back leaves the section as it was.
pub proof fn lemma_time_alarm_update_with_read(b: TimeAlarm, local: int)
    requires
        time_alarm_msg_at(b, local) is Some,
    ensures
        time_alarm_field_offset(time_alarm_msg_at(b, local)->0) == local,
        0 <= local && local + time_alarm_field_size(time_alarm_msg_at(b, local)->0) <= 36,
        time_alarm_with(b, time_alarm_msg_at(b, local)->0) == b,
{
}

/// `c` with the field named by `msg` set to the value `msg` carries.
pub open spec fn capabilities_with(c: Capabilities, msg: CapabilitiesMessage) -> Capabilities {
    match msg {
        CapabilitiesMessage::Events(v) => Capabilities { events: v, ..c },
        CapabilitiesMessage::FwVersion(v) => Capabilities { fw_version: v, ..c },
        CapabilitiesMessage::SecureState(v) => Capabilities { secure_state: v, ..c },
        CapabilitiesMessage::BootStatus(v) => Capabilities { boot_status: v, ..c },
        CapabilitiesMessage::FanMask(v) => Capabilities { fan_mask: v, ..c },
        CapabilitiesMessage::BatteryMask(v) => Capabilities { battery_mask: v, ..c },
        CapabilitiesMessage::TempMask(v) => Capabilities { temp_mask: v, ..c },
        CapabilitiesMessage::KeyMask(v) => Capabilities { key_mask: v, ..c },
        CapabilitiesMessage::DebugMask(v) => Capabilities { debug_mask: v, ..c },
    }
}

/// Update capabilities section of memory map based on capabilities message
pub fn update_capabilities_section(msg: &CapabilitiesMessage, memory_map: &mut ECMemory)
    ensures
        final(memory_map).caps == capabilities_with(old(memory_map).caps, *msg),
        final(memory_map).ver == old(memory_map).ver,
        final(memory_map).notif == old(memory_map).notif,
        final(memory_map).alarm == old(memory_map).alarm,
        final(memory_map).batt == old(memory_map).batt,
        final(memory_map).therm == old(memory_map).therm,
{
    match *msg {
        CapabilitiesMessage::Events(v) => memory_map.caps.events = v,
        CapabilitiesMessage::FwVersion(v) => memory_map.caps.fw_version = v,
        CapabilitiesMessage::SecureState(v) => memory_map.caps.secure_state = v,
        CapabilitiesMessage::BootStatus(v) => memory_map.caps.boot_status = v,
        CapabilitiesMessage::FanMask(v) => memory_map.caps.fan_mask = v,
        CapabilitiesMessage::BatteryMask(v) => memory_map.caps.battery_mask = v,
        CapabilitiesMessage::TempMask(v) => memory_map.caps.temp_mask = v,
        CapabilitiesMessage::KeyMask(v) => memory_map.caps.key_mask = v,
        CapabilitiesMessage::DebugMask(v) => memory_map.caps.debug_mask = v,
    }
}


/// Updating the battery section with a message ([`update_battery_section`]) sets exactly the field that the
/// message names to the value it carries, and leaves every other field of the section as it was.
pub proof fn lemma_battery_update_sets_named_field(b: Battery, msg: BatteryMessage)
    ensures
        ({
            let n = battery_with(b, msg);
            match msg {
                BatteryMessage::Events(v) => n.events == v && n.status == b.status && n.last_full_charge == b.last_full_charge && n.cycle_count == b.cycle_count && n.state == b.state && n.present_rate == b.present_rate && n.remain_cap == b.remain_cap && n.present_volt == b.present_volt && n.psr_state == b.psr_state && n.psr_max_out == b.psr_max_out && n.psr_max_in == b.psr_max_in && n.peak_level == b.peak_level && n.peak_power == b.peak_power && n.sus_level == b.sus_level && n.sus_power == b.sus_power && n.peak_thres == b.peak_thres && n.sus_thres == b.sus_thres && n.trip_thres == b.trip_thres && n.bmc_data == b.bmc_data && n.bmd_data == b.bmd_data && n.bmd_flags == b.bmd_flags && n.bmd_count == b.bmd_count && n.charge_time == b.charge_time && n.run_time == b.run_time && n.sample_time == b.sample_time,
                BatteryMessage::Status(v) => n.status == v && n.events == b.events && n.last_full_charge == b.last_full_charge && n.cycle_count == b.cycle_count && n.state == b.state && n.present_rate == b.present_rate && n.remain_cap == b.remain_cap && n.present_volt == b.present_volt && n.psr_state == b.psr_state && n.psr_max_out == b.psr_max_out && n.psr_max_in == b.psr_max_in && n.peak_level == b.peak_level && n.peak_power == b.peak_power && n.sus_level == b.sus_level && n.sus_power == b.sus_power && n.peak_thres == b.peak_thres && n.sus_thres == b.sus_thres && n.trip_thres == b.trip_thres && n.bmc_data == b.bmc_data && n.bmd_data == b.bmd_data && n.bmd_flags == b.bmd_flags && n.bmd_count == b.bmd_count && n.charge_time == b.charge_time && n.run_time == b.run_time && n.sample_time == b.sample_time,
                BatteryMessage::LastFullCharge(v) => n.last_full_charge == v && n.events == b.events && n.status == b.status && n.cycle_count == b.cycle_count && n.state == b.state && n.present_rate == b.present_rate && n.remain_cap == b.remain_cap && n.present_volt == b.present_volt && n.psr_state == b.psr_state && n.psr_max_out == b.psr_max_out && n.psr_max_in == b.psr_max_in && n.peak_level == b.peak_level && n.peak_power == b.peak_power && n.sus_level == b.sus_level && n.sus_power == b.sus_power && n.peak_thres == b.peak_thres && n.sus_thres == b.sus_thres && n.trip_thres == b.trip_thres && n.bmc_data == b.bmc_data && n.bmd_data == b.bmd_data && n.bmd_flags == b.bmd_flags && n.bmd_count == b.bmd_count && n.charge_time == b.charge_time && n.run_time == b.run_time && n.sample_time == b.sample_time,
                BatteryMessage::CycleCount(v) => n.cycle_count == v && n.events == b.events && n.status == b.status && n.last_full_charge == b.last_full_charge && n.state == b.state && n.present_rate == b.present_rate && n.remain_cap == b.remain_cap && n.present_volt == b.present_volt && n.psr_state == b.psr_state && n.psr_max_out == b.psr_max_out && n.psr_max_in == b.psr_max_in && n.peak_level == b.peak_level && n.peak_power == b.peak_power && n.sus_level == b.sus_level && n.sus_power == b.sus_power && n.peak_thres == b.peak_thres && n.sus_thres == b.sus_thres && n.trip_thres == b.trip_thres && n.bmc_data == b.bmc_data && n.bmd_data == b.bmd_data && n.bmd_flags == b.bmd_flags && n.bmd_count == b.bmd_count && n.charge_time == b.charge_time && n.run_time == b.run_time && n.sample_time == b.sample_time,
                BatteryMessage::State(v) => n.state == v && n.events == b.events && n.status == b.status && n.last_full_charge == b.last_full_charge && n.cycle_count == b.cycle_count && n.present_rate == b.present_rate && n.remain_cap == b.remain_cap && n.present_volt == b.present_volt && n.psr_state == b.psr_state && n.psr_max_out == b.psr_max_out && n.psr_max_in == b.psr_max_in && n.peak_level == b.peak_level && n.peak_power == b.peak_power && n.sus_level == b.sus_level && n.sus_power == b.sus_power && n.peak_thres == b.peak_thres && n.sus_thres == b.sus_thres && n.trip_thres == b.trip_thres && n.bmc_data == b.bmc_data && n.bmd_data == b.bmd_data && n.bmd_flags == b.bmd_flags && n.bmd_count == b.bmd_count && n.charge_time == b.charge_time && n.run_time == b.run_time && n.sample_time == b.sample_time,
                BatteryMessage::PresentRate(v) => n.present_rate == v && n.events == b.events && n.status == b.status && n.last_full_charge == b.last_full_charge && n.cycle_count == b.cycle_count && n.state == b.state && n.remain_cap == b.remain_cap && n.present_volt == b.present_volt && n.psr_state == b.psr_state && n.psr_max_out == b.psr_max_out && n.psr_max_in == b.psr_max_in && n.peak_level == b.peak_level && n.peak_power == b.peak_power && n.sus_level == b.sus_level && n.sus_power == b.sus_power && n.peak_thres == b.peak_thres && n.sus_thres == b.sus_thres && n.trip_thres == b.trip_thres && n.bmc_data == b.bmc_data && n.bmd_data == b.bmd_data && n.bmd_flags == b.bmd_flags && n.bmd_count == b.bmd_count && n.charge_time == b.charge_time && n.run_time == b.run_time && n.sample_time == b.sample_time,
                BatteryMessage::RemainCap(v) => n.remain_cap == v && n.events == b.events && n.status == b.status && n.last_full_charge == b.last_full_charge && n.cycle_count == b.cycle_count && n.state == b.state && n.present_rate == b.present_rate && n.present_volt == b.present_volt && n.psr_state == b.psr_state && n.psr_max_out == b.psr_max_out && n.psr_max_in == b.psr_max_in && n.peak_level == b.peak_level && n.peak_power == b.peak_power && n.sus_level == b.sus_level && n.sus_power == b.sus_power && n.peak_thres == b.peak_thres && n.sus_thres == b.sus_thres && n.trip_thres == b.trip_thres && n.bmc_data == b.bmc_data && n.bmd_data == b.bmd_data && n.bmd_flags == b.bmd_flags && n.bmd_count == b.bmd_count && n.charge_time == b.charge_time && n.run_time == b.run_time && n.sample_time == b.sample_time,
                BatteryMessage::PresentVolt(v) => n.present_volt == v && n.events == b.events && n.status == b.status && n.last_full_charge == b.last_full_charge && n.cycle_count == b.cycle_count && n.state == b.state && n.present_rate == b.present_rate && n.remain_cap == b.remain_cap && n.psr_state == b.psr_state && n.psr_max_out == b.psr_max_out && n.psr_max_in == b.psr_max_in && n.peak_level == b.peak_level && n.peak_power == b.peak_power && n.sus_level == b.sus_level && n.sus_power == b.sus_power && n.peak_thres == b.peak_thres && n.sus_thres == b.sus_thres && n.trip_thres == b.trip_thres && n.bmc_data == b.bmc_data && n.bmd_data == b.bmd_data && n.bmd_flags == b.bmd_flags && n.bmd_count == b.bmd_count && n.charge_time == b.charge_time && n.run_time == b.run_time && n.sample_time == b.sample_time,
                BatteryMessage::PsrState(v) => n.psr_state == v && n.events == b.events && n.status == b.status && n.last_full_charge == b.last_full_charge && n.cycle_count == b.cycle_count && n.state == b.state && n.present_rate == b.present_rate && n.remain_cap == b.remain_cap && n.present_volt == b.present_volt && n.psr_max_out == b.psr_max_out && n.psr_max_in == b.psr_max_in && n.peak_level == b.peak_level && n.peak_power == b.peak_power && n.sus_level == b.sus_level && n.sus_power == b.sus_power && n.peak_thres == b.peak_thres && n.sus_thres == b.sus_thres && n.trip_thres == b.trip_thres && n.bmc_data == b.bmc_data && n.bmd_data == b.bmd_data && n.bmd_flags == b.bmd_flags && n.bmd_count == b.bmd_count && n.charge_time == b.charge_time && n.run_time == b.run_time && n.sample_time == b.sample_time,
                BatteryMessage::PsrMaxOut(v) => n.psr_max_out == v && n.events == b.events && n.status == b.status && n.last_full_charge == b.last_full_charge && n.cycle_count == b.cycle_count && n.state == b.state && n.present_rate == b.present_rate && n.remain_cap == b.remain_cap && n.present_volt == b.present_volt && n.psr_state == b.psr_state && n.psr_max_in == b.psr_max_in && n.peak_level == b.peak_level && n.peak_power == b.peak_power && n.sus_level == b.sus_level && n.sus_power == b.sus_power && n.peak_thres == b.peak_thres && n.sus_thres == b.sus_thres && n.trip_thres == b.trip_thres && n.bmc_data == b.bmc_data && n.bmd_data == b.bmd_data && n.bmd_flags == b.bmd_flags && n.bmd_count == b.bmd_count && n.charge_time == b.charge_time && n.run_time == b.run_time && n.sample_time == b.sample_time,
                BatteryMessage::PsrMaxIn(v) => n.psr_max_in == v && n.events == b.events && n.status == b.status && n.last_full_charge == b.last_full_charge && n.cycle_count == b.cycle_count && n.state == b.state && n.present_rate == b.present_rate && n.remain_cap == b.remain_cap && n.present_volt == b.present_volt && n.psr_state == b.psr_state && n.psr_max_out == b.psr_max_out && n.peak_level == b.peak_level && n.peak_power == b.peak_power && n.sus_level == b.sus_level && n.sus_power == b.sus_power && n.peak_thres == b.peak_thres && n.sus_thres == b.sus_thres && n.trip_thres == b.trip_thres && n.bmc_data == b.bmc_data && n.bmd_data == b.bmd_data && n.bmd_flags == b.bmd_flags && n.bmd_count == b.bmd_count && n.charge_time == b.charge_time && n.run_time == b.run_time && n.sample_time == b.sample_time,
                BatteryMessage::PeakLevel(v) => n.peak_level == v && n.events == b.events && n.status == b.status && n.last_full_charge == b.last_full_charge && n.cycle_count == b.cycle_count && n.state == b.state && n.present_rate == b.present_rate && n.remain_cap == b.remain_cap && n.present_volt == b.present_volt && n.psr_state == b.psr_state && n.psr_max_out == b.psr_max_out && n.psr_max_in == b.psr_max_in && n.peak_power == b.peak_power && n.sus_level == b.sus_level && n.sus_power == b.sus_power && n.peak_thres == b.peak_thres && n.sus_thres == b.sus_thres && n.trip_thres == b.trip_thres && n.bmc_data == b.bmc_data && n.bmd_data == b.bmd_data && n.bmd_flags == b.bmd_flags && n.bmd_count == b.bmd_count && n.charge_time == b.charge_time && n.run_time == b.run_time && n.sample_time == b.sample_time,
                BatteryMessage::PeakPower(v) => n.peak_power == v && n.events == b.events && n.status == b.status && n.last_full_charge == b.last_full_charge && n.cycle_count == b.cycle_count && n.state == b.state && n.present_rate == b.present_rate && n.remain_cap == b.remain_cap && n.present_volt == b.present_volt && n.psr_state == b.psr_state && n.psr_max_out == b.psr_max_out && n.psr_max_in == b.psr_max_in && n.peak_level == b.peak_level && n.sus_level == b.sus_level && n.sus_power == b.sus_power && n.peak_thres == b.peak_thres && n.sus_thres == b.sus_thres && n.trip_thres == b.trip_thres && n.bmc_data == b.bmc_data && n.bmd_data == b.bmd_data && n.bmd_flags == b.bmd_flags && n.bmd_count == b.bmd_count && n.charge_time == b.charge_time && n.run_time == b.run_time && n.sample_time == b.sample_time,
                BatteryMessage::SusLevel(v) => n.sus_level == v && n.events == b.events && n.status == b.status && n.last_full_charge == b.last_full_charge && n.cycle_count == b.cycle_count && n.state == b.state && n.present_rate == b.present_rate && n.remain_cap == b.remain_cap && n.present_volt == b.present_volt && n.psr_state == b.psr_state && n.psr_max_out == b.psr_max_out && n.psr_max_in == b.psr_max_in && n.peak_level == b.peak_level && n.peak_power == b.peak_power && n.sus_power == b.sus_power && n.peak_thres == b.peak_thres && n.sus_thres == b.sus_thres && n.trip_thres == b.trip_thres && n.bmc_data == b.bmc_data && n.bmd_data == b.bmd_data && n.bmd_flags == b.bmd_flags && n.bmd_count == b.bmd_count && n.charge_time == b.charge_time && n.run_time == b.run_time && n.sample_time == b.sample_time,
                BatteryMessage::SusPower(v) => n.sus_power == v && n.events == b.events && n.status == b.status && n.last_full_charge == b.last_full_charge && n.cycle_count == b.cycle_count && n.state == b.state && n.present_rate == b.present_rate && n.remain_cap == b.remain_cap && n.present_volt == b.present_volt && n.psr_state == b.psr_state && n.psr_max_out == b.psr_max_out && n.psr_max_in == b.psr_max_in && n.peak_level == b.peak_level && n.peak_power == b.peak_power && n.sus_level == b.sus_level && n.peak_thres == b.peak_thres && n.sus_thres == b.sus_thres && n.trip_thres == b.trip_thres && n.bmc_data == b.bmc_data && n.bmd_data == b.bmd_data && n.bmd_flags == b.bmd_flags && n.bmd_count == b.bmd_count && n.charge_time == b.charge_time && n.run_time == b.run_time && n.sample_time == b.sample_time,
                BatteryMessage::PeakThres(v) => n.peak_thres == v && n.events == b.events && n.status == b.status && n.last_full_charge == b.last_full_charge && n.cycle_count == b.cycle_count && n.state == b.state && n.present_rate == b.present_rate && n.remain_cap == b.remain_cap && n.present_volt == b.present_volt && n.psr_state == b.psr_state && n.psr_max_out == b.psr_max_out && n.psr_max_in == b.psr_max_in && n.peak_level == b.peak_level && n.peak_power == b.peak_power && n.sus_level == b.sus_level && n.sus_power == b.sus_power && n.sus_thres == b.sus_thres && n.trip_thres == b.trip_thres && n.bmc_data == b.bmc_data && n.bmd_data == b.bmd_data && n.bmd_flags == b.bmd_flags && n.bmd_count == b.bmd_count && n.charge_time == b.charge_time && n.run_time == b.run_time && n.sample_time == b.sample_time,
                BatteryMessage::SusThres(v) => n.sus_thres == v && n.events == b.events && n.status == b.status && n.last_full_charge == b.last_full_charge && n.cycle_count == b.cycle_count && n.state == b.state && n.present_rate == b.present_rate && n.remain_cap == b.remain_cap && n.present_volt == b.present_volt && n.psr_state == b.psr_state && n.psr_max_out == b.psr_max_out && n.psr_max_in == b.psr_max_in && n.peak_level == b.peak_level && n.peak_power == b.peak_power && n.sus_level == b.sus_level && n.sus_power == b.sus_power && n.peak_thres == b.peak_thres && n.trip_thres == b.trip_thres && n.bmc_data == b.bmc_data && n.bmd_data == b.bmd_data && n.bmd_flags == b.bmd_flags && n.bmd_count == b.bmd_count && n.charge_time == b.charge_time && n.run_time == b.run_time && n.sample_time == b.sample_time,
                BatteryMessage::TripThres(v) => n.trip_thres == v && n.events == b.events && n.status == b.status && n.last_full_charge == b.last_full_charge && n.cycle_count == b.cycle_count && n.state == b.state && n.present_rate == b.present_rate && n.remain_cap == b.remain_cap && n.present_volt == b.present_volt && n.psr_state == b.psr_state && n.psr_max_out == b.psr_max_out && n.psr_max_in == b.psr_max_in && n.peak_level == b.peak_level && n.peak_power == b.peak_power && n.sus_level == b.sus_level && n.sus_power == b.sus_power && n.peak_thres == b.peak_thres && n.sus_thres == b.sus_thres && n.bmc_data == b.bmc_data && n.bmd_data == b.bmd_data && n.bmd_flags == b.bmd_flags && n.bmd_count == b.bmd_count && n.charge_time == b.charge_time && n.run_time == b.run_time && n.sample_time == b.sample_time,
                BatteryMessage::BmcData(v) => n.bmc_data == v && n.events == b.events && n.status == b.status && n.last_full_charge == b.last_full_charge && n.cycle_count == b.cycle_count && n.state == b.state && n.present_rate == b.present_rate && n.remain_cap == b.remain_cap && n.present_volt == b.present_volt && n.psr_state == b.psr_state && n.psr_max_out == b.psr_max_out && n.psr_max_in == b.psr_max_in && n.peak_level == b.peak_level && n.peak_power == b.peak_power && n.sus_level == b.sus_level && n.sus_power == b.sus_power && n.peak_thres == b.peak_thres && n.sus_thres == b.sus_thres && n.trip_thres == b.trip_thres && n.bmd_data == b.bmd_data && n.bmd_flags == b.bmd_flags && n.bmd_count == b.bmd_count && n.charge_time == b.charge_time && n.run_time == b.run_time && n.sample_time == b.sample_time,
                BatteryMessage::BmdData(v) => n.bmd_data == v && n.events == b.events && n.status == b.status && n.last_full_charge == b.last_full_charge && n.cycle_count == b.cycle_count && n.state == b.state && n.present_rate == b.present_rate && n.remain_cap == b.remain_cap && n.present_volt == b.present_volt && n.psr_state == b.psr_state && n.psr_max_out == b.psr_max_out && n.psr_max_in == b.psr_max_in && n.peak_level == b.peak_level && n.peak_power == b.peak_power && n.sus_level == b.sus_level && n.sus_power == b.sus_power && n.peak_thres == b.peak_thres && n.sus_thres == b.sus_thres && n.trip_thres == b.trip_thres && n.bmc_data == b.bmc_data && n.bmd_flags == b.bmd_flags && n.bmd_count == b.bmd_count && n.charge_time == b.charge_time && n.run_time == b.run_time && n.sample_time == b.sample_time,
                BatteryMessage::BmdFlags(v) => n.bmd_flags == v && n.events == b.events && n.status == b.status && n.last_full_charge == b.last_full_charge && n.cycle_count == b.cycle_count && n.state == b.state && n.present_rate == b.present_rate && n.remain_cap == b.remain_cap && n.present_volt == b.present_volt && n.psr_state == b.psr_state && n.psr_max_out == b.psr_max_out && n.psr_max_in == b.psr_max_in && n.peak_level == b.peak_level && n.peak_power == b.peak_power && n.sus_level == b.sus_level && n.sus_power == b.sus_power && n.peak_thres == b.peak_thres && n.sus_thres == b.sus_thres && n.trip_thres == b.trip_thres && n.bmc_data == b.bmc_data && n.bmd_data == b.bmd_data && n.bmd_count == b.bmd_count && n.charge_time == b.charge_time && n.run_time == b.run_time && n.sample_time == b.sample_time,
                BatteryMessage::BmdCount(v) => n.bmd_count == v && n.events == b.events && n.status == b.status && n.last_full_charge == b.last_full_charge && n.cycle_count == b.cycle_count && n.state == b.state && n.present_rate == b.present_rate && n.remain_cap == b.remain_cap && n.present_volt == b.present_volt && n.psr_state == b.psr_state && n.psr_max_out == b.psr_max_out && n.psr_max_in == b.psr_max_in && n.peak_level == b.peak_level && n.peak_power == b.peak_power && n.sus_level == b.sus_level && n.sus_power == b.sus_power && n.peak_thres == b.peak_thres && n.sus_thres == b.sus_thres && n.trip_thres == b.trip_thres && n.bmc_data == b.bmc_data && n.bmd_data == b.bmd_data && n.bmd_flags == b.bmd_flags && n.charge_time == b.charge_time && n.run_time == b.run_time && n.sample_time == b.sample_time,
                BatteryMessage::ChargeTime(v) => n.charge_time == v && n.events == b.events && n.status == b.status && n.last_full_charge == b.last_full_charge && n.cycle_count == b.cycle_count && n.state == b.state && n.present_rate == b.present_rate && n.remain_cap == b.remain_cap && n.present_volt == b.present_volt && n.psr_state == b.psr_state && n.psr_max_out == b.psr_max_out && n.psr_max_in == b.psr_max_in && n.peak_level == b.peak_level && n.peak_power == b.peak_power && n.sus_level == b.sus_level && n.sus_power == b.sus_power && n.peak_thres == b.peak_thres && n.sus_thres == b.sus_thres && n.trip_thres == b.trip_thres && n.bmc_data == b.bmc_data && n.bmd_data == b.bmd_data && n.bmd_flags == b.bmd_flags && n.bmd_count == b.bmd_count && n.run_time == b.run_time && n.sample_time == b.sample_time,
                BatteryMessage::RunTime(v) => n.run_time == v && n.events == b.events && n.status == b.status && n.last_full_charge == b.last_full_charge && n.cycle_count == b.cycle_count && n.state == b.state && n.present_rate == b.present_rate && n.remain_cap == b.remain_cap && n.present_volt == b.present_volt && n.psr_state == b.psr_state && n.psr_max_out == b.psr_max_out && n.psr_max_in == b.psr_max_in && n.peak_level == b.peak_level && n.peak_power == b.peak_power && n.sus_level == b.sus_level && n.sus_power == b.sus_power && n.peak_thres == b.peak_thres && n.sus_thres == b.sus_thres && n.trip_thres == b.trip_thres && n.bmc_data == b.bmc_data && n.bmd_data == b.bmd_data && n.bmd_flags == b.bmd_flags && n.bmd_count == b.bmd_count && n.charge_time == b.charge_time && n.sample_time == b.sample_time,
                BatteryMessage::SampleTime(v) => n.sample_time == v && n.events == b.events && n.status == b.status && n.last_full_charge == b.last_full_charge && n.cycle_count == b.cycle_count && n.state == b.state && n.present_rate == b.present_rate && n.remain_cap == b.remain_cap && n.present_volt == b.present_volt && n.psr_state == b.psr_state && n.psr_max_out == b.psr_max_out && n.psr_max_in == b.psr_max_in && n.peak_level == b.peak_level && n.peak_power == b.peak_power && n.sus_level == b.sus_level && n.sus_power == b.sus_power && n.peak_thres == b.peak_thres && n.sus_thres == b.sus_thres && n.trip_thres == b.trip_thres && n.bmc_data == b.bmc_data && n.bmd_data == b.bmd_data && n.bmd_flags == b.bmd_flags && n.bmd_count == b.bmd_count && n.charge_time == b.charge_time && n.run_time == b.run_time,
            }
        }),
{
}

/// Updating the thermal section with a message ([`update_thermal_section`]) sets exactly the field that the
/// message names to the value it carries, and leaves every other field of the section as it was.
pub proof fn lemma_thermal_update_sets_named_field(b: Thermal, msg: ThermalMessage)
    ensures
        ({
            let n = thermal_with(b, msg);
            match msg {
                ThermalMessage::Events(v) => n.events == v && n.cool_mode == b.cool_mode && n.dba_limit == b.dba_limit && n.sonne_limit == b.sonne_limit && n.ma_limit == b.ma_limit && n.fan1_on_temp == b.fan1_on_temp && n.fan1_ramp_temp == b.fan1_ramp_temp && n.fan1_max_temp == b.fan1_max_temp && n.fan1_crt_temp == b.fan1_crt_temp && n.fan1_hot_temp == b.fan1_hot_temp && n.fan1_max_rpm == b.fan1_max_rpm && n.fan1_cur_rpm == b.fan1_cur_rpm && n.tmp1_val == b.tmp1_val && n.tmp1_timeout == b.tmp1_timeout && n.tmp1_low == b.tmp1_low && n.tmp1_high == b.tmp1_high,
                ThermalMessage::CoolMode(v) => n.cool_mode == v && n.events == b.events && n.dba_limit == b.dba_limit && n.sonne_limit == b.sonne_limit && n.ma_limit == b.ma_limit && n.fan1_on_temp == b.fan1_on_temp && n.fan1_ramp_temp == b.fan1_ramp_temp && n.fan1_max_temp == b.fan1_max_temp && n.fan1_crt_temp == b.fan1_crt_temp && n.fan1_hot_temp == b.fan1_hot_temp && n.fan1_max_rpm == b.fan1_max_rpm && n.fan1_cur_rpm == b.fan1_cur_rpm && n.tmp1_val == b.tmp1_val && n.tmp1_timeout == b.tmp1_timeout && n.tmp1_low == b.tmp1_low && n.tmp1_high == b.tmp1_high,
                ThermalMessage::DbaLimit(v) => n.dba_limit == v && n.events == b.events && n.cool_mode == b.cool_mode && n.sonne_limit == b.sonne_limit && n.ma_limit == b.ma_limit && n.fan1_on_temp == b.fan1_on_temp && n.fan1_ramp_temp == b.fan1_ramp_temp && n.fan1_max_temp == b.fan1_max_temp && n.fan1_crt_temp == b.fan1_crt_temp && n.fan1_hot_temp == b.fan1_hot_temp && n.fan1_max_rpm == b.fan1_max_rpm && n.fan1_cur_rpm == b.fan1_cur_rpm && n.tmp1_val == b.tmp1_val && n.tmp1_timeout == b.tmp1_timeout && n.tmp1_low == b.tmp1_low && n.tmp1_high == b.tmp1_high,
                ThermalMessage::SonneLimit(v) => n.sonne_limit == v && n.events == b.events && n.cool_mode == b.cool_mode && n.dba_limit == b.dba_limit && n.ma_limit == b.ma_limit && n.fan1_on_temp == b.fan1_on_temp && n.fan1_ramp_temp == b.fan1_ramp_temp && n.fan1_max_temp == b.fan1_max_temp && n.fan1_crt_temp == b.fan1_crt_temp && n.fan1_hot_temp == b.fan1_hot_temp && n.fan1_max_rpm == b.fan1_max_rpm && n.fan1_cur_rpm == b.fan1_cur_rpm && n.tmp1_val == b.tmp1_val && n.tmp1_timeout == b.tmp1_timeout && n.tmp1_low == b.tmp1_low && n.tmp1_high == b.tmp1_high,
                ThermalMessage::MaLimit(v) => n.ma_limit == v && n.events == b.events && n.cool_mode == b.cool_mode && n.dba_limit == b.dba_limit && n.sonne_limit == b.sonne_limit && n.fan1_on_temp == b.fan1_on_temp && n.fan1_ramp_temp == b.fan1_ramp_temp && n.fan1_max_temp == b.fan1_max_temp && n.fan1_crt_temp == b.fan1_crt_temp && n.fan1_hot_temp == b.fan1_hot_temp && n.fan1_max_rpm == b.fan1_max_rpm && n.fan1_cur_rpm == b.fan1_cur_rpm && n.tmp1_val == b.tmp1_val && n.tmp1_timeout == b.tmp1_timeout && n.tmp1_low == b.tmp1_low && n.tmp1_high == b.tmp1_high,
                ThermalMessage::Fan1OnTemp(v) => n.fan1_on_temp == v && n.events == b.events && n.cool_mode == b.cool_mode && n.dba_limit == b.dba_limit && n.sonne_limit == b.sonne_limit && n.ma_limit == b.ma_limit && n.fan1_ramp_temp == b.fan1_ramp_temp && n.fan1_max_temp == b.fan1_max_temp && n.fan1_crt_temp == b.fan1_crt_temp && n.fan1_hot_temp == b.fan1_hot_temp && n.fan1_max_rpm == b.fan1_max_rpm && n.fan1_cur_rpm == b.fan1_cur_rpm && n.tmp1_val == b.tmp1_val && n.tmp1_timeout == b.tmp1_timeout && n.tmp1_low == b.tmp1_low && n.tmp1_high == b.tmp1_high,
                ThermalMessage::Fan1RampTemp(v) => n.fan1_ramp_temp == v && n.events == b.events && n.cool_mode == b.cool_mode && n.dba_limit == b.dba_limit && n.sonne_limit == b.sonne_limit && n.ma_limit == b.ma_limit && n.fan1_on_temp == b.fan1_on_temp && n.fan1_max_temp == b.fan1_max_temp && n.fan1_crt_temp == b.fan1_crt_temp && n.fan1_hot_temp == b.fan1_hot_temp && n.fan1_max_rpm == b.fan1_max_rpm && n.fan1_cur_rpm == b.fan1_cur_rpm && n.tmp1_val == b.tmp1_val && n.tmp1_timeout == b.tmp1_timeout && n.tmp1_low == b.tmp1_low && n.tmp1_high == b.tmp1_high,
                ThermalMessage::Fan1MaxTemp(v) => n.fan1_max_temp == v && n.events == b.events && n.cool_mode == b.cool_mode && n.dba_limit == b.dba_limit && n.sonne_limit == b.sonne_limit && n.ma_limit == b.ma_limit && n.fan1_on_temp == b.fan1_on_temp && n.fan1_ramp_temp == b.fan1_ramp_temp && n.fan1_crt_temp == b.fan1_crt_temp && n.fan1_hot_temp == b.fan1_hot_temp && n.fan1_max_rpm == b.fan1_max_rpm && n.fan1_cur_rpm == b.fan1_cur_rpm && n.tmp1_val == b.tmp1_val && n.tmp1_timeout == b.tmp1_timeout && n.tmp1_low == b.tmp1_low && n.tmp1_high == b.tmp1_high,
                ThermalMessage::Fan1CrtTemp(v) => n.fan1_crt_temp == v && n.events == b.events && n.cool_mode == b.cool_mode && n.dba_limit == b.dba_limit && n.sonne_limit == b.sonne_limit && n.ma_limit == b.ma_limit && n.fan1_on_temp == b.fan1_on_temp && n.fan1_ramp_temp == b.fan1_ramp_temp && n.fan1_max_temp == b.fan1_max_temp && n.fan1_hot_temp == b.fan1_hot_temp && n.fan1_max_rpm == b.fan1_max_rpm && n.fan1_cur_rpm == b.fan1_cur_rpm && n.tmp1_val == b.tmp1_val && n.tmp1_timeout == b.tmp1_timeout && n.tmp1_low == b.tmp1_low && n.tmp1_high == b.tmp1_high,
                ThermalMessage::Fan1HotTemp(v) => n.fan1_hot_temp == v && n.events == b.events && n.cool_mode == b.cool_mode && n.dba_limit == b.dba_limit && n.sonne_limit == b.sonne_limit && n.ma_limit == b.ma_limit && n.fan1_on_temp == b.fan1_on_temp && n.fan1_ramp_temp == b.fan1_ramp_temp && n.fan1_max_temp == b.fan1_max_temp && n.fan1_crt_temp == b.fan1_crt_temp && n.fan1_max_rpm == b.fan1_max_rpm && n.fan1_cur_rpm == b.fan1_cur_rpm && n.tmp1_val == b.tmp1_val && n.tmp1_timeout == b.tmp1_timeout && n.tmp1_low == b.tmp1_low && n.tmp1_high == b.tmp1_high,
                ThermalMessage::Fan1MaxRpm(v) => n.fan1_max_rpm == v && n.events == b.events && n.cool_mode == b.cool_mode && n.dba_limit == b.dba_limit && n.sonne_limit == b.sonne_limit && n.ma_limit == b.ma_limit && n.fan1_on_temp == b.fan1_on_temp && n.fan1_ramp_temp == b.fan1_ramp_temp && n.fan1_max_temp == b.fan1_max_temp && n.fan1_crt_temp == b.fan1_crt_temp && n.fan1_hot_temp == b.fan1_hot_temp && n.fan1_cur_rpm == b.fan1_cur_rpm && n.tmp1_val == b.tmp1_val && n.tmp1_timeout == b.tmp1_timeout && n.tmp1_low == b.tmp1_low && n.tmp1_high == b.tmp1_high,
                ThermalMessage::Fan1CurRpm(v) => n.fan1_cur_rpm == v && n.events == b.events && n.cool_mode == b.cool_mode && n.dba_limit == b.dba_limit && n.sonne_limit == b.sonne_limit && n.ma_limit == b.ma_limit && n.fan1_on_temp == b.fan1_on_temp && n.fan1_ramp_temp == b.fan1_ramp_temp && n.fan1_max_temp == b.fan1_max_temp && n.fan1_crt_temp == b.fan1_crt_temp && n.fan1_hot_temp == b.fan1_hot_temp && n.fan1_max_rpm == b.fan1_max_rpm && n.tmp1_val == b.tmp1_val && n.tmp1_timeout == b.tmp1_timeout && n.tmp1_low == b.tmp1_low && n.tmp1_high == b.tmp1_high,
                ThermalMessage::Tmp1Val(v) => n.tmp1_val == v && n.events == b.events && n.cool_mode == b.cool_mode && n.dba_limit == b.dba_limit && n.sonne_limit == b.sonne_limit && n.ma_limit == b.ma_limit && n.fan1_on_temp == b.fan1_on_temp && n.fan1_ramp_temp == b.fan1_ramp_temp && n.fan1_max_temp == b.fan1_max_temp && n.fan1_crt_temp == b.fan1_crt_temp && n.fan1_hot_temp == b.fan1_hot_temp && n.fan1_max_rpm == b.fan1_max_rpm && n.fan1_cur_rpm == b.fan1_cur_rpm && n.tmp1_timeout == b.tmp1_timeout && n.tmp1_low == b.tmp1_low && n.tmp1_high == b.tmp1_high,
                ThermalMessage::Tmp1Timeout(v) => n.tmp1_timeout == v && n.events == b.events && n.cool_mode == b.cool_mode && n.dba_limit == b.dba_limit && n.sonne_limit == b.sonne_limit && n.ma_limit == b.ma_limit && n.fan1_on_temp == b.fan1_on_temp && n.fan1_ramp_temp == b.fan1_ramp_temp && n.fan1_max_temp == b.fan1_max_temp && n.fan1_crt_temp == b.fan1_crt_temp && n.fan1_hot_temp == b.fan1_hot_temp && n.fan1_max_rpm == b.fan1_max_rpm && n.fan1_cur_rpm == b.fan1_cur_rpm && n.tmp1_val == b.tmp1_val && n.tmp1_low == b.tmp1_low && n.tmp1_high == b.tmp1_high,
                ThermalMessage::Tmp1Low(v) => n.tmp1_low == v && n.events == b.events && n.cool_mode == b.cool_mode && n.dba_limit == b.dba_limit && n.sonne_limit == b.sonne_limit && n.ma_limit == b.ma_limit && n.fan1_on_temp == b.fan1_on_temp && n.fan1_ramp_temp == b.fan1_ramp_temp && n.fan1_max_temp == b.fan1_max_temp && n.fan1_crt_temp == b.fan1_crt_temp && n.fan1_hot_temp == b.fan1_hot_temp && n.fan1_max_rpm == b.fan1_max_rpm && n.fan1_cur_rpm == b.fan1_cur_rpm && n.tmp1_val == b.tmp1_val && n.tmp1_timeout == b.tmp1_timeout && n.tmp1_high == b.tmp1_high,
                ThermalMessage::Tmp1High(v) => n.tmp1_high == v && n.events == b.events && n.cool_mode == b.cool_mode && n.dba_limit == b.dba_limit && n.sonne_limit == b.sonne_limit && n.ma_limit == b.ma_limit && n.fan1_on_temp == b.fan1_on_temp && n.fan1_ramp_temp == b.fan1_ramp_temp && n.fan1_max_temp == b.fan1_max_temp && n.fan1_crt_temp == b.fan1_crt_temp && n.fan1_hot_temp == b.fan1_hot_temp && n.fan1_max_rpm == b.fan1_max_rpm && n.fan1_cur_rpm == b.fan1_cur_rpm && n.tmp1_val == b.tmp1_val && n.tmp1_timeout == b.tmp1_timeout && n.tmp1_low == b.tmp1_low,
            }
        }),
{
}

/// Updating the time/alarm section with a message ([`update_time_alarm_section`]) sets exactly the field that the
/// message names to the value it carries, and leaves every other field of the section as it was.
pub proof fn lemma_time_alarm_update_sets_named_field(b: TimeAlarm, msg: TimeAlarmMessage)
    ensures
        ({
            let n = time_alarm_with(b, msg);
            match msg {
                TimeAlarmMessage::Events(v) => n.events == v && n.capability == b.capability && n.year == b.year && n.month == b.month && n.day == b.day && n.hour == b.hour && n.minute == b.minute && n.second == b.second && n.valid == b.valid && n.daylight == b.daylight && n.res1 == b.res1 && n.milli == b.milli && n.time_zone == b.time_zone && n.res2 == b.res2 && n.alarm_status == b.alarm_status && n.ac_time_val == b.ac_time_val && n.dc_time_val == b.dc_time_val,
                TimeAlarmMessage::Capability(v) => n.capability == v && n.events == b.events && n.year == b.year && n.month == b.month && n.day == b.day && n.hour == b.hour && n.minute == b.minute && n.second == b.second && n.valid == b.valid && n.daylight == b.daylight && n.res1 == b.res1 && n.milli == b.milli && n.time_zone == b.time_zone && n.res2 == b.res2 && n.alarm_status == b.alarm_status && n.ac_time_val == b.ac_time_val && n.dc_time_val == b.dc_time_val,
                TimeAlarmMessage::Year(v) => n.year == v && n.events == b.events && n.capability == b.capability && n.month == b.month && n.day == b.day && n.hour == b.hour && n.minute == b.minute && n.second == b.second && n.valid == b.valid && n.daylight == b.daylight && n.res1 == b.res1 && n.milli == b.milli && n.time_zone == b.time_zone && n.res2 == b.res2 && n.alarm_status == b.alarm_status && n.ac_time_val == b.ac_time_val && n.dc_time_val == b.dc_time_val,
                TimeAlarmMessage::Month(v) => n.month == v && n.events == b.events && n.capability == b.capability && n.year == b.year && n.day == b.day && n.hour == b.hour && n.minute == b.minute && n.second == b.second && n.valid == b.valid && n.daylight == b.daylight && n.res1 == b.res1 && n.milli == b.milli && n.time_zone == b.time_zone && n.res2 == b.res2 && n.alarm_status == b.alarm_status && n.ac_time_val == b.ac_time_val && n.dc_time_val == b.dc_time_val,
                TimeAlarmMessage::Day(v) => n.day == v && n.events == b.events && n.capability == b.capability && n.year == b.year && n.month == b.month && n.hour == b.hour && n.minute == b.minute && n.second == b.second && n.valid == b.valid && n.daylight == b.daylight && n.res1 == b.res1 && n.milli == b.milli && n.time_zone == b.time_zone && n.res2 == b.res2 && n.alarm_status == b.alarm_status && n.ac_time_val == b.ac_time_val && n.dc_time_val == b.dc_time_val,
                TimeAlarmMessage::Hour(v) => n.hour == v && n.events == b.events && n.capability == b.capability && n.year == b.year && n.month == b.month && n.day == b.day && n.minute == b.minute && n.second == b.second && n.valid == b.valid && n.daylight == b.daylight && n.res1 == b.res1 && n.milli == b.milli && n.time_zone == b.time_zone && n.res2 == b.res2 && n.alarm_status == b.alarm_status && n.ac_time_val == b.ac_time_val && n.dc_time_val == b.dc_time_val,
                TimeAlarmMessage::Minute(v) => n.minute == v && n.events == b.events && n.capability == b.capability && n.year == b.year && n.month == b.month && n.day == b.day && n.hour == b.hour && n.second == b.second && n.valid == b.valid && n.daylight == b.daylight && n.res1 == b.res1 && n.milli == b.milli && n.time_zone == b.time_zone && n.res2 == b.res2 && n.alarm_status == b.alarm_status && n.ac_time_val == b.ac_time_val && n.dc_time_val == b.dc_time_val,
                TimeAlarmMessage::Second(v) => n.second == v && n.events == b.events && n.capability == b.capability && n.year == b.year && n.month == b.month && n.day == b.day && n.hour == b.hour && n.minute == b.minute && n.valid == b.valid && n.daylight == b.daylight && n.res1 == b.res1 && n.milli == b.milli && n.time_zone == b.time_zone && n.res2 == b.res2 && n.alarm_status == b.alarm_status && n.ac_time_val == b.ac_time_val && n.dc_time_val == b.dc_time_val,
                TimeAlarmMessage::Valid(v) => n.valid == v && n.events == b.events && n.capability == b.capability && n.year == b.year && n.month == b.month && n.day == b.day && n.hour == b.hour && n.minute == b.minute && n.second == b.second && n.daylight == b.daylight && n.res1 == b.res1 && n.milli == b.milli && n.time_zone == b.time_zone && n.res2 == b.res2 && n.alarm_status == b.alarm_status && n.ac_time_val == b.ac_time_val && n.dc_time_val == b.dc_time_val,
                TimeAlarmMessage::Daylight(v) => n.daylight == v && n.events == b.events && n.capability == b.capability && n.year == b.year && n.month == b.month && n.day == b.day && n.hour == b.hour && n.minute == b.minute && n.second == b.second && n.valid == b.valid && n.res1 == b.res1 && n.milli == b.milli && n.time_zone == b.time_zone && n.res2 == b.res2 && n.alarm_status == b.alarm_status && n.ac_time_val == b.ac_time_val && n.dc_time_val == b.dc_time_val,
                TimeAlarmMessage::Res1(v) => n.res1 == v && n.events == b.events && n.capability == b.capability && n.year == b.year && n.month == b.month && n.day == b.day && n.hour == b.hour && n.minute == b.minute && n.second == b.second && n.valid == b.valid && n.daylight == b.daylight && n.milli == b.milli && n.time_zone == b.time_zone && n.res2 == b.res2 && n.alarm_status == b.alarm_status && n.ac_time_val == b.ac_time_val && n.dc_time_val == b.dc_time_val,
                TimeAlarmMessage::Milli(v) => n.milli == v && n.events == b.events && n.capability == b.capability && n.year == b.year && n.month == b.month && n.day == b.day && n.hour == b.hour && n.minute == b.minute && n.second == b.second && n.valid == b.valid && n.daylight == b.daylight && n.res1 == b.res1 && n.time_zone == b.time_zone && n.res2 == b.res2 && n.alarm_status == b.alarm_status && n.ac_time_val == b.ac_time_val && n.dc_time_val == b.dc_time_val,
                TimeAlarmMessage::TimeZone(v) => n.time_zone == v && n.events == b.events && n.capability == b.capability && n.year == b.year && n.month == b.month && n.day == b.day && n.hour == b.hour && n.minute == b.minute && n.second == b.second && n.valid == b.valid && n.daylight == b.daylight && n.res1 == b.res1 && n.milli == b.milli && n.res2 == b.res2 && n.alarm_status == b.alarm_status && n.ac_time_val == b.ac_time_val && n.dc_time_val == b.dc_time_val,
                TimeAlarmMessage::Res2(v) => n.res2 == v && n.events == b.events && n.capability == b.capability && n.year == b.year && n.month == b.month && n.day == b.day && n.hour == b.hour && n.minute == b.minute && n.second == b.second && n.valid == b.valid && n.daylight == b.daylight && n.res1 == b.res1 && n.milli == b.milli && n.time_zone == b.time_zone && n.alarm_status == b.alarm_status && n.ac_time_val == b.ac_time_val && n.dc_time_val == b.dc_time_val,
                TimeAlarmMessage::AlarmStatus(v) => n.alarm_status == v && n.events == b.events && n.capability == b.capability && n.year == b.year && n.month == b.month && n.day == b.day && n.hour == b.hour && n.minute == b.minute && n.second == b.second && n.valid == b.valid && n.daylight == b.daylight && n.res1 == b.res1 && n.milli == b.milli && n.time_zone == b.time_zone && n.res2 == b.res2 && n.ac_time_val == b.ac_time_val && n.dc_time_val == b.dc_time_val,
                TimeAlarmMessage::AcTimeVal(v) => n.ac_time_val == v && n.events == b.events && n.capability == b.capability && n.year == b.year && n.month == b.month && n.day == b.day && n.hour == b.hour && n.minute == b.minute && n.second == b.second && n.valid == b.valid && n.daylight == b.daylight && n.res1 == b.res1 && n.milli == b.milli && n.time_zone == b.time_zone && n.res2 == b.res2 && n.alarm_status == b.alarm_status && n.dc_time_val == b.dc_time_val,
                TimeAlarmMessage::DcTimeVal(v) => n.dc_time_val == v && n.events == b.events && n.capability == b.capability && n.year == b.year && n.month == b.month && n.day == b.day && n.hour == b.hour && n.minute == b.minute && n.second == b.second && n.valid == b.valid && n.daylight == b.daylight && n.res1 == b.res1 && n.milli == b.milli && n.time_zone == b.time_zone && n.res2 == b.res2 && n.alarm_status == b.alarm_status && n.ac_time_val == b.ac_time_val,
            }
        }),
{
}

/// Updating the capabilities section with a message ([`update_capabilities_section`]) sets exactly the field that the
/// message names to the value it carries, and leaves every other field of the section as it was.
pub proof fn lemma_capabilities_update_sets_named_field(c: Capabilities, msg: CapabilitiesMessage)
    ensures
        ({
            let n = capabilities_with(c, msg);
            match msg {
                CapabilitiesMessage::Events(v) => n.events == v && n.fw_version == c.fw_version && n.secure_state == c.secure_state && n.boot_status == c.boot_status && n.fan_mask == c.fan_mask && n.battery_mask == c.battery_mask && n.temp_mask == c.temp_mask && n.key_mask == c.key_mask && n.debug_mask == c.debug_mask && n.res0 == c.res0,
                CapabilitiesMessage::FwVersion(v) => n.fw_version == v && n.events == c.events && n.secure_state == c.secure_state && n.boot_status == c.boot_status && n.fan_mask == c.fan_mask && n.battery_mask == c.battery_mask && n.temp_mask == c.temp_mask && n.key_mask == c.key_mask && n.debug_mask == c.debug_mask && n.res0 == c.res0,
                CapabilitiesMessage::SecureState(v) => n.secure_state == v && n.events == c.events && n.fw_version == c.fw_version && n.boot_status == c.boot_status && n.fan_mask == c.fan_mask && n.battery_mask == c.battery_mask && n.temp_mask == c.temp_mask && n.key_mask == c.key_mask && n.debug_mask == c.debug_mask && n.res0 == c.res0,
                CapabilitiesMessage::BootStatus(v) => n.boot_status == v && n.events == c.events && n.fw_version == c.fw_version && n.secure_state == c.secure_state && n.fan_mask == c.fan_mask && n.battery_mask == c.battery_mask && n.temp_mask == c.temp_mask && n.key_mask == c.key_mask && n.debug_mask == c.debug_mask && n.res0 == c.res0,
                CapabilitiesMessage::FanMask(v) => n.fan_mask == v && n.events == c.events && n.fw_version == c.fw_version && n.secure_state == c.secure_state && n.boot_status == c.boot_status && n.battery_mask == c.battery_mask && n.temp_mask == c.temp_mask && n.key_mask == c.key_mask && n.debug_mask == c.debug_mask && n.res0 == c.res0,
                CapabilitiesMessage::BatteryMask(v) => n.battery_mask == v && n.events == c.events && n.fw_version == c.fw_version && n.secure_state == c.secure_state && n.boot_status == c.boot_status && n.fan_mask == c.fan_mask && n.temp_mask == c.temp_mask && n.key_mask == c.key_mask && n.debug_mask == c.debug_mask && n.res0 == c.res0,
                CapabilitiesMessage::TempMask(v) => n.temp_mask == v && n.events == c.events && n.fw_version == c.fw_version && n.secure_state == c.secure_state && n.boot_status == c.boot_status && n.fan_mask == c.fan_mask && n.battery_mask == c.battery_mask && n.key_mask == c.key_mask && n.debug_mask == c.debug_mask && n.res0 == c.res0,
                CapabilitiesMessage::KeyMask(v) => n.key_mask == v && n.events == c.events && n.fw_version == c.fw_version && n.secure_state == c.secure_state && n.boot_status == c.boot_status && n.fan_mask == c.fan_mask && n.battery_mask == c.battery_mask && n.temp_mask == c.temp_mask && n.debug_mask == c.debug_mask && n.res0 == c.res0,
                CapabilitiesMessage::DebugMask(v) => n.debug_mask == v && n.events == c.events && n.fw_version == c.fw_version && n.secure_state == c.secure_state && n.boot_status == c.boot_status && n.fan_mask == c.fan_mask && n.battery_mask == c.battery_mask && n.temp_mask == c.temp_mask && n.key_mask == c.key_mask && n.res0 == c.res0,
            }
        }),
{
}


/// The battery section lays its fields out back to back in declaration order from offset 0, each
/// as wide as its type, filling the section: so a message that names a field is read from and
/// stands for exactly that field's bytes.
pub proof fn lemma_battery_layout()
    ensures
        battery_field_offset(BatteryMessage::Events(0)) == 0,
        battery_field_size(BatteryMessage::Events(0)) == 4,
        battery_field_size(BatteryMessage::Status(0)) == 4,
        battery_field_size(BatteryMessage::LastFullCharge(0)) == 4,
        battery_field_size(BatteryMessage::CycleCount(0)) == 4,
        battery_field_size(BatteryMessage::State(0)) == 4,
        battery_field_size(BatteryMessage::PresentRate(0)) == 4,
        battery_field_size(BatteryMessage::RemainCap(0)) == 4,
        battery_field_size(BatteryMessage::PresentVolt(0)) == 4,
        battery_field_size(BatteryMessage::PsrState(0)) == 4,
        battery_field_size(BatteryMessage::PsrMaxOut(0)) == 4,
        battery_field_size(BatteryMessage::PsrMaxIn(0)) == 4,
        battery_field_size(BatteryMessage::PeakLevel(0)) == 4,
        battery_field_size(BatteryMessage::PeakPower(0)) == 4,
        battery_field_size(BatteryMessage::SusLevel(0)) == 4,
        battery_field_size(BatteryMessage::SusPower(0)) == 4,
        battery_field_size(BatteryMessage::PeakThres(0)) == 4,
        battery_field_size(BatteryMessage::SusThres(0)) == 4,
        battery_field_size(BatteryMessage::TripThres(0)) == 4,
        battery_field_size(BatteryMessage::BmcData(0)) == 4,
        battery_field_size(BatteryMessage::BmdData(0)) == 4,
        battery_field_size(BatteryMessage::BmdFlags(0)) == 4,
        battery_field_size(BatteryMessage::BmdCount(0)) == 4,
        battery_field_size(BatteryMessage::ChargeTime(0)) == 4,
        battery_field_size(BatteryMessage::RunTime(0)) == 4,
        battery_field_size(BatteryMessage::SampleTime(0)) == 4,
        battery_field_offset(BatteryMessage::Status(0)) == battery_field_offset(BatteryMessage::Events(0)) + battery_field_size(BatteryMessage::Events(0)),
        battery_field_offset(BatteryMessage::LastFullCharge(0)) == battery_field_offset(BatteryMessage::Status(0)) + battery_field_size(BatteryMessage::Status(0)),
        battery_field_offset(BatteryMessage::CycleCount(0)) == battery_field_offset(BatteryMessage::LastFullCharge(0)) + battery_field_size(BatteryMessage::LastFullCharge(0)),
        battery_field_offset(BatteryMessage::State(0)) == battery_field_offset(BatteryMessage::CycleCount(0)) + battery_field_size(BatteryMessage::CycleCount(0)),
        battery_field_offset(BatteryMessage::PresentRate(0)) == battery_field_offset(BatteryMessage::State(0)) + battery_field_size(BatteryMessage::State(0)),
        battery_field_offset(BatteryMessage::RemainCap(0)) == battery_field_offset(BatteryMessage::PresentRate(0)) + battery_field_size(BatteryMessage::PresentRate(0)),
        battery_field_offset(BatteryMessage::PresentVolt(0)) == battery_field_offset(BatteryMessage::RemainCap(0)) + battery_field_size(BatteryMessage::RemainCap(0)),
        battery_field_offset(BatteryMessage::PsrState(0)) == battery_field_offset(BatteryMessage::PresentVolt(0)) + battery_field_size(BatteryMessage::PresentVolt(0)),
        battery_field_offset(BatteryMessage::PsrMaxOut(0)) == battery_field_offset(BatteryMessage::PsrState(0)) + battery_field_size(BatteryMessage::PsrState(0)),
        battery_field_offset(BatteryMessage::PsrMaxIn(0)) == battery_field_offset(BatteryMessage::PsrMaxOut(0)) + battery_field_size(BatteryMessage::PsrMaxOut(0)),
        battery_field_offset(BatteryMessage::PeakLevel(0)) == battery_field_offset(BatteryMessage::PsrMaxIn(0)) + battery_field_size(BatteryMessage::PsrMaxIn(0)),
        battery_field_offset(BatteryMessage::PeakPower(0)) == battery_field_offset(BatteryMessage::PeakLevel(0)) + battery_field_size(BatteryMessage::PeakLevel(0)),
        battery_field_offset(BatteryMessage::SusLevel(0)) == battery_field_offset(BatteryMessage::PeakPower(0)) + battery_field_size(BatteryMessage::PeakPower(0)),
        battery_field_offset(BatteryMessage::SusPower(0)) == battery_field_offset(BatteryMessage::SusLevel(0)) + battery_field_size(BatteryMessage::SusLevel(0)),
        battery_field_offset(BatteryMessage::PeakThres(0)) == battery_field_offset(BatteryMessage::SusPower(0)) + battery_field_size(BatteryMessage::SusPower(0)),
        battery_field_offset(BatteryMessage::SusThres(0)) == battery_field_offset(BatteryMessage::PeakThres(0)) + battery_field_size(BatteryMessage::PeakThres(0)),
        battery_field_offset(BatteryMessage::TripThres(0)) == battery_field_offset(BatteryMessage::SusThres(0)) + battery_field_size(BatteryMessage::SusThres(0)),
        battery_field_offset(BatteryMessage::BmcData(0)) == battery_field_offset(BatteryMessage::TripThres(0)) + battery_field_size(BatteryMessage::TripThres(0)),
        battery_field_offset(BatteryMessage::BmdData(0)) == battery_field_offset(BatteryMessage::BmcData(0)) + battery_field_size(BatteryMessage::BmcData(0)),
        battery_field_offset(BatteryMessage::BmdFlags(0)) == battery_field_offset(BatteryMessage::BmdData(0)) + battery_field_size(BatteryMessage::BmdData(0)),
        battery_field_offset(BatteryMessage::BmdCount(0)) == battery_field_offset(BatteryMessage::BmdFlags(0)) + battery_field_size(BatteryMessage::BmdFlags(0)),
        battery_field_offset(BatteryMessage::ChargeTime(0)) == battery_field_offset(BatteryMessage::BmdCount(0)) + battery_field_size(BatteryMessage::BmdCount(0)),
        battery_field_offset(BatteryMessage::RunTime(0)) == battery_field_offset(BatteryMessage::ChargeTime(0)) + battery_field_size(BatteryMessage::ChargeTime(0)),
        battery_field_offset(BatteryMessage::SampleTime(0)) == battery_field_offset(BatteryMessage::RunTime(0)) + battery_field_size(BatteryMessage::RunTime(0)),
        battery_field_offset(BatteryMessage::SampleTime(0)) + battery_field_size(BatteryMessage::SampleTime(0)) == BATTERY_SIZE,
{
}

/// The thermal section lays its fields out back to back in declaration order from offset 0, each
/// as wide as its type, filling the section: so a message that names a field is read from and
/// stands for exactly that field's bytes.
pub proof fn lemma_thermal_layout()
    ensures
        thermal_field_offset(ThermalMessage::Events(0)) == 0,
        thermal_field_size(ThermalMessage::Events(0)) == 4,
        thermal_field_size(ThermalMessage::CoolMode(0)) == 4,
        thermal_field_size(ThermalMessage::DbaLimit(0)) == 4,
        thermal_field_size(ThermalMessage::SonneLimit(0)) == 4,
        thermal_field_size(ThermalMessage::MaLimit(0)) == 4,
        thermal_field_size(ThermalMessage::Fan1OnTemp(0)) == 4,
        thermal_field_size(ThermalMessage::Fan1RampTemp(0)) == 4,
        thermal_field_size(ThermalMessage::Fan1MaxTemp(0)) == 4,
        thermal_field_size(ThermalMessage::Fan1CrtTemp(0)) == 4,
        thermal_field_size(ThermalMessage::Fan1HotTemp(0)) == 4,
        thermal_field_size(ThermalMessage::Fan1MaxRpm(0)) == 4,
        thermal_field_size(ThermalMessage::Fan1CurRpm(0)) == 4,
        thermal_field_size(ThermalMessage::Tmp1Val(0)) == 4,
        thermal_field_size(ThermalMessage::Tmp1Timeout(0)) == 4,
        thermal_field_size(ThermalMessage::Tmp1Low(0)) == 4,
        thermal_field_size(ThermalMessage::Tmp1High(0)) == 4,
        thermal_field_offset(ThermalMessage::CoolMode(0)) == thermal_field_offset(ThermalMessage::Events(0)) + thermal_field_size(ThermalMessage::Events(0)),
        thermal_field_offset(ThermalMessage::DbaLimit(0)) == thermal_field_offset(ThermalMessage::CoolMode(0)) + thermal_field_size(ThermalMessage::CoolMode(0)),
        thermal_field_offset(ThermalMessage::SonneLimit(0)) == thermal_field_offset(ThermalMessage::DbaLimit(0)) + thermal_field_size(ThermalMessage::DbaLimit(0)),
        thermal_field_offset(ThermalMessage::MaLimit(0)) == thermal_field_offset(ThermalMessage::SonneLimit(0)) + thermal_field_size(ThermalMessage::SonneLimit(0)),
        thermal_field_offset(ThermalMessage::Fan1OnTemp(0)) == thermal_field_offset(ThermalMessage::MaLimit(0)) + thermal_field_size(ThermalMessage::MaLimit(0)),
        thermal_field_offset(ThermalMessage::Fan1RampTemp(0)) == thermal_field_offset(ThermalMessage::Fan1OnTemp(0)) + thermal_field_size(ThermalMessage::Fan1OnTemp(0)),
        thermal_field_offset(ThermalMessage::Fan1MaxTemp(0)) == thermal_field_offset(ThermalMessage::Fan1RampTemp(0)) + thermal_field_size(ThermalMessage::Fan1RampTemp(0)),
        thermal_field_offset(ThermalMessage::Fan1CrtTemp(0)) == thermal_field_offset(ThermalMessage::Fan1MaxTemp(0)) + thermal_field_size(ThermalMessage::Fan1MaxTemp(0)),
        thermal_field_offset(ThermalMessage::Fan1HotTemp(0)) == thermal_field_offset(ThermalMessage::Fan1CrtTemp(0)) + thermal_field_size(ThermalMessage::Fan1CrtTemp(0)),
        thermal_field_offset(ThermalMessage::Fan1MaxRpm(0)) == thermal_field_offset(ThermalMessage::Fan1HotTemp(0)) + thermal_field_size(ThermalMessage::Fan1HotTemp(0)),
        thermal_field_offset(ThermalMessage::Fan1CurRpm(0)) == thermal_field_offset(ThermalMessage::Fan1MaxRpm(0)) + thermal_field_size(ThermalMessage::Fan1MaxRpm(0)),
        thermal_field_offset(ThermalMessage::Tmp1Val(0)) == thermal_field_offset(ThermalMessage::Fan1CurRpm(0)) + thermal_field_size(ThermalMessage::Fan1CurRpm(0)),
        thermal_field_offset(ThermalMessage::Tmp1Timeout(0)) == thermal_field_offset(ThermalMessage::Tmp1Val(0)) + thermal_field_size(ThermalMessage::Tmp1Val(0)),
        thermal_field_offset(ThermalMessage::Tmp1Low(0)) == thermal_field_offset(ThermalMessage::Tmp1Timeout(0)) + thermal_field_size(ThermalMessage::Tmp1Timeout(0)),
        thermal_field_offset(ThermalMessage::Tmp1High(0)) == thermal_field_offset(ThermalMessage::Tmp1Low(0)) + thermal_field_size(ThermalMessage::Tmp1Low(0)),
        thermal_field_offset(ThermalMessage::Tmp1High(0)) + thermal_field_size(ThermalMessage::Tmp1High(0)) == THERMAL_SIZE,
{
}

/// The time/alarm section lays its fields out back to back in declaration order from offset 0, each
/// as wide as its type, filling the section: so a message that names a field is read from and
/// stands for exactly that field's bytes.
pub proof fn lemma_time_alarm_layout()
    ensures
        time_alarm_field_offset(TimeAlarmMessage::Events(0)) == 0,
        time_alarm_field_size(TimeAlarmMessage::Events(0)) == 4,
        time_alarm_field_size(TimeAlarmMessage::Capability(0)) == 4,
        time_alarm_field_size(TimeAlarmMessage::Year(0)) == 2,
        time_alarm_field_size(TimeAlarmMessage::Month(0)) == 1,
        time_alarm_field_size(TimeAlarmMessage::Day(0)) == 1,
        time_alarm_field_size(TimeAlarmMessage::Hour(0)) == 1,
        time_alarm_field_size(TimeAlarmMessage::Minute(0)) == 1,
        time_alarm_field_size(TimeAlarmMessage::Second(0)) == 1,
        time_alarm_field_size(TimeAlarmMessage::Valid(0)) == 1,
        time_alarm_field_size(TimeAlarmMessage::Daylight(0)) == 1,
        time_alarm_field_size(TimeAlarmMessage::Res1(0)) == 1,
        time_alarm_field_size(TimeAlarmMessage::Milli(0)) == 2,
        time_alarm_field_size(TimeAlarmMessage::TimeZone(0)) == 2,
        time_alarm_field_size(TimeAlarmMessage::Res2(0)) == 2,
        time_alarm_field_size(TimeAlarmMessage::AlarmStatus(0)) == 4,
        time_alarm_field_size(TimeAlarmMessage::AcTimeVal(0)) == 4,
        time_alarm_field_size(TimeAlarmMessage::DcTimeVal(0)) == 4,
        time_alarm_field_offset(TimeAlarmMessage::Capability(0)) == time_alarm_field_offset(TimeAlarmMessage::Events(0)) + time_alarm_field_size(TimeAlarmMessage::Events(0)),
        time_alarm_field_offset(TimeAlarmMessage::Year(0)) == time_alarm_field_offset(TimeAlarmMessage::Capability(0)) + time_alarm_field_size(TimeAlarmMessage::Capability(0)),
        time_alarm_field_offset(TimeAlarmMessage::Month(0)) == time_alarm_field_offset(TimeAlarmMessage::Year(0)) + time_alarm_field_size(TimeAlarmMessage::Year(0)),
        time_alarm_field_offset(TimeAlarmMessage::Day(0)) == time_alarm_field_offset(TimeAlarmMessage::Month(0)) + time_alarm_field_size(TimeAlarmMessage::Month(0)),
        time_alarm_field_offset(TimeAlarmMessage::Hour(0)) == time_alarm_field_offset(TimeAlarmMessage::Day(0)) + time_alarm_field_size(TimeAlarmMessage::Day(0)),
        time_alarm_field_offset(TimeAlarmMessage::Minute(0)) == time_alarm_field_offset(TimeAlarmMessage::Hour(0)) + time_alarm_field_size(TimeAlarmMessage::Hour(0)),
        time_alarm_field_offset(TimeAlarmMessage::Second(0)) == time_alarm_field_offset(TimeAlarmMessage::Minute(0)) + time_alarm_field_size(TimeAlarmMessage::Minute(0)),
        time_alarm_field_offset(TimeAlarmMessage::Valid(0)) == time_alarm_field_offset(TimeAlarmMessage::Second(0)) + time_alarm_field_size(TimeAlarmMessage::Second(0)),
        time_alarm_field_offset(TimeAlarmMessage::Daylight(0)) == time_alarm_field_offset(TimeAlarmMessage::Valid(0)) + time_alarm_field_size(TimeAlarmMessage::Valid(0)),
        time_alarm_field_offset(TimeAlarmMessage::Res1(0)) == time_alarm_field_offset(TimeAlarmMessage::Daylight(0)) + time_alarm_field_size(TimeAlarmMessage::Daylight(0)),
        time_alarm_field_offset(TimeAlarmMessage::Milli(0)) == time_alarm_field_offset(TimeAlarmMessage::Res1(0)) + time_alarm_field_size(TimeAlarmMessage::Res1(0)),
        time_alarm_field_offset(TimeAlarmMessage::TimeZone(0)) == time_alarm_field_offset(TimeAlarmMessage::Milli(0)) + time_alarm_field_size(TimeAlarmMessage::Milli(0)),
        time_alarm_field_offset(TimeAlarmMessage::Res2(0)) == time_alarm_field_offset(TimeAlarmMessage::TimeZone(0)) + time_alarm_field_size(TimeAlarmMessage::TimeZone(0)),
        time_alarm_field_offset(TimeAlarmMessage::AlarmStatus(0)) == time_alarm_field_offset(TimeAlarmMessage::Res2(0)) + time_alarm_field_size(TimeAlarmMessage::Res2(0)),
        time_alarm_field_offset(TimeAlarmMessage::AcTimeVal(0)) == time_alarm_field_offset(TimeAlarmMessage::AlarmStatus(0)) + time_alarm_field_size(TimeAlarmMessage::AlarmStatus(0)),
        time_alarm_field_offset(TimeAlarmMessage::DcTimeVal(0)) == time_alarm_field_offset(TimeAlarmMessage::AcTimeVal(0)) + time_alarm_field_size(TimeAlarmMessage::AcTimeVal(0)),
        time_alarm_field_offset(TimeAlarmMessage::DcTimeVal(0)) + time_alarm_field_size(TimeAlarmMessage::DcTimeVal(0)) == TIME_ALARM_SIZE,
{
}

} // verus!
