//! EC internal data structures.
//!
//! Each section is laid out without padding, in field order: the byte offset of a field is the
//! sum of the sizes of the fields before it.
use vstd::prelude::*;

verus! {

/// Version of the memory map layout.
#[derive(Clone, Copy, Debug, PartialEq, Eq, Structural)]
pub struct Version {
    pub major: u8,
    pub minor: u8,
    pub spin: u8,
    pub res0: u8,
}

impl Version {
    /// Every field is zero.
    pub open spec fn is_zeroed(self) -> bool {
        self.major == 0
        && self.minor == 0
        && self.spin == 0
        && self.res0 == 0
    }
}

impl Default for Version {
    fn default() -> (r: Self)
        ensures
            r.is_zeroed(),
    {
        Version {
            major: 0,
            minor: 0,
            spin: 0,
            res0: 0,
        }
    }
}

/// Capabilities section of the memory map.
#[derive(Clone, Copy, Debug)]
pub struct Capabilities {
    pub events: u32,
    pub fw_version: Version,
    pub secure_state: u8,
    pub boot_status: u8,
    pub fan_mask: u8,
    pub battery_mask: u8,
    pub temp_mask: u16,
    pub key_mask: u16,
    pub debug_mask: u16,
    pub res0: u16,
}

impl Capabilities {
    /// Every field is zero.
    pub open spec fn is_zeroed(self) -> bool {
        self.events == 0
        && self.fw_version.is_zeroed()
        && self.secure_state == 0
        && self.boot_status == 0
        && self.fan_mask == 0
        && self.battery_mask == 0
        && self.temp_mask == 0
        && self.key_mask == 0
        && self.debug_mask == 0
        && self.res0 == 0
    }
}

impl Default for Capabilities {
    fn default() -> (r: Self)
        ensures
            r.is_zeroed(),
    {
        Capabilities {
            events: 0,
            fw_version: Version::default(),
            secure_state: 0,
            boot_status: 0,
            fan_mask: 0,
            battery_mask: 0,
            temp_mask: 0,
            key_mask: 0,
            debug_mask: 0,
            res0: 0,
        }
    }
}

/// Time and alarm section of the memory map.
#[derive(Clone, Copy, Debug)]
pub struct TimeAlarm {
    pub events: u32,
    pub capability: u32,
    pub year: u16,
    pub month: u8,
    pub day: u8,
    pub hour: u8,
    pub minute: u8,
    pub second: u8,
    pub valid: u8,
    pub daylight: u8,
    pub res1: u8,
    pub milli: u16,
    pub time_zone: u16,
    pub res2: u16,
    pub alarm_status: u32,
    pub ac_time_val: u32,
    pub dc_time_val: u32,
}

impl TimeAlarm {
    /// Every field is zero.
    pub open spec fn is_zeroed(self) -> bool {
        self.events == 0
        && self.capability == 0
        && self.year == 0
        && self.month == 0
        && self.day == 0
        && self.hour == 0
        && self.minute == 0
        && self.second == 0
        && self.valid == 0
        && self.daylight == 0
        && self.res1 == 0
        && self.milli == 0
        && self.time_zone == 0
        && self.res2 == 0
        && self.alarm_status == 0
        && self.ac_time_val == 0
        && self.dc_time_val == 0
    }
}

impl Default for TimeAlarm {
    fn default() -> (r: Self)
        ensures
            r.is_zeroed(),
    {
        TimeAlarm {
            events: 0,
            capability: 0,
            year: 0,
            month: 0,
            day: 0,
            hour: 0,
            minute: 0,
            second: 0,
            valid: 0,
            daylight: 0,
            res1: 0,
            milli: 0,
            time_zone: 0,
            res2: 0,
            alarm_status: 0,
            ac_time_val: 0,
            dc_time_val: 0,
        }
    }
}

/// Battery section of the memory map.
#[derive(Clone, Copy, Debug)]
pub struct Battery {
    pub events: u32,
    pub status: u32,
    pub last_full_charge: u32,
    pub cycle_count: u32,
    pub state: u32,
    pub present_rate: u32,
    pub remain_cap: u32,
    pub present_volt: u32,
    pub psr_state: u32,
    pub psr_max_out: u32,
    pub psr_max_in: u32,
    pub peak_level: u32,
    pub peak_power: u32,
    pub sus_level: u32,
    pub sus_power: u32,
    pub peak_thres: u32,
    pub sus_thres: u32,
    pub trip_thres: u32,
    pub bmc_data: u32,
    pub bmd_data: u32,
    pub bmd_flags: u32,
    pub bmd_count: u32,
    pub charge_time: u32,
    pub run_time: u32,
    pub sample_time: u32,
}

impl Battery {
    /// Every field is zero.
    pub open spec fn is_zeroed(self) -> bool {
        self.events == 0
        && self.status == 0
        && self.last_full_charge == 0
        && self.cycle_count == 0
        && self.state == 0
        && self.present_rate == 0
        && self.remain_cap == 0
        && self.present_volt == 0
        && self.psr_state == 0
        && self.psr_max_out == 0
        && self.psr_max_in == 0
        && self.peak_level == 0
        && self.peak_power == 0
        && self.sus_level == 0
        && self.sus_power == 0
        && self.peak_thres == 0
        && self.sus_thres == 0
        && self.trip_thres == 0
        && self.bmc_data == 0
        && self.bmd_data == 0
        && self.bmd_flags == 0
        && self.bmd_count == 0
        && self.charge_time == 0
        && self.run_time == 0
        && self.sample_time == 0
    }
}

impl Default for Battery {
    fn default() -> (r: Self)
        ensures
            r.is_zeroed(),
    {
        Battery {
            events: 0,
            status: 0,
            last_full_charge: 0,
            cycle_count: 0,
            state: 0,
            present_rate: 0,
            remain_cap: 0,
            present_volt: 0,
            psr_state: 0,
            psr_max_out: 0,
            psr_max_in: 0,
            peak_level: 0,
            peak_power: 0,
            sus_level: 0,
            sus_power: 0,
            peak_thres: 0,
            sus_thres: 0,
            trip_thres: 0,
            bmc_data: 0,
            bmd_data: 0,
            bmd_flags: 0,
            bmd_count: 0,
            charge_time: 0,
            run_time: 0,
            sample_time: 0,
        }
    }
}

/// Thermal section of the memory map.
#[derive(Clone, Copy, Debug)]
pub struct Thermal {
    pub events: u32,
    pub cool_mode: u32,
    pub dba_limit: u32,
    pub sonne_limit: u32,
    pub ma_limit: u32,
    pub fan1_on_temp: u32,
    pub fan1_ramp_temp: u32,
    pub fan1_max_temp: u32,
    pub fan1_crt_temp: u32,
    pub fan1_hot_temp: u32,
    pub fan1_max_rpm: u32,
    pub fan1_cur_rpm: u32,
    pub tmp1_val: u32,
    pub tmp1_timeout: u32,
    pub tmp1_low: u32,
    pub tmp1_high: u32,
}

impl Thermal {
    /// Every field is zero.
    pub open spec fn is_zeroed(self) -> bool {
        self.events == 0
        && self.cool_mode == 0
        && self.dba_limit == 0
        && self.sonne_limit == 0
        && self.ma_limit == 0
        && self.fan1_on_temp == 0
        && self.fan1_ramp_temp == 0
        && self.fan1_max_temp == 0
        && self.fan1_crt_temp == 0
        && self.fan1_hot_temp == 0
        && self.fan1_max_rpm == 0
        && self.fan1_cur_rpm == 0
        && self.tmp1_val == 0
        && self.tmp1_timeout == 0
        && self.tmp1_low == 0
        && self.tmp1_high == 0
    }
}

impl Default for Thermal {
    fn default() -> (r: Self)
        ensures
            r.is_zeroed(),
    {
        Thermal {
            events: 0,
            cool_mode: 0,
            dba_limit: 0,
            sonne_limit: 0,
            ma_limit: 0,
            fan1_on_temp: 0,
            fan1_ramp_temp: 0,
            fan1_max_temp: 0,
            fan1_crt_temp: 0,
            fan1_hot_temp: 0,
            fan1_max_rpm: 0,
            fan1_cur_rpm: 0,
            tmp1_val: 0,
            tmp1_timeout: 0,
            tmp1_low: 0,
            tmp1_high: 0,
        }
    }
}

/// Notifications section of the memory map.
#[derive(Clone, Copy, Debug)]
pub struct Notifications {
    pub service: u16,
    pub event: u16,
}

impl Notifications {
    /// Every field is zero.
    pub open spec fn is_zeroed(self) -> bool {
        self.service == 0
        && self.event == 0
    }
}

impl Default for Notifications {
    fn default() -> (r: Self)
        ensures
            r.is_zeroed(),
    {
        Notifications {
            service: 0,
            event: 0,
        }
    }
}

/// The EC memory map shared with the host.
///
/// The host sees it as a packed byte layout; the `*_OFFSET` constants of this module's parent
/// give where each section starts.
#[derive(Clone, Copy, Debug)]
pub struct ECMemory {
    pub ver: Version,
    pub caps: Capabilities,
    pub notif: Notifications,
    pub alarm: TimeAlarm,
    pub batt: Battery,
    pub therm: Thermal,
}

impl ECMemory {
    /// Every field is zero.
    pub open spec fn is_zeroed(self) -> bool {
        self.ver.is_zeroed()
        && self.caps.is_zeroed()
        && self.notif.is_zeroed()
        && self.alarm.is_zeroed()
        && self.batt.is_zeroed()
        && self.therm.is_zeroed()
    }
}

impl Default for ECMemory {
    fn default() -> (r: Self)
        ensures
            r.is_zeroed(),
    {
        ECMemory {
            ver: Version::default(),
            caps: Capabilities::default(),
            notif: Notifications::default(),
            alarm: TimeAlarm::default(),
            batt: Battery::default(),
            therm: Thermal::default(),
        }
    }
}

} // verus!
