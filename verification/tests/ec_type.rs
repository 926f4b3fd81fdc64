use embedded_services::ec_type::message::{BatteryMessage, CapabilitiesMessage, ThermalMessage, TimeAlarmMessage};
use embedded_services::ec_type::structure::{Battery, ECMemory, Thermal, TimeAlarm, Version};
use embedded_services::ec_type::{
    mem_map_to_battery_msg, mem_map_to_thermal_msg, mem_map_to_time_alarm_msg, update_battery_section,
    update_capabilities_section, update_thermal_section, update_time_alarm_section, Error, BATTERY_OFFSET,
    BATTERY_SIZE, THERMAL_OFFSET, THERMAL_SIZE, TIME_ALARM_OFFSET, TIME_ALARM_SIZE,
};

type Reader<M> = fn(&ECMemory, &mut usize, &mut usize) -> Result<M, Error>;

/// Reads the field at `offset` and checks the message and that offset and length moved past it.
fn test_field<M: PartialEq + std::fmt::Debug>(
    memory_map: &ECMemory,
    offset: &mut usize,
    length: &mut usize,
    field_size: usize,
    func: Reader<M>,
    expected: M,
) {
    let next_offset = *offset + field_size;
    let next_length = *length - field_size;
    let msg = func(memory_map, offset, length).unwrap();
    assert_eq!(msg, expected);
    assert_eq!(*offset, next_offset);
    assert_eq!(*length, next_length);
}

fn battery_memory_map() -> ECMemory {
    ECMemory {
        batt: Battery {
            events: 1,
            status: 2,
            last_full_charge: 3,
            cycle_count: 4,
            state: 5,
            present_rate: 6,
            remain_cap: 7,
            present_volt: 8,
            psr_state: 9,
            psr_max_out: 10,
            psr_max_in: 11,
            peak_level: 12,
            peak_power: 13,
            sus_level: 14,
            sus_power: 15,
            peak_thres: 16,
            sus_thres: 17,
            trip_thres: 18,
            bmc_data: 19,
            bmd_data: 20,
            bmd_flags: 21,
            bmd_count: 22,
            charge_time: 23,
            run_time: 24,
            sample_time: 25,
        },
        ..Default::default()
    }
}

fn thermal_memory_map() -> ECMemory {
    ECMemory {
        therm: Thermal {
            events: 1,
            cool_mode: 2,
            dba_limit: 3,
            sonne_limit: 4,
            ma_limit: 5,
            fan1_on_temp: 6,
            fan1_ramp_temp: 7,
            fan1_max_temp: 8,
            fan1_crt_temp: 9,
            fan1_hot_temp: 10,
            fan1_max_rpm: 11,
            fan1_cur_rpm: 12,
            tmp1_val: 13,
            tmp1_timeout: 14,
            tmp1_low: 15,
            tmp1_high: 16,
        },
        ..Default::default()
    }
}

fn time_alarm_memory_map() -> ECMemory {
    ECMemory {
        alarm: TimeAlarm {
            events: 1,
            capability: 2,
            year: 3,
            month: 4,
            day: 5,
            hour: 6,
            minute: 7,
            second: 8,
            valid: 9,
            daylight: 10,
            res1: 11,
            milli: 12,
            time_zone: 13,
            res2: 14,
            alarm_status: 15,
            ac_time_val: 16,
            dc_time_val: 17,
        },
        ..Default::default()
    }
}

#[test]
fn test_mem_map_to_battery_msg() {
    let memory_map = battery_memory_map();
    let mut offset = BATTERY_OFFSET;
    let mut length = BATTERY_SIZE;
    let b = memory_map.batt;
    let f: Reader<BatteryMessage> = mem_map_to_battery_msg;
    let (o, l) = (&mut offset, &mut length);
    test_field(&memory_map, o, l, 4, f, BatteryMessage::Events(b.events));
    test_field(&memory_map, o, l, 4, f, BatteryMessage::Status(b.status));
    test_field(&memory_map, o, l, 4, f, BatteryMessage::LastFullCharge(b.last_full_charge));
    test_field(&memory_map, o, l, 4, f, BatteryMessage::CycleCount(b.cycle_count));
    test_field(&memory_map, o, l, 4, f, BatteryMessage::State(b.state));
    test_field(&memory_map, o, l, 4, f, BatteryMessage::PresentRate(b.present_rate));
    test_field(&memory_map, o, l, 4, f, BatteryMessage::RemainCap(b.remain_cap));
    test_field(&memory_map, o, l, 4, f, BatteryMessage::PresentVolt(b.present_volt));
    test_field(&memory_map, o, l, 4, f, BatteryMessage::PsrState(b.psr_state));
    test_field(&memory_map, o, l, 4, f, BatteryMessage::PsrMaxOut(b.psr_max_out));
    test_field(&memory_map, o, l, 4, f, BatteryMessage::PsrMaxIn(b.psr_max_in));
    test_field(&memory_map, o, l, 4, f, BatteryMessage::PeakLevel(b.peak_level));
    test_field(&memory_map, o, l, 4, f, BatteryMessage::PeakPower(b.peak_power));
    test_field(&memory_map, o, l, 4, f, BatteryMessage::SusLevel(b.sus_level));
    test_field(&memory_map, o, l, 4, f, BatteryMessage::SusPower(b.sus_power));
    test_field(&memory_map, o, l, 4, f, BatteryMessage::PeakThres(b.peak_thres));
    test_field(&memory_map, o, l, 4, f, BatteryMessage::SusThres(b.sus_thres));
    test_field(&memory_map, o, l, 4, f, BatteryMessage::TripThres(b.trip_thres));
    test_field(&memory_map, o, l, 4, f, BatteryMessage::BmcData(b.bmc_data));
    test_field(&memory_map, o, l, 4, f, BatteryMessage::BmdData(b.bmd_data));
    test_field(&memory_map, o, l, 4, f, BatteryMessage::BmdFlags(b.bmd_flags));
    test_field(&memory_map, o, l, 4, f, BatteryMessage::BmdCount(b.bmd_count));
    test_field(&memory_map, o, l, 4, f, BatteryMessage::ChargeTime(b.charge_time));
    test_field(&memory_map, o, l, 4, f, BatteryMessage::RunTime(b.run_time));
    test_field(&memory_map, o, l, 4, f, BatteryMessage::SampleTime(b.sample_time));
    assert_eq!(length, 0);
}

#[test]
fn test_mem_map_to_battery_msg_error() {
    let memory_map = battery_memory_map();
    let mut offset = BATTERY_OFFSET + 1;
    let mut length = BATTERY_SIZE;
    let res = mem_map_to_battery_msg(&memory_map, &mut offset, &mut length);
    assert!(res.is_err() && res.unwrap_err() == Error::InvalidLocation);
}

#[test]
fn test_mem_map_to_thermal_msg() {
    let memory_map = thermal_memory_map();
    let mut offset = THERMAL_OFFSET;
    let mut length = THERMAL_SIZE;
    let t = memory_map.therm;
    let f: Reader<ThermalMessage> = mem_map_to_thermal_msg;
    let (o, l) = (&mut offset, &mut length);
    test_field(&memory_map, o, l, 4, f, ThermalMessage::Events(t.events));
    test_field(&memory_map, o, l, 4, f, ThermalMessage::CoolMode(t.cool_mode));
    test_field(&memory_map, o, l, 4, f, ThermalMessage::DbaLimit(t.dba_limit));
    test_field(&memory_map, o, l, 4, f, ThermalMessage::SonneLimit(t.sonne_limit));
    test_field(&memory_map, o, l, 4, f, ThermalMessage::MaLimit(t.ma_limit));
    test_field(&memory_map, o, l, 4, f, ThermalMessage::Fan1OnTemp(t.fan1_on_temp));
    test_field(&memory_map, o, l, 4, f, ThermalMessage::Fan1RampTemp(t.fan1_ramp_temp));
    test_field(&memory_map, o, l, 4, f, ThermalMessage::Fan1MaxTemp(t.fan1_max_temp));
    test_field(&memory_map, o, l, 4, f, ThermalMessage::Fan1CrtTemp(t.fan1_crt_temp));
    test_field(&memory_map, o, l, 4, f, ThermalMessage::Fan1HotTemp(t.fan1_hot_temp));
    test_field(&memory_map, o, l, 4, f, ThermalMessage::Fan1MaxRpm(t.fan1_max_rpm));
    test_field(&memory_map, o, l, 4, f, ThermalMessage::Fan1CurRpm(t.fan1_cur_rpm));
    test_field(&memory_map, o, l, 4, f, ThermalMessage::Tmp1Val(t.tmp1_val));
    test_field(&memory_map, o, l, 4, f, ThermalMessage::Tmp1Timeout(t.tmp1_timeout));
    test_field(&memory_map, o, l, 4, f, ThermalMessage::Tmp1Low(t.tmp1_low));
    test_field(&memory_map, o, l, 4, f, ThermalMessage::Tmp1High(t.tmp1_high));
    assert_eq!(length, 0);
}

#[test]
fn test_mem_map_to_thermal_msg_error() {
    let memory_map = thermal_memory_map();
    let mut offset = THERMAL_OFFSET + 1;
    let mut length = THERMAL_SIZE;
    let res = mem_map_to_thermal_msg(&memory_map, &mut offset, &mut length);
    assert!(res.is_err() && res.unwrap_err() == Error::InvalidLocation);
}

#[test]
fn test_mem_map_to_time_alarm_msg() {
    let memory_map = time_alarm_memory_map();
    let mut offset = TIME_ALARM_OFFSET;
    let mut length = TIME_ALARM_SIZE;
    let a = memory_map.alarm;
    let f: Reader<TimeAlarmMessage> = mem_map_to_time_alarm_msg;
    let (o, l) = (&mut offset, &mut length);
    test_field(&memory_map, o, l, 4, f, TimeAlarmMessage::Events(a.events));
    test_field(&memory_map, o, l, 4, f, TimeAlarmMessage::Capability(a.capability));
    test_field(&memory_map, o, l, 2, f, TimeAlarmMessage::Year(a.year));
    test_field(&memory_map, o, l, 1, f, TimeAlarmMessage::Month(a.month));
    test_field(&memory_map, o, l, 1, f, TimeAlarmMessage::Day(a.day));
    test_field(&memory_map, o, l, 1, f, TimeAlarmMessage::Hour(a.hour));
    test_field(&memory_map, o, l, 1, f, TimeAlarmMessage::Minute(a.minute));
    test_field(&memory_map, o, l, 1, f, TimeAlarmMessage::Second(a.second));
    test_field(&memory_map, o, l, 1, f, TimeAlarmMessage::Valid(a.valid));
    test_field(&memory_map, o, l, 1, f, TimeAlarmMessage::Daylight(a.daylight));
    test_field(&memory_map, o, l, 1, f, TimeAlarmMessage::Res1(a.res1));
    test_field(&memory_map, o, l, 2, f, TimeAlarmMessage::Milli(a.milli));
    test_field(&memory_map, o, l, 2, f, TimeAlarmMessage::TimeZone(a.time_zone));
    test_field(&memory_map, o, l, 2, f, TimeAlarmMessage::Res2(a.res2));
    test_field(&memory_map, o, l, 4, f, TimeAlarmMessage::AlarmStatus(a.alarm_status));
    test_field(&memory_map, o, l, 4, f, TimeAlarmMessage::AcTimeVal(a.ac_time_val));
    test_field(&memory_map, o, l, 4, f, TimeAlarmMessage::DcTimeVal(a.dc_time_val));
    assert_eq!(length, 0);
}

#[test]
fn test_mem_map_to_time_alarm_msg_error() {
    let memory_map = time_alarm_memory_map();
    let mut offset = TIME_ALARM_OFFSET + 1;
    let mut length = TIME_ALARM_SIZE;
    let res = mem_map_to_time_alarm_msg(&memory_map, &mut offset, &mut length);
    assert!(res.is_err() && res.unwrap_err() == Error::InvalidLocation);
}

#[test]
fn read_after_update_gives_the_written_value() {
    let mut memory_map = ECMemory::default();
    update_battery_section(&BatteryMessage::RemainCap(4321), &mut memory_map);
    update_thermal_section(&ThermalMessage::Tmp1High(77), &mut memory_map);
    update_time_alarm_section(&TimeAlarmMessage::Milli(999), &mut memory_map);
    update_capabilities_section(
        &CapabilitiesMessage::FwVersion(Version { major: 1, minor: 2, spin: 3, res0: 0 }),
        &mut memory_map,
    );
    update_capabilities_section(&CapabilitiesMessage::TempMask(0x0f0f), &mut memory_map);
    assert_eq!(memory_map.batt.remain_cap, 4321);
    assert_eq!(memory_map.batt.events, 0);
    assert_eq!(memory_map.therm.tmp1_high, 77);
    assert_eq!(memory_map.alarm.milli, 999);
    assert_eq!(memory_map.caps.fw_version, Version { major: 1, minor: 2, spin: 3, res0: 0 });
    assert_eq!(memory_map.caps.temp_mask, 0x0f0f);

    let mut offset = BATTERY_OFFSET + 24;
    let mut length = 4;
    assert_eq!(
        mem_map_to_battery_msg(&memory_map, &mut offset, &mut length),
        Ok(BatteryMessage::RemainCap(4321))
    );
    assert_eq!((offset, length), (BATTERY_OFFSET + 28, 0));
    let mut offset = THERMAL_OFFSET + 60;
    let mut length = 8;
    assert_eq!(
        mem_map_to_thermal_msg(&memory_map, &mut offset, &mut length),
        Ok(ThermalMessage::Tmp1High(77))
    );
    let mut offset = TIME_ALARM_OFFSET + 18;
    let mut length = 2;
    assert_eq!(
        mem_map_to_time_alarm_msg(&memory_map, &mut offset, &mut length),
        Ok(TimeAlarmMessage::Milli(999))
    );
    assert_eq!((offset, length), (TIME_ALARM_OFFSET + 20, 0));
    // An offset past the section names no field: nothing moves.
    let mut offset = THERMAL_OFFSET + THERMAL_SIZE;
    let mut length = 4;
    assert_eq!(
        mem_map_to_thermal_msg(&memory_map, &mut offset, &mut length),
        Err(Error::InvalidLocation)
    );
    assert_eq!((offset, length), (THERMAL_OFFSET + THERMAL_SIZE, 4));
}
