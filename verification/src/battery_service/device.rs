//! Fuel gauge device data: commands, responses and the battery data caches
use vstd::prelude::*;

verus! {

/// Device errors.
#[derive(Debug, Clone, Copy, PartialEq, Eq, Structural)]
pub enum FuelGaugeError {
    /// The device did not answer in time
    Timeout,
    /// Bus error
    BusError,
}

/// Device commands.
#[derive(Debug, Clone, Copy, PartialEq, Eq, Structural)]
pub enum Command {
    /// Initialize the fuel gauge
    Initialize,
    /// Check that the fuel gauge answers
    Ping,
    /// Refresh the static battery data cache
    UpdateStaticCache,
    /// Refresh the dynamic battery data cache
    UpdateDynamicCache,
}

/// Device response.
#[derive(Debug, Clone, Copy, PartialEq, Eq, Structural)]
pub enum InternalResponse {
    /// The command completed
    Complete,
}

/// External device response.
pub type Response = Result<InternalResponse, FuelGaugeError>;

/// The response to a command: `Complete` when the controller carried it out, and a bus error
/// otherwise (the controller's own error is not passed on).
pub fn command_response(succeeded: bool) -> (r: Response)
    ensures
        succeeded ==> r == Ok::<InternalResponse, FuelGaugeError>(InternalResponse::Complete),
        !succeeded ==> r == Err::<InternalResponse, FuelGaugeError>(FuelGaugeError::BusError),
{
    if succeeded {
        Ok(InternalResponse::Complete)
    } else {
        Err(FuelGaugeError::BusError)
    }
}

/// Standard static battery data cache
#[derive(Debug, Clone, Copy, PartialEq, Eq)]
pub struct StaticBatteryMsgs {
    /// Manufacturer Name.
    manufacturer_name: [u8; 21],
    /// Device Name.
    device_name: [u8; 21],
    /// Device Chemistry.
    device_chemistry: [u8; 5],
    /// Design Capacity in mWh.
    design_capacity_mwh: u32,
    /// Design Voltage in mV.
    design_voltage_mv: u16,
    /// Device Chemistry Id.
    device_chemistry_id: [u8; 2],
    /// Device Serial Number.
    serial_num: [u8; 4],
}

impl StaticBatteryMsgs {
    /// Every field is zero.
    pub closed spec fn is_zeroed(self) -> bool {
        &&& self.manufacturer_name@ == Seq::new(21, |i: int| 0u8)
        &&& self.device_name@ == Seq::new(21, |i: int| 0u8)
        &&& self.device_chemistry@ == Seq::new(5, |i: int| 0u8)
        &&& self.design_capacity_mwh == 0
        &&& self.design_voltage_mv == 0
        &&& self.device_chemistry_id@ == Seq::new(2, |i: int| 0u8)
        &&& self.serial_num@ == Seq::new(4, |i: int| 0u8)
    }
}

impl Default for StaticBatteryMsgs {
    fn default() -> (r: Self)
        ensures
            r.is_zeroed(),
    {
        let r = StaticBatteryMsgs {
            manufacturer_name: [0u8; 21],
            device_name: [0u8; 21],
            device_chemistry: [0u8; 5],
            design_capacity_mwh: 0,
            design_voltage_mv: 0,
            device_chemistry_id: [0u8; 2],
            serial_num: [0u8; 4],
        };
        assert(r.manufacturer_name@ =~= Seq::new(21, |i: int| 0u8));
        assert(r.device_name@ =~= Seq::new(21, |i: int| 0u8));
        assert(r.device_chemistry@ =~= Seq::new(5, |i: int| 0u8));
        assert(r.device_chemistry_id@ =~= Seq::new(2, |i: int| 0u8));
        assert(r.serial_num@ =~= Seq::new(4, |i: int| 0u8));
        r
    }
}

/// Standard dynamic battery data cache
#[derive(Debug, Clone, Copy, PartialEq, Eq, Structural)]
pub struct DynamicBatteryMsgs {
    /// Battery Max Power in mW.
    max_power_mw: u32,
    /// Battery Sustained Power in mW.
    sus_power_mw: u32,
    /// Full Charge Capacity in mWh.
    full_charge_capacity_mwh: u32,
    /// Remaining Capacity in mWh.
    remaining_capacity_mwh: u32,
    /// Rsoc in %.
    relative_soc_pct: u16,
    /// Charge/Discharge Cycle Count.
    cycle_count: u16,
    /// Battery Voltage in mV.
    voltage_mv: u16,
    /// Maximum Error in %.
    max_error_pct: u16,
    /// Battery Status (Standard Smart Battery Defined).
    battery_status: u16,
    /// Desired Charging Voltage in mV.
    charging_voltage_mv: u16,
    /// Desired Charging Current in mA.
    charging_current_ma: u16,
    /// Battery Temperature in dK.
    battery_temp_dk: u16,
    /// Battery Current in mA.
    current_ma: i16,
    /// Battery Avg Current.
    average_current_ma: i16,
}

impl DynamicBatteryMsgs {
    /// Every field is zero.
    pub closed spec fn is_zeroed(self) -> bool {
        self == DynamicBatteryMsgs {
            max_power_mw: 0,
            sus_power_mw: 0,
            full_charge_capacity_mwh: 0,
            remaining_capacity_mwh: 0,
            relative_soc_pct: 0,
            cycle_count: 0,
            voltage_mv: 0,
            max_error_pct: 0,
            battery_status: 0,
            charging_voltage_mv: 0,
            charging_current_ma: 0,
            battery_temp_dk: 0,
            current_ma: 0,
            average_current_ma: 0,
        }
    }
}

impl Default for DynamicBatteryMsgs {
    fn default() -> (r: Self)
        ensures
            r.is_zeroed(),
    {
        DynamicBatteryMsgs {
            max_power_mw: 0,
            sus_power_mw: 0,
            full_charge_capacity_mwh: 0,
            remaining_capacity_mwh: 0,
            relative_soc_pct: 0,
            cycle_count: 0,
            voltage_mv: 0,
            max_error_pct: 0,
            battery_status: 0,
            charging_voltage_mv: 0,
            charging_current_ma: 0,
            battery_temp_dk: 0,
            current_ma: 0,
            average_current_ma: 0,
        }
    }
}

/// Fuel gauge ID
#[derive(Debug, Clone, Copy, PartialEq, Eq, Structural)]
pub struct DeviceId(u8);

impl DeviceId {
    /// The ID number.
    pub closed spec fn value(self) -> u8 {
        self.0
    }
}

impl Default for DeviceId {
    fn default() -> (r: Self)
        ensures
            r.value() == 0,
    {
        DeviceId(0)
    }
}

} // verus!
