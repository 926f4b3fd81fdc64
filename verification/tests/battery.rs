use embedded_services::battery_service::device::{command_response, FuelGaugeError, InternalResponse};
use embedded_services::battery_service::fuel_gauge::{message_for, query_for, FuelGaugeQuery, FuelGaugeReading};
use embedded_services::battery_service_relay::serialization::{
    AcpiBatteryError, AcpiBatteryRequest, AcpiBatteryResponse, BatteryState, BatterySwapCapability,
    BatteryTechnology, BctReturnResult, BixFixedStrings, Bmd, BmdCapabilityFlags, BmdStatusFlags, Bps, BstReturn,
    BtmReturnResult, PifFixedStrings, PowerSource, PowerSourceState, PowerUnit, PsrReturn, StaReturn, Bct, Bma, Bmc,
    Bms, Bpt, Btm, Btp, ThresholdId,
};
use embedded_services::ec_type::message::BatteryMessage;
use embedded_services::relay::mctp::{MessageSerializationError, SerializableMessage};

fn round_trip(request: AcpiBatteryRequest, payload_len: usize) {
    let mut buffer = [0u8; 16];
    let len = request.serialize(&mut buffer).unwrap();
    assert_eq!(len, payload_len);
    assert_eq!(AcpiBatteryRequest::deserialize(request.discriminant(), &buffer[..len]), Ok(request));
}

#[test]
fn requests_round_trip() {
    round_trip(AcpiBatteryRequest::GetBix { battery_id: 3 }, 1);
    round_trip(AcpiBatteryRequest::GetSta { battery_id: 0 }, 1);
    round_trip(AcpiBatteryRequest::SetBtp { battery_id: 1, btp: Btp { trip_point: 0x1234_5678 } }, 5);
    round_trip(
        AcpiBatteryRequest::SetBpt {
            battery_id: 2,
            bpt: Bpt { revision: 1, threshold_id: ThresholdId::SustainablePeakPower, threshold_value: 0xdead_beef },
        },
        13,
    );
    round_trip(AcpiBatteryRequest::SetBmc { battery_id: 4, bmc: Bmc { maintenance_control_flags: 0xffff_ffff } }, 5);
    round_trip(AcpiBatteryRequest::GetBct { battery_id: 5, bct: Bct { charge_level_percent: 96 } }, 5);
    round_trip(AcpiBatteryRequest::GetBtm { battery_id: 6, btm: Btm { discharge_rate: 0 } }, 5);
    round_trip(AcpiBatteryRequest::SetBms { battery_id: 7, bms: Bms { sampling_time_ms: 1000 } }, 5);
    round_trip(AcpiBatteryRequest::SetBma { battery_id: 8, bma: Bma { averaging_interval_ms: 250 } }, 5);
}

#[test]
fn request_payload_layout() {
    let request = AcpiBatteryRequest::SetBpt {
        battery_id: 9,
        bpt: Bpt { revision: 1, threshold_id: ThresholdId::InstantaneousPeakPower, threshold_value: 0x0102_0304 },
    };
    assert_eq!(request.discriminant(), 7);
    assert_eq!(request.battery_id(), 9);
    let mut buffer = [0xaau8; 14];
    assert_eq!(request.serialize(&mut buffer), Ok(13));
    assert_eq!(buffer, [9, 1, 0, 0, 0, 1, 0, 0, 0, 4, 3, 2, 1, 0xaa]);
}

#[test]
fn request_serialize_stops_at_first_field_that_does_not_fit() {
    let request = AcpiBatteryRequest::SetBpt {
        battery_id: 9,
        bpt: Bpt { revision: 7, threshold_id: ThresholdId::SustainablePeakPower, threshold_value: 5 },
    };
    let mut buffer = [0xaau8; 8];
    assert_eq!(request.serialize(&mut buffer), Err(MessageSerializationError::BufferTooSmall));
    assert_eq!(buffer, [9, 7, 0, 0, 0, 0xaa, 0xaa, 0xaa]);
    let mut empty: [u8; 0] = [];
    assert_eq!(
        AcpiBatteryRequest::GetBst { battery_id: 1 }.serialize(&mut empty),
        Err(MessageSerializationError::BufferTooSmall)
    );
}

#[test]
fn request_deserialize_errors() {
    assert_eq!(
        AcpiBatteryRequest::deserialize(0, &[1]),
        Err(MessageSerializationError::UnknownMessageDiscriminant(0))
    );
    assert_eq!(
        AcpiBatteryRequest::deserialize(16, &[1]),
        Err(MessageSerializationError::UnknownMessageDiscriminant(16))
    );
    assert_eq!(AcpiBatteryRequest::deserialize(1, &[]), Err(MessageSerializationError::BufferTooSmall));
    assert_eq!(AcpiBatteryRequest::deserialize(6, &[1, 2, 3]), Err(MessageSerializationError::BufferTooSmall));
    // The threshold ID is checked once it has been read, before the threshold value.
    let invalid = [1, 1, 0, 0, 0, 3, 0, 0, 0];
    assert_eq!(
        AcpiBatteryRequest::deserialize(7, &invalid),
        Err(MessageSerializationError::InvalidPayload("Invalid ThresholdId"))
    );
    let valid_but_short = [1, 1, 0, 0, 0, 2, 0, 0, 0];
    assert_eq!(AcpiBatteryRequest::deserialize(7, &valid_but_short), Err(MessageSerializationError::BufferTooSmall));
    assert_eq!(
        AcpiBatteryRequest::deserialize(2, &[4, 9, 9]),
        Ok(AcpiBatteryRequest::GetBst { battery_id: 4 })
    );
}

#[test]
fn battery_errors() {
    let mut buffer = [0u8; 2];
    assert_eq!(AcpiBatteryError::UnknownDeviceId.discriminant(), 1);
    assert_eq!(AcpiBatteryError::UnspecifiedFailure.discriminant(), 2);
    assert_eq!(AcpiBatteryError::UnspecifiedFailure.serialize(&mut buffer), Ok(0));
    assert_eq!(AcpiBatteryError::deserialize(2, &[]), Ok(AcpiBatteryError::UnspecifiedFailure));
    assert_eq!(AcpiBatteryError::deserialize(1, &[]), Ok(AcpiBatteryError::UnknownDeviceId));
    assert_eq!(
        AcpiBatteryError::deserialize(3, &[]),
        Err(MessageSerializationError::UnknownMessageDiscriminant(3))
    );
}

#[test]
fn fuel_gauge_answers() {
    assert_eq!(query_for(&BatteryMessage::CycleCount(0)), Some(FuelGaugeQuery::CycleCount));
    assert_eq!(query_for(&BatteryMessage::State(0)), Some(FuelGaugeQuery::BatteryStatus));
    assert_eq!(query_for(&BatteryMessage::PresentRate(0)), Some(FuelGaugeQuery::Current));
    assert_eq!(query_for(&BatteryMessage::RemainCap(0)), Some(FuelGaugeQuery::RemainingCapacity));
    assert_eq!(query_for(&BatteryMessage::PresentVolt(0)), Some(FuelGaugeQuery::Voltage));
    assert_eq!(query_for(&BatteryMessage::Events(0)), None);
    assert_eq!(message_for(FuelGaugeReading::CycleCount(12)), BatteryMessage::CycleCount(12));
    assert_eq!(message_for(FuelGaugeReading::BatteryStatus { discharging: true }), BatteryMessage::State(1));
    assert_eq!(message_for(FuelGaugeReading::BatteryStatus { discharging: false }), BatteryMessage::State(2));
    assert_eq!(message_for(FuelGaugeReading::Current(-1500)), BatteryMessage::PresentRate(1500));
    assert_eq!(message_for(FuelGaugeReading::Current(i16::MIN)), BatteryMessage::PresentRate(32768));
    assert_eq!(message_for(FuelGaugeReading::Current(700)), BatteryMessage::PresentRate(700));
    assert_eq!(message_for(FuelGaugeReading::RemainingCapacity(4000)), BatteryMessage::RemainCap(4000));
    assert_eq!(message_for(FuelGaugeReading::Voltage(11_100)), BatteryMessage::PresentVolt(11_100));
    assert_eq!(command_response(true), Ok(InternalResponse::Complete));
    assert_eq!(command_response(false), Err(FuelGaugeError::BusError));
}

fn sample_bix() -> BixFixedStrings {
    BixFixedStrings {
        revision: 1,
        power_unit: PowerUnit::MilliAmps,
        design_capacity: 5000,
        last_full_charge_capacity: 4800,
        battery_technology: BatteryTechnology::Secondary,
        design_voltage: 11_100,
        design_cap_of_warning: 500,
        design_cap_of_low: 200,
        cycle_count: 42,
        measurement_accuracy: 95_000,
        max_sampling_time: 1000,
        min_sampling_time: 100,
        max_averaging_interval: 2000,
        min_averaging_interval: 200,
        battery_capacity_granularity_1: 10,
        battery_capacity_granularity_2: 20,
        model_number: *b"MODEL-01",
        serial_number: *b"SN123456",
        battery_type: *b"LION\0\0\0\0",
        oem_info: *b"OEM-INFO",
        battery_swapping_capability: BatterySwapCapability::ColdSwappable,
    }
}

fn response_round_trip(response: AcpiBatteryResponse, payload_len: usize) {
    let mut buffer = [0u8; 128];
    assert_eq!(response.serialize(&mut buffer), Ok(payload_len));
    assert_eq!(AcpiBatteryResponse::deserialize(response.discriminant(), &buffer[..payload_len]), Ok(response));
}

#[test]
fn battery_responses_round_trip() {
    response_round_trip(AcpiBatteryResponse::GetBix { bix: sample_bix() }, 100);
    let bst = BstReturn {
        battery_state: BatteryState::from_bits(0b0101).unwrap(),
        battery_present_rate: 1500,
        battery_remaining_capacity: 3000,
        battery_present_voltage: 12_000,
    };
    response_round_trip(AcpiBatteryResponse::GetBst { bst }, 16);
    response_round_trip(AcpiBatteryResponse::GetPsr { psr: PsrReturn { power_source: PowerSource::Online } }, 4);
    let pif = PifFixedStrings {
        power_source_state: PowerSourceState::from_bits(2).unwrap(),
        max_output_power: 65_000,
        max_input_power: 90_000,
        model_number: *b"ADAPTER1",
        serial_number: *b"00000001",
        oem_info: *b"OEMOEMOE",
    };
    response_round_trip(AcpiBatteryResponse::GetPif { pif }, 36);
    let bmd = Bmd {
        status_flags: BmdStatusFlags::from_bits(0x7f).unwrap(),
        capability_flags: BmdCapabilityFlags::from_bits(0x3f).unwrap(),
        recalibrate_count: 3,
        quick_recalibrate_time: 60,
        slow_recalibrate_time: 600,
    };
    response_round_trip(AcpiBatteryResponse::GetBmd { bmd }, 20);
    response_round_trip(AcpiBatteryResponse::GetBct { bct_response: BctReturnResult::EstimatedTime(900) }, 4);
    response_round_trip(AcpiBatteryResponse::GetBtm { btm_response: BtmReturnResult::Unknown }, 4);
    response_round_trip(AcpiBatteryResponse::SetBms { status: 1 }, 4);
    response_round_trip(AcpiBatteryResponse::GetSta { sta: StaReturn::from_bits(0x1f).unwrap() }, 4);
    response_round_trip(AcpiBatteryResponse::SetBtp {}, 0);
}

#[test]
fn battery_response_layout() {
    let mut buffer = [0xeeu8; 104];
    let bix = sample_bix();
    assert_eq!(AcpiBatteryResponse::GetBix { bix }.serialize(&mut buffer), Ok(100));
    assert_eq!(&buffer[0..4], &[1, 0, 0, 0]);
    assert_eq!(&buffer[4..8], &[1, 0, 0, 0]);
    assert_eq!(&buffer[64..72], b"MODEL-01");
    assert_eq!(&buffer[88..96], b"OEM-INFO");
    assert_eq!(&buffer[96..100], &[1, 0, 0, 0]);
    assert_eq!(&buffer[100..], &[0xee; 4]);
    // A record with strings is written whole or not at all
    let mut short = [0xeeu8; 99];
    assert_eq!(AcpiBatteryResponse::GetBix { bix }.serialize(&mut short), Err(MessageSerializationError::BufferTooSmall));
    assert_eq!(short, [0xeeu8; 99]);
    // Values without strings are written as far as they fit
    let bps = Bps {
        revision: 1,
        instantaneous_peak_power_level: 2,
        instantaneous_peak_power_period: 3,
        sustainable_peak_power_level: 4,
        sustainable_peak_power_period: 5,
    };
    let mut partial = [0xeeu8; 10];
    assert_eq!(AcpiBatteryResponse::GetBps { bps }.serialize(&mut partial), Err(MessageSerializationError::BufferTooSmall));
    assert_eq!(partial, [1, 0, 0, 0, 2, 0, 0, 0, 0xee, 0xee]);
    assert_eq!(AcpiBatteryResponse::GetSta { sta: StaReturn::from_bits(3).unwrap() }.discriminant(), 15);
    assert_eq!(BctReturnResult::Unknown.value(), 0xFFFF_FFFF);
}

#[test]
fn battery_response_errors() {
    let bad_state = [0x10, 0, 0, 0, 0, 0, 0, 0, 0, 0, 0, 0, 0, 0, 0, 0];
    assert_eq!(
        AcpiBatteryResponse::deserialize(2, &bad_state),
        Err(MessageSerializationError::InvalidPayload("Invalid BatteryState"))
    );
    assert_eq!(AcpiBatteryResponse::deserialize(2, &[1, 0, 0, 0, 5]), Err(MessageSerializationError::BufferTooSmall));
    assert_eq!(
        AcpiBatteryResponse::deserialize(3, &[2, 0, 0, 0]),
        Err(MessageSerializationError::InvalidPayload("Invalid PowerSource"))
    );
    assert_eq!(
        AcpiBatteryResponse::deserialize(8, &[1, 0, 0, 0, 4, 0, 0, 0]),
        Err(MessageSerializationError::InvalidPayload("Invalid BpcThresholdSupport"))
    );
    assert_eq!(
        AcpiBatteryResponse::deserialize(10, &[0, 0, 0, 0, 0x40, 0, 0, 0]),
        Err(MessageSerializationError::InvalidPayload("Invalid BmdCapabilityFlags"))
    );
    assert_eq!(
        AcpiBatteryResponse::deserialize(15, &[0x20, 0, 0, 0]),
        Err(MessageSerializationError::InvalidPayload("Invalid STA flags"))
    );
    assert_eq!(
        AcpiBatteryResponse::deserialize(11, &[0, 0, 0, 0]),
        Ok(AcpiBatteryResponse::GetBct { bct_response: BctReturnResult::InvalidTarget })
    );
    let mut bix_bytes = [0u8; 100];
    AcpiBatteryResponse::GetBix { bix: sample_bix() }.serialize(&mut bix_bytes).unwrap();
    bix_bytes[4] = 2;
    assert_eq!(
        AcpiBatteryResponse::deserialize(1, &bix_bytes),
        Err(MessageSerializationError::InvalidPayload("Invalid PowerUnit"))
    );
    bix_bytes[4] = 1;
    bix_bytes[96] = 3;
    assert_eq!(
        AcpiBatteryResponse::deserialize(1, &bix_bytes),
        Err(MessageSerializationError::InvalidPayload("Invalid BatterySwappingCapability"))
    );
    assert_eq!(AcpiBatteryResponse::deserialize(1, &bix_bytes[..99]), Err(MessageSerializationError::BufferTooSmall));
    assert_eq!(AcpiBatteryResponse::deserialize(6, &[]), Ok(AcpiBatteryResponse::SetBtp {}));
    assert_eq!(
        AcpiBatteryResponse::deserialize(16, &[0; 4]),
        Err(MessageSerializationError::UnknownMessageDiscriminant(16))
    );
    assert!(BatteryState::from_bits(16).is_none());
    assert!(PowerSourceState::from_bits(4).is_none());
}
