use embedded_services::hid::command::{Command, Opcode, PowerState, Protocol, ReportFreq, ReportType, EXTENDED_REPORT_ID};
use embedded_services::hid::{Descriptor, Error, RegisterFile, ReportId, DESCRIPTOR_LEN};

const CMD_REG: u16 = 0x0005;
const DATA_REG: u16 = 0x0006;
const REPORT_ID: ReportId = ReportId(8);
const EXT_REPORT_ID: ReportId = ReportId(EXTENDED_REPORT_ID);

#[test]
fn descriptor_serialize_deserialize() {
    // No particular significance to these values
    let default_regs = RegisterFile::default();
    const HID_VID: u16 = 0x483;
    const HID_PID: u16 = 0x572B;
    const REPORT_DESC_LEN: u16 = 56;
    const INPUT_REPORT_LEN: u16 = 8;
    const OUTPUT_REPORT_LEN: u16 = 45;
    const BCD_VERSION: u16 = 0x0100;
    const VERSION: u16 = 0x0100;

    let descriptor = Descriptor {
        w_hid_desc_length: DESCRIPTOR_LEN as u16,
        bcd_version: BCD_VERSION,
        w_report_desc_length: REPORT_DESC_LEN,
        w_report_desc_register: default_regs.report_desc_reg,
        w_input_register: default_regs.input_reg,
        w_max_input_length: INPUT_REPORT_LEN,
        w_output_register: default_regs.output_reg,
        w_max_output_length: OUTPUT_REPORT_LEN,
        w_command_register: default_regs.command_reg,
        w_data_register: default_regs.data_reg,
        w_vendor_id: HID_VID,
        w_product_id: HID_PID,
        w_version_id: VERSION,
    };

    let mut buf = [0u8; DESCRIPTOR_LEN];
    let _ = descriptor.encode_into_slice(&mut buf).unwrap();
    let decoded = Descriptor::decode_from_slice(&buf).unwrap();

    assert_eq!(decoded, descriptor);
}

#[test]
fn descriptor_layout_and_errors() {
    let descriptor = Descriptor {
        w_hid_desc_length: 0x1e,
        bcd_version: 0x0100,
        w_report_desc_length: 0x1234,
        w_report_desc_register: 2,
        w_input_register: 3,
        w_max_input_length: 4,
        w_output_register: 5,
        w_max_output_length: 6,
        w_command_register: 7,
        w_data_register: 8,
        w_vendor_id: 0xabcd,
        w_product_id: 10,
        w_version_id: 11,
    };
    let mut buf = [0xffu8; 32];
    assert_eq!(descriptor.encode_into_slice(&mut buf), Ok(DESCRIPTOR_LEN));
    assert_eq!(&buf[0..6], &[0x1e, 0x00, 0x00, 0x01, 0x34, 0x12]);
    assert_eq!(&buf[20..22], &[0xcd, 0xab]);
    assert_eq!(&buf[26..32], &[0, 0, 0, 0, 0xff, 0xff]);

    let mut short = [0u8; 29];
    assert_eq!(descriptor.encode_into_slice(&mut short), Err(Error::InvalidSize(30, 29)));
    assert_eq!(short, [0u8; 29]);
    assert_eq!(Descriptor::decode_from_slice(&buf[..29]), Err(Error::InvalidSize(30, 29)));
    buf[28] = 1;
    assert_eq!(Descriptor::decode_from_slice(&buf), Err(Error::InvalidData));
}

#[test]
fn test_serialize_reset() {
    let mut test_buffer = [0u8; 4];

    // Test basic functionality
    let len = Command::Reset.encode_into_slice(&mut test_buffer, None, None).unwrap();
    assert_eq!(&test_buffer[0..len], [0x00, 0x01]);

    // Test with command register
    test_buffer.fill(0);
    let len = Command::Reset.encode_into_slice(&mut test_buffer, Some(CMD_REG), None).unwrap();
    assert_eq!(&test_buffer[0..len], [0x05, 0x00, 0x00, 0x1]);
}

#[test]
fn test_serialize_get_report() {
    let mut test_buffer = [0u8; 7];

    // Test input report
    let len = Command::GetReport(ReportType::Input, REPORT_ID)
        .encode_into_slice(&mut test_buffer, None, None)
        .unwrap();
    assert_eq!(&test_buffer[0..len], [0x18, 0x02]);

    // Test feature report
    test_buffer.fill(0);
    let len = Command::GetReport(ReportType::Feature, REPORT_ID)
        .encode_into_slice(&mut test_buffer, None, None)
        .unwrap();
    assert_eq!(&test_buffer[0..len], [0x38, 0x02]);

    // Test extended report
    test_buffer.fill(0);
    let len = Command::GetReport(ReportType::Input, EXT_REPORT_ID)
        .encode_into_slice(&mut test_buffer, None, None)
        .unwrap();
    assert_eq!(&test_buffer[0..len], [0x1f, 0x02, EXTENDED_REPORT_ID]);

    // Test standard report id with registers
    test_buffer.fill(0);
    let len = Command::GetReport(ReportType::Feature, REPORT_ID)
        .encode_into_slice(&mut test_buffer, Some(CMD_REG), Some(DATA_REG))
        .unwrap();
    assert_eq!(&test_buffer[0..len], [0x05, 0x00, 0x38, 0x02, 0x06, 0x00]);

    // Test extended report id with registers
    test_buffer.fill(0);
    let len = Command::GetReport(ReportType::Input, EXT_REPORT_ID)
        .encode_into_slice(&mut test_buffer, Some(CMD_REG), Some(DATA_REG))
        .unwrap();
    assert_eq!(&test_buffer[0..len], [0x05, 0x00, 0x1f, 0x02, EXTENDED_REPORT_ID, 0x06, 0x00]);
}

#[test]
fn test_serialize_set_report() {
    let mut test_buffer = [0u8; 11];
    let data: [u8; 2] = [0x00, 0x00];

    // Test output report
    let len = Command::SetReport(ReportType::Output, REPORT_ID, &data)
        .encode_into_slice(&mut test_buffer, None, None)
        .unwrap();
    assert_eq!(&test_buffer[0..len], [0x28, 0x03, 0x04, 0x00, 0x00, 0x00]);

    // Test feature report
    test_buffer.fill(0);
    let len = Command::SetReport(ReportType::Feature, REPORT_ID, &data)
        .encode_into_slice(&mut test_buffer, None, None)
        .unwrap();
    assert_eq!(&test_buffer[0..len], [0x38, 0x03, 0x04, 0x00, 0x00, 0x00]);

    // Test extended report
    test_buffer.fill(0);
    let len = Command::SetReport(ReportType::Output, EXT_REPORT_ID, &data)
        .encode_into_slice(&mut test_buffer, None, None)
        .unwrap();
    assert_eq!(&test_buffer[0..len], [0x2f, 0x03, EXTENDED_REPORT_ID, 0x04, 0x00, 0x00, 0x00]);

    // Test standard report id with registers
    test_buffer.fill(0);
    let len = Command::SetReport(ReportType::Output, REPORT_ID, &data)
        .encode_into_slice(&mut test_buffer, Some(CMD_REG), Some(DATA_REG))
        .unwrap();
    assert_eq!(&test_buffer[0..len], [0x05, 0x00, 0x28, 0x03, 0x06, 0x00, 0x04, 0x00, 0x00, 0x00]);

    // Test extended report id with registers
    test_buffer.fill(0);
    let len = Command::SetReport(ReportType::Output, EXT_REPORT_ID, &data)
        .encode_into_slice(&mut test_buffer, Some(CMD_REG), Some(DATA_REG))
        .unwrap();
    assert_eq!(
        &test_buffer[0..len],
        [0x05, 0x00, 0x2f, 0x03, EXTENDED_REPORT_ID, 0x06, 0x00, 0x04, 0x00, 0x00, 0x00]
    );
}

#[test]
fn test_serialize_get_idle() {
    let mut test_buffer = [0u8; 7];

    // Test standard report id
    let len = Command::GetIdle(REPORT_ID).encode_into_slice(&mut test_buffer, None, None).unwrap();
    assert_eq!(&test_buffer[0..len], [0x08, 0x04]);

    // Test extended report id
    test_buffer.fill(0);
    let len = Command::GetIdle(EXT_REPORT_ID).encode_into_slice(&mut test_buffer, None, None).unwrap();
    assert_eq!(&test_buffer[0..len], [0x0f, 0x04, EXTENDED_REPORT_ID]);

    // Test standard report id with registers
    test_buffer.fill(0);
    let len = Command::GetIdle(REPORT_ID)
        .encode_into_slice(&mut test_buffer, Some(CMD_REG), Some(DATA_REG))
        .unwrap();
    assert_eq!(&test_buffer[0..len], [0x05, 0x00, 0x08, 0x04, 0x06, 0x00]);

    // Test extended report id with registers
    test_buffer.fill(0);
    let len = Command::GetIdle(EXT_REPORT_ID)
        .encode_into_slice(&mut test_buffer, Some(CMD_REG), Some(DATA_REG))
        .unwrap();
    assert_eq!(&test_buffer[0..len], [0x05, 0x00, 0x0f, 0x04, EXTENDED_REPORT_ID, 0x06, 0x00]);
}

#[test]
fn test_serialize_set_idle() {
    let mut test_buffer = [0u8; 11];

    // Test standard report id
    let len = Command::SetIdle(REPORT_ID, ReportFreq::Infinite)
        .encode_into_slice(&mut test_buffer, None, None)
        .unwrap();
    assert_eq!(&test_buffer[0..len], [0x08, 0x05, 0x04, 0x00, 0x00, 0x00]);

    test_buffer.fill(0);
    let len = Command::SetIdle(REPORT_ID, ReportFreq::Msecs(0x0203))
        .encode_into_slice(&mut test_buffer, None, None)
        .unwrap();
    assert_eq!(&test_buffer[0..len], [0x08, 0x05, 0x04, 0x00, 0x03, 0x02]);

    // Test extended report id
    test_buffer.fill(0);
    let len = Command::SetIdle(EXT_REPORT_ID, ReportFreq::Infinite)
        .encode_into_slice(&mut test_buffer, None, None)
        .unwrap();
    assert_eq!(&test_buffer[0..len], [0x0f, 0x05, EXTENDED_REPORT_ID, 0x04, 0x00, 0x00, 0x00]);

    test_buffer.fill(0);
    let len = Command::SetIdle(EXT_REPORT_ID, ReportFreq::Msecs(0x0203))
        .encode_into_slice(&mut test_buffer, None, None)
        .unwrap();
    assert_eq!(&test_buffer[0..len], [0x0f, 0x05, EXTENDED_REPORT_ID, 0x04, 0x00, 0x03, 0x02]);

    // Test standard report id with registers
    test_buffer.fill(0);
    let len = Command::SetIdle(REPORT_ID, ReportFreq::Infinite)
        .encode_into_slice(&mut test_buffer, Some(CMD_REG), Some(DATA_REG))
        .unwrap();
    assert_eq!(&test_buffer[0..len], [0x05, 0x00, 0x08, 0x05, 0x06, 0x00, 0x04, 0x00, 0x00, 0x00]);

    test_buffer.fill(0);
    let len = Command::SetIdle(REPORT_ID, ReportFreq::Msecs(0x0203))
        .encode_into_slice(&mut test_buffer, Some(CMD_REG), Some(DATA_REG))
        .unwrap();
    assert_eq!(&test_buffer[0..len], [0x05, 0x00, 0x08, 0x05, 0x06, 0x00, 0x04, 0x00, 0x03, 0x02]);

    // Test extended report id with registers
    test_buffer.fill(0);
    let len = Command::SetIdle(EXT_REPORT_ID, ReportFreq::Infinite)
        .encode_into_slice(&mut test_buffer, Some(CMD_REG), Some(DATA_REG))
        .unwrap();
    assert_eq!(
        &test_buffer[0..len],
        [0x05, 0x00, 0x0f, 0x05, EXTENDED_REPORT_ID, 0x06, 0x00, 0x04, 0x00, 0x00, 0x00]
    );

    test_buffer.fill(0);
    let len = Command::SetIdle(EXT_REPORT_ID, ReportFreq::Msecs(0x0203))
        .encode_into_slice(&mut test_buffer, Some(CMD_REG), Some(DATA_REG))
        .unwrap();
    assert_eq!(
        &test_buffer[0..len],
        [0x05, 0x00, 0x0f, 0x05, EXTENDED_REPORT_ID, 0x06, 0x00, 0x04, 0x00, 0x03, 0x02]
    );
}

#[test]
fn test_serialize_get_protocol() {
    let mut test_buffer = [0u8; 6];

    // Test basic functionality
    let len = Command::GetProtocol.encode_into_slice(&mut test_buffer, None, None).unwrap();
    assert_eq!(&test_buffer[0..len], [0x00, 0x06]);

    // Test with command register
    test_buffer.fill(0);
    let len = Command::GetProtocol
        .encode_into_slice(&mut test_buffer, Some(CMD_REG), Some(DATA_REG))
        .unwrap();
    assert_eq!(&test_buffer[0..len], [0x05, 0x00, 0x00, 0x06, 0x06, 0x00]);
}

#[test]
fn test_serialized_set_protocol() {
    let mut test_buffer = [0u8; 10];

    // Test basic functionality
    let len = Command::SetProtocol(Protocol::Boot).encode_into_slice(&mut test_buffer, None, None).unwrap();
    assert_eq!(&test_buffer[0..len], [0x00, 0x07, 0x04, 0x00, 0x00, 0x00]);

    test_buffer.fill(0);
    let len = Command::SetProtocol(Protocol::Report).encode_into_slice(&mut test_buffer, None, None).unwrap();
    assert_eq!(&test_buffer[0..len], [0x00, 0x07, 0x04, 0x00, 0x01, 0x00]);

    // Test with registers
    test_buffer.fill(0);
    let len = Command::SetProtocol(Protocol::Boot)
        .encode_into_slice(&mut test_buffer, Some(CMD_REG), Some(DATA_REG))
        .unwrap();
    assert_eq!(&test_buffer[0..len], [0x05, 0x00, 0x00, 0x07, 0x06, 0x00, 0x04, 0x00, 0x00, 0x00]);

    test_buffer.fill(0);
    let len = Command::SetProtocol(Protocol::Report)
        .encode_into_slice(&mut test_buffer, Some(CMD_REG), Some(DATA_REG))
        .unwrap();
    assert_eq!(&test_buffer[0..len], [0x05, 0x00, 0x00, 0x07, 0x06, 0x00, 0x04, 0x00, 0x01, 0x00]);
}

#[test]
fn test_serialized_set_power() {
    let mut test_buffer = [0u8; 4];

    // Test basic functionality
    let len = Command::SetPower(PowerState::On).encode_into_slice(&mut test_buffer, None, None).unwrap();
    assert_eq!(&test_buffer[0..len], [0x00, 0x08]);

    test_buffer.fill(0);
    let len = Command::SetPower(PowerState::Sleep).encode_into_slice(&mut test_buffer, None, None).unwrap();
    assert_eq!(&test_buffer[0..len], [0x01, 0x08]);

    // Test with command register
    test_buffer.fill(0);
    let len = Command::SetPower(PowerState::On)
        .encode_into_slice(&mut test_buffer, Some(CMD_REG), None)
        .unwrap();
    assert_eq!(&test_buffer[0..len], [0x05, 0x00, 0x00, 0x08]);

    test_buffer.fill(0);
    let len = Command::SetPower(PowerState::Sleep)
        .encode_into_slice(&mut test_buffer, Some(CMD_REG), None)
        .unwrap();
    assert_eq!(&test_buffer[0..len], [0x05, 0x00, 0x01, 0x08]);
}

#[test]
fn test_serialized_vendor() {
    let mut test_buffer = [0xffu8; 4];

    // Test basic functionality
    test_buffer.fill(0);
    let len = Command::Vendor.encode_into_slice(&mut test_buffer, None, None).unwrap();
    assert_eq!(&test_buffer[0..len], [0x00, 0x0e]);

    // Test with command register
    test_buffer.fill(0);
    let len = Command::Vendor.encode_into_slice(&mut test_buffer, Some(CMD_REG), None).unwrap();
    assert_eq!(&test_buffer[0..len], [0x05, 0x00, 0x00, 0x0e]);
}

#[test]
fn encode_reports_first_part_that_does_not_fit() {
    let data: [u8; 3] = [1, 2, 3];
    // Command register fits, command word does not.
    let mut buf = [0xaau8; 3];
    assert_eq!(
        Command::GetReport(ReportType::Input, EXT_REPORT_ID).encode_into_slice(&mut buf, Some(CMD_REG), None),
        Err(Error::InvalidSize(3, 1))
    );
    assert_eq!(buf, [0x05, 0x00, 0xaa]);
    // Nothing fits.
    let mut buf = [0xaau8; 1];
    assert_eq!(Command::Reset.encode_into_slice(&mut buf, Some(CMD_REG), None), Err(Error::InvalidSize(2, 1)));
    assert_eq!(buf, [0xaa]);
    // The data register fits, the report data does not.
    let mut buf = [0u8; 8];
    assert_eq!(
        Command::SetReport(ReportType::Feature, REPORT_ID, &data).encode_into_slice(&mut buf, None, Some(DATA_REG)),
        Err(Error::InvalidSize(5, 4))
    );
    assert_eq!(&buf[0..4], &[0x38, 0x03, 0x06, 0x00]);
    // The value of SetIdle does not fit.
    let mut buf = [0u8; 5];
    assert_eq!(
        Command::SetIdle(REPORT_ID, ReportFreq::Msecs(7)).encode_into_slice(&mut buf, None, None),
        Err(Error::InvalidSize(4, 3))
    );
    // Everything fits exactly.
    let mut buf = [0u8; 9];
    assert_eq!(
        Command::SetReport(ReportType::Feature, REPORT_ID, &data).encode_into_slice(&mut buf, None, Some(DATA_REG)),
        Ok(9)
    );
    assert_eq!(buf, [0x38, 0x03, 0x06, 0x00, 0x05, 0x00, 1, 2, 3]);
}

#[test]
fn command_new_validates() {
    let data: [u8; 1] = [9];
    assert!(matches!(
        Command::new(0, Opcode::GetReport, Some(ReportType::Input), None, None),
        Err(Error::RequiresReportId)
    ));
    assert!(matches!(
        Command::new(0, Opcode::SetReport, Some(ReportType::Output), Some(ReportId(1)), None),
        Err(Error::RequiresData)
    ));
    assert!(matches!(Command::new(0, Opcode::Vendor, None, None, None), Ok(Command::Vendor)));
    assert!(matches!(
        Command::new(0, Opcode::GetReport, None, Some(ReportId(1)), None),
        Err(Error::InvalidReportType)
    ));
    assert!(matches!(
        Command::new(0, Opcode::GetReport, Some(ReportType::Output), Some(ReportId(1)), None),
        Err(Error::InvalidReportType)
    ));
    assert!(matches!(
        Command::new(0, Opcode::GetReport, Some(ReportType::Feature), Some(ReportId(2)), None),
        Ok(Command::GetReport(ReportType::Feature, ReportId(2)))
    ));
    assert!(matches!(
        Command::new(0, Opcode::SetReport, Some(ReportType::Input), Some(ReportId(1)), Some(&data)),
        Err(Error::InvalidReportType)
    ));
    match Command::new(0, Opcode::SetReport, Some(ReportType::Output), Some(ReportId(1)), Some(&data)) {
        Ok(Command::SetReport(ReportType::Output, ReportId(1), d)) => assert_eq!(d, &[9]),
        _ => panic!("expected a SetReport command"),
    }
    assert!(matches!(
        Command::new(0x0305, Opcode::SetIdle, None, Some(ReportId(1)), Some(&data)),
        Ok(Command::SetIdle(ReportId(1), ReportFreq::Msecs(0x0305)))
    ));
    assert!(matches!(
        Command::new(0, Opcode::SetIdle, None, Some(ReportId(1)), Some(&data)),
        Ok(Command::SetIdle(ReportId(1), ReportFreq::Infinite))
    ));
    assert!(matches!(Command::new(1, Opcode::SetProtocol, None, None, None), Ok(Command::SetProtocol(Protocol::Report))));
    assert!(matches!(Command::new(2, Opcode::SetProtocol, None, None, None), Err(Error::InvalidData)));
    assert!(matches!(Command::new(0x0801, Opcode::SetPower, None, None, None), Ok(Command::SetPower(PowerState::Sleep))));
    assert!(matches!(Command::new(0x0802, Opcode::SetPower, None, None, None), Err(Error::InvalidData)));
    assert!(matches!(Command::new(0, Opcode::Reset, None, None, None), Ok(Command::Reset)));
}

#[test]
fn opcode_and_field_conversions_round_trip() {
    for op in [
        Opcode::Reset,
        Opcode::GetReport,
        Opcode::SetReport,
        Opcode::GetIdle,
        Opcode::SetIdle,
        Opcode::GetProtocol,
        Opcode::SetProtocol,
        Opcode::SetPower,
        Opcode::Vendor,
    ] {
        assert_eq!(Opcode::try_from(u16::from(op)), Ok(op));
    }
    assert_eq!(u16::from(Opcode::Vendor), 0x0e00);
    assert_eq!(Opcode::try_from(0x0900u16), Err(Error::Serialize));
    assert_eq!(Opcode::try_from(0x1338u16), Ok(Opcode::SetReport));
    for t in [ReportType::Input, ReportType::Output, ReportType::Feature] {
        assert_eq!(ReportType::try_from(u16::from(t)), Ok(t));
    }
    assert_eq!(ReportType::try_from(0x0208u16), Err(Error::Serialize));
    assert_eq!(PowerState::try_from(u16::from(PowerState::Sleep)), Ok(PowerState::Sleep));
    assert_eq!(PowerState::try_from(3u16), Err(Error::Serialize));
    assert_eq!(Protocol::try_from(u16::from(Protocol::Boot)), Ok(Protocol::Boot));
    assert_eq!(ReportFreq::try_from(u16::from(ReportFreq::Msecs(40))), Ok(ReportFreq::Msecs(40)));
    assert_eq!(ReportFreq::try_from(0u16), Ok(ReportFreq::Infinite));
    assert!(Opcode::SetIdle.requires_host_data());
    assert!(!Opcode::GetIdle.requires_host_data());
    assert!(Opcode::GetIdle.requires_report_id());
    assert!(!Opcode::Vendor.requires_report_id());
    assert!(Opcode::GetProtocol.has_response());
    assert!(!Opcode::SetProtocol.has_response());
    assert_eq!(Opcode::from(Command::GetProtocol), Opcode::GetProtocol);
    assert_eq!(Opcode::from(&Command::SetPower(PowerState::On)), Opcode::SetPower);
    assert_eq!(ReportId::from_command(0x0238), ReportId(8));
    assert!(ReportId::has_extended_report_id(0x021f));
    assert!(!ReportId::has_extended_report_id(0x0218));
}
