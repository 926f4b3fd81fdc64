//! UCSI types, see the USB Type-C Connector System Software Interface specification
use vstd::prelude::*;

pub mod lpm;
pub mod ppm;

verus! {

/// Ucsi opcodes, see spec for more detail
#[derive(Debug, Copy, Clone, PartialEq, Eq, Structural)]
#[allow(missing_docs)]
pub enum UsciOpcode {
    PpmReset,
    Cancel,
    ConnectorReset,
    AckCcCi,
    SetNotificationEnable,
    GetCapability,
    GetConnectorCapability,
    SetCcom,
    SetUor,
    SetPdm,
    SetPdr,
    GetAlternateModes,
    GetCamSupported,
    GetCurrentCam,
    SetNewCam,
    GetPdos,
    GetCableProperty,
    GetConnectorStatus,
    GetErrorStatus,
    SetPowerLevel,
    GetPdMessage,
    GetAttentionVdo,
    GetCamCs,
    LpmFwUpdateRequest,
    SecurityRequest,
    SetRetimerMode,
    SetSinkPath,
    SetPdos,
    ReadPowerLevel,
    ChunkingSupport,
    SetUsb,
    GetLpmPpmInfo,
}

/// The opcode number that UCSI assigns to `op`.
pub open spec fn usci_opcode_value(op: UsciOpcode) -> u8 {
    match op {
        UsciOpcode::PpmReset => 0x01,
        UsciOpcode::Cancel => 0x02,
        UsciOpcode::ConnectorReset => 0x03,
        UsciOpcode::AckCcCi => 0x04,
        UsciOpcode::SetNotificationEnable => 0x05,
        UsciOpcode::GetCapability => 0x06,
        UsciOpcode::GetConnectorCapability => 0x07,
        UsciOpcode::SetCcom => 0x08,
        UsciOpcode::SetUor => 0x09,
        UsciOpcode::SetPdm => 0x0a,
        UsciOpcode::SetPdr => 0x0b,
        UsciOpcode::GetAlternateModes => 0x0c,
        UsciOpcode::GetCamSupported => 0x0d,
        UsciOpcode::GetCurrentCam => 0x0e,
        UsciOpcode::SetNewCam => 0x0f,
        UsciOpcode::GetPdos => 0x10,
        UsciOpcode::GetCableProperty => 0x11,
        UsciOpcode::GetConnectorStatus => 0x12,
        UsciOpcode::GetErrorStatus => 0x13,
        UsciOpcode::SetPowerLevel => 0x14,
        UsciOpcode::GetPdMessage => 0x15,
        UsciOpcode::GetAttentionVdo => 0x16,
        UsciOpcode::GetCamCs => 0x18,
        UsciOpcode::LpmFwUpdateRequest => 0x19,
        UsciOpcode::SecurityRequest => 0x1a,
        UsciOpcode::SetRetimerMode => 0x1b,
        UsciOpcode::SetSinkPath => 0x1c,
        UsciOpcode::SetPdos => 0x1d,
        UsciOpcode::ReadPowerLevel => 0x1e,
        UsciOpcode::ChunkingSupport => 0x1f,
        UsciOpcode::SetUsb => 0x21,
        UsciOpcode::GetLpmPpmInfo => 0x22,
    }
}

impl From<UsciOpcode> for u8 {
    fn from(op: UsciOpcode) -> (r: u8)
        ensures
            r == usci_opcode_value(op),
    {
        match op {
            UsciOpcode::PpmReset => 0x01,
            UsciOpcode::Cancel => 0x02,
            UsciOpcode::ConnectorReset => 0x03,
            UsciOpcode::AckCcCi => 0x04,
            UsciOpcode::SetNotificationEnable => 0x05,
            UsciOpcode::GetCapability => 0x06,
            UsciOpcode::GetConnectorCapability => 0x07,
            UsciOpcode::SetCcom => 0x08,
            UsciOpcode::SetUor => 0x09,
            UsciOpcode::SetPdm => 0x0a,
            UsciOpcode::SetPdr => 0x0b,
            UsciOpcode::GetAlternateModes => 0x0c,
            UsciOpcode::GetCamSupported => 0x0d,
            UsciOpcode::GetCurrentCam => 0x0e,
            UsciOpcode::SetNewCam => 0x0f,
            UsciOpcode::GetPdos => 0x10,
            UsciOpcode::GetCableProperty => 0x11,
            UsciOpcode::GetConnectorStatus => 0x12,
            UsciOpcode::GetErrorStatus => 0x13,
            UsciOpcode::SetPowerLevel => 0x14,
            UsciOpcode::GetPdMessage => 0x15,
            UsciOpcode::GetAttentionVdo => 0x16,
            UsciOpcode::GetCamCs => 0x18,
            UsciOpcode::LpmFwUpdateRequest => 0x19,
            UsciOpcode::SecurityRequest => 0x1a,
            UsciOpcode::SetRetimerMode => 0x1b,
            UsciOpcode::SetSinkPath => 0x1c,
            UsciOpcode::SetPdos => 0x1d,
            UsciOpcode::ReadPowerLevel => 0x1e,
            UsciOpcode::ChunkingSupport => 0x1f,
            UsciOpcode::SetUsb => 0x21,
            UsciOpcode::GetLpmPpmInfo => 0x22,
        }
    }
}

impl vstd::std_specs::convert::FromSpecImpl<UsciOpcode> for u8 {
    open spec fn obeys_from_spec() -> bool {
        true
    }

    open spec fn from_spec(op: UsciOpcode) -> u8 {
        usci_opcode_value(op)
    }
}

/// Distinct opcodes have distinct numbers.
pub proof fn lemma_usci_opcode_value_injective(a: UsciOpcode, b: UsciOpcode)
    requires
        usci_opcode_value(a) == usci_opcode_value(b),
    ensures
        a == b,
{
}


/// UCSI numbers its commands in declaration order: from `PPM_RESET` (0x01) each command is one
/// more than the one before, except `GET_CAM_CS` at 0x18 and `SET_USB` at 0x21, which restart
/// the count.
pub proof fn lemma_usci_opcode_numbering()
    ensures
        usci_opcode_value(UsciOpcode::PpmReset) == 0x01,
        usci_opcode_value(UsciOpcode::Cancel) == usci_opcode_value(UsciOpcode::PpmReset) + 1,
        usci_opcode_value(UsciOpcode::ConnectorReset) == usci_opcode_value(UsciOpcode::Cancel) + 1,
        usci_opcode_value(UsciOpcode::AckCcCi) == usci_opcode_value(UsciOpcode::ConnectorReset) + 1,
        usci_opcode_value(UsciOpcode::SetNotificationEnable) == usci_opcode_value(UsciOpcode::AckCcCi) + 1,
        usci_opcode_value(UsciOpcode::GetCapability) == usci_opcode_value(UsciOpcode::SetNotificationEnable) + 1,
        usci_opcode_value(UsciOpcode::GetConnectorCapability) == usci_opcode_value(UsciOpcode::GetCapability) + 1,
        usci_opcode_value(UsciOpcode::SetCcom) == usci_opcode_value(UsciOpcode::GetConnectorCapability) + 1,
        usci_opcode_value(UsciOpcode::SetUor) == usci_opcode_value(UsciOpcode::SetCcom) + 1,
        usci_opcode_value(UsciOpcode::SetPdm) == usci_opcode_value(UsciOpcode::SetUor) + 1,
        usci_opcode_value(UsciOpcode::SetPdr) == usci_opcode_value(UsciOpcode::SetPdm) + 1,
        usci_opcode_value(UsciOpcode::GetAlternateModes) == usci_opcode_value(UsciOpcode::SetPdr) + 1,
        usci_opcode_value(UsciOpcode::GetCamSupported) == usci_opcode_value(UsciOpcode::GetAlternateModes) + 1,
        usci_opcode_value(UsciOpcode::GetCurrentCam) == usci_opcode_value(UsciOpcode::GetCamSupported) + 1,
        usci_opcode_value(UsciOpcode::SetNewCam) == usci_opcode_value(UsciOpcode::GetCurrentCam) + 1,
        usci_opcode_value(UsciOpcode::GetPdos) == usci_opcode_value(UsciOpcode::SetNewCam) + 1,
        usci_opcode_value(UsciOpcode::GetCableProperty) == usci_opcode_value(UsciOpcode::GetPdos) + 1,
        usci_opcode_value(UsciOpcode::GetConnectorStatus) == usci_opcode_value(UsciOpcode::GetCableProperty) + 1,
        usci_opcode_value(UsciOpcode::GetErrorStatus) == usci_opcode_value(UsciOpcode::GetConnectorStatus) + 1,
        usci_opcode_value(UsciOpcode::SetPowerLevel) == usci_opcode_value(UsciOpcode::GetErrorStatus) + 1,
        usci_opcode_value(UsciOpcode::GetPdMessage) == usci_opcode_value(UsciOpcode::SetPowerLevel) + 1,
        usci_opcode_value(UsciOpcode::GetAttentionVdo) == usci_opcode_value(UsciOpcode::GetPdMessage) + 1,
        usci_opcode_value(UsciOpcode::GetCamCs) == 0x18,
        usci_opcode_value(UsciOpcode::LpmFwUpdateRequest) == usci_opcode_value(UsciOpcode::GetCamCs) + 1,
        usci_opcode_value(UsciOpcode::SecurityRequest) == usci_opcode_value(UsciOpcode::LpmFwUpdateRequest) + 1,
        usci_opcode_value(UsciOpcode::SetRetimerMode) == usci_opcode_value(UsciOpcode::SecurityRequest) + 1,
        usci_opcode_value(UsciOpcode::SetSinkPath) == usci_opcode_value(UsciOpcode::SetRetimerMode) + 1,
        usci_opcode_value(UsciOpcode::SetPdos) == usci_opcode_value(UsciOpcode::SetSinkPath) + 1,
        usci_opcode_value(UsciOpcode::ReadPowerLevel) == usci_opcode_value(UsciOpcode::SetPdos) + 1,
        usci_opcode_value(UsciOpcode::ChunkingSupport) == usci_opcode_value(UsciOpcode::ReadPowerLevel) + 1,
        usci_opcode_value(UsciOpcode::SetUsb) == 0x21,
        usci_opcode_value(UsciOpcode::GetLpmPpmInfo) == usci_opcode_value(UsciOpcode::SetUsb) + 1,
{
}

} // verus!
