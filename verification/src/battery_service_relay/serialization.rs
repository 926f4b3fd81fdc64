//! Serialization of ACPI battery requests, responses and errors.
//!
//! A request travels as the discriminant of its ACPI method and a payload: the battery ID byte,
//! then the request's 32-bit arguments, little-endian, in order.
use vstd::prelude::*;

use crate::hid::{lemma_overwrite_concat, overwrite};
use crate::relay::mctp::{MessageSerializationError, SerializableMessage};

verus! {

/// ACPI Battery Methods
#[derive(Copy, Clone, Debug, PartialEq, Eq, Structural)]
enum BatteryCmd {
    /// Battery Information eXtended
    GetBix,
    /// Battery Status
    GetBst,
    /// Power Source
    GetPsr,
    /// Power source InFormation
    GetPif,
    /// Battery Power State
    GetBps,
    /// Battery Trip Point
    SetBtp,
    /// Battery Power Threshold
    SetBpt,
    /// Battery Power Characteristics
    GetBpc,
    /// Battery Maintenance Control
    SetBmc,
    /// Battery Maintenance Data
    GetBmd,
    /// Battery Charge Time
    GetBct,
    /// Battery Time
    GetBtm,
    /// Battery Measurement Sampling Time
    SetBms,
    /// Battery Measurement Averaging Interval
    SetBma,
    /// Device Status
    GetSta,
}

/// BTP: battery trip point.
#[derive(Copy, Clone, Debug, PartialEq, Eq, Structural)]
pub struct Btp {
    /// 0 clears the trip point; otherwise the new trip point, in mWh or mAh
    pub trip_point: u32,
}

/// The type of battery power threshold that a BPT request sets or clears.
#[derive(Copy, Clone, Debug, PartialEq, Eq, Structural)]
pub enum ThresholdId {
    /// Clear all threshold trip points (0)
    ClearAll,
    /// Set the instantaneous peak power threshold (1)
    InstantaneousPeakPower,
    /// Set the sustainable peak power threshold (2)
    SustainablePeakPower,
}

/// The number that stands for a threshold type on the wire.
pub open spec fn threshold_id_value(t: ThresholdId) -> u32 {
    match t {
        ThresholdId::ClearAll => 0,
        ThresholdId::InstantaneousPeakPower => 1,
        ThresholdId::SustainablePeakPower => 2,
    }
}

/// The threshold type that `value` stands for, if any.
pub open spec fn threshold_id_of(value: u32) -> Option<ThresholdId> {
    if value == 0 {
        Some(ThresholdId::ClearAll)
    } else if value == 1 {
        Some(ThresholdId::InstantaneousPeakPower)
    } else if value == 2 {
        Some(ThresholdId::SustainablePeakPower)
    } else {
        None
    }
}

impl ThresholdId {
    /// The number that stands for this threshold type on the wire
    pub fn value(self) -> (r: u32)
        ensures
            r == threshold_id_value(self),
    {
        match self {
            ThresholdId::ClearAll => 0,
            ThresholdId::InstantaneousPeakPower => 1,
            ThresholdId::SustainablePeakPower => 2,
        }
    }
}

/// BPT: battery power threshold configuration.
#[derive(Copy, Clone, Debug, PartialEq, Eq, Structural)]
pub struct Bpt {
    /// Revision of the BPT structure
    pub revision: u32,
    /// Type of threshold to set or clear
    pub threshold_id: ThresholdId,
    /// Threshold value in mW or mA; 0 disables the threshold
    pub threshold_value: u32,
}

/// BMC: battery maintenance control.
#[derive(Copy, Clone, Debug, PartialEq, Eq, Structural)]
pub struct Bmc {
    /// Feature control flags (all bits kept)
    pub maintenance_control_flags: u32,
}

/// BCT: battery charge time query.
#[derive(Copy, Clone, Debug, PartialEq, Eq, Structural)]
pub struct Bct {
    /// Target charge level as a percentage of the last full charge capacity
    pub charge_level_percent: u32,
}

/// BTM: battery time query.
#[derive(Copy, Clone, Debug, PartialEq, Eq, Structural)]
pub struct Btm {
    /// Discharge rate in mA or mW; 0 uses the present average rate
    pub discharge_rate: u32,
}

/// BMS: battery measurement sampling time.
#[derive(Copy, Clone, Debug, PartialEq, Eq, Structural)]
pub struct Bms {
    /// Sampling time in milliseconds
    pub sampling_time_ms: u32,
}

/// BMA: battery measurement averaging interval.
#[derive(Copy, Clone, Debug, PartialEq, Eq, Structural)]
pub struct Bma {
    /// Averaging interval in milliseconds
    pub averaging_interval_ms: u32,
}

/// ACPI battery requests, each naming the battery it is for.
#[derive(Copy, Clone, Debug, PartialEq, Eq, Structural)]
pub enum AcpiBatteryRequest {
    /// Queries extended battery information. Analogous to ACPI's _BIX method.
    GetBix { battery_id: u8 },
    /// Queries battery status. Analogous to ACPI's _BST method.
    GetBst { battery_id: u8 },
    /// Queries the current power source. Analogous to ACPI's _PSR method.
    GetPsr { battery_id: u8 },
    /// Queries information about the battery's power source. Analogous to ACPI's _PIF method.
    GetPif { battery_id: u8 },
    /// Queries the current power delivery capabilities of the battery. Analogous to ACPI's _BPS method.
    GetBps { battery_id: u8 },
    /// Sets a battery trip point. Analogous to ACPI's _BTP method.
    SetBtp { battery_id: u8, btp: Btp },
    /// Sets a battery power threshold. Analogous to ACPI's _BPT method.
    SetBpt { battery_id: u8, bpt: Bpt },
    /// Queries the current power characteristics of the battery. Analogous to ACPI's _BPC method.
    GetBpc { battery_id: u8 },
    /// Performs a battery maintenance control operation. Analogous to ACPI's _BMC method.
    SetBmc { battery_id: u8, bmc: Bmc },
    /// Queries battery maintenance data. Analogous to ACPI's _BMD method.
    GetBmd { battery_id: u8 },
    /// Queries the time to charge to a level. Analogous to ACPI's _BCT method.
    GetBct { battery_id: u8, bct: Bct },
    /// Queries the time until discharged at a rate. Analogous to ACPI's _BTM method.
    GetBtm { battery_id: u8, btm: Btm },
    /// Sets the sampling time of battery measurements. Analogous to ACPI's _BMS method.
    SetBms { battery_id: u8, bms: Bms },
    /// Sets the averaging interval of battery measurements. Analogous to ACPI's _BMA method.
    SetBma { battery_id: u8, bma: Bma },
    /// Queries the current status of the battery device. Analogous to ACPI's _STA method.
    GetSta { battery_id: u8 },
}

/// The four little-endian bytes of `v`.
pub open spec fn le32(v: u32) -> Seq<u8> {
    seq![(v % 256) as u8, ((v / 256) % 256) as u8, ((v / 65536) % 256) as u8, (v / 16777216) as u8]
}

/// The 32-bit value stored little-endian at `i` in `b`.
pub open spec fn le32_at(b: Seq<u8>, i: int) -> u32 {
    (b[i] + b[i + 1] * 256 + b[i + 2] * 65536 + b[i + 3] * 16777216) as u32
}

/// The little-endian bytes of each value of `ws`, in order.
pub open spec fn le32s(ws: Seq<u32>) -> Seq<u8>
    decreases ws.len(),
{
    if ws.len() == 0 {
        Seq::empty()
    } else {
        le32s(ws.drop_last()) + le32(ws.last())
    }
}

/// The discriminant of a request: the number of its ACPI method (1 for _BIX up to 15 for _STA).
pub open spec fn request_discriminant(r: AcpiBatteryRequest) -> u16 {
    match r {
        AcpiBatteryRequest::GetBix { .. } => 1,
        AcpiBatteryRequest::GetBst { .. } => 2,
        AcpiBatteryRequest::GetPsr { .. } => 3,
        AcpiBatteryRequest::GetPif { .. } => 4,
        AcpiBatteryRequest::GetBps { .. } => 5,
        AcpiBatteryRequest::SetBtp { .. } => 6,
        AcpiBatteryRequest::SetBpt { .. } => 7,
        AcpiBatteryRequest::GetBpc { .. } => 8,
        AcpiBatteryRequest::SetBmc { .. } => 9,
        AcpiBatteryRequest::GetBmd { .. } => 10,
        AcpiBatteryRequest::GetBct { .. } => 11,
        AcpiBatteryRequest::GetBtm { .. } => 12,
        AcpiBatteryRequest::SetBms { .. } => 13,
        AcpiBatteryRequest::SetBma { .. } => 14,
        AcpiBatteryRequest::GetSta { .. } => 15,
    }
}

/// The battery a request is for.
pub open spec fn request_battery_id(r: AcpiBatteryRequest) -> u8 {
    match r {
        AcpiBatteryRequest::GetBix { battery_id } => battery_id,
        AcpiBatteryRequest::GetBst { battery_id } => battery_id,
        AcpiBatteryRequest::GetPsr { battery_id } => battery_id,
        AcpiBatteryRequest::GetPif { battery_id } => battery_id,
        AcpiBatteryRequest::GetBps { battery_id } => battery_id,
        AcpiBatteryRequest::SetBtp { battery_id, .. } => battery_id,
        AcpiBatteryRequest::SetBpt { battery_id, .. } => battery_id,
        AcpiBatteryRequest::GetBpc { battery_id } => battery_id,
        AcpiBatteryRequest::SetBmc { battery_id, .. } => battery_id,
        AcpiBatteryRequest::GetBmd { battery_id } => battery_id,
        AcpiBatteryRequest::GetBct { battery_id, .. } => battery_id,
        AcpiBatteryRequest::GetBtm { battery_id, .. } => battery_id,
        AcpiBatteryRequest::SetBms { battery_id, .. } => battery_id,
        AcpiBatteryRequest::SetBma { battery_id, .. } => battery_id,
        AcpiBatteryRequest::GetSta { battery_id } => battery_id,
    }
}

/// The 32-bit arguments of a request, in payload order.
pub open spec fn request_words(r: AcpiBatteryRequest) -> Seq<u32> {
    match r {
        AcpiBatteryRequest::SetBtp { btp, .. } => seq![btp.trip_point],
        AcpiBatteryRequest::SetBpt { bpt, .. } => seq![bpt.revision, threshold_id_value(bpt.threshold_id), bpt.threshold_value],
        AcpiBatteryRequest::SetBmc { bmc, .. } => seq![bmc.maintenance_control_flags],
        AcpiBatteryRequest::GetBct { bct, .. } => seq![bct.charge_level_percent],
        AcpiBatteryRequest::GetBtm { btm, .. } => seq![btm.discharge_rate],
        AcpiBatteryRequest::SetBms { bms, .. } => seq![bms.sampling_time_ms],
        AcpiBatteryRequest::SetBma { bma, .. } => seq![bma.averaging_interval_ms],
        _ => Seq::empty(),
    }
}

/// The payload of a request: its battery ID, then its arguments.
pub open spec fn request_bytes(r: AcpiBatteryRequest) -> Seq<u8> {
    seq![request_battery_id(r)] + le32s(request_words(r))
}

/// The number of arguments of `r` that fit, after the battery ID, in a buffer of `len` bytes.
pub open spec fn words_that_fit(r: AcpiBatteryRequest, len: int) -> int {
    let n = request_words(r).len() as int;
    if (len - 1) / 4 < n {
        (len - 1) / 4
    } else {
        n
    }
}

/// The request of kind `discriminant` that the payload `b` holds. Fields are read in payload order,
/// so a payload too short for the field being read gives `BufferTooSmall`, and an invalid threshold
/// ID gives `InvalidPayload` once it has been read.
pub open spec fn request_from(discriminant: u16, b: Seq<u8>) -> Result<AcpiBatteryRequest, MessageSerializationError> {
    if discriminant < 1 || discriminant > 15 {
        Err(MessageSerializationError::UnknownMessageDiscriminant(discriminant))
    } else if b.len() < 1 {
        Err(MessageSerializationError::BufferTooSmall)
    } else {
        let id = b[0];
        if discriminant == 1 {
            Ok(AcpiBatteryRequest::GetBix { battery_id: id })
        } else if discriminant == 2 {
            Ok(AcpiBatteryRequest::GetBst { battery_id: id })
        } else if discriminant == 3 {
            Ok(AcpiBatteryRequest::GetPsr { battery_id: id })
        } else if discriminant == 4 {
            Ok(AcpiBatteryRequest::GetPif { battery_id: id })
        } else if discriminant == 5 {
            Ok(AcpiBatteryRequest::GetBps { battery_id: id })
        } else if discriminant == 8 {
            Ok(AcpiBatteryRequest::GetBpc { battery_id: id })
        } else if discriminant == 10 {
            Ok(AcpiBatteryRequest::GetBmd { battery_id: id })
        } else if discriminant == 15 {
            Ok(AcpiBatteryRequest::GetSta { battery_id: id })
        } else if b.len() < 5 {
            Err(MessageSerializationError::BufferTooSmall)
        } else if discriminant == 6 {
            Ok(AcpiBatteryRequest::SetBtp { battery_id: id, btp: Btp { trip_point: le32_at(b, 1) } })
        } else if discriminant == 9 {
            Ok(AcpiBatteryRequest::SetBmc { battery_id: id, bmc: Bmc { maintenance_control_flags: le32_at(b, 1) } })
        } else if discriminant == 11 {
            Ok(AcpiBatteryRequest::GetBct { battery_id: id, bct: Bct { charge_level_percent: le32_at(b, 1) } })
        } else if discriminant == 12 {
            Ok(AcpiBatteryRequest::GetBtm { battery_id: id, btm: Btm { discharge_rate: le32_at(b, 1) } })
        } else if discriminant == 13 {
            Ok(AcpiBatteryRequest::SetBms { battery_id: id, bms: Bms { sampling_time_ms: le32_at(b, 1) } })
        } else if discriminant == 14 {
            Ok(AcpiBatteryRequest::SetBma { battery_id: id, bma: Bma { averaging_interval_ms: le32_at(b, 1) } })
        } else if b.len() < 9 {
            Err(MessageSerializationError::BufferTooSmall)
        } else {
            match threshold_id_of(le32_at(b, 5)) {
                None => Err(MessageSerializationError::InvalidPayload("Invalid ThresholdId")),
                Some(threshold_id) => {
                    if b.len() < 13 {
                        Err(MessageSerializationError::BufferTooSmall)
                    } else {
                        Ok(
                            AcpiBatteryRequest::SetBpt {
                                battery_id: id,
                                bpt: Bpt { revision: le32_at(b, 1), threshold_id, threshold_value: le32_at(b, 9) },
                            },
                        )
                    }
                },
            }
        }
    }
}

/// `ThresholdId::try_from` of embedded-batteries, with its result told apart by variant: it
/// accepts 0 (clear all), 1 (instantaneous peak power) and 2 (sustainable peak power), and
/// nothing else.
#[verifier::external_body]
fn threshold_id_from(value: u32) -> (r: Option<ThresholdId>)
    ensures
        r == threshold_id_of(value),
{
    match embedded_batteries_async::acpi::ThresholdId::try_from(value) {
        Ok(embedded_batteries_async::acpi::ThresholdId::ClearAll) => Some(ThresholdId::ClearAll),
        Ok(embedded_batteries_async::acpi::ThresholdId::InstantaneousPeakPower) => Some(ThresholdId::InstantaneousPeakPower),
        Ok(embedded_batteries_async::acpi::ThresholdId::SustainablePeakPower) => Some(ThresholdId::SustainablePeakPower),
        Err(()) => None,
    }
}

impl BatteryCmd {
    fn from_value(value: u16) -> (r: Option<BatteryCmd>)
        ensures
            r is Some <==> 1 <= value <= 15,
            r matches Some(c) ==> c.value_spec() == value,
    {
        match value {
            1 => Some(BatteryCmd::GetBix),
            2 => Some(BatteryCmd::GetBst),
            3 => Some(BatteryCmd::GetPsr),
            4 => Some(BatteryCmd::GetPif),
            5 => Some(BatteryCmd::GetBps),
            6 => Some(BatteryCmd::SetBtp),
            7 => Some(BatteryCmd::SetBpt),
            8 => Some(BatteryCmd::GetBpc),
            9 => Some(BatteryCmd::SetBmc),
            10 => Some(BatteryCmd::GetBmd),
            11 => Some(BatteryCmd::GetBct),
            12 => Some(BatteryCmd::GetBtm),
            13 => Some(BatteryCmd::SetBms),
            14 => Some(BatteryCmd::SetBma),
            15 => Some(BatteryCmd::GetSta),
            _ => None,
        }
    }

    spec fn value_spec(self) -> u16 {
        match self {
            BatteryCmd::GetBix => 1,
            BatteryCmd::GetBst => 2,
            BatteryCmd::GetPsr => 3,
            BatteryCmd::GetPif => 4,
            BatteryCmd::GetBps => 5,
            BatteryCmd::SetBtp => 6,
            BatteryCmd::SetBpt => 7,
            BatteryCmd::GetBpc => 8,
            BatteryCmd::SetBmc => 9,
            BatteryCmd::GetBmd => 10,
            BatteryCmd::GetBct => 11,
            BatteryCmd::GetBtm => 12,
            BatteryCmd::SetBms => 13,
            BatteryCmd::SetBma => 14,
            BatteryCmd::GetSta => 15,
        }
    }

    fn from_request(request: &AcpiBatteryRequest) -> (r: BatteryCmd)
        ensures
            r.value_spec() == request_discriminant(*request),
    {
        match request {
            AcpiBatteryRequest::GetBix { .. } => BatteryCmd::GetBix,
            AcpiBatteryRequest::GetBst { .. } => BatteryCmd::GetBst,
            AcpiBatteryRequest::GetPsr { .. } => BatteryCmd::GetPsr,
            AcpiBatteryRequest::GetPif { .. } => BatteryCmd::GetPif,
            AcpiBatteryRequest::GetBps { .. } => BatteryCmd::GetBps,
            AcpiBatteryRequest::SetBtp { .. } => BatteryCmd::SetBtp,
            AcpiBatteryRequest::SetBpt { .. } => BatteryCmd::SetBpt,
            AcpiBatteryRequest::GetBpc { .. } => BatteryCmd::GetBpc,
            AcpiBatteryRequest::SetBmc { .. } => BatteryCmd::SetBmc,
            AcpiBatteryRequest::GetBmd { .. } => BatteryCmd::GetBmd,
            AcpiBatteryRequest::GetBct { .. } => BatteryCmd::GetBct,
            AcpiBatteryRequest::GetBtm { .. } => BatteryCmd::GetBtm,
            AcpiBatteryRequest::SetBms { .. } => BatteryCmd::SetBms,
            AcpiBatteryRequest::SetBma { .. } => BatteryCmd::SetBma,
            AcpiBatteryRequest::GetSta { .. } => BatteryCmd::GetSta,
        }
    }

    fn from_response(response: &AcpiBatteryResponse) -> (r: BatteryCmd)
        ensures
            r.value_spec() == response_discriminant(*response),
    {
        match response {
            AcpiBatteryResponse::GetBix { .. } => BatteryCmd::GetBix,
            AcpiBatteryResponse::GetBst { .. } => BatteryCmd::GetBst,
            AcpiBatteryResponse::GetPsr { .. } => BatteryCmd::GetPsr,
            AcpiBatteryResponse::GetPif { .. } => BatteryCmd::GetPif,
            AcpiBatteryResponse::GetBps { .. } => BatteryCmd::GetBps,
            AcpiBatteryResponse::SetBtp { .. } => BatteryCmd::SetBtp,
            AcpiBatteryResponse::SetBpt { .. } => BatteryCmd::SetBpt,
            AcpiBatteryResponse::GetBpc { .. } => BatteryCmd::GetBpc,
            AcpiBatteryResponse::SetBmc { .. } => BatteryCmd::SetBmc,
            AcpiBatteryResponse::GetBmd { .. } => BatteryCmd::GetBmd,
            AcpiBatteryResponse::GetBct { .. } => BatteryCmd::GetBct,
            AcpiBatteryResponse::GetBtm { .. } => BatteryCmd::GetBtm,
            AcpiBatteryResponse::SetBms { .. } => BatteryCmd::SetBms,
            AcpiBatteryResponse::SetBma { .. } => BatteryCmd::SetBma,
            AcpiBatteryResponse::GetSta { .. } => BatteryCmd::GetSta,
        }
    }

    fn value(self) -> (r: u16)
        ensures
            r == self.value_spec(),
    {
        match self {
            BatteryCmd::GetBix => 1,
            BatteryCmd::GetBst => 2,
            BatteryCmd::GetPsr => 3,
            BatteryCmd::GetPif => 4,
            BatteryCmd::GetBps => 5,
            BatteryCmd::SetBtp => 6,
            BatteryCmd::SetBpt => 7,
            BatteryCmd::GetBpc => 8,
            BatteryCmd::SetBmc => 9,
            BatteryCmd::GetBmd => 10,
            BatteryCmd::GetBct => 11,
            BatteryCmd::GetBtm => 12,
            BatteryCmd::SetBms => 13,
            BatteryCmd::SetBma => 14,
            BatteryCmd::GetSta => 15,
        }
    }
}

fn safe_get_u8(buffer: &[u8], index: usize) -> (r: Result<u8, MessageSerializationError>)
    ensures
        index < buffer@.len() ==> r == Ok::<u8, MessageSerializationError>(buffer@[index as int]),
        index >= buffer@.len() ==> r == Err::<u8, MessageSerializationError>(MessageSerializationError::BufferTooSmall),
{
    if index < buffer.len() {
        Ok(buffer[index])
    } else {
        Err(MessageSerializationError::BufferTooSmall)
    }
}

fn safe_get_dword(buffer: &[u8], index: usize) -> (r: Result<u32, MessageSerializationError>)
    requires
        index + 4 <= usize::MAX,
    ensures
        index + 4 <= buffer@.len() ==> r == Ok::<u32, MessageSerializationError>(le32_at(buffer@, index as int)),
        index + 4 > buffer@.len() ==> r == Err::<u32, MessageSerializationError>(MessageSerializationError::BufferTooSmall),
{
    if index + 4 <= buffer.len() {
        Ok(buffer[index] as u32 + (buffer[index + 1] as u32) * 256 + (buffer[index + 2] as u32) * 65536 + (buffer[
            index + 3] as u32) * 16777216)
    } else {
        Err(MessageSerializationError::BufferTooSmall)
    }
}

fn safe_put_u8(buffer: &mut [u8], index: usize, val: u8) -> (r: Result<usize, MessageSerializationError>)
    ensures
        index < old(buffer)@.len() ==> r == Ok::<usize, MessageSerializationError>(1) && final(buffer)@ == overwrite(
            old(buffer)@,
            index as int,
            seq![val],
        ),
        index >= old(buffer)@.len() ==> r == Err::<usize, MessageSerializationError>(
            MessageSerializationError::BufferTooSmall,
        ) && final(buffer)@ == old(buffer)@,
{
    if index < buffer.len() {
        buffer[index] = val;
        assert(buffer@ =~= overwrite(old(buffer)@, index as int, seq![val]));
        Ok(1)
    } else {
        Err(MessageSerializationError::BufferTooSmall)
    }
}

fn safe_put_dword(buffer: &mut [u8], index: usize, val: u32) -> (r: Result<usize, MessageSerializationError>)
    requires
        index + 4 <= usize::MAX,
    ensures
        index + 4 <= old(buffer)@.len() ==> r == Ok::<usize, MessageSerializationError>(4) && final(buffer)@
            == overwrite(old(buffer)@, index as int, le32(val)),
        index + 4 > old(buffer)@.len() ==> r == Err::<usize, MessageSerializationError>(
            MessageSerializationError::BufferTooSmall,
        ) && final(buffer)@ == old(buffer)@,
{
    if index + 4 <= buffer.len() {
        buffer[index] = (val % 256) as u8;
        buffer[index + 1] = ((val / 256) % 256) as u8;
        buffer[index + 2] = ((val / 65536) % 256) as u8;
        buffer[index + 3] = (val / 16777216) as u8;
        assert(buffer@ =~= overwrite(old(buffer)@, index as int, le32(val)));
        Ok(4)
    } else {
        Err(MessageSerializationError::BufferTooSmall)
    }
}

/// Four bytes per value.
pub proof fn lemma_le32s_len(ws: Seq<u32>)
    ensures
        le32s(ws).len() == 4 * ws.len(),
    decreases ws.len(),
{
    if ws.len() > 0 {
        lemma_le32s_len(ws.drop_last());
    }
}

/// The bytes of value `j` of `ws` sit at `4 * j` to `4 * j + 3`.
pub proof fn lemma_le32s_index(ws: Seq<u32>, j: int, k: int)
    requires
        0 <= j < ws.len(),
        0 <= k < 4,
    ensures
        le32s(ws)[4 * j + k] == le32(ws[j])[k],
    decreases ws.len(),
{
    lemma_le32s_len(ws.drop_last());
    if j < ws.len() - 1 {
        lemma_le32s_index(ws.drop_last(), j, k);
    }
}

/// Reading back the four bytes of `v` gives `v`.
pub proof fn lemma_le32_roundtrip(v: u32)
    ensures
        le32_at(le32(v), 0) == v,
{
    assert((v % 256) + ((v / 256) % 256) * 256 + ((v / 65536) % 256) * 65536 + (v / 16777216) * 16777216 == v)
        by (bit_vector);
}

/// A serialized request reads back as itself, whatever follows the payload.
pub proof fn lemma_request_roundtrip(r: AcpiBatteryRequest, rest: Seq<u8>)
    ensures
        request_from(request_discriminant(r), request_bytes(r) + rest) == Ok::<
            AcpiBatteryRequest,
            MessageSerializationError,
        >(r),
{
    let ws = request_words(r);
    let b = request_bytes(r) + rest;
    lemma_le32s_len(ws);
    assert forall|j: int| 0 <= j < ws.len() implies le32_at(b, 1 + 4 * j) == ws[j] by {
        lemma_le32s_index(ws, j, 0);
        lemma_le32s_index(ws, j, 1);
        lemma_le32s_index(ws, j, 2);
        lemma_le32s_index(ws, j, 3);
        lemma_le32_roundtrip(ws[j]);
        assert(b[1 + 4 * j] == le32(ws[j])[0]);
        assert(b[1 + 4 * j + 1] == le32(ws[j])[1]);
        assert(b[1 + 4 * j + 2] == le32(ws[j])[2]);
        assert(b[1 + 4 * j + 3] == le32(ws[j])[3]);
    }
    assert(b[0] == request_battery_id(r));
    if ws.len() > 0 {
        assert(le32_at(b, 1) == ws[0]);
    }
    if ws.len() > 2 {
        assert(le32_at(b, 5) == ws[1]);
        assert(le32_at(b, 9) == ws[2]);
        if let AcpiBatteryRequest::SetBpt { bpt, .. } = r {
            assert(threshold_id_of(threshold_id_value(bpt.threshold_id)) == Some(bpt.threshold_id));
        }
    }
}

impl AcpiBatteryRequest {
    /// The battery this request is for.
    pub fn battery_id(&self) -> (r: u8)
        ensures
            r == request_battery_id(*self),
    {
        match *self {
            AcpiBatteryRequest::GetBix { battery_id } => battery_id,
            AcpiBatteryRequest::GetBst { battery_id } => battery_id,
            AcpiBatteryRequest::GetPsr { battery_id } => battery_id,
            AcpiBatteryRequest::GetPif { battery_id } => battery_id,
            AcpiBatteryRequest::GetBps { battery_id } => battery_id,
            AcpiBatteryRequest::SetBtp { battery_id, .. } => battery_id,
            AcpiBatteryRequest::SetBpt { battery_id, .. } => battery_id,
            AcpiBatteryRequest::GetBpc { battery_id } => battery_id,
            AcpiBatteryRequest::SetBmc { battery_id, .. } => battery_id,
            AcpiBatteryRequest::GetBmd { battery_id } => battery_id,
            AcpiBatteryRequest::GetBct { battery_id, .. } => battery_id,
            AcpiBatteryRequest::GetBtm { battery_id, .. } => battery_id,
            AcpiBatteryRequest::SetBms { battery_id, .. } => battery_id,
            AcpiBatteryRequest::SetBma { battery_id, .. } => battery_id,
            AcpiBatteryRequest::GetSta { battery_id } => battery_id,
        }
    }

    /// The request's 32-bit arguments (the first `n` of the array), in payload order.
    fn words(&self) -> (r: ([u32; 3], usize))
        ensures
            r.1 == request_words(*self).len(),
            r.1 <= 3,
            r.0@.take(r.1 as int) == request_words(*self),
    {
        let r = match *self {
            AcpiBatteryRequest::SetBtp { btp, .. } => ([btp.trip_point, 0, 0], 1),
            AcpiBatteryRequest::SetBpt { bpt, .. } => ([bpt.revision, bpt.threshold_id.value(), bpt.threshold_value], 3),
            AcpiBatteryRequest::SetBmc { bmc, .. } => ([bmc.maintenance_control_flags, 0, 0], 1),
            AcpiBatteryRequest::GetBct { bct, .. } => ([bct.charge_level_percent, 0, 0], 1),
            AcpiBatteryRequest::GetBtm { btm, .. } => ([btm.discharge_rate, 0, 0], 1),
            AcpiBatteryRequest::SetBms { bms, .. } => ([bms.sampling_time_ms, 0, 0], 1),
            AcpiBatteryRequest::SetBma { bma, .. } => ([bma.averaging_interval_ms, 0, 0], 1),
            _ => ([0, 0, 0], 0),
        };
        assert(r.0@.take(r.1 as int) =~= request_words(*self));
        r
    }
}

impl SerializableMessage for AcpiBatteryRequest {
    fn serialize(self, buffer: &mut [u8]) -> (r: Result<usize, MessageSerializationError>)
        ensures
            old(buffer)@.len() == 0 ==> r == Err::<usize, MessageSerializationError>(
                MessageSerializationError::BufferTooSmall,
            ) && final(buffer)@ == old(buffer)@,
            old(buffer)@.len() > 0 ==> final(buffer)@ == overwrite(
                old(buffer)@,
                0,
                seq![request_battery_id(self)] + le32s(
                    request_words(self).take(words_that_fit(self, old(buffer)@.len() as int)),
                ),
            ),
            old(buffer)@.len() > 0 ==> r == if words_that_fit(self, old(buffer)@.len() as int) == request_words(
                self,
            ).len() {
                Ok::<usize, MessageSerializationError>(request_bytes(self).len() as usize)
            } else {
                Err::<usize, MessageSerializationError>(MessageSerializationError::BufferTooSmall)
            },
    {
        let id = self.battery_id();
        let ghost start = buffer@;
        let len = buffer.len();
        match safe_put_u8(buffer, 0, id) {
            Ok(_) => {},
            Err(e) => return Err(e),
        }
        let (words, n) = self.words();
        let ghost ws = request_words(self);
        proof {
            lemma_le32s_len(ws);
            assert(ws.take(0) =~= Seq::<u32>::empty());
            assert(seq![id] + le32s(ws.take(0)) =~= seq![id]);
        }
        let mut k: usize = 0;
        while k < n
            invariant
                0 <= k <= n <= 3,
                len == start.len() >= 1,
                start == old(buffer)@,
                ws == request_words(self),
                ws.len() == n,
                words@.take(n as int) == ws,
                1 + 4 * k <= len,
                buffer@ == overwrite(start, 0, seq![id] + le32s(ws.take(k as int))),
                le32s(ws.take(k as int)).len() == 4 * k,
                id == request_battery_id(self),
            decreases n - k,
        {
            let ghost before = seq![id] + le32s(ws.take(k as int));
            assert(words@[k as int] == ws[k as int]);
            match safe_put_dword(buffer, 1 + 4 * k, words[k]) {
                Ok(_) => {},
                Err(e) => {
                    assert(words_that_fit(self, len as int) == k);
                    return Err(e);
                },
            }
            proof {
                lemma_overwrite_concat(start, 0, before, le32(ws[k as int]));
                assert(ws.take(k + 1).drop_last() =~= ws.take(k as int));
                assert(before + le32(ws[k as int]) =~= seq![id] + le32s(ws.take(k + 1)));
            }
            k = k + 1;
        }
        proof {
            assert(ws.take(n as int) =~= ws);
            assert(words_that_fit(self, len as int) == n);
        }
        Ok(1 + 4 * n)
    }

    fn deserialize(discriminant: u16, buffer: &[u8]) -> (r: Result<Self, MessageSerializationError>)
        ensures
            r == request_from(discriminant, buffer@),
    {
        let cmd = match BatteryCmd::from_value(discriminant) {
            Some(c) => c,
            None => return Err(MessageSerializationError::UnknownMessageDiscriminant(discriminant)),
        };
        let battery_id = match safe_get_u8(buffer, 0) {
            Ok(b) => b,
            Err(e) => return Err(e),
        };
        match cmd {
            BatteryCmd::GetBix => Ok(Self::GetBix { battery_id }),
            BatteryCmd::GetBst => Ok(Self::GetBst { battery_id }),
            BatteryCmd::GetPsr => Ok(Self::GetPsr { battery_id }),
            BatteryCmd::GetPif => Ok(Self::GetPif { battery_id }),
            BatteryCmd::GetBps => Ok(Self::GetBps { battery_id }),
            BatteryCmd::GetBpc => Ok(Self::GetBpc { battery_id }),
            BatteryCmd::GetBmd => Ok(Self::GetBmd { battery_id }),
            BatteryCmd::GetSta => Ok(Self::GetSta { battery_id }),
            _ => {
                let first = match safe_get_dword(buffer, 1) {
                    Ok(v) => v,
                    Err(e) => return Err(e),
                };
                match cmd {
                    BatteryCmd::SetBtp => Ok(Self::SetBtp { battery_id, btp: Btp { trip_point: first } }),
                    BatteryCmd::SetBmc => Ok(Self::SetBmc { battery_id, bmc: Bmc { maintenance_control_flags: first } }),
                    BatteryCmd::GetBct => Ok(Self::GetBct { battery_id, bct: Bct { charge_level_percent: first } }),
                    BatteryCmd::GetBtm => Ok(Self::GetBtm { battery_id, btm: Btm { discharge_rate: first } }),
                    BatteryCmd::SetBms => Ok(Self::SetBms { battery_id, bms: Bms { sampling_time_ms: first } }),
                    BatteryCmd::SetBma => Ok(Self::SetBma { battery_id, bma: Bma { averaging_interval_ms: first } }),
                    _ => {
                        let raw_threshold_id = match safe_get_dword(buffer, 5) {
                            Ok(v) => v,
                            Err(e) => return Err(e),
                        };
                        let threshold_id = match threshold_id_from(raw_threshold_id) {
                            Some(t) => t,
                            None => return Err(MessageSerializationError::InvalidPayload("Invalid ThresholdId")),
                        };
                        let threshold_value = match safe_get_dword(buffer, 9) {
                            Ok(v) => v,
                            Err(e) => return Err(e),
                        };
                        Ok(Self::SetBpt { battery_id, bpt: Bpt { revision: first, threshold_id, threshold_value } })
                    },
                }
            },
        }
    }

    fn discriminant(&self) -> (r: u16)
        ensures
            r == request_discriminant(*self),
    {
        BatteryCmd::from_request(self).value()
    }
}

/// Length of the model number string of extended battery information.
pub const STD_BIX_MODEL_SIZE: usize = 8;
/// Length of the serial number string of extended battery information.
pub const STD_BIX_SERIAL_SIZE: usize = 8;
/// Length of the battery type string of extended battery information.
pub const STD_BIX_BATTERY_SIZE: usize = 8;
/// Length of the OEM information string of extended battery information.
pub const STD_BIX_OEM_SIZE: usize = 8;
/// Length of the model number string of power source information.
pub const STD_PIF_MODEL_SIZE: usize = 8;
/// Length of the serial number string of power source information.
pub const STD_PIF_SERIAL_SIZE: usize = 8;
/// Length of the OEM information string of power source information.
pub const STD_PIF_OEM_SIZE: usize = 8;

/// A fixed-size ASCII string field of a battery or power source record.
pub type FixedString = [u8; 8];

/// Offset of the model number in an extended battery information payload.
pub const BIX_MODEL_NUM_START_IDX: usize = 64;
/// End of the model number in an extended battery information payload.
pub const BIX_MODEL_NUM_END_IDX: usize = BIX_MODEL_NUM_START_IDX + STD_BIX_MODEL_SIZE;
/// Offset of the serial number in an extended battery information payload.
pub const BIX_SERIAL_NUM_START_IDX: usize = BIX_MODEL_NUM_END_IDX;
/// End of the serial number in an extended battery information payload.
pub const BIX_SERIAL_NUM_END_IDX: usize = BIX_SERIAL_NUM_START_IDX + STD_BIX_SERIAL_SIZE;
/// Offset of the battery type in an extended battery information payload.
pub const BIX_BATTERY_TYPE_START_IDX: usize = BIX_SERIAL_NUM_END_IDX;
/// End of the battery type in an extended battery information payload.
pub const BIX_BATTERY_TYPE_END_IDX: usize = BIX_BATTERY_TYPE_START_IDX + STD_BIX_BATTERY_SIZE;
/// Offset of the OEM information in an extended battery information payload.
pub const BIX_OEM_INFO_START_IDX: usize = BIX_BATTERY_TYPE_END_IDX;
/// End of the OEM information in an extended battery information payload; the swapping capability follows.
pub const BIX_OEM_INFO_END_IDX: usize = BIX_OEM_INFO_START_IDX + STD_BIX_OEM_SIZE;

/// Offset of the model number in a power source information payload.
pub const PIF_MODEL_NUM_START_IDX: usize = 12;
/// End of the model number in a power source information payload.
pub const PIF_MODEL_NUM_END_IDX: usize = PIF_MODEL_NUM_START_IDX + STD_PIF_MODEL_SIZE;
/// Offset of the serial number in a power source information payload.
pub const PIF_SERIAL_NUM_START_IDX: usize = PIF_MODEL_NUM_END_IDX;
/// End of the serial number in a power source information payload.
pub const PIF_SERIAL_NUM_END_IDX: usize = PIF_SERIAL_NUM_START_IDX + STD_PIF_SERIAL_SIZE;
/// Offset of the OEM information in a power source information payload.
pub const PIF_OEM_INFO_START_IDX: usize = PIF_SERIAL_NUM_END_IDX;
/// End of the OEM information, and of a power source information payload.
pub const PIF_OEM_INFO_END_IDX: usize = PIF_OEM_INFO_START_IDX + STD_PIF_OEM_SIZE;

/// Battery state flags (_BST): bit 0 discharging, 1 charging, 2 critical, 3 charge limiting.
#[derive(Copy, Clone, Debug, PartialEq, Eq, Structural)]
pub struct BatteryState(u32);

/// Power source state flags (_PIF): bit 0 redundant, 1 shared.
#[derive(Copy, Clone, Debug, PartialEq, Eq, Structural)]
pub struct PowerSourceState(u32);

/// Power threshold support flags (_BPC): bit 0 instantaneous, 1 sustainable.
#[derive(Copy, Clone, Debug, PartialEq, Eq, Structural)]
pub struct PowerThresholdSupport(u32);

/// Battery maintenance status flags (_BMD), bits 0 to 6.
#[derive(Copy, Clone, Debug, PartialEq, Eq, Structural)]
pub struct BmdStatusFlags(u32);

/// Battery maintenance capability flags (_BMD), bits 0 to 5.
#[derive(Copy, Clone, Debug, PartialEq, Eq, Structural)]
pub struct BmdCapabilityFlags(u32);

/// Device status flags (_STA), bits 0 to 4.
#[derive(Copy, Clone, Debug, PartialEq, Eq, Structural)]
pub struct StaReturn(u32);

/// `BatteryState::from_bits` of embedded-batteries, told by whether it succeeds: it accepts
/// exactly the values with no bit above its four flags set.
#[verifier::external_body]
fn battery_state_accepts(bits: u32) -> (r: bool)
    ensures
        r == (bits < 16),
{
    embedded_batteries_async::acpi::BatteryState::from_bits(bits).is_some()
}

/// `PowerSourceState::from_bits` of embedded-batteries, told by whether it succeeds: it accepts
/// exactly the values with no bit above its two flags set.
#[verifier::external_body]
fn power_source_state_accepts(bits: u32) -> (r: bool)
    ensures
        r == (bits < 4),
{
    embedded_batteries_async::acpi::PowerSourceState::from_bits(bits).is_some()
}

/// `PowerThresholdSupport::from_bits` of embedded-batteries, told by whether it succeeds: it
/// accepts exactly the values with no bit above its two flags set.
#[verifier::external_body]
fn power_threshold_support_accepts(bits: u32) -> (r: bool)
    ensures
        r == (bits < 4),
{
    embedded_batteries_async::acpi::PowerThresholdSupport::from_bits(bits).is_some()
}

/// `BmdStatusFlags::from_bits` of embedded-batteries, told by whether it succeeds: it accepts
/// exactly the values with no bit above its seven flags set.
#[verifier::external_body]
fn bmd_status_flags_accepts(bits: u32) -> (r: bool)
    ensures
        r == (bits < 128),
{
    embedded_batteries_async::acpi::BmdStatusFlags::from_bits(bits).is_some()
}

/// `BmdCapabilityFlags::from_bits` of embedded-batteries, told by whether it succeeds: it accepts
/// exactly the values with no bit above its six flags set.
#[verifier::external_body]
fn bmd_capability_flags_accepts(bits: u32) -> (r: bool)
    ensures
        r == (bits < 64),
{
    embedded_batteries_async::acpi::BmdCapabilityFlags::from_bits(bits).is_some()
}

/// `StaReturn::from_bits` of embedded-batteries, told by whether it succeeds: it accepts exactly
/// the values with no bit above its five flags set.
#[verifier::external_body]
fn sta_return_accepts(bits: u32) -> (r: bool)
    ensures
        r == (bits < 32),
{
    embedded_batteries_async::acpi::StaReturn::from_bits(bits).is_some()
}

impl BatteryState {
    #[verifier::type_invariant]
    spec fn wf(self) -> bool {
        self.0 < 16
    }

    /// The flag bits.
    pub closed spec fn spec_bits(self) -> u32 {
        self.0
    }

    /// The flags with the given bits.
    pub closed spec fn with_bits(bits: u32) -> Self {
        BatteryState(bits)
    }

    /// The flags with the given bits, or `None` if an unknown bit is set
    pub fn from_bits(bits: u32) -> (r: Option<Self>)
        ensures
            r == (if bits < 16 { Some(Self::with_bits(bits)) } else { None }),
    {
        if battery_state_accepts(bits) {
            Some(BatteryState(bits))
        } else {
            None
        }
    }

    /// The flag bits
    pub fn bits(&self) -> (r: u32)
        ensures
            r == self.spec_bits(),
            r < 16,
    {
        proof {
            use_type_invariant(self);
        }
        self.0
    }
}

impl PowerSourceState {
    #[verifier::type_invariant]
    spec fn wf(self) -> bool {
        self.0 < 4
    }

    /// The flag bits.
    pub closed spec fn spec_bits(self) -> u32 {
        self.0
    }

    /// The flags with the given bits.
    pub closed spec fn with_bits(bits: u32) -> Self {
        PowerSourceState(bits)
    }

    /// The flags with the given bits, or `None` if an unknown bit is set
    pub fn from_bits(bits: u32) -> (r: Option<Self>)
        ensures
            r == (if bits < 4 { Some(Self::with_bits(bits)) } else { None }),
    {
        if power_source_state_accepts(bits) {
            Some(PowerSourceState(bits))
        } else {
            None
        }
    }

    /// The flag bits
    pub fn bits(&self) -> (r: u32)
        ensures
            r == self.spec_bits(),
            r < 4,
    {
        proof {
            use_type_invariant(self);
        }
        self.0
    }
}

impl PowerThresholdSupport {
    #[verifier::type_invariant]
    spec fn wf(self) -> bool {
        self.0 < 4
    }

    /// The flag bits.
    pub closed spec fn spec_bits(self) -> u32 {
        self.0
    }

    /// The flags with the given bits.
    pub closed spec fn with_bits(bits: u32) -> Self {
        PowerThresholdSupport(bits)
    }

    /// The flags with the given bits, or `None` if an unknown bit is set
    pub fn from_bits(bits: u32) -> (r: Option<Self>)
        ensures
            r == (if bits < 4 { Some(Self::with_bits(bits)) } else { None }),
    {
        if power_threshold_support_accepts(bits) {
            Some(PowerThresholdSupport(bits))
        } else {
            None
        }
    }

    /// The flag bits
    pub fn bits(&self) -> (r: u32)
        ensures
            r == self.spec_bits(),
            r < 4,
    {
        proof {
            use_type_invariant(self);
        }
        self.0
    }
}

impl BmdStatusFlags {
    #[verifier::type_invariant]
    spec fn wf(self) -> bool {
        self.0 < 128
    }

    /// The flag bits.
    pub closed spec fn spec_bits(self) -> u32 {
        self.0
    }

    /// The flags with the given bits.
    pub closed spec fn with_bits(bits: u32) -> Self {
        BmdStatusFlags(bits)
    }

    /// The flags with the given bits, or `None` if an unknown bit is set
    pub fn from_bits(bits: u32) -> (r: Option<Self>)
        ensures
            r == (if bits < 128 { Some(Self::with_bits(bits)) } else { None }),
    {
        if bmd_status_flags_accepts(bits) {
            Some(BmdStatusFlags(bits))
        } else {
            None
        }
    }

    /// The flag bits
    pub fn bits(&self) -> (r: u32)
        ensures
            r == self.spec_bits(),
            r < 128,
    {
        proof {
            use_type_invariant(self);
        }
        self.0
    }
}

impl BmdCapabilityFlags {
    #[verifier::type_invariant]
    spec fn wf(self) -> bool {
        self.0 < 64
    }

    /// The flag bits.
    pub closed spec fn spec_bits(self) -> u32 {
        self.0
    }

    /// The flags with the given bits.
    pub closed spec fn with_bits(bits: u32) -> Self {
        BmdCapabilityFlags(bits)
    }

    /// The flags with the given bits, or `None` if an unknown bit is set
    pub fn from_bits(bits: u32) -> (r: Option<Self>)
        ensures
            r == (if bits < 64 { Some(Self::with_bits(bits)) } else { None }),
    {
        if bmd_capability_flags_accepts(bits) {
            Some(BmdCapabilityFlags(bits))
        } else {
            None
        }
    }

    /// The flag bits
    pub fn bits(&self) -> (r: u32)
        ensures
            r == self.spec_bits(),
            r < 64,
    {
        proof {
            use_type_invariant(self);
        }
        self.0
    }
}

impl StaReturn {
    #[verifier::type_invariant]
    spec fn wf(self) -> bool {
        self.0 < 32
    }

    /// The flag bits.
    pub closed spec fn spec_bits(self) -> u32 {
        self.0
    }

    /// The flags with the given bits.
    pub closed spec fn with_bits(bits: u32) -> Self {
        StaReturn(bits)
    }

    /// The flags with the given bits, or `None` if an unknown bit is set
    pub fn from_bits(bits: u32) -> (r: Option<Self>)
        ensures
            r == (if bits < 32 { Some(Self::with_bits(bits)) } else { None }),
    {
        if sta_return_accepts(bits) {
            Some(StaReturn(bits))
        } else {
            None
        }
    }

    /// The flag bits
    pub fn bits(&self) -> (r: u32)
        ensures
            r == self.spec_bits(),
            r < 32,
    {
        proof {
            use_type_invariant(self);
        }
        self.0
    }
}

/// Whether a power source is supplying power (_PSR).
#[derive(Copy, Clone, Debug, PartialEq, Eq, Structural)]
pub enum PowerSource {
    /// Not supplying power (0)
    Offline,
    /// Supplying power (1)
    Online,
}

/// The unit of capacities and rates (_BIX).
#[derive(Copy, Clone, Debug, PartialEq, Eq, Structural)]
pub enum PowerUnit {
    /// Capacity in mWh, rate in mW (0)
    MilliWatts,
    /// Capacity in mAh, rate in mA (1)
    MilliAmps,
}

/// Battery technology (_BIX).
#[derive(Copy, Clone, Debug, PartialEq, Eq, Structural)]
pub enum BatteryTechnology {
    /// Non-rechargeable (0)
    Primary,
    /// Rechargeable (1)
    Secondary,
}

/// Battery swapping capability (_BIX).
#[derive(Copy, Clone, Debug, PartialEq, Eq, Structural)]
pub enum BatterySwapCapability {
    /// Not swappable (0)
    NonSwappable,
    /// Cold-swappable (1)
    ColdSwappable,
    /// Hot-swappable (2)
    HotSwappable,
}

/// Result of a battery charge time query (_BCT).
#[derive(Copy, Clone, Debug, PartialEq, Eq, Structural)]
pub enum BctReturnResult {
    /// The requested charge level is invalid (0)
    InvalidTarget,
    /// Estimated time in seconds to reach the level
    EstimatedTime(u32),
    /// Charging time is unknown (0xFFFFFFFF)
    Unknown,
}

/// Result of a battery time query (_BTM).
#[derive(Copy, Clone, Debug, PartialEq, Eq, Structural)]
pub enum BtmReturnResult {
    /// The rate is too high, or the battery is critical (0)
    RateTooHighOrBatteryCritical,
    /// Estimated runtime in seconds
    EstimatedRuntime(u32),
    /// Runtime is unknown (0xFFFFFFFF)
    Unknown,
}

/// The power source state that `v` stands for, if any.
pub open spec fn power_source_of(v: u32) -> Option<PowerSource> {
    if v == 0 {
        Some(PowerSource::Offline)
    } else if v == 1 {
        Some(PowerSource::Online)
    } else {
        None
    }
}

/// The number that stands for a power source state.
pub open spec fn power_source_value(p: PowerSource) -> u32 {
    match p {
        PowerSource::Offline => 0,
        PowerSource::Online => 1,
    }
}

/// The power unit that `v` stands for, if any.
pub open spec fn power_unit_of(v: u32) -> Option<PowerUnit> {
    if v == 0 {
        Some(PowerUnit::MilliWatts)
    } else if v == 1 {
        Some(PowerUnit::MilliAmps)
    } else {
        None
    }
}

/// The number that stands for a power unit.
pub open spec fn power_unit_value(p: PowerUnit) -> u32 {
    match p {
        PowerUnit::MilliWatts => 0,
        PowerUnit::MilliAmps => 1,
    }
}

/// The battery technology that `v` stands for, if any.
pub open spec fn battery_technology_of(v: u32) -> Option<BatteryTechnology> {
    if v == 0 {
        Some(BatteryTechnology::Primary)
    } else if v == 1 {
        Some(BatteryTechnology::Secondary)
    } else {
        None
    }
}

/// The number that stands for a battery technology.
pub open spec fn battery_technology_value(t: BatteryTechnology) -> u32 {
    match t {
        BatteryTechnology::Primary => 0,
        BatteryTechnology::Secondary => 1,
    }
}

/// The swapping capability that `v` stands for, if any.
pub open spec fn swap_capability_of(v: u32) -> Option<BatterySwapCapability> {
    if v == 0 {
        Some(BatterySwapCapability::NonSwappable)
    } else if v == 1 {
        Some(BatterySwapCapability::ColdSwappable)
    } else if v == 2 {
        Some(BatterySwapCapability::HotSwappable)
    } else {
        None
    }
}

/// The number that stands for a swapping capability.
pub open spec fn swap_capability_value(c: BatterySwapCapability) -> u32 {
    match c {
        BatterySwapCapability::NonSwappable => 0,
        BatterySwapCapability::ColdSwappable => 1,
        BatterySwapCapability::HotSwappable => 2,
    }
}

/// The charge time result that `v` stands for.
pub open spec fn bct_result_of(v: u32) -> BctReturnResult {
    if v == 0 {
        BctReturnResult::InvalidTarget
    } else if v == 0xFFFF_FFFF {
        BctReturnResult::Unknown
    } else {
        BctReturnResult::EstimatedTime(v)
    }
}

/// The number that stands for a charge time result.
pub open spec fn bct_result_value(r: BctReturnResult) -> u32 {
    match r {
        BctReturnResult::InvalidTarget => 0,
        BctReturnResult::Unknown => 0xFFFF_FFFF,
        BctReturnResult::EstimatedTime(s) => s,
    }
}

/// The runtime result that `v` stands for.
pub open spec fn btm_result_of(v: u32) -> BtmReturnResult {
    if v == 0 {
        BtmReturnResult::RateTooHighOrBatteryCritical
    } else if v == 0xFFFF_FFFF {
        BtmReturnResult::Unknown
    } else {
        BtmReturnResult::EstimatedRuntime(v)
    }
}

/// The number that stands for a runtime result.
pub open spec fn btm_result_value(r: BtmReturnResult) -> u32 {
    match r {
        BtmReturnResult::RateTooHighOrBatteryCritical => 0,
        BtmReturnResult::Unknown => 0xFFFF_FFFF,
        BtmReturnResult::EstimatedRuntime(s) => s,
    }
}

/// `PowerSource::try_from(u32)` of embedded-batteries, with its result told apart by variant:
/// 0 is offline, 1 online, anything else refused.
#[verifier::external_body]
fn power_source_from(v: u32) -> (r: Option<PowerSource>)
    ensures
        r == power_source_of(v),
{
    match embedded_batteries_async::acpi::PowerSource::try_from(v) {
        Ok(embedded_batteries_async::acpi::PowerSource::Offline) => Some(PowerSource::Offline),
        Ok(embedded_batteries_async::acpi::PowerSource::Online) => Some(PowerSource::Online),
        Err(()) => None,
    }
}

/// `PowerUnit::try_from(u32)` of embedded-batteries, with its result told apart by variant: 0 is
/// milliwatts, 1 milliamps, anything else refused.
#[verifier::external_body]
fn power_unit_from(v: u32) -> (r: Option<PowerUnit>)
    ensures
        r == power_unit_of(v),
{
    match embedded_batteries_async::acpi::PowerUnit::try_from(v) {
        Ok(embedded_batteries_async::acpi::PowerUnit::MilliWatts) => Some(PowerUnit::MilliWatts),
        Ok(embedded_batteries_async::acpi::PowerUnit::MilliAmps) => Some(PowerUnit::MilliAmps),
        Err(()) => None,
    }
}

/// `BatteryTechnology::try_from(u32)` of embedded-batteries, with its result told apart by
/// variant: 0 is primary, 1 secondary, anything else refused.
#[verifier::external_body]
fn battery_technology_from(v: u32) -> (r: Option<BatteryTechnology>)
    ensures
        r == battery_technology_of(v),
{
    match embedded_batteries_async::acpi::BatteryTechnology::try_from(v) {
        Ok(embedded_batteries_async::acpi::BatteryTechnology::Primary) => Some(BatteryTechnology::Primary),
        Ok(embedded_batteries_async::acpi::BatteryTechnology::Secondary) => Some(BatteryTechnology::Secondary),
        Err(()) => None,
    }
}

/// `BatterySwapCapability::try_from(u32)` of embedded-batteries, with its result told apart by
/// variant: 0 is non-swappable, 1 cold-swappable, 2 hot-swappable, anything else refused.
#[verifier::external_body]
fn swap_capability_from(v: u32) -> (r: Option<BatterySwapCapability>)
    ensures
        r == swap_capability_of(v),
{
    match embedded_batteries_async::acpi::BatterySwapCapability::try_from(v) {
        Ok(embedded_batteries_async::acpi::BatterySwapCapability::NonSwappable) => Some(
            BatterySwapCapability::NonSwappable,
        ),
        Ok(embedded_batteries_async::acpi::BatterySwapCapability::ColdSwappable) => Some(
            BatterySwapCapability::ColdSwappable,
        ),
        Ok(embedded_batteries_async::acpi::BatterySwapCapability::HotSwappable) => Some(
            BatterySwapCapability::HotSwappable,
        ),
        Err(()) => None,
    }
}

/// `BctReturnResult::from(u32)` of embedded-batteries, with its result told apart by variant: 0 is
/// an invalid target, 0xFFFFFFFF unknown, anything else an estimated time.
#[verifier::external_body]
fn bct_result_from(v: u32) -> (r: BctReturnResult)
    ensures
        r == bct_result_of(v),
{
    match embedded_batteries_async::acpi::BctReturnResult::from(v) {
        embedded_batteries_async::acpi::BctReturnResult::InvalidTarget => BctReturnResult::InvalidTarget,
        embedded_batteries_async::acpi::BctReturnResult::EstimatedTime(s) => BctReturnResult::EstimatedTime(s),
        embedded_batteries_async::acpi::BctReturnResult::Unknown => BctReturnResult::Unknown,
    }
}

/// `BtmReturnResult::from(u32)` of embedded-batteries, with its result told apart by variant: 0 is
/// a rate too high or a critical battery, 0xFFFFFFFF unknown, anything else an estimated runtime.
#[verifier::external_body]
fn btm_result_from(v: u32) -> (r: BtmReturnResult)
    ensures
        r == btm_result_of(v),
{
    match embedded_batteries_async::acpi::BtmReturnResult::from(v) {
        embedded_batteries_async::acpi::BtmReturnResult::RateTooHighOrBatteryCritical => {
            BtmReturnResult::RateTooHighOrBatteryCritical
        },
        embedded_batteries_async::acpi::BtmReturnResult::EstimatedRuntime(s) => BtmReturnResult::EstimatedRuntime(s),
        embedded_batteries_async::acpi::BtmReturnResult::Unknown => BtmReturnResult::Unknown,
    }
}

impl PowerSource {
    /// The number that stands for this state
    pub fn value(self) -> (r: u32)
        ensures
            r == power_source_value(self),
    {
        match self {
            PowerSource::Offline => 0,
            PowerSource::Online => 1,
        }
    }
}

impl PowerUnit {
    /// The number that stands for this unit
    pub fn value(self) -> (r: u32)
        ensures
            r == power_unit_value(self),
    {
        match self {
            PowerUnit::MilliWatts => 0,
            PowerUnit::MilliAmps => 1,
        }
    }
}

impl BatteryTechnology {
    /// The number that stands for this technology
    pub fn value(self) -> (r: u32)
        ensures
            r == battery_technology_value(self),
    {
        match self {
            BatteryTechnology::Primary => 0,
            BatteryTechnology::Secondary => 1,
        }
    }
}

impl BatterySwapCapability {
    /// The number that stands for this capability
    pub fn value(self) -> (r: u32)
        ensures
            r == swap_capability_value(self),
    {
        match self {
            BatterySwapCapability::NonSwappable => 0,
            BatterySwapCapability::ColdSwappable => 1,
            BatterySwapCapability::HotSwappable => 2,
        }
    }
}

impl BctReturnResult {
    /// The number that stands for this result
    pub fn value(self) -> (r: u32)
        ensures
            r == bct_result_value(self),
    {
        match self {
            BctReturnResult::InvalidTarget => 0,
            BctReturnResult::Unknown => 0xFFFF_FFFF,
            BctReturnResult::EstimatedTime(s) => s,
        }
    }
}

impl BtmReturnResult {
    /// The number that stands for this result
    pub fn value(self) -> (r: u32)
        ensures
            r == btm_result_value(self),
    {
        match self {
            BtmReturnResult::RateTooHighOrBatteryCritical => 0,
            BtmReturnResult::Unknown => 0xFFFF_FFFF,
            BtmReturnResult::EstimatedRuntime(s) => s,
        }
    }
}

/// BST: battery status.
#[derive(Copy, Clone, Debug, PartialEq, Eq, Structural)]
pub struct BstReturn {
    /// Charging, discharging and critical flags
    pub battery_state: BatteryState,
    /// Present rate of power or current flow (mW or mA)
    pub battery_present_rate: u32,
    /// Estimated remaining capacity (mWh or mAh)
    pub battery_remaining_capacity: u32,
    /// Present voltage across the battery terminals (mV)
    pub battery_present_voltage: u32,
}

/// PSR: power source status.
#[derive(Copy, Clone, Debug, PartialEq, Eq, Structural)]
pub struct PsrReturn {
    /// Whether the power source supplies power
    pub power_source: PowerSource,
}

/// BPS: battery power source information.
#[derive(Copy, Clone, Debug, PartialEq, Eq, Structural)]
pub struct Bps {
    /// Revision of the structure
    pub revision: u32,
    /// Instantaneous peak power level (mW or mA)
    pub instantaneous_peak_power_level: u32,
    /// Instantaneous peak power period (ms)
    pub instantaneous_peak_power_period: u32,
    /// Sustainable peak power level (mW or mA)
    pub sustainable_peak_power_level: u32,
    /// Sustainable peak power period (ms)
    pub sustainable_peak_power_period: u32,
}

/// BPC: battery power characteristics.
#[derive(Copy, Clone, Debug, PartialEq, Eq, Structural)]
pub struct Bpc {
    /// Revision of the structure
    pub revision: u32,
    /// Which power thresholds are supported
    pub power_threshold_support: PowerThresholdSupport,
    /// Maximum instantaneous peak power threshold (mW or mA)
    pub max_instantaneous_peak_power_threshold: u32,
    /// Maximum sustainable peak power threshold (mW or mA)
    pub max_sustainable_peak_power_threshold: u32,
}

/// BMD: battery maintenance data.
#[derive(Copy, Clone, Debug, PartialEq, Eq, Structural)]
pub struct Bmd {
    /// Maintenance status flags
    pub status_flags: BmdStatusFlags,
    /// Maintenance capability flags
    pub capability_flags: BmdCapabilityFlags,
    /// Recommended recalibration count
    pub recalibrate_count: u32,
    /// Estimated recalibration time with standby (s)
    pub quick_recalibrate_time: u32,
    /// Estimated recalibration time without standby (s)
    pub slow_recalibrate_time: u32,
}

/// BIX: extended battery information, with its strings in fixed-size fields.
#[derive(Copy, Clone, Debug, PartialEq, Eq)]
pub struct BixFixedStrings {
    /// Revision of the structure
    pub revision: u32,
    /// Unit of capacities and rates
    pub power_unit: PowerUnit,
    /// Design capacity
    pub design_capacity: u32,
    /// Last full charge capacity
    pub last_full_charge_capacity: u32,
    /// Battery technology
    pub battery_technology: BatteryTechnology,
    /// Design voltage (mV)
    pub design_voltage: u32,
    /// Design capacity of warning
    pub design_cap_of_warning: u32,
    /// Design capacity of low
    pub design_cap_of_low: u32,
    /// Cycle count
    pub cycle_count: u32,
    /// Measurement accuracy
    pub measurement_accuracy: u32,
    /// Maximum sampling time (ms)
    pub max_sampling_time: u32,
    /// Minimum sampling time (ms)
    pub min_sampling_time: u32,
    /// Maximum averaging interval (ms)
    pub max_averaging_interval: u32,
    /// Minimum averaging interval (ms)
    pub min_averaging_interval: u32,
    /// Battery capacity granularity 1
    pub battery_capacity_granularity_1: u32,
    /// Battery capacity granularity 2
    pub battery_capacity_granularity_2: u32,
    /// Model number
    pub model_number: FixedString,
    /// Serial number
    pub serial_number: FixedString,
    /// Battery type
    pub battery_type: FixedString,
    /// OEM information
    pub oem_info: FixedString,
    /// Battery swapping capability
    pub battery_swapping_capability: BatterySwapCapability,
}

/// PIF: power source information, with its strings in fixed-size fields.
#[derive(Copy, Clone, Debug, PartialEq, Eq)]
pub struct PifFixedStrings {
    /// Power source state flags
    pub power_source_state: PowerSourceState,
    /// Maximum output power (mW)
    pub max_output_power: u32,
    /// Maximum input power (mW)
    pub max_input_power: u32,
    /// Model number
    pub model_number: FixedString,
    /// Serial number
    pub serial_number: FixedString,
    /// OEM information
    pub oem_info: FixedString,
}

/// ACPI battery device message responses as defined in ACPI spec version 6.4, section 10.2
#[derive(Copy, Clone, Debug, PartialEq, Eq)]
pub enum AcpiBatteryResponse {
    /// Extended battery information. Analogous to the return value of the _BIX method.
    GetBix { bix: BixFixedStrings },
    /// Battery status. Analogous to the return value of the _BST method.
    GetBst { bst: BstReturn },
    /// Power source in use. Analogous to the return value of the _PSR method.
    GetPsr { psr: PsrReturn },
    /// Power source information. Analogous to the return value of the _PIF method.
    GetPif { pif: PifFixedStrings },
    /// Battery power state. Analogous to the return value of the _BPS method.
    GetBps { bps: Bps },
    /// Result of setting a battery trip point. Analogous to the _BTP method.
    SetBtp {},
    /// Result of setting a battery power threshold. Analogous to the _BPT method.
    SetBpt {},
    /// Battery power characteristics. Analogous to the return value of the _BPC method.
    GetBpc { bpc: Bpc },
    /// Result of a battery maintenance control operation. Analogous to the _BMC method.
    SetBmc {},
    /// Battery maintenance data. Analogous to the return value of the _BMD method.
    GetBmd { bmd: Bmd },
    /// Battery charge time. Analogous to the return value of the _BCT method.
    GetBct { bct_response: BctReturnResult },
    /// Battery time to empty. Analogous to the return value of the _BTM method.
    GetBtm { btm_response: BtmReturnResult },
    /// Result of setting the battery measurement sampling time. Analogous to the _BMS method.
    SetBms { status: u32 },
    /// Result of setting the battery measurement averaging interval. Analogous to the _BMA method.
    SetBma { status: u32 },
    /// Battery device status. Analogous to the return value of the _STA method.
    GetSta { sta: StaReturn },
}

/// The discriminant of a response: the number of its ACPI method (1 for _BIX up to 15 for _STA).
pub open spec fn response_discriminant(r: AcpiBatteryResponse) -> u16 {
    match r {
        AcpiBatteryResponse::GetBix { .. } => 1,
        AcpiBatteryResponse::GetBst { .. } => 2,
        AcpiBatteryResponse::GetPsr { .. } => 3,
        AcpiBatteryResponse::GetPif { .. } => 4,
        AcpiBatteryResponse::GetBps { .. } => 5,
        AcpiBatteryResponse::SetBtp { .. } => 6,
        AcpiBatteryResponse::SetBpt { .. } => 7,
        AcpiBatteryResponse::GetBpc { .. } => 8,
        AcpiBatteryResponse::SetBmc { .. } => 9,
        AcpiBatteryResponse::GetBmd { .. } => 10,
        AcpiBatteryResponse::GetBct { .. } => 11,
        AcpiBatteryResponse::GetBtm { .. } => 12,
        AcpiBatteryResponse::SetBms { .. } => 13,
        AcpiBatteryResponse::SetBma { .. } => 14,
        AcpiBatteryResponse::GetSta { .. } => 15,
    }
}

/// The 32-bit values at the front of an extended battery information record, in payload order.
pub open spec fn bix_words(b: BixFixedStrings) -> Seq<u32> {
    seq![
        b.revision,
        power_unit_value(b.power_unit),
        b.design_capacity,
        b.last_full_charge_capacity,
        battery_technology_value(b.battery_technology),
        b.design_voltage,
        b.design_cap_of_warning,
        b.design_cap_of_low,
        b.cycle_count,
        b.measurement_accuracy,
        b.max_sampling_time,
        b.min_sampling_time,
        b.max_averaging_interval,
        b.min_averaging_interval,
        b.battery_capacity_granularity_1,
        b.battery_capacity_granularity_2,
    ]
}

/// The payload of an extended battery information record: its values, its four strings, then its
/// swapping capability.
pub open spec fn bix_bytes(b: BixFixedStrings) -> Seq<u8> {
    le32s(bix_words(b)) + b.model_number@ + b.serial_number@ + b.battery_type@ + b.oem_info@ + le32(
        swap_capability_value(b.battery_swapping_capability),
    )
}

/// The 32-bit values at the front of a power source information record, in payload order.
pub open spec fn pif_words(p: PifFixedStrings) -> Seq<u32> {
    seq![p.power_source_state.spec_bits(), p.max_output_power, p.max_input_power]
}

/// The payload of a power source information record: its values, then its three strings.
pub open spec fn pif_bytes(p: PifFixedStrings) -> Seq<u8> {
    le32s(pif_words(p)) + p.model_number@ + p.serial_number@ + p.oem_info@
}

/// The 32-bit values of a response without strings, in payload order.
pub open spec fn response_words(r: AcpiBatteryResponse) -> Seq<u32> {
    match r {
        AcpiBatteryResponse::GetBst { bst } => seq![
            bst.battery_state.spec_bits(),
            bst.battery_present_rate,
            bst.battery_remaining_capacity,
            bst.battery_present_voltage,
        ],
        AcpiBatteryResponse::GetPsr { psr } => seq![power_source_value(psr.power_source)],
        AcpiBatteryResponse::GetBps { bps } => seq![
            bps.revision,
            bps.instantaneous_peak_power_level,
            bps.instantaneous_peak_power_period,
            bps.sustainable_peak_power_level,
            bps.sustainable_peak_power_period,
        ],
        AcpiBatteryResponse::GetBpc { bpc } => seq![
            bpc.revision,
            bpc.power_threshold_support.spec_bits(),
            bpc.max_instantaneous_peak_power_threshold,
            bpc.max_sustainable_peak_power_threshold,
        ],
        AcpiBatteryResponse::GetBmd { bmd } => seq![
            bmd.status_flags.spec_bits(),
            bmd.capability_flags.spec_bits(),
            bmd.recalibrate_count,
            bmd.quick_recalibrate_time,
            bmd.slow_recalibrate_time,
        ],
        AcpiBatteryResponse::GetBct { bct_response } => seq![bct_result_value(bct_response)],
        AcpiBatteryResponse::GetBtm { btm_response } => seq![btm_result_value(btm_response)],
        AcpiBatteryResponse::SetBms { status } => seq![status],
        AcpiBatteryResponse::SetBma { status } => seq![status],
        AcpiBatteryResponse::GetSta { sta } => seq![sta.spec_bits()],
        _ => Seq::empty(),
    }
}

/// The response carries fixed-size strings (extended battery or power source information).
pub open spec fn has_strings(r: AcpiBatteryResponse) -> bool {
    r is GetBix || r is GetPif
}

/// The payload of a response.
pub open spec fn response_bytes(r: AcpiBatteryResponse) -> Seq<u8> {
    match r {
        AcpiBatteryResponse::GetBix { bix } => bix_bytes(bix),
        AcpiBatteryResponse::GetPif { pif } => pif_bytes(pif),
        _ => le32s(response_words(r)),
    }
}

/// How many of `n` 32-bit values, written one after another from the start, fit in `len` bytes.
pub open spec fn dwords_that_fit(n: int, len: int) -> int {
    if len / 4 < n {
        len / 4
    } else {
        n
    }
}

/// What serializing `r` into a buffer of `len` bytes returns: a response with strings checks the
/// room first; one without writes its values in order and fails at the first that does not fit.
pub open spec fn response_serialize_result(r: AcpiBatteryResponse, len: int) -> Result<usize, MessageSerializationError> {
    if has_strings(r) {
        if len < response_bytes(r).len() {
            Err(MessageSerializationError::BufferTooSmall)
        } else {
            Ok(response_bytes(r).len() as usize)
        }
    } else if dwords_that_fit(response_words(r).len() as int, len) == response_words(r).len() {
        Ok((4 * response_words(r).len()) as usize)
    } else {
        Err(MessageSerializationError::BufferTooSmall)
    }
}

/// The buffer `before` after serializing `r` into it: a response with strings is written whole or
/// not at all; one without has the values that fit written.
pub open spec fn response_written(r: AcpiBatteryResponse, before: Seq<u8>) -> Seq<u8> {
    if has_strings(r) {
        if before.len() < response_bytes(r).len() {
            before
        } else {
            overwrite(before, 0, response_bytes(r))
        }
    } else {
        overwrite(
            before,
            0,
            le32s(response_words(r).take(dwords_that_fit(response_words(r).len() as int, before.len() as int))),
        )
    }
}

/// The fixed-size string whose bytes are `s` (of the string length).
pub open spec fn fixed_string(s: Seq<u8>) -> FixedString {
    choose|a: FixedString| a@ == s
}

/// The extended battery information that the payload `b` holds, read in payload order: a
/// payload too short for the field being read gives `BufferTooSmall`, and a field that names no
/// value gives `InvalidPayload` once it has been read.
pub open spec fn bix_from(b: Seq<u8>) -> Result<BixFixedStrings, MessageSerializationError> {
    if b.len() < 8 {
        Err(MessageSerializationError::BufferTooSmall)
    } else {
        match power_unit_of(le32_at(b, 4)) {
            None => Err(MessageSerializationError::InvalidPayload("Invalid PowerUnit")),
            Some(power_unit) => {
                if b.len() < 20 {
                    Err(MessageSerializationError::BufferTooSmall)
                } else {
                    match battery_technology_of(le32_at(b, 16)) {
                        None => Err(MessageSerializationError::InvalidPayload("Invalid BatteryTechnology")),
                        Some(battery_technology) => {
                            if b.len() < BIX_OEM_INFO_END_IDX + 4 {
                                Err(MessageSerializationError::BufferTooSmall)
                            } else {
                                match swap_capability_of(le32_at(b, BIX_OEM_INFO_END_IDX as int)) {
                                    None => Err(
                                        MessageSerializationError::InvalidPayload("Invalid BatterySwappingCapability"),
                                    ),
                                    Some(battery_swapping_capability) => Ok(
                                        BixFixedStrings {
                                            revision: le32_at(b, 0),
                                            power_unit,
                                            design_capacity: le32_at(b, 8),
                                            last_full_charge_capacity: le32_at(b, 12),
                                            battery_technology,
                                            design_voltage: le32_at(b, 20),
                                            design_cap_of_warning: le32_at(b, 24),
                                            design_cap_of_low: le32_at(b, 28),
                                            cycle_count: le32_at(b, 32),
                                            measurement_accuracy: le32_at(b, 36),
                                            max_sampling_time: le32_at(b, 40),
                                            min_sampling_time: le32_at(b, 44),
                                            max_averaging_interval: le32_at(b, 48),
                                            min_averaging_interval: le32_at(b, 52),
                                            battery_capacity_granularity_1: le32_at(b, 56),
                                            battery_capacity_granularity_2: le32_at(b, 60),
                                            model_number: fixed_string(
                                                b.subrange(BIX_MODEL_NUM_START_IDX as int, BIX_MODEL_NUM_END_IDX as int),
                                            ),
                                            serial_number: fixed_string(
                                                b.subrange(BIX_SERIAL_NUM_START_IDX as int, BIX_SERIAL_NUM_END_IDX as int),
                                            ),
                                            battery_type: fixed_string(
                                                b.subrange(
                                                    BIX_BATTERY_TYPE_START_IDX as int,
                                                    BIX_BATTERY_TYPE_END_IDX as int,
                                                ),
                                            ),
                                            oem_info: fixed_string(
                                                b.subrange(BIX_OEM_INFO_START_IDX as int, BIX_OEM_INFO_END_IDX as int),
                                            ),
                                            battery_swapping_capability,
                                        },
                                    ),
                                }
                            }
                        },
                    }
                }
            },
        }
    }
}

/// The power source information that the payload `b` holds, read in payload order.
pub open spec fn pif_from(b: Seq<u8>) -> Result<PifFixedStrings, MessageSerializationError> {
    if b.len() < 4 {
        Err(MessageSerializationError::BufferTooSmall)
    } else if !(le32_at(b, 0) < 4) {
        Err(MessageSerializationError::InvalidPayload("Invalid PowerSourceState"))
    } else if b.len() < PIF_OEM_INFO_END_IDX {
        Err(MessageSerializationError::BufferTooSmall)
    } else {
        Ok(
            PifFixedStrings {
                power_source_state: PowerSourceState::with_bits(le32_at(b, 0)),
                max_output_power: le32_at(b, 4),
                max_input_power: le32_at(b, 8),
                model_number: fixed_string(b.subrange(PIF_MODEL_NUM_START_IDX as int, PIF_MODEL_NUM_END_IDX as int)),
                serial_number: fixed_string(b.subrange(PIF_SERIAL_NUM_START_IDX as int, PIF_SERIAL_NUM_END_IDX as int)),
                oem_info: fixed_string(b.subrange(PIF_OEM_INFO_START_IDX as int, PIF_OEM_INFO_END_IDX as int)),
            },
        )
    }
}

/// The response of kind `discriminant` that the payload `b` holds. Fields are read in payload
/// order, so a payload too short for the field being read gives `BufferTooSmall`, and a field that
/// names no value gives `InvalidPayload` once it has been read.
pub open spec fn response_from(discriminant: u16, b: Seq<u8>) -> Result<AcpiBatteryResponse, MessageSerializationError> {
    if discriminant == 1 {
        match bix_from(b) {
            Ok(bix) => Ok(AcpiBatteryResponse::GetBix { bix }),
            Err(e) => Err(e),
        }
    } else if discriminant == 2 {
        if b.len() < 4 {
            Err(MessageSerializationError::BufferTooSmall)
        } else if !(le32_at(b, 0) < 16) {
            Err(MessageSerializationError::InvalidPayload("Invalid BatteryState"))
        } else if b.len() < 16 {
            Err(MessageSerializationError::BufferTooSmall)
        } else {
            Ok(
                AcpiBatteryResponse::GetBst {
                    bst: BstReturn {
                        battery_state: BatteryState::with_bits(le32_at(b, 0)),
                        battery_present_rate: le32_at(b, 4),
                        battery_remaining_capacity: le32_at(b, 8),
                        battery_present_voltage: le32_at(b, 12),
                    },
                },
            )
        }
    } else if discriminant == 3 {
        if b.len() < 4 {
            Err(MessageSerializationError::BufferTooSmall)
        } else {
            match power_source_of(le32_at(b, 0)) {
                None => Err(MessageSerializationError::InvalidPayload("Invalid PowerSource")),
                Some(power_source) => Ok(AcpiBatteryResponse::GetPsr { psr: PsrReturn { power_source } }),
            }
        }
    } else if discriminant == 4 {
        match pif_from(b) {
            Ok(pif) => Ok(AcpiBatteryResponse::GetPif { pif }),
            Err(e) => Err(e),
        }
    } else if discriminant == 5 {
        if b.len() < 20 {
            Err(MessageSerializationError::BufferTooSmall)
        } else {
            Ok(
                AcpiBatteryResponse::GetBps {
                    bps: Bps {
                        revision: le32_at(b, 0),
                        instantaneous_peak_power_level: le32_at(b, 4),
                        instantaneous_peak_power_period: le32_at(b, 8),
                        sustainable_peak_power_level: le32_at(b, 12),
                        sustainable_peak_power_period: le32_at(b, 16),
                    },
                },
            )
        }
    } else if discriminant == 6 {
        Ok(AcpiBatteryResponse::SetBtp {  })
    } else if discriminant == 7 {
        Ok(AcpiBatteryResponse::SetBpt {  })
    } else if discriminant == 8 {
        if b.len() < 8 {
            Err(MessageSerializationError::BufferTooSmall)
        } else if !(le32_at(b, 4) < 4) {
            Err(MessageSerializationError::InvalidPayload("Invalid BpcThresholdSupport"))
        } else if b.len() < 16 {
            Err(MessageSerializationError::BufferTooSmall)
        } else {
            Ok(
                AcpiBatteryResponse::GetBpc {
                    bpc: Bpc {
                        revision: le32_at(b, 0),
                        power_threshold_support: PowerThresholdSupport::with_bits(le32_at(b, 4)),
                        max_instantaneous_peak_power_threshold: le32_at(b, 8),
                        max_sustainable_peak_power_threshold: le32_at(b, 12),
                    },
                },
            )
        }
    } else if discriminant == 9 {
        Ok(AcpiBatteryResponse::SetBmc {  })
    } else if discriminant == 10 {
        if b.len() < 4 {
            Err(MessageSerializationError::BufferTooSmall)
        } else if !(le32_at(b, 0) < 128) {
            Err(MessageSerializationError::InvalidPayload("Invalid BmdStatusFlags"))
        } else if b.len() < 8 {
            Err(MessageSerializationError::BufferTooSmall)
        } else if !(le32_at(b, 4) < 64) {
            Err(MessageSerializationError::InvalidPayload("Invalid BmdCapabilityFlags"))
        } else if b.len() < 20 {
            Err(MessageSerializationError::BufferTooSmall)
        } else {
            Ok(
                AcpiBatteryResponse::GetBmd {
                    bmd: Bmd {
                        status_flags: BmdStatusFlags::with_bits(le32_at(b, 0)),
                        capability_flags: BmdCapabilityFlags::with_bits(le32_at(b, 4)),
                        recalibrate_count: le32_at(b, 8),
                        quick_recalibrate_time: le32_at(b, 12),
                        slow_recalibrate_time: le32_at(b, 16),
                    },
                },
            )
        }
    } else if 11 <= discriminant <= 15 {
        if b.len() < 4 {
            Err(MessageSerializationError::BufferTooSmall)
        } else {
            let w = le32_at(b, 0);
            if discriminant == 11 {
                Ok(AcpiBatteryResponse::GetBct { bct_response: bct_result_of(w) })
            } else if discriminant == 12 {
                Ok(AcpiBatteryResponse::GetBtm { btm_response: btm_result_of(w) })
            } else if discriminant == 13 {
                Ok(AcpiBatteryResponse::SetBms { status: w })
            } else if discriminant == 14 {
                Ok(AcpiBatteryResponse::SetBma { status: w })
            } else if w < 32 {
                Ok(AcpiBatteryResponse::GetSta { sta: StaReturn::with_bits(w) })
            } else {
                Err(MessageSerializationError::InvalidPayload("Invalid STA flags"))
            }
        }
    } else {
        Err(MessageSerializationError::UnknownMessageDiscriminant(discriminant))
    }
}

/// The 32-bit value stored little-endian at `index`.
fn get_word(buffer: &[u8], index: usize) -> (r: u32)
    requires
        index + 4 <= buffer@.len(),
    ensures
        r == le32_at(buffer@, index as int),
{
    buffer[index] as u32 + (buffer[index + 1] as u32) * 256 + (buffer[index + 2] as u32) * 65536 + (buffer[index
        + 3] as u32) * 16777216
}

/// The fixed-size string stored at `index`.
fn get_string(buffer: &[u8], index: usize) -> (r: FixedString)
    requires
        index + 8 <= buffer@.len(),
    ensures
        r@ == buffer@.subrange(index as int, index + 8),
{
    let r: FixedString = [
        buffer[index],
        buffer[index + 1],
        buffer[index + 2],
        buffer[index + 3],
        buffer[index + 4],
        buffer[index + 5],
        buffer[index + 6],
        buffer[index + 7],
    ];
    assert(r@ =~= buffer@.subrange(index as int, index + 8));
    r
}

/// A fixed-size string is the one whose bytes it holds.
proof fn lemma_fixed_string(a: FixedString)
    ensures
        fixed_string(a@) == a,
{
    assert(a@ == a@);
    let c = fixed_string(a@);
    assert(c@ == a@);
    assert(c =~= a);
}

/// Write a fixed-size string at `index`.
fn put_string(buffer: &mut [u8], index: usize, s: FixedString)
    requires
        index + 8 <= old(buffer)@.len(),
    ensures
        final(buffer)@ == overwrite(old(buffer)@, index as int, s@),
{
    let len = buffer.len();
    let mut i: usize = 0;
    proof {
        assert(overwrite(buffer@, index as int, s@.take(0)) =~= buffer@);
    }
    while i < 8
        invariant
            0 <= i <= 8,
            len == old(buffer)@.len(),
            index + 8 <= old(buffer)@.len(),
            buffer@.len() == old(buffer)@.len(),
            buffer@ == overwrite(old(buffer)@, index as int, s@.take(i as int)),
        decreases 8 - i,
    {
        buffer[index + i] = s[i];
        proof {
            assert(buffer@ =~= overwrite(old(buffer)@, index as int, s@.take(i + 1)));
        }
        i = i + 1;
    }
    assert(s@.take(8) =~= s@);
}

/// Write the first `n` values of `words` little-endian from the start of `buffer`, one after
/// another, stopping at the first that does not fit.
fn put_dwords(buffer: &mut [u8], words: &[u32], n: usize) -> (r: Result<usize, MessageSerializationError>)
    requires
        n <= words@.len(),
        n <= 16,
    ensures
        final(buffer)@ == overwrite(
            old(buffer)@,
            0,
            le32s(words@.take(n as int).take(dwords_that_fit(n as int, old(buffer)@.len() as int))),
        ),
        r == if dwords_that_fit(n as int, old(buffer)@.len() as int) == n {
            Ok::<usize, MessageSerializationError>((4 * n) as usize)
        } else {
            Err::<usize, MessageSerializationError>(MessageSerializationError::BufferTooSmall)
        },
{
    let ghost start = buffer@;
    let ghost ws = words@.take(n as int);
    let len = buffer.len();
    proof {
        assert(ws.take(0) =~= Seq::<u32>::empty());
        assert(overwrite(start, 0, Seq::empty()) =~= start);
    }
    let mut k: usize = 0;
    while k < n
        invariant
            0 <= k <= n <= 16,
            n <= words@.len(),
            ws == words@.take(n as int),
            len == start.len(),
            start == old(buffer)@,
            4 * k <= len,
            buffer@ == overwrite(start, 0, le32s(ws.take(k as int))),
            le32s(ws.take(k as int)).len() == 4 * k,
        decreases n - k,
    {
        let ghost before = le32s(ws.take(k as int));
        match safe_put_dword(buffer, 4 * k, words[k]) {
            Ok(_) => {},
            Err(e) => {
                assert(dwords_that_fit(n as int, len as int) == k);
                return Err(e);
            },
        }
        proof {
            lemma_overwrite_concat(start, 0, before, le32(ws[k as int]));
            assert(ws.take(k + 1).drop_last() =~= ws.take(k as int));
            assert(ws.take(k + 1).last() == words@[k as int]);
            lemma_le32s_len(ws.take(k + 1));
        }
        k = k + 1;
    }
    proof {
        assert(ws.take(n as int) =~= ws);
        assert(dwords_that_fit(n as int, len as int) == n);
    }
    Ok(4 * n)
}

/// Write an extended battery information record, if the whole record fits.
fn bix_to_bytes(bix: BixFixedStrings, buffer: &mut [u8]) -> (r: Result<usize, MessageSerializationError>)
    ensures
        r == response_serialize_result(AcpiBatteryResponse::GetBix { bix }, old(buffer)@.len() as int),
        final(buffer)@ == response_written(AcpiBatteryResponse::GetBix { bix }, old(buffer)@),
{
    let ghost ws = bix_words(bix);
    proof {
        lemma_le32s_len(ws);
        lemma_le32s_len(seq![swap_capability_value(bix.battery_swapping_capability)]);
    }
    if buffer.len() < BIX_OEM_INFO_END_IDX + 4 {
        return Err(MessageSerializationError::BufferTooSmall);
    }
    let ghost start = buffer@;
    let words: [u32; 16] = [
        bix.revision,
        bix.power_unit.value(),
        bix.design_capacity,
        bix.last_full_charge_capacity,
        bix.battery_technology.value(),
        bix.design_voltage,
        bix.design_cap_of_warning,
        bix.design_cap_of_low,
        bix.cycle_count,
        bix.measurement_accuracy,
        bix.max_sampling_time,
        bix.min_sampling_time,
        bix.max_averaging_interval,
        bix.min_averaging_interval,
        bix.battery_capacity_granularity_1,
        bix.battery_capacity_granularity_2,
    ];
    assert(words@ =~= ws);
    let _ = put_dwords(buffer, &words, 16);
    proof {
        assert(words@.take(16).take(16) =~= ws);
    }
    let ghost a = le32s(ws);
    put_string(buffer, BIX_MODEL_NUM_START_IDX, bix.model_number);
    proof {
        lemma_overwrite_concat(start, 0, a, bix.model_number@);
    }
    let ghost a = a + bix.model_number@;
    put_string(buffer, BIX_SERIAL_NUM_START_IDX, bix.serial_number);
    proof {
        lemma_overwrite_concat(start, 0, a, bix.serial_number@);
    }
    let ghost a = a + bix.serial_number@;
    put_string(buffer, BIX_BATTERY_TYPE_START_IDX, bix.battery_type);
    proof {
        lemma_overwrite_concat(start, 0, a, bix.battery_type@);
    }
    let ghost a = a + bix.battery_type@;
    put_string(buffer, BIX_OEM_INFO_START_IDX, bix.oem_info);
    proof {
        lemma_overwrite_concat(start, 0, a, bix.oem_info@);
    }
    let ghost a = a + bix.oem_info@;
    let swap = bix.battery_swapping_capability.value();
    let _ = safe_put_dword(buffer, BIX_OEM_INFO_END_IDX, swap);
    proof {
        lemma_overwrite_concat(start, 0, a, le32(swap));
        assert(a + le32(swap) == bix_bytes(bix));
    }
    Ok(BIX_OEM_INFO_END_IDX + 4)
}

/// Write a power source information record, if the whole record fits.
fn pif_to_bytes(pif: PifFixedStrings, buffer: &mut [u8]) -> (r: Result<usize, MessageSerializationError>)
    ensures
        r == response_serialize_result(AcpiBatteryResponse::GetPif { pif }, old(buffer)@.len() as int),
        final(buffer)@ == response_written(AcpiBatteryResponse::GetPif { pif }, old(buffer)@),
{
    let ghost ws = pif_words(pif);
    proof {
        lemma_le32s_len(ws);
    }
    if buffer.len() < PIF_OEM_INFO_END_IDX {
        return Err(MessageSerializationError::BufferTooSmall);
    }
    let ghost start = buffer@;
    let words: [u32; 3] = [pif.power_source_state.bits(), pif.max_output_power, pif.max_input_power];
    assert(words@ =~= ws);
    let _ = put_dwords(buffer, &words, 3);
    proof {
        assert(words@.take(3).take(3) =~= ws);
    }
    let ghost a = le32s(ws);
    put_string(buffer, PIF_MODEL_NUM_START_IDX, pif.model_number);
    proof {
        lemma_overwrite_concat(start, 0, a, pif.model_number@);
    }
    let ghost a = a + pif.model_number@;
    put_string(buffer, PIF_SERIAL_NUM_START_IDX, pif.serial_number);
    proof {
        lemma_overwrite_concat(start, 0, a, pif.serial_number@);
    }
    let ghost a = a + pif.serial_number@;
    put_string(buffer, PIF_OEM_INFO_START_IDX, pif.oem_info);
    proof {
        lemma_overwrite_concat(start, 0, a, pif.oem_info@);
        assert(a + pif.oem_info@ == pif_bytes(pif));
    }
    Ok(PIF_OEM_INFO_END_IDX)
}

/// Read an extended battery information record.
fn bix_from_bytes(buffer: &[u8]) -> (r: Result<BixFixedStrings, MessageSerializationError>)
    ensures
        r == bix_from(buffer@),
{
    if buffer.len() < 8 {
        return Err(MessageSerializationError::BufferTooSmall);
    }
    let power_unit = match power_unit_from(get_word(buffer, 4)) {
        Some(p) => p,
        None => return Err(MessageSerializationError::InvalidPayload("Invalid PowerUnit")),
    };
    if buffer.len() < 20 {
        return Err(MessageSerializationError::BufferTooSmall);
    }
    let battery_technology = match battery_technology_from(get_word(buffer, 16)) {
        Some(t) => t,
        None => return Err(MessageSerializationError::InvalidPayload("Invalid BatteryTechnology")),
    };
    if buffer.len() < BIX_OEM_INFO_END_IDX + 4 {
        return Err(MessageSerializationError::BufferTooSmall);
    }
    let battery_swapping_capability = match swap_capability_from(get_word(buffer, BIX_OEM_INFO_END_IDX)) {
        Some(c) => c,
        None => return Err(MessageSerializationError::InvalidPayload("Invalid BatterySwappingCapability")),
    };
    let model_number = get_string(buffer, BIX_MODEL_NUM_START_IDX);
    let serial_number = get_string(buffer, BIX_SERIAL_NUM_START_IDX);
    let battery_type = get_string(buffer, BIX_BATTERY_TYPE_START_IDX);
    let oem_info = get_string(buffer, BIX_OEM_INFO_START_IDX);
    proof {
        lemma_fixed_string(model_number);
        lemma_fixed_string(serial_number);
        lemma_fixed_string(battery_type);
        lemma_fixed_string(oem_info);
    }
    Ok(
        BixFixedStrings {
            revision: get_word(buffer, 0),
            power_unit,
            design_capacity: get_word(buffer, 8),
            last_full_charge_capacity: get_word(buffer, 12),
            battery_technology,
            design_voltage: get_word(buffer, 20),
            design_cap_of_warning: get_word(buffer, 24),
            design_cap_of_low: get_word(buffer, 28),
            cycle_count: get_word(buffer, 32),
            measurement_accuracy: get_word(buffer, 36),
            max_sampling_time: get_word(buffer, 40),
            min_sampling_time: get_word(buffer, 44),
            max_averaging_interval: get_word(buffer, 48),
            min_averaging_interval: get_word(buffer, 52),
            battery_capacity_granularity_1: get_word(buffer, 56),
            battery_capacity_granularity_2: get_word(buffer, 60),
            model_number,
            serial_number,
            battery_type,
            oem_info,
            battery_swapping_capability,
        },
    )
}

/// Read a power source information record.
fn pif_from_bytes(buffer: &[u8]) -> (r: Result<PifFixedStrings, MessageSerializationError>)
    ensures
        r == pif_from(buffer@),
{
    if buffer.len() < 4 {
        return Err(MessageSerializationError::BufferTooSmall);
    }
    let power_source_state = match PowerSourceState::from_bits(get_word(buffer, 0)) {
        Some(s) => s,
        None => return Err(MessageSerializationError::InvalidPayload("Invalid PowerSourceState")),
    };
    if buffer.len() < PIF_OEM_INFO_END_IDX {
        return Err(MessageSerializationError::BufferTooSmall);
    }
    let model_number = get_string(buffer, PIF_MODEL_NUM_START_IDX);
    let serial_number = get_string(buffer, PIF_SERIAL_NUM_START_IDX);
    let oem_info = get_string(buffer, PIF_OEM_INFO_START_IDX);
    proof {
        lemma_fixed_string(model_number);
        lemma_fixed_string(serial_number);
        lemma_fixed_string(oem_info);
    }
    Ok(
        PifFixedStrings {
            power_source_state,
            max_output_power: get_word(buffer, 4),
            max_input_power: get_word(buffer, 8),
            model_number,
            serial_number,
            oem_info,
        },
    )
}

impl AcpiBatteryResponse {
    /// The 32-bit values of a response without strings (the first `n` of the array), in payload
    /// order.
    fn words(&self) -> (r: ([u32; 5], usize))
        requires
            !has_strings(*self),
        ensures
            r.1 == response_words(*self).len(),
            r.1 <= 5,
            r.0@.take(r.1 as int) == response_words(*self),
    {
        let r = match *self {
            AcpiBatteryResponse::GetBst { bst } => (
                [
                    bst.battery_state.bits(),
                    bst.battery_present_rate,
                    bst.battery_remaining_capacity,
                    bst.battery_present_voltage,
                    0,
                ],
                4,
            ),
            AcpiBatteryResponse::GetPsr { psr } => ([psr.power_source.value(), 0, 0, 0, 0], 1),
            AcpiBatteryResponse::GetBps { bps } => (
                [
                    bps.revision,
                    bps.instantaneous_peak_power_level,
                    bps.instantaneous_peak_power_period,
                    bps.sustainable_peak_power_level,
                    bps.sustainable_peak_power_period,
                ],
                5,
            ),
            AcpiBatteryResponse::GetBpc { bpc } => (
                [
                    bpc.revision,
                    bpc.power_threshold_support.bits(),
                    bpc.max_instantaneous_peak_power_threshold,
                    bpc.max_sustainable_peak_power_threshold,
                    0,
                ],
                4,
            ),
            AcpiBatteryResponse::GetBmd { bmd } => (
                [
                    bmd.status_flags.bits(),
                    bmd.capability_flags.bits(),
                    bmd.recalibrate_count,
                    bmd.quick_recalibrate_time,
                    bmd.slow_recalibrate_time,
                ],
                5,
            ),
            AcpiBatteryResponse::GetBct { bct_response } => ([bct_response.value(), 0, 0, 0, 0], 1),
            AcpiBatteryResponse::GetBtm { btm_response } => ([btm_response.value(), 0, 0, 0, 0], 1),
            AcpiBatteryResponse::SetBms { status } => ([status, 0, 0, 0, 0], 1),
            AcpiBatteryResponse::SetBma { status } => ([status, 0, 0, 0, 0], 1),
            AcpiBatteryResponse::GetSta { sta } => ([sta.bits(), 0, 0, 0, 0], 1),
            _ => ([0, 0, 0, 0, 0], 0),
        };
        assert(r.0@.take(r.1 as int) =~= response_words(*self));
        r
    }
}

impl SerializableMessage for AcpiBatteryResponse {
    fn serialize(self, buffer: &mut [u8]) -> (r: Result<usize, MessageSerializationError>)
        ensures
            r == response_serialize_result(self, old(buffer)@.len() as int),
            final(buffer)@ == response_written(self, old(buffer)@),
            r is Ok ==> final(buffer)@ == overwrite(old(buffer)@, 0, response_bytes(self)),
    {
        match self {
            AcpiBatteryResponse::GetBix { bix } => bix_to_bytes(bix, buffer),
            AcpiBatteryResponse::GetPif { pif } => pif_to_bytes(pif, buffer),
            _ => {
                let (words, n) = self.words();
                let r = put_dwords(buffer, &words, n);
                proof {
                    let ws = response_words(self);
                    assert(words@.take(n as int) == ws);
                    if r is Ok {
                        assert(ws.take(n as int) =~= ws);
                    }
                }
                r
            },
        }
    }

    fn deserialize(discriminant: u16, buffer: &[u8]) -> (r: Result<Self, MessageSerializationError>)
        ensures
            r == response_from(discriminant, buffer@),
    {
        let cmd = match BatteryCmd::from_value(discriminant) {
            Some(c) => c,
            None => return Err(MessageSerializationError::UnknownMessageDiscriminant(discriminant)),
        };
        match cmd {
            BatteryCmd::GetBix => match bix_from_bytes(buffer) {
                Ok(bix) => Ok(Self::GetBix { bix }),
                Err(e) => Err(e),
            },
            BatteryCmd::GetPif => match pif_from_bytes(buffer) {
                Ok(pif) => Ok(Self::GetPif { pif }),
                Err(e) => Err(e),
            },
            BatteryCmd::SetBtp => Ok(Self::SetBtp {  }),
            BatteryCmd::SetBpt => Ok(Self::SetBpt {  }),
            BatteryCmd::SetBmc => Ok(Self::SetBmc {  }),
            BatteryCmd::GetBst => {
                if buffer.len() < 4 {
                    return Err(MessageSerializationError::BufferTooSmall);
                }
                let battery_state = match BatteryState::from_bits(get_word(buffer, 0)) {
                    Some(s) => s,
                    None => return Err(MessageSerializationError::InvalidPayload("Invalid BatteryState")),
                };
                if buffer.len() < 16 {
                    return Err(MessageSerializationError::BufferTooSmall);
                }
                Ok(
                    Self::GetBst {
                        bst: BstReturn {
                            battery_state,
                            battery_present_rate: get_word(buffer, 4),
                            battery_remaining_capacity: get_word(buffer, 8),
                            battery_present_voltage: get_word(buffer, 12),
                        },
                    },
                )
            },
            BatteryCmd::GetPsr => {
                if buffer.len() < 4 {
                    return Err(MessageSerializationError::BufferTooSmall);
                }
                match power_source_from(get_word(buffer, 0)) {
                    Some(power_source) => Ok(Self::GetPsr { psr: PsrReturn { power_source } }),
                    None => Err(MessageSerializationError::InvalidPayload("Invalid PowerSource")),
                }
            },
            BatteryCmd::GetBps => {
                if buffer.len() < 20 {
                    return Err(MessageSerializationError::BufferTooSmall);
                }
                Ok(
                    Self::GetBps {
                        bps: Bps {
                            revision: get_word(buffer, 0),
                            instantaneous_peak_power_level: get_word(buffer, 4),
                            instantaneous_peak_power_period: get_word(buffer, 8),
                            sustainable_peak_power_level: get_word(buffer, 12),
                            sustainable_peak_power_period: get_word(buffer, 16),
                        },
                    },
                )
            },
            BatteryCmd::GetBpc => {
                if buffer.len() < 8 {
                    return Err(MessageSerializationError::BufferTooSmall);
                }
                let power_threshold_support = match PowerThresholdSupport::from_bits(get_word(buffer, 4)) {
                    Some(s) => s,
                    None => return Err(MessageSerializationError::InvalidPayload("Invalid BpcThresholdSupport")),
                };
                if buffer.len() < 16 {
                    return Err(MessageSerializationError::BufferTooSmall);
                }
                Ok(
                    Self::GetBpc {
                        bpc: Bpc {
                            revision: get_word(buffer, 0),
                            power_threshold_support,
                            max_instantaneous_peak_power_threshold: get_word(buffer, 8),
                            max_sustainable_peak_power_threshold: get_word(buffer, 12),
                        },
                    },
                )
            },
            BatteryCmd::GetBmd => {
                if buffer.len() < 4 {
                    return Err(MessageSerializationError::BufferTooSmall);
                }
                let status_flags = match BmdStatusFlags::from_bits(get_word(buffer, 0)) {
                    Some(s) => s,
                    None => return Err(MessageSerializationError::InvalidPayload("Invalid BmdStatusFlags")),
                };
                if buffer.len() < 8 {
                    return Err(MessageSerializationError::BufferTooSmall);
                }
                let capability_flags = match BmdCapabilityFlags::from_bits(get_word(buffer, 4)) {
                    Some(c) => c,
                    None => return Err(MessageSerializationError::InvalidPayload("Invalid BmdCapabilityFlags")),
                };
                if buffer.len() < 20 {
                    return Err(MessageSerializationError::BufferTooSmall);
                }
                Ok(
                    Self::GetBmd {
                        bmd: Bmd {
                            status_flags,
                            capability_flags,
                            recalibrate_count: get_word(buffer, 8),
                            quick_recalibrate_time: get_word(buffer, 12),
                            slow_recalibrate_time: get_word(buffer, 16),
                        },
                    },
                )
            },
            _ => {
                if buffer.len() < 4 {
                    return Err(MessageSerializationError::BufferTooSmall);
                }
                let w = get_word(buffer, 0);
                match cmd {
                    BatteryCmd::GetBct => Ok(Self::GetBct { bct_response: bct_result_from(w) }),
                    BatteryCmd::GetBtm => Ok(Self::GetBtm { btm_response: btm_result_from(w) }),
                    BatteryCmd::SetBms => Ok(Self::SetBms { status: w }),
                    BatteryCmd::SetBma => Ok(Self::SetBma { status: w }),
                    _ => match StaReturn::from_bits(w) {
                        Some(sta) => Ok(Self::GetSta { sta }),
                        None => Err(MessageSerializationError::InvalidPayload("Invalid STA flags")),
                    },
                }
            },
        }
    }

    fn discriminant(&self) -> (r: u16)
        ensures
            r == response_discriminant(*self),
    {
        BatteryCmd::from_response(self).value()
    }
}

/// The response holds only values that its payload can carry: its flag sets have no unknown bit
/// set. Every response built through this library does, as its flag types keep that invariant.
pub open spec fn response_wf(r: AcpiBatteryResponse) -> bool {
    match r {
        AcpiBatteryResponse::GetBst { bst } => bst.battery_state.spec_bits() < 16,
        AcpiBatteryResponse::GetPif { pif } => pif.power_source_state.spec_bits() < 4,
        AcpiBatteryResponse::GetBpc { bpc } => bpc.power_threshold_support.spec_bits() < 4,
        AcpiBatteryResponse::GetBmd { bmd } => bmd.status_flags.spec_bits() < 128 && bmd.capability_flags.spec_bits()
            < 64,
        AcpiBatteryResponse::GetSta { sta } => sta.spec_bits() < 32,
        _ => true,
    }
}

/// The response's time estimate, if it has one, is not a number that stands for another result
/// (0 or 0xFFFFFFFF).
pub open spec fn response_estimate_distinct(r: AcpiBatteryResponse) -> bool {
    match r {
        AcpiBatteryResponse::GetBct { bct_response: BctReturnResult::EstimatedTime(s) } => s != 0 && s
            != 0xFFFF_FFFF,
        AcpiBatteryResponse::GetBtm { btm_response: BtmReturnResult::EstimatedRuntime(s) } => s != 0 && s
            != 0xFFFF_FFFF,
        _ => true,
    }
}

/// Values written little-endian at the front of `b` read back from there.
proof fn lemma_words_read_back(ws: Seq<u32>, b: Seq<u8>)
    requires
        4 * ws.len() <= b.len(),
        b.subrange(0, 4 * (ws.len() as int)) == le32s(ws),
    ensures
        forall|j: int| 0 <= j < ws.len() ==> le32_at(b, 4 * j) == ws[j],
{
    lemma_le32s_len(ws);
    assert forall|j: int| 0 <= j < ws.len() implies le32_at(b, 4 * j) == ws[j] by {
        lemma_le32s_index(ws, j, 0);
        lemma_le32s_index(ws, j, 1);
        lemma_le32s_index(ws, j, 2);
        lemma_le32s_index(ws, j, 3);
        lemma_le32_roundtrip(ws[j]);
        assert(b[4 * j] == b.subrange(0, 4 * (ws.len() as int))[4 * j]);
        assert(b[4 * j + 1] == b.subrange(0, 4 * (ws.len() as int))[4 * j + 1]);
        assert(b[4 * j + 2] == b.subrange(0, 4 * (ws.len() as int))[4 * j + 2]);
        assert(b[4 * j + 3] == b.subrange(0, 4 * (ws.len() as int))[4 * j + 3]);
    }
}

/// An extended battery information record reads back as itself, whatever follows it.
proof fn lemma_bix_roundtrip(bix: BixFixedStrings, rest: Seq<u8>)
    ensures
        bix_from(bix_bytes(bix) + rest) == Ok::<BixFixedStrings, MessageSerializationError>(bix),
{
    let b = bix_bytes(bix) + rest;
    let ws = bix_words(bix);
    lemma_le32s_len(ws);
    let sw = swap_capability_value(bix.battery_swapping_capability);
    lemma_le32s_len(seq![sw]);
    assert(b.subrange(0, 64) =~= le32s(ws));
    lemma_words_read_back(ws, b);
    assert(le32_at(b, 4) == ws[1]);
    assert(le32_at(b, 16) == ws[4]);
    assert(b.subrange(64, 72) =~= bix.model_number@);
    assert(b.subrange(72, 80) =~= bix.serial_number@);
    assert(b.subrange(80, 88) =~= bix.battery_type@);
    assert(b.subrange(88, 96) =~= bix.oem_info@);
    assert(b.subrange(96, 100) =~= le32(sw));
    lemma_le32_roundtrip(sw);
    assert(le32_at(b, 96) == le32_at(b.subrange(96, 100), 0));
    lemma_fixed_string(bix.model_number);
    lemma_fixed_string(bix.serial_number);
    lemma_fixed_string(bix.battery_type);
    lemma_fixed_string(bix.oem_info);
    assert(bix_from(b)->Ok_0 == bix);
}

/// A power source information record reads back as itself, whatever follows it.
proof fn lemma_pif_roundtrip(pif: PifFixedStrings, rest: Seq<u8>)
    requires
        pif.power_source_state.spec_bits() < 4,
    ensures
        pif_from(pif_bytes(pif) + rest) == Ok::<PifFixedStrings, MessageSerializationError>(pif),
{
    let b = pif_bytes(pif) + rest;
    let ws = pif_words(pif);
    lemma_le32s_len(ws);
    assert(b.subrange(0, 12) =~= le32s(ws));
    lemma_words_read_back(ws, b);
    assert(le32_at(b, 0) == ws[0]);
    assert(b.subrange(12, 20) =~= pif.model_number@);
    assert(b.subrange(20, 28) =~= pif.serial_number@);
    assert(b.subrange(28, 36) =~= pif.oem_info@);
    lemma_fixed_string(pif.model_number);
    lemma_fixed_string(pif.serial_number);
    lemma_fixed_string(pif.oem_info);
    assert(pif_from(b)->Ok_0 == pif);
}

/// A serialized response reads back as itself, whatever follows the payload (for a charge time or
/// runtime estimate, as long as it is not a number that stands for another result).
pub proof fn lemma_response_roundtrip(r: AcpiBatteryResponse, rest: Seq<u8>)
    requires
        response_wf(r),
        response_estimate_distinct(r),
    ensures
        response_from(response_discriminant(r), response_bytes(r) + rest) == Ok::<
            AcpiBatteryResponse,
            MessageSerializationError,
        >(r),
{
    match r {
        AcpiBatteryResponse::GetBix { bix } => {
            lemma_bix_roundtrip(bix, rest);
        },
        AcpiBatteryResponse::GetPif { pif } => {
            lemma_pif_roundtrip(pif, rest);
        },
        _ => {
            let b = response_bytes(r) + rest;
            let ws = response_words(r);
            lemma_le32s_len(ws);
            assert(b.subrange(0, 4 * (ws.len() as int)) =~= le32s(ws));
            lemma_words_read_back(ws, b);
            if ws.len() > 0 {
                assert(le32_at(b, 0) == ws[0]);
            }
            if ws.len() > 1 {
                assert(le32_at(b, 4) == ws[1]);
            }
            if ws.len() > 2 {
                assert(le32_at(b, 8) == ws[2]);
            }
            if ws.len() > 3 {
                assert(le32_at(b, 12) == ws[3]);
            }
            if ws.len() > 4 {
                assert(le32_at(b, 16) == ws[4]);
            }
        },
    }
}

/// The four bytes at `4 * j` of the little-endian encoding of `ws` are those of `ws[j]`.
proof fn lemma_le32s_slot(ws: Seq<u32>, j: int)
    requires
        0 <= j < ws.len(),
    ensures
        le32s(ws).subrange(4 * j, 4 * j + 4) == le32(ws[j]),
{
    lemma_le32s_len(ws);
    lemma_le32s_index(ws, j, 0);
    lemma_le32s_index(ws, j, 1);
    lemma_le32s_index(ws, j, 2);
    lemma_le32s_index(ws, j, 3);
    assert(le32s(ws).subrange(4 * j, 4 * j + 4) =~= le32(ws[j]));
}

/// Every 32-bit slot of the encoding of `ws` holds its value.
proof fn lemma_le32s_slots(ws: Seq<u32>)
    ensures
        le32s(ws).len() == 4 * ws.len(),
        forall|j: int| 0 <= j < ws.len() ==> #[trigger] le32s(ws).subrange(4 * j, 4 * j + 4) == le32(ws[j]),
{
    lemma_le32s_len(ws);
    assert forall|j: int| 0 <= j < ws.len() implies #[trigger] le32s(ws).subrange(4 * j, 4 * j + 4) == le32(ws[j]) by {
        lemma_le32s_slot(ws, j);
    }
}

/// The payload of each response holds its fields little-endian at the offsets of the ACPI
/// method's return package, in order: for _BST the battery state at bytes 0..4, the present rate at
/// 4..8, the remaining capacity at 8..12 and the present voltage at 12..16; for _BIX its sixteen
/// values at 0..64, the model number, serial number, battery type and OEM strings at 64, 72, 80
/// and 88, and the swapping capability at 96..100; and likewise for the others. Enumerations travel
/// as their ACPI numbers.
pub proof fn lemma_response_layout(r: AcpiBatteryResponse)
    ensures
        ({
            let b = response_bytes(r);
            match r {
                AcpiBatteryResponse::GetBix { bix } => b.len() == 100 && b.subrange(0, 4) == le32(bix.revision) && b.subrange(4, 8) == le32((if bix.power_unit == PowerUnit::MilliAmps { 1u32 } else { 0u32 })) && b.subrange(8, 12) == le32(bix.design_capacity) && b.subrange(12, 16) == le32(bix.last_full_charge_capacity) && b.subrange(16, 20) == le32((if bix.battery_technology == BatteryTechnology::Secondary { 1u32 } else { 0u32 })) && b.subrange(20, 24) == le32(bix.design_voltage) && b.subrange(24, 28) == le32(bix.design_cap_of_warning) && b.subrange(28, 32) == le32(bix.design_cap_of_low) && b.subrange(32, 36) == le32(bix.cycle_count) && b.subrange(36, 40) == le32(bix.measurement_accuracy) && b.subrange(40, 44) == le32(bix.max_sampling_time) && b.subrange(44, 48) == le32(bix.min_sampling_time) && b.subrange(48, 52) == le32(bix.max_averaging_interval) && b.subrange(52, 56) == le32(bix.min_averaging_interval) && b.subrange(56, 60) == le32(bix.battery_capacity_granularity_1) && b.subrange(60, 64) == le32(bix.battery_capacity_granularity_2) && b.subrange(64, 72) == bix.model_number@ && b.subrange(72, 80) == bix.serial_number@ && b.subrange(80, 88) == bix.battery_type@ && b.subrange(88, 96) == bix.oem_info@ && b.subrange(96, 100) == le32((if bix.battery_swapping_capability == BatterySwapCapability::NonSwappable { 0u32 } else if bix.battery_swapping_capability == BatterySwapCapability::ColdSwappable { 1u32 } else { 2u32 })),
                AcpiBatteryResponse::GetBst { bst } => b.len() == 16 && b.subrange(0, 4) == le32(bst.battery_state.spec_bits()) && b.subrange(4, 8) == le32(bst.battery_present_rate) && b.subrange(8, 12) == le32(bst.battery_remaining_capacity) && b.subrange(12, 16) == le32(bst.battery_present_voltage),
                AcpiBatteryResponse::GetPsr { psr } => b.len() == 4 && b.subrange(0, 4) == le32((if psr.power_source == PowerSource::Online { 1u32 } else { 0u32 })),
                AcpiBatteryResponse::GetPif { pif } => b.len() == 36 && b.subrange(0, 4) == le32(pif.power_source_state.spec_bits()) && b.subrange(4, 8) == le32(pif.max_output_power) && b.subrange(8, 12) == le32(pif.max_input_power) && b.subrange(12, 20) == pif.model_number@ && b.subrange(20, 28) == pif.serial_number@ && b.subrange(28, 36) == pif.oem_info@,
                AcpiBatteryResponse::GetBps { bps } => b.len() == 20 && b.subrange(0, 4) == le32(bps.revision) && b.subrange(4, 8) == le32(bps.instantaneous_peak_power_level) && b.subrange(8, 12) == le32(bps.instantaneous_peak_power_period) && b.subrange(12, 16) == le32(bps.sustainable_peak_power_level) && b.subrange(16, 20) == le32(bps.sustainable_peak_power_period),
                AcpiBatteryResponse::GetBpc { bpc } => b.len() == 16 && b.subrange(0, 4) == le32(bpc.revision) && b.subrange(4, 8) == le32(bpc.power_threshold_support.spec_bits()) && b.subrange(8, 12) == le32(bpc.max_instantaneous_peak_power_threshold) && b.subrange(12, 16) == le32(bpc.max_sustainable_peak_power_threshold),
                AcpiBatteryResponse::GetBmd { bmd } => b.len() == 20 && b.subrange(0, 4) == le32(bmd.status_flags.spec_bits()) && b.subrange(4, 8) == le32(bmd.capability_flags.spec_bits()) && b.subrange(8, 12) == le32(bmd.recalibrate_count) && b.subrange(12, 16) == le32(bmd.quick_recalibrate_time) && b.subrange(16, 20) == le32(bmd.slow_recalibrate_time),
                AcpiBatteryResponse::GetBct { bct_response } => b.len() == 4 && b.subrange(0, 4) == le32(match bct_response { BctReturnResult::InvalidTarget => 0u32, BctReturnResult::EstimatedTime(t) => t, BctReturnResult::Unknown => 0xFFFF_FFFFu32 }),
                AcpiBatteryResponse::GetBtm { btm_response } => b.len() == 4 && b.subrange(0, 4) == le32(match btm_response { BtmReturnResult::RateTooHighOrBatteryCritical => 0u32, BtmReturnResult::EstimatedRuntime(t) => t, BtmReturnResult::Unknown => 0xFFFF_FFFFu32 }),
                AcpiBatteryResponse::SetBms { status } => b.len() == 4 && b.subrange(0, 4) == le32(status),
                AcpiBatteryResponse::SetBma { status } => b.len() == 4 && b.subrange(0, 4) == le32(status),
                AcpiBatteryResponse::GetSta { sta } => b.len() == 4 && b.subrange(0, 4) == le32(sta.spec_bits()),
                AcpiBatteryResponse::SetBtp {  } => b.len() == 0,
                AcpiBatteryResponse::SetBpt {  } => b.len() == 0,
                AcpiBatteryResponse::SetBmc {  } => b.len() == 0,
            }
        }),
{
    match r {
        AcpiBatteryResponse::GetBix { bix } => {
            let ws = bix_words(bix);
            let b = response_bytes(r);
            lemma_le32s_slots(ws);
            let sv = swap_capability_value(bix.battery_swapping_capability);
            lemma_le32s_slot(ws, 0);
            assert(b.subrange(0, 4) =~= le32s(ws).subrange(0, 4));
            lemma_le32s_slot(ws, 1);
            assert(b.subrange(4, 8) =~= le32s(ws).subrange(4, 8));
            lemma_le32s_slot(ws, 2);
            assert(b.subrange(8, 12) =~= le32s(ws).subrange(8, 12));
            lemma_le32s_slot(ws, 3);
            assert(b.subrange(12, 16) =~= le32s(ws).subrange(12, 16));
            lemma_le32s_slot(ws, 4);
            assert(b.subrange(16, 20) =~= le32s(ws).subrange(16, 20));
            lemma_le32s_slot(ws, 5);
            assert(b.subrange(20, 24) =~= le32s(ws).subrange(20, 24));
            lemma_le32s_slot(ws, 6);
            assert(b.subrange(24, 28) =~= le32s(ws).subrange(24, 28));
            lemma_le32s_slot(ws, 7);
            assert(b.subrange(28, 32) =~= le32s(ws).subrange(28, 32));
            lemma_le32s_slot(ws, 8);
            assert(b.subrange(32, 36) =~= le32s(ws).subrange(32, 36));
            lemma_le32s_slot(ws, 9);
            assert(b.subrange(36, 40) =~= le32s(ws).subrange(36, 40));
            lemma_le32s_slot(ws, 10);
            assert(b.subrange(40, 44) =~= le32s(ws).subrange(40, 44));
            lemma_le32s_slot(ws, 11);
            assert(b.subrange(44, 48) =~= le32s(ws).subrange(44, 48));
            lemma_le32s_slot(ws, 12);
            assert(b.subrange(48, 52) =~= le32s(ws).subrange(48, 52));
            lemma_le32s_slot(ws, 13);
            assert(b.subrange(52, 56) =~= le32s(ws).subrange(52, 56));
            lemma_le32s_slot(ws, 14);
            assert(b.subrange(56, 60) =~= le32s(ws).subrange(56, 60));
            lemma_le32s_slot(ws, 15);
            assert(b.subrange(60, 64) =~= le32s(ws).subrange(60, 64));
            assert(b.subrange(64, 72) =~= bix.model_number@);
            assert(b.subrange(72, 80) =~= bix.serial_number@);
            assert(b.subrange(80, 88) =~= bix.battery_type@);
            assert(b.subrange(88, 96) =~= bix.oem_info@);
            assert(b.subrange(96, 100) =~= le32(sv));
        },
        AcpiBatteryResponse::GetPif { pif } => {
            let ws = pif_words(pif);
            let b = response_bytes(r);
            lemma_le32s_slots(ws);
            lemma_le32s_slot(ws, 0);
            assert(b.subrange(0, 4) =~= le32s(ws).subrange(0, 4));
            lemma_le32s_slot(ws, 1);
            assert(b.subrange(4, 8) =~= le32s(ws).subrange(4, 8));
            lemma_le32s_slot(ws, 2);
            assert(b.subrange(8, 12) =~= le32s(ws).subrange(8, 12));
            assert(b.subrange(12, 20) =~= pif.model_number@);
            assert(b.subrange(20, 28) =~= pif.serial_number@);
            assert(b.subrange(28, 36) =~= pif.oem_info@);
        },
        _ => {
            let ws = response_words(r);
            lemma_le32s_slots(ws);
            if ws.len() > 0 {
                lemma_le32s_slot(ws, 0);
            }
            if ws.len() > 1 {
                lemma_le32s_slot(ws, 1);
            }
            if ws.len() > 2 {
                lemma_le32s_slot(ws, 2);
            }
            if ws.len() > 3 {
                lemma_le32s_slot(ws, 3);
            }
            if ws.len() > 4 {
                lemma_le32s_slot(ws, 4);
            }
        },
    }
}

/// The payload of each request holds the battery ID in byte 0 and then the request's arguments
/// little-endian, in the order of the ACPI method's arguments: a trip point, charge level,
/// discharge rate, maintenance flags, sampling time or averaging interval at bytes 1..5, and for
/// _BPT the revision at 1..5, the threshold ID (as its ACPI number) at 5..9 and the threshold value
/// at 9..13.
pub proof fn lemma_request_layout(r: AcpiBatteryRequest)
    ensures
        ({
            let b = request_bytes(r);
            match r {
                AcpiBatteryRequest::GetBix { battery_id } => b.len() == 1 && b[0] == battery_id,
                AcpiBatteryRequest::GetBst { battery_id } => b.len() == 1 && b[0] == battery_id,
                AcpiBatteryRequest::GetPsr { battery_id } => b.len() == 1 && b[0] == battery_id,
                AcpiBatteryRequest::GetPif { battery_id } => b.len() == 1 && b[0] == battery_id,
                AcpiBatteryRequest::GetBps { battery_id } => b.len() == 1 && b[0] == battery_id,
                AcpiBatteryRequest::GetBpc { battery_id } => b.len() == 1 && b[0] == battery_id,
                AcpiBatteryRequest::GetBmd { battery_id } => b.len() == 1 && b[0] == battery_id,
                AcpiBatteryRequest::GetSta { battery_id } => b.len() == 1 && b[0] == battery_id,
                AcpiBatteryRequest::SetBtp { battery_id, btp } => b.len() == 5 && b[0] == battery_id && b.subrange(1, 5) == le32(btp.trip_point),
                AcpiBatteryRequest::SetBmc { battery_id, bmc } => b.len() == 5 && b[0] == battery_id && b.subrange(1, 5) == le32(bmc.maintenance_control_flags),
                AcpiBatteryRequest::GetBct { battery_id, bct } => b.len() == 5 && b[0] == battery_id && b.subrange(1, 5) == le32(bct.charge_level_percent),
                AcpiBatteryRequest::GetBtm { battery_id, btm } => b.len() == 5 && b[0] == battery_id && b.subrange(1, 5) == le32(btm.discharge_rate),
                AcpiBatteryRequest::SetBms { battery_id, bms } => b.len() == 5 && b[0] == battery_id && b.subrange(1, 5) == le32(bms.sampling_time_ms),
                AcpiBatteryRequest::SetBma { battery_id, bma } => b.len() == 5 && b[0] == battery_id && b.subrange(1, 5) == le32(bma.averaging_interval_ms),
                AcpiBatteryRequest::SetBpt { battery_id, bpt } => b.len() == 13 && b[0] == battery_id && b.subrange(1, 5) == le32(bpt.revision) && b.subrange(5, 9) == le32(match bpt.threshold_id { ThresholdId::ClearAll => 0u32, ThresholdId::InstantaneousPeakPower => 1u32, ThresholdId::SustainablePeakPower => 2u32 }) && b.subrange(9, 13) == le32(bpt.threshold_value),
            }
        }),
{
    let ws = request_words(r);
    let b = request_bytes(r);
    lemma_le32s_len(ws);
    let e = le32s(ws);
    if ws.len() > 0 {
        lemma_le32s_slot(ws, 0);
        assert(b.subrange(1, 5) =~= e.subrange(0, 4));
    }
    if ws.len() > 2 {
        lemma_le32s_slot(ws, 1);
        lemma_le32s_slot(ws, 2);
        assert(b.subrange(5, 9) =~= e.subrange(4, 8));
        assert(b.subrange(9, 13) =~= e.subrange(8, 12));
    }
}

/// ACPI battery methods are numbered in the order of the ACPI battery control methods: _BIX 1,
/// _BST 2, _PSR 3, _PIF 4, _BPS 5, _BTP 6, _BPT 7, _BPC 8, _BMC 9, _BMD 10, _BCT 11, _BTM 12,
/// _BMS 13, _BMA 14, _STA 15; a request and the response to it carry the same number.
pub proof fn lemma_method_numbering(request: AcpiBatteryRequest, response: AcpiBatteryResponse)
    ensures
        match request {
            AcpiBatteryRequest::GetBix { .. } => request_discriminant(request) == 1,
            AcpiBatteryRequest::GetBst { .. } => request_discriminant(request) == 2,
            AcpiBatteryRequest::GetPsr { .. } => request_discriminant(request) == 3,
            AcpiBatteryRequest::GetPif { .. } => request_discriminant(request) == 4,
            AcpiBatteryRequest::GetBps { .. } => request_discriminant(request) == 5,
            AcpiBatteryRequest::SetBtp { .. } => request_discriminant(request) == 6,
            AcpiBatteryRequest::SetBpt { .. } => request_discriminant(request) == 7,
            AcpiBatteryRequest::GetBpc { .. } => request_discriminant(request) == 8,
            AcpiBatteryRequest::SetBmc { .. } => request_discriminant(request) == 9,
            AcpiBatteryRequest::GetBmd { .. } => request_discriminant(request) == 10,
            AcpiBatteryRequest::GetBct { .. } => request_discriminant(request) == 11,
            AcpiBatteryRequest::GetBtm { .. } => request_discriminant(request) == 12,
            AcpiBatteryRequest::SetBms { .. } => request_discriminant(request) == 13,
            AcpiBatteryRequest::SetBma { .. } => request_discriminant(request) == 14,
            AcpiBatteryRequest::GetSta { .. } => request_discriminant(request) == 15,
        },
        match response {
            AcpiBatteryResponse::GetBix { .. } => response_discriminant(response) == 1,
            AcpiBatteryResponse::GetBst { .. } => response_discriminant(response) == 2,
            AcpiBatteryResponse::GetPsr { .. } => response_discriminant(response) == 3,
            AcpiBatteryResponse::GetPif { .. } => response_discriminant(response) == 4,
            AcpiBatteryResponse::GetBps { .. } => response_discriminant(response) == 5,
            AcpiBatteryResponse::SetBtp { .. } => response_discriminant(response) == 6,
            AcpiBatteryResponse::SetBpt { .. } => response_discriminant(response) == 7,
            AcpiBatteryResponse::GetBpc { .. } => response_discriminant(response) == 8,
            AcpiBatteryResponse::SetBmc { .. } => response_discriminant(response) == 9,
            AcpiBatteryResponse::GetBmd { .. } => response_discriminant(response) == 10,
            AcpiBatteryResponse::GetBct { .. } => response_discriminant(response) == 11,
            AcpiBatteryResponse::GetBtm { .. } => response_discriminant(response) == 12,
            AcpiBatteryResponse::SetBms { .. } => response_discriminant(response) == 13,
            AcpiBatteryResponse::SetBma { .. } => response_discriminant(response) == 14,
            AcpiBatteryResponse::GetSta { .. } => response_discriminant(response) == 15,
        },
{
}

/// Errors that can occur while processing ACPI battery requests.
#[derive(Copy, Clone, Debug, PartialEq, Eq, Structural)]
pub enum AcpiBatteryError {
    /// The provided battery ID does not correspond to any known battery device.
    UnknownDeviceId,
    /// An unspecified error occurred while processing the request.
    UnspecifiedFailure,
}

/// The discriminant of an error: 1 for an unknown device ID, 2 for an unspecified failure.
pub open spec fn error_discriminant(e: AcpiBatteryError) -> u16 {
    match e {
        AcpiBatteryError::UnknownDeviceId => 1,
        AcpiBatteryError::UnspecifiedFailure => 2,
    }
}

impl SerializableMessage for AcpiBatteryError {
    fn serialize(self, buffer: &mut [u8]) -> (r: Result<usize, MessageSerializationError>)
        ensures
            r == Ok::<usize, MessageSerializationError>(0),
            final(buffer)@ == old(buffer)@,
    {
        match self {
            AcpiBatteryError::UnknownDeviceId | AcpiBatteryError::UnspecifiedFailure => Ok(0),
        }
    }

    fn deserialize(discriminant: u16, buffer: &[u8]) -> (r: Result<Self, MessageSerializationError>)
        ensures
            discriminant == 1 ==> r == Ok::<AcpiBatteryError, MessageSerializationError>(
                AcpiBatteryError::UnknownDeviceId,
            ),
            discriminant == 2 ==> r == Ok::<AcpiBatteryError, MessageSerializationError>(
                AcpiBatteryError::UnspecifiedFailure,
            ),
            discriminant != 1 && discriminant != 2 ==> r == Err::<AcpiBatteryError, MessageSerializationError>(
                MessageSerializationError::UnknownMessageDiscriminant(discriminant),
            ),
    {
        match discriminant {
            1 => Ok(AcpiBatteryError::UnknownDeviceId),
            2 => Ok(AcpiBatteryError::UnspecifiedFailure),
            _ => Err(MessageSerializationError::UnknownMessageDiscriminant(discriminant)),
        }
    }

    fn discriminant(&self) -> (r: u16)
        ensures
            r == error_discriminant(*self),
    {
        match self {
            AcpiBatteryError::UnknownDeviceId => 1,
            AcpiBatteryError::UnspecifiedFailure => 2,
        }
    }
}

} // verus!
