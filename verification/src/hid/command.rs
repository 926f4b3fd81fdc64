//! Data structures and code for handling HID commands
//!
//! A command goes to the device as a 16-bit command word: bits 0 to 3 hold the report ID (or
//! [`EXTENDED_REPORT_ID`], with the ID in the byte after the word), bits 4 and 5 the report type,
//! bits 8 to 11 the opcode and, for `SetPower`, bits 0 and 1 the power state.
use vstd::prelude::*;

use super::{le16, le16_value, lemma_overwrite_concat, overwrite, put_le16, Error, ReportId};

verus! {

/// HID report types
#[derive(Clone, Copy, Debug, PartialEq, Eq, Structural)]
pub enum ReportType {
    /// Input report
    Input,
    /// Output report
    Output,
    /// Feature report
    Feature,
}

/// Size of a command with an extended report ID
const EXTENDED_REPORT_CMD_LEN: usize = 3;

/// Size of a command with a standard report ID
const STANDARD_REPORT_CMD_LEN: usize = 2;

/// Size of a command with no additional data
const BASIC_CMD_LEN: usize = 2;

/// Size of a register value
const REGISTER_LEN: usize = 2;

/// Size of a 16-bit value prefixed with a length
const LENGTH_VALUE_LEN: usize = 4;

/// The report type field of a command word.
pub open spec fn report_type_value(t: ReportType) -> u16 {
    match t {
        ReportType::Input => 0x10,
        ReportType::Output => 0x20,
        ReportType::Feature => 0x30,
    }
}

/// The report type that bits 4 and 5 of `value` name.
pub open spec fn report_type_from(value: u16) -> Result<ReportType, Error> {
    let f = (value / 16) % 4;
    if f == 1 {
        Ok(ReportType::Input)
    } else if f == 2 {
        Ok(ReportType::Output)
    } else if f == 3 {
        Ok(ReportType::Feature)
    } else {
        Err(Error::Serialize)
    }
}

impl TryFrom<u16> for ReportType {
    type Error = Error;

    fn try_from(value: u16) -> (r: Result<Self, Self::Error>)
        ensures
            r == report_type_from(value),
    {
        match (value / 16) % 4 {
            1 => Ok(ReportType::Input),
            2 => Ok(ReportType::Output),
            3 => Ok(ReportType::Feature),
            _ => Err(Error::Serialize),
        }
    }
}

impl vstd::std_specs::convert::TryFromSpecImpl<u16> for ReportType {
    open spec fn obeys_try_from_spec() -> bool {
        true
    }

    open spec fn try_from_spec(value: u16) -> Result<Self, Error> {
        report_type_from(value)
    }
}

impl From<ReportType> for u16 {
    fn from(t: ReportType) -> (r: u16)
        ensures
            r == report_type_value(t),
    {
        match t {
            ReportType::Input => 0x10,
            ReportType::Output => 0x20,
            ReportType::Feature => 0x30,
        }
    }
}

impl vstd::std_specs::convert::FromSpecImpl<ReportType> for u16 {
    open spec fn obeys_from_spec() -> bool {
        true
    }

    open spec fn from_spec(t: ReportType) -> u16 {
        report_type_value(t)
    }
}

/// Power state
#[derive(Clone, Copy, Debug, PartialEq, Eq, Structural)]
pub enum PowerState {
    /// On
    On,
    /// Sleep
    Sleep,
}

/// The power state field of a `SetPower` command word.
pub open spec fn power_state_value(s: PowerState) -> u16 {
    match s {
        PowerState::On => 0,
        PowerState::Sleep => 1,
    }
}

/// The power state that bits 0 and 1 of `value` name.
pub open spec fn power_state_from(value: u16) -> Result<PowerState, Error> {
    if value % 4 == 0 {
        Ok(PowerState::On)
    } else if value % 4 == 1 {
        Ok(PowerState::Sleep)
    } else {
        Err(Error::Serialize)
    }
}

impl TryFrom<u16> for PowerState {
    type Error = Error;

    fn try_from(value: u16) -> (r: Result<Self, Self::Error>)
        ensures
            r == power_state_from(value),
    {
        match value % 4 {
            0 => Ok(PowerState::On),
            1 => Ok(PowerState::Sleep),
            _ => Err(Error::Serialize),
        }
    }
}

impl vstd::std_specs::convert::TryFromSpecImpl<u16> for PowerState {
    open spec fn obeys_try_from_spec() -> bool {
        true
    }

    open spec fn try_from_spec(value: u16) -> Result<Self, Error> {
        power_state_from(value)
    }
}

impl From<PowerState> for u16 {
    fn from(s: PowerState) -> (r: u16)
        ensures
            r == power_state_value(s),
    {
        match s {
            PowerState::On => 0,
            PowerState::Sleep => 1,
        }
    }
}

impl vstd::std_specs::convert::FromSpecImpl<PowerState> for u16 {
    open spec fn obeys_from_spec() -> bool {
        true
    }

    open spec fn from_spec(s: PowerState) -> u16 {
        power_state_value(s)
    }
}

/// Report frequency, see spec for more details
#[derive(Clone, Copy, Debug, PartialEq, Eq, Structural)]
#[allow(missing_docs)]
pub enum ReportFreq {
    Infinite,
    Msecs(u16),
}

/// The 16-bit value of a report frequency: zero for `Infinite`.
pub open spec fn report_freq_value(f: ReportFreq) -> u16 {
    match f {
        ReportFreq::Infinite => 0,
        ReportFreq::Msecs(v) => v,
    }
}

/// The report frequency that `value` stands for.
pub open spec fn report_freq_from(value: u16) -> ReportFreq {
    if value == 0 {
        ReportFreq::Infinite
    } else {
        ReportFreq::Msecs(value)
    }
}

impl TryFrom<u16> for ReportFreq {
    type Error = Error;

    fn try_from(value: u16) -> (r: Result<Self, Self::Error>)
        ensures
            r == Ok::<ReportFreq, Error>(report_freq_from(value)),
    {
        match value {
            0 => Ok(ReportFreq::Infinite),
            _ => Ok(ReportFreq::Msecs(value)),
        }
    }
}

impl vstd::std_specs::convert::TryFromSpecImpl<u16> for ReportFreq {
    open spec fn obeys_try_from_spec() -> bool {
        true
    }

    open spec fn try_from_spec(value: u16) -> Result<Self, Error> {
        Ok(report_freq_from(value))
    }
}

impl From<ReportFreq> for u16 {
    fn from(f: ReportFreq) -> (r: u16)
        ensures
            r == report_freq_value(f),
    {
        match f {
            ReportFreq::Infinite => 0,
            ReportFreq::Msecs(value) => value,
        }
    }
}

impl vstd::std_specs::convert::FromSpecImpl<ReportFreq> for u16 {
    open spec fn obeys_from_spec() -> bool {
        true
    }

    open spec fn from_spec(f: ReportFreq) -> u16 {
        report_freq_value(f)
    }
}

/// HID device protocol, see spec for more details
#[derive(Clone, Copy, Debug, PartialEq, Eq, Structural)]
#[allow(missing_docs)]
pub enum Protocol {
    Boot,
    Report,
}

/// The 16-bit value of a protocol.
pub open spec fn protocol_value(p: Protocol) -> u16 {
    match p {
        Protocol::Boot => 0,
        Protocol::Report => 1,
    }
}

/// The protocol that `value` stands for.
pub open spec fn protocol_from(value: u16) -> Result<Protocol, Error> {
    if value == 0 {
        Ok(Protocol::Boot)
    } else if value == 1 {
        Ok(Protocol::Report)
    } else {
        Err(Error::Serialize)
    }
}

impl TryFrom<u16> for Protocol {
    type Error = Error;

    fn try_from(value: u16) -> (r: Result<Self, Self::Error>)
        ensures
            r == protocol_from(value),
    {
        match value {
            0 => Ok(Protocol::Boot),
            1 => Ok(Protocol::Report),
            _ => Err(Error::Serialize),
        }
    }
}

impl vstd::std_specs::convert::TryFromSpecImpl<u16> for Protocol {
    open spec fn obeys_try_from_spec() -> bool {
        true
    }

    open spec fn try_from_spec(value: u16) -> Result<Self, Error> {
        protocol_from(value)
    }
}

impl From<Protocol> for u16 {
    fn from(p: Protocol) -> (r: u16)
        ensures
            r == protocol_value(p),
    {
        match p {
            Protocol::Boot => 0,
            Protocol::Report => 1,
        }
    }
}

impl vstd::std_specs::convert::FromSpecImpl<Protocol> for u16 {
    open spec fn obeys_from_spec() -> bool {
        true
    }

    open spec fn from_spec(p: Protocol) -> u16 {
        protocol_value(p)
    }
}

/// Command opcodes, see spec for more details
#[derive(Clone, Copy, Debug, PartialEq, Eq, Structural)]
#[allow(missing_docs)]
pub enum Opcode {
    Reset,
    GetReport,
    SetReport,
    GetIdle,
    SetIdle,
    GetProtocol,
    SetProtocol,
    SetPower,
    Vendor,
}

/// The opcode number (bits 8 to 11 of the command word).
pub open spec fn opcode_number(op: Opcode) -> u16 {
    match op {
        Opcode::Reset => 0x01,
        Opcode::GetReport => 0x02,
        Opcode::SetReport => 0x03,
        Opcode::GetIdle => 0x04,
        Opcode::SetIdle => 0x05,
        Opcode::GetProtocol => 0x06,
        Opcode::SetProtocol => 0x07,
        Opcode::SetPower => 0x08,
        Opcode::Vendor => 0x0e,
    }
}

/// The opcode field of a command word.
pub open spec fn opcode_value(op: Opcode) -> u16 {
    (opcode_number(op) * 256) as u16
}

/// The opcode that bits 8 to 11 of `value` name.
pub open spec fn opcode_from(value: u16) -> Result<Opcode, Error> {
    let n = (value / 256) % 16;
    if n == 0x01 {
        Ok(Opcode::Reset)
    } else if n == 0x02 {
        Ok(Opcode::GetReport)
    } else if n == 0x03 {
        Ok(Opcode::SetReport)
    } else if n == 0x04 {
        Ok(Opcode::GetIdle)
    } else if n == 0x05 {
        Ok(Opcode::SetIdle)
    } else if n == 0x06 {
        Ok(Opcode::GetProtocol)
    } else if n == 0x07 {
        Ok(Opcode::SetProtocol)
    } else if n == 0x08 {
        Ok(Opcode::SetPower)
    } else if n == 0x0e {
        Ok(Opcode::Vendor)
    } else {
        Err(Error::Serialize)
    }
}

impl TryFrom<u16> for Opcode {
    type Error = Error;

    fn try_from(value: u16) -> (r: Result<Self, Self::Error>)
        ensures
            r == opcode_from(value),
    {
        match (value / 256) % 16 {
            0x01 => Ok(Opcode::Reset),
            0x02 => Ok(Opcode::GetReport),
            0x03 => Ok(Opcode::SetReport),
            0x04 => Ok(Opcode::GetIdle),
            0x05 => Ok(Opcode::SetIdle),
            0x06 => Ok(Opcode::GetProtocol),
            0x07 => Ok(Opcode::SetProtocol),
            0x08 => Ok(Opcode::SetPower),
            0x0e => Ok(Opcode::Vendor),
            _ => Err(Error::Serialize),
        }
    }
}

impl vstd::std_specs::convert::TryFromSpecImpl<u16> for Opcode {
    open spec fn obeys_try_from_spec() -> bool {
        true
    }

    open spec fn try_from_spec(value: u16) -> Result<Self, Error> {
        opcode_from(value)
    }
}

impl From<Opcode> for u16 {
    fn from(op: Opcode) -> (r: u16)
        ensures
            r == opcode_value(op),
    {
        match op {
            Opcode::Reset => 0x0100,
            Opcode::GetReport => 0x0200,
            Opcode::SetReport => 0x0300,
            Opcode::GetIdle => 0x0400,
            Opcode::SetIdle => 0x0500,
            Opcode::GetProtocol => 0x0600,
            Opcode::SetProtocol => 0x0700,
            Opcode::SetPower => 0x0800,
            Opcode::Vendor => 0x0e00,
        }
    }
}

impl vstd::std_specs::convert::FromSpecImpl<Opcode> for u16 {
    open spec fn obeys_from_spec() -> bool {
        true
    }

    open spec fn from_spec(op: Opcode) -> u16 {
        opcode_value(op)
    }
}

impl Opcode {
    /// Return true if the command has data to read from the host
    pub fn requires_host_data(&self) -> (r: bool)
        ensures
            r == (*self == Opcode::SetReport || *self == Opcode::SetIdle || *self == Opcode::Vendor),
    {
        match self {
            Opcode::SetReport | Opcode::SetIdle | Opcode::Vendor => true,
            _ => false,
        }
    }

    /// Return true if the command requires a report ID
    pub fn requires_report_id(&self) -> (r: bool)
        ensures
            r == (*self == Opcode::GetReport || *self == Opcode::SetReport || *self == Opcode::GetIdle
                || *self == Opcode::SetIdle),
    {
        match self {
            Opcode::GetReport | Opcode::SetReport | Opcode::GetIdle | Opcode::SetIdle => true,
            _ => false,
        }
    }

    /// Return true if the command has a response read from the data register
    pub fn has_response(&self) -> (r: bool)
        ensures
            r == (*self == Opcode::GetReport || *self == Opcode::GetIdle || *self == Opcode::GetProtocol),
    {
        match self {
            Opcode::GetReport | Opcode::GetIdle | Opcode::GetProtocol => true,
            _ => false,
        }
    }
}

/// Host to device commands, see spec for more details
#[derive(Clone, Copy, Debug)]
#[allow(missing_docs)]
pub enum Command<'a> {
    Reset,
    GetReport(ReportType, ReportId),
    SetReport(ReportType, ReportId, &'a [u8]),
    GetIdle(ReportId),
    SetIdle(ReportId, ReportFreq),
    GetProtocol,
    SetProtocol(Protocol),
    SetPower(PowerState),
    Vendor,
}

/// The opcode of a command.
pub open spec fn command_opcode(c: Command) -> Opcode {
    match c {
        Command::Reset => Opcode::Reset,
        Command::GetReport(_, _) => Opcode::GetReport,
        Command::SetReport(_, _, _) => Opcode::SetReport,
        Command::GetIdle(_) => Opcode::GetIdle,
        Command::SetIdle(_, _) => Opcode::SetIdle,
        Command::GetProtocol => Opcode::GetProtocol,
        Command::SetProtocol(_) => Opcode::SetProtocol,
        Command::SetPower(_) => Opcode::SetPower,
        Command::Vendor => Opcode::Vendor,
    }
}

impl<'a> From<Command<'a>> for Opcode {
    fn from(c: Command<'a>) -> (r: Opcode)
        ensures
            r == command_opcode(c),
    {
        match c {
            Command::Reset => Opcode::Reset,
            Command::GetReport(_, _) => Opcode::GetReport,
            Command::SetReport(_, _, _) => Opcode::SetReport,
            Command::GetIdle(_) => Opcode::GetIdle,
            Command::SetIdle(_, _) => Opcode::SetIdle,
            Command::GetProtocol => Opcode::GetProtocol,
            Command::SetProtocol(_) => Opcode::SetProtocol,
            Command::SetPower(_) => Opcode::SetPower,
            Command::Vendor => Opcode::Vendor,
        }
    }
}

impl<'a> vstd::std_specs::convert::FromSpecImpl<Command<'a>> for Opcode {
    open spec fn obeys_from_spec() -> bool {
        true
    }

    open spec fn from_spec(c: Command<'a>) -> Opcode {
        command_opcode(c)
    }
}

impl<'a, 'b> From<&'b Command<'a>> for Opcode {
    fn from(c: &'b Command<'a>) -> (r: Opcode)
        ensures
            r == command_opcode(*c),
    {
        Opcode::from(*c)
    }
}

impl<'a, 'b> vstd::std_specs::convert::FromSpecImpl<&'b Command<'a>> for Opcode {
    open spec fn obeys_from_spec() -> bool {
        true
    }

    open spec fn from_spec(c: &'b Command<'a>) -> Opcode {
        command_opcode(*c)
    }
}

/// Device command response, GetReport uses the standard report responses
#[derive(Clone, Copy, Debug, PartialEq, Eq, Structural)]
pub enum CommandResponse {
    /// Get idle response
    GetIdle(ReportFreq),
    /// Get protocol response
    GetProtocol(Protocol),
    /// Vendor specific response
    Vendor,
}

/// Value for extended report ID
pub const EXTENDED_REPORT_ID: u8 = 0xf;

impl ReportId {
    /// Get report ID from command
    pub fn from_command(cmd: u16) -> (r: ReportId)
        ensures
            r == ReportId((cmd % 16) as u8),
    {
        ReportId((cmd % 16) as u8)
    }

    /// Check if the command has extended report ID
    pub fn has_extended_report_id(cmd: u16) -> (r: bool)
        ensures
            r == (cmd % 16 == EXTENDED_REPORT_ID),
    {
        Self::from_command(cmd).0 == EXTENDED_REPORT_ID
    }
}

/// What [`Command::new`] makes of its arguments.
pub open spec fn command_new_result<'a>(
    cmd: u16,
    opcode: Opcode,
    report_type: Option<ReportType>,
    report_id: Option<ReportId>,
    data: Option<&'a [u8]>,
) -> Result<Command<'a>, Error> {
    let needs_id = opcode == Opcode::GetReport || opcode == Opcode::SetReport || opcode == Opcode::GetIdle
        || opcode == Opcode::SetIdle;
    if needs_id && report_id is None {
        Err(Error::RequiresReportId)
    } else if (opcode == Opcode::SetReport || opcode == Opcode::SetIdle) && data is None {
        Err(Error::RequiresData)
    } else {
        match (opcode, report_id, report_type, data) {
            (Opcode::Reset, _, _, _) => Ok(Command::Reset),
            (Opcode::GetReport, Some(id), Some(t), _) => if t == ReportType::Input || t == ReportType::Feature {
                Ok(Command::GetReport(t, id))
            } else {
                Err(Error::InvalidReportType)
            },
            (Opcode::GetReport, _, _, _) => Err(Error::InvalidReportType),
            (Opcode::SetReport, Some(id), Some(t), Some(d)) => if t == ReportType::Output || t
                == ReportType::Feature {
                Ok(Command::SetReport(t, id, d))
            } else {
                Err(Error::InvalidReportType)
            },
            (Opcode::SetReport, _, _, _) => Err(Error::InvalidReportType),
            (Opcode::GetIdle, Some(id), _, _) => Ok(Command::GetIdle(id)),
            (Opcode::SetIdle, Some(id), _, _) => Ok(Command::SetIdle(id, report_freq_from(cmd))),
            (Opcode::GetProtocol, _, _, _) => Ok(Command::GetProtocol),
            (Opcode::SetProtocol, _, _, _) => match protocol_from(cmd) {
                Ok(p) => Ok(Command::SetProtocol(p)),
                Err(_) => Err(Error::InvalidData),
            },
            (Opcode::SetPower, _, _, _) => match power_state_from(cmd) {
                Ok(s) => Ok(Command::SetPower(s)),
                Err(_) => Err(Error::InvalidData),
            },
            (Opcode::Vendor, _, _, _) => Ok(Command::Vendor),
            _ => Err(Error::InvalidCommand),
        }
    }
}

/// The bytes of a register address, or none where there is no register.
pub open spec fn register_piece(reg: Option<u16>) -> Seq<u8> {
    match reg {
        Some(r) => le16(r),
        None => Seq::empty(),
    }
}

/// A command word: the opcode, the report type where there is one, and `low` in bits 0 to 3.
pub open spec fn command_word(op: Opcode, rt: Option<ReportType>, low: int) -> u16 {
    let t: int = match rt {
        Some(t) => report_type_value(t) as int,
        None => 0,
    };
    (opcode_value(op) + t + low) as u16
}

/// The command word of a command that names a report: the ID in bits 0 to 3, or
/// [`EXTENDED_REPORT_ID`] there and the ID in the byte that follows.
pub open spec fn report_piece(op: Opcode, rt: Option<ReportType>, id: ReportId) -> Seq<u8> {
    if id.0 >= EXTENDED_REPORT_ID {
        le16(command_word(op, rt, EXTENDED_REPORT_ID as int)).push(id.0)
    } else {
        le16(command_word(op, rt, id.0 as int))
    }
}

/// A 16-bit value, prefixed by the length of the two (4).
pub open spec fn value_piece(v: u16) -> Seq<u8> {
    le16(4) + le16(v)
}

/// Report data, prefixed by its length plus the two bytes of the length itself.
pub open spec fn data_piece(data: Seq<u8>) -> Seq<u8> {
    le16((data.len() + 2) as u16) + data
}

/// The bytes of the command word (with the extended report ID where there is one).
pub open spec fn word_piece(c: Command) -> Seq<u8> {
    match c {
        Command::GetReport(t, id) => report_piece(Opcode::GetReport, Some(t), id),
        Command::SetReport(t, id, _) => report_piece(Opcode::SetReport, Some(t), id),
        Command::GetIdle(id) => report_piece(Opcode::GetIdle, None, id),
        Command::SetIdle(id, _) => report_piece(Opcode::SetIdle, None, id),
        Command::SetPower(s) => le16((opcode_value(Opcode::SetPower) + power_state_value(s)) as u16),
        _ => le16(opcode_value(command_opcode(c))),
    }
}

/// The data register address, for the commands that name it.
pub open spec fn data_register_piece(c: Command, data_reg: Option<u16>) -> Seq<u8> {
    match c {
        Command::Reset | Command::SetPower(_) | Command::Vendor => Seq::empty(),
        _ => register_piece(data_reg),
    }
}

/// The data that follows, for the commands that carry some.
pub open spec fn payload_piece(c: Command) -> Seq<u8> {
    match c {
        Command::SetReport(_, _, data) => data_piece(data@),
        Command::SetIdle(_, f) => value_piece(report_freq_value(f)),
        Command::SetProtocol(p) => value_piece(protocol_value(p)),
        _ => Seq::empty(),
    }
}

/// The four parts of an encoded command, in order: command register, command word, data register,
/// data. A part that a command does not have is empty.
pub open spec fn command_pieces(c: Command, command_reg: Option<u16>, data_reg: Option<u16>) -> (
    Seq<u8>,
    Seq<u8>,
    Seq<u8>,
    Seq<u8>,
) {
    (register_piece(command_reg), word_piece(c), data_register_piece(c, data_reg), payload_piece(c))
}

/// The whole encoded command.
pub open spec fn command_bytes(c: Command, command_reg: Option<u16>, data_reg: Option<u16>) -> Seq<u8> {
    let p = command_pieces(c, command_reg, data_reg);
    p.0 + p.1 + p.2 + p.3
}

/// What encoding the parts `p` into a buffer of `avail` bytes returns: the total length, or the
/// size of the first part that does not fit beside the room that was left for it.
pub open spec fn encode_result(p: (Seq<u8>, Seq<u8>, Seq<u8>, Seq<u8>), avail: int) -> Result<
    usize,
    Error,
> {
    let l0 = p.0.len() as int;
    let l1 = p.1.len() as int;
    let l2 = p.2.len() as int;
    let l3 = p.3.len() as int;
    if l0 > avail {
        Err(Error::InvalidSize(l0 as usize, avail as usize))
    } else if l0 + l1 > avail {
        Err(Error::InvalidSize(l1 as usize, (avail - l0) as usize))
    } else if l0 + l1 + l2 > avail {
        Err(Error::InvalidSize(l2 as usize, (avail - l0 - l1) as usize))
    } else if l0 + l1 + l2 + l3 > avail {
        Err(Error::InvalidSize(l3 as usize, (avail - l0 - l1 - l2) as usize))
    } else {
        Ok((l0 + l1 + l2 + l3) as usize)
    }
}

/// The parts of `p` that are written into a buffer of `avail` bytes: those before the first one
/// that does not fit.
pub open spec fn encoded_prefix(p: (Seq<u8>, Seq<u8>, Seq<u8>, Seq<u8>), avail: int) -> Seq<u8> {
    let l0 = p.0.len() as int;
    let l1 = p.1.len() as int;
    let l2 = p.2.len() as int;
    let l3 = p.3.len() as int;
    if l0 > avail {
        Seq::empty()
    } else if l0 + l1 > avail {
        p.0
    } else if l0 + l1 + l2 > avail {
        p.0 + p.1
    } else if l0 + l1 + l2 + l3 > avail {
        p.0 + p.1 + p.2
    } else {
        p.0 + p.1 + p.2 + p.3
    }
}

/// What writing `piece` at `pos` of `s` gives: its length and the new contents, or the error for a
/// piece that does not fit and the contents unchanged.
pub open spec fn piece_write(s: Seq<u8>, pos: int, piece: Seq<u8>) -> (Result<usize, Error>, Seq<u8>) {
    if piece.len() > s.len() - pos {
        (Err(Error::InvalidSize(piece.len() as usize, (s.len() - pos) as usize)), s)
    } else {
        (Ok(piece.len() as usize), overwrite(s, pos, piece))
    }
}

impl<'a> Command<'a> {
    /// Creates a new command with validation
    pub fn new(
        cmd: u16,
        opcode: Opcode,
        report_type: Option<ReportType>,
        report_id: Option<ReportId>,
        data: Option<&'a [u8]>,
    ) -> (r: Result<Self, Error>)
        ensures
            r == command_new_result(cmd, opcode, report_type, report_id, data),
    {
        if opcode.requires_report_id() && report_id.is_none() {
            return Err(Error::RequiresReportId);
        }
        if opcode.requires_host_data() && data.is_none() {
            // Vendor defined commands might or might not have data with them
            if opcode != Opcode::Vendor {
                return Err(Error::RequiresData);
            }
        }
        let command = match (opcode, report_id, report_type, data) {
            (Opcode::Reset, _, _, _) => Command::Reset,
            (Opcode::GetReport, Some(id), Some(t), _) => {
                if t == ReportType::Input || t == ReportType::Feature {
                    Command::GetReport(t, id)
                } else {
                    return Err(Error::InvalidReportType);
                }
            },
            (Opcode::GetReport, _, _, _) => return Err(Error::InvalidReportType),
            (Opcode::SetReport, Some(id), Some(t), Some(d)) => {
                if t == ReportType::Output || t == ReportType::Feature {
                    Command::SetReport(t, id, d)
                } else {
                    return Err(Error::InvalidReportType);
                }
            },
            (Opcode::SetReport, _, _, _) => return Err(Error::InvalidReportType),
            (Opcode::GetIdle, Some(id), _, _) => Command::GetIdle(id),
            (Opcode::SetIdle, Some(id), _, _) => {
                let freq = match ReportFreq::try_from(cmd) {
                    Ok(f) => f,
                    Err(_) => return Err(Error::InvalidReportFreq),
                };
                Command::SetIdle(id, freq)
            },
            (Opcode::GetProtocol, _, _, _) => Command::GetProtocol,
            (Opcode::SetProtocol, _, _, _) => match Protocol::try_from(cmd) {
                Ok(p) => Command::SetProtocol(p),
                Err(_) => return Err(Error::InvalidData),
            },
            (Opcode::SetPower, _, _, _) => match PowerState::try_from(cmd) {
                Ok(s) => Command::SetPower(s),
                Err(_) => return Err(Error::InvalidData),
            },
            (Opcode::Vendor, _, _, _) => Command::Vendor,
            _ => return Err(Error::InvalidCommand),
        };
        Ok(command)
    }

    /// Encodes a register address at `pos`, where there is one.
    fn encode_register(buf: &mut [u8], pos: usize, reg: Option<u16>) -> (r: Result<usize, Error>)
        requires
            pos <= old(buf)@.len(),
        ensures
            (r, final(buf)@) == piece_write(old(buf)@, pos as int, register_piece(reg)),
    {
        if let Some(reg) = reg {
            if buf.len() - pos < REGISTER_LEN {
                return Err(Error::InvalidSize(REGISTER_LEN, buf.len() - pos));
            }
            put_le16(buf, pos, reg);
            Ok(REGISTER_LEN)
        } else {
            assert(overwrite(buf@, pos as int, Seq::empty()) =~= buf@);
            Ok(0)
        }
    }

    /// Encodes an operation with no report ID or additional data at `pos`.
    fn encode_basic_op(buf: &mut [u8], pos: usize, opcode: Opcode) -> (r: Result<usize, Error>)
        requires
            pos <= old(buf)@.len(),
        ensures
            (r, final(buf)@) == piece_write(old(buf)@, pos as int, le16(opcode_value(opcode))),
    {
        if buf.len() - pos < BASIC_CMD_LEN {
            return Err(Error::InvalidSize(BASIC_CMD_LEN, buf.len() - pos));
        }
        put_le16(buf, pos, u16::from(opcode));
        Ok(BASIC_CMD_LEN)
    }

    /// Encodes the command word of a command that names a report at `pos`.
    fn encode_common(
        buf: &mut [u8],
        pos: usize,
        opcode: Opcode,
        report_type: Option<ReportType>,
        report_id: ReportId,
    ) -> (r: Result<usize, Error>)
        requires
            pos <= old(buf)@.len(),
        ensures
            (r, final(buf)@) == piece_write(old(buf)@, pos as int, report_piece(opcode, report_type, report_id)),
    {
        let t: u16 = match report_type {
            Some(t) => u16::from(t),
            None => 0,
        };
        let val: u16 = u16::from(opcode) + t;
        if report_id.0 >= EXTENDED_REPORT_ID {
            if buf.len() - pos < EXTENDED_REPORT_CMD_LEN {
                return Err(Error::InvalidSize(EXTENDED_REPORT_CMD_LEN, buf.len() - pos));
            }
            // Standard word encoding the presence of an extended report ID, then the ID itself
            put_le16(buf, pos, val + EXTENDED_REPORT_ID as u16);
            let ghost mid = buf@;
            buf[pos + 2] = report_id.0;
            proof {
                let piece = report_piece(opcode, report_type, report_id);
                assert(buf@ =~= overwrite(old(buf)@, pos as int, piece));
            }
            Ok(EXTENDED_REPORT_CMD_LEN)
        } else {
            if buf.len() - pos < STANDARD_REPORT_CMD_LEN {
                return Err(Error::InvalidSize(STANDARD_REPORT_CMD_LEN, buf.len() - pos));
            }
            put_le16(buf, pos, val + report_id.0 as u16);
            Ok(STANDARD_REPORT_CMD_LEN)
        }
    }

    /// Encodes a 16-bit value at `pos`, prefixed by a length.
    fn encode_value(buf: &mut [u8], pos: usize, value: u16) -> (r: Result<usize, Error>)
        requires
            pos <= old(buf)@.len(),
        ensures
            (r, final(buf)@) == piece_write(old(buf)@, pos as int, value_piece(value)),
    {
        if buf.len() - pos < LENGTH_VALUE_LEN {
            return Err(Error::InvalidSize(LENGTH_VALUE_LEN, buf.len() - pos));
        }
        // Length value includes the size of the length as well
        put_le16(buf, pos, 4);
        put_le16(buf, pos + 2, value);
        proof {
            lemma_overwrite_concat(old(buf)@, pos as int, le16(4), le16(value));
        }
        Ok(LENGTH_VALUE_LEN)
    }

    /// Encodes data at `pos`, prefixed by a length.
    fn encode_data(buf: &mut [u8], pos: usize, data: &[u8]) -> (r: Result<usize, Error>)
        requires
            pos <= old(buf)@.len(),
            data@.len() + 2 <= usize::MAX,
        ensures
            (r, final(buf)@) == piece_write(old(buf)@, pos as int, data_piece(data@)),
    {
        // +2 to encode the length of the data
        let total_len = data.len() + 2;
        if buf.len() - pos < total_len {
            return Err(Error::InvalidSize(total_len, buf.len() - pos));
        }
        let length_word: u16 = #[verifier::truncate] (total_len as u16);
        put_le16(buf, pos, length_word);
        let ghost header = buf@;
        let start = pos + 2;
        let mut i: usize = 0;
        while i < data.len()
            invariant
                start + data@.len() <= buf@.len(),
                start + data@.len() <= usize::MAX,
                start == pos + 2,
                header.len() == buf@.len(),
                0 <= i <= data@.len(),
                buf@ =~= overwrite(header, start as int, data@.take(i as int)),
            decreases data@.len() - i,
        {
            let ghost before = buf@;
            buf[start + i] = data[i];
            assert(buf@ =~= overwrite(header, start as int, data@.take(i + 1)));
            i = i + 1;
        }
        proof {
            assert(data@.take(data@.len() as int) =~= data@);
            lemma_overwrite_concat(old(buf)@, pos as int, le16(length_word), data@);
        }
        Ok(total_len)
    }

    /// Encodes the command word at `pos`.
    fn encode_word(&self, buf: &mut [u8], pos: usize) -> (r: Result<usize, Error>)
        requires
            pos <= old(buf)@.len(),
            *self is SetPower ==> pos + 2 <= old(buf)@.len(),
        ensures
            (r, final(buf)@) == piece_write(old(buf)@, pos as int, word_piece(*self)),
    {
        match self {
            Command::Reset => Self::encode_basic_op(buf, pos, Opcode::Reset),
            Command::GetReport(report_type, report_id) => Self::encode_common(
                buf,
                pos,
                Opcode::GetReport,
                Some(*report_type),
                *report_id,
            ),
            Command::SetReport(report_type, report_id, _) => Self::encode_common(
                buf,
                pos,
                Opcode::SetReport,
                Some(*report_type),
                *report_id,
            ),
            Command::GetIdle(report_id) => Self::encode_common(buf, pos, Opcode::GetIdle, None, *report_id),
            Command::SetIdle(report_id, _) => Self::encode_common(buf, pos, Opcode::SetIdle, None, *report_id),
            Command::GetProtocol => Self::encode_basic_op(buf, pos, Opcode::GetProtocol),
            Command::SetProtocol(_) => Self::encode_basic_op(buf, pos, Opcode::SetProtocol),
            Command::SetPower(state) => {
                let opcode: u16 = u16::from(Opcode::SetPower);
                let state: u16 = u16::from(*state);
                put_le16(buf, pos, opcode + state);
                Ok(2)
            },
            Command::Vendor => Self::encode_basic_op(buf, pos, Opcode::Vendor),
        }
    }

    /// Encodes the data register address at `pos`, for the commands that name it.
    fn encode_data_register(&self, buf: &mut [u8], pos: usize, data_reg: Option<u16>) -> (r: Result<
        usize,
        Error,
    >)
        requires
            pos <= old(buf)@.len(),
        ensures
            (r, final(buf)@) == piece_write(old(buf)@, pos as int, data_register_piece(*self, data_reg)),
    {
        match self {
            Command::Reset | Command::SetPower(_) | Command::Vendor => {
                assert(overwrite(buf@, pos as int, Seq::empty()) =~= buf@);
                Ok(0)
            },
            _ => Self::encode_register(buf, pos, data_reg),
        }
    }

    /// Encodes the data that follows, for the commands that carry some.
    fn encode_payload(&self, buf: &mut [u8], pos: usize) -> (r: Result<usize, Error>)
        requires
            pos <= old(buf)@.len(),
            *self matches Command::SetReport(_, _, data) ==> data@.len() + 2 <= usize::MAX,
        ensures
            (r, final(buf)@) == piece_write(old(buf)@, pos as int, payload_piece(*self)),
    {
        match self {
            Command::SetReport(_, _, data) => Self::encode_data(buf, pos, data),
            Command::SetIdle(_, freq) => Self::encode_value(buf, pos, u16::from(*freq)),
            Command::SetProtocol(protocol) => Self::encode_value(buf, pos, u16::from(*protocol)),
            _ => {
                assert(overwrite(buf@, pos as int, Seq::empty()) =~= buf@);
                Ok(0)
            },
        }
    }

    /// Encode the command into a slice, returns number of bytes written
    /// If command_reg or data_reg is provided, those addresses will be encoded into the buffer as well
    #[verifier::rlimit(40)]
    pub fn encode_into_slice(&self, buf: &mut [u8], command_reg: Option<u16>, data_reg: Option<u16>) -> (r:
        Result<usize, Error>)
        requires
            *self is SetPower && register_piece(command_reg).len() <= old(buf)@.len() ==> register_piece(
                command_reg,
            ).len() + 2 <= old(buf)@.len(),
            *self matches Command::SetReport(_, _, data) ==> data@.len() + 2 <= usize::MAX,
        ensures
            r == encode_result(command_pieces(*self, command_reg, data_reg), old(buf)@.len() as int),
            final(buf)@ == overwrite(
                old(buf)@,
                0,
                encoded_prefix(command_pieces(*self, command_reg, data_reg), old(buf)@.len() as int),
            ),
    {
        let ghost p = command_pieces(*self, command_reg, data_reg);
        let ghost s0 = buf@;
        let len = buf.len();
        proof {
            assert(overwrite(s0, 0, Seq::empty()) =~= s0);
        }
        // Encode command register address
        let n0 = match Self::encode_register(buf, 0, command_reg) {
            Ok(n) => n,
            Err(e) => return Err(e),
        };
        assert(Seq::<u8>::empty() + p.0 =~= p.0);
        assert(n0 <= len && buf@.len() == len);
        let n1 = match self.encode_word(buf, n0) {
            Ok(n) => n,
            Err(e) => return Err(e),
        };
        assert(n0 + n1 <= len && buf@.len() == len);
        proof {
            lemma_overwrite_concat(s0, 0, p.0, p.1);
        }
        // Encode data register address
        let n2 = match self.encode_data_register(buf, n0 + n1, data_reg) {
            Ok(n) => n,
            Err(e) => return Err(e),
        };
        assert(n0 + n1 + n2 <= len && buf@.len() == len);
        proof {
            lemma_overwrite_concat(s0, 0, p.0 + p.1, p.2);
        }
        // Encode the data that follows
        let n3 = match self.encode_payload(buf, n0 + n1 + n2) {
            Ok(n) => n,
            Err(e) => return Err(e),
        };
        proof {
            lemma_overwrite_concat(s0, 0, p.0 + p.1 + p.2, p.3);
        }
        assert(n0 + n1 + n2 + n3 <= len);
        Ok(n0 + n1 + n2 + n3)
    }
}

/// Every opcode reads back from its own command word field.
pub proof fn lemma_opcode_roundtrip(op: Opcode)
    ensures
        opcode_from(opcode_value(op)) == Ok::<Opcode, Error>(op),
{
}

/// Every report type reads back from its own command word field.
pub proof fn lemma_report_type_roundtrip(t: ReportType)
    ensures
        report_type_from(report_type_value(t)) == Ok::<ReportType, Error>(t),
{
}

/// Every power state reads back from its own value.
pub proof fn lemma_power_state_roundtrip(s: PowerState)
    ensures
        power_state_from(power_state_value(s)) == Ok::<PowerState, Error>(s),
{
}

/// Every protocol reads back from its own value.
pub proof fn lemma_protocol_roundtrip(p: Protocol)
    ensures
        protocol_from(protocol_value(p)) == Ok::<Protocol, Error>(p),
{
}

/// A report frequency reads back from its value, except `Msecs(0)`, whose value is that of
/// `Infinite`.
pub proof fn lemma_report_freq_roundtrip(f: ReportFreq)
    requires
        f != ReportFreq::Msecs(0),
    ensures
        report_freq_from(report_freq_value(f)) == f,
{
}

/// The command word of an encoded report command decodes back: it names the command's opcode and
/// report type (none where the command has none), and holds the report ID in bits 0 to 3, or the
/// extended marker there with the ID in the byte that follows.
pub proof fn lemma_report_word_decodes(op: Opcode, rt: Option<ReportType>, id: ReportId)
    ensures
        ({
            let p = report_piece(op, rt, id);
            let w = le16_value(p[0], p[1]);
            &&& opcode_from(w) == Ok::<Opcode, Error>(op)
            &&& (rt matches Some(t) ==> report_type_from(w) == Ok::<ReportType, Error>(t))
            &&& (rt is None ==> report_type_from(w) == Err::<ReportType, Error>(Error::Serialize))
            &&& (id.0 < EXTENDED_REPORT_ID ==> p.len() == 2 && w % 16 == id.0)
            &&& (id.0 >= EXTENDED_REPORT_ID ==> p.len() == 3 && w % 16 == EXTENDED_REPORT_ID && p[2]
                == id.0)
        }),
{
    let low: int = if id.0 >= EXTENDED_REPORT_ID {
        EXTENDED_REPORT_ID as int
    } else {
        id.0 as int
    };
    let w = command_word(op, rt, low);
    super::lemma_le16_roundtrip(w);
    let t: int = match rt {
        Some(t) => report_type_value(t) as int,
        None => 0,
    };
    let n = opcode_number(op) as int;
    assert(w == n * 256 + t + low);
    assert(w / 256 == n) by {
        assert(0 <= t + low < 256);
    }
    assert(w % 16 == low) by {
        assert(w == (n * 16 + t / 16) * 16 + low);
    }
    assert((w / 16) % 4 == t / 16) by {
        assert(w / 16 == n * 16 + t / 16);
    }
}

/// The word of an encoded `SetPower` command names the opcode and the power state.
pub proof fn lemma_power_word_decodes(s: PowerState)
    ensures
        ({
            let p = word_piece(Command::SetPower(s));
            let w = le16_value(p[0], p[1]);
            &&& p.len() == 2
            &&& opcode_from(w) == Ok::<Opcode, Error>(Opcode::SetPower)
            &&& power_state_from(w) == Ok::<PowerState, Error>(s)
        }),
{
    let w = (opcode_value(Opcode::SetPower) + power_state_value(s)) as u16;
    super::lemma_le16_roundtrip(w);
}

/// Encoding succeeds exactly when the whole command fits in the buffer; it then returns the
/// command's length and writes all of it.
pub proof fn lemma_encode_fits(c: Command, command_reg: Option<u16>, data_reg: Option<u16>, avail: int)
    requires
        0 <= avail,
    ensures
        (encode_result(command_pieces(c, command_reg, data_reg), avail) is Ok) <==> command_bytes(
            c,
            command_reg,
            data_reg,
        ).len() <= avail,
        command_bytes(c, command_reg, data_reg).len() <= avail ==> encode_result(
            command_pieces(c, command_reg, data_reg),
            avail,
        ) == Ok::<usize, Error>(command_bytes(c, command_reg, data_reg).len() as usize) && encoded_prefix(
            command_pieces(c, command_reg, data_reg),
            avail,
        ) == command_bytes(c, command_reg, data_reg),
{
}


/// HID-over-I2C numbering of the command word on the wire (low byte first): the opcode fills the
/// high byte (Reset 1, GetReport 2, SetReport 3, GetIdle 4, SetIdle 5, GetProtocol 6,
/// SetProtocol 7, SetPower 8, vendor 14); bits 4 and 5 hold the report type (Input 1, Output 2,
/// Feature 3) and bits 0 to 3 the report ID (below the extended marker); `SetPower` carries the
/// power state in bits 0 and 1 (On 0, Sleep 1); and `SetProtocol` sends the protocol (Boot 0,
/// Report 1) as a length-prefixed value.
pub proof fn lemma_command_word_numbering<'a>(
    t: ReportType,
    id: ReportId,
    data: &'a [u8],
    s: PowerState,
    p: Protocol,
    f: ReportFreq,
)
    requires
        id.0 < EXTENDED_REPORT_ID,
    ensures
        ({
            let tn: int = if t == ReportType::Input {
                0x10
            } else if t == ReportType::Output {
                0x20
            } else {
                0x30
            };
            &&& word_piece(Command::Reset) == seq![0x00u8, 0x01u8]
            &&& word_piece(Command::GetReport(t, id)) == seq![(tn + id.0) as u8, 0x02u8]
            &&& word_piece(Command::SetReport(t, id, data)) == seq![(tn + id.0) as u8, 0x03u8]
            &&& word_piece(Command::GetIdle(id)) == seq![id.0, 0x04u8]
            &&& word_piece(Command::SetIdle(id, f)) == seq![id.0, 0x05u8]
            &&& word_piece(Command::GetProtocol) == seq![0x00u8, 0x06u8]
            &&& word_piece(Command::SetProtocol(p)) == seq![0x00u8, 0x07u8]
            &&& word_piece(Command::SetPower(s)) == seq![if s == PowerState::Sleep { 0x01u8 } else { 0x00u8 }, 0x08u8]
            &&& word_piece(Command::Vendor) == seq![0x00u8, 0x0eu8]
            &&& payload_piece(Command::SetProtocol(p)) == seq![4u8, 0u8, if p == Protocol::Report { 1u8 } else { 0u8 }, 0u8]
        }),
{
    let tn: int = if t == ReportType::Input {
        0x10
    } else if t == ReportType::Output {
        0x20
    } else {
        0x30
    };
    assert(word_piece(Command::Reset) =~= seq![0x00u8, 0x01u8]);
    assert(word_piece(Command::GetReport(t, id)) =~= seq![(tn + id.0) as u8, 0x02u8]);
    assert(word_piece(Command::SetReport(t, id, data)) =~= seq![(tn + id.0) as u8, 0x03u8]);
    assert(word_piece(Command::GetIdle(id)) =~= seq![id.0, 0x04u8]);
    assert(word_piece(Command::SetIdle(id, f)) =~= seq![id.0, 0x05u8]);
    assert(word_piece(Command::GetProtocol) =~= seq![0x00u8, 0x06u8]);
    assert(word_piece(Command::SetProtocol(p)) =~= seq![0x00u8, 0x07u8]);
    assert(word_piece(Command::SetPower(s)) =~= seq![if s == PowerState::Sleep { 0x01u8 } else { 0x00u8 }, 0x08u8]);
    assert(word_piece(Command::Vendor) =~= seq![0x00u8, 0x0eu8]);
    assert(payload_piece(Command::SetProtocol(p)) =~= seq![4u8, 0u8, if p == Protocol::Report { 1u8 } else { 0u8 }, 0u8]);
}

} // verus!
