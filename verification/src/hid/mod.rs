//! HID services: the HID-over-I2C descriptor, register file and command encoding.
//!
//! Multi-byte values travel little-endian: a 16-bit value `v` is the two bytes `v % 256`, `v / 256`.
use vstd::prelude::*;

pub mod command;


verus! {

/// HID descriptor length
pub const DESCRIPTOR_LEN: usize = 30;

/// HID errors
#[derive(Clone, Copy, Debug, PartialEq, Eq, Structural)]
pub enum Error {
    /// Invalid data
    InvalidData,
    /// Invalid size: expected and actual sizes
    InvalidSize(usize, usize),
    /// Invalid register address
    InvalidRegisterAddress,
    /// Invalid device
    InvalidDevice,
    /// Invalid command
    InvalidCommand,
    /// Command requires a report ID
    RequiresReportId,
    /// Command requires data
    RequiresData,
    /// Invalid report type for command
    InvalidReportType,
    /// Invalid report frequency
    InvalidReportFreq,
    /// Error from transport service
    Transport,
    /// Timeout
    Timeout,
    /// Errors from serialization/deserialization
    Serialize,
}

/// The two little-endian bytes of `v`.
pub open spec fn le16(v: u16) -> Seq<u8> {
    seq![(v % 256) as u8, (v / 256) as u8]
}

/// The 16-bit value whose little-endian bytes are `lo`, `hi`.
pub open spec fn le16_value(lo: u8, hi: u8) -> u16 {
    (lo + hi * 256) as u16
}

/// The little-endian bytes of each value of `ws`, in order.
pub open spec fn le16s(ws: Seq<u16>) -> Seq<u8>
    decreases ws.len(),
{
    if ws.len() == 0 {
        Seq::empty()
    } else {
        le16s(ws.drop_last()) + le16(ws.last())
    }
}

/// `s` with the bytes from `pos` on replaced by `piece`.
pub open spec fn overwrite(s: Seq<u8>, pos: int, piece: Seq<u8>) -> Seq<u8> {
    s.subrange(0, pos) + piece + s.subrange(pos + piece.len(), s.len() as int)
}

/// Writing `a` and then `b` right after it is writing `a + b`.
pub proof fn lemma_overwrite_concat(s: Seq<u8>, pos: int, a: Seq<u8>, b: Seq<u8>)
    requires
        0 <= pos,
        pos + a.len() + b.len() <= s.len(),
    ensures
        overwrite(overwrite(s, pos, a), pos + a.len(), b) == overwrite(s, pos, a + b),
{
    assert(overwrite(overwrite(s, pos, a), pos + a.len(), b) =~= overwrite(s, pos, a + b));
}

/// Decoding the two bytes of `v` gives `v` back.
pub proof fn lemma_le16_roundtrip(v: u16)
    ensures
        le16_value((v % 256) as u8, (v / 256) as u8) == v,
{
}

/// Two bytes per value.
pub proof fn lemma_le16s_len(ws: Seq<u16>)
    ensures
        le16s(ws).len() == 2 * ws.len(),
    decreases ws.len(),
{
    if ws.len() > 0 {
        lemma_le16s_len(ws.drop_last());
    }
}

/// Where the bytes of each value of `ws` sit.
pub proof fn lemma_le16s_index(ws: Seq<u16>, i: int)
    requires
        0 <= i < ws.len(),
    ensures
        le16s(ws).len() == 2 * ws.len(),
        le16s(ws)[2 * i] == (ws[i] % 256) as u8,
        le16s(ws)[2 * i + 1] == (ws[i] / 256) as u8,
    decreases ws.len(),
{
    lemma_le16s_len(ws);
    lemma_le16s_len(ws.drop_last());
    if i < ws.len() - 1 {
        lemma_le16s_index(ws.drop_last(), i);
    }
}

/// Writes the little-endian bytes of `v` at `pos`.
fn put_le16(buf: &mut [u8], pos: usize, v: u16)
    requires
        pos + 2 <= old(buf)@.len(),
    ensures
        final(buf)@ == overwrite(old(buf)@, pos as int, le16(v)),
{
    buf[pos] = (v % 256) as u8;
    buf[pos + 1] = (v / 256) as u8;
    assert(buf@ =~= overwrite(old(buf)@, pos as int, le16(v)));
}

/// Reads the 16-bit value stored little-endian in `lo`, `hi`.
fn get_le16(lo: u8, hi: u8) -> (r: u16)
    ensures
        r == le16_value(lo, hi),
{
    lo as u16 + (hi as u16) * 256
}

/// HID descriptor, see spec for descriptions
#[derive(Clone, Copy, Debug, PartialEq, Eq, Structural)]
#[allow(missing_docs)]
pub struct Descriptor {
    pub w_hid_desc_length: u16,
    pub bcd_version: u16,
    pub w_report_desc_length: u16,
    pub w_report_desc_register: u16,
    pub w_input_register: u16,
    pub w_max_input_length: u16,
    pub w_output_register: u16,
    pub w_max_output_length: u16,
    pub w_command_register: u16,
    pub w_data_register: u16,
    pub w_vendor_id: u16,
    pub w_product_id: u16,
    pub w_version_id: u16,
}

/// The words of the encoded descriptor: its fields in declaration order, then two reserved zero
/// words.
pub open spec fn descriptor_words(d: Descriptor) -> Seq<u16> {
    seq![
        d.w_hid_desc_length,
        d.bcd_version,
        d.w_report_desc_length,
        d.w_report_desc_register,
        d.w_input_register,
        d.w_max_input_length,
        d.w_output_register,
        d.w_max_output_length,
        d.w_command_register,
        d.w_data_register,
        d.w_vendor_id,
        d.w_product_id,
        d.w_version_id,
        0u16,
        0u16,
    ]
}

/// The encoded descriptor: [`DESCRIPTOR_LEN`] bytes.
pub open spec fn descriptor_bytes(d: Descriptor) -> Seq<u8> {
    le16s(descriptor_words(d))
}

/// The descriptor whose fields are stored little-endian in the first 26 bytes of `b`.
pub open spec fn descriptor_from(b: Seq<u8>) -> Descriptor {
    Descriptor {
        w_hid_desc_length: le16_value(b[0], b[1]),
        bcd_version: le16_value(b[2], b[3]),
        w_report_desc_length: le16_value(b[4], b[5]),
        w_report_desc_register: le16_value(b[6], b[7]),
        w_input_register: le16_value(b[8], b[9]),
        w_max_input_length: le16_value(b[10], b[11]),
        w_output_register: le16_value(b[12], b[13]),
        w_max_output_length: le16_value(b[14], b[15]),
        w_command_register: le16_value(b[16], b[17]),
        w_data_register: le16_value(b[18], b[19]),
        w_vendor_id: le16_value(b[20], b[21]),
        w_product_id: le16_value(b[22], b[23]),
        w_version_id: le16_value(b[24], b[25]),
    }
}

/// The four reserved bytes (26 to 29) of an encoded descriptor are zero.
pub open spec fn reserved_bytes_zero(b: Seq<u8>) -> bool {
    b[26] == 0 && b[27] == 0 && b[28] == 0 && b[29] == 0
}

impl Default for Descriptor {
    fn default() -> (r: Self)
        ensures
            descriptor_words(r) == Seq::new(15, |i: int| 0u16),
    {
        let r = Descriptor {
            w_hid_desc_length: 0,
            bcd_version: 0,
            w_report_desc_length: 0,
            w_report_desc_register: 0,
            w_input_register: 0,
            w_max_input_length: 0,
            w_output_register: 0,
            w_max_output_length: 0,
            w_command_register: 0,
            w_data_register: 0,
            w_vendor_id: 0,
            w_product_id: 0,
            w_version_id: 0,
        };
        assert(descriptor_words(r) =~= Seq::new(15, |i: int| 0u16));
        r
    }
}

impl Descriptor {
    /// Serializes a descriptor into the slice
    pub fn encode_into_slice(&self, buf: &mut [u8]) -> (r: Result<usize, Error>)
        ensures
            old(buf)@.len() < DESCRIPTOR_LEN ==> r == Err::<usize, Error>(
                Error::InvalidSize(DESCRIPTOR_LEN, old(buf)@.len() as usize),
            ) && final(buf)@ == old(buf)@,
            old(buf)@.len() >= DESCRIPTOR_LEN ==> r == Ok::<usize, Error>(DESCRIPTOR_LEN) && final(buf)@
                == overwrite(old(buf)@, 0, descriptor_bytes(*self)),
    {
        if buf.len() < DESCRIPTOR_LEN {
            return Err(Error::InvalidSize(DESCRIPTOR_LEN, buf.len()));
        }
        let words: [u16; 15] = [
            self.w_hid_desc_length,
            self.bcd_version,
            self.w_report_desc_length,
            self.w_report_desc_register,
            self.w_input_register,
            self.w_max_input_length,
            self.w_output_register,
            self.w_max_output_length,
            self.w_command_register,
            self.w_data_register,
            self.w_vendor_id,
            self.w_product_id,
            self.w_version_id,
            0,
            0,
        ];
        assert(words@ =~= descriptor_words(*self));
        let ghost start = buf@;
        let mut i: usize = 0;
        while i < 15
            invariant
                0 <= i <= 15,
                start.len() >= DESCRIPTOR_LEN,
                words@ == descriptor_words(*self),
                le16s(words@.take(i as int)).len() == 2 * i,
                buf@ == overwrite(start, 0, le16s(words@.take(i as int))),
            decreases 15 - i,
        {
            let ghost acc = le16s(words@.take(i as int));
            put_le16(buf, 2 * i, words[i]);
            proof {
                lemma_overwrite_concat(start, 0, acc, le16(words@[i as int]));
                assert(words@.take(i + 1).drop_last() =~= words@.take(i as int));
                assert(le16s(words@.take(i + 1)) == acc + le16(words@[i as int]));
            }
            i = i + 1;
        }
        assert(words@.take(15) =~= words@);
        Ok(DESCRIPTOR_LEN)
    }

    /// Deserializes a descriptor from the slice
    pub fn decode_from_slice(buf: &[u8]) -> (r: Result<Self, Error>)
        ensures
            buf@.len() < DESCRIPTOR_LEN ==> r == Err::<Descriptor, Error>(
                Error::InvalidSize(DESCRIPTOR_LEN, buf@.len() as usize),
            ),
            buf@.len() >= DESCRIPTOR_LEN && !reserved_bytes_zero(buf@) ==> r == Err::<Descriptor, Error>(
                Error::InvalidData,
            ),
            buf@.len() >= DESCRIPTOR_LEN && reserved_bytes_zero(buf@) ==> r == Ok::<Descriptor, Error>(
                descriptor_from(buf@),
            ),
    {
        if buf.len() < DESCRIPTOR_LEN {
            return Err(Error::InvalidSize(DESCRIPTOR_LEN, buf.len()));
        }
        // Reserved bytes must be zero
        if buf[26] != 0 || buf[27] != 0 || buf[28] != 0 || buf[29] != 0 {
            return Err(Error::InvalidData);
        }
        Ok(Descriptor {
            w_hid_desc_length: get_le16(buf[0], buf[1]),
            bcd_version: get_le16(buf[2], buf[3]),
            w_report_desc_length: get_le16(buf[4], buf[5]),
            w_report_desc_register: get_le16(buf[6], buf[7]),
            w_input_register: get_le16(buf[8], buf[9]),
            w_max_input_length: get_le16(buf[10], buf[11]),
            w_output_register: get_le16(buf[12], buf[13]),
            w_max_output_length: get_le16(buf[14], buf[15]),
            w_command_register: get_le16(buf[16], buf[17]),
            w_data_register: get_le16(buf[18], buf[19]),
            w_vendor_id: get_le16(buf[20], buf[21]),
            w_product_id: get_le16(buf[22], buf[23]),
            w_version_id: get_le16(buf[24], buf[25]),
        })
    }
}

/// Decoding an encoded descriptor gives it back: the encoding is [`DESCRIPTOR_LEN`] bytes long,
/// its reserved bytes are zero, and its fields read back unchanged.
pub proof fn lemma_descriptor_roundtrip(d: Descriptor)
    ensures
        descriptor_bytes(d).len() == DESCRIPTOR_LEN,
        reserved_bytes_zero(descriptor_bytes(d)),
        descriptor_from(descriptor_bytes(d)) == d,
{
    let ws = descriptor_words(d);
    let b = descriptor_bytes(d);
    assert forall|k: int| 0 <= k < 15 implies b[2 * k] == (ws[k] % 256) as u8 && b[2 * k + 1] == (
    ws[k] / 256) as u8 && le16_value(b[2 * k], b[2 * k + 1]) == ws[k] by {
        lemma_le16s_index(ws, k);
        lemma_le16_roundtrip(ws[k]);
    }
    lemma_le16s_index(ws, 0);
    assert(le16_value(b[0], b[1]) == ws[0]);
    assert(le16_value(b[2], b[3]) == ws[1]);
    assert(le16_value(b[4], b[5]) == ws[2]);
    assert(le16_value(b[6], b[7]) == ws[3]);
    assert(le16_value(b[8], b[9]) == ws[4]);
    assert(le16_value(b[10], b[11]) == ws[5]);
    assert(le16_value(b[12], b[13]) == ws[6]);
    assert(le16_value(b[14], b[15]) == ws[7]);
    assert(le16_value(b[16], b[17]) == ws[8]);
    assert(le16_value(b[18], b[19]) == ws[9]);
    assert(le16_value(b[20], b[21]) == ws[10]);
    assert(le16_value(b[22], b[23]) == ws[11]);
    assert(le16_value(b[24], b[25]) == ws[12]);
    assert(b[26] == 0 && b[27] == 0 && b[28] == 0 && b[29] == 0);
}

/// The encoded descriptor holds each field little-endian at its fixed HID-over-I2C offset: field
/// `k` of the declaration order (wHIDDescLength, bcdVersion, wReportDescLength,
/// wReportDescRegister, wInputRegister, wMaxInputLength, wOutputRegister, wMaxOutputLength,
/// wCommandRegister, wDataRegister, wVendorID, wProductID, wVersionID) occupies bytes `2k` and
/// `2k + 1`, and the four reserved bytes after them are zero.
pub proof fn lemma_descriptor_layout(d: Descriptor)
    ensures
        ({
            let b = descriptor_bytes(d);
            &&& b.len() == DESCRIPTOR_LEN
            &&& b.subrange(0, 2) == le16(d.w_hid_desc_length)
            &&& b.subrange(2, 4) == le16(d.bcd_version)
            &&& b.subrange(4, 6) == le16(d.w_report_desc_length)
            &&& b.subrange(6, 8) == le16(d.w_report_desc_register)
            &&& b.subrange(8, 10) == le16(d.w_input_register)
            &&& b.subrange(10, 12) == le16(d.w_max_input_length)
            &&& b.subrange(12, 14) == le16(d.w_output_register)
            &&& b.subrange(14, 16) == le16(d.w_max_output_length)
            &&& b.subrange(16, 18) == le16(d.w_command_register)
            &&& b.subrange(18, 20) == le16(d.w_data_register)
            &&& b.subrange(20, 22) == le16(d.w_vendor_id)
            &&& b.subrange(22, 24) == le16(d.w_product_id)
            &&& b.subrange(24, 26) == le16(d.w_version_id)
            &&& b.subrange(26, 30) == seq![0u8, 0u8, 0u8, 0u8]
        }),
{
    let ws = descriptor_words(d);
    let b = descriptor_bytes(d);
    lemma_le16s_len(ws);
    assert(b.subrange(0, 2) =~= le16(d.w_hid_desc_length)) by { lemma_le16s_index(ws, 0); }
    assert(b.subrange(2, 4) =~= le16(d.bcd_version)) by { lemma_le16s_index(ws, 1); }
    assert(b.subrange(4, 6) =~= le16(d.w_report_desc_length)) by { lemma_le16s_index(ws, 2); }
    assert(b.subrange(6, 8) =~= le16(d.w_report_desc_register)) by { lemma_le16s_index(ws, 3); }
    assert(b.subrange(8, 10) =~= le16(d.w_input_register)) by { lemma_le16s_index(ws, 4); }
    assert(b.subrange(10, 12) =~= le16(d.w_max_input_length)) by { lemma_le16s_index(ws, 5); }
    assert(b.subrange(12, 14) =~= le16(d.w_output_register)) by { lemma_le16s_index(ws, 6); }
    assert(b.subrange(14, 16) =~= le16(d.w_max_output_length)) by { lemma_le16s_index(ws, 7); }
    assert(b.subrange(16, 18) =~= le16(d.w_command_register)) by { lemma_le16s_index(ws, 8); }
    assert(b.subrange(18, 20) =~= le16(d.w_data_register)) by { lemma_le16s_index(ws, 9); }
    assert(b.subrange(20, 22) =~= le16(d.w_vendor_id)) by { lemma_le16s_index(ws, 10); }
    assert(b.subrange(22, 24) =~= le16(d.w_product_id)) by { lemma_le16s_index(ws, 11); }
    assert(b.subrange(24, 26) =~= le16(d.w_version_id)) by { lemma_le16s_index(ws, 12); }
    assert(b.subrange(26, 30) =~= seq![0u8, 0u8, 0u8, 0u8]) by {
        lemma_le16s_index(ws, 13);
        lemma_le16s_index(ws, 14);
    }
}

/// Decoding reads each field little-endian from its fixed HID-over-I2C offset: any buffer that
/// holds the fields of `d` at bytes `2k`, `2k + 1` (in declaration order) decodes to `d`.
pub proof fn lemma_descriptor_decode_layout(b: Seq<u8>, d: Descriptor)
    requires
        b.len() >= DESCRIPTOR_LEN,
        b.subrange(0, 2) == le16(d.w_hid_desc_length),
        b.subrange(2, 4) == le16(d.bcd_version),
        b.subrange(4, 6) == le16(d.w_report_desc_length),
        b.subrange(6, 8) == le16(d.w_report_desc_register),
        b.subrange(8, 10) == le16(d.w_input_register),
        b.subrange(10, 12) == le16(d.w_max_input_length),
        b.subrange(12, 14) == le16(d.w_output_register),
        b.subrange(14, 16) == le16(d.w_max_output_length),
        b.subrange(16, 18) == le16(d.w_command_register),
        b.subrange(18, 20) == le16(d.w_data_register),
        b.subrange(20, 22) == le16(d.w_vendor_id),
        b.subrange(22, 24) == le16(d.w_product_id),
        b.subrange(24, 26) == le16(d.w_version_id),
    ensures
        descriptor_from(b) == d,
{
    assert(le16_value(b[0], b[1]) == d.w_hid_desc_length) by { assert(b[0] == b.subrange(0, 2)[0]); assert(b[1] == b.subrange(0, 2)[1]); lemma_le16_roundtrip(d.w_hid_desc_length); }
    assert(le16_value(b[2], b[3]) == d.bcd_version) by { assert(b[2] == b.subrange(2, 4)[0]); assert(b[3] == b.subrange(2, 4)[1]); lemma_le16_roundtrip(d.bcd_version); }
    assert(le16_value(b[4], b[5]) == d.w_report_desc_length) by { assert(b[4] == b.subrange(4, 6)[0]); assert(b[5] == b.subrange(4, 6)[1]); lemma_le16_roundtrip(d.w_report_desc_length); }
    assert(le16_value(b[6], b[7]) == d.w_report_desc_register) by { assert(b[6] == b.subrange(6, 8)[0]); assert(b[7] == b.subrange(6, 8)[1]); lemma_le16_roundtrip(d.w_report_desc_register); }
    assert(le16_value(b[8], b[9]) == d.w_input_register) by { assert(b[8] == b.subrange(8, 10)[0]); assert(b[9] == b.subrange(8, 10)[1]); lemma_le16_roundtrip(d.w_input_register); }
    assert(le16_value(b[10], b[11]) == d.w_max_input_length) by { assert(b[10] == b.subrange(10, 12)[0]); assert(b[11] == b.subrange(10, 12)[1]); lemma_le16_roundtrip(d.w_max_input_length); }
    assert(le16_value(b[12], b[13]) == d.w_output_register) by { assert(b[12] == b.subrange(12, 14)[0]); assert(b[13] == b.subrange(12, 14)[1]); lemma_le16_roundtrip(d.w_output_register); }
    assert(le16_value(b[14], b[15]) == d.w_max_output_length) by { assert(b[14] == b.subrange(14, 16)[0]); assert(b[15] == b.subrange(14, 16)[1]); lemma_le16_roundtrip(d.w_max_output_length); }
    assert(le16_value(b[16], b[17]) == d.w_command_register) by { assert(b[16] == b.subrange(16, 18)[0]); assert(b[17] == b.subrange(16, 18)[1]); lemma_le16_roundtrip(d.w_command_register); }
    assert(le16_value(b[18], b[19]) == d.w_data_register) by { assert(b[18] == b.subrange(18, 20)[0]); assert(b[19] == b.subrange(18, 20)[1]); lemma_le16_roundtrip(d.w_data_register); }
    assert(le16_value(b[20], b[21]) == d.w_vendor_id) by { assert(b[20] == b.subrange(20, 22)[0]); assert(b[21] == b.subrange(20, 22)[1]); lemma_le16_roundtrip(d.w_vendor_id); }
    assert(le16_value(b[22], b[23]) == d.w_product_id) by { assert(b[22] == b.subrange(22, 24)[0]); assert(b[23] == b.subrange(22, 24)[1]); lemma_le16_roundtrip(d.w_product_id); }
    assert(le16_value(b[24], b[25]) == d.w_version_id) by { assert(b[24] == b.subrange(24, 26)[0]); assert(b[25] == b.subrange(24, 26)[1]); lemma_le16_roundtrip(d.w_version_id); }
}

/// HID register values
#[derive(Clone, Copy, Debug, PartialEq, Eq, Structural)]
pub struct RegisterFile {
    /// HID descriptor register
    pub hid_desc_reg: u16,
    /// HID report descriptor register
    pub report_desc_reg: u16,
    /// HID input report register
    pub input_reg: u16,
    /// HID output report register
    pub output_reg: u16,
    /// HID command register
    pub command_reg: u16,
    /// HID data register
    pub data_reg: u16,
}

/// HID devices commonly start with the descriptor register and increment from there in this order
impl Default for RegisterFile {
    fn default() -> (r: Self)
        ensures
            r == (RegisterFile {
                hid_desc_reg: 0x0001,
                report_desc_reg: 0x0002,
                input_reg: 0x0003,
                output_reg: 0x0004,
                command_reg: 0x0005,
                data_reg: 0x0006,
            }),
    {
        Self {
            hid_desc_reg: 0x0001,
            report_desc_reg: 0x0002,
            input_reg: 0x0003,
            output_reg: 0x0004,
            command_reg: 0x0005,
            data_reg: 0x0006,
        }
    }
}

/// HID device ID
#[derive(Clone, Copy, Debug, PartialEq, Eq, Structural)]
pub struct DeviceId(pub u8);

/// HID report ID
#[derive(Clone, Copy, Debug, PartialEq, Eq, Structural)]
pub struct ReportId(pub u8);

/// Host to device messages
#[derive(Clone, Copy, Debug)]
pub enum Request<'a> {
    /// HID descriptor request
    Descriptor,
    /// Report descriptor request
    ReportDescriptor,
    /// Input report request
    InputReport,
    /// Output report request
    OutputReport(Option<ReportId>, &'a [u8]),
    /// Command
    Command(command::Command<'a>),
}

/// Device to host messages
#[derive(Clone, Copy, Debug)]
pub enum Response<'a> {
    /// HID descriptor response
    Descriptor(&'a [u8]),
    /// Report descriptor response
    ReportDescriptor(&'a [u8]),
    /// Input report
    InputReport(&'a [u8]),
    /// Feature report
    FeatureReport(&'a [u8]),
    /// General command responses
    Command(command::CommandResponse),
}

/// HID message data
#[derive(Clone, Copy, Debug)]
pub enum MessageData<'a> {
    /// HID read/write request to register
    Request(Request<'a>),
    /// HID response, some commands may not produce a response
    Response(Option<Response<'a>>),
}

/// Top-level struct for HID communication
#[derive(Clone, Copy, Debug)]
pub struct Message<'a> {
    /// Target/originating device ID
    pub id: DeviceId,
    /// Message contents
    pub data: MessageData<'a>,
}

} // verus!
