//! HID relay code: report descriptor parsing, report sizing and the combination of several
//! report descriptors into one aggregate descriptor with a report-ID remapping table.
use vstd::prelude::*;

verus! {

/// Errors that a HID device operation can fail with.
///
/// Reporting failure triggers a device-initiated reset, so callers must handle these errors explicitly
/// rather than swallowing them.
#[derive(Clone, Copy, Debug, PartialEq, Eq, Structural)]
#[non_exhaustive]
pub enum HidError {
    /// The operation has failed and a device-initiated reset should be triggered.
    TriggerReset,
}

/// Power states that the host can command a HID device to be put into.
#[derive(Clone, Copy, Debug, PartialEq, Eq, Structural)]
pub enum HidDevicePowerState {
    /// Normal operation
    On,
    /// Reduced power state; a device that sends a report in this state can wake the host.
    Sleep,
    /// The device is not allowed to wake the host.
    Off,
}

/// HID report ID
#[derive(Clone, Copy, Debug, PartialEq, Eq, Structural)]
pub struct ReportId(pub u8);

/// A HID report
pub struct HidReport<'buf> {
    id: ReportId,
    data: &'buf [u8],
}

impl<'buf> HidReport<'buf> {
    /// The report ID this report carries.
    pub closed spec fn spec_id(&self) -> ReportId {
        self.id
    }

    /// The payload of this report.
    pub closed spec fn spec_data(&self) -> Seq<u8> {
        self.data@
    }

    /// Create a new HID report from the provided data slice.
    pub fn new(id: ReportId, data: &'buf [u8]) -> (r: Self)
        ensures
            r.spec_id() == id,
            r.spec_data() == data@,
    {
        Self { id, data }
    }

    /// The report ID for this report
    pub fn id(&self) -> (r: ReportId)
        ensures
            r == self.spec_id(),
    {
        self.id
    }

    /// The data for this report.
    pub fn data(&self) -> (r: &'buf [u8])
        ensures
            r@ == self.spec_data(),
    {
        self.data
    }
}

/// HID report types supported by the SetReport operation.
pub enum SetHidReport<'buf> {
    /// An output report
    Output(HidReport<'buf>),
    /// A feature report
    Feature(HidReport<'buf>),
}

impl<'buf> SetHidReport<'buf> {
    /// The report carried by this request, whatever its type.
    pub open spec fn report(&self) -> HidReport<'buf> {
        match self {
            SetHidReport::Output(report) => *report,
            SetHidReport::Feature(report) => *report,
        }
    }

    /// The data for this report, whatever its type.
    pub fn data(&self) -> (r: &'buf [u8])
        ensures
            r@ == self.report().spec_data(),
    {
        match self {
            SetHidReport::Output(report) => report.data(),
            SetHidReport::Feature(report) => report.data(),
        }
    }

    /// The report ID for this report, whatever its type.
    pub fn id(&self) -> (r: ReportId)
        ensures
            r == self.report().spec_id(),
    {
        match self {
            SetHidReport::Output(report) => report.id(),
            SetHidReport::Feature(report) => report.id(),
        }
    }

    /// Produce a copy of this report with a different report ID but the same data and type.
    pub fn relabel(&self, id: ReportId) -> (r: SetHidReport<'buf>)
        ensures
            r.report().spec_id() == id,
            r.report().spec_data() == self.report().spec_data(),
            (r is Output) == (self is Output),
    {
        match self {
            SetHidReport::Output(report) => SetHidReport::Output(HidReport::new(id, report.data())),
            SetHidReport::Feature(report) => SetHidReport::Feature(HidReport::new(id, report.data())),
        }
    }
}

/// A type of report that can be requested by the host
pub enum GetHidReportType {
    /// The host has requested an input report
    Input,
    /// The host has requested a feature report
    Feature,
}

/// HID report types supported by the GetReport operation.
pub enum GetHidReport<'buf> {
    /// An input report
    Input(HidReport<'buf>),
    /// A feature report
    Feature(HidReport<'buf>),
}

impl<'buf> GetHidReport<'buf> {
    /// The report carried by this response, whatever its type.
    pub open spec fn report(&self) -> HidReport<'buf> {
        match self {
            GetHidReport::Input(report) => *report,
            GetHidReport::Feature(report) => *report,
        }
    }

    /// The data for this report, whatever its type.
    pub fn data(&self) -> (r: &'buf [u8])
        ensures
            r@ == self.report().spec_data(),
    {
        match self {
            GetHidReport::Input(report) => report.data(),
            GetHidReport::Feature(report) => report.data(),
        }
    }
}

// ---------------------------------------------------------------------------------------------
// Item headers (section 6.2.2.2 of the HID 1.11 spec)
// ---------------------------------------------------------------------------------------------

/// Header byte value that introduces a long item (section 6.2.2.3 of the HID 1.11 spec).
pub const LONG_ITEM_HEADER: u8 = 0xFE;

/// Main item tag for a Collection item (section 6.2.2.4).
pub const COLLECTION_ITEM_TAG: u8 = 0x0A;

/// Length, in bytes, of a short-item header.
pub const SHORT_ITEM_HEADER_LEN: usize = 1;

/// Length, in bytes, of a long-item header (`[0b1111_1110, bDataSize, bLongItemTag]`).
pub const LONG_ITEM_HEADER_LEN: usize = 3;

/// Encoded header byte of a one-byte Global "Report ID" item.
pub const REPORT_ID_HEADER_SIZE1: u8 = 0x85;

/// Encoded header byte of a Global "Push" item (no data).
pub const PUSH_HEADER: u8 = 0xA4;

/// Encoded header byte of a Global "Pop" item (no data).
pub const POP_HEADER: u8 = 0xB4;

/// Global item tag: Report Size.
pub const GLOBAL_TAG_REPORT_SIZE: u8 = 0x07;
/// Global item tag: Report ID.
pub const GLOBAL_TAG_REPORT_ID: u8 = 0x08;
/// Global item tag: Report Count.
pub const GLOBAL_TAG_REPORT_COUNT: u8 = 0x09;
/// Global item tag: Push.
pub const GLOBAL_TAG_PUSH: u8 = 0x0A;
/// Global item tag: Pop.
pub const GLOBAL_TAG_POP: u8 = 0x0B;

/// Main item tag: Input.
pub const MAIN_TAG_INPUT: u8 = 0x08;
/// Main item tag: Output.
pub const MAIN_TAG_OUTPUT: u8 = 0x09;
/// Main item tag: Feature.
pub const MAIN_TAG_FEATURE: u8 = 0x0B;

/// Maximum `Push`/`Pop` global-item nesting depth supported when parsing a report descriptor.
pub const MAX_PUSH_POP_STACK_DEPTH: usize = 16;

/// The item type encoded in a header byte (bits 3:2): 0 Main, 1 Global, 2 Local, 3 Reserved.
pub open spec fn header_type(h: u8) -> int {
    (h as int / 4) % 4
}

/// The item tag encoded in a header byte (bits 7:4).
pub open spec fn header_tag(h: u8) -> int {
    h as int / 16
}

/// The number of data bytes a short item header announces (bits 1:0; a code of 3 means 4 bytes).
pub open spec fn short_data_len(h: u8) -> int {
    if h % 4 == 3 {
        4
    } else {
        (h % 4) as int
    }
}

/// True if the header byte is a Global "Report ID" item.
pub open spec fn header_is_report_id(h: u8) -> bool {
    header_type(h) == 1 && header_tag(h) == 8
}

/// True if the header byte is a Main "Collection" item.
pub open spec fn header_is_collection(h: u8) -> bool {
    header_type(h) == 0 && header_tag(h) == 10
}

/// The item type of a header byte.
pub open spec fn item_type_of(h: u8) -> HidItemType {
    if header_type(h) == 0 {
        HidItemType::Main
    } else if header_type(h) == 1 {
        HidItemType::Global
    } else if header_type(h) == 2 {
        HidItemType::Local
    } else {
        HidItemType::Reserved
    }
}

/// The type of a HID item.
#[derive(Clone, Copy, Debug, PartialEq, Eq, Structural)]
pub enum HidItemType {
    /// Main item
    Main,
    /// Global item
    Global,
    /// Local item
    Local,
    /// Reserved item type
    Reserved,
}

/// The size field of a short item header
#[derive(Clone, Copy, Debug, PartialEq, Eq, Structural)]
pub enum ShortItemSize {
    /// No data bytes
    Zero,
    /// One data byte
    One,
    /// Two data bytes
    Two,
    /// Four data bytes (encoded as a size value of 3)
    Four,
}

impl ShortItemSize {
    /// The number of data bytes this size represents.
    pub fn data_bytes(self) -> (r: usize)
        ensures
            r == match self {
                ShortItemSize::Zero => 0usize,
                ShortItemSize::One => 1usize,
                ShortItemSize::Two => 2usize,
                ShortItemSize::Four => 4usize,
            },
    {
        match self {
            ShortItemSize::Zero => 0,
            ShortItemSize::One => 1,
            ShortItemSize::Two => 2,
            ShortItemSize::Four => 4,
        }
    }
}

/// A HID item header byte.
#[derive(Clone, Copy, Debug, PartialEq, Eq, Structural)]
pub struct HidReportDescriptorElementHeader(pub u8);

impl HidReportDescriptorElementHeader {
    /// The raw header byte, for writing this item into a descriptor byte stream.
    pub fn byte(&self) -> (r: u8)
        ensures
            r == self.0,
    {
        self.0
    }

    /// The type of the item, which is one of Main, Global, Local, or Reserved.
    pub fn item_type(&self) -> (r: HidItemType)
        ensures
            r == item_type_of(self.0),
    {
        let h = self.0;
        let t = (h >> 2u8) & 3u8;
        assert(t as int == (h as int / 4) % 4) by (bit_vector)
            requires
                t == (h >> 2u8) & 3u8,
        ;
        if t == 0 {
            HidItemType::Main
        } else if t == 1 {
            HidItemType::Global
        } else if t == 2 {
            HidItemType::Local
        } else {
            HidItemType::Reserved
        }
    }

    /// The tag of this item, a 4-bit value that identifies the item within its type.
    pub fn item_tag(&self) -> (r: u8)
        ensures
            r as int == header_tag(self.0),
    {
        let h = self.0;
        let t = h >> 4u8;
        assert(t as int == h as int / 16) by (bit_vector)
            requires
                t == h >> 4u8,
        ;
        t
    }

    /// Whether this is a "long item" header (section 6.2.2.3 of the HID 1.11 spec).
    pub fn is_long_item(&self) -> (r: bool)
        ensures
            r == (self.0 == LONG_ITEM_HEADER),
    {
        self.0 == LONG_ITEM_HEADER
    }

    /// The number of data bytes encoded by a short item header. Only meaningful for short items.
    pub fn short_item_data_size(&self) -> (r: ShortItemSize)
        ensures
            r.data_bytes_spec() == short_data_len(self.0),
    {
        let h = self.0;
        let s = h & 3u8;
        assert(s as int == h as int % 4) by (bit_vector)
            requires
                s == h & 3u8,
        ;
        if s == 0 {
            ShortItemSize::Zero
        } else if s == 1 {
            ShortItemSize::One
        } else if s == 2 {
            ShortItemSize::Two
        } else {
            ShortItemSize::Four
        }
    }

    /// True if this header is a Global "Report ID" item (section 6.2.2.7).
    pub fn is_report_id(&self) -> (r: bool)
        ensures
            r == header_is_report_id(self.0),
    {
        let t = self.item_type();
        let g = match t {
            HidItemType::Global => true,
            _ => false,
        };
        g && self.item_tag() == GLOBAL_TAG_REPORT_ID
    }

    /// True if this header is a Main "Collection" item (section 6.2.2.4).
    pub fn is_collection(&self) -> (r: bool)
        ensures
            r == header_is_collection(self.0),
    {
        let t = self.item_type();
        let m = match t {
            HidItemType::Main => true,
            _ => false,
        };
        m && self.item_tag() == COLLECTION_ITEM_TAG
    }
}

/// The Global item tags this code recognizes or emits (section 6.2.2.7 of the HID 1.11 spec).
#[derive(Clone, Copy, Debug, PartialEq, Eq, Structural)]
pub enum GlobalItemTag {
    /// Report Size
    ReportSize,
    /// Report ID
    ReportId,
    /// Report Count
    ReportCount,
    /// Push
    Push,
    /// Pop
    Pop,
}

/// The tag number of a Global item tag.
pub open spec fn global_tag_value(tag: GlobalItemTag) -> int {
    match tag {
        GlobalItemTag::ReportSize => GLOBAL_TAG_REPORT_SIZE as int,
        GlobalItemTag::ReportId => GLOBAL_TAG_REPORT_ID as int,
        GlobalItemTag::ReportCount => GLOBAL_TAG_REPORT_COUNT as int,
        GlobalItemTag::Push => GLOBAL_TAG_PUSH as int,
        GlobalItemTag::Pop => GLOBAL_TAG_POP as int,
    }
}

/// The size code (bits 1:0) of a short item size.
pub open spec fn size_code(size: ShortItemSize) -> int {
    match size {
        ShortItemSize::Zero => 0,
        ShortItemSize::One => 1,
        ShortItemSize::Two => 2,
        ShortItemSize::Four => 3,
    }
}

impl HidReportDescriptorElementHeader {
    /// Encode a Global short-item header with the given `tag` and data size (section 6.2.2.2 of the
    /// HID 1.11 spec): the tag in bits 7:4, the Global type (1) in bits 3:2, the size code in bits 1:0.
    pub fn global(tag: GlobalItemTag, size: ShortItemSize) -> (r: Self)
        ensures
            r.0 == global_tag_value(tag) * 16 + 4 + size_code(size),
    {
        let t: u8 = match tag {
            GlobalItemTag::ReportSize => GLOBAL_TAG_REPORT_SIZE,
            GlobalItemTag::ReportId => GLOBAL_TAG_REPORT_ID,
            GlobalItemTag::ReportCount => GLOBAL_TAG_REPORT_COUNT,
            GlobalItemTag::Push => GLOBAL_TAG_PUSH,
            GlobalItemTag::Pop => GLOBAL_TAG_POP,
        };
        let s: u8 = match size {
            ShortItemSize::Zero => 0,
            ShortItemSize::One => 1,
            ShortItemSize::Two => 2,
            ShortItemSize::Four => 3,
        };
        Self(t * 16 + 4 + s)
    }
}

/// The header constants are the Global headers they name: a one-byte Report ID, and data-less
/// Push and Pop; each reads back as a Global item with its tag and data size.
pub proof fn lemma_global_header_constants()
    ensures
        REPORT_ID_HEADER_SIZE1 == global_tag_value(GlobalItemTag::ReportId) * 16 + 4 + size_code(
            ShortItemSize::One,
        ),
        PUSH_HEADER == global_tag_value(GlobalItemTag::Push) * 16 + 4 + size_code(ShortItemSize::Zero),
        POP_HEADER == global_tag_value(GlobalItemTag::Pop) * 16 + 4 + size_code(ShortItemSize::Zero),
        header_is_report_id(REPORT_ID_HEADER_SIZE1) && short_data_len(REPORT_ID_HEADER_SIZE1) == 1,
        header_type(PUSH_HEADER) == 1 && header_tag(PUSH_HEADER) == GLOBAL_TAG_PUSH && short_data_len(PUSH_HEADER) == 0,
        header_type(POP_HEADER) == 1 && header_tag(POP_HEADER) == GLOBAL_TAG_POP && short_data_len(POP_HEADER) == 0,
{
}

impl ShortItemSize {
    /// The number of data bytes this size represents.
    pub open spec fn data_bytes_spec(self) -> int {
        match self {
            ShortItemSize::Zero => 0,
            ShortItemSize::One => 1,
            ShortItemSize::Two => 2,
            ShortItemSize::Four => 4,
        }
    }
}

/// Errors that can occur while parsing or combining HID report descriptors.
#[derive(Clone, Copy, Debug, PartialEq, Eq, Structural)]
pub enum HidDescriptorError {
    /// The descriptor ended in the middle of an item.
    TruncatedItem,
    /// A Report ID item did not use the single-byte encoding.
    UnsupportedReportId,
    /// The combined descriptor requires more distinct report IDs than the configured capacity, or
    /// more than 255.
    TooManyReportIds,
    /// The caller-provided output buffer was too small; it should be at least the given size.
    OutputBufferTooSmall(usize),
    /// The descriptor nested `Push` global items more deeply than this parser supports.
    PushPopStackOverflow,
    /// The descriptor contained a `Pop` global item with no matching preceding `Push`.
    UnbalancedPop,
}

// ---------------------------------------------------------------------------------------------
// Item stream
// ---------------------------------------------------------------------------------------------

/// The item starting at `pos`: `Some((data_start, end))` where the item's data is
/// `bytes[data_start..end]`, or `None` if the item runs past the end of `bytes`.
pub open spec fn item_at(bytes: Seq<u8>, pos: int) -> Option<(int, int)> {
    let h = bytes[pos];
    if h == LONG_ITEM_HEADER {
        if pos + 1 >= bytes.len() {
            None
        } else {
            let ds = pos + 3;
            let end = ds + bytes[pos + 1];
            if end <= bytes.len() {
                Some((ds, end))
            } else {
                None
            }
        }
    } else {
        let ds = pos + 1;
        let end = ds + short_data_len(h);
        if end <= bytes.len() {
            Some((ds, end))
        } else {
            None
        }
    }
}

/// A single parsed item from a HID report descriptor: its header byte, its data payload and the
/// complete item including its header.
pub struct DescriptorItem<'a> {
    /// The leading header byte
    pub header: HidReportDescriptorElementHeader,
    /// The data payload (excluding header bytes)
    pub data: &'a [u8],
    /// The whole item, header included
    pub raw: &'a [u8],
}

/// Iterator over the items of a HID report descriptor byte stream, handling short and long items.
///
/// Yields `Err(HidDescriptorError::TruncatedItem)` (once) if an item claims more bytes than
/// remain, after which iteration stops.
pub struct DescriptorItems<'a> {
    bytes: &'a [u8],
    pos: usize,
    done: bool,
}

impl<'a> DescriptorItems<'a> {
    #[verifier::type_invariant]
    closed spec fn position_in_bounds(self) -> bool {
        self.pos <= self.bytes@.len()
    }

    /// The byte stream being walked.
    pub closed spec fn spec_bytes(&self) -> Seq<u8> {
        self.bytes@
    }

    /// Offset of the next item.
    pub closed spec fn spec_pos(&self) -> int {
        self.pos as int
    }

    /// True once a truncated item has been reported.
    pub closed spec fn spec_done(&self) -> bool {
        self.done
    }

    /// Start walking `bytes` at offset 0.
    pub fn new(bytes: &'a [u8]) -> (r: Self)
        ensures
            r.spec_bytes() == bytes@,
            r.spec_pos() == 0,
            !r.spec_done(),
    {
        Self { bytes, pos: 0, done: false }
    }

    /// The next item, `Some(Err(TruncatedItem))` if it is truncated, or `None` at the end.
    pub fn next(&mut self) -> (r: Option<Result<DescriptorItem<'a>, HidDescriptorError>>)
        ensures
            final(self).spec_bytes() == old(self).spec_bytes(),
            0 <= final(self).spec_pos() <= final(self).spec_bytes().len(),
            ({
                let bytes = old(self).spec_bytes();
                let pos = old(self).spec_pos();
                if old(self).spec_done() || pos >= bytes.len() {
                    r is None && final(self).spec_pos() == pos && final(self).spec_done() == old(
                        self,
                    ).spec_done()
                } else {
                    match item_at(bytes, pos) {
                        None => r == Some(
                            Err::<DescriptorItem<'a>, HidDescriptorError>(
                                HidDescriptorError::TruncatedItem,
                            ),
                        ) && final(self).spec_done(),
                        Some((ds, end)) => {
                            &&& r matches Some(Ok(item))
                            &&& item.header.0 == bytes[pos]
                            &&& item.data@ == bytes.subrange(ds, end)
                            &&& item.raw@ == bytes.subrange(pos, end)
                            &&& final(self).spec_pos() == end
                            &&& !final(self).spec_done()
                        },
                    }
                }
            }),
    {
        proof {
            use_type_invariant(&*self);
        }
        if self.done || self.pos >= self.bytes.len() {
            return None;
        }
        let header_byte = self.bytes[self.pos];
        let header = HidReportDescriptorElementHeader(header_byte);

        let (header_len, data_size): (usize, usize) = if header.is_long_item() {
            if self.pos + 1 >= self.bytes.len() {
                self.done = true;
                return Some(Err(HidDescriptorError::TruncatedItem));
            }
            (LONG_ITEM_HEADER_LEN, self.bytes[self.pos + 1] as usize)
        } else {
            (SHORT_ITEM_HEADER_LEN, header.short_item_data_size().data_bytes())
        };

        let data_start = match self.pos.checked_add(header_len) {
            Some(v) => v,
            None => {
                self.done = true;
                return Some(Err(HidDescriptorError::TruncatedItem));
            },
        };
        let data_end = match data_start.checked_add(data_size) {
            Some(v) => v,
            None => {
                self.done = true;
                return Some(Err(HidDescriptorError::TruncatedItem));
            },
        };
        if data_end > self.bytes.len() {
            self.done = true;
            return Some(Err(HidDescriptorError::TruncatedItem));
        }
        let data = vstd::slice::slice_subrange(self.bytes, data_start, data_end);
        let raw = vstd::slice::slice_subrange(self.bytes, self.pos, data_end);
        self.pos = data_end;
        Some(Ok(DescriptorItem { header, data, raw }))
    }
}


// ---------------------------------------------------------------------------------------------
// Push/Pop stack (heapless::Vec)
// ---------------------------------------------------------------------------------------------

/// A saved global-item state as `(report_size_bits, report_count, report_id)`.
pub type SavedGlobalState = (u32, u32, u8);

/// Outcome of pushing onto the bounded stack: the item is handed back when the stack is full.
pub type PushOutcome = Result<(), SavedGlobalState>;

#[verifier::external_type_specification]
#[verifier::external_body]
#[verifier::reject_recursive_types(T)]
pub struct ExHeaplessVec<T, const N: usize>(heapless::Vec<T, N>);

/// The items held by the bounded `Push`/`Pop` stack, bottom first.
pub uninterp spec fn push_pop_stack_contents(v: heapless::Vec<(u32, u32, u8), 16>) -> Seq<(u32, u32, u8)>;

/// Calls `heapless::Vec::new`: an empty vector.
#[verifier::external_body]
fn push_pop_stack_new() -> (v: heapless::Vec<(u32, u32, u8), 16>)
    ensures
        push_pop_stack_contents(v) == Seq::<(u32, u32, u8)>::empty(),
{
    heapless::Vec::new()
}

/// Calls `heapless::Vec::push`: appends when fewer than 16 items are held, otherwise hands the
/// item back and leaves the vector unchanged.
#[verifier::external_body]
fn push_pop_stack_push(v: &mut heapless::Vec<(u32, u32, u8), 16>, item: SavedGlobalState) -> (r: PushOutcome)
    ensures
        r is Ok <==> push_pop_stack_contents(*old(v)).len() < 16,
        r is Err ==> r == PushOutcome::Err(item),
        push_pop_stack_contents(*final(v)) == if push_pop_stack_contents(*old(v)).len() < 16 { push_pop_stack_contents(*old(v)).push(item) } else { push_pop_stack_contents(*old(v)) },
{
    v.push(item)
}

/// Calls `heapless::Vec::pop`: removes and returns the last item, or `None` when empty.
#[verifier::external_body]
fn push_pop_stack_pop(v: &mut heapless::Vec<(u32, u32, u8), 16>) -> (r: Option<(u32, u32, u8)>)
    ensures
        r == if push_pop_stack_contents(*old(v)).len() == 0 { None } else { Some(push_pop_stack_contents(*old(v)).last()) },
        push_pop_stack_contents(*final(v)) == if push_pop_stack_contents(*old(v)).len() == 0 { push_pop_stack_contents(*old(v)) } else { push_pop_stack_contents(*old(v)).drop_last() },
{
    v.pop()
}

// ---------------------------------------------------------------------------------------------
// Report descriptor parsing
// ---------------------------------------------------------------------------------------------

/// Global-item state that persists across items and is saved/restored by `Push`/`Pop`.
#[derive(Clone, Copy, Debug, PartialEq, Eq, Structural)]
pub struct GlobalItemState {
    /// Current Report Size, in bits
    pub report_size_bits: u32,
    /// Current Report Count
    pub report_count: u32,
    /// Current Report ID (0 when the descriptor uses implicit report IDs)
    pub report_id: u8,
}

/// Accumulated payload bits of one report ID, per report type.
#[derive(Clone, Copy, Debug, PartialEq, Eq, Structural)]
pub struct ReportBits {
    /// Input payload bits
    pub input: u32,
    /// Output payload bits
    pub output: u32,
    /// Feature payload bits
    pub feature: u32,
}

/// The maximum payload size, in bytes, of each report type declared by a HID report descriptor.
/// Sizes exclude the report ID byte.
#[derive(Clone, Copy, Debug, Default, PartialEq, Eq, Structural)]
pub struct MaxReportSizes {
    /// Largest input report payload, in bytes.
    pub input: usize,
    /// Largest output report payload, in bytes.
    pub output: usize,
    /// Largest feature report payload, in bytes.
    pub feature: usize,
}

/// Everything the parser tracks while walking a descriptor.
pub struct DescriptorModel {
    /// Current global-item state
    pub state: GlobalItemState,
    /// States saved by `Push`, bottom first
    pub stack: Seq<SavedGlobalState>,
    /// Accumulated bits of each of the 256 report IDs
    pub reports: Seq<ReportBits>,
    /// No Report ID item has been seen so far
    pub implicit: bool,
}

/// `a * b`, saturated at `u32::MAX`.
pub open spec fn sat_mul(a: u32, b: u32) -> u32 {
    if a * b > u32::MAX {
        u32::MAX
    } else {
        (a * b) as u32
    }
}

/// `a + b`, saturated at `u32::MAX`.
pub open spec fn sat_add(a: u32, b: u32) -> u32 {
    if a + b > u32::MAX {
        u32::MAX
    } else {
        (a + b) as u32
    }
}

/// `256^k`
pub open spec fn pow256(k: nat) -> int
    decreases k,
{
    if k == 0 {
        1
    } else {
        256 * pow256((k - 1) as nat)
    }
}

/// The little-endian unsigned value of a byte sequence.
pub open spec fn le_value(d: Seq<u8>) -> int
    decreases d.len(),
{
    if d.len() == 0 {
        0
    } else {
        le_value(d.drop_last()) + d.last() * pow256((d.len() - 1) as nat)
    }
}

/// The value of a short item's data: its little-endian value, or `None` when it carries no data or
/// more than four bytes.
pub open spec fn item_value(d: Seq<u8>) -> Option<u32> {
    if d.len() == 0 || d.len() > 4 {
        None
    } else {
        Some(le_value(d) as u32)
    }
}

/// A global state as saved on the `Push`/`Pop` stack.
pub open spec fn saved(s: GlobalItemState) -> SavedGlobalState {
    (s.report_size_bits, s.report_count, s.report_id)
}

/// A global state restored from the `Push`/`Pop` stack.
pub open spec fn restored(t: SavedGlobalState) -> GlobalItemState {
    GlobalItemState { report_size_bits: t.0, report_count: t.1, report_id: t.2 }
}

/// No bits accumulated.
pub open spec fn zero_bits() -> ReportBits {
    ReportBits { input: 0, output: 0, feature: 0 }
}

/// The parser's state before the first item.
pub open spec fn initial_model() -> DescriptorModel {
    DescriptorModel {
        state: GlobalItemState { report_size_bits: 0, report_count: 0, report_id: 0 },
        stack: Seq::empty(),
        reports: Seq::new(256, |i: int| zero_bits()),
        implicit: true,
    }
}

/// The effect of one item (header `h`, payload `data`) on the parser's state.
pub open spec fn apply_item(m: DescriptorModel, h: u8, data: Seq<u8>) -> Result<
    DescriptorModel,
    HidDescriptorError,
> {
    if h == LONG_ITEM_HEADER {
        Ok(m)
    } else if header_type(h) == 1 {
        let tag = header_tag(h);
        if tag == 7 {
            match item_value(data) {
                None => Err(HidDescriptorError::TruncatedItem),
                Some(v) => Ok(
                    DescriptorModel { state: GlobalItemState { report_size_bits: v, ..m.state }, ..m },
                ),
            }
        } else if tag == 9 {
            match item_value(data) {
                None => Err(HidDescriptorError::TruncatedItem),
                Some(v) => Ok(
                    DescriptorModel { state: GlobalItemState { report_count: v, ..m.state }, ..m },
                ),
            }
        } else if tag == 8 {
            if data.len() != 1 {
                Err(HidDescriptorError::UnsupportedReportId)
            } else {
                Ok(
                    DescriptorModel {
                        state: GlobalItemState { report_id: data[0], ..m.state },
                        implicit: false,
                        ..m
                    },
                )
            }
        } else if tag == 10 {
            if m.stack.len() >= 16 {
                Err(HidDescriptorError::PushPopStackOverflow)
            } else {
                Ok(DescriptorModel { stack: m.stack.push(saved(m.state)), ..m })
            }
        } else if tag == 11 {
            if m.stack.len() == 0 {
                Err(HidDescriptorError::UnbalancedPop)
            } else {
                Ok(
                    DescriptorModel {
                        state: restored(m.stack.last()),
                        stack: m.stack.drop_last(),
                        ..m
                    },
                )
            }
        } else {
            Ok(m)
        }
    } else if header_type(h) == 0 {
        let tag = header_tag(h);
        let bits = sat_mul(m.state.report_size_bits, m.state.report_count);
        let id = m.state.report_id as int;
        let cur = m.reports[id];
        if tag == 8 {
            Ok(
                DescriptorModel {
                    reports: m.reports.update(id, ReportBits { input: sat_add(cur.input, bits), ..cur }),
                    ..m
                },
            )
        } else if tag == 9 {
            Ok(
                DescriptorModel {
                    reports: m.reports.update(
                        id,
                        ReportBits { output: sat_add(cur.output, bits), ..cur },
                    ),
                    ..m
                },
            )
        } else if tag == 11 {
            Ok(
                DescriptorModel {
                    reports: m.reports.update(
                        id,
                        ReportBits { feature: sat_add(cur.feature, bits), ..cur },
                    ),
                    ..m
                },
            )
        } else {
            Ok(m)
        }
    } else {
        Ok(m)
    }
}

/// Parse the items of `bytes` starting at `pos` from parser state `m`: the final state, or the
/// first error met.
pub open spec fn parse_from(m: DescriptorModel, bytes: Seq<u8>, pos: int) -> Result<
    DescriptorModel,
    HidDescriptorError,
>
    decreases bytes.len() - pos,
{
    if pos < 0 || pos >= bytes.len() {
        Ok(m)
    } else {
        match item_at(bytes, pos) {
            None => Err(HidDescriptorError::TruncatedItem),
            Some((ds, end)) => {
                if end <= pos {
                    Ok(m)
                } else {
                    match apply_item(m, bytes[pos], bytes.subrange(ds, end)) {
                        Err(e) => Err(e),
                        Ok(m2) => parse_from(m2, bytes, end),
                    }
                }
            },
        }
    }
}

/// The accumulated bits of one report type (0 input, 1 output, 2 feature).
pub open spec fn bits_of(r: ReportBits, kind: int) -> u32 {
    if kind == 0 {
        r.input
    } else if kind == 1 {
        r.output
    } else {
        r.feature
    }
}

/// The largest accumulated bit count of one report type over all report IDs in `s`.
pub open spec fn max_bits(s: Seq<ReportBits>, kind: int) -> u32
    decreases s.len(),
{
    if s.len() == 0 {
        0
    } else {
        let prev = max_bits(s.drop_last(), kind);
        let b = bits_of(s.last(), kind);
        if b > prev {
            b
        } else {
            prev
        }
    }
}

/// Whole bytes needed for `bits` bits.
pub open spec fn bytes_for_bits(bits: u32) -> int {
    (bits + 7) / 8
}

/// The report sizes implied by accumulated report bits.
pub open spec fn sizes_of(reports: Seq<ReportBits>) -> MaxReportSizes {
    MaxReportSizes {
        input: bytes_for_bits(max_bits(reports, 0)) as usize,
        output: bytes_for_bits(max_bits(reports, 1)) as usize,
        feature: bytes_for_bits(max_bits(reports, 2)) as usize,
    }
}

/// What parsing a report descriptor yields: whether it uses implicit report IDs and the maximum
/// report sizes, or the first error met.
pub open spec fn descriptor_parse(bytes: Seq<u8>) -> Result<(bool, MaxReportSizes), HidDescriptorError> {
    match parse_from(initial_model(), bytes, 0) {
        Err(e) => Err(e),
        Ok(m) => Ok((m.implicit, sizes_of(m.reports))),
    }
}

impl DescriptorItem<'_> {
    /// Reads a little-endian unsigned value from a short item's data payload (1..=4 bytes), or
    /// `None` if there is no data or more than four bytes.
    pub fn try_value_as_int(&self) -> (r: Option<u32>)
        ensures
            r == item_value(self.data@),
    {
        if self.data.len() == 0 || self.data.len() > ShortItemSize::Four.data_bytes() {
            None
        } else {
            let mut value: u32 = 0;
            let mut index: usize = 0;
            let n = self.data.len();
            while index < n
                invariant
                    n == self.data@.len(),
                    1 <= n <= 4,
                    0 <= index <= n,
                    value as int == le_value(self.data@.take(index as int)),
                    (value as int) < pow256(index as nat),
                decreases n - index,
            {
                let byte = self.data[index];
                let ghost prefix = self.data@.take(index as int);
                assert(self.data@.take(index + 1).drop_last() == prefix);
                let shifted = (byte as u32) << (8 * index as u32);
                let next = value | shifted;
                proof {
                    lemma_or_shift(value, byte, index as u32);
                }
                value = next;
                index = index + 1;
            }
            assert(self.data@.take(n as int) == self.data@);
            Some(value)
        }
    }
}

/// Placing `byte` above a value below `256^i` (for `i < 4`) adds `byte * 256^i`.
proof fn lemma_or_shift(value: u32, byte: u8, i: u32)
    requires
        i < 4,
        (value as int) < pow256(i as nat),
    ensures
        (value | ((byte as u32) << (8 * i))) as int == value + byte * pow256(i as nat),
        ((value | ((byte as u32) << (8 * i))) as int) < pow256((i + 1) as nat),
{
    reveal_with_fuel(pow256, 5);
    let b = byte as u32;
    if i == 0 {
        assert(value == 0);
        assert((0u32 | (b << 0u32)) == b) by (bit_vector);
    } else if i == 1 {
        assert(value < 256u32 ==> b < 256u32 ==> (value | (b << 8u32)) == value + b * 256u32) by (bit_vector);
    } else if i == 2 {
        assert(value < 65536u32 ==> b < 256u32 ==> (value | (b << 16u32)) == value + b * 65536u32) by (bit_vector);
    } else {
        assert(value < 16777216u32 ==> b < 256u32 ==> (value | (b << 24u32)) == value + b * 16777216u32) by (bit_vector);
    }
}

/// Converts a bit count to whole bytes, rounding up.
fn bits_to_bytes(bits: u32) -> (r: usize)
    ensures
        r == bytes_for_bits(bits),
{
    let q = bits / 8;
    if bits % 8 != 0 {
        (q + 1) as usize
    } else {
        q as usize
    }
}

/// `a * b` saturated at `u32::MAX`.
fn saturating_mul_u32(a: u32, b: u32) -> (r: u32)
    ensures
        r == sat_mul(a, b),
{
    assert((a as u64) * (b as u64) <= 0xFFFF_FFFFu64 * 0xFFFF_FFFFu64) by (nonlinear_arith);
    let p = (a as u64) * (b as u64);
    if p > 0xFFFF_FFFFu64 {
        u32::MAX
    } else {
        p as u32
    }
}

/// `a + b` saturated at `u32::MAX`.
fn saturating_add_u32(a: u32, b: u32) -> (r: u32)
    ensures
        r == sat_add(a, b),
{
    a.saturating_add(b)
}


/// A HID report descriptor: its bytes, whether it uses implicit report IDs, and the maximum
/// payload size of each report type, all as computed by [`HidReportDescriptor::new`].
#[derive(Debug, Clone, Copy)]
pub struct HidReportDescriptor<'a> {
    bytes: &'a [u8],
    /// true if the report descriptor uses implicit report IDs (it contains no Report ID items)
    report_ids_implicit: bool,
    /// The maximum payload size, in bytes, of each report type
    max_report_sizes: MaxReportSizes,
}

/// The parser's state expressed over the executable representation.
pub open spec fn model_of(
    state: GlobalItemState,
    stack: Seq<SavedGlobalState>,
    reports: Seq<ReportBits>,
    implicit: bool,
) -> DescriptorModel {
    DescriptorModel { state, stack, reports, implicit }
}

impl<'a> HidReportDescriptor<'a> {
    #[verifier::type_invariant]
    closed spec fn parsed(self) -> bool {
        descriptor_parse(self.bytes@) == Ok::<(bool, MaxReportSizes), HidDescriptorError>(
            (self.report_ids_implicit, self.max_report_sizes),
        )
    }

    /// The raw bytes of the descriptor.
    pub closed spec fn spec_bytes(&self) -> Seq<u8> {
        self.bytes@
    }

    /// Whether the descriptor uses implicit report IDs.
    pub closed spec fn spec_implicit(&self) -> bool {
        self.report_ids_implicit
    }

    /// The maximum payload sizes computed when the descriptor was parsed.
    pub closed spec fn spec_max_report_sizes(&self) -> MaxReportSizes {
        self.max_report_sizes
    }

    /// Constructs a HID descriptor from a byte slice.
    ///
    /// Returns [`HidDescriptorError`] if `bytes` is malformed, including
    /// [`HidDescriptorError::PushPopStackOverflow`] if the descriptor nests `Push` items more than
    /// 16 levels deep.
    pub fn new(bytes: &'a [u8]) -> (r: Result<Self, HidDescriptorError>)
        ensures
            match r {
                Ok(d) => d.spec_bytes() == bytes@ && descriptor_parse(bytes@) == Ok::<
                    (bool, MaxReportSizes),
                    HidDescriptorError,
                >((d.spec_implicit(), d.spec_max_report_sizes())),
                Err(e) => descriptor_parse(bytes@) == Err::<(bool, MaxReportSizes), HidDescriptorError>(
                    e,
                ),
            },
    {
        let mut report_ids_implicit = true;
        let zero = ReportBits { input: 0, output: 0, feature: 0 };
        let mut reports: [ReportBits; 256] = [zero; 256];
        let mut state = GlobalItemState { report_size_bits: 0, report_count: 0, report_id: 0 };
        let mut stack = push_pop_stack_new();
        let mut items = DescriptorItems::new(bytes);
        proof {
            assert(reports@ =~= initial_model().reports);
        }
        let ghost target = parse_from(initial_model(), bytes@, 0);

        loop
            invariant
                target == parse_from(initial_model(), bytes@, 0),
                items.spec_bytes() == bytes@,
                !items.spec_done(),
                0 <= items.spec_pos() <= bytes@.len(),
                reports@.len() == 256,
                target == parse_from(
                    model_of(state, push_pop_stack_contents(stack), reports@, report_ids_implicit),
                    bytes@,
                    items.spec_pos(),
                ),
            ensures
                target == parse_from(initial_model(), bytes@, 0),
                items.spec_pos() >= bytes@.len(),
                reports@.len() == 256,
                target == parse_from(
                    model_of(state, push_pop_stack_contents(stack), reports@, report_ids_implicit),
                    bytes@,
                    items.spec_pos(),
                ),
            decreases bytes@.len() - items.spec_pos(),
        {
            let ghost pos = items.spec_pos();
            let next = items.next();
            let item = match next {
                None => break,
                Some(Err(e)) => {
                    proof {
                        assert(item_at(bytes@, pos) is None);
                        assert(e == HidDescriptorError::TruncatedItem);
                        assert(parse_from(model_of(state, push_pop_stack_contents(stack), reports@, report_ids_implicit), bytes@, pos) == Err::<DescriptorModel, HidDescriptorError>(e));
                    }
                    return Err(e);
                },
                Some(Ok(item)) => item,
            };
            let ghost m = model_of(state, push_pop_stack_contents(stack), reports@, report_ids_implicit);
            let ghost h = bytes@[pos];
            proof {
                let (ds, end) = item_at(bytes@, pos).unwrap();
                assert(target == match apply_item(m, h, item.data@) {
                    Err(e) => Err(e),
                    Ok(m2) => parse_from(m2, bytes@, end),
                });
            }
            if item.header.is_long_item() {
                continue;
            }
            match item.header.item_type() {
                HidItemType::Global => {
                    let tag = item.header.item_tag();
                    if tag == GLOBAL_TAG_REPORT_SIZE {
                        match item.try_value_as_int() {
                            Some(v) => {
                                state.report_size_bits = v;
                            },
                            None => {
                                return Err(HidDescriptorError::TruncatedItem);
                            },
                        }
                    } else if tag == GLOBAL_TAG_REPORT_COUNT {
                        match item.try_value_as_int() {
                            Some(v) => {
                                state.report_count = v;
                            },
                            None => {
                                return Err(HidDescriptorError::TruncatedItem);
                            },
                        }
                    } else if tag == GLOBAL_TAG_REPORT_ID {
                        if item.data.len() != 1 {
                            assert(item.data@.len() != 1);
                            return Err(HidDescriptorError::UnsupportedReportId);
                        }
                        report_ids_implicit = false;
                        state.report_id = item.data[0];
                    } else if tag == GLOBAL_TAG_PUSH {
                        let saved_state = (state.report_size_bits, state.report_count, state.report_id);
                        match push_pop_stack_push(&mut stack, saved_state) {
                            Ok(()) => {},
                            Err(_) => {
                                return Err(HidDescriptorError::PushPopStackOverflow);
                            },
                        }
                    } else if tag == GLOBAL_TAG_POP {
                        match push_pop_stack_pop(&mut stack) {
                            Some(t) => {
                                state = GlobalItemState {
                                    report_size_bits: t.0,
                                    report_count: t.1,
                                    report_id: t.2,
                                };
                            },
                            None => {
                                return Err(HidDescriptorError::UnbalancedPop);
                            },
                        }
                    }
                },
                HidItemType::Main => {
                    let bits = saturating_mul_u32(state.report_size_bits, state.report_count);
                    let idx = state.report_id as usize;
                    let mut current = reports[idx];
                    let tag = item.header.item_tag();
                    if tag == MAIN_TAG_INPUT {
                        current.input = saturating_add_u32(current.input, bits);
                    } else if tag == MAIN_TAG_OUTPUT {
                        current.output = saturating_add_u32(current.output, bits);
                    } else if tag == MAIN_TAG_FEATURE {
                        current.feature = saturating_add_u32(current.feature, bits);
                    }
                    reports[idx] = current;
                    proof {
                        let mm = model_of(state, push_pop_stack_contents(stack), reports@, report_ids_implicit);
                        if tag == MAIN_TAG_INPUT || tag == MAIN_TAG_OUTPUT || tag == MAIN_TAG_FEATURE {
                            assert(mm.reports =~= apply_item(m, h, item.data@).unwrap().reports);
                        } else {
                            assert(mm.reports =~= m.reports);
                        }
                    }
                },
                _ => {},
            }
        }

        let mut max = ReportBits { input: 0, output: 0, feature: 0 };
        let mut i: usize = 0;
        while i < 256
            invariant
                0 <= i <= 256,
                reports@.len() == 256,
                max.input == max_bits(reports@.take(i as int), 0),
                max.output == max_bits(reports@.take(i as int), 1),
                max.feature == max_bits(reports@.take(i as int), 2),
            decreases 256 - i,
        {
            let report = reports[i];
            assert(reports@.take(i + 1).drop_last() == reports@.take(i as int));
            if report.input > max.input {
                max.input = report.input;
            }
            if report.output > max.output {
                max.output = report.output;
            }
            if report.feature > max.feature {
                max.feature = report.feature;
            }
            i = i + 1;
        }
        assert(reports@.take(256) == reports@);
        let sizes = MaxReportSizes {
            input: bits_to_bytes(max.input),
            output: bits_to_bytes(max.output),
            feature: bits_to_bytes(max.feature),
        };
        Ok(Self { bytes, report_ids_implicit, max_report_sizes: sizes })
    }

    /// Returns the raw bytes of the HID report descriptor.
    pub fn as_bytes(&self) -> (r: &[u8])
        ensures
            r@ == self.spec_bytes(),
    {
        self.bytes
    }

    /// True if the report descriptor uses implicit report IDs (it contains no Report ID items).
    pub fn report_ids_implicit(&self) -> (r: bool)
        ensures
            r == self.spec_implicit(),
    {
        self.report_ids_implicit
    }

    /// The maximum payload size, in bytes, of each report type, as computed at construction.
    pub fn max_report_sizes(&self) -> (r: MaxReportSizes)
        ensures
            r == self.spec_max_report_sizes(),
    {
        self.max_report_sizes
    }
}


// ---------------------------------------------------------------------------------------------
// Combining descriptors
// ---------------------------------------------------------------------------------------------

/// Upper bound on the framing bytes [`ReportIdMap::combine`] adds per input descriptor: a
/// `Push`/`Pop` pair and, for implicit descriptors, an inserted two-byte Report ID item.
pub const MAX_DESCRIPTOR_FRAMING_OVERHEAD: usize = 4;

/// The combiner's state after some prefix of its work.
pub struct CombineModel {
    /// Bytes written so far
    pub out: Seq<u8>,
    /// Native report ID of each host-facing ID handed out so far (host ID `i + 1` at index `i`)
    pub remaps: Seq<u8>,
    /// First `remaps` index of each input begun so far
    pub starts: Seq<u8>,
    /// First `remaps` index of the input being combined
    pub input_start: int,
    /// The current (implicit) input already had its Report ID item inserted
    pub inserted: bool,
}

/// The combiner's state before any input.
pub open spec fn initial_combine() -> CombineModel {
    CombineModel {
        out: Seq::empty(),
        remaps: Seq::empty(),
        starts: Seq::empty(),
        input_start: 0,
        inserted: false,
    }
}

/// Append one byte to the output, which has room for `cap` bytes.
pub open spec fn write_byte(c: CombineModel, b: u8, cap: int) -> Result<CombineModel, HidDescriptorError> {
    if c.out.len() < cap {
        Ok(CombineModel { out: c.out.push(b), ..c })
    } else {
        Err(HidDescriptorError::OutputBufferTooSmall(cap as usize))
    }
}

/// Append bytes to the output, which has room for `cap` bytes.
pub open spec fn write_bytes(c: CombineModel, s: Seq<u8>, cap: int) -> Result<
    CombineModel,
    HidDescriptorError,
> {
    if c.out.len() + s.len() <= cap {
        Ok(CombineModel { out: c.out + s, ..c })
    } else {
        Err(HidDescriptorError::OutputBufferTooSmall(cap as usize))
    }
}

/// The first index `j >= from` of `s` holding `v`.
pub open spec fn find_from(s: Seq<u8>, from: int, v: u8) -> Option<int>
    decreases s.len() - from,
{
    if from < 0 || from >= s.len() {
        None
    } else if s[from] == v {
        Some(from)
    } else {
        find_from(s, from + 1, v)
    }
}

/// Hand out the next host-facing ID for native ID `native`, given the natives `rm` recorded so
/// far; at most `rcap` (and 255) IDs exist.
pub open spec fn record_native(rm: Seq<u8>, native: u8, rcap: int) -> Result<(Seq<u8>, u8), HidDescriptorError> {
    if rm.len() + 1 > 255 || rm.len() >= rcap {
        Err(HidDescriptorError::TooManyReportIds)
    } else {
        Ok((rm.push(native), (rm.len() + 1) as u8))
    }
}

/// The host-facing ID of native ID `native` in the input whose block starts at `from`, handing
/// out a new one the first time the input declares it.
pub open spec fn assign_native(rm: Seq<u8>, from: int, native: u8, rcap: int) -> Result<
    (Seq<u8>, u8),
    HidDescriptorError,
> {
    match find_from(rm, from, native) {
        Some(j) => {
            if j + 1 <= 255 {
                Ok((rm, (j + 1) as u8))
            } else {
                record_native(rm, native, rcap)
            }
        },
        None => record_native(rm, native, rcap),
    }
}

/// The combiner's handling of one item (header `h`, payload `data`, whole item `raw`) of an
/// input that uses implicit report IDs when `imp` holds.
pub open spec fn combine_item(
    c: CombineModel,
    h: u8,
    data: Seq<u8>,
    raw: Seq<u8>,
    imp: bool,
    cap: int,
    rcap: int,
) -> Result<CombineModel, HidDescriptorError> {
    if header_is_report_id(h) {
        if data.len() != 1 {
            Err(HidDescriptorError::UnsupportedReportId)
        } else {
            match assign_native(c.remaps, c.input_start, data[0], rcap) {
                Err(e) => Err(e),
                Ok((rm, id)) => match write_byte(CombineModel { remaps: rm, ..c }, h, cap) {
                    Err(e) => Err(e),
                    Ok(c3) => write_byte(c3, id, cap),
                },
            }
        }
    } else {
        match write_bytes(c, raw, cap) {
            Err(e) => Err(e),
            Ok(c2) => {
                if imp && !c2.inserted && header_is_collection(h) {
                    match record_native(c2.remaps, 0, rcap) {
                        Err(e) => Err(e),
                        Ok((rm, id)) => match write_byte(
                            CombineModel { remaps: rm, ..c2 },
                            REPORT_ID_HEADER_SIZE1,
                            cap,
                        ) {
                            Err(e) => Err(e),
                            Ok(c4) => match write_byte(c4, id, cap) {
                                Err(e) => Err(e),
                                Ok(c5) => Ok(CombineModel { inserted: true, ..c5 }),
                            },
                        },
                    }
                } else {
                    Ok(c2)
                }
            },
        }
    }
}

/// The combiner's walk over the items of one input, from offset `pos`.
pub open spec fn combine_walk(c: CombineModel, b: Seq<u8>, pos: int, imp: bool, cap: int, rcap: int) -> Result<
    CombineModel,
    HidDescriptorError,
>
    decreases b.len() - pos,
{
    if pos < 0 || pos >= b.len() {
        Ok(c)
    } else {
        match item_at(b, pos) {
            None => Err(HidDescriptorError::TruncatedItem),
            Some((ds, end)) => {
                if end <= pos {
                    Ok(c)
                } else {
                    match combine_item(c, b[pos], b.subrange(ds, end), b.subrange(pos, end), imp, cap, rcap) {
                        Err(e) => Err(e),
                        Ok(c2) => combine_walk(c2, b, end, imp, cap, rcap),
                    }
                }
            },
        }
    }
}

/// The combiner's handling of one input: open its block, wrap its items in `Push`/`Pop`.
pub open spec fn combine_input(c: CombineModel, b: Seq<u8>, imp: bool, cap: int, rcap: int) -> Result<
    CombineModel,
    HidDescriptorError,
> {
    if c.remaps.len() > 255 {
        Err(HidDescriptorError::TooManyReportIds)
    } else {
        let c1 = CombineModel {
            starts: c.starts.push(c.remaps.len() as u8),
            input_start: c.remaps.len() as int,
            inserted: false,
            ..c
        };
        match write_byte(c1, PUSH_HEADER, cap) {
            Err(e) => Err(e),
            Ok(c2) => match combine_walk(c2, b, 0, imp, cap, rcap) {
                Err(e) => Err(e),
                Ok(c3) => write_byte(c3, POP_HEADER, cap),
            },
        }
    }
}

/// The combiner's handling of inputs `i..` (each given as its bytes and its implicit flag).
pub open spec fn combine_all(c: CombineModel, inputs: Seq<(Seq<u8>, bool)>, i: int, cap: int, rcap: int) -> Result<
    CombineModel,
    HidDescriptorError,
>
    decreases inputs.len() - i,
{
    if i < 0 || i >= inputs.len() {
        Ok(c)
    } else {
        match combine_input(c, inputs[i].0, inputs[i].1, cap, rcap) {
            Err(e) => Err(e),
            Ok(c2) => combine_all(c2, inputs, i + 1, cap, rcap),
        }
    }
}

/// Total input bytes of `inputs[..n]`.
pub open spec fn input_bytes(inputs: Seq<(Seq<u8>, bool)>, n: int) -> int
    decreases n,
{
    if n <= 0 || n > inputs.len() {
        0
    } else {
        input_bytes(inputs, n - 1) + inputs[n - 1].0.len()
    }
}

/// The output size [`ReportIdMap::combine`] asks for: the inputs plus the framing overhead.
pub open spec fn required_output_len(inputs: Seq<(Seq<u8>, bool)>) -> int {
    input_bytes(inputs, inputs.len() as int) + inputs.len() * 4
}

/// What combining `inputs` into an output of `cap` bytes with room for `rcap` report IDs yields
/// before the combined descriptor is parsed again.
pub open spec fn combine_result(inputs: Seq<(Seq<u8>, bool)>, cap: int, rcap: int) -> Result<
    CombineModel,
    HidDescriptorError,
> {
    let need = required_output_len(inputs);
    if cap < need {
        Err(HidDescriptorError::OutputBufferTooSmall(need as usize))
    } else {
        match combine_all(initial_combine(), inputs, 0, cap, rcap) {
            Err(e) => Err(e),
            Ok(c) => {
                if c.remaps.len() > 255 {
                    Err(HidDescriptorError::TooManyReportIds)
                } else {
                    Ok(c)
                }
            },
        }
    }
}

/// A bounds-checked, non-panicking writer over a caller-provided output buffer.
struct BoundedWriter<'buf> {
    buf: &'buf mut [u8],
    pos: usize,
}

impl<'buf> BoundedWriter<'buf> {
    fn new(buf: &'buf mut [u8]) -> (r: Self)
        ensures
            r.buf@ == old(buf)@,
            r.pos == 0,
    {
        Self { buf, pos: 0 }
    }

    fn push(&mut self, byte: u8) -> (r: Result<(), HidDescriptorError>)
        requires
            old(self).pos <= old(self).buf@.len(),
        ensures
            final(self).buf@.len() == old(self).buf@.len(),
            final(self).pos <= final(self).buf@.len(),
            final(self).buf@.subrange(0, final(self).pos as int) == old(self).buf@.subrange(0, old(self).pos as int).push(byte) || r is Err,
            match r {
                Ok(_) => old(self).pos < old(self).buf@.len() && final(self).pos == old(self).pos + 1
                    && final(self).buf@.subrange(0, final(self).pos as int) == old(self).buf@.subrange(0, old(self).pos as int).push(byte),
                Err(e) => old(self).pos >= old(self).buf@.len() && e == HidDescriptorError::OutputBufferTooSmall(old(self).buf@.len() as usize),
            },
    {
        let buflen = self.buf.len();
        if self.pos < buflen {
            let ghost before = self.buf@.subrange(0, self.pos as int);
            self.buf[self.pos] = byte;
            self.pos = self.pos + 1;
            assert(self.buf@.subrange(0, self.pos as int) =~= before.push(byte));
            Ok(())
        } else {
            Err(HidDescriptorError::OutputBufferTooSmall(buflen))
        }
    }

    fn push_slice(&mut self, bytes: &[u8]) -> (r: Result<(), HidDescriptorError>)
        requires
            old(self).pos <= old(self).buf@.len(),
        ensures
            final(self).buf@.len() == old(self).buf@.len(),
            final(self).pos <= final(self).buf@.len(),
            match r {
                Ok(_) => old(self).pos + bytes@.len() <= old(self).buf@.len() && final(self).pos == old(self).pos + bytes@.len()
                    && final(self).buf@.subrange(0, final(self).pos as int) == old(self).buf@.subrange(0, old(self).pos as int) + bytes@,
                Err(e) => old(self).pos + bytes@.len() > old(self).buf@.len() && e == HidDescriptorError::OutputBufferTooSmall(old(self).buf@.len() as usize),
            },
    {
        let buflen = self.buf.len();
        if bytes.len() > buflen - self.pos {
            return Err(HidDescriptorError::OutputBufferTooSmall(buflen));
        }
        let start = self.pos;
        let ghost before = self.buf@.subrange(0, start as int);
        let mut i: usize = 0;
        while i < bytes.len()
            invariant
                start + bytes@.len() <= buflen,
                self.buf@.len() == buflen,
                0 <= i <= bytes@.len(),
                self.pos == start,
                self.buf@.subrange(0, start + i) =~= before + bytes@.take(i as int),
            decreases bytes@.len() - i,
        {
            let ghost old_buf = self.buf@;
            self.buf[start + i] = bytes[i];
            assert(self.buf@.subrange(0, start + i + 1) =~= old_buf.subrange(0, start + i).push(bytes@[i as int]));
            assert(bytes@.take(i + 1) =~= bytes@.take(i as int).push(bytes@[i as int]));
            i = i + 1;
        }
        self.pos = start + bytes.len();
        assert(bytes@.take(bytes@.len() as int) == bytes@);
        Ok(())
    }
}


/// The input after which the combiner writes the closing `Pop` and moves on to input `i + 1`.
pub open spec fn after_walk(r: Result<CombineModel, HidDescriptorError>, inputs: Seq<(Seq<u8>, bool)>, i: int, cap: int, rcap: int) -> Result<
    CombineModel,
    HidDescriptorError,
> {
    match r {
        Err(e) => Err(e),
        Ok(c3) => match write_byte(c3, POP_HEADER, cap) {
            Err(e) => Err(e),
            Ok(c4) => combine_all(c4, inputs, i + 1, cap, rcap),
        },
    }
}

/// The last owner whose block starts at or before `idx`, among the first `n` owners.
pub open spec fn owner_index(starts: Seq<u8>, n: int, idx: int) -> Option<int>
    decreases n,
{
    if n <= 0 {
        None
    } else if starts[n - 1] <= idx {
        Some(n - 1)
    } else {
        owner_index(starts, n - 1, idx)
    }
}

/// The half-open `remaps` range `[start, end)` owned by `owner`.
pub open spec fn block_bounds(starts: Seq<u8>, total: int, owner: int) -> Option<(int, int)> {
    if owner < 0 || owner >= starts.len() {
        None
    } else if owner + 1 < starts.len() {
        Some((starts[owner] as int, starts[owner + 1] as int))
    } else {
        Some((starts[owner] as int, total))
    }
}

/// The first index `j` in `[from, to)` of `s` holding `v`.
pub open spec fn find_in(s: Seq<u8>, from: int, to: int, v: u8) -> Option<int>
    decreases to - from,
{
    if from < 0 || from >= to || from >= s.len() {
        None
    } else if s[from] == v {
        Some(from)
    } else {
        find_in(s, from + 1, to, v)
    }
}

/// Where a host-facing report ID leads: the owning input and the native report ID.
pub open spec fn route_of(natives: Seq<u8>, starts: Seq<u8>, host: int) -> Option<(usize, u8)> {
    if 1 <= host <= natives.len() {
        match owner_index(starts, starts.len() as int, host - 1) {
            Some(o) => Some((o as usize, natives[host - 1])),
            None => None,
        }
    } else {
        None
    }
}

/// The host-facing report ID of `native` within `owner`'s block.
pub open spec fn host_id_of(natives: Seq<u8>, starts: Seq<u8>, owner: int, native: u8) -> Option<u8> {
    match block_bounds(starts, natives.len() as int, owner) {
        None => None,
        Some((start, end)) => {
            if start > end || end > natives.len() {
                None
            } else {
                match find_in(natives, start, end, native) {
                    None => None,
                    Some(j) => {
                        if j + 1 <= 255 {
                            Some((j + 1) as u8)
                        } else {
                            None
                        }
                    },
                }
            }
        },
    }
}

/// Within each owner's block the native report IDs are pairwise distinct.
pub open spec fn blocks_distinct(natives: Seq<u8>, starts: Seq<u8>) -> bool {
    forall|i: int, j: int|
        0 <= i < j < natives.len() && owner_index(starts, starts.len() as int, i) == owner_index(
            starts,
            starts.len() as int,
            j,
        ) ==> natives[i] != natives[j]
}

/// The block structure of a remapping table: blocks start in order at 0 and cover the
/// `natives`, whose count fits a report ID.
pub open spec fn blocks_ordered(natives: Seq<u8>, starts: Seq<u8>) -> bool {
    &&& natives.len() <= 255
    &&& (starts.len() == 0 ==> natives.len() == 0)
    &&& (starts.len() > 0 ==> starts[0] == 0)
    &&& forall|i: int, j: int| 0 <= i <= j < starts.len() ==> starts[i] <= starts[j]
    &&& forall|i: int| 0 <= i < starts.len() ==> starts[i] <= natives.len()
}

/// Partitions the `remaps` table into one contiguous block per owner (input/child).
#[derive(Debug)]
struct BlockBoundaries<const OWNERS: usize> {
    /// First `remaps` index owned by each owner, in owner order.
    starts: [u8; OWNERS],
    /// Total number of reports across all owners (the end of the last owner's block).
    total: u8,
}

impl<const OWNERS: usize> BlockBoundaries<OWNERS> {
    fn new() -> (r: Self)
        ensures
            r.total == 0,
            forall|i: int| 0 <= i < OWNERS ==> r.starts@[i] == 0,
    {
        let r = Self { starts: [0u8; OWNERS], total: 0 };
        assert(forall|i: int| 0 <= i < OWNERS ==> r.starts@[i] == 0);
        r
    }

    fn total(&self) -> (r: usize)
        ensures
            r == self.total,
    {
        self.total as usize
    }

    /// The owner of the report at `report_index`: the last owner whose start is `<= report_index`.
    fn owner_of(&self, report_index: usize) -> (r: Option<usize>)
        ensures
            r == match owner_index(self.starts@, OWNERS as int, report_index as int) {
                Some(o) => Some(o as usize),
                None => None::<usize>,
            },
    {
        let mut n: usize = OWNERS;
        while n > 0
            invariant
                n <= OWNERS,
                self.starts@.len() == OWNERS,
                owner_index(self.starts@, OWNERS as int, report_index as int) == owner_index(
                    self.starts@,
                    n as int,
                    report_index as int,
                ),
            decreases n,
        {
            if (self.starts[n - 1] as usize) <= report_index {
                return Some(n - 1);
            }
            n = n - 1;
        }
        None
    }

    /// The half-open range `[start, end)` owned by `owner`.
    fn bounds(&self, owner: usize) -> (r: Option<(usize, usize)>)
        ensures
            r == match block_bounds(self.starts@, self.total as int, owner as int) {
                Some((s, e)) => Some((s as usize, e as usize)),
                None => None::<(usize, usize)>,
            },
    {
        if owner >= OWNERS {
            return None;
        }
        let start = self.starts[owner] as usize;
        let end = if owner + 1 < OWNERS {
            self.starts[owner + 1] as usize
        } else {
            self.total as usize
        };
        Some((start, end))
    }

    /// Record that `owner`'s block begins at `report_index`.
    fn set_start(&mut self, owner: usize, report_index: usize) -> (r: Result<(), HidDescriptorError>)
        ensures
            final(self).total == old(self).total,
            match r {
                Ok(_) => owner < OWNERS && report_index <= 255 && final(self).starts@ == old(
                    self,
                ).starts@.update(owner as int, report_index as u8),
                Err(e) => e == HidDescriptorError::TooManyReportIds && (owner >= OWNERS
                    || report_index > 255) && final(self).starts@ == old(self).starts@,
            },
    {
        if owner >= OWNERS || report_index > 255 {
            return Err(HidDescriptorError::TooManyReportIds);
        }
        self.starts[owner] = report_index as u8;
        Ok(())
    }

    /// Record the total report count.
    fn set_total(&mut self, total: usize) -> (r: Result<(), HidDescriptorError>)
        ensures
            final(self).starts@ == old(self).starts@,
            match r {
                Ok(_) => total <= 255 && final(self).total == total,
                Err(e) => e == HidDescriptorError::TooManyReportIds && total > 255 && final(self).total
                    == old(self).total,
            },
    {
        if total > 255 {
            return Err(HidDescriptorError::TooManyReportIds);
        }
        self.total = total as u8;
        Ok(())
    }
}


/// Builds the report-ID remapping tables: host IDs are handed out contiguously from 1, in the
/// order [`record`](Self::record) is called.
struct ReportIdMapBuilder<const REPORTS: usize, const OWNERS: usize> {
    /// Native report ID per assigned host ID, indexed by `host_id - 1`.
    remaps: [u8; REPORTS],
    /// Per-owner block boundaries.
    blocks: BlockBoundaries<OWNERS>,
    /// Number of reports recorded so far.
    count: usize,
    /// First `remaps` index of the input currently being built.
    input_start: usize,
}

impl<const REPORTS: usize, const OWNERS: usize> ReportIdMapBuilder<REPORTS, OWNERS> {
    /// The native IDs recorded so far.
    spec fn natives(&self) -> Seq<u8> {
        self.remaps@.take(self.count as int)
    }

    /// The block structure holds for the first `begun` owners, and the later ones are unset.
    spec fn blocks_ok(&self, begun: int) -> bool {
        &&& self.count <= REPORTS
        &&& self.input_start <= self.count
        &&& 0 <= begun <= OWNERS
        &&& (begun > 0 ==> self.blocks.starts@[0] == 0)
        &&& (begun > 0 ==> self.input_start == self.blocks.starts@[begun - 1])
        &&& forall|i: int, j: int|
            0 <= i <= j < begun ==> self.blocks.starts@[i] <= self.blocks.starts@[j]
        &&& forall|i: int| 0 <= i < begun ==> self.blocks.starts@[i] <= self.count
        &&& forall|i: int| begun <= i < OWNERS ==> self.blocks.starts@[i] == 0
    }

    fn new() -> (r: Self)
        ensures
            r.count == 0,
            r.input_start == 0,
            r.natives() == Seq::<u8>::empty(),
            r.blocks.total == 0,
            r.blocks_ok(0),
    {
        Self { remaps: [0u8; REPORTS], blocks: BlockBoundaries::new(), count: 0, input_start: 0 }
    }

    /// Begin the block for input `input_index`, recording its start boundary.
    fn begin_input(&mut self, input_index: usize) -> (r: Result<(), HidDescriptorError>)
        requires
            old(self).blocks_ok(input_index as int),
            input_index < OWNERS,
            input_index == 0 ==> old(self).count == 0,
        ensures
            final(self).count == old(self).count,
            final(self).natives() == old(self).natives(),
            final(self).blocks.total == old(self).blocks.total,
            match r {
                Ok(_) => old(self).count <= 255 && final(self).input_start == old(self).count
                    && final(self).blocks.starts@ == old(self).blocks.starts@.update(
                    input_index as int,
                    old(self).count as u8,
                ) && final(self).blocks_ok(input_index + 1),
                Err(e) => e == HidDescriptorError::TooManyReportIds && old(self).count > 255,
            },
    {
        let r = self.blocks.set_start(input_index, self.count);
        if r.is_ok() {
            self.input_start = self.count;
            proof {
                let b = input_index + 1;
                assert forall|i: int, j: int| 0 <= i <= j < b implies self.blocks.starts@[i]
                    <= self.blocks.starts@[j] by {
                    if j == input_index {
                        assert(self.blocks.starts@[j] == self.count);
                    }
                }
            }
        }
        r
    }

    /// The host-facing ID already assigned to `native_id` within the current input's block.
    fn assigned(&self, native_id: u8) -> (r: Option<u8>)
        requires
            self.count <= REPORTS,
            self.input_start <= self.count,
        ensures
            r == match find_from(self.natives(), self.input_start as int, native_id) {
                Some(j) => if j + 1 <= 255 {
                    Some((j + 1) as u8)
                } else {
                    None::<u8>
                },
                None => None::<u8>,
            },
    {
        let mut j = self.input_start;
        while j < self.count
            invariant
                self.count <= REPORTS,
                self.input_start <= j <= self.count,
                find_from(self.natives(), self.input_start as int, native_id) == find_from(
                    self.natives(),
                    j as int,
                    native_id,
                ),
            decreases self.count - j,
        {
            if self.remaps[j] == native_id {
                if j + 1 <= 255 {
                    return Some((j + 1) as u8);
                } else {
                    return None;
                }
            }
            j = j + 1;
        }
        None
    }

    /// Record a new report with native ID `native_id`, returning the host-facing ID it is assigned.
    fn record(&mut self, native_id: u8) -> (r: Result<u8, HidDescriptorError>)
        requires
            old(self).count <= REPORTS,
        ensures
            final(self).blocks == old(self).blocks,
            final(self).input_start == old(self).input_start,
            final(self).count <= REPORTS,
            match record_native(old(self).natives(), native_id, REPORTS as int) {
                Ok((rm, id)) => r == Ok::<u8, HidDescriptorError>(id) && final(self).natives() == rm
                    && final(self).count == old(self).count + 1,
                Err(e) => r == Err::<u8, HidDescriptorError>(e) && final(self).natives() == old(
                    self,
                ).natives() && final(self).count == old(self).count,
            },
    {
        if self.count >= 255 || self.count >= REPORTS {
            return Err(HidDescriptorError::TooManyReportIds);
        }
        let assigned = (self.count + 1) as u8;
        let ghost before = self.natives();
        self.remaps[self.count] = native_id;
        self.count = self.count + 1;
        assert(self.natives() =~= before.push(native_id));
        Ok(assigned)
    }

    /// Finalize the tables into a map: record the total report count.
    fn finish(self) -> (r: Result<ReportIdMap<REPORTS, OWNERS>, HidDescriptorError>)
        requires
            self.blocks_ok(OWNERS as int),
            OWNERS == 0 ==> self.count == 0,
            blocks_distinct(self.natives(), self.blocks.starts@),
        ensures
            match r {
                Ok(m) => self.count <= 255 && m.natives() == self.natives() && m.block_starts()
                    == self.blocks.starts@ && m.wf(),
                Err(e) => e == HidDescriptorError::TooManyReportIds && self.count > 255,
            },
    {
        let mut blocks = self.blocks;
        match blocks.set_total(self.count) {
            Ok(()) => {},
            Err(e) => {
                return Err(e);
            },
        }
        let map = ReportIdMap { remaps: self.remaps, blocks };
        Ok(map)
    }

    /// Return the host-facing ID for `native_id` in the current input, recording it if it is new.
    fn assign(&mut self, native_id: u8) -> (r: Result<u8, HidDescriptorError>)
        requires
            old(self).count <= REPORTS,
            old(self).input_start <= old(self).count,
        ensures
            final(self).blocks == old(self).blocks,
            final(self).input_start == old(self).input_start,
            final(self).count <= REPORTS,
            final(self).count >= old(self).count,
            match assign_native(old(self).natives(), old(self).input_start as int, native_id, REPORTS as int) {
                Ok((rm, id)) => r == Ok::<u8, HidDescriptorError>(id) && final(self).natives() == rm,
                Err(e) => r == Err::<u8, HidDescriptorError>(e) && final(self).natives() == old(
                    self,
                ).natives(),
            },
    {
        match self.assigned(native_id) {
            Some(id) => Ok(id),
            None => self.record(native_id),
        }
    }
}

/// Owns the two report-ID remapping tables produced by combining a set of HID report descriptors,
/// and exposes the lookups needed to route reports between the host and each constituent input.
///
/// `REPORT_COUNT` is the capacity of the native-report-ID table; `DEVICE_COUNT` is the number of
/// constituent devices. Host-facing report IDs are assigned contiguously from 1 in input order,
/// then within an input in declaration order.
#[derive(Debug)]
pub struct ReportIdMap<const REPORT_COUNT: usize, const DEVICE_COUNT: usize> {
    /// Native/subdevice-facing report ID for each host-facing ID, indexed by `host_id - 1`.
    remaps: [u8; REPORT_COUNT],
    /// Per-owner block boundaries into `remaps`.
    blocks: BlockBoundaries<DEVICE_COUNT>,
}

impl<const REPORT_COUNT: usize, const DEVICE_COUNT: usize> ReportIdMap<REPORT_COUNT, DEVICE_COUNT> {
    #[verifier::type_invariant]
    closed spec fn well_formed(self) -> bool {
        &&& self.blocks.total <= REPORT_COUNT
        &&& (DEVICE_COUNT == 0 ==> self.blocks.total == 0)
        &&& (DEVICE_COUNT > 0 ==> self.blocks.starts@[0] == 0)
        &&& forall|i: int, j: int|
            0 <= i <= j < DEVICE_COUNT ==> self.blocks.starts@[i] <= self.blocks.starts@[j]
        &&& forall|i: int| 0 <= i < DEVICE_COUNT ==> self.blocks.starts@[i] <= self.blocks.total
        &&& blocks_ordered(self.remaps@.take(self.blocks.total as int), self.blocks.starts@)
        &&& blocks_distinct(self.remaps@.take(self.blocks.total as int), self.blocks.starts@)
    }

    /// The remapping table's blocks are ordered and hold distinct native IDs; every map that
    /// [`combine`](Self::combine) returns has this shape.
    pub closed spec fn wf(&self) -> bool {
        &&& blocks_ordered(self.natives(), self.block_starts())
        &&& blocks_distinct(self.natives(), self.block_starts())
        &&& self.block_starts().len() == DEVICE_COUNT
    }

    /// Native report ID behind each host-facing ID (host ID `i + 1` at index `i`).
    pub closed spec fn natives(&self) -> Seq<u8> {
        self.remaps@.take(self.blocks.total as int)
    }

    /// First index into [`natives`](Self::natives) owned by each input.
    pub closed spec fn block_starts(&self) -> Seq<u8> {
        self.blocks.starts@
    }

    /// Combines multiple HID report descriptors into a single descriptor whose top-level
    /// collections are the concatenation of the inputs' top-level collections, written into
    /// `out`, and captures the resulting report-ID remapping.
    ///
    /// Every report is renumbered contiguously from 1 in input order; an input that uses
    /// implicit report IDs gets a Report ID item inserted right inside its first collection (and
    /// is addressed by native report ID 0). Each input's items are wrapped in a `Push`/`Pop` pair,
    /// so `out` must hold the inputs plus [`MAX_DESCRIPTOR_FRAMING_OVERHEAD`] bytes per input.
    pub fn combine<'buf>(
        inputs: &[&HidReportDescriptor<'_>; DEVICE_COUNT],
        out: &'buf mut [u8],
    ) -> (r: Result<(HidReportDescriptor<'buf>, Self), HidDescriptorError>)
        requires
            required_output_len(descriptors_model(inputs@)) <= usize::MAX,
        ensures
            old(out)@.len() < required_output_len(descriptors_model(inputs@)) ==> final(out)@ == old(out)@,
            match r {
                Ok((d, map)) => match combine_result(
                    descriptors_model(inputs@),
                    old(out)@.len() as int,
                    REPORT_COUNT as int,
                ) {
                    Ok(c) => d.spec_bytes() == c.out && map.natives() == c.remaps
                        && map.block_starts() == c.starts && map.wf() && descriptor_parse(c.out) == Ok::<
                        (bool, MaxReportSizes),
                        HidDescriptorError,
                    >((d.spec_implicit(), d.spec_max_report_sizes())),
                    Err(_) => false,
                },
                Err(e) => match combine_result(
                    descriptors_model(inputs@),
                    old(out)@.len() as int,
                    REPORT_COUNT as int,
                ) {
                    Err(e2) => e == e2,
                    Ok(c) => descriptor_parse(c.out) == Err::<(bool, MaxReportSizes), HidDescriptorError>(
                        e,
                    ),
                },
            },
    {
        let ghost ins = descriptors_model(inputs@);
        let ghost cap = out@.len() as int;
        let ghost rcap = REPORT_COUNT as int;

        let mut expected: usize = 0;
        let mut k: usize = 0;
        while k < DEVICE_COUNT
            invariant
                0 <= k <= DEVICE_COUNT,
                ins == descriptors_model(inputs@),
                ins.len() == DEVICE_COUNT,
                required_output_len(ins) <= usize::MAX,
                expected == input_bytes(ins, k as int),
            decreases DEVICE_COUNT - k,
        {
            proof {
                lemma_input_bytes_monotone(ins, k + 1, DEVICE_COUNT as int);
                assert(input_bytes(ins, k + 1) == input_bytes(ins, k as int) + inputs@[k as int].spec_bytes().len());
            }
            expected = expected + inputs[k].as_bytes().len();
            k = k + 1;
        }
        expected = expected + DEVICE_COUNT * MAX_DESCRIPTOR_FRAMING_OVERHEAD;
        if out.len() < expected {
            return Err(HidDescriptorError::OutputBufferTooSmall(expected));
        }

        let mut writer = BoundedWriter::new(out);
        let mut builder = ReportIdMapBuilder::<REPORT_COUNT, DEVICE_COUNT>::new();
        let ghost target = combine_all(initial_combine(), ins, 0, cap, rcap);
        let ghost mut last_inserted = false;
        proof {
            assert(builder.blocks.starts@.take(0) =~= Seq::<u8>::empty());
            assert(writer.buf@.subrange(0, 0) =~= Seq::<u8>::empty());
        }
        let mut input_index: usize = 0;
        while input_index < DEVICE_COUNT
            invariant
                0 <= input_index <= DEVICE_COUNT,
                ins == descriptors_model(inputs@),
                ins.len() == DEVICE_COUNT,
                cap == writer.buf@.len(),
                rcap == REPORT_COUNT,
                writer.pos <= writer.buf@.len(),
                builder.blocks_ok(input_index as int),
                input_index == 0 ==> builder.count == 0,
                builder.blocks.total == 0,
                cap >= required_output_len(ins),
                cap == old(out)@.len(),
                blocks_distinct(builder.natives(), builder.blocks.starts@.take(input_index as int)),
                target == combine_all(initial_combine(), ins, 0, cap, rcap),
                target == combine_all(
                    CombineModel {
                        out: writer.buf@.subrange(0, writer.pos as int),
                        remaps: builder.natives(),
                        starts: builder.blocks.starts@.take(input_index as int),
                        input_start: builder.input_start as int,
                        inserted: last_inserted,
                    },
                    ins,
                    input_index as int,
                    cap,
                    rcap,
                ),
            decreases DEVICE_COUNT - input_index,
        {
            let input: &HidReportDescriptor = inputs[input_index];
            let ghost b = ins[input_index as int].0;
            let ghost imp = ins[input_index as int].1;
            let ghost c0 = CombineModel {
                out: writer.buf@.subrange(0, writer.pos as int),
                remaps: builder.natives(),
                starts: builder.blocks.starts@.take(input_index as int),
                input_start: builder.input_start as int,
                inserted: last_inserted,
            };
            match builder.begin_input(input_index) {
                Ok(()) => {},
                Err(e) => {
                    proof {
                        assert(c0.remaps.len() == builder.count);
                        assert(combine_input(c0, b, imp, cap, rcap) == Err::<CombineModel, HidDescriptorError>(e));
                        assert(target == Err::<CombineModel, HidDescriptorError>(e));
                        assert(combine_result(ins, cap, rcap) == Err::<CombineModel, HidDescriptorError>(e));
                    }
                    return Err(e);
                },
            }
            let ghost c1 = CombineModel {
                starts: c0.starts.push(c0.remaps.len() as u8),
                input_start: c0.remaps.len() as int,
                inserted: false,
                ..c0
            };
            proof {
                assert(builder.blocks.starts@.take(input_index + 1) =~= c1.starts);
                lemma_distinct_new_block(c0.remaps, c0.starts, c0.remaps.len() as u8);
            }
            match writer.push(PUSH_HEADER) {
                Ok(()) => {},
                Err(e) => {
                    return Err(e);
                },
            }
            let implicit = input.report_ids_implicit();
            let mut report_id_inserted = false;
            let mut items = DescriptorItems::new(input.as_bytes());
            proof {
                use_type_invariant(input);
                if imp {
                    lemma_implicit_has_no_report_ids(initial_model(), b, 0);
                }
            }
            proof {
                let c2 = CombineModel { out: c1.out.push(PUSH_HEADER), ..c1 };
                assert(writer.buf@.subrange(0, writer.pos as int) == c2.out);
                assert(target == after_walk(combine_walk(c2, b, 0, imp, cap, rcap), ins, input_index as int, cap, rcap));
            }
            loop
                invariant
                    0 <= input_index < DEVICE_COUNT,
                    ins == descriptors_model(inputs@),
                    ins.len() == DEVICE_COUNT,
                    b == ins[input_index as int].0,
                    imp == ins[input_index as int].1,
                    implicit == imp,
                    items.spec_bytes() == b,
                    !items.spec_done(),
                    0 <= items.spec_pos() <= b.len(),
                    cap == writer.buf@.len(),
                    rcap == REPORT_COUNT,
                    writer.pos <= writer.buf@.len(),
                    builder.blocks_ok(input_index + 1),
                    builder.blocks.total == 0,
                    cap >= required_output_len(ins),
                    cap == old(out)@.len(),
                    blocks_distinct(builder.natives(), builder.blocks.starts@.take(input_index + 1)),
                    imp ==> no_report_ids_from(b, items.spec_pos()),
                    imp ==> builder.count == builder.input_start + (if report_id_inserted { 1int } else { 0int }),
                    target == combine_all(initial_combine(), ins, 0, cap, rcap),
                    target == after_walk(
                        combine_walk(
                            CombineModel {
                                out: writer.buf@.subrange(0, writer.pos as int),
                                remaps: builder.natives(),
                                starts: builder.blocks.starts@.take(input_index + 1),
                                input_start: builder.input_start as int,
                                inserted: report_id_inserted,
                            },
                            b,
                            items.spec_pos(),
                            imp,
                            cap,
                            rcap,
                        ),
                        ins,
                        input_index as int,
                        cap,
                        rcap,
                    ),
                ensures
                    items.spec_pos() >= b.len(),
                    cap == writer.buf@.len(),
                    writer.pos <= writer.buf@.len(),
                    blocks_distinct(builder.natives(), builder.blocks.starts@.take(input_index + 1)),
                    builder.blocks_ok(input_index + 1),
                    builder.blocks.total == 0,
                    cap >= required_output_len(ins),
                    cap == old(out)@.len(),
                    blocks_distinct(builder.natives(), builder.blocks.starts@.take(input_index + 1)),
                    imp ==> no_report_ids_from(b, items.spec_pos()),
                    imp ==> builder.count == builder.input_start + (if report_id_inserted { 1int } else { 0int }),
                    target == combine_all(initial_combine(), ins, 0, cap, rcap),
                    target == after_walk(
                        combine_walk(
                            CombineModel {
                                out: writer.buf@.subrange(0, writer.pos as int),
                                remaps: builder.natives(),
                                starts: builder.blocks.starts@.take(input_index + 1),
                                input_start: builder.input_start as int,
                                inserted: report_id_inserted,
                            },
                            b,
                            items.spec_pos(),
                            imp,
                            cap,
                            rcap,
                        ),
                        ins,
                        input_index as int,
                        cap,
                        rcap,
                    ),
                decreases b.len() - items.spec_pos(),
            {
                let ghost pos = items.spec_pos();
                let ghost m = CombineModel {
                    out: writer.buf@.subrange(0, writer.pos as int),
                    remaps: builder.natives(),
                    starts: builder.blocks.starts@.take(input_index + 1),
                    input_start: builder.input_start as int,
                    inserted: report_id_inserted,
                };
                let next = items.next();
                let item = match next {
                    None => break,
                    Some(Err(e)) => {
                        return Err(e);
                    },
                    Some(Ok(item)) => item,
                };
                let ghost h = b[pos];
                let ghost end = item_at(b, pos).unwrap().1;
                proof {
                    assert(combine_walk(m, b, pos, imp, cap, rcap) == match combine_item(
                        m,
                        h,
                        item.data@,
                        item.raw@,
                        imp,
                        cap,
                        rcap,
                    ) {
                        Err(e) => Err(e),
                        Ok(m2) => combine_walk(m2, b, end, imp, cap, rcap),
                    });
                }
                let ghost natives0 = builder.natives();
                let ghost starts_now = builder.blocks.starts@.take(input_index + 1);
                if item.header.is_report_id() {
                    if item.data.len() != 1 {
                        return Err(HidDescriptorError::UnsupportedReportId);
                    }
                    let old_id = item.data[0];
                    let new_id = match builder.assign(old_id) {
                        Ok(id) => id,
                        Err(e) => {
                            return Err(e);
                        },
                    };
                    proof {
                        if builder.natives() != natives0 {
                            assert(starts_now.last() == builder.input_start);
                            match find_from(natives0, builder.input_start as int, old_id) {
                                Some(j) => {
                                    lemma_find_from_some(natives0, builder.input_start as int, old_id);
                                },
                                None => {
                                    lemma_find_from_none(natives0, builder.input_start as int, old_id);
                                },
                            }
                            lemma_distinct_push(natives0, starts_now, old_id);
                        }
                    }
                    match writer.push(item.header.byte()) {
                        Ok(()) => {},
                        Err(e) => {
                            return Err(e);
                        },
                    }
                    match writer.push(new_id) {
                        Ok(()) => {},
                        Err(e) => {
                            return Err(e);
                        },
                    }
                } else {
                    match writer.push_slice(item.raw) {
                        Ok(()) => {},
                        Err(e) => {
                            return Err(e);
                        },
                    }
                    if implicit && !report_id_inserted && item.header.is_collection() {
                        let inserted_id = match builder.record(0) {
                            Ok(id) => id,
                            Err(e) => {
                                return Err(e);
                            },
                        };
                        proof {
                            assert(starts_now.last() == builder.input_start);
                            lemma_distinct_push(natives0, starts_now, 0);
                        }
                        match writer.push(REPORT_ID_HEADER_SIZE1) {
                            Ok(()) => {},
                            Err(e) => {
                                return Err(e);
                            },
                        }
                        match writer.push(inserted_id) {
                            Ok(()) => {},
                            Err(e) => {
                                return Err(e);
                            },
                        }
                        report_id_inserted = true;
                    }
                }
            }
            match writer.push(POP_HEADER) {
                Ok(()) => {},
                Err(e) => {
                    return Err(e);
                },
            }
            proof {
                last_inserted = report_id_inserted;
            }
            input_index = input_index + 1;
        }

        assert(builder.blocks.starts@.take(DEVICE_COUNT as int) =~= builder.blocks.starts@);
        let map = match builder.finish() {
            Ok(m) => m,
            Err(e) => {
                return Err(e);
            },
        };
        let len = writer.pos;
        let buf: &'buf [u8] = writer.buf;
        let bytes = vstd::slice::slice_subrange(buf, 0, len);
        let d = match HidReportDescriptor::new(bytes) {
            Ok(d) => d,
            Err(e) => {
                return Err(e);
            },
        };
        Ok((d, map))
    }

    /// Total number of reports (valid host-facing IDs are `1..=len()`).
    pub fn len(&self) -> (r: usize)
        ensures
            r == self.natives().len(),
    {
        proof {
            use_type_invariant(self);
        }
        self.blocks.total()
    }

    /// Whether the map contains no reports.
    pub fn is_empty(&self) -> (r: bool)
        ensures
            r == (self.natives().len() == 0),
    {
        self.len() == 0
    }

    /// The `remaps` index backing a host-facing report ID, or `None` if the ID is out of range.
    fn index_of(&self, host_id: u8) -> (r: Option<usize>)
        ensures
            r == if 1 <= host_id <= self.natives().len() {
                Some((host_id - 1) as usize)
            } else {
                None::<usize>
            },
    {
        if host_id == 0 {
            return None;
        }
        let index = (host_id as usize) - 1;
        if index < self.len() {
            Some(index)
        } else {
            None
        }
    }

    /// Map a host-facing report ID to the `(owner index, native report ID)` that owns it.
    pub fn route(&self, host_id: u8) -> (r: Option<(usize, u8)>)
        ensures
            r == route_of(self.natives(), self.block_starts(), host_id as int),
    {
        proof {
            use_type_invariant(self);
        }
        let index = match self.index_of(host_id) {
            Some(i) => i,
            None => {
                return None;
            },
        };
        let owner = match self.blocks.owner_of(index) {
            Some(o) => o,
            None => {
                return None;
            },
        };
        let native = self.remaps[index];
        Some((owner, native))
    }

    /// Reverse lookup: the host-facing report ID for `native_id` within `owner`'s block, or `None`
    /// if that owner declares no such native report.
    pub fn host_id(&self, owner: usize, native_id: u8) -> (r: Option<u8>)
        ensures
            r == host_id_of(self.natives(), self.block_starts(), owner as int, native_id),
    {
        proof {
            use_type_invariant(self);
        }
        let (start, end) = match self.blocks.bounds(owner) {
            Some(b) => b,
            None => {
                return None;
            },
        };
        if start > end || end > self.blocks.total as usize {
            return None;
        }
        assert(self.natives().len() == self.blocks.total);
        let mut j = start;
        while j < end
            invariant
                start <= j <= end,
                end <= self.blocks.total <= REPORT_COUNT,
                self.natives().len() == self.blocks.total,
                block_bounds(self.block_starts(), self.natives().len() as int, owner as int) == Some(
                    (start as int, end as int),
                ),
                find_in(self.natives(), start as int, end as int, native_id) == find_in(
                    self.natives(),
                    j as int,
                    end as int,
                    native_id,
                ),
            decreases end - j,
        {
            assert(self.natives().len() == self.blocks.total);
            assert(self.natives()[j as int] == self.remaps@[j as int]);
            if self.remaps[j] == native_id {
                assert(find_in(self.natives(), j as int, end as int, native_id) == Some(j as int));
                if j + 1 <= 255 {
                    return Some((j + 1) as u8);
                } else {
                    return None;
                }
            }
            j = j + 1;
        }
        None
    }
}


/// The bytes and implicit flag of each input descriptor.
pub open spec fn descriptors_model<'a>(inputs: Seq<&HidReportDescriptor<'a>>) -> Seq<(Seq<u8>, bool)> {
    Seq::new(inputs.len(), |i: int| (inputs[i].spec_bytes(), inputs[i].spec_implicit()))
}

/// The input byte count grows with the number of inputs counted.
proof fn lemma_input_bytes_monotone(ins: Seq<(Seq<u8>, bool)>, a: int, b: int)
    requires
        0 <= a <= b <= ins.len(),
    ensures
        input_bytes(ins, a) <= input_bytes(ins, b),
    decreases b - a,
{
    if a < b {
        lemma_input_bytes_monotone(ins, a, b - 1);
    }
}


/// What `owner_index` finds: the last of the first `n` owners whose start is `<= idx`.
proof fn lemma_owner_index(s: Seq<u8>, n: int, idx: int)
    requires
        0 <= n <= s.len(),
    ensures
        match owner_index(s, n, idx) {
            Some(o) => 0 <= o < n && s[o] <= idx && forall|k: int| o < k < n ==> s[k] > idx,
            None => forall|k: int| 0 <= k < n ==> s[k] > idx,
        },
    decreases n,
{
    if n > 0 {
        lemma_owner_index(s, n - 1, idx);
    }
}

/// What `find_in` finds: the first index in `[from, to)` holding `v`.
proof fn lemma_find_in(s: Seq<u8>, from: int, to: int, v: u8)
    requires
        0 <= from,
    ensures
        match find_in(s, from, to, v) {
            Some(j) => from <= j < to && j < s.len() && s[j] == v && forall|k: int|
                from <= k < j ==> s[k] != v,
            None => forall|k: int| from <= k < to && k < s.len() ==> s[k] != v,
        },
    decreases to - from,
{
    if from < to && from < s.len() && s[from] != v {
        lemma_find_in(s, from + 1, to, v);
    }
}

/// Where an index lies in an ordered block table: in owner `o`'s block exactly when `o` is the
/// last owner whose start is at or before it.
proof fn lemma_in_block(starts: Seq<u8>, total: int, o: int, idx: int)
    requires
        forall|i: int, j: int| 0 <= i <= j < starts.len() ==> starts[i] <= starts[j],
        0 <= o < starts.len(),
        0 <= idx < total,
    ensures
        ({
            let (start, end) = block_bounds(starts, total, o).unwrap();
            (start <= idx < end) <==> owner_index(starts, starts.len() as int, idx) == Some(o)
        }),
{
    lemma_owner_index(starts, starts.len() as int, idx);
    let (start, end) = block_bounds(starts, total, o).unwrap();
    if start <= idx < end {
        match owner_index(starts, starts.len() as int, idx) {
            Some(o2) => {
                if o2 > o {
                    assert(starts[o + 1] <= starts[o2]);
                }
                if o2 < o {
                    assert(starts[o] > idx);
                }
            },
            None => {
                assert(starts[o] > idx);
            },
        }
    }
}

/// `route_of` leads host ID `host` to `(owner, native)` exactly when `host_id_of` gives `host`
/// for `native` in `owner`'s block, for every table whose blocks are ordered and distinct.
proof fn lemma_route_host_id_inverse(
    natives: Seq<u8>,
    starts: Seq<u8>,
    host: u8,
    owner: usize,
    native: u8,
)
    requires
        blocks_ordered(natives, starts),
        blocks_distinct(natives, starts),
        starts.len() <= usize::MAX,
    ensures
        route_of(natives, starts, host as int) == Some((owner, native)) <==> host_id_of(
            natives,
            starts,
            owner as int,
            native,
        ) == Some(host),
{
    let n = natives.len() as int;
    let d = starts.len() as int;
    if route_of(natives, starts, host as int) == Some((owner, native)) {
        let idx = host - 1;
        lemma_owner_index(starts, d, idx);
        let o = owner_index(starts, d, idx).unwrap();
        assert(o == owner);
        lemma_in_block(starts, n, o, idx);
        let (start, end) = block_bounds(starts, n, o).unwrap();
        lemma_find_in(natives, start, end, native);
        let j = find_in(natives, start, end, native).unwrap();
        lemma_in_block(starts, n, o, j);
        assert(j == idx);
    }
    if host_id_of(natives, starts, owner as int, native) == Some(host) {
        let (start, end) = block_bounds(starts, n, owner as int).unwrap();
        lemma_find_in(natives, start, end, native);
        let j = find_in(natives, start, end, native).unwrap();
        assert(j == host - 1);
        lemma_in_block(starts, n, owner as int, j);
    }
}


/// No item of `b` from offset `pos` on is a Report ID item.
pub open spec fn no_report_ids_from(b: Seq<u8>, pos: int) -> bool
    decreases b.len() - pos,
{
    if pos < 0 || pos >= b.len() {
        true
    } else {
        match item_at(b, pos) {
            None => true,
            Some((ds, end)) => {
                if end <= pos {
                    true
                } else {
                    !header_is_report_id(b[pos]) && no_report_ids_from(b, end)
                }
            },
        }
    }
}

/// Once a Report ID item has been seen, parsing never reports implicit IDs again.
proof fn lemma_explicit_stays(m: DescriptorModel, b: Seq<u8>, pos: int)
    requires
        !m.implicit,
        parse_from(m, b, pos) is Ok,
    ensures
        !parse_from(m, b, pos).unwrap().implicit,
    decreases b.len() - pos,
{
    if 0 <= pos < b.len() {
        match item_at(b, pos) {
            None => {},
            Some((ds, end)) => {
                if end > pos {
                    let m2 = apply_item(m, b[pos], b.subrange(ds, end)).unwrap();
                    lemma_explicit_stays(m2, b, end);
                }
            },
        }
    }
}

/// A descriptor that parses with implicit report IDs holds no Report ID item.
proof fn lemma_implicit_has_no_report_ids(m: DescriptorModel, b: Seq<u8>, pos: int)
    requires
        parse_from(m, b, pos) is Ok,
        parse_from(m, b, pos).unwrap().implicit,
    ensures
        no_report_ids_from(b, pos),
    decreases b.len() - pos,
{
    if 0 <= pos < b.len() {
        match item_at(b, pos) {
            None => {},
            Some((ds, end)) => {
                if end > pos {
                    let h = b[pos];
                    let m2 = apply_item(m, h, b.subrange(ds, end)).unwrap();
                    if header_is_report_id(h) {
                        assert(h != LONG_ITEM_HEADER);
                        assert(!m2.implicit);
                        lemma_explicit_stays(m2, b, end);
                    } else {
                        lemma_implicit_has_no_report_ids(m2, b, end);
                    }
                }
            },
        }
    }
}

/// `find_from` finds nothing only when no index from `from` on holds `v`.
proof fn lemma_find_from_none(s: Seq<u8>, from: int, v: u8)
    requires
        0 <= from,
        find_from(s, from, v) is None,
    ensures
        forall|k: int| from <= k < s.len() ==> s[k] != v,
    decreases s.len() - from,
{
    if from < s.len() {
        lemma_find_from_none(s, from + 1, v);
    }
}

/// What `find_from` finds lies at or after `from`, inside `s`.
proof fn lemma_find_from_some(s: Seq<u8>, from: int, v: u8)
    requires
        0 <= from,
        find_from(s, from, v) is Some,
    ensures
        from <= find_from(s, from, v).unwrap() < s.len(),
    decreases s.len() - from,
{
    if from < s.len() && s[from] != v {
        lemma_find_from_some(s, from + 1, v);
    }
}

/// `owner_index` only looks at the first `n` starts.
proof fn lemma_owner_index_prefix(s1: Seq<u8>, s2: Seq<u8>, n: int, idx: int)
    requires
        0 <= n <= s1.len(),
        n <= s2.len(),
        forall|k: int| 0 <= k < n ==> s1[k] == s2[k],
    ensures
        owner_index(s1, n, idx) == owner_index(s2, n, idx),
    decreases n,
{
    if n > 0 {
        lemma_owner_index_prefix(s1, s2, n - 1, idx);
    }
}

/// Opening a new (empty) block at the end of the table keeps the blocks distinct.
proof fn lemma_distinct_new_block(natives: Seq<u8>, starts: Seq<u8>, v: u8)
    requires
        blocks_distinct(natives, starts),
        v == natives.len(),
    ensures
        blocks_distinct(natives, starts.push(v)),
{
    let s2 = starts.push(v);
    let d = starts.len() as int;
    assert forall|i: int| 0 <= i < natives.len() implies owner_index(s2, d + 1, i) == owner_index(
        starts,
        d,
        i,
    ) by {
        lemma_owner_index_prefix(s2, starts, d, i);
    }
}

/// Appending a native ID that the last block does not hold yet keeps the blocks distinct.
proof fn lemma_distinct_push(natives: Seq<u8>, starts: Seq<u8>, v: u8)
    requires
        blocks_distinct(natives, starts),
        starts.len() > 0,
        forall|i: int| 0 <= i < starts.len() ==> starts[i] <= natives.len(),
        forall|k: int| starts.last() <= k < natives.len() ==> natives[k] != v,
    ensures
        blocks_distinct(natives.push(v), starts),
{
    let n2 = natives.push(v);
    let d = starts.len() as int;
    let l = natives.len() as int;
    lemma_owner_index(starts, d, l);
    assert(owner_index(starts, d, l) == Some(d - 1));
    assert forall|i: int, j: int|
        0 <= i < j < n2.len() && owner_index(starts, d, i) == owner_index(starts, d, j) implies n2[i]
        != n2[j] by {
        if j == l {
            lemma_owner_index(starts, d, i);
        } else {
            assert(natives[i] != natives[j]);
        }
    }
}


/// Routing and reverse lookup of a remapping table are inverse: [`ReportIdMap::route`] leads
/// host-facing ID `host` to `(owner, native)` exactly when [`ReportIdMap::host_id`] gives `host`
/// for native ID `native` of `owner`.
pub proof fn lemma_map_route_host_id_inverse<const REPORT_COUNT: usize, const DEVICE_COUNT: usize>(
    map: &ReportIdMap<REPORT_COUNT, DEVICE_COUNT>,
    host: u8,
    owner: usize,
    native: u8,
)
    requires
        map.wf(),
    ensures
        route_of(map.natives(), map.block_starts(), host as int) == Some((owner, native))
            <==> host_id_of(map.natives(), map.block_starts(), owner as int, native) == Some(host),
{
    lemma_route_host_id_inverse(map.natives(), map.block_starts(), host, owner, native);
}

/// The owner that [`ReportIdMap::route`] leads a host-facing ID to is one of the inputs: its index
/// is below `DEVICE_COUNT`, and it owns the block that holds the ID.
pub proof fn lemma_map_route_owner_in_range<const REPORT_COUNT: usize, const DEVICE_COUNT: usize>(
    map: &ReportIdMap<REPORT_COUNT, DEVICE_COUNT>,
    host: u8,
)
    requires
        map.wf(),
    ensures
        route_of(map.natives(), map.block_starts(), host as int) matches Some((owner, native)) ==> owner
            < DEVICE_COUNT && native == map.natives()[host - 1] && map.block_starts()[owner as int] <= host - 1,
{
    let starts = map.block_starts();
    lemma_owner_index(starts, starts.len() as int, host - 1);
}

/// Host-facing report IDs are contiguous from 1: [`ReportIdMap::route`] knows host ID `host`
/// exactly when `1 <= host <= len()`.
pub proof fn lemma_map_host_ids_contiguous<const REPORT_COUNT: usize, const DEVICE_COUNT: usize>(
    map: &ReportIdMap<REPORT_COUNT, DEVICE_COUNT>,
    host: u8,
)
    requires
        map.wf(),
    ensures
        route_of(map.natives(), map.block_starts(), host as int) is Some <==> 1 <= host <= map.natives().len(),
{
    let starts = map.block_starts();
    if 1 <= host <= map.natives().len() {
        lemma_owner_index(starts, starts.len() as int, host - 1);
        assert(starts[0] <= host - 1);
    }
}


/// The result is an error for want of output room.
pub open spec fn lacks_room<T>(r: Result<T, HidDescriptorError>) -> bool {
    r matches Err(HidDescriptorError::OutputBufferTooSmall(_))
}

/// Output still owed to an input that uses implicit report IDs when `imp` holds: the Report ID
/// item inserted into its first collection, until it is written.
pub open spec fn pending_insert(c: CombineModel, imp: bool) -> int {
    if imp && !c.inserted {
        2
    } else {
        0
    }
}

/// Parsing a descriptor never fails for want of room: it writes nothing.
proof fn lemma_parse_needs_no_room(m: DescriptorModel, bytes: Seq<u8>, pos: int)
    ensures
        !lacks_room(parse_from(m, bytes, pos)),
    decreases bytes.len() - pos,
{
    if 0 <= pos < bytes.len() {
        if let Some((ds, end)) = item_at(bytes, pos) {
            if end > pos {
                if let Ok(m2) = apply_item(m, bytes[pos], bytes.subrange(ds, end)) {
                    lemma_parse_needs_no_room(m2, bytes, end);
                }
            }
        }
    }
}

/// One item writes at most its own bytes, plus the Report ID item still owed to its input.
proof fn lemma_item_room(c: CombineModel, b: Seq<u8>, pos: int, ds: int, end: int, imp: bool, cap: int, rcap: int)
    requires
        0 <= pos < end,
        item_at(b, pos) == Some((ds, end)),
        c.out.len() + (end - pos) + pending_insert(c, imp) <= cap,
    ensures
        ({
            let r = combine_item(c, b[pos], b.subrange(ds, end), b.subrange(pos, end), imp, cap, rcap);
            &&& !lacks_room(r)
            &&& r is Ok ==> r->Ok_0.out.len() + pending_insert(r->Ok_0, imp) <= c.out.len() + (end - pos)
                + pending_insert(c, imp)
        }),
{
    let h = b[pos];
    if header_is_report_id(h) {
        assert(h != LONG_ITEM_HEADER);
        assert(ds == pos + 1);
    }
}

/// The items of one input from `pos` on write at most their bytes, plus the Report ID item
/// still owed to the input.
proof fn lemma_walk_room(c: CombineModel, b: Seq<u8>, pos: int, imp: bool, cap: int, rcap: int)
    requires
        0 <= pos <= b.len(),
        c.out.len() + (b.len() - pos) + pending_insert(c, imp) <= cap,
    ensures
        !lacks_room(combine_walk(c, b, pos, imp, cap, rcap)),
        combine_walk(c, b, pos, imp, cap, rcap) is Ok ==> combine_walk(c, b, pos, imp, cap, rcap)->Ok_0.out.len()
            <= c.out.len() + (b.len() - pos) + pending_insert(c, imp),
    decreases b.len() - pos,
{
    if pos < b.len() {
        if let Some((ds, end)) = item_at(b, pos) {
            if end > pos {
                lemma_item_room(c, b, pos, ds, end, imp, cap, rcap);
                if let Ok(c2) = combine_item(c, b[pos], b.subrange(ds, end), b.subrange(pos, end), imp, cap, rcap) {
                    lemma_walk_room(c2, b, end, imp, cap, rcap);
                }
            }
        }
    }
}

/// One input writes at most its bytes plus the framing overhead.
proof fn lemma_input_room(c: CombineModel, b: Seq<u8>, imp: bool, cap: int, rcap: int)
    requires
        c.out.len() + b.len() + MAX_DESCRIPTOR_FRAMING_OVERHEAD <= cap,
    ensures
        !lacks_room(combine_input(c, b, imp, cap, rcap)),
        combine_input(c, b, imp, cap, rcap) is Ok ==> combine_input(c, b, imp, cap, rcap)->Ok_0.out.len()
            <= c.out.len() + b.len() + MAX_DESCRIPTOR_FRAMING_OVERHEAD,
{
    if c.remaps.len() <= 255 {
        let c1 = CombineModel {
            starts: c.starts.push(c.remaps.len() as u8),
            input_start: c.remaps.len() as int,
            inserted: false,
            ..c
        };
        if let Ok(c2) = write_byte(c1, PUSH_HEADER, cap) {
            lemma_walk_room(c2, b, 0, imp, cap, rcap);
        }
    }
}

/// Inputs `i..` write at most their bytes plus the framing overhead of each.
proof fn lemma_all_room(c: CombineModel, inputs: Seq<(Seq<u8>, bool)>, i: int, cap: int, rcap: int)
    requires
        0 <= i <= inputs.len(),
        c.out.len() + (input_bytes(inputs, inputs.len() as int) - input_bytes(inputs, i)) + (inputs.len() - i)
            * MAX_DESCRIPTOR_FRAMING_OVERHEAD <= cap,
    ensures
        !lacks_room(combine_all(c, inputs, i, cap, rcap)),
    decreases inputs.len() - i,
{
    if i < inputs.len() {
        lemma_input_bytes_monotone(inputs, i + 1, inputs.len() as int);
        assert(input_bytes(inputs, i + 1) == input_bytes(inputs, i) + inputs[i].0.len());
        lemma_input_room(c, inputs[i].0, inputs[i].1, cap, rcap);
        if let Ok(c2) = combine_input(c, inputs[i].0, inputs[i].1, cap, rcap) {
            lemma_all_room(c2, inputs, i + 1, cap, rcap);
        }
    }
}

/// Combining fails for want of room exactly when the output is shorter than
/// [`required_output_len`], and then it asks for that size: an output of the required size
/// never runs out while the inputs are copied, framed and given their Report ID items.
pub proof fn lemma_combine_room(inputs: Seq<(Seq<u8>, bool)>, cap: int, rcap: int)
    ensures
        lacks_room(combine_result(inputs, cap, rcap)) <==> cap < required_output_len(inputs),
        cap < required_output_len(inputs) ==> combine_result(inputs, cap, rcap) == Err::<
            CombineModel,
            HidDescriptorError,
        >(HidDescriptorError::OutputBufferTooSmall(required_output_len(inputs) as usize)),
        combine_result(inputs, cap, rcap) is Ok ==> !lacks_room(
            descriptor_parse(combine_result(inputs, cap, rcap)->Ok_0.out),
        ),
{
    if cap >= required_output_len(inputs) {
        assert(input_bytes(inputs, 0) == 0);
        lemma_all_room(initial_combine(), inputs, 0, cap, rcap);
    }
    if let Ok(c) = combine_result(inputs, cap, rcap) {
        lemma_parse_needs_no_room(initial_model(), c.out, 0);
    }
}


/// None of the items of `b` from offset `pos` on is a Main item with tag `tag`.
pub open spec fn no_main_items_from(b: Seq<u8>, pos: int, tag: u8) -> bool
    decreases b.len() - pos,
{
    if pos < 0 || pos >= b.len() {
        true
    } else {
        match item_at(b, pos) {
            None => true,
            Some((ds, end)) => {
                if end <= pos {
                    true
                } else {
                    !(header_type(b[pos]) == 0 && header_tag(b[pos]) == tag) && no_main_items_from(b, end, tag)
                }
            },
        }
    }
}

/// The Main item tag whose fields accumulate into report type `kind` (0 input, 1 output,
/// 2 feature).
pub open spec fn main_tag_of(kind: int) -> u8 {
    if kind == 0 {
        MAIN_TAG_INPUT
    } else if kind == 1 {
        MAIN_TAG_OUTPUT
    } else {
        MAIN_TAG_FEATURE
    }
}

/// No report ID has accumulated any bits of report type `kind`.
pub open spec fn kind_bits_zero(reports: Seq<ReportBits>, kind: int) -> bool {
    forall|i: int| 0 <= i < reports.len() ==> #[trigger] bits_of(reports[i], kind) == 0
}

/// An item that is not a Main item of `kind`'s tag adds no bits of report type `kind`.
proof fn lemma_apply_keeps_kind_zero(m: DescriptorModel, h: u8, data: Seq<u8>, kind: int)
    requires
        0 <= kind <= 2,
        m.reports.len() == 256,
        kind_bits_zero(m.reports, kind),
        !(header_type(h) == 0 && header_tag(h) == main_tag_of(kind)),
    ensures
        apply_item(m, h, data) matches Ok(m2) ==> m2.reports.len() == 256 && kind_bits_zero(m2.reports, kind),
{
    if let Ok(m2) = apply_item(m, h, data) {
        if h != LONG_ITEM_HEADER && header_type(h) == 0 {
            let id = m.state.report_id as int;
            assert forall|i: int| 0 <= i < m2.reports.len() implies #[trigger] bits_of(m2.reports[i], kind) == 0 by {
                assert(bits_of(m.reports[i], kind) == 0);
                assert(bits_of(m.reports[id], kind) == 0);
            }
        }
    }
}

/// Parsing items that include no Main item of `kind`'s tag adds no bits of report type `kind`.
proof fn lemma_parse_keeps_kind_zero(m: DescriptorModel, b: Seq<u8>, pos: int, kind: int)
    requires
        0 <= kind <= 2,
        m.reports.len() == 256,
        kind_bits_zero(m.reports, kind),
        no_main_items_from(b, pos, main_tag_of(kind)),
    ensures
        parse_from(m, b, pos) matches Ok(m2) ==> kind_bits_zero(m2.reports, kind),
    decreases b.len() - pos,
{
    if 0 <= pos < b.len() {
        if let Some((ds, end)) = item_at(b, pos) {
            if end > pos {
                lemma_apply_keeps_kind_zero(m, b[pos], b.subrange(ds, end), kind);
                if let Ok(m2) = apply_item(m, b[pos], b.subrange(ds, end)) {
                    lemma_parse_keeps_kind_zero(m2, b, end, kind);
                }
            }
        }
    }
}

/// With no bits of report type `kind` anywhere, the largest is zero.
proof fn lemma_max_bits_zero(s: Seq<ReportBits>, kind: int)
    requires
        kind_bits_zero(s, kind),
    ensures
        max_bits(s, kind) == 0,
    decreases s.len(),
{
    if s.len() > 0 {
        assert(bits_of(s[s.len() - 1], kind) == 0);
        assert(kind_bits_zero(s.drop_last(), kind)) by {
            assert forall|i: int| 0 <= i < s.drop_last().len() implies #[trigger] bits_of(s.drop_last()[i], kind)
                == 0 by {
                assert(s.drop_last()[i] == s[i]);
            }
        }
        lemma_max_bits_zero(s.drop_last(), kind);
    }
}

/// Each maximum report size counts only the Main items of its own report type: a descriptor with
/// no Input items has input size 0, one with no Output items output size 0, and one with no
/// Feature items feature size 0 (as [`HidReportDescriptor::max_report_sizes`] reports them).
pub proof fn lemma_absent_report_type_has_size_zero(b: Seq<u8>)
    ensures
        descriptor_parse(b) matches Ok((_, sizes)) ==> {
            &&& no_main_items_from(b, 0, MAIN_TAG_INPUT) ==> sizes.input == 0
            &&& no_main_items_from(b, 0, MAIN_TAG_OUTPUT) ==> sizes.output == 0
            &&& no_main_items_from(b, 0, MAIN_TAG_FEATURE) ==> sizes.feature == 0
        },
{
    let m = initial_model();
    assert forall|kind: int| 0 <= kind <= 2 implies kind_bits_zero(m.reports, kind) by {
        assert forall|i: int| 0 <= i < m.reports.len() implies #[trigger] bits_of(m.reports[i], kind) == 0 by {
            assert(m.reports[i] == zero_bits());
        }
    }
    if let Ok(m2) = parse_from(m, b, 0) {
        if no_main_items_from(b, 0, MAIN_TAG_INPUT) {
            assert(main_tag_of(0) == MAIN_TAG_INPUT);
            lemma_parse_keeps_kind_zero(m, b, 0, 0);
            lemma_max_bits_zero(m2.reports, 0);
        }
        if no_main_items_from(b, 0, MAIN_TAG_OUTPUT) {
            assert(main_tag_of(1) == MAIN_TAG_OUTPUT);
            lemma_parse_keeps_kind_zero(m, b, 0, 1);
            lemma_max_bits_zero(m2.reports, 1);
        }
        if no_main_items_from(b, 0, MAIN_TAG_FEATURE) {
            assert(main_tag_of(2) == MAIN_TAG_FEATURE);
            lemma_parse_keeps_kind_zero(m, b, 0, 2);
            lemma_max_bits_zero(m2.reports, 2);
        }
    }
}


/// The largest bit count of a report type is at least that of every report ID, and is that of
/// some report ID unless it is zero.
proof fn lemma_max_bits_is_max(s: Seq<ReportBits>, kind: int)
    ensures
        forall|i: int| 0 <= i < s.len() ==> #[trigger] bits_of(s[i], kind) <= max_bits(s, kind),
        max_bits(s, kind) == 0 || exists|i: int| 0 <= i < s.len() && #[trigger] bits_of(s[i], kind) == max_bits(s, kind),
    decreases s.len(),
{
    if s.len() > 0 {
        let t = s.drop_last();
        lemma_max_bits_is_max(t, kind);
        assert forall|i: int| 0 <= i < s.len() implies #[trigger] bits_of(s[i], kind) <= max_bits(s, kind) by {
            if i < s.len() - 1 {
                assert(s[i] == t[i]);
            }
        }
        if max_bits(s, kind) != 0 {
            if bits_of(s.last(), kind) > max_bits(t, kind) {
                assert(bits_of(s[s.len() - 1], kind) == max_bits(s, kind));
            } else {
                let j = choose|j: int| 0 <= j < t.len() && #[trigger] bits_of(t[j], kind) == max_bits(t, kind);
                assert(s[j] == t[j]);
                assert(bits_of(s[j], kind) == max_bits(s, kind));
            }
        }
    }
}

/// Whole bytes for a bit count: enough to hold the bits, and no more than needed.
proof fn lemma_bytes_for_bits(bits: u32)
    ensures
        bits <= 8 * bytes_for_bits(bits),
        bytes_for_bits(bits) == 0 || 8 * (bytes_for_bits(bits) - 1) < bits,
{
}

/// Each maximum report size is the number of whole bytes that holds the largest report of its
/// type: every report ID's input, output and feature bits fit in the input, output and feature
/// sizes, and each size is needed by some report ID (or is zero).
pub proof fn lemma_report_sizes_cover_largest(reports: Seq<ReportBits>)
    ensures
        ({
            let z = sizes_of(reports);
            &&& forall|i: int|
                0 <= i < reports.len() ==> #[trigger] reports[i].input <= 8 * z.input && reports[i].output <= 8
                    * z.output && reports[i].feature <= 8 * z.feature
            &&& z.input == 0 || exists|i: int| 0 <= i < reports.len() && 8 * (z.input - 1) < #[trigger] reports[i].input
            &&& z.output == 0 || exists|i: int| 0 <= i < reports.len() && 8 * (z.output - 1) < #[trigger] reports[i].output
            &&& z.feature == 0 || exists|i: int| 0 <= i < reports.len() && 8 * (z.feature - 1)
                < #[trigger] reports[i].feature
        }),
{
    let z = sizes_of(reports);
    lemma_max_bits_is_max(reports, 0);
    lemma_max_bits_is_max(reports, 1);
    lemma_max_bits_is_max(reports, 2);
    lemma_bytes_for_bits(max_bits(reports, 0));
    lemma_bytes_for_bits(max_bits(reports, 1));
    lemma_bytes_for_bits(max_bits(reports, 2));
    assert forall|i: int| 0 <= i < reports.len() implies #[trigger] reports[i].input <= 8 * z.input
        && reports[i].output <= 8 * z.output && reports[i].feature <= 8 * z.feature by {
        assert(bits_of(reports[i], 0) <= max_bits(reports, 0));
        assert(bits_of(reports[i], 1) <= max_bits(reports, 1));
        assert(bits_of(reports[i], 2) <= max_bits(reports, 2));
    }
    if z.input != 0 {
        let i = choose|i: int| 0 <= i < reports.len() && #[trigger] bits_of(reports[i], 0) == max_bits(reports, 0);
        assert(8 * (z.input - 1) < reports[i].input);
    }
    if z.output != 0 {
        let i = choose|i: int| 0 <= i < reports.len() && #[trigger] bits_of(reports[i], 1) == max_bits(reports, 1);
        assert(8 * (z.output - 1) < reports[i].output);
    }
    if z.feature != 0 {
        let i = choose|i: int| 0 <= i < reports.len() && #[trigger] bits_of(reports[i], 2) == max_bits(reports, 2);
        assert(8 * (z.feature - 1) < reports[i].feature);
    }
}

} // verus!
