use embedded_services::relay::hid::{
    DescriptorItems, GlobalItemTag, HidDescriptorError, HidItemType, HidReportDescriptor,
    HidReportDescriptorElementHeader, MaxReportSizes, ReportIdMap, ShortItemSize, LONG_ITEM_HEADER, POP_HEADER,
    PUSH_HEADER, REPORT_ID_HEADER_SIZE1,
};

// A minimal, well-formed application collection with one one-byte input report and an explicit
// Report ID. The report ID value lives at index 7.
fn explicit_descriptor(report_id: u8) -> [u8; 17] {
    [
        0x05, 0x01, // Usage Page (Generic Desktop)
        0x09, 0x02, // Usage (Mouse)
        0xA1, 0x01, // Collection (Application)
        0x85, report_id, //   Report ID (report_id)
        0x09, 0x30, //   Usage (X)
        0x75, 0x08, //   Report Size (8)
        0x95, 0x01, //   Report Count (1)
        0x81, 0x02, //   Input (Data,Var,Abs)
        0xC0, // End Collection
    ]
}

// The same collection but with no Report ID item (implicit report ID form).
const IMPLICIT_DESCRIPTOR: &[u8] = &[
    0x05, 0x01, // Usage Page (Generic Desktop)
    0x09, 0x02, // Usage (Mouse)
    0xA1, 0x01, // Collection (Application)
    0x09, 0x30, //   Usage (X)
    0x75, 0x08, //   Report Size (8)
    0x95, 0x01, //   Report Count (1)
    0x81, 0x02, //   Input (Data,Var,Abs)
    0xC0, // End Collection
];

/// Returns all Report ID values (Global tag 8) found in a descriptor, in order.
fn report_ids(bytes: &[u8]) -> Vec<u8> {
    let mut ids = Vec::new();
    let mut items = DescriptorItems::new(bytes);
    while let Some(item) = items.next() {
        let item = item.unwrap();
        if item.header.is_report_id() {
            ids.push(item.data[0]);
        }
    }
    ids
}

/// Combine into `out`, discarding the map and returning just the descriptor.
fn combine<'buf, const REPORTS: usize, const DEVICES: usize>(
    inputs: &[&HidReportDescriptor<'_>; DEVICES],
    out: &'buf mut [u8],
) -> Result<HidReportDescriptor<'buf>, HidDescriptorError> {
    ReportIdMap::<REPORTS, DEVICES>::combine(inputs, out).map(|(descriptor, _)| descriptor)
}

#[test]
fn report_ids_are_reassigned_contiguously() {
    let a = explicit_descriptor(5);
    let b = explicit_descriptor(8);
    let mut out = [0u8; 64];
    let combined = combine::<8, 2>(
        &[&HidReportDescriptor::new(&a).unwrap(), &HidReportDescriptor::new(&b).unwrap()],
        &mut out,
    )
    .unwrap();

    // Length is the concatenation of both inputs plus a Push/Pop pair (2 bytes) per input.
    assert_eq!(combined.as_bytes().len(), a.len() + b.len() + 4);
    // Report IDs are reassigned 1, 2 regardless of the (5, 8) inputs.
    assert_eq!(&report_ids(combined.as_bytes())[..], &[1, 2]);
    // A combined descriptor never uses implicit report IDs.
    assert!(!combined.report_ids_implicit());
}

#[test]
fn all_ids_reassigned_contiguously_within_and_across_descriptors() {
    let a = explicit_descriptor(2);
    let b = [
        0x05, 0x01, // Usage Page (Generic Desktop)
        0x09, 0x02, // Usage (Mouse)
        0xA1, 0x01, // Collection (Application)
        0x85, 0x02, // Report ID (2)
        0x81, 0x02, // Input
        0x85, 0x03, // Report ID (3)
        0x81, 0x02, // Input
        0xC0, // End Collection
    ];
    let mut out = [0u8; 64];
    let combined = combine::<8, 2>(
        &[&HidReportDescriptor::new(&a).unwrap(), &HidReportDescriptor::new(&b).unwrap()],
        &mut out,
    )
    .unwrap();

    // a's 2 -> 1; b's 2 -> 2; b's 3 -> 3.
    assert_eq!(&report_ids(combined.as_bytes())[..], &[1, 2, 3]);
}

#[test]
fn implicit_descriptor_gets_report_id_inserted() {
    let a = IMPLICIT_DESCRIPTOR;
    let b = explicit_descriptor(1);
    let mut out = [0u8; 64];
    let combined = combine::<8, 2>(
        &[&HidReportDescriptor::new(a).unwrap(), &HidReportDescriptor::new(&b).unwrap()],
        &mut out,
    )
    .unwrap();

    // Implicit descriptor gets id 1 inserted; explicit descriptor's conflicting 1 -> 2.
    assert_eq!(&report_ids(combined.as_bytes())[..], &[1, 2]);
    // Length grew by the inserted 2-byte Report ID item plus a Push/Pop pair per input.
    assert_eq!(combined.as_bytes().len(), a.len() + b.len() + 2 + 4);
    // The inserted Report ID item lands right after the Collection (Application) item.
    assert_eq!(combined.as_bytes()[0], PUSH_HEADER);
    assert_eq!(&combined.as_bytes()[5..7], &[0xA1, 0x01]);
    assert_eq!(combined.as_bytes()[7], REPORT_ID_HEADER_SIZE1);
    assert_eq!(combined.as_bytes()[8], 1);
}

#[test]
fn every_report_id_is_inside_a_collection() {
    const END_COLLECTION_HEADER: u8 = 0xC0; // Main / End Collection, no data
    let mut out = [0u8; 64];
    let combined = combine::<8, 2>(
        &[
            &HidReportDescriptor::new(IMPLICIT_DESCRIPTOR).unwrap(),
            &HidReportDescriptor::new(&explicit_descriptor(1)).unwrap(),
        ],
        &mut out,
    )
    .unwrap();

    let mut depth = 0i32;
    let mut report_id_count = 0;
    let mut items = DescriptorItems::new(combined.as_bytes());
    while let Some(item) = items.next() {
        let item = item.unwrap();
        if item.header.is_report_id() {
            report_id_count += 1;
            assert!(depth > 0, "Report ID declared outside of a collection");
        }
        if item.header.is_collection() {
            depth += 1;
        } else if item.header.byte() == END_COLLECTION_HEADER {
            depth -= 1;
        }
    }
    assert_eq!(report_id_count, 2, "combined descriptor did not contain both report IDs");
    assert_eq!(depth, 0, "unbalanced collections in combined descriptor");
}

#[test]
fn each_descriptor_is_wrapped_in_push_pop() {
    let a = explicit_descriptor(1);
    let b = explicit_descriptor(2);
    let mut out = [0u8; 64];
    let combined = combine::<8, 2>(
        &[&HidReportDescriptor::new(&a).unwrap(), &HidReportDescriptor::new(&b).unwrap()],
        &mut out,
    )
    .unwrap();
    let bytes = combined.as_bytes();

    // Exactly one Push and one Pop per input, balanced.
    let pushes = bytes.iter().filter(|&&b| b == PUSH_HEADER).count();
    let pops = bytes.iter().filter(|&&b| b == POP_HEADER).count();
    assert_eq!(pushes, 2);
    assert_eq!(pops, 2);
    // Starts with a Push and ends with a Pop, and the boundary between the two inputs is Pop then Push.
    assert_eq!(bytes.first(), Some(&PUSH_HEADER));
    assert_eq!(bytes.last(), Some(&POP_HEADER));
    assert!(bytes.windows(2).any(|w| w == [POP_HEADER, PUSH_HEADER]));
}

#[test]
fn multiple_implicit_descriptors_get_distinct_ids() {
    let mut out = [0u8; 64];
    let combined = combine::<8, 2>(
        &[
            &HidReportDescriptor::new(IMPLICIT_DESCRIPTOR).unwrap(),
            &HidReportDescriptor::new(IMPLICIT_DESCRIPTOR).unwrap(),
        ],
        &mut out,
    )
    .unwrap();

    assert_eq!(&report_ids(combined.as_bytes())[..], &[1, 2]);
}

#[test]
fn output_buffer_too_small_errors() {
    let a = explicit_descriptor(1);
    let mut out = [0u8; 4];
    let err = combine::<8, 1>(&[&HidReportDescriptor::new(&a).unwrap()], &mut out).unwrap_err();
    assert!(matches!(err, HidDescriptorError::OutputBufferTooSmall(_)));
}

#[test]
fn long_item_is_preserved() {
    const LONG_ITEM: &[u8] = &[LONG_ITEM_HEADER, 0x02, 0x42, 0xAA, 0xBB];
    let bytes = [
        0x06, 0x00, 0xFF, // Usage Page (vendor-defined)
        0x85, 0x03, //   Report ID (3)
        LONG_ITEM_HEADER, 0x02, 0x42, 0xAA, 0xBB, //   Long item: 2 data bytes, tag 0x42
        0x81, 0x02, //   Input (Data,Var,Abs)
    ];

    // The iterator splits the 3-byte long header from the payload and exposes the whole item.
    let mut items = DescriptorItems::new(&bytes);
    items.next().unwrap().unwrap();
    items.next().unwrap().unwrap();
    let long = items.next().unwrap().unwrap();
    assert!(long.header.is_long_item());
    assert_eq!(long.data, &[0xAA, 0xBB]);
    assert_eq!(long.raw, LONG_ITEM);

    // Combining a single input renumbers its Report ID to 1 but leaves the long item untouched.
    let mut out = [0u8; 64];
    let combined = combine::<8, 1>(&[&HidReportDescriptor::new(&bytes).unwrap()], &mut out).unwrap();
    assert_eq!(&report_ids(combined.as_bytes())[..], &[1]);
    assert!(combined.as_bytes().windows(LONG_ITEM.len()).any(|w| w == LONG_ITEM));
}

#[test]
fn truncated_long_item_errors() {
    let bytes = [LONG_ITEM_HEADER, 0x02, 0x42, 0xAA];
    let err = HidReportDescriptor::new(&bytes).unwrap_err();
    assert_eq!(err, HidDescriptorError::TruncatedItem);
}

#[test]
fn remaps_report_conflict_resolution() {
    let a = explicit_descriptor(1);
    let b = explicit_descriptor(1);
    let mut out = [0u8; 64];
    let (combined, map) = ReportIdMap::<8, 2>::combine(
        &[&HidReportDescriptor::new(&a).unwrap(), &HidReportDescriptor::new(&b).unwrap()],
        &mut out,
    )
    .unwrap();

    assert_eq!(map.len(), 2);
    assert_eq!(map.route(1), Some((0, 1))); // host 1 -> input 0's native 1
    assert_eq!(map.route(2), Some((1, 1))); // host 2 -> input 1's native 1
    assert_eq!(map.host_id(0, 1), Some(1));
    assert_eq!(map.host_id(1, 1), Some(2));
    assert_eq!(map.route(3), None);
    assert_eq!(&report_ids(combined.as_bytes())[..], &[1, 2]);
}

#[test]
fn remaps_record_implicit_as_original_zero() {
    let mut out = [0u8; 64];
    let (_, map) =
        ReportIdMap::<4, 1>::combine(&[&HidReportDescriptor::new(IMPLICIT_DESCRIPTOR).unwrap()], &mut out).unwrap();

    assert_eq!(map.len(), 1);
    // An implicit sub-device is addressed by native report ID 0 and gets assigned host ID 1.
    assert_eq!(map.route(1), Some((0, 0)));
    assert_eq!(map.host_id(0, 0), Some(1));
}

#[test]
fn remap_buffer_too_small_errors() {
    let a = explicit_descriptor(1);
    let b = explicit_descriptor(1);
    let mut out = [0u8; 64];
    // REPORT_COUNT = 1 cannot hold both reports.
    let err = ReportIdMap::<1, 2>::combine(
        &[&HidReportDescriptor::new(&a).unwrap(), &HidReportDescriptor::new(&b).unwrap()],
        &mut out,
    )
    .unwrap_err();
    assert_eq!(err, HidDescriptorError::TooManyReportIds);
}

#[test]
fn max_report_sizes_single_input() {
    let a = explicit_descriptor(5);
    let sizes = HidReportDescriptor::new(&a).unwrap().max_report_sizes();
    assert_eq!(sizes, MaxReportSizes { input: 1, output: 0, feature: 0 });
}

#[test]
fn max_report_sizes_implicit_report_id() {
    let sizes = HidReportDescriptor::new(IMPLICIT_DESCRIPTOR).unwrap().max_report_sizes();
    assert_eq!(sizes.input, 1);
}

#[test]
fn max_report_sizes_rounds_bits_up_and_sums_fields() {
    let bytes = [
        0x05, 0x01, // Usage Page (Generic Desktop)
        0xA1, 0x01, // Collection (Application)
        0x85, 0x07, //   Report ID (7)
        0x75, 0x05, //   Report Size (5)
        0x95, 0x03, //   Report Count (3)
        0x81, 0x02, //   Input  (15 bits)
        0x75, 0x08, //   Report Size (8)
        0x95, 0x01, //   Report Count (1)
        0x81, 0x02, //   Input  (+8 bits => 23 bits total => 3 bytes)
        0x95, 0x02, //   Report Count (2)
        0x91, 0x02, //   Output (8 bits x 2 => 2 bytes)
        0x75, 0x10, //   Report Size (16)
        0x95, 0x01, //   Report Count (1)
        0xB1, 0x02, //   Feature (16 bits => 2 bytes)
        0xC0, // End Collection
    ];
    let sizes = HidReportDescriptor::new(&bytes).unwrap().max_report_sizes();
    assert_eq!(sizes, MaxReportSizes { input: 3, output: 2, feature: 2 });
}

#[test]
fn max_report_sizes_takes_max_across_report_ids() {
    let bytes = [
        0xA1, 0x01, // Collection (Application)
        0x75, 0x08, //   Report Size (8)
        0x95, 0x01, //   Report Count (1)
        0x85, 0x01, //   Report ID (1)
        0x81, 0x02, //   Input (8 bits into report 1)
        0x81, 0x02, //   Input (+8 bits => 16 bits total in report 1)
        0x85, 0x02, //   Report ID (2)
        0x81, 0x02, //   Input (8 bits into report 2)
        0xC0, // End Collection
    ];
    let sizes = HidReportDescriptor::new(&bytes).unwrap().max_report_sizes();
    assert_eq!(sizes.input, 2);
}

#[test]
fn max_report_sizes_sums_noncontiguous_report_id_fields() {
    let bytes = [
        0xA1, 0x01, // Collection (Application)
        0x75, 0x08, //   Report Size (8)
        0x85, 0x01, //   Report ID (1)
        0x95, 0x02, //   Report Count (2)
        0x81, 0x02, //   Input (2 bytes into report 1)
        0x85, 0x02, //   Report ID (2)
        0x95, 0x03, //   Report Count (3)
        0x81, 0x02, //   Input (3 bytes into report 2)
        0x85, 0x01, //   Report ID (1)
        0x95, 0x02, //   Report Count (2)
        0x81, 0x02, //   Input (+2 bytes => 4 bytes total in report 1)
        0xC0, // End Collection
    ];
    let sizes = HidReportDescriptor::new(&bytes).unwrap().max_report_sizes();
    assert_eq!(sizes.input, 4);
}

#[test]
fn max_report_sizes_sums_report_id_fields_restored_by_pop() {
    let bytes = [
        0xA1, 0x01, // Collection (Application)
        0x75, 0x08, //   Report Size (8)
        0x85, 0x01, //   Report ID (1)
        0x95, 0x02, //   Report Count (2)
        0x81, 0x02, //   Input (2 bytes into report 1)
        0xA4, //   Push (saves report ID 1)
        0x85, 0x02, //     Report ID (2)
        0x95, 0x03, //     Report Count (3)
        0x81, 0x02, //     Input (3 bytes into report 2)
        0xB4, //   Pop (restores report ID 1 and report count 2)
        0x81, 0x02, //   Input (+2 bytes => 4 bytes total in report 1)
        0xC0, // End Collection
    ];
    let sizes = HidReportDescriptor::new(&bytes).unwrap().max_report_sizes();
    assert_eq!(sizes.input, 4);
}

#[test]
fn max_report_sizes_honors_push_pop() {
    let bytes = [
        0xA1, 0x01, // Collection (Application)
        0x85, 0x01, //   Report ID (1)
        0x95, 0x01, //   Report Count (1)
        0x75, 0x08, //   Report Size (8)
        0x81, 0x02, //   Input (8 bits)
        0xA4, //   Push
        0x75, 0x20, //     Report Size (32)
        0x81, 0x02, //     Input (32 bits)
        0xB4, //   Pop (restores Report Size 8)
        0x81, 0x02, //   Input (8 bits)
        0xC0, // End Collection
    ];
    let sizes = HidReportDescriptor::new(&bytes).unwrap().max_report_sizes();
    assert_eq!(sizes.input, 6);
}

#[test]
fn max_report_sizes_unbalanced_pop_errors() {
    let bytes = [0xB4u8];
    let err = HidReportDescriptor::new(&bytes).unwrap_err();
    assert_eq!(err, HidDescriptorError::UnbalancedPop);
}

#[test]
fn map_route_and_host_id_are_inverse() {
    // Three inputs with native IDs (2), (2, 3) and implicit: every host ID routes to an input and
    // native ID whose reverse lookup gives the host ID back.
    let a = explicit_descriptor(2);
    let b = [
        0xA1, 0x01, // Collection (Application)
        0x85, 0x02, // Report ID (2)
        0x81, 0x02, // Input
        0x85, 0x03, // Report ID (3)
        0x81, 0x02, // Input
        0xC0, // End Collection
    ];
    let mut out = [0u8; 96];
    let (_, map) = ReportIdMap::<8, 3>::combine(
        &[
            &HidReportDescriptor::new(&a).unwrap(),
            &HidReportDescriptor::new(&b).unwrap(),
            &HidReportDescriptor::new(IMPLICIT_DESCRIPTOR).unwrap(),
        ],
        &mut out,
    )
    .unwrap();
    assert_eq!(map.len(), 4);
    assert!(!map.is_empty());
    assert_eq!(map.route(0), None);
    for host in 1u8..=4 {
        let (owner, native) = map.route(host).unwrap();
        assert_eq!(map.host_id(owner, native), Some(host));
    }
    assert_eq!(map.route(3), Some((1, 3)));
    assert_eq!(map.route(4), Some((2, 0)));
    assert_eq!(map.host_id(1, 7), None);
    assert_eq!(map.host_id(3, 0), None);
}

#[test]
fn global_headers_encode_tag_type_and_size() {
    let push = HidReportDescriptorElementHeader::global(GlobalItemTag::Push, ShortItemSize::Zero);
    assert_eq!(push.byte(), PUSH_HEADER);
    let pop = HidReportDescriptorElementHeader::global(GlobalItemTag::Pop, ShortItemSize::Zero);
    assert_eq!(pop.byte(), POP_HEADER);
    let report_id = HidReportDescriptorElementHeader::global(GlobalItemTag::ReportId, ShortItemSize::One);
    assert_eq!(report_id.byte(), REPORT_ID_HEADER_SIZE1);
    assert!(report_id.is_report_id());
    assert_eq!(report_id.item_type(), HidItemType::Global);
    assert_eq!(report_id.item_tag(), 8);
    assert_eq!(report_id.short_item_data_size(), ShortItemSize::One);
    let count = HidReportDescriptorElementHeader::global(GlobalItemTag::ReportCount, ShortItemSize::Four);
    assert_eq!(count.byte(), 0x97);
    assert_eq!(count.short_item_data_size().data_bytes(), 4);
    assert!(!count.is_collection());
    assert!(HidReportDescriptorElementHeader(0xA1).is_collection());
    assert!(HidReportDescriptorElementHeader(LONG_ITEM_HEADER).is_long_item());
}

#[test]
fn required_output_size_is_exact() {
    // An explicit input of 17 bytes and an implicit one of 15 need 17 + 15 + 2 * 4 bytes.
    let a = explicit_descriptor(3);
    let inputs = [
        &HidReportDescriptor::new(&a).unwrap(),
        &HidReportDescriptor::new(IMPLICIT_DESCRIPTOR).unwrap(),
    ];
    let mut short = [0xa5u8; 39];
    assert_eq!(
        combine::<8, 2>(&inputs, &mut short).unwrap_err(),
        HidDescriptorError::OutputBufferTooSmall(40)
    );
    // Nothing is written when the output is too small
    assert_eq!(short, [0xa5u8; 39]);
    let mut exact = [0u8; 40];
    let combined = combine::<8, 2>(&inputs, &mut exact).unwrap();
    // Push and Pop around each input, and a Report ID item inserted into the implicit one
    assert_eq!(combined.as_bytes().len(), 17 + 15 + 2 + 2 + 2);
    assert_eq!(&report_ids(combined.as_bytes())[..], &[1, 2]);
}
