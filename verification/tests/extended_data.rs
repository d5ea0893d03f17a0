//! Extended data items.
use ferrisetw::guid::GUID;
use ferrisetw::native::etw_types::extended_data::{
    EventHeaderExtendedDataItem, ExtendedDataItem, Sid, EVENT_HEADER_EXT_TYPE_CONTAINER_ID,
    EVENT_HEADER_EXT_TYPE_EVENT_KEY, EVENT_HEADER_EXT_TYPE_EVENT_SCHEMA_TL,
    EVENT_HEADER_EXT_TYPE_INSTANCE_INFO, EVENT_HEADER_EXT_TYPE_PROCESS_START_KEY,
    EVENT_HEADER_EXT_TYPE_PROV_TRAITS, EVENT_HEADER_EXT_TYPE_RELATED_ACTIVITYID,
    EVENT_HEADER_EXT_TYPE_SID, EVENT_HEADER_EXT_TYPE_STACK_TRACE32,
    EVENT_HEADER_EXT_TYPE_STACK_TRACE64, EVENT_HEADER_EXT_TYPE_TS_ID,
};

fn item(ext_type: u16, data: &[u8]) -> EventHeaderExtendedDataItem {
    EventHeaderExtendedDataItem { ext_type, data: Some(data.to_vec()) }
}

/// GUID bytes as they lie in memory: little-endian data1/2/3, then data4 as it is.
fn guid_bytes(guid: GUID) -> [u8; 16] {
    let mut bytes = [0u8; 16];
    bytes[0..4].copy_from_slice(&guid.data1.to_le_bytes());
    bytes[4..6].copy_from_slice(&guid.data2.to_le_bytes());
    bytes[6..8].copy_from_slice(&guid.data3.to_le_bytes());
    bytes[8..].copy_from_slice(&guid.data4.to_be_bytes());
    bytes
}

fn sid_text(sid: &Sid) -> String {
    let bytes = sid.as_bytes();
    let mut text = format!("S-{}-{}", bytes[0], bytes[7]);
    for i in 0..usize::from(sid.sub_authority_count()) {
        text = format!("{text}-{}", sid.sub_authority(i).unwrap());
    }
    text
}

#[test]
fn tlg_event_name_is_parsed() {
    // [u16 total size][tag byte][nul-terminated name][field metadata]
    let name = b"Event1\0";
    let total = u16::try_from(2 + 1 + name.len() + 3).unwrap();
    let mut blob = Vec::with_capacity(usize::from(total));
    blob.extend_from_slice(&total.to_le_bytes());
    blob.push(0x00);
    blob.extend_from_slice(name);
    blob.extend_from_slice(&[0x20, 0x00, 0x00]);

    let ExtendedDataItem::TraceLogging(event_name) =
        item(EVENT_HEADER_EXT_TYPE_EVENT_SCHEMA_TL, &blob).to_extended_data_item()
    else {
        panic!("expected the TraceLogging variant");
    };
    assert_eq!(event_name, "Event1");
}

#[test]
fn tlg_event_name_with_tags_and_metadata_over_255_bytes() {
    // A total size of 256: its low byte is 0
    let name = b"MyEvent\0";
    let total = 256u16;
    let mut blob = Vec::with_capacity(usize::from(total));
    blob.extend_from_slice(&total.to_le_bytes());
    blob.extend_from_slice(&[0x81, 0x02]); // two tag bytes, the second one ends the chain
    blob.extend_from_slice(name);
    blob.resize(usize::from(total), 0xab);

    let ExtendedDataItem::TraceLogging(event_name) =
        item(EVENT_HEADER_EXT_TYPE_EVENT_SCHEMA_TL, &blob).to_extended_data_item()
    else {
        panic!("expected the TraceLogging variant");
    };
    assert_eq!(event_name, "MyEvent");
}

fn tlg_event_name(blob: &[u8]) -> Option<String> {
    item(EVENT_HEADER_EXT_TYPE_EVENT_SCHEMA_TL, blob).get_event_name()
}

#[test]
fn tlg_event_name_without_nul_is_rejected() {
    let name = b"Event1"; // missing terminator
    let total = u16::try_from(2 + 1 + name.len()).unwrap();
    let mut blob = Vec::with_capacity(usize::from(total));
    blob.extend_from_slice(&total.to_le_bytes());
    blob.push(0x00);
    blob.extend_from_slice(name);

    assert!(tlg_event_name(&blob).is_none());
}

#[test]
fn tlg_metadata_shorter_than_the_size_field_is_rejected() {
    for size in [0usize, 1] {
        let blob = vec![0u8; size];
        assert!(tlg_event_name(&blob).is_none());
    }
}

#[test]
fn tlg_tag_chain_filling_the_declared_size_is_rejected() {
    let blob = [6u8, 0, 0x81, 0x82, 0x83, 0x84];
    assert!(tlg_event_name(&blob).is_none());
}

#[test]
fn tlg_declared_size_larger_than_the_blob_is_clamped() {
    let blob = [100u8, 0, 0x00, b'H', b'i', 0];
    assert_eq!(tlg_event_name(&blob).as_deref(), Some("Hi"));
}

#[test]
fn tlg_event_names_that_are_not_utf8_are_repaired() {
    let blob = [7u8, 0, 0x00, b'H', 0xff, b'i', 0];
    assert_eq!(tlg_event_name(&blob).as_deref(), Some("H\u{fffd}i"));
}

#[test]
fn null_data_pointers_are_unsupported() {
    let absent = EventHeaderExtendedDataItem {
        ext_type: EVENT_HEADER_EXT_TYPE_TS_ID,
        data: None,
    };
    assert!(matches!(absent.to_extended_data_item(), ExtendedDataItem::Unsupported));
}

/// S-1-5-21-100-200-300-999
fn sample_sid_bytes() -> Vec<u8> {
    let mut bytes = vec![1u8, 5, 0, 0, 0, 0, 0, 5]; // revision, count, identifier authority
    for sub_authority in [21u32, 100, 200, 300, 999] {
        bytes.extend_from_slice(&sub_authority.to_le_bytes());
    }
    bytes
}

#[test]
fn truncated_sid_extended_data_is_dropped() {
    // Declares 3 sub-authorities (20 bytes) but only holds 10
    let bytes = vec![1u8, 3, 0, 0, 0, 0, 0, 5, 21, 0];
    assert!(matches!(
        item(EVENT_HEADER_EXT_TYPE_SID, &bytes).to_extended_data_item(),
        ExtendedDataItem::Unsupported
    ));
}

#[test]
fn sid_shorter_than_the_fixed_prefix_is_dropped() {
    for size in [0usize, 1] {
        let bytes = vec![1u8; size];
        assert!(matches!(
            item(EVENT_HEADER_EXT_TYPE_SID, &bytes).to_extended_data_item(),
            ExtendedDataItem::Unsupported
        ));
    }
}

#[test]
fn sid_prefix_without_room_for_sub_authorities_is_dropped() {
    let bytes = vec![1u8, 1, 0, 0, 0, 0, 0, 5];
    assert!(matches!(
        item(EVENT_HEADER_EXT_TYPE_SID, &bytes).to_extended_data_item(),
        ExtendedDataItem::Unsupported
    ));
}

#[test]
fn exactly_sized_sid_is_accepted() {
    let mut bytes = vec![1u8, 1, 0, 0, 0, 0, 0, 5];
    bytes.extend_from_slice(&32u32.to_le_bytes());

    let ExtendedDataItem::Sid(sid) =
        item(EVENT_HEADER_EXT_TYPE_SID, &bytes).to_extended_data_item()
    else {
        panic!("expected the Sid variant");
    };
    assert_eq!(sid.sub_authority_count(), 1);
    assert_eq!(sid.sub_authority(0), Some(32));
    assert_eq!(sid_text(&sid), "S-1-5-32");
}

#[test]
fn sid_extended_data_is_deep_copied() {
    let sid_bytes = sample_sid_bytes();
    let ExtendedDataItem::Sid(sid) =
        item(EVENT_HEADER_EXT_TYPE_SID, &sid_bytes).to_extended_data_item()
    else {
        panic!("expected the Sid variant");
    };
    assert_eq!(sid.as_bytes(), &sid_bytes[..]);
    assert_eq!(sid.sub_authority_count(), 5);
    assert_eq!(sid.sub_authority(0), Some(21));
    assert_eq!(sid.sub_authority(4), Some(999));
    assert_eq!(sid.sub_authority(5), None);
    assert_eq!(sid_text(&sid), "S-1-5-21-100-200-300-999");
}

#[test]
fn sid_copy_survives_the_original_buffer() {
    let mut native = item(EVENT_HEADER_EXT_TYPE_SID, &sample_sid_bytes());
    let ExtendedDataItem::Sid(sid) = native.to_extended_data_item() else {
        panic!("expected the Sid variant");
    };
    native.data.as_mut().unwrap().fill(0xaa);
    assert_eq!(sid.sub_authority(4), Some(999));
}

#[test]
fn prov_traits_blob_is_copied_verbatim() {
    let blob = [1u8, 2, 3, 4];
    let ExtendedDataItem::ProvTraits(bytes) =
        item(EVENT_HEADER_EXT_TYPE_PROV_TRAITS, &blob).to_extended_data_item()
    else {
        panic!("expected the ProvTraits variant");
    };
    assert_eq!(bytes, vec![1, 2, 3, 4]);
}

#[test]
fn container_id_is_parsed() {
    let guid = GUID::from_u128(0x56781234_abcd_4609_0102_030405060708);
    let ExtendedDataItem::ContainerId(container_id) =
        item(EVENT_HEADER_EXT_TYPE_CONTAINER_ID, &guid_bytes(guid)).to_extended_data_item()
    else {
        panic!("expected the ContainerId variant");
    };
    assert_eq!(container_id, guid);
}

#[test]
fn related_activity_id_is_parsed() {
    let guid = GUID::from_u128(0x0102_0304_0506_0708_090a_0b0c_0d0e_0f10);
    let ExtendedDataItem::RelatedActivityId(related) =
        item(EVENT_HEADER_EXT_TYPE_RELATED_ACTIVITYID, &guid_bytes(guid)).to_extended_data_item()
    else {
        panic!("expected the RelatedActivityId variant");
    };
    assert_eq!(related, guid);
}

#[test]
fn ts_id_is_parsed() {
    let blob = 7u32.to_le_bytes().to_vec();
    let ExtendedDataItem::TsId(session_id) =
        item(EVENT_HEADER_EXT_TYPE_TS_ID, &blob).to_extended_data_item()
    else {
        panic!("expected the TsId variant");
    };
    assert_eq!(session_id, 7);
}

#[test]
fn instance_info_is_parsed() {
    let parent = GUID::from_u128(0x00ff_11ee_22dd_33cc_44bb_55aa_6699_7788);
    let mut blob = 42u32.to_le_bytes().to_vec();
    blob.extend_from_slice(&4242u32.to_le_bytes());
    blob.extend_from_slice(&guid_bytes(parent));

    let ExtendedDataItem::InstanceInfo(info) =
        item(EVENT_HEADER_EXT_TYPE_INSTANCE_INFO, &blob).to_extended_data_item()
    else {
        panic!("expected the InstanceInfo variant");
    };
    assert_eq!(info.instance_id, 42);
    assert_eq!(info.parent_instance_id, 4242);
    assert_eq!(info.parent_guid, parent);
}

#[test]
fn event_and_process_start_keys_are_parsed() {
    let blob = 42u64.to_le_bytes().to_vec();
    let ExtendedDataItem::EventKey(event_key) =
        item(EVENT_HEADER_EXT_TYPE_EVENT_KEY, &blob).to_extended_data_item()
    else {
        panic!("expected the EventKey variant");
    };
    assert_eq!(event_key, 42);

    let ExtendedDataItem::ProcessStartKey(process_start_key) =
        item(EVENT_HEADER_EXT_TYPE_PROCESS_START_KEY, &blob).to_extended_data_item()
    else {
        panic!("expected the ProcessStartKey variant");
    };
    assert_eq!(process_start_key, 42);
}

#[test]
fn stack_trace64_is_parsed() {
    let mut blob = 0x1234_5678_9abc_def0u64.to_le_bytes().to_vec();
    blob.extend_from_slice(&0x1000u64.to_le_bytes());
    blob.extend_from_slice(&0x2000u64.to_le_bytes());

    let ExtendedDataItem::StackTrace64(stack) =
        item(EVENT_HEADER_EXT_TYPE_STACK_TRACE64, &blob).to_extended_data_item()
    else {
        panic!("expected the StackTrace64 variant");
    };
    assert_eq!(stack.match_id(), 0x1234_5678_9abc_def0);
    assert_eq!(stack.addresses(), &[0x1000, 0x2000]);
}

#[test]
fn stack_trace32_is_parsed() {
    let mut blob = 0xa5a5_a5a5_a5a5_a5a5u64.to_le_bytes().to_vec();
    blob.extend_from_slice(&0x10u32.to_le_bytes());
    blob.extend_from_slice(&0x20u32.to_le_bytes());

    let ExtendedDataItem::StackTrace32(stack) =
        item(EVENT_HEADER_EXT_TYPE_STACK_TRACE32, &blob).to_extended_data_item()
    else {
        panic!("expected the StackTrace32 variant");
    };
    assert_eq!(stack.match_id(), 0xa5a5_a5a5_a5a5_a5a5);
    assert_eq!(stack.addresses(), &[0x10, 0x20]);
}

#[test]
fn stack_trace_without_room_for_addresses_is_kept() {
    let blob = 7u64.to_le_bytes().to_vec();
    let ExtendedDataItem::StackTrace64(stack) =
        item(EVENT_HEADER_EXT_TYPE_STACK_TRACE64, &blob).to_extended_data_item()
    else {
        panic!("expected the StackTrace64 variant");
    };
    assert_eq!(stack.match_id(), 7);
    assert_eq!(stack.addresses(), &[] as &[u64]);
}

#[test]
fn short_fixed_size_items_are_dropped() {
    let cases = [
        (EVENT_HEADER_EXT_TYPE_RELATED_ACTIVITYID, 16),
        (EVENT_HEADER_EXT_TYPE_TS_ID, 4),
        (EVENT_HEADER_EXT_TYPE_INSTANCE_INFO, 24),
        // Stack traces only need room for their match identifier
        (EVENT_HEADER_EXT_TYPE_STACK_TRACE32, 8),
        (EVENT_HEADER_EXT_TYPE_STACK_TRACE64, 8),
        (EVENT_HEADER_EXT_TYPE_PROCESS_START_KEY, 8),
        (EVENT_HEADER_EXT_TYPE_EVENT_KEY, 8),
        (EVENT_HEADER_EXT_TYPE_CONTAINER_ID, 16),
    ];

    for (ext_type, fixed_size) in cases {
        for size in [0, fixed_size - 1] {
            let blob = vec![0u8; size];
            assert!(
                matches!(
                    item(ext_type, &blob).to_extended_data_item(),
                    ExtendedDataItem::Unsupported
                ),
                "a {size}-byte item must be dropped"
            );
        }

        let blob = vec![0u8; fixed_size];
        assert!(
            !matches!(
                item(ext_type, &blob).to_extended_data_item(),
                ExtendedDataItem::Unsupported
            ),
            "a {fixed_size}-byte item must parse"
        );
    }
}

#[test]
fn unaligned_items_are_read_safely() {
    let guid = GUID::from_u128(0x1122_3344_5566_7788_99aa_bbcc_ddee_ff00);
    let mut blob = vec![0xaau8]; // forces the odd offset
    blob.extend_from_slice(&guid_bytes(guid));

    let ExtendedDataItem::RelatedActivityId(related) =
        item(EVENT_HEADER_EXT_TYPE_RELATED_ACTIVITYID, &blob[1..]).to_extended_data_item()
    else {
        panic!("expected the RelatedActivityId variant");
    };
    assert_eq!(related, guid);

    let mut blob = vec![0xaau8];
    blob.extend_from_slice(&42u64.to_le_bytes());

    let ExtendedDataItem::ProcessStartKey(key) =
        item(EVENT_HEADER_EXT_TYPE_PROCESS_START_KEY, &blob[1..]).to_extended_data_item()
    else {
        panic!("expected the ProcessStartKey variant");
    };
    assert_eq!(key, 42);
}

#[test]
fn unaligned_stack_trace_addresses_are_read_safely() {
    let mut blob = vec![0xaau8]; // forces the odd offset
    blob.extend_from_slice(&0x42u64.to_le_bytes());
    blob.extend_from_slice(&0x30u64.to_le_bytes());
    blob.extend_from_slice(&0x40u64.to_le_bytes());

    let ExtendedDataItem::StackTrace64(stack) =
        item(EVENT_HEADER_EXT_TYPE_STACK_TRACE64, &blob[1..]).to_extended_data_item()
    else {
        panic!("expected the StackTrace64 variant");
    };
    assert_eq!(stack.match_id(), 0x42);
    assert_eq!(stack.addresses(), &[0x30, 0x40]);
}
