//! GUIDs, text, numbers as bytes and names of sessions.
use ferrisetw::bytes;
use ferrisetw::guid::{push_guid, read_guid, GUID};
use ferrisetw::native::etw_types::DecodingSource;
use ferrisetw::native::tdh::{
    event_information_size, property_size, TdhNativeError, TraceEventInfo,
};
use ferrisetw::schema::Schema;
use ferrisetw::text;
use ferrisetw::utils::{default_trace_name, rand_string};

#[test]
fn guids_round_trip_through_numbers_text_and_bytes() {
    let value = 0x56781234_abcd_4609_0102_030405060708;
    let guid = GUID::from_u128(value);
    assert_eq!((guid.data1, guid.data2, guid.data3), (0x56781234, 0xabcd, 0x4609));
    assert_eq!(guid.to_u128(), value);
    assert_eq!(guid.to_text(), "56781234-ABCD-4609-0102-030405060708");
    assert_eq!(GUID::parse(&guid.to_text()), Some(guid));
    assert_eq!(GUID::parse("56781234-abcd-4609-0102-030405060708"), Some(guid));
    assert_eq!(GUID::parse("56781234-abcd-4609-0102-03040506070"), None);
    assert_eq!(GUID::parse("56781234-abcd-4609-0102-03040506070g"), None);

    let mut out = vec![0xff];
    push_guid(&mut out, &guid);
    assert_eq!(out[1..9], [0x34, 0x12, 0x78, 0x56, 0xcd, 0xab, 0x09, 0x46]);
    assert_eq!(read_guid(&out, 1), guid);
    assert_eq!(GUID::zeroed().to_u128(), 0);
}

#[test]
fn numbers_round_trip_through_their_bytes() {
    let mut out = Vec::new();
    bytes::push_u16s(&mut out, &[1, 0xfffe]);
    assert_eq!(out, vec![1, 0, 0xfe, 0xff]);
    assert_eq!(bytes::read_u16(&out, 2), 0xfffe);
    assert_eq!(bytes::read_u16_be(&out, 2), 0xfeff);
    let mut out = Vec::new();
    bytes::push_u32s(&mut out, &[0x0102_0304]);
    assert_eq!(bytes::read_u32(&out, 0), 0x0102_0304);
    let mut out = Vec::new();
    bytes::push_u64(&mut out, 0x0102_0304_0506_0708);
    assert_eq!(out, vec![8, 7, 6, 5, 4, 3, 2, 1]);
    assert_eq!(bytes::read_u64(&out, 0), 0x0102_0304_0506_0708);
    assert_eq!(bytes::copy_range(&out, 1, 3), vec![7, 6]);
}

#[test]
fn numbers_have_a_text() {
    assert_eq!(text::decimal_text(0), "0");
    assert_eq!(text::decimal_text(2_147_484_160), "2147484160");
    assert_eq!(text::hex_text(0xabc), "0xabc");
}

#[test]
fn sizes_are_what_tdh_reports() {
    assert_eq!(property_size(0, 6), Ok(6));
    assert_eq!(property_size(87, 6), Err(TdhNativeError::IoError(87)));
    // Asking for the size "fails" for want of room
    assert_eq!(event_information_size(122, 200), Ok(200));
    assert_eq!(event_information_size(1168, 200), Err(TdhNativeError::IoError(1168)));
}

#[test]
fn schemas_read_their_fixed_part() {
    let mut buffer = vec![0u8; 136];
    buffer[0..4].copy_from_slice(&0x1122_3344u32.to_le_bytes());
    buffer[32..34].copy_from_slice(&7u16.to_le_bytes());
    buffer[34] = 2;
    buffer[48..52].copy_from_slice(&1u32.to_le_bytes());
    let put_name = |buffer: &mut Vec<u8>, at: usize, name: &str| {
        let offset = u32::try_from(buffer.len()).unwrap();
        buffer[at..at + 4].copy_from_slice(&offset.to_le_bytes());
        for unit in name.encode_utf16() {
            buffer.extend_from_slice(&unit.to_le_bytes());
        }
        buffer.extend_from_slice(&[0, 0]);
    };
    put_name(&mut buffer, 52, "Provider ");
    put_name(&mut buffer, 68, "Task\u{3000}");
    put_name(&mut buffer, 72, "Start");
    let info = TraceEventInfo::build_from_event(0, buffer.clone()).unwrap();
    assert_eq!(info.provider_guid(), GUID::from_u128(0x1122_3344 << 96));
    assert_eq!((info.event_id(), info.event_version()), (7, 2));
    assert_eq!(info.decoding_source(), DecodingSource::DecodingSourceWbem);
    assert_eq!(info.provider_name(), "Provider ");

    let schema = Schema::new(info);
    assert_eq!(schema.provider_name_cached().trim(), "Provider");
    assert_eq!(schema.opcode_name(), "Start");
    assert!(schema.properties().is_empty());
    // Schemas of the same event are equal
    let same = Schema::new(TraceEventInfo::from_raw_parts(buffer.clone()).unwrap());
    assert!(schema == same);
    buffer[32] = 8;
    let other = Schema::new(TraceEventInfo::from_raw_parts(buffer).unwrap());
    assert!(schema != other);

    assert!(TraceEventInfo::from_raw_parts(vec![0; 111]).is_none());
    assert!(matches!(
        TraceEventInfo::build_from_event(5, vec![0; 136]),
        Err(TdhNativeError::IoError(5))
    ));
}

#[test]
fn names_of_sessions_are_random() {
    let random = GUID::from_u128(0x56781234_abcd_4609_0102_030405060708);
    let name = default_trace_name(Some(random));
    assert!(name.starts_with("n4r1b-trace-"));
    assert!(name.ends_with(&rand_string(Some(random))));
    assert_ne!(name, default_trace_name(Some(GUID::from_u128(1))));
    // Without randomness there still is a name
    assert!(default_trace_name(None).starts_with("n4r1b-trace-"));
}

#[test]
fn a_walk_that_was_begun_collects_what_is_left() {
    let mut buffer = vec![0u8; 112 + 24 * 3];
    buffer[100] = 3;
    buffer[104] = 3;
    for (index, name) in ["a", "b", "c"].iter().enumerate() {
        let offset = u32::try_from(buffer.len()).unwrap();
        let at = 112 + 24 * index + 4;
        buffer[at..at + 4].copy_from_slice(&offset.to_le_bytes());
        buffer.extend_from_slice(&[name.as_bytes()[0], 0, 0, 0]);
    }
    let info = TraceEventInfo::from_raw_parts(buffer).unwrap();
    let mut walk = info.properties();
    assert_eq!(walk.next().unwrap().name, "a");
    let left: Vec<String> = walk.collect().into_iter().map(|p| p.name).collect();
    assert_eq!(left, ["b", "c"]);
    assert_eq!(info.properties().collect().len(), 3);
}
