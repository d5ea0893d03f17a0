//! The cache of schemas.
use ferrisetw::guid::GUID;
use ferrisetw::native::etw_types::event_record::{EventHeader, EventRecord};
use ferrisetw::native::etw_types::extended_data::EventHeaderExtendedDataItem;
use ferrisetw::native::tdh::{TdhNativeError, TraceEventInfo};
use ferrisetw::schema::Schema;
use ferrisetw::schema_locator::{
    SchemaError, SchemaKey, SchemaLocator, SchemaLookup, MAX_CACHED_SCHEMAS,
};
use std::sync::Arc;

fn synthetic_tei() -> TraceEventInfo {
    TraceEventInfo::from_raw_parts(vec![0u8; 136]).unwrap()
}

fn key(n: u16) -> SchemaKey {
    SchemaKey {
        provider: GUID::from_u128(u128::from(n)),
        id: n,
        opcode: 0,
        version: 0,
        level: 0,
    }
}

#[test]
fn cache_is_bounded() {
    let mut locator = SchemaLocator::new();
    let schema = Arc::new(Schema::new(synthetic_tei()));

    for n in 0..u16::try_from(MAX_CACHED_SCHEMAS).unwrap() {
        let stored = locator.store(key(n), String::new(), Arc::clone(&schema));
        assert!(Arc::ptr_eq(&stored, &schema));
    }
    assert_eq!(locator.len(), MAX_CACHED_SCHEMAS);

    // Once full, a new schema is still handed out, but not cached
    let extra = locator.store(key(u16::MAX), String::new(), Arc::clone(&schema));
    assert!(Arc::ptr_eq(&extra, &schema));
    assert_eq!(locator.len(), MAX_CACHED_SCHEMAS);
}

#[test]
fn several_names_under_the_same_descriptor_all_count() {
    let mut locator = SchemaLocator::new();
    let schema = Arc::new(Schema::new(synthetic_tei()));
    let key = key(0);

    for n in 0..3u16 {
        let stored = locator.store(key, format!("Event{n}"), Arc::clone(&schema));
        assert!(Arc::ptr_eq(&stored, &schema));
    }
    assert_eq!(locator.len(), 3);

    // Same name as an existing entry: no duplicate is stored
    let again = locator.store(key, "Event1".into(), Arc::clone(&schema));
    assert!(Arc::ptr_eq(&again, &schema));
    assert_eq!(locator.len(), 3);
}

#[test]
fn concurrent_insert_of_the_same_key_wins_over_the_loser() {
    let mut locator = SchemaLocator::new();
    let winner = Arc::new(Schema::new(synthetic_tei()));
    let loser = Arc::new(Schema::new(synthetic_tei()));

    let first = locator.store(key(1), String::new(), Arc::clone(&winner));
    let second = locator.store(key(1), String::new(), Arc::clone(&loser));

    assert!(Arc::ptr_eq(&first, &winner));
    assert!(Arc::ptr_eq(&second, &winner));
}

fn sized(payload: &[u8]) -> Vec<u8> {
    let mut blob = u16::try_from(payload.len() + 2).unwrap().to_le_bytes().to_vec();
    blob.extend_from_slice(payload);
    blob
}

/// A TraceLogging event with one `UInt16` field, its metadata in extended data
/// items.
fn tlg_record(event_name: &str, field_name: &str) -> EventRecord {
    let mut event_meta = vec![0u8]; // tags
    event_meta.extend_from_slice(event_name.as_bytes());
    event_meta.push(0);
    event_meta.extend_from_slice(field_name.as_bytes());
    event_meta.push(0);
    event_meta.push(6);

    let mut header = EventHeader {
        size: 80,
        flags: 0x0002,
        provider_id: GUID::from_u128(0x8f0e2f62_5b7d_4d1a_9e58_5a0c1b2d3e4f),
        ..EventHeader::default()
    };
    header.descriptor.channel = 11;
    EventRecord {
        header,
        extended_data: vec![
            EventHeaderExtendedDataItem {
                ext_type: 12,
                data: Some(sized(b"ferrisETW.TraceLoggingTest\0\0")),
            },
            EventHeaderExtendedDataItem { ext_type: 11, data: Some(sized(&event_meta)) },
        ],
        user_data: vec![80, 0],
        user_data_address: 0,
    }
}

/// What TDH reports for [`tlg_record`]: the event metadata alone determines it.
fn tlg_info(field_name: &str) -> TraceEventInfo {
    let mut buffer = vec![0u8; 136];
    buffer[48] = 3; // TraceLogging
    buffer[100] = 1;
    buffer[104] = 1;
    buffer[116] = 136; // offset of the name
    buffer[120] = 6; // UInt16
    buffer[128] = 1; // count
    buffer[130] = 2; // length
    for unit in field_name.encode_utf16() {
        buffer.extend_from_slice(&unit.to_le_bytes());
    }
    buffer.extend_from_slice(&[0, 0]);
    TraceEventInfo::from_raw_parts(buffer).unwrap()
}

fn event_schema(locator: &mut SchemaLocator, event: &EventRecord) -> Arc<Schema> {
    match locator.event_schema(event) {
        SchemaLookup::Cached(schema) => schema,
        SchemaLookup::NeedsTdh { key, name } => {
            locator.complete(key, name, Ok(tlg_info("Port"))).unwrap()
        }
    }
}

#[test]
fn tlg_level_opcode_variants_share_schema_content() {
    let mut locator = SchemaLocator::new();

    let event1 = tlg_record("Event1", "Port");
    let mut event2 = tlg_record("Event1", "Port");
    event2.header.descriptor.level = 5;
    event2.header.descriptor.opcode = 10;

    let s1 = event_schema(&mut locator, &event1);
    let s2 = event_schema(&mut locator, &event2);

    // Distinct cache entries, each holding the same property table
    assert!(!Arc::ptr_eq(&s1, &s2));
    assert_eq!(locator.len(), 2);
    assert_eq!(format!("{:?}", s1.properties()), format!("{:?}", s2.properties()));
    assert_eq!(s1.properties()[0].name, "Port");
}

#[test]
fn tracelogging_schemas_are_keyed_by_name() {
    let mut locator = SchemaLocator::new();

    let event1 = tlg_record("Event1", "Port");
    let first = event_schema(&mut locator, &event1);
    let second = event_schema(&mut locator, &event1);
    assert!(Arc::ptr_eq(&first, &second));

    let event2 = tlg_record("Event2", "Port");
    let other = event_schema(&mut locator, &event2);
    assert!(!Arc::ptr_eq(&first, &other));
    assert_eq!(locator.len(), 2);
}

#[test]
fn failures_of_tdh_are_handed_on_and_not_cached() {
    let mut locator = SchemaLocator::new();
    let failure = TdhNativeError::IoError(1168);
    assert!(matches!(
        locator.complete(key(3), String::new(), Err(failure)),
        Err(SchemaError::TdhNativeError(e)) if e == failure
    ));
    assert_eq!(locator.len(), 0);
}

#[test]
fn the_key_of_an_event_is_its_descriptor() {
    let mut event = tlg_record("Event1", "Port");
    event.header.descriptor.id = 7;
    event.header.descriptor.version = 2;
    event.header.descriptor.level = 5;
    event.header.descriptor.opcode = 10;
    let key = SchemaKey::new(&event);
    assert_eq!(key.provider, event.provider_id());
    assert_eq!((key.id, key.version, key.level, key.opcode), (7, 2, 5, 10));
}
