//! What is written for an event.
use ferrisetw::guid::GUID;
use ferrisetw::native::etw_types::event_record::{EventHeader, EventRecord};
use ferrisetw::native::etw_types::extended_data::{
    EventHeaderExtendedDataItem, Sid, EVENT_HEADER_EXT_TYPE_PEBS_INDEX,
    EVENT_HEADER_EXT_TYPE_RELATED_ACTIVITYID, EVENT_HEADER_EXT_TYPE_SID,
    EVENT_HEADER_EXT_TYPE_STACK_TRACE64, EVENT_HEADER_EXT_TYPE_TS_ID,
};
use ferrisetw::native::tdh::{TdhNativeError, TraceEventInfo};
use ferrisetw::native::tdh_types::{
    PropertyInfo, PropertyLength, TdhInType, TdhOutType, PROPERTY_HAS_CUSTOM_SCHEMA,
    PROPERTY_PARAM_COUNT, PROPERTY_STRUCT,
};
use ferrisetw::parser::ParserError;
use ferrisetw::schema::Schema;
use ferrisetw::ser::property::{PropHandler, PropSerable};
use ferrisetw::ser::record::{ser_extended, ser_header, ser_schema};
use ferrisetw::ser::value::SerValue;
use ferrisetw::ser::{EventSerializer, EventSerializerOptions, SerError};
use ferrisetw::text::hex_text;

/// Status TDH fails with on an event it does not know.
const TDH_FAILURE: TdhNativeError = TdhNativeError::IoError(1168);

/// Description of one property of a schema.
#[derive(Clone)]
struct PropSpec {
    name: &'static str,
    in_type: TdhInType,
    out_type: TdhOutType,
    /// `Flags` of the entry
    flags: u32,
    /// Count, or index of the property that holds it
    count: u16,
    /// Length, or index of the property that holds it
    length: u16,
    /// Members, when the property is a structure
    structure: Option<Vec<PropSpec>>,
}

impl PropSpec {
    fn new(name: &'static str, in_type: TdhInType, length: u16) -> Self {
        Self {
            name,
            in_type,
            out_type: TdhOutType::OutTypeNull,
            flags: 0,
            count: 0,
            length,
            structure: None,
        }
    }

    fn with_out_type(mut self, out_type: TdhOutType) -> Self {
        self.out_type = out_type;
        self
    }

    fn custom_schema(name: &'static str, length: u16) -> Self {
        Self {
            flags: PROPERTY_HAS_CUSTOM_SCHEMA,
            ..Self::new(name, TdhInType::InTypeNull, length)
        }
    }

    fn structure(name: &'static str, members: Vec<PropSpec>) -> Self {
        Self {
            flags: PROPERTY_STRUCT,
            structure: Some(members),
            ..Self::new(name, TdhInType::InTypeNull, 0)
        }
    }

    /// Structures whose number is the value of the property at `count_index`.
    fn structure_array(name: &'static str, members: Vec<PropSpec>, count_index: u16) -> Self {
        Self {
            flags: PROPERTY_STRUCT | PROPERTY_PARAM_COUNT,
            count: count_index,
            ..Self::structure(name, members)
        }
    }
}

/// One entry of the property array: the property, then where its members start.
struct RawProp {
    spec: PropSpec,
    member_start: u16,
    member_count: u16,
}

/// Lays the entries out as TDH does: the entries of a level first, then the
/// members of its structures, each structure's members side by side.
fn flatten_props(specs: &[PropSpec], entries: &mut Vec<RawProp>) {
    let mut structures = Vec::new();
    for spec in specs {
        if let Some(members) = &spec.structure {
            structures.push((entries.len(), members.clone()));
        }
        entries.push(RawProp { spec: spec.clone(), member_start: 0, member_count: 0 });
    }
    for (index, members) in structures {
        entries[index].member_start = u16::try_from(entries.len()).unwrap();
        entries[index].member_count = u16::try_from(members.len()).unwrap();
        flatten_props(&members, entries);
    }
}

fn put_u16(buffer: &mut [u8], at: usize, value: u16) {
    buffer[at..at + 2].copy_from_slice(&value.to_le_bytes());
}

fn put_u32(buffer: &mut [u8], at: usize, value: u32) {
    buffer[at..at + 4].copy_from_slice(&value.to_le_bytes());
}

/// Schema of the given decoding source that describes `props`.
fn schema_of_source(source: u32, props: &[PropSpec]) -> Schema {
    let mut entries = Vec::new();
    flatten_props(props, &mut entries);

    let mut buffer = vec![0u8; 112 + 24 * entries.len()];
    put_u32(&mut buffer, 48, source);
    put_u32(&mut buffer, 100, u32::try_from(entries.len()).unwrap());
    put_u32(&mut buffer, 104, u32::try_from(props.len()).unwrap());
    for (index, entry) in entries.iter().enumerate() {
        let at = 112 + 24 * index;
        let name_offset = u32::try_from(buffer.len()).unwrap();
        put_u32(&mut buffer, at, entry.spec.flags);
        put_u32(&mut buffer, at + 4, name_offset);
        if entry.spec.flags & PROPERTY_STRUCT != 0 {
            put_u16(&mut buffer, at + 8, entry.member_start);
            put_u16(&mut buffer, at + 10, entry.member_count);
        } else {
            put_u16(&mut buffer, at + 8, entry.spec.in_type.as_u16());
            put_u16(&mut buffer, at + 10, entry.spec.out_type.as_u16());
            put_u16(&mut buffer, at + 18, entry.spec.length);
        }
        put_u16(&mut buffer, at + 16, entry.spec.count);
        for unit in entry.spec.name.encode_utf16() {
            buffer.extend_from_slice(&unit.to_le_bytes());
        }
        buffer.extend_from_slice(&[0, 0]);
    }
    Schema::new(TraceEventInfo::from_raw_parts(buffer).expect("a schema"))
}

fn synthetic_schema(props: &[PropSpec]) -> Schema {
    schema_of_source(0, props)
}

fn synthetic_record(user_data: &[u8]) -> EventRecord {
    EventRecord {
        header: EventHeader::default(),
        extended_data: vec![],
        user_data: user_data.to_vec(),
        user_data_address: 0,
    }
}

/// Text of a security identifier, as the native conversion renders it.
fn sid_text(sid: &Sid) -> String {
    let bytes = sid.as_bytes();
    let mut text = format!("S-{}-{}", bytes[0], bytes[7]);
    for i in 0..usize::from(sid.sub_authority_count()) {
        text = format!("{text}-{}", sid.sub_authority(i).unwrap());
    }
    text
}

/// A list of values, in JSON.
fn json_list<T>(values: &[T], write: impl Fn(&T) -> String) -> String {
    format!("[{}]", values.iter().map(write).collect::<Vec<_>>().join(","))
}

/// The JSON text of a value. Strings are written as they are.
fn json(value: &SerValue) -> String {
    match value {
        SerValue::Null => "null".into(),
        SerValue::Bool(v) => v.to_string(),
        SerValue::Int8(v) => v.to_string(),
        SerValue::UInt8(v) => v.to_string(),
        SerValue::Int16(v) => v.to_string(),
        SerValue::UInt16(v) => v.to_string(),
        SerValue::Int32(v) => v.to_string(),
        SerValue::UInt32(v) => v.to_string(),
        SerValue::Int64(v) => v.to_string(),
        SerValue::UInt64(v) => v.to_string(),
        SerValue::Float(v) => f32::from_bits(*v).to_string(),
        SerValue::Double(v) => f64::from_bits(*v).to_string(),
        SerValue::Str(v) => format!("\"{v}\""),
        SerValue::Sid(v) => format!("\"{}\"", sid_text(&Sid::from_raw(v).unwrap())),
        SerValue::Bytes(v) => json_list(v, u8::to_string),
        SerValue::IpAddr(v) => format!("{v:?}"),
        SerValue::SocketAddress(v) => format!("{v:?}"),
        SerValue::FileTime(v) => v.as_unix_timestamp().to_string(),
        SerValue::SystemTime(v) => v.as_unix_timestamp().to_string(),
        SerValue::Guid(v) => format!("\"{}\"", v.to_text()),
        SerValue::Int16s(v) => json_list(v, i16::to_string),
        SerValue::UInt16s(v) => json_list(v, u16::to_string),
        SerValue::Int32s(v) => json_list(v, i32::to_string),
        SerValue::UInt32s(v) => json_list(v, u32::to_string),
        SerValue::Int64s(v) => json_list(v, i64::to_string),
        SerValue::UInt64s(v) => json_list(v, u64::to_string),
        SerValue::List(v) => json_list(v, json),
        SerValue::Object(v) => format!(
            "{{{}}}",
            v.iter().map(|(k, v)| format!("\"{k}\":{}", json(v))).collect::<Vec<_>>().join(",")
        ),
    }
}

/// Writes an event, TDH failing whenever it is asked for a size.
fn write(
    record: &EventRecord,
    schema: &Schema,
    options: EventSerializerOptions,
) -> Result<String, SerError> {
    let mut serializer = EventSerializer::new(record, schema, options);
    while serializer.locate().is_some() {
        serializer.supply_tdh_size(Err(TDH_FAILURE));
    }
    serializer.serialize().map(|value| json(&value))
}

fn event_only() -> EventSerializerOptions {
    EventSerializerOptions {
        include_schema: false,
        include_header: false,
        ..EventSerializerOptions::default()
    }
}

/// The value of an entry of an object.
fn entry<'a>(value: &'a SerValue, name: &str) -> &'a SerValue {
    let SerValue::Object(entries) = value else {
        panic!("not an object");
    };
    &entries.iter().find(|(k, _)| k == name).expect("the entry").1
}

#[test]
fn guid_serializes_like_its_debug_representation() {
    for value in [
        0,
        0x56781234_abcd_4609_0102_030405060708,
        u128::MAX,
        0x00000000_0000_0000_0000_0000000000ff,
    ] {
        assert_eq!(
            GUID::from_u128(value).to_text(),
            format!("{:?}", windows_core::GUID::from_u128(value))
        );
    }
}

#[test]
fn header_serializes_flags_and_event_property_separately() {
    let header = EventHeader { flags: 0x0001, event_property: 0x0002, ..EventHeader::default() };
    let value = ser_header(&header);
    assert_eq!(json(entry(&value, "Flags")), "1");
    assert_eq!(json(entry(&value, "EventProperty")), "2");
}

#[test]
fn struct_properties_serialize_as_nested_objects() {
    let nested = vec![PropSpec::new("inner_x", TdhInType::InTypeUInt32, 4)];
    let members = vec![
        PropSpec::new("x", TdhInType::InTypeUInt32, 4),
        PropSpec::structure("inner", nested),
        // Fixed-length string member: NUL-padded to 4 UTF-16 units
        PropSpec::new("label", TdhInType::InTypeUnicodeString, 4),
    ];
    let schema = synthetic_schema(&[PropSpec::structure("s", members)]);
    let mut data = Vec::new();
    data.extend_from_slice(&0xaabb_ccdd_u32.to_le_bytes());
    data.extend_from_slice(&7u32.to_le_bytes());
    for unit in [u16::from(b'h'), u16::from(b'i'), 0, 0] {
        data.extend_from_slice(&unit.to_le_bytes());
    }
    let record = synthetic_record(&data);

    assert_eq!(
        write(&record, &schema, event_only()).unwrap(),
        format!(
            r#"{{"Event":{{"s":{{"x":{},"inner":{{"inner_x":7}},"label":"hi"}}}}}}"#,
            0xaabb_ccdd_u32
        )
    );
}

#[test]
fn struct_arrays_serialize_as_element_arrays() {
    let members = vec![
        PropSpec::new("a", TdhInType::InTypeUInt32, 4),
        PropSpec::new("b", TdhInType::InTypeUInt16, 2),
    ];
    let schema = synthetic_schema(&[
        PropSpec::new("count", TdhInType::InTypeUInt32, 4),
        PropSpec { count: 2, ..PropSpec::structure("items", members) },
    ]);
    let mut data = Vec::new();
    data.extend_from_slice(&2u32.to_le_bytes());
    for (a, b) in [(1u32, 10u16), (2, 20)] {
        data.extend_from_slice(&a.to_le_bytes());
        data.extend_from_slice(&b.to_le_bytes());
    }
    let record = synthetic_record(&data);

    assert_eq!(
        write(&record, &schema, event_only()).unwrap(),
        r#"{"Event":{"count":2,"items":[{"a":1,"b":10},{"a":2,"b":20}]}}"#
    );
}

#[test]
fn counted_struct_arrays_follow_the_count_property() {
    let members = vec![PropSpec::new("v", TdhInType::InTypeUInt16, 2)];
    let schema = synthetic_schema(&[
        PropSpec::new("count", TdhInType::InTypeUInt16, 2),
        PropSpec::structure_array("items", members, 0),
    ]);
    let record = synthetic_record(&[2, 0, 7, 0, 9, 0]);
    assert_eq!(
        write(&record, &schema, event_only()).unwrap(),
        r#"{"Event":{"count":2,"items":[{"v":7},{"v":9}]}}"#
    );
}

#[test]
fn duplicate_property_names_serialize_in_schema_order() {
    let props = [
        PropSpec::new("a", TdhInType::InTypeUInt32, 4),
        PropSpec::new("b", TdhInType::InTypeUInt32, 4),
        PropSpec::new("a", TdhInType::InTypeUInt32, 4),
    ];
    let mut data = Vec::new();
    for v in [1u32, 2, 3] {
        data.extend_from_slice(&v.to_le_bytes());
    }
    let record = synthetic_record(&data);
    let schema = synthetic_schema(&props);

    assert_eq!(
        write(&record, &schema, event_only()).unwrap(),
        r#"{"Event":{"a":1,"b":2,"a":3}}"#
    );
}

fn item(ext_type: u16, data: &[u8]) -> EventHeaderExtendedDataItem {
    EventHeaderExtendedDataItem { ext_type, data: Some(data.to_vec()) }
}

#[test]
fn extended_data_serializes_supported_items() {
    // 56781234-ABCD-4609-0102-030405060708 as it lies in memory
    let guid = [0x34, 0x12, 0x78, 0x56, 0xcd, 0xab, 0x09, 0x46, 1, 2, 3, 4, 5, 6, 7, 8];
    // S-1-5-18
    let mut sid_blob = vec![1u8, 1, 0, 0, 0, 0, 0, 5];
    sid_blob.extend_from_slice(&18u32.to_le_bytes());
    let mut stack_blob = 42u64.to_le_bytes().to_vec();
    stack_blob.extend_from_slice(&0x1000u64.to_le_bytes());
    stack_blob.extend_from_slice(&0x2000u64.to_le_bytes());
    let items = vec![
        item(EVENT_HEADER_EXT_TYPE_RELATED_ACTIVITYID, &guid),
        item(EVENT_HEADER_EXT_TYPE_SID, &sid_blob),
        item(EVENT_HEADER_EXT_TYPE_TS_ID, &7u32.to_le_bytes()),
        item(EVENT_HEADER_EXT_TYPE_STACK_TRACE64, &stack_blob),
    ];

    let expected = [
        r#"{"Type":"RelatedActivityId","Data":"56781234-ABCD-4609-0102-030405060708"}"#,
        r#"{"Type":"Sid","Data":"S-1-5-18"}"#,
        r#"{"Type":"TsId","Data":7}"#,
        r#"{"Type":"StackTrace64","Data":{"MatchId":42,"Addresses":[4096,8192]}}"#,
    ];
    assert_eq!(
        json(&ser_extended(&items, false).unwrap()),
        format!("[{}]", expected.join(","))
    );
}

#[test]
fn unsupported_extended_data_is_skipped_or_fails() {
    let items = [item(EVENT_HEADER_EXT_TYPE_PEBS_INDEX, &[0u8; 8])];

    assert_eq!(json(&ser_extended(&items, false).unwrap()), "[]");
    assert!(matches!(
        ser_extended(&items, true),
        Err(EVENT_HEADER_EXT_TYPE_PEBS_INDEX)
    ));
}

fn value_info(in_type: TdhInType) -> PropertyInfo {
    value_info_with_out(in_type, TdhOutType::OutTypeNull)
}

fn value_info_with_out(in_type: TdhInType, out_type: TdhOutType) -> PropertyInfo {
    PropertyInfo::Value { in_type, out_type, length: PropertyLength::Length(0) }
}

#[test]
fn counted_strings_serialize_as_string() {
    for in_type in [
        TdhInType::InTypeManifestCountedString,
        TdhInType::InTypeCountedString,
        TdhInType::InTypeManifestCountedAnsiString,
        TdhInType::InTypeCountedAnsiString,
    ] {
        let info = value_info(in_type);
        assert_eq!(info.get_parser().map(|p| p.0), Some(PropHandler::String));
    }
}

#[test]
fn socket_address_serializes_via_dedicated_handler() {
    let info = value_info_with_out(TdhInType::InTypeBinary, TdhOutType::OutTypeSocketAddress);
    assert_eq!(info.get_parser().map(|p| p.0), Some(PropHandler::SocketAddress));
}

#[test]
fn utf8_out_type_serializes_as_string() {
    let info = value_info_with_out(TdhInType::InTypeCountedAnsiString, TdhOutType::OutTypeUtf8);
    assert_eq!(info.get_parser().map(|p| p.0), Some(PropHandler::String));
}

#[test]
fn hex_int_fields_serialize_as_hex_strings() {
    // The in type says that the number is shown in hexadecimal
    for (in_type, handler) in [
        (TdhInType::InTypeHexInt32, PropHandler::HexInt32),
        (TdhInType::InTypeHexInt64, PropHandler::HexInt64),
    ] {
        assert_eq!(value_info(in_type).get_parser().map(|p| p.0), Some(handler));
    }

    // The out type says it
    for (out_type, handler) in [
        (TdhOutType::OutTypeHexInt32, PropHandler::HexInt32),
        (TdhOutType::OutTypeHexInt64, PropHandler::HexInt64),
    ] {
        let info = value_info_with_out(TdhInType::InTypeUInt32, out_type);
        assert_eq!(info.get_parser().map(|p| p.0), Some(handler));
    }

    assert_eq!(hex_text(0x8007_0005), "0x80070005");
    assert_eq!(hex_text(u64::MAX), "0xffffffffffffffff");
    assert_eq!(hex_text(0), "0x0");
}

#[test]
fn values_of_every_kind_are_written() {
    let mut data = Vec::new();
    data.extend_from_slice(&(-1i8).to_le_bytes());
    data.extend_from_slice(&0xffu32.to_le_bytes());
    data.extend_from_slice(&1.5f64.to_le_bytes());
    data.extend_from_slice(&1u32.to_le_bytes());
    data.extend_from_slice(b"text\0");
    data.extend_from_slice(&[1, 1, 0, 0, 0, 0, 0, 5, 18, 0, 0, 0]);
    data.extend_from_slice(&[0xaa, 0xbb]);
    data.extend_from_slice(&[1, 0, 0xff, 0xff]);
    let record = synthetic_record(&data);
    let schema = synthetic_schema(&[
        PropSpec::new("i8", TdhInType::InTypeInt8, 1),
        PropSpec::new("hex", TdhInType::InTypeHexInt32, 4),
        PropSpec::new("f64", TdhInType::InTypeDouble, 8),
        PropSpec::new("bool", TdhInType::InTypeBoolean, 4),
        PropSpec::new("s", TdhInType::InTypeAnsiString, 0),
        PropSpec::new("sid", TdhInType::InTypeSid, 0),
        PropSpec::new("bin", TdhInType::InTypeBinary, 2),
        PropSpec { count: 2, ..PropSpec::new("arr", TdhInType::InTypeInt16, 2) },
    ]);
    assert_eq!(
        write(&record, &schema, event_only()).unwrap(),
        concat_event(&[
            r#""i8":-1"#,
            r#""hex":"0xff""#,
            r#""f64":1.5"#,
            r#""bool":true"#,
            r#""s":"text""#,
            r#""sid":"S-1-5-18""#,
            r#""bin":[170,187]"#,
            r#""arr":[1,-1]"#,
        ])
    );
}

fn concat_event(entries: &[&str]) -> String {
    format!(r#"{{"Event":{{{}}}}}"#, entries.join(","))
}

#[test]
fn unimplemented_properties_are_skipped_or_fail() {
    let schema = synthetic_schema(&[
        PropSpec::new("before", TdhInType::InTypeUInt8, 1),
        PropSpec::custom_schema("custom", 2),
        PropSpec::new("after", TdhInType::InTypeUInt8, 1),
    ]);
    let record = synthetic_record(&[1, 0xaa, 0xaa, 2]);
    assert_eq!(
        write(&record, &schema, event_only()).unwrap(),
        r#"{"Event":{"before":1,"after":2}}"#
    );
    let strict = EventSerializerOptions { fail_unimplemented: true, ..event_only() };
    assert!(matches!(
        write(&record, &schema, strict),
        Err(SerError::NotImplemented(name)) if name == "custom"
    ));
}

#[test]
fn properties_that_cannot_be_located_are_an_error() {
    let schema = synthetic_schema(&[PropSpec::new("n", TdhInType::InTypeUInt32, 4)]);
    let record = synthetic_record(&[1, 2]);
    assert!(matches!(write(&record, &schema, event_only()), Err(SerError::Parser(_))));
}

#[test]
fn the_parts_of_an_event_come_in_order() {
    let schema = synthetic_schema(&[PropSpec::new("n", TdhInType::InTypeUInt8, 1)]);
    let mut record = synthetic_record(&[5]);
    record.header.provider_id = GUID::from_u128(0x56781234_abcd_4609_0102_030405060708);
    record.header.time_stamp = 116_444_736_000_000_000;
    record.header.descriptor.id = 9;
    record.extended_data.push(item(EVENT_HEADER_EXT_TYPE_TS_ID, &7u32.to_le_bytes()));
    let all = EventSerializerOptions {
        include_extended_data: true,
        ..EventSerializerOptions::default()
    };
    let written = write(&record, &schema, all).unwrap();
    let keys: Vec<Option<usize>> = ["\"Schema\"", "\"Header\"", "\"Extended\"", "\"Event\""]
        .iter()
        .map(|key| written.find(key))
        .collect();
    assert!(keys.iter().all(Option::is_some));
    assert!(keys.windows(2).all(|pair| pair[0] < pair[1]));
    assert!(written.contains(r#""ProviderId":"56781234-ABCD-4609-0102-030405060708""#));
    assert!(written.contains(r#""TimeStamp":0"#));
    assert!(written.contains(r#""Extended":[{"Type":"TsId","Data":7}]"#));
    assert!(written.ends_with(r#""Event":{"n":5}}"#));
}

#[test]
fn names_of_the_schema_are_trimmed() {
    let mut buffer = vec![0u8; 112];
    for (at, name) in [(52, "Provider "), (68, "\tTask\u{3000}"), (72, "Start")] {
        let offset = u32::try_from(buffer.len()).unwrap();
        put_u32(&mut buffer, at, offset);
        for unit in name.encode_utf16() {
            buffer.extend_from_slice(&unit.to_le_bytes());
        }
        buffer.extend_from_slice(&[0, 0]);
    }
    let schema = Schema::new(TraceEventInfo::from_raw_parts(buffer).unwrap());
    let value = ser_schema(&schema);
    assert_eq!(json(entry(&value, "Provider")), "\"Provider\"");
    assert_eq!(json(entry(&value, "Task")), "\"Task\"");
    assert_eq!(json(entry(&value, "Opcode")), "\"Start\"");
}

#[test]
fn arrays_inside_structures_are_aligned_by_their_address() {
    let schema = synthetic_schema(&[PropSpec::structure(
        "s",
        vec![
            PropSpec::new("first", TdhInType::InTypeUInt16, 2),
            PropSpec { count: 2, ..PropSpec::new("items", TdhInType::InTypeUInt32, 4) },
        ],
    )]);
    let user_data = [7, 0, 1, 0, 0, 0, 2, 0, 0, 0];
    let options = EventSerializerOptions {
        include_schema: false,
        include_header: false,
        ..EventSerializerOptions::default()
    };
    let written = |address: usize| {
        let record = EventRecord { user_data_address: address, ..synthetic_record(&user_data) };
        let mut event = EventSerializer::new(&record, &schema, options);
        assert_eq!(event.locate(), None);
        event.serialize().map(|value| json(&value))
    };
    assert_eq!(written(2).unwrap(), r#"{"Event":{"s":{"first":7,"items":[1,2]}}}"#);
    assert!(matches!(
        written(0),
        Err(SerError::Parser(ParserError::PropertyError(s))) if s == "buffer alignment mismatch"
    ));
}
