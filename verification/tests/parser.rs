//! Locating and decoding properties of synthetic events.
use ferrisetw::guid::GUID;
use ferrisetw::native::etw_types::event_record::{EventHeader, EventRecord};
use ferrisetw::native::etw_types::extended_data::{EventHeaderExtendedDataItem, Sid};
use ferrisetw::native::etw_types::DecodingSource;
use ferrisetw::native::sddl::SddlNativeError;
use ferrisetw::native::tdh::{TdhNativeError, TraceEventInfo};
use ferrisetw::native::tdh_types::{
    PropertyCount, PropertyInfo, PropertyLength, TdhInType, TdhOutType, PROPERTY_HAS_CUSTOM_SCHEMA,
    PROPERTY_PARAM_COUNT, PROPERTY_PARAM_LENGTH, PROPERTY_STRUCT,
};
use ferrisetw::native::times::{FileTime, SystemTime};
use ferrisetw::parser::socket_address::{IpAddr, TdhSocketAddress};
use ferrisetw::parser::values::{DoubleBits, FloatBits, ParsedString, Pointer, TryParse};
use ferrisetw::parser::{Lookup, Parser, ParserError, ParserResult};
use ferrisetw::schema::Schema;

/// Status TDH fails with on an event it does not know.
const TDH_FAILURE: TdhNativeError = TdhNativeError::IoError(1168);

/// Description of one property of a schema.
#[derive(Clone)]
struct PropSpec {
    name: &'static str,
    in_type: TdhInType,
    out_type: TdhOutType,
    /// `Flags` of the entry
    flags: u32,
    /// Count, or index of the property that holds it
    count: u16,
    /// Length, or index of the property that holds it
    length: u16,
    /// Members, when the property is a structure
    structure: Option<Vec<PropSpec>>,
}

impl PropSpec {
    fn new(name: &'static str, in_type: TdhInType, length: u16) -> Self {
        Self {
            name,
            in_type,
            out_type: TdhOutType::OutTypeNull,
            flags: 0,
            count: 0,
            length,
            structure: None,
        }
    }

    fn with_out_type(mut self, out_type: TdhOutType) -> Self {
        self.out_type = out_type;
        self
    }

    fn custom_schema(name: &'static str, length: u16) -> Self {
        Self {
            flags: PROPERTY_HAS_CUSTOM_SCHEMA,
            ..Self::new(name, TdhInType::InTypeNull, length)
        }
    }

    fn structure(name: &'static str, members: Vec<PropSpec>) -> Self {
        Self {
            flags: PROPERTY_STRUCT,
            structure: Some(members),
            ..Self::new(name, TdhInType::InTypeNull, 0)
        }
    }

    /// Structures whose number is the value of the property at `count_index`.
    fn structure_array(name: &'static str, members: Vec<PropSpec>, count_index: u16) -> Self {
        Self {
            flags: PROPERTY_STRUCT | PROPERTY_PARAM_COUNT,
            count: count_index,
            ..Self::structure(name, members)
        }
    }
}

/// One entry of the property array: the property, then where its members start.
struct RawProp {
    spec: PropSpec,
    member_start: u16,
    member_count: u16,
}

/// Lays the entries out as TDH does: the entries of a level first, then the
/// members of its structures, each structure's members side by side.
fn flatten_props(specs: &[PropSpec], entries: &mut Vec<RawProp>) {
    let mut structures = Vec::new();
    for spec in specs {
        if let Some(members) = &spec.structure {
            structures.push((entries.len(), members.clone()));
        }
        entries.push(RawProp { spec: spec.clone(), member_start: 0, member_count: 0 });
    }
    for (index, members) in structures {
        entries[index].member_start = u16::try_from(entries.len()).unwrap();
        entries[index].member_count = u16::try_from(members.len()).unwrap();
        flatten_props(&members, entries);
    }
}

fn put_u16(buffer: &mut [u8], at: usize, value: u16) {
    buffer[at..at + 2].copy_from_slice(&value.to_le_bytes());
}

fn put_u32(buffer: &mut [u8], at: usize, value: u32) {
    buffer[at..at + 4].copy_from_slice(&value.to_le_bytes());
}

/// Schema of the given decoding source that describes `props`.
fn schema_of_source(source: u32, props: &[PropSpec]) -> Schema {
    let mut entries = Vec::new();
    flatten_props(props, &mut entries);

    let mut buffer = vec![0u8; 112 + 24 * entries.len()];
    put_u32(&mut buffer, 48, source);
    put_u32(&mut buffer, 100, u32::try_from(entries.len()).unwrap());
    put_u32(&mut buffer, 104, u32::try_from(props.len()).unwrap());
    for (index, entry) in entries.iter().enumerate() {
        let at = 112 + 24 * index;
        let name_offset = u32::try_from(buffer.len()).unwrap();
        put_u32(&mut buffer, at, entry.spec.flags);
        put_u32(&mut buffer, at + 4, name_offset);
        if entry.spec.flags & PROPERTY_STRUCT != 0 {
            put_u16(&mut buffer, at + 8, entry.member_start);
            put_u16(&mut buffer, at + 10, entry.member_count);
        } else {
            put_u16(&mut buffer, at + 8, entry.spec.in_type.as_u16());
            put_u16(&mut buffer, at + 10, entry.spec.out_type.as_u16());
            put_u16(&mut buffer, at + 18, entry.spec.length);
        }
        put_u16(&mut buffer, at + 16, entry.spec.count);
        for unit in entry.spec.name.encode_utf16() {
            buffer.extend_from_slice(&unit.to_le_bytes());
        }
        buffer.extend_from_slice(&[0, 0]);
    }
    Schema::new(TraceEventInfo::from_raw_parts(buffer).expect("a schema"))
}

fn synthetic_schema(props: &[PropSpec]) -> Schema {
    schema_of_source(0, props)
}

fn synthetic_record(user_data: &[u8]) -> EventRecord {
    EventRecord {
        header: EventHeader::default(),
        extended_data: vec![],
        user_data: user_data.to_vec(),
        user_data_address: 0,
    }
}

/// Text of a security identifier, as the native conversion renders it.
fn sid_text(sid: &Sid) -> String {
    let bytes = sid.as_bytes();
    let mut text = format!("S-{}-{}", bytes[0], bytes[7]);
    for i in 0..usize::from(sid.sub_authority_count()) {
        text = format!("{text}-{}", sid.sub_authority(i).unwrap());
    }
    text
}

/// Decodes a property, TDH failing whenever it is asked for a size.
fn parse<'s, 'r, T>(parser: &mut Parser<'s, 'r>, name: &str) -> ParserResult<T>
where
    Parser<'s, 'r>: TryParse<'s, 'r, T>,
{
    match parser.try_parse::<T>(name)? {
        Lookup::Ready(value) => Ok(value),
        Lookup::NeedsTdhSize(_) => {
            parser.supply_tdh_size(Err(TDH_FAILURE))?;
            unreachable!("a refused size is an error")
        }
    }
}

/// Decodes a property into text.
fn parse_text(parser: &mut Parser<'_, '_>, name: &str) -> ParserResult<String> {
    let parsed = parse::<ParsedString>(parser, name)?;
    let converted = match &parsed {
        ParsedString::Sid(sid) => Ok(sid_text(sid)),
        ParsedString::Text(_) => Err(SddlNativeError::SidParseError),
    };
    parsed.into_text(converted)
}

/// Bytes of a property, TDH failing whenever it is asked for a size.
fn bytes_at<'r>(parser: &mut Parser<'_, 'r>, index: usize) -> ParserResult<&'r [u8]> {
    match parser.property_bytes_at(index)? {
        Lookup::Ready(bytes) => Ok(bytes),
        Lookup::NeedsTdhSize(_) => {
            parser.supply_tdh_size(Err(TDH_FAILURE))?;
            unreachable!("a refused size is an error")
        }
    }
}

fn wide(text: &str) -> Vec<u8> {
    text.encode_utf16().flat_map(u16::to_le_bytes).collect()
}

#[test]
fn parse_guid_property() {
    let user_data: [u8; 16] = [
        0x34, 0x12, 0x78, 0x56, // data1: 0x56781234
        0xcd, 0xab, // data2: 0xabcd
        0x09, 0x46, // data3: 0x4609
        1, 2, 3, 4, 5, 6, 7, 8, // data4
    ];
    let record = synthetic_record(&user_data);
    let schema = synthetic_schema(&[PropSpec::new("guid_prop", TdhInType::InTypeGuid, 16)]);
    let mut parser = Parser::create(&record, &schema);

    let guid = parse::<GUID>(&mut parser, "guid_prop").expect("GUID should parse");
    assert_eq!(guid, GUID::from_u128(0x56781234_abcd_4609_0102_030405060708));
}

#[test]
fn struct_properties_parse_as_nested_trees() {
    let nested = vec![PropSpec::new("inner_x", TdhInType::InTypeUInt32, 4)];
    let members = vec![
        PropSpec::new("x", TdhInType::InTypeUInt32, 4),
        PropSpec::structure("inner", nested),
        PropSpec::new("y", TdhInType::InTypeUInt16, 2),
    ];
    let schema = synthetic_schema(&[
        PropSpec::new("before", TdhInType::InTypeUInt32, 4),
        PropSpec::structure("s", members),
        PropSpec::new("after", TdhInType::InTypeUInt32, 4),
    ]);

    let top = schema.properties();
    assert_eq!(
        top.iter().map(|p| p.name.as_str()).collect::<Vec<_>>(),
        vec!["before", "s", "after"]
    );

    let PropertyInfo::Struct { members } = &top[1].info else {
        panic!("'s' should parse as a structure");
    };
    assert_eq!(
        members.iter().map(|p| p.name.as_str()).collect::<Vec<_>>(),
        vec!["x", "inner", "y"]
    );
    let PropertyInfo::Struct { members: nested_members } = &members[1].info else {
        panic!("'inner' should parse as a nested structure");
    };
    assert_eq!(nested_members.len(), 1);
    assert_eq!(nested_members[0].name, "inner_x");
    assert!(matches!(nested_members[0].info, PropertyInfo::Value { .. }));
}

#[test]
fn struct_arrays_carry_their_element_count() {
    let members = vec![PropSpec::new("v", TdhInType::InTypeUInt32, 4)];
    let schema = synthetic_schema(&[
        PropSpec::new("Count", TdhInType::InTypeUInt32, 4),
        PropSpec::structure_array("Values", members, 0),
    ]);

    let top = schema.properties();
    assert_eq!(top.len(), 2);
    let PropertyInfo::StructArray { members, count: PropertyCount::Index(index) } = &top[1].info
    else {
        panic!("'Values' should parse as a structure array");
    };
    assert_eq!(*index, 0);
    assert_eq!(members.len(), 1);
    assert_eq!(members[0].name, "v");
}

#[test]
fn parser_advances_correctly_with_duplicate_property_names() {
    let props = [
        PropSpec::new("dup", TdhInType::InTypeUInt32, 4),
        PropSpec::new("dup", TdhInType::InTypeUInt32, 4),
        PropSpec::new("third", TdhInType::InTypeUInt32, 4),
        PropSpec::new("fourth", TdhInType::InTypeUInt32, 4),
    ];
    let user_data: [u8; 16] = [1, 0, 0, 0, 2, 0, 0, 0, 3, 0, 0, 0, 4, 0, 0, 0];
    let record = synthetic_record(&user_data);
    let schema = synthetic_schema(&props);
    let mut parser = Parser::create(&record, &schema);

    assert_eq!(parse::<u32>(&mut parser, "third").unwrap(), 3);
    assert_eq!(parse::<u32>(&mut parser, "fourth").unwrap(), 4);
    assert!(matches!(parse::<u32>(&mut parser, "missing"), Err(ParserError::NotFound)));
    // The first of the two same-named properties answers to the name
    assert_eq!(parse::<u32>(&mut parser, "dup").unwrap(), 1);
}

#[test]
fn property_bytes_at_tells_same_named_properties_apart() {
    let props = [
        PropSpec::new("dup", TdhInType::InTypeUInt32, 4),
        PropSpec::new("b", TdhInType::InTypeUInt32, 4),
        PropSpec::new("dup", TdhInType::InTypeUInt32, 4),
    ];
    let user_data: [u8; 12] = [1, 0, 0, 0, 2, 0, 0, 0, 3, 0, 0, 0];
    let record = synthetic_record(&user_data);
    let schema = synthetic_schema(&props);
    let mut parser = Parser::create(&record, &schema);

    for (index, expected) in [1u32, 2, 3].into_iter().enumerate() {
        let bytes = bytes_at(&mut parser, index).unwrap();
        assert_eq!(u32::from_ne_bytes(bytes.try_into().unwrap()), expected);
    }
    assert!(matches!(bytes_at(&mut parser, 3), Err(ParserError::NotFound)));
}

#[test]
fn custom_schema_property_keeps_the_rest_locatable() {
    let props = [
        PropSpec::new("before", TdhInType::InTypeUInt32, 4),
        PropSpec::custom_schema("custom", 8),
        PropSpec::new("after", TdhInType::InTypeUInt32, 4),
    ];
    let mut user_data = 1u32.to_ne_bytes().to_vec();
    user_data.resize(12, 0xaa);
    user_data.extend_from_slice(&2u32.to_ne_bytes());
    let record = synthetic_record(&user_data);
    let schema = synthetic_schema(&props);

    let top = schema.properties();
    assert_eq!(
        top.iter().map(|p| p.name.as_str()).collect::<Vec<_>>(),
        vec!["before", "custom", "after"]
    );
    assert!(matches!(
        &top[1].info,
        PropertyInfo::Unsupported { length: PropertyLength::Length(8) }
    ));

    let mut parser = Parser::create(&record, &schema);
    assert_eq!(parse::<u32>(&mut parser, "before").unwrap(), 1);
    assert_eq!(parse::<u32>(&mut parser, "after").unwrap(), 2);
    assert!(matches!(parse::<u32>(&mut parser, "custom"), Err(ParserError::InvalidType)));
}

#[test]
fn scalars_without_schema_length_fall_back_to_the_in_type_size() {
    let user_data: Vec<u8> = 1u32.to_ne_bytes().into_iter().chain(2u64.to_ne_bytes()).collect();
    let record = synthetic_record(&user_data);
    let schema = synthetic_schema(&[
        PropSpec::new("a", TdhInType::InTypeUInt32, 0),
        PropSpec::new("b", TdhInType::InTypeUInt64, 0),
    ]);
    let mut parser = Parser::create(&record, &schema);

    assert_eq!(parse::<u32>(&mut parser, "a").unwrap(), 1);
    assert_eq!(parse::<u64>(&mut parser, "b").unwrap(), 2);
}

#[test]
fn length_by_reference_resolves_from_the_parsed_prefix() {
    let props = [
        PropSpec::new("len", TdhInType::InTypeUInt16, 2),
        PropSpec {
            flags: PROPERTY_PARAM_LENGTH,
            length: 0, // index of the property that holds the length
            ..PropSpec::new("s", TdhInType::InTypeUnicodeString, 0)
        },
        PropSpec::new("n", TdhInType::InTypeUInt32, 4),
    ];
    let mut user_data: Vec<u8> = 3u16.to_ne_bytes().to_vec();
    user_data.extend(b"abc".iter().flat_map(|b| [*b, 0]));
    user_data.extend_from_slice(&0x1122_3344u32.to_ne_bytes());
    let record = synthetic_record(&user_data);
    let schema = synthetic_schema(&props);
    let mut parser = Parser::create(&record, &schema);

    // 3 WCHARs, not 3 bytes: the u32 sits right after the 6 string bytes
    assert_eq!(parse_text(&mut parser, "s").unwrap(), "abc");
    assert_eq!(parse::<u32>(&mut parser, "n").unwrap(), 0x1122_3344);
}

#[test]
fn count_by_reference_resolves_from_the_parsed_prefix() {
    let props = [
        PropSpec::new("count", TdhInType::InTypeUInt16, 2),
        PropSpec {
            count: 0, // index of the property that holds the count
            flags: PROPERTY_PARAM_COUNT,
            ..PropSpec::new("arr", TdhInType::InTypeUInt32, 4)
        },
        PropSpec::new("n", TdhInType::InTypeUInt32, 4),
    ];
    let user_data: Vec<u8> = 2u16
        .to_ne_bytes()
        .into_iter()
        .chain(7u32.to_ne_bytes())
        .chain(9u32.to_ne_bytes())
        .chain(0x1122_3344u32.to_ne_bytes())
        .collect();
    let record = synthetic_record(&user_data);
    let schema = synthetic_schema(&props);
    let mut parser = Parser::create(&record, &schema);

    assert_eq!(bytes_at(&mut parser, 1).unwrap().len(), 8);
    assert_eq!(parse::<u32>(&mut parser, "n").unwrap(), 0x1122_3344);
}

#[test]
fn struct_array_count_by_reference_resolves_from_the_parsed_prefix() {
    let members = vec![PropSpec::new("v", TdhInType::InTypeUInt32, 4)];
    let props = [
        PropSpec::new("count", TdhInType::InTypeUInt16, 2),
        PropSpec::structure_array("items", members, 0),
        PropSpec::new("n", TdhInType::InTypeUInt32, 4),
    ];
    let user_data: Vec<u8> = 2u16
        .to_ne_bytes()
        .into_iter()
        .chain(0x33u32.to_ne_bytes())
        .chain(0x44u32.to_ne_bytes())
        .chain(0x1122_3344u32.to_ne_bytes())
        .collect();
    let record = synthetic_record(&user_data);
    let schema = synthetic_schema(&props);
    let mut parser = Parser::create(&record, &schema);

    assert_eq!(bytes_at(&mut parser, 1).unwrap().len(), 8);
    assert_eq!(parse::<u32>(&mut parser, "n").unwrap(), 0x1122_3344);
}

#[test]
fn unresolvable_references_still_defer_to_tdh() {
    let props = [
        PropSpec {
            count: 1, // the count comes after the array
            flags: PROPERTY_PARAM_COUNT,
            ..PropSpec::new("arr", TdhInType::InTypeUInt32, 4)
        },
        PropSpec::new("count", TdhInType::InTypeUInt16, 2),
    ];
    let user_data: Vec<u8> = 7u32.to_ne_bytes().into_iter().chain(2u16.to_ne_bytes()).collect();
    let record = synthetic_record(&user_data);
    let schema = synthetic_schema(&props);
    let mut parser = Parser::create(&record, &schema);

    assert!(matches!(parse::<u32>(&mut parser, "arr"), Err(ParserError::TdhNativeError(_))));
}

#[test]
fn overflowing_length_reference_defers_to_tdh() {
    let props = [
        PropSpec::new("len", TdhInType::InTypeUInt64, 8),
        PropSpec {
            flags: PROPERTY_PARAM_LENGTH,
            length: 0,
            ..PropSpec::new("s", TdhInType::InTypeUnicodeString, 0)
        },
    ];
    // Twice the length does not fit
    let record = synthetic_record(&0x8000_0000_0000_0000u64.to_ne_bytes());
    let schema = synthetic_schema(&props);
    let mut parser = Parser::create(&record, &schema);

    assert!(matches!(parse_text(&mut parser, "s"), Err(ParserError::TdhNativeError(_))));
}

#[test]
fn overflowing_count_reference_defers_to_tdh() {
    let props = [
        PropSpec::new("count", TdhInType::InTypeUInt64, 8),
        PropSpec {
            count: 0,
            flags: PROPERTY_PARAM_COUNT,
            ..PropSpec::new("arr", TdhInType::InTypeUInt64, 8)
        },
    ];
    let record = synthetic_record(&u64::MAX.to_ne_bytes());
    let schema = synthetic_schema(&props);
    let mut parser = Parser::create(&record, &schema);

    assert!(matches!(bytes_at(&mut parser, 1), Err(ParserError::TdhNativeError(_))));
}

#[test]
fn overflowing_struct_array_count_defers_to_tdh() {
    let members = vec![PropSpec::new("v", TdhInType::InTypeUInt64, 8)];
    let props = [
        PropSpec::new("count", TdhInType::InTypeUInt64, 8),
        PropSpec::structure_array("items", members, 0),
    ];
    let record = synthetic_record(&u64::MAX.to_ne_bytes());
    let schema = synthetic_schema(&props);
    let mut parser = Parser::create(&record, &schema);

    assert!(matches!(bytes_at(&mut parser, 1), Err(ParserError::TdhNativeError(_))));
}

#[test]
fn counted_string_ignores_the_declared_length() {
    let props = [
        PropSpec::new("cs", TdhInType::InTypeCountedString, 4),
        PropSpec::new("n", TdhInType::InTypeUInt32, 4),
    ];
    // The prefix says 6 payload bytes, the schema says 4
    let mut user_data: Vec<u8> = 6u16.to_ne_bytes().to_vec();
    user_data.extend(b"abc".iter().flat_map(|b| [*b, 0]));
    user_data.extend_from_slice(&0x1122_3344u32.to_ne_bytes());
    let record = synthetic_record(&user_data);
    let schema = synthetic_schema(&props);
    let mut parser = Parser::create(&record, &schema);

    assert_eq!(parse_text(&mut parser, "cs").unwrap(), "abc");
    assert_eq!(parse::<u32>(&mut parser, "n").unwrap(), 0x1122_3344);
}

#[test]
fn sid_ignores_the_declared_length() {
    let props = [
        PropSpec::new("sid", TdhInType::InTypeSid, 16),
        PropSpec::new("n", TdhInType::InTypeUInt32, 4),
    ];
    // S-1-5-21-100-200-300 takes 24 bytes, the schema claims 16
    let sid = [
        0x01, 0x04, 0x00, 0x00, 0x00, 0x00, 0x00, 0x05, 0x15, 0x00, 0x00, 0x00, 0x64, 0x00, 0x00,
        0x00, 0xc8, 0x00, 0x00, 0x00, 0x2c, 0x01, 0x00, 0x00,
    ];
    let mut user_data = sid.to_vec();
    user_data.extend_from_slice(&0x1122_3344u32.to_ne_bytes());
    let record = synthetic_record(&user_data);
    let schema = synthetic_schema(&props);
    let mut parser = Parser::create(&record, &schema);

    assert_eq!(parse_text(&mut parser, "sid").unwrap(), "S-1-5-21-100-200-300");
    assert_eq!(parse::<u32>(&mut parser, "n").unwrap(), 0x1122_3344);
}

#[test]
fn sid_slice_shorter_than_its_header_is_rejected() {
    let record = synthetic_record(&[]);
    let schema = synthetic_schema(&[PropSpec::new("sid", TdhInType::InTypeSid, 0)]);
    // The header claims 2 sub-authorities (16 bytes), only 8 are present
    let bytes = [0x01, 0x02, 0x00, 0x00, 0x00, 0x00, 0x00, 0x05];
    let parser = Parser::create(&record, &schema);

    assert!(matches!(
        parser.try_parse_member::<ParsedString>(&schema.properties()[0], &bytes, 0),
        Err(ParserError::PropertyError(_))
    ));
}

#[test]
fn cached_properties_are_found_out_of_order() {
    let props = [
        PropSpec::new("a", TdhInType::InTypeUInt32, 4),
        PropSpec::new("b", TdhInType::InTypeUInt32, 4),
        PropSpec::new("c", TdhInType::InTypeUInt32, 4),
    ];
    let user_data: [u8; 12] = [1, 0, 0, 0, 2, 0, 0, 0, 3, 0, 0, 0];
    let record = synthetic_record(&user_data);
    let schema = synthetic_schema(&props);
    let mut parser = Parser::create(&record, &schema);

    assert_eq!(parse::<u32>(&mut parser, "c").unwrap(), 3);
    assert_eq!(parse::<u32>(&mut parser, "a").unwrap(), 1);
    assert_eq!(parse::<u32>(&mut parser, "b").unwrap(), 2);
    assert_eq!(parse::<u32>(&mut parser, "c").unwrap(), 3);
    assert_eq!(parse::<u32>(&mut parser, "a").unwrap(), 1);
}

#[test]
fn unterminated_strings_are_an_error() {
    let record = synthetic_record(b"no terminator");
    let schema = synthetic_schema(&[PropSpec::new("s", TdhInType::InTypeAnsiString, 0)]);
    let mut parser = Parser::create(&record, &schema);
    assert!(parse_text(&mut parser, "s").is_err());

    // "hi" without the wide terminator
    let record = synthetic_record(&[0x68u8, 0, 0x69, 0]);
    let schema = synthetic_schema(&[PropSpec::new("w", TdhInType::InTypeUnicodeString, 0)]);
    let mut parser = Parser::create(&record, &schema);
    assert!(parse_text(&mut parser, "w").is_err());
}

#[test]
fn terminated_strings_parse_and_advance_the_offset() {
    let user_data: Vec<u8> =
        Vec::from("ab\0").into_iter().chain(0x1122_3344u32.to_ne_bytes()).collect();
    let record = synthetic_record(&user_data);
    let schema = synthetic_schema(&[
        PropSpec::new("s", TdhInType::InTypeAnsiString, 0),
        PropSpec::new("n", TdhInType::InTypeUInt32, 4),
    ]);
    let mut parser = Parser::create(&record, &schema);

    assert_eq!(parse_text(&mut parser, "s").unwrap(), "ab");
    assert_eq!(parse::<u32>(&mut parser, "n").unwrap(), 0x1122_3344);
}

#[test]
fn counted_strings_parse_and_advance_the_offset() {
    let wide = wide("hï");
    let ansi = b"hi".to_vec();
    let cases = [
        (TdhInType::InTypeManifestCountedString, wide.as_slice(), "hï"),
        (TdhInType::InTypeCountedString, wide.as_slice(), "hï"),
        (TdhInType::InTypeManifestCountedAnsiString, ansi.as_slice(), "hi"),
        (TdhInType::InTypeCountedAnsiString, ansi.as_slice(), "hi"),
    ];

    for (in_type, payload, expected) in cases {
        let user_data: Vec<u8> = u16::try_from(payload.len())
            .unwrap()
            .to_le_bytes()
            .into_iter()
            .chain(payload.iter().copied())
            .chain(0x1122_3344u32.to_ne_bytes())
            .collect();
        let record = synthetic_record(&user_data);
        let schema = synthetic_schema(&[
            PropSpec::new("s", in_type, u16::try_from(2 + payload.len()).unwrap()),
            PropSpec::new("n", TdhInType::InTypeUInt32, 4),
        ]);
        let mut parser = Parser::create(&record, &schema);

        assert_eq!(parse_text(&mut parser, "s").unwrap(), expected);
        assert_eq!(parse::<u32>(&mut parser, "n").unwrap(), 0x1122_3344);
    }
}

#[test]
fn counted_strings_with_invalid_length_are_an_error() {
    let record = synthetic_record(&42u16.to_le_bytes());
    let schema = synthetic_schema(&[PropSpec::new("s", TdhInType::InTypeCountedString, 2)]);
    let mut parser = Parser::create(&record, &schema);
    assert!(parse_text(&mut parser, "s").is_err());
}

#[test]
fn deprecated_wbem_string_types_parse_and_advance_the_offset() {
    let wide = wide("hï");
    let ansi = b"hi".to_vec();

    // Big-endian count prefix, then the payload
    let counted_cases = [
        (TdhInType::InTypeReversedCountedString, wide.as_slice(), "hï"),
        (TdhInType::InTypeReversedCountedAnsiString, ansi.as_slice(), "hi"),
    ];
    for (in_type, payload, expected) in counted_cases {
        let user_data: Vec<u8> = u16::try_from(payload.len())
            .unwrap()
            .to_be_bytes()
            .into_iter()
            .chain(payload.iter().copied())
            .chain(0x1122_3344u32.to_ne_bytes())
            .collect();
        let record = synthetic_record(&user_data);
        let schema = synthetic_schema(&[
            PropSpec::new("s", in_type, u16::try_from(2 + payload.len()).unwrap()),
            PropSpec::new("n", TdhInType::InTypeUInt32, 4),
        ]);
        let mut parser = Parser::create(&record, &schema);

        assert_eq!(parse_text(&mut parser, "s").unwrap(), expected);
        assert_eq!(parse::<u32>(&mut parser, "n").unwrap(), 0x1122_3344);
    }

    // The field is the whole remaining buffer
    let unterminated_cases = [
        (TdhInType::InTypeNonNullTerminatedString, wide.as_slice(), "hï"),
        (TdhInType::InTypeNonNullTerminatedAnsiString, ansi.as_slice(), "hi"),
    ];
    for (in_type, payload, expected) in unterminated_cases {
        let record = synthetic_record(payload);
        let schema = synthetic_schema(&[PropSpec::new("s", in_type, 0)]);
        let mut parser = Parser::create(&record, &schema);
        assert_eq!(parse_text(&mut parser, "s").unwrap(), expected);
    }

    // The count is read as big-endian: as little-endian it would claim 512 bytes
    let user_data: Vec<u8> =
        2u16.to_be_bytes().into_iter().chain(b"hi".iter().copied()).collect();
    let record = synthetic_record(&user_data);
    let schema =
        synthetic_schema(&[PropSpec::new("s", TdhInType::InTypeReversedCountedAnsiString, 4)]);
    let mut parser = Parser::create(&record, &schema);
    assert_eq!(parse_text(&mut parser, "s").unwrap(), "hi");
}

#[test]
fn deprecated_wbem_single_char_types_parse_and_advance_the_offset() {
    let user_data: Vec<u8> =
        0x00e9u16.to_le_bytes().into_iter().chain(0x1122_3344u32.to_ne_bytes()).collect();
    let record = synthetic_record(&user_data);
    let schema = synthetic_schema(&[
        PropSpec::new("c", TdhInType::InTypeUnicodeChar, 0),
        PropSpec::new("n", TdhInType::InTypeUInt32, 4),
    ]);
    let mut parser = Parser::create(&record, &schema);
    assert_eq!(parse_text(&mut parser, "c").unwrap(), "é");
    assert_eq!(parse::<u32>(&mut parser, "n").unwrap(), 0x1122_3344);

    let user_data: Vec<u8> =
        b"A".to_vec().into_iter().chain(0x1122_3344u32.to_ne_bytes()).collect();
    let record = synthetic_record(&user_data);
    let schema = synthetic_schema(&[
        PropSpec::new("c", TdhInType::InTypeAnsiChar, 0),
        PropSpec::new("n", TdhInType::InTypeUInt32, 4),
    ]);
    let mut parser = Parser::create(&record, &schema);
    assert_eq!(parse_text(&mut parser, "c").unwrap(), "A");
    assert_eq!(parse::<u32>(&mut parser, "n").unwrap(), 0x1122_3344);
}

#[test]
fn deprecated_wbem_sizet_hexdump_wbemsid_parse_and_advance_the_offset() {
    // Sized as a pointer (8 bytes here)
    let user_data: Vec<u8> = 0x1122_3344_5566_7788u64
        .to_ne_bytes()
        .into_iter()
        .chain(0x1122_3344u32.to_ne_bytes())
        .collect();
    let record = synthetic_record(&user_data);
    let schema = synthetic_schema(&[
        PropSpec::new("sz", TdhInType::InTypeSizeT, 0),
        PropSpec::new("n", TdhInType::InTypeUInt32, 4),
    ]);
    let mut parser = Parser::create(&record, &schema);
    assert_eq!(parse::<Pointer>(&mut parser, "sz").unwrap().value(), 0x1122_3344_5566_7788);
    assert_eq!(parse::<u32>(&mut parser, "n").unwrap(), 0x1122_3344);

    // Little-endian u32 byte count, then the payload
    let user_data: Vec<u8> = 3u32
        .to_le_bytes()
        .into_iter()
        .chain([0xaa, 0xbb, 0xcc])
        .chain(0x1122_3344u32.to_ne_bytes())
        .collect();
    let record = synthetic_record(&user_data);
    let schema = synthetic_schema(&[
        PropSpec::new("dump", TdhInType::InTypeHexDump, 0),
        PropSpec::new("n", TdhInType::InTypeUInt32, 4),
    ]);
    let mut parser = Parser::create(&record, &schema);
    assert_eq!(parse::<Vec<u8>>(&mut parser, "dump").unwrap(), vec![0xaa, 0xbb, 0xcc]);
    assert_eq!(parse::<u32>(&mut parser, "n").unwrap(), 0x1122_3344);

    // The identifier S-1-5-20
    let user_data: Vec<u8> = [1u8, 1, 0, 0, 0, 0, 0, 5, 20, 0, 0, 0]
        .into_iter()
        .chain(0x1122_3344u32.to_ne_bytes())
        .collect();
    let record = synthetic_record(&user_data);
    let schema = synthetic_schema(&[
        PropSpec::new("sid", TdhInType::InTypeWbemSid, 0),
        PropSpec::new("n", TdhInType::InTypeUInt32, 4),
    ]);
    let mut parser = Parser::create(&record, &schema);
    assert_eq!(parse_text(&mut parser, "sid").unwrap(), "S-1-5-20");
    assert_eq!(parse::<u32>(&mut parser, "n").unwrap(), 0x1122_3344);
}

#[test]
fn manifest_counted_binary_parses_and_advances_the_offset() {
    let user_data: Vec<u8> = 3u16
        .to_le_bytes()
        .into_iter()
        .chain([0xaa, 0xbb, 0xcc])
        .chain(0x1122_3344u32.to_ne_bytes())
        .collect();
    let record = synthetic_record(&user_data);
    let schema = synthetic_schema(&[
        PropSpec::new("blob", TdhInType::InTypeManifestCountedBinary, 0),
        PropSpec::new("n", TdhInType::InTypeUInt32, 4),
    ]);
    let mut parser = Parser::create(&record, &schema);

    assert_eq!(parse::<Vec<u8>>(&mut parser, "blob").unwrap(), vec![0xaa, 0xbb, 0xcc]);
    assert_eq!(parse::<u32>(&mut parser, "n").unwrap(), 0x1122_3344);
}

#[test]
fn manifest_counted_binary_with_invalid_length_is_an_error() {
    let record = synthetic_record(&42u16.to_le_bytes());
    let schema =
        synthetic_schema(&[PropSpec::new("blob", TdhInType::InTypeManifestCountedBinary, 2)]);
    let mut parser = Parser::create(&record, &schema);
    assert!(parse::<Vec<u8>>(&mut parser, "blob").is_err());
}

#[test]
fn socket_address_property_decodes_and_advances_the_offset() {
    // sockaddr_in (AF_INET, port 80, 127.0.0.1) padded to 16 bytes
    let mut sockaddr: Vec<u8> = Vec::new();
    sockaddr.extend_from_slice(&2u16.to_ne_bytes());
    sockaddr.extend_from_slice(&80u16.to_be_bytes());
    sockaddr.extend_from_slice(&[127, 0, 0, 1]);
    sockaddr.resize(16, 0);

    let user_data: Vec<u8> =
        sockaddr.into_iter().chain(0x1122_3344u32.to_ne_bytes()).collect();
    let record = synthetic_record(&user_data);
    let schema = synthetic_schema(&[
        PropSpec::new("addr", TdhInType::InTypeBinary, 16)
            .with_out_type(TdhOutType::OutTypeSocketAddress),
        PropSpec::new("n", TdhInType::InTypeUInt32, 4),
    ]);
    let mut parser = Parser::create(&record, &schema);

    let addr = parse::<TdhSocketAddress>(&mut parser, "addr").expect("socket address should parse");
    assert_eq!(addr.ip(), Some(IpAddr::V4(0x7f00_0001)));
    assert_eq!(addr.port(), Some(80));
    assert_eq!(parse::<u32>(&mut parser, "n").unwrap(), 0x1122_3344);

    // A property without the SocketAddress out type is not a socket address
    let schema = synthetic_schema(&[PropSpec::new("addr", TdhInType::InTypeBinary, 16)]);
    let mut parser = Parser::create(&record, &schema);
    assert!(matches!(
        parse::<TdhSocketAddress>(&mut parser, "addr"),
        Err(ParserError::InvalidType)
    ));
}

/// Metadata blob, its `u16` size in front.
fn sized(payload: &[u8]) -> Vec<u8> {
    let mut blob = u16::try_from(payload.len() + 2).unwrap().to_le_bytes().to_vec();
    blob.extend_from_slice(payload);
    blob
}

/// Header of a TraceLogging event.
fn tlg_header() -> EventHeader {
    let mut header = EventHeader { size: 80, flags: 0x0002, ..EventHeader::default() };
    header.descriptor.channel = 11;
    header
}

/// A TraceLogging event whose metadata travels in extended data items, with the
/// schema TDH reports for it.
fn tlg_ext_record(meta: &[u8], values: &[u8], props: &[PropSpec]) -> (EventRecord, Schema) {
    let mut event_meta = vec![0u8];
    event_meta.extend_from_slice(b"Event1\0");
    event_meta.extend_from_slice(meta);
    let record = EventRecord {
        header: tlg_header(),
        extended_data: vec![
            EventHeaderExtendedDataItem {
                ext_type: 12, // provider traits
                data: Some(sized(b"ferrisETW.TraceLoggingTest\0\0")),
            },
            EventHeaderExtendedDataItem {
                ext_type: 11, // event metadata
                data: Some(sized(&event_meta)),
            },
        ],
        user_data: values.to_vec(),
        user_data_address: 0,
    };
    (record, schema_of_source(3, props))
}

#[test]
fn embedded_tlg_metadata_is_rejected_instead_of_misread() {
    // The metadata blobs sit at the start of the user data
    let mut event_meta = b"Event1\0N32\0".to_vec();
    event_meta.push(8);
    event_meta.extend_from_slice(b"Str8\0");
    event_meta.extend_from_slice(&[23 | 0x80, 35]);
    let mut user_data = sized(b"ferrisETW.TraceLoggingTest\0");
    user_data.extend_from_slice(&sized(&event_meta));
    user_data.extend_from_slice(&0x1122_3344u32.to_le_bytes());
    user_data.extend_from_slice(&[2, 0, b'h', b'i']);
    let record = EventRecord {
        header: tlg_header(),
        extended_data: vec![],
        user_data,
        user_data_address: 0,
    };
    let schema = schema_of_source(
        3,
        &[
            PropSpec::new("N32", TdhInType::InTypeUInt32, 4),
            PropSpec::new("Str8", TdhInType::InTypeCountedAnsiString, 0)
                .with_out_type(TdhOutType::OutTypeUtf8),
        ],
    );
    assert!(matches!(schema.decoding_source(), DecodingSource::DecodingSourceTlg));

    let mut parser = Parser::create(&record, &schema);
    let err = parse::<u32>(&mut parser, "N32").expect_err("the layout must not be parsed");
    assert!(
        matches!(&err, ParserError::PropertyError(msg) if msg.contains("inline TraceLogging")),
        "unexpected error: {err:?}"
    );
    assert!(parser.property_bytes_at(0).is_err());
}

#[test]
fn extended_data_tlg_metadata_parses_from_the_buffer_start() {
    let mut meta = b"Port\0".to_vec();
    meta.push(6);
    let (record, schema) =
        tlg_ext_record(&meta, &[80, 0], &[PropSpec::new("Port", TdhInType::InTypeUInt16, 2)]);
    assert!(matches!(schema.decoding_source(), DecodingSource::DecodingSourceTlg));

    let mut parser = Parser::create(&record, &schema);
    assert_eq!(parse::<u16>(&mut parser, "Port").unwrap(), 80);
    assert_eq!(record.event_name(), "Event1");
}

#[test]
fn tracelogging_terminated_wide_string_has_no_schema_length() {
    let mut meta = b"S\0".to_vec();
    meta.push(1);
    let mut values = wide("hï");
    values.extend_from_slice(&[0, 0]);

    let (record, schema) =
        tlg_ext_record(&meta, &values, &[PropSpec::new("S", TdhInType::InTypeUnicodeString, 0)]);
    let PropertyInfo::Value { length, .. } = &schema.properties()[0].info else {
        panic!("'S' should be a scalar value");
    };
    assert_eq!(*length, PropertyLength::Length(0));

    let mut parser = Parser::create(&record, &schema);
    // Up to and including the terminator
    assert_eq!(bytes_at(&mut parser, 0).unwrap().len(), 6);
    assert_eq!(parse_text(&mut parser, "S").unwrap(), "hï");
}

#[test]
fn tracelogging_counted_string_odd_byte_count_sizes_as_count_plus_prefix() {
    let mut meta = b"S16\0".to_vec();
    meta.push(22);
    // 5 bytes: the last one is half a code unit
    let mut values: Vec<u8> = 5u16.to_le_bytes().to_vec();
    values.extend_from_slice(b"a\0b\0c");
    values.extend_from_slice(&0x1122_3344u32.to_le_bytes());

    let (record, schema) =
        tlg_ext_record(&meta, &values, &[PropSpec::new("S16", TdhInType::InTypeCountedString, 0)]);
    let mut parser = Parser::create(&record, &schema);
    assert_eq!(bytes_at(&mut parser, 0).unwrap().len(), 7);
    assert_eq!(parse_text(&mut parser, "S16").unwrap(), "ab");
}

#[test]
fn tracelogging_binary_field_sizes_from_its_synthesized_length() {
    let mut meta = b"Blob\0".to_vec();
    meta.push(14);
    let mut values: Vec<u8> = 3u16.to_le_bytes().to_vec();
    values.extend_from_slice(&[0xaa, 0xbb, 0xcc]);

    let props = [
        PropSpec::new("Blob.Length", TdhInType::InTypeUInt16, 2),
        PropSpec {
            flags: PROPERTY_PARAM_LENGTH,
            ..PropSpec::new("Blob", TdhInType::InTypeBinary, 0)
        },
    ];
    let (record, schema) = tlg_ext_record(&meta, &values, &props);
    assert_eq!(
        schema.properties().iter().map(|p| p.name.as_str()).collect::<Vec<_>>(),
        vec!["Blob.Length", "Blob"]
    );

    let mut parser = Parser::create(&record, &schema);
    assert_eq!(bytes_at(&mut parser, 0).unwrap().len(), 2);
    assert_eq!(bytes_at(&mut parser, 1).unwrap(), &[0xaa, 0xbb, 0xcc]);
}

#[test]
fn tracelogging_counted_array_sizes_from_its_synthesized_count() {
    let mut meta = b"Items\0".to_vec();
    meta.push(6 | 0x40);
    let mut values: Vec<u8> = 2u16.to_le_bytes().to_vec();
    values.extend_from_slice(&[7, 0, 9, 0]);

    let props = [
        PropSpec::new("Items.Count", TdhInType::InTypeUInt16, 2),
        PropSpec {
            flags: PROPERTY_PARAM_COUNT,
            ..PropSpec::new("Items", TdhInType::InTypeUInt16, 2)
        },
    ];
    let (record, schema) = tlg_ext_record(&meta, &values, &props);
    let array_index = schema.properties().iter().position(|p| p.name == "Items").unwrap();

    let mut parser = Parser::create(&record, &schema);
    assert_eq!(bytes_at(&mut parser, array_index).unwrap().len(), 4);
}

#[test]
fn fixed_length_unicode_string_counts_wchars_not_bytes() {
    for (payload, expected) in [(b"abc", "abc"), (b"ab\0", "ab")] {
        let mut user_data: Vec<u8> = payload.iter().flat_map(|b| [*b, 0]).collect();
        user_data.extend_from_slice(&0x1122_3344u32.to_ne_bytes());
        let record = synthetic_record(&user_data);
        let schema = synthetic_schema(&[
            PropSpec::new("s", TdhInType::InTypeUnicodeString, 3),
            PropSpec::new("n", TdhInType::InTypeUInt32, 4),
        ]);
        let mut parser = Parser::create(&record, &schema);

        assert_eq!(parse_text(&mut parser, "s").unwrap(), expected);
        assert_eq!(parse::<u32>(&mut parser, "n").unwrap(), 0x1122_3344);
    }
}

#[test]
fn fixed_length_unicode_string_without_nul_decodes_to_its_full_length() {
    let mut user_data = wide("ab");
    user_data.extend_from_slice(&0x1122_3344u32.to_ne_bytes());
    let record = synthetic_record(&user_data);
    let schema = synthetic_schema(&[
        PropSpec::new("s", TdhInType::InTypeUnicodeString, 2),
        PropSpec::new("n", TdhInType::InTypeUInt32, 4),
    ]);
    let mut parser = Parser::create(&record, &schema);

    assert_eq!(parse_text(&mut parser, "s").unwrap(), "ab");
    assert_eq!(parse::<u32>(&mut parser, "n").unwrap(), 0x1122_3344);
}

#[test]
fn fixed_length_unicode_string_array_occupies_wchars_times_elements() {
    let mut user_data = wide("abcdef");
    user_data.extend_from_slice(&0x1122_3344u32.to_ne_bytes());
    let record = synthetic_record(&user_data);
    let schema = synthetic_schema(&[
        PropSpec { count: 2, ..PropSpec::new("s", TdhInType::InTypeUnicodeString, 3) },
        PropSpec::new("n", TdhInType::InTypeUInt32, 4),
    ]);
    assert!(matches!(
        schema.properties()[0].info,
        PropertyInfo::Array { count: PropertyCount::Count(2), .. }
    ));

    let mut parser = Parser::create(&record, &schema);
    assert!(matches!(parse_text(&mut parser, "s"), Err(ParserError::InvalidType)));
    assert_eq!(parse::<u32>(&mut parser, "n").unwrap(), 0x1122_3344);
}

#[test]
fn sizes_told_by_tdh_are_used() {
    // The length comes after the text it is the length of
    let props = [
        PropSpec {
            flags: PROPERTY_PARAM_LENGTH,
            length: 1,
            ..PropSpec::new("s", TdhInType::InTypeAnsiString, 0)
        },
        PropSpec::new("len", TdhInType::InTypeUInt16, 2),
    ];
    let record = synthetic_record(b"abc\x03\x00");
    let schema = synthetic_schema(&props);
    let mut parser = Parser::create(&record, &schema);
    assert!(matches!(parser.try_parse::<u16>("len"), Ok(Lookup::NeedsTdhSize(0))));
    assert!(parser.supply_tdh_size(Ok(3)).is_ok());
    assert_eq!(parser.located_count(), 1);
    assert_eq!(parser.located_bytes(0), b"abc");
    assert_eq!(parse::<u16>(&mut parser, "len").unwrap(), 3);
    assert_eq!(parse_text(&mut parser, "s").unwrap(), "abc");

    // More than what is left cannot be right
    let mut parser = Parser::create(&record, &schema);
    assert!(matches!(parser.property_bytes_at(1), Ok(Lookup::NeedsTdhSize(0))));
    assert!(matches!(parser.supply_tdh_size(Ok(6)), Err(ParserError::PropertyError(_))));
    assert_eq!(parser.located_count(), 0);
}

#[test]
fn numbers_decode_in_every_width() {
    let mut user_data = vec![0xfeu8, 0xfd];
    user_data.extend_from_slice(&(-3i16).to_le_bytes());
    user_data.extend_from_slice(&(-4i32).to_le_bytes());
    user_data.extend_from_slice(&(-5i64).to_le_bytes());
    user_data.extend_from_slice(&1.5f32.to_le_bytes());
    user_data.extend_from_slice(&(-2.25f64).to_le_bytes());
    user_data.extend_from_slice(&1u32.to_le_bytes());
    let record = synthetic_record(&user_data);
    let schema = synthetic_schema(&[
        PropSpec::new("u8", TdhInType::InTypeUInt8, 1),
        PropSpec::new("i8", TdhInType::InTypeInt8, 1),
        PropSpec::new("i16", TdhInType::InTypeInt16, 2),
        PropSpec::new("i32", TdhInType::InTypeInt32, 4),
        PropSpec::new("i64", TdhInType::InTypeInt64, 8),
        PropSpec::new("f32", TdhInType::InTypeFloat, 4),
        PropSpec::new("f64", TdhInType::InTypeDouble, 8),
        PropSpec::new("bool", TdhInType::InTypeBoolean, 4),
    ]);
    let mut parser = Parser::create(&record, &schema);
    assert_eq!(parse::<u8>(&mut parser, "u8").unwrap(), 0xfe);
    assert_eq!(parse::<i8>(&mut parser, "i8").unwrap(), -3);
    assert_eq!(parse::<i16>(&mut parser, "i16").unwrap(), -3);
    assert_eq!(parse::<i32>(&mut parser, "i32").unwrap(), -4);
    assert_eq!(parse::<i64>(&mut parser, "i64").unwrap(), -5);
    let FloatBits(float) = parse::<FloatBits>(&mut parser, "f32").unwrap();
    assert_eq!(f32::from_bits(float), 1.5);
    let DoubleBits(double) = parse::<DoubleBits>(&mut parser, "f64").unwrap();
    assert_eq!(f64::from_bits(double), -2.25);
    assert!(parse::<bool>(&mut parser, "bool").unwrap());
    // The width must match
    assert!(matches!(parse::<u32>(&mut parser, "u8"), Err(ParserError::LengthMismatch)));
}

#[test]
fn number_arrays_decode_element_by_element() {
    let mut user_data = vec![1u8, 0, 0xff, 0xff];
    user_data.extend_from_slice(&[2, 0, 0, 0, 0xfe, 0xff, 0xff, 0xff]);
    user_data.extend_from_slice(&3u64.to_le_bytes());
    user_data.extend_from_slice(&(-3i64).to_le_bytes());
    // At this address, the elements of every array are aligned
    let record = EventRecord { user_data_address: 4, ..synthetic_record(&user_data) };
    let array = |name: &'static str, in_type: TdhInType, length: u16| PropSpec {
        count: 2,
        ..PropSpec::new(name, in_type, length)
    };
    let unsigned = synthetic_schema(&[
        array("a", TdhInType::InTypeUInt16, 2),
        array("b", TdhInType::InTypeUInt32, 4),
        array("c", TdhInType::InTypeUInt64, 8),
    ]);
    let mut parser = Parser::create(&record, &unsigned);
    assert_eq!(parse::<Vec<u16>>(&mut parser, "a").unwrap(), vec![1, 0xffff]);
    assert_eq!(parse::<Vec<u32>>(&mut parser, "b").unwrap(), vec![2, 0xffff_fffe]);
    assert_eq!(parse::<Vec<u64>>(&mut parser, "c").unwrap(), vec![3, u64::MAX - 2]);
    assert!(matches!(parse::<Vec<u64>>(&mut parser, "a"), Err(ParserError::LengthMismatch)));
    assert!(matches!(parse::<u64>(&mut parser, "c"), Err(ParserError::InvalidType)));

    let signed = synthetic_schema(&[
        array("a", TdhInType::InTypeInt16, 2),
        array("b", TdhInType::InTypeInt32, 4),
        array("c", TdhInType::InTypeInt64, 8),
    ]);
    let mut parser = Parser::create(&record, &signed);
    assert_eq!(parse::<Vec<i16>>(&mut parser, "a").unwrap(), vec![1, -1]);
    assert_eq!(parse::<Vec<i32>>(&mut parser, "b").unwrap(), vec![2, -2]);
    assert_eq!(parse::<Vec<i64>>(&mut parser, "c").unwrap(), vec![3, -3]);
}

#[test]
fn arrays_that_are_not_aligned_are_refused() {
    let mut user_data = vec![0u8];
    user_data.extend_from_slice(&[1, 0, 2, 0, 3, 0, 4, 0]);
    let schema = synthetic_schema(&[
        PropSpec::new("first", TdhInType::InTypeUInt8, 1),
        PropSpec { count: 4, ..PropSpec::new("items", TdhInType::InTypeUInt16, 2) },
    ]);
    // The array starts one byte behind the address of the user data
    for (address, size) in [(0, 1), (1, 2), (3, 4), (7, 8), (8, 1), (usize::MAX, 8)] {
        let record = EventRecord { user_data_address: address, ..synthetic_record(&user_data) };
        let mut parser = Parser::create(&record, &schema);
        let refused = |error: ParserError| {
            matches!(error, ParserError::PropertyError(s) if s == "buffer alignment mismatch")
        };
        match parse::<Vec<u16>>(&mut parser, "items") {
            Ok(items) => assert!(size >= 2 && items == vec![1, 2, 3, 4]),
            Err(e) => assert!(size < 2 && refused(e)),
        }
        match parse::<Vec<u32>>(&mut parser, "items") {
            Ok(items) => assert!(size >= 4 && items == vec![0x0002_0001, 0x0004_0003]),
            Err(e) => assert!(size < 4 && refused(e)),
        }
        match parse::<Vec<i64>>(&mut parser, "items") {
            Ok(items) => assert!(size == 8 && items == vec![0x0004_0003_0002_0001]),
            Err(e) => assert!(size < 8 && refused(e)),
        }
        // A length that does not fit comes first, bytes are always aligned
        assert!(matches!(parse::<Vec<u32>>(&mut parser, "first"), Err(ParserError::InvalidType)));
        assert_eq!(parse::<Vec<u8>>(&mut parser, "items").unwrap(), user_data[1..]);
    }
}

#[test]
fn addresses_and_times_decode() {
    let mut user_data = vec![10u8, 1, 2, 3];
    user_data.extend_from_slice(&[0; 15]);
    user_data.push(1);
    user_data.extend_from_slice(&[8, 7, 6, 5, 4, 3, 2, 1]);
    user_data.extend_from_slice(&[0xea, 7, 1, 0, 5, 0, 2, 0, 3, 0, 4, 0, 5, 0, 6, 0]);
    let record = synthetic_record(&user_data);
    let schema = synthetic_schema(&[
        PropSpec::new("v4", TdhInType::InTypeUInt32, 4).with_out_type(TdhOutType::OutTypeIpv4),
        PropSpec::new("v6", TdhInType::InTypeBinary, 16).with_out_type(TdhOutType::OutTypeIpv6),
        PropSpec::new("ft", TdhInType::InTypeFileTime, 8),
        PropSpec::new("st", TdhInType::InTypeSystemTime, 16),
    ]);
    let mut parser = Parser::create(&record, &schema);
    assert_eq!(parse::<IpAddr>(&mut parser, "v4").unwrap(), IpAddr::V4(0x0a01_0203));
    assert_eq!(parse::<IpAddr>(&mut parser, "v6").unwrap(), IpAddr::V6(1));
    assert!(matches!(parse::<IpAddr>(&mut parser, "ft"), Err(ParserError::InvalidType)));
    let file_time = parse::<FileTime>(&mut parser, "ft").unwrap();
    assert_eq!(file_time, FileTime::from_quad(0x0102_0304_0506_0708));
    let system_time = parse::<SystemTime>(&mut parser, "st").unwrap();
    assert_eq!(system_time.as_unix_timestamp(), 1_767_323_045_006);
}

#[test]
fn text_that_is_not_utf8_is_an_error() {
    let record = synthetic_record(&[0xff, 0xfe, 0]);
    let schema = synthetic_schema(&[PropSpec::new("s", TdhInType::InTypeAnsiString, 0)]);
    let mut parser = Parser::create(&record, &schema);
    assert!(matches!(parse_text(&mut parser, "s"), Err(ParserError::Utf8Error(_))));
}

#[test]
fn identifiers_that_cannot_be_converted_are_an_error() {
    let record = synthetic_record(&[1u8, 1, 0, 0, 0, 0, 0, 5, 20, 0, 0, 0]);
    let schema = synthetic_schema(&[PropSpec::new("sid", TdhInType::InTypeSid, 0)]);
    let mut parser = Parser::create(&record, &schema);
    let parsed = parse::<ParsedString>(&mut parser, "sid").unwrap();
    assert!(matches!(
        parsed.into_text(Err(SddlNativeError::IoError(1337))),
        Err(ParserError::SddlNativeError(SddlNativeError::IoError(1337)))
    ));
}

#[test]
fn a_guid_needs_all_its_bytes() {
    let record = synthetic_record(&[0u8; 20]);
    let schema = synthetic_schema(&[PropSpec::new("g", TdhInType::InTypeGuid, 15)]);
    let mut parser = Parser::create(&record, &schema);
    assert!(parse::<GUID>(&mut parser, "g").is_err());
}

#[test]
fn the_order_of_lookups_does_not_matter() {
    let record = synthetic_record(b"ab\0\x05\x00\x00\x00xy\0");
    let schema = synthetic_schema(&[
        PropSpec::new("a", TdhInType::InTypeAnsiString, 0),
        PropSpec::new("b", TdhInType::InTypeUInt32, 4),
        PropSpec::new("c", TdhInType::InTypeAnsiString, 0),
    ]);
    let mut forward = Parser::create(&record, &schema);
    let mut backward = Parser::create(&record, &schema);
    let first: Vec<Vec<u8>> =
        (0..3).map(|i| bytes_at(&mut forward, i).unwrap().to_vec()).collect();
    let mut second: Vec<Vec<u8>> =
        (0..3).rev().map(|i| bytes_at(&mut backward, i).unwrap().to_vec()).collect();
    second.reverse();
    assert_eq!(first, second);
    // Together they are the start of the user data
    assert_eq!(first.concat(), record.user_data);
}
