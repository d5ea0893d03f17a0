//! Properties as the schema describes them.
use ferrisetw::native::tdh_types::{
    EventPropertyInfo, Property, PropertyCount, PropertyFlags, PropertyInfo, PropertyLength,
    TdhInType, TdhOutType, PROPERTY_HAS_CUSTOM_SCHEMA, PROPERTY_PARAM_COUNT,
    PROPERTY_PARAM_LENGTH,
};

fn entry(flags: u32, in_type: TdhInType, count: u16, length: u16) -> EventPropertyInfo {
    EventPropertyInfo {
        flags,
        name_offset: 0,
        in_type: in_type.as_u16(),
        out_type: 0,
        count,
        length,
    }
}

fn property_with_count_union(flags: u32, count_union: u16) -> Property {
    Property::new("prop".into(), &entry(flags, TdhInType::InTypeUInt32, count_union, 4))
}

#[test]
fn param_count_with_small_property_index_is_an_array() {
    for index in [0u16, 1, 2] {
        let property = property_with_count_union(PROPERTY_PARAM_COUNT, index);
        match property.info {
            PropertyInfo::Array { count: PropertyCount::Index(i), .. } => assert_eq!(i, index),
            other => panic!("expected a dynamic array, got {other:?}"),
        }
    }
}

#[test]
fn literal_count_classifies_arrays_and_scalars() {
    let scalar = property_with_count_union(0, 1);
    assert!(matches!(scalar.info, PropertyInfo::Value { .. }));

    let zero = property_with_count_union(0, 0);
    assert!(matches!(zero.info, PropertyInfo::Value { .. }));

    let array = property_with_count_union(0, 3);
    assert!(matches!(
        array.info,
        PropertyInfo::Array { count: PropertyCount::Count(3), .. }
    ));
}

#[test]
fn custom_schema_property_is_kept_as_unsupported() {
    let info = entry(PROPERTY_HAS_CUSTOM_SCHEMA, TdhInType::InTypeNull, 0, 8);
    let property = Property::new("custom".into(), &info);
    match property.info {
        PropertyInfo::Unsupported { length: PropertyLength::Length(8) } => {}
        other => panic!("expected an unsupported property of length 8, got {other:?}"),
    }
}

#[test]
fn zero_length_falls_back_to_the_fixed_in_type_size() {
    let property_with_length =
        |in_type, length| Property::new("prop".into(), &entry(0, in_type, 0, length));

    assert_eq!(property_with_length(TdhInType::InTypeUInt16, 0).fixed_size(8), Some(2));
    assert_eq!(property_with_length(TdhInType::InTypeGuid, 0).fixed_size(8), Some(16));
    // An explicit length still wins
    assert_eq!(property_with_length(TdhInType::InTypeUInt16, 6).fixed_size(8), Some(6));
    // A length held by another property is not ignorable
    let info = entry(PROPERTY_PARAM_LENGTH, TdhInType::InTypeUInt16, 0, 3);
    assert_eq!(Property::new("prop".into(), &info).fixed_size(8), None);
}

#[test]
fn manifest_counted_binary_maps_from_its_tdh_discriminant() {
    let info = entry(0, TdhInType::InTypeManifestCountedBinary, 0, 0);
    assert_eq!(info.in_type, 25);
    let property = Property::new("blob".into(), &info);
    assert!(matches!(
        property.info,
        PropertyInfo::Value { in_type: TdhInType::InTypeManifestCountedBinary, .. }
    ));
}

#[test]
fn structures_are_as_large_as_their_members() {
    let member = |in_type, length| Property::new("m".into(), &entry(0, in_type, 0, length));
    let structure = Property {
        name: "s".into(),
        info: PropertyInfo::StructArray {
            members: vec![
                member(TdhInType::InTypeUInt32, 0),
                member(TdhInType::InTypePointer, 0),
                member(TdhInType::InTypeUnicodeString, 3),
            ],
            count: PropertyCount::Count(2),
        },
    };
    assert_eq!(structure.fixed_size(8), Some(36));
    assert_eq!(structure.fixed_size(4), Some(28));

    let open_ended = Property {
        name: "s".into(),
        info: PropertyInfo::Struct { members: vec![member(TdhInType::InTypeUnicodeString, 0)] },
    };
    assert_eq!(open_ended.fixed_size(8), None);
}

#[test]
fn type_codes_round_trip() {
    for code in 0..400u16 {
        if let Some(in_type) = TdhInType::from_u16(code) {
            assert_eq!(in_type.as_u16(), code);
        }
        if let Some(out_type) = TdhOutType::from_u16(code) {
            assert_eq!(out_type.as_u16(), code);
        }
    }
    assert_eq!(TdhInType::from_u16(24), None);
    assert_eq!(TdhInType::from_u16(300), Some(TdhInType::InTypeCountedString));
    assert_eq!(TdhInType::from_u16(310), Some(TdhInType::InTypeWbemSid));
    assert_eq!(TdhInType::from_u16(311), None);
    assert_eq!(TdhOutType::from_u16(35), Some(TdhOutType::OutTypeUtf8));
    assert_eq!(TdhOutType::from_u16(999), None);
}

#[test]
fn unknown_flags_are_dropped() {
    let flags = PropertyFlags::from_bits_truncate(0xffff_ff04);
    assert_eq!(flags.bits, 0x04);
    assert!(flags.contains(PROPERTY_PARAM_COUNT));
    assert!(!flags.contains(PROPERTY_PARAM_LENGTH));
}
