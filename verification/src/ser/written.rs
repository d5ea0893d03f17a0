//! What is written for each type of property, in terms of its bytes.
use vstd::prelude::*;

use crate::bytes;
use crate::guid;
use crate::native::tdh_types;
use crate::native::tdh_types::{
    Property, PropertyCount, PropertyInfo, PropertyLength, TdhInType, TdhOutType,
};
use crate::native::times;
use crate::parser;
use crate::parser::{EventLayout, ParserErrorView};
use crate::parser::values;
use crate::parser::values::StringView;
use crate::ser;
use crate::ser::property;
use crate::ser::structure;
use crate::ser::value;
use crate::ser::value::SerView;
use crate::text;

verus! {

/// Whether an out type decides how a value is written, whatever its in type is.
pub open spec fn decides(out_type: TdhOutType) -> bool {
    ||| out_type is OutTypeIpv4
    ||| out_type is OutTypeIpv6
    ||| out_type is OutTypeSocketAddress
    ||| out_type is OutTypeUtf8
    ||| out_type is OutTypeHexInt32
    ||| out_type is OutTypeHexInt64
}

/// Whether a value of another length is refused.
pub open spec fn refused_for_length(r: Result<Option<SerView>, ParserErrorView>) -> bool {
    r == Err::<Option<SerView>, ParserErrorView>(ParserErrorView::LengthMismatch)
}

/// Unsigned numbers, and the bits of floating point numbers, are written as the
/// little-endian numbers their bytes are.
pub proof fn unsigned_numbers_are_written(
    in_type: TdhInType,
    out_type: TdhOutType,
    length: PropertyLength,
    buffer: Seq<u8>,
    misalignment: int,
    layout: EventLayout,
    parsed: Seq<Seq<u8>>,
)
    requires
        !decides(out_type),
    ensures
        ({
            let r = structure::property_view(
                PropertyInfo::Value { in_type, out_type, length },
                buffer,
                misalignment,
                layout,
                parsed,
            );
            &&& in_type is InTypeUInt8 && buffer.len() == 1 ==> (r matches Ok(Some(SerView::UInt8(v)))
                && v == bytes::little_endian(buffer))
            &&& in_type is InTypeUInt8 && buffer.len() != 1 ==> refused_for_length(r)
            &&& in_type is InTypeUInt16 && buffer.len() == 2 ==> (r matches Ok(Some(SerView::UInt16(v)))
                && v == bytes::little_endian(buffer))
            &&& in_type is InTypeUInt16 && buffer.len() != 2 ==> refused_for_length(r)
            &&& in_type is InTypeUInt32 && buffer.len() == 4 ==> (r matches Ok(Some(SerView::UInt32(v)))
                && v == bytes::little_endian(buffer))
            &&& in_type is InTypeUInt32 && buffer.len() != 4 ==> refused_for_length(r)
            &&& in_type is InTypeUInt64 && buffer.len() == 8 ==> (r matches Ok(Some(SerView::UInt64(v)))
                && v == bytes::little_endian(buffer))
            &&& in_type is InTypeUInt64 && buffer.len() != 8 ==> refused_for_length(r)
            &&& in_type is InTypeFloat && buffer.len() == 4 ==> (r matches Ok(Some(SerView::Float(v)))
                && v == bytes::little_endian(buffer))
            &&& in_type is InTypeFloat && buffer.len() != 4 ==> refused_for_length(r)
            &&& in_type is InTypeDouble && buffer.len() == 8 ==> (r matches Ok(Some(SerView::Double(v)))
                && v == bytes::little_endian(buffer))
            &&& in_type is InTypeDouble && buffer.len() != 8 ==> refused_for_length(r)
            &&& (in_type is InTypePointer || in_type is InTypeSizeT) && layout.pointer_size == 4
                && buffer.len() == 4 ==> (r matches Ok(Some(SerView::UInt32(v))) && v
                == bytes::little_endian(buffer))
            &&& (in_type is InTypePointer || in_type is InTypeSizeT) && layout.pointer_size == 8
                && buffer.len() == 8 ==> (r matches Ok(Some(SerView::UInt64(v))) && v
                == bytes::little_endian(buffer))
            &&& (in_type is InTypePointer || in_type is InTypeSizeT) && (layout.pointer_size == 4
                || layout.pointer_size == 8) && buffer.len() != layout.pointer_size
                ==> refused_for_length(r)
        }),
{
    whole_buffers_are_numbers(buffer);
}

proof fn whole_buffers_are_numbers(buffer: Seq<u8>)
    ensures
        buffer.len() == 1 ==> buffer[0] == bytes::little_endian(buffer),
        buffer.len() == 2 ==> bytes::u16_at(buffer, 0) == bytes::little_endian(buffer),
        buffer.len() == 4 ==> bytes::u32_at(buffer, 0) == bytes::little_endian(buffer),
        buffer.len() == 8 ==> bytes::u64_at(buffer, 0) == bytes::little_endian(buffer),
{
    bytes::stored_numbers_are_little_endian(buffer, 0);
    if buffer.len() == 1 {
        assert(buffer.drop_first() =~= Seq::<u8>::empty());
        assert(buffer.drop_last() =~= Seq::<u8>::empty());
        reveal_with_fuel(bytes::little_endian, 2);
    } else {
        assert(buffer.subrange(0, buffer.len() as int) =~= buffer);
    }
}

proof fn signed_numbers_have_their_bits(v8: u8, v16: u16, v32: u32, v64: u64)
    ensures
        values::signed8(v8) as int % 0x100 == v8,
        values::signed16(v16) as int % 0x1_0000 == v16,
        values::signed32(v32) as int % 0x1_0000_0000 == v32,
        values::signed64(v64) as int % 0x1_0000_0000_0000_0000 == v64,
{
}

/// Signed numbers are written as the numbers in two's complement their bytes are.
#[verifier::spinoff_prover]
#[verifier::rlimit(60)]
pub proof fn signed_numbers_are_written(
    in_type: TdhInType,
    out_type: TdhOutType,
    length: PropertyLength,
    buffer: Seq<u8>,
    misalignment: int,
    layout: EventLayout,
    parsed: Seq<Seq<u8>>,
)
    requires
        !decides(out_type),
    ensures
        ({
            let r = structure::property_view(
                PropertyInfo::Value { in_type, out_type, length },
                buffer,
                misalignment,
                layout,
                parsed,
            );
            &&& in_type is InTypeInt8 && buffer.len() == 1 ==> (r matches Ok(Some(SerView::Int8(v)))
                && v as int % 0x100 == bytes::little_endian(buffer))
            &&& in_type is InTypeInt8 && buffer.len() != 1 ==> refused_for_length(r)
            &&& in_type is InTypeInt16 && buffer.len() == 2 ==> (r matches Ok(Some(SerView::Int16(v)))
                && v as int % 0x1_0000 == bytes::little_endian(buffer))
            &&& in_type is InTypeInt16 && buffer.len() != 2 ==> refused_for_length(r)
            &&& in_type is InTypeInt32 && buffer.len() == 4 ==> (r matches Ok(Some(SerView::Int32(v)))
                && v as int % 0x1_0000_0000 == bytes::little_endian(buffer))
            &&& in_type is InTypeInt32 && buffer.len() != 4 ==> refused_for_length(r)
            &&& in_type is InTypeInt64 && buffer.len() == 8 ==> (r matches Ok(Some(SerView::Int64(v)))
                && v as int % 0x1_0000_0000_0000_0000 == bytes::little_endian(buffer))
            &&& in_type is InTypeInt64 && buffer.len() != 8 ==> refused_for_length(r)
        }),
{
    whole_buffers_are_numbers(buffer);
    signed_numbers_have_their_bits(
        buffer[0],
        bytes::u16_at(buffer, 0),
        bytes::u32_at(buffer, 0),
        bytes::u64_at(buffer, 0),
    );
}

/// Whether `r` is the text of the number in `buffer`, in hexadecimal.
pub open spec fn is_hex(r: Result<Option<SerView>, ParserErrorView>, buffer: Seq<u8>) -> bool {
    r matches Ok(Some(SerView::Str(s))) && exists|digits: Seq<u8>|
        #![trigger text::hex_value(digits)]
        {
            &&& s.len() == digits.len() + 2
            &&& s[0] == '0'
            &&& s[1] == 'x'
            &&& forall|i: int| 0 <= i < digits.len() ==> #[trigger] s[2 + i] == digits[i] as char
            &&& forall|i: int|
                0 <= i < digits.len() ==> 0x30 <= #[trigger] digits[i] <= 0x39 || 0x61 <= digits[i]
                    <= 0x66
            &&& text::hex_value(digits) == bytes::little_endian(buffer)
        }
}

/// Numbers whose in or out type is hexadecimal are written as hexadecimal text.
pub proof fn hex_numbers_are_written(
    in_type: TdhInType,
    out_type: TdhOutType,
    length: PropertyLength,
    buffer: Seq<u8>,
    misalignment: int,
    layout: EventLayout,
    parsed: Seq<Seq<u8>>,
)
    ensures
        ({
            let r = structure::property_view(
                PropertyInfo::Value { in_type, out_type, length },
                buffer,
                misalignment,
                layout,
                parsed,
            );
            let four = out_type is OutTypeHexInt32 || (in_type is InTypeHexInt32 && !decides(
                out_type,
            ));
            let eight = out_type is OutTypeHexInt64 || (in_type is InTypeHexInt64 && !decides(
                out_type,
            ));
            &&& four && buffer.len() == 4 ==> is_hex(r, buffer)
            &&& four && buffer.len() != 4 ==> refused_for_length(r)
            &&& eight && buffer.len() == 8 ==> is_hex(r, buffer)
            &&& eight && buffer.len() != 8 ==> refused_for_length(r)
        }),
{
    whole_buffers_are_numbers(buffer);
    if buffer.len() == 4 || buffer.len() == 8 {
        let v = bytes::little_endian(buffer) as nat;
        let digits = text::hex_ascii(v);
        text::hex_digits_write_their_number(v);
        let s = text::ascii_chars(seq![0x30u8, 0x78] + digits);
        assert(s[0] == '0' && s[1] == 'x');
        assert(text::hex_value(digits) == bytes::little_endian(buffer));
    }
}

/// Booleans, identifiers, times, addresses, texts and binary data are written as
/// what their bytes decode to. Where the out type is an address or UTF-8 text, the
/// in type does not decide.
pub proof fn other_values_are_written(
    in_type: TdhInType,
    out_type: TdhOutType,
    length: PropertyLength,
    buffer: Seq<u8>,
    misalignment: int,
    layout: EventLayout,
    parsed: Seq<Seq<u8>>,
)
    ensures
        ({
            let info = PropertyInfo::Value { in_type, out_type, length };
            let r = structure::property_view(info, buffer, misalignment, layout, parsed);
            &&& !decides(out_type) && in_type is InTypeNull ==> r == Ok::<
                Option<SerView>,
                ParserErrorView,
            >(Some(SerView::Null))
            &&& !decides(out_type) && in_type is InTypeBoolean && (buffer.len() == 1 || buffer.len()
                == 4 || buffer.len() == 8) ==> (r matches Ok(Some(SerView::Bool(v))) && (v
                <==> bytes::little_endian(buffer) != 0))
            &&& !decides(out_type) && in_type is InTypeGuid && buffer.len() == 16 ==> r == Ok::<
                Option<SerView>,
                ParserErrorView,
            >(Some(SerView::Guid(guid::guid_at(buffer, 0))))
            &&& !decides(out_type) && in_type is InTypeFileTime && buffer.len() == 8 ==> (
            r matches Ok(Some(SerView::FileTime(t))) && t.dw_low_date_time == bytes::little_endian(
                buffer.subrange(0, 4),
            ) && t.dw_high_date_time == bytes::little_endian(buffer.subrange(4, 8)))
            &&& !decides(out_type) && in_type is InTypeSystemTime && buffer.len() == 16 ==> r
                == Ok::<Option<SerView>, ParserErrorView>(
                Some(SerView::SystemTime(times::system_time_at(buffer))),
            )
            &&& !decides(out_type) && in_type is InTypeBinary ==> r == Ok::<
                Option<SerView>,
                ParserErrorView,
            >(Some(SerView::Bytes(buffer)))
            &&& (out_type is OutTypeIpv4 || out_type is OutTypeIpv6) && (buffer.len() == 4
                || buffer.len() == 16) ==> r == Ok::<Option<SerView>, ParserErrorView>(
                Some(SerView::IpAddr(values::ip_of(buffer))),
            )
            &&& (out_type is OutTypeIpv4 || out_type is OutTypeIpv6) && buffer.len() != 4
                && buffer.len() != 16 ==> refused_for_length(r)
            &&& out_type is OutTypeSocketAddress && buffer.len() >= 2 ==> r == Ok::<
                Option<SerView>,
                ParserErrorView,
            >(Some(SerView::SocketAddress(value::socket_of(buffer))))
            &&& out_type is OutTypeSocketAddress && buffer.len() < 2 ==> refused_for_length(r)
        }),
{
    whole_buffers_are_numbers(buffer);
    bytes::stored_numbers_are_little_endian(buffer, 0);
    bytes::stored_numbers_are_little_endian(buffer, 4);
}

/// The in types whose values are texts.
pub open spec fn is_textual(in_type: TdhInType) -> bool {
    ||| in_type is InTypeUnicodeString
    ||| in_type is InTypeAnsiString
    ||| in_type is InTypeSid
    ||| in_type is InTypeWbemSid
    ||| in_type is InTypeManifestCountedString
    ||| in_type is InTypeCountedString
    ||| in_type is InTypeManifestCountedAnsiString
    ||| in_type is InTypeCountedAnsiString
    ||| in_type is InTypeReversedCountedString
    ||| in_type is InTypeReversedCountedAnsiString
    ||| in_type is InTypeNonNullTerminatedString
    ||| in_type is InTypeNonNullTerminatedAnsiString
    ||| in_type is InTypeUnicodeChar
    ||| in_type is InTypeAnsiChar
}

/// Texts and security identifiers are written as what they decode to.
pub proof fn texts_are_written(
    in_type: TdhInType,
    out_type: TdhOutType,
    length: PropertyLength,
    buffer: Seq<u8>,
    misalignment: int,
    layout: EventLayout,
    parsed: Seq<Seq<u8>>,
)
    requires
        out_type is OutTypeUtf8 || (is_textual(in_type) && !decides(out_type)),
    ensures
        ({
            let r = structure::property_view(
                PropertyInfo::Value { in_type, out_type, length },
                buffer,
                misalignment,
                layout,
                parsed,
            );
            match values::string_value(in_type, buffer) {
                Ok(StringView::Text(s)) => r == Ok::<Option<SerView>, ParserErrorView>(
                    Some(SerView::Str(s)),
                ),
                Ok(StringView::Sid(s)) => r == Ok::<Option<SerView>, ParserErrorView>(
                    Some(SerView::Sid(s)),
                ),
                Err(e) => r == Err::<Option<SerView>, ParserErrorView>(e),
            }
        }),
{
}

/// Counted binary data is written without the count in front of it.
pub proof fn counted_binary_data_is_written(
    in_type: TdhInType,
    out_type: TdhOutType,
    length: PropertyLength,
    buffer: Seq<u8>,
    misalignment: int,
    layout: EventLayout,
    parsed: Seq<Seq<u8>>,
)
    requires
        !decides(out_type),
        in_type is InTypeManifestCountedBinary || in_type is InTypeHexDump,
    ensures
        ({
            let r = structure::property_view(
                PropertyInfo::Value { in_type, out_type, length },
                buffer,
                misalignment,
                layout,
                parsed,
            );
            let head: int = if in_type is InTypeHexDump {
                4
            } else {
                2
            };
            &&& buffer.len() >= head && bytes::little_endian(buffer.subrange(0, head)) == buffer.len()
                - head ==> r == Ok::<Option<SerView>, ParserErrorView>(
                Some(SerView::Bytes(buffer.subrange(head, buffer.len() as int))),
            )
        }),
{
    bytes::stored_numbers_are_little_endian(buffer, 0);
}

/// Arrays are written element by element, each the little-endian number its bytes
/// are; those of other types are not implemented.
#[verifier::spinoff_prover]
#[verifier::rlimit(60)]
pub proof fn arrays_are_written(
    in_type: TdhInType,
    out_type: TdhOutType,
    length: PropertyLength,
    count: PropertyCount,
    buffer: Seq<u8>,
    misalignment: int,
    layout: EventLayout,
    parsed: Seq<Seq<u8>>,
    i: int,
)
    requires
        0 <= i,
        structure::property_view(
            PropertyInfo::Array { in_type, out_type, length, count },
            buffer,
            misalignment,
            layout,
            parsed,
        ) is Ok,
    ensures
        ({
            let r = structure::property_view(
                PropertyInfo::Array { in_type, out_type, length, count },
                buffer,
                misalignment,
                layout,
                parsed,
            );
            &&& in_type is InTypeUInt16 ==> (r matches Ok(Some(SerView::UInt16s(v)))
                && v.len() == buffer.len() / 2 && (i < v.len() ==> v[i] == bytes::little_endian(
                buffer.subrange(2 * i, 2 * i + 2),
            )))
            &&& in_type is InTypeUInt32 || (in_type is InTypePointer && layout.pointer_size == 4) ==> (r matches Ok(Some(SerView::UInt32s(v)))
                && v.len() == buffer.len() / 4 && (i < v.len() ==> v[i] == bytes::little_endian(
                buffer.subrange(4 * i, 4 * i + 4),
            )))
            &&& in_type is InTypeUInt64 || (in_type is InTypePointer && layout.pointer_size != 4) ==> (r matches Ok(Some(SerView::UInt64s(v)))
                && v.len() == buffer.len() / 8 && (i < v.len() ==> v[i] == bytes::little_endian(
                buffer.subrange(8 * i, 8 * i + 8),
            )))
            &&& !(in_type is InTypeUInt16 || in_type is InTypeUInt32 || in_type is InTypeUInt64
                || in_type is InTypeInt16 || in_type is InTypeInt32 || in_type is InTypeInt64
                || in_type is InTypePointer) ==> r == Ok::<Option<SerView>, ParserErrorView>(None)
        }),
{
    bytes::stored_numbers_are_little_endian(buffer, 2 * i);
    bytes::stored_numbers_are_little_endian(buffer, 4 * i);
    bytes::stored_numbers_are_little_endian(buffer, 8 * i);
}

/// Arrays of signed numbers are written element by element, each the number in
/// two's complement its bytes are.
#[verifier::spinoff_prover]
#[verifier::rlimit(60)]
pub proof fn arrays_of_signed_numbers_are_written(
    in_type: TdhInType,
    out_type: TdhOutType,
    length: PropertyLength,
    count: PropertyCount,
    buffer: Seq<u8>,
    misalignment: int,
    layout: EventLayout,
    parsed: Seq<Seq<u8>>,
    i: int,
)
    requires
        0 <= i,
        structure::property_view(
            PropertyInfo::Array { in_type, out_type, length, count },
            buffer,
            misalignment,
            layout,
            parsed,
        ) is Ok,
    ensures
        ({
            let r = structure::property_view(
                PropertyInfo::Array { in_type, out_type, length, count },
                buffer,
                misalignment,
                layout,
                parsed,
            );
            &&& in_type is InTypeInt16 ==> (r matches Ok(Some(SerView::Int16s(v)))
                && v.len() == buffer.len() / 2 && (i < v.len() ==> v[i] as int % 0x1_0000 == bytes::little_endian(
                buffer.subrange(2 * i, 2 * i + 2),
            )))
            &&& in_type is InTypeInt32 ==> (r matches Ok(Some(SerView::Int32s(v)))
                && v.len() == buffer.len() / 4 && (i < v.len() ==> v[i] as int % 0x1_0000_0000 == bytes::little_endian(
                buffer.subrange(4 * i, 4 * i + 4),
            )))
            &&& in_type is InTypeInt64 ==> (r matches Ok(Some(SerView::Int64s(v)))
                && v.len() == buffer.len() / 8 && (i < v.len() ==> v[i] as int % 0x1_0000_0000_0000_0000 == bytes::little_endian(
                buffer.subrange(8 * i, 8 * i + 8),
            )))
        }),
{
    bytes::stored_numbers_are_little_endian(buffer, 2 * i);
    bytes::stored_numbers_are_little_endian(buffer, 4 * i);
    bytes::stored_numbers_are_little_endian(buffer, 8 * i);
    signed_numbers_have_their_bits(
        0,
        bytes::u16_at(buffer, 2 * i),
        bytes::u32_at(buffer, 4 * i),
        bytes::u64_at(buffer, 8 * i),
    );
}

/// Arrays are refused where they are no whole number of elements, or not aligned
/// as their elements are.
pub proof fn arrays_are_aligned(
    in_type: TdhInType,
    out_type: TdhOutType,
    length: PropertyLength,
    count: PropertyCount,
    buffer: Seq<u8>,
    misalignment: int,
    layout: EventLayout,
    parsed: Seq<Seq<u8>>,
)
    ensures
        ({
            let r = structure::property_view(
                PropertyInfo::Array { in_type, out_type, length, count },
                buffer,
                misalignment,
                layout,
                parsed,
            );
            let two = in_type is InTypeUInt16 || in_type is InTypeInt16;
            let four = in_type is InTypeUInt32 || in_type is InTypeInt32 || (
            in_type is InTypePointer && layout.pointer_size == 4);
            let eight = in_type is InTypeUInt64 || in_type is InTypeInt64 || (
            in_type is InTypePointer && layout.pointer_size != 4);
            &&& two ==> (r is Ok <==> buffer.len() % 2 == 0 && misalignment % 2 == 0)
            &&& four ==> (r is Ok <==> buffer.len() % 4 == 0 && misalignment % 4 == 0)
            &&& eight ==> (r is Ok <==> buffer.len() % 8 == 0 && misalignment % 8 == 0)
            &&& two && buffer.len() % 2 != 0 ==> refused_for_length(r)
            &&& four && buffer.len() % 4 != 0 ==> refused_for_length(r)
            &&& eight && buffer.len() % 8 != 0 ==> refused_for_length(r)
        }),
{
}

/// Properties whose layout the schema does not describe are not written.
pub proof fn undescribed_properties_are_not_written(
    length: PropertyLength,
    buffer: Seq<u8>,
    misalignment: int,
    layout: EventLayout,
    parsed: Seq<Seq<u8>>,
)
    ensures
        structure::property_view(
            PropertyInfo::Unsupported { length },
            buffer,
            misalignment,
            layout,
            parsed,
        ) == Ok::<Option<SerView>, ParserErrorView>(None),
{
}

/// The number of structures in an array: the constant of the schema, or the number
/// in the property it refers to.
pub proof fn structures_are_counted(
    c: u16,
    index: u16,
    n: u32,
    layout: EventLayout,
    parsed: Seq<Seq<u8>>,
)
    requires
        index < layout.properties.len(),
        index < parsed.len(),
    ensures
        structure::struct_count(PropertyCount::Count(c), layout, parsed) == Some(c as usize),
        parsed[index as int] == bytes::u32_bytes(n) ==> structure::struct_count(
            PropertyCount::Index(index),
            layout,
            parsed,
        ) == Some(n as usize),
        structure::struct_count(PropertyCount::Index(index), layout, parsed)
            == tdh_types::index_value(parsed[index as int]),
        structure::struct_count(PropertyCount::Index(index), layout, parsed.take(index as int))
            is None,
{
    tdh_types::carriers_hold_their_number(0, 0, n, 0);
}

/// Where the bytes of an array of structures are split: each structure is written
/// on its own, from a part of its own, and all parts are as long and lie one
/// behind the other. An array of unknown length is written without structures.
pub proof fn arrays_of_structures_are_split_evenly(
    members: Vec<Property>,
    count: PropertyCount,
    buffer: Seq<u8>,
    misalignment: int,
    layout: EventLayout,
    parsed: Seq<Seq<u8>>,
    k: int,
)
    ensures
        ({
            let array = structure::property_view(
                PropertyInfo::StructArray { members, count },
                buffer,
                misalignment,
                layout,
                parsed,
            );
            match structure::struct_count(count, layout, parsed) {
                None => array == Ok::<Option<SerView>, ParserErrorView>(
                    Some(SerView::List(Seq::empty())),
                ),
                Some(n) => array matches Ok(r) ==> (r matches Some(SerView::List(list)) && {
                    let part = buffer.len() as int / n as int;
                    &&& list.len() == n
                    &&& 0 <= k < n ==> {
                        &&& 0 <= k * part <= (k + 1) * part <= buffer.len()
                        &&& structure::property_view(
                            PropertyInfo::Struct { members },
                            buffer.subrange(k * part, (k + 1) * part),
                            (misalignment + k * part) % 8,
                            layout,
                            parsed,
                        ) == Ok::<Option<SerView>, ParserErrorView>(Some(list[k]))
                    }
                }),
            }
        }),
{
    if let Some(n) = structure::struct_count(count, layout, parsed) {
        if n > 0 {
            let step = structure::stride(buffer.len(), n);
            elements_stay(members@, buffer, misalignment, step, 0, n as nat, layout, parsed);
        }
        if 0 <= k < n {
            let part = buffer.len() as int / n as int;
            let step = structure::stride(buffer.len(), n);
            assert(step == part);
            assert(0 <= k * part <= (k + 1) * part <= buffer.len()) by (nonlinear_arith)
                requires
                    0 <= k < n,
                    part == buffer.len() as int / n as int,
            ;
            elements_stay(members@, buffer, misalignment, step, k, n as nat, layout, parsed);
        }
    }
}

proof fn elements_stay(
    members: Seq<Property>,
    data: Seq<u8>,
    misalignment: int,
    step: nat,
    k: int,
    n: nat,
    layout: EventLayout,
    parsed: Seq<Seq<u8>>,
)
    requires
        0 <= k < n,
    ensures
        structure::list_after(members, data, misalignment, step, n, layout, parsed) matches Ok(list)
            ==> {
            &&& list.len() == n
            &&& (structure::struct_after(
                members,
                data.subrange(k * step, (k + 1) * step),
                parser::misaligned(misalignment, k * step),
                layout,
                parsed,
            ) matches Ok(s) && list[k] == SerView::Object(s.entries))
        },
    decreases n,
{
    if k + 1 < n {
        elements_stay(members, data, misalignment, step, k, (n - 1) as nat, layout, parsed);
    } else if n > 1 {
        elements_stay(members, data, misalignment, step, k - 1, (n - 1) as nat, layout, parsed);
    }
}

/// Where a member starts whose predecessors have sizes that the schema tells.
pub open spec fn member_start(members: Seq<Property>, i: int, pointer_size: usize) -> int
    decreases i,
{
    if i <= 0 {
        0
    } else {
        member_start(members, i - 1, pointer_size) + match tdh_types::property_fixed_size(
            members[i - 1].info,
            pointer_size,
        ) {
            Some(size) => size as int,
            None => 0,
        }
    }
}

/// In a structure whose members all have a size that the schema tells, and which
/// all fit, each member that is implemented is written under its own name, from
/// its own bytes: those behind all members before it. The others are left out, but
/// take their bytes.
#[verifier::spinoff_prover]
#[verifier::rlimit(80)]
pub proof fn members_are_written_from_their_own_bytes(
    members: Seq<Property>,
    data: Seq<u8>,
    misalignment: int,
    layout: EventLayout,
    parsed: Seq<Seq<u8>>,
)
    requires
        forall|i: int|
            0 <= i < members.len() ==> tdh_types::property_fixed_size(
                (#[trigger] members[i]).info,
                layout.pointer_size,
            ) is Some,
        member_start(members, members.len() as int, layout.pointer_size) <= data.len(),
    ensures
        structure::struct_after(members, data, misalignment, layout, parsed) matches Ok(s) ==> {
            &&& !s.full
            &&& s.offset == member_start(members, members.len() as int, layout.pointer_size)
            &&& s.entries.len() == ser::implemented(members, members.len() as int)
            &&& forall|i: int|
                0 <= i < members.len() && property::handler_of((#[trigger] members[i]).info) is Some
                    ==> is_member_entry(members, i, data, misalignment, layout, parsed, s.entries)
        },
    decreases members.len(),
{
    if members.len() > 0 {
        let rest = members.drop_last();
        let n = rest.len() as int;
        let size = layout.pointer_size;
        starts_stay(rest, members, n, size);
        assert forall|i: int| 0 <= i < rest.len() implies #[trigger] rest[i] == members[i] by {}
        members_are_written_from_their_own_bytes(rest, data, misalignment, layout, parsed);
        if let Ok(s) = structure::struct_after(members, data, misalignment, layout, parsed) {
            let before = structure::struct_after(
                rest,
                data,
                misalignment,
                layout,
                parsed,
            )->Ok_0;
            assert(members[n] == members.last());
            assert forall|i: int|
                0 <= i < members.len() && property::handler_of((#[trigger] members[i]).info)
                    is Some implies is_member_entry(
                members,
                i,
                data,
                misalignment,
                layout,
                parsed,
                s.entries,
            ) by {
                if i < n {
                    assert(rest[i] == members[i]);
                    entry_stays(
                        rest,
                        members.last(),
                        i,
                        data,
                        misalignment,
                        layout,
                        parsed,
                        before.entries,
                        s.entries,
                    );
                    assert(rest.push(members.last()) =~= members);
                }
            }
        }
    }
}

proof fn entry_stays(
    members: Seq<Property>,
    more: Property,
    i: int,
    data: Seq<u8>,
    misalignment: int,
    layout: EventLayout,
    parsed: Seq<Seq<u8>>,
    entries: Seq<(Seq<char>, SerView)>,
    after: Seq<(Seq<char>, SerView)>,
)
    requires
        0 <= i < members.len(),
        is_member_entry(members, i, data, misalignment, layout, parsed, entries),
        entries.len() <= after.len(),
        forall|k: int| 0 <= k < entries.len() ==> #[trigger] after[k] == entries[k],
    ensures
        is_member_entry(members.push(more), i, data, misalignment, layout, parsed, after),
{
    starts_stay(members, members.push(more), i, layout.pointer_size);
}

/// Whether `entries` has the entry of a member, in its place.
pub open spec fn is_member_entry(
    members: Seq<Property>,
    i: int,
    data: Seq<u8>,
    misalignment: int,
    layout: EventLayout,
    parsed: Seq<Seq<u8>>,
    entries: Seq<(Seq<char>, SerView)>,
) -> bool {
    let start = member_start(members, i, layout.pointer_size);
    let k = ser::implemented(members, i);
    &&& 0 <= k < entries.len()
    &&& entries[k].0 == members[i].name@
    &&& structure::property_view(
        members[i].info,
        data.subrange(
            start,
            start + tdh_types::property_fixed_size(members[i].info, layout.pointer_size)->0,
        ),
        (misalignment + start) % 8,
        layout,
        parsed,
    ) == Ok::<Option<SerView>, ParserErrorView>(Some(entries[k].1))
}

proof fn starts_stay(a: Seq<Property>, b: Seq<Property>, i: int, pointer_size: usize)
    requires
        i <= a.len(),
        i <= b.len(),
        forall|j: int| 0 <= j < i ==> #[trigger] a[j] == b[j],
    ensures
        member_start(a, i, pointer_size) == member_start(b, i, pointer_size),
        ser::implemented(a, i) == ser::implemented(b, i),
        ser::implemented(a, i) >= 0,
    decreases i,
{
    if i > 0 {
        starts_stay(a, b, i - 1, pointer_size);
        assert(a[i - 1] == b[i - 1]);
    }
}

/// A member without a size that the schema tells is left out and takes no bytes.
/// One that does not fit ends the structure: it and all behind it are left out.
pub proof fn members_that_do_not_fit_are_left_out(
    members: Seq<Property>,
    more: Property,
    data: Seq<u8>,
    misalignment: int,
    layout: EventLayout,
    parsed: Seq<Seq<u8>>,
)
    ensures
        structure::struct_after(members, data, misalignment, layout, parsed) matches Ok(s) ==> {
            let after = structure::struct_after(
                members.push(more),
                data,
                misalignment,
                layout,
                parsed,
            );
            let size = tdh_types::property_fixed_size(more.info, layout.pointer_size);
            &&& s.full || size is None ==> after == Ok::<structure::StructState, ParserErrorView>(s)
            &&& !s.full && size is Some && s.offset + size->0 > data.len() ==> (
            after matches Ok(t) && t.full && t.entries == s.entries)
        },
{
    assert(members.push(more).drop_last() =~= members);
}

} // verus!
