//! What the bytes of a property mean.
use vstd::prelude::*;
use vstd::utf8::*;

use crate::bytes;
use crate::guid;
use crate::guid::GUID;
use crate::native::tdh_types::{PropertyInfo, TdhInType};
use crate::native::times::{FileTime, SystemTime};
use crate::parser::socket_address;
use crate::parser::socket_address::{IpAddr, TdhSocketAddress};
use crate::parser::values;
use crate::parser::values::{DoubleBits, FloatBits, ParsedString, Pointer, StringView, TryParse};
use crate::parser::{Parser, ParserErrorView, ParserResult};
use crate::text;

verus! {

/// What decoding a property as a number of `size` bytes comes to: a value for a
/// scalar of that size, otherwise an error.
pub open spec fn is_scalar_result<T>(
    info: PropertyInfo,
    buffer: Seq<u8>,
    size: int,
    r: ParserResult<T>,
) -> bool {
    match r {
        Ok(_) => info is Value && buffer.len() == size,
        Err(e) => if info is Value {
            buffer.len() != size && e@ == ParserErrorView::LengthMismatch
        } else {
            e@ == ParserErrorView::InvalidType
        },
    }
}

/// An unsigned number is the one its bytes make up, the least significant one
/// first, and takes exactly the bytes of its type.
pub proof fn unsigned_numbers_are_their_bytes<'schema, 'record>(
    info: PropertyInfo,
    buffer: Seq<u8>,
    m: int,
    r8: ParserResult<u8>,
    r16: ParserResult<u16>,
    r32: ParserResult<u32>,
    r64: ParserResult<u64>,
)
    ensures
        <Parser<'schema, 'record> as TryParse<'schema, 'record, u8>>::decodes(info, buffer, m, r8)
            ==> is_scalar_result(info, buffer, 1, r8) && (r8 matches Ok(v) ==> v
            == bytes::little_endian(buffer)),
        <Parser<'schema, 'record> as TryParse<'schema, 'record, u16>>::decodes(
            info,
            buffer,
            m,
            r16,
        ) ==> is_scalar_result(info, buffer, 2, r16) && (r16 matches Ok(v) ==> v
            == bytes::little_endian(buffer)),
        <Parser<'schema, 'record> as TryParse<'schema, 'record, u32>>::decodes(
            info,
            buffer,
            m,
            r32,
        ) ==> is_scalar_result(info, buffer, 4, r32) && (r32 matches Ok(v) ==> v
            == bytes::little_endian(buffer)),
        <Parser<'schema, 'record> as TryParse<'schema, 'record, u64>>::decodes(
            info,
            buffer,
            m,
            r64,
        ) ==> is_scalar_result(info, buffer, 8, r64) && (r64 matches Ok(v) ==> v
            == bytes::little_endian(buffer)),
{
    bytes::stored_numbers_are_little_endian(buffer, 0);
    assert(buffer.subrange(0, buffer.len() as int) =~= buffer);
    if buffer.len() == 1 {
        one_byte(buffer);
    }
}

proof fn one_byte(buffer: Seq<u8>)
    requires
        buffer.len() == 1,
    ensures
        bytes::little_endian(buffer) == buffer[0],
{
    reveal_with_fuel(bytes::little_endian, 2);
    assert(buffer.drop_first() =~= Seq::empty());
}

/// A signed number has the bytes of its two's complement: up to a power of two it
/// is the number its bytes make up.
pub proof fn signed_numbers_are_their_bytes<'schema, 'record>(
    info: PropertyInfo,
    buffer: Seq<u8>,
    m: int,
    r8: ParserResult<i8>,
    r16: ParserResult<i16>,
    r32: ParserResult<i32>,
    r64: ParserResult<i64>,
)
    ensures
        <Parser<'schema, 'record> as TryParse<'schema, 'record, i8>>::decodes(info, buffer, m, r8)
            ==> is_scalar_result(info, buffer, 1, r8) && (r8 matches Ok(v) ==> v as int % 0x100
            == bytes::little_endian(buffer)),
        <Parser<'schema, 'record> as TryParse<'schema, 'record, i16>>::decodes(
            info,
            buffer,
            m,
            r16,
        ) ==> is_scalar_result(info, buffer, 2, r16) && (r16 matches Ok(v) ==> v as int % 0x1_0000
            == bytes::little_endian(buffer)),
        <Parser<'schema, 'record> as TryParse<'schema, 'record, i32>>::decodes(
            info,
            buffer,
            m,
            r32,
        ) ==> is_scalar_result(info, buffer, 4, r32) && (r32 matches Ok(v) ==> v as int
            % 0x1_0000_0000 == bytes::little_endian(buffer)),
        <Parser<'schema, 'record> as TryParse<'schema, 'record, i64>>::decodes(
            info,
            buffer,
            m,
            r64,
        ) ==> is_scalar_result(info, buffer, 8, r64) && (r64 matches Ok(v) ==> v as int
            % 0x1_0000_0000_0000_0000 == bytes::little_endian(buffer)),
{
    bytes::stored_numbers_are_little_endian(buffer, 0);
    assert(buffer.subrange(0, buffer.len() as int) =~= buffer);
    if buffer.len() == 1 {
        one_byte(buffer);
    }
}

/// Floating-point numbers are kept as their bits. A pointer is a number of four or
/// eight bytes.
pub proof fn floats_and_pointers_are_their_bytes<'schema, 'record>(
    info: PropertyInfo,
    buffer: Seq<u8>,
    m: int,
    float: ParserResult<FloatBits>,
    double: ParserResult<DoubleBits>,
    pointer: ParserResult<Pointer>,
)
    ensures
        <Parser<'schema, 'record> as TryParse<'schema, 'record, FloatBits>>::decodes(
            info,
            buffer,
            m,
            float,
        ) ==> is_scalar_result(info, buffer, 4, float) && (float matches Ok(v) ==> v.0
            == bytes::little_endian(buffer)),
        <Parser<'schema, 'record> as TryParse<'schema, 'record, DoubleBits>>::decodes(
            info,
            buffer,
            m,
            double,
        ) ==> is_scalar_result(info, buffer, 8, double) && (double matches Ok(v) ==> v.0
            == bytes::little_endian(buffer)),
        <Parser<'schema, 'record> as TryParse<'schema, 'record, Pointer>>::decodes(
            info,
            buffer,
            m,
            pointer,
        ) ==> {
            &&& is_scalar_result(
                info,
                buffer,
                if buffer.len() == 4 {
                    4
                } else {
                    8
                },
                pointer,
            )
            &&& pointer matches Ok(v) ==> bytes::little_endian(buffer) <= usize::MAX ==> v.0
                == bytes::little_endian(buffer)
        },
{
    bytes::stored_numbers_are_little_endian(buffer, 0);
    assert(buffer.subrange(0, buffer.len() as int) =~= buffer);
}

/// A boolean of one, four or eight bytes is true if one of them is not zero.
pub proof fn booleans_are_their_bytes<'schema, 'record>(
    info: PropertyInfo,
    buffer: Seq<u8>,
    m: int,
    r: ParserResult<bool>,
)
    requires
        <Parser<'schema, 'record> as TryParse<'schema, 'record, bool>>::decodes(info, buffer, m, r),
    ensures
        r is Ok <==> (info matches PropertyInfo::Value { in_type, .. } && in_type is InTypeBoolean)
            && (buffer.len() == 1 || buffer.len() == 4 || buffer.len() == 8),
        r matches Ok(v) ==> (v <==> exists|i: int| 0 <= i < buffer.len() && buffer[i] != 0),
{
    if r is Ok {
        let v = r->Ok_0;
        if v {
            if buffer.len() == 4 {
                assert(buffer[0] != 0 || buffer[1] != 0 || buffer[2] != 0 || buffer[3] != 0);
            } else if buffer.len() == 8 {
                assert(buffer[0] != 0 || buffer[1] != 0 || buffer[2] != 0 || buffer[3] != 0
                    || buffer[4] != 0 || buffer[5] != 0 || buffer[6] != 0 || buffer[7] != 0);
            } else {
                assert(buffer[0] != 0);
            }
        }
    }
}

/// An IP address is the number its bytes make up, the most significant one first:
/// four bytes are an IPv4 address, sixteen an IPv6 address.
pub proof fn addresses_are_their_bytes<'schema, 'record>(
    info: PropertyInfo,
    buffer: Seq<u8>,
    m: int,
    r: ParserResult<IpAddr>,
)
    requires
        <Parser<'schema, 'record> as TryParse<'schema, 'record, IpAddr>>::decodes(
            info,
            buffer,
            m,
            r,
        ),
    ensures
        r is Ok <==> (info matches PropertyInfo::Value { out_type, .. } && (out_type is OutTypeIpv4
            || out_type is OutTypeIpv6)) && (buffer.len() == 4 || buffer.len() == 16),
        r matches Ok(IpAddr::V4(v)) ==> buffer.len() == 4 && v == bytes::big_endian(buffer),
        r matches Ok(IpAddr::V6(v)) ==> buffer.len() == 16 && v == bytes::big_endian(buffer),
{
    socket_address::address_numbers_are_big_endian(buffer, 0);
    assert(buffer.subrange(0, buffer.len() as int) =~= buffer);
}

/// The address that was written is the address that is read.
pub proof fn written_addresses_are_read<'schema, 'record>(
    info: PropertyInfo,
    a: Seq<u8>,
    b: Seq<u8>,
    m: int,
    ra: ParserResult<IpAddr>,
    rb: ParserResult<IpAddr>,
)
    requires
        a.len() == b.len(),
        ra is Ok,
        rb is Ok,
        <Parser<'schema, 'record> as TryParse<'schema, 'record, IpAddr>>::decodes(info, a, m, ra),
        <Parser<'schema, 'record> as TryParse<'schema, 'record, IpAddr>>::decodes(info, b, m, rb),
    ensures
        ra->Ok_0 == rb->Ok_0 <==> a == b,
{
    addresses_are_their_bytes(info, a, m, ra);
    addresses_are_their_bytes(info, b, m, rb);
    if ra->Ok_0 == rb->Ok_0 {
        bytes::big_endian_is_injective(a, b);
    }
}

/// A socket address is decoded for its out type alone, and from two bytes on.
pub proof fn socket_addresses_need_their_type<'schema, 'record>(
    info: PropertyInfo,
    buffer: Seq<u8>,
    m: int,
    r: ParserResult<TdhSocketAddress>,
)
    requires
        <Parser<'schema, 'record> as TryParse<'schema, 'record, TdhSocketAddress>>::decodes(
            info,
            buffer,
            m,
            r,
        ),
    ensures
        r is Ok <==> (info matches PropertyInfo::Value { out_type, .. } && out_type
            is OutTypeSocketAddress) && buffer.len() >= 2,
        r matches Ok(addr) ==> socket_address::is_sockaddr(buffer, addr),
{
}

/// An identifier of sixteen bytes: three little-endian numbers, then eight bytes
/// in reading order.
pub proof fn identifiers_are_their_bytes<'schema, 'record>(
    info: PropertyInfo,
    buffer: Seq<u8>,
    m: int,
    r: ParserResult<GUID>,
)
    requires
        <Parser<'schema, 'record> as TryParse<'schema, 'record, GUID>>::decodes(info, buffer, m, r),
    ensures
        r is Ok <==> (info matches PropertyInfo::Value { in_type, .. } && in_type is InTypeGuid)
            && buffer.len() == 16,
        r matches Ok(g) ==> {
            &&& g.data1 == bytes::little_endian(buffer.subrange(0, 4))
            &&& g.data2 == bytes::little_endian(buffer.subrange(4, 6))
            &&& g.data3 == bytes::little_endian(buffer.subrange(6, 8))
            &&& g.data4 == bytes::big_endian(buffer.subrange(8, 16))
        },
{
    if buffer.len() == 16 {
        guid::stored_fields(buffer, 0);
    }
}

/// A file time is a number of eight bytes in two halves, a system time eight
/// numbers of two bytes: year, month, day of the week, day, hour, minute, second
/// and milliseconds.
pub proof fn times_are_their_bytes<'schema, 'record>(
    info: PropertyInfo,
    buffer: Seq<u8>,
    m: int,
    file: ParserResult<FileTime>,
    system: ParserResult<SystemTime>,
)
    requires
        <Parser<'schema, 'record> as TryParse<'schema, 'record, FileTime>>::decodes(
            info,
            buffer,
            m,
            file,
        ),
        <Parser<'schema, 'record> as TryParse<'schema, 'record, SystemTime>>::decodes(
            info,
            buffer,
            m,
            system,
        ),
    ensures
        file is Ok <==> (info matches PropertyInfo::Value { in_type, .. } && in_type
            is InTypeFileTime) && buffer.len() == 8,
        file matches Ok(t) ==> {
            &&& t.dw_low_date_time == bytes::little_endian(buffer.subrange(0, 4))
            &&& t.dw_high_date_time == bytes::little_endian(buffer.subrange(4, 8))
        },
        system is Ok <==> (info matches PropertyInfo::Value { in_type, .. } && in_type
            is InTypeSystemTime) && buffer.len() == 16,
        system matches Ok(t) ==> {
            &&& t.w_year == bytes::little_endian(buffer.subrange(0, 2))
            &&& t.w_month == bytes::little_endian(buffer.subrange(2, 4))
            &&& t.w_day_of_week == bytes::little_endian(buffer.subrange(4, 6))
            &&& t.w_day == bytes::little_endian(buffer.subrange(6, 8))
            &&& t.w_hour == bytes::little_endian(buffer.subrange(8, 10))
            &&& t.w_minute == bytes::little_endian(buffer.subrange(10, 12))
            &&& t.w_second == bytes::little_endian(buffer.subrange(12, 14))
            &&& t.w_milliseconds == bytes::little_endian(buffer.subrange(14, 16))
        },
{
    if file is Ok {
        bytes::stored_numbers_are_little_endian(buffer, 0);
        bytes::stored_numbers_are_little_endian(buffer, 4);
    }
    if system is Ok {
        bytes::stored_numbers_are_little_endian(buffer, 0);
        bytes::stored_numbers_are_little_endian(buffer, 2);
        bytes::stored_numbers_are_little_endian(buffer, 4);
        bytes::stored_numbers_are_little_endian(buffer, 6);
        bytes::stored_numbers_are_little_endian(buffer, 8);
        bytes::stored_numbers_are_little_endian(buffer, 10);
        bytes::stored_numbers_are_little_endian(buffer, 12);
        bytes::stored_numbers_are_little_endian(buffer, 14);
    }
}

/// Why bytes are no array of numbers of `size` bytes: they are no array, no whole
/// number of elements, or not aligned.
pub open spec fn is_array_result<T>(
    info: PropertyInfo,
    buffer: Seq<u8>,
    m: int,
    size: int,
    r: ParserResult<Vec<T>>,
) -> bool {
    match r {
        Ok(v) => info is Array && buffer.len() == size * v@.len() && m % size == 0,
        Err(e) => if !(info is Array) {
            e@ == ParserErrorView::InvalidType
        } else if buffer.len() as int % size != 0 {
            e@ == ParserErrorView::LengthMismatch
        } else {
            m % size != 0 && e@ == ParserErrorView::PropertyError("buffer alignment mismatch"@)
        },
    }
}

/// The elements of an array of unsigned numbers are those of its bytes, in order.
pub proof fn unsigned_elements_are_their_bytes<'schema, 'record>(
    info: PropertyInfo,
    buffer: Seq<u8>,
    m: int,
    r16: ParserResult<Vec<u16>>,
    r32: ParserResult<Vec<u32>>,
    r64: ParserResult<Vec<u64>>,
    i: int,
)
    requires
        0 <= i,
        <Parser<'schema, 'record> as TryParse<'schema, 'record, Vec<u16>>>::decodes(
            info,
            buffer,
            m,
            r16,
        ),
        <Parser<'schema, 'record> as TryParse<'schema, 'record, Vec<u32>>>::decodes(
            info,
            buffer,
            m,
            r32,
        ),
        <Parser<'schema, 'record> as TryParse<'schema, 'record, Vec<u64>>>::decodes(
            info,
            buffer,
            m,
            r64,
        ),
    ensures
        is_array_result(info, buffer, m, 2, r16),
        is_array_result(info, buffer, m, 4, r32),
        is_array_result(info, buffer, m, 8, r64),
        r16 matches Ok(v) ==> i < v@.len() ==> v@[i] == bytes::little_endian(
            buffer.subrange(2 * i, 2 * i + 2),
        ),
        r32 matches Ok(v) ==> i < v@.len() ==> v@[i] == bytes::little_endian(
            buffer.subrange(4 * i, 4 * i + 4),
        ),
        r64 matches Ok(v) ==> i < v@.len() ==> v@[i] == bytes::little_endian(
            buffer.subrange(8 * i, 8 * i + 8),
        ),
{
    bytes::stored_numbers_are_little_endian(buffer, 2 * i);
    bytes::stored_numbers_are_little_endian(buffer, 4 * i);
    bytes::stored_numbers_are_little_endian(buffer, 8 * i);
}

/// The elements of an array of signed numbers are those of its bytes, in order.
#[verifier::spinoff_prover]
#[verifier::rlimit(40)]
pub proof fn signed_elements_are_their_bytes<'schema, 'record>(
    info: PropertyInfo,
    buffer: Seq<u8>,
    m: int,
    r16: ParserResult<Vec<i16>>,
    r32: ParserResult<Vec<i32>>,
    r64: ParserResult<Vec<i64>>,
    i: int,
)
    requires
        0 <= i,
        <Parser<'schema, 'record> as TryParse<'schema, 'record, Vec<i16>>>::decodes(
            info,
            buffer,
            m,
            r16,
        ),
        <Parser<'schema, 'record> as TryParse<'schema, 'record, Vec<i32>>>::decodes(
            info,
            buffer,
            m,
            r32,
        ),
        <Parser<'schema, 'record> as TryParse<'schema, 'record, Vec<i64>>>::decodes(
            info,
            buffer,
            m,
            r64,
        ),
    ensures
        is_array_result(info, buffer, m, 2, r16),
        is_array_result(info, buffer, m, 4, r32),
        is_array_result(info, buffer, m, 8, r64),
        r16 matches Ok(v) ==> i < v@.len() ==> v@[i] as int % 0x1_0000 == bytes::little_endian(
            buffer.subrange(2 * i, 2 * i + 2),
        ),
        r32 matches Ok(v) ==> i < v@.len() ==> v@[i] as int % 0x1_0000_0000
            == bytes::little_endian(buffer.subrange(4 * i, 4 * i + 4)),
        r64 matches Ok(v) ==> i < v@.len() ==> v@[i] as int % 0x1_0000_0000_0000_0000
            == bytes::little_endian(buffer.subrange(8 * i, 8 * i + 8)),
{
    bytes::stored_numbers_are_little_endian(buffer, 2 * i);
    bytes::stored_numbers_are_little_endian(buffer, 4 * i);
    bytes::stored_numbers_are_little_endian(buffer, 8 * i);
}

/// Binary data is its bytes, without the count in front of it where there is one:
/// two bytes for counted data, four for a dump.
pub proof fn binary_data_is_its_bytes<'schema, 'record>(
    info: PropertyInfo,
    buffer: Seq<u8>,
    m: int,
    r: ParserResult<Vec<u8>>,
)
    requires
        <Parser<'schema, 'record> as TryParse<'schema, 'record, Vec<u8>>>::decodes(
            info,
            buffer,
            m,
            r,
        ),
    ensures
        ({
            let width = match info {
                PropertyInfo::Value { in_type: TdhInType::InTypeManifestCountedBinary, .. } => 2int,
                PropertyInfo::Value { in_type: TdhInType::InTypeHexDump, .. } => 4,
                _ => 0,
            };
            let count = if width == 0 {
                buffer.len() as int
            } else {
                bytes::little_endian(buffer.subrange(0, width))
            };
            &&& r is Ok <==> width <= buffer.len() && width + count <= buffer.len()
            &&& r matches Ok(v) ==> v@ == buffer.subrange(width, width + count)
        }),
{
    bytes::stored_numbers_are_little_endian(buffer, 0);
    assert(buffer.subrange(0, buffer.len() as int) =~= buffer);
}

/// A counted string of the reversed types, with the most significant byte of its
/// count first, and a string without count or terminator, are read as the text
/// they were written for.
pub proof fn other_text_is_read(chars: Seq<char>)
    ensures
        encode_utf8(chars).len() <= u16::MAX ==> {
            let n = encode_utf8(chars).len();
            values::string_value(
                TdhInType::InTypeReversedCountedAnsiString,
                seq![(n / 0x100) as u8, (n % 0x100) as u8] + encode_utf8(chars),
            ) == Ok::<StringView, ParserErrorView>(StringView::Text(chars))
        },
        2 * text::utf16_units(chars).len() <= u16::MAX ==> {
            let n = 2 * text::utf16_units(chars).len();
            values::string_value(
                TdhInType::InTypeReversedCountedString,
                seq![(n / 0x100) as u8, (n % 0x100) as u8] + bytes::u16s_bytes(
                    text::utf16_units(chars),
                ),
            ) == Ok::<StringView, ParserErrorView>(StringView::Text(chars))
        },
        values::string_value(
            TdhInType::InTypeNonNullTerminatedAnsiString,
            encode_utf8(chars),
        ) == Ok::<StringView, ParserErrorView>(StringView::Text(chars)),
        values::string_value(TdhInType::InTypeAnsiChar, encode_utf8(chars)) == Ok::<
            StringView,
            ParserErrorView,
        >(StringView::Text(chars)),
        values::string_value(
            TdhInType::InTypeNonNullTerminatedString,
            bytes::u16s_bytes(text::utf16_units(chars)),
        ) == Ok::<StringView, ParserErrorView>(StringView::Text(chars)),
        text::utf16_units(chars).len() == 1 ==> values::string_value(
            TdhInType::InTypeUnicodeChar,
            bytes::u16s_bytes(text::utf16_units(chars)),
        ) == Ok::<StringView, ParserErrorView>(StringView::Text(chars)),
{
    encode_utf8_valid_utf8(chars);
    encode_utf8_decode_utf8(chars);
    text::utf16_round_trip(chars);
    let narrow = encode_utf8(chars);
    let units = text::utf16_units(chars);
    let wide = bytes::u16s_bytes(units);
    bytes::u16s_round_trip(Seq::empty(), units, Seq::empty());
    assert(Seq::<u8>::empty() + wide + Seq::<u8>::empty() =~= wide);
    assert forall|i: int| 0 <= i < units.len() implies text::units_of(wide)[i] == units[i] by {
        assert(bytes::u16_at(wide, Seq::<u8>::empty().len() + 2 * i) == units[i]);
    }
    assert(text::units_of(wide) =~= units);
    if narrow.len() <= u16::MAX {
        let n = narrow.len();
        let data = seq![(n / 0x100) as u8, (n % 0x100) as u8] + narrow;
        assert(bytes::u16_be_at(data, 0) == n);
        assert(data.subrange(2, 2 + n as int) =~= narrow);
    }
    if wide.len() <= u16::MAX {
        let n = wide.len();
        let data = seq![(n / 0x100) as u8, (n % 0x100) as u8] + wide;
        assert(bytes::u16_be_at(data, 0) == n);
        assert(data.subrange(2, 2 + n as int) =~= wide);
    }
    if units.len() == 1 {
        assert(seq![bytes::u16_at(wide, 0)] =~= units) by {
            assert(bytes::u16_at(wide, Seq::<u8>::empty().len() + 2 * 0int) == units[0]);
        }
    }
}

/// A security identifier is as long as its second byte says: eight bytes and four
/// for each part. What follows is not part of it, and nothing may be missing.
pub proof fn security_identifiers_are_their_bytes(in_type: TdhInType, buffer: Seq<u8>)
    requires
        in_type is InTypeSid || in_type is InTypeWbemSid,
    ensures
        ({
            let len = 8 + 4 * buffer[1];
            if buffer.len() >= 8 && buffer.len() >= len {
                values::string_value(in_type, buffer) == Ok::<StringView, ParserErrorView>(
                    StringView::Sid(buffer.subrange(0, len)),
                )
            } else {
                values::string_value(in_type, buffer) is Err
            }
        }),
{
    let len = 8 + 4 * buffer[1];
    if buffer.len() >= 8 && buffer.len() >= len {
        assert(buffer.take(len) =~= buffer.subrange(0, len));
    }
}

/// Text is decoded for the types of text and of identifiers alone.
pub proof fn only_text_is_decoded_as_text<'schema, 'record>(
    info: PropertyInfo,
    buffer: Seq<u8>,
    m: int,
    r: ParserResult<ParsedString>,
)
    requires
        <Parser<'schema, 'record> as TryParse<'schema, 'record, ParsedString>>::decodes(
            info,
            buffer,
            m,
            r,
        ),
    ensures
        r is Ok ==> (info matches PropertyInfo::Value { in_type, .. } && {
            ||| in_type is InTypeUnicodeString
            ||| in_type is InTypeAnsiString
            ||| in_type is InTypeSid
            ||| in_type is InTypeWbemSid
            ||| in_type is InTypeUnicodeChar
            ||| in_type is InTypeAnsiChar
            ||| in_type is InTypeManifestCountedString
            ||| in_type is InTypeCountedString
            ||| in_type is InTypeManifestCountedAnsiString
            ||| in_type is InTypeCountedAnsiString
            ||| in_type is InTypeReversedCountedString
            ||| in_type is InTypeReversedCountedAnsiString
            ||| in_type is InTypeNonNullTerminatedString
            ||| in_type is InTypeNonNullTerminatedAnsiString
        }),
        r matches Ok(s) ==> values::string_value(info->Value_in_type, buffer) == Ok::<
            StringView,
            ParserErrorView,
        >(s@),
{
}

/// When text is decoded, and what it is: wide text up to its first NUL, but not from
/// an odd number of bytes; other text without the NULs around it, where it is
/// well-formed; a character from two bytes.
pub proof fn texts_are_decoded(buffer: Seq<u8>)
    ensures
        match values::string_value(TdhInType::InTypeUnicodeString, buffer) {
            Ok(v) => buffer.len() % 2 == 0 && (v matches StringView::Text(s) && s
                == text::utf16_chars(text::until_nul(text::units_of(buffer)))),
            Err(e) => buffer.len() % 2 == 1 && e is PropertyError,
        },
        match values::string_value(TdhInType::InTypeAnsiString, buffer) {
            Ok(v) => valid_utf8(buffer) && (v matches StringView::Text(s) && exists|
                from: int,
                to: int,
            |
                {
                    &&& #[trigger] text::trim_nuls_cut(decode_utf8(buffer), from, to)
                    &&& s == decode_utf8(buffer).subrange(from, to)
                    &&& from < to ==> s[0] != '\0' && s.last() != '\0'
                }),
            Err(e) => !valid_utf8(buffer) && e is Utf8Error,
        },
        match values::string_value(TdhInType::InTypeUnicodeChar, buffer) {
            Ok(v) => buffer.len() == 2 && (v matches StringView::Text(s) && s.len() == 1 && {
                let unit = bytes::little_endian(buffer);
                s[0] as int == if 0xd800 <= unit <= 0xdfff {
                    0xfffdint
                } else {
                    unit
                }
            }),
            Err(e) => buffer.len() != 2 && e is SliceError,
        },
{
    if valid_utf8(buffer) {
        text::trimming_cuts_nuls(decode_utf8(buffer));
        let chars = decode_utf8(buffer);
        let (from, to) = choose|from: int, to: int|
            #[trigger] text::trim_nuls_cut(chars, from, to) && text::trim_nuls(chars)
                == chars.subrange(from, to) && (from < to ==> !(chars[from] == '\0') && !(
            chars[to - 1] == '\0'));
        assert(text::trim_nuls_cut(decode_utf8(buffer), from, to));
    }
    if buffer.len() == 2 {
        bytes::stored_numbers_are_little_endian(buffer, 0);
        assert(buffer.subrange(0, 2) =~= buffer);
        let unit = bytes::u16_at(buffer, 0);
        text::code_units_are_decoded_from_the_front(Seq::empty(), unit);
        assert(seq![unit] + Seq::<u16>::empty() =~= seq![unit]);
    }
}

/// Counted text is the text of as many bytes as its count says, behind the count;
/// what follows does not matter. Where there are fewer bytes, it is refused.
pub proof fn counted_text_has_the_length_of_its_count(
    in_type: TdhInType,
    buffer: Seq<u8>,
    wide: bool,
    reversed: bool,
)
    requires
        wide && !reversed ==> in_type is InTypeCountedString
            || in_type is InTypeManifestCountedString,
        !wide && !reversed ==> in_type is InTypeCountedAnsiString
            || in_type is InTypeManifestCountedAnsiString,
        wide && reversed ==> in_type is InTypeReversedCountedString,
        !wide && reversed ==> in_type is InTypeReversedCountedAnsiString,
    ensures
        ({
            let head = buffer.subrange(0, 2);
            let n = if reversed {
                bytes::big_endian(head)
            } else {
                bytes::little_endian(head)
            };
            let own = buffer.subrange(2, 2 + n);
            let r = values::string_value(in_type, buffer);
            if buffer.len() < 2 || 2 + n > buffer.len() {
                r matches Err(e) && e is PropertyError
            } else if wide {
                r == Ok::<StringView, ParserErrorView>(
                    StringView::Text(text::utf16_chars(text::units_of(own))),
                )
            } else if valid_utf8(own) {
                r == Ok::<StringView, ParserErrorView>(StringView::Text(decode_utf8(own)))
            } else {
                r == Err::<StringView, ParserErrorView>(ParserErrorView::Utf8Error)
            }
        }),
{
    if buffer.len() >= 2 {
        bytes::stored_numbers_are_little_endian(buffer, 0);
        bytes::big_endian_u16_is_stored(buffer, 0);
    }
}

} // verus!
