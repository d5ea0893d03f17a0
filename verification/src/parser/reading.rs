//! What a provider writes is what is read.
use vstd::prelude::*;
use vstd::utf8::*;

use crate::bytes;
use crate::guid;
use crate::guid::GUID;
use crate::native::tdh_types::{PropertyInfo, TdhInType, TdhOutType};
use crate::parser;
use crate::parser::values;
use crate::parser::values::{StringView, TryParse};
use crate::parser::{Parser, ParserErrorView, ParserResult, PropertySize};
use crate::text;

verus! {

/// The bytes of a wide string with its terminator.
pub open spec fn terminated_wide(chars: Seq<char>) -> Seq<u8> {
    bytes::u16s_bytes(text::utf16_units(chars)) + bytes::u16_bytes(0)
}

/// The bytes of a string with its terminator.
pub open spec fn terminated(chars: Seq<char>) -> Seq<u8> {
    encode_utf8(chars).push(0u8)
}

/// The bytes of a wide string after its byte count.
pub open spec fn counted_wide(chars: Seq<char>) -> Seq<u8> {
    bytes::u16_bytes((2 * text::utf16_units(chars).len()) as u16) + bytes::u16s_bytes(
        text::utf16_units(chars),
    )
}

/// The bytes of a string after their count.
pub open spec fn counted(chars: Seq<char>) -> Seq<u8> {
    bytes::u16_bytes(encode_utf8(chars).len() as u16) + encode_utf8(chars)
}

/// Splitting the bytes of code units gives them back, whatever follows.
proof fn units_are_split(units: Seq<u16>, after: Seq<u8>)
    ensures
        bytes::u16s_bytes(units).len() == 2 * units.len(),
        text::units_of(bytes::u16s_bytes(units) + after) == units + text::units_of(after),
{
    let all = bytes::u16s_bytes(units) + after;
    bytes::u16s_round_trip(Seq::empty(), units, after);
    assert(Seq::<u8>::empty() + bytes::u16s_bytes(units) + after =~= all);
    let split = text::units_of(all);
    let expected = units + text::units_of(after);
    assert forall|i: int| 0 <= i < split.len() implies split[i] == expected[i] by {
        if i < units.len() {
            assert(bytes::u16_at(all, Seq::<u8>::empty().len() + 2 * i) == units[i]);
        } else {
            let j = i - units.len();
            assert(all[2 * i] == after[2 * j]);
            assert(all[2 * i + 1] == after[2 * j + 1]);
        }
    }
    assert(split =~= expected);
}

/// A terminated wide string without a NUL of its own takes its bytes and no
/// more, whatever follows it, and is read as the text it was written for.
pub proof fn terminated_wide_text_is_read(chars: Seq<char>, out_type: TdhOutType, after: Seq<u8>)
    requires
        !chars.contains('\0'),
        terminated_wide(chars).len() <= usize::MAX,
    ensures
        parser::unsized_value_size(
            TdhInType::InTypeUnicodeString,
            out_type,
            terminated_wide(chars) + after,
        ) == Ok::<PropertySize, ParserErrorView>(
            PropertySize::Known(terminated_wide(chars).len() as usize),
        ),
        values::string_value(TdhInType::InTypeUnicodeString, terminated_wide(chars)) == Ok::<
            StringView,
            ParserErrorView,
        >(StringView::Text(chars)),
{
    let units = text::utf16_units(chars);
    let data = terminated_wide(chars);
    text::no_nul_units(chars);
    let nul = bytes::u16_bytes(0);
    bytes::u16_round_trip(Seq::empty(), 0, Seq::empty());
    assert(Seq::<u8>::empty() + nul + Seq::<u8>::empty() =~= nul);

    units_are_split(units, nul + after);
    assert(data + after =~= bytes::u16s_bytes(units) + (nul + after));
    let all = text::units_of(data + after);
    assert(all[units.len() as int] == 0) by {
        assert(text::units_of(nul + after)[0] == bytes::u16_at(nul + after, 0));
    }
    assert forall|i: int| 0 <= i < units.len() implies all[i] != 0 by {
        assert(all[i] == units[i]);
    }
    text::first_index_is(all, 0u16, units.len() as int);

    units_are_split(units, nul);
    let own = text::units_of(data);
    assert(own =~= units.push(0));
    assert forall|i: int| 0 <= i < units.len() implies own[i] != 0 by {
        assert(own[i] == units[i]);
    }
    text::first_index_is(own, 0u16, units.len() as int);
    assert(text::until_nul(own) =~= units);
    text::utf16_round_trip(chars);
}

/// The bytes of a character other than NUL are not zero.
proof fn scalars_have_no_zero_byte(c: u32)
    requires
        c != 0,
        is_scalar(c),
    ensures
        forall|i: int| 0 <= i < encode_scalar(c).len() ==> encode_scalar(c)[i] != 0,
{
    assert(c != 0 && c <= 0x7f ==> (c & 0x7f) as u8 != 0) by (bit_vector);
    assert(forall|x: u8| #[trigger] (0x80u8 | x) != 0) by (bit_vector);
    assert(forall|x: u8| #[trigger] (0xc0u8 | x) != 0) by (bit_vector);
    assert(forall|x: u8| #[trigger] (0xe0u8 | x) != 0) by (bit_vector);
    assert(forall|x: u8| #[trigger] (0xf0u8 | x) != 0) by (bit_vector);
}

/// Text without a NUL has no zero byte.
proof fn no_zero_byte(chars: Seq<char>)
    requires
        !chars.contains('\0'),
    ensures
        forall|i: int| 0 <= i < encode_utf8(chars).len() ==> encode_utf8(chars)[i] != 0,
    decreases chars.len(),
{
    if chars.len() > 0 {
        let c = chars[0];
        let rest = chars.drop_first();
        assert forall|i: int| 0 <= i < rest.len() implies rest[i] != '\0' by {
            assert(rest[i] == chars[i + 1]);
        }
        no_zero_byte(rest);
        char_is_scalar(c);
        char_u32_cast(c, c as u32);
        assert(c != '\0');
        assert(c as u32 != 0);
        scalars_have_no_zero_byte(c as u32);
        let first = encode_scalar(c as u32);
        assert forall|i: int| 0 <= i < encode_utf8(chars).len() implies encode_utf8(chars)[i]
            != 0 by {
            if i < first.len() {
                assert(encode_utf8(chars)[i] == first[i]);
            } else {
                assert(encode_utf8(chars)[i] == encode_utf8(rest)[i - first.len()]);
            }
        }
    }
}

/// The terminator is encoded as a zero byte.
proof fn terminator_is_encoded(chars: Seq<char>)
    ensures
        encode_utf8(chars.push('\0')) == terminated(chars),
    decreases chars.len(),
{
    let all = chars.push('\0');
    if chars.len() == 0 {
        assert(all.drop_first() =~= Seq::<char>::empty());
        assert(0u32 & 0x7f == 0) by (bit_vector);
        reveal_with_fuel(encode_utf8, 2);
        assert(encode_utf8(all) =~= seq![0u8]);
        assert(terminated(chars) =~= seq![0u8]);
    } else {
        let rest = chars.drop_first();
        assert(all.drop_first() =~= rest.push('\0'));
        terminator_is_encoded(rest);
        assert(encode_utf8(all) =~= terminated(chars));
    }
}

/// Trimming takes the terminator away and nothing else.
proof fn terminator_is_trimmed(chars: Seq<char>)
    requires
        !chars.contains('\0'),
    ensures
        text::trim_nuls(chars.push('\0')) == chars,
{
    let all = chars.push('\0');
    reveal_with_fuel(text::trim_nuls, 2);
    if chars.len() == 0 {
        assert(all.drop_first() =~= chars);
    } else {
        assert(all[0] == chars[0]);
        assert(chars.contains(chars[0]));
        assert(chars.contains(chars.last()));
        assert(all.drop_last() =~= chars);
    }
}

/// A terminated string without a NUL of its own takes its bytes and no more,
/// whatever follows it, and is read as the text it was written for.
pub proof fn terminated_text_is_read(chars: Seq<char>, out_type: TdhOutType, after: Seq<u8>)
    requires
        !chars.contains('\0'),
        terminated(chars).len() <= usize::MAX,
    ensures
        parser::unsized_value_size(
            TdhInType::InTypeAnsiString,
            out_type,
            terminated(chars) + after,
        ) == Ok::<PropertySize, ParserErrorView>(
            PropertySize::Known(terminated(chars).len() as usize),
        ),
        values::string_value(TdhInType::InTypeAnsiString, terminated(chars)) == Ok::<
            StringView,
            ParserErrorView,
        >(StringView::Text(chars)),
{
    let data = terminated(chars);
    let n = encode_utf8(chars).len() as int;
    no_zero_byte(chars);
    assert forall|i: int| 0 <= i < n implies (data + after)[i] != 0 by {
        assert((data + after)[i] == encode_utf8(chars)[i]);
    }
    text::first_index_is(data + after, 0u8, n);
    terminator_is_encoded(chars);
    encode_utf8_valid_utf8(chars.push('\0'));
    encode_utf8_decode_utf8(chars.push('\0'));
    terminator_is_trimmed(chars);
}

/// Whether a counted wide string has this in type.
pub open spec fn is_counted_wide(in_type: TdhInType) -> bool {
    in_type is InTypeCountedString || in_type is InTypeManifestCountedString
}

/// Whether a counted string has this in type.
pub open spec fn is_counted(in_type: TdhInType) -> bool {
    in_type is InTypeCountedAnsiString || in_type is InTypeManifestCountedAnsiString
}

/// A counted wide string takes its count and its bytes, whatever follows it, and
/// is read as the text it was written for, NULs included.
pub proof fn counted_wide_text_is_read(
    in_type: TdhInType,
    chars: Seq<char>,
    out_type: TdhOutType,
    after: Seq<u8>,
)
    requires
        is_counted_wide(in_type),
        2 * text::utf16_units(chars).len() <= u16::MAX,
    ensures
        parser::unsized_value_size(in_type, out_type, counted_wide(chars) + after) == Ok::<
            PropertySize,
            ParserErrorView,
        >(PropertySize::Known(counted_wide(chars).len() as usize)),
        values::string_value(in_type, counted_wide(chars)) == Ok::<StringView, ParserErrorView>(
            StringView::Text(chars),
        ),
{
    let units = text::utf16_units(chars);
    let payload = bytes::u16s_bytes(units);
    let data = counted_wide(chars);
    let count = (2 * units.len()) as u16;
    units_are_split(units, Seq::empty());
    assert(payload + Seq::<u8>::empty() =~= payload);
    assert(units + text::units_of(Seq::empty()) =~= units);
    bytes::u16_round_trip(Seq::empty(), count, payload + after);
    assert(Seq::<u8>::empty() + bytes::u16_bytes(count) + (payload + after) =~= data + after);
    bytes::u16_round_trip(Seq::empty(), count, payload);
    assert(Seq::<u8>::empty() + bytes::u16_bytes(count) + payload =~= data);
    assert(data.subrange(2, 2 + count) =~= payload);
    text::utf16_round_trip(chars);
}

/// A counted string takes its count and its bytes, whatever follows it, and is
/// read as the text it was written for, NULs included.
pub proof fn counted_text_is_read(
    in_type: TdhInType,
    chars: Seq<char>,
    out_type: TdhOutType,
    after: Seq<u8>,
)
    requires
        is_counted(in_type),
        encode_utf8(chars).len() <= u16::MAX,
    ensures
        parser::unsized_value_size(in_type, out_type, counted(chars) + after) == Ok::<
            PropertySize,
            ParserErrorView,
        >(PropertySize::Known(counted(chars).len() as usize)),
        values::string_value(in_type, counted(chars)) == Ok::<StringView, ParserErrorView>(
            StringView::Text(chars),
        ),
{
    let payload = encode_utf8(chars);
    let data = counted(chars);
    let count = payload.len() as u16;
    bytes::u16_round_trip(Seq::empty(), count, payload + after);
    assert(Seq::<u8>::empty() + bytes::u16_bytes(count) + (payload + after) =~= data + after);
    bytes::u16_round_trip(Seq::empty(), count, payload);
    assert(Seq::<u8>::empty() + bytes::u16_bytes(count) + payload =~= data);
    assert(data.subrange(2, 2 + count) =~= payload);
    encode_utf8_valid_utf8(chars);
    encode_utf8_decode_utf8(chars);
}

/// Numbers and identifiers are read as what was written: decoding comes to that
/// value and to nothing else.
#[verifier::spinoff_prover]
#[verifier::rlimit(60)]
pub proof fn scalars_are_read<'schema, 'record>(
    info: PropertyInfo,
    v16: u16,
    v32: u32,
    v64: u64,
    g: GUID,
)
    requires
        info is Value,
    ensures
        forall|misalignment: int, r: ParserResult<u16>|
            #[trigger] <Parser<'schema, 'record> as TryParse<'schema, 'record, u16>>::decodes(
                info,
                bytes::u16_bytes(v16),
                misalignment,
                r,
            ) <==> r == Ok::<u16, parser::ParserError>(v16),
        forall|misalignment: int, r: ParserResult<u32>|
            #[trigger] <Parser<'schema, 'record> as TryParse<'schema, 'record, u32>>::decodes(
                info,
                bytes::u32_bytes(v32),
                misalignment,
                r,
            ) <==> r == Ok::<u32, parser::ParserError>(v32),
        forall|misalignment: int, r: ParserResult<u64>|
            #[trigger] <Parser<'schema, 'record> as TryParse<'schema, 'record, u64>>::decodes(
                info,
                bytes::u64_bytes(v64),
                misalignment,
                r,
            ) <==> r == Ok::<u64, parser::ParserError>(v64),
        info->Value_in_type is InTypeGuid ==> forall|misalignment: int, r: ParserResult<GUID>|
            #[trigger] <Parser<'schema, 'record> as TryParse<'schema, 'record, GUID>>::decodes(
                info,
                guid::guid_bytes(g),
                misalignment,
                r,
            ) <==> r == Ok::<GUID, parser::ParserError>(g),
{
    let nothing = Seq::<u8>::empty();
    bytes::u16_round_trip(nothing, v16, nothing);
    assert(nothing + bytes::u16_bytes(v16) + nothing =~= bytes::u16_bytes(v16));
    bytes::u32_round_trip(nothing, v32, nothing);
    assert(nothing + bytes::u32_bytes(v32) + nothing =~= bytes::u32_bytes(v32));
    bytes::u64_round_trip(nothing, v64, nothing);
    assert(nothing + bytes::u64_bytes(v64) + nothing =~= bytes::u64_bytes(v64));
    guid::guid_bytes_round_trip(nothing, g, nothing);
    assert(nothing + guid::guid_bytes(g) + nothing =~= guid::guid_bytes(g));
}

} // verus!
