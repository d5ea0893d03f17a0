//! How much of the user data each property takes.
use vstd::prelude::*;

use crate::bytes;
use crate::native::tdh_types;
use crate::native::tdh_types::{
    Property, PropertyCount, PropertyInfo, PropertyLength, TdhInType, TdhOutType,
};
use crate::parser;
use crate::parser::{EventLayout, ParserErrorView, PropertySize, StepView};

verus! {

/// The size of a value, whatever length the schema declares.
pub open spec fn has_size(
    in_type: TdhInType,
    out_type: TdhOutType,
    length: PropertyLength,
    parsed: Seq<Seq<u8>>,
    rest: Seq<u8>,
    pointer_size: usize,
    size: int,
) -> bool {
    parser::next_size(
        PropertyInfo::Value { in_type, out_type, length },
        parsed,
        rest,
        pointer_size,
    ) == Ok::<PropertySize, ParserErrorView>(PropertySize::Known(size as usize)) && 0 <= size
        <= usize::MAX
}

/// Whether an earlier property holds the number `n`: as one, two, four or eight
/// bytes, the least significant one first.
pub open spec fn is_held(parsed: Seq<Seq<u8>>, index: u16, n: int) -> bool {
    &&& index < parsed.len()
    &&& ({
        let len = parsed[index as int].len();
        len == 1 || len == 2 || len == 4 || len == 8
    })
    &&& bytes::little_endian(parsed[index as int]) == n
    &&& n <= usize::MAX
}

/// Whether there are `c` elements: as declared, or as an earlier property says.
pub open spec fn counts(count: PropertyCount, parsed: Seq<Seq<u8>>, c: int) -> bool {
    match count {
        PropertyCount::Count(n) => c == n,
        PropertyCount::Index(index) => is_held(parsed, index, c),
    }
}

proof fn held_numbers_are_read(parsed: Seq<Seq<u8>>, index: u16, n: int)
    requires
        is_held(parsed, index, n),
    ensures
        parser::carrier(parsed, index) == Some(n as usize),
        0 <= n,
{
    tdh_types::carriers_are_little_endian(parsed[index as int]);
    parser::carrier(parsed, index);
}

/// A number without a declared length takes the width of its type, and so does
/// one whose length another property is said to hold. Pointers are as wide as
/// those of the process that logged the event, whatever length is declared.
pub proof fn numbers_take_their_width(
    in_type: TdhInType,
    out_type: TdhOutType,
    length: PropertyLength,
    parsed: Seq<Seq<u8>>,
    rest: Seq<u8>,
    pointer_size: usize,
)
    ensures
        length == PropertyLength::Length(0) || length is Index ==> {
            &&& in_type is InTypeInt8 || in_type is InTypeUInt8 || in_type is InTypeAnsiChar
                ==> has_size(in_type, out_type, length, parsed, rest, pointer_size, 1)
            &&& in_type is InTypeInt16 || in_type is InTypeUInt16 || in_type is InTypeUnicodeChar
                ==> has_size(in_type, out_type, length, parsed, rest, pointer_size, 2)
            &&& in_type is InTypeInt32 || in_type is InTypeUInt32 || in_type is InTypeHexInt32
                || in_type is InTypeFloat || in_type is InTypeBoolean ==> has_size(
                in_type,
                out_type,
                length,
                parsed,
                rest,
                pointer_size,
                4,
            )
            &&& in_type is InTypeInt64 || in_type is InTypeUInt64 || in_type is InTypeHexInt64
                || in_type is InTypeDouble || in_type is InTypeFileTime ==> has_size(
                in_type,
                out_type,
                length,
                parsed,
                rest,
                pointer_size,
                8,
            )
            &&& in_type is InTypeGuid || in_type is InTypeSystemTime ==> has_size(
                in_type,
                out_type,
                length,
                parsed,
                rest,
                pointer_size,
                16,
            )
        },
        in_type is InTypePointer || in_type is InTypeSizeT ==> has_size(
            in_type,
            out_type,
            length,
            parsed,
            rest,
            pointer_size,
            pointer_size as int,
        ),
        in_type is InTypeBinary && out_type is OutTypeIpv6 && length == PropertyLength::Length(0)
            ==> has_size(in_type, out_type, length, parsed, rest, pointer_size, 16),
{
}

/// Whether the bytes of a value of this type begin with what tells their number.
pub open spec fn tells_its_size(in_type: TdhInType) -> bool {
    ||| in_type is InTypeManifestCountedString
    ||| in_type is InTypeManifestCountedAnsiString
    ||| in_type is InTypeManifestCountedBinary
    ||| in_type is InTypeCountedString
    ||| in_type is InTypeCountedAnsiString
    ||| in_type is InTypeReversedCountedString
    ||| in_type is InTypeReversedCountedAnsiString
    ||| in_type is InTypeSid
    ||| in_type is InTypeWbemSid
    ||| in_type is InTypeHexDump
}

/// A declared length counts bytes, for a wide string code units of two bytes; it
/// is ignored only for pointers and for values that tell their size themselves.
pub proof fn declared_lengths_are_taken(
    in_type: TdhInType,
    out_type: TdhOutType,
    length: u16,
    parsed: Seq<Seq<u8>>,
    rest: Seq<u8>,
    pointer_size: usize,
)
    requires
        length > 0,
        !tells_its_size(in_type),
        !(in_type is InTypePointer) && !(in_type is InTypeSizeT),
    ensures
        has_size(
            in_type,
            out_type,
            PropertyLength::Length(length),
            parsed,
            rest,
            pointer_size,
            if in_type is InTypeUnicodeString {
                2 * length
            } else {
                length as int
            },
        ),
{
}

/// A value whose length is held by an earlier property takes that many bytes, a
/// wide string that many code units of two bytes.
pub proof fn held_lengths_are_taken(
    in_type: TdhInType,
    out_type: TdhOutType,
    index: u16,
    n: int,
    parsed: Seq<Seq<u8>>,
    rest: Seq<u8>,
    pointer_size: usize,
)
    requires
        is_held(parsed, index, n),
    ensures
        in_type is InTypeBinary || in_type is InTypeAnsiString || in_type is InTypeNull || in_type
            is InTypeNonNullTerminatedAnsiString || in_type is InTypeNonNullTerminatedString
            ==> has_size(
            in_type,
            out_type,
            PropertyLength::Index(index),
            parsed,
            rest,
            pointer_size,
            n,
        ),
        in_type is InTypeUnicodeString && 2 * n <= usize::MAX ==> has_size(
            in_type,
            out_type,
            PropertyLength::Index(index),
            parsed,
            rest,
            pointer_size,
            2 * n,
        ),
        parser::next_size(
            PropertyInfo::Unsupported { length: PropertyLength::Index(index) },
            parsed,
            rest,
            pointer_size,
        ) == Ok::<PropertySize, ParserErrorView>(PropertySize::Known(n as usize)),
{
    held_numbers_are_read(parsed, index, n);
    let unit = in_type.length_unit();
    if in_type is InTypeUnicodeString {
        assert(n * unit == 2 * n) by (nonlinear_arith)
            requires
                unit == 2,
        ;
    } else {
        assert(n * unit == n) by (nonlinear_arith)
            requires
                unit == 1,
        ;
    }
}

/// In particular, binary data whose length is held by an earlier property of 32
/// bits is as long as the number that was written there says.
pub proof fn binary_data_is_as_long_as_its_size_property(
    layout: EventLayout,
    parsed: Seq<Seq<u8>>,
    index: u16,
    n: u32,
    out_type: TdhOutType,
)
    requires
        parsed.len() < layout.properties.len(),
        layout.start matches Some(s) && s + parser::total_len(parsed) <= layout.data.len(),
        layout.properties[parsed.len() as int].info == (PropertyInfo::Value {
            in_type: TdhInType::InTypeBinary,
            out_type,
            length: PropertyLength::Index(index),
        }),
        index < parsed.len(),
        parsed[index as int] == bytes::u32_bytes(n),
    ensures
        ({
            let from = layout.start->0 + parser::total_len(parsed);
            if from + n <= layout.data.len() {
                layout.step(parsed) matches StepView::Parsed(b) && b == layout.data.subrange(
                    from,
                    from + n,
                )
            } else {
                layout.step(parsed) == StepView::Failed(
                    ParserErrorView::PropertyError("Property length out of buffer bounds"@),
                )
            }
        }),
{
    bytes::written_numbers_are_little_endian(0, n, 0);
    held_lengths_are_taken(
        TdhInType::InTypeBinary,
        out_type,
        index,
        n as int,
        parsed,
        layout.rest(parsed),
        layout.pointer_size,
    );
    let from = layout.start->0 + parser::total_len(parsed);
    if from + n <= layout.data.len() {
        assert(layout.rest(parsed).take(n as int) =~= layout.data.subrange(from, from + n));
    }
}

/// A reference to a property that is not located yet leaves the size to TDH.
pub proof fn forward_references_are_asked_for(
    in_type: TdhInType,
    out_type: TdhOutType,
    length: PropertyLength,
    index: u16,
    members: Vec<Property>,
    parsed: Seq<Seq<u8>>,
    rest: Seq<u8>,
    pointer_size: usize,
)
    requires
        index >= parsed.len(),
    ensures
        in_type is InTypeBinary || in_type is InTypeAnsiString || in_type is InTypeUnicodeString
            ==> parser::next_size(
            PropertyInfo::Value { in_type, out_type, length: PropertyLength::Index(index) },
            parsed,
            rest,
            pointer_size,
        ) == Ok::<PropertySize, ParserErrorView>(PropertySize::AskTdh),
        parser::next_size(
            PropertyInfo::Array { in_type, out_type, length, count: PropertyCount::Index(index) },
            parsed,
            rest,
            pointer_size,
        ) == Ok::<PropertySize, ParserErrorView>(PropertySize::AskTdh),
        parser::next_size(
            PropertyInfo::StructArray { members, count: PropertyCount::Index(index) },
            parsed,
            rest,
            pointer_size,
        ) == Ok::<PropertySize, ParserErrorView>(PropertySize::AskTdh),
{
}

/// Values that tell their size: after a count of 16 bits come that many bytes,
/// with the most significant byte of the count first for the reversed types;
/// after a count of 32 bits come the bytes of a dump; the second byte of an
/// identifier is the number of its parts of four bytes, behind eight bytes.
/// Strings that are neither counted nor terminated take what is left.
pub proof fn counted_values_take_their_count(
    in_type: TdhInType,
    out_type: TdhOutType,
    length: PropertyLength,
    parsed: Seq<Seq<u8>>,
    rest: Seq<u8>,
    pointer_size: usize,
)
    requires
        rest.len() >= 4,
        rest.len() <= usize::MAX,
    ensures
        in_type is InTypeManifestCountedString || in_type is InTypeManifestCountedAnsiString
            || in_type is InTypeManifestCountedBinary || in_type is InTypeCountedString || in_type
            is InTypeCountedAnsiString ==> has_size(
            in_type,
            out_type,
            length,
            parsed,
            rest,
            pointer_size,
            2 + bytes::little_endian(rest.subrange(0, 2)),
        ),
        in_type is InTypeReversedCountedString || in_type is InTypeReversedCountedAnsiString
            ==> has_size(
            in_type,
            out_type,
            length,
            parsed,
            rest,
            pointer_size,
            2 + bytes::big_endian(rest.subrange(0, 2)),
        ),
        in_type is InTypeSid || in_type is InTypeWbemSid ==> has_size(
            in_type,
            out_type,
            length,
            parsed,
            rest,
            pointer_size,
            8 + 4 * rest[1],
        ),
        in_type is InTypeHexDump && 4 + bytes::little_endian(rest.subrange(0, 4)) <= usize::MAX
            ==> has_size(
            in_type,
            out_type,
            length,
            parsed,
            rest,
            pointer_size,
            4 + bytes::little_endian(rest.subrange(0, 4)),
        ),
        (in_type is InTypeNonNullTerminatedString || in_type is InTypeNonNullTerminatedAnsiString)
            && length == PropertyLength::Length(0) ==> has_size(
            in_type,
            out_type,
            length,
            parsed,
            rest,
            pointer_size,
            rest.len() as int,
        ),
{
    bytes::stored_numbers_are_little_endian(rest, 0);
    bytes::big_endian_u16_is_stored(rest, 0);
}

/// A terminated string ends with its first NUL, and needs one.
pub proof fn terminated_strings_end_with_their_nul(
    out_type: TdhOutType,
    parsed: Seq<Seq<u8>>,
    rest: Seq<u8>,
    pointer_size: usize,
    n: int,
)
    requires
        0 <= n,
        rest.len() <= usize::MAX,
    ensures
        n < rest.len() && rest[n] == 0 && (forall|i: int| 0 <= i < n ==> rest[i] != 0) ==> has_size(
            TdhInType::InTypeAnsiString,
            out_type,
            PropertyLength::Length(0),
            parsed,
            rest,
            pointer_size,
            n + 1,
        ),
        2 * n + 1 < rest.len() && rest[2 * n] == 0 && rest[2 * n + 1] == 0 && (forall|i: int|
            0 <= i < n ==> !(#[trigger] rest[2 * i] == 0 && rest[2 * i + 1] == 0)) ==> has_size(
            TdhInType::InTypeUnicodeString,
            out_type,
            PropertyLength::Length(0),
            parsed,
            rest,
            pointer_size,
            2 * n + 2,
        ),
        (forall|i: int| 0 <= i < rest.len() ==> rest[i] != 0) ==> parser::next_size(
            PropertyInfo::Value {
                in_type: TdhInType::InTypeAnsiString,
                out_type,
                length: PropertyLength::Length(0),
            },
            parsed,
            rest,
            pointer_size,
        ) is Err,
{
    if n < rest.len() && rest[n] == 0 && (forall|i: int| 0 <= i < n ==> rest[i] != 0) {
        crate::text::first_index_is(rest, 0u8, n);
    }
    let units = crate::text::units_of(rest);
    if 2 * n + 1 < rest.len() && rest[2 * n] == 0 && rest[2 * n + 1] == 0 && (forall|i: int|
        0 <= i < n ==> !(#[trigger] rest[2 * i] == 0 && rest[2 * i + 1] == 0)) {
        assert(units[n] == 0);
        assert forall|i: int| 0 <= i < n implies units[i] != 0 by {
            assert(!(rest[2 * i] == 0 && rest[2 * i + 1] == 0));
        }
        crate::text::first_index_is(units, 0u16, n);
    }
    if forall|i: int| 0 <= i < rest.len() ==> rest[i] != 0 {
        crate::text::first_index_is(rest, 0u8, rest.len() as int);
    }
}

/// An array takes as many bytes as its elements, a structure as many as its
/// members and an array of structures as many as its structures, whether the
/// number of elements is declared or held by an earlier property.
pub proof fn arrays_take_the_bytes_of_their_elements(
    in_type: TdhInType,
    out_type: TdhOutType,
    length: PropertyLength,
    element: usize,
    count: PropertyCount,
    c: int,
    parsed: Seq<Seq<u8>>,
    rest: Seq<u8>,
    pointer_size: usize,
)
    requires
        counts(count, parsed, c),
        !tells_its_size(in_type) && !(in_type is InTypeBinary && out_type is OutTypeIpv6),
        length matches PropertyLength::Length(l) ==> l > 0 || !(in_type is InTypeAnsiString
            || in_type is InTypeUnicodeString || in_type is InTypeNonNullTerminatedString || in_type
            is InTypeNonNullTerminatedAnsiString),
        has_size(in_type, out_type, length, parsed, rest, pointer_size, element as int),
    ensures
        element * c <= usize::MAX ==> parser::next_size(
            PropertyInfo::Array { in_type, out_type, length, count },
            parsed,
            rest,
            pointer_size,
        ) == Ok::<PropertySize, ParserErrorView>(PropertySize::Known((element * c) as usize)),
        element * c > usize::MAX ==> parser::next_size(
            PropertyInfo::Array { in_type, out_type, length, count },
            parsed,
            rest,
            pointer_size,
        ) == Ok::<PropertySize, ParserErrorView>(PropertySize::AskTdh),
{
    if let PropertyCount::Index(index) = count {
        held_numbers_are_read(parsed, index, c);
    }
    if c == 0 {
        assert(element * c == 0) by (nonlinear_arith)
            requires
                c == 0,
        ;
    }
}

/// The members of a structure add up: one more member adds its own size.
pub proof fn members_add_up(members: Seq<Property>, last: Property, pointer_size: usize)
    ensures
        tdh_types::members_fixed_size(Seq::empty(), pointer_size) == Some(0usize),
        ({
            let before = tdh_types::members_fixed_size(members, pointer_size);
            let own = tdh_types::property_fixed_size(last.info, pointer_size);
            match tdh_types::members_fixed_size(members.push(last), pointer_size) {
                Some(total) => before is Some && own is Some && total == before->0 + own->0,
                None => before is None || own is None || before->0 + own->0 > usize::MAX,
            }
        }),
{
    assert(members.push(last).drop_last() =~= members);
}

/// The size of a description is that of the bytes it describes: what the schema
/// alone tells is what is taken from the event.
pub proof fn structures_take_the_bytes_of_their_members(
    members: Vec<Property>,
    count: PropertyCount,
    c: int,
    size: usize,
    parsed: Seq<Seq<u8>>,
    rest: Seq<u8>,
    pointer_size: usize,
)
    requires
        counts(count, parsed, c),
        tdh_types::members_fixed_size(members@, pointer_size) == Some(size),
    ensures
        parser::next_size(PropertyInfo::Struct { members }, parsed, rest, pointer_size) == Ok::<
            PropertySize,
            ParserErrorView,
        >(PropertySize::Known(size)),
        tdh_types::property_fixed_size(PropertyInfo::Struct { members }, pointer_size) == Some(
            size,
        ),
        size * c <= usize::MAX ==> parser::next_size(
            PropertyInfo::StructArray { members, count },
            parsed,
            rest,
            pointer_size,
        ) == Ok::<PropertySize, ParserErrorView>(PropertySize::Known((size * c) as usize)),
        size * c > usize::MAX ==> parser::next_size(
            PropertyInfo::StructArray { members, count },
            parsed,
            rest,
            pointer_size,
        ) == Ok::<PropertySize, ParserErrorView>(PropertySize::AskTdh),
        count is Count ==> tdh_types::property_fixed_size(
            PropertyInfo::StructArray { members, count },
            pointer_size,
        ) == if size * c <= usize::MAX {
            Some((size * c) as usize)
        } else {
            None
        },
{
    if let PropertyCount::Index(index) = count {
        held_numbers_are_read(parsed, index, c);
    }
}

/// Where the schema alone tells the size of a member, it is the size the member
/// would have as a property, except where the bytes tell their size themselves.
pub proof fn members_are_sized_like_properties(
    info: PropertyInfo,
    parsed: Seq<Seq<u8>>,
    rest: Seq<u8>,
    pointer_size: usize,
)
    requires
        info matches PropertyInfo::Value { in_type, .. } ==> !tells_its_size(in_type),
        info is Value || info is Array || info is Unsupported,
        tdh_types::property_fixed_size(info, pointer_size) is Some,
    ensures
        parser::next_size(info, parsed, rest, pointer_size) == Ok::<PropertySize, ParserErrorView>(
            PropertySize::Known(tdh_types::property_fixed_size(info, pointer_size)->0),
        ),
{
    if let PropertyInfo::Array { count: PropertyCount::Count(c), in_type, length, .. } = info {
        let element = tdh_types::element_size(in_type, length, pointer_size);
        if c == 0 && element is Some {
            assert(element->0 * c == 0) by (nonlinear_arith)
                requires
                    c == 0,
            ;
        }
    }
}

/// What is located next starts right behind what is located already, is as long
/// as its size says and lies within the user data; otherwise nothing is located.
pub proof fn the_next_property_is_located(layout: EventLayout, parsed: Seq<Seq<u8>>)
    ensures
        parsed.len() >= layout.properties.len() ==> layout.step(parsed) == StepView::Failed(
            ParserErrorView::NotFound,
        ),
        parsed.len() < layout.properties.len() && layout.start is None ==> layout.step(parsed)
            == StepView::Failed(
            ParserErrorView::PropertyError(
                "unsupported event layout: inline TraceLogging metadata"@,
            ),
        ),
        parsed.len() < layout.properties.len() && layout.start is Some && layout.start->0
            + parser::total_len(parsed) <= layout.data.len() ==> {
            let from = layout.start->0 + parser::total_len(parsed);
            match parser::next_size(
                layout.properties[parsed.len() as int].info,
                parsed,
                layout.data.skip(from),
                layout.pointer_size,
            ) {
                Ok(PropertySize::Known(n)) => if from + n <= layout.data.len() {
                    layout.step(parsed) matches StepView::Parsed(b) && b == layout.data.subrange(
                        from,
                        from + n,
                    )
                } else {
                    layout.step(parsed) == StepView::Failed(
                        ParserErrorView::PropertyError("Property length out of buffer bounds"@),
                    )
                },
                Ok(PropertySize::AskTdh) => layout.step(parsed) is AskTdh,
                Err(e) => layout.step(parsed) == StepView::Failed(e),
            }
        },
{
    if parsed.len() < layout.properties.len() && layout.start is Some && layout.start->0
        + parser::total_len(parsed) <= layout.data.len() {
        let from = layout.start->0 + parser::total_len(parsed);
        if let Ok(PropertySize::Known(n)) = parser::next_size(
            layout.properties[parsed.len() as int].info,
            parsed,
            layout.data.skip(from),
            layout.pointer_size,
        ) {
            if from + n <= layout.data.len() {
                assert(layout.rest(parsed).take(n as int) =~= layout.data.subrange(from, from + n));
            }
        }
    }
}

/// The number of located bytes is the sum over the located properties.
pub proof fn located_bytes_add_up(parsed: Seq<Seq<u8>>, next: Seq<u8>)
    ensures
        parser::total_len(Seq::empty()) == 0,
        parser::total_len(parsed.push(next)) == parser::total_len(parsed) + next.len(),
{
    assert(parsed.push(next).drop_last() =~= parsed);
}

/// Which sizes the schema alone tells: those of pointers, of declared lengths, of
/// numbers, identifiers and times, and of arrays and structures of these.
pub proof fn sizes_the_schema_tells(
    in_type: TdhInType,
    out_type: TdhOutType,
    length: PropertyLength,
    count: u16,
    pointer_size: usize,
)
    ensures
        ({
            let value = tdh_types::property_fixed_size(
                PropertyInfo::Value { in_type, out_type, length },
                pointer_size,
            );
            &&& in_type is InTypePointer || in_type is InTypeSizeT ==> value == Some(pointer_size)
            &&& !(in_type is InTypePointer || in_type is InTypeSizeT) ==> match length {
                PropertyLength::Length(l) => if l > 0 {
                    value == Some(
                        if in_type is InTypeUnicodeString {
                            (2 * l) as usize
                        } else {
                            l as usize
                        },
                    )
                } else {
                    value is Some <==> {
                        ||| in_type is InTypeInt8
                        ||| in_type is InTypeUInt8
                        ||| in_type is InTypeAnsiChar
                        ||| in_type is InTypeInt16
                        ||| in_type is InTypeUInt16
                        ||| in_type is InTypeUnicodeChar
                        ||| in_type is InTypeInt32
                        ||| in_type is InTypeUInt32
                        ||| in_type is InTypeHexInt32
                        ||| in_type is InTypeFloat
                        ||| in_type is InTypeBoolean
                        ||| in_type is InTypeInt64
                        ||| in_type is InTypeUInt64
                        ||| in_type is InTypeHexInt64
                        ||| in_type is InTypeDouble
                        ||| in_type is InTypeFileTime
                        ||| in_type is InTypeGuid
                        ||| in_type is InTypeSystemTime
                    }
                },
                PropertyLength::Index(_) => value is None,
            }
            &&& value matches Some(n) ==> tdh_types::property_fixed_size(
                PropertyInfo::Array { in_type, out_type, length, count: PropertyCount::Count(count) },
                pointer_size,
            ) == if n * count <= usize::MAX {
                Some((n * count) as usize)
            } else {
                None
            }
        }),
        tdh_types::property_fixed_size(
            PropertyInfo::Unsupported { length: PropertyLength::Length(count) },
            pointer_size,
        ) == if count > 0 {
            Some(count as usize)
        } else {
            None
        },
{
}

/// A property is aligned for elements of two, four or eight bytes if its address
/// is a multiple of that: the address of the user data plus the number of bytes in
/// front of the property.
pub proof fn alignment_follows_from_the_address(
    layout: EventLayout,
    parsed: Seq<Seq<u8>>,
    i: int,
    size: int,
)
    requires
        size == 2 || size == 4 || size == 8,
        0 <= i <= parsed.len(),
    ensures
        layout.misalignment_of(parsed, i) % size == (layout.address + layout.start->0
            + parser::total_len(parsed.take(i))) % size,
{
    let address = layout.address + layout.start->0 + parser::total_len(parsed.take(i));
    assert((address % 8) % 2 == address % 2);
    assert((address % 8) % 4 == address % 4);
}

} // verus!
