//! What is written for a property that may hold structures.
use vstd::prelude::*;

use crate::native::tdh_types;
use crate::native::tdh_types::{Property, PropertyCount, PropertyInfo};
use crate::parser;
use crate::parser::{EventLayout, Parser, ParserErrorView, ParserResult};
use crate::ser::property;
use crate::ser::property::PropSerable;
use crate::ser::value;
use crate::ser::value::{SerValue, SerView};

verus! {

/// The number of structures in an array: a constant, or the value of the
/// top-level property it refers to, provided that this one can be located.
pub open spec fn struct_count(
    count: PropertyCount,
    layout: EventLayout,
    parsed: Seq<Seq<u8>>,
) -> Option<usize> {
    match count {
        PropertyCount::Count(c) => Some(c as usize),
        PropertyCount::Index(i) => if i < layout.properties.len() && i < parsed.len() {
            tdh_types::index_value(parsed[i as int])
        } else {
            None
        },
    }
}

/// What was written of a structure so far.
pub struct StructState {
    /// Names and values of the members that were written
    pub entries: Seq<(Seq<char>, SerView)>,
    /// Where the next member starts
    pub offset: int,
    /// Whether a member was met that does not fit
    pub full: bool,
}

/// How far apart the structures of an array are.
pub open spec fn stride(len: nat, count: usize) -> nat {
    if count == 0 {
        0
    } else {
        len / (count as nat)
    }
}

/// What is written for a property, whose bytes lie that far behind a multiple of
/// the largest alignment; nothing when writing it is not implemented.
pub open spec fn property_view(
    info: PropertyInfo,
    buffer: Seq<u8>,
    misalignment: int,
    layout: EventLayout,
    parsed: Seq<Seq<u8>>,
) -> Result<Option<SerView>, ParserErrorView>
    decreases info, 0nat,
{
    match info {
        PropertyInfo::Struct { members } => match struct_after(
            members@,
            buffer,
            misalignment,
            layout,
            parsed,
        ) {
            Ok(s) => Ok(Some(SerView::Object(s.entries))),
            Err(e) => Err(e),
        },
        PropertyInfo::StructArray { members, count } => {
            let n = match struct_count(count, layout, parsed) {
                Some(c) => c,
                None => 0,
            };
            match list_after(
                members@,
                buffer,
                misalignment,
                stride(buffer.len(), n),
                n as nat,
                layout,
                parsed,
            ) {
                Ok(elements) => Ok(Some(SerView::List(elements))),
                Err(e) => Err(e),
            }
        },
        _ => match property::handler_of(info) {
            None => Ok(None),
            Some(h) => match property::leaf_view(
                h,
                info,
                buffer,
                misalignment,
                layout.pointer_size,
            ) {
                Ok(v) => Ok(Some(v)),
                Err(e) => Err(e),
            },
        },
    }
}

/// What is written of a structure. Members whose size the schema does not tell
/// are skipped; the first member that does not fit ends the structure.
pub open spec fn struct_after(
    members: Seq<Property>,
    data: Seq<u8>,
    misalignment: int,
    layout: EventLayout,
    parsed: Seq<Seq<u8>>,
) -> Result<StructState, ParserErrorView>
    decreases members, 0nat,
{
    if members.len() == 0 {
        Ok(StructState { entries: Seq::empty(), offset: 0, full: false })
    } else {
        let last = members.last();
        match struct_after(members.drop_last(), data, misalignment, layout, parsed) {
            Err(e) => Err(e),
            Ok(s) => if s.full {
                Ok(s)
            } else {
                match tdh_types::property_fixed_size(last.info, layout.pointer_size) {
                    None => Ok(s),
                    Some(size) => if s.offset + size > data.len() {
                        Ok(StructState { full: true, ..s })
                    } else {
                        match property_view(
                            last.info,
                            data.subrange(s.offset, s.offset + size),
                            parser::misaligned(misalignment, s.offset),
                            layout,
                            parsed,
                        ) {
                            Err(e) => Err(e),
                            Ok(None) => Ok(StructState { offset: s.offset + size, ..s }),
                            Ok(Some(v)) => Ok(
                                StructState {
                                    entries: s.entries.push((last.name@, v)),
                                    offset: s.offset + size,
                                    full: false,
                                },
                            ),
                        }
                    },
                }
            },
        }
    }
}

/// What is written for the first `n` structures of an array.
pub open spec fn list_after(
    members: Seq<Property>,
    data: Seq<u8>,
    misalignment: int,
    step: nat,
    n: nat,
    layout: EventLayout,
    parsed: Seq<Seq<u8>>,
) -> Result<Seq<SerView>, ParserErrorView>
    decreases members, n + 1,
{
    if n == 0 {
        Ok(Seq::empty())
    } else {
        match list_after(members, data, misalignment, step, (n - 1) as nat, layout, parsed) {
            Err(e) => Err(e),
            Ok(before) => match struct_after(
                members,
                data.subrange((n - 1) * step, (n * step) as int),
                parser::misaligned(misalignment, (n - 1) * step),
                layout,
                parsed,
            ) {
                Err(e) => Err(e),
                Ok(s) => Ok(before.push(SerView::Object(s.entries))),
            },
        }
    }
}

/// A structure that failed, or is full, stays as it is.
proof fn struct_stays(
    members: Seq<Property>,
    n: int,
    data: Seq<u8>,
    misalignment: int,
    layout: EventLayout,
    parsed: Seq<Seq<u8>>,
)
    requires
        0 <= n <= members.len(),
        match struct_after(members.take(n), data, misalignment, layout, parsed) {
            Err(_) => true,
            Ok(s) => s.full,
        },
    ensures
        struct_after(members, data, misalignment, layout, parsed) == struct_after(
            members.take(n),
            data,
            misalignment,
            layout,
            parsed,
        ),
    decreases members.len() - n,
{
    if n < members.len() {
        assert(members.take(n + 1).drop_last() =~= members.take(n));
        struct_stays(members, n + 1, data, misalignment, layout, parsed);
    } else {
        assert(members.take(n) =~= members);
    }
}

/// A list that failed stays failed.
proof fn list_stays(
    members: Seq<Property>,
    data: Seq<u8>,
    misalignment: int,
    step: nat,
    n: nat,
    count: nat,
    layout: EventLayout,
    parsed: Seq<Seq<u8>>,
)
    requires
        n <= count,
        list_after(members, data, misalignment, step, n, layout, parsed) is Err,
    ensures
        list_after(members, data, misalignment, step, count, layout, parsed) == list_after(
            members,
            data,
            misalignment,
            step,
            n,
            layout,
            parsed,
        ),
    decreases count - n,
{
    if n < count {
        list_stays(members, data, misalignment, step, n + 1, count, layout, parsed);
    }
}

proof fn elements_fit(len: nat, count: nat, step: nat, i: nat)
    by (nonlinear_arith)
    requires
        count > 0,
        step == len / count,
        i < count,
    ensures
        i * step <= len,
        (i + 1) * step == i * step + step,
        (i + 1) * step <= len,
{
}

/// Resolves the number of structures in an array.
pub fn resolve_struct_count<'schema, 'record>(
    count: PropertyCount,
    parser: &Parser<'schema, 'record>,
) -> (r: Option<usize>)
    ensures
        r == struct_count(count, parser.layout(), parser.parsed()),
{
    match count {
        PropertyCount::Count(c) => Some(c as usize),
        PropertyCount::Index(i) => {
            let index: usize = i as usize;
            if index < parser.top_level_properties().len() && index < parser.located_count() {
                tdh_types::index_value_from_bytes(parser.located_bytes(index))
            } else {
                None
            }
        },
    }
}

/// What is written for a structure.
fn ser_struct<'schema, 'record>(
    members: &'schema Vec<Property>,
    data: &'record [u8],
    misalignment: usize,
    parser: &Parser<'schema, 'record>,
) -> (r: ParserResult<SerValue>)
    ensures
        property::is_value(
            r,
            match struct_after(
                members@,
                data@,
                misalignment as int,
                parser.layout(),
                parser.parsed(),
            ) {
                Ok(s) => Ok(SerView::Object(s.entries)),
                Err(e) => Err(e),
            },
        ),
    decreases members@, 0nat,
{
    let ghost layout = parser.layout();
    let ghost parsed = parser.parsed();
    let mut entries: Vec<(String, SerValue)> = Vec::new();
    let mut offset: usize = 0;
    let mut i: usize = 0;
    while i < members.len()
        invariant
            i <= members@.len(),
            layout == parser.layout(),
            parsed == parser.parsed(),
            offset <= data@.len(),
            struct_after(members@.take(i as int), data@, misalignment as int, layout, parsed) == Ok::<
                StructState,
                ParserErrorView,
            >(
                StructState {
                    entries: value::entries_view(entries@),
                    offset: offset as int,
                    full: false,
                },
            ),
        decreases members.len() - i,
    {
        let ghost now = members@.take(i + 1);
        assert(now.drop_last() =~= members@.take(i as int));
        assert(now.last() == members@[i as int]);
        let member = &members[i];
        match member.fixed_size(parser.pointer_size()) {
            None => {},
            Some(size) => {
                if size > data.len() - offset {
                    proof {
                        struct_stays(members@, i + 1, data@, misalignment as int, layout, parsed);
                    }
                    return Ok(SerValue::Object(entries));
                }
                let piece = vstd::slice::slice_subrange(data, offset, offset + size);
                let shifted: usize = parser::misalignment_at(misalignment, offset);
                match ser_property(member, piece, shifted, parser) {
                    Err(e) => {
                        proof {
                            struct_stays(members@, i + 1, data@, misalignment as int, layout, parsed);
                        }
                        return Err(e);
                    },
                    Ok(None) => {},
                    Ok(Some(v)) => {
                        value::push_entry(&mut entries, member.name.as_str(), v);
                    },
                }
                offset = offset + size;
            },
        }
        i += 1;
    }
    assert(members@.take(i as int) =~= members@);
    Ok(SerValue::Object(entries))
}

/// What is written for an array of structures.
fn ser_struct_array<'schema, 'record>(
    members: &'schema Vec<Property>,
    count: usize,
    data: &'record [u8],
    misalignment: usize,
    parser: &Parser<'schema, 'record>,
) -> (r: ParserResult<SerValue>)
    ensures
        property::is_value(
            r,
            match list_after(
                members@,
                data@,
                misalignment as int,
                stride(data@.len(), count),
                count as nat,
                parser.layout(),
                parser.parsed(),
            ) {
                Ok(elements) => Ok(SerView::List(elements)),
                Err(e) => Err(e),
            },
        ),
    decreases members@, 1nat,
{
    let ghost layout = parser.layout();
    let ghost parsed = parser.parsed();
    let step: usize = if count == 0 {
        0
    } else {
        data.len() / count
    };
    let mut elements: Vec<SerValue> = Vec::new();
    let mut start: usize = 0;
    let mut i: usize = 0;
    while i < count
        invariant
            i <= count,
            layout == parser.layout(),
            parsed == parser.parsed(),
            step == stride(data@.len(), count),
            start == i * step,
            list_after(members@, data@, misalignment as int, step as nat, i as nat, layout, parsed) == Ok::<
                Seq<SerView>,
                ParserErrorView,
            >(value::list_view(elements@)),
        decreases count - i,
    {
        proof {
            elements_fit(data@.len(), count as nat, step as nat, i as nat);
        }
        assert(start + step <= data.len());
        let piece = vstd::slice::slice_subrange(data, start, start + step);
        assert(piece@ =~= data@.subrange(i * step, (i + 1) * step));
        let shifted: usize = parser::misalignment_at(misalignment, start);
        match ser_struct(members, piece, shifted, parser) {
            Err(e) => {
                proof {
                    list_stays(
                        members@,
                        data@,
                        misalignment as int,
                        step as nat,
                        (i + 1) as nat,
                        count as nat,
                        layout,
                        parsed,
                    );
                }
                return Err(e);
            },
            Ok(v) => {
                proof {
                    value::pushed_value(elements@, v);
                }
                elements.push(v);
            },
        }
        start = start + step;
        i += 1;
    }
    Ok(SerValue::List(elements))
}

/// What is written for a property, or for a member of a structure, given its
/// bytes and how far they lie behind a multiple of the largest alignment. Nothing
/// is written when that is not implemented.
pub fn ser_property<'schema, 'record>(
    prop: &'schema Property,
    buffer: &'record [u8],
    misalignment: usize,
    parser: &Parser<'schema, 'record>,
) -> (r: ParserResult<Option<SerValue>>)
    ensures
        ({
            let expected = property_view(
                prop.info,
                buffer@,
                misalignment as int,
                parser.layout(),
                parser.parsed(),
            );
            match r {
                Ok(None) => expected == Ok::<Option<SerView>, ParserErrorView>(None),
                Ok(Some(v)) => expected == Ok::<Option<SerView>, ParserErrorView>(Some(v.view())),
                Err(e) => expected == Err::<Option<SerView>, ParserErrorView>(e@),
            }
        }),
    decreases prop.info, 2nat,
{
    match &prop.info {
        PropertyInfo::Struct { members } => match ser_struct(members, buffer, misalignment, parser) {
            Ok(v) => Ok(Some(v)),
            Err(e) => Err(e),
        },
        PropertyInfo::StructArray { members, count } => {
            let n: usize = match resolve_struct_count(*count, parser) {
                Some(c) => c,
                None => 0,
            };
            match ser_struct_array(members, n, buffer, misalignment, parser) {
                Ok(v) => Ok(Some(v)),
                Err(e) => Err(e),
            }
        },
        _ => match prop.get_parser() {
            None => Ok(None),
            Some(s) => match s.0.ser_from_bytes(parser, prop, buffer, misalignment) {
                Ok(v) => Ok(Some(v)),
                Err(e) => Err(e),
            },
        },
    }
}

} // verus!
