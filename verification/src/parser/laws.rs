//! What holds of every walk over an event.
use vstd::prelude::*;

use crate::bytes;
use crate::native::etw_types::event_record::EventRecord;
use crate::native::tdh::TdhNativeResult;
use crate::native::tdh_types::Property;
use crate::parser;
use crate::parser::{EventLayout, LookupView, ParserErrorView, ParserResult, StepView};
use crate::schema::Schema;

verus! {

/// Looking up a name never changes the properties that are located already.
pub proof fn lookups_keep_what_is_located(
    layout: EventLayout,
    parsed: Seq<Seq<u8>>,
    name: Seq<char>,
)
    ensures
        ({
            let after = layout.lookup(parsed, name).0;
            after.len() >= parsed.len() && after.take(parsed.len() as int) == parsed
        }),
{
    walks_keep_what_is_located(layout, parsed, name);
    assert(parsed.take(parsed.len() as int) =~= parsed);
}

proof fn walks_keep_what_is_located(layout: EventLayout, parsed: Seq<Seq<u8>>, name: Seq<char>)
    ensures
        ({
            let after = layout.walk_to_name(parsed, name).0;
            after.len() >= parsed.len() && after.take(parsed.len() as int) == parsed
        }),
    decreases layout.properties.len() - parsed.len(),
{
    assert(parsed.take(parsed.len() as int) =~= parsed);
    match layout.step(parsed) {
        StepView::Parsed(b) => {
            let next = parsed.push(b);
            assert(next.take(parsed.len() as int) =~= parsed);
            if layout.properties[parsed.len() as int].name@ != name {
                walks_keep_what_is_located(layout, next, name);
                let after = layout.walk_to_name(next, name).0;
                assert(after.take(parsed.len() as int) =~= after.take(next.len() as int).take(
                    parsed.len() as int,
                ));
            }
        },
        _ => {},
    }
}

/// Locating a property by its index never changes the properties that are
/// located already.
pub proof fn index_lookups_keep_what_is_located(
    layout: EventLayout,
    parsed: Seq<Seq<u8>>,
    index: int,
)
    ensures
        ({
            let after = layout.walk_to_index(parsed, index).0;
            after.len() >= parsed.len() && after.take(parsed.len() as int) == parsed
        }),
    decreases layout.properties.len() - parsed.len(),
{
    assert(parsed.take(parsed.len() as int) =~= parsed);
    if index >= parsed.len() {
        match layout.step(parsed) {
            StepView::Parsed(b) => {
                let next = parsed.push(b);
                index_lookups_keep_what_is_located(layout, next, index);
                let after = layout.walk_to_index(next, index).0;
                assert(next.take(parsed.len() as int) =~= parsed);
                assert(after.take(parsed.len() as int) =~= after.take(next.len() as int).take(
                    parsed.len() as int,
                ));
            },
            _ => {},
        }
    }
}

/// A lookup that succeeds yields the first property of that name in the whole
/// schema, and only a name that no property has is reported as not found.
pub proof fn lookups_find_the_first_of_a_name(
    layout: EventLayout,
    parsed: Seq<Seq<u8>>,
    name: Seq<char>,
)
    requires
        parsed.len() <= layout.properties.len(),
    ensures
        match layout.lookup(parsed, name).1 {
            LookupView::Found(i) => parser::first_named(
                layout.properties,
                name,
                layout.properties.len() as int,
            ) == Some(i),
            LookupView::Failed(ParserErrorView::NotFound) => parser::first_named(
                layout.properties,
                name,
                layout.properties.len() as int,
            ) is None,
            _ => true,
        },
{
    let n = parsed.len() as int;
    if parser::first_named(layout.properties, name, n) is None {
        walks_find_the_first_of_a_name(layout, parsed, name);
    } else {
        first_named_is_stable(layout.properties, name, n, layout.properties.len() as int);
    }
}

/// The first of a name among some properties is the first among all of them.
proof fn first_named_is_stable(properties: Seq<Property>, name: Seq<char>, n: int, m: int)
    requires
        n <= m,
        parser::first_named(properties, name, n) is Some,
    ensures
        parser::first_named(properties, name, m) == parser::first_named(properties, name, n),
    decreases m - n,
{
    if n < m {
        first_named_is_stable(properties, name, n, m - 1);
    }
}

proof fn walks_find_the_first_of_a_name(
    layout: EventLayout,
    parsed: Seq<Seq<u8>>,
    name: Seq<char>,
)
    requires
        parsed.len() <= layout.properties.len(),
        parser::first_named(layout.properties, name, parsed.len() as int) is None,
    ensures
        match layout.walk_to_name(parsed, name).1 {
            LookupView::Found(i) => parser::first_named(
                layout.properties,
                name,
                layout.properties.len() as int,
            ) == Some(i),
            LookupView::Failed(ParserErrorView::NotFound) => parser::first_named(
                layout.properties,
                name,
                layout.properties.len() as int,
            ) is None,
            _ => true,
        },
    decreases layout.properties.len() - parsed.len(),
{
    match layout.step(parsed) {
        StepView::Parsed(b) => {
            let k = parsed.len() as int;
            if layout.properties[k].name@ == name {
                assert(parser::first_named(layout.properties, name, k + 1) == Some(k));
                first_named_is_stable(
                    layout.properties,
                    name,
                    k + 1,
                    layout.properties.len() as int,
                );
            } else {
                walks_find_the_first_of_a_name(layout, parsed.push(b), name);
            }
        },
        _ => {},
    }
}

/// The bytes of a property do not depend on which properties were looked up and
/// in which order: two walks over the same event agree on every property that
/// both located, as long as TDH told them the same sizes where they had to ask.
pub proof fn located_bytes_do_not_depend_on_the_order(
    layout: EventLayout,
    a: Seq<Seq<u8>>,
    b: Seq<Seq<u8>>,
    n: int,
)
    requires
        layout.holds(a),
        layout.holds(b),
        0 <= n <= a.len(),
        n <= b.len(),
        forall|k: int|
            0 <= k < n && layout.step(a.take(k)) is AskTdh ==> (#[trigger] a[k]).len()
                == b[k].len(),
    ensures
        a.take(n) == b.take(n),
    decreases n,
{
    if n > 0 {
        let k = n - 1;
        located_bytes_do_not_depend_on_the_order(layout, a, b, k);
        assert(a.take(k) == b.take(k));
        assert(a[k] == b[k]);
        assert(a.take(n) =~= a.take(k).push(a[k]));
        assert(b.take(n) =~= b.take(k).push(b[k]));
    } else {
        assert(a.take(n) =~= b.take(n));
    }
}

/// The located properties fill the user data from the start of the values on,
/// without gap or overlap.
pub proof fn located_properties_are_consecutive(layout: EventLayout, parsed: Seq<Seq<u8>>)
    requires
        layout.holds(parsed),
        layout.start is Some,
    ensures
        concatenation(parsed) == layout.data.subrange(
            layout.start->0 as int,
            layout.start->0 + parser::total_len(parsed),
        ),
{
    prefix_is_consecutive(layout, parsed, parsed.len() as int);
    assert(parsed.take(parsed.len() as int) =~= parsed);
}

/// The bytes of `parsed`, one after the other.
pub open spec fn concatenation(parsed: Seq<Seq<u8>>) -> Seq<u8>
    decreases parsed.len(),
{
    if parsed.len() == 0 {
        Seq::empty()
    } else {
        concatenation(parsed.drop_last()) + parsed.last()
    }
}

proof fn total_len_of_prefix(parsed: Seq<Seq<u8>>, n: int)
    requires
        0 <= n <= parsed.len(),
    ensures
        parser::total_len(parsed.take(n)) <= parser::total_len(parsed),
    decreases parsed.len(),
{
    if n < parsed.len() {
        assert(parsed.take(n) =~= parsed.drop_last().take(n));
        total_len_of_prefix(parsed.drop_last(), n);
    } else {
        assert(parsed.take(n) =~= parsed);
    }
}

proof fn prefix_is_consecutive(layout: EventLayout, parsed: Seq<Seq<u8>>, n: int)
    requires
        layout.is_consecutive(parsed),
        layout.start is Some,
        0 <= n <= parsed.len(),
    ensures
        concatenation(parsed.take(n)) == layout.data.subrange(
            layout.start->0 as int,
            layout.start->0 + parser::total_len(parsed.take(n)),
        ),
    decreases n,
{
    let prefix = parsed.take(n);
    total_len_of_prefix(parsed, n);
    if n > 0 {
        prefix_is_consecutive(layout, parsed, n - 1);
        assert(prefix.drop_last() =~= parsed.take(n - 1));
        assert(prefix.last() == parsed[n - 1]);
        assert(concatenation(prefix) =~= layout.data.subrange(
            layout.start->0 as int,
            layout.start->0 + parser::total_len(prefix),
        ));
    } else {
        assert(concatenation(prefix) =~= layout.data.subrange(
            layout.start->0 as int,
            layout.start->0 + parser::total_len(prefix),
        ));
    }
}

/// The first property of a name has this name, and none before it has. There is
/// none exactly if no property has the name.
pub proof fn the_first_of_a_name_is_the_first(properties: Seq<Property>, name: Seq<char>, n: int)
    ensures
        match parser::first_named(properties, name, n) {
            Some(i) => {
                &&& 0 <= i < n
                &&& properties[i].name@ == name
                &&& forall|j: int| 0 <= j < i ==> (#[trigger] properties[j]).name@ != name
            },
            None => forall|j: int| 0 <= j < n ==> (#[trigger] properties[j]).name@ != name,
        },
    decreases n,
{
    if n > 0 {
        the_first_of_a_name_is_the_first(properties, name, n - 1);
    }
}

/// A lookup by name that succeeds has located the property: it has the name, none
/// before it has, and its bytes are among those that are located then.
pub proof fn found_properties_have_the_name(
    layout: EventLayout,
    parsed: Seq<Seq<u8>>,
    name: Seq<char>,
)
    requires
        parsed.len() <= layout.properties.len(),
    ensures
        layout.lookup(parsed, name).1 matches LookupView::Found(i) ==> {
            &&& 0 <= i < layout.lookup(parsed, name).0.len()
            &&& i < layout.properties.len()
            &&& layout.properties[i].name@ == name
            &&& forall|j: int| 0 <= j < i ==> (#[trigger] layout.properties[j]).name@ != name
        },
{
    lookups_find_the_first_of_a_name(layout, parsed, name);
    the_first_of_a_name_is_the_first(layout.properties, name, layout.properties.len() as int);
    the_first_of_a_name_is_the_first(layout.properties, name, parsed.len() as int);
    found_by_walking(layout, parsed, name);
}

proof fn found_by_walking(layout: EventLayout, parsed: Seq<Seq<u8>>, name: Seq<char>)
    ensures
        layout.walk_to_name(parsed, name).1 matches LookupView::Found(i) ==> i
            < layout.walk_to_name(parsed, name).0.len(),
    decreases layout.properties.len() - parsed.len(),
{
    match layout.step(parsed) {
        StepView::Parsed(b) => {
            if layout.properties[parsed.len() as int].name@ != name {
                found_by_walking(layout, parsed.push(b), name);
            }
        },
        _ => {},
    }
}

/// A lookup by index that succeeds has located this property. Where TDH is to be
/// asked, it is for the property behind those that are located.
pub proof fn found_properties_have_the_index(
    layout: EventLayout,
    parsed: Seq<Seq<u8>>,
    index: int,
)
    requires
        0 <= index,
    ensures
        match layout.walk_to_index(parsed, index).1 {
            LookupView::Found(i) => i == index && index < layout.walk_to_index(parsed, index).0.len(),
            LookupView::AskTdh(i) => i == layout.walk_to_index(parsed, index).0.len() && i <= index,
            LookupView::Failed(_) => layout.walk_to_index(parsed, index).0.len() <= index,
        },
        index < parsed.len() ==> layout.walk_to_index(parsed, index).0 == parsed,
    decreases layout.properties.len() - parsed.len(),
{
    if index >= parsed.len() {
        match layout.step(parsed) {
            StepView::Parsed(b) => {
                found_properties_have_the_index(layout, parsed.push(b), index);
            },
            _ => {},
        }
    }
}

/// The size TDH tells is the number of bytes that the next property takes: those
/// right behind the located ones, if there are that many. A failure of TDH is
/// passed on, and answers nobody asked for are ignored.
pub proof fn sizes_that_tdh_tells_are_taken(
    layout: EventLayout,
    before: Seq<Seq<u8>>,
    answer: TdhNativeResult<u32>,
    after: Seq<Seq<u8>>,
    r: ParserResult<()>,
)
    requires
        parser::supplied(layout, before, answer, after, r),
        layout.start is Some,
        layout.start->0 + parser::total_len(before) <= layout.data.len(),
    ensures
        layout.step(before) !is AskTdh ==> after == before && r is Ok,
        layout.step(before) is AskTdh ==> match answer {
            Err(e) => after == before && (r matches Err(x) && x@ == ParserErrorView::TdhNativeError(
                e,
            )),
            Ok(size) => {
                let at = layout.start->0 + parser::total_len(before);
                if at + size <= layout.data.len() {
                    &&& r is Ok
                    &&& after.len() == before.len() + 1
                    &&& after.take(before.len() as int) == before
                    &&& after[before.len() as int] == layout.data.subrange(at, at + size)
                } else {
                    after == before && r is Err
                }
            },
        },
{
    if let Ok(size) = answer {
        let at = layout.start->0 + parser::total_len(before);
        if at + size <= layout.data.len() {
            assert(layout.rest(before).take(size as int) =~= layout.data.subrange(at, at + size));
            if layout.step(before) is AskTdh {
                assert(after.take(before.len() as int) =~= before);
            }
        }
    }
}

/// What an event is located by: the properties of its schema, its own data, from
/// the first byte on, and the width of the pointers of its process. Only events
/// that describe themselves without extended data to do so have no start.
pub proof fn events_are_located_by_their_own_data(record: EventRecord, schema: Schema)
    requires
        schema.bytes().len() >= 52,
    ensures
        ({
            let layout = parser::layout_of(record, schema);
            let source = bytes::little_endian(schema.bytes().subrange(48, 52));
            let described = exists|i: int|
                0 <= i < record.extended_data@.len() && ((#[trigger] record.extended_data@[i]).ext_type
                    == 11 || record.extended_data@[i].ext_type == 12);
            &&& layout.properties == schema.props()
            &&& layout.data == record.user_data@
            &&& layout.address == record.user_data_address
            &&& source == 3 && !described ==> layout.start is None
            &&& source != 3 || described ==> layout.start == Some(0usize)
        }),
{
    bytes::stored_numbers_are_little_endian(schema.bytes(), 48);
    let items = record.extended_data@;
    if exists|i: int|
        0 <= i < items.len() && ((#[trigger] items[i]).ext_type == 11 || items[i].ext_type == 12) {
        let i = choose|i: int|
            0 <= i < items.len() && ((#[trigger] items[i]).ext_type == 11 || items[i].ext_type
                == 12);
        assert(parser::is_schema_item(record.extended_data@[i].ext_type));
        assert(parser::has_schema_item(record));
    }
}

} // verus!
