//! Serialization of events: what is written for each event, and when an event
//! cannot be written.
use vstd::prelude::*;

use crate::native::etw_types::event_record::EventRecord;
use crate::native::tdh::TdhNativeResult;
use crate::native::tdh_types::{Property, PropertyInfo};
use crate::parser;
use crate::parser::{
    EventLayout, Lookup, LookupView, Parser, ParserError, ParserErrorView,
};
use crate::schema::Schema;

pub mod property;
pub mod record;
pub mod structure;
pub mod value;
pub mod written;

use property::PropSerable;
use value::{SerValue, SerView};

verus! {

/// What is written of an event
#[derive(Debug, Clone, Copy, PartialEq, Eq, Structural)]
pub struct EventSerializerOptions {
    /// Writes information from the schema, such as the provider, opcode and task
    /// names
    pub include_schema: bool,
    /// Writes the event header
    pub include_header: bool,
    /// Writes the extended data items, as an `Extended` list of
    /// `{"Type", "Data"}` entries
    pub include_extended_data: bool,
    /// When `true` what cannot be written is an error, otherwise it is skipped
    pub fail_unimplemented: bool,
}

impl Default for EventSerializerOptions {
    fn default() -> (r: Self)
        ensures
            r.include_schema,
            r.include_header,
            !r.include_extended_data,
            !r.fail_unimplemented,
    {
        EventSerializerOptions {
            include_schema: true,
            include_header: true,
            include_extended_data: false,
            fail_unimplemented: false,
        }
    }
}

/// Why an event cannot be written
#[derive(Debug)]
pub enum SerError {
    /// Writing the property with this name is not implemented
    NotImplemented(String),
    /// Writing extended data of this type is not implemented
    NotImplementedExtendedData(u16),
    /// A property cannot be located or decoded
    Parser(ParserError),
}

/// What a [`SerError`] says.
pub enum SerErrorView {
    NotImplemented(Seq<char>),
    NotImplementedExtendedData(u16),
    Parser(ParserErrorView),
}

impl View for SerError {
    type V = SerErrorView;

    open spec fn view(&self) -> SerErrorView {
        match self {
            SerError::NotImplemented(name) => SerErrorView::NotImplemented(name@),
            SerError::NotImplementedExtendedData(t) => SerErrorView::NotImplementedExtendedData(*t),
            SerError::Parser(e) => SerErrorView::Parser(e@),
        }
    }
}

/// The first of the first `n` properties that is not implemented.
pub open spec fn first_unimplemented(properties: Seq<Property>, n: int) -> Option<int>
    decreases n,
{
    if n <= 0 {
        None
    } else {
        match first_unimplemented(properties, n - 1) {
            Some(i) => Some(i),
            None => if property::handler_of(properties[n - 1].info) is None {
                Some(n - 1)
            } else {
                None
            },
        }
    }
}

/// What is written for the first `n` properties, in schema order, each under its
/// name. `stop` is why the properties behind the located ones could not be
/// located.
pub open spec fn event_entries(
    layout: EventLayout,
    parsed: Seq<Seq<u8>>,
    stop: Option<ParserErrorView>,
    n: int,
) -> Result<Seq<(Seq<char>, SerView)>, ParserErrorView>
    decreases n,
{
    if n <= 0 {
        Ok(Seq::empty())
    } else {
        match event_entries(layout, parsed, stop, n - 1) {
            Err(e) => Err(e),
            Ok(before) => if n > parsed.len() {
                Err(
                    match stop {
                        Some(e) => e,
                        None => ParserErrorView::NotFound,
                    },
                )
            } else {
                match structure::property_view(
                    layout.properties[n - 1].info,
                    parsed[n - 1],
                    layout.misalignment_of(parsed, n - 1),
                    layout,
                    parsed,
                ) {
                    Err(e) => Err(e),
                    Ok(None) => Ok(before),
                    Ok(Some(v)) => Ok(before.push((layout.properties[n - 1].name@, v))),
                }
            },
        }
    }
}

/// What is written for the properties of an event.
pub open spec fn event_view(
    layout: EventLayout,
    parsed: Seq<Seq<u8>>,
    stop: Option<ParserErrorView>,
    fail_unimplemented: bool,
) -> Result<SerView, SerErrorView> {
    let n = layout.properties.len() as int;
    match first_unimplemented(layout.properties, n) {
        Some(i) if fail_unimplemented => Err(
            SerErrorView::NotImplemented(layout.properties[i].name@),
        ),
        _ => match event_entries(layout, parsed, stop, n) {
            Ok(entries) => Ok(SerView::Object(entries)),
            Err(e) => Err(SerErrorView::Parser(e)),
        },
    }
}

/// `entries` with one more, if it is wanted.
pub open spec fn with_entry(
    entries: Seq<(Seq<char>, SerView)>,
    wanted: bool,
    name: Seq<char>,
    v: SerView,
) -> Seq<(Seq<char>, SerView)> {
    if wanted {
        entries.push((name, v))
    } else {
        entries
    }
}

/// What is written for an event.
pub open spec fn record_view(
    record: EventRecord,
    schema: Schema,
    options: EventSerializerOptions,
    parsed: Seq<Seq<u8>>,
    stop: Option<ParserErrorView>,
) -> Result<SerView, SerErrorView> {
    let head = with_entry(
        with_entry(
            Seq::empty(),
            options.include_schema,
            "Schema"@,
            record::schema_view(schema),
        ),
        options.include_header,
        "Header"@,
        record::header_view(record.header),
    );
    let extended = if options.include_extended_data {
        record::extended_list(record.extended_data@, options.fail_unimplemented)
    } else {
        Ok(Seq::empty())
    };
    match extended {
        Err(t) => Err(SerErrorView::NotImplementedExtendedData(t)),
        Ok(items) => match event_view(
            parser::layout_of(record, schema),
            parsed,
            stop,
            options.fail_unimplemented,
        ) {
            Err(e) => Err(e),
            Ok(event) => Ok(
                SerView::Object(
                    with_entry(
                        head,
                        options.include_extended_data,
                        "Extended"@,
                        SerView::List(items),
                    ).push(("Event"@, event)),
                ),
            ),
        },
    }
}

proof fn unimplemented_stays(properties: Seq<Property>, n: int, m: int)
    requires
        n <= m,
        first_unimplemented(properties, n) is Some,
    ensures
        first_unimplemented(properties, m) == first_unimplemented(properties, n),
    decreases m - n,
{
    if n < m {
        unimplemented_stays(properties, n + 1, m);
    }
}

proof fn event_error_stays(
    layout: EventLayout,
    parsed: Seq<Seq<u8>>,
    stop: Option<ParserErrorView>,
    n: int,
    m: int,
)
    requires
        0 <= n <= m,
        event_entries(layout, parsed, stop, n) is Err,
    ensures
        event_entries(layout, parsed, stop, m) == event_entries(layout, parsed, stop, n),
    decreases m - n,
{
    if n < m {
        event_error_stays(layout, parsed, stop, n + 1, m);
    }
}

/// When writing every property is implemented, each is written once, in schema
/// order and under its own name, with the value of its own bytes, even where
/// names repeat.
pub proof fn properties_are_written_in_schema_order(
    layout: EventLayout,
    parsed: Seq<Seq<u8>>,
    stop: Option<ParserErrorView>,
    n: int,
)
    requires
        0 <= n <= layout.properties.len(),
        first_unimplemented(layout.properties, n) is None,
    ensures
        event_entries(layout, parsed, stop, n) matches Ok(entries) ==> {
            &&& entries.len() == n
            &&& n <= parsed.len()
            &&& forall|i: int|
                0 <= i < n ==> {
                    &&& (#[trigger] entries[i]).0 == layout.properties[i].name@
                    &&& structure::property_view(
                        layout.properties[i].info,
                        parsed[i],
                        layout.misalignment_of(parsed, i),
                        layout,
                        parsed,
                    ) == Ok::<Option<SerView>, ParserErrorView>(Some(entries[i].1))
                }
        },
    decreases n,
{
    if n > 0 {
        properties_are_written_in_schema_order(layout, parsed, stop, n - 1);
        implemented_properties_are_written(
            layout.properties[n - 1].info,
            parsed[n - 1],
            layout.misalignment_of(parsed, n - 1),
            layout,
            parsed,
        );
    }
}

proof fn implemented_properties_are_written(
    info: PropertyInfo,
    buffer: Seq<u8>,
    misalignment: int,
    layout: EventLayout,
    parsed: Seq<Seq<u8>>,
)
    requires
        property::handler_of(info) is Some,
    ensures
        structure::property_view(info, buffer, misalignment, layout, parsed) != Ok::<
            Option<SerView>,
            ParserErrorView,
        >(None),
{
}

/// Unless failing is asked for, an event is not refused for what is not
/// implemented.
pub proof fn unimplemented_is_skipped(
    record: EventRecord,
    schema: Schema,
    options: EventSerializerOptions,
    parsed: Seq<Seq<u8>>,
    stop: Option<ParserErrorView>,
)
    requires
        !options.fail_unimplemented,
    ensures
        record_view(record, schema, options, parsed, stop) matches Err(e) ==> e is Parser,
{
    record::extended_is_skipped(record.extended_data@);
}

/// The first property that is not implemented.
fn find_unimplemented(properties: &Vec<Property>) -> (r: Option<usize>)
    ensures
        match r {
            Some(i) => i < properties@.len() && first_unimplemented(
                properties@,
                properties@.len() as int,
            ) == Some(i as int),
            None => first_unimplemented(properties@, properties@.len() as int) is None,
        },
{
    let mut i: usize = 0;
    while i < properties.len()
        invariant
            i <= properties@.len(),
            first_unimplemented(properties@, i as int) is None,
        decreases properties.len() - i,
    {
        if properties[i].get_parser().is_none() {
            proof {
                unimplemented_stays(properties@, i + 1, properties@.len() as int);
            }
            return Some(i);
        }
        i += 1;
    }
    None
}

/// What is written for the properties, each under its name; `None` when one of
/// them is not located.
#[verifier::spinoff_prover]
#[verifier::rlimit(80)]
fn ser_entries<'a>(
    properties: &'a Vec<Property>,
    parser: &Parser<'a, 'a>,
    Ghost(stop): Ghost<Option<ParserErrorView>>,
) -> (r: Result<Option<Vec<(String, SerValue)>>, ParserError>)
    requires
        properties@ == parser.layout().properties,
        parser.parsed().len() >= properties@.len() || stop is Some,
    ensures
        ({
            let expected = event_entries(
                parser.layout(),
                parser.parsed(),
                stop,
                properties@.len() as int,
            );
            match r {
                Ok(Some(entries)) => expected == Ok::<Seq<(Seq<char>, SerView)>, ParserErrorView>(
                    value::entries_view(entries@),
                ),
                Ok(None) => stop is Some && expected == Err::<
                    Seq<(Seq<char>, SerView)>,
                    ParserErrorView,
                >(stop->0),
                Err(e) => expected == Err::<Seq<(Seq<char>, SerView)>, ParserErrorView>(e@),
            }
        }),
{
    let ghost layout = parser.layout();
    let ghost parsed = parser.parsed();
    let ghost n = properties@.len() as int;
    let mut entries: Vec<(String, SerValue)> = Vec::new();
    let mut k: usize = 0;
    let located: usize = parser.located_count();
    while k < properties.len()
        invariant
            k <= properties@.len(),
            k <= located,
            located == parsed.len(),
            properties@ == layout.properties,
            n == properties@.len(),
            layout == parser.layout(),
            parsed == parser.parsed(),
            parsed.len() >= n || stop is Some,
            event_entries(layout, parsed, stop, k as int) == Ok::<
                Seq<(Seq<char>, SerView)>,
                ParserErrorView,
            >(value::entries_view(entries@)),
        decreases properties.len() - k,
    {
        if k >= located {
            proof {
                event_error_stays(layout, parsed, stop, k + 1, n);
            }
            return Ok(None);
        }
        let prop: &'a Property = &properties[k];
        match structure::ser_property(
            prop,
            parser.located_bytes(k),
            parser.located_misalignment(k),
            parser,
        ) {
            Err(e) => {
                proof {
                    event_error_stays(layout, parsed, stop, k + 1, n);
                }
                return Err(e);
            },
            Ok(None) => {},
            Ok(Some(v)) => {
                value::push_entry(&mut entries, prop.name.as_str(), v);
            },
        }
        k += 1;
    }
    Ok(Some(entries))
}

/// The view of an optional error.
pub open spec fn stop_view(stop: Option<ParserError>) -> Option<ParserErrorView> {
    match stop {
        Some(e) => Some(e@),
        None => None,
    }
}

/// Writes an event: first its properties are located, which may take answers of
/// TDH, then it is written as a whole
pub struct EventSerializer<'a> {
    record: &'a EventRecord,
    schema: &'a Schema,
    parser: Parser<'a, 'a>,
    options: EventSerializerOptions,
    stop: Option<ParserError>,
}

impl<'a> EventSerializer<'a> {
    #[verifier::type_invariant]
    spec fn wf(self) -> bool {
        self.parser.layout() == parser::layout_of(*self.record, *self.schema)
    }

    /// The event.
    pub closed spec fn event(self) -> EventRecord {
        *self.record
    }

    /// The schema of the event.
    pub closed spec fn event_schema(self) -> Schema {
        *self.schema
    }

    /// What is written of the event.
    pub closed spec fn chosen(self) -> EventSerializerOptions {
        self.options
    }

    /// The properties located so far.
    pub closed spec fn parsed(self) -> Seq<Seq<u8>> {
        self.parser.parsed()
    }

    /// Why no more properties can be located.
    pub closed spec fn stopped(self) -> Option<ParserErrorView> {
        stop_view(self.stop)
    }

    /// The layout of the event.
    pub open spec fn layout(self) -> EventLayout {
        parser::layout_of(self.event(), self.event_schema())
    }

    /// Whether all properties are located, or no more can be.
    pub open spec fn is_located(self) -> bool {
        self.parsed().len() >= self.layout().properties.len() || self.stopped() is Some
    }

    /// Whether only what is located differs.
    pub open spec fn same_event(self, other: EventSerializer<'a>) -> bool {
        &&& self.event() == other.event()
        &&& self.event_schema() == other.event_schema()
        &&& self.chosen() == other.chosen()
    }

    /// A serializer of an event.
    pub fn new(record: &'a EventRecord, schema: &'a Schema, options: EventSerializerOptions) -> (r:
        EventSerializer<'a>)
        ensures
            r.event() == *record,
            r.event_schema() == *schema,
            r.chosen() == options,
            r.parsed() == Seq::<Seq<u8>>::empty(),
            r.stopped() is None,
    {
        EventSerializer {
            record,
            schema,
            parser: Parser::create(record, schema),
            options,
            stop: None,
        }
    }

    /// Locates the properties as far as possible. Returns the index of the
    /// property whose size TDH has to be asked for, if there is one.
    pub fn locate(&mut self) -> (r: Option<usize>)
        ensures
            final(self).same_event(*old(self)),
            r is None ==> final(self).is_located(),
            if old(self).is_located() {
                &&& r is None
                &&& final(self).parsed() == old(self).parsed()
                &&& final(self).stopped() == old(self).stopped()
            } else {
                let (parsed, outcome) = old(self).layout().walk_to_index(
                    old(self).parsed(),
                    old(self).layout().properties.len() - 1,
                );
                &&& final(self).parsed() == parsed
                &&& match outcome {
                    LookupView::Found(_) => r is None && final(self).stopped() is None,
                    LookupView::AskTdh(i) => r matches Some(x) && x == i
                        && final(self).stopped() is None,
                    LookupView::Failed(e) => r is None && final(self).stopped() == Some(e),
                }
            },
    {
        proof {
            use_type_invariant(&*self);
        }
        let count: usize = self.schema.properties().len();
        if self.stop.is_some() || self.parser.located_count() >= count {
            return None;
        }
        let mut parser = Parser::create(self.record, self.schema);
        std::mem::swap(&mut parser, &mut self.parser);
        let found = parser.property_bytes_at(count - 1);
        self.parser = parser;
        match found {
            Ok(Lookup::Ready(_)) => None,
            Ok(Lookup::NeedsTdhSize(i)) => Some(i),
            Err(e) => {
                self.stop = Some(e);
                None
            },
        }
    }

    /// Takes the answer of TDH for the size of a property. When it is not usable,
    /// no more properties can be located.
    pub fn supply_tdh_size(&mut self, answer: TdhNativeResult<u32>)
        ensures
            final(self).same_event(*old(self)),
            exists|r: parser::ParserResult<()>|
                {
                    &&& #[trigger] parser::supplied(
                        old(self).layout(),
                        old(self).parsed(),
                        answer,
                        final(self).parsed(),
                        r,
                    )
                    &&& final(self).stopped() == (match r {
                        Ok(_) => old(self).stopped(),
                        Err(e) => Some(e@),
                    })
                },
    {
        proof {
            use_type_invariant(&*self);
        }
        let mut parser = Parser::create(self.record, self.schema);
        std::mem::swap(&mut parser, &mut self.parser);
        let r = parser.supply_tdh_size(answer);
        let ghost outcome = r;
        self.parser = parser;
        match r {
            Ok(_) => {},
            Err(e) => {
                self.stop = Some(e);
            },
        }
        assert(parser::supplied(
            old(self).layout(),
            old(self).parsed(),
            answer,
            self.parsed(),
            outcome,
        ));
    }

    /// What is written for the properties of the event; `None` when it fails
    /// because not all of them could be located.
    fn ser_event(&self) -> (r: Result<Option<SerValue>, SerError>)
        requires
            self.is_located(),
        ensures
            ({
                let expected = event_view(
                    self.layout(),
                    self.parsed(),
                    self.stopped(),
                    self.chosen().fail_unimplemented,
                );
                match r {
                    Ok(Some(v)) => expected == Ok::<SerView, SerErrorView>(v.view()),
                    Ok(None) => self.stopped() matches Some(e) && expected == Err::<
                        SerView,
                        SerErrorView,
                    >(SerErrorView::Parser(e)),
                    Err(e) => expected == Err::<SerView, SerErrorView>(e@),
                }
            }),
    {
        proof {
            use_type_invariant(self);
        }
        let properties: &'a Vec<Property> = self.parser.top_level_properties();
        if self.options.fail_unimplemented {
            if let Some(i) = find_unimplemented(properties) {
                return Err(SerError::NotImplemented(properties[i].name.clone()));
            }
        }
        match ser_entries(properties, &self.parser, Ghost(self.stopped())) {
            Ok(Some(entries)) => Ok(Some(SerValue::Object(entries))),
            Ok(None) => Ok(None),
            Err(e) => Err(SerError::Parser(e)),
        }
    }

    /// What is written for the event.
    pub fn serialize(self) -> (r: Result<SerValue, SerError>)
        requires
            self.is_located(),
        ensures
            is_written(
                r,
                record_view(
                    self.event(),
                    self.event_schema(),
                    self.chosen(),
                    self.parsed(),
                    self.stopped(),
                ),
            ),
    {
        let mut entries: Vec<(String, SerValue)> = Vec::new();
        if self.options.include_schema {
            value::push_entry(&mut entries, "Schema", record::ser_schema(self.schema));
        }
        if self.options.include_header {
            value::push_entry(&mut entries, "Header", record::ser_header(&self.record.header));
        }
        if self.options.include_extended_data {
            match record::ser_extended(
                self.record.extended_data(),
                self.options.fail_unimplemented,
            ) {
                Ok(v) => {
                    value::push_entry(&mut entries, "Extended", v);
                },
                Err(t) => {
                    return Err(SerError::NotImplementedExtendedData(t));
                },
            }
        }
        match self.ser_event() {
            Ok(Some(v)) => {
                value::push_entry(&mut entries, "Event", v);
            },
            Ok(None) => {
                return match self.stop {
                    Some(e) => Err(SerError::Parser(e)),
                    None => Err(SerError::Parser(ParserError::NotFound)),
                };
            },
            Err(e) => {
                return Err(e);
            },
        }
        Ok(SerValue::Object(entries))
    }
}

/// Whether `r` is what `expected` says is written.
pub open spec fn is_written(
    r: Result<SerValue, SerError>,
    expected: Result<SerView, SerErrorView>,
) -> bool {
    match r {
        Ok(v) => expected == Ok::<SerView, SerErrorView>(v.view()),
        Err(e) => expected == Err::<SerView, SerErrorView>(e@),
    }
}

/// Number of the first `n` properties that are implemented.
pub open spec fn implemented(properties: Seq<Property>, n: int) -> int
    decreases n,
{
    if n <= 0 {
        0
    } else if property::handler_of(properties[n - 1].info) is Some {
        implemented(properties, n - 1) + 1
    } else {
        implemented(properties, n - 1)
    }
}

/// Each implemented property is written under its own name with the value of its
/// own bytes, in schema order; the others are left out. An event is not written
/// where a property has no value, or was not located.
pub proof fn implemented_properties_are_written_in_order(
    layout: EventLayout,
    parsed: Seq<Seq<u8>>,
    stop: Option<ParserErrorView>,
    n: int,
)
    requires
        0 <= n <= layout.properties.len(),
    ensures
        0 <= implemented(layout.properties, n) <= n,
        match event_entries(layout, parsed, stop, n) {
            Ok(entries) => {
                &&& n <= parsed.len()
                &&& entries.len() == implemented(layout.properties, n)
                &&& forall|i: int|
                    0 <= i < n && property::handler_of((#[trigger] layout.properties[i]).info)
                        is Some ==> {
                        let k = implemented(layout.properties, i);
                        &&& 0 <= k < entries.len()
                        &&& entries[k].0 == layout.properties[i].name@
                        &&& structure::property_view(
                            layout.properties[i].info,
                            parsed[i],
                            layout.misalignment_of(parsed, i),
                            layout,
                            parsed,
                        ) == Ok::<Option<SerView>, ParserErrorView>(Some(entries[k].1))
                    }
            },
            Err(e) => {
                ||| parsed.len() < n && (stop matches Some(s) ==> e == s) && (stop is None
                    ==> e is NotFound)
                ||| exists|i: int|
                    0 <= i < n && i < parsed.len() && structure::property_view(
                        (#[trigger] layout.properties[i]).info,
                        parsed[i],
                        layout.misalignment_of(parsed, i),
                        layout,
                        parsed,
                    ) == Err::<Option<SerView>, ParserErrorView>(e)
            },
        },
    decreases n,
{
    if n > 0 {
        implemented_properties_are_written_in_order(layout, parsed, stop, n - 1);
        let p = layout.properties[n - 1];
        if property::handler_of(p.info) is Some {
            implemented_properties_are_written(
                p.info,
                parsed[n - 1],
                layout.misalignment_of(parsed, n - 1),
                layout,
                parsed,
            );
        }
    }
}

/// The property that is reported as not implemented is the first such one.
pub proof fn the_first_unimplemented_is_reported(properties: Seq<Property>, n: int)
    ensures
        match first_unimplemented(properties, n) {
            Some(i) => {
                &&& 0 <= i < n
                &&& property::handler_of(properties[i].info) is None
                &&& forall|j: int|
                    0 <= j < i ==> property::handler_of((#[trigger] properties[j]).info) is Some
            },
            None => forall|j: int|
                0 <= j < n ==> property::handler_of((#[trigger] properties[j]).info) is Some,
        },
    decreases n,
{
    if n > 0 {
        the_first_unimplemented_is_reported(properties, n - 1);
    }
}

/// A written event has the parts that are asked for, each under its name, and no
/// others, and always its properties.
pub proof fn events_are_written_by_part(
    record: EventRecord,
    schema: Schema,
    options: EventSerializerOptions,
    parsed: Seq<Seq<u8>>,
    stop: Option<ParserErrorView>,
)
    ensures
        record_view(record, schema, options, parsed, stop) matches Ok(v) ==> {
            &&& options.include_schema ==> value::holds(
                v,
                "Schema"@,
                record::schema_view(schema),
            )
            &&& !options.include_schema ==> value::lacks(v, "Schema"@)
            &&& options.include_header ==> value::holds(
                v,
                "Header"@,
                record::header_view(record.header),
            )
            &&& !options.include_header ==> value::lacks(v, "Header"@)
            &&& options.include_extended_data ==> (record::extended_list(
                record.extended_data@,
                options.fail_unimplemented,
            ) matches Ok(items) && value::holds(v, "Extended"@, SerView::List(items)))
            &&& !options.include_extended_data ==> value::lacks(v, "Extended"@)
            &&& event_entries(
                parser::layout_of(record, schema),
                parsed,
                stop,
                parser::layout_of(record, schema).properties.len() as int,
            ) matches Ok(entries) && value::holds(v, "Event"@, SerView::Object(entries))
        },
{
    reveal_strlit("Schema");
    reveal_strlit("Header");
    reveal_strlit("Extended");
    reveal_strlit("Event");
    assert("Schema"@[0] == 'S' && "Header"@[0] == 'H');
    if let Ok(v) = record_view(record, schema, options, parsed, stop) {
        let all = v->Object_0;
        let last = all.len() - 1;
        assert(all[last].0 == "Event"@);
        if options.include_schema {
            assert(all[0].0 == "Schema"@);
        }
        if options.include_header {
            let k: int = if options.include_schema {
                1
            } else {
                0
            };
            assert(all[k].0 == "Header"@);
        }
        if options.include_extended_data {
            assert(all[last - 1].0 == "Extended"@);
        }
    }
}

/// Why an event is not written: extended data that cannot be written and was asked
/// for, then a property that is not implemented, both only where failing is asked
/// for, then a property without a value.
pub proof fn events_are_refused_for_a_reason(
    record: EventRecord,
    schema: Schema,
    options: EventSerializerOptions,
    parsed: Seq<Seq<u8>>,
    stop: Option<ParserErrorView>,
)
    ensures
        record_view(record, schema, options, parsed, stop) matches Err(e) ==> match e {
            SerErrorView::NotImplementedExtendedData(t) => options.fail_unimplemented
                && options.include_extended_data && record::extended_list(
                record.extended_data@,
                true,
            ) == Err::<Seq<SerView>, u16>(t),
            SerErrorView::NotImplemented(name) => options.fail_unimplemented && exists|i: int|
                {
                    &&& 0 <= i < schema.props().len()
                    &&& (#[trigger] schema.props()[i]).name@ == name
                    &&& property::handler_of(schema.props()[i].info) is None
                },
            SerErrorView::Parser(p) => event_entries(
                parser::layout_of(record, schema),
                parsed,
                stop,
                schema.props().len() as int,
            ) == Err::<Seq<(Seq<char>, SerView)>, ParserErrorView>(p),
        },
        options.fail_unimplemented && (exists|i: int|
            0 <= i < schema.props().len() && property::handler_of(
                (#[trigger] schema.props()[i]).info,
            ) is None) ==> record_view(record, schema, options, parsed, stop) is Err,
{
    record::extended_is_skipped(record.extended_data@);
    the_first_unimplemented_is_reported(schema.props(), schema.props().len() as int);
}

} // verus!
