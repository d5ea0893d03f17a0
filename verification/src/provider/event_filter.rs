//! Filters that the tracing API applies to the events of a provider.
use vstd::prelude::*;
use vstd::utf8::*;

use crate::bytes;
use crate::text;

verus! {

/// Filter by process identifier
pub const EVENT_FILTER_TYPE_PID: u32 = 0x8000_0004;

/// Filter by executable file name
pub const EVENT_FILTER_TYPE_EXECUTABLE_NAME: u32 = 0x8000_0008;

/// Filter by event id
pub const EVENT_FILTER_TYPE_EVENT_ID: u32 = 0x8000_0200;

/// Filter by event name
pub const EVENT_FILTER_TYPE_EVENT_NAME: u32 = 0x8000_0400;

/// Collect call stacks by event id
pub const EVENT_FILTER_TYPE_STACKWALK: u32 = 0x8000_1000;

/// Most bytes the data of a filter may take, unless it filters event names
pub const MAX_EVENT_FILTER_DATA_SIZE: usize = 1024;

/// Most bytes the data of an event name filter may take
pub const MAX_EVENT_FILTER_EVENT_NAME_SIZE: usize = 4096;

/// Most event ids a filter may list
pub const MAX_EVENT_FILTER_EVENT_ID_COUNT: usize = 64;

/// Most process identifiers a filter may list
pub const MAX_EVENT_FILTER_PID_COUNT: usize = 8;

/// Bytes before the names of an event name filter
pub const EVENT_NAME_HEADER_SIZE: usize = 20;

/// Why the data of a filter cannot be built
#[derive(Debug, Clone, Copy, PartialEq, Eq, Structural)]
pub enum FilterError {
    /// The filter lists nothing
    Empty,
    /// The data would be larger than its type allows
    TooLarge,
    /// More event ids than a filter may list
    TooManyEventIds,
    /// More process identifiers than a filter may list
    TooManyPids,
    /// An executable name is empty, or holds a semicolon or a NUL
    BadExecutableName,
    /// An event name is empty, or holds a NUL
    BadEventName,
}

impl FilterError {
    /// What the error says.
    pub open spec fn text(self) -> Seq<char> {
        match self {
            FilterError::Empty => "Filter must not be empty"@,
            FilterError::TooLarge => "Exceeded filter size limits"@,
            FilterError::TooManyEventIds => "Too many event IDs are filtered"@,
            FilterError::TooManyPids => "Too many PIDs are filtered"@,
            FilterError::BadExecutableName =>
                "Executable names must not be empty, or contain ';' or NUL"@,
            FilterError::BadEventName => "Event names must not be empty, or contain NUL"@,
        }
    }

    /// What the error says.
    pub fn message(&self) -> (r: String)
        ensures
            r@ == self.text(),
    {
        let literal = match self {
            FilterError::Empty => "Filter must not be empty",
            FilterError::TooLarge => "Exceeded filter size limits",
            FilterError::TooManyEventIds => "Too many event IDs are filtered",
            FilterError::TooManyPids => "Too many PIDs are filtered",
            FilterError::BadExecutableName =>
                "Executable names must not be empty, or contain ';' or NUL",
            FilterError::BadEventName => "Event names must not be empty, or contain NUL",
        };
        literal.to_owned()
    }
}

/// Data for an event name filter ([`EventFilter::ByEventNames`])
///
/// Describes the events the filter applies to: those whose name is one of
/// `names` and, when the corresponding builder method is used, whose keyword and
/// level match. The matching events are kept by default, or dropped after
/// [`Self::exclude`].
#[derive(Debug)]
pub struct EventNamesFilter {
    pub names: Vec<String>,
    pub match_any_keyword: u64,
    pub match_all_keyword: u64,
    pub level: u8,
    pub filter_in: bool,
}

impl EventNamesFilter {
    /// Keeps the events with these names.
    pub fn new(names: Vec<String>) -> (r: EventNamesFilter)
        ensures
            r.names == names,
            r.match_any_keyword == 0,
            r.match_all_keyword == 0,
            r.level == 0,
            r.filter_in,
    {
        EventNamesFilter {
            names,
            match_any_keyword: 0,
            match_all_keyword: 0,
            level: 0,
            filter_in: true,
        }
    }

    /// Restricts the filter to events with one of these keyword bits set; 0
    /// means regardless of keywords.
    pub fn any(self, any_keyword: u64) -> (r: EventNamesFilter)
        ensures
            r == (EventNamesFilter { match_any_keyword: any_keyword, ..self }),
    {
        EventNamesFilter { match_any_keyword: any_keyword, ..self }
    }

    /// Restricts the filter further to events with all of these keyword bits
    /// set; 0 means no extra restriction.
    pub fn all(self, all_keyword: u64) -> (r: EventNamesFilter)
        ensures
            r == (EventNamesFilter { match_all_keyword: all_keyword, ..self }),
    {
        EventNamesFilter { match_all_keyword: all_keyword, ..self }
    }

    /// Restricts the filter to events at this severity level or below; 0 means
    /// regardless of level.
    pub fn level(self, level: u8) -> (r: EventNamesFilter)
        ensures
            r == (EventNamesFilter { level: level, ..self }),
    {
        EventNamesFilter { level, ..self }
    }

    /// Drops the matching events instead of keeping them.
    pub fn exclude(self) -> (r: EventNamesFilter)
        ensures
            r == (EventNamesFilter { filter_in: false, ..self }),
    {
        EventNamesFilter { filter_in: false, ..self }
    }
}

/// Specifies how a provider filters its events
///
/// Filters are enforced by the tracing API itself: events that are filtered out
/// are never delivered to this process.
#[derive(Debug)]
pub enum EventFilter {
    /// Filter by process identifier
    ByPids(Vec<u32>),
    /// Keep events with these event ids, drop the others
    ByEventIds(Vec<u16>),
    /// Drop events with these event ids, keep the others
    ExcludeEventIds(Vec<u16>),
    /// Keep events of processes running one of these executable file names,
    /// drop the others
    ByExecutableNames(Vec<String>),
    /// Keep or drop manifest-free events by name
    ByEventNames(EventNamesFilter),
    /// Collect call stacks for events with these event ids
    StackWalkByEventIds(Vec<u16>),
    /// Do not collect call stacks for events with these event ids
    ExcludeStackWalkByEventIds(Vec<u16>),
}

/// The type and the data a filter is handed to the tracing API with.
pub struct FilterData {
    pub ty: u32,
    pub data: Seq<u8>,
}

/// A byte that says `b`.
pub open spec fn bool_byte(b: bool) -> u8 {
    if b {
        1
    } else {
        0
    }
}

/// The data of a filter on event ids: whether the ids are kept, how many there
/// are, and the ids.
pub open spec fn event_ids_data(ids: Seq<u16>, filter_in: bool) -> Seq<u8> {
    seq![bool_byte(filter_in), 0u8] + bytes::u16_bytes(ids.len() as u16) + bytes::u16s_bytes(ids)
}

/// What a filter of type `ty` on event ids is handed over as.
pub open spec fn by_event_ids(ids: Seq<u16>, filter_in: bool, ty: u32) -> Result<
    FilterData,
    FilterError,
> {
    if ids.len() == 0 {
        Err(FilterError::Empty)
    } else if ids.len() > MAX_EVENT_FILTER_EVENT_ID_COUNT {
        Err(FilterError::TooManyEventIds)
    } else {
        Ok(FilterData { ty, data: event_ids_data(ids, filter_in) })
    }
}

/// What a filter on process identifiers is handed over as: the identifiers.
pub open spec fn by_pids(pids: Seq<u32>) -> Result<FilterData, FilterError> {
    if pids.len() > MAX_EVENT_FILTER_PID_COUNT {
        Err(FilterError::TooManyPids)
    } else if pids.len() == 0 {
        Err(FilterError::Empty)
    } else {
        Ok(FilterData { ty: EVENT_FILTER_TYPE_PID, data: bytes::u32s_bytes(pids) })
    }
}

/// Whether a name can stand in a list separated by semicolons.
pub open spec fn is_executable_name(name: Seq<char>) -> bool {
    name.len() > 0 && !name.contains(';') && !name.contains('\0')
}

/// The names, encoded in UTF-16 and separated by semicolons.
pub open spec fn joined_names(names: Seq<String>) -> Seq<u16>
    decreases names.len(),
{
    if names.len() == 0 {
        Seq::empty()
    } else if names.len() == 1 {
        text::utf16_units(names[0]@)
    } else {
        joined_names(names.drop_last()).push(0x3b) + text::utf16_units(names.last()@)
    }
}

/// What a filter on executable names is handed over as: one string that ends in
/// a NUL.
pub open spec fn by_executable_names(names: Seq<String>) -> Result<FilterData, FilterError> {
    let data = bytes::u16s_bytes(joined_names(names).push(0));
    if names.len() == 0 {
        Err(FilterError::Empty)
    } else if exists|i: int| 0 <= i < names.len() && !is_executable_name(#[trigger] names[i]@) {
        Err(FilterError::BadExecutableName)
    } else if data.len() > MAX_EVENT_FILTER_DATA_SIZE {
        Err(FilterError::TooLarge)
    } else {
        Ok(FilterData { ty: EVENT_FILTER_TYPE_EXECUTABLE_NAME, data })
    }
}

/// Whether a name can stand in a list of strings that end in a NUL.
pub open spec fn is_event_name(name: Seq<char>) -> bool {
    name.len() > 0 && !name.contains('\0')
}

/// The names, encoded in UTF-8, each followed by a NUL.
pub open spec fn terminated_names(names: Seq<String>) -> Seq<u8>
    decreases names.len(),
{
    if names.len() == 0 {
        Seq::empty()
    } else {
        terminated_names(names.drop_last()) + encode_utf8(names.last()@).push(0)
    }
}

/// The data of a filter on event names: keywords, level, whether the events are
/// kept, how many names there are, and the names.
pub open spec fn event_names_data(filter: EventNamesFilter) -> Seq<u8> {
    bytes::u64_bytes(filter.match_any_keyword) + bytes::u64_bytes(filter.match_all_keyword)
        + seq![filter.level, bool_byte(filter.filter_in)] + bytes::u16_bytes(
        filter.names@.len() as u16,
    ) + terminated_names(filter.names@)
}

/// What a filter on event names is handed over as.
pub open spec fn by_event_names(filter: EventNamesFilter) -> Result<FilterData, FilterError> {
    let names = filter.names@;
    if names.len() == 0 {
        Err(FilterError::Empty)
    } else if exists|i: int| 0 <= i < names.len() && !is_event_name(#[trigger] names[i]@) {
        Err(FilterError::BadEventName)
    } else if EVENT_NAME_HEADER_SIZE + terminated_names(names).len()
        > MAX_EVENT_FILTER_EVENT_NAME_SIZE {
        Err(FilterError::TooLarge)
    } else {
        Ok(FilterData { ty: EVENT_FILTER_TYPE_EVENT_NAME, data: event_names_data(filter) })
    }
}

/// What a filter is handed to the tracing API as.
pub open spec fn filter_data(filter: EventFilter) -> Result<FilterData, FilterError> {
    match filter {
        EventFilter::ByPids(pids) => by_pids(pids@),
        EventFilter::ByEventIds(ids) => by_event_ids(ids@, true, EVENT_FILTER_TYPE_EVENT_ID),
        EventFilter::ExcludeEventIds(ids) => by_event_ids(ids@, false, EVENT_FILTER_TYPE_EVENT_ID),
        EventFilter::StackWalkByEventIds(ids) => by_event_ids(
            ids@,
            true,
            EVENT_FILTER_TYPE_STACKWALK,
        ),
        EventFilter::ExcludeStackWalkByEventIds(ids) => by_event_ids(
            ids@,
            false,
            EVENT_FILTER_TYPE_STACKWALK,
        ),
        EventFilter::ByExecutableNames(names) => by_executable_names(names@),
        EventFilter::ByEventNames(f) => by_event_names(f),
    }
}

/// A filter in the form the tracing API takes: its type and its data
#[derive(Debug)]
pub struct EventFilterDescriptor {
    pub data: Vec<u8>,
    pub ty: u32,
}

impl View for EventFilterDescriptor {
    type V = FilterData;

    open spec fn view(&self) -> FilterData {
        FilterData { ty: self.ty, data: self.data@ }
    }
}

/// Whether a descriptor, or the failure to build one, is what `expected` says.
pub open spec fn is_built(
    r: Result<EventFilterDescriptor, FilterError>,
    expected: Result<FilterData, FilterError>,
) -> bool {
    match r {
        Ok(descriptor) => expected == Ok::<FilterData, FilterError>(descriptor@),
        Err(error) => expected == Err::<FilterData, FilterError>(error),
    }
}

impl EventFilterDescriptor {
    /// A filter on event ids; event id and stackwalk filters share its layout.
    ///
    /// `filter_in` selects whether the listed ids are kept or dropped (for
    /// stackwalk filters: whether their stacks are collected or not).
    pub fn try_new_by_event_id_list(eids: &[u16], filter_in: bool, ty: u32) -> (r: Result<
        EventFilterDescriptor,
        FilterError,
    >)
        ensures
            is_built(r, by_event_ids(eids@, filter_in, ty)),
    {
        if eids.len() == 0 {
            return Err(FilterError::Empty);
        }
        if eids.len() > MAX_EVENT_FILTER_EVENT_ID_COUNT {
            return Err(FilterError::TooManyEventIds);
        }
        let mut data: Vec<u8> = Vec::new();
        data.push(if filter_in { 1 } else { 0 });
        data.push(0);
        bytes::push_u16(&mut data, eids.len() as u16);
        bytes::push_u16s(&mut data, eids);
        assert(data@ =~= event_ids_data(eids@, filter_in));
        Ok(EventFilterDescriptor { data, ty })
    }

    /// A filter on process identifiers.
    pub fn try_new_by_process_ids(pids: &[u32]) -> (r: Result<EventFilterDescriptor, FilterError>)
        ensures
            is_built(r, by_pids(pids@)),
    {
        if pids.len() > MAX_EVENT_FILTER_PID_COUNT {
            return Err(FilterError::TooManyPids);
        }
        if pids.len() == 0 {
            return Err(FilterError::Empty);
        }
        let mut data: Vec<u8> = Vec::new();
        bytes::push_u32s(&mut data, pids);
        assert(data@ =~= bytes::u32s_bytes(pids@));
        Ok(EventFilterDescriptor { data, ty: EVENT_FILTER_TYPE_PID })
    }

    /// A filter on executable file names.
    pub fn try_new_by_executable_names(names: &[String]) -> (r: Result<
        EventFilterDescriptor,
        FilterError,
    >)
        ensures
            is_built(r, by_executable_names(names@)),
    {
        if names.len() == 0 {
            return Err(FilterError::Empty);
        }
        let mut units: Vec<u16> = Vec::new();
        let mut i: usize = 0;
        while i < names.len()
            invariant
                i <= names@.len(),
                units@ == joined_names(names@.take(i as int)),
                forall|j: int| 0 <= j < i ==> is_executable_name(#[trigger] names@[j]@),
            decreases names.len() - i,
        {
            let name = names[i].as_str();
            if name.is_empty() || text::contains_char(name, ';') || text::contains_char(
                name,
                '\0',
            ) {
                assert(!is_executable_name(names@[i as int]@));
                return Err(FilterError::BadExecutableName);
            }
            let ghost now = names@.take(i + 1);
            assert(now.drop_last() =~= names@.take(i as int));
            if i > 0 {
                units.push(0x3b);
            }
            let encoded = text::encode_utf16(name);
            text::push_units(&mut units, encoded.as_slice());
            assert(units@ =~= joined_names(now));
            i += 1;
        }
        assert(names@.take(i as int) =~= names@);
        units.push(0);
        proof {
            bytes::u16s_round_trip(Seq::empty(), units@, Seq::empty());
        }
        if units.len() > MAX_EVENT_FILTER_DATA_SIZE / 2 {
            return Err(FilterError::TooLarge);
        }
        let mut data: Vec<u8> = Vec::new();
        bytes::push_u16s(&mut data, units.as_slice());
        assert(data@ =~= bytes::u16s_bytes(units@));
        Ok(EventFilterDescriptor { data, ty: EVENT_FILTER_TYPE_EXECUTABLE_NAME })
    }

    /// A filter on the names of manifest-free events.
    pub fn try_new_by_event_names(filter: &EventNamesFilter) -> (r: Result<
        EventFilterDescriptor,
        FilterError,
    >)
        ensures
            is_built(r, by_event_names(*filter)),
    {
        let ghost names = filter.names@;
        if filter.names.len() == 0 {
            return Err(FilterError::Empty);
        }
        let mut list: Vec<u8> = Vec::new();
        let mut i: usize = 0;
        while i < filter.names.len()
            invariant
                names == filter.names@,
                i <= names.len(),
                list@ == terminated_names(names.take(i as int)),
                list@.len() >= 2 * i,
                forall|j: int| 0 <= j < i ==> is_event_name(#[trigger] names[j]@),
            decreases filter.names.len() - i,
        {
            let name = filter.names[i].as_str();
            if name.is_empty() || text::contains_char(name, '\0') {
                assert(!is_event_name(names[i as int]@));
                return Err(FilterError::BadEventName);
            }
            let ghost now = names.take(i + 1);
            assert(now.drop_last() =~= names.take(i as int));
            let encoded = name.as_bytes();
            proof {
                text::encoding_is_not_empty(name@);
            }
            bytes::push_all(&mut list, encoded);
            list.push(0);
            assert(list@ =~= terminated_names(now));
            i += 1;
        }
        assert(names.take(i as int) =~= names);
        if list.len() > MAX_EVENT_FILTER_EVENT_NAME_SIZE - EVENT_NAME_HEADER_SIZE {
            return Err(FilterError::TooLarge);
        }
        let mut data: Vec<u8> = Vec::new();
        bytes::push_u64(&mut data, filter.match_any_keyword);
        bytes::push_u64(&mut data, filter.match_all_keyword);
        data.push(filter.level);
        data.push(if filter.filter_in { 1 } else { 0 });
        bytes::push_u16(&mut data, filter.names.len() as u16);
        bytes::push_all(&mut data, list.as_slice());
        assert(data@ =~= event_names_data(*filter));
        Ok(EventFilterDescriptor { data, ty: EVENT_FILTER_TYPE_EVENT_NAME })
    }

    /// The type the tracing API knows the filter by. Each type may appear only
    /// once for a provider.
    pub fn filter_type(&self) -> (r: u32)
        ensures
            r == self@.ty,
    {
        self.ty
    }
}

impl EventFilter {
    /// The filter in the form the tracing API takes.
    pub fn to_event_filter_descriptor(&self) -> (r: Result<EventFilterDescriptor, FilterError>)
        ensures
            is_built(r, filter_data(*self)),
    {
        match self {
            EventFilter::ByPids(pids) => EventFilterDescriptor::try_new_by_process_ids(
                pids.as_slice(),
            ),
            EventFilter::ByEventIds(ids) => EventFilterDescriptor::try_new_by_event_id_list(
                ids.as_slice(),
                true,
                EVENT_FILTER_TYPE_EVENT_ID,
            ),
            EventFilter::ExcludeEventIds(ids) => EventFilterDescriptor::try_new_by_event_id_list(
                ids.as_slice(),
                false,
                EVENT_FILTER_TYPE_EVENT_ID,
            ),
            EventFilter::StackWalkByEventIds(ids) =>
                EventFilterDescriptor::try_new_by_event_id_list(
                ids.as_slice(),
                true,
                EVENT_FILTER_TYPE_STACKWALK,
            ),
            EventFilter::ExcludeStackWalkByEventIds(ids) =>
                EventFilterDescriptor::try_new_by_event_id_list(
                ids.as_slice(),
                false,
                EVENT_FILTER_TYPE_STACKWALK,
            ),
            EventFilter::ByExecutableNames(names) =>
                EventFilterDescriptor::try_new_by_executable_names(names.as_slice()),
            EventFilter::ByEventNames(filter) => EventFilterDescriptor::try_new_by_event_names(
                filter,
            ),
        }
    }
}

/// The data of a filter is never empty and never larger than its type allows.
pub proof fn filter_data_is_bounded(filter: EventFilter)
    ensures
        filter_data(filter) matches Ok(built) ==> {
            &&& 0 < built.data.len()
            &&& built.ty == EVENT_FILTER_TYPE_EVENT_NAME ==> built.data.len()
                <= MAX_EVENT_FILTER_EVENT_NAME_SIZE
            &&& built.ty != EVENT_FILTER_TYPE_EVENT_NAME ==> built.data.len()
                <= MAX_EVENT_FILTER_DATA_SIZE
        },
{
    match filter {
        EventFilter::ByPids(pids) => {
            bytes::u32s_round_trip(Seq::empty(), pids@, Seq::empty());
        },
        EventFilter::ByEventIds(ids) => {
            bytes::u16s_round_trip(Seq::empty(), ids@, Seq::empty());
        },
        EventFilter::ExcludeEventIds(ids) => {
            bytes::u16s_round_trip(Seq::empty(), ids@, Seq::empty());
        },
        EventFilter::StackWalkByEventIds(ids) => {
            bytes::u16s_round_trip(Seq::empty(), ids@, Seq::empty());
        },
        EventFilter::ExcludeStackWalkByEventIds(ids) => {
            bytes::u16s_round_trip(Seq::empty(), ids@, Seq::empty());
        },
        EventFilter::ByExecutableNames(names) => {
            bytes::u16s_round_trip(Seq::empty(), joined_names(names@).push(0), Seq::empty());
        },
        EventFilter::ByEventNames(f) => {},
    }
}

/// The ids of an event id filter can be read back from its data.
pub proof fn event_ids_round_trip(ids: Seq<u16>, filter_in: bool)
    requires
        ids.len() <= MAX_EVENT_FILTER_EVENT_ID_COUNT,
    ensures
        (event_ids_data(ids, filter_in)[0] != 0) == filter_in,
        bytes::u16_at(event_ids_data(ids, filter_in), 2) == ids.len(),
        forall|i: int|
            0 <= i < ids.len() ==> #[trigger] bytes::u16_at(
                event_ids_data(ids, filter_in),
                4 + 2 * i,
            ) == ids[i],
{
    let flags = seq![bool_byte(filter_in), 0u8];
    let count = bytes::u16_bytes(ids.len() as u16);
    let list = bytes::u16s_bytes(ids);
    let data = event_ids_data(ids, filter_in);
    bytes::u16_round_trip(flags, ids.len() as u16, list);
    assert(data =~= flags + count + list);
    bytes::u16s_round_trip(flags + count, ids, Seq::empty());
    assert(data =~= flags + count + list + Seq::empty());
}

/// The identifiers of a process filter can be read back from its data.
pub proof fn pids_round_trip(pids: Seq<u32>)
    ensures
        forall|i: int|
            0 <= i < pids.len() ==> #[trigger] bytes::u32_at(bytes::u32s_bytes(pids), 4 * i)
                == pids[i],
{
    let data = bytes::u32s_bytes(pids);
    bytes::u32s_round_trip(Seq::empty(), pids, Seq::empty());
    assert(Seq::<u8>::empty() + data + Seq::<u8>::empty() =~= data);
    assert forall|i: int| 0 <= i < pids.len() implies #[trigger] bytes::u32_at(data, 4 * i)
        == pids[i] by {
        assert(bytes::u32_at(Seq::<u8>::empty() + data + Seq::<u8>::empty(), 0 + 4 * i)
            == pids[i]);
    }
}

/// A filter on event ids holds whether the ids are kept, their number, and the ids:
/// little-endian numbers of two bytes. It lists at least one and at most 64.
pub proof fn id_filters_list_their_ids(ids: Seq<u16>, filter_in: bool, ty: u32, i: int)
    ensures
        by_event_ids(ids, filter_in, ty) is Ok <==> 0 < ids.len() <= 64,
        ids.len() == 0 ==> by_event_ids(ids, filter_in, ty) == Err::<FilterData, FilterError>(
            FilterError::Empty,
        ),
        ids.len() > 64 ==> by_event_ids(ids, filter_in, ty) == Err::<FilterData, FilterError>(
            FilterError::TooManyEventIds,
        ),
        by_event_ids(ids, filter_in, ty) matches Ok(f) ==> {
            &&& f.ty == ty
            &&& f.data.len() == 4 + 2 * ids.len()
            &&& f.data[0] == if filter_in {
                1u8
            } else {
                0u8
            }
            &&& f.data[1] == 0
            &&& bytes::little_endian(f.data.subrange(2, 4)) == ids.len()
            &&& 0 <= i < ids.len() ==> bytes::little_endian(
                f.data.subrange(4 + 2 * i, 6 + 2 * i),
            ) == ids[i]
        },
{
    if 0 < ids.len() <= 64 {
        let data = event_ids_data(ids, filter_in);
        let head = seq![bool_byte(filter_in), 0u8];
        let count = bytes::u16_bytes(ids.len() as u16);
        bytes::u16s_round_trip(head + count, ids, Seq::empty());
        assert(head + count + bytes::u16s_bytes(ids) + Seq::<u8>::empty() =~= data);
        bytes::u16_round_trip(head, ids.len() as u16, bytes::u16s_bytes(ids));
        bytes::stored_numbers_are_little_endian(data, 2);
        if 0 <= i < ids.len() {
            assert(bytes::u16_at(data, (head + count).len() + 2 * i) == ids[i]);
            bytes::stored_numbers_are_little_endian(data, 4 + 2 * i);
        }
    }
}

/// A filter on process identifiers holds them as little-endian numbers of four
/// bytes, at least one and at most eight.
pub proof fn pid_filters_list_their_pids(pids: Seq<u32>, i: int)
    ensures
        by_pids(pids) is Ok <==> 0 < pids.len() <= 8,
        pids.len() == 0 ==> by_pids(pids) == Err::<FilterData, FilterError>(FilterError::Empty),
        pids.len() > 8 ==> by_pids(pids) == Err::<FilterData, FilterError>(
            FilterError::TooManyPids,
        ),
        by_pids(pids) matches Ok(f) ==> {
            &&& f.ty == 0x8000_0004
            &&& f.data.len() == 4 * pids.len()
            &&& 0 <= i < pids.len() ==> bytes::little_endian(f.data.subrange(4 * i, 4 * i + 4))
                == pids[i]
        },
{
    if 0 < pids.len() <= 8 {
        let data = bytes::u32s_bytes(pids);
        bytes::u32s_round_trip(Seq::empty(), pids, Seq::empty());
        assert(Seq::<u8>::empty() + data + Seq::<u8>::empty() =~= data);
        if 0 <= i < pids.len() {
            assert(bytes::u32_at(data, Seq::<u8>::empty().len() + 4 * i) == pids[i]);
            bytes::stored_numbers_are_little_endian(data, 4 * i);
        }
    }
}

/// Each kind of filter has its own type, and keeps or drops the events it lists.
pub proof fn kinds_of_filters(pids: Vec<u32>, ids: Vec<u16>, names: Vec<String>, f: EventNamesFilter)
    ensures
        filter_data(EventFilter::ByPids(pids)) matches Ok(x) ==> x.ty == 0x8000_0004,
        filter_data(EventFilter::ByEventIds(ids)) matches Ok(x) ==> x.ty == 0x8000_0200 && x.data[0]
            == 1,
        filter_data(EventFilter::ExcludeEventIds(ids)) matches Ok(x) ==> x.ty == 0x8000_0200
            && x.data[0] == 0,
        filter_data(EventFilter::StackWalkByEventIds(ids)) matches Ok(x) ==> x.ty == 0x8000_1000
            && x.data[0] == 1,
        filter_data(EventFilter::ExcludeStackWalkByEventIds(ids)) matches Ok(x) ==> x.ty
            == 0x8000_1000 && x.data[0] == 0,
        filter_data(EventFilter::ByExecutableNames(names)) matches Ok(x) ==> x.ty == 0x8000_0008,
        filter_data(EventFilter::ByEventNames(f)) matches Ok(x) ==> x.ty == 0x8000_0400,
        filter_data(EventFilter::ByPids(pids)) == by_pids(pids@),
        filter_data(EventFilter::ByEventIds(ids)) == by_event_ids(ids@, true, 0x8000_0200),
        filter_data(EventFilter::ExcludeEventIds(ids)) == by_event_ids(ids@, false, 0x8000_0200),
        filter_data(EventFilter::StackWalkByEventIds(ids)) == by_event_ids(ids@, true, 0x8000_1000),
        filter_data(EventFilter::ExcludeStackWalkByEventIds(ids)) == by_event_ids(
            ids@,
            false,
            0x8000_1000,
        ),
        filter_data(EventFilter::ByExecutableNames(names)) == by_executable_names(names@),
        filter_data(EventFilter::ByEventNames(f)) == by_event_names(f),
{
    if 0 < ids@.len() <= 64 {
        id_filters_list_their_ids(ids@, true, 0x8000_0200, 0);
        id_filters_list_their_ids(ids@, false, 0x8000_0200, 0);
        id_filters_list_their_ids(ids@, true, 0x8000_1000, 0);
        id_filters_list_their_ids(ids@, false, 0x8000_1000, 0);
    }
}

/// Executable names are handed over as one string: the names in order, with a
/// semicolon between two of them, in UTF-16, and with a NUL at the end.
pub proof fn executable_names_are_joined(names: Seq<String>, more: String)
    ensures
        joined_names(seq![more]) == text::utf16_units(more@),
        names.len() > 0 ==> joined_names(names.push(more)) == joined_names(names) + seq![0x3bu16]
            + text::utf16_units(more@),
        by_executable_names(names) matches Ok(f) ==> {
            &&& f.ty == 0x8000_0008
            &&& f.data == bytes::u16s_bytes(joined_names(names) + seq![0u16])
            &&& f.data.len() == 2 * (joined_names(names).len() + 1) <= 1024
            &&& names.len() > 0
            &&& forall|i: int|
                0 <= i < names.len() ==> (#[trigger] names[i])@.len() > 0 && !names[i]@.contains(
                    ';',
                ) && !names[i]@.contains('\0')
        },
        by_executable_names(names) matches Err(e) ==> {
            ||| names.len() == 0 && e is Empty
            ||| e is BadExecutableName && exists|i: int|
                0 <= i < names.len() && ((#[trigger] names[i])@.len() == 0 || names[i]@.contains(
                    ';',
                ) || names[i]@.contains('\0'))
            ||| e is TooLarge && 2 * (joined_names(names).len() + 1) > 1024
        },
{
    assert(names.push(more).drop_last() =~= names);
    assert(joined_names(names).push(0x3b) =~= joined_names(names) + seq![0x3bu16]);
    assert(joined_names(names).push(0) =~= joined_names(names) + seq![0u16]);
    bytes::u16s_round_trip(Seq::empty(), joined_names(names).push(0), Seq::empty());
}

/// Event names are handed over behind the keywords, the level, whether the events
/// are kept and the number of names: each name in UTF-8 with a NUL at its end.
pub proof fn event_names_are_listed(filter: EventNamesFilter)
    ensures
        by_event_names(filter) matches Ok(f) ==> {
            &&& f.ty == 0x8000_0400
            &&& f.data.len() == 20 + terminated_names(filter.names@).len() <= 4096
            &&& bytes::little_endian(f.data.subrange(0, 8)) == filter.match_any_keyword
            &&& bytes::little_endian(f.data.subrange(8, 16)) == filter.match_all_keyword
            &&& f.data[16] == filter.level
            &&& f.data[17] == if filter.filter_in {
                1u8
            } else {
                0u8
            }
            &&& bytes::little_endian(f.data.subrange(18, 20)) == filter.names@.len()
            &&& f.data.subrange(20, f.data.len() as int) == terminated_names(filter.names@)
            &&& filter.names@.len() > 0
            &&& forall|i: int|
                0 <= i < filter.names@.len() ==> (#[trigger] filter.names@[i])@.len() > 0
                    && !filter.names@[i]@.contains('\0')
        },
        by_event_names(filter) matches Err(e) ==> {
            ||| filter.names@.len() == 0 && e is Empty
            ||| e is BadEventName && exists|i: int|
                0 <= i < filter.names@.len() && ((#[trigger] filter.names@[i])@.len() == 0
                    || filter.names@[i]@.contains('\0'))
            ||| e is TooLarge && 20 + terminated_names(filter.names@).len() > 4096
        },
{
    if by_event_names(filter) is Ok {
        let data = event_names_data(filter);
        let any = bytes::u64_bytes(filter.match_any_keyword);
        let all = bytes::u64_bytes(filter.match_all_keyword);
        let level = seq![filter.level, bool_byte(filter.filter_in)];
        let n = filter.names@.len() as u16;
        let names = terminated_names(filter.names@);
        names_take_bytes(filter.names@);
        bytes::written_numbers_are_little_endian(n, 0, filter.match_any_keyword);
        bytes::written_numbers_are_little_endian(n, 0, filter.match_all_keyword);
        assert(data.subrange(0, 8) =~= any);
        assert(data.subrange(8, 16) =~= all);
        assert(data.subrange(18, 20) =~= bytes::u16_bytes(n));
        assert(data.subrange(20, data.len() as int) =~= names);
    }
}

proof fn names_take_bytes(names: Seq<String>)
    ensures
        names.len() <= terminated_names(names).len(),
    decreases names.len(),
{
    if names.len() > 0 {
        names_take_bytes(names.drop_last());
    }
}

/// The names of an event name filter stand one after the other.
pub proof fn event_names_are_terminated(names: Seq<String>, more: String)
    ensures
        terminated_names(Seq::empty()) == Seq::<u8>::empty(),
        terminated_names(names.push(more)) == terminated_names(names) + encode_utf8(more@)
            + seq![0u8],
{
    assert(names.push(more).drop_last() =~= names);
    assert(encode_utf8(more@).push(0) =~= encode_utf8(more@) + seq![0u8]);
    assert(terminated_names(names) + (encode_utf8(more@) + seq![0u8]) =~= terminated_names(names)
        + encode_utf8(more@) + seq![0u8]);
}

/// What is said of each reason a filter is refused for.
pub proof fn refusals_are_explained(e: FilterError)
    ensures
        e is Empty ==> e.text() == "Filter must not be empty"@,
        e is TooLarge ==> e.text() == "Exceeded filter size limits"@,
        e is TooManyEventIds ==> e.text() == "Too many event IDs are filtered"@,
        e is TooManyPids ==> e.text() == "Too many PIDs are filtered"@,
        e is BadExecutableName ==> e.text()
            == "Executable names must not be empty, or contain ';' or NUL"@,
        e is BadEventName ==> e.text() == "Event names must not be empty, or contain NUL"@,
{
}

} // verus!
