//! Extended data items of an event.
//!
//! Extended data coming from a trace file is untrusted: an item too short for
//! what its type promises is dropped rather than read out of bounds.
use vstd::prelude::*;

use crate::bytes;
use crate::guid;
use crate::guid::GUID;
use crate::text;

verus! {

pub const EVENT_HEADER_EXT_TYPE_RELATED_ACTIVITYID: u16 = 1;

pub const EVENT_HEADER_EXT_TYPE_SID: u16 = 2;

pub const EVENT_HEADER_EXT_TYPE_TS_ID: u16 = 3;

pub const EVENT_HEADER_EXT_TYPE_INSTANCE_INFO: u16 = 4;

pub const EVENT_HEADER_EXT_TYPE_STACK_TRACE32: u16 = 5;

pub const EVENT_HEADER_EXT_TYPE_STACK_TRACE64: u16 = 6;

pub const EVENT_HEADER_EXT_TYPE_PEBS_INDEX: u16 = 7;

pub const EVENT_HEADER_EXT_TYPE_EVENT_KEY: u16 = 10;

pub const EVENT_HEADER_EXT_TYPE_EVENT_SCHEMA_TL: u16 = 11;

pub const EVENT_HEADER_EXT_TYPE_PROV_TRAITS: u16 = 12;

pub const EVENT_HEADER_EXT_TYPE_PROCESS_START_KEY: u16 = 13;

pub const EVENT_HEADER_EXT_TYPE_CONTAINER_ID: u16 = 16;

/// Where the addresses start in a stack trace item, right after the match id.
pub const OFFSET_OF_ADDRESS_IN_ITEM: usize = 8;

/// A call stack: the match id of the event, then the return addresses.
#[derive(Debug)]
pub struct StackTraceItem<Address> where Address: Copy {
    pub match_id: u64,
    pub addresses: Vec<Address>,
}

impl<Address: Copy> StackTraceItem<Address> {
    /// Accessor for the match id
    pub fn match_id(&self) -> (r: u64)
        ensures
            r == self.match_id,
    {
        self.match_id
    }

    /// Accessor for the addresses
    pub fn addresses(&self) -> (r: &[Address])
        ensures
            r@ == self.addresses@,
    {
        self.addresses.as_slice()
    }
}

/// The 32-bit addresses of a stack trace item; trailing bytes too few for an
/// address are ignored.
pub open spec fn addresses32(d: Seq<u8>) -> Seq<u32> {
    Seq::new(((d.len() - 8) / 4) as nat, |i: int| bytes::u32_at(d, 8 + 4 * i))
}

/// The 64-bit addresses of a stack trace item; trailing bytes too few for an
/// address are ignored.
pub open spec fn addresses64(d: Seq<u8>) -> Seq<u64> {
    Seq::new(((d.len() - 8) / 8) as nat, |i: int| bytes::u64_at(d, 8 + 8 * i))
}

impl StackTraceItem<u32> {
    /// Reads a stack trace of 32-bit addresses, or nothing when the match id
    /// does not fit the item.
    pub fn from_raw32(data: &[u8]) -> (r: Option<StackTraceItem<u32>>)
        ensures
            match r {
                Some(s) => {
                    &&& data@.len() >= OFFSET_OF_ADDRESS_IN_ITEM
                    &&& s.match_id == bytes::u64_at(data@, 0)
                    &&& s.addresses@ == addresses32(data@)
                },
                None => data@.len() < OFFSET_OF_ADDRESS_IN_ITEM,
            },
    {
        if data.len() < OFFSET_OF_ADDRESS_IN_ITEM {
            return None;
        }
        let n: usize = (data.len() - OFFSET_OF_ADDRESS_IN_ITEM) / 4;
        let mut addresses: Vec<u32> = Vec::new();
        let mut i: usize = 0;
        while i < n
            invariant
                i <= n,
                n == (data@.len() - 8) / 4,
                data@.len() == data.len(),
                addresses@ == addresses32(data@).take(i as int),
            decreases n - i,
        {
            addresses.push(bytes::read_u32(data, 8 + 4 * i));
            i = i + 1;
            assert(addresses@ =~= addresses32(data@).take(i as int));
        }
        assert(addresses32(data@).take(n as int) =~= addresses32(data@));
        Some(StackTraceItem { match_id: bytes::read_u64(data, 0), addresses })
    }
}

impl StackTraceItem<u64> {
    /// Reads a stack trace of 64-bit addresses, or nothing when the match id
    /// does not fit the item.
    pub fn from_raw64(data: &[u8]) -> (r: Option<StackTraceItem<u64>>)
        ensures
            match r {
                Some(s) => {
                    &&& data@.len() >= OFFSET_OF_ADDRESS_IN_ITEM
                    &&& s.match_id == bytes::u64_at(data@, 0)
                    &&& s.addresses@ == addresses64(data@)
                },
                None => data@.len() < OFFSET_OF_ADDRESS_IN_ITEM,
            },
    {
        if data.len() < OFFSET_OF_ADDRESS_IN_ITEM {
            return None;
        }
        let n: usize = (data.len() - OFFSET_OF_ADDRESS_IN_ITEM) / 8;
        let mut addresses: Vec<u64> = Vec::new();
        let mut i: usize = 0;
        while i < n
            invariant
                i <= n,
                n == (data@.len() - 8) / 8,
                data@.len() == data.len(),
                addresses@ == addresses64(data@).take(i as int),
            decreases n - i,
        {
            addresses.push(bytes::read_u64(data, 8 + 8 * i));
            i = i + 1;
            assert(addresses@ =~= addresses64(data@).take(i as int));
        }
        assert(addresses64(data@).take(n as int) =~= addresses64(data@));
        Some(StackTraceItem { match_id: bytes::read_u64(data, 0), addresses })
    }
}

/// Length of the security identifier whose bytes start with `d`.
pub open spec fn sid_len(d: Seq<u8>) -> int {
    8 + 4 * d[1]
}

/// Whether `d` holds all of the security identifier it starts with.
pub open spec fn holds_sid(d: Seq<u8>) -> bool {
    d.len() >= 2 && sid_len(d) <= d.len()
}

/// An owned security identifier (SID).
///
/// It is only built from the complete bytes its header announces, so it can be
/// handed over to the SID-related native calls, which take no length.
#[derive(Debug)]
pub struct Sid {
    /// Revision, sub-authority count, identifier authority, then one `u32` per
    /// sub-authority
    data: Vec<u8>,
}

impl Sid {
    /// The bytes of the identifier.
    pub closed spec fn bytes(self) -> Seq<u8> {
        self.data@
    }

    #[verifier::type_invariant]
    spec fn is_complete(self) -> bool {
        self.data@.len() >= 8 && self.data@.len() == sid_len(self.data@)
    }

    /// Copies the identifier at the start of `data`, or nothing when the bytes
    /// are fewer than its header announces.
    pub fn from_raw(data: &[u8]) -> (r: Option<Sid>)
        ensures
            match r {
                Some(sid) => holds_sid(data@) && sid.bytes() == data@.take(sid_len(data@)),
                None => !holds_sid(data@),
            },
    {
        if data.len() < 2 {
            return None;
        }
        let full_len: usize = 8 + 4 * (data[1] as usize);
        if full_len > data.len() {
            return None;
        }
        let copy = bytes::copy_range(data, 0, full_len);
        assert(copy@ =~= data@.take(full_len as int));
        Some(Sid { data: copy })
    }

    /// The raw bytes, as the SID-related native calls expect them.
    pub fn as_bytes(&self) -> (r: &[u8])
        ensures
            r@ == self.bytes(),
            r@.len() >= 8,
            r@.len() == sid_len(r@),
    {
        proof {
            use_type_invariant(self);
        }
        self.data.as_slice()
    }

    /// Number of sub-authorities (5 for `S-1-5-21-...-...-...-RID`).
    pub fn sub_authority_count(&self) -> (r: u8)
        ensures
            r == self.bytes()[1],
            self.bytes().len() == 8 + 4 * r,
    {
        proof {
            use_type_invariant(self);
        }
        self.data[1]
    }

    /// The `index`-th sub-authority (0-based).
    pub fn sub_authority(&self, index: usize) -> (r: Option<u32>)
        ensures
            r == (if index < self.bytes()[1] {
                Some(bytes::u32_at(self.bytes(), 8 + 4 * index))
            } else {
                None
            }),
    {
        proof {
            use_type_invariant(self);
        }
        if index >= self.sub_authority_count() as usize {
            return None;
        }
        Some(bytes::read_u32(self.data.as_slice(), 8 + 4 * index))
    }
}

/// Identity of an event and of its parent (`EVENT_EXTENDED_ITEM_INSTANCE`).
#[derive(Debug, Clone, Copy, PartialEq, Eq, Structural)]
pub struct InstanceInfo {
    pub instance_id: u32,
    pub parent_instance_id: u32,
    pub parent_guid: GUID,
}

/// A safe representation of an extended data item
#[derive(Debug)]
pub enum ExtendedDataItem {
    /// Unexpected, too short for its type, or not implemented yet
    Unsupported,
    /// Related activity identifier
    RelatedActivityId(GUID),
    /// Security identifier of the user that logged the event
    Sid(Sid),
    /// Terminal session identifier
    TsId(u32),
    /// Instance identity
    InstanceInfo(InstanceInfo),
    /// Call stack (if the event is captured on a 32-bit computer)
    StackTrace32(StackTraceItem<u32>),
    /// Call stack (if the event is captured on a 64-bit computer)
    StackTrace64(StackTraceItem<u64>),
    /// Event name from the TraceLogging event metadata
    TraceLogging(String),
    /// Opaque provider traits data
    ProvTraits(Vec<u8>),
    /// Identifier of the container (server silo) the event was logged from
    ContainerId(GUID),
    /// Unique event identifier
    EventKey(u64),
    /// Unique process identifier (unique across the boot session)
    ProcessStartKey(u64),
}

/// An extended data item: its type and its data, which is absent when the
/// native item holds a null pointer.
#[derive(Debug)]
pub struct EventHeaderExtendedDataItem {
    pub ext_type: u16,
    pub data: Option<Vec<u8>>,
}

/// End of the tag bytes that start at `i`: the first byte below `size` with its
/// high bit unset, or `size`.
pub open spec fn tags_end(d: Seq<u8>, i: int, size: int) -> int
    decreases size - i,
{
    if i < size && d[i] >= 0x80 {
        tags_end(d, i + 1, size)
    } else {
        i
    }
}

/// Declared size of TraceLogging event metadata, bounded by the data present.
pub open spec fn tlg_size(d: Seq<u8>) -> int {
    let declared = bytes::u16_at(d, 0) as int;
    if declared <= d.len() {
        declared
    } else {
        d.len() as int
    }
}

/// The bytes of the event name in TraceLogging event metadata.
///
/// The metadata is a 16-bit total size, tag bytes up to and including the first
/// one with its high bit unset, the NUL-terminated event name, then the field
/// descriptions.
pub open spec fn tlg_name(d: Seq<u8>) -> Option<Seq<u8>> {
    if d.len() < 2 {
        None
    } else {
        let size = tlg_size(d);
        let end = tags_end(d, 2, size);
        if end >= size {
            None
        } else {
            let name = d.subrange(end + 1, size);
            let n = text::first_index(name, 0u8);
            if n < name.len() {
                Some(name.take(n as int))
            } else {
                None
            }
        }
    }
}

/// The tags end no earlier than they start, and within the metadata.
proof fn tags_end_bounds(d: Seq<u8>, i: int, size: int)
    ensures
        tags_end(d, i, size) >= i,
        i <= size ==> tags_end(d, i, size) <= size,
    decreases size - i,
{
    if i < size && d[i] >= 0x80 {
        tags_end_bounds(d, i + 1, size);
    }
}

/// Whether an item of type `t` with data `d` is understood and complete.
pub open spec fn is_supported(t: u16, d: Seq<u8>) -> bool {
    if t == EVENT_HEADER_EXT_TYPE_RELATED_ACTIVITYID || t == EVENT_HEADER_EXT_TYPE_CONTAINER_ID {
        d.len() >= 16
    } else if t == EVENT_HEADER_EXT_TYPE_SID {
        holds_sid(d)
    } else if t == EVENT_HEADER_EXT_TYPE_TS_ID {
        d.len() >= 4
    } else if t == EVENT_HEADER_EXT_TYPE_INSTANCE_INFO {
        d.len() >= 24
    } else if t == EVENT_HEADER_EXT_TYPE_STACK_TRACE32 || t == EVENT_HEADER_EXT_TYPE_STACK_TRACE64
        || t == EVENT_HEADER_EXT_TYPE_PROCESS_START_KEY || t == EVENT_HEADER_EXT_TYPE_EVENT_KEY {
        d.len() >= 8
    } else {
        t == EVENT_HEADER_EXT_TYPE_EVENT_SCHEMA_TL || t == EVENT_HEADER_EXT_TYPE_PROV_TRAITS
    }
}

/// Whether `item` is what an extended data item of type `t` with data `d`
/// decodes to.
pub open spec fn decodes_to(t: u16, d: Seq<u8>, item: ExtendedDataItem) -> bool {
    match item {
        ExtendedDataItem::Unsupported => !is_supported(t, d),
        ExtendedDataItem::RelatedActivityId(g) => {
            &&& t == EVENT_HEADER_EXT_TYPE_RELATED_ACTIVITYID
            &&& is_supported(t, d)
            &&& g == guid::guid_at(d, 0)
        },
        ExtendedDataItem::Sid(sid) => {
            &&& t == EVENT_HEADER_EXT_TYPE_SID
            &&& is_supported(t, d)
            &&& sid.bytes() == d.take(sid_len(d))
        },
        ExtendedDataItem::TsId(id) => {
            &&& t == EVENT_HEADER_EXT_TYPE_TS_ID
            &&& is_supported(t, d)
            &&& id == bytes::u32_at(d, 0)
        },
        ExtendedDataItem::InstanceInfo(info) => {
            &&& t == EVENT_HEADER_EXT_TYPE_INSTANCE_INFO
            &&& is_supported(t, d)
            &&& info.instance_id == bytes::u32_at(d, 0)
            &&& info.parent_instance_id == bytes::u32_at(d, 4)
            &&& info.parent_guid == guid::guid_at(d, 8)
        },
        ExtendedDataItem::StackTrace32(s) => {
            &&& t == EVENT_HEADER_EXT_TYPE_STACK_TRACE32
            &&& is_supported(t, d)
            &&& s.match_id == bytes::u64_at(d, 0)
            &&& s.addresses@ == addresses32(d)
        },
        ExtendedDataItem::StackTrace64(s) => {
            &&& t == EVENT_HEADER_EXT_TYPE_STACK_TRACE64
            &&& is_supported(t, d)
            &&& s.match_id == bytes::u64_at(d, 0)
            &&& s.addresses@ == addresses64(d)
        },
        ExtendedDataItem::TraceLogging(name) => {
            &&& t == EVENT_HEADER_EXT_TYPE_EVENT_SCHEMA_TL
            &&& name@ == tlg_event_name(d)
        },
        ExtendedDataItem::ProvTraits(traits) => {
            &&& t == EVENT_HEADER_EXT_TYPE_PROV_TRAITS
            &&& traits@ == d
        },
        ExtendedDataItem::ContainerId(g) => {
            &&& t == EVENT_HEADER_EXT_TYPE_CONTAINER_ID
            &&& is_supported(t, d)
            &&& g == guid::guid_at(d, 0)
        },
        ExtendedDataItem::EventKey(key) => {
            &&& t == EVENT_HEADER_EXT_TYPE_EVENT_KEY
            &&& is_supported(t, d)
            &&& key == bytes::u64_at(d, 0)
        },
        ExtendedDataItem::ProcessStartKey(key) => {
            &&& t == EVENT_HEADER_EXT_TYPE_PROCESS_START_KEY
            &&& is_supported(t, d)
            &&& key == bytes::u64_at(d, 0)
        },
    }
}

/// The event name in TraceLogging event metadata, empty when there is none.
pub open spec fn tlg_event_name(d: Seq<u8>) -> Seq<char> {
    match tlg_name(d) {
        Some(name) => text::lossy_chars(name),
        None => Seq::empty(),
    }
}

/// Parses the event name out of TraceLogging event metadata.
///
/// Every read is bounded by the declared sizes: malformed metadata, such as a
/// name without terminator, yields `None`.
pub fn event_name_bytes(blob: &[u8]) -> (r: Option<&[u8]>)
    ensures
        match r {
            Some(name) => tlg_name(blob@) == Some(name@),
            None => tlg_name(blob@) is None,
        },
{
    if blob.len() < 2 {
        return None;
    }
    let declared: usize = bytes::read_u16(blob, 0) as usize;
    let size: usize = if declared <= blob.len() {
        declared
    } else {
        blob.len()
    };
    let mut end: usize = 2;
    while end < size && blob[end] >= 0x80
        invariant
            2 <= end,
            end < size ==> end < blob@.len(),
            size <= blob@.len(),
            tags_end(blob@, 2, size as int) == tags_end(blob@, end as int, size as int),
        decreases size - end,
    {
        end = end + 1;
    }
    if end >= size {
        return None;
    }
    let name = vstd::slice::slice_subrange(blob, end + 1, size);
    match memchr::memchr(0, name) {
        Some(n) => {
            proof {
                text::first_index_is(name@, 0u8, n as int);
            }
            let r = vstd::slice::slice_subrange(name, 0, n);
            assert(r@ =~= name@.take(n as int));
            Some(r)
        },
        None => {
            proof {
                text::first_index_is(name@, 0u8, name@.len() as int);
            }
            None
        },
    }
}

impl EventHeaderExtendedDataItem {
    /// The type of the item.
    pub fn data_type(&self) -> (r: u16)
        ensures
            r == self.ext_type,
    {
        self.ext_type
    }

    /// Whether the item holds TraceLogging event metadata.
    pub fn is_tlg(&self) -> (r: bool)
        ensures
            r == (self.ext_type == EVENT_HEADER_EXT_TYPE_EVENT_SCHEMA_TL),
    {
        self.ext_type == EVENT_HEADER_EXT_TYPE_EVENT_SCHEMA_TL
    }

    /// The event name of TraceLogging metadata.
    pub fn get_event_name(&self) -> (r: Option<String>)
        ensures
            match r {
                Some(name) => {
                    &&& self.data is Some
                    &&& tlg_name(self.data->0@) is Some
                    &&& name@ == tlg_event_name(self.data->0@)
                },
                None => self.data is None || tlg_name(self.data->0@) is None,
            },
    {
        match &self.data {
            Some(data) => match event_name_bytes(data.as_slice()) {
                Some(name) => Some(text::decode_utf8_lossy(name)),
                None => None,
            },
            None => None,
        }
    }

    /// Returns this extended data as a variant of [`ExtendedDataItem`].
    pub fn to_extended_data_item(&self) -> (r: ExtendedDataItem)
        ensures
            match self.data {
                Some(data) => decodes_to(self.ext_type, data@, r),
                None => r is Unsupported,
            },
    {
        let data: &[u8] = match &self.data {
            Some(data) => data.as_slice(),
            None => {
                return ExtendedDataItem::Unsupported;
            },
        };
        let n: usize = data.len();
        assert(data@.subrange(0, n as int) =~= data@);
        match self.ext_type {
            EVENT_HEADER_EXT_TYPE_RELATED_ACTIVITYID => if n >= 16 {
                ExtendedDataItem::RelatedActivityId(guid::read_guid(data, 0))
            } else {
                ExtendedDataItem::Unsupported
            },
            EVENT_HEADER_EXT_TYPE_SID => match Sid::from_raw(data) {
                Some(sid) => ExtendedDataItem::Sid(sid),
                None => ExtendedDataItem::Unsupported,
            },
            EVENT_HEADER_EXT_TYPE_TS_ID => if n >= 4 {
                ExtendedDataItem::TsId(bytes::read_u32(data, 0))
            } else {
                ExtendedDataItem::Unsupported
            },
            EVENT_HEADER_EXT_TYPE_INSTANCE_INFO => if n >= 24 {
                ExtendedDataItem::InstanceInfo(
                    InstanceInfo {
                        instance_id: bytes::read_u32(data, 0),
                        parent_instance_id: bytes::read_u32(data, 4),
                        parent_guid: guid::read_guid(data, 8),
                    },
                )
            } else {
                ExtendedDataItem::Unsupported
            },
            EVENT_HEADER_EXT_TYPE_STACK_TRACE32 => match StackTraceItem::from_raw32(data) {
                Some(stack) => ExtendedDataItem::StackTrace32(stack),
                None => ExtendedDataItem::Unsupported,
            },
            EVENT_HEADER_EXT_TYPE_STACK_TRACE64 => match StackTraceItem::from_raw64(data) {
                Some(stack) => ExtendedDataItem::StackTrace64(stack),
                None => ExtendedDataItem::Unsupported,
            },
            EVENT_HEADER_EXT_TYPE_PROCESS_START_KEY => if n >= 8 {
                ExtendedDataItem::ProcessStartKey(bytes::read_u64(data, 0))
            } else {
                ExtendedDataItem::Unsupported
            },
            EVENT_HEADER_EXT_TYPE_EVENT_KEY => if n >= 8 {
                ExtendedDataItem::EventKey(bytes::read_u64(data, 0))
            } else {
                ExtendedDataItem::Unsupported
            },
            EVENT_HEADER_EXT_TYPE_EVENT_SCHEMA_TL => match self.get_event_name() {
                Some(name) => ExtendedDataItem::TraceLogging(name),
                None => ExtendedDataItem::TraceLogging(String::new()),
            },
            EVENT_HEADER_EXT_TYPE_PROV_TRAITS => ExtendedDataItem::ProvTraits(
                bytes::copy_range(data, 0, n),
            ),
            EVENT_HEADER_EXT_TYPE_CONTAINER_ID => if n >= 16 {
                ExtendedDataItem::ContainerId(guid::read_guid(data, 0))
            } else {
                ExtendedDataItem::Unsupported
            },
            _ => ExtendedDataItem::Unsupported,
        }
    }
}

/// Two results of decoding the same item agree: the type and the data of an item
/// determine its variant and everything it holds.
pub proof fn decoding_is_deterministic(
    t: u16,
    d: Seq<u8>,
    a: ExtendedDataItem,
    b: ExtendedDataItem,
)
    requires
        decodes_to(t, d, a),
        decodes_to(t, d, b),
    ensures
        a is Unsupported <==> b is Unsupported,
        a matches ExtendedDataItem::Sid(x) ==> (b matches ExtendedDataItem::Sid(y) && x.bytes()
            == y.bytes()),
        a matches ExtendedDataItem::TraceLogging(x) ==> (b matches ExtendedDataItem::TraceLogging(
            y,
        ) && x@ == y@),
        a matches ExtendedDataItem::RelatedActivityId(_) ==> a == b,
        a matches ExtendedDataItem::ContainerId(_) ==> a == b,
        a matches ExtendedDataItem::TsId(_) ==> a == b,
        a matches ExtendedDataItem::EventKey(_) ==> a == b,
        a matches ExtendedDataItem::ProcessStartKey(_) ==> a == b,
        a matches ExtendedDataItem::InstanceInfo(_) ==> a == b,
        a matches ExtendedDataItem::StackTrace32(x) ==> (b matches ExtendedDataItem::StackTrace32(
            y,
        ) && x.match_id == y.match_id && x.addresses@ == y.addresses@),
        a matches ExtendedDataItem::StackTrace64(x) ==> (b matches ExtendedDataItem::StackTrace64(
            y,
        ) && x.match_id == y.match_id && x.addresses@ == y.addresses@),
        a matches ExtendedDataItem::ProvTraits(x) ==> (b matches ExtendedDataItem::ProvTraits(y)
            && x@ == y@),
{
}

/// The event name lies inside the data present, whatever sizes the metadata
/// declares, and holds no NUL.
pub proof fn tlg_name_is_bounded(d: Seq<u8>)
    ensures
        tlg_name(d) matches Some(name) ==> name.len() + 4 <= d.len() && forall|i: int|
            0 <= i < name.len() ==> name[i] != 0,
{
    if d.len() >= 2 {
        let size = tlg_size(d);
        let end = tags_end(d, 2, size);
        tags_end_bounds(d, 2, size);
        if end < size {
            text::first_index_properties(d.subrange(end + 1, size), 0u8);
        }
    }
}

/// An item that is too short for its type, or whose type is not known, is not
/// supported, and every other one is: types are known by their numbers.
pub proof fn complete_items_are_supported(t: u16, d: Seq<u8>, item: ExtendedDataItem)
    requires
        decodes_to(t, d, item),
    ensures
        !(item is Unsupported) <==> {
            ||| (t == 1 || t == 16) && d.len() >= 16
            ||| t == 2 && d.len() >= 2 && d.len() >= 8 + 4 * d[1]
            ||| t == 3 && d.len() >= 4
            ||| t == 4 && d.len() >= 24
            ||| (t == 5 || t == 6 || t == 10 || t == 13) && d.len() >= 8
            ||| t == 11
            ||| t == 12
        },
{
}

/// Whether `g` stands in the sixteen bytes at `at`.
pub open spec fn is_stored_guid(d: Seq<u8>, at: int, g: GUID) -> bool {
    &&& g.data1 == bytes::little_endian(d.subrange(at, at + 4))
    &&& g.data2 == bytes::little_endian(d.subrange(at + 4, at + 6))
    &&& g.data3 == bytes::little_endian(d.subrange(at + 6, at + 8))
    &&& g.data4 == bytes::big_endian(d.subrange(at + 8, at + 16))
}

/// What an item holds are the numbers and identifiers that stand in its data, each
/// at its place.
pub proof fn items_hold_their_data(t: u16, d: Seq<u8>, item: ExtendedDataItem, i: int)
    requires
        decodes_to(t, d, item),
        0 <= i,
    ensures
        match item {
            ExtendedDataItem::Unsupported => true,
            ExtendedDataItem::RelatedActivityId(g) => t == 1 && is_stored_guid(d, 0, g),
            ExtendedDataItem::Sid(sid) => t == 2 && sid.bytes() == d.subrange(0, 8 + 4 * d[1]),
            ExtendedDataItem::TsId(id) => t == 3 && id == bytes::little_endian(d.subrange(0, 4)),
            ExtendedDataItem::InstanceInfo(info) => {
                &&& t == 4
                &&& info.instance_id == bytes::little_endian(d.subrange(0, 4))
                &&& info.parent_instance_id == bytes::little_endian(d.subrange(4, 8))
                &&& is_stored_guid(d, 8, info.parent_guid)
            },
            ExtendedDataItem::StackTrace32(s) => {
                &&& t == 5
                &&& s.match_id == bytes::little_endian(d.subrange(0, 8))
                &&& s.addresses@.len() == (d.len() - 8) / 4
                &&& i < s.addresses@.len() ==> s.addresses@[i] == bytes::little_endian(
                    d.subrange(8 + 4 * i, 12 + 4 * i),
                )
            },
            ExtendedDataItem::StackTrace64(s) => {
                &&& t == 6
                &&& s.match_id == bytes::little_endian(d.subrange(0, 8))
                &&& s.addresses@.len() == (d.len() - 8) / 8
                &&& i < s.addresses@.len() ==> s.addresses@[i] == bytes::little_endian(
                    d.subrange(8 + 8 * i, 16 + 8 * i),
                )
            },
            ExtendedDataItem::TraceLogging(_) => t == 11,
            ExtendedDataItem::ProvTraits(traits) => t == 12 && traits@ == d,
            ExtendedDataItem::ContainerId(g) => t == 16 && is_stored_guid(d, 0, g),
            ExtendedDataItem::EventKey(key) => t == 10 && key == bytes::little_endian(
                d.subrange(0, 8),
            ),
            ExtendedDataItem::ProcessStartKey(key) => t == 13 && key == bytes::little_endian(
                d.subrange(0, 8),
            ),
        },
{
    bytes::stored_numbers_are_little_endian(d, 0);
    bytes::stored_numbers_are_little_endian(d, 4);
    bytes::stored_numbers_are_little_endian(d, 8 + 4 * i);
    bytes::stored_numbers_are_little_endian(d, 8 + 8 * i);
    if d.len() >= 16 {
        guid::stored_fields(d, 0);
    }
    if d.len() >= 24 {
        guid::stored_fields(d, 8);
    }
    if let ExtendedDataItem::Sid(_) = item {
        assert(d.take(sid_len(d)) =~= d.subrange(0, 8 + 4 * d[1]));
    }
}

/// The event name that was written into TraceLogging metadata is read: it stands
/// behind the size of two bytes and the tags, all of which but the last have their
/// high bit set, and ends with a NUL. What follows it does not matter.
pub proof fn written_event_names_are_read(
    size: u16,
    tags: Seq<u8>,
    last_tag: u8,
    chars: Seq<char>,
    after: Seq<u8>,
)
    requires
        forall|i: int| 0 <= i < tags.len() ==> tags[i] >= 0x80,
        last_tag < 0x80,
        forall|i: int|
            0 <= i < vstd::utf8::encode_utf8(chars).len() ==> vstd::utf8::encode_utf8(chars)[i]
                != 0,
        2 + tags.len() + 1 + vstd::utf8::encode_utf8(chars).len() + 1 <= size,
    ensures
        ({
            let d = bytes::u16_bytes(size) + tags + seq![last_tag] + vstd::utf8::encode_utf8(chars)
                + seq![0u8] + after;
            &&& tlg_name(d) == Some(vstd::utf8::encode_utf8(chars))
            &&& tlg_event_name(d) == chars
        }),
{
    let name = vstd::utf8::encode_utf8(chars);
    let d = bytes::u16_bytes(size) + tags + seq![last_tag] + name + seq![0u8] + after;
    let rest = tags + seq![last_tag] + name + seq![0u8] + after;
    bytes::u16_round_trip(Seq::empty(), size, rest);
    assert(Seq::<u8>::empty() + bytes::u16_bytes(size) + rest =~= d);
    let bound = tlg_size(d);
    let end = 2 + tags.len() as int;
    assert(d[end] == last_tag);
    assert forall|i: int| 2 <= i < end implies d[i] >= 0x80 by {
        assert(d[i] == tags[i - 2]);
    }
    tags_end_is(d, 2, bound, end);
    let tail = d.subrange(end + 1, bound);
    let n = name.len() as int;
    assert(tail[n] == d[end + 1 + n]);
    assert forall|i: int| 0 <= i < n implies tail[i] != 0 by {
        assert(tail[i] == name[i]);
    }
    text::first_index_is(tail, 0u8, n);
    assert(tail.take(n) =~= name);
    vstd::utf8::encode_utf8_valid_utf8(chars);
    vstd::utf8::encode_utf8_decode_utf8(chars);
}

proof fn tags_end_is(d: Seq<u8>, i: int, size: int, end: int)
    requires
        i <= end < size,
        forall|k: int| i <= k < end ==> d[k] >= 0x80,
        d[end] < 0x80,
    ensures
        tags_end(d, i, size) == end,
    decreases end - i,
{
    if i < end {
        tags_end_is(d, i + 1, size, end);
    }
}

proof fn tags_end_stays(d: Seq<u8>, trailing: Seq<u8>, i: int, size: int)
    requires
        0 <= i,
        size <= d.len(),
    ensures
        tags_end(d + trailing, i, size) == tags_end(d, i, size),
        i <= tags_end(d, i, size),
    decreases size - i,
{
    if i < size {
        tags_end_stays(d, trailing, i + 1, size);
    }
}

/// Metadata ends where its size says: what follows it is not read.
pub proof fn what_follows_the_metadata_is_ignored(d: Seq<u8>, trailing: Seq<u8>)
    requires
        d.len() >= 2,
        bytes::little_endian(d.subrange(0, 2)) <= d.len(),
    ensures
        tlg_name(d + trailing) == tlg_name(d),
        tlg_event_name(d + trailing) == tlg_event_name(d),
{
    bytes::stored_numbers_are_little_endian(d, 0);
    let size = tlg_size(d);
    assert(bytes::u16_at(d + trailing, 0) == bytes::u16_at(d, 0));
    assert(tlg_size(d + trailing) == size);
    tags_end_stays(d, trailing, 2, size);
    let end = tags_end(d, 2, size);
    if end < size {
        assert((d + trailing).subrange(end + 1, size) =~= d.subrange(end + 1, size));
    }
}

} // verus!
