//! Event schemas, as the trace data helper library (TDH) reports them.
use vstd::prelude::*;

use crate::bytes;
use crate::guid;
use crate::guid::GUID;
use crate::native::etw_types::DecodingSource;
use crate::native::tdh_types;
use crate::native::tdh_types::{
    EventPropertyInfo, Property, PropertyCount, PropertyFlags, PropertyInfo, PROPERTY_PARAM_COUNT,
    PROPERTY_STRUCT,
};
use crate::text;

verus! {

/// The status TDH answers when the buffer is missing or too small.
pub const ERROR_INSUFFICIENT_BUFFER: u32 = 122;

/// Errors of the TDH calls
#[derive(Debug, Clone, Copy, PartialEq, Eq, Structural)]
pub enum TdhNativeError {
    /// The buffer cannot be allocated
    AllocationError,
    /// The call failed with this Win32 status
    IoError(u32),
}

pub type TdhNativeResult<T> = Result<T, TdhNativeError>;

/// The error of a call that returned `status`.
pub fn io_error_from_win32(status: u32) -> (r: TdhNativeError)
    ensures
        r == TdhNativeError::IoError(status),
{
    TdhNativeError::IoError(status)
}

/// Size of the fixed part of a schema buffer (`TRACE_EVENT_INFO` up to its
/// property array).
pub const INFO_SIZE: usize = 112;

/// Size of one entry of the property array (`EVENT_PROPERTY_INFO`).
pub const ENTRY_SIZE: usize = 24;

/// Alignment of a schema buffer.
pub const INFO_ALIGN: usize = 8;

/// A schema buffer: the fixed part, the property array, then the strings.
#[derive(Debug)]
pub struct TraceEventInfo {
    data: Vec<u8>,
}

/// Number of entries of the property array that lie inside the buffer.
pub open spec fn entry_count(d: Seq<u8>) -> int {
    let declared = bytes::u32_at(d, 100) as int;
    let room = (d.len() - INFO_SIZE) / ENTRY_SIZE as int;
    if declared <= room {
        declared
    } else {
        room
    }
}

/// Number of entries that describe top-level properties: they come first.
pub open spec fn top_level_count(d: Seq<u8>) -> int {
    let declared = bytes::u32_at(d, 104) as int;
    if declared <= entry_count(d) {
        declared
    } else {
        entry_count(d)
    }
}

/// The `i`-th entry of the property array.
pub open spec fn entry_at(d: Seq<u8>, i: int) -> EventPropertyInfo {
    let at = INFO_SIZE + ENTRY_SIZE * i;
    EventPropertyInfo {
        flags: bytes::u32_at(d, at),
        name_offset: bytes::u32_at(d, at + 4),
        in_type: bytes::u16_at(d, at + 8),
        out_type: bytes::u16_at(d, at + 10),
        count: bytes::u16_at(d, at + 16),
        length: bytes::u16_at(d, at + 18),
    }
}

/// The NUL-terminated UTF-16 string at `offset`; it ends with the buffer at the
/// latest.
pub open spec fn string_at(d: Seq<u8>, offset: int) -> Seq<char> {
    if offset <= d.len() {
        text::utf16_chars(text::until_nul(text::units_of(d.skip(offset))))
    } else {
        Seq::empty()
    }
}

/// The string an offset field refers to; no offset means an empty string.
pub open spec fn named_string(d: Seq<u8>, offset: u32) -> Seq<char> {
    if offset == 0 {
        Seq::empty()
    } else {
        string_at(d, offset as int)
    }
}

/// Whether an entry describes a structure.
pub open spec fn is_struct(entry: EventPropertyInfo) -> bool {
    tdh_types::has_flag(entry.flags, PROPERTY_STRUCT)
}

/// First member entry of the structure described by the `i`-th entry. Members
/// come after the structure; an entry that claims otherwise has none.
pub open spec fn member_start(d: Seq<u8>, i: int) -> int {
    let start = entry_at(d, i).in_type as int;
    if i < start && start <= entry_count(d) {
        start
    } else {
        entry_count(d)
    }
}

/// Number of member entries of the structure described by the `i`-th entry,
/// as far as they lie inside the buffer.
pub open spec fn member_count(d: Seq<u8>, i: int) -> int {
    let declared = entry_at(d, i).out_type as int;
    let room = entry_count(d) - member_start(d, i);
    if declared <= room {
        declared
    } else {
        room
    }
}

/// Whether `p` is the property that the `i`-th entry describes, structures
/// being trees of their members.
pub open spec fn is_property(d: Seq<u8>, i: int, p: Property) -> bool
    decreases entry_count(d) - i,
{
    let entry = entry_at(d, i);
    &&& 0 <= i < entry_count(d)
    &&& p.name@ == string_at(d, entry.name_offset as int)
    &&& if is_struct(entry) {
        let start = member_start(d, i);
        let n = member_count(d, i);
        match p.info {
            PropertyInfo::Struct { members } => {
                &&& tdh_types::count_of(entry) is None
                &&& members@.len() == n
                &&& forall|k: int|
                    0 <= k < n && i < start + k < entry_count(d) ==> is_property(
                        d,
                        start + k,
                        #[trigger] members@[k],
                    )
            },
            PropertyInfo::StructArray { members, count } => {
                &&& tdh_types::count_of(entry) == Some(count)
                &&& members@.len() == n
                &&& forall|k: int|
                    0 <= k < n && i < start + k < entry_count(d) ==> is_property(
                        d,
                        start + k,
                        #[trigger] members@[k],
                    )
            },
            _ => false,
        }
    } else {
        tdh_types::describes(entry, p.info)
    }
}

/// Whether `properties` are the top-level properties of the schema, in order.
pub open spec fn are_top_level(d: Seq<u8>, properties: Seq<Property>) -> bool {
    &&& properties.len() == top_level_count(d)
    &&& forall|i: int|
        0 <= i < properties.len() ==> is_property(d, i, #[trigger] properties[i])
}

/// Decides what to allocate from the answer of `TdhGetEventInformation` called
/// without a buffer: it must ask for one, of a size that can be allocated.
pub fn event_information_size(status: u32, buffer_size: u32) -> (r: TdhNativeResult<usize>)
    ensures
        match r {
            Ok(size) => {
                &&& status == ERROR_INSUFFICIENT_BUFFER
                &&& 0 < buffer_size <= isize::MAX - (INFO_ALIGN - 1)
                &&& size == buffer_size
            },
            Err(TdhNativeError::IoError(code)) => status != ERROR_INSUFFICIENT_BUFFER && code
                == status,
            Err(TdhNativeError::AllocationError) => status == ERROR_INSUFFICIENT_BUFFER && !(0
                < buffer_size <= isize::MAX - (INFO_ALIGN - 1)),
        },
{
    if status != ERROR_INSUFFICIENT_BUFFER {
        return Err(io_error_from_win32(status));
    }
    if buffer_size == 0 || buffer_size as u64 > isize::MAX as u64 - 7 {
        return Err(TdhNativeError::AllocationError);
    }
    Ok(buffer_size as usize)
}

/// Decides from the answer of `TdhGetPropertySize`.
pub fn property_size(status: u32, size: u32) -> (r: TdhNativeResult<u32>)
    ensures
        r == (if status == 0 {
            Ok::<u32, TdhNativeError>(size)
        } else {
            Err(TdhNativeError::IoError(status))
        }),
{
    if status != 0 {
        return Err(io_error_from_win32(status));
    }
    Ok(size)
}

impl TraceEventInfo {
    /// The bytes of the schema buffer.
    pub closed spec fn bytes(self) -> Seq<u8> {
        self.data@
    }

    #[verifier::type_invariant]
    spec fn has_fixed_part(self) -> bool {
        self.data@.len() >= INFO_SIZE
    }

    /// Takes ownership of a schema buffer, unless it is too short for the fixed
    /// part.
    pub fn from_raw_parts(data: Vec<u8>) -> (r: Option<TraceEventInfo>)
        ensures
            match r {
                Some(info) => data@.len() >= INFO_SIZE && info.bytes() == data@,
                None => data@.len() < INFO_SIZE,
            },
    {
        if data.len() < INFO_SIZE {
            None
        } else {
            Some(TraceEventInfo { data })
        }
    }

    /// Takes the schema out of the buffer that `TdhGetEventInformation` was
    /// called with, after it returned `status`.
    pub fn build_from_event(status: u32, data: Vec<u8>) -> (r: TdhNativeResult<TraceEventInfo>)
        ensures
            match r {
                Ok(info) => status == 0 && data@.len() >= INFO_SIZE && info.bytes() == data@,
                Err(TdhNativeError::IoError(code)) => status != 0 && code == status,
                Err(TdhNativeError::AllocationError) => status == 0 && data@.len() < INFO_SIZE,
            },
    {
        if status != 0 {
            return Err(io_error_from_win32(status));
        }
        match TraceEventInfo::from_raw_parts(data) {
            Some(info) => Ok(info),
            None => Err(TdhNativeError::AllocationError),
        }
    }

    /// The provider of the event
    pub fn provider_guid(&self) -> (r: GUID)
        ensures
            r == guid::guid_at(self.bytes(), 0),
    {
        proof {
            use_type_invariant(self);
        }
        guid::read_guid(self.data.as_slice(), 0)
    }

    /// The event id
    pub fn event_id(&self) -> (r: u16)
        ensures
            r == bytes::u16_at(self.bytes(), 32),
    {
        proof {
            use_type_invariant(self);
        }
        bytes::read_u16(self.data.as_slice(), 32)
    }

    /// The event version
    pub fn event_version(&self) -> (r: u8)
        ensures
            r == self.bytes()[34],
    {
        proof {
            use_type_invariant(self);
        }
        self.data[34]
    }

    /// Where the schema comes from
    pub fn decoding_source(&self) -> (r: DecodingSource)
        ensures
            r == DecodingSource::of(bytes::u32_at(self.bytes(), 48)),
    {
        proof {
            use_type_invariant(self);
        }
        DecodingSource::from_u32(bytes::read_u32(self.data.as_slice(), 48))
    }

    /// Name of the provider, empty when the schema has none
    pub fn provider_name(&self) -> (r: String)
        ensures
            r@ == named_string(self.bytes(), bytes::u32_at(self.bytes(), 52)),
    {
        self.read_name(52)
    }

    /// Name of the task, empty when the schema has none
    pub fn task_name(&self) -> (r: String)
        ensures
            r@ == named_string(self.bytes(), bytes::u32_at(self.bytes(), 68)),
    {
        self.read_name(68)
    }

    /// Name of the opcode, empty when the schema has none
    pub fn opcode_name(&self) -> (r: String)
        ensures
            r@ == named_string(self.bytes(), bytes::u32_at(self.bytes(), 72)),
    {
        self.read_name(72)
    }

    /// The string whose offset is stored at `at`.
    fn read_name(&self, at: usize) -> (r: String)
        requires
            at <= 108,
        ensures
            r@ == named_string(self.bytes(), bytes::u32_at(self.bytes(), at as int)),
    {
        proof {
            use_type_invariant(self);
        }
        let offset: u32 = bytes::read_u32(self.data.as_slice(), at);
        if offset == 0 {
            String::new()
        } else {
            self.read_string(offset)
        }
    }

    /// The NUL-terminated string at `offset`.
    fn read_string(&self, offset: u32) -> (r: String)
        ensures
            r@ == string_at(self.bytes(), offset as int),
    {
        let data = self.data.as_slice();
        if offset as usize > data.len() {
            return String::new();
        }
        let tail = vstd::slice::slice_subrange(data, offset as usize, data.len());
        assert(tail@ =~= data@.skip(offset as int));
        let units = text::code_units_until_nul(tail);
        text::decode_utf16_lossy(units.as_slice())
    }

    /// Number of entries inside the buffer.
    fn entries(&self) -> (r: usize)
        ensures
            r == entry_count(self.bytes()),
    {
        proof {
            use_type_invariant(self);
        }
        let declared: usize = bytes::read_u32(self.data.as_slice(), 100) as usize;
        let room: usize = (self.data.len() - INFO_SIZE) / ENTRY_SIZE;
        if declared <= room {
            declared
        } else {
            room
        }
    }

    /// Reads the `i`-th entry.
    fn entry(&self, i: usize) -> (r: EventPropertyInfo)
        requires
            i < entry_count(self.bytes()),
        ensures
            r == entry_at(self.bytes(), i as int),
    {
        proof {
            use_type_invariant(self);
        }
        let data = self.data.as_slice();
        assert(INFO_SIZE + ENTRY_SIZE * i + ENTRY_SIZE <= data.len());
        let at: usize = INFO_SIZE + ENTRY_SIZE * i;
        EventPropertyInfo {
            flags: bytes::read_u32(data, at),
            name_offset: bytes::read_u32(data, at + 4),
            in_type: bytes::read_u16(data, at + 8),
            out_type: bytes::read_u16(data, at + 10),
            count: bytes::read_u16(data, at + 16),
            length: bytes::read_u16(data, at + 18),
        }
    }

    /// The property that the `i`-th entry describes.
    fn property(&self, i: usize) -> (r: Property)
        requires
            i < entry_count(self.bytes()),
        ensures
            is_property(self.bytes(), i as int, r),
        decreases entry_count(self.bytes()) - i,
    {
        let entry = self.entry(i);
        let name = self.read_string(entry.name_offset);
        let flags = PropertyFlags { bits: entry.flags };
        if !flags.contains(PROPERTY_STRUCT) {
            return Property::new(name, &entry);
        }
        let n: usize = self.entries();
        let start: usize = if i < entry.in_type as usize && entry.in_type as usize <= n {
            entry.in_type as usize
        } else {
            n
        };
        let count: usize = if entry.out_type as usize <= n - start {
            entry.out_type as usize
        } else {
            n - start
        };
        let mut members: Vec<Property> = Vec::new();
        let mut k: usize = 0;
        while k < count
            invariant
                i < n,
                n == entry_count(self.bytes()),
                start == member_start(self.bytes(), i as int),
                count == member_count(self.bytes(), i as int),
                i < start,
                start + count <= n,
                k <= count,
                members@.len() == k,
                forall|j: int|
                    0 <= j < k ==> is_property(self.bytes(), start + j, #[trigger] members@[j]),
            decreases count - k,
        {
            let member = self.property(start + k);
            members.push(member);
            k = k + 1;
        }
        if flags.contains(PROPERTY_PARAM_COUNT) {
            Property {
                name,
                info: PropertyInfo::StructArray {
                    members,
                    count: PropertyCount::Index(entry.count),
                },
            }
        } else if entry.count > 1 {
            Property {
                name,
                info: PropertyInfo::StructArray {
                    members,
                    count: PropertyCount::Count(entry.count),
                },
            }
        } else {
            Property { name, info: PropertyInfo::Struct { members } }
        }
    }

    /// Walks the top-level properties.
    pub fn properties(&self) -> (r: PropertyIterator<'_>)
        ensures
            r.info() == *self,
            r.position() == 0,
    {
        PropertyIterator::new(self)
    }
}

/// A walk over the top-level properties of a schema. Structure members are
/// reachable through their structure only.
pub struct PropertyIterator<'info> {
    next_index: usize,
    count: usize,
    te_info: &'info TraceEventInfo,
}

impl<'info> PropertyIterator<'info> {
    /// The schema the walk is over.
    pub closed spec fn info(self) -> TraceEventInfo {
        *self.te_info
    }

    /// Number of properties already handed out.
    pub closed spec fn position(self) -> int {
        self.next_index as int
    }

    #[verifier::type_invariant]
    spec fn in_bounds(self) -> bool {
        self.next_index <= self.count && self.count == top_level_count(self.te_info.bytes())
    }

    /// Starts a walk.
    pub fn new(te_info: &'info TraceEventInfo) -> (r: PropertyIterator<'info>)
        ensures
            r.info() == *te_info,
            r.position() == 0,
    {
        proof {
            use_type_invariant(te_info);
        }
        let entries: usize = te_info.entries();
        let declared: usize = bytes::read_u32(te_info.data.as_slice(), 104) as usize;
        let count: usize = if declared <= entries {
            declared
        } else {
            entries
        };
        PropertyIterator { next_index: 0, count, te_info }
    }

    /// Hands out the next top-level property.
    pub fn next(&mut self) -> (r: Option<Property>)
        ensures
            final(self).info() == old(self).info(),
            match r {
                Some(p) => {
                    &&& old(self).position() < top_level_count(old(self).info().bytes())
                    &&& final(self).position() == old(self).position() + 1
                    &&& is_property(old(self).info().bytes(), old(self).position(), p)
                },
                None => {
                    &&& old(self).position() >= top_level_count(old(self).info().bytes())
                    &&& final(self).position() == old(self).position()
                },
            },
    {
        proof {
            use_type_invariant(&*self);
        }
        if self.next_index == self.count {
            return None;
        }
        let property = self.te_info.property(self.next_index);
        self.next_index = self.next_index + 1;
        Some(property)
    }

    /// The properties that are left, in order.
    pub fn collect(self) -> (r: Vec<Property>)
        ensures
            r@.len() == top_level_count(self.info().bytes()) - self.position(),
            forall|j: int|
                0 <= j < r@.len() ==> is_property(
                    self.info().bytes(),
                    self.position() + j,
                    #[trigger] r@[j],
                ),
    {
        proof {
            use_type_invariant(&self);
        }
        let mut r: Vec<Property> = Vec::new();
        let mut i: usize = self.next_index;
        while i < self.count
            invariant
                self.next_index <= i <= self.count,
                self.count == top_level_count(self.te_info.bytes()),
                r@.len() == i - self.next_index,
                forall|j: int|
                    0 <= j < r@.len() ==> is_property(
                        self.te_info.bytes(),
                        self.next_index + j,
                        #[trigger] r@[j],
                    ),
            decreases self.count - i,
        {
            r.push(self.te_info.property(i));
            i = i + 1;
        }
        r
    }
}

/// The fields of an entry of the property array, which are little-endian numbers:
/// flags and offset of the name, in type and out type, count and length.
pub proof fn fields_of_an_entry(d: Seq<u8>, i: int)
    requires
        0 <= i,
        112 + 24 * i + 24 <= d.len(),
    ensures
        ({
            let e = entry_at(d, i);
            let at = 112 + 24 * i;
            &&& e.flags == bytes::little_endian(d.subrange(at, at + 4))
            &&& e.name_offset == bytes::little_endian(d.subrange(at + 4, at + 8))
            &&& e.in_type == bytes::little_endian(d.subrange(at + 8, at + 10))
            &&& e.out_type == bytes::little_endian(d.subrange(at + 10, at + 12))
            &&& e.count == bytes::little_endian(d.subrange(at + 16, at + 18))
            &&& e.length == bytes::little_endian(d.subrange(at + 18, at + 20))
        }),
{
    let at = 112 + 24 * i;
    bytes::stored_numbers_are_little_endian(d, at);
    bytes::stored_numbers_are_little_endian(d, at + 4);
    bytes::stored_numbers_are_little_endian(d, at + 8);
    bytes::stored_numbers_are_little_endian(d, at + 10);
    bytes::stored_numbers_are_little_endian(d, at + 16);
    bytes::stored_numbers_are_little_endian(d, at + 18);
}

/// All declared entries are read, unless the buffer ends before: then those that
/// lie inside it are. The top-level ones come first.
pub proof fn declared_entries_are_read(d: Seq<u8>)
    requires
        d.len() >= 112,
    ensures
        ({
            let declared = bytes::little_endian(d.subrange(100, 104));
            let top = bytes::little_endian(d.subrange(104, 108));
            &&& 0 <= entry_count(d) <= declared
            &&& 112 + 24 * entry_count(d) <= d.len()
            &&& entry_count(d) < declared ==> 112 + 24 * (entry_count(d) + 1) > d.len()
            &&& 0 <= top_level_count(d) <= top
            &&& top_level_count(d) <= entry_count(d)
            &&& top_level_count(d) < top ==> top_level_count(d) == entry_count(d)
        }),
{
    bytes::stored_numbers_are_little_endian(d, 100);
    bytes::stored_numbers_are_little_endian(d, 104);
}

/// A name that was written with its terminator is read, wherever it stands. No
/// offset means no name.
pub proof fn written_names_are_read(before: Seq<u8>, chars: Seq<char>, after: Seq<u8>)
    requires
        !chars.contains('\0'),
    ensures
        ({
            let d = before + (bytes::u16s_bytes(text::utf16_units(chars)) + seq![0u8, 0u8]) + after;
            &&& string_at(d, before.len() as int) == chars
            &&& 0 < before.len() <= u32::MAX ==> named_string(d, before.len() as u32) == chars
            &&& named_string(d, 0) == Seq::<char>::empty()
        }),
{
    let units = text::utf16_units(chars);
    let written = bytes::u16s_bytes(units);
    let d = before + (written + seq![0u8, 0u8]) + after;
    let tail = d.skip(before.len() as int);
    let rest = seq![0u8, 0u8] + after;
    assert(tail =~= written + rest);
    text::no_nul_units(chars);
    bytes::u16s_round_trip(Seq::empty(), units, rest);
    assert(Seq::<u8>::empty() + written + rest =~= tail);
    let all = text::units_of(tail);
    assert forall|i: int| 0 <= i < units.len() implies all[i] == units[i] by {
        assert(bytes::u16_at(tail, Seq::<u8>::empty().len() + 2 * i) == units[i]);
    }
    let n = units.len() as int;
    assert(tail[2 * n] == 0 && tail[2 * n + 1] == 0);
    assert(all[n] == 0);
    text::first_index_is(all, 0u16, n);
    assert(text::until_nul(all) =~= units);
    text::utf16_round_trip(chars);
}

/// A property is a structure if the lowest bit of its flags is set. Its members are
/// the entries it names, behind it.
pub proof fn structures_have_the_members_they_name(d: Seq<u8>, i: int, p: Property)
    requires
        is_property(d, i, p),
    ensures
        ({
            let e = entry_at(d, i);
            &&& (p.info is Struct || p.info is StructArray) <==> e.flags % 2 == 1
            &&& p.name@ == string_at(d, e.name_offset as int)
            &&& e.flags % 2 == 1 && i < e.in_type && e.in_type + e.out_type <= entry_count(d) ==> {
                let members = match p.info {
                    PropertyInfo::Struct { members } => members@,
                    PropertyInfo::StructArray { members, .. } => members@,
                    _ => Seq::empty(),
                };
                &&& members.len() == e.out_type
                &&& forall|k: int|
                    0 <= k < members.len() ==> is_property(d, e.in_type + k, #[trigger] members[k])
            }
            &&& e.flags % 2 == 1 ==> match p.info {
                PropertyInfo::StructArray { count: PropertyCount::Index(c), .. } => e.flags / 4 % 2
                    == 1 && c == e.count,
                PropertyInfo::StructArray { count: PropertyCount::Count(c), .. } => e.flags / 4 % 2
                    == 0 && c == e.count && c > 1,
                _ => e.flags / 4 % 2 == 0 && e.count <= 1,
            }
        }),
{
    tdh_types::flags_are_bits(entry_at(d, i).flags);
}

/// The members of a structure stand behind it: one that names itself, an entry in
/// front of it, or one that is not there, has none. One that names more members than
/// there are has those that are there.
pub proof fn members_stand_behind_their_structure(d: Seq<u8>, i: int)
    ensures
        ({
            let first = entry_at(d, i).in_type as int;
            let declared = entry_at(d, i).out_type as int;
            &&& first <= i || first > entry_count(d) ==> member_count(d, i) == 0
            &&& i < first <= entry_count(d) ==> {
                &&& member_start(d, i) == first
                &&& member_count(d, i) <= declared
                &&& first + member_count(d, i) <= entry_count(d)
                &&& member_count(d, i) < declared ==> first + member_count(d, i) == entry_count(d)
            }
        }),
{
}

/// The properties of an event are its top-level entries, in order: as many as the
/// schema declares, but no more than it has entries, nor than its buffer has room
/// for.
pub proof fn top_level_properties_are_the_declared_ones(d: Seq<u8>, properties: Seq<Property>, i: int)
    requires
        d.len() >= 112,
        are_top_level(d, properties),
    ensures
        properties.len() <= bytes::little_endian(d.subrange(104, 108)),
        properties.len() <= bytes::little_endian(d.subrange(100, 104)),
        112 + 24 * properties.len() <= d.len(),
        properties.len() < bytes::little_endian(d.subrange(104, 108)) ==> properties.len()
            == bytes::little_endian(d.subrange(100, 104)) || 112 + 24 * (properties.len() + 1)
            > d.len(),
        0 <= i < properties.len() ==> is_property(d, i, properties[i]),
{
    bytes::stored_numbers_are_little_endian(d, 100);
    bytes::stored_numbers_are_little_endian(d, 104);
}

} // verus!
