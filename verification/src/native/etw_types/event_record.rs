//! Event records.
use vstd::prelude::*;

use crate::guid::GUID;
use crate::native::etw_types::extended_data;
use crate::native::etw_types::extended_data::{EventHeaderExtendedDataItem, ExtendedDataItem};
use crate::native::times;
use crate::native::times::FileTime;

verus! {

/// The event was logged by a 32-bit process.
pub const EVENT_HEADER_FLAG_32_BIT_HEADER: u16 = 0x20;

/// Metadata that defines an event (`EVENT_DESCRIPTOR`)
#[derive(Debug, Clone, Copy, PartialEq, Eq, Structural)]
pub struct EventDescriptor {
    pub id: u16,
    pub version: u8,
    pub channel: u8,
    pub level: u8,
    pub opcode: u8,
    pub task: u16,
    pub keyword: u64,
}

impl Default for EventDescriptor {
    fn default() -> (r: EventDescriptor)
        ensures
            r == (EventDescriptor {
                id: 0,
                version: 0,
                channel: 0,
                level: 0,
                opcode: 0,
                task: 0,
                keyword: 0,
            }),
    {
        EventDescriptor { id: 0, version: 0, channel: 0, level: 0, opcode: 0, task: 0, keyword: 0 }
    }
}

/// Information about an event (`EVENT_HEADER`)
#[derive(Debug, Clone, Copy, PartialEq, Eq, Structural)]
pub struct EventHeader {
    pub size: u16,
    pub header_type: u16,
    pub flags: u16,
    pub event_property: u16,
    pub thread_id: u32,
    pub process_id: u32,
    pub time_stamp: i64,
    pub provider_id: GUID,
    pub descriptor: EventDescriptor,
    /// Kernel and user time in its two halves, or a processor tick count
    pub processor_time: u64,
    pub activity_id: GUID,
}

impl Default for EventHeader {
    fn default() -> (r: EventHeader)
        ensures
            r.size == 0 && r.header_type == 0 && r.flags == 0 && r.event_property == 0,
            r.thread_id == 0 && r.process_id == 0 && r.time_stamp == 0 && r.processor_time == 0,
            r.provider_id.value() == 0 && r.activity_id.value() == 0,
            r.descriptor == (EventDescriptor {
                id: 0,
                version: 0,
                channel: 0,
                level: 0,
                opcode: 0,
                task: 0,
                keyword: 0,
            }),
    {
        EventHeader {
            size: 0,
            header_type: 0,
            flags: 0,
            event_property: 0,
            thread_id: 0,
            process_id: 0,
            time_stamp: 0,
            provider_id: GUID::zeroed(),
            descriptor: EventDescriptor::default(),
            processor_time: 0,
            activity_id: GUID::zeroed(),
        }
    }
}

/// An event: its header, its extended data and its user data
#[derive(Debug)]
pub struct EventRecord {
    pub header: EventHeader,
    pub extended_data: Vec<EventHeaderExtendedDataItem>,
    pub user_data: Vec<u8>,
    /// The address at which the user data was delivered
    pub user_data_address: usize,
}

/// Index of the first item from `i` on that holds TraceLogging event metadata,
/// or the number of items when there is none.
pub open spec fn tlg_index(items: Seq<EventHeaderExtendedDataItem>, i: int) -> int
    decreases items.len() - i,
{
    if i < items.len() && items[i].ext_type
        != extended_data::EVENT_HEADER_EXT_TYPE_EVENT_SCHEMA_TL {
        tlg_index(items, i + 1)
    } else {
        i
    }
}

impl EventRecord {
    /// Size in bytes of a pointer of the process that logged the event.
    pub open spec fn spec_pointer_size(self) -> usize {
        if self.header.flags & EVENT_HEADER_FLAG_32_BIT_HEADER != 0 {
            4
        } else {
            8
        }
    }

    /// The name of a manifest-free event: the one in its first TraceLogging
    /// metadata item. Empty for an event with an id, without such an item, or
    /// with metadata that holds no name.
    pub open spec fn spec_event_name(self) -> Seq<char> {
        let items = self.extended_data@;
        let i = tlg_index(items, 0);
        if self.header.descriptor.id != 0 || i >= items.len() {
            Seq::empty()
        } else {
            match items[i].data {
                Some(data) => extended_data::tlg_event_name(data@),
                None => Seq::empty(),
            }
        }
    }

    /// The provider of the event
    pub fn provider_id(&self) -> (r: GUID)
        ensures
            r == self.header.provider_id,
    {
        self.header.provider_id
    }

    /// The event id
    pub fn event_id(&self) -> (r: u16)
        ensures
            r == self.header.descriptor.id,
    {
        self.header.descriptor.id
    }

    /// The event opcode
    pub fn opcode(&self) -> (r: u8)
        ensures
            r == self.header.descriptor.opcode,
    {
        self.header.descriptor.opcode
    }

    /// The event version
    pub fn version(&self) -> (r: u8)
        ensures
            r == self.header.descriptor.version,
    {
        self.header.descriptor.version
    }

    /// The channel the event is written to; 0 means none
    pub fn channel(&self) -> (r: u8)
        ensures
            r == self.header.descriptor.channel,
    {
        self.header.descriptor.channel
    }

    /// The event level
    pub fn level(&self) -> (r: u8)
        ensures
            r == self.header.descriptor.level,
    {
        self.header.descriptor.level
    }

    /// The task the event relates to; 0 means none
    pub fn task(&self) -> (r: u16)
        ensures
            r == self.header.descriptor.task,
    {
        self.header.descriptor.task
    }

    /// The event keyword
    pub fn keyword(&self) -> (r: u64)
        ensures
            r == self.header.descriptor.keyword,
    {
        self.header.descriptor.keyword
    }

    /// The flags of the event header
    pub fn event_flags(&self) -> (r: u16)
        ensures
            r == self.header.flags,
    {
        self.header.flags
    }

    /// The process that logged the event
    pub fn process_id(&self) -> (r: u32)
        ensures
            r == self.header.process_id,
    {
        self.header.process_id
    }

    /// The thread that logged the event
    pub fn thread_id(&self) -> (r: u32)
        ensures
            r == self.header.thread_id,
    {
        self.header.thread_id
    }

    /// The activity the event belongs to
    pub fn activity_id(&self) -> (r: GUID)
        ensures
            r == self.header.activity_id,
    {
        self.header.activity_id
    }

    /// Execution time of kernel-mode instructions, in CPU time units: the low
    /// half of the processor time.
    pub fn kernel_time(&self) -> (r: u32)
        ensures
            r == self.header.processor_time % 0x1_0000_0000,
    {
        (self.header.processor_time % 0x1_0000_0000) as u32
    }

    /// Execution time of user-mode instructions, in CPU time units: the high
    /// half of the processor time.
    pub fn user_time(&self) -> (r: u32)
        ensures
            r == self.header.processor_time / 0x1_0000_0000,
    {
        (self.header.processor_time / 0x1_0000_0000) as u32
    }

    /// Execution time in CPU ticks, for events that carry no CPU times
    pub fn processor_time(&self) -> (r: u64)
        ensures
            r == self.header.processor_time,
    {
        self.header.processor_time
    }

    /// The time stamp of the event
    pub fn raw_timestamp(&self) -> (r: i64)
        ensures
            r == self.header.time_stamp,
    {
        self.header.time_stamp
    }

    /// The time stamp of the event, as a date and time
    pub fn timestamp(&self) -> (r: time::OffsetDateTime)
        ensures
            r == times::date_time_at(times::quad_to_unix_nanos(self.header.time_stamp as int)),
    {
        FileTime::from_quad(self.header.time_stamp).as_date_time()
    }

    /// The bytes of the event's properties
    pub fn user_buffer(&self) -> (r: &[u8])
        ensures
            r@ == self.user_data@,
    {
        self.user_data.as_slice()
    }

    /// Size in bytes of a pointer of the process that logged the event
    pub fn pointer_size(&self) -> (r: usize)
        ensures
            r == self.spec_pointer_size(),
    {
        if self.event_flags() & EVENT_HEADER_FLAG_32_BIT_HEADER != 0 {
            4
        } else {
            8
        }
    }

    /// The extended data items of the event
    pub fn extended_data(&self) -> (r: &[EventHeaderExtendedDataItem])
        ensures
            r@ == self.extended_data@,
    {
        self.extended_data.as_slice()
    }

    /// The name of a manifest-free event
    pub fn event_name(&self) -> (r: String)
        ensures
            r@ == self.spec_event_name(),
    {
        if self.event_id() != 0 {
            return String::new();
        }
        let items = self.extended_data();
        let mut i: usize = 0;
        while i < items.len() && !items[i].is_tlg()
            invariant
                i <= items@.len(),
                items@ == self.extended_data@,
                tlg_index(items@, 0) == tlg_index(items@, i as int),
            decreases items@.len() - i,
        {
            i = i + 1;
        }
        if i < items.len() {
            match items[i].to_extended_data_item() {
                ExtendedDataItem::TraceLogging(name) => name,
                _ => String::new(),
            }
        } else {
            String::new()
        }
    }
}

/// Pointers are four bytes wide if the flag for events of 32-bit processes, the
/// sixth bit, is set, and else eight.
pub proof fn pointers_are_as_wide_as_those_of_the_process(record: EventRecord)
    ensures
        record.spec_pointer_size() == if record.header.flags / 32 % 2 == 1 {
            4usize
        } else {
            8usize
        },
{
    let flags = record.header.flags;
    assert(flags & 0x20 != 0 <==> flags / 32 % 2 == 1) by (bit_vector);
}

/// The name of an event without an id is that in its first item of TraceLogging
/// metadata; an event with an id, or without such an item, has none.
pub proof fn names_come_from_the_first_metadata(record: EventRecord, i: int)
    ensures
        record.header.descriptor.id != 0 ==> record.spec_event_name().len() == 0,
        (forall|k: int|
            0 <= k < record.extended_data@.len() ==> (#[trigger] record.extended_data@[k]).ext_type
                != 11) ==> record.spec_event_name().len() == 0,
        record.header.descriptor.id == 0 && 0 <= i < record.extended_data@.len()
            && record.extended_data@[i].ext_type == 11 && (forall|k: int|
            0 <= k < i ==> (#[trigger] record.extended_data@[k]).ext_type != 11)
            ==> record.spec_event_name() == (match record.extended_data@[i].data {
            Some(data) => extended_data::tlg_event_name(data@),
            None => Seq::empty(),
        }),
{
    let items = record.extended_data@;
    first_metadata(items, 0);
    if 0 <= i < items.len() && items[i].ext_type == 11 && (forall|k: int|
        0 <= k < i ==> (#[trigger] items[k]).ext_type != 11) {
        let found = tlg_index(items, 0);
        assert(found == i) by {
            if found < i {
                assert(items[found].ext_type != 11);
            }
        }
    }
}

proof fn first_metadata(items: Seq<EventHeaderExtendedDataItem>, i: int)
    requires
        0 <= i <= items.len(),
    ensures
        i <= tlg_index(items, i) <= items.len(),
        tlg_index(items, i) < items.len() ==> items[tlg_index(items, i)].ext_type == 11,
        forall|k: int| i <= k < tlg_index(items, i) ==> (#[trigger] items[k]).ext_type != 11,
    decreases items.len() - i,
{
    if i < items.len() && items[i].ext_type != 11 {
        first_metadata(items, i + 1);
    }
}

} // verus!
