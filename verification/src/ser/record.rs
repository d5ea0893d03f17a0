//! What is written of an event beside its properties: schema, header and
//! extended data.
use vstd::prelude::*;

use crate::bytes;
use crate::guid;
use crate::native::etw_types::event_record::{EventDescriptor, EventHeader};
use crate::native::etw_types::extended_data;
use crate::native::etw_types::extended_data::{EventHeaderExtendedDataItem, ExtendedDataItem};
use crate::native::tdh;
use crate::native::times::FileTime;
use crate::schema::Schema;
use crate::ser::value;
use crate::ser::value::{SerValue, SerView};
use crate::text;

verus! {

/// What is written for a schema: names without surrounding white space.
pub open spec fn schema_view(schema: Schema) -> SerView {
    let d = schema.bytes();
    SerView::Object(
        seq![
            (
                "Provider"@,
                SerView::Str(text::trimmed(tdh::named_string(d, bytes::u32_at(d, 52)))),
            ),
            ("Opcode"@, SerView::Str(text::trimmed(tdh::named_string(d, bytes::u32_at(d, 72))))),
            ("Task"@, SerView::Str(text::trimmed(tdh::named_string(d, bytes::u32_at(d, 68))))),
        ],
    )
}

fn str_value(s: &str) -> (r: SerValue)
    ensures
        r.view() == SerView::Str(s@),
{
    SerValue::Str(s.to_owned())
}

/// What is written for a schema.
pub fn ser_schema(schema: &Schema) -> (r: SerValue)
    ensures
        r.view() == schema_view(*schema),
        value::holds(
            r.view(),
            "Provider"@,
            SerView::Str(
                text::trimmed(tdh::named_string(schema.bytes(), bytes::u32_at(schema.bytes(), 52))),
            ),
        ),
        value::holds(
            r.view(),
            "Opcode"@,
            SerView::Str(
                text::trimmed(tdh::named_string(schema.bytes(), bytes::u32_at(schema.bytes(), 72))),
            ),
        ),
        value::holds(
            r.view(),
            "Task"@,
            SerView::Str(
                text::trimmed(tdh::named_string(schema.bytes(), bytes::u32_at(schema.bytes(), 68))),
            ),
        ),
        r.view()->Object_0.len() == 3,
{
    proof {
        reveal_strlit("Provider");
        reveal_strlit("Opcode");
        reveal_strlit("Task");
    }
    let mut entries: Vec<(String, SerValue)> = Vec::new();
    value::push_entry(
        &mut entries,
        "Provider",
        str_value(text::trim_white_space(schema.provider_name_cached())),
    );
    value::push_entry(
        &mut entries,
        "Opcode",
        str_value(text::trim_white_space(schema.opcode_name_cached())),
    );
    value::push_entry(
        &mut entries,
        "Task",
        str_value(text::trim_white_space(schema.task_name_cached())),
    );
    let r = SerValue::Object(entries);
    assert(r.view()->Object_0 =~= schema_view(*schema)->Object_0);
    proof {
        let held = r.view()->Object_0;
        assert(held[0].0 == "Provider"@ && held[1].0 == "Opcode"@ && held[2].0 == "Task"@);
    }
    r
}

/// What is written for a descriptor.
pub open spec fn descriptor_view(d: EventDescriptor) -> SerView {
    SerView::Object(
        seq![
            ("Id"@, SerView::UInt16(d.id)),
            ("Version"@, SerView::UInt8(d.version)),
            ("Channel"@, SerView::UInt8(d.channel)),
            ("Level"@, SerView::UInt8(d.level)),
            ("Opcode"@, SerView::UInt8(d.opcode)),
            ("Task"@, SerView::UInt16(d.task)),
            ("Keyword"@, SerView::UInt64(d.keyword)),
        ],
    )
}

/// What is written for a descriptor.
pub fn ser_descriptor(d: &EventDescriptor) -> (r: SerValue)
    ensures
        r.view() == descriptor_view(*d),
        value::has(r, "Id"@, SerValue::UInt16(d.id)),
        value::has(r, "Version"@, SerValue::UInt8(d.version)),
        value::has(r, "Channel"@, SerValue::UInt8(d.channel)),
        value::has(r, "Level"@, SerValue::UInt8(d.level)),
        value::has(r, "Opcode"@, SerValue::UInt8(d.opcode)),
        value::has(r, "Task"@, SerValue::UInt16(d.task)),
        value::has(r, "Keyword"@, SerValue::UInt64(d.keyword)),
        r.view()->Object_0.len() == 7,
{
    let mut entries: Vec<(String, SerValue)> = Vec::new();
    value::push_entry(&mut entries, "Id", SerValue::UInt16(d.id));
    value::push_entry(&mut entries, "Version", SerValue::UInt8(d.version));
    value::push_entry(&mut entries, "Channel", SerValue::UInt8(d.channel));
    value::push_entry(&mut entries, "Level", SerValue::UInt8(d.level));
    value::push_entry(&mut entries, "Opcode", SerValue::UInt8(d.opcode));
    value::push_entry(&mut entries, "Task", SerValue::UInt16(d.task));
    value::push_entry(&mut entries, "Keyword", SerValue::UInt64(d.keyword));
    let r = SerValue::Object(entries);
    assert(r.view()->Object_0 =~= descriptor_view(*d)->Object_0);
    proof {
        descriptors_are_written_by_name(*d);
        value::held_numbers_are_there(r, "Id"@, SerValue::UInt16(d.id));
        value::held_numbers_are_there(r, "Version"@, SerValue::UInt8(d.version));
        value::held_numbers_are_there(r, "Channel"@, SerValue::UInt8(d.channel));
        value::held_numbers_are_there(r, "Level"@, SerValue::UInt8(d.level));
        value::held_numbers_are_there(r, "Opcode"@, SerValue::UInt8(d.opcode));
        value::held_numbers_are_there(r, "Task"@, SerValue::UInt16(d.task));
        value::held_numbers_are_there(r, "Keyword"@, SerValue::UInt64(d.keyword));
    }
    r
}

/// What is written for a header.
pub open spec fn header_view(h: EventHeader) -> SerView {
    SerView::Object(
        seq![
            ("Size"@, SerView::UInt16(h.size)),
            ("HeaderType"@, SerView::UInt16(h.header_type)),
            ("Flags"@, SerView::UInt16(h.flags)),
            ("EventProperty"@, SerView::UInt16(h.event_property)),
            ("ThreadId"@, SerView::UInt32(h.thread_id)),
            ("ProcessId"@, SerView::UInt32(h.process_id)),
            ("TimeStamp"@, SerView::FileTime(FileTime::of_quad(h.time_stamp))),
            ("ProviderId"@, SerView::Guid(h.provider_id)),
            ("ActivityId"@, SerView::Guid(h.activity_id)),
            ("Descriptor"@, descriptor_view(h.descriptor)),
        ],
    )
}

/// What is written for a header.
pub fn ser_header(h: &EventHeader) -> (r: SerValue)
    ensures
        r.view() == header_view(*h),
        value::has(r, "Size"@, SerValue::UInt16(h.size)),
        value::has(r, "HeaderType"@, SerValue::UInt16(h.header_type)),
        value::has(r, "Flags"@, SerValue::UInt16(h.flags)),
        value::has(r, "EventProperty"@, SerValue::UInt16(h.event_property)),
        value::has(r, "ThreadId"@, SerValue::UInt32(h.thread_id)),
        value::has(r, "ProcessId"@, SerValue::UInt32(h.process_id)),
        exists|t: FileTime|
            #![trigger t.quad()]
            t.quad() == h.time_stamp && value::has(r, "TimeStamp"@, SerValue::FileTime(t)),
        value::has(r, "ProviderId"@, SerValue::Guid(h.provider_id)),
        value::has(r, "ActivityId"@, SerValue::Guid(h.activity_id)),
        value::holds(r.view(), "Descriptor"@, descriptor_view(h.descriptor)),
        r.view()->Object_0.len() == 10,
{
    let mut entries: Vec<(String, SerValue)> = Vec::new();
    value::push_entry(&mut entries, "Size", SerValue::UInt16(h.size));
    value::push_entry(&mut entries, "HeaderType", SerValue::UInt16(h.header_type));
    value::push_entry(&mut entries, "Flags", SerValue::UInt16(h.flags));
    value::push_entry(&mut entries, "EventProperty", SerValue::UInt16(h.event_property));
    value::push_entry(&mut entries, "ThreadId", SerValue::UInt32(h.thread_id));
    value::push_entry(&mut entries, "ProcessId", SerValue::UInt32(h.process_id));
    value::push_entry(
        &mut entries,
        "TimeStamp",
        SerValue::FileTime(FileTime::from_quad(h.time_stamp)),
    );
    value::push_entry(&mut entries, "ProviderId", SerValue::Guid(h.provider_id));
    value::push_entry(&mut entries, "ActivityId", SerValue::Guid(h.activity_id));
    value::push_entry(&mut entries, "Descriptor", ser_descriptor(&h.descriptor));
    let r = SerValue::Object(entries);
    assert(r.view()->Object_0 =~= header_view(*h)->Object_0);
    proof {
        headers_are_written_by_name(*h);
        value::held_numbers_are_there(r, "Size"@, SerValue::UInt16(h.size));
        value::held_numbers_are_there(r, "HeaderType"@, SerValue::UInt16(h.header_type));
        value::held_numbers_are_there(r, "Flags"@, SerValue::UInt16(h.flags));
        value::held_numbers_are_there(r, "EventProperty"@, SerValue::UInt16(h.event_property));
        value::held_numbers_are_there(r, "ThreadId"@, SerValue::UInt32(h.thread_id));
        value::held_numbers_are_there(r, "ProcessId"@, SerValue::UInt32(h.process_id));
        value::held_numbers_are_there(r, "ProviderId"@, SerValue::Guid(h.provider_id));
        value::held_numbers_are_there(r, "ActivityId"@, SerValue::Guid(h.activity_id));
        let t = choose|t: FileTime|
            #![trigger t.quad()]
            t.quad() == h.time_stamp && value::holds(
                header_view(*h),
                "TimeStamp"@,
                SerView::FileTime(t),
            );
        value::held_numbers_are_there(r, "TimeStamp"@, SerValue::FileTime(t));
        assert(t.quad() == h.time_stamp);
    }
    r
}

/// A value under the name of its type.
pub open spec fn tagged(name: Seq<char>, data: SerView) -> SerView {
    SerView::Object(seq![("Type"@, SerView::Str(name)), ("Data"@, data)])
}

/// A call stack: what matches it with its event, and its addresses.
pub open spec fn stack_view(match_id: u64, addresses: SerView) -> SerView {
    SerView::Object(seq![("MatchId"@, SerView::UInt64(match_id)), ("Addresses"@, addresses)])
}

/// What is written for an extended data item of type `t` with data `d`, if it is
/// supported.
pub open spec fn item_view(t: u16, d: Seq<u8>) -> Option<SerView> {
    if !extended_data::is_supported(t, d) {
        None
    } else if t == extended_data::EVENT_HEADER_EXT_TYPE_RELATED_ACTIVITYID {
        Some(tagged("RelatedActivityId"@, SerView::Guid(guid::guid_at(d, 0))))
    } else if t == extended_data::EVENT_HEADER_EXT_TYPE_SID {
        Some(tagged("Sid"@, SerView::Sid(d.take(extended_data::sid_len(d)))))
    } else if t == extended_data::EVENT_HEADER_EXT_TYPE_TS_ID {
        Some(tagged("TsId"@, SerView::UInt32(bytes::u32_at(d, 0))))
    } else if t == extended_data::EVENT_HEADER_EXT_TYPE_INSTANCE_INFO {
        Some(
            tagged(
                "InstanceInfo"@,
                SerView::Object(
                    seq![
                        ("InstanceId"@, SerView::UInt32(bytes::u32_at(d, 0))),
                        ("ParentInstanceId"@, SerView::UInt32(bytes::u32_at(d, 4))),
                        ("ParentGuid"@, SerView::Guid(guid::guid_at(d, 8))),
                    ],
                ),
            ),
        )
    } else if t == extended_data::EVENT_HEADER_EXT_TYPE_STACK_TRACE32 {
        Some(
            tagged(
                "StackTrace32"@,
                stack_view(bytes::u64_at(d, 0), SerView::UInt32s(extended_data::addresses32(d))),
            ),
        )
    } else if t == extended_data::EVENT_HEADER_EXT_TYPE_STACK_TRACE64 {
        Some(
            tagged(
                "StackTrace64"@,
                stack_view(bytes::u64_at(d, 0), SerView::UInt64s(extended_data::addresses64(d))),
            ),
        )
    } else if t == extended_data::EVENT_HEADER_EXT_TYPE_EVENT_SCHEMA_TL {
        Some(tagged("TraceLogging"@, SerView::Str(extended_data::tlg_event_name(d))))
    } else if t == extended_data::EVENT_HEADER_EXT_TYPE_PROV_TRAITS {
        Some(tagged("ProvTraits"@, SerView::Bytes(d)))
    } else if t == extended_data::EVENT_HEADER_EXT_TYPE_CONTAINER_ID {
        Some(tagged("ContainerId"@, SerView::Guid(guid::guid_at(d, 0))))
    } else if t == extended_data::EVENT_HEADER_EXT_TYPE_EVENT_KEY {
        Some(tagged("EventKey"@, SerView::UInt64(bytes::u64_at(d, 0))))
    } else {
        Some(tagged("ProcessStartKey"@, SerView::UInt64(bytes::u64_at(d, 0))))
    }
}

/// What is written for an extended data item, if it is supported.
pub open spec fn extended_view(item: EventHeaderExtendedDataItem) -> Option<SerView> {
    match item.data {
        Some(d) => item_view(item.ext_type, d@),
        None => None,
    }
}

fn tag(name: &str, data: SerValue) -> (r: SerValue)
    ensures
        r.view() == tagged(name@, data.view()),
{
    let mut entries: Vec<(String, SerValue)> = Vec::new();
    value::push_entry(&mut entries, "Type", str_value(name));
    value::push_entry(&mut entries, "Data", data);
    let r = SerValue::Object(entries);
    assert(r.view()->Object_0 =~= tagged(name@, data.view())->Object_0);
    r
}

fn ser_stack(match_id: u64, addresses: SerValue) -> (r: SerValue)
    ensures
        r.view() == stack_view(match_id, addresses.view()),
{
    let mut entries: Vec<(String, SerValue)> = Vec::new();
    value::push_entry(&mut entries, "MatchId", SerValue::UInt64(match_id));
    value::push_entry(&mut entries, "Addresses", addresses);
    let r = SerValue::Object(entries);
    assert(r.view()->Object_0 =~= stack_view(match_id, addresses.view())->Object_0);
    r
}

/// What is written for an extended data item, if it is supported.
pub fn ser_extended_item(item: &EventHeaderExtendedDataItem) -> (r: Option<SerValue>)
    ensures
        match r {
            Some(v) => extended_view(*item) == Some(v.view()),
            None => extended_view(*item) is None,
        },
{
    match item.to_extended_data_item() {
        ExtendedDataItem::Unsupported => None,
        ExtendedDataItem::RelatedActivityId(g) => Some(tag("RelatedActivityId", SerValue::Guid(g))),
        ExtendedDataItem::Sid(sid) => {
            let data = sid.as_bytes();
            let copy = bytes::copy_range(data, 0, data.len());
            assert(copy@ =~= data@);
            Some(tag("Sid", SerValue::Sid(copy)))
        },
        ExtendedDataItem::TsId(id) => Some(tag("TsId", SerValue::UInt32(id))),
        ExtendedDataItem::InstanceInfo(info) => {
            let mut entries: Vec<(String, SerValue)> = Vec::new();
            value::push_entry(&mut entries, "InstanceId", SerValue::UInt32(info.instance_id));
            value::push_entry(
                &mut entries,
                "ParentInstanceId",
                SerValue::UInt32(info.parent_instance_id),
            );
            value::push_entry(&mut entries, "ParentGuid", SerValue::Guid(info.parent_guid));
            let data = SerValue::Object(entries);
            assert(data.view()->Object_0 =~= seq![
                ("InstanceId"@, SerView::UInt32(info.instance_id)),
                ("ParentInstanceId"@, SerView::UInt32(info.parent_instance_id)),
                ("ParentGuid"@, SerView::Guid(info.parent_guid)),
            ]);
            Some(tag("InstanceInfo", data))
        },
        ExtendedDataItem::StackTrace32(s) => Some(
            tag("StackTrace32", ser_stack(s.match_id, SerValue::UInt32s(s.addresses))),
        ),
        ExtendedDataItem::StackTrace64(s) => Some(
            tag("StackTrace64", ser_stack(s.match_id, SerValue::UInt64s(s.addresses))),
        ),
        ExtendedDataItem::TraceLogging(name) => Some(tag("TraceLogging", SerValue::Str(name))),
        ExtendedDataItem::ProvTraits(traits) => Some(tag("ProvTraits", SerValue::Bytes(traits))),
        ExtendedDataItem::ContainerId(g) => Some(tag("ContainerId", SerValue::Guid(g))),
        ExtendedDataItem::EventKey(key) => Some(tag("EventKey", SerValue::UInt64(key))),
        ExtendedDataItem::ProcessStartKey(key) => Some(
            tag("ProcessStartKey", SerValue::UInt64(key)),
        ),
    }
}

/// What is written for extended data items: unsupported ones are skipped, or the
/// type of the first of them is reported.
pub open spec fn extended_list(
    items: Seq<EventHeaderExtendedDataItem>,
    fail_unimplemented: bool,
) -> Result<Seq<SerView>, u16>
    decreases items.len(),
{
    if items.len() == 0 {
        Ok(Seq::empty())
    } else {
        match extended_list(items.drop_last(), fail_unimplemented) {
            Err(t) => Err(t),
            Ok(before) => match extended_view(items.last()) {
                Some(v) => Ok(before.push(v)),
                None => if fail_unimplemented {
                    Err(items.last().ext_type)
                } else {
                    Ok(before)
                },
            },
        }
    }
}

/// Unless failing is asked for, extended data is not refused.
pub proof fn extended_is_skipped(items: Seq<EventHeaderExtendedDataItem>)
    ensures
        extended_list(items, false) is Ok,
    decreases items.len(),
{
    if items.len() > 0 {
        extended_is_skipped(items.drop_last());
    }
}

proof fn extended_stays(items: Seq<EventHeaderExtendedDataItem>, n: int, fail: bool)
    requires
        0 <= n <= items.len(),
        extended_list(items.take(n), fail) is Err,
    ensures
        extended_list(items, fail) == extended_list(items.take(n), fail),
    decreases items.len() - n,
{
    if n < items.len() {
        assert(items.take(n + 1).drop_last() =~= items.take(n));
        extended_stays(items, n + 1, fail);
    } else {
        assert(items.take(n) =~= items);
    }
}

/// What is written for extended data items, or the type of the first that cannot
/// be written.
pub fn ser_extended(items: &[EventHeaderExtendedDataItem], fail_unimplemented: bool) -> (r: Result<
    SerValue,
    u16,
>)
    ensures
        match r {
            Ok(v) => match extended_list(items@, fail_unimplemented) {
                Ok(list) => v.view() == SerView::List(list),
                Err(_) => false,
            },
            Err(t) => extended_list(items@, fail_unimplemented) == Err::<Seq<SerView>, u16>(t),
        },
{
    let mut list: Vec<SerValue> = Vec::new();
    let mut i: usize = 0;
    while i < items.len()
        invariant
            i <= items@.len(),
            extended_list(items@.take(i as int), fail_unimplemented) == Ok::<Seq<SerView>, u16>(
                value::list_view(list@),
            ),
        decreases items.len() - i,
    {
        assert(items@.take(i + 1).drop_last() =~= items@.take(i as int));
        match ser_extended_item(&items[i]) {
            Some(v) => {
                proof {
                    value::pushed_value(list@, v);
                }
                list.push(v);
            },
            None => {
                if fail_unimplemented {
                    proof {
                        extended_stays(items@, i + 1, fail_unimplemented);
                    }
                    return Err(items[i].data_type());
                }
            },
        }
        i += 1;
    }
    assert(items@.take(i as int) =~= items@);
    Ok(SerValue::List(list))
}

/// What is written for a header, name by name.
pub proof fn headers_are_written_by_name(h: EventHeader)
    ensures
        value::holds(header_view(h), "Size"@, SerView::UInt16(h.size)),
        value::holds(header_view(h), "HeaderType"@, SerView::UInt16(h.header_type)),
        value::holds(header_view(h), "Flags"@, SerView::UInt16(h.flags)),
        value::holds(header_view(h), "EventProperty"@, SerView::UInt16(h.event_property)),
        value::holds(header_view(h), "ThreadId"@, SerView::UInt32(h.thread_id)),
        value::holds(header_view(h), "ProcessId"@, SerView::UInt32(h.process_id)),
        exists|t: FileTime|
            #![trigger t.quad()]
            t.quad() == h.time_stamp && value::holds(
                header_view(h),
                "TimeStamp"@,
                SerView::FileTime(t),
            ),
        value::holds(header_view(h), "ProviderId"@, SerView::Guid(h.provider_id)),
        value::holds(header_view(h), "ActivityId"@, SerView::Guid(h.activity_id)),
        value::holds(header_view(h), "Descriptor"@, descriptor_view(h.descriptor)),
        header_view(h)->Object_0.len() == 10,
        exists|d: SerView|
            #![trigger value::holds(header_view(h), "Descriptor"@, d)]
            {
                &&& value::holds(header_view(h), "Descriptor"@, d)
                &&& value::holds(d, "Id"@, SerView::UInt16(h.descriptor.id))
                &&& value::holds(d, "Version"@, SerView::UInt8(h.descriptor.version))
                &&& value::holds(d, "Channel"@, SerView::UInt8(h.descriptor.channel))
                &&& value::holds(d, "Level"@, SerView::UInt8(h.descriptor.level))
                &&& value::holds(d, "Opcode"@, SerView::UInt8(h.descriptor.opcode))
                &&& value::holds(d, "Task"@, SerView::UInt16(h.descriptor.task))
                &&& value::holds(d, "Keyword"@, SerView::UInt64(h.descriptor.keyword))
                &&& d->Object_0.len() == 7
            },
{
    reveal_strlit("Size");
    reveal_strlit("HeaderType");
    reveal_strlit("Flags");
    reveal_strlit("EventProperty");
    reveal_strlit("ThreadId");
    reveal_strlit("ProcessId");
    reveal_strlit("TimeStamp");
    reveal_strlit("ProviderId");
    reveal_strlit("ActivityId");
    reveal_strlit("Descriptor");
    assert("ProcessId"@[0] == 'P' && "TimeStamp"@[0] == 'T');
    assert("HeaderType"@[0] == 'H' && "ProviderId"@[0] == 'P' && "ActivityId"@[0] == 'A'
        && "Descriptor"@[0] == 'D');
    let all = header_view(h)->Object_0;
    assert(all[9].0 == "Descriptor"@ && all[8].0 == "ActivityId"@);
    assert(all[7].0 == "ProviderId"@ && all[6].0 == "TimeStamp"@);
    assert(all[5].0 == "ProcessId"@ && all[4].0 == "ThreadId"@);
    assert(all[3].0 == "EventProperty"@ && all[2].0 == "Flags"@);
    assert(all[1].0 == "HeaderType"@ && all[0].0 == "Size"@);
    let t = FileTime::of_quad(h.time_stamp);
    assert(t.quad() == h.time_stamp);
    assert(value::holds(header_view(h), "TimeStamp"@, SerView::FileTime(t)));
    assert(value::holds(header_view(h), "Descriptor"@, descriptor_view(h.descriptor)));
    descriptors_are_written_by_name(h.descriptor);
}

/// What is written for a descriptor, name by name.
pub proof fn descriptors_are_written_by_name(d: EventDescriptor)
    ensures
        value::holds(descriptor_view(d), "Id"@, SerView::UInt16(d.id)),
        value::holds(descriptor_view(d), "Version"@, SerView::UInt8(d.version)),
        value::holds(descriptor_view(d), "Channel"@, SerView::UInt8(d.channel)),
        value::holds(descriptor_view(d), "Level"@, SerView::UInt8(d.level)),
        value::holds(descriptor_view(d), "Opcode"@, SerView::UInt8(d.opcode)),
        value::holds(descriptor_view(d), "Task"@, SerView::UInt16(d.task)),
        value::holds(descriptor_view(d), "Keyword"@, SerView::UInt64(d.keyword)),
        descriptor_view(d)->Object_0.len() == 7,
{
    reveal_strlit("Id");
    reveal_strlit("Version");
    reveal_strlit("Channel");
    reveal_strlit("Level");
    reveal_strlit("Opcode");
    reveal_strlit("Task");
    reveal_strlit("Keyword");
    assert("Version"@[0] == 'V' && "Channel"@[0] == 'C' && "Keyword"@[0] == 'K');
    let all = descriptor_view(d)->Object_0;
    assert(all[6].0 == "Keyword"@ && all[5].0 == "Task"@ && all[4].0 == "Opcode"@);
    assert(all[3].0 == "Level"@ && all[2].0 == "Channel"@ && all[1].0 == "Version"@);
    assert(all[0].0 == "Id"@);
}

/// Two headers that are written alike agree in each of their numbers.
pub proof fn headers_are_told_apart(a: EventHeader, b: EventHeader)
    requires
        header_view(a) == header_view(b),
    ensures
        a.thread_id == b.thread_id,
        a.process_id == b.process_id,
        a.time_stamp == b.time_stamp,
        a.provider_id == b.provider_id,
        a.activity_id == b.activity_id,
        a.descriptor.id == b.descriptor.id,
        a.descriptor.version == b.descriptor.version,
        a.descriptor.keyword == b.descriptor.keyword,
{
    let x = header_view(a)->Object_0;
    let y = header_view(b)->Object_0;
    assert(x[4] == y[4] && x[5] == y[5] && x[6] == y[6] && x[7] == y[7] && x[8] == y[8] && x[9]
        == y[9]);
    assert(FileTime::of_quad(a.time_stamp).quad() == a.time_stamp);
    assert(FileTime::of_quad(b.time_stamp).quad() == b.time_stamp);
    let d = descriptor_view(a.descriptor)->Object_0;
    let e = descriptor_view(b.descriptor)->Object_0;
    assert(d[0] == e[0] && d[1] == e[1] && d[6] == e[6]);
}

/// What is written for a schema, name by name.
pub proof fn schemas_are_written_by_name(schema: Schema)
    ensures
        ({
            let d = schema.bytes();
            let v = schema_view(schema);
            &&& value::holds(
                v,
                "Provider"@,
                SerView::Str(text::trimmed(tdh::named_string(d, bytes::u32_at(d, 52)))),
            )
            &&& value::holds(
                v,
                "Task"@,
                SerView::Str(text::trimmed(tdh::named_string(d, bytes::u32_at(d, 68)))),
            )
            &&& value::holds(
                v,
                "Opcode"@,
                SerView::Str(text::trimmed(tdh::named_string(d, bytes::u32_at(d, 72)))),
            )
            &&& v->Object_0.len() == 3
        }),
{
    reveal_strlit("Provider");
    reveal_strlit("Opcode");
    reveal_strlit("Task");
    let all = schema_view(schema)->Object_0;
    assert(all[0].0 == "Provider"@ && all[1].0 == "Opcode"@ && all[2].0 == "Task"@);
}

/// Whether `v` is the item with `data`, written under the name of its type.
pub open spec fn is_item(v: Option<SerView>, name: Seq<char>, data: SerView) -> bool {
    v matches Some(x) && {
        &&& value::holds(x, "Type"@, SerView::Str(name))
        &&& value::holds(x, "Data"@, data)
        &&& x->Object_0.len() == 2
    }
}

/// A value is written under the name of its type.
pub proof fn items_have_type_and_data(name: Seq<char>, data: SerView)
    ensures
        is_item(Some(tagged(name, data)), name, data),
{
    reveal_strlit("Type");
    reveal_strlit("Data");
    assert("Type"@[0] == 'T' && "Data"@[0] == 'D');
    let all = tagged(name, data)->Object_0;
    assert(all[0].0 == "Type"@ && all[1].0 == "Data"@);
}

/// What is written for a call stack, name by name.
pub proof fn stacks_are_written_by_name(match_id: u64, addresses: SerView)
    ensures
        value::holds(stack_view(match_id, addresses), "MatchId"@, SerView::UInt64(match_id)),
        value::holds(stack_view(match_id, addresses), "Addresses"@, addresses),
        stack_view(match_id, addresses)->Object_0.len() == 2,
{
    reveal_strlit("MatchId");
    reveal_strlit("Addresses");
    let all = stack_view(match_id, addresses)->Object_0;
    assert(all[0].0 == "MatchId"@ && all[1].0 == "Addresses"@);
}

spec fn instance_view(instance_id: u32, parent_instance_id: u32, parent_guid: guid::GUID) -> SerView {
    SerView::Object(
        seq![
            ("InstanceId"@, SerView::UInt32(instance_id)),
            ("ParentInstanceId"@, SerView::UInt32(parent_instance_id)),
            ("ParentGuid"@, SerView::Guid(parent_guid)),
        ],
    )
}

proof fn instances_are_written_by_name(
    instance_id: u32,
    parent_instance_id: u32,
    parent_guid: guid::GUID,
)
    ensures
        ({
            let v = instance_view(instance_id, parent_instance_id, parent_guid);
            &&& value::holds(v, "InstanceId"@, SerView::UInt32(instance_id))
            &&& value::holds(v, "ParentInstanceId"@, SerView::UInt32(parent_instance_id))
            &&& value::holds(v, "ParentGuid"@, SerView::Guid(parent_guid))
        }),
{
    reveal_strlit("InstanceId");
    reveal_strlit("ParentInstanceId");
    reveal_strlit("ParentGuid");
    assert("InstanceId"@[0] == 'I' && "ParentGuid"@[0] == 'P');
    let all = instance_view(instance_id, parent_instance_id, parent_guid)->Object_0;
    assert(all[0].0 == "InstanceId"@ && all[1].0 == "ParentInstanceId"@ && all[2].0
        == "ParentGuid"@);
}

/// A decoded item is written under the name of its type, with all it holds.
pub proof fn items_are_written_under_their_type(t: u16, d: Seq<u8>, item: ExtendedDataItem)
    requires
        extended_data::decodes_to(t, d, item),
    ensures
        match item {
            ExtendedDataItem::Unsupported => item_view(t, d) is None,
            ExtendedDataItem::RelatedActivityId(g) => is_item(
                item_view(t, d),
                "RelatedActivityId"@,
                SerView::Guid(g),
            ),
            ExtendedDataItem::Sid(sid) => is_item(
                item_view(t, d),
                "Sid"@,
                SerView::Sid(sid.bytes()),
            ),
            ExtendedDataItem::TsId(id) => is_item(item_view(t, d), "TsId"@, SerView::UInt32(id)),
            ExtendedDataItem::InstanceInfo(info) => exists|v: SerView|
                #![trigger is_item(item_view(t, d), "InstanceInfo"@, v)]
                {
                    &&& is_item(item_view(t, d), "InstanceInfo"@, v)
                    &&& value::holds(v, "InstanceId"@, SerView::UInt32(info.instance_id))
                    &&& value::holds(
                        v,
                        "ParentInstanceId"@,
                        SerView::UInt32(info.parent_instance_id),
                    )
                    &&& value::holds(v, "ParentGuid"@, SerView::Guid(info.parent_guid))
                },
            ExtendedDataItem::StackTrace32(s) => exists|v: SerView|
                #![trigger is_item(item_view(t, d), "StackTrace32"@, v)]
                {
                    &&& is_item(item_view(t, d), "StackTrace32"@, v)
                    &&& value::holds(v, "MatchId"@, SerView::UInt64(s.match_id))
                    &&& value::holds(v, "Addresses"@, SerView::UInt32s(s.addresses@))
                },
            ExtendedDataItem::StackTrace64(s) => exists|v: SerView|
                #![trigger is_item(item_view(t, d), "StackTrace64"@, v)]
                {
                    &&& is_item(item_view(t, d), "StackTrace64"@, v)
                    &&& value::holds(v, "MatchId"@, SerView::UInt64(s.match_id))
                    &&& value::holds(v, "Addresses"@, SerView::UInt64s(s.addresses@))
                },
            ExtendedDataItem::TraceLogging(name) => is_item(
                item_view(t, d),
                "TraceLogging"@,
                SerView::Str(name@),
            ),
            ExtendedDataItem::ProvTraits(traits) => is_item(
                item_view(t, d),
                "ProvTraits"@,
                SerView::Bytes(traits@),
            ),
            ExtendedDataItem::ContainerId(g) => is_item(
                item_view(t, d),
                "ContainerId"@,
                SerView::Guid(g),
            ),
            ExtendedDataItem::EventKey(key) => is_item(
                item_view(t, d),
                "EventKey"@,
                SerView::UInt64(key),
            ),
            ExtendedDataItem::ProcessStartKey(key) => is_item(
                item_view(t, d),
                "ProcessStartKey"@,
                SerView::UInt64(key),
            ),
        },
{
    match item {
        ExtendedDataItem::Unsupported => {},
        ExtendedDataItem::RelatedActivityId(g) => {
            items_have_type_and_data("RelatedActivityId"@, SerView::Guid(g));
            assert(is_item(item_view(t, d), "RelatedActivityId"@, SerView::Guid(g)));
        },
        ExtendedDataItem::Sid(sid) => {
            items_have_type_and_data("Sid"@, SerView::Sid(sid.bytes()));
            assert(is_item(item_view(t, d), "Sid"@, SerView::Sid(sid.bytes())));
        },
        ExtendedDataItem::TsId(id) => {
            items_have_type_and_data("TsId"@, SerView::UInt32(id));
            assert(is_item(item_view(t, d), "TsId"@, SerView::UInt32(id)));
        },
        ExtendedDataItem::InstanceInfo(info) => {
            let v = instance_view(info.instance_id, info.parent_instance_id, info.parent_guid);
            instances_are_written_by_name(
                info.instance_id,
                info.parent_instance_id,
                info.parent_guid,
            );
            items_have_type_and_data("InstanceInfo"@, v);
            assert(is_item(item_view(t, d), "InstanceInfo"@, v));
        },
        ExtendedDataItem::StackTrace32(s) => {
            let v = stack_view(s.match_id, SerView::UInt32s(s.addresses@));
            stacks_are_written_by_name(s.match_id, SerView::UInt32s(s.addresses@));
            items_have_type_and_data("StackTrace32"@, v);
            assert(is_item(item_view(t, d), "StackTrace32"@, v));
        },
        ExtendedDataItem::StackTrace64(s) => {
            let v = stack_view(s.match_id, SerView::UInt64s(s.addresses@));
            stacks_are_written_by_name(s.match_id, SerView::UInt64s(s.addresses@));
            items_have_type_and_data("StackTrace64"@, v);
            assert(is_item(item_view(t, d), "StackTrace64"@, v));
        },
        ExtendedDataItem::TraceLogging(name) => {
            items_have_type_and_data("TraceLogging"@, SerView::Str(name@));
            assert(is_item(item_view(t, d), "TraceLogging"@, SerView::Str(name@)));
        },
        ExtendedDataItem::ProvTraits(traits) => {
            items_have_type_and_data("ProvTraits"@, SerView::Bytes(traits@));
            assert(is_item(item_view(t, d), "ProvTraits"@, SerView::Bytes(traits@)));
        },
        ExtendedDataItem::ContainerId(g) => {
            items_have_type_and_data("ContainerId"@, SerView::Guid(g));
            assert(is_item(item_view(t, d), "ContainerId"@, SerView::Guid(g)));
        },
        ExtendedDataItem::EventKey(key) => {
            items_have_type_and_data("EventKey"@, SerView::UInt64(key));
            assert(is_item(item_view(t, d), "EventKey"@, SerView::UInt64(key)));
        },
        ExtendedDataItem::ProcessStartKey(key) => {
            items_have_type_and_data("ProcessStartKey"@, SerView::UInt64(key));
            assert(is_item(item_view(t, d), "ProcessStartKey"@, SerView::UInt64(key)));
        },
    }
}

/// Without failing, all supported items are written, in order; with failing, any
/// unsupported item is reported by its type, the first one of them.
pub proof fn supported_items_are_written(
    items: Seq<EventHeaderExtendedDataItem>,
    fail_unimplemented: bool,
)
    ensures
        match extended_list(items, fail_unimplemented) {
            Ok(list) => {
                &&& list.len() <= items.len()
                &&& fail_unimplemented ==> list.len() == items.len()
                &&& fail_unimplemented ==> forall|i: int|
                    0 <= i < items.len() ==> extended_view(#[trigger] items[i]) == Some(list[i])
                &&& forall|i: int|
                    0 <= i < items.len() && extended_view(#[trigger] items[i]) is Some
                        ==> list.contains(extended_view(items[i])->0)
                &&& (forall|i: int|
                    0 <= i < items.len() ==> extended_view(#[trigger] items[i]) is None)
                    ==> list.len() == 0
            },
            Err(t) => fail_unimplemented && exists|i: int|
                {
                    &&& 0 <= i < items.len()
                    &&& (#[trigger] items[i]).ext_type == t
                    &&& extended_view(items[i]) is None
                    &&& forall|j: int|
                        0 <= j < i ==> extended_view(#[trigger] items[j]) is Some
                },
        },
    decreases items.len(),
{
    if items.len() > 0 {
        let rest = items.drop_last();
        let last = items.len() - 1;
        supported_items_are_written(rest, fail_unimplemented);
        assert forall|i: int| 0 <= i < rest.len() implies #[trigger] rest[i] == items[i] by {}
        match extended_list(rest, fail_unimplemented) {
            Err(t) => {
                let i = choose|i: int|
                    {
                        &&& 0 <= i < rest.len()
                        &&& (#[trigger] rest[i]).ext_type == t
                        &&& extended_view(rest[i]) is None
                        &&& forall|j: int|
                            0 <= j < i ==> extended_view(#[trigger] rest[j]) is Some
                    };
                assert(items[i] == rest[i]);
                assert forall|j: int| 0 <= j < i implies extended_view(#[trigger] items[j])
                    is Some by {
                    assert(rest[j] == items[j]);
                }
            },
            Ok(before) => {
                match extended_view(items[last]) {
                    Some(v) => {
                        let list = before.push(v);
                        assert forall|i: int|
                            0 <= i < items.len() && extended_view(#[trigger] items[i])
                                is Some implies list.contains(extended_view(items[i])->0) by {
                            if i < last {
                                assert(rest[i] == items[i]);
                                let x = extended_view(items[i])->0;
                                let k = choose|k: int| 0 <= k < before.len() && before[k] == x;
                                assert(list[k] == x);
                            } else {
                                assert(list[before.len() as int] == v);
                            }
                        }
                        if fail_unimplemented {
                            assert forall|i: int| 0 <= i < items.len() implies extended_view(
                                #[trigger] items[i],
                            ) == Some(list[i]) by {
                                if i < last {
                                    assert(rest[i] == items[i]);
                                }
                            }
                        }
                        assert(extended_view(items[last]) is Some);
                    },
                    None => {
                        assert forall|i: int|
                            0 <= i < items.len() && extended_view(#[trigger] items[i])
                                is Some implies before.contains(extended_view(items[i])->0) by {
                            assert(rest[i] == items[i]);
                        }
                        if fail_unimplemented {
                            assert forall|j: int| 0 <= j < last implies extended_view(
                                #[trigger] items[j],
                            ) is Some by {
                                assert(rest[j] == items[j]);
                            }
                        }
                        if forall|i: int|
                            0 <= i < items.len() ==> extended_view(#[trigger] items[i]) is None {
                            assert forall|i: int| 0 <= i < rest.len() implies extended_view(
                                #[trigger] rest[i],
                            ) is None by {
                                assert(rest[i] == items[i]);
                            }
                        }
                    },
                }
            },
        }
    }
}

/// One more supported item is one more entry, behind those of the items before it.
pub proof fn items_are_written_in_order(
    items: Seq<EventHeaderExtendedDataItem>,
    more: EventHeaderExtendedDataItem,
    fail_unimplemented: bool,
)
    requires
        extended_list(items, fail_unimplemented) is Ok,
    ensures
        extended_view(more) matches Some(v) ==> extended_list(items.push(more), fail_unimplemented)
            == Ok::<Seq<SerView>, u16>(extended_list(items, fail_unimplemented)->Ok_0.push(v)),
        extended_view(more) is None && !fail_unimplemented ==> extended_list(
            items.push(more),
            fail_unimplemented,
        ) == extended_list(items, fail_unimplemented),
{
    assert(items.push(more).drop_last() =~= items);
}

} // verus!
