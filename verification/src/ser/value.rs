//! Serialized values as trees, in the order they are written.
use vstd::prelude::*;

use crate::guid::GUID;
use crate::native::times::{FileTime, SystemTime};
use crate::parser::socket_address;
use crate::parser::socket_address::{
    AddressFamily, IpAddr, SocketAddrV4, SocketAddrV6, TdhSocketAddress,
};
use crate::bytes;

verus! {

/// A value to write
#[derive(Debug)]
pub enum SerValue {
    /// No value
    Null,
    Bool(bool),
    Int8(i8),
    UInt8(u8),
    Int16(i16),
    UInt16(u16),
    Int32(i32),
    UInt32(u32),
    Int64(i64),
    UInt64(u64),
    /// A single-precision number, as its bits
    Float(u32),
    /// A double-precision number, as its bits
    Double(u64),
    Str(String),
    /// A security identifier, to be written in its text form
    Sid(Vec<u8>),
    Bytes(Vec<u8>),
    IpAddr(IpAddr),
    SocketAddress(TdhSocketAddress),
    FileTime(FileTime),
    SystemTime(SystemTime),
    Guid(GUID),
    Int16s(Vec<i16>),
    UInt16s(Vec<u16>),
    Int32s(Vec<i32>),
    UInt32s(Vec<u32>),
    Int64s(Vec<i64>),
    UInt64s(Vec<u64>),
    List(Vec<SerValue>),
    /// Named values, in order; names may repeat
    Object(Vec<(String, SerValue)>),
}

/// What a socket address holds.
pub enum SocketView {
    Ipv4(SocketAddrV4),
    Ipv6(SocketAddrV6),
    Other(AddressFamily, Seq<u8>),
}

/// What a [`SerValue`] holds.
pub enum SerView {
    Null,
    Bool(bool),
    Int8(i8),
    UInt8(u8),
    Int16(i16),
    UInt16(u16),
    Int32(i32),
    UInt32(u32),
    Int64(i64),
    UInt64(u64),
    Float(u32),
    Double(u64),
    Str(Seq<char>),
    Sid(Seq<u8>),
    Bytes(Seq<u8>),
    IpAddr(IpAddr),
    SocketAddress(SocketView),
    FileTime(FileTime),
    SystemTime(SystemTime),
    Guid(GUID),
    Int16s(Seq<i16>),
    UInt16s(Seq<u16>),
    Int32s(Seq<i32>),
    UInt32s(Seq<u32>),
    Int64s(Seq<i64>),
    UInt64s(Seq<u64>),
    List(Seq<SerView>),
    Object(Seq<(Seq<char>, SerView)>),
}

/// What a socket address holds.
pub open spec fn socket_view(addr: TdhSocketAddress) -> SocketView {
    match addr {
        TdhSocketAddress::Ipv4(a) => SocketView::Ipv4(a),
        TdhSocketAddress::Ipv6(a) => SocketView::Ipv6(a),
        TdhSocketAddress::Other { family, raw } => SocketView::Other(family, raw@),
    }
}

/// The socket address at the start of `buffer`.
pub open spec fn socket_of(buffer: Seq<u8>) -> SocketView {
    if socket_address::is_sockaddr_in(buffer) {
        SocketView::Ipv4(
            SocketAddrV4 {
                ip: socket_address::u32_be_at(buffer, 4),
                port: bytes::u16_be_at(buffer, 2),
            },
        )
    } else if socket_address::is_sockaddr_in6(buffer) {
        SocketView::Ipv6(
            SocketAddrV6 {
                ip: socket_address::u128_be_at(buffer, 8),
                port: bytes::u16_be_at(buffer, 2),
                flow_info: socket_address::u32_be_at(buffer, 4),
                scope_id: socket_address::u32_be_at(buffer, 24),
            },
        )
    } else {
        SocketView::Other(AddressFamily::of(bytes::u16_at(buffer, 0)), buffer)
    }
}

/// A decoded socket address is the one at the start of its buffer.
pub proof fn decoded_socket(buffer: Seq<u8>, addr: TdhSocketAddress)
    requires
        socket_address::is_sockaddr(buffer, addr),
    ensures
        socket_view(addr) == socket_of(buffer),
{
}

impl SerValue {
    /// What the value holds.
    pub open spec fn view(self) -> SerView
        decreases self,
    {
        match self {
            SerValue::Null => SerView::Null,
            SerValue::Bool(v) => SerView::Bool(v),
            SerValue::Int8(v) => SerView::Int8(v),
            SerValue::UInt8(v) => SerView::UInt8(v),
            SerValue::Int16(v) => SerView::Int16(v),
            SerValue::UInt16(v) => SerView::UInt16(v),
            SerValue::Int32(v) => SerView::Int32(v),
            SerValue::UInt32(v) => SerView::UInt32(v),
            SerValue::Int64(v) => SerView::Int64(v),
            SerValue::UInt64(v) => SerView::UInt64(v),
            SerValue::Float(v) => SerView::Float(v),
            SerValue::Double(v) => SerView::Double(v),
            SerValue::Str(v) => SerView::Str(v@),
            SerValue::Sid(v) => SerView::Sid(v@),
            SerValue::Bytes(v) => SerView::Bytes(v@),
            SerValue::IpAddr(v) => SerView::IpAddr(v),
            SerValue::SocketAddress(v) => SerView::SocketAddress(socket_view(v)),
            SerValue::FileTime(v) => SerView::FileTime(v),
            SerValue::SystemTime(v) => SerView::SystemTime(v),
            SerValue::Guid(v) => SerView::Guid(v),
            SerValue::Int16s(v) => SerView::Int16s(v@),
            SerValue::UInt16s(v) => SerView::UInt16s(v@),
            SerValue::Int32s(v) => SerView::Int32s(v@),
            SerValue::UInt32s(v) => SerView::UInt32s(v@),
            SerValue::Int64s(v) => SerView::Int64s(v@),
            SerValue::UInt64s(v) => SerView::UInt64s(v@),
            SerValue::List(v) => SerView::List(list_view(v@)),
            SerValue::Object(v) => SerView::Object(entries_view(v@)),
        }
    }
}

/// What a list of values holds.
pub open spec fn list_view(values: Seq<SerValue>) -> Seq<SerView>
    decreases values,
{
    if values.len() == 0 {
        Seq::empty()
    } else {
        list_view(values.drop_last()).push(values.last().view())
    }
}

/// What a list of named values holds.
pub open spec fn entries_view(entries: Seq<(String, SerValue)>) -> Seq<(Seq<char>, SerView)>
    decreases entries,
{
    if entries.len() == 0 {
        Seq::empty()
    } else {
        entries_view(entries.drop_last()).push(
            (entries.last().0@, entries.last().1.view()),
        )
    }
}

/// One more value is one more value held.
pub proof fn pushed_value(values: Seq<SerValue>, v: SerValue)
    ensures
        list_view(values.push(v)) == list_view(values).push(v.view()),
{
    assert(values.push(v).drop_last() =~= values);
}

/// One more named value is one more named value held.
pub proof fn pushed_entry(entries: Seq<(String, SerValue)>, name: String, v: SerValue)
    ensures
        entries_view(entries.push((name, v))) == entries_view(entries).push((name@, v.view())),
{
    assert(entries.push((name, v)).drop_last() =~= entries);
}

/// Appends a named value.
pub fn push_entry(entries: &mut Vec<(String, SerValue)>, name: &str, value: SerValue)
    ensures
        entries_view(final(entries)@) == entries_view(old(entries)@).push((name@, value.view())),
{
    let owned = name.to_owned();
    proof {
        pushed_entry(entries@, owned, value);
    }
    entries.push((owned, value));
}

/// Whether `v` has a value under `name`, and only `x`.
pub open spec fn has(v: SerValue, name: Seq<char>, x: SerValue) -> bool {
    v matches SerValue::Object(entries) && {
        &&& exists|i: int| 0 <= i < entries@.len() && (#[trigger] entries@[i]).0@ == name
        &&& forall|i: int|
            0 <= i < entries@.len() && (#[trigger] entries@[i]).0@ == name ==> entries@[i].1 == x
    }
}

/// Whether `v` holds a value under `name`, and only `x`.
pub open spec fn holds(v: SerView, name: Seq<char>, x: SerView) -> bool {
    v matches SerView::Object(entries) && {
        &&& exists|i: int| 0 <= i < entries.len() && (#[trigger] entries[i]).0 == name
        &&& forall|i: int|
            0 <= i < entries.len() && (#[trigger] entries[i]).0 == name ==> entries[i].1 == x
    }
}

/// Whether `v` holds nothing under `name`.
pub open spec fn lacks(v: SerView, name: Seq<char>) -> bool {
    v matches SerView::Object(entries) && forall|i: int|
        0 <= i < entries.len() ==> (#[trigger] entries[i]).0 != name
}

/// What lists of values and of named values hold, value by value.
pub proof fn held_one_by_one(values: Seq<SerValue>, entries: Seq<(String, SerValue)>)
    ensures
        list_view(values).len() == values.len(),
        forall|i: int|
            0 <= i < values.len() ==> #[trigger] list_view(values)[i] == values[i].view(),
        entries_view(entries).len() == entries.len(),
        forall|i: int|
            0 <= i < entries.len() ==> #[trigger] entries_view(entries)[i] == (
                entries[i].0@,
                entries[i].1.view(),
            ),
    decreases values.len() + entries.len(),
{
    if values.len() > 0 {
        held_one_by_one(values.drop_last(), Seq::empty());
    }
    if entries.len() > 0 {
        held_one_by_one(Seq::empty(), entries.drop_last());
    }
}

/// What has a value holds it.
pub proof fn what_is_there_is_held(v: SerValue, name: Seq<char>, x: SerValue)
    requires
        has(v, name, x),
    ensures
        holds(v.view(), name, x.view()),
{
    let entries = v->Object_0@;
    held_one_by_one(Seq::empty(), entries);
    let held = v.view()->Object_0;
    assert(held == entries_view(entries));
    let i = choose|i: int| 0 <= i < entries.len() && (#[trigger] entries[i]).0@ == name;
    assert(held[i].0 == name);
    assert forall|j: int| 0 <= j < held.len() && (#[trigger] held[j]).0 == name implies held[j].1
        == x.view() by {
        assert(entries[j].0@ == name);
    }
}

/// Numbers, identifiers and time stamps that are held are there.
pub proof fn held_numbers_are_there(v: SerValue, name: Seq<char>, x: SerValue)
    requires
        holds(v.view(), name, x.view()),
        x is UInt8 || x is UInt16 || x is UInt32 || x is UInt64 || x is Guid || x is FileTime,
    ensures
        has(v, name, x),
{
    let entries = v->Object_0@;
    held_one_by_one(Seq::empty(), entries);
    let held = v.view()->Object_0;
    assert(held == entries_view(entries));
    let i = choose|i: int| 0 <= i < held.len() && (#[trigger] held[i]).0 == name;
    assert(entries[i].0@ == name);
    assert forall|j: int|
        0 <= j < entries.len() && (#[trigger] entries[j]).0@ == name implies entries[j].1 == x by {
        assert(held[j].0 == name);
        assert(entries[j].1.view() == x.view());
    }
}

} // verus!
