//! Event schemas.
use vstd::prelude::*;

use crate::bytes;
use crate::guid;
use crate::native::etw_types::DecodingSource;
use crate::native::tdh;
use crate::native::tdh::TraceEventInfo;
use crate::native::tdh_types::Property;

verus! {

/// A schema suitable for parsing a given kind of event: the schema buffer, with
/// its names and its property list parsed out of it.
#[derive(Debug)]
pub struct Schema {
    te_info: TraceEventInfo,
    properties: Vec<Property>,
    provider_name: String,
    task_name: String,
    opcode_name: String,
}

impl Schema {
    /// The bytes of the schema buffer.
    pub closed spec fn bytes(self) -> Seq<u8> {
        self.te_info.bytes()
    }

    /// The top-level properties.
    pub closed spec fn props(self) -> Seq<Property> {
        self.properties@
    }

    #[verifier::type_invariant]
    spec fn is_parsed(self) -> bool {
        let d = self.te_info.bytes();
        &&& tdh::are_top_level(d, self.properties@)
        &&& self.provider_name@ == tdh::named_string(d, bytes::u32_at(d, 52))
        &&& self.task_name@ == tdh::named_string(d, bytes::u32_at(d, 68))
        &&& self.opcode_name@ == tdh::named_string(d, bytes::u32_at(d, 72))
    }

    /// Parses a schema buffer.
    pub fn new(te_info: TraceEventInfo) -> (r: Schema)
        ensures
            r.bytes() == te_info.bytes(),
            tdh::are_top_level(r.bytes(), r.props()),
    {
        let properties = te_info.properties().collect();
        let provider_name = te_info.provider_name();
        let task_name = te_info.task_name();
        let opcode_name = te_info.opcode_name();
        Schema { te_info, properties, provider_name, task_name, opcode_name }
    }

    /// Where the schema comes from
    pub fn decoding_source(&self) -> (r: DecodingSource)
        ensures
            r == DecodingSource::of(bytes::u32_at(self.bytes(), 48)),
    {
        self.te_info.decoding_source()
    }

    /// Name of the provider
    pub fn provider_name(&self) -> (r: String)
        ensures
            r@ == tdh::named_string(self.bytes(), bytes::u32_at(self.bytes(), 52)),
    {
        self.provider_name_cached().to_owned()
    }

    /// Borrowing variant of [`Schema::provider_name`]
    pub fn provider_name_cached(&self) -> (r: &str)
        ensures
            r@ == tdh::named_string(self.bytes(), bytes::u32_at(self.bytes(), 52)),
    {
        proof {
            use_type_invariant(self);
        }
        self.provider_name.as_str()
    }

    /// Name of the task
    pub fn task_name(&self) -> (r: String)
        ensures
            r@ == tdh::named_string(self.bytes(), bytes::u32_at(self.bytes(), 68)),
    {
        self.task_name_cached().to_owned()
    }

    /// Borrowing variant of [`Schema::task_name`]
    pub fn task_name_cached(&self) -> (r: &str)
        ensures
            r@ == tdh::named_string(self.bytes(), bytes::u32_at(self.bytes(), 68)),
    {
        proof {
            use_type_invariant(self);
        }
        self.task_name.as_str()
    }

    /// Name of the opcode
    pub fn opcode_name(&self) -> (r: String)
        ensures
            r@ == tdh::named_string(self.bytes(), bytes::u32_at(self.bytes(), 72)),
    {
        self.opcode_name_cached().to_owned()
    }

    /// Borrowing variant of [`Schema::opcode_name`]
    pub fn opcode_name_cached(&self) -> (r: &str)
        ensures
            r@ == tdh::named_string(self.bytes(), bytes::u32_at(self.bytes(), 72)),
    {
        proof {
            use_type_invariant(self);
        }
        self.opcode_name.as_str()
    }

    /// The top-level properties, in schema order.
    ///
    /// Properties whose layout is not described by the schema stay in the list:
    /// they occupy their bytes in the event.
    pub fn properties(&self) -> (r: &Vec<Property>)
        ensures
            r@ == self.props(),
            tdh::are_top_level(self.bytes(), r@),
    {
        proof {
            use_type_invariant(self);
        }
        &self.properties
    }

    /// Whether both schemas describe the same event: same id, version and
    /// provider.
    pub open spec fn same_event(self, other: Schema) -> bool {
        &&& bytes::u16_at(self.bytes(), 32) == bytes::u16_at(other.bytes(), 32)
        &&& guid::guid_at(self.bytes(), 0) == guid::guid_at(other.bytes(), 0)
        &&& self.bytes()[34] == other.bytes()[34]
    }
}

impl PartialEq for Schema {
    fn eq(&self, other: &Schema) -> (r: bool) {
        self.te_info.event_id() == other.te_info.event_id() && self.te_info.provider_guid()
            == other.te_info.provider_guid() && self.te_info.event_version()
            == other.te_info.event_version()
    }
}

impl vstd::std_specs::cmp::PartialEqSpecImpl for Schema {
    open spec fn obeys_eq_spec() -> bool {
        true
    }

    open spec fn eq_spec(&self, other: &Schema) -> bool {
        self.same_event(*other)
    }
}

/// Schemas are equal exactly if they are of the same provider, id and version.
pub proof fn equal_schemas_describe_the_same_event(a: Schema, b: Schema)
    requires
        a.bytes().len() >= 36,
        b.bytes().len() >= 36,
    ensures
        a.same_event(b) <==> {
            &&& guid::guid_at(a.bytes(), 0) == guid::guid_at(b.bytes(), 0)
            &&& bytes::little_endian(a.bytes().subrange(32, 34)) == bytes::little_endian(
                b.bytes().subrange(32, 34),
            )
            &&& a.bytes()[34] == b.bytes()[34]
        },
        a.same_event(a),
        a.same_event(b) ==> b.same_event(a),
{
    bytes::stored_numbers_are_little_endian(a.bytes(), 32);
    bytes::stored_numbers_are_little_endian(b.bytes(), 32);
}

} // verus!
