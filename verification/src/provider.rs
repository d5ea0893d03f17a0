//! Event providers, and what they are asked for.
use vstd::prelude::*;

use crate::guid;
use crate::guid::GUID;

pub mod event_filter;

pub use event_filter::{EventFilter, EventNamesFilter};

verus! {

/// What an enabled provider adds to its events (`EnableProperty`)
#[derive(Debug, Clone, Copy, PartialEq, Eq, Hash, Structural)]
pub struct TraceFlags {
    pub bits: u32,
}

/// Add the security identifier of the user
pub const EVENT_ENABLE_PROPERTY_SID: u32 = 0x1;

/// Add a call stack
pub const EVENT_ENABLE_PROPERTY_STACK_TRACE: u32 = 0x4;

impl TraceFlags {
    /// No flag at all.
    pub fn empty() -> (r: TraceFlags)
        ensures
            r.bits == 0,
    {
        TraceFlags { bits: 0 }
    }

    /// The flags whose bits are `bits`.
    pub fn from_bits_retain(bits: u32) -> (r: TraceFlags)
        ensures
            r.bits == bits,
    {
        TraceFlags { bits }
    }

    /// The flags of both.
    pub fn union(self, other: TraceFlags) -> (r: TraceFlags)
        ensures
            r.bits == self.bits | other.bits,
    {
        TraceFlags { bits: self.bits | other.bits }
    }
}

/// Types that can be converted into the [`GUID`] of a provider
pub trait IntoGuid: Sized {
    /// Whether the value stands for an identifier.
    spec fn stands_for_guid(&self) -> bool;

    /// The identifier the value stands for.
    spec fn as_guid(&self) -> GUID;

    /// The identifier the value stands for.
    fn into_guid(self) -> (r: GUID)
        requires
            self.stands_for_guid(),
        ensures
            r == self.as_guid(),
    ;
}

impl IntoGuid for GUID {
    open spec fn stands_for_guid(&self) -> bool {
        true
    }

    open spec fn as_guid(&self) -> GUID {
        *self
    }

    fn into_guid(self) -> (r: GUID) {
        self
    }
}

impl IntoGuid for u128 {
    open spec fn stands_for_guid(&self) -> bool {
        true
    }

    open spec fn as_guid(&self) -> GUID {
        guid::guid_of_value(*self as int)
    }

    fn into_guid(self) -> (r: GUID) {
        GUID::from_u128(self)
    }
}

impl<'a> IntoGuid for &'a str {
    open spec fn stands_for_guid(&self) -> bool {
        guid::is_guid_text(self@)
    }

    open spec fn as_guid(&self) -> GUID {
        guid::guid_of_text(self@)
    }

    fn into_guid(self) -> (r: GUID) {
        match GUID::parse(self) {
            Some(g) => g,
            None => GUID::zeroed(),
        }
    }
}

/// A provider of kernel events: its identifier, and the classic event groups it
/// stands for
#[derive(Debug, Clone, Copy, PartialEq, Eq, Hash, Structural)]
pub struct KernelProvider {
    pub guid: GUID,
    pub flags: u32,
}

impl KernelProvider {
    /// A kernel provider.
    pub fn new(guid: GUID, flags: u32) -> (r: KernelProvider)
        ensures
            r.guid == guid,
            r.flags == flags,
    {
        KernelProvider { guid, flags }
    }
}

/// The options of a provider
#[derive(Debug)]
pub struct ProviderOptions {
    /// Identifier of the provider
    pub guid: GUID,
    /// Events with any of these keyword bits are wanted
    pub any: u64,
    /// Events with all of these keyword bits are wanted
    pub all: u64,
    /// Most verbose level that is wanted
    pub level: u8,
    /// What is added to each event
    pub trace_flags: TraceFlags,
    /// Classic event groups, of kernel providers only
    pub kernel_flags: u32,
    /// Whether the provider is asked for its state (rundown) when the trace
    /// starts
    pub capture_state: bool,
    /// Filters the tracing API applies
    pub filters: Vec<EventFilter>,
    /// Numbers of the callbacks that receive the events of the provider, in the
    /// order they are called
    pub callbacks: Vec<u64>,
}

/// Describes an event provider to use, along with its options
#[derive(Debug)]
pub struct Provider {
    options: ProviderOptions,
}

impl View for Provider {
    type V = ProviderOptions;

    closed spec fn view(&self) -> ProviderOptions {
        self.options
    }
}

/// A builder for a [`Provider`]
#[derive(Debug)]
pub struct ProviderBuilder {
    options: ProviderOptions,
}

impl View for ProviderBuilder {
    type V = ProviderOptions;

    closed spec fn view(&self) -> ProviderOptions {
        self.options
    }
}

/// Whether `o` holds the options a builder starts with.
pub open spec fn are_defaults(o: ProviderOptions, guid: GUID, kernel_flags: u32) -> bool {
    &&& o.guid == guid
    &&& o.any == 0
    &&& o.all == 0
    &&& o.level == 5
    &&& o.trace_flags.bits == 0
    &&& o.kernel_flags == kernel_flags
    &&& !o.capture_state
    &&& o.filters@.len() == 0
    &&& o.callbacks@.len() == 0
}

impl Provider {
    /// A provider defined by its identifier, given as a [`GUID`], as a number or
    /// as text such as `"22fb2cd6-0e7b-422b-a0c7-2fad1fd0e716"`.
    pub fn by_guid<G: IntoGuid>(guid: G) -> (r: ProviderBuilder)
        requires
            guid.stands_for_guid(),
        ensures
            are_defaults(r@, guid.as_guid(), 0),
    {
        ProviderBuilder {
            options: ProviderOptions {
                guid: guid.into_guid(),
                any: 0,
                all: 0,
                level: 5,
                trace_flags: TraceFlags::empty(),
                kernel_flags: 0,
                capture_state: false,
                filters: Vec::new(),
                callbacks: Vec::new(),
            },
        }
    }

    /// A kernel provider.
    pub fn kernel(kernel_provider: &KernelProvider) -> (r: ProviderBuilder)
        ensures
            are_defaults(r@, kernel_provider.guid, kernel_provider.flags),
    {
        let mut builder = Provider::by_guid(kernel_provider.guid);
        builder.options.kernel_flags = kernel_provider.flags;
        builder
    }

    /// A provider defined by its name, given what the lookup of the name found.
    pub fn by_name<E>(found: Result<GUID, E>) -> (r: Result<ProviderBuilder, E>)
        ensures
            match found {
                Ok(guid) => r matches Ok(builder) && are_defaults(builder@, guid, 0),
                Err(e) => r == Err::<ProviderBuilder, E>(e),
            },
    {
        match found {
            Ok(guid) => Ok(Provider::by_guid(guid)),
            Err(e) => Err(e),
        }
    }

    pub fn guid(&self) -> (r: GUID)
        ensures
            r == self@.guid,
    {
        self.options.guid
    }

    pub fn any(&self) -> (r: u64)
        ensures
            r == self@.any,
    {
        self.options.any
    }

    pub fn all(&self) -> (r: u64)
        ensures
            r == self@.all,
    {
        self.options.all
    }

    pub fn level(&self) -> (r: u8)
        ensures
            r == self@.level,
    {
        self.options.level
    }

    pub fn trace_flags(&self) -> (r: TraceFlags)
        ensures
            r == self@.trace_flags,
    {
        self.options.trace_flags
    }

    pub fn kernel_flags(&self) -> (r: u32)
        ensures
            r == self@.kernel_flags,
    {
        self.options.kernel_flags
    }

    /// Whether the provider is asked for its state (rundown) when the trace
    /// starts.
    pub fn requests_capture_state(&self) -> (r: bool)
        ensures
            r == self@.capture_state,
    {
        self.options.capture_state
    }

    /// The callbacks an event of the provider is handed to, in the order they are
    /// called.
    pub fn on_event(&self) -> (r: &[u64])
        ensures
            r@ == self@.callbacks@,
    {
        self.options.callbacks.as_slice()
    }

    pub fn filters(&self) -> (r: &[EventFilter])
        ensures
            r@ == self@.filters@,
    {
        self.options.filters.as_slice()
    }
}

impl ProviderBuilder {
    /// Sets the keyword bits any of which an event must have.
    pub fn any(self, any: u64) -> (r: ProviderBuilder)
        ensures
            r@ == (ProviderOptions { any: any, ..self@ }),
    {
        ProviderBuilder { options: ProviderOptions { any, ..self.options } }
    }

    /// Sets the keyword bits all of which an event must have.
    pub fn all(self, all: u64) -> (r: ProviderBuilder)
        ensures
            r@ == (ProviderOptions { all: all, ..self@ }),
    {
        ProviderBuilder { options: ProviderOptions { all, ..self.options } }
    }

    /// Sets the most verbose level that is wanted.
    pub fn level(self, level: u8) -> (r: ProviderBuilder)
        ensures
            r@ == (ProviderOptions { level: level, ..self@ }),
    {
        ProviderBuilder { options: ProviderOptions { level, ..self.options } }
    }

    /// Sets what is added to each event.
    pub fn trace_flags(self, trace_flags: TraceFlags) -> (r: ProviderBuilder)
        ensures
            r@ == (ProviderOptions { trace_flags: trace_flags, ..self@ }),
    {
        ProviderBuilder { options: ProviderOptions { trace_flags, ..self.options } }
    }

    /// Asks the provider to log its state (rundown) when the trace starts.
    pub fn request_capture_state(self) -> (r: ProviderBuilder)
        ensures
            r@ == (ProviderOptions { capture_state: true, ..self@ }),
    {
        ProviderBuilder { options: ProviderOptions { capture_state: true, ..self.options } }
    }

    /// Adds a filter. All filters of a provider apply together; each type may be
    /// added only once.
    pub fn add_filter(self, filter: EventFilter) -> (r: ProviderBuilder)
        ensures
            r@.filters@ == self@.filters@.push(filter),
            r@ == (ProviderOptions { filters: r@.filters, ..self@ }),
    {
        let mut options = self.options;
        options.filters.push(filter);
        ProviderBuilder { options }
    }

    /// Adds a callback, by its number, that receives the events of the provider
    /// after those added before.
    pub fn add_callback(self, callback: u64) -> (r: ProviderBuilder)
        ensures
            r@.callbacks@ == self@.callbacks@.push(callback),
            r@ == (ProviderOptions { callbacks: r@.callbacks, ..self@ }),
    {
        let mut options = self.options;
        options.callbacks.push(callback);
        ProviderBuilder { options }
    }

    /// The provider.
    pub fn build(self) -> (r: Provider)
        ensures
            r@ == self@,
    {
        Provider { options: self.options }
    }
}

/// A new provider asks for all keywords at the most verbose level, and for nothing
/// else.
pub proof fn new_providers_ask_for_everything(o: ProviderOptions, guid: GUID, kernel_flags: u32)
    requires
        are_defaults(o, guid, kernel_flags),
    ensures
        o.guid == guid,
        o.any == 0 && o.all == 0,
        o.level == 5,
        o.trace_flags.bits == 0,
        o.kernel_flags == kernel_flags,
        !o.capture_state,
        o.filters@ == Seq::<EventFilter>::empty(),
        o.callbacks@ == Seq::<u64>::empty(),
{
}

/// What an identifier of a provider stands for: itself, the identifier of a number,
/// or the one its text writes.
pub proof fn identifiers_stand_for_themselves(g: GUID, number: u128)
    ensures
        g.as_guid() == g,
        number.as_guid().value() == number,
        number.stands_for_guid(),
{
    guid::fields_of_a_number(number);
}

} // verus!
