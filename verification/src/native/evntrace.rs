//! Decisions around the calls of the event tracing API: what is handed to each
//! call, and what its reply means.
use std::collections::HashSet;

use vstd::prelude::*;
use vstd::string::*;

use crate::bytes;
use crate::guid::GUID;
use crate::native::etw_types::{
    EnableTraceParameters, EventTraceLogfile, SubscriptionSource, TraceInformation,
};
use crate::native::etw_types::group_mask;
use crate::native::etw_types::group_mask::PerfinfoGroupmask;
use crate::provider::{Provider, TraceFlags};
use crate::provider::event_filter;
use crate::provider::event_filter::{EventFilter, EventFilterDescriptor, FilterData};
use crate::text;
use crate::trace::kernel::{ExtendedKernelGroup, StackTracingEvent};

verus! {

broadcast use vstd::std_specs::hash::group_hash_axioms;

pub const ERROR_SUCCESS: u32 = 0;

pub const ERROR_INSUFFICIENT_BUFFER: u32 = 122;

pub const ERROR_ALREADY_EXISTS: u32 = 183;

pub const ERROR_CANCELLED: u32 = 1223;

pub const ERROR_WMI_INSTANCE_NOT_FOUND: u32 = 4201;

pub const ERROR_CTX_CLOSE_PENDING: u32 = 7007;

/// An error of the operating system, or of the data it returned
#[derive(Debug)]
pub enum IoError {
    /// The operating system reported this code
    Os(i32),
    /// What was returned makes no sense
    InvalidData(String),
}

/// Errors of the event tracing API
#[derive(Debug)]
pub enum EvntraceNativeError {
    /// A handle is not valid
    InvalidHandle,
    /// The session, or the context, exists already
    AlreadyExist,
    /// The call failed
    IoError(IoError),
    /// A filter of a provider could not be built (e.g. empty, too large, or
    /// several filters of a type that may only appear once)
    InvalidFilter(String),
}

pub type EvntraceNativeResult<T> = Result<T, EvntraceNativeError>;

/// The `HRESULT` of a Win32 status: success and codes that are one already are
/// kept, any other code is put into the Win32 facility.
pub open spec fn hresult(status: u32) -> i32 {
    if status == 0 {
        0
    } else if status >= 0x8000_0000 {
        (status - 0x1_0000_0000) as i32
    } else {
        (0x8007_0000 + status % 0x1_0000 - 0x1_0000_0000) as i32
    }
}

/// `windows_core::HRESULT::from_win32`: zero and codes with the top bit set are
/// kept bit by bit, of any other code the low 16 bits are put under the
/// failure bit and the Win32 facility.
#[verifier::external_body]
pub(crate) fn hresult_from_win32(status: u32) -> (r: i32)
    ensures
        r == hresult(status),
{
    windows_core::HRESULT::from_win32(status).0
}

/// The error of a failed call.
pub fn win32_error(status: u32) -> (r: EvntraceNativeError)
    ensures
        r == EvntraceNativeError::IoError(IoError::Os(hresult(status))),
{
    EvntraceNativeError::IoError(IoError::Os(hresult_from_win32(status)))
}

/// What the status of a call that returns nothing means.
pub fn win32_result(status: u32) -> (r: EvntraceNativeResult<()>)
    ensures
        r == (if status == ERROR_SUCCESS {
            Ok(())
        } else {
            Err(EvntraceNativeError::IoError(IoError::Os(hresult(status))))
        }),
{
    if status == ERROR_SUCCESS {
        Ok(())
    } else {
        Err(win32_error(status))
    }
}

/// The contexts whose trace is open
///
/// Events may still be delivered after a trace was closed, and there is no way
/// to tell which one is the last: every event whose context is not in this set
/// is discarded.
#[derive(Debug)]
pub struct UniqueValidContexts {
    contexts: HashSet<u64>,
}

impl View for UniqueValidContexts {
    type V = Set<u64>;

    /// The contexts whose trace is open.
    closed spec fn view(&self) -> Set<u64> {
        self.contexts@
    }
}

impl UniqueValidContexts {
    /// No context at all.
    pub fn new() -> (r: UniqueValidContexts)
        ensures
            r@ == Set::<u64>::empty(),
    {
        UniqueValidContexts { contexts: HashSet::new() }
    }

    /// Inserts a context, and says whether it was not there before.
    pub fn insert(&mut self, context: u64) -> (r: bool)
        ensures
            r == !old(self)@.contains(context),
            final(self)@ == old(self)@.insert(context),
    {
        self.contexts.insert(context)
    }

    /// Removes a context.
    pub fn remove(&mut self, context: u64)
        ensures
            final(self)@ == old(self)@.remove(context),
    {
        self.contexts.remove(&context);
    }

    /// Whether events with this context are still wanted.
    pub fn is_valid(&self, context: u64) -> (r: bool)
        ensures
            r == self@.contains(context),
    {
        self.contexts.contains(&context)
    }
}

/// Whether a trace handle is one that the API never hands out. All bits set in
/// 32 bits is among them, although it could be valid on 64-bit systems.
pub open spec fn is_invalid_trace_handle(handle: u64) -> bool {
    handle == u64::MAX || handle == 0xffff_ffff
}

/// The handle, unless it is not valid.
pub fn filter_invalid_trace_handles(handle: u64) -> (r: Option<u64>)
    ensures
        r == (if is_invalid_trace_handle(handle) {
            None
        } else {
            Some(handle)
        }),
{
    if handle == u64::MAX || handle == 0xffff_ffff {
        None
    } else {
        Some(handle)
    }
}

/// The handle, unless it is not valid: the control handle of no session is 0.
pub fn filter_invalid_control_handle(handle: u64) -> (r: Option<u64>)
    ensures
        r == (if handle == 0 {
            None
        } else {
            Some(handle)
        }),
{
    if handle == 0 {
        None
    } else {
        Some(handle)
    }
}

/// What the reply of `StartTraceW` means: the control handle of the session.
pub fn start_trace(status: u32, control_handle: u64) -> (r: EvntraceNativeResult<u64>)
    ensures
        r == (if status != ERROR_SUCCESS && hresult(status) == hresult(ERROR_ALREADY_EXISTS) {
            Err(EvntraceNativeError::AlreadyExist)
        } else if status != ERROR_SUCCESS {
            Err(EvntraceNativeError::IoError(IoError::Os(hresult(status))))
        } else if control_handle == 0 {
            Err(EvntraceNativeError::InvalidHandle)
        } else {
            Ok(control_handle)
        }),
{
    if status != ERROR_SUCCESS {
        if hresult_from_win32(status) == hresult_from_win32(ERROR_ALREADY_EXISTS) {
            return Err(EvntraceNativeError::AlreadyExist);
        }
        return Err(win32_error(status));
    }
    match filter_invalid_control_handle(control_handle) {
        None => Err(EvntraceNativeError::InvalidHandle),
        Some(handle) => Ok(handle),
    }
}

/// What `OpenTraceW` is called with to subscribe to a started trace.
///
/// A context may be used for one trace at a time: closing the first of two would
/// silence the other.
pub fn open_trace(
    contexts: &mut UniqueValidContexts,
    context: u64,
    subscription_source: SubscriptionSource,
) -> (r: EvntraceNativeResult<EventTraceLogfile>)
    ensures
        final(contexts)@ == old(contexts)@.insert(context),
        match r {
            Ok(log_file) => {
                &&& !old(contexts)@.contains(context)
                &&& log_file.context == context
                &&& subscribes_to(log_file, subscription_source)
            },
            Err(e) => old(contexts)@.contains(context) && e == EvntraceNativeError::AlreadyExist,
        },
{
    let log_file = EventTraceLogfile::create(context, subscription_source);
    if contexts.insert(log_file.context_ptr()) {
        Ok(log_file)
    } else {
        Err(EvntraceNativeError::AlreadyExist)
    }
}

/// Whether a trace opened with `log_file` delivers the events of `source`.
pub open spec fn subscribes_to(log_file: EventTraceLogfile, source: SubscriptionSource) -> bool {
    match source {
        SubscriptionSource::RealTimeSession(name) => {
            &&& log_file.logger_name == Some(name)
            &&& log_file.log_file_name is None
            &&& log_file.process_trace_mode
                == crate::native::etw_types::PROCESS_TRACE_MODE_REAL_TIME
                | crate::native::etw_types::PROCESS_TRACE_MODE_EVENT_RECORD
        },
        SubscriptionSource::FromFile(name) => {
            &&& log_file.logger_name is None
            &&& log_file.log_file_name == Some(name)
            &&& log_file.process_trace_mode
                == crate::native::etw_types::PROCESS_TRACE_MODE_EVENT_RECORD
        },
    }
}

/// What the reply of `OpenTraceW` means: the handle of the trace. `last_error` is
/// the error code of the thread.
pub fn opened_trace(trace_handle: u64, last_error: i32) -> (r: EvntraceNativeResult<u64>)
    ensures
        r == (if is_invalid_trace_handle(trace_handle) {
            Err(EvntraceNativeError::IoError(IoError::Os(last_error)))
        } else {
            Ok(trace_handle)
        }),
{
    match filter_invalid_trace_handles(trace_handle) {
        None => Err(EvntraceNativeError::IoError(IoError::Os(last_error))),
        Some(handle) => Ok(handle),
    }
}

/// The text of the refusal of a second filter of a type.
pub open spec fn shared_type_text(ty: u32) -> Seq<char> {
    "several filters share the type "@ + text::ascii_chars(text::decimal_ascii(ty as nat))
        + "; at most one filter of each type is allowed"@
}

/// Whether a filter of type `ty` is among `built`.
pub open spec fn has_type(built: Seq<FilterData>, ty: u32) -> bool {
    exists|i: int| 0 <= i < built.len() && (#[trigger] built[i]).ty == ty
}

/// What the filters of a provider are handed over as, or why they are refused:
/// the first filter that cannot be built, or whose type was there before, is
/// reported.
pub open spec fn built_filters(filters: Seq<EventFilter>) -> Result<Seq<FilterData>, Seq<char>>
    decreases filters.len(),
{
    if filters.len() == 0 {
        Ok(Seq::empty())
    } else {
        match built_filters(filters.drop_last()) {
            Err(message) => Err(message),
            Ok(before) => match event_filter::filter_data(filters.last()) {
                Err(e) => Err(e.text()),
                Ok(built) => if has_type(before, built.ty) {
                    Err(shared_type_text(built.ty))
                } else {
                    Ok(before.push(built))
                },
            },
        }
    }
}

/// A refusal of one filter is a refusal of all.
proof fn refusals_stay(filters: Seq<EventFilter>, n: int)
    requires
        0 <= n <= filters.len(),
        built_filters(filters.take(n)) is Err,
    ensures
        built_filters(filters) == built_filters(filters.take(n)),
    decreases filters.len() - n,
{
    if n < filters.len() {
        assert(filters.take(n + 1).drop_last() =~= filters.take(n));
        refusals_stay(filters, n + 1);
    } else {
        assert(filters.take(n) =~= filters);
    }
}

/// What a list of descriptors hands over.
pub open spec fn handed_over(descriptors: Seq<EventFilterDescriptor>) -> Seq<FilterData> {
    descriptors.map_values(|d: EventFilterDescriptor| d@)
}

/// The text of the refusal of a second filter of a type.
fn shared_type_message(ty: u32) -> (r: String)
    ensures
        r@ == shared_type_text(ty),
{
    let number = text::decimal_text(ty as u64);
    let mut message = "several filters share the type ".to_owned();
    message.append(number.as_str());
    message.append("; at most one filter of each type is allowed");
    message
}

/// Builds the filters of a provider.
///
/// Fails, rather than silently dropping the filter, if one of them cannot be
/// built: a mistake in a filter would otherwise give a trace that does not
/// filter as requested, without any hint.
pub fn build_event_filter_descriptors(provider: &Provider) -> (r: EvntraceNativeResult<
    Vec<EventFilterDescriptor>,
>)
    ensures
        match r {
            Ok(descriptors) => built_filters(provider@.filters@) == Ok::<
                Seq<FilterData>,
                Seq<char>,
            >(handed_over(descriptors@)),
            Err(e) => match e {
                EvntraceNativeError::InvalidFilter(message) => built_filters(provider@.filters@)
                    == Err::<Seq<FilterData>, Seq<char>>(message@),
                _ => false,
            },
        },
{
    let filters = provider.filters();
    let mut seen_types: HashSet<u32> = HashSet::new();
    let mut descriptors: Vec<EventFilterDescriptor> = Vec::new();
    let mut i: usize = 0;
    assert(handed_over(descriptors@) =~= Seq::empty());
    while i < filters.len()
        invariant
            i <= filters@.len(),
            filters@ == provider@.filters@,
            built_filters(filters@.take(i as int)) == Ok::<Seq<FilterData>, Seq<char>>(
                handed_over(descriptors@),
            ),
            forall|ty: u32|
                #[trigger] seen_types@.contains(ty) <==> has_type(handed_over(descriptors@), ty),
        decreases filters.len() - i,
    {
        let ghost before = handed_over(descriptors@);
        assert(filters@.take(i + 1).drop_last() =~= filters@.take(i as int));
        match filters[i].to_event_filter_descriptor() {
            Err(e) => {
                proof {
                    refusals_stay(filters@, i + 1);
                }
                return Err(EvntraceNativeError::InvalidFilter(e.message()));
            },
            Ok(descriptor) => {
                let ty: u32 = descriptor.filter_type();
                let ghost types = seen_types@;
                if !seen_types.insert(ty) {
                    proof {
                        assert(types.contains(ty));
                        refusals_stay(filters@, i + 1);
                    }
                    return Err(EvntraceNativeError::InvalidFilter(shared_type_message(ty)));
                }
                assert(!types.contains(ty));
                let ghost built = descriptor@;
                descriptors.push(descriptor);
                assert(handed_over(descriptors@) =~= before.push(built));
                assert forall|t: u32|
                    #[trigger] seen_types@.contains(t) <==> has_type(
                        handed_over(descriptors@),
                        t,
                    ) by {
                    let now = before.push(built);
                    assert(now[before.len() as int] == built);
                    if has_type(before, t) {
                        let k = choose|k: int|
                            0 <= k < before.len() && (#[trigger] before[k]).ty == t;
                        assert(now[k].ty == t);
                    }
                    if has_type(now, t) {
                        let k = choose|k: int| 0 <= k < now.len() && (#[trigger] now[k]).ty == t;
                        if k < before.len() {
                            assert(before[k].ty == t);
                        }
                    }
                    assert(types.contains(t) <==> has_type(before, t));
                }
            },
        }
        i += 1;
    }
    assert(filters@.take(i as int) =~= filters@);
    Ok(descriptors)
}

/// No two filters a provider is enabled with share a type, and none is dropped.
pub proof fn filter_types_are_distinct(filters: Seq<EventFilter>)
    ensures
        built_filters(filters) matches Ok(built) ==> {
            &&& built.len() == filters.len()
            &&& forall|i: int, j: int|
                0 <= i < j < built.len() ==> (#[trigger] built[i]).ty != (#[trigger] built[j]).ty
        },
    decreases filters.len(),
{
    if filters.len() > 0 {
        filter_types_are_distinct(filters.drop_last());
    }
}

pub const EVENT_CONTROL_CODE_DISABLE_PROVIDER: u32 = 0;

pub const EVENT_CONTROL_CODE_ENABLE_PROVIDER: u32 = 1;

pub const EVENT_CONTROL_CODE_CAPTURE_STATE: u32 = 2;

/// What `EnableTraceEx2` is called with
#[derive(Debug)]
pub struct ProviderRequest {
    pub control_handle: u64,
    pub guid: GUID,
    pub control_code: u32,
    pub level: u8,
    pub any: u64,
    pub all: u64,
    pub parameters: Option<EnableTraceParameters>,
}

/// The flags a provider is enabled with: a stackwalk filter has no effect unless
/// stacks are collected, so they are.
pub open spec fn enabled_flags(flags: TraceFlags, built: Seq<FilterData>) -> u32 {
    if has_type(built, event_filter::EVENT_FILTER_TYPE_STACKWALK) {
        flags.bits | crate::provider::EVENT_ENABLE_PROPERTY_STACK_TRACE
    } else {
        flags.bits
    }
}

/// Whether `request` enables `provider` on the session, with the filters `built`.
pub open spec fn enables(
    request: ProviderRequest,
    control_handle: u64,
    provider: Provider,
    built: Seq<FilterData>,
) -> bool {
    &&& request.control_handle == control_handle
    &&& request.guid == provider@.guid
    &&& request.control_code == EVENT_CONTROL_CODE_ENABLE_PROVIDER
    &&& request.level == provider@.level
    &&& request.any == provider@.any
    &&& request.all == provider@.all
    &&& request.parameters matches Some(p) && {
        &&& p.version == crate::native::etw_types::ENABLE_TRACE_PARAMETERS_VERSION_2
        &&& p.control_flags == 0
        &&& p.source_id == provider@.guid
        &&& p.enable_property == enabled_flags(provider@.trace_flags, built)
        &&& handed_over(p.filters@) == built
    }
}

/// Whether a list of descriptors holds a stackwalk filter.
fn has_stackwalk(descriptors: &Vec<EventFilterDescriptor>) -> (r: bool)
    ensures
        r == has_type(handed_over(descriptors@), event_filter::EVENT_FILTER_TYPE_STACKWALK),
{
    let mut i: usize = 0;
    while i < descriptors.len()
        invariant
            i <= descriptors@.len(),
            forall|j: int|
                0 <= j < i ==> (#[trigger] handed_over(descriptors@)[j]).ty
                    != event_filter::EVENT_FILTER_TYPE_STACKWALK,
        decreases descriptors.len() - i,
    {
        if descriptors[i].filter_type() == event_filter::EVENT_FILTER_TYPE_STACKWALK {
            assert(handed_over(descriptors@)[i as int].ty
                == event_filter::EVENT_FILTER_TYPE_STACKWALK);
            return true;
        }
        i += 1;
    }
    false
}

/// What `EnableTraceEx2` is called with to attach a provider to a trace.
pub fn enable_provider(control_handle: u64, provider: &Provider) -> (r: EvntraceNativeResult<
    ProviderRequest,
>)
    ensures
        if control_handle == 0 {
            r == Err::<ProviderRequest, EvntraceNativeError>(EvntraceNativeError::InvalidHandle)
        } else {
            match built_filters(provider@.filters@) {
                Ok(built) => r matches Ok(request) && enables(
                    request,
                    control_handle,
                    *provider,
                    built,
                ),
                Err(message) => r matches Err(EvntraceNativeError::InvalidFilter(m)) && m@
                    == message,
            }
        },
{
    match filter_invalid_control_handle(control_handle) {
        None => Err(EvntraceNativeError::InvalidHandle),
        Some(handle) => {
            let descriptors = match build_event_filter_descriptors(provider) {
                Ok(descriptors) => descriptors,
                Err(e) => return Err(e),
            };
            let mut enable_property = provider.trace_flags();
            if has_stackwalk(&descriptors) {
                enable_property = enable_property.union(
                    TraceFlags::from_bits_retain(
                        crate::provider::EVENT_ENABLE_PROPERTY_STACK_TRACE,
                    ),
                );
            }
            let parameters = EnableTraceParameters::create(
                provider.guid(),
                enable_property,
                descriptors,
            );
            Ok(
                ProviderRequest {
                    control_handle: handle,
                    guid: provider.guid(),
                    control_code: EVENT_CONTROL_CODE_ENABLE_PROVIDER,
                    level: provider.level(),
                    any: provider.any(),
                    all: provider.all(),
                    parameters: Some(parameters),
                },
            )
        },
    }
}

/// A request that carries no level, keyword or filter.
pub open spec fn bare_request(control_handle: u64, guid: GUID, control_code: u32) -> Result<
    ProviderRequest,
    EvntraceNativeError,
> {
    if control_handle == 0 {
        Err(EvntraceNativeError::InvalidHandle)
    } else {
        Ok(
            ProviderRequest {
                control_handle,
                guid,
                control_code,
                level: 0,
                any: 0,
                all: 0,
                parameters: None,
            },
        )
    }
}

fn bare_provider_request(control_handle: u64, guid: GUID, control_code: u32) -> (r:
    EvntraceNativeResult<ProviderRequest>)
    ensures
        r == bare_request(control_handle, guid, control_code),
{
    match filter_invalid_control_handle(control_handle) {
        None => Err(EvntraceNativeError::InvalidHandle),
        Some(handle) => Ok(
            ProviderRequest {
                control_handle: handle,
                guid,
                control_code,
                level: 0,
                any: 0,
                all: 0,
                parameters: None,
            },
        ),
    }
}

/// What `EnableTraceEx2` is called with to detach a provider from a trace.
pub fn disable_provider(control_handle: u64, guid: GUID) -> (r: EvntraceNativeResult<
    ProviderRequest,
>)
    ensures
        r == bare_request(control_handle, guid, EVENT_CONTROL_CODE_DISABLE_PROVIDER),
{
    bare_provider_request(control_handle, guid, EVENT_CONTROL_CODE_DISABLE_PROVIDER)
}

/// What `EnableTraceEx2` is called with to ask a provider for its current state
/// (a.k.a. rundown): a bare notification.
pub fn capture_provider_state(control_handle: u64, provider: &Provider) -> (r:
    EvntraceNativeResult<ProviderRequest>)
    ensures
        r == bare_request(control_handle, provider@.guid, EVENT_CONTROL_CODE_CAPTURE_STATE),
{
    bare_provider_request(control_handle, provider.guid(), EVENT_CONTROL_CODE_CAPTURE_STATE)
}

/// The handle `ProcessTrace` is called with.
pub fn process_trace(trace_handle: u64) -> (r: EvntraceNativeResult<u64>)
    ensures
        r == (if is_invalid_trace_handle(trace_handle) {
            Err(EvntraceNativeError::InvalidHandle)
        } else {
            Ok(trace_handle)
        }),
{
    match filter_invalid_trace_handles(trace_handle) {
        None => Err(EvntraceNativeError::InvalidHandle),
        Some(handle) => Ok(handle),
    }
}

/// What the reply of `ProcessTrace` means. A trace that was stopped while it was
/// processed is reported as cancelled: that is an outcome, not a failure.
pub fn processed_trace(status: u32) -> (r: EvntraceNativeResult<()>)
    ensures
        r == (if status == ERROR_SUCCESS || status == ERROR_CANCELLED {
            Ok(())
        } else {
            Err(EvntraceNativeError::IoError(IoError::Os(hresult(status))))
        }),
{
    if status == ERROR_CANCELLED {
        Ok(())
    } else {
        win32_result(status)
    }
}

/// The handle a session is controlled, or configured, by.
pub fn control_trace(control_handle: u64) -> (r: EvntraceNativeResult<u64>)
    ensures
        r == (if control_handle == 0 {
            Err(EvntraceNativeError::InvalidHandle)
        } else {
            Ok(control_handle)
        }),
{
    match filter_invalid_control_handle(control_handle) {
        None => Err(EvntraceNativeError::InvalidHandle),
        Some(handle) => Ok(handle),
    }
}

/// The handle `CloseTrace` is called with. From here on the events of the trace
/// are discarded.
pub fn close_trace(contexts: &mut UniqueValidContexts, trace_handle: u64, context: u64) -> (r:
    EvntraceNativeResult<u64>)
    ensures
        if is_invalid_trace_handle(trace_handle) {
            &&& r == Err::<u64, EvntraceNativeError>(EvntraceNativeError::InvalidHandle)
            &&& final(contexts)@ == old(contexts)@
        } else {
            &&& r == Ok::<u64, EvntraceNativeError>(trace_handle)
            &&& final(contexts)@ == old(contexts)@.remove(context)
        },
{
    match filter_invalid_trace_handles(trace_handle) {
        None => Err(EvntraceNativeError::InvalidHandle),
        Some(handle) => {
            contexts.remove(context);
            Ok(handle)
        },
    }
}

/// What the reply of `CloseTrace` means: whether events are still on their way.
pub fn closed_trace(status: u32) -> (r: EvntraceNativeResult<bool>)
    ensures
        r == (if status == ERROR_SUCCESS {
            Ok(false)
        } else if hresult(status) == hresult(ERROR_CTX_CLOSE_PENDING) {
            Ok(true)
        } else {
            Err(EvntraceNativeError::IoError(IoError::Os(hresult(status))))
        }),
{
    if status == ERROR_SUCCESS {
        Ok(false)
    } else if hresult_from_win32(status) == hresult_from_win32(ERROR_CTX_CLOSE_PENDING) {
        Ok(true)
    } else {
        Err(win32_error(status))
    }
}

/// A context that was closed stays closed until it is opened again, whatever
/// happens to the other contexts.
pub proof fn closed_contexts_stay_closed(contexts: Set<u64>, closed: u64, other: u64)
    requires
        other != closed,
    ensures
        !contexts.remove(closed).contains(closed),
        !contexts.remove(closed).insert(other).contains(closed),
        !contexts.remove(closed).remove(other).contains(closed),
        contexts.remove(closed).insert(closed).contains(closed),
        contexts.remove(closed).contains(other) == contexts.contains(other),
{
}

/// How often a query is made before giving up
pub const MAX_QUERY_CALLS: u32 = 4;

/// A query of system-wide information whose size is not known in advance
///
/// The tracing API is first called with the initial capacity, then again with
/// the size it reports as required.
#[derive(Debug, Clone, Copy, PartialEq, Eq, Structural)]
pub struct ArrayQuery {
    /// Size of the buffer of the next call
    pub capacity: usize,
    /// How many more calls are made
    pub calls_left: u32,
}

/// What comes after a call of a query
#[derive(Debug)]
pub enum ArrayQueryStep {
    /// The query is answered by these bytes
    Done(Vec<u8>),
    /// The call has to be made again
    Again(ArrayQuery),
    /// The query failed
    Failed(EvntraceNativeError),
}

/// Whether a reply asks for a larger buffer.
pub open spec fn asks_for_more(query: ArrayQuery, status: u32, needed: u32) -> bool {
    &&& status != ERROR_SUCCESS
    &&& hresult(status) == hresult(ERROR_INSUFFICIENT_BUFFER)
    &&& needed as int > query.capacity
}

/// The next call of a query, when the reply asks for a larger buffer and not all
/// calls are used up.
pub open spec fn next_query(query: ArrayQuery, status: u32, needed: u32) -> Option<ArrayQuery> {
    if asks_for_more(query, status, needed) && query.calls_left > 1 {
        Some(
            ArrayQuery {
                capacity: needed as usize,
                calls_left: (query.calls_left - 1) as u32,
            },
        )
    } else {
        None
    }
}

/// The query after the first `n` calls were replied to, if it still goes on.
/// Each reply is a status and the size reported as needed.
pub open spec fn after_calls(query: ArrayQuery, replies: Seq<(u32, u32)>, n: nat) -> Option<
    ArrayQuery,
>
    decreases n,
{
    if n == 0 {
        Some(query)
    } else {
        match after_calls(query, replies, (n - 1) as nat) {
            Some(now) => next_query(now, replies[n - 1].0, replies[n - 1].1),
            None => None,
        }
    }
}

/// A query makes at most four calls, each with a larger buffer than the one
/// before.
pub proof fn queries_end(initial_capacity: usize, replies: Seq<(u32, u32)>, n: nat)
    ensures
        ({
            let start = ArrayQuery { capacity: initial_capacity, calls_left: MAX_QUERY_CALLS };
            &&& n >= MAX_QUERY_CALLS ==> after_calls(start, replies, n) is None
            &&& after_calls(start, replies, n) matches Some(now) ==> {
                &&& now.calls_left == MAX_QUERY_CALLS - n
                &&& now.capacity >= initial_capacity + n
            }
        }),
    decreases n,
{
    if n > 0 {
        queries_end(initial_capacity, replies, (n - 1) as nat);
    }
}

impl ArrayQuery {
    /// A query whose first call has a buffer of `initial_capacity` bytes.
    pub fn new(initial_capacity: usize) -> (r: ArrayQuery)
        ensures
            r.capacity == initial_capacity,
            r.calls_left == MAX_QUERY_CALLS,
    {
        ArrayQuery { capacity: initial_capacity, calls_left: MAX_QUERY_CALLS }
    }

    /// What the reply of a call means: its status, the size it reports as
    /// needed, and the buffer it filled.
    pub fn reply(self, status: u32, needed: u32, buffer: Vec<u8>) -> (r: ArrayQueryStep)
        requires
            self.calls_left > 0,
            buffer@.len() == self.capacity,
        ensures
            if status == ERROR_SUCCESS {
                r matches ArrayQueryStep::Done(bytes) && bytes@ == (if (needed as int)
                    < buffer@.len() {
                    buffer@.take(needed as int)
                } else {
                    buffer@
                })
            } else if !asks_for_more(self, status, needed) {
                r == ArrayQueryStep::Failed(
                    EvntraceNativeError::IoError(IoError::Os(hresult(status))),
                )
            } else if self.calls_left > 1 {
                r matches ArrayQueryStep::Again(next) && next_query(self, status, needed) == Some(
                    next,
                )
            } else {
                r matches ArrayQueryStep::Failed(
                    EvntraceNativeError::IoError(IoError::InvalidData(message)),
                ) && message@ == "the ETW API kept asking for a larger query buffer"@
            },
    {
        if status == ERROR_SUCCESS {
            let mut answer = buffer;
            if (needed as usize) < answer.len() {
                answer.truncate(needed as usize);
            }
            return ArrayQueryStep::Done(answer);
        }
        let required: usize = needed as usize;
        if hresult_from_win32(status) == hresult_from_win32(ERROR_INSUFFICIENT_BUFFER) && required
            > self.capacity {
            if self.calls_left > 1 {
                ArrayQueryStep::Again(
                    ArrayQuery { capacity: required, calls_left: self.calls_left - 1 },
                )
            } else {
                ArrayQueryStep::Failed(
                    EvntraceNativeError::IoError(
                        IoError::InvalidData(
                            "the ETW API kept asking for a larger query buffer".to_owned(),
                        ),
                    ),
                )
            }
        } else {
            ArrayQueryStep::Failed(win32_error(status))
        }
    }
}

/// What `TraceSetInformation` is called with
#[derive(Debug)]
pub struct SetInfoRequest {
    pub control_handle: u64,
    pub class: TraceInformation,
    pub data: Vec<u8>,
}

/// What `TraceSetInformation` is called with on an active session.
pub fn set_info(control_handle: u64, class: TraceInformation, data: Vec<u8>) -> (r:
    EvntraceNativeResult<SetInfoRequest>)
    ensures
        r == (if control_handle == 0 {
            Err(EvntraceNativeError::InvalidHandle)
        } else {
            Ok(SetInfoRequest { control_handle, class, data })
        }),
{
    match filter_invalid_control_handle(control_handle) {
        None => Err(EvntraceNativeError::InvalidHandle),
        Some(handle) => Ok(SetInfoRequest { control_handle: handle, class, data }),
    }
}

/// The bytes of the native name of a kernel event: its GUID, its type and seven
/// zeroes.
pub open spec fn event_id_bytes(event: StackTracingEvent) -> Seq<u8> {
    crate::guid::guid_bytes(event.event_guid) + seq![event.event_type, 0, 0, 0, 0, 0, 0, 0]
}

/// The bytes of the native names of kernel events, one after the other.
pub open spec fn event_ids_bytes(events: Seq<StackTracingEvent>) -> Seq<u8>
    decreases events.len(),
{
    if events.len() == 0 {
        Seq::empty()
    } else {
        event_ids_bytes(events.drop_last()) + event_id_bytes(events.last())
    }
}

/// Whether `event` stands at `at` in `data`.
#[verifier::opaque]
pub open spec fn event_stands_at(data: Seq<u8>, at: int, event: StackTracingEvent) -> bool {
    crate::guid::guid_at(data, at) == event.event_guid && data[at + 16] == event.event_type
}

proof fn event_type_stands(before: Seq<u8>, name: Seq<u8>, tail: Seq<u8>)
    requires
        name.len() == 16,
        tail.len() == 8,
    ensures
        before + (name + tail) == before + name + tail,
        (before + name + tail)[before.len() as int + 16] == tail[0],
        (name + tail).len() == 24,
{
    assert(before + (name + tail) =~= before + name + tail);
}

proof fn appended_event_stands(before: Seq<u8>, event: StackTracingEvent)
    ensures
        event_id_bytes(event).len() == 24,
        event_stands_at(before + event_id_bytes(event), before.len() as int, event),
{
    let tail = seq![event.event_type, 0u8, 0, 0, 0, 0, 0, 0];
    let name = crate::guid::guid_bytes(event.event_guid);
    crate::guid::guid_bytes_round_trip(before, event.event_guid, tail);
    event_type_stands(before, name, tail);
    reveal(event_stands_at);
}

proof fn earlier_event_stands(before: Seq<u8>, more: Seq<u8>, at: int, event: StackTracingEvent)
    requires
        0 <= at <= before.len() - 24,
        event_stands_at(before, at, event),
    ensures
        event_stands_at(before + more, at, event),
{
    reveal(event_stands_at);
    crate::guid::guid_depends_on_its_bytes(before + more, before, at);
}

/// Every event of a list can be read back from the bytes of the list: none is
/// left out.
pub proof fn event_ids_round_trip(events: Seq<StackTracingEvent>, i: int)
    requires
        0 <= i < events.len(),
    ensures
        event_ids_bytes(events).len() == 24 * events.len(),
        event_stands_at(event_ids_bytes(events), 24 * i, events[i]),
    decreases events.len(),
{
    let rest = events.drop_last();
    let before = event_ids_bytes(rest);
    if rest.len() > 0 {
        event_ids_round_trip(rest, if i < rest.len() { i } else { 0 });
    }
    appended_event_stands(before, events.last());
    if i < rest.len() {
        earlier_event_stands(before, event_id_bytes(events.last()), 24 * i, events[i]);
    }
}

/// What `TraceSetInformation` is called with to collect the call stacks of the
/// given kernel events, if there are any. The list replaces any previous one.
pub fn enable_stack_tracing(control_handle: u64, events: &[StackTracingEvent]) -> (r:
    EvntraceNativeResult<Option<SetInfoRequest>>)
    ensures
        if events@.len() == 0 {
            r == Ok::<Option<SetInfoRequest>, EvntraceNativeError>(None)
        } else if control_handle == 0 {
            r == Err::<Option<SetInfoRequest>, EvntraceNativeError>(
                EvntraceNativeError::InvalidHandle,
            )
        } else {
            r matches Ok(Some(request)) && request.control_handle == control_handle
                && request.class == TraceInformation::TraceStackTracingInfo && request.data@
                == event_ids_bytes(events@)
        },
{
    if events.len() == 0 {
        return Ok(None);
    }
    let mut data: Vec<u8> = Vec::new();
    let mut i: usize = 0;
    while i < events.len()
        invariant
            i <= events@.len(),
            data@ == event_ids_bytes(events@.take(i as int)),
        decreases events.len() - i,
    {
        let ghost now = events@.take(i + 1);
        assert(now.drop_last() =~= events@.take(i as int));
        crate::guid::push_guid(&mut data, &events[i].event_guid);
        data.push(events[i].event_type);
        let zeroes: [u8; 7] = [0u8; 7];
        bytes::push_all(&mut data, zeroes.as_slice());
        assert(data@ =~= event_ids_bytes(now));
        i += 1;
    }
    assert(events@.take(i as int) =~= events@);
    match set_info(control_handle, TraceInformation::TraceStackTracingInfo, data) {
        Ok(request) => Ok(Some(request)),
        Err(e) => Err(e),
    }
}

/// What `TraceSetInformation` is called with to enable extended kernel groups, if
/// there are any, on top of those of the session, given the reply of the query of
/// its group mask. Without groups no query is made, and its reply is not looked at.
///
/// The call replaces the whole mask, so the groups are merged into the current
/// one. A failed query means that the mask is not supported.
pub fn set_extended_kernel_groups(
    control_handle: u64,
    groups: &[ExtendedKernelGroup],
    status: u32,
    current: &[u8],
) -> (r: EvntraceNativeResult<Option<SetInfoRequest>>)
    requires
        groups@.len() > 0 ==> current@.len() == group_mask::GROUPMASK_BYTES,
    ensures
        if groups@.len() == 0 {
            r == Ok::<Option<SetInfoRequest>, EvntraceNativeError>(None)
        } else if status != ERROR_SUCCESS {
            r == Err::<Option<SetInfoRequest>, EvntraceNativeError>(
                EvntraceNativeError::IoError(IoError::Os(hresult(status))),
            )
        } else if control_handle == 0 {
            r == Err::<Option<SetInfoRequest>, EvntraceNativeError>(
                EvntraceNativeError::InvalidHandle,
            )
        } else {
            r matches Ok(Some(request)) && request.control_handle == control_handle
                && request.class == TraceInformation::TraceSystemTraceEnableFlagsInfo
                && request.data@ == bytes::u32s_bytes(
                group_mask::with_groups(
                    Seq::new(8, |i: int| bytes::u32_at(current@, 4 * i)),
                    groups@,
                ),
            )
        },
{
    if groups.len() == 0 {
        return Ok(None);
    }
    match win32_result(status) {
        Ok(()) => {},
        Err(e) => return Err(e),
    }
    let mut mask = PerfinfoGroupmask::from_bytes(current);
    mask.set_groups(groups);
    match set_info(
        control_handle,
        TraceInformation::TraceSystemTraceEnableFlagsInfo,
        mask.as_bytes(),
    ) {
        Ok(request) => Ok(Some(request)),
        Err(e) => Err(e),
    }
}

/// The flags a provider asks for reach the request that enables it: each of them is
/// set, and no other one, but that stacks are collected where a filter on stacks
/// would have no effect otherwise.
pub proof fn trace_flags_are_kept(
    request: ProviderRequest,
    control_handle: u64,
    provider: Provider,
    built: Seq<FilterData>,
)
    requires
        enables(request, control_handle, provider, built),
    ensures
        request.parameters matches Some(p) && {
            let asked = provider@.trace_flags.bits;
            let stackwalk = exists|i: int| 0 <= i < built.len() && (#[trigger] built[i]).ty
                == 0x8000_1000;
            &&& asked & p.enable_property == asked
            &&& !stackwalk ==> p.enable_property == asked
            &&& stackwalk ==> p.enable_property & 4 == 4
            &&& stackwalk ==> p.enable_property & !(asked | 4) == 0
        },
{
    let asked = provider@.trace_flags.bits;
    assert(asked & (asked | 4) == asked && (asked | 4) & 4 == 4 && (asked | 4) & !(asked | 4) == 0)
        by (bit_vector);
    assert(asked & asked == asked) by (bit_vector);
}

/// What a provider asks for reaches the request that enables it: its level, its
/// keywords and its filters, all of them and in order.
pub proof fn provider_settings_are_kept(
    request: ProviderRequest,
    control_handle: u64,
    provider: Provider,
    built: Seq<FilterData>,
    i: int,
)
    requires
        enables(request, control_handle, provider, built),
    ensures
        request.control_handle == control_handle,
        request.guid == provider@.guid,
        request.control_code == 1,
        request.level == provider@.level,
        request.any == provider@.any,
        request.all == provider@.all,
        request.parameters matches Some(p) && {
            &&& p.version == 2
            &&& p.control_flags == 0
            &&& p.source_id == provider@.guid
            &&& p.filters@.len() == built.len()
            &&& 0 <= i < built.len() ==> p.filters@[i].ty == built[i].ty && p.filters@[i].data@
                == built[i].data
        },
{
    let p = request.parameters->0;
    assert(handed_over(p.filters@) == built);
    assert(handed_over(p.filters@).len() == p.filters@.len());
    if 0 <= i < built.len() {
        assert(handed_over(p.filters@)[i] == p.filters@[i]@);
    }
}

/// Filters are accepted exactly if each of them can be built and no two have the
/// same type, and are then handed over in order.
pub proof fn filters_are_handed_over_in_order(filters: Seq<EventFilter>)
    ensures
        match built_filters(filters) {
            Ok(built) => {
                &&& built.len() == filters.len()
                &&& forall|i: int|
                    0 <= i < filters.len() ==> event_filter::filter_data(#[trigger] filters[i])
                        == Ok::<FilterData, event_filter::FilterError>(built[i])
            },
            Err(_) => {
                ||| exists|i: int|
                    0 <= i < filters.len() && event_filter::filter_data(#[trigger] filters[i])
                        is Err
                ||| exists|i: int, j: int|
                    0 <= i < j < filters.len() && event_filter::filter_data(
                        #[trigger] filters[i],
                    )->Ok_0.ty == event_filter::filter_data(#[trigger] filters[j])->Ok_0.ty
            },
        },
    decreases filters.len(),
{
    if filters.len() > 0 {
        let rest = filters.drop_last();
        filters_are_handed_over_in_order(rest);
        match built_filters(rest) {
            Err(_) => {
                if exists|i: int|
                    0 <= i < rest.len() && event_filter::filter_data(#[trigger] rest[i]) is Err {
                    let i = choose|i: int|
                        0 <= i < rest.len() && event_filter::filter_data(#[trigger] rest[i]) is Err;
                    assert(filters[i] == rest[i]);
                } else {
                    let (i, j) = choose|i: int, j: int|
                        0 <= i < j < rest.len() && event_filter::filter_data(
                            #[trigger] rest[i],
                        )->Ok_0.ty == event_filter::filter_data(#[trigger] rest[j])->Ok_0.ty;
                    assert(filters[i] == rest[i] && filters[j] == rest[j]);
                }
            },
            Ok(before) => {
                let last = filters.last();
                assert(filters[filters.len() - 1] == last);
                match event_filter::filter_data(last) {
                    Err(_) => {},
                    Ok(own) => {
                        if has_type(before, own.ty) {
                            let i = choose|i: int|
                                0 <= i < before.len() && (#[trigger] before[i]).ty == own.ty;
                            assert(filters[i] == rest[i]);
                            assert(event_filter::filter_data(filters[i])->Ok_0.ty
                                == event_filter::filter_data(filters[filters.len() - 1])->Ok_0.ty);
                        } else {
                            let built = before.push(own);
                            assert forall|i: int| 0 <= i < filters.len() implies
                                event_filter::filter_data(#[trigger] filters[i]) == Ok::<
                                FilterData,
                                event_filter::FilterError,
                            >(built[i]) by {
                                if i < rest.len() {
                                    assert(filters[i] == rest[i]);
                                }
                            }
                        }
                    },
                }
            },
        }
    }
}

/// A request that detaches a provider, or asks for its state, names the session and
/// the provider and nothing else; on no session there is none.
pub proof fn bare_requests_name_session_and_provider(control_handle: u64, guid: GUID, code: u32)
    ensures
        bare_request(control_handle, guid, code) is Ok <==> control_handle != 0,
        bare_request(control_handle, guid, code) matches Ok(r) ==> {
            &&& r.control_handle == control_handle
            &&& r.guid == guid
            &&& r.control_code == code
            &&& r.level == 0 && r.any == 0 && r.all == 0
            &&& r.parameters is None
        },
        EVENT_CONTROL_CODE_DISABLE_PROVIDER == 0,
        EVENT_CONTROL_CODE_ENABLE_PROVIDER == 1,
        EVENT_CONTROL_CODE_CAPTURE_STATE == 2,
{
}

/// The code a failed call is reported with is negative and has the status in its
/// low half; codes with the top bit set are kept bit by bit, and success is zero.
pub proof fn statuses_are_reported(a: u32, b: u32)
    ensures
        hresult(0) == 0,
        0 < a < 0x1_0000 ==> hresult(a) < 0 && hresult(a) as int % 0x1_0000_0000 == 0x8007_0000 + a,
        a >= 0x8000_0000 ==> hresult(a) as int % 0x1_0000_0000 == a,
        0x1_0000 <= a < 0x8000_0000 ==> hresult(a) as int % 0x1_0000_0000 == 0x8007_0000 + a
            % 0x1_0000,
        0 < a < 0x1_0000 && 0 < b < 0x1_0000 && a != b ==> hresult(a) != hresult(b),
{
}

/// A handle is invalid only if all its bits, or those of its low half and no
/// others, are set.
pub proof fn invalid_handles(handle: u64)
    ensures
        is_invalid_trace_handle(handle) <==> handle == 0xffff_ffff_ffff_ffff || handle
            == 0xffff_ffff,
{
}

/// A query goes on only while it is told that its buffer is too small, and then
/// with the size it is told.
pub proof fn queries_go_on_with_the_size_they_are_told(
    query: ArrayQuery,
    status: u32,
    needed: u32,
)
    requires
        status < 0x1_0000,
    ensures
        next_query(query, status, needed) matches Some(next) ==> next.capacity == needed
            && next.calls_left == query.calls_left - 1,
        next_query(query, status, needed) is Some <==> status == 122 && needed > query.capacity
            && query.calls_left > 1,
{
}

/// Kernel events are named by their identifier, their type and seven zeroes, one
/// behind the other.
pub proof fn kernel_events_are_named(events: Seq<StackTracingEvent>, more: StackTracingEvent)
    ensures
        ({
            let own = event_id_bytes(more);
            &&& own.len() == 24
            &&& own.take(16) == crate::guid::guid_bytes(more.event_guid)
            &&& own[16] == more.event_type
            &&& forall|i: int| 17 <= i < 24 ==> #[trigger] own[i] == 0
            &&& event_ids_bytes(Seq::empty()) == Seq::<u8>::empty()
            &&& event_ids_bytes(events.push(more)) == event_ids_bytes(events) + own
        }),
{
    crate::guid::guid_bytes_round_trip(Seq::empty(), more.event_guid, Seq::empty());
    assert(events.push(more).drop_last() =~= events);
    assert(event_id_bytes(more).take(16) =~= crate::guid::guid_bytes(more.event_guid));
}

/// A subscription names the session or the file it is to, and hands events over one
/// by one, as they happen if it is to a session.
pub proof fn subscriptions_name_their_source(
    log_file: EventTraceLogfile,
    source: SubscriptionSource,
)
    requires
        subscribes_to(log_file, source),
    ensures
        match source {
            SubscriptionSource::RealTimeSession(name) => log_file.logger_name == Some(name)
                && log_file.log_file_name is None && log_file.process_trace_mode == 0x1000_0100,
            SubscriptionSource::FromFile(path) => log_file.log_file_name == Some(path)
                && log_file.logger_name is None && log_file.process_trace_mode == 0x1000_0000,
        },
{
    assert(0x100u32 | 0x1000_0000u32 == 0x1000_0100u32) by (bit_vector);
}

/// Why filters are refused: the first one that cannot be built, or whose type an
/// earlier one has, is what the message is about.
pub proof fn refused_filters_are_named(filters: Seq<EventFilter>, more: EventFilter)
    ensures
        match built_filters(filters) {
            Err(message) => built_filters(filters.push(more)) == Err::<Seq<FilterData>, Seq<char>>(
                message,
            ),
            Ok(before) => match event_filter::filter_data(more) {
                Err(e) => built_filters(filters.push(more)) == Err::<Seq<FilterData>, Seq<char>>(
                    e.text(),
                ),
                Ok(own) => if exists|i: int|
                    0 <= i < before.len() && (#[trigger] before[i]).ty == own.ty {
                    built_filters(filters.push(more)) is Err
                } else {
                    built_filters(filters.push(more)) == Ok::<Seq<FilterData>, Seq<char>>(
                        before.push(own),
                    )
                },
            },
        },
{
    assert(filters.push(more).drop_last() =~= filters);
}

} // verus!
