//! Trace sessions: their settings, and the decisions made while they are started,
//! controlled and stopped.
use std::marker::PhantomData;
use std::sync::Arc;

use vstd::prelude::*;

use crate::guid::GUID;
use crate::native::etw_types;
use crate::native::etw_types::{EventTraceProperties, SessionIdentity};
use crate::native::evntrace;
use crate::native::evntrace::{
    EvntraceNativeError, EvntraceNativeResult, IoError, ProviderRequest, UniqueValidContexts,
};
use crate::provider::Provider;
use crate::utils;

pub mod callback_data;
pub mod error;
pub mod kernel;
pub mod start;
pub mod starting;

pub use error::TraceError;
pub use kernel::{ExtendedKernelGroup, StackTracingEvent};

pub use crate::native::etw_types::{ClockType, DumpFileLoggingMode, LoggingMode};

use callback_data::RealTimeCallbackData;

verus! {

/// The name of the one kernel session of old systems
pub const KERNEL_LOGGER_NAME: &'static str = "NT Kernel Logger";

/// The number of the identifier of the one kernel session of old systems
pub const SYSTEM_TRACE_CONTROL_GUID: u128 = 0x9e814aad_3204_11d2_9a82_006008a86939;

/// Bits that kernel sessions add to their logging mode
pub const EVENT_TRACE_SYSTEM_LOGGER_MODE: u32 = 0x0200_0000;

pub type TraceResult<T> = Result<T, TraceError>;

/// The same outcome, with its error wrapped.
pub open spec fn wrapped<T>(r: EvntraceNativeResult<T>) -> TraceResult<T> {
    match r {
        Ok(v) => Ok(v),
        Err(e) => Err(TraceError::EtwNativeError(e)),
    }
}

fn wrap<T>(result: EvntraceNativeResult<T>) -> (r: TraceResult<T>)
    ensures
        r == wrapped(result),
{
    match result {
        Ok(v) => Ok(v),
        Err(e) => Err(TraceError::EtwNativeError(e)),
    }
}

/// Whether a session collects the events of applications or of the kernel
#[derive(Debug, Clone, Copy, PartialEq, Eq, Structural)]
pub enum TraceKind {
    User,
    Kernel,
}

/// What the system is asked before a session is started
#[derive(Debug, Clone, Copy, PartialEq, Eq, Structural)]
pub struct Platform {
    /// Whether kernel sessions may have any name and identifier
    pub is_win8_or_greater: bool,
    /// A new identifier, if one could be made
    pub new_guid: Option<GUID>,
}

impl TraceKind {
    /// The identifier of a session, as a number.
    pub open spec fn guid_number(self, platform: Platform) -> int {
        if self == TraceKind::Kernel && !platform.is_win8_or_greater {
            SYSTEM_TRACE_CONTROL_GUID as int
        } else {
            match platform.new_guid {
                Some(g) => g.value(),
                None => 0,
            }
        }
    }

    /// The identifier of a session.
    pub fn trace_guid(self, platform: Platform) -> (r: GUID)
        ensures
            r.value() == self.guid_number(platform),
    {
        if self == TraceKind::Kernel && !platform.is_win8_or_greater {
            GUID::from_u128(SYSTEM_TRACE_CONTROL_GUID)
        } else {
            match platform.new_guid {
                Some(g) => g,
                None => GUID::zeroed(),
            }
        }
    }

    /// The bits a session adds to its logging mode.
    pub open spec fn mode_bits(self, platform: Platform) -> u32 {
        if self == TraceKind::Kernel && platform.is_win8_or_greater {
            EVENT_TRACE_SYSTEM_LOGGER_MODE
        } else {
            0
        }
    }

    /// The bits a session adds to its logging mode.
    pub fn augmented_file_mode(self, platform: Platform) -> (r: u32)
        ensures
            r == self.mode_bits(platform),
    {
        if self == TraceKind::Kernel && platform.is_win8_or_greater {
            EVENT_TRACE_SYSTEM_LOGGER_MODE
        } else {
            0
        }
    }

    /// Whether `identity` is what a session is started with.
    pub open spec fn is_identity(self, identity: SessionIdentity, platform: Platform) -> bool {
        &&& identity.guid.value() == self.guid_number(platform)
        &&& identity.augmented_file_mode == self.mode_bits(platform)
    }

    /// What a session is started with.
    pub fn identity(self, platform: Platform) -> (r: SessionIdentity)
        ensures
            self.is_identity(r, platform),
    {
        SessionIdentity {
            guid: self.trace_guid(platform),
            augmented_file_mode: self.augmented_file_mode(platform),
        }
    }
}

/// Settings of a session
#[derive(Debug, Copy, Clone)]
pub struct TraceProperties {
    /// Size of a buffer, in KB
    pub buffer_size: u32,
    /// Minimum number of buffers
    pub min_buffer: u32,
    /// Maximum number of buffers in the buffer pool
    pub max_buffer: u32,
    /// Flush interval, in milliseconds
    ///
    /// It is rounded to the closest second (and 0 is translated as 1 second)
    pub flush_timer_millis: u128,
    /// Logging mode
    pub log_file_mode: LoggingMode,
    /// Clock that timestamps the events
    pub clock_type: ClockType,
}

/// The settings of a session that was not given any.
pub open spec fn default_properties() -> TraceProperties {
    TraceProperties {
        buffer_size: 32,
        min_buffer: 0,
        max_buffer: 0,
        flush_timer_millis: 1000,
        log_file_mode: LoggingMode {
            bits: LoggingMode::EVENT_TRACE_REAL_TIME_MODE
                | LoggingMode::EVENT_TRACE_NO_PER_PROCESSOR_BUFFERING,
        },
        clock_type: ClockType::Qpc,
    }
}

impl Default for TraceProperties {
    fn default() -> (r: Self)
        ensures
            r == default_properties(),
    {
        TraceProperties {
            buffer_size: 32,
            min_buffer: 0,
            max_buffer: 0,
            flush_timer_millis: 1000,
            log_file_mode: LoggingMode::from_bits_retain(
                LoggingMode::EVENT_TRACE_REAL_TIME_MODE
                    | LoggingMode::EVENT_TRACE_NO_PER_PROCESSOR_BUFFERING,
            ),
            clock_type: ClockType::Qpc,
        }
    }
}

/// A snapshot of the statistics of a running trace session
///
/// These are the statistics of the logger. What the consumer counts is a
/// complementary view of the same session.
#[derive(Debug, Clone, Copy, PartialEq, Eq, Structural)]
pub struct TraceStatistics {
    /// Number of events the session has dropped because no buffer was available
    pub events_lost: u32,
    /// Number of buffers lost while logging to the dump file
    pub log_buffers_lost: u32,
    /// Number of buffers lost while delivering events to real-time consumers
    pub real_time_buffers_lost: u32,
    /// Total number of buffers written so far
    pub buffers_written: u32,
    /// Number of buffers currently allocated for the session
    pub number_of_buffers: u32,
    /// Number of allocated buffers currently free
    pub free_buffers: u32,
    /// Identifier of the thread running the logger
    pub logger_thread_id: u32,
}

impl TraceStatistics {
    /// The statistics a query filled in. The thread identifier is disguised as a
    /// handle: only its low 32 bits are meaningful.
    pub fn from_properties(props: &EventTraceProperties) -> (r: TraceStatistics)
        ensures
            r.events_lost == props.events_lost,
            r.log_buffers_lost == props.log_buffers_lost,
            r.real_time_buffers_lost == props.real_time_buffers_lost,
            r.buffers_written == props.buffers_written,
            r.number_of_buffers == props.number_of_buffers,
            r.free_buffers == props.free_buffers,
            r.logger_thread_id == props.logger_thread_id % 0x1_0000_0000,
    {
        TraceStatistics {
            events_lost: props.events_lost,
            log_buffers_lost: props.log_buffers_lost,
            real_time_buffers_lost: props.real_time_buffers_lost,
            buffers_written: props.buffers_written,
            number_of_buffers: props.number_of_buffers,
            free_buffers: props.free_buffers,
            logger_thread_id: (props.logger_thread_id % 0x1_0000_0000) as u32,
        }
    }
}

/// A trace of a session, and its consumer
pub struct Session {
    /// Description of the session
    pub properties: EventTraceProperties,
    /// Handle the session is controlled by; 0 when it is not ours
    pub control_handle: u64,
    /// Handle events are received by
    pub trace_handle: u64,
    /// What is handed back with every event
    pub context: u64,
}

/// The two calls that stop a trace. Both are made, whatever becomes of the other:
/// leaving out the second would leave the session running.
#[derive(Debug)]
pub struct StopCalls {
    /// The handle `CloseTrace` is called with
    pub close: EvntraceNativeResult<u64>,
    /// The handle `ControlTraceW` is called with to stop the session
    pub stop: EvntraceNativeResult<u64>,
}

/// What stopping a trace amounts to: the error of the first call is reported
/// before that of the second.
pub fn stop_outcome(closed: EvntraceNativeResult<bool>, halted: EvntraceNativeResult<()>) -> (r:
    TraceResult<()>)
    ensures
        r == (match closed {
            Err(e) => Err(TraceError::EtwNativeError(e)),
            Ok(_) => wrapped(halted),
        }),
{
    match closed {
        Err(e) => Err(TraceError::EtwNativeError(e)),
        Ok(_) => wrap(halted),
    }
}

/// Common methods of user, kernel and file traces
pub trait TraceTrait: Sized {
    /// The handle events are received by.
    spec fn handle(&self) -> u64;

    /// What is handed back with every event.
    spec fn user_context(&self) -> u64;

    /// The handle events are received by.
    fn trace_handle(&self) -> (r: u64)
        ensures
            r == self.handle(),
    ;

    /// What is handed back with every event.
    fn context(&self) -> (r: u64)
        ensures
            r == self.user_context(),
    ;

    /// The handle `CloseTrace` is called with. The events of the trace are
    /// discarded from here on.
    fn close(&self, contexts: &mut UniqueValidContexts) -> (r: TraceResult<u64>)
        ensures
            if evntrace::is_invalid_trace_handle(self.handle()) {
                &&& r == Err::<u64, TraceError>(
                    TraceError::EtwNativeError(EvntraceNativeError::InvalidHandle),
                )
                &&& final(contexts)@ == old(contexts)@
            } else {
                &&& r == Ok::<u64, TraceError>(self.handle())
                &&& final(contexts)@ == old(contexts)@.remove(self.user_context())
            },
    {
        wrap(evntrace::close_trace(contexts, self.trace_handle(), self.context()))
    }

    /// The handle `ProcessTrace` is called with.
    fn process(&self) -> (r: TraceResult<u64>)
        ensures
            r == (if evntrace::is_invalid_trace_handle(self.handle()) {
                Err(TraceError::EtwNativeError(EvntraceNativeError::InvalidHandle))
            } else {
                Ok(self.handle())
            }),
    {
        wrap(evntrace::process_trace(self.trace_handle()))
    }
}

/// Common methods of real-time traces
pub trait RealTimeTraceTrait: TraceTrait {
    /// The kind of the trace.
    spec fn kind() -> TraceKind;

    /// The session of the trace.
    spec fn session(&self) -> Session;

    /// The kind of the trace.
    fn trace_kind() -> (r: TraceKind)
        ensures
            r == Self::kind(),
    ;

    /// The trace of a session.
    fn build(session: Session) -> (r: Self)
        ensures
            r.session() == session,
            r.handle() == session.trace_handle,
            r.user_context() == session.context,
    ;

    /// The session of the trace.
    fn as_session(&self) -> (r: &Session)
        ensures
            *r == self.session(),
            self.handle() == self.session().trace_handle,
            self.user_context() == self.session().context,
    ;

    /// The name of the trace as UTF-16 code units.
    fn trace_name(&self) -> (r: Vec<u16>)
        ensures
            r@ == etw_types::name_in(self.session().properties.wide_trace_name@),
    {
        self.as_session().properties.name()
    }

    /// The handle the statistics of the session are queried by.
    fn statistics(&self) -> (r: TraceResult<u64>)
        ensures
            r == wrapped(control_handle_of(self.session())),
    {
        wrap(evntrace::control_trace(self.as_session().control_handle))
    }

    /// The calls that stop the trace.
    fn non_consuming_stop(&self, contexts: &mut UniqueValidContexts) -> (r: StopCalls)
        ensures
            r.stop == control_handle_of(self.session()),
            if evntrace::is_invalid_trace_handle(self.handle()) {
                &&& r.close == Err::<u64, EvntraceNativeError>(EvntraceNativeError::InvalidHandle)
                &&& final(contexts)@ == old(contexts)@
            } else {
                &&& r.close == Ok::<u64, EvntraceNativeError>(self.handle())
                &&& final(contexts)@ == old(contexts)@.remove(self.user_context())
            },
    {
        let close = evntrace::close_trace(contexts, self.trace_handle(), self.context());
        let stop = evntrace::control_trace(self.as_session().control_handle);
        StopCalls { close, stop }
    }
}

/// The handle a session is controlled by, unless the session is not ours.
pub open spec fn control_handle_of(session: Session) -> EvntraceNativeResult<u64> {
    if session.control_handle == 0 {
        Err(EvntraceNativeError::InvalidHandle)
    } else {
        Ok(session.control_handle)
    }
}

/// A real-time trace session to collect events from user-mode applications
pub struct UserTrace {
    pub session: Session,
}

/// A real-time trace session to collect events from kernel-mode drivers
pub struct KernelTrace {
    pub session: Session,
}

/// A trace session that reads events from an ETL file
pub struct FileTrace {
    pub trace_handle: u64,
    pub context: u64,
}

impl TraceTrait for UserTrace {
    open spec fn handle(&self) -> u64 {
        self.session.trace_handle
    }

    open spec fn user_context(&self) -> u64 {
        self.session.context
    }

    fn trace_handle(&self) -> (r: u64) {
        self.session.trace_handle
    }

    fn context(&self) -> (r: u64) {
        self.session.context
    }
}

impl RealTimeTraceTrait for UserTrace {
    open spec fn kind() -> TraceKind {
        TraceKind::User
    }

    open spec fn session(&self) -> Session {
        self.session
    }

    fn trace_kind() -> (r: TraceKind) {
        TraceKind::User
    }

    fn build(session: Session) -> (r: UserTrace) {
        UserTrace { session }
    }

    fn as_session(&self) -> (r: &Session) {
        &self.session
    }
}

impl TraceTrait for KernelTrace {
    open spec fn handle(&self) -> u64 {
        self.session.trace_handle
    }

    open spec fn user_context(&self) -> u64 {
        self.session.context
    }

    fn trace_handle(&self) -> (r: u64) {
        self.session.trace_handle
    }

    fn context(&self) -> (r: u64) {
        self.session.context
    }
}

impl RealTimeTraceTrait for KernelTrace {
    open spec fn kind() -> TraceKind {
        TraceKind::Kernel
    }

    open spec fn session(&self) -> Session {
        self.session
    }

    fn trace_kind() -> (r: TraceKind) {
        TraceKind::Kernel
    }

    fn build(session: Session) -> (r: KernelTrace) {
        KernelTrace { session }
    }

    fn as_session(&self) -> (r: &Session) {
        &self.session
    }
}

impl TraceTrait for FileTrace {
    open spec fn handle(&self) -> u64 {
        self.trace_handle
    }

    open spec fn user_context(&self) -> u64 {
        self.context
    }

    fn trace_handle(&self) -> (r: u64) {
        self.trace_handle
    }

    fn context(&self) -> (r: u64) {
        self.context
    }
}

/// The identifiers, in order, of the providers that are asked for their state.
pub open spec fn rundown_guids(providers: Seq<Arc<Provider>>) -> Seq<GUID>
    decreases providers.len(),
{
    if providers.len() == 0 {
        Seq::empty()
    } else if providers.last()@.capture_state {
        rundown_guids(providers.drop_last()).push(providers.last()@.guid)
    } else {
        rundown_guids(providers.drop_last())
    }
}

/// A provider that was registered and is being enabled
#[derive(Debug)]
pub struct PendingEnable {
    /// What the provider is enabled with
    pub request: ProviderRequest,
    /// Where the provider was registered
    pub position: usize,
}

impl UserTrace {
    /// A builder of a user trace.
    pub fn new(random: Option<GUID>) -> (r: TraceBuilder<UserTrace>)
        ensures
            is_new_builder(r, "n4r1b-trace-"@ + utils::random_text(random)),
    {
        TraceBuilder::with_name(utils::default_trace_name(random))
    }

    /// What every provider that asked for it is asked for its state with, in
    /// registration order.
    pub fn request_capture_state(&self, data: &RealTimeCallbackData) -> (r: TraceResult<
        Vec<ProviderRequest>,
    >)
        ensures
            ({
                let guids = rundown_guids(data.registered());
                if guids.len() > 0 && self.session.control_handle == 0 {
                    r == Err::<Vec<ProviderRequest>, TraceError>(
                        TraceError::EtwNativeError(EvntraceNativeError::InvalidHandle),
                    )
                } else {
                    r matches Ok(requests) && requests@.len() == guids.len() && forall|i: int|
                        0 <= i < guids.len() ==> Ok::<ProviderRequest, EvntraceNativeError>(
                            #[trigger] requests@[i],
                        ) == evntrace::bare_request(
                            self.session.control_handle,
                            guids[i],
                            evntrace::EVENT_CONTROL_CODE_CAPTURE_STATE,
                        )
                }
            }),
    {
        let mut requests: Vec<ProviderRequest> = Vec::new();
        let count: usize = data.provider_count();
        let ghost providers = data.registered();
        let mut i: usize = 0;
        while i < count
            invariant
                i <= count,
                count == providers.len(),
                providers == data.registered(),
                requests@.len() == rundown_guids(providers.take(i as int)).len(),
                requests@.len() > 0 ==> self.session.control_handle != 0,
                forall|k: int|
                    0 <= k < requests@.len() ==> Ok::<ProviderRequest, EvntraceNativeError>(
                        #[trigger] requests@[k],
                    ) == evntrace::bare_request(
                        self.session.control_handle,
                        rundown_guids(providers.take(i as int))[k],
                        evntrace::EVENT_CONTROL_CODE_CAPTURE_STATE,
                    ),
            decreases count - i,
        {
            let ghost now = providers.take(i + 1);
            assert(now.drop_last() =~= providers.take(i as int));
            let provider = data.provider_at(i);
            if provider.requests_capture_state() {
                match evntrace::capture_provider_state(self.session.control_handle, provider) {
                    Ok(request) => {
                        requests.push(request);
                    },
                    Err(e) => {
                        proof {
                            rundown_guids_grow(providers, i + 1);
                        }
                        return Err(TraceError::EtwNativeError(e));
                    },
                }
            }
            i += 1;
        }
        assert(providers.take(i as int) =~= providers);
        Ok(requests)
    }

    /// Registers a provider on a started trace, and says what it is enabled with.
    ///
    /// It is registered first: once its events are delivered, they have to find
    /// it. When it cannot be enabled, the registration is taken back.
    pub fn enable_provider(&self, data: &mut RealTimeCallbackData, provider: Provider) -> (r:
        TraceResult<PendingEnable>)
        ensures
            final(data).counts() == old(data).counts(),
            if self.session.control_handle == 0 {
                &&& r == Err::<PendingEnable, TraceError>(
                    TraceError::EtwNativeError(EvntraceNativeError::InvalidHandle),
                )
                &&& final(data).registered() == old(data).registered()
            } else {
                match evntrace::built_filters(provider@.filters@) {
                    Ok(built) => {
                        &&& r matches Ok(pending) && pending.position
                            == old(data).registered().len() && evntrace::enables(
                            pending.request,
                            self.session.control_handle,
                            provider,
                            built,
                        )
                        &&& final(data).registered() == old(data).registered().push(
                            Arc::new(provider),
                        )
                    },
                    Err(message) => {
                        &&& r matches Err(
                            TraceError::EtwNativeError(EvntraceNativeError::InvalidFilter(m)),
                        ) && m@ == message
                        &&& final(data).registered() == old(data).registered()
                    },
                }
            },
    {
        let position: usize = data.provider_count();
        let shared = Arc::new(provider);
        data.add_provider_shared(Arc::clone(&shared));
        match evntrace::enable_provider(self.session.control_handle, &shared) {
            Ok(request) => Ok(PendingEnable { request, position }),
            Err(e) => {
                data.remove_provider_instance(position);
                proof {
                    callback_data::registration_can_be_taken_back(
                        old(data).registered(),
                        shared,
                    );
                }
                Err(TraceError::EtwNativeError(e))
            },
        }
    }

    /// What the reply of the call that enables a registered provider means: what
    /// the provider is asked for its state with, if it wants to be. When the call
    /// failed, the registration is taken back.
    pub fn enabled_provider(&self, data: &mut RealTimeCallbackData, position: usize, status: u32) -> (r:
        TraceResult<Option<ProviderRequest>>)
        requires
            position < old(data).registered().len(),
        ensures
            final(data).counts() == old(data).counts(),
            if status != evntrace::ERROR_SUCCESS {
                &&& r == Err::<Option<ProviderRequest>, TraceError>(
                    TraceError::EtwNativeError(
                        EvntraceNativeError::IoError(IoError::Os(evntrace::hresult(status))),
                    ),
                )
                &&& final(data).registered() == old(data).registered().remove(position as int)
            } else {
                let provider = old(data).registered()[position as int];
                &&& final(data).registered() == old(data).registered()
                &&& if !provider@.capture_state {
                    r == Ok::<Option<ProviderRequest>, TraceError>(None)
                } else {
                    match evntrace::bare_request(
                        self.session.control_handle,
                        provider@.guid,
                        evntrace::EVENT_CONTROL_CODE_CAPTURE_STATE,
                    ) {
                        Ok(request) => r == Ok::<Option<ProviderRequest>, TraceError>(
                            Some(request),
                        ),
                        Err(e) => r == Err::<Option<ProviderRequest>, TraceError>(
                            TraceError::EtwNativeError(e),
                        ),
                    }
                }
            },
    {
        match evntrace::win32_result(status) {
            Ok(()) => {},
            Err(e) => {
                data.remove_provider_instance(position);
                return Err(TraceError::EtwNativeError(e));
            },
        }
        let provider = data.provider_at(position);
        if !provider.requests_capture_state() {
            return Ok(None);
        }
        match evntrace::capture_provider_state(self.session.control_handle, provider) {
            Ok(request) => Ok(Some(request)),
            Err(e) => Err(TraceError::EtwNativeError(e)),
        }
    }

    /// What a provider is disabled with on a started trace. Nothing is done when
    /// no provider is registered under the identifier.
    pub fn disable_provider(&self, data: &RealTimeCallbackData, guid: GUID) -> (r: TraceResult<
        Option<ProviderRequest>,
    >)
        ensures
            if callback_data::positions_of(data.registered(), guid).len() == 0 {
                r == Ok::<Option<ProviderRequest>, TraceError>(None)
            } else {
                match evntrace::bare_request(
                    self.session.control_handle,
                    guid,
                    evntrace::EVENT_CONTROL_CODE_DISABLE_PROVIDER,
                ) {
                    Ok(request) => r == Ok::<Option<ProviderRequest>, TraceError>(Some(request)),
                    Err(e) => r == Err::<Option<ProviderRequest>, TraceError>(
                        TraceError::EtwNativeError(e),
                    ),
                }
            },
    {
        if !data.has_provider_with_guid(guid) {
            return Ok(None);
        }
        match evntrace::disable_provider(self.session.control_handle, guid) {
            Ok(request) => Ok(Some(request)),
            Err(e) => Err(TraceError::EtwNativeError(e)),
        }
    }

    /// What the reply of the call that disables a provider means: every
    /// registration of the identifier is removed, and their number returned. When
    /// the call failed, the registrations stay.
    pub fn disabled_provider(&self, data: &mut RealTimeCallbackData, guid: GUID, status: u32) -> (r:
        TraceResult<usize>)
        ensures
            final(data).counts() == old(data).counts(),
            if status != evntrace::ERROR_SUCCESS {
                &&& r == Err::<usize, TraceError>(
                    TraceError::EtwNativeError(
                        EvntraceNativeError::IoError(IoError::Os(evntrace::hresult(status))),
                    ),
                )
                &&& final(data).registered() == old(data).registered()
            } else {
                &&& r matches Ok(removed) && removed == callback_data::positions_of(
                    old(data).registered(),
                    guid,
                ).len()
                &&& final(data).registered() == callback_data::without_guid(
                    old(data).registered(),
                    guid,
                )
            },
    {
        match evntrace::win32_result(status) {
            Ok(()) => {},
            Err(e) => return Err(TraceError::EtwNativeError(e)),
        }
        Ok(data.remove_all_by_guid(guid))
    }

    /// The providers currently registered, in registration order.
    pub fn providers(&self, data: &RealTimeCallbackData) -> (r: Vec<Arc<Provider>>)
        ensures
            r@ == data.registered(),
    {
        data.providers()
    }
}

/// Asking more providers asks no fewer.
proof fn rundown_guids_grow(providers: Seq<Arc<Provider>>, n: int)
    requires
        0 <= n <= providers.len(),
    ensures
        rundown_guids(providers).len() >= rundown_guids(providers.take(n)).len(),
    decreases providers.len() - n,
{
    if n < providers.len() {
        assert(providers.take(n + 1).drop_last() =~= providers.take(n));
        rundown_guids_grow(providers, n + 1);
    } else {
        assert(providers.take(n) =~= providers);
    }
}

impl KernelTrace {
    /// A builder of a kernel trace.
    pub fn new(random: Option<GUID>, platform: Platform) -> (r: TraceBuilder<KernelTrace>)
        ensures
            is_new_builder(
                r,
                session_name(
                    TraceKind::Kernel,
                    platform,
                    "n4r1b-trace-"@ + utils::random_text(random),
                ),
            ),
    {
        let builder: TraceBuilder<KernelTrace> = TraceBuilder::with_name(String::new());
        builder.named(utils::default_trace_name(random), platform)
    }
}

/// Various parameters related to an ETL dump file
#[derive(Debug)]
pub struct DumpFileParams {
    /// The path, as UTF-16 code units
    pub file_path: Vec<u16>,
    /// Options that control how the file is written
    pub file_logging_mode: DumpFileLoggingMode,
    /// Maximum size of the dump file, in MB unless `file_logging_mode` requires
    /// it otherwise
    pub max_size: Option<u32>,
}

impl Default for DumpFileParams {
    fn default() -> (r: Self)
        ensures
            r.file_path@.len() == 0,
            r.file_logging_mode.bits == DumpFileLoggingMode::EVENT_TRACE_FILE_MODE_NONE,
            r.max_size is None,
    {
        DumpFileParams {
            file_path: Vec::new(),
            file_logging_mode: DumpFileLoggingMode::default(),
            max_size: None,
        }
    }
}

/// Provides a way to create traces
pub struct TraceBuilder<T> {
    pub name: String,
    pub etl_dump_file: Option<DumpFileParams>,
    pub properties: TraceProperties,
    pub rt_callback_data: RealTimeCallbackData,
    pub stop_if_exist: bool,
    pub stack_tracing_events: Vec<StackTracingEvent>,
    pub extended_kernel_groups: Vec<ExtendedKernelGroup>,
    pub trace_kind: PhantomData<T>,
}

/// Whether a builder has no settings but its name.
pub open spec fn is_new_builder<T>(b: TraceBuilder<T>, name: Seq<char>) -> bool {
    &&& b.name@ == name
    &&& b.etl_dump_file is None
    &&& b.properties == default_properties()
    &&& b.rt_callback_data.registered() == Seq::<Arc<Provider>>::empty()
    &&& b.rt_callback_data.counts() == (callback_data::Counters {
        events_handled: 0,
        buffers_read: 0,
        events_lost: 0,
    })
    &&& b.stop_if_exist
    &&& b.stack_tracing_events@.len() == 0
    &&& b.extended_kernel_groups@.len() == 0
}

/// The name of a session that was asked to be named `name`: on old systems all
/// kernel sessions have the same name.
pub open spec fn session_name(kind: TraceKind, platform: Platform, name: Seq<char>) -> Seq<char> {
    if kind == TraceKind::Kernel && !platform.is_win8_or_greater {
        KERNEL_LOGGER_NAME@
    } else {
        name
    }
}

impl<T> TraceBuilder<T> {
    fn with_name(name: String) -> (r: TraceBuilder<T>)
        ensures
            is_new_builder(r, name@),
    {
        TraceBuilder {
            name,
            etl_dump_file: None,
            properties: TraceProperties::default(),
            rt_callback_data: RealTimeCallbackData::new(),
            stop_if_exist: true,
            stack_tracing_events: Vec::new(),
            extended_kernel_groups: Vec::new(),
            trace_kind: PhantomData,
        }
    }

    /// Defines several low-level settings of the trace at once.
    pub fn set_trace_properties(self, props: TraceProperties) -> (r: TraceBuilder<T>)
        ensures
            r == (TraceBuilder { properties: props, ..self }),
    {
        TraceBuilder { properties: props, ..self }
    }

    /// Defines a dump file for the events.
    pub fn set_etl_dump_file(self, params: DumpFileParams) -> (r: TraceBuilder<T>)
        ensures
            r == (TraceBuilder { etl_dump_file: Some(params), ..self }),
    {
        TraceBuilder { etl_dump_file: Some(params), ..self }
    }

    /// Enables a provider for this trace, once the trace is started.
    pub fn enable(self, provider: Provider) -> (r: TraceBuilder<T>)
        ensures
            r.rt_callback_data.registered() == self.rt_callback_data.registered().push(
                Arc::new(provider),
            ),
            r.rt_callback_data.counts() == self.rt_callback_data.counts(),
            r == (TraceBuilder { rt_callback_data: r.rt_callback_data, ..self }),
    {
        let mut data = self.rt_callback_data;
        data.add_provider(provider);
        TraceBuilder { rt_callback_data: data, ..self }
    }

    /// Whether a running session of the same name is stopped first.
    pub fn stop_if_exist(self, b: bool) -> (r: TraceBuilder<T>)
        ensures
            r == (TraceBuilder { stop_if_exist: b, ..self }),
    {
        TraceBuilder { stop_if_exist: b, ..self }
    }
}

impl<T: RealTimeTraceTrait> TraceBuilder<T> {
    /// Defines the trace name.
    pub fn named(self, name: String, platform: Platform) -> (r: TraceBuilder<T>)
        ensures
            r.name@ == session_name(T::kind(), platform, name@),
            r == (TraceBuilder { name: r.name, ..self }),
    {
        if T::trace_kind() == TraceKind::Kernel && !platform.is_win8_or_greater {
            TraceBuilder { name: KERNEL_LOGGER_NAME.to_owned(), ..self }
        } else {
            TraceBuilder { name, ..self }
        }
    }
}

impl TraceBuilder<KernelTrace> {
    /// Collects call stacks for these kernel events.
    pub fn set_stack_tracing(self, events: Vec<StackTracingEvent>) -> (r: TraceBuilder<KernelTrace>)
        ensures
            r == (TraceBuilder { stack_tracing_events: events, ..self }),
    {
        TraceBuilder { stack_tracing_events: events, ..self }
    }

    /// Enables these fine-grained kernel event groups.
    pub fn set_extended_groups(self, groups: Vec<ExtendedKernelGroup>) -> (r: TraceBuilder<
        KernelTrace,
    >)
        ensures
            r == (TraceBuilder { extended_kernel_groups: groups, ..self }),
    {
        TraceBuilder { extended_kernel_groups: groups, ..self }
    }
}

/// What a session is started with. A user session has a new identifier and adds
/// nothing to its logging mode. So does a kernel session, but that it is a system
/// logger; where it cannot be one, it has the identifier of the one kernel logger.
pub proof fn sessions_have_their_identity(
    kind: TraceKind,
    platform: Platform,
    identity: SessionIdentity,
)
    requires
        kind.is_identity(identity, platform),
    ensures
        kind is User || platform.is_win8_or_greater ==> {
            &&& platform.new_guid matches Some(g) ==> identity.guid.value() == g.value()
            &&& platform.new_guid is None ==> identity.guid.value() == 0
        },
        kind is Kernel && !platform.is_win8_or_greater ==> identity.guid.value()
            == 0x9e814aad_3204_11d2_9a82_006008a86939,
        identity.augmented_file_mode == if kind is Kernel && platform.is_win8_or_greater {
            0x0200_0000u32
        } else {
            0
        },
{
}

/// The name of a session is the one it was given, but for the one kernel logger.
pub proof fn sessions_have_their_name(kind: TraceKind, platform: Platform, name: Seq<char>)
    ensures
        kind is User || platform.is_win8_or_greater ==> session_name(kind, platform, name) == name,
        kind is Kernel && !platform.is_win8_or_greater ==> session_name(kind, platform, name)
            == "NT Kernel Logger"@,
{
}

/// A new trace has a real-time session without buffers for each processor, with
/// buffers of 32 kilobytes that are flushed each second, and stops a session of its
/// name. It has no providers, no dump file and no stack tracing.
pub proof fn new_traces_are_real_time_traces<T>(b: TraceBuilder<T>, name: Seq<char>)
    requires
        is_new_builder(b, name),
    ensures
        b.name@ == name,
        b.properties.buffer_size == 32,
        b.properties.min_buffer == 0,
        b.properties.max_buffer == 0,
        b.properties.flush_timer_millis == 1000,
        b.properties.log_file_mode.bits == 0x1000_0100,
        b.properties.clock_type is Qpc,
        b.stop_if_exist,
        b.etl_dump_file is None,
        b.rt_callback_data.registered().len() == 0,
        b.rt_callback_data.counts().events_handled == 0,
        b.rt_callback_data.counts().buffers_read == 0,
        b.rt_callback_data.counts().events_lost == 0,
        b.stack_tracing_events@.len() == 0,
        b.extended_kernel_groups@.len() == 0,
{
    assert(0x100u32 | 0x1000_0000u32 == 0x1000_0100u32) by (bit_vector);
}

/// The state is asked for of exactly the providers that ask for it, in the order
/// they were registered.
pub proof fn state_is_asked_for_where_it_is_wanted(
    providers: Seq<Arc<Provider>>,
    more: Arc<Provider>,
    g: GUID,
)
    ensures
        rundown_guids(Seq::empty()) == Seq::<GUID>::empty(),
        more@.capture_state ==> rundown_guids(providers.push(more)) == rundown_guids(
            providers,
        ).push(more@.guid),
        !more@.capture_state ==> rundown_guids(providers.push(more)) == rundown_guids(providers),
        rundown_guids(providers).contains(g) <==> exists|i: int|
            0 <= i < providers.len() && (#[trigger] providers[i])@.capture_state
                && providers[i]@.guid == g,
    decreases providers.len(),
{
    assert(providers.push(more).drop_last() =~= providers);
    if providers.len() > 0 {
        let rest = providers.drop_last();
        let last = providers.last();
        state_is_asked_for_where_it_is_wanted(rest, more, g);
        let before = rundown_guids(rest);
        let all = rundown_guids(providers);
        if all.contains(g) {
            let k = choose|k: int| 0 <= k < all.len() && all[k] == g;
            if k < before.len() {
                assert(before[k] == g);
                let i = choose|i: int|
                    0 <= i < rest.len() && (#[trigger] rest[i])@.capture_state && rest[i]@.guid
                        == g;
                assert(providers[i] == rest[i]);
            } else {
                assert(providers[providers.len() - 1] == last);
            }
        }
        if exists|i: int|
            0 <= i < providers.len() && (#[trigger] providers[i])@.capture_state
                && providers[i]@.guid == g {
            let i = choose|i: int|
                0 <= i < providers.len() && (#[trigger] providers[i])@.capture_state
                    && providers[i]@.guid == g;
            if i < rest.len() {
                assert(rest[i] == providers[i]);
                let k = choose|k: int| 0 <= k < before.len() && before[k] == g;
                assert(all[k] == g);
            } else {
                assert(all[before.len() as int] == g);
            }
        }
    }
}

/// A session is controlled by its handle, unless it is not ours.
pub proof fn sessions_are_controlled_by_their_handle(session: Session)
    ensures
        control_handle_of(session) is Ok <==> session.control_handle != 0,
        control_handle_of(session) matches Ok(handle) ==> handle == session.control_handle,
        control_handle_of(session) matches Err(e) ==> e is InvalidHandle,
        wrapped(control_handle_of(session)) is Ok <==> session.control_handle != 0,
        wrapped(control_handle_of(session)) matches Ok(handle) ==> handle == session.control_handle,
{
}

/// A user trace is of the user kind, a kernel trace of the kernel kind. Both are
/// received by the handle of their session, and a file trace by its own; what is
/// handed back with each event is the context they were given.
pub proof fn traces_have_their_kind(user: UserTrace, kernel: KernelTrace, file: FileTrace)
    ensures
        UserTrace::kind() is User,
        KernelTrace::kind() is Kernel,
        user.handle() == user.session.trace_handle,
        user.user_context() == user.session.context,
        user.session() == user.session,
        kernel.handle() == kernel.session.trace_handle,
        kernel.user_context() == kernel.session.context,
        kernel.session() == kernel.session,
        file.handle() == file.trace_handle,
        file.user_context() == file.context,
{
}

} // verus!
