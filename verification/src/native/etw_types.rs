//! Types of the event tracing API.
use vstd::prelude::*;

use crate::guid::GUID;
use crate::provider::TraceFlags;
use crate::provider::event_filter::EventFilterDescriptor;
use crate::text;
use crate::trace::TraceProperties;

pub mod event_record;
pub mod extended_data;
pub mod group_mask;

verus! {

/// Where the schema of an event comes from (`DECODING_SOURCE`)
#[derive(Debug, Clone, Copy, PartialEq, Eq, Structural)]
pub enum DecodingSource {
    DecodingSourceXMLFile,
    DecodingSourceWbem,
    DecodingSourceWPP,
    DecodingSourceTlg,
    DecodingSourceMax,
}

impl DecodingSource {
    /// The source the native value `v` denotes; unknown values read as the
    /// upper bound of the enumeration.
    pub open spec fn of(v: u32) -> DecodingSource {
        if v == 0 {
            DecodingSource::DecodingSourceXMLFile
        } else if v == 1 {
            DecodingSource::DecodingSourceWbem
        } else if v == 2 {
            DecodingSource::DecodingSourceWPP
        } else if v == 3 {
            DecodingSource::DecodingSourceTlg
        } else {
            DecodingSource::DecodingSourceMax
        }
    }

    /// The source the native value `v` denotes.
    pub fn from_u32(v: u32) -> (r: DecodingSource)
        ensures
            r == DecodingSource::of(v),
    {
        match v {
            0 => DecodingSource::DecodingSourceXMLFile,
            1 => DecodingSource::DecodingSourceWbem,
            2 => DecodingSource::DecodingSourceWPP,
            3 => DecodingSource::DecodingSourceTlg,
            _ => DecodingSource::DecodingSourceMax,
        }
    }
}

/// Most code units of the name of a trace, or of the path of its dump file
pub const TRACE_NAME_MAX_CHARS: usize = 200;

/// Size of the buffer of a name: the name and a NUL
pub const TRACE_NAME_BUFFER: usize = 201;

/// The information classes of the tracing API (`TRACE_QUERY_INFO_CLASS`)
#[non_exhaustive]
#[derive(Debug, Clone, Copy, PartialEq, Eq, Structural)]
pub enum TraceInformation {
    TraceGuidQueryList,
    TraceGuidQueryInfo,
    TraceGuidQueryProcess,
    TraceStackTracingInfo,
    TraceSystemTraceEnableFlagsInfo,
    TraceSampledProfileIntervalInfo,
    TraceProfileSourceConfigInfo,
    TraceProfileSourceListInfo,
    TracePmcEventListInfo,
    TracePmcCounterListInfo,
    TraceSetDisallowList,
    TraceVersionInfo,
    TraceGroupQueryList,
    TraceGroupQueryInfo,
    TraceDisallowListQuery,
    TraceInfoReserved15,
    TracePeriodicCaptureStateListInfo,
    TracePeriodicCaptureStateInfo,
    TraceProviderBinaryTracking,
    TraceMaxLoggersQuery,
    TraceLbrConfigurationInfo,
    TraceLbrEventListInfo,
    TraceMaxPmcCounterQuery,
    TraceStreamCount,
    TraceStackCachingInfo,
    TracePmcCounterOwners,
    TraceUnifiedStackCachingInfo,
    TracePmcSessionInformation,
    MaxTraceSetInfoClass,
}

impl TraceInformation {
    /// The native number of each class: they are numbered in order.
    pub open spec fn number(self) -> i32 {
        match self {
            TraceInformation::TraceGuidQueryList => 0,
            TraceInformation::TraceGuidQueryInfo => 1,
            TraceInformation::TraceGuidQueryProcess => 2,
            TraceInformation::TraceStackTracingInfo => 3,
            TraceInformation::TraceSystemTraceEnableFlagsInfo => 4,
            TraceInformation::TraceSampledProfileIntervalInfo => 5,
            TraceInformation::TraceProfileSourceConfigInfo => 6,
            TraceInformation::TraceProfileSourceListInfo => 7,
            TraceInformation::TracePmcEventListInfo => 8,
            TraceInformation::TracePmcCounterListInfo => 9,
            TraceInformation::TraceSetDisallowList => 10,
            TraceInformation::TraceVersionInfo => 11,
            TraceInformation::TraceGroupQueryList => 12,
            TraceInformation::TraceGroupQueryInfo => 13,
            TraceInformation::TraceDisallowListQuery => 14,
            TraceInformation::TraceInfoReserved15 => 15,
            TraceInformation::TracePeriodicCaptureStateListInfo => 16,
            TraceInformation::TracePeriodicCaptureStateInfo => 17,
            TraceInformation::TraceProviderBinaryTracking => 18,
            TraceInformation::TraceMaxLoggersQuery => 19,
            TraceInformation::TraceLbrConfigurationInfo => 20,
            TraceInformation::TraceLbrEventListInfo => 21,
            TraceInformation::TraceMaxPmcCounterQuery => 22,
            TraceInformation::TraceStreamCount => 23,
            TraceInformation::TraceStackCachingInfo => 24,
            TraceInformation::TracePmcCounterOwners => 25,
            TraceInformation::TraceUnifiedStackCachingInfo => 26,
            TraceInformation::TracePmcSessionInformation => 27,
            TraceInformation::MaxTraceSetInfoClass => 28,
        }
    }

    /// The native number of the class.
    pub fn as_i32(self) -> (r: i32)
        ensures
            r == self.number(),
    {
        match self {
            TraceInformation::TraceGuidQueryList => 0,
            TraceInformation::TraceGuidQueryInfo => 1,
            TraceInformation::TraceGuidQueryProcess => 2,
            TraceInformation::TraceStackTracingInfo => 3,
            TraceInformation::TraceSystemTraceEnableFlagsInfo => 4,
            TraceInformation::TraceSampledProfileIntervalInfo => 5,
            TraceInformation::TraceProfileSourceConfigInfo => 6,
            TraceInformation::TraceProfileSourceListInfo => 7,
            TraceInformation::TracePmcEventListInfo => 8,
            TraceInformation::TracePmcCounterListInfo => 9,
            TraceInformation::TraceSetDisallowList => 10,
            TraceInformation::TraceVersionInfo => 11,
            TraceInformation::TraceGroupQueryList => 12,
            TraceInformation::TraceGroupQueryInfo => 13,
            TraceInformation::TraceDisallowListQuery => 14,
            TraceInformation::TraceInfoReserved15 => 15,
            TraceInformation::TracePeriodicCaptureStateListInfo => 16,
            TraceInformation::TracePeriodicCaptureStateInfo => 17,
            TraceInformation::TraceProviderBinaryTracking => 18,
            TraceInformation::TraceMaxLoggersQuery => 19,
            TraceInformation::TraceLbrConfigurationInfo => 20,
            TraceInformation::TraceLbrEventListInfo => 21,
            TraceInformation::TraceMaxPmcCounterQuery => 22,
            TraceInformation::TraceStreamCount => 23,
            TraceInformation::TraceStackCachingInfo => 24,
            TraceInformation::TracePmcCounterOwners => 25,
            TraceInformation::TraceUnifiedStackCachingInfo => 26,
            TraceInformation::TracePmcSessionInformation => 27,
            TraceInformation::MaxTraceSetInfoClass => 28,
        }
    }
}

/// Logging mode that applies to a general trace
#[derive(Clone, Copy, Debug, PartialEq, Eq, Hash, Structural)]
pub struct LoggingMode {
    pub bits: u32,
}

impl LoggingMode {
    pub const EVENT_TRACE_NONSTOPPABLE_MODE: u32 = 0x40;

    pub const EVENT_TRACE_SECURE_MODE: u32 = 0x80;

    pub const EVENT_TRACE_REAL_TIME_MODE: u32 = 0x100;

    pub const EVENT_TRACE_BUFFERING_MODE: u32 = 0x400;

    pub const EVENT_TRACE_PRIVATE_LOGGER_MODE: u32 = 0x800;

    pub const EVENT_TRACE_PRIVATE_IN_PROC: u32 = 0x2_0000;

    pub const EVENT_TRACE_MODE_RESERVED: u32 = 0x10_0000;

    pub const EVENT_TRACE_STOP_ON_HYBRID_SHUTDOWN: u32 = 0x40_0000;

    pub const EVENT_TRACE_PERSIST_ON_HYBRID_SHUTDOWN: u32 = 0x80_0000;

    pub const EVENT_TRACE_USE_PAGED_MEMORY: u32 = 0x100_0000;

    pub const EVENT_TRACE_SYSTEM_LOGGER_MODE: u32 = 0x200_0000;

    pub const EVENT_TRACE_INDEPENDENT_SESSION_MODE: u32 = 0x800_0000;

    pub const EVENT_TRACE_NO_PER_PROCESSOR_BUFFERING: u32 = 0x1000_0000;

    pub const EVENT_TRACE_ADDTO_TRIAGE_DUMP: u32 = 0x8000_0000;

    /// The mode whose bits are `bits`.
    pub fn from_bits_retain(bits: u32) -> (r: LoggingMode)
        ensures
            r.bits == bits,
    {
        LoggingMode { bits }
    }

    /// The bits of the mode.
    pub fn bits(&self) -> (r: u32)
        ensures
            r == self.bits,
    {
        self.bits
    }

    /// Whether no bit is set.
    pub fn is_empty(&self) -> (r: bool)
        ensures
            r == (self.bits == 0),
    {
        self.bits == 0
    }
}

/// Logging mode that applies to a dump file
#[derive(Clone, Copy, Debug, PartialEq, Eq, Hash, Structural)]
pub struct DumpFileLoggingMode {
    pub bits: u32,
}

impl DumpFileLoggingMode {
    /// Sequential file without a size limit
    pub const EVENT_TRACE_FILE_MODE_NONE: u32 = 0x0;

    /// Stop appending when the file reaches its maximum size
    pub const EVENT_TRACE_FILE_MODE_SEQUENTIAL: u32 = 0x1;

    /// Replace the oldest events when the file reaches its maximum size
    pub const EVENT_TRACE_FILE_MODE_CIRCULAR: u32 = 0x2;

    /// Append to an existing sequential file
    pub const EVENT_TRACE_FILE_MODE_APPEND: u32 = 0x4;

    /// Switch to a new file when the file reaches its maximum size
    pub const EVENT_TRACE_FILE_MODE_NEWFILE: u32 = 0x8;

    /// Reserve the disk space of the file in advance
    pub const EVENT_TRACE_FILE_MODE_PREALLOCATE: u32 = 0x20;

    /// Sizes are in kilobytes instead of megabytes
    pub const EVENT_TRACE_USE_KBYTES_FOR_SIZE: u32 = 0x2000;

    /// Sequence numbers that are unique across sessions
    pub const EVENT_TRACE_USE_GLOBAL_SEQUENCE: u32 = 0x4000;

    /// Sequence numbers that are unique within a session
    pub const EVENT_TRACE_USE_LOCAL_SEQUENCE: u32 = 0x8000;

    /// The mode whose bits are `bits`.
    pub fn from_bits_retain(bits: u32) -> (r: DumpFileLoggingMode)
        ensures
            r.bits == bits,
    {
        DumpFileLoggingMode { bits }
    }

    /// The bits of the mode.
    pub fn bits(&self) -> (r: u32)
        ensures
            r == self.bits,
    {
        self.bits
    }
}

impl Default for DumpFileLoggingMode {
    fn default() -> (r: Self)
        ensures
            r.bits == DumpFileLoggingMode::EVENT_TRACE_FILE_MODE_NONE,
    {
        DumpFileLoggingMode { bits: DumpFileLoggingMode::EVENT_TRACE_FILE_MODE_NONE }
    }
}

/// The clock resolution used to timestamp the events of a session
#[derive(Debug, Clone, Copy, PartialEq, Eq, Structural)]
pub enum ClockType {
    /// Query performance counter: high-resolution and unaffected by system clock
    /// adjustments
    Qpc,
    /// System time: tracks system clock adjustments
    SystemTime,
}

impl ClockType {
    /// The native number of each clock.
    pub open spec fn number(self) -> u32 {
        match self {
            ClockType::Qpc => 1,
            ClockType::SystemTime => 2,
        }
    }

    /// The native number of the clock.
    pub fn as_u32(self) -> (r: u32)
        ensures
            r == self.number(),
    {
        match self {
            ClockType::Qpc => 1,
            ClockType::SystemTime => 2,
        }
    }
}

impl Default for ClockType {
    fn default() -> (r: Self)
        ensures
            r == ClockType::Qpc,
    {
        ClockType::Qpc
    }
}

/// The data source a trace is subscribed to; names are UTF-16 code units
/// without a NUL
#[derive(Debug)]
pub enum SubscriptionSource {
    /// Subscribe to a real-time session
    RealTimeSession(Vec<u16>),
    /// Open an ETL file
    FromFile(Vec<u16>),
}

/// Marks a session description as a description of a trace
pub const WNODE_FLAG_TRACED_GUID: u32 = 0x2_0000;

/// Size of the native session description together with its two name buffers
pub const PROPERTIES_SIZE: u32 = 928;

/// Where the native session description keeps the name of the trace
pub const LOGGER_NAME_OFFSET: u32 = 120;

/// Where the native session description keeps the path of the dump file
pub const LOG_FILE_NAME_OFFSET: u32 = 522;

/// A dump file: its path as UTF-16 code units, how it is written, and its
/// maximum size
#[derive(Debug)]
pub struct DumpFile {
    pub path: Vec<u16>,
    pub mode: DumpFileLoggingMode,
    pub max_size: Option<u32>,
}

/// What a session is started with that depends on the kind of the trace
#[derive(Debug, Clone, Copy, PartialEq, Eq, Structural)]
pub struct SessionIdentity {
    /// Identifier of the session
    pub guid: GUID,
    /// Bits the kind of the trace adds to the logging mode
    pub augmented_file_mode: u32,
}

/// The content of a name buffer: the name, cut to the maximum length, then NULs.
pub open spec fn name_buffer(name: Seq<u16>) -> Seq<u16> {
    Seq::new(
        TRACE_NAME_BUFFER as nat,
        |i: int|
            if i < name.len() && i < TRACE_NAME_MAX_CHARS {
                name[i]
            } else {
                0u16
            },
    )
}

/// A flush interval in whole seconds: rounded to the closest second, and at
/// least one.
pub open spec fn flush_seconds(millis: int) -> int {
    let rounded = (millis + 500) / 1000;
    if rounded < 1 {
        1
    } else if rounded > u32::MAX {
        u32::MAX as int
    } else {
        rounded
    }
}

/// The logging mode of a session without a dump file.
pub open spec fn session_mode(mode: LoggingMode, augmented: u32) -> u32 {
    let base = if mode.bits == 0 {
        LoggingMode::EVENT_TRACE_REAL_TIME_MODE
            | LoggingMode::EVENT_TRACE_NO_PER_PROCESSOR_BUFFERING
    } else {
        mode.bits
    };
    base | augmented
}

/// The description of a session (`EVENT_TRACE_PROPERTIES`), with the buffers of
/// its two names
#[derive(Debug)]
pub struct EventTraceProperties {
    /// Size of the native description
    pub wnode_buffer_size: u32,
    /// Identifier of the session
    pub wnode_guid: GUID,
    pub wnode_flags: u32,
    /// Number of the clock
    pub wnode_client_context: u32,
    pub buffer_size: u32,
    pub minimum_buffers: u32,
    pub maximum_buffers: u32,
    pub maximum_file_size: u32,
    pub log_file_mode: u32,
    /// Flush interval in seconds
    pub flush_timer: u32,
    pub enable_flags: u32,
    pub logger_name_offset: u32,
    pub log_file_name_offset: u32,
    /// Statistics, filled in by a query
    pub number_of_buffers: u32,
    pub free_buffers: u32,
    pub events_lost: u32,
    pub buffers_written: u32,
    pub log_buffers_lost: u32,
    pub real_time_buffers_lost: u32,
    /// Identifier of the logger thread, as the handle the native API fills in
    pub logger_thread_id: u64,
    /// The trace name to subscribe to
    pub wide_trace_name: Vec<u16>,
    /// The file name (if any) events are stored to
    pub wide_etl_dump_file_path: Vec<u16>,
}

/// Whether `p` describes a new session with these settings.
pub open spec fn describes_session(
    p: EventTraceProperties,
    identity: SessionIdentity,
    trace_name: Seq<u16>,
    etl_dump_file: Option<DumpFile>,
    trace_properties: TraceProperties,
    enable_flags: u32,
) -> bool {
    let mode = session_mode(trace_properties.log_file_mode, identity.augmented_file_mode);
    &&& p.wnode_buffer_size == PROPERTIES_SIZE
    &&& p.wnode_guid == identity.guid
    &&& p.wnode_flags == WNODE_FLAG_TRACED_GUID
    &&& p.wnode_client_context == trace_properties.clock_type.number()
    &&& p.buffer_size == trace_properties.buffer_size
    &&& p.minimum_buffers == trace_properties.min_buffer
    &&& p.maximum_buffers == trace_properties.max_buffer
    &&& p.flush_timer == flush_seconds(trace_properties.flush_timer_millis as int)
    &&& p.enable_flags == enable_flags
    &&& p.logger_name_offset == LOGGER_NAME_OFFSET
    &&& p.wide_trace_name@ == name_buffer(trace_name)
    &&& match etl_dump_file {
        None => {
            &&& p.log_file_mode == mode
            &&& p.log_file_name_offset == 0
            &&& p.wide_etl_dump_file_path@ == name_buffer(Seq::empty())
            &&& p.maximum_file_size == 0
        },
        Some(file) => {
            &&& p.log_file_mode == mode | file.mode.bits
            &&& p.log_file_name_offset == LOG_FILE_NAME_OFFSET
            &&& p.wide_etl_dump_file_path@ == name_buffer(file.path@)
            &&& p.maximum_file_size == (match file.max_size {
                Some(size) => size,
                None => 0,
            })
        },
    }
    &&& p.events_lost == 0
    &&& p.log_buffers_lost == 0
    &&& p.real_time_buffers_lost == 0
    &&& p.buffers_written == 0
    &&& p.number_of_buffers == 0
    &&& p.free_buffers == 0
    &&& p.logger_thread_id == 0
}

/// Fills a name buffer.
fn fill_name(name: &[u16]) -> (r: Vec<u16>)
    ensures
        r@ == name_buffer(name@),
{
    let mut buffer: Vec<u16> = Vec::new();
    let mut i: usize = 0;
    while i < TRACE_NAME_BUFFER
        invariant
            i <= TRACE_NAME_BUFFER,
            buffer@ == name_buffer(name@).take(i as int),
        decreases TRACE_NAME_BUFFER - i,
    {
        if i < name.len() && i < TRACE_NAME_MAX_CHARS {
            buffer.push(name[i]);
        } else {
            buffer.push(0);
        }
        i += 1;
        assert(buffer@ =~= name_buffer(name@).take(i as int));
    }
    assert(name_buffer(name@).take(i as int) =~= name_buffer(name@));
    buffer
}

/// The flush interval in whole seconds.
pub fn rounded_flush_seconds(millis: u128) -> (r: u32)
    ensures
        r == flush_seconds(millis as int),
{
    let whole: u128 = millis / 1000;
    let rest: u128 = millis % 1000;
    let rounded: u128 = if rest >= 500 {
        whole + 1
    } else {
        whole
    };
    if rounded < 1 {
        1
    } else if rounded > u32::MAX as u128 {
        u32::MAX
    } else {
        rounded as u32
    }
}

impl EventTraceProperties {
    /// The description of a new session.
    ///
    /// The trace name and the path of the dump file are cut to
    /// [`TRACE_NAME_MAX_CHARS`] code units.
    pub fn new(
        identity: SessionIdentity,
        trace_name: &[u16],
        etl_dump_file: Option<&DumpFile>,
        trace_properties: &TraceProperties,
        enable_flags: u32,
    ) -> (r: EventTraceProperties)
        ensures
            describes_session(
                r,
                identity,
                trace_name@,
                match etl_dump_file {
                    Some(file) => Some(*file),
                    None => None,
                },
                *trace_properties,
                enable_flags,
            ),
    {
        let base: u32 = if trace_properties.log_file_mode.is_empty() {
            LoggingMode::EVENT_TRACE_REAL_TIME_MODE
                | LoggingMode::EVENT_TRACE_NO_PER_PROCESSOR_BUFFERING
        } else {
            trace_properties.log_file_mode.bits()
        };
        let no_path: [u16; 0] = [];
        assert(no_path@ =~= Seq::<u16>::empty());
        let mut s = EventTraceProperties {
            wnode_buffer_size: PROPERTIES_SIZE,
            wnode_guid: identity.guid,
            wnode_flags: WNODE_FLAG_TRACED_GUID,
            wnode_client_context: trace_properties.clock_type.as_u32(),
            buffer_size: trace_properties.buffer_size,
            minimum_buffers: trace_properties.min_buffer,
            maximum_buffers: trace_properties.max_buffer,
            maximum_file_size: 0,
            log_file_mode: base | identity.augmented_file_mode,
            flush_timer: rounded_flush_seconds(trace_properties.flush_timer_millis),
            enable_flags,
            logger_name_offset: LOGGER_NAME_OFFSET,
            log_file_name_offset: 0,
            number_of_buffers: 0,
            free_buffers: 0,
            events_lost: 0,
            buffers_written: 0,
            log_buffers_lost: 0,
            real_time_buffers_lost: 0,
            logger_thread_id: 0,
            wide_trace_name: fill_name(trace_name),
            wide_etl_dump_file_path: fill_name(no_path.as_slice()),
        };
        if let Some(file) = etl_dump_file {
            s.wide_etl_dump_file_path = fill_name(file.path.as_slice());
            s.log_file_name_offset = LOG_FILE_NAME_OFFSET;
            s.log_file_mode = s.log_file_mode | file.mode.bits();
            if let Some(size) = file.max_size {
                s.maximum_file_size = size;
            }
        }
        s
    }

    /// The buffer of the trace name.
    pub fn trace_name_array(&self) -> (r: &[u16])
        ensures
            r@ == self.wide_trace_name@,
    {
        self.wide_trace_name.as_slice()
    }

    /// The trace name as UTF-16 code units.
    pub fn name(&self) -> (r: Vec<u16>)
        ensures
            r@ == name_in(self.wide_trace_name@),
    {
        match text::c_string_units(self.wide_trace_name.as_slice()) {
            Some(units) => units,
            None => text::encode_utf16("<invalid name>"),
        }
    }
}

/// The name in a name buffer: what stands before its first NUL. A buffer without
/// a NUL holds no valid name.
pub open spec fn name_in(buffer: Seq<u16>) -> Seq<u16> {
    if buffer.contains(0) {
        text::until_nul(buffer)
    } else {
        text::utf16_units("<invalid name>"@)
    }
}

/// The name read back from a name buffer is the name that was put in, up to its
/// first NUL and cut to the maximum length.
pub proof fn names_are_kept_up_to_the_limit(name: Seq<u16>)
    ensures
        name_in(name_buffer(name)) == text::until_nul(
            if name.len() > TRACE_NAME_MAX_CHARS {
                name.take(TRACE_NAME_MAX_CHARS as int)
            } else {
                name
            },
        ),
{
    let cut = if name.len() > TRACE_NAME_MAX_CHARS {
        name.take(TRACE_NAME_MAX_CHARS as int)
    } else {
        name
    };
    let buffer = name_buffer(name);
    assert(buffer[TRACE_NAME_MAX_CHARS as int] == 0);
    text::first_index_properties(cut, 0);
    let n = text::first_index(cut, 0) as int;
    assert forall|i: int| 0 <= i < n implies buffer[i] != 0 by {
        assert(cut[i] == name[i]);
    }
    text::first_index_is(buffer, 0, n);
    assert(text::until_nul(buffer) =~= text::until_nul(cut));
}

/// A flush interval is never zero, and a whole number of seconds that fits is
/// kept.
pub proof fn whole_flush_intervals_are_kept(seconds: u32)
    ensures
        flush_seconds(1000 * seconds) == (if seconds == 0 {
            1
        } else {
            seconds as int
        }),
        forall|millis: int| 1 <= #[trigger] flush_seconds(millis) <= u32::MAX,
{
}

/// Deliver events as records
pub const PROCESS_TRACE_MODE_EVENT_RECORD: u32 = 0x1000_0000;

/// Deliver the events of a real-time session
pub const PROCESS_TRACE_MODE_REAL_TIME: u32 = 0x100;

/// What a trace is opened with (`EVENT_TRACE_LOGFILEW`)
#[derive(Debug)]
pub struct EventTraceLogfile {
    /// Handed back with every event
    pub context: u64,
    pub process_trace_mode: u32,
    pub logger_name: Option<Vec<u16>>,
    pub log_file_name: Option<Vec<u16>>,
}

impl EventTraceLogfile {
    /// What the trace of `subscription_source` is opened with.
    pub fn create(context: u64, subscription_source: SubscriptionSource) -> (r: EventTraceLogfile)
        ensures
            r.context == context,
            match subscription_source {
                SubscriptionSource::RealTimeSession(name) => {
                    &&& r.logger_name == Some(name)
                    &&& r.log_file_name is None
                    &&& r.process_trace_mode == PROCESS_TRACE_MODE_REAL_TIME
                        | PROCESS_TRACE_MODE_EVENT_RECORD
                },
                SubscriptionSource::FromFile(name) => {
                    &&& r.logger_name is None
                    &&& r.log_file_name == Some(name)
                    &&& r.process_trace_mode == PROCESS_TRACE_MODE_EVENT_RECORD
                },
            },
    {
        match subscription_source {
            SubscriptionSource::RealTimeSession(name) => EventTraceLogfile {
                context,
                process_trace_mode: PROCESS_TRACE_MODE_REAL_TIME | PROCESS_TRACE_MODE_EVENT_RECORD,
                logger_name: Some(name),
                log_file_name: None,
            },
            SubscriptionSource::FromFile(name) => EventTraceLogfile {
                context,
                process_trace_mode: PROCESS_TRACE_MODE_EVENT_RECORD,
                logger_name: None,
                log_file_name: Some(name),
            },
        }
    }

    /// What is handed back with every event.
    pub fn context_ptr(&self) -> (r: u64)
        ensures
            r == self.context,
    {
        self.context
    }
}

/// The version of the parameters a provider is enabled with
pub const ENABLE_TRACE_PARAMETERS_VERSION_2: u32 = 2;

/// What a provider is enabled with (`ENABLE_TRACE_PARAMETERS`)
#[derive(Debug)]
pub struct EnableTraceParameters {
    pub version: u32,
    pub enable_property: u32,
    pub control_flags: u32,
    pub source_id: GUID,
    pub filters: Vec<EventFilterDescriptor>,
}

impl EnableTraceParameters {
    /// What the provider `guid` is enabled with.
    pub fn create(
        guid: GUID,
        trace_flags: TraceFlags,
        filters: Vec<EventFilterDescriptor>,
    ) -> (r: EnableTraceParameters)
        ensures
            r.version == ENABLE_TRACE_PARAMETERS_VERSION_2,
            r.enable_property == trace_flags.bits,
            r.control_flags == 0,
            r.source_id == guid,
            r.filters == filters,
    {
        EnableTraceParameters {
            version: ENABLE_TRACE_PARAMETERS_VERSION_2,
            enable_property: trace_flags.bits,
            control_flags: 0,
            source_id: guid,
            filters,
        }
    }
}

/// The logging mode of a session: every bit that the user, the kind of the trace or
/// the dump file asks for is set, and no other one. Only where the user asks for
/// nothing, the session is a real-time one without buffers for each processor.
pub proof fn logging_modes_are_kept(
    p: EventTraceProperties,
    identity: SessionIdentity,
    trace_name: Seq<u16>,
    etl_dump_file: Option<DumpFile>,
    trace_properties: TraceProperties,
    enable_flags: u32,
)
    requires
        describes_session(
            p,
            identity,
            trace_name,
            etl_dump_file,
            trace_properties,
            enable_flags,
        ),
    ensures
        ({
            let user = trace_properties.log_file_mode.bits;
            let kind = identity.augmented_file_mode;
            let file = match etl_dump_file {
                Some(f) => f.mode.bits,
                None => 0,
            };
            &&& user & p.log_file_mode == user
            &&& kind & p.log_file_mode == kind
            &&& file & p.log_file_mode == file
            &&& user == 0 ==> p.log_file_mode & 0x1000_0100 == 0x1000_0100
            &&& user != 0 ==> p.log_file_mode & !(user | kind | file) == 0
            &&& user == 0 ==> p.log_file_mode & !(0x1000_0100 | kind | file) == 0
            &&& user != 0 && kind == 0 && file == 0 ==> p.log_file_mode == user
        }),
{
    let user = trace_properties.log_file_mode.bits;
    let kind = identity.augmented_file_mode;
    let file = match etl_dump_file {
        Some(f) => f.mode.bits,
        None => 0,
    };
    let base = if user == 0 {
        0x1000_0100u32
    } else {
        user
    };
    assert(0x100u32 | 0x1000_0000u32 == 0x1000_0100u32) by (bit_vector);
    let all = p.log_file_mode;
    assert((base | kind) | 0u32 == base | kind) by (bit_vector);
    assert(all == (base | kind) | file);
    assert(all == (base | kind) | file ==> base & all == base && kind & all == kind && file & all
        == file && all & !(base | kind | file) == 0) by (bit_vector);
    assert(0u32 & all == 0) by (bit_vector);
    assert(base & all == all & base) by (bit_vector);
    assert((user | 0u32) | 0u32 == user) by (bit_vector);
}

/// The settings of a trace are those of its session: buffers, clock, identifier,
/// flags, the flush interval to the closest second, and the dump file.
pub proof fn settings_are_kept(
    p: EventTraceProperties,
    identity: SessionIdentity,
    trace_name: Seq<u16>,
    etl_dump_file: Option<DumpFile>,
    trace_properties: TraceProperties,
    enable_flags: u32,
)
    requires
        describes_session(
            p,
            identity,
            trace_name,
            etl_dump_file,
            trace_properties,
            enable_flags,
        ),
    ensures
        p.wnode_guid == identity.guid,
        p.wnode_flags == 0x2_0000,
        p.wnode_client_context == if trace_properties.clock_type is Qpc {
            1u32
        } else {
            2
        },
        p.buffer_size == trace_properties.buffer_size,
        p.minimum_buffers == trace_properties.min_buffer,
        p.maximum_buffers == trace_properties.max_buffer,
        p.enable_flags == enable_flags,
        p.flush_timer >= 1,
        trace_properties.flush_timer_millis < 1500 ==> p.flush_timer == 1,
        trace_properties.flush_timer_millis >= 1000 * u32::MAX ==> p.flush_timer == u32::MAX,
        500 <= trace_properties.flush_timer_millis < 1000 * u32::MAX ==> -500 <= 1000
            * p.flush_timer - trace_properties.flush_timer_millis <= 500,
        trace_properties.flush_timer_millis % 1000 == 500
            && trace_properties.flush_timer_millis < 1000 * u32::MAX ==> 1000 * p.flush_timer
            == trace_properties.flush_timer_millis + 500,
        etl_dump_file matches Some(f) ==> {
            &&& f.max_size matches Some(size) ==> p.maximum_file_size == size
            &&& f.max_size is None ==> p.maximum_file_size == 0
        },
        etl_dump_file is None ==> p.maximum_file_size == 0,
        p.events_lost == 0 && p.log_buffers_lost == 0 && p.real_time_buffers_lost == 0,
        p.buffers_written == 0 && p.number_of_buffers == 0 && p.free_buffers == 0,
{
}

/// The names stand where the description says: behind its fixed part, each in a
/// buffer of 201 code units, cut to 200 of them and filled up with NULs. Without a
/// dump file there is no path.
pub proof fn names_stand_where_the_description_says(
    p: EventTraceProperties,
    identity: SessionIdentity,
    trace_name: Seq<u16>,
    etl_dump_file: Option<DumpFile>,
    trace_properties: TraceProperties,
    enable_flags: u32,
    i: int,
)
    requires
        describes_session(
            p,
            identity,
            trace_name,
            etl_dump_file,
            trace_properties,
            enable_flags,
        ),
        0 <= i < 201,
    ensures
        p.wnode_buffer_size == 928,
        p.logger_name_offset == 120,
        p.wide_trace_name@.len() == 201,
        p.wide_trace_name@[i] == if i < trace_name.len() && i < 200 {
            trace_name[i]
        } else {
            0u16
        },
        p.wide_etl_dump_file_path@.len() == 201,
        match etl_dump_file {
            Some(file) => {
                &&& p.log_file_name_offset == p.logger_name_offset + 2 * 201
                &&& p.wide_etl_dump_file_path@[i] == if i < file.path@.len() && i < 200 {
                    file.path@[i]
                } else {
                    0u16
                }
            },
            None => p.log_file_name_offset == 0 && p.wide_etl_dump_file_path@[i] == 0,
        },
{
}

/// The native numbers of the information classes.
pub proof fn classes_have_their_numbers(class: TraceInformation)
    ensures
        class is TraceGuidQueryList <==> class.number() == 0,
        class is TraceGuidQueryInfo <==> class.number() == 1,
        class is TraceGuidQueryProcess <==> class.number() == 2,
        class is TraceStackTracingInfo <==> class.number() == 3,
        class is TraceSystemTraceEnableFlagsInfo <==> class.number() == 4,
        class is TraceSampledProfileIntervalInfo <==> class.number() == 5,
        class is TraceProfileSourceConfigInfo <==> class.number() == 6,
        class is TraceProfileSourceListInfo <==> class.number() == 7,
        class is TracePmcEventListInfo <==> class.number() == 8,
        class is TracePmcCounterListInfo <==> class.number() == 9,
        class is TraceSetDisallowList <==> class.number() == 10,
        class is TraceVersionInfo <==> class.number() == 11,
        class is TraceGroupQueryList <==> class.number() == 12,
        class is TraceGroupQueryInfo <==> class.number() == 13,
        class is TraceDisallowListQuery <==> class.number() == 14,
        class is TraceInfoReserved15 <==> class.number() == 15,
        class is TracePeriodicCaptureStateListInfo <==> class.number() == 16,
        class is TracePeriodicCaptureStateInfo <==> class.number() == 17,
        class is TraceProviderBinaryTracking <==> class.number() == 18,
        class is TraceMaxLoggersQuery <==> class.number() == 19,
        class is TraceLbrConfigurationInfo <==> class.number() == 20,
        class is TraceLbrEventListInfo <==> class.number() == 21,
        class is TraceMaxPmcCounterQuery <==> class.number() == 22,
        class is TraceStreamCount <==> class.number() == 23,
        class is TraceStackCachingInfo <==> class.number() == 24,
        class is TracePmcCounterOwners <==> class.number() == 25,
        class is TraceUnifiedStackCachingInfo <==> class.number() == 26,
        class is TracePmcSessionInformation <==> class.number() == 27,
        class is MaxTraceSetInfoClass <==> class.number() == 28,
{
}

/// Self-describing events are those of the fourth decoding source.
pub proof fn sources_have_their_numbers(v: u32)
    ensures
        DecodingSource::of(v) is DecodingSourceXMLFile <==> v == 0,
        DecodingSource::of(v) is DecodingSourceWbem <==> v == 1,
        DecodingSource::of(v) is DecodingSourceWPP <==> v == 2,
        DecodingSource::of(v) is DecodingSourceTlg <==> v == 3,
        DecodingSource::of(v) is DecodingSourceMax <==> v > 3,
{
}

/// The native values of the logging modes.
pub proof fn modes_have_their_native_values()
    ensures
        LoggingMode::EVENT_TRACE_NONSTOPPABLE_MODE == 0x40,
        LoggingMode::EVENT_TRACE_SECURE_MODE == 0x80,
        LoggingMode::EVENT_TRACE_REAL_TIME_MODE == 0x100,
        LoggingMode::EVENT_TRACE_BUFFERING_MODE == 0x400,
        LoggingMode::EVENT_TRACE_PRIVATE_LOGGER_MODE == 0x800,
        LoggingMode::EVENT_TRACE_PRIVATE_IN_PROC == 0x2_0000,
        LoggingMode::EVENT_TRACE_STOP_ON_HYBRID_SHUTDOWN == 0x40_0000,
        LoggingMode::EVENT_TRACE_PERSIST_ON_HYBRID_SHUTDOWN == 0x80_0000,
        LoggingMode::EVENT_TRACE_USE_PAGED_MEMORY == 0x100_0000,
        LoggingMode::EVENT_TRACE_SYSTEM_LOGGER_MODE == 0x200_0000,
        LoggingMode::EVENT_TRACE_INDEPENDENT_SESSION_MODE == 0x800_0000,
        LoggingMode::EVENT_TRACE_NO_PER_PROCESSOR_BUFFERING == 0x1000_0000,
        LoggingMode::EVENT_TRACE_ADDTO_TRIAGE_DUMP == 0x8000_0000,
        DumpFileLoggingMode::EVENT_TRACE_FILE_MODE_NONE == 0,
        DumpFileLoggingMode::EVENT_TRACE_FILE_MODE_SEQUENTIAL == 0x1,
        DumpFileLoggingMode::EVENT_TRACE_FILE_MODE_CIRCULAR == 0x2,
        DumpFileLoggingMode::EVENT_TRACE_FILE_MODE_APPEND == 0x4,
        DumpFileLoggingMode::EVENT_TRACE_FILE_MODE_NEWFILE == 0x8,
        DumpFileLoggingMode::EVENT_TRACE_FILE_MODE_PREALLOCATE == 0x20,
        DumpFileLoggingMode::EVENT_TRACE_USE_KBYTES_FOR_SIZE == 0x2000,
        DumpFileLoggingMode::EVENT_TRACE_USE_GLOBAL_SEQUENCE == 0x4000,
        DumpFileLoggingMode::EVENT_TRACE_USE_LOCAL_SEQUENCE == 0x8000,
        PROCESS_TRACE_MODE_EVENT_RECORD == 0x1000_0000,
        PROCESS_TRACE_MODE_REAL_TIME == 0x100,
{
}

} // verus!
