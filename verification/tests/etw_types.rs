//! Descriptions of sessions, and the group mask.
use ferrisetw::guid::GUID;
use ferrisetw::native::etw_types::event_record::{
    EventHeader, EventRecord, EVENT_HEADER_FLAG_32_BIT_HEADER,
};
use ferrisetw::native::etw_types::group_mask::PerfinfoGroupmask;
use ferrisetw::native::etw_types::{
    rounded_flush_seconds, ClockType, DumpFile, DumpFileLoggingMode, EventTraceLogfile,
    EventTraceProperties, LoggingMode, SessionIdentity, SubscriptionSource, TraceInformation,
    TRACE_NAME_MAX_CHARS,
};
use ferrisetw::trace::{ExtendedKernelGroup, TraceProperties, TraceStatistics};

fn identity() -> SessionIdentity {
    SessionIdentity { guid: GUID::from_u128(7), augmented_file_mode: 0 }
}

fn units(text: &str) -> Vec<u16> {
    text.encode_utf16().collect()
}

fn session_properties(properties: &TraceProperties) -> EventTraceProperties {
    EventTraceProperties::new(identity(), &units("test-trace"), None, properties, 0)
}

fn computed_flush_timer(flush_timer_millis: u128) -> u32 {
    let properties = TraceProperties { flush_timer_millis, ..TraceProperties::default() };
    session_properties(&properties).flush_timer
}

fn computed_client_context(clock_type: ClockType) -> u32 {
    let properties = TraceProperties { clock_type, ..TraceProperties::default() };
    session_properties(&properties).wnode_client_context
}

#[test]
fn clock_type_maps_to_its_native_value() {
    // 1 = QPC, 2 = system time
    assert_eq!(computed_client_context(ClockType::Qpc), 1);
    assert_eq!(computed_client_context(ClockType::SystemTime), 2);
    assert_eq!(computed_client_context(TraceProperties::default().clock_type), 1);
}

#[test]
fn flush_timer_is_rounded_to_the_closest_second() {
    // 0 stands for 1 second
    assert_eq!(computed_flush_timer(0), 1);
    assert_eq!(computed_flush_timer(400), 1);
    assert_eq!(computed_flush_timer(1000), 1);
    assert_eq!(computed_flush_timer(1200), 1);
    assert_eq!(computed_flush_timer(1500), 2);
    assert_eq!(computed_flush_timer(2000), 2);
    assert_eq!(computed_flush_timer(2500), 3);
}

#[test]
fn absurd_flush_timers_are_clamped() {
    assert_eq!(rounded_flush_seconds(u128::MAX), u32::MAX);
    // Whole seconds are kept
    assert_eq!(rounded_flush_seconds(86_400_000), 86_400);
}

#[test]
fn session_names_are_cut_at_the_limit() {
    let long = vec![u16::from(b'x'); 300];
    let properties =
        EventTraceProperties::new(identity(), &long, None, &TraceProperties::default(), 0);
    assert_eq!(properties.name().len(), TRACE_NAME_MAX_CHARS);
    let short = session_properties(&TraceProperties::default());
    assert_eq!(short.name(), units("test-trace"));
    assert_eq!(short.trace_name_array().len(), TRACE_NAME_MAX_CHARS + 1);
    let mut spoilt = short;
    spoilt.wide_trace_name = long;
    assert_eq!(spoilt.name(), units("<invalid name>"));
}

#[test]
fn dump_files_add_their_mode_and_path() {
    let file = DumpFile {
        path: units("C:\\trace.etl"),
        mode: DumpFileLoggingMode::from_bits_retain(
            DumpFileLoggingMode::EVENT_TRACE_FILE_MODE_CIRCULAR,
        ),
        max_size: Some(64),
    };
    let properties = EventTraceProperties::new(
        identity(),
        &units("test-trace"),
        Some(&file),
        &TraceProperties::default(),
        0x11,
    );
    assert_eq!(
        properties.log_file_mode,
        LoggingMode::EVENT_TRACE_REAL_TIME_MODE
            | LoggingMode::EVENT_TRACE_NO_PER_PROCESSOR_BUFFERING
            | DumpFileLoggingMode::EVENT_TRACE_FILE_MODE_CIRCULAR
    );
    assert_eq!(properties.maximum_file_size, 64);
    assert_eq!(properties.enable_flags, 0x11);
    assert_eq!(properties.wnode_guid, GUID::from_u128(7));
    let path = units("C:\\trace.etl");
    assert_eq!(properties.wide_etl_dump_file_path[..path.len()], path[..]);
    assert_eq!(properties.wide_etl_dump_file_path[path.len()], 0);
}

#[test]
fn trace_statistics_are_mapped_from_the_native_properties() {
    let mut native = session_properties(&TraceProperties::default());
    native.events_lost = 11;
    native.log_buffers_lost = 22;
    native.real_time_buffers_lost = 33;
    native.buffers_written = 44;
    native.number_of_buffers = 55;
    native.free_buffers = 66;
    native.logger_thread_id = 0x1a2b;

    assert_eq!(
        TraceStatistics::from_properties(&native),
        TraceStatistics {
            events_lost: 11,
            log_buffers_lost: 22,
            real_time_buffers_lost: 33,
            buffers_written: 44,
            number_of_buffers: 55,
            free_buffers: 66,
            logger_thread_id: 0x1a2b,
        }
    );

    let zeroed = session_properties(&TraceProperties::default());
    assert_eq!(TraceStatistics::from_properties(&zeroed).logger_thread_id, 0);
}

#[test]
fn log_files_name_a_session_or_a_file() {
    let real_time =
        EventTraceLogfile::create(5, SubscriptionSource::RealTimeSession(units("session")));
    assert_eq!(real_time.context_ptr(), 5);
    assert_eq!(real_time.logger_name, Some(units("session")));
    assert_eq!(real_time.log_file_name, None);
    assert_eq!(real_time.process_trace_mode, 0x1000_0100);

    let from_file = EventTraceLogfile::create(6, SubscriptionSource::FromFile(units("a.etl")));
    assert_eq!(from_file.logger_name, None);
    assert_eq!(from_file.log_file_name, Some(units("a.etl")));
    assert_eq!(from_file.process_trace_mode, 0x1000_0000);
}

#[test]
fn info_classes_match_windows_rs() {
    let cases = [
        (TraceInformation::TraceStackTracingInfo, 3),
        (TraceInformation::TraceSystemTraceEnableFlagsInfo, 4),
        (TraceInformation::TraceSampledProfileIntervalInfo, 5),
        (TraceInformation::TraceProfileSourceListInfo, 7),
        (TraceInformation::TraceVersionInfo, 11),
        (TraceInformation::TracePeriodicCaptureStateInfo, 17),
        (TraceInformation::TraceMaxLoggersQuery, 19),
        (TraceInformation::TraceMaxPmcCounterQuery, 22),
    ];
    for (class, expected) in cases {
        assert_eq!(class.as_i32(), expected);
    }
}

#[test]
fn extended_kernel_groups_encode_into_the_groupmask() {
    let mut groupmask = PerfinfoGroupmask::default();
    groupmask.set_groups(&[
        ExtendedKernelGroup::Memory,
        ExtendedKernelGroup::PoolTrace,
        ExtendedKernelGroup::Heap,
        ExtendedKernelGroup::ObHandle,
        ExtendedKernelGroup::SysCfgAll,
        ExtendedKernelGroup::MemoryControl,
    ]);
    assert_eq!(groupmask.masks(), &[0, 0x41, 0x20, 0, 0x40, 0, 0x1fff_ffff, 2]);
}

#[test]
fn overlapping_and_empty_extended_groups_merge_correctly() {
    let mut groupmask = PerfinfoGroupmask::default();
    groupmask.set_groups(&[ExtendedKernelGroup::PoolTrace, ExtendedKernelGroup::Pool]);
    assert_eq!(groupmask.masks()[1], 0x41);

    groupmask.set_groups(&[]);
    assert_eq!(groupmask.masks()[1], 0x41);
}

#[test]
fn group_masks_round_trip_and_forget_the_order() {
    let mut one = PerfinfoGroupmask::default();
    one.set_groups(&[ExtendedKernelGroup::Heap, ExtendedKernelGroup::Memory]);
    let mut other = PerfinfoGroupmask::default();
    other.set_groups(&[ExtendedKernelGroup::Memory, ExtendedKernelGroup::Heap]);
    assert_eq!(one.masks(), other.masks());
    assert_eq!(PerfinfoGroupmask::from_bytes(&one.as_bytes()).masks(), one.masks());
    assert_eq!(one.as_bytes()[4..8], [1, 0, 0, 0]);
}

#[test]
fn header_flags_tell_the_pointer_size() {
    let mut record = EventRecord {
        header: EventHeader::default(),
        extended_data: vec![],
        user_data: vec![1, 2],
        user_data_address: 0,
    };
    assert_eq!(record.pointer_size(), 8);
    record.header.flags = EVENT_HEADER_FLAG_32_BIT_HEADER | 1;
    assert_eq!(record.pointer_size(), 4);
    record.header.processor_time = 0x0000_0002_0000_0001;
    assert_eq!(record.kernel_time(), 1);
    assert_eq!(record.user_time(), 2);
    assert_eq!(record.user_buffer(), &[1, 2]);
    assert_eq!(record.event_name(), "");
    record.header.time_stamp = 116_444_736_000_000_000 + 10_000_000;
    assert_eq!(record.timestamp().unix_timestamp(), 1);
}
