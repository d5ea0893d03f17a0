//! Traces, what is registered with them, and how they are started and stopped.
use ferrisetw::guid::GUID;
use ferrisetw::native::etw_types::EventTraceProperties;
use ferrisetw::native::evntrace::{
    closed_trace, enable_stack_tracing, processed_trace, set_extended_kernel_groups, start_trace,
    EvntraceNativeError, IoError, UniqueValidContexts, ERROR_ALREADY_EXISTS, ERROR_CANCELLED,
    ERROR_CTX_CLOSE_PENDING, ERROR_WMI_INSTANCE_NOT_FOUND,
};
use ferrisetw::provider::event_filter::EventFilter;
use ferrisetw::provider::{KernelProvider, Provider};
use ferrisetw::trace::callback_data::{
    buffer_callback_thunk, trace_callback_thunk, CallbackData, CallbackDataFromFile,
    RealTimeCallbackData,
};
use ferrisetw::trace::start::{
    stop_trace_by_name, stopped_by_name, FileTraceBuilder, NativeReply, StartAction, StartState,
    StartingTrace,
};
use ferrisetw::trace::{
    stop_outcome, DumpFileParams, ExtendedKernelGroup, FileTrace, KernelTrace, Platform, RealTimeTraceTrait,
    Session, StackTracingEvent, TraceError, TraceKind, TraceProperties, TraceTrait, UserTrace,
    KERNEL_LOGGER_NAME, SYSTEM_TRACE_CONTROL_GUID,
};

const PLATFORM: Platform =
    Platform { is_win8_or_greater: true, new_guid: Some(GUID { data1: 1, data2: 2, data3: 3, data4: 4 }) };

const OLD_PLATFORM: Platform = Platform { is_win8_or_greater: false, new_guid: None };

fn units(text: &str) -> Vec<u16> {
    text.encode_utf16().collect()
}

fn session_properties(name: &str) -> EventTraceProperties {
    EventTraceProperties::new(
        TraceKind::User.identity(PLATFORM),
        &units(name),
        None,
        &TraceProperties::default(),
        0,
    )
}

/// A user trace with these handles, and its registrations.
fn user_trace(
    control_handle: u64,
    providers: Vec<Provider>,
) -> (UserTrace, RealTimeCallbackData) {
    let mut data = RealTimeCallbackData::new();
    for provider in providers {
        data.add_provider(provider);
    }
    let session = Session {
        properties: session_properties("ferrisetw-test-trace"),
        control_handle,
        trace_handle: 0,
        context: 1,
    };
    (UserTrace::build(session), data)
}

fn trace_without_session(providers: Vec<Provider>) -> (UserTrace, RealTimeCallbackData) {
    user_trace(0, providers)
}

#[test]
fn test_enable_multiple_providers() {
    let prov = Provider::by_guid(0x22fb2cd6_0e7b_422b_a0c7_2fad1fd0e716u128).build();
    let prov1 = Provider::by_guid(0xa0c1853b_5c40_4b15_8766_3cf1c58f985au128).build();

    let trace_builder = UserTrace::new(None).enable(prov).enable(prov1);

    assert_eq!(trace_builder.rt_callback_data.providers().len(), 2);
}

#[test]
fn runtime_enable_without_control_handle_fails_and_rolls_back() {
    let (trace, mut data) =
        trace_without_session(vec![Provider::by_guid(0x1111u128).build()]);

    let result = trace.enable_provider(&mut data, Provider::by_guid(0x2222u128).build());
    assert!(matches!(
        result,
        Err(TraceError::EtwNativeError(EvntraceNativeError::InvalidHandle))
    ));
    // The pre-existing registration is intact, the failed one was rolled back
    assert_eq!(trace.providers(&data).len(), 1);
    assert_eq!(trace.providers(&data)[0].guid(), GUID::from_u128(0x1111));
}

#[test]
fn runtime_disable_without_control_handle_fails_and_keeps_the_registry() {
    let guid = GUID::from_u128(0x1111);
    let (trace, data) = trace_without_session(vec![Provider::by_guid(guid).build()]);

    let result = trace.disable_provider(&data, guid);
    assert!(matches!(
        result,
        Err(TraceError::EtwNativeError(EvntraceNativeError::InvalidHandle))
    ));
    assert_eq!(trace.providers(&data).len(), 1);

    // A GUID nothing is registered under is a no-op, session untouched
    assert!(trace.disable_provider(&data, GUID::from_u128(0x3333)).unwrap().is_none());
}

#[test]
fn providers_come_and_go_at_runtime() {
    let (trace, mut data) = user_trace(5, vec![]);
    let asking = Provider::by_guid(0x2222u128).request_capture_state().add_callback(3).build();
    let pending = trace.enable_provider(&mut data, asking).unwrap();
    assert_eq!(pending.request.guid, GUID::from_u128(0x2222));
    assert_eq!(pending.request.control_handle, 5);
    // Registered while the call is under way
    assert_eq!(data.on_event(GUID::from_u128(0x2222)), vec![3]);

    let rundown = trace.enabled_provider(&mut data, pending.position, 0).unwrap().unwrap();
    assert_eq!(rundown.control_code, 2);

    // A second one that cannot be enabled is taken back
    let pending =
        trace.enable_provider(&mut data, Provider::by_guid(0x3333u128).build()).unwrap();
    assert!(matches!(
        trace.enabled_provider(&mut data, pending.position, 5),
        Err(TraceError::EtwNativeError(EvntraceNativeError::IoError(IoError::Os(-2_147_024_891))))
    ));
    assert_eq!(data.provider_count(), 1);

    let guid = GUID::from_u128(0x2222);
    assert!(trace.disable_provider(&data, guid).unwrap().is_some());
    // A failed call leaves the registrations, a successful one removes them
    assert!(trace.disabled_provider(&mut data, guid, 5).is_err());
    assert!(data.has_provider_with_guid(guid));
    assert_eq!(trace.disabled_provider(&mut data, guid, 0).unwrap(), 1);
    assert!(!data.has_provider_with_guid(guid));
    assert_eq!(data.on_event(guid), Vec::<u64>::new());
    assert_eq!(data.events_handled(), 2);
}

#[test]
fn all_providers_that_ask_for_it_are_rundown() {
    let (trace, data) = user_trace(
        5,
        vec![
            Provider::by_guid(1u128).request_capture_state().build(),
            Provider::by_guid(2u128).build(),
            Provider::by_guid(3u128).request_capture_state().build(),
        ],
    );
    let requests = trace.request_capture_state(&data).unwrap();
    assert_eq!(
        requests.iter().map(|r| r.guid).collect::<Vec<_>>(),
        vec![GUID::from_u128(1), GUID::from_u128(3)]
    );
}

#[test]
fn syscall_stack_tracing_events_match_the_perfinfo_provider() {
    let perf_info = GUID::from_u128(0xce1dbfb4_137e_4da6_87b0_3f59aa102cbc);
    assert_eq!(StackTracingEvent::syscall_enter().event_guid, perf_info);
    assert_eq!(StackTracingEvent::syscall_exit().event_guid, perf_info);
    assert_eq!(StackTracingEvent::syscall_enter().event_type, 46);
    assert_eq!(StackTracingEvent::syscall_exit().event_type, 47);
}

#[test]
fn kernel_trace_builder_stores_kernel_only_settings() {
    let builder = KernelTrace::new(None, PLATFORM)
        .set_stack_tracing(vec![StackTracingEvent::syscall_enter()])
        .set_extended_groups(vec![ExtendedKernelGroup::Pool]);

    assert_eq!(builder.stack_tracing_events, [StackTracingEvent::syscall_enter()]);
    assert_eq!(builder.extended_kernel_groups, [ExtendedKernelGroup::Pool]);
}

#[test]
fn stack_tracing_names_every_event() {
    let events = [StackTracingEvent::syscall_enter(), StackTracingEvent::syscall_exit()];
    let request = enable_stack_tracing(1, &events).unwrap().unwrap();
    assert_eq!(request.data.len(), 48);
    assert_eq!(request.data[..4], [0xb4, 0xbf, 0x1d, 0xce]);
    assert_eq!((request.data[16], request.data[40]), (46, 47));
    assert!(enable_stack_tracing(1, &[]).unwrap().is_none());
    assert!(matches!(
        enable_stack_tracing(0, &events),
        Err(EvntraceNativeError::InvalidHandle)
    ));
}

#[test]
fn extended_groups_are_added_to_the_current_ones() {
    let mut current = [0u8; 32];
    current[0] = 1;
    let request =
        set_extended_kernel_groups(1, &[ExtendedKernelGroup::Memory], 0, &current)
            .unwrap()
            .unwrap();
    assert_eq!(request.data[0], 1);
    assert_eq!(request.data[4], 1);
    let groups = [ExtendedKernelGroup::Memory];
    assert!(set_extended_kernel_groups(1, &groups, 5, &current).is_err());
    assert!(matches!(
        set_extended_kernel_groups(0, &groups, 0, &current),
        Err(EvntraceNativeError::InvalidHandle)
    ));
    // Without groups nothing is done, whatever the query said
    assert!(matches!(set_extended_kernel_groups(1, &[], 5, &current), Ok(None)));
    assert!(matches!(set_extended_kernel_groups(0, &[], 0, &[]), Ok(None)));
}

#[test]
fn kernel_sessions_before_windows_8_are_the_kernel_logger() {
    assert_eq!(
        TraceKind::Kernel.trace_guid(OLD_PLATFORM),
        GUID::from_u128(SYSTEM_TRACE_CONTROL_GUID)
    );
    assert_eq!(TraceKind::Kernel.trace_guid(PLATFORM), PLATFORM.new_guid.unwrap());
    assert_eq!(TraceKind::User.augmented_file_mode(PLATFORM), 0);
    assert_eq!(TraceKind::Kernel.augmented_file_mode(PLATFORM), 0x0200_0000);
    assert_eq!(TraceKind::Kernel.augmented_file_mode(OLD_PLATFORM), 0);
    let builder = KernelTrace::new(None, OLD_PLATFORM).named("mine".into(), OLD_PLATFORM);
    assert_eq!(builder.name, KERNEL_LOGGER_NAME);
    let builder = KernelTrace::new(None, PLATFORM).named("mine".into(), PLATFORM);
    assert_eq!(builder.name, "mine");
}

#[test]
fn buffer_stats_track_the_running_totals_of_a_real_time_trace() {
    let mut callback_data = CallbackData::RealTime(RealTimeCallbackData::new());
    callback_data.on_buffer(1, 0);
    callback_data.on_buffer(2, 0);
    callback_data.on_buffer(5, 3);
    assert_eq!(callback_data.buffers_read(), 5);
    assert_eq!(callback_data.events_lost(), 3);
}

#[test]
fn buffer_stats_track_the_running_totals_of_a_file_trace() {
    let mut callback_data = CallbackData::FromFile(CallbackDataFromFile::new(0));
    callback_data.on_buffer(7, 2);
    assert_eq!(callback_data.buffers_read(), 7);
    assert_eq!(callback_data.events_lost(), 2);
}

#[test]
fn buffer_stats_ignore_out_of_order_reports() {
    let mut callback_data = CallbackData::RealTime(RealTimeCallbackData::new());
    callback_data.on_buffer(5, 3);
    callback_data.on_buffer(4, 1);
    assert_eq!(callback_data.buffers_read(), 5);
    assert_eq!(callback_data.events_lost(), 3);
}

#[test]
fn events_go_to_the_callbacks_of_their_provider() {
    let mut data = RealTimeCallbackData::new();
    data.add_provider(Provider::by_guid(1u128).add_callback(10).build());
    data.add_provider(Provider::by_guid(2u128).add_callback(20).build());
    data.add_provider(Provider::by_guid(1u128).add_callback(11).add_callback(12).build());
    assert_eq!(data.on_event(GUID::from_u128(1)), vec![10, 11, 12]);
    assert_eq!(data.on_event(GUID::from_u128(3)), Vec::<u64>::new());
    assert_eq!(data.events_handled(), 2);

    // Removing the first registration leaves the others
    data.remove_provider_instance(0);
    assert_eq!(data.on_event(GUID::from_u128(1)), vec![11, 12]);
    assert_eq!(data.remove_all_by_guid(GUID::from_u128(1)), 1);
    assert_eq!(data.on_event(GUID::from_u128(1)), Vec::<u64>::new());
    assert_eq!(data.on_event(GUID::from_u128(2)), vec![20]);
}

#[test]
fn only_kernel_sessions_have_enable_flags() {
    let mut data = RealTimeCallbackData::new();
    data.add_provider(Provider::kernel(&KernelProvider::new(GUID::from_u128(1), 0x41)).build());
    data.add_provider(Provider::kernel(&KernelProvider::new(GUID::from_u128(2), 0x2)).build());
    assert_eq!(data.provider_flags(TraceKind::Kernel), 0x43);
    assert_eq!(data.provider_flags(TraceKind::User), 0);
}

#[test]
fn events_of_closed_traces_are_discarded() {
    let mut contexts = UniqueValidContexts::new();
    assert!(contexts.insert(1));
    assert!(!contexts.insert(1));
    let mut data = CallbackData::FromFile(CallbackDataFromFile::new(30));
    let guid = GUID::from_u128(1);
    assert_eq!(trace_callback_thunk(&contexts, 1, &mut data, guid), vec![30]);
    assert_eq!(buffer_callback_thunk(&contexts, 1, &mut data, 4, 0), 1);
    contexts.remove(1);
    assert_eq!(trace_callback_thunk(&contexts, 1, &mut data, guid), Vec::<u64>::new());
    assert_eq!(buffer_callback_thunk(&contexts, 1, &mut data, 9, 0), 1);
    assert_eq!((data.events_handled(), data.buffers_read()), (1, 4));
}

/// A reply with this status and handle.
fn replied(status: u32, handle: u64) -> NativeReply {
    NativeReply { status, handle, last_error: 6, data: vec![0; 32] }
}

/// The name of an action.
fn name_of(action: &StartAction) -> &'static str {
    match action {
        StartAction::StopByName { .. } => "stop by name",
        StartAction::StartTrace(_) => "start",
        StartAction::SetInfo(_) => "set",
        StartAction::QueryGroupMask(_) => "query",
        StartAction::ControlProvider(request) if request.control_code == 1 => "enable",
        StartAction::ControlProvider(_) => "capture",
        StartAction::Open(_) => "open",
        StartAction::Close(_) => "close",
        StartAction::Stop(_) => "stop",
        StartAction::Finished => "finished",
    }
}

/// Makes the calls a start consists of; the call named `failing` fails.
fn run(starting: &mut StartingTrace, contexts: &mut UniqueValidContexts, failing: &str) -> Vec<&'static str> {
    let mut calls = Vec::new();
    loop {
        let action = starting.next(contexts);
        let name = name_of(&action);
        if name == "finished" {
            return calls;
        }
        calls.push(name);
        let failed = name == failing;
        let handle = match name {
            "start" => 5,
            "open" if failed => u64::MAX,
            "open" => 7,
            _ => 0,
        };
        starting.reply(replied(if failed { 5 } else { 0 }, handle));
    }
}

#[test]
fn user_traces_enable_then_open_then_capture() {
    let builder = UserTrace::new(None)
        .named("mine".into(), PLATFORM)
        .enable(Provider::by_guid(1u128).request_capture_state().build())
        .enable(Provider::by_guid(2u128).build());
    let mut contexts = UniqueValidContexts::new();
    let mut starting = builder.start(PLATFORM, 9);
    let calls = run(&mut starting, &mut contexts, "");
    assert_eq!(calls, vec!["stop by name", "start", "enable", "enable", "open", "capture"]);
    assert!(contexts.is_valid(9));
    let (trace, data) = starting.finish::<UserTrace>(session_properties("mine")).unwrap();
    assert_eq!(trace.trace_handle(), 7);
    assert_eq!(trace.context(), 9);
    assert_eq!(trace.trace_name(), units("mine"));
    assert_eq!(data.provider_count(), 2);

    // Stopping closes the trace, then stops the session
    let calls = trace.non_consuming_stop(&mut contexts);
    assert_eq!((calls.close.unwrap(), calls.stop.unwrap()), (7, 5));
    assert!(!contexts.is_valid(9));
}

#[test]
fn kernel_traces_are_configured_before_they_are_opened() {
    let builder = KernelTrace::new(None, PLATFORM)
        .enable(Provider::kernel(&KernelProvider::new(GUID::from_u128(1), 0x41)).build())
        .set_stack_tracing(vec![StackTracingEvent::syscall_enter()])
        .set_extended_groups(vec![ExtendedKernelGroup::Pool])
        .stop_if_exist(false);
    let mut contexts = UniqueValidContexts::new();
    let mut starting = builder.start(PLATFORM, 9);
    let StartAction::StartTrace(properties) = starting.next(&mut contexts) else {
        panic!("expected the session to be started");
    };
    assert_eq!(properties.enable_flags, 0x41);
    assert_eq!(
        run(&mut starting, &mut contexts, ""),
        vec!["start", "set", "query", "set", "open"]
    );
}

#[test]
fn failed_starts_leave_no_session_behind() {
    let cases = [
        ("start", vec!["start"]),
        ("enable", vec!["start", "enable", "stop"]),
        ("open", vec!["start", "enable", "open", "stop"]),
        ("capture", vec!["start", "enable", "open", "capture", "close", "stop"]),
    ];
    for (failing, expected) in cases {
        let builder = UserTrace::new(None)
            .enable(Provider::by_guid(1u128).request_capture_state().build())
            .stop_if_exist(false);
        let mut contexts = UniqueValidContexts::new();
        let mut starting = builder.start(PLATFORM, 9);
        assert_eq!(run(&mut starting, &mut contexts, failing), expected);
        assert!(matches!(starting.state, StartState::Failed(_)));
        let code = if failing == "open" { 6 } else { -2_147_024_891 };
        assert!(matches!(
            starting.finish::<UserTrace>(session_properties("mine")),
            Err(TraceError::EtwNativeError(EvntraceNativeError::IoError(IoError::Os(c)))) if c == code
        ));
    }
}

#[test]
fn starts_fail_without_a_call_where_no_call_can_be_made() {
    // The name cannot be handed to the tracing API
    let builder = UserTrace::new(None).named("a\0b".into(), PLATFORM);
    let mut contexts = UniqueValidContexts::new();
    let mut starting = builder.start(PLATFORM, 9);
    assert_eq!(run(&mut starting, &mut contexts, ""), Vec::<&str>::new());
    assert!(matches!(
        starting.finish::<UserTrace>(session_properties("mine")),
        Err(TraceError::InvalidTraceName)
    ));

    // A filter cannot be built
    let builder = UserTrace::new(None)
        .enable(Provider::by_guid(1u128).add_filter(EventFilter::ByPids(vec![])).build())
        .stop_if_exist(false);
    let mut starting = builder.start(PLATFORM, 9);
    assert_eq!(run(&mut starting, &mut contexts, ""), vec!["start", "stop"]);

    // The context is in use
    contexts.insert(9);
    let mut starting = UserTrace::new(None).stop_if_exist(false).start(PLATFORM, 9);
    assert_eq!(run(&mut starting, &mut contexts, ""), vec!["start", "stop"]);
    assert!(contexts.is_valid(9));
}

#[test]
fn existing_sessions_are_received_but_not_owned() {
    let builder = UserTrace::new(None).named("theirs".into(), PLATFORM);
    let mut contexts = UniqueValidContexts::new();
    let log_file = builder.open_existing(&mut contexts, 9).unwrap();
    assert_eq!(log_file.logger_name, Some(units("theirs")));
    let (trace, _) = builder.opened_existing(PLATFORM, 9, 7, 0).unwrap();
    assert_eq!(trace.process().unwrap(), 7);
    assert!(matches!(
        trace.statistics(),
        Err(TraceError::EtwNativeError(EvntraceNativeError::InvalidHandle))
    ));
    assert_eq!(trace.close(&mut contexts).unwrap(), 7);

    let builder = UserTrace::new(None).named("theirs".into(), PLATFORM);
    assert!(matches!(
        builder.opened_existing(PLATFORM, 9, u64::MAX, 6),
        Err(TraceError::EtwNativeError(EvntraceNativeError::IoError(IoError::Os(6))))
    ));
}

#[test]
fn files_are_opened_by_their_path() {
    let mut contexts = UniqueValidContexts::new();
    let log_file = FileTrace::new(units("a.etl"), 3).start(&mut contexts, 9).unwrap();
    assert_eq!(log_file.log_file_name, Some(units("a.etl")));
    assert!(matches!(
        FileTrace::new(units("b.etl"), 3).start(&mut contexts, 9),
        Err(TraceError::EtwNativeError(EvntraceNativeError::AlreadyExist))
    ));
    let trace = FileTraceBuilder::opened(9, 7, 0).unwrap();
    assert_eq!(trace.process().unwrap(), 7);
    assert!(FileTraceBuilder::opened(9, u64::from(u32::MAX), 2).is_err());
    assert!(FileTraceBuilder::opened(9, u64::MAX, 2).is_err());
}

#[test]
fn native_replies_are_told_apart() {
    assert!(matches!(
        start_trace(ERROR_ALREADY_EXISTS, 0),
        Err(EvntraceNativeError::AlreadyExist)
    ));
    assert!(matches!(start_trace(0, 0), Err(EvntraceNativeError::InvalidHandle)));
    assert!(matches!(
        start_trace(87, 1),
        Err(EvntraceNativeError::IoError(IoError::Os(-2_147_024_809)))
    ));
    assert_eq!(start_trace(0, 4).unwrap(), 4);
    assert!(processed_trace(ERROR_CANCELLED).is_ok());
    assert!(processed_trace(5).is_err());
    assert!(!closed_trace(0).unwrap());
    assert!(closed_trace(ERROR_CTX_CLOSE_PENDING).unwrap());
    assert!(closed_trace(6).is_err());
    assert!(stopped_by_name(ERROR_WMI_INSTANCE_NOT_FOUND).is_ok());
    assert!(stopped_by_name(5).is_err());
    // The error of the first call is the one that is reported
    assert!(matches!(
        stop_outcome(Err(EvntraceNativeError::InvalidHandle), Err(EvntraceNativeError::AlreadyExist)),
        Err(TraceError::EtwNativeError(EvntraceNativeError::InvalidHandle))
    ));
    assert!(stop_outcome(Ok(true), Ok(())).is_ok());
}

#[test]
fn sessions_are_stopped_by_name() {
    let identity = TraceKind::User.identity(PLATFORM);
    let (name, properties) = stop_trace_by_name("mine", identity).unwrap();
    assert_eq!(name, units("mine"));
    assert_eq!(properties.name(), units("mine"));
    // One NUL at the end terminates the name, one inside makes it invalid
    assert_eq!(stop_trace_by_name("mine\0", identity).unwrap().0, units("mine"));
    assert!(matches!(stop_trace_by_name("a\0b", identity), Err(TraceError::InvalidTraceName)));
}

#[test]
fn names_with_a_nul_are_cut_to_start_a_session() {
    let builder =
        UserTrace::new(None).named("a\0b".into(), PLATFORM).stop_if_exist(false);
    let mut contexts = UniqueValidContexts::new();
    let mut starting = builder.start(PLATFORM, 9);
    let StartAction::StartTrace(properties) = starting.next(&mut contexts) else {
        panic!("expected the session to be started");
    };
    assert_eq!(properties.name(), units("a"));
}

#[test]
fn paths_with_a_nul_are_cut() {
    let mut contexts = UniqueValidContexts::new();
    let log_file = FileTrace::new(units("a.etl\0b"), 3).start(&mut contexts, 9).unwrap();
    assert_eq!(log_file.log_file_name, Some(units("a.etl")));
    assert_eq!(log_file.logger_name, None);

    let mut params = DumpFileParams::default();
    params.file_path = units("dump.etl\0rest");
    params.max_size = Some(20);
    let builder = UserTrace::new(None).set_etl_dump_file(params).stop_if_exist(false);
    let mut starting = builder.start(PLATFORM, 10);
    let StartAction::StartTrace(properties) = starting.next(&mut contexts) else {
        panic!("expected the session to be started");
    };
    assert_eq!(properties.wide_etl_dump_file_path[..8], units("dump.etl")[..]);
    assert!(properties.wide_etl_dump_file_path[8..].iter().all(|unit| *unit == 0));
    assert_eq!(properties.maximum_file_size, 20);
}
