//! Providers and their filters.
use ferrisetw::guid::GUID;
use ferrisetw::native::evntrace::{
    build_event_filter_descriptors, enable_provider, EvntraceNativeError,
};
use ferrisetw::provider::event_filter::{
    EventFilter, EventFilterDescriptor, EventNamesFilter, FilterError, EVENT_FILTER_TYPE_EVENT_ID,
    EVENT_FILTER_TYPE_EVENT_NAME, EVENT_FILTER_TYPE_EXECUTABLE_NAME, EVENT_FILTER_TYPE_PID,
    EVENT_FILTER_TYPE_STACKWALK, MAX_EVENT_FILTER_EVENT_ID_COUNT, MAX_EVENT_FILTER_PID_COUNT,
};
use ferrisetw::provider::{
    KernelProvider, Provider, TraceFlags, EVENT_ENABLE_PROPERTY_SID,
    EVENT_ENABLE_PROPERTY_STACK_TRACE,
};

#[test]
fn by_guid_accepts_guid_u128_and_str() {
    let guid = GUID::from_u128(0x22fb2cd6_0e7b_422b_a0c7_2fad1fd0e716);
    assert_eq!(Provider::by_guid(guid).build().guid(), guid);
    assert_eq!(
        Provider::by_guid(0x22fb2cd6_0e7b_422b_a0c7_2fad1fd0e716u128).build().guid(),
        guid
    );
    assert_eq!(Provider::by_guid("22fb2cd6-0e7b-422b-a0c7-2fad1fd0e716").build().guid(), guid);
}

#[test]
fn builders_keep_what_they_are_given() {
    let provider = Provider::by_guid(0x1111u128)
        .any(1)
        .all(2)
        .level(3)
        .trace_flags(
            TraceFlags::from_bits_retain(EVENT_ENABLE_PROPERTY_SID)
                .union(TraceFlags::from_bits_retain(EVENT_ENABLE_PROPERTY_STACK_TRACE)),
        )
        .request_capture_state()
        .add_filter(EventFilter::ByPids(vec![1]))
        .add_callback(10)
        .add_callback(11)
        .build();
    assert_eq!((provider.any(), provider.all(), provider.level()), (1, 2, 3));
    assert_eq!(provider.trace_flags().bits, 5);
    assert!(provider.requests_capture_state());
    assert_eq!(provider.filters().len(), 1);
    assert_eq!(provider.on_event(), &[10, 11]);
    assert_eq!(provider.kernel_flags(), 0);

    let bare = Provider::by_guid(0x1111u128).build();
    assert_eq!((bare.any(), bare.all(), bare.level()), (0, 0, 5));
    assert!(!bare.requests_capture_state());

    let kernel = KernelProvider::new(GUID::from_u128(9), 0x40);
    let provider = Provider::kernel(&kernel).build();
    assert_eq!((provider.guid(), provider.kernel_flags()), (GUID::from_u128(9), 0x40));
}

#[test]
fn names_that_are_not_found_are_handed_on() {
    let found: Result<GUID, &str> = Ok(GUID::from_u128(4));
    assert_eq!(Provider::by_name(found).unwrap().build().guid(), GUID::from_u128(4));
    let missing: Result<GUID, &str> = Err("no such provider");
    assert!(matches!(Provider::by_name(missing), Err("no such provider")));
}

/// Whether events are let in, how many identifiers there are, and which.
fn event_id_list_parts(filter: &EventFilterDescriptor) -> (bool, u16, Vec<u16>) {
    let word = |at: usize| u16::from_le_bytes([filter.data[at], filter.data[at + 1]]);
    let count = word(2);
    let events = (0..usize::from(count)).map(|i| word(4 + 2 * i)).collect();
    (filter.data[0] != 0, count, events)
}

#[test]
fn event_id_filters_carry_filter_in_and_type() {
    let included = EventFilter::ByEventIds(vec![18, 42]).to_event_filter_descriptor().unwrap();
    assert_eq!(included.filter_type(), EVENT_FILTER_TYPE_EVENT_ID);
    assert_eq!(event_id_list_parts(&included), (true, 2, vec![18, 42]));

    let excluded = EventFilter::ExcludeEventIds(vec![7]).to_event_filter_descriptor().unwrap();
    assert_eq!(excluded.filter_type(), EVENT_FILTER_TYPE_EVENT_ID);
    assert_eq!(event_id_list_parts(&excluded), (false, 1, vec![7]));
}

#[test]
fn stackwalk_filters_use_the_same_layout_but_their_own_type() {
    let included = EventFilter::StackWalkByEventIds(vec![3]).to_event_filter_descriptor().unwrap();
    assert_eq!(included.filter_type(), EVENT_FILTER_TYPE_STACKWALK);
    assert_eq!(event_id_list_parts(&included), (true, 1, vec![3]));

    let excluded =
        EventFilter::ExcludeStackWalkByEventIds(vec![4]).to_event_filter_descriptor().unwrap();
    assert_eq!(excluded.filter_type(), EVENT_FILTER_TYPE_STACKWALK);
    assert_eq!(event_id_list_parts(&excluded), (false, 1, vec![4]));
}

#[test]
fn empty_event_id_lists_are_rejected() {
    assert!(EventFilter::ByEventIds(vec![]).to_event_filter_descriptor().is_err());
    assert!(EventFilter::StackWalkByEventIds(vec![]).to_event_filter_descriptor().is_err());
}

#[test]
fn too_many_event_ids_are_rejected() {
    let most = vec![1u16; MAX_EVENT_FILTER_EVENT_ID_COUNT];
    assert!(EventFilter::ByEventIds(most).to_event_filter_descriptor().is_ok());
    let more = vec![1u16; MAX_EVENT_FILTER_EVENT_ID_COUNT + 1];
    assert!(EventFilter::ByEventIds(more).to_event_filter_descriptor().is_err());
}

#[test]
fn executable_names_are_semicolon_separated_utf16() {
    let filter = EventFilter::ByExecutableNames(vec!["cmd.exe".into(), "pwsh.exe".into()])
        .to_event_filter_descriptor()
        .expect("the names fit");

    assert_eq!(filter.ty, EVENT_FILTER_TYPE_EXECUTABLE_NAME);
    let expected: Vec<u8> =
        "cmd.exe;pwsh.exe\0".encode_utf16().flat_map(u16::to_le_bytes).collect();
    assert_eq!(filter.data, expected);
}

#[test]
fn executable_name_filters_reject_bad_input() {
    let build = |names: &[&str]| {
        EventFilter::ByExecutableNames(names.iter().map(|n| (*n).to_string()).collect())
            .to_event_filter_descriptor()
    };
    assert!(build(&[]).is_err());
    assert!(build(&[""]).is_err());
    assert!(build(&["a;b"]).is_err());
    assert!(build(&["a\0b"]).is_err());
    assert!(build(&[&"x".repeat(2000)]).is_err());
    assert!(build(&["a", ""]).is_err());
}

#[test]
fn event_name_filters_have_header_and_utf8_names() {
    let filter = EventFilter::ByEventNames(
        EventNamesFilter::new(vec!["MyEvent".into(), "Other".into()])
            .any(0xff00)
            .all(0x0011)
            .level(4),
    )
    .to_event_filter_descriptor()
    .expect("the names fit");

    assert_eq!(filter.ty, EVENT_FILTER_TYPE_EVENT_NAME);
    let expected_names = b"MyEvent\0Other\0";
    assert_eq!(filter.data.len(), 20 + expected_names.len());

    // Any keyword, all keywords, level, filter-in, number of names
    assert_eq!(filter.data[0..8], 0xff00u64.to_le_bytes());
    assert_eq!(filter.data[8..16], 0x0011u64.to_le_bytes());
    assert_eq!(filter.data[16], 4);
    assert_eq!(filter.data[17], 1);
    assert_eq!(filter.data[18..20], 2u16.to_le_bytes());
    assert_eq!(&filter.data[20..], expected_names);
}

#[test]
fn event_name_filters_can_exclude() {
    let filter = EventFilter::ByEventNames(EventNamesFilter::new(vec!["MyEvent".into()]).exclude())
        .to_event_filter_descriptor()
        .unwrap();
    assert_eq!(filter.data[17], 0);
}

#[test]
fn event_name_filters_reject_bad_input() {
    let build = |names: Vec<String>| {
        EventFilter::ByEventNames(EventNamesFilter::new(names)).to_event_filter_descriptor()
    };
    assert!(build(vec![]).is_err());
    assert!(build(vec!["a\0b".into()]).is_err());
    // Over the limit of event names, which is larger than the generic one
    assert!(build(vec!["x".repeat(5000)]).is_err());
    assert!(build(vec!["x".repeat(2000)]).is_ok());
}

#[test]
fn pid_filter_uses_dword_sized_pids() {
    let pids = [0x1234_5678u32, 0x09ab_cdef];
    let filter = EventFilterDescriptor::try_new_by_process_ids(&pids).expect("the list fits");

    assert_eq!(filter.ty, EVENT_FILTER_TYPE_PID);
    assert_eq!(filter.data.len(), 8);
    assert_eq!(filter.data[..4], 0x1234_5678u32.to_ne_bytes());
    assert_eq!(filter.data[4..], 0x09ab_cdefu32.to_ne_bytes());
}

#[test]
fn pid_filter_rejects_empty_and_too_many_pids() {
    assert!(EventFilterDescriptor::try_new_by_process_ids(&[]).is_err());

    let too_many = vec![1u32; MAX_EVENT_FILTER_PID_COUNT + 1];
    assert!(EventFilterDescriptor::try_new_by_process_ids(&too_many).is_err());
}

#[test]
fn event_ids_filter_has_correct_type_and_size() {
    let filter = EventFilterDescriptor::try_new_by_event_id_list(
        &[18, 42],
        true,
        EVENT_FILTER_TYPE_EVENT_ID,
    )
    .expect("the list fits");

    assert_eq!(filter.ty, EVENT_FILTER_TYPE_EVENT_ID);
    // The header holds one identifier, each other one adds a u16
    assert_eq!(filter.data.len(), 6 + 2);
}

#[test]
fn refusals_have_a_text() {
    let refusal = EventFilter::ByPids(vec![]).to_event_filter_descriptor().unwrap_err();
    assert!(!refusal.message().is_empty());
    let other =
        EventFilter::ByExecutableNames(vec!["a;b".into()]).to_event_filter_descriptor().unwrap_err();
    assert_ne!(refusal, other);
    let texts: [FilterError; 2] = [refusal, other];
    assert_ne!(texts[0].message(), texts[1].message());
}

#[test]
fn unbuidable_filters_are_reported() {
    let provider = Provider::by_guid(GUID::from_u128(0x1234))
        .add_filter(EventFilter::ByPids(vec![]))
        .build();
    assert!(matches!(
        build_event_filter_descriptors(&provider),
        Err(EvntraceNativeError::InvalidFilter(_))
    ));
    assert!(matches!(
        enable_provider(1, &provider),
        Err(EvntraceNativeError::InvalidFilter(_))
    ));
}

#[test]
fn valid_filters_are_all_built() {
    let provider = Provider::by_guid(GUID::from_u128(0x1234))
        .add_filter(EventFilter::ByPids(vec![1234]))
        .add_filter(EventFilter::ByEventIds(vec![18]))
        .build();
    assert_eq!(build_event_filter_descriptors(&provider).unwrap().len(), 2);
}

#[test]
fn filters_sharing_a_type_are_rejected() {
    let provider = Provider::by_guid(GUID::from_u128(0x1234))
        .add_filter(EventFilter::ByEventIds(vec![18]))
        .add_filter(EventFilter::ByEventIds(vec![42]))
        .build();
    let Err(EvntraceNativeError::InvalidFilter(message)) =
        build_event_filter_descriptors(&provider)
    else {
        panic!("expected a refusal");
    };
    assert_eq!(
        message,
        "several filters share the type 2147484160; at most one filter of each type is allowed"
    );
}

#[test]
fn enabling_hands_on_what_the_provider_asks_for() {
    let provider = Provider::by_guid(0x1111u128).any(1).all(2).level(3).build();
    let request = enable_provider(5, &provider).unwrap();
    assert_eq!((request.any, request.all, request.level), (1, 2, 3));
    assert_eq!((request.control_handle, request.control_code), (5, 1));
    assert_eq!(request.parameters.unwrap().version, 2);
    assert!(matches!(enable_provider(0, &provider), Err(EvntraceNativeError::InvalidHandle)));
}
