//! System-wide information.
use ferrisetw::native::etw_types::TraceInformation;
use ferrisetw::native::evntrace::{
    ArrayQueryStep, EvntraceNativeError, IoError, ERROR_INSUFFICIENT_BUFFER,
};
use ferrisetw::query::{parse_profile_sources, ProfileSource, SessionlessInfo};
use ferrisetw::trace::TraceError;

fn profile_source_entry(id: u32, next_entry_offset: u32, description: &str) -> Vec<u8> {
    let mut entry = Vec::new();
    entry.extend_from_slice(&next_entry_offset.to_ne_bytes());
    entry.extend_from_slice(&id.to_ne_bytes());
    entry.extend_from_slice(&1u32.to_ne_bytes()); // shortest interval
    entry.extend_from_slice(&10_000u32.to_ne_bytes()); // longest interval
    entry.extend_from_slice(&0u64.to_ne_bytes());
    let mut wide: Vec<u8> = description
        .encode_utf16()
        .chain(std::iter::once(0))
        .flat_map(u16::to_ne_bytes)
        .collect();
    entry.append(&mut wide);
    entry
}

#[test]
fn profile_sources_are_parsed() {
    let mut buf = profile_source_entry(2, 0, "");
    let second = profile_source_entry(5, 0, "Timer");
    // The first entry points to the second one, two bytes further
    let first_len = u32::try_from(buf.len()).unwrap();
    buf[0..4].copy_from_slice(&(first_len + 2).to_ne_bytes());
    buf.extend_from_slice(b"\0\0");
    buf.extend_from_slice(&second);

    let sources = parse_profile_sources(&buf);
    assert_eq!(sources.len(), 2);
    assert_eq!(sources[0].id, 2);
    assert_eq!(sources[0].description, "");
    assert_eq!(sources[1].id, 5);
    assert_eq!(sources[1].min_interval, 1);
    assert_eq!(sources[1].max_interval, 10_000);
    assert_eq!(sources[1].description, "Timer");
}

#[test]
fn truncated_profile_source_entries_are_dropped() {
    let buf = profile_source_entry(7, 0, "unterminated");
    let truncated = &buf[..buf.len() - 3]; // cut in the middle of the description

    let sources = parse_profile_sources(truncated);
    assert_eq!(sources.len(), 1);
    assert_eq!(sources[0].description, "unterminate");

    // An entry without room for its fixed part is no entry
    assert!(parse_profile_sources(&buf[..23]).is_empty());
}

#[test]
fn profile_source_ids_round_trip() {
    assert_eq!(ProfileSource::ProfileTime.id(), 0);
    assert_eq!(ProfileSource::Id(42).id(), 42);
}

#[test]
fn single_numbers_are_read_from_the_reply() {
    assert_eq!(SessionlessInfo::max_pmc(Ok(4u32.to_le_bytes().to_vec())).unwrap(), 4);
    assert_eq!(SessionlessInfo::max_loggers(Ok(64u32.to_le_bytes().to_vec())).unwrap(), 64);
    assert_eq!(SessionlessInfo::trace_version(Ok(2u64.to_le_bytes().to_vec())).unwrap(), 2);
    assert!(matches!(
        SessionlessInfo::max_pmc(Err(EvntraceNativeError::InvalidHandle)),
        Err(TraceError::EtwNativeError(EvntraceNativeError::InvalidHandle))
    ));
    assert!(matches!(
        SessionlessInfo::profile_sources(Err(EvntraceNativeError::AlreadyExist)),
        Err(TraceError::EtwNativeError(EvntraceNativeError::AlreadyExist))
    ));
    assert!(matches!(
        SessionlessInfo::periodic_capture_state_limits(Err(EvntraceNativeError::InvalidHandle)),
        Err(TraceError::EtwNativeError(EvntraceNativeError::InvalidHandle))
    ));
}

#[test]
fn intervals_are_asked_for_by_source() {
    let (class, question) = SessionlessInfo::sample_interval_query(ProfileSource::Id(7));
    assert_eq!(class, TraceInformation::TraceSampledProfileIntervalInfo);
    assert_eq!(question[..4], 7u32.to_le_bytes());
    let mut answer = question.clone();
    answer[4..8].copy_from_slice(&10_000u32.to_le_bytes());
    assert_eq!(SessionlessInfo::sample_interval(Ok(answer)).unwrap(), 10_000);
}

#[test]
fn capture_limits_are_read_from_the_reply() {
    let limits =
        SessionlessInfo::periodic_capture_state_limits(Ok(vec![60, 0, 0, 0, 8, 0, 0, 0])).unwrap();
    assert_eq!(limits.min_frequency_seconds, 60);
    assert_eq!(limits.max_providers, 8);
}

#[test]
fn queries_grow_their_buffer_and_give_up() {
    let (class, query) = SessionlessInfo::profile_sources_query();
    assert_eq!(class, TraceInformation::TraceProfileSourceListInfo);
    let mut step = query;
    for _ in 0..3 {
        let needed = u32::try_from(step.capacity + 1).unwrap();
        let buffer = vec![0u8; step.capacity];
        let ArrayQueryStep::Again(next) = step.reply(ERROR_INSUFFICIENT_BUFFER, needed, buffer)
        else {
            panic!("expected another call");
        };
        assert_eq!(next.capacity, needed as usize);
        step = next;
    }
    let needed = u32::try_from(step.capacity + 1).unwrap();
    let buffer = vec![0u8; step.capacity];
    assert!(matches!(
        step.reply(ERROR_INSUFFICIENT_BUFFER, needed, buffer),
        ArrayQueryStep::Failed(EvntraceNativeError::IoError(IoError::InvalidData(_)))
    ));
}

#[test]
fn query_answers_are_cut_to_their_length() {
    let (_, query) = SessionlessInfo::profile_sources_query();
    let mut buffer = vec![0u8; query.capacity];
    let entry = profile_source_entry(2, 0, "Timer");
    buffer[..entry.len()].copy_from_slice(&entry);
    let ArrayQueryStep::Done(answer) =
        query.reply(0, u32::try_from(entry.len()).unwrap(), buffer)
    else {
        panic!("expected an answer");
    };
    assert_eq!(answer, entry);
    let sources = SessionlessInfo::profile_sources(Ok(answer)).unwrap();
    assert_eq!(sources[0].description, "Timer");

    let (_, query) = SessionlessInfo::profile_sources_query();
    let buffer = vec![0u8; query.capacity];
    assert!(matches!(
        query.reply(5, 0, buffer),
        ArrayQueryStep::Failed(EvntraceNativeError::IoError(IoError::Os(-2_147_024_891)))
    ));
}
