//! System-wide tracing information that needs no session: what is asked, and
//! what the replies mean.
use vstd::prelude::*;

use crate::bytes;
use crate::native::etw_types::TraceInformation;
use crate::native::evntrace::{ArrayQuery, EvntraceNativeError};
use crate::text;
use crate::trace::{TraceError, TraceResult};

verus! {

/// A performance profiling source (a.k.a. PMC source)
///
/// Sources other than [`ProfileSource::ProfileTime`] are machine-specific:
/// enumerate them with [`SessionlessInfo::profile_sources`]
#[derive(Debug, Clone, Copy, PartialEq, Eq, Hash, Structural)]
pub enum ProfileSource {
    /// The CPU time sampler (the source behind sampled profile events)
    ProfileTime,
    /// A source id obtained from [`SessionlessInfo::profile_sources`]
    Id(u32),
}

impl ProfileSource {
    /// The number of the source.
    pub open spec fn number(self) -> u32 {
        match self {
            ProfileSource::ProfileTime => 0,
            ProfileSource::Id(id) => id,
        }
    }

    /// The number of the source.
    pub fn id(self) -> (r: u32)
        ensures
            r == self.number(),
    {
        match self {
            ProfileSource::ProfileTime => 0,
            ProfileSource::Id(id) => id,
        }
    }
}

/// An available profiling source, as returned by
/// [`SessionlessInfo::profile_sources`]
#[derive(Debug)]
pub struct ProfileSourceInfo {
    /// Machine-specific id of the source, usable as [`ProfileSource::Id`]
    pub id: u32,
    /// Smallest sampling interval the source accepts, in source-specific units
    pub min_interval: u32,
    /// Largest sampling interval the source accepts, in source-specific units
    pub max_interval: u32,
    /// Human-readable description of the source
    pub description: String,
}

/// What a [`ProfileSourceInfo`] holds.
#[verifier::ext_equal]
pub struct SourceView {
    pub id: u32,
    pub min_interval: u32,
    pub max_interval: u32,
    pub description: Seq<char>,
}

impl View for ProfileSourceInfo {
    type V = SourceView;

    open spec fn view(&self) -> SourceView {
        SourceView {
            id: self.id,
            min_interval: self.min_interval,
            max_interval: self.max_interval,
            description: self.description@,
        }
    }
}

/// Limits of the periodic capture state (a.k.a. rundown) feature
#[derive(Debug, Clone, Copy, PartialEq, Eq, Structural)]
pub struct PeriodicCaptureStateLimits {
    /// Minimum delay, in seconds, between two capture state requests
    pub min_frequency_seconds: u32,
    /// Maximum number of providers a session may register for periodic capture
    /// state
    pub max_providers: u16,
}

/// Size of the fixed part of a profile source entry: everything before its
/// description
pub const PROFILE_SOURCE_FIXED_LEN: usize = 24;

/// The text of a description: a wide string that ends at its first NUL, or with
/// the data.
pub open spec fn description_text(desc: Seq<u8>) -> Seq<char> {
    text::utf16_chars(text::until_nul(text::units_of(desc)))
}

/// The entry at `offset`.
pub open spec fn source_at(buf: Seq<u8>, offset: int) -> SourceView {
    SourceView {
        id: bytes::u32_at(buf, offset + 4),
        min_interval: bytes::u32_at(buf, offset + 8),
        max_interval: bytes::u32_at(buf, offset + 12),
        description: description_text(buf.skip(offset + PROFILE_SOURCE_FIXED_LEN)),
    }
}

/// The entries from `offset` on. Each says how far the next one is, the last one
/// says 0; an entry whose fixed part does not fit ends the list.
pub open spec fn sources_from(buf: Seq<u8>, offset: int) -> Seq<SourceView>
    decreases buf.len() + 0x1_0000_0000 - offset,
{
    if offset + PROFILE_SOURCE_FIXED_LEN > buf.len() {
        Seq::empty()
    } else {
        let next = bytes::u32_at(buf, offset);
        let here = seq![source_at(buf, offset)];
        if next == 0 {
            here
        } else {
            here + sources_from(buf, offset + next)
        }
    }
}

/// Decodes the description of an entry.
fn decode_description(desc: &[u8]) -> (r: String)
    ensures
        r@ == description_text(desc@),
{
    let units = text::code_units_until_nul(desc);
    text::decode_utf16_lossy(units.as_slice())
}

/// What a list of sources holds.
pub open spec fn views(sources: Seq<ProfileSourceInfo>) -> Seq<SourceView> {
    sources.map_values(|s: ProfileSourceInfo| s@)
}

/// Parses the profile sources the tracing API reports.
pub fn parse_profile_sources(buf: &[u8]) -> (r: Vec<ProfileSourceInfo>)
    ensures
        views(r@) == sources_from(buf@, 0),
{
    let mut sources: Vec<ProfileSourceInfo> = Vec::new();
    let mut offset: usize = 0;
    assert(views(sources@) =~= Seq::empty());
    assert(views(sources@) + sources_from(buf@, 0) =~= sources_from(buf@, 0));
    while buf.len() >= PROFILE_SOURCE_FIXED_LEN && offset <= buf.len() - PROFILE_SOURCE_FIXED_LEN
        invariant
            views(sources@) + sources_from(buf@, offset as int) == sources_from(buf@, 0),
        decreases buf@.len() - offset,
    {
        assert(offset + 24 <= buf.len());
        let next: u32 = bytes::read_u32(buf, offset);
        let start: usize = offset + PROFILE_SOURCE_FIXED_LEN;
        let desc = vstd::slice::slice_subrange(buf, start, buf.len());
        assert(desc@ =~= buf@.skip(start as int));
        let source = ProfileSourceInfo {
            id: bytes::read_u32(buf, offset + 4),
            min_interval: bytes::read_u32(buf, offset + 8),
            max_interval: bytes::read_u32(buf, offset + 12),
            description: decode_description(desc),
        };
        let ghost before = views(sources@);
        let ghost here = source@;
        assert(here == source_at(buf@, offset as int));
        sources.push(source);
        assert(views(sources@) =~= before.push(here));
        if next == 0 || next as usize > buf.len() - offset {
            proof {
                if next != 0 {
                    assert(sources_from(buf@, offset + next) =~= Seq::empty());
                }
                assert(views(sources@) =~= before + sources_from(buf@, offset as int));
            }
            return sources;
        }
        assert(views(sources@) + sources_from(buf@, offset + next) =~= before + sources_from(
            buf@,
            offset as int,
        ));
        offset = offset + next as usize;
    }
    assert(sources_from(buf@, offset as int) =~= Seq::empty());
    assert(views(sources@) =~= sources_from(buf@, 0));
    sources
}

/// Bytes of an entry: how far the next one is, the source, eight reserved bytes,
/// and the description with its NUL.
pub open spec fn source_bytes(
    next: u32,
    id: u32,
    min_interval: u32,
    max_interval: u32,
    description: Seq<char>,
) -> Seq<u8> {
    bytes::u32_bytes(next) + bytes::u32_bytes(id) + bytes::u32_bytes(min_interval)
        + bytes::u32_bytes(max_interval) + bytes::u64_bytes(0) + bytes::u16s_bytes(
        text::utf16_units(description).push(0),
    )
}

/// Four numbers written one after the other are read back.
proof fn numbers_are_read(before: Seq<u8>, a: u32, b: u32, c: u32, d: u32, after: Seq<u8>)
    ensures
        ({
            let s = before + (bytes::u32_bytes(a) + bytes::u32_bytes(b) + bytes::u32_bytes(c)
                + bytes::u32_bytes(d) + after);
            let at = before.len() as int;
            &&& bytes::u32_at(s, at) == a
            &&& bytes::u32_at(s, at + 4) == b
            &&& bytes::u32_at(s, at + 8) == c
            &&& bytes::u32_at(s, at + 12) == d
        }),
{
    let wa = bytes::u32_bytes(a);
    let wb = bytes::u32_bytes(b);
    let wc = bytes::u32_bytes(c);
    let wd = bytes::u32_bytes(d);
    let s = before + (wa + wb + wc + wd + after);
    bytes::u32_round_trip(before, a, wb + wc + wd + after);
    assert(s =~= before + wa + (wb + wc + wd + after));
    bytes::u32_round_trip(before + wa, b, wc + wd + after);
    assert(s =~= before + wa + wb + (wc + wd + after));
    bytes::u32_round_trip(before + wa + wb, c, wd + after);
    assert(s =~= before + wa + wb + wc + (wd + after));
    bytes::u32_round_trip(before + wa + wb + wc, d, after);
    assert(s =~= before + wa + wb + wc + wd + after);
}

/// A description written with its NUL is read back, whatever follows.
proof fn description_is_read(description: Seq<char>, after: Seq<u8>)
    requires
        !description.contains('\0'),
    ensures
        description_text(
            bytes::u16s_bytes(text::utf16_units(description).push(0)) + after,
        ) == description,
{
    let units = text::utf16_units(description);
    let written = bytes::u16s_bytes(units.push(0));
    let data = written + after;
    let all = text::units_of(data);
    bytes::u16s_round_trip(Seq::empty(), units.push(0), after);
    assert(Seq::<u8>::empty() + written + after =~= data);
    text::no_nul_units(description);
    assert forall|i: int| 0 <= i <= units.len() implies all[i] == units.push(0)[i] by {
        assert(bytes::u16_at(Seq::<u8>::empty() + written + after, 0 + 2 * i) == units.push(0)[i]);
    }
    assert forall|i: int| 0 <= i < units.len() implies all[i] != 0 by {
        assert(all[i] == units.push(0)[i]);
    }
    assert(all[units.len() as int] == 0);
    text::first_index_is(all, 0, units.len() as int);
    assert(text::until_nul(all) =~= units);
    text::utf16_round_trip(description);
}

/// A profile source is read back from where it was written, whatever stands
/// around it.
pub proof fn written_sources_are_read(
    before: Seq<u8>,
    next: u32,
    source: SourceView,
    after: Seq<u8>,
)
    requires
        !source.description.contains('\0'),
    ensures
        ({
            let s = before + source_bytes(
                next,
                source.id,
                source.min_interval,
                source.max_interval,
                source.description,
            ) + after;
            &&& bytes::u32_at(s, before.len() as int) == next
            &&& source_at(s, before.len() as int) == source
            &&& before.len() + PROFILE_SOURCE_FIXED_LEN <= s.len()
        }),
{
    let id = source.id;
    let min = source.min_interval;
    let max = source.max_interval;
    let reserved = bytes::u64_bytes(0);
    let text_bytes = bytes::u16s_bytes(text::utf16_units(source.description).push(0));
    let s = before + source_bytes(next, id, min, max, source.description) + after;
    numbers_are_read(before, next, id, min, max, reserved + text_bytes + after);
    assert(s =~= before + (bytes::u32_bytes(next) + bytes::u32_bytes(id) + bytes::u32_bytes(min)
        + bytes::u32_bytes(max) + (reserved + text_bytes + after)));
    assert(s.skip(before.len() + PROFILE_SOURCE_FIXED_LEN) =~= text_bytes + after);
    description_is_read(source.description, after);
}

/// System-wide tracing information that does not require an active session
pub struct SessionlessInfo;

/// Size of the first buffer profile sources are asked for with
pub const PROFILE_SOURCES_CAPACITY: usize = 4096;

/// What a fixed-size query was answered: its bytes, or its failure
pub type QueryReply = Result<Vec<u8>, EvntraceNativeError>;

/// The `u32` at `at` of a reply.
pub open spec fn u32_of_reply(reply: QueryReply, at: int) -> TraceResult<u32> {
    match reply {
        Ok(data) => Ok(bytes::u32_at(data@, at)),
        Err(e) => Err(TraceError::EtwNativeError(e)),
    }
}

/// Whether a reply, if there is one, has `len` bytes.
pub open spec fn has_len(reply: QueryReply, len: int) -> bool {
    reply matches Ok(data) ==> data@.len() == len
}

fn reply_u32(reply: QueryReply, at: usize) -> (r: TraceResult<u32>)
    requires
        reply matches Ok(data) ==> at + 4 <= data@.len(),
    ensures
        r == u32_of_reply(reply, at as int),
{
    match reply {
        Ok(data) => Ok(bytes::read_u32(data.as_slice(), at)),
        Err(e) => Err(TraceError::EtwNativeError(e)),
    }
}

impl SessionlessInfo {
    /// What the sampling interval of a profiling source is asked with: the
    /// source, and room for the interval.
    pub fn sample_interval_query(source: ProfileSource) -> (r: (TraceInformation, Vec<u8>))
        ensures
            r.0 == TraceInformation::TraceSampledProfileIntervalInfo,
            r.1@ == bytes::u32_bytes(source.number()) + bytes::u32_bytes(0),
    {
        let mut data: Vec<u8> = Vec::new();
        bytes::push_u32(&mut data, source.id());
        bytes::push_u32(&mut data, 0);
        assert(data@ =~= bytes::u32_bytes(source.number()) + bytes::u32_bytes(0));
        (TraceInformation::TraceSampledProfileIntervalInfo, data)
    }

    /// The sampling interval of a profiling source.
    pub fn sample_interval(reply: QueryReply) -> (r: TraceResult<u32>)
        requires
            has_len(reply, 8),
        ensures
            r == u32_of_reply(reply, 4),
    {
        reply_u32(reply, 4)
    }

    /// The maximum number of PMC counters that can be specified simultaneously
    /// (information class `TraceMaxPmcCounterQuery`).
    pub fn max_pmc(reply: QueryReply) -> (r: TraceResult<u32>)
        requires
            has_len(reply, 4),
        ensures
            r == u32_of_reply(reply, 0),
    {
        reply_u32(reply, 0)
    }

    /// The maximum number of sessions the system allows at a time (information
    /// class `TraceMaxLoggersQuery`).
    pub fn max_loggers(reply: QueryReply) -> (r: TraceResult<u32>)
        requires
            has_len(reply, 4),
        ensures
            r == u32_of_reply(reply, 0),
    {
        reply_u32(reply, 0)
    }

    /// The version of the trace processing code (information class
    /// `TraceVersionInfo`).
    pub fn trace_version(reply: QueryReply) -> (r: TraceResult<u32>)
        requires
            has_len(reply, 8),
        ensures
            r == u32_of_reply(reply, 0),
    {
        reply_u32(reply, 0)
    }

    /// The limits of the periodic capture state feature (information class
    /// `TracePeriodicCaptureStateInfo`).
    pub fn periodic_capture_state_limits(reply: QueryReply) -> (r: TraceResult<
        PeriodicCaptureStateLimits,
    >)
        requires
            has_len(reply, 8),
        ensures
            r == (match reply {
                Ok(data) => Ok::<PeriodicCaptureStateLimits, TraceError>(
                    PeriodicCaptureStateLimits {
                        min_frequency_seconds: bytes::u32_at(data@, 0),
                        max_providers: bytes::u16_at(data@, 4),
                    },
                ),
                Err(e) => Err(TraceError::EtwNativeError(e)),
            }),
    {
        match reply {
            Ok(data) => Ok(
                PeriodicCaptureStateLimits {
                    min_frequency_seconds: bytes::read_u32(data.as_slice(), 0),
                    max_providers: bytes::read_u16(data.as_slice(), 4),
                },
            ),
            Err(e) => Err(TraceError::EtwNativeError(e)),
        }
    }

    /// The query of the profiling (PMC) sources available on this system
    /// (information class `TraceProfileSourceListInfo`).
    pub fn profile_sources_query() -> (r: (TraceInformation, ArrayQuery))
        ensures
            r.0 == TraceInformation::TraceProfileSourceListInfo,
            r.1.capacity == PROFILE_SOURCES_CAPACITY,
            r.1.calls_left == crate::native::evntrace::MAX_QUERY_CALLS,
    {
        (
            TraceInformation::TraceProfileSourceListInfo,
            ArrayQuery::new(PROFILE_SOURCES_CAPACITY),
        )
    }

    /// The profiling (PMC) sources available on this system.
    pub fn profile_sources(reply: QueryReply) -> (r: TraceResult<
        Vec<ProfileSourceInfo>,
    >)
        ensures
            match reply {
                Ok(data) => r matches Ok(sources) && views(sources@) == sources_from(data@, 0),
                Err(e) => r == Err::<Vec<ProfileSourceInfo>, TraceError>(
                    TraceError::EtwNativeError(e),
                ),
            },
    {
        match reply {
            Ok(data) => Ok(parse_profile_sources(data.as_slice())),
            Err(e) => Err(TraceError::EtwNativeError(e)),
        }
    }
}

/// The sources in a buffer, one by one: each is followed by the one that many bytes
/// behind it as it says, and the last one says zero. One that does not fit is not
/// read.
pub proof fn sources_follow_one_another(buf: Seq<u8>, offset: int)
    requires
        0 <= offset,
    ensures
        buf.len() < offset + 24 ==> sources_from(buf, offset).len() == 0,
        buf.len() >= offset + 24 ==> {
            let next = bytes::little_endian(buf.subrange(offset, offset + 4));
            let all = sources_from(buf, offset);
            &&& all.len() > 0
            &&& all[0].id == bytes::little_endian(buf.subrange(offset + 4, offset + 8))
            &&& all[0].min_interval == bytes::little_endian(buf.subrange(offset + 8, offset + 12))
            &&& all[0].max_interval == bytes::little_endian(buf.subrange(offset + 12, offset + 16))
            &&& all[0].description == text::utf16_chars(
                text::until_nul(text::units_of(buf.subrange(offset + 24, buf.len() as int))),
            )
            &&& next == 0 ==> all.len() == 1
            &&& next > 0 ==> all.skip(1) == sources_from(buf, offset + next)
        },
{
    if buf.len() >= offset + 24 {
        bytes::stored_numbers_are_little_endian(buf, offset);
        bytes::stored_numbers_are_little_endian(buf, offset + 4);
        bytes::stored_numbers_are_little_endian(buf, offset + 8);
        bytes::stored_numbers_are_little_endian(buf, offset + 12);
        assert(buf.skip(offset + PROFILE_SOURCE_FIXED_LEN) =~= buf.subrange(
            offset + 24,
            buf.len() as int,
        ));
        let next = bytes::u32_at(buf, offset);
        if next > 0 {
            assert(sources_from(buf, offset).skip(1) =~= sources_from(buf, offset + next));
        }
    }
}

/// Numbers in replies are little-endian; failures are passed on.
pub proof fn numbers_of_replies(reply: QueryReply, at: int)
    requires
        0 <= at,
        reply matches Ok(data) ==> at + 4 <= data@.len(),
    ensures
        reply matches Ok(data) ==> (u32_of_reply(reply, at) matches Ok(v) && v
            == bytes::little_endian(data@.subrange(at, at + 4))),
        reply matches Err(e) ==> u32_of_reply(reply, at) == Err::<u32, TraceError>(
            TraceError::EtwNativeError(e),
        ),
{
    if let Ok(data) = reply {
        bytes::stored_numbers_are_little_endian(data@, at);
    }
}

/// The timer is source zero; others have the number they are given.
pub proof fn sources_have_their_number(id: u32)
    ensures
        ProfileSource::ProfileTime.number() == 0,
        ProfileSource::Id(id).number() == id,
{
}

} // verus!
