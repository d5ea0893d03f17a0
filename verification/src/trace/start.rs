//! How a trace is started, step by step: which native call is made next, and what
//! its reply leads to.
use std::sync::Arc;

use vstd::prelude::*;

use crate::native::etw_types;
use crate::native::etw_types::{
    DumpFile, EventTraceLogfile, EventTraceProperties, SessionIdentity, SubscriptionSource,
    TRACE_NAME_MAX_CHARS,
};
use crate::native::etw_types::group_mask;
use crate::native::evntrace;
use crate::native::evntrace::{
    EvntraceNativeError, IoError, ProviderRequest, SetInfoRequest, UniqueValidContexts,
};
use crate::provider::Provider;
use crate::text;
use crate::trace;
use crate::trace::{
    DumpFileParams, FileTrace, Platform, RealTimeTraceTrait, Session, TraceBuilder, TraceError,
    TraceKind, TraceProperties, TraceResult,
};
use crate::trace::callback_data;
use crate::trace::callback_data::RealTimeCallbackData;

verus! {

/// One native call made on a started session
#[derive(Debug, Clone, Copy, PartialEq, Eq, Structural)]
pub enum StartTask {
    /// Collect the call stacks of kernel events
    StackTracing,
    /// Query the group mask of the session
    QueryGroupMask,
    /// Set the group mask with the extended groups merged in
    SetGroupMask,
    /// Enable the provider at this position
    Enable(usize),
    /// Attach the consumer
    Open,
    /// Ask the provider at this position for its state
    Capture(usize),
}

/// The tasks that enable the first `n` providers.
pub open spec fn enable_tasks(n: nat) -> Seq<StartTask> {
    Seq::new(n, |i: int| StartTask::Enable(i as usize))
}

/// The tasks that ask the providers for their state that want to be.
pub open spec fn capture_tasks(providers: Seq<Arc<Provider>>) -> Seq<StartTask>
    decreases providers.len(),
{
    if providers.len() == 0 {
        Seq::empty()
    } else if providers.last()@.capture_state {
        capture_tasks(providers.drop_last()).push(
            StartTask::Capture((providers.len() - 1) as usize),
        )
    } else {
        capture_tasks(providers.drop_last())
    }
}

/// The tasks of a kernel session: its settings are in place before the consumer
/// is attached.
pub open spec fn kernel_tasks(stacks: bool, groups: bool) -> Seq<StartTask> {
    (if stacks {
        seq![StartTask::StackTracing]
    } else {
        Seq::empty()
    }) + (if groups {
        seq![StartTask::QueryGroupMask, StartTask::SetGroupMask]
    } else {
        Seq::empty()
    }) + seq![StartTask::Open]
}

/// The tasks of a user session: providers are enabled before the consumer is
/// attached, and asked for their state after it, since events that nobody listens
/// to are dropped.
pub open spec fn user_tasks(providers: Seq<Arc<Provider>>) -> Seq<StartTask> {
    enable_tasks(providers.len()) + seq![StartTask::Open] + capture_tasks(providers)
}

/// The tasks of a session of the given kind.
pub open spec fn tasks_of(
    kind: TraceKind,
    stacks: bool,
    groups: bool,
    providers: Seq<Arc<Provider>>,
) -> Seq<StartTask> {
    match kind {
        TraceKind::Kernel => kernel_tasks(stacks, groups),
        TraceKind::User => user_tasks(providers),
    }
}

/// Where in the plan the consumer is attached.
pub open spec fn open_index(
    kind: TraceKind,
    stacks: bool,
    groups: bool,
    providers: Seq<Arc<Provider>>,
) -> int {
    match kind {
        TraceKind::Kernel => kernel_tasks(stacks, groups).len() - 1,
        TraceKind::User => providers.len() as int,
    }
}

/// What has been done so far
#[derive(Debug)]
pub enum StartState {
    /// A running session of the same name is to be stopped
    StopExisting,
    /// The session is to be started
    Start,
    /// The session runs, and the task at this index is to be done
    Running { at: usize, control_handle: u64, consumer: Option<u64>, mask: Vec<u8> },
    /// Something failed, and the consumer is to be detached
    Closing { control_handle: u64, trace_handle: u64, error: TraceError },
    /// Something failed, and the session is to be stopped
    Stopping { control_handle: u64, error: TraceError },
    /// The trace is started
    Done { control_handle: u64, trace_handle: u64 },
    /// The trace could not be started
    Failed(TraceError),
}

/// What a native call replied. What a call does not return is not looked at.
#[derive(Debug)]
pub struct NativeReply {
    /// Status of the call
    pub status: u32,
    /// Handle the call returned
    pub handle: u64,
    /// Error code of the thread
    pub last_error: i32,
    /// Data the call filled in
    pub data: Vec<u8>,
}

/// What follows a failure: the consumer is detached if there is one, and the
/// session is stopped.
pub open spec fn failing(control_handle: u64, trace_handle: Option<u64>, error: TraceError) -> StartState {
    match trace_handle {
        Some(t) => StartState::Closing { control_handle, trace_handle: t, error },
        None => StartState::Stopping { control_handle, error },
    }
}

/// The error of a failed call.
pub open spec fn os_error(code: i32) -> TraceError {
    TraceError::EtwNativeError(EvntraceNativeError::IoError(IoError::Os(code)))
}

/// The state with one more task done.
pub open spec fn task_done(
    tasks: Seq<StartTask>,
    at: usize,
    control_handle: u64,
    trace_handle: Option<u64>,
    mask: Vec<u8>,
) -> StartState {
    match trace_handle {
        Some(t) if at + 1 == tasks.len() => StartState::Done { control_handle, trace_handle: t },
        _ => StartState::Running {
            at: (at + 1) as usize,
            control_handle,
            consumer: trace_handle,
            mask,
        },
    }
}

/// What a reply leads to.
pub open spec fn next_state(
    tasks: Seq<StartTask>,
    state: StartState,
    reply: NativeReply,
) -> StartState {
    let status = reply.status;
    match state {
        StartState::StopExisting => if status == evntrace::ERROR_SUCCESS || status
            == evntrace::ERROR_WMI_INSTANCE_NOT_FOUND {
            StartState::Start
        } else {
            StartState::Failed(os_error(evntrace::hresult(status)))
        },
        StartState::Start => if status != evntrace::ERROR_SUCCESS {
            if evntrace::hresult(status) == evntrace::hresult(evntrace::ERROR_ALREADY_EXISTS) {
                StartState::Failed(TraceError::EtwNativeError(EvntraceNativeError::AlreadyExist))
            } else {
                StartState::Failed(os_error(evntrace::hresult(status)))
            }
        } else if reply.handle == 0 {
            StartState::Failed(TraceError::EtwNativeError(EvntraceNativeError::InvalidHandle))
        } else {
            StartState::Running {
                at: 0,
                control_handle: reply.handle,
                consumer: None,
                mask: reply.data,
            }
        },
        StartState::Running { at, control_handle, consumer, mask } => if tasks[at as int]
            == StartTask::Open {
            if evntrace::is_invalid_trace_handle(reply.handle) {
                failing(control_handle, consumer, os_error(reply.last_error))
            } else {
                task_done(tasks, at, control_handle, Some(reply.handle), mask)
            }
        } else if status != evntrace::ERROR_SUCCESS {
            failing(control_handle, consumer, os_error(evntrace::hresult(status)))
        } else if tasks[at as int] == StartTask::QueryGroupMask {
            task_done(tasks, at, control_handle, consumer, reply.data)
        } else {
            task_done(tasks, at, control_handle, consumer, mask)
        },
        StartState::Closing { control_handle, trace_handle, error } => StartState::Stopping {
            control_handle,
            error,
        },
        StartState::Stopping { control_handle, error } => StartState::Failed(error),
        StartState::Done { .. } => state,
        StartState::Failed(_) => state,
    }
}

/// The session that runs in a state.
pub open spec fn session_of(state: StartState) -> Option<u64> {
    match state {
        StartState::Running { control_handle, .. } => Some(control_handle),
        StartState::Closing { control_handle, .. } => Some(control_handle),
        StartState::Stopping { control_handle, .. } => Some(control_handle),
        StartState::Done { control_handle, .. } => Some(control_handle),
        _ => None,
    }
}

/// The consumer that is attached in a state.
pub open spec fn consumer_of(state: StartState) -> Option<u64> {
    match state {
        StartState::Running { consumer, .. } => consumer,
        StartState::Closing { trace_handle, .. } => Some(trace_handle),
        StartState::Done { trace_handle, .. } => Some(trace_handle),
        _ => None,
    }
}

/// The task that attaches the consumer is there once, and every request for a
/// state comes after it.
pub open spec fn opens_before_captures(tasks: Seq<StartTask>, open: int) -> bool {
    &&& 0 <= open < tasks.len()
    &&& tasks[open] == StartTask::Open
    &&& forall|i: int|
        0 <= i < tasks.len() ==> {
            &&& (#[trigger] tasks[i]) == StartTask::Open ==> i == open
            &&& tasks[i] is Capture ==> open < i
            &&& tasks[i] is Enable ==> i < open
            &&& tasks[i] == StartTask::SetGroupMask ==> 0 < i && tasks[i - 1]
                == StartTask::QueryGroupMask
        }
}

/// Whether a state can occur.
pub open spec fn can_occur(tasks: Seq<StartTask>, open: int, state: StartState) -> bool {
    match state {
        StartState::Running { at, control_handle, consumer, mask } => {
            &&& at < tasks.len()
            &&& control_handle != 0
            &&& consumer is Some <==> open < at
            &&& consumer matches Some(t) ==> !evntrace::is_invalid_trace_handle(t)
            &&& tasks[at as int] == StartTask::SetGroupMask ==> mask@.len()
                == group_mask::GROUPMASK_BYTES
        },
        StartState::Closing { control_handle, trace_handle, .. } => control_handle != 0
            && !evntrace::is_invalid_trace_handle(trace_handle),
        StartState::Stopping { control_handle, .. } => control_handle != 0,
        StartState::Done { control_handle, trace_handle } => control_handle != 0
            && !evntrace::is_invalid_trace_handle(trace_handle),
        _ => true,
    }
}

/// Whether a reply has the data its call was to fill in.
pub open spec fn is_reply(tasks: Seq<StartTask>, state: StartState, reply: NativeReply) -> bool {
    state matches StartState::Running { at, .. } && tasks[at as int] == StartTask::QueryGroupMask
        ==> reply.data@.len() == group_mask::GROUPMASK_BYTES
}

/// Every state that follows a state that can occur can occur.
pub proof fn states_stay_possible(
    tasks: Seq<StartTask>,
    open: int,
    state: StartState,
    reply: NativeReply,
)
    requires
        opens_before_captures(tasks, open),
        can_occur(tasks, open, state),
        is_reply(tasks, state, reply),
        tasks.len() <= usize::MAX,
    ensures
        can_occur(tasks, open, next_state(tasks, state, reply)),
{
    if let StartState::Running { at, control_handle, consumer, mask } = state {
        assert(tasks[at as int] == tasks[at as int]);
        if at + 1 < tasks.len() {
            assert(tasks[at + 1] == tasks[at + 1]);
        }
    }
}

/// A session that was started is let go only when it is handed over to the
/// trace, or after the call that stops it: no session is left running behind a
/// failure. The same holds of its consumer and the call that detaches it.
pub proof fn no_session_is_left_running(
    tasks: Seq<StartTask>,
    open: int,
    state: StartState,
    reply: NativeReply,
)
    requires
        opens_before_captures(tasks, open),
        can_occur(tasks, open, state),
    ensures
        session_of(state) matches Some(h) ==> {
            ||| session_of(next_state(tasks, state, reply)) == Some(h)
            ||| state matches StartState::Stopping { control_handle, .. } && control_handle == h
        },
        consumer_of(state) matches Some(t) ==> {
            ||| consumer_of(next_state(tasks, state, reply)) == Some(t)
            ||| state matches StartState::Closing { trace_handle, .. } && trace_handle == t
        },
        next_state(tasks, state, reply) is Failed && session_of(state) is Some
            ==> state is Stopping,
        state is Stopping ==> consumer_of(state) is None,
{
}

/// How many more calls a trace may take to start, at most.
pub open spec fn calls_left(tasks: Seq<StartTask>, state: StartState) -> int {
    match state {
        StartState::StopExisting => tasks.len() as int + 4,
        StartState::Start => tasks.len() as int + 3,
        StartState::Running { at, .. } => tasks.len() - at + 2,
        StartState::Closing { .. } => 2,
        StartState::Stopping { .. } => 1,
        StartState::Done { .. } => 0,
        StartState::Failed(_) => 0,
    }
}

/// Starting a trace ends: every reply brings it closer to being started, or to
/// its failure.
pub proof fn starting_ends(
    tasks: Seq<StartTask>,
    open: int,
    state: StartState,
    reply: NativeReply,
)
    requires
        opens_before_captures(tasks, open),
        can_occur(tasks, open, state),
        tasks.len() <= usize::MAX,
        !(state is Done),
        !(state is Failed),
    ensures
        0 <= calls_left(tasks, next_state(tasks, state, reply)) < calls_left(tasks, state),
{
}

/// The error that is reported is the one of the step that failed: neither
/// detaching the consumer nor stopping the session replaces it.
pub proof fn the_first_error_is_reported(
    tasks: Seq<StartTask>,
    control_handle: u64,
    trace_handle: Option<u64>,
    error: TraceError,
    r1: NativeReply,
    r2: NativeReply,
)
    ensures
        ({
            let first = next_state(tasks, failing(control_handle, trace_handle, error), r1);
            let second = next_state(tasks, first, r2);
            match trace_handle {
                Some(_) => second == StartState::Failed(error),
                None => first == StartState::Failed(error),
            }
        }),
{
}

/// The plan of every session attaches the consumer once, enables providers before
/// that and asks them for their state after it.
pub proof fn plans_open_before_captures(
    kind: TraceKind,
    stacks: bool,
    groups: bool,
    providers: Seq<Arc<Provider>>,
)
    ensures
        opens_before_captures(
            tasks_of(kind, stacks, groups, providers),
            open_index(kind, stacks, groups, providers),
        ),
{
    let tasks = tasks_of(kind, stacks, groups, providers);
    match kind {
        TraceKind::Kernel => {},
        TraceKind::User => {
            captures_only(providers);
            let n = providers.len() as int;
            assert(tasks[n] == StartTask::Open);
            assert forall|i: int| 0 <= i < tasks.len() implies {
                &&& (#[trigger] tasks[i]) == StartTask::Open ==> i == n
                &&& tasks[i] is Capture ==> n < i
                &&& tasks[i] is Enable ==> i < n
                &&& tasks[i] == StartTask::SetGroupMask ==> 0 < i && tasks[i - 1]
                    == StartTask::QueryGroupMask
            } by {
                if i < n {
                    assert(tasks[i] == StartTask::Enable(i as usize));
                } else if i > n {
                    assert(tasks[i] == capture_tasks(providers)[i - n - 1]);
                }
            }
        },
    }
}

/// The providers a plan speaks of are there, and a plan only has tasks there is
/// something to do for.
proof fn tasks_name_providers(
    kind: TraceKind,
    stacks: bool,
    groups: bool,
    providers: Seq<Arc<Provider>>,
    i: int,
)
    requires
        0 <= i < tasks_of(kind, stacks, groups, providers).len(),
    ensures
        ({
            let task = tasks_of(kind, stacks, groups, providers)[i];
            &&& providers.len() <= usize::MAX ==> {
                &&& task matches StartTask::Enable(p) ==> p < providers.len()
                &&& task matches StartTask::Capture(p) ==> p < providers.len()
            }
            &&& task == StartTask::StackTracing ==> stacks
            &&& task == StartTask::SetGroupMask ==> groups
        }),
{
    if kind == TraceKind::User {
        captures_only(providers);
        let n = providers.len() as int;
        let tasks = user_tasks(providers);
        if i < n {
            assert(tasks[i] == StartTask::Enable(i as usize));
        } else if i > n {
            assert(tasks[i] == capture_tasks(providers)[i - n - 1]);
        }
    }
}

/// What asks for a state is nothing else.
proof fn captures_only(providers: Seq<Arc<Provider>>)
    ensures
        forall|i: int|
            0 <= i < capture_tasks(providers).len() ==> {
                &&& (#[trigger] capture_tasks(providers)[i]) is Capture
                &&& providers.len() <= usize::MAX ==> capture_tasks(providers)[i]->Capture_0
                    < providers.len()
            },
        capture_tasks(providers).len() <= providers.len(),
    decreases providers.len(),
{
    if providers.len() > 0 {
        captures_only(providers.drop_last());
        let all = capture_tasks(providers);
        let rest = capture_tasks(providers.drop_last());
        assert forall|i: int| 0 <= i < all.len() implies {
            &&& (#[trigger] all[i]) is Capture
            &&& providers.len() <= usize::MAX ==> all[i]->Capture_0 < providers.len()
        } by {
            if i < rest.len() {
                assert(all[i] == rest[i]);
            }
        }
    }
}

/// The native call that is made next
#[derive(Debug)]
pub enum StartAction {
    /// `ControlTraceW` with the code that stops, by name
    StopByName { name: Vec<u16>, properties: EventTraceProperties },
    /// `StartTraceW`
    StartTrace(EventTraceProperties),
    /// `TraceSetInformation`
    SetInfo(SetInfoRequest),
    /// `TraceQueryInformation` of the group mask of this session
    QueryGroupMask(u64),
    /// `EnableTraceEx2`
    ControlProvider(ProviderRequest),
    /// `OpenTraceW`
    Open(EventTraceLogfile),
    /// `CloseTrace`
    Close(u64),
    /// `ControlTraceW` with the code that stops, by handle
    Stop(u64),
    /// None: the trace is started, or could not be
    Finished,
}

/// The settings a trace is started with
pub struct StartSetup {
    pub kind: TraceKind,
    pub name: String,
    /// Name of the session as UTF-16 code units, cut to the maximum length
    pub wide_name: Vec<u16>,
    pub identity: SessionIdentity,
    /// What a session of the same name is described with to stop it
    pub stop_identity: SessionIdentity,
    pub dump_file: Option<DumpFile>,
    pub properties: TraceProperties,
    pub stack_tracing_events: Vec<trace::StackTracingEvent>,
    pub extended_kernel_groups: Vec<trace::ExtendedKernelGroup>,
    /// What is handed back with every event
    pub context: u64,
    /// What is done on the started session
    pub tasks: Vec<StartTask>,
}

/// A trace that is being started
pub struct StartingTrace {
    pub setup: StartSetup,
    pub data: RealTimeCallbackData,
    pub state: StartState,
}

/// At most the first code units of a name.
pub open spec fn cut(units: Seq<u16>) -> Seq<u16> {
    if units.len() > TRACE_NAME_MAX_CHARS {
        units.take(TRACE_NAME_MAX_CHARS as int)
    } else {
        units
    }
}

/// The name of a session as UTF-16 code units.
pub open spec fn wide_name(name: Seq<char>) -> Seq<u16> {
    cut(text::until_nul(text::utf16_units(name)))
}

fn wide_trace_name(name: &str) -> (r: Vec<u16>)
    ensures
        r@ == wide_name(name@),
{
    let mut units = text::wide_c_string_truncated(name);
    if units.len() > TRACE_NAME_MAX_CHARS {
        units.truncate(TRACE_NAME_MAX_CHARS);
    }
    units
}

/// The dump file the parameters ask for. The path ends at its first NUL, and is
/// cut to the maximum length.
pub open spec fn is_dump_file(file: Option<DumpFile>, params: Option<DumpFileParams>) -> bool {
    match (file, params) {
        (None, None) => true,
        (Some(f), Some(p)) => f.path@ == cut(text::until_nul(p.file_path@)) && f.mode
            == p.file_logging_mode && f.max_size == p.max_size,
        _ => false,
    }
}

fn dump_file(params: Option<DumpFileParams>) -> (r: Option<DumpFile>)
    ensures
        is_dump_file(r, params),
{
    match params {
        None => None,
        Some(p) => {
            let mut path = text::wide_c_string_from_units(p.file_path);
            if path.len() > TRACE_NAME_MAX_CHARS {
                path.truncate(TRACE_NAME_MAX_CHARS);
            }
            Some(DumpFile { path, mode: p.file_logging_mode, max_size: p.max_size })
        },
    }
}

/// Whether a trace opened with `log_file` receives the events of the session
/// `name`, and hands `context` back with each of them.
pub open spec fn receives_session(
    log_file: EventTraceLogfile,
    context: u64,
    name: Seq<u16>,
) -> bool {
    &&& log_file.context == context
    &&& log_file.log_file_name is None
    &&& log_file.logger_name matches Some(n) && n@ == name
    &&& log_file.process_trace_mode == etw_types::PROCESS_TRACE_MODE_REAL_TIME
        | etw_types::PROCESS_TRACE_MODE_EVENT_RECORD
}

/// Whether a trace opened with `log_file` reads the events of the file at `path`,
/// and hands `context` back with each of them.
pub open spec fn reads_file(log_file: EventTraceLogfile, context: u64, path: Seq<u16>) -> bool {
    &&& log_file.context == context
    &&& log_file.log_file_name matches Some(n) && n@ == path
    &&& log_file.logger_name is None
    &&& log_file.process_trace_mode == etw_types::PROCESS_TRACE_MODE_EVENT_RECORD
}

fn copy_units(units: &Vec<u16>) -> (r: Vec<u16>)
    ensures
        r@ == units@,
{
    let mut r: Vec<u16> = Vec::new();
    text::push_units(&mut r, units.as_slice());
    assert(r@ =~= units@);
    r
}

impl StartSetup {
    /// Whether a kernel session collects call stacks.
    pub open spec fn stacks(self) -> bool {
        self.stack_tracing_events@.len() > 0
    }

    /// Whether a kernel session enables extended groups.
    pub open spec fn groups(self) -> bool {
        self.extended_kernel_groups@.len() > 0
    }
}

impl StartingTrace {
    /// Whether the plan is that of the session, and the state one that can occur.
    pub open spec fn wf(self) -> bool {
        let providers = self.data.registered();
        &&& self.setup.tasks@ == tasks_of(
            self.setup.kind,
            self.setup.stacks(),
            self.setup.groups(),
            providers,
        )
        &&& can_occur(
            self.setup.tasks@,
            open_index(self.setup.kind, self.setup.stacks(), self.setup.groups(), providers),
            self.state,
        )
    }

    /// Whether `action` is the call that is made in a state in which nothing can
    /// go wrong before the call.
    pub open spec fn is_plain_action(self, action: StartAction) -> bool {
        let setup = self.setup;
        match self.state {
            StartState::Start => action matches StartAction::StartTrace(p)
                && etw_types::describes_session(
                p,
                setup.identity,
                setup.wide_name@,
                setup.dump_file,
                setup.properties,
                callback_data::enable_flags(setup.kind, self.data.registered()),
            ),
            StartState::Running { at, control_handle, mask, .. } => match setup.tasks@[at as int] {
                StartTask::StackTracing => action matches StartAction::SetInfo(request)
                    && request.control_handle == control_handle && request.class
                    == etw_types::TraceInformation::TraceStackTracingInfo && request.data@
                    == evntrace::event_ids_bytes(setup.stack_tracing_events@),
                StartTask::QueryGroupMask => action == StartAction::QueryGroupMask(control_handle),
                StartTask::SetGroupMask => action matches StartAction::SetInfo(request)
                    && request.control_handle == control_handle && request.class
                    == etw_types::TraceInformation::TraceSystemTraceEnableFlagsInfo && request.data@
                    == crate::bytes::u32s_bytes(
                    group_mask::with_groups(
                        Seq::new(8, |i: int| crate::bytes::u32_at(mask@, 4 * i)),
                        setup.extended_kernel_groups@,
                    ),
                ),
                StartTask::Capture(i) => match evntrace::bare_request(
                    control_handle,
                    self.data.registered()[i as int]@.guid,
                    evntrace::EVENT_CONTROL_CODE_CAPTURE_STATE,
                ) {
                    Ok(request) => action == StartAction::ControlProvider(request),
                    Err(_) => false,
                },
                _ => false,
            },
            StartState::Closing { trace_handle, .. } => action == StartAction::Close(trace_handle),
            StartState::Stopping { control_handle, .. } => action == StartAction::Stop(
                control_handle,
            ),
            StartState::Done { .. } => action == StartAction::Finished,
            StartState::Failed(_) => action == StartAction::Finished,
            StartState::StopExisting => false,
        }
    }

    /// The provider that is to be enabled, if that is what is to be done.
    pub open spec fn enables_next(self) -> Option<Arc<Provider>> {
        match self.state {
            StartState::Running { at, .. } => match self.setup.tasks@[at as int] {
                StartTask::Enable(i) => Some(self.data.registered()[i as int]),
                _ => None,
            },
            _ => None,
        }
    }

    /// Whether the consumer is to be attached.
    pub open spec fn opens_next(self) -> bool {
        self.state matches StartState::Running { at, .. } && self.setup.tasks@[at as int]
            == StartTask::Open
    }

    fn next_task(&mut self, at: usize, control: u64, contexts: &mut UniqueValidContexts) -> (r:
        StartAction)
        requires
            old(self).wf(),
            old(self).state matches StartState::Running { at: a, control_handle: c, .. } && a == at
                && c == control,
        ensures
            final(self).wf(),
            final(self).setup == old(self).setup,
            final(self).data == old(self).data,
            if old(self).opens_next() {
                let context = old(self).setup.context;
                if old(contexts)@.contains(context) {
                    &&& final(contexts)@ == old(contexts)@
                    &&& final(self).state == failing(
                        session_of(old(self).state)->0,
                        None,
                        TraceError::EtwNativeError(EvntraceNativeError::AlreadyExist),
                    )
                    &&& r == StartAction::Stop(session_of(old(self).state)->0)
                } else {
                    &&& final(contexts)@ == old(contexts)@.insert(context)
                    &&& final(self).state == old(self).state
                    &&& r matches StartAction::Open(log_file) && receives_session(
                        log_file,
                        context,
                        old(self).setup.wide_name@,
                    )
                }
            } else if old(self).enables_next() is Some {
                let provider = old(self).enables_next()->0;
                let control = session_of(old(self).state)->0;
                &&& final(contexts)@ == old(contexts)@
                &&& match evntrace::built_filters(provider@.filters@) {
                    Ok(built) => {
                        &&& final(self).state == old(self).state
                        &&& r matches StartAction::ControlProvider(request) && evntrace::enables(
                            request,
                            control,
                            *provider,
                            built,
                        )
                    },
                    Err(message) => {
                        &&& r == StartAction::Stop(control)
                        &&& final(self).state matches StartState::Stopping {
                            control_handle,
                            error: TraceError::EtwNativeError(
                                EvntraceNativeError::InvalidFilter(m),
                            ),
                        } && control_handle == control && m@ == message
                    },
                }
            } else {
                &&& final(self).state == old(self).state
                &&& old(self).is_plain_action(r)
                &&& final(contexts)@ == old(contexts)@
            },
    {
        proof {
            let providers = self.data.registered();
            plans_open_before_captures(
                self.setup.kind,
                self.setup.stacks(),
                self.setup.groups(),
                providers,
            );
            captures_only(providers);
            tasks_name_providers(
                self.setup.kind,
                self.setup.stacks(),
                self.setup.groups(),
                providers,
                at as int,
            );
        }
        match self.setup.tasks[at] {
            StartTask::StackTracing => {
                match evntrace::enable_stack_tracing(
                    control,
                    self.setup.stack_tracing_events.as_slice(),
                ) {
                    Ok(Some(request)) => StartAction::SetInfo(request),
                    _ => StartAction::Finished,
                }
            },
            StartTask::QueryGroupMask => StartAction::QueryGroupMask(control),
            StartTask::SetGroupMask => {
                match &self.state {
                    StartState::Running { mask, .. } => {
                        match evntrace::set_extended_kernel_groups(
                            control,
                            self.setup.extended_kernel_groups.as_slice(),
                            evntrace::ERROR_SUCCESS,
                            mask.as_slice(),
                        ) {
                            Ok(Some(request)) => StartAction::SetInfo(request),
                            _ => StartAction::Finished,
                        }
                    },
                    _ => StartAction::Finished,
                }
            },
            StartTask::Enable(i) => {
                match evntrace::enable_provider(control, self.data.provider_at(i)) {
                    Ok(request) => StartAction::ControlProvider(request),
                    Err(e) => {
                        self.state = StartState::Stopping {
                            control_handle: control,
                            error: TraceError::EtwNativeError(e),
                        };
                        StartAction::Stop(control)
                    },
                }
            },
            StartTask::Open => {
                let name = copy_units(&self.setup.wide_name);
                match evntrace::open_trace(
                    contexts,
                    self.setup.context,
                    SubscriptionSource::RealTimeSession(name),
                ) {
                    Ok(log_file) => StartAction::Open(log_file),
                    Err(e) => {
                        self.state = StartState::Stopping {
                            control_handle: control,
                            error: TraceError::EtwNativeError(e),
                        };
                        assert(contexts@ =~= old(contexts)@);
                        StartAction::Stop(control)
                    },
                }
            },
            StartTask::Capture(i) => {
                match evntrace::capture_provider_state(control, self.data.provider_at(i)) {
                    Ok(request) => StartAction::ControlProvider(request),
                    Err(_) => StartAction::Finished,
                }
            },
        }
    }

    /// The call that is made next.
    ///
    /// Stopping a session by an invalid name, enabling a provider with a filter
    /// that cannot be built, and attaching a consumer whose context is in use
    /// fail without a call.
    pub fn next(&mut self, contexts: &mut UniqueValidContexts) -> (r: StartAction)
        requires
            old(self).wf(),
        ensures
            final(self).wf(),
            final(self).setup == old(self).setup,
            final(self).data == old(self).data,
            if old(self).state is StopExisting {
                let units = text::utf16_units(old(self).setup.name@);
                &&& final(contexts)@ == old(contexts)@
                &&& if text::is_c_string(units) {
                    &&& final(self).state == old(self).state
                    &&& r matches StartAction::StopByName { name, properties } && name@
                        == text::until_nul(units) && etw_types::describes_session(
                        properties,
                        old(self).setup.stop_identity,
                        text::until_nul(units),
                        None,
                        trace::default_properties(),
                        0,
                    )
                } else {
                    &&& final(self).state == StartState::Failed(TraceError::InvalidTraceName)
                    &&& r == StartAction::Finished
                }
            } else if old(self).opens_next() {
                let context = old(self).setup.context;
                if old(contexts)@.contains(context) {
                    &&& final(contexts)@ == old(contexts)@
                    &&& final(self).state == failing(
                        session_of(old(self).state)->0,
                        None,
                        TraceError::EtwNativeError(EvntraceNativeError::AlreadyExist),
                    )
                    &&& r == StartAction::Stop(session_of(old(self).state)->0)
                } else {
                    &&& final(contexts)@ == old(contexts)@.insert(context)
                    &&& final(self).state == old(self).state
                    &&& r matches StartAction::Open(log_file) && receives_session(
                        log_file,
                        context,
                        old(self).setup.wide_name@,
                    )
                }
            } else if old(self).enables_next() is Some {
                let provider = old(self).enables_next()->0;
                let control = session_of(old(self).state)->0;
                &&& final(contexts)@ == old(contexts)@
                &&& match evntrace::built_filters(provider@.filters@) {
                    Ok(built) => {
                        &&& final(self).state == old(self).state
                        &&& r matches StartAction::ControlProvider(request) && evntrace::enables(
                            request,
                            control,
                            *provider,
                            built,
                        )
                    },
                    Err(message) => {
                        &&& r == StartAction::Stop(control)
                        &&& final(self).state matches StartState::Stopping {
                            control_handle,
                            error: TraceError::EtwNativeError(
                                EvntraceNativeError::InvalidFilter(m),
                            ),
                        } && control_handle == control && m@ == message
                    },
                }
            } else {
                &&& final(self).state == old(self).state
                &&& old(self).is_plain_action(r)
                &&& final(contexts)@ == (match old(self).state {
                    StartState::Closing { .. } => old(contexts)@.remove(old(self).setup.context),
                    _ => old(contexts)@,
                })
            },
    {
        proof {
            let providers = self.data.registered();
            plans_open_before_captures(
                self.setup.kind,
                self.setup.stacks(),
                self.setup.groups(),
                providers,
            );
            captures_only(providers);
        }
        match &self.state {
            StartState::StopExisting => match text::wide_c_string(self.setup.name.as_str()) {
                None => {
                    self.state = StartState::Failed(TraceError::InvalidTraceName);
                    StartAction::Finished
                },
                Some(name) => {
                    let properties = EventTraceProperties::new(
                        self.setup.stop_identity,
                        name.as_slice(),
                        None,
                        &TraceProperties::default(),
                        0,
                    );
                    StartAction::StopByName { name, properties }
                },
            },
            StartState::Start => {
                let file = match &self.setup.dump_file {
                    Some(f) => Some(f),
                    None => None,
                };
                StartAction::StartTrace(
                    EventTraceProperties::new(
                        self.setup.identity,
                        self.setup.wide_name.as_slice(),
                        file,
                        &self.setup.properties,
                        self.data.provider_flags(self.setup.kind),
                    ),
                )
            },
            StartState::Running { at, control_handle, consumer, mask } => {
                let control: u64 = *control_handle;
                self.next_task(*at, control, contexts)
            },
            StartState::Closing { control_handle, trace_handle, error } => {
                let handle: u64 = *trace_handle;
                match evntrace::close_trace(contexts, handle, self.setup.context) {
                    Ok(h) => StartAction::Close(h),
                    Err(_) => StartAction::Close(handle),
                }
            },
            StartState::Stopping { control_handle, error } => StartAction::Stop(*control_handle),
            StartState::Done { .. } => StartAction::Finished,
            StartState::Failed(_) => StartAction::Finished,
        }
    }

    /// What the reply of the call leads to.
    pub fn reply(&mut self, reply: NativeReply)
        requires
            old(self).wf(),
            is_reply(old(self).setup.tasks@, old(self).state, reply),
        ensures
            final(self).wf(),
            final(self).setup == old(self).setup,
            final(self).data == old(self).data,
            final(self).state == next_state(old(self).setup.tasks@, old(self).state, reply),
    {
        let count: usize = self.setup.tasks.len();
        proof {
            let providers = self.data.registered();
            let open = open_index(
                self.setup.kind,
                self.setup.stacks(),
                self.setup.groups(),
                providers,
            );
            plans_open_before_captures(
                self.setup.kind,
                self.setup.stacks(),
                self.setup.groups(),
                providers,
            );
            assert(count == self.setup.tasks@.len());
            states_stay_possible(self.setup.tasks@, open, self.state, reply);
        }
        let mut state = StartState::Start;
        std::mem::swap(&mut state, &mut self.state);
        let status: u32 = reply.status;
        self.state = match state {
            StartState::StopExisting => match stopped_by_name(status) {
                Ok(()) => StartState::Start,
                Err(e) => StartState::Failed(e),
            },
            StartState::Start => match evntrace::start_trace(status, reply.handle) {
                Ok(control_handle) => StartState::Running {
                    at: 0,
                    control_handle,
                    consumer: None,
                    mask: reply.data,
                },
                Err(e) => StartState::Failed(TraceError::EtwNativeError(e)),
            },
            StartState::Running { at, control_handle, consumer, mask } => {
                let task = self.setup.tasks[at];
                if task == StartTask::Open {
                    match evntrace::opened_trace(reply.handle, reply.last_error) {
                        Ok(handle) => after_task(count, at, control_handle, Some(handle), mask),
                        Err(e) => after_failure(
                            control_handle,
                            consumer,
                            TraceError::EtwNativeError(e),
                        ),
                    }
                } else {
                    match evntrace::win32_result(status) {
                        Err(e) => after_failure(
                            control_handle,
                            consumer,
                            TraceError::EtwNativeError(e),
                        ),
                        Ok(()) => {
                            let mask = if task == StartTask::QueryGroupMask {
                                reply.data
                            } else {
                                mask
                            };
                            after_task(count, at, control_handle, consumer, mask)
                        },
                    }
                }
            },
            StartState::Closing { control_handle, trace_handle, error } => StartState::Stopping {
                control_handle,
                error,
            },
            StartState::Stopping { control_handle, error } => StartState::Failed(error),
            StartState::Done { control_handle, trace_handle } => StartState::Done {
                control_handle,
                trace_handle,
            },
            StartState::Failed(e) => StartState::Failed(e),
        };
    }

    /// The trace, or why it could not be started. `properties` is the description
    /// of the session, as the call that started it left it.
    pub fn finish<T: RealTimeTraceTrait>(self, properties: EventTraceProperties) -> (r: TraceResult<
        (T, RealTimeCallbackData),
    >)
        requires
            self.state is Done || self.state is Failed,
        ensures
            match self.state {
                StartState::Done { control_handle, trace_handle } => r matches Ok(started)
                    && started.0.session() == (Session {
                    properties,
                    control_handle,
                    trace_handle,
                    context: self.setup.context,
                }) && started.0.handle() == trace_handle && started.1 == self.data,
                StartState::Failed(e) => r == Err::<(T, RealTimeCallbackData), TraceError>(e),
                _ => true,
            },
    {
        match self.state {
            StartState::Done { control_handle, trace_handle } => {
                let session = Session {
                    properties,
                    control_handle,
                    trace_handle,
                    context: self.setup.context,
                };
                Ok((T::build(session), self.data))
            },
            StartState::Failed(e) => Err(e),
            _ => Err(TraceError::InvalidTraceName),
        }
    }
}

fn after_task(
    count: usize,
    at: usize,
    control_handle: u64,
    consumer: Option<u64>,
    mask: Vec<u8>,
) -> (r: StartState)
    requires
        at < count,
    ensures
        forall|tasks: Seq<StartTask>| #[trigger]
            tasks.len() == count ==> r == task_done(tasks, at, control_handle, consumer, mask),
{
    if let Some(t) = consumer {
        if at + 1 == count {
            return StartState::Done { control_handle, trace_handle: t };
        }
    }
    StartState::Running { at: at + 1, control_handle, consumer, mask }
}

fn after_failure(control_handle: u64, consumer: Option<u64>, error: TraceError) -> (r: StartState)
    ensures
        r == failing(control_handle, consumer, error),
{
    match consumer {
        Some(t) => StartState::Closing { control_handle, trace_handle: t, error },
        None => StartState::Stopping { control_handle, error },
    }
}

/// What a session is described with to stop it by its name, which is returned as
/// UTF-16 code units.
pub fn stop_trace_by_name(trace_name: &str, identity: SessionIdentity) -> (r: TraceResult<
    (Vec<u16>, EventTraceProperties),
>)
    ensures
        ({
            let units = text::utf16_units(trace_name@);
            if text::is_c_string(units) {
                r matches Ok(stop) && stop.0@ == text::until_nul(units)
                    && etw_types::describes_session(
                    stop.1,
                    identity,
                    text::until_nul(units),
                    None,
                    trace::default_properties(),
                    0,
                )
            } else {
                r == Err::<(Vec<u16>, EventTraceProperties), TraceError>(
                    TraceError::InvalidTraceName,
                )
            }
        }),
{
    match text::wide_c_string(trace_name) {
        None => Err(TraceError::InvalidTraceName),
        Some(name) => {
            let properties = EventTraceProperties::new(
                identity,
                name.as_slice(),
                None,
                &TraceProperties::default(),
                0,
            );
            Ok((name, properties))
        },
    }
}

/// What the reply of the call that stops a session by its name means. A session
/// that does not run is no error: there is nothing to stop.
pub fn stopped_by_name(status: u32) -> (r: TraceResult<()>)
    ensures
        r == (if status == evntrace::ERROR_SUCCESS || status
            == evntrace::ERROR_WMI_INSTANCE_NOT_FOUND {
            Ok(())
        } else {
            Err(os_error(evntrace::hresult(status)))
        }),
{
    if status == evntrace::ERROR_SUCCESS || status == evntrace::ERROR_WMI_INSTANCE_NOT_FOUND {
        Ok(())
    } else {
        Err(TraceError::EtwNativeError(evntrace::win32_error(status)))
    }
}

/// Appends the tasks that ask the providers for their state.
fn push_capture_tasks(tasks: &mut Vec<StartTask>, data: &RealTimeCallbackData)
    ensures
        final(tasks)@ == old(tasks)@ + capture_tasks(data.registered()),
{
    let ghost before = tasks@;
    let ghost providers = data.registered();
    let count: usize = data.provider_count();
    let mut i: usize = 0;
    assert(before + capture_tasks(providers.take(0)) =~= before);
    while i < count
        invariant
            i <= count,
            providers == data.registered(),
            count == providers.len(),
            tasks@ == before + capture_tasks(providers.take(i as int)),
        decreases count - i,
    {
        let ghost now = providers.take(i + 1);
        assert(now.drop_last() =~= providers.take(i as int));
        if data.provider_at(i).requests_capture_state() {
            tasks.push(StartTask::Capture(i));
        }
        assert(tasks@ =~= before + capture_tasks(now));
        i += 1;
    }
    assert(providers.take(i as int) =~= providers);
}

/// The tasks of a session.
fn plan(kind: TraceKind, stacks: bool, groups: bool, data: &RealTimeCallbackData) -> (r: Vec<
    StartTask,
>)
    ensures
        r@ == tasks_of(kind, stacks, groups, data.registered()),
{
    let mut tasks: Vec<StartTask> = Vec::new();
    match kind {
        TraceKind::Kernel => {
            if stacks {
                tasks.push(StartTask::StackTracing);
            }
            if groups {
                tasks.push(StartTask::QueryGroupMask);
                tasks.push(StartTask::SetGroupMask);
            }
            tasks.push(StartTask::Open);
            assert(tasks@ =~= kernel_tasks(stacks, groups));
        },
        TraceKind::User => {
            let count: usize = data.provider_count();
            let mut i: usize = 0;
            while i < count
                invariant
                    i <= count,
                    tasks@ == enable_tasks(i as nat),
                decreases count - i,
            {
                tasks.push(StartTask::Enable(i));
                i += 1;
                assert(tasks@ =~= enable_tasks(i as nat));
            }
            tasks.push(StartTask::Open);
            push_capture_tasks(&mut tasks, data);
            assert(tasks@ =~= user_tasks(data.registered()));
        },
    }
    tasks
}

impl<T: RealTimeTraceTrait> TraceBuilder<T> {
    /// Whether `setup` holds the settings of this builder.
    pub open spec fn is_setup(self, setup: StartSetup, platform: Platform, context: u64) -> bool {
        &&& setup.kind == T::kind()
        &&& setup.name == self.name
        &&& setup.wide_name@ == wide_name(self.name@)
        &&& T::kind().is_identity(setup.identity, platform)
        &&& TraceKind::User.is_identity(setup.stop_identity, platform)
        &&& is_dump_file(setup.dump_file, self.etl_dump_file)
        &&& setup.properties == self.properties
        &&& setup.stack_tracing_events == self.stack_tracing_events
        &&& setup.extended_kernel_groups == self.extended_kernel_groups
        &&& setup.context == context
        &&& setup.tasks@ == tasks_of(
            T::kind(),
            self.stack_tracing_events@.len() > 0,
            self.extended_kernel_groups@.len() > 0,
            self.rt_callback_data.registered(),
        )
    }

    /// Starts the trace: nothing is done yet. `context` is handed back with every
    /// event.
    pub fn start(self, platform: Platform, context: u64) -> (r: StartingTrace)
        ensures
            r.wf(),
            self.is_setup(r.setup, platform, context),
            r.data == self.rt_callback_data,
            r.state == (if self.stop_if_exist {
                StartState::StopExisting
            } else {
                StartState::Start
            }),
    {
        let kind = T::trace_kind();
        let tasks = plan(
            kind,
            self.stack_tracing_events.len() > 0,
            self.extended_kernel_groups.len() > 0,
            &self.rt_callback_data,
        );
        let setup = StartSetup {
            kind,
            wide_name: wide_trace_name(self.name.as_str()),
            name: self.name,
            identity: kind.identity(platform),
            stop_identity: TraceKind::User.identity(platform),
            dump_file: dump_file(self.etl_dump_file),
            properties: self.properties,
            stack_tracing_events: self.stack_tracing_events,
            extended_kernel_groups: self.extended_kernel_groups,
            context,
            tasks,
        };
        let state = if self.stop_if_exist {
            StartState::StopExisting
        } else {
            StartState::Start
        };
        StartingTrace { setup, data: self.rt_callback_data, state }
    }

    /// What `OpenTraceW` is called with to receive the events of a session that is
    /// not ours.
    pub fn open_existing(&self, contexts: &mut UniqueValidContexts, context: u64) -> (r:
        TraceResult<EventTraceLogfile>)
        ensures
            final(contexts)@ == old(contexts)@.insert(context),
            if old(contexts)@.contains(context) {
                r == Err::<EventTraceLogfile, TraceError>(
                    TraceError::EtwNativeError(EvntraceNativeError::AlreadyExist),
                )
            } else {
                r matches Ok(log_file) && receives_session(
                    log_file,
                    context,
                    wide_name(self.name@),
                )
            },
    {
        let name = wide_trace_name(self.name.as_str());
        match evntrace::open_trace(contexts, context, SubscriptionSource::RealTimeSession(name)) {
            Ok(log_file) => Ok(log_file),
            Err(e) => Err(TraceError::EtwNativeError(e)),
        }
    }

    /// The trace of a session that is not ours, given the reply of `OpenTraceW`.
    /// It has no control handle: the session can neither be stopped nor queried.
    pub fn opened_existing(
        self,
        platform: Platform,
        context: u64,
        trace_handle: u64,
        last_error: i32,
    ) -> (r: TraceResult<(T, RealTimeCallbackData)>)
        ensures
            if evntrace::is_invalid_trace_handle(trace_handle) {
                r == Err::<(T, RealTimeCallbackData), TraceError>(os_error(last_error))
            } else {
                r matches Ok(opened) && is_unowned_session(
                    opened.0.session(),
                    self,
                    platform,
                    context,
                    trace_handle,
                ) && opened.1 == self.rt_callback_data
            },
    {
        match evntrace::opened_trace(trace_handle, last_error) {
            Err(e) => Err(TraceError::EtwNativeError(e)),
            Ok(handle) => {
                let ghost builder = self;
                let kind = T::trace_kind();
                let name = wide_trace_name(self.name.as_str());
                let file = dump_file(self.etl_dump_file);
                let file_ref = match &file {
                    Some(f) => Some(f),
                    None => None,
                };
                let identity = kind.identity(platform);
                let properties = EventTraceProperties::new(
                    identity,
                    name.as_slice(),
                    file_ref,
                    &self.properties,
                    self.rt_callback_data.provider_flags(kind),
                );
                let session = Session {
                    properties,
                    control_handle: 0,
                    trace_handle: handle,
                    context,
                };
                assert(is_dump_file(file, builder.etl_dump_file));
                assert(etw_types::describes_session(
                    session.properties,
                    identity,
                    wide_name(builder.name@),
                    file,
                    builder.properties,
                    callback_data::enable_flags(T::kind(), builder.rt_callback_data.registered()),
                ));
                assert(is_unowned_session(session, builder, platform, context, trace_handle));
                Ok((T::build(session), self.rt_callback_data))
            },
        }
    }
}

/// Whether `session` is a session that is not ours.
pub open spec fn is_unowned_session<T: RealTimeTraceTrait>(
    session: Session,
    builder: TraceBuilder<T>,
    platform: Platform,
    context: u64,
    trace_handle: u64,
) -> bool {
    &&& session.control_handle == 0
    &&& session.trace_handle == trace_handle
    &&& session.context == context
    &&& exists|identity: SessionIdentity, file: Option<DumpFile>|
        {
            &&& T::kind().is_identity(identity, platform)
            &&& is_dump_file(file, builder.etl_dump_file)
            &&& #[trigger] etw_types::describes_session(
                session.properties,
                identity,
                wide_name(builder.name@),
                file,
                builder.properties,
                callback_data::enable_flags(T::kind(), builder.rt_callback_data.registered()),
            )
        }
}

/// A builder of a trace that reads a file
#[derive(Debug)]
pub struct FileTraceBuilder {
    /// The path, as UTF-16 code units
    pub etl_file_path: Vec<u16>,
    /// The number of the callback that receives the events
    pub callback: u64,
}

impl FileTrace {
    /// A builder of a trace that reads events from a file.
    pub fn new(path: Vec<u16>, callback: u64) -> (r: FileTraceBuilder)
        ensures
            r.etl_file_path == path,
            r.callback == callback,
    {
        FileTraceBuilder { etl_file_path: path, callback }
    }
}

impl FileTraceBuilder {
    /// What `OpenTraceW` is called with to read the file. The path ends at its
    /// first NUL.
    pub fn start(self, contexts: &mut UniqueValidContexts, context: u64) -> (r: TraceResult<
        EventTraceLogfile,
    >)
        ensures
            final(contexts)@ == old(contexts)@.insert(context),
            if old(contexts)@.contains(context) {
                r == Err::<EventTraceLogfile, TraceError>(
                    TraceError::EtwNativeError(EvntraceNativeError::AlreadyExist),
                )
            } else {
                r matches Ok(log_file) && reads_file(
                    log_file,
                    context,
                    text::until_nul(self.etl_file_path@),
                )
            },
    {
        let path = text::wide_c_string_from_units(self.etl_file_path);
        match evntrace::open_trace(contexts, context, SubscriptionSource::FromFile(path)) {
            Ok(log_file) => Ok(log_file),
            Err(e) => Err(TraceError::EtwNativeError(e)),
        }
    }

    /// The trace that reads the file, given the reply of `OpenTraceW`.
    pub fn opened(context: u64, trace_handle: u64, last_error: i32) -> (r: TraceResult<FileTrace>)
        ensures
            r == (if evntrace::is_invalid_trace_handle(trace_handle) {
                Err(os_error(last_error))
            } else {
                Ok(FileTrace { trace_handle, context })
            }),
    {
        match evntrace::opened_trace(trace_handle, last_error) {
            Ok(handle) => Ok(FileTrace { trace_handle: handle, context }),
            Err(e) => Err(TraceError::EtwNativeError(e)),
        }
    }
}

} // verus!
