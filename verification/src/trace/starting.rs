//! What starting a trace does: its plan, what its replies lead to, and what of its
//! settings reaches the session.
use std::sync::Arc;

use vstd::prelude::*;

use crate::native::etw_types;
use crate::native::etw_types::{DumpFile, EventTraceLogfile, EventTraceProperties};
use crate::native::evntrace;
use crate::native::evntrace::{EvntraceNativeError, IoError};
use crate::provider::Provider;
use crate::text;
use crate::trace;
use crate::trace::{DumpFileParams, Platform, RealTimeTraceTrait, TraceBuilder, TraceError, TraceKind};
use crate::trace::callback_data;
use crate::trace::start;
use crate::trace::start::{NativeReply, StartAction, StartSetup, StartState, StartTask, StartingTrace};

verus! {

/// The plan of a user session: first each provider is enabled, in the order they
/// were registered, then the consumer is attached, then exactly those providers are
/// asked for their state that want to be.
pub proof fn user_plans(stacks: bool, groups: bool, providers: Seq<Arc<Provider>>, i: int)
    requires
        0 <= i < providers.len() <= usize::MAX,
    ensures
        ({
            let tasks = start::tasks_of(TraceKind::User, stacks, groups, providers);
            let n = providers.len() as int;
            &&& n < tasks.len() <= 2 * n + 1
            &&& tasks[i] == StartTask::Enable(i as usize)
            &&& tasks[n] == StartTask::Open
            &&& providers[i]@.capture_state ==> exists|j: int|
                n < j < tasks.len() && #[trigger] tasks[j] == StartTask::Capture(i as usize)
            &&& !providers[i]@.capture_state ==> forall|j: int|
                0 <= j < tasks.len() ==> #[trigger] tasks[j] != StartTask::Capture(i as usize)
            &&& forall|j: int|
                n < j < tasks.len() ==> (#[trigger] tasks[j] matches StartTask::Capture(p) && p < n)
            &&& forall|j: int, k: int|
                n < j < k < tasks.len() ==> (#[trigger] tasks[j])->Capture_0 < (
                #[trigger] tasks[k])->Capture_0
        }),
{
    let tasks = start::tasks_of(TraceKind::User, stacks, groups, providers);
    let n = providers.len() as int;
    let captures = start::capture_tasks(providers);
    captures_are_those_that_want_to_be(providers);
    assert forall|j: int| n < j < tasks.len() implies #[trigger] tasks[j] == captures[j - n - 1] by {}
    assert forall|j: int| 0 <= j < n implies #[trigger] tasks[j] == StartTask::Enable(
        j as usize,
    ) by {}
    if providers[i]@.capture_state {
        let k = choose|k: int|
            0 <= k < captures.len() && #[trigger] captures[k] == StartTask::Capture(i as usize);
        assert(tasks[n + 1 + k] == StartTask::Capture(i as usize));
    } else {
        assert forall|j: int| 0 <= j < tasks.len() implies #[trigger] tasks[j]
            != StartTask::Capture(i as usize) by {
            if j > n {
                assert(tasks[j] == captures[j - n - 1]);
            }
        }
    }
}

proof fn captures_are_those_that_want_to_be(providers: Seq<Arc<Provider>>)
    requires
        providers.len() <= usize::MAX,
    ensures
        ({
            let captures = start::capture_tasks(providers);
            &&& captures.len() <= providers.len()
            &&& forall|k: int|
                0 <= k < captures.len() ==> (#[trigger] captures[k] matches StartTask::Capture(p)
                    && p < providers.len() && providers[p as int]@.capture_state)
            &&& forall|i: int|
                0 <= i < providers.len() && (#[trigger] providers[i])@.capture_state
                    ==> exists|k: int|
                    0 <= k < captures.len() && #[trigger] captures[k] == StartTask::Capture(
                        i as usize,
                    )
            &&& forall|j: int, k: int|
                0 <= j < k < captures.len() ==> (#[trigger] captures[j])->Capture_0 < (
                #[trigger] captures[k])->Capture_0
        }),
    decreases providers.len(),
{
    if providers.len() > 0 {
        let rest = providers.drop_last();
        let last = providers.len() - 1;
        captures_are_those_that_want_to_be(rest);
        let before = start::capture_tasks(rest);
        let captures = start::capture_tasks(providers);
        assert forall|k: int| 0 <= k < before.len() implies #[trigger] captures[k] == before[k] by {}
        assert forall|k: int| 0 <= k < captures.len() implies (
        #[trigger] captures[k] matches StartTask::Capture(p) && p < providers.len()
            && providers[p as int]@.capture_state) by {
            if k < before.len() {
                assert(before[k] is Capture);
                let p = before[k]->Capture_0;
                assert(rest[p as int] == providers[p as int]);
            } else {
                assert(providers[last] == providers.last());
            }
        }
        assert forall|i: int|
            0 <= i < providers.len() && (#[trigger] providers[i])@.capture_state implies exists|
            k: int,
        |
            0 <= k < captures.len() && #[trigger] captures[k] == StartTask::Capture(
                i as usize,
            ) by {
            if i < last {
                assert(rest[i] == providers[i]);
                let k = choose|k: int|
                    0 <= k < before.len() && #[trigger] before[k] == StartTask::Capture(i as usize);
                assert(captures[k] == StartTask::Capture(i as usize));
            } else {
                assert(captures[before.len() as int] == StartTask::Capture(i as usize));
            }
        }
        assert forall|j: int, k: int| 0 <= j < k < captures.len() implies (
        #[trigger] captures[j])->Capture_0 < (#[trigger] captures[k])->Capture_0 by {
            assert(captures[j] == before[j]);
            assert(before[j] is Capture);
        }
    }
}

/// The plan of a kernel session: stacks are collected and groups merged only where
/// that is asked for, and the consumer is attached last.
pub proof fn kernel_plans(stacks: bool, groups: bool, providers: Seq<Arc<Provider>>)
    ensures
        ({
            let tasks = start::tasks_of(TraceKind::Kernel, stacks, groups, providers);
            let first: int = if stacks {
                1
            } else {
                0
            };
            &&& tasks.len() == first + (if groups {
                2int
            } else {
                0
            }) + 1
            &&& stacks ==> tasks[0] == StartTask::StackTracing
            &&& groups ==> tasks[first] == StartTask::QueryGroupMask && tasks[first + 1]
                == StartTask::SetGroupMask
            &&& tasks[tasks.len() - 1] == StartTask::Open
        }),
{
}

/// The error of a native status.
pub open spec fn is_status_error(error: TraceError, status: u32) -> bool {
    error matches TraceError::EtwNativeError(EvntraceNativeError::IoError(IoError::Os(code)))
        && code == evntrace::hresult(status)
}

/// What becomes of a running session of the same name: whether it was stopped or
/// was not there, the session is started next; otherwise starting fails.
pub proof fn after_stopping_a_running_session(tasks: Seq<StartTask>, reply: NativeReply)
    ensures
        reply.status == 0 || reply.status == 4201 ==> start::next_state(
            tasks,
            StartState::StopExisting,
            reply,
        ) == StartState::Start,
        reply.status != 0 && reply.status != 4201 ==> (start::next_state(
            tasks,
            StartState::StopExisting,
            reply,
        ) matches StartState::Failed(e) && is_status_error(e, reply.status)),
{
}

/// What becomes of starting the session: it runs, without a consumer and with the
/// first task to be done, exactly if the call succeeded and returned a handle.
pub proof fn after_starting_the_session(tasks: Seq<StartTask>, reply: NativeReply)
    requires
        reply.status < 0x1_0000,
    ensures
        ({
            let after = start::next_state(tasks, StartState::Start, reply);
            &&& reply.status == 0 && reply.handle != 0 ==> (after matches StartState::Running {
                at,
                control_handle,
                consumer,
                ..
            } && at == 0 && control_handle == reply.handle && consumer is None)
            &&& reply.status == 0 && reply.handle == 0 ==> after == StartState::Failed(
                TraceError::EtwNativeError(EvntraceNativeError::InvalidHandle),
            )
            &&& reply.status == 183 ==> after == StartState::Failed(
                TraceError::EtwNativeError(EvntraceNativeError::AlreadyExist),
            )
            &&& reply.status != 0 && reply.status != 183 ==> (after matches StartState::Failed(e)
                && is_status_error(e, reply.status))
        }),
{
    evntrace::statuses_are_reported(reply.status, 183);
}

/// What becomes of a task: when it succeeded, the next one is to be done on the
/// same session, or the trace is started if there is no other; when it failed, the
/// session is stopped, and before that its consumer is detached. The consumer is
/// the handle that attaching it returned.
pub proof fn after_a_task(
    tasks: Seq<StartTask>,
    at: usize,
    control: u64,
    consumer: Option<u64>,
    mask: Vec<u8>,
    reply: NativeReply,
)
    requires
        at < tasks.len() <= usize::MAX,
    ensures
        ({
            let state = StartState::Running { at, control_handle: control, consumer, mask };
            let after = start::next_state(tasks, state, reply);
            let opens = tasks[at as int] == StartTask::Open;
            let failed = if opens {
                reply.handle == 0xffff_ffff_ffff_ffff || reply.handle == 0xffff_ffff
            } else {
                reply.status != 0
            };
            let attached = if opens {
                Some(reply.handle)
            } else {
                consumer
            };
            let last = at + 1 == tasks.len();
            &&& !failed && last && attached is Some ==> after == (StartState::Done {
                control_handle: control,
                trace_handle: attached->0,
            })
            &&& !failed && !last ==> (after matches StartState::Running {
                at: next,
                control_handle,
                consumer: now,
                mask: kept,
            } && next == at + 1 && control_handle == control && now == attached && kept == (if tasks[
            at as int] == StartTask::QueryGroupMask {
                reply.data
            } else {
                mask
            }))
            &&& failed && consumer is None ==> (after matches StartState::Stopping {
                control_handle,
                ..
            } && control_handle == control)
            &&& failed && consumer is Some ==> (after matches StartState::Closing {
                control_handle,
                trace_handle,
                ..
            } && control_handle == control && trace_handle == consumer->0)
            &&& failed && opens ==> {
                &&& after matches StartState::Stopping { error, .. } ==> error == start::os_error(
                    reply.last_error,
                )
            }
            &&& failed && !opens ==> {
                &&& after matches StartState::Stopping { error, .. } ==> is_status_error(
                    error,
                    reply.status,
                )
                &&& after matches StartState::Closing { error, .. } ==> is_status_error(
                    error,
                    reply.status,
                )
            }
        }),
{
}

/// The call that is made in each state is the one that belongs to it, on the
/// session, the consumer or the provider it is about.
pub proof fn calls_belong_to_their_state(trace: StartingTrace, action: StartAction)
    requires
        trace.wf(),
        trace.is_plain_action(action),
    ensures
        match trace.state {
            StartState::StopExisting => false,
            StartState::Start => action is StartTrace,
            StartState::Running { at, control_handle, .. } => match trace.setup.tasks@[at as int] {
                StartTask::StackTracing => action matches StartAction::SetInfo(r)
                    && r.control_handle == control_handle && r.class.number() == 3,
                StartTask::QueryGroupMask => action == StartAction::QueryGroupMask(control_handle),
                StartTask::SetGroupMask => action matches StartAction::SetInfo(r)
                    && r.control_handle == control_handle && r.class.number() == 4,
                StartTask::Capture(i) => action matches StartAction::ControlProvider(r)
                    && r.control_handle == control_handle && r.control_code == 2 && r.guid
                    == trace.data.registered()[i as int]@.guid && r.parameters is None,
                StartTask::Enable(_) => false,
                StartTask::Open => false,
            },
            StartState::Closing { trace_handle, .. } => action == StartAction::Close(trace_handle),
            StartState::Stopping { control_handle, .. } => action == StartAction::Stop(
                control_handle,
            ),
            StartState::Done { .. } => action is Finished,
            StartState::Failed(_) => action is Finished,
        },
{
}

/// What a builder was told reaches the session that is started: its name, the bits
/// of the logging mode, the buffers, the clock and the groups of its providers.
pub proof fn settings_reach_the_session<T: RealTimeTraceTrait>(
    builder: TraceBuilder<T>,
    trace: StartingTrace,
    platform: Platform,
    context: u64,
    p: EventTraceProperties,
)
    requires
        builder.is_setup(trace.setup, platform, context),
        trace.data == builder.rt_callback_data,
        trace.state is Start,
        trace.is_plain_action(StartAction::StartTrace(p)),
    ensures
        trace.setup.context == context,
        builder.properties.log_file_mode.bits & p.log_file_mode
            == builder.properties.log_file_mode.bits,
        builder.properties.log_file_mode.bits == 0 ==> p.log_file_mode & 0x1000_0100 == 0x1000_0100,
        builder.properties.log_file_mode.bits != 0 && builder.etl_dump_file is None && (
        T::kind() is User || !platform.is_win8_or_greater) ==> p.log_file_mode
            == builder.properties.log_file_mode.bits,
        T::kind() is Kernel && platform.is_win8_or_greater ==> p.log_file_mode & 0x0200_0000
            == 0x0200_0000,
        builder.etl_dump_file matches Some(f) ==> f.file_logging_mode.bits & p.log_file_mode
            == f.file_logging_mode.bits && (f.max_size matches Some(size) ==> p.maximum_file_size
            == size),
        p.buffer_size == builder.properties.buffer_size,
        p.minimum_buffers == builder.properties.min_buffer,
        p.maximum_buffers == builder.properties.max_buffer,
        T::kind() is User ==> p.enable_flags == 0,
        T::kind() is Kernel ==> forall|i: int|
            0 <= i < builder.rt_callback_data.registered().len() ==> (
            #[trigger] builder.rt_callback_data.registered()[i])@.kernel_flags & p.enable_flags
                == builder.rt_callback_data.registered()[i]@.kernel_flags,
{
    let setup = trace.setup;
    let providers = trace.data.registered();
    let flags = callback_data::enable_flags(setup.kind, providers);
    etw_types::logging_modes_are_kept(
        p,
        setup.identity,
        setup.wide_name@,
        setup.dump_file,
        setup.properties,
        flags,
    );
    etw_types::settings_are_kept(
        p,
        setup.identity,
        setup.wide_name@,
        setup.dump_file,
        setup.properties,
        flags,
    );
    trace::sessions_have_their_identity(setup.kind, platform, setup.identity);
    callback_data::kernel_sessions_enable_the_groups_of_their_providers(providers, 0);
    let all = p.log_file_mode;
    assert(0x0200_0000u32 & all == all & 0x0200_0000u32) by (bit_vector);
}

/// The name of a session: its UTF-16 code units up to the first NUL, at most 200 of
/// them.
pub proof fn names_are_cut(name: Seq<char>)
    ensures
        start::wide_name(name).len() <= 200,
        start::wide_name(name).len() <= text::utf16_units(name).len(),
        forall|i: int|
            0 <= i < start::wide_name(name).len() ==> #[trigger] start::wide_name(name)[i]
                == text::utf16_units(name)[i] && start::wide_name(name)[i] != 0,
        !name.contains('\0') && text::utf16_units(name).len() <= 200 ==> start::wide_name(name)
            == text::utf16_units(name),
        !name.contains('\0') && text::utf16_units(name).len() > 200 ==> start::wide_name(
            name,
        ).len() == 200,
{
    let units = text::utf16_units(name);
    text::first_index_properties(units, 0);
    if !name.contains('\0') {
        text::no_nul_units(name);
        text::first_index_is(units, 0, units.len() as int);
        assert(text::until_nul(units) =~= units);
    }
}

/// A dump file has the mode and the maximum size it was asked for, and its path up
/// to the first NUL, at most 200 code units of it.
pub proof fn dump_files_are_kept(file: Option<DumpFile>, params: Option<DumpFileParams>)
    requires
        start::is_dump_file(file, params),
    ensures
        file is Some <==> params is Some,
        file matches Some(f) ==> {
            let asked = params->0;
            &&& f.mode == asked.file_logging_mode
            &&& f.max_size == asked.max_size
            &&& f.path@.len() <= 200
            &&& f.path@.len() <= asked.file_path@.len()
            &&& forall|i: int|
                0 <= i < f.path@.len() ==> #[trigger] f.path@[i] == asked.file_path@[i]
                    && f.path@[i] != 0
            &&& asked.file_path@.len() <= 200 && !asked.file_path@.contains(0) ==> f.path@
                == asked.file_path@
        },
{
    if let Some(asked) = params {
        let units = asked.file_path@;
        text::first_index_properties(units, 0);
        if !units.contains(0) {
            text::first_index_is(units, 0, units.len() as int);
            assert(text::until_nul(units) =~= units);
        }
    }
}

/// A real-time trace is opened by the name of its session, a file trace by its
/// path. Both hand events over one by one, with the context they were given.
pub proof fn traces_are_opened_by_their_source(
    log_file: EventTraceLogfile,
    context: u64,
    source: Seq<u16>,
)
    ensures
        start::receives_session(log_file, context, source) ==> {
            &&& log_file.context == context
            &&& log_file.logger_name matches Some(n) && n@ == source
            &&& log_file.log_file_name is None
            &&& log_file.process_trace_mode == 0x1000_0100
        },
        start::reads_file(log_file, context, source) ==> {
            &&& log_file.context == context
            &&& log_file.log_file_name matches Some(n) && n@ == source
            &&& log_file.logger_name is None
            &&& log_file.process_trace_mode == 0x1000_0000
        },
{
    assert(0x100u32 | 0x1000_0000u32 == 0x1000_0100u32) by (bit_vector);
}

/// All that a builder was told is in the setup of its trace.
pub proof fn setups_hold_what_the_builder_was_told<T: RealTimeTraceTrait>(
    builder: TraceBuilder<T>,
    setup: StartSetup,
    platform: Platform,
    context: u64,
)
    requires
        builder.is_setup(setup, platform, context),
    ensures
        setup.kind == T::kind(),
        setup.context == context,
        setup.name@ == builder.name@,
        setup.properties == builder.properties,
        setup.stack_tracing_events@ == builder.stack_tracing_events@,
        setup.extended_kernel_groups@ == builder.extended_kernel_groups@,
        setup.dump_file is Some <==> builder.etl_dump_file is Some,
        T::kind() is Kernel ==> (setup.tasks@[0] == StartTask::StackTracing
            <==> builder.stack_tracing_events@.len() > 0),
        T::kind() is Kernel ==> (setup.tasks@.contains(StartTask::SetGroupMask)
            <==> builder.extended_kernel_groups@.len() > 0),
        T::kind() is User ==> setup.tasks@[builder.rt_callback_data.registered().len() as int]
            == StartTask::Open,
{
    let stacks = builder.stack_tracing_events@.len() > 0;
    let groups = builder.extended_kernel_groups@.len() > 0;
    kernel_plans(stacks, groups, builder.rt_callback_data.registered());
    if T::kind() is Kernel && groups {
        let first: int = if stacks {
            1
        } else {
            0
        };
        assert(setup.tasks@[first + 1] == StartTask::SetGroupMask);
    }
}

/// A session that is not ours cannot be controlled, but is received by its handle.
pub proof fn sessions_of_others_are_only_received<T: RealTimeTraceTrait>(
    session: trace::Session,
    builder: TraceBuilder<T>,
    platform: Platform,
    context: u64,
    trace_handle: u64,
)
    requires
        start::is_unowned_session(session, builder, platform, context, trace_handle),
    ensures
        session.trace_handle == trace_handle,
        session.context == context,
        session.control_handle == 0,
        trace::control_handle_of(session) is Err,
{
}

} // verus!
