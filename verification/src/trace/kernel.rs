//! Settings that only kernel traces have: call stacks of single events, and the
//! fine-grained event groups of the extended group mask.
use vstd::prelude::*;

use crate::guid::GUID;

verus! {

/// The GUID of the kernel's `PerfInfo` events, as a number
pub const PERF_INFO_GUID: u128 = 0xce1dbfb4_137e_4da6_87b0_3f59aa102cbc;

/// A kernel event to collect call stacks for
///
/// Kernel loggers cannot use the per-provider stack trace flag of user traces:
/// stacks are enabled per event, named by its classic GUID and type.
#[derive(Debug, Clone, Copy, PartialEq, Eq, Hash, Structural)]
pub struct StackTracingEvent {
    /// GUID of the kernel provider the event belongs to
    pub event_guid: GUID,
    /// Type (a.k.a. hook id) of the event within its provider
    pub event_type: u8,
}

impl StackTracingEvent {
    /// A stack tracing event from its provider GUID and event type.
    pub fn new(event_guid: GUID, event_type: u8) -> (r: StackTracingEvent)
        ensures
            r.event_guid == event_guid,
            r.event_type == event_type,
    {
        StackTracingEvent { event_guid, event_type }
    }

    /// Syscall entry (`xperf -stackwalk SyscallEnter`)
    pub fn syscall_enter() -> (r: StackTracingEvent)
        ensures
            r.event_guid.value() == PERF_INFO_GUID,
            r.event_type == 46,
    {
        StackTracingEvent::new(GUID::from_u128(PERF_INFO_GUID), 46)
    }

    /// Syscall exit (`xperf -stackwalk SyscallExit`)
    pub fn syscall_exit() -> (r: StackTracingEvent)
        ensures
            r.event_guid.value() == PERF_INFO_GUID,
            r.event_type == 47,
    {
        StackTracingEvent::new(GUID::from_u128(PERF_INFO_GUID), 47)
    }
}

/// A fine-grained kernel event group, enabled through the extended kernel group
/// mask
///
/// Each variant is a `PERF_*` group id of the kernel: the top 3 bits select one
/// of the eight masks of the group mask, the low 29 bits the groups within it.
#[non_exhaustive]
#[derive(Debug, Clone, Copy, PartialEq, Eq, Hash, Structural)]
pub enum ExtendedKernelGroup {
    // Masks[1]
    /// `PERF_MEMORY`
    Memory,
    /// `PERF_FOOTPRINT`
    Footprint,
    /// `PERF_REFSET`
    RefSet,
    /// `PERF_POOL`
    Pool,
    /// `PERF_POOLTRACE`
    PoolTrace,
    /// `PERF_COMPACT_CSWITCH`
    CompactContextSwitch,
    /// `PERF_PMC_PROFILE`
    PmcProfile,
    /// `PERF_PROCESS_INSWAP`
    ProcessInswap,
    /// `PERF_AFFINITY`
    Affinity,
    /// `PERF_PRIORITY`
    Priority,
    /// `PERF_SPINLOCK`
    Spinlock,
    /// `PERF_SYNC_OBJECTS`
    SyncObjects,
    /// `PERF_DPC_QUEUE`
    DpcQueue,
    /// `PERF_MEMINFO`
    MemInfo,
    /// `PERF_CONTMEM_GEN`
    ContiguousMemoryGeneration,
    /// `PERF_SPINLOCK_CNTRS`
    SpinlockCounters,
    /// `PERF_SPININSTR`
    SpinlockInstructions,
    /// `PERF_SESSION` (also known as `PERF_PFSECTION`, same value)
    Session,
    /// `PERF_MEMINFO_WS`
    MemInfoWorkingSet,
    /// `PERF_KERNEL_QUEUE`
    KernelQueue,
    /// `PERF_INTERRUPT_STEER`
    InterruptSteering,
    /// `PERF_SHOULD_YIELD`
    ShouldYield,
    /// `PERF_WS`
    WorkingSet,
    // Masks[2]
    /// `PERF_ANTI_STARVATION`
    AntiStarvation,
    /// `PERF_PROCESS_FREEZE`
    ProcessFreeze,
    /// `PERF_PFN_LIST`
    PfnList,
    /// `PERF_WS_DETAIL`
    WorkingSetDetail,
    /// `PERF_WS_ENTRY`
    WorkingSetEntry,
    /// `PERF_HEAP`
    Heap,
    /// `PERF_UMS`
    Ums,
    /// `PERF_BACKTRACE`
    Backtrace,
    /// `PERF_VULCAN`
    Vulcan,
    /// `PERF_OBJECTS`
    Objects,
    /// `PERF_EVENTS`
    Events,
    /// `PERF_FULLTRACE`
    FullTrace,
    /// `PERF_DFSS`
    Dfss,
    /// `PERF_PREFETCH`
    Prefetch,
    /// `PERF_PROCESSOR_IDLE`
    ProcessorIdle,
    /// `PERF_CPU_CONFIG`
    CpuConfig,
    /// `PERF_TIMER`
    Timer,
    /// `PERF_CLOCK_INTERRUPT`
    ClockInterrupt,
    /// `PERF_LOAD_BALANCER`
    LoadBalancer,
    /// `PERF_CLOCK_TIMER`
    ClockTimer,
    /// `PERF_IDLE_SELECTION`
    IdleSelection,
    /// `PERF_IPI`
    Ipi,
    /// `PERF_IO_TIMER`
    IoTimer,
    /// `PERF_REG_HIVE`
    RegistryHive,
    /// `PERF_REG_NOTIF`
    RegistryNotification,
    /// `PERF_PPM_EXIT_LATENCY`
    PpmExitLatency,
    /// `PERF_WORKER_THREAD`
    WorkerThread,
    // Masks[4]
    /// `PERF_OPTICAL_IO`
    OpticalIo,
    /// `PERF_OPTICAL_IO_INIT`
    OpticalIoInit,
    /// `PERF_DLL_INFO`
    DllInfo,
    /// `PERF_DLL_FLUSH_WS`
    DllFlushWorkingSet,
    /// `PERF_OB_HANDLE` (object manager handles)
    ObHandle,
    /// `PERF_OB_OBJECT` (object manager objects)
    ObObject,
    /// `PERF_WAKE_DROP`
    WakeDrop,
    /// `PERF_WAKE_EVENT`
    WakeEvent,
    /// `PERF_DEBUGGER`
    Debugger,
    /// `PERF_PROC_ATTACH`
    ProcessAttach,
    /// `PERF_WAKE_COUNTER`
    WakeCounter,
    /// `PERF_POWER`
    Power,
    /// `PERF_SOFT_TRIM`
    SoftTrim,
    /// `PERF_CC` (cache manager)
    Cc,
    /// `PERF_FLT_IO_INIT` (filter manager)
    FilteredIoInit,
    /// `PERF_FLT_IO`
    FilteredIo,
    /// `PERF_FLT_FASTIO`
    FilteredFastIo,
    /// `PERF_FLT_IO_FAILURE`
    FilteredIoFailure,
    /// `PERF_HV_PROFILE` (hypervisor)
    HvProfile,
    /// `PERF_WDF_DPC` (driver framework)
    WdfDpc,
    /// `PERF_WDF_INTERRUPT`
    WdfInterrupt,
    /// `PERF_CACHE_FLUSH`
    CacheFlush,
    // Masks[5]
    /// `PERF_HIBER_RUNDOWN`
    HibernateRundown,
    // Masks[6]
    /// `PERF_SYSCFG_SYSTEM` (system configuration rundown)
    SysCfgSystem,
    /// `PERF_SYSCFG_GRAPHICS`
    SysCfgGraphics,
    /// `PERF_SYSCFG_STORAGE`
    SysCfgStorage,
    /// `PERF_SYSCFG_NETWORK`
    SysCfgNetwork,
    /// `PERF_SYSCFG_SERVICES`
    SysCfgServices,
    /// `PERF_SYSCFG_PNP`
    SysCfgPnp,
    /// `PERF_SYSCFG_OPTICAL`
    SysCfgOptical,
    /// `PERF_SYSCFG_ALL`: all system configuration groups
    SysCfgAll,
    // Masks[7] - control flags, they change system behavior
    /// `PERF_CLUSTER_OFF`
    ClusterOff,
    /// `PERF_MEMORY_CONTROL`
    MemoryControl,
}

impl ExtendedKernelGroup {
    /// The `PERF_*` group id of each group.
    pub open spec fn id(self) -> u32 {
        match self {
            ExtendedKernelGroup::Memory => 0x2000_0001,
            ExtendedKernelGroup::Footprint => 0x2000_0008,
            ExtendedKernelGroup::RefSet => 0x2000_0020,
            ExtendedKernelGroup::Pool => 0x2000_0040,
            ExtendedKernelGroup::PoolTrace => 0x2000_0041,
            ExtendedKernelGroup::CompactContextSwitch => 0x2000_0100,
            ExtendedKernelGroup::PmcProfile => 0x2000_0400,
            ExtendedKernelGroup::ProcessInswap => 0x2000_0800,
            ExtendedKernelGroup::Affinity => 0x2000_1000,
            ExtendedKernelGroup::Priority => 0x2000_2000,
            ExtendedKernelGroup::Spinlock => 0x2001_0000,
            ExtendedKernelGroup::SyncObjects => 0x2002_0000,
            ExtendedKernelGroup::DpcQueue => 0x2004_0000,
            ExtendedKernelGroup::MemInfo => 0x2008_0000,
            ExtendedKernelGroup::ContiguousMemoryGeneration => 0x2010_0000,
            ExtendedKernelGroup::SpinlockCounters => 0x2020_0000,
            ExtendedKernelGroup::SpinlockInstructions => 0x2021_0000,
            ExtendedKernelGroup::Session => 0x2040_0000,
            ExtendedKernelGroup::MemInfoWorkingSet => 0x2080_0000,
            ExtendedKernelGroup::KernelQueue => 0x2100_0000,
            ExtendedKernelGroup::InterruptSteering => 0x2200_0000,
            ExtendedKernelGroup::ShouldYield => 0x2400_0000,
            ExtendedKernelGroup::WorkingSet => 0x2800_0000,
            ExtendedKernelGroup::AntiStarvation => 0x4000_0001,
            ExtendedKernelGroup::ProcessFreeze => 0x4000_0002,
            ExtendedKernelGroup::PfnList => 0x4000_0004,
            ExtendedKernelGroup::WorkingSetDetail => 0x4000_0008,
            ExtendedKernelGroup::WorkingSetEntry => 0x4000_0010,
            ExtendedKernelGroup::Heap => 0x4000_0020,
            ExtendedKernelGroup::Ums => 0x4000_0080,
            ExtendedKernelGroup::Backtrace => 0x4000_0100,
            ExtendedKernelGroup::Vulcan => 0x4000_0200,
            ExtendedKernelGroup::Objects => 0x4000_0400,
            ExtendedKernelGroup::Events => 0x4000_0800,
            ExtendedKernelGroup::FullTrace => 0x4000_1000,
            ExtendedKernelGroup::Dfss => 0x4000_2000,
            ExtendedKernelGroup::Prefetch => 0x4000_4000,
            ExtendedKernelGroup::ProcessorIdle => 0x4000_8000,
            ExtendedKernelGroup::CpuConfig => 0x4001_0000,
            ExtendedKernelGroup::Timer => 0x4002_0000,
            ExtendedKernelGroup::ClockInterrupt => 0x4004_0000,
            ExtendedKernelGroup::LoadBalancer => 0x4008_0000,
            ExtendedKernelGroup::ClockTimer => 0x4010_0000,
            ExtendedKernelGroup::IdleSelection => 0x4020_0000,
            ExtendedKernelGroup::Ipi => 0x4040_0000,
            ExtendedKernelGroup::IoTimer => 0x4080_0000,
            ExtendedKernelGroup::RegistryHive => 0x4100_0000,
            ExtendedKernelGroup::RegistryNotification => 0x4200_0000,
            ExtendedKernelGroup::PpmExitLatency => 0x4400_0000,
            ExtendedKernelGroup::WorkerThread => 0x4800_0000,
            ExtendedKernelGroup::OpticalIo => 0x8000_0001,
            ExtendedKernelGroup::OpticalIoInit => 0x8000_0002,
            ExtendedKernelGroup::DllInfo => 0x8000_0008,
            ExtendedKernelGroup::DllFlushWorkingSet => 0x8000_0010,
            ExtendedKernelGroup::ObHandle => 0x8000_0040,
            ExtendedKernelGroup::ObObject => 0x8000_0080,
            ExtendedKernelGroup::WakeDrop => 0x8000_0200,
            ExtendedKernelGroup::WakeEvent => 0x8000_0400,
            ExtendedKernelGroup::Debugger => 0x8000_0800,
            ExtendedKernelGroup::ProcessAttach => 0x8000_1000,
            ExtendedKernelGroup::WakeCounter => 0x8000_2000,
            ExtendedKernelGroup::Power => 0x8000_8000,
            ExtendedKernelGroup::SoftTrim => 0x8001_0000,
            ExtendedKernelGroup::Cc => 0x8002_0000,
            ExtendedKernelGroup::FilteredIoInit => 0x8008_0000,
            ExtendedKernelGroup::FilteredIo => 0x8010_0000,
            ExtendedKernelGroup::FilteredFastIo => 0x8020_0000,
            ExtendedKernelGroup::FilteredIoFailure => 0x8040_0000,
            ExtendedKernelGroup::HvProfile => 0x8080_0000,
            ExtendedKernelGroup::WdfDpc => 0x8100_0000,
            ExtendedKernelGroup::WdfInterrupt => 0x8200_0000,
            ExtendedKernelGroup::CacheFlush => 0x8400_0000,
            ExtendedKernelGroup::HibernateRundown => 0xa000_0001,
            ExtendedKernelGroup::SysCfgSystem => 0xc000_0001,
            ExtendedKernelGroup::SysCfgGraphics => 0xc000_0002,
            ExtendedKernelGroup::SysCfgStorage => 0xc000_0004,
            ExtendedKernelGroup::SysCfgNetwork => 0xc000_0008,
            ExtendedKernelGroup::SysCfgServices => 0xc000_0010,
            ExtendedKernelGroup::SysCfgPnp => 0xc000_0020,
            ExtendedKernelGroup::SysCfgOptical => 0xc000_0040,
            ExtendedKernelGroup::SysCfgAll => 0xdfff_ffff,
            ExtendedKernelGroup::ClusterOff => 0xe000_0001,
            ExtendedKernelGroup::MemoryControl => 0xe000_0002,
        }
    }

    /// The raw `PERF_*` group id, as consumed by the extended group mask.
    pub fn group_id(self) -> (r: u32)
        ensures
            r == self.id(),
    {
        match self {
            ExtendedKernelGroup::Memory => 0x2000_0001,
            ExtendedKernelGroup::Footprint => 0x2000_0008,
            ExtendedKernelGroup::RefSet => 0x2000_0020,
            ExtendedKernelGroup::Pool => 0x2000_0040,
            ExtendedKernelGroup::PoolTrace => 0x2000_0041,
            ExtendedKernelGroup::CompactContextSwitch => 0x2000_0100,
            ExtendedKernelGroup::PmcProfile => 0x2000_0400,
            ExtendedKernelGroup::ProcessInswap => 0x2000_0800,
            ExtendedKernelGroup::Affinity => 0x2000_1000,
            ExtendedKernelGroup::Priority => 0x2000_2000,
            ExtendedKernelGroup::Spinlock => 0x2001_0000,
            ExtendedKernelGroup::SyncObjects => 0x2002_0000,
            ExtendedKernelGroup::DpcQueue => 0x2004_0000,
            ExtendedKernelGroup::MemInfo => 0x2008_0000,
            ExtendedKernelGroup::ContiguousMemoryGeneration => 0x2010_0000,
            ExtendedKernelGroup::SpinlockCounters => 0x2020_0000,
            ExtendedKernelGroup::SpinlockInstructions => 0x2021_0000,
            ExtendedKernelGroup::Session => 0x2040_0000,
            ExtendedKernelGroup::MemInfoWorkingSet => 0x2080_0000,
            ExtendedKernelGroup::KernelQueue => 0x2100_0000,
            ExtendedKernelGroup::InterruptSteering => 0x2200_0000,
            ExtendedKernelGroup::ShouldYield => 0x2400_0000,
            ExtendedKernelGroup::WorkingSet => 0x2800_0000,
            ExtendedKernelGroup::AntiStarvation => 0x4000_0001,
            ExtendedKernelGroup::ProcessFreeze => 0x4000_0002,
            ExtendedKernelGroup::PfnList => 0x4000_0004,
            ExtendedKernelGroup::WorkingSetDetail => 0x4000_0008,
            ExtendedKernelGroup::WorkingSetEntry => 0x4000_0010,
            ExtendedKernelGroup::Heap => 0x4000_0020,
            ExtendedKernelGroup::Ums => 0x4000_0080,
            ExtendedKernelGroup::Backtrace => 0x4000_0100,
            ExtendedKernelGroup::Vulcan => 0x4000_0200,
            ExtendedKernelGroup::Objects => 0x4000_0400,
            ExtendedKernelGroup::Events => 0x4000_0800,
            ExtendedKernelGroup::FullTrace => 0x4000_1000,
            ExtendedKernelGroup::Dfss => 0x4000_2000,
            ExtendedKernelGroup::Prefetch => 0x4000_4000,
            ExtendedKernelGroup::ProcessorIdle => 0x4000_8000,
            ExtendedKernelGroup::CpuConfig => 0x4001_0000,
            ExtendedKernelGroup::Timer => 0x4002_0000,
            ExtendedKernelGroup::ClockInterrupt => 0x4004_0000,
            ExtendedKernelGroup::LoadBalancer => 0x4008_0000,
            ExtendedKernelGroup::ClockTimer => 0x4010_0000,
            ExtendedKernelGroup::IdleSelection => 0x4020_0000,
            ExtendedKernelGroup::Ipi => 0x4040_0000,
            ExtendedKernelGroup::IoTimer => 0x4080_0000,
            ExtendedKernelGroup::RegistryHive => 0x4100_0000,
            ExtendedKernelGroup::RegistryNotification => 0x4200_0000,
            ExtendedKernelGroup::PpmExitLatency => 0x4400_0000,
            ExtendedKernelGroup::WorkerThread => 0x4800_0000,
            ExtendedKernelGroup::OpticalIo => 0x8000_0001,
            ExtendedKernelGroup::OpticalIoInit => 0x8000_0002,
            ExtendedKernelGroup::DllInfo => 0x8000_0008,
            ExtendedKernelGroup::DllFlushWorkingSet => 0x8000_0010,
            ExtendedKernelGroup::ObHandle => 0x8000_0040,
            ExtendedKernelGroup::ObObject => 0x8000_0080,
            ExtendedKernelGroup::WakeDrop => 0x8000_0200,
            ExtendedKernelGroup::WakeEvent => 0x8000_0400,
            ExtendedKernelGroup::Debugger => 0x8000_0800,
            ExtendedKernelGroup::ProcessAttach => 0x8000_1000,
            ExtendedKernelGroup::WakeCounter => 0x8000_2000,
            ExtendedKernelGroup::Power => 0x8000_8000,
            ExtendedKernelGroup::SoftTrim => 0x8001_0000,
            ExtendedKernelGroup::Cc => 0x8002_0000,
            ExtendedKernelGroup::FilteredIoInit => 0x8008_0000,
            ExtendedKernelGroup::FilteredIo => 0x8010_0000,
            ExtendedKernelGroup::FilteredFastIo => 0x8020_0000,
            ExtendedKernelGroup::FilteredIoFailure => 0x8040_0000,
            ExtendedKernelGroup::HvProfile => 0x8080_0000,
            ExtendedKernelGroup::WdfDpc => 0x8100_0000,
            ExtendedKernelGroup::WdfInterrupt => 0x8200_0000,
            ExtendedKernelGroup::CacheFlush => 0x8400_0000,
            ExtendedKernelGroup::HibernateRundown => 0xa000_0001,
            ExtendedKernelGroup::SysCfgSystem => 0xc000_0001,
            ExtendedKernelGroup::SysCfgGraphics => 0xc000_0002,
            ExtendedKernelGroup::SysCfgStorage => 0xc000_0004,
            ExtendedKernelGroup::SysCfgNetwork => 0xc000_0008,
            ExtendedKernelGroup::SysCfgServices => 0xc000_0010,
            ExtendedKernelGroup::SysCfgPnp => 0xc000_0020,
            ExtendedKernelGroup::SysCfgOptical => 0xc000_0040,
            ExtendedKernelGroup::SysCfgAll => 0xdfff_ffff,
            ExtendedKernelGroup::ClusterOff => 0xe000_0001,
            ExtendedKernelGroup::MemoryControl => 0xe000_0002,
        }
    }
}

/// No two groups share an id.
pub proof fn group_ids_are_distinct(a: ExtendedKernelGroup, b: ExtendedKernelGroup)
    requires
        a.id() == b.id(),
    ensures
        a == b,
{
}

/// The number of the mask each group is in, and its bits in this mask.
pub proof fn groups_have_their_mask_and_bits(g: ExtendedKernelGroup)
    ensures
        g is Memory ==> g.id() == 1 * 0x2000_0000 + 0x1,
        g is Footprint ==> g.id() == 1 * 0x2000_0000 + 0x8,
        g is RefSet ==> g.id() == 1 * 0x2000_0000 + 0x20,
        g is Pool ==> g.id() == 1 * 0x2000_0000 + 0x40,
        g is PoolTrace ==> g.id() == 1 * 0x2000_0000 + 0x41,
        g is CompactContextSwitch ==> g.id() == 1 * 0x2000_0000 + 0x100,
        g is PmcProfile ==> g.id() == 1 * 0x2000_0000 + 0x400,
        g is ProcessInswap ==> g.id() == 1 * 0x2000_0000 + 0x800,
        g is Affinity ==> g.id() == 1 * 0x2000_0000 + 0x1000,
        g is Priority ==> g.id() == 1 * 0x2000_0000 + 0x2000,
        g is Spinlock ==> g.id() == 1 * 0x2000_0000 + 0x1_0000,
        g is SyncObjects ==> g.id() == 1 * 0x2000_0000 + 0x2_0000,
        g is DpcQueue ==> g.id() == 1 * 0x2000_0000 + 0x4_0000,
        g is MemInfo ==> g.id() == 1 * 0x2000_0000 + 0x8_0000,
        g is ContiguousMemoryGeneration ==> g.id() == 1 * 0x2000_0000 + 0x10_0000,
        g is SpinlockCounters ==> g.id() == 1 * 0x2000_0000 + 0x20_0000,
        g is SpinlockInstructions ==> g.id() == 1 * 0x2000_0000 + 0x21_0000,
        g is Session ==> g.id() == 1 * 0x2000_0000 + 0x40_0000,
        g is MemInfoWorkingSet ==> g.id() == 1 * 0x2000_0000 + 0x80_0000,
        g is KernelQueue ==> g.id() == 1 * 0x2000_0000 + 0x100_0000,
        g is InterruptSteering ==> g.id() == 1 * 0x2000_0000 + 0x200_0000,
        g is ShouldYield ==> g.id() == 1 * 0x2000_0000 + 0x400_0000,
        g is WorkingSet ==> g.id() == 1 * 0x2000_0000 + 0x800_0000,
        g is AntiStarvation ==> g.id() == 2 * 0x2000_0000 + 0x1,
        g is ProcessFreeze ==> g.id() == 2 * 0x2000_0000 + 0x2,
        g is PfnList ==> g.id() == 2 * 0x2000_0000 + 0x4,
        g is WorkingSetDetail ==> g.id() == 2 * 0x2000_0000 + 0x8,
        g is WorkingSetEntry ==> g.id() == 2 * 0x2000_0000 + 0x10,
        g is Heap ==> g.id() == 2 * 0x2000_0000 + 0x20,
        g is Ums ==> g.id() == 2 * 0x2000_0000 + 0x80,
        g is Backtrace ==> g.id() == 2 * 0x2000_0000 + 0x100,
        g is Vulcan ==> g.id() == 2 * 0x2000_0000 + 0x200,
        g is Objects ==> g.id() == 2 * 0x2000_0000 + 0x400,
        g is Events ==> g.id() == 2 * 0x2000_0000 + 0x800,
        g is FullTrace ==> g.id() == 2 * 0x2000_0000 + 0x1000,
        g is Dfss ==> g.id() == 2 * 0x2000_0000 + 0x2000,
        g is Prefetch ==> g.id() == 2 * 0x2000_0000 + 0x4000,
        g is ProcessorIdle ==> g.id() == 2 * 0x2000_0000 + 0x8000,
        g is CpuConfig ==> g.id() == 2 * 0x2000_0000 + 0x1_0000,
        g is Timer ==> g.id() == 2 * 0x2000_0000 + 0x2_0000,
        g is ClockInterrupt ==> g.id() == 2 * 0x2000_0000 + 0x4_0000,
        g is LoadBalancer ==> g.id() == 2 * 0x2000_0000 + 0x8_0000,
        g is ClockTimer ==> g.id() == 2 * 0x2000_0000 + 0x10_0000,
        g is IdleSelection ==> g.id() == 2 * 0x2000_0000 + 0x20_0000,
        g is Ipi ==> g.id() == 2 * 0x2000_0000 + 0x40_0000,
        g is IoTimer ==> g.id() == 2 * 0x2000_0000 + 0x80_0000,
        g is RegistryHive ==> g.id() == 2 * 0x2000_0000 + 0x100_0000,
        g is RegistryNotification ==> g.id() == 2 * 0x2000_0000 + 0x200_0000,
        g is PpmExitLatency ==> g.id() == 2 * 0x2000_0000 + 0x400_0000,
        g is WorkerThread ==> g.id() == 2 * 0x2000_0000 + 0x800_0000,
        g is OpticalIo ==> g.id() == 4 * 0x2000_0000 + 0x1,
        g is OpticalIoInit ==> g.id() == 4 * 0x2000_0000 + 0x2,
        g is DllInfo ==> g.id() == 4 * 0x2000_0000 + 0x8,
        g is DllFlushWorkingSet ==> g.id() == 4 * 0x2000_0000 + 0x10,
        g is ObHandle ==> g.id() == 4 * 0x2000_0000 + 0x40,
        g is ObObject ==> g.id() == 4 * 0x2000_0000 + 0x80,
        g is WakeDrop ==> g.id() == 4 * 0x2000_0000 + 0x200,
        g is WakeEvent ==> g.id() == 4 * 0x2000_0000 + 0x400,
        g is Debugger ==> g.id() == 4 * 0x2000_0000 + 0x800,
        g is ProcessAttach ==> g.id() == 4 * 0x2000_0000 + 0x1000,
        g is WakeCounter ==> g.id() == 4 * 0x2000_0000 + 0x2000,
        g is Power ==> g.id() == 4 * 0x2000_0000 + 0x8000,
        g is SoftTrim ==> g.id() == 4 * 0x2000_0000 + 0x1_0000,
        g is Cc ==> g.id() == 4 * 0x2000_0000 + 0x2_0000,
        g is FilteredIoInit ==> g.id() == 4 * 0x2000_0000 + 0x8_0000,
        g is FilteredIo ==> g.id() == 4 * 0x2000_0000 + 0x10_0000,
        g is FilteredFastIo ==> g.id() == 4 * 0x2000_0000 + 0x20_0000,
        g is FilteredIoFailure ==> g.id() == 4 * 0x2000_0000 + 0x40_0000,
        g is HvProfile ==> g.id() == 4 * 0x2000_0000 + 0x80_0000,
        g is WdfDpc ==> g.id() == 4 * 0x2000_0000 + 0x100_0000,
        g is WdfInterrupt ==> g.id() == 4 * 0x2000_0000 + 0x200_0000,
        g is CacheFlush ==> g.id() == 4 * 0x2000_0000 + 0x400_0000,
        g is HibernateRundown ==> g.id() == 5 * 0x2000_0000 + 0x1,
        g is SysCfgSystem ==> g.id() == 6 * 0x2000_0000 + 0x1,
        g is SysCfgGraphics ==> g.id() == 6 * 0x2000_0000 + 0x2,
        g is SysCfgStorage ==> g.id() == 6 * 0x2000_0000 + 0x4,
        g is SysCfgNetwork ==> g.id() == 6 * 0x2000_0000 + 0x8,
        g is SysCfgServices ==> g.id() == 6 * 0x2000_0000 + 0x10,
        g is SysCfgPnp ==> g.id() == 6 * 0x2000_0000 + 0x20,
        g is SysCfgOptical ==> g.id() == 6 * 0x2000_0000 + 0x40,
        g is SysCfgAll ==> g.id() == 6 * 0x2000_0000 + 0x1fff_ffff,
        g is ClusterOff ==> g.id() == 7 * 0x2000_0000 + 0x1,
        g is MemoryControl ==> g.id() == 7 * 0x2000_0000 + 0x2,
{
}

} // verus!
