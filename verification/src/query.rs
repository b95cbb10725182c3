//! The generic query system: every model can be asked for a `Field` by a
//! structural `FieldId` path, and lists of models can be sorted by any such
//! path.
//!
//! A `FieldId` either names a scalar leaf, or names a sub-model and carries a
//! nested id for it (a subquery), or carries an index into an ordered
//! collection plus a nested id. An absent sub-model absorbs the whole query
//! into `None`.

use crate::cgroup::{
    CgroupCpuModel, CgroupIoModel, CgroupMemoryModel, CgroupModel, CgroupPressureModel,
};
use crate::field::{field_cmp, field_cmp_spec, Field};
use crate::process::{
    ProcessCpuModel, ProcessIoModel, ProcessMemoryModel, SingleProcessModel,
};
use core::cmp::Ordering;
use vstd::prelude::*;

verus! {

/// Each model is composed of fields and, optionally, sub-models. A `Queriable`
/// model answers for any `Field` in its hierarchy, addressed by a `FieldId`
/// value; `query_spec` is the mathematical account that `query` is held to.
pub trait Queriable: Sized {
    type FieldId;

    spec fn query_spec(&self, field_id: Self::FieldId) -> Option<Field>;

    fn query(&self, field_id: &Self::FieldId) -> (r: Option<Field>)
        ensures
            r == self.query_spec(*field_id),
    ;
}

/// Marker trait binding a `FieldId` type back to the model it addresses.
pub trait FieldId: Sized {
    type Queriable;
}

/// Models that stand for a node in a tree expose their depth, so a consumer
/// can render indentation without walking the tree again.
pub trait Recursive {
    spec fn depth_spec(&self) -> nat;

    fn get_depth(&self) -> (r: usize)
        ensures
            r == self.depth_spec(),
    ;
}

/// Addresses one scalar of a cgroup CPU model.
#[derive(Clone, Debug, PartialEq, Eq)]
pub enum CgroupCpuModelFieldId {
    UsagePct,
    UserPct,
    SystemPct,
    NrPeriodsPerSec,
    NrThrottledPerSec,
    ThrottledPct,
}

impl Queriable for CgroupCpuModel {
    type FieldId = CgroupCpuModelFieldId;

    open spec fn query_spec(&self, field_id: CgroupCpuModelFieldId) -> Option<Field> {
        match field_id {
                CgroupCpuModelFieldId::UsagePct => match self.usage_pct { Some(v) => Some(Field::Milli(v)), None => None },
                CgroupCpuModelFieldId::UserPct => match self.user_pct { Some(v) => Some(Field::Milli(v)), None => None },
                CgroupCpuModelFieldId::SystemPct => match self.system_pct { Some(v) => Some(Field::Milli(v)), None => None },
                CgroupCpuModelFieldId::NrPeriodsPerSec => match self.nr_periods_per_sec { Some(v) => Some(Field::Milli(v)), None => None },
                CgroupCpuModelFieldId::NrThrottledPerSec => match self.nr_throttled_per_sec { Some(v) => Some(Field::Milli(v)), None => None },
                CgroupCpuModelFieldId::ThrottledPct => match self.throttled_pct { Some(v) => Some(Field::Milli(v)), None => None },
        }
    }

    fn query(&self, field_id: &CgroupCpuModelFieldId) -> (r: Option<Field>)
        ensures
            r == self.query_spec(*field_id),
    {
        match field_id {
                CgroupCpuModelFieldId::UsagePct => match self.usage_pct { Some(v) => Some(Field::Milli(v)), None => None },
                CgroupCpuModelFieldId::UserPct => match self.user_pct { Some(v) => Some(Field::Milli(v)), None => None },
                CgroupCpuModelFieldId::SystemPct => match self.system_pct { Some(v) => Some(Field::Milli(v)), None => None },
                CgroupCpuModelFieldId::NrPeriodsPerSec => match self.nr_periods_per_sec { Some(v) => Some(Field::Milli(v)), None => None },
                CgroupCpuModelFieldId::NrThrottledPerSec => match self.nr_throttled_per_sec { Some(v) => Some(Field::Milli(v)), None => None },
                CgroupCpuModelFieldId::ThrottledPct => match self.throttled_pct { Some(v) => Some(Field::Milli(v)), None => None },
        }
    }
}

/// Addresses one scalar of a cgroup I/O model.
#[derive(Clone, Debug, PartialEq, Eq)]
pub enum CgroupIoModelFieldId {
    RbytesPerSec,
    WbytesPerSec,
    RiosPerSec,
    WiosPerSec,
    DbytesPerSec,
    DiosPerSec,
    RwbytesPerSec,
}

impl Queriable for CgroupIoModel {
    type FieldId = CgroupIoModelFieldId;

    open spec fn query_spec(&self, field_id: CgroupIoModelFieldId) -> Option<Field> {
        match field_id {
                CgroupIoModelFieldId::RbytesPerSec => match self.rbytes_per_sec { Some(v) => Some(Field::Milli(v)), None => None },
                CgroupIoModelFieldId::WbytesPerSec => match self.wbytes_per_sec { Some(v) => Some(Field::Milli(v)), None => None },
                CgroupIoModelFieldId::RiosPerSec => match self.rios_per_sec { Some(v) => Some(Field::Milli(v)), None => None },
                CgroupIoModelFieldId::WiosPerSec => match self.wios_per_sec { Some(v) => Some(Field::Milli(v)), None => None },
                CgroupIoModelFieldId::DbytesPerSec => match self.dbytes_per_sec { Some(v) => Some(Field::Milli(v)), None => None },
                CgroupIoModelFieldId::DiosPerSec => match self.dios_per_sec { Some(v) => Some(Field::Milli(v)), None => None },
                CgroupIoModelFieldId::RwbytesPerSec => match self.rwbytes_per_sec { Some(v) => Some(Field::Milli(v)), None => None },
        }
    }

    fn query(&self, field_id: &CgroupIoModelFieldId) -> (r: Option<Field>)
        ensures
            r == self.query_spec(*field_id),
    {
        match field_id {
                CgroupIoModelFieldId::RbytesPerSec => match self.rbytes_per_sec { Some(v) => Some(Field::Milli(v)), None => None },
                CgroupIoModelFieldId::WbytesPerSec => match self.wbytes_per_sec { Some(v) => Some(Field::Milli(v)), None => None },
                CgroupIoModelFieldId::RiosPerSec => match self.rios_per_sec { Some(v) => Some(Field::Milli(v)), None => None },
                CgroupIoModelFieldId::WiosPerSec => match self.wios_per_sec { Some(v) => Some(Field::Milli(v)), None => None },
                CgroupIoModelFieldId::DbytesPerSec => match self.dbytes_per_sec { Some(v) => Some(Field::Milli(v)), None => None },
                CgroupIoModelFieldId::DiosPerSec => match self.dios_per_sec { Some(v) => Some(Field::Milli(v)), None => None },
                CgroupIoModelFieldId::RwbytesPerSec => match self.rwbytes_per_sec { Some(v) => Some(Field::Milli(v)), None => None },
        }
    }
}

/// Addresses one scalar of a cgroup pressure model.
#[derive(Clone, Debug, PartialEq, Eq)]
pub enum CgroupPressureModelFieldId {
    CpuSomePct,
    IoSomePct,
    IoFullPct,
    MemorySomePct,
    MemoryFullPct,
}

impl Queriable for CgroupPressureModel {
    type FieldId = CgroupPressureModelFieldId;

    open spec fn query_spec(&self, field_id: CgroupPressureModelFieldId) -> Option<Field> {
        match field_id {
                CgroupPressureModelFieldId::CpuSomePct => match self.cpu_some_pct { Some(v) => Some(Field::Milli(v)), None => None },
                CgroupPressureModelFieldId::IoSomePct => match self.io_some_pct { Some(v) => Some(Field::Milli(v)), None => None },
                CgroupPressureModelFieldId::IoFullPct => match self.io_full_pct { Some(v) => Some(Field::Milli(v)), None => None },
                CgroupPressureModelFieldId::MemorySomePct => match self.memory_some_pct { Some(v) => Some(Field::Milli(v)), None => None },
                CgroupPressureModelFieldId::MemoryFullPct => match self.memory_full_pct { Some(v) => Some(Field::Milli(v)), None => None },
        }
    }

    fn query(&self, field_id: &CgroupPressureModelFieldId) -> (r: Option<Field>)
        ensures
            r == self.query_spec(*field_id),
    {
        match field_id {
                CgroupPressureModelFieldId::CpuSomePct => match self.cpu_some_pct { Some(v) => Some(Field::Milli(v)), None => None },
                CgroupPressureModelFieldId::IoSomePct => match self.io_some_pct { Some(v) => Some(Field::Milli(v)), None => None },
                CgroupPressureModelFieldId::IoFullPct => match self.io_full_pct { Some(v) => Some(Field::Milli(v)), None => None },
                CgroupPressureModelFieldId::MemorySomePct => match self.memory_some_pct { Some(v) => Some(Field::Milli(v)), None => None },
                CgroupPressureModelFieldId::MemoryFullPct => match self.memory_full_pct { Some(v) => Some(Field::Milli(v)), None => None },
        }
    }
}

/// Addresses one scalar of a cgroup memory model.
#[derive(Clone, Debug, PartialEq, Eq)]
pub enum CgroupMemoryModelFieldId {
    Total,
    Swap,
    Anon,
    File,
    KernelStack,
    Slab,
    Sock,
    Shmem,
    FileMapped,
    FileDirty,
    FileWriteback,
    AnonThp,
    InactiveAnon,
    ActiveAnon,
    InactiveFile,
    ActiveFile,
    Unevictable,
    SlabReclaimable,
    SlabUnreclaimable,
    Pgfault,
    Pgmajfault,
    WorkingsetRefault,
    WorkingsetActivate,
    WorkingsetNodereclaim,
    Pgrefill,
    Pgscan,
    Pgsteal,
    Pgactivate,
    Pgdeactivate,
    Pglazyfree,
    Pglazyfreed,
    ThpFaultAlloc,
    ThpCollapseAlloc,
    MemoryHigh,
    EventsLow,
    EventsHigh,
    EventsMax,
    EventsOom,
    EventsOomKill,
}

impl Queriable for CgroupMemoryModel {
    type FieldId = CgroupMemoryModelFieldId;

    open spec fn query_spec(&self, field_id: CgroupMemoryModelFieldId) -> Option<Field> {
        match field_id {
                CgroupMemoryModelFieldId::Total => match self.total { Some(v) => Some(Field::U64(v)), None => None },
                CgroupMemoryModelFieldId::Swap => match self.swap { Some(v) => Some(Field::U64(v)), None => None },
                CgroupMemoryModelFieldId::Anon => match self.anon { Some(v) => Some(Field::U64(v)), None => None },
                CgroupMemoryModelFieldId::File => match self.file { Some(v) => Some(Field::U64(v)), None => None },
                CgroupMemoryModelFieldId::KernelStack => match self.kernel_stack { Some(v) => Some(Field::U64(v)), None => None },
                CgroupMemoryModelFieldId::Slab => match self.slab { Some(v) => Some(Field::U64(v)), None => None },
                CgroupMemoryModelFieldId::Sock => match self.sock { Some(v) => Some(Field::U64(v)), None => None },
                CgroupMemoryModelFieldId::Shmem => match self.shmem { Some(v) => Some(Field::U64(v)), None => None },
                CgroupMemoryModelFieldId::FileMapped => match self.file_mapped { Some(v) => Some(Field::U64(v)), None => None },
                CgroupMemoryModelFieldId::FileDirty => match self.file_dirty { Some(v) => Some(Field::U64(v)), None => None },
                CgroupMemoryModelFieldId::FileWriteback => match self.file_writeback { Some(v) => Some(Field::U64(v)), None => None },
                CgroupMemoryModelFieldId::AnonThp => match self.anon_thp { Some(v) => Some(Field::U64(v)), None => None },
                CgroupMemoryModelFieldId::InactiveAnon => match self.inactive_anon { Some(v) => Some(Field::U64(v)), None => None },
                CgroupMemoryModelFieldId::ActiveAnon => match self.active_anon { Some(v) => Some(Field::U64(v)), None => None },
                CgroupMemoryModelFieldId::InactiveFile => match self.inactive_file { Some(v) => Some(Field::U64(v)), None => None },
                CgroupMemoryModelFieldId::ActiveFile => match self.active_file { Some(v) => Some(Field::U64(v)), None => None },
                CgroupMemoryModelFieldId::Unevictable => match self.unevictable { Some(v) => Some(Field::U64(v)), None => None },
                CgroupMemoryModelFieldId::SlabReclaimable => match self.slab_reclaimable { Some(v) => Some(Field::U64(v)), None => None },
                CgroupMemoryModelFieldId::SlabUnreclaimable => match self.slab_unreclaimable { Some(v) => Some(Field::U64(v)), None => None },
                CgroupMemoryModelFieldId::Pgfault => match self.pgfault { Some(v) => Some(Field::U64(v)), None => None },
                CgroupMemoryModelFieldId::Pgmajfault => match self.pgmajfault { Some(v) => Some(Field::U64(v)), None => None },
                CgroupMemoryModelFieldId::WorkingsetRefault => match self.workingset_refault { Some(v) => Some(Field::U64(v)), None => None },
                CgroupMemoryModelFieldId::WorkingsetActivate => match self.workingset_activate { Some(v) => Some(Field::U64(v)), None => None },
                CgroupMemoryModelFieldId::WorkingsetNodereclaim => match self.workingset_nodereclaim { Some(v) => Some(Field::U64(v)), None => None },
                CgroupMemoryModelFieldId::Pgrefill => match self.pgrefill { Some(v) => Some(Field::U64(v)), None => None },
                CgroupMemoryModelFieldId::Pgscan => match self.pgscan { Some(v) => Some(Field::U64(v)), None => None },
                CgroupMemoryModelFieldId::Pgsteal => match self.pgsteal { Some(v) => Some(Field::U64(v)), None => None },
                CgroupMemoryModelFieldId::Pgactivate => match self.pgactivate { Some(v) => Some(Field::U64(v)), None => None },
                CgroupMemoryModelFieldId::Pgdeactivate => match self.pgdeactivate { Some(v) => Some(Field::U64(v)), None => None },
                CgroupMemoryModelFieldId::Pglazyfree => match self.pglazyfree { Some(v) => Some(Field::U64(v)), None => None },
                CgroupMemoryModelFieldId::Pglazyfreed => match self.pglazyfreed { Some(v) => Some(Field::U64(v)), None => None },
                CgroupMemoryModelFieldId::ThpFaultAlloc => match self.thp_fault_alloc { Some(v) => Some(Field::U64(v)), None => None },
                CgroupMemoryModelFieldId::ThpCollapseAlloc => match self.thp_collapse_alloc { Some(v) => Some(Field::U64(v)), None => None },
                CgroupMemoryModelFieldId::MemoryHigh => match self.memory_high { Some(v) => Some(Field::I64(v)), None => None },
                CgroupMemoryModelFieldId::EventsLow => match self.events_low { Some(v) => Some(Field::U64(v)), None => None },
                CgroupMemoryModelFieldId::EventsHigh => match self.events_high { Some(v) => Some(Field::U64(v)), None => None },
                CgroupMemoryModelFieldId::EventsMax => match self.events_max { Some(v) => Some(Field::U64(v)), None => None },
                CgroupMemoryModelFieldId::EventsOom => match self.events_oom { Some(v) => Some(Field::U64(v)), None => None },
                CgroupMemoryModelFieldId::EventsOomKill => match self.events_oom_kill { Some(v) => Some(Field::U64(v)), None => None },
        }
    }

    fn query(&self, field_id: &CgroupMemoryModelFieldId) -> (r: Option<Field>)
        ensures
            r == self.query_spec(*field_id),
    {
        match field_id {
                CgroupMemoryModelFieldId::Total => match self.total { Some(v) => Some(Field::U64(v)), None => None },
                CgroupMemoryModelFieldId::Swap => match self.swap { Some(v) => Some(Field::U64(v)), None => None },
                CgroupMemoryModelFieldId::Anon => match self.anon { Some(v) => Some(Field::U64(v)), None => None },
                CgroupMemoryModelFieldId::File => match self.file { Some(v) => Some(Field::U64(v)), None => None },
                CgroupMemoryModelFieldId::KernelStack => match self.kernel_stack { Some(v) => Some(Field::U64(v)), None => None },
                CgroupMemoryModelFieldId::Slab => match self.slab { Some(v) => Some(Field::U64(v)), None => None },
                CgroupMemoryModelFieldId::Sock => match self.sock { Some(v) => Some(Field::U64(v)), None => None },
                CgroupMemoryModelFieldId::Shmem => match self.shmem { Some(v) => Some(Field::U64(v)), None => None },
                CgroupMemoryModelFieldId::FileMapped => match self.file_mapped { Some(v) => Some(Field::U64(v)), None => None },
                CgroupMemoryModelFieldId::FileDirty => match self.file_dirty { Some(v) => Some(Field::U64(v)), None => None },
                CgroupMemoryModelFieldId::FileWriteback => match self.file_writeback { Some(v) => Some(Field::U64(v)), None => None },
                CgroupMemoryModelFieldId::AnonThp => match self.anon_thp { Some(v) => Some(Field::U64(v)), None => None },
                CgroupMemoryModelFieldId::InactiveAnon => match self.inactive_anon { Some(v) => Some(Field::U64(v)), None => None },
                CgroupMemoryModelFieldId::ActiveAnon => match self.active_anon { Some(v) => Some(Field::U64(v)), None => None },
                CgroupMemoryModelFieldId::InactiveFile => match self.inactive_file { Some(v) => Some(Field::U64(v)), None => None },
                CgroupMemoryModelFieldId::ActiveFile => match self.active_file { Some(v) => Some(Field::U64(v)), None => None },
                CgroupMemoryModelFieldId::Unevictable => match self.unevictable { Some(v) => Some(Field::U64(v)), None => None },
                CgroupMemoryModelFieldId::SlabReclaimable => match self.slab_reclaimable { Some(v) => Some(Field::U64(v)), None => None },
                CgroupMemoryModelFieldId::SlabUnreclaimable => match self.slab_unreclaimable { Some(v) => Some(Field::U64(v)), None => None },
                CgroupMemoryModelFieldId::Pgfault => match self.pgfault { Some(v) => Some(Field::U64(v)), None => None },
                CgroupMemoryModelFieldId::Pgmajfault => match self.pgmajfault { Some(v) => Some(Field::U64(v)), None => None },
                CgroupMemoryModelFieldId::WorkingsetRefault => match self.workingset_refault { Some(v) => Some(Field::U64(v)), None => None },
                CgroupMemoryModelFieldId::WorkingsetActivate => match self.workingset_activate { Some(v) => Some(Field::U64(v)), None => None },
                CgroupMemoryModelFieldId::WorkingsetNodereclaim => match self.workingset_nodereclaim { Some(v) => Some(Field::U64(v)), None => None },
                CgroupMemoryModelFieldId::Pgrefill => match self.pgrefill { Some(v) => Some(Field::U64(v)), None => None },
                CgroupMemoryModelFieldId::Pgscan => match self.pgscan { Some(v) => Some(Field::U64(v)), None => None },
                CgroupMemoryModelFieldId::Pgsteal => match self.pgsteal { Some(v) => Some(Field::U64(v)), None => None },
                CgroupMemoryModelFieldId::Pgactivate => match self.pgactivate { Some(v) => Some(Field::U64(v)), None => None },
                CgroupMemoryModelFieldId::Pgdeactivate => match self.pgdeactivate { Some(v) => Some(Field::U64(v)), None => None },
                CgroupMemoryModelFieldId::Pglazyfree => match self.pglazyfree { Some(v) => Some(Field::U64(v)), None => None },
                CgroupMemoryModelFieldId::Pglazyfreed => match self.pglazyfreed { Some(v) => Some(Field::U64(v)), None => None },
                CgroupMemoryModelFieldId::ThpFaultAlloc => match self.thp_fault_alloc { Some(v) => Some(Field::U64(v)), None => None },
                CgroupMemoryModelFieldId::ThpCollapseAlloc => match self.thp_collapse_alloc { Some(v) => Some(Field::U64(v)), None => None },
                CgroupMemoryModelFieldId::MemoryHigh => match self.memory_high { Some(v) => Some(Field::I64(v)), None => None },
                CgroupMemoryModelFieldId::EventsLow => match self.events_low { Some(v) => Some(Field::U64(v)), None => None },
                CgroupMemoryModelFieldId::EventsHigh => match self.events_high { Some(v) => Some(Field::U64(v)), None => None },
                CgroupMemoryModelFieldId::EventsMax => match self.events_max { Some(v) => Some(Field::U64(v)), None => None },
                CgroupMemoryModelFieldId::EventsOom => match self.events_oom { Some(v) => Some(Field::U64(v)), None => None },
                CgroupMemoryModelFieldId::EventsOomKill => match self.events_oom_kill { Some(v) => Some(Field::U64(v)), None => None },
        }
    }
}

/// Addresses one scalar of a process I/O model.
#[derive(Clone, Debug, PartialEq, Eq)]
pub enum ProcessIoModelFieldId {
    RbytesPerSec,
    WbytesPerSec,
    RwbytesPerSec,
}

impl Queriable for ProcessIoModel {
    type FieldId = ProcessIoModelFieldId;

    open spec fn query_spec(&self, field_id: ProcessIoModelFieldId) -> Option<Field> {
        match field_id {
                ProcessIoModelFieldId::RbytesPerSec => match self.rbytes_per_sec { Some(v) => Some(Field::Milli(v)), None => None },
                ProcessIoModelFieldId::WbytesPerSec => match self.wbytes_per_sec { Some(v) => Some(Field::Milli(v)), None => None },
                ProcessIoModelFieldId::RwbytesPerSec => match self.rwbytes_per_sec { Some(v) => Some(Field::Milli(v)), None => None },
        }
    }

    fn query(&self, field_id: &ProcessIoModelFieldId) -> (r: Option<Field>)
        ensures
            r == self.query_spec(*field_id),
    {
        match field_id {
                ProcessIoModelFieldId::RbytesPerSec => match self.rbytes_per_sec { Some(v) => Some(Field::Milli(v)), None => None },
                ProcessIoModelFieldId::WbytesPerSec => match self.wbytes_per_sec { Some(v) => Some(Field::Milli(v)), None => None },
                ProcessIoModelFieldId::RwbytesPerSec => match self.rwbytes_per_sec { Some(v) => Some(Field::Milli(v)), None => None },
        }
    }
}

/// Addresses one scalar of a process CPU model.
#[derive(Clone, Debug, PartialEq, Eq)]
pub enum ProcessCpuModelFieldId {
    UsagePct,
    UserPct,
    SystemPct,
    NumThreads,
}

impl Queriable for ProcessCpuModel {
    type FieldId = ProcessCpuModelFieldId;

    open spec fn query_spec(&self, field_id: ProcessCpuModelFieldId) -> Option<Field> {
        match field_id {
                ProcessCpuModelFieldId::UsagePct => match self.usage_pct { Some(v) => Some(Field::Milli(v)), None => None },
                ProcessCpuModelFieldId::UserPct => match self.user_pct { Some(v) => Some(Field::Milli(v)), None => None },
                ProcessCpuModelFieldId::SystemPct => match self.system_pct { Some(v) => Some(Field::Milli(v)), None => None },
                ProcessCpuModelFieldId::NumThreads => match self.num_threads { Some(v) => Some(Field::U64(v)), None => None },
        }
    }

    fn query(&self, field_id: &ProcessCpuModelFieldId) -> (r: Option<Field>)
        ensures
            r == self.query_spec(*field_id),
    {
        match field_id {
                ProcessCpuModelFieldId::UsagePct => match self.usage_pct { Some(v) => Some(Field::Milli(v)), None => None },
                ProcessCpuModelFieldId::UserPct => match self.user_pct { Some(v) => Some(Field::Milli(v)), None => None },
                ProcessCpuModelFieldId::SystemPct => match self.system_pct { Some(v) => Some(Field::Milli(v)), None => None },
                ProcessCpuModelFieldId::NumThreads => match self.num_threads { Some(v) => Some(Field::U64(v)), None => None },
        }
    }
}

/// Addresses one scalar of a process memory model.
#[derive(Clone, Debug, PartialEq, Eq)]
pub enum ProcessMemoryModelFieldId {
    MinorfaultsPerSec,
    MajorfaultsPerSec,
    RssBytes,
    VmSize,
    Lock,
    Pin,
    Anon,
    File,
    Shmem,
    Pte,
    Swap,
    HugeTlb,
}

impl Queriable for ProcessMemoryModel {
    type FieldId = ProcessMemoryModelFieldId;

    open spec fn query_spec(&self, field_id: ProcessMemoryModelFieldId) -> Option<Field> {
        match field_id {
                ProcessMemoryModelFieldId::MinorfaultsPerSec => match self.minorfaults_per_sec { Some(v) => Some(Field::Milli(v)), None => None },
                ProcessMemoryModelFieldId::MajorfaultsPerSec => match self.majorfaults_per_sec { Some(v) => Some(Field::Milli(v)), None => None },
                ProcessMemoryModelFieldId::RssBytes => match self.rss_bytes { Some(v) => Some(Field::U64(v)), None => None },
                ProcessMemoryModelFieldId::VmSize => match self.vm_size { Some(v) => Some(Field::U64(v)), None => None },
                ProcessMemoryModelFieldId::Lock => match self.lock { Some(v) => Some(Field::U64(v)), None => None },
                ProcessMemoryModelFieldId::Pin => match self.pin { Some(v) => Some(Field::U64(v)), None => None },
                ProcessMemoryModelFieldId::Anon => match self.anon { Some(v) => Some(Field::U64(v)), None => None },
                ProcessMemoryModelFieldId::File => match self.file { Some(v) => Some(Field::U64(v)), None => None },
                ProcessMemoryModelFieldId::Shmem => match self.shmem { Some(v) => Some(Field::U64(v)), None => None },
                ProcessMemoryModelFieldId::Pte => match self.pte { Some(v) => Some(Field::U64(v)), None => None },
                ProcessMemoryModelFieldId::Swap => match self.swap { Some(v) => Some(Field::U64(v)), None => None },
                ProcessMemoryModelFieldId::HugeTlb => match self.huge_tlb { Some(v) => Some(Field::U64(v)), None => None },
        }
    }

    fn query(&self, field_id: &ProcessMemoryModelFieldId) -> (r: Option<Field>)
        ensures
            r == self.query_spec(*field_id),
    {
        match field_id {
                ProcessMemoryModelFieldId::MinorfaultsPerSec => match self.minorfaults_per_sec { Some(v) => Some(Field::Milli(v)), None => None },
                ProcessMemoryModelFieldId::MajorfaultsPerSec => match self.majorfaults_per_sec { Some(v) => Some(Field::Milli(v)), None => None },
                ProcessMemoryModelFieldId::RssBytes => match self.rss_bytes { Some(v) => Some(Field::U64(v)), None => None },
                ProcessMemoryModelFieldId::VmSize => match self.vm_size { Some(v) => Some(Field::U64(v)), None => None },
                ProcessMemoryModelFieldId::Lock => match self.lock { Some(v) => Some(Field::U64(v)), None => None },
                ProcessMemoryModelFieldId::Pin => match self.pin { Some(v) => Some(Field::U64(v)), None => None },
                ProcessMemoryModelFieldId::Anon => match self.anon { Some(v) => Some(Field::U64(v)), None => None },
                ProcessMemoryModelFieldId::File => match self.file { Some(v) => Some(Field::U64(v)), None => None },
                ProcessMemoryModelFieldId::Shmem => match self.shmem { Some(v) => Some(Field::U64(v)), None => None },
                ProcessMemoryModelFieldId::Pte => match self.pte { Some(v) => Some(Field::U64(v)), None => None },
                ProcessMemoryModelFieldId::Swap => match self.swap { Some(v) => Some(Field::U64(v)), None => None },
                ProcessMemoryModelFieldId::HugeTlb => match self.huge_tlb { Some(v) => Some(Field::U64(v)), None => None },
        }
    }
}

/// Addresses one field of a cgroup model: a scalar of the node itself, or a
/// subquery into one of its derived sub-models.
#[derive(Clone, Debug, PartialEq, Eq)]
pub enum CgroupModelFieldId {
    Name,
    FullPath,
    InodeNumber,
    Cpu(CgroupCpuModelFieldId),
    Mem(CgroupMemoryModelFieldId),
    Io(CgroupIoModelFieldId),
    Pressure(CgroupPressureModelFieldId),
}

impl Queriable for CgroupModel {
    type FieldId = CgroupModelFieldId;

    open spec fn query_spec(&self, field_id: CgroupModelFieldId) -> Option<Field> {
        match field_id {
            CgroupModelFieldId::Name => Some(Field::Str(self.name)),
            CgroupModelFieldId::FullPath => Some(Field::Str(self.full_path)),
            CgroupModelFieldId::InodeNumber => match self.inode_number {
                Some(v) => Some(Field::U64(v)),
                None => None,
            },
            CgroupModelFieldId::Cpu(sub) => match self.cpu {
                Some(c) => c.query_spec(sub),
                None => None,
            },
            CgroupModelFieldId::Mem(sub) => match self.memory {
                Some(m) => m.query_spec(sub),
                None => None,
            },
            CgroupModelFieldId::Io(sub) => match self.io_total {
                Some(t) => t.query_spec(sub),
                None => None,
            },
            CgroupModelFieldId::Pressure(sub) => match self.pressure {
                Some(p) => p.query_spec(sub),
                None => None,
            },
        }
    }

    fn query(&self, field_id: &CgroupModelFieldId) -> (r: Option<Field>)
        ensures
            r == self.query_spec(*field_id),
    {
        match field_id {
            CgroupModelFieldId::Name => Some(Field::Str(self.name.clone())),
            CgroupModelFieldId::FullPath => Some(Field::Str(self.full_path.clone())),
            CgroupModelFieldId::InodeNumber => match self.inode_number {
                Some(v) => Some(Field::U64(v)),
                None => None,
            },
            CgroupModelFieldId::Cpu(sub) => match &self.cpu {
                Some(c) => c.query(sub),
                None => None,
            },
            CgroupModelFieldId::Mem(sub) => match &self.memory {
                Some(m) => m.query(sub),
                None => None,
            },
            CgroupModelFieldId::Io(sub) => match &self.io_total {
                Some(t) => t.query(sub),
                None => None,
            },
            CgroupModelFieldId::Pressure(sub) => match &self.pressure {
                Some(p) => p.query(sub),
                None => None,
            },
        }
    }
}

impl Recursive for CgroupModel {
    open spec fn depth_spec(&self) -> nat {
        self.depth as nat
    }

    /// The node's distance from the synthetic root.
    fn get_depth(&self) -> (r: usize)
        ensures
            r == self.depth_spec(),
    {
        self.depth as usize
    }
}

/// Addresses one field of a single-process model: an identity scalar, or a
/// subquery into a derived rate sub-model.
#[derive(Clone, Debug, PartialEq, Eq)]
pub enum SingleProcessModelFieldId {
    Pid,
    Ppid,
    Comm,
    State,
    UptimeSecs,
    Cgroup,
    Io(ProcessIoModelFieldId),
    Mem(ProcessMemoryModelFieldId),
    Cpu(ProcessCpuModelFieldId),
    Cmdline,
    ExePath,
}

impl Queriable for SingleProcessModel {
    type FieldId = SingleProcessModelFieldId;

    open spec fn query_spec(&self, field_id: SingleProcessModelFieldId) -> Option<Field> {
        match field_id {
            SingleProcessModelFieldId::Pid => match self.pid {
                Some(v) => Some(Field::I32(v)),
                None => None,
            },
            SingleProcessModelFieldId::Ppid => match self.ppid {
                Some(v) => Some(Field::I32(v)),
                None => None,
            },
            SingleProcessModelFieldId::Comm => match self.comm {
                Some(s) => Some(Field::Str(s)),
                None => None,
            },
            SingleProcessModelFieldId::State => match self.state {
                Some(s) => Some(Field::PidState(s)),
                None => None,
            },
            SingleProcessModelFieldId::UptimeSecs => match self.uptime_secs {
                Some(v) => Some(Field::U64(v)),
                None => None,
            },
            SingleProcessModelFieldId::Cgroup => match self.cgroup {
                Some(s) => Some(Field::Str(s)),
                None => None,
            },
            SingleProcessModelFieldId::Io(sub) => match self.io {
                Some(m) => m.query_spec(sub),
                None => None,
            },
            SingleProcessModelFieldId::Mem(sub) => match self.mem {
                Some(m) => m.query_spec(sub),
                None => None,
            },
            SingleProcessModelFieldId::Cpu(sub) => match self.cpu {
                Some(m) => m.query_spec(sub),
                None => None,
            },
            SingleProcessModelFieldId::Cmdline => match self.cmdline {
                Some(s) => Some(Field::Str(s)),
                None => None,
            },
            SingleProcessModelFieldId::ExePath => match self.exe_path {
                Some(s) => Some(Field::Str(s)),
                None => None,
            },
        }
    }

    fn query(&self, field_id: &SingleProcessModelFieldId) -> (r: Option<Field>)
        ensures
            r == self.query_spec(*field_id),
    {
        match field_id {
            SingleProcessModelFieldId::Pid => match self.pid {
                Some(v) => Some(Field::I32(v)),
                None => None,
            },
            SingleProcessModelFieldId::Ppid => match self.ppid {
                Some(v) => Some(Field::I32(v)),
                None => None,
            },
            SingleProcessModelFieldId::Comm => match &self.comm {
                Some(s) => Some(Field::Str(s.clone())),
                None => None,
            },
            SingleProcessModelFieldId::State => match self.state {
                Some(s) => Some(Field::PidState(s)),
                None => None,
            },
            SingleProcessModelFieldId::UptimeSecs => match self.uptime_secs {
                Some(v) => Some(Field::U64(v)),
                None => None,
            },
            SingleProcessModelFieldId::Cgroup => match &self.cgroup {
                Some(s) => Some(Field::Str(s.clone())),
                None => None,
            },
            SingleProcessModelFieldId::Io(sub) => match &self.io {
                Some(m) => m.query(sub),
                None => None,
            },
            SingleProcessModelFieldId::Mem(sub) => match &self.mem {
                Some(m) => m.query(sub),
                None => None,
            },
            SingleProcessModelFieldId::Cpu(sub) => match &self.cpu {
                Some(m) => m.query(sub),
                None => None,
            },
            SingleProcessModelFieldId::Cmdline => match &self.cmdline {
                Some(s) => Some(Field::Str(s.clone())),
                None => None,
            },
            SingleProcessModelFieldId::ExePath => match &self.exe_path {
                Some(s) => Some(Field::Str(s.clone())),
                None => None,
            },
        }
    }
}

impl FieldId for CgroupCpuModelFieldId {
    type Queriable = CgroupCpuModel;
}

impl FieldId for CgroupIoModelFieldId {
    type Queriable = CgroupIoModel;
}

impl FieldId for CgroupMemoryModelFieldId {
    type Queriable = CgroupMemoryModel;
}

impl FieldId for CgroupPressureModelFieldId {
    type Queriable = CgroupPressureModel;
}

impl FieldId for CgroupModelFieldId {
    type Queriable = CgroupModel;
}

impl FieldId for ProcessIoModelFieldId {
    type Queriable = ProcessIoModel;
}

impl FieldId for ProcessCpuModelFieldId {
    type Queriable = ProcessCpuModel;
}

impl FieldId for ProcessMemoryModelFieldId {
    type Queriable = ProcessMemoryModel;
}

impl FieldId for SingleProcessModelFieldId {
    type Queriable = SingleProcessModel;
}

/// Addresses one field inside an ordered collection of models: an index into
/// the collection plus a nested id for the element's own type.
pub struct VecFieldId<Q: Queriable> {
    pub idx: usize,
    pub subquery_id: Q::FieldId,
}

impl<Q: Queriable> FieldId for VecFieldId<Q> {
    type Queriable = Vec<Q>;
}

impl<Q: Queriable> VecFieldId<Q> {
    /// The unit variants of a collection id: there are none, since every
    /// collection id carries an index and a nested id.
    pub fn unit_variant_list() -> (r: Vec<VecFieldId<Q>>)
        ensures
            r@.len() == 0,
    {
        Vec::new()
    }

    /// Every enumerable variant of a collection id: none, as the index space
    /// is unbounded.
    pub fn all_variant_list() -> (r: Vec<VecFieldId<Q>>)
        ensures
            r@.len() == 0,
    {
        Vec::new()
    }
}

impl<T: Queriable> Queriable for Vec<T> {
    type FieldId = VecFieldId<T>;

    open spec fn query_spec(&self, field_id: VecFieldId<T>) -> Option<Field> {
        if field_id.idx < self@.len() {
            self@[field_id.idx as int].query_spec(field_id.subquery_id)
        } else {
            None
        }
    }

    fn query(&self, field_id: &VecFieldId<T>) -> (r: Option<Field>)
        ensures
            r == self.query_spec(*field_id),
    {
        if field_id.idx < self.len() {
            self[field_id.idx].query(&field_id.subquery_id)
        } else {
            None
        }
    }
}

/// A query into an absent sub-model of a cgroup node is `None`, whatever the
/// nested id asks for.
pub proof fn lemma_absent_submodel_query_is_none(m: CgroupModel, field_id: CgroupModelFieldId)
    ensures
        m.cpu is None && (field_id matches CgroupModelFieldId::Cpu(_)) ==> m.query_spec(
            field_id,
        ) is None,
        m.memory is None && (field_id matches CgroupModelFieldId::Mem(_)) ==> m.query_spec(
            field_id,
        ) is None,
        m.io_total is None && (field_id matches CgroupModelFieldId::Io(_)) ==> m.query_spec(
            field_id,
        ) is None,
        m.pressure is None && (field_id matches CgroupModelFieldId::Pressure(_)) ==> m.query_spec(
            field_id,
        ) is None,
{
}

/// A query into an absent rate sub-model of a process is `None`, whatever the
/// nested id asks for.
pub proof fn lemma_absent_process_submodel_query_is_none(
    m: SingleProcessModel,
    field_id: SingleProcessModelFieldId,
)
    ensures
        m.io is None && (field_id matches SingleProcessModelFieldId::Io(_)) ==> m.query_spec(
            field_id,
        ) is None,
        m.mem is None && (field_id matches SingleProcessModelFieldId::Mem(_)) ==> m.query_spec(
            field_id,
        ) is None,
        m.cpu is None && (field_id matches SingleProcessModelFieldId::Cpu(_)) ==> m.query_spec(
            field_id,
        ) is None,
{
}

/// A collection query with an out-of-bounds index is `None`, whatever the
/// nested id asks for.
pub proof fn lemma_out_of_bounds_query_is_none<T: Queriable>(v: Vec<T>, field_id: VecFieldId<T>)
    ensures
        field_id.idx >= v@.len() ==> v.query_spec(field_id) is None,
{
}

/// The reverse of an ordering.
pub open spec fn flip_ordering(o: Ordering) -> Ordering {
    match o {
        Ordering::Less => Ordering::Greater,
        Ordering::Equal => Ordering::Equal,
        Ordering::Greater => Ordering::Less,
    }
}

/// How two models stand to one another under a sort key: absent values come
/// first, present values compare by `field_cmp_spec`, and an incomparable
/// pair counts as equal, so it is never reordered.
pub open spec fn sort_cmp_spec<T: Queriable>(
    a: &T,
    b: &T,
    field_id: T::FieldId,
    reverse: bool,
) -> Ordering {
    let base = match (a.query_spec(field_id), b.query_spec(field_id)) {
        (None, None) => Ordering::Equal,
        (None, Some(_)) => Ordering::Less,
        (Some(_), None) => Ordering::Greater,
        (Some(x), Some(y)) => match field_cmp_spec(x, y) {
            Some(o) => o,
            None => Ordering::Equal,
        },
    };
    if reverse {
        flip_ordering(base)
    } else {
        base
    }
}

/// Compare two models under a sort key.
fn sort_cmp_exec<T: Queriable>(a: &T, b: &T, field_id: &T::FieldId, reverse: bool) -> (r: Ordering)
    ensures
        r == sort_cmp_spec(a, b, *field_id, reverse),
{
    let qa = a.query(field_id);
    let qb = b.query(field_id);
    let base = match (&qa, &qb) {
        (None, None) => Ordering::Equal,
        (None, Some(_)) => Ordering::Less,
        (Some(_), None) => Ordering::Greater,
        (Some(x), Some(y)) => match field_cmp(x, y) {
            Some(o) => o,
            None => Ordering::Equal,
        },
    };
    if reverse {
        match base {
            Ordering::Less => Ordering::Greater,
            Ordering::Equal => Ordering::Equal,
            Ordering::Greater => Ordering::Less,
        }
    } else {
        base
    }
}

/// A pair that compares `Greater` compares `Less` the other way around, so a
/// sorted neighbor pair can be read in either direction.
proof fn lemma_sort_cmp_antisym<T: Queriable>(a: &T, b: &T, field_id: T::FieldId, reverse: bool)
    ensures
        sort_cmp_spec(a, b, field_id, reverse) == Ordering::Greater ==> sort_cmp_spec(
            b,
            a,
            field_id,
            reverse,
        ) == Ordering::Less,
{
    let qa = a.query_spec(field_id);
    let qb = b.query_spec(field_id);
    if qa is Some && qb is Some {
        crate::field::lemma_field_cmp_antisym(qa->0, qb->0);
    }
}

/// Sort a list of models by the given field, a stable insertion sort. The
/// result holds the same models, and no neighbor pair is out of order under
/// the key (out of reverse order, when `reverse` is set). Absent and
/// incomparable values count as equal, so they are never moved past a present
/// one that orders with them.
/// The first `m` elements are neighbor-sorted under the key: no pair of
/// adjacent models among them is out of order.
pub open spec fn sorted_prefix<T: Queriable>(
    s: Seq<&T>,
    field_id: T::FieldId,
    reverse: bool,
    m: int,
) -> bool
    decreases m,
{
    if m <= 1 || m > s.len() {
        true
    } else {
        &&& sorted_prefix(s, field_id, reverse, m - 1)
        &&& sort_cmp_spec(s[m - 2], s[m - 1], field_id, reverse) != Ordering::Greater
    }
}

/// Any adjacent pair inside a neighbor-sorted prefix is in order.
pub proof fn lemma_sorted_prefix_pair<T: Queriable>(
    s: Seq<&T>,
    field_id: T::FieldId,
    reverse: bool,
    m: int,
    k: int,
)
    requires
        sorted_prefix(s, field_id, reverse, m),
        m <= s.len(),
        1 <= k < m,
    ensures
        sort_cmp_spec(s[k - 1], s[k], field_id, reverse) != Ordering::Greater,
    decreases m,
{
    if k < m - 1 {
        lemma_sorted_prefix_pair(s, field_id, reverse, m - 1, k);
    }
}

/// How a sorted list stands to the original, witnessed by a permutation:
/// `perm[k]` is the original position of the model now at `k`. The
/// arrangement is stable: two models whose keys compare `Equal` (absent and
/// incomparable pairs included) keep their original relative order.
pub open spec fn stable_arrangement<T: Queriable>(
    before: Seq<&T>,
    after: Seq<&T>,
    field_id: T::FieldId,
    reverse: bool,
    perm: Seq<int>,
) -> bool {
    &&& perm.len() == before.len()
    &&& after.len() == before.len()
    &&& forall|k: int| 0 <= k < perm.len() ==> 0 <= #[trigger] perm[k] < before.len()
    &&& forall|k1: int, k2: int|
        0 <= k1 < k2 < perm.len() ==> #[trigger] perm[k1] != #[trigger] perm[k2]
    &&& forall|k: int| 0 <= k < perm.len() ==> after[k] == before[#[trigger] perm[k]]
    &&& forall|k1: int, k2: int|
        #![trigger perm[k1], perm[k2]]
        0 <= k1 < k2 < perm.len() && sort_cmp_spec(after[k1], after[k2], field_id, reverse)
            == Ordering::Equal ==> perm[k1] < perm[k2]
}

/// Sort a list of models by the given field, a stable insertion sort. The
/// result holds the same models, and its whole length is neighbor-sorted
/// under the key (under the reversed key, when `reverse` is set). Absent and
/// incomparable values count as equal, so they are never reordered.
pub fn sort_queriables<T: Queriable>(
    queriables: &mut Vec<&T>,
    field_id: &T::FieldId,
    reverse: bool,
)
    ensures
        final(queriables)@.len() == old(queriables)@.len(),
        final(queriables)@.to_multiset() == old(queriables)@.to_multiset(),
        sorted_prefix(final(queriables)@, *field_id, reverse, final(queriables)@.len() as int),
        exists|perm: Seq<int>|
            stable_arrangement(old(queriables)@, final(queriables)@, *field_id, reverse, perm),
{
    let ghost orig = queriables@;
    let n = queriables.len();
    let ghost mut perm: Seq<int> = Seq::new(n as nat, |k: int| k);
    if n < 2 {
        proof {
            assert(stable_arrangement(orig, queriables@, *field_id, reverse, perm));
        }
        return ;
    }
    let mut i: usize = 1;
    while i < n
        invariant
            1 <= i <= n,
            n == queriables@.len(),
            queriables@.to_multiset() == orig.to_multiset(),
            sorted_prefix(queriables@, *field_id, reverse, i as int),
            orig.len() == n,
            perm.len() == n,
            forall|k: int| 0 <= k < n ==> 0 <= #[trigger] perm[k] < n,
            forall|k1: int, k2: int|
                0 <= k1 < k2 < n ==> #[trigger] perm[k1] != #[trigger] perm[k2],
            forall|k: int| 0 <= k < n ==> queriables@[k] == orig[#[trigger] perm[k]],
            forall|k: int| i <= k < n ==> #[trigger] perm[k] == k,
            forall|k: int| 0 <= k < i ==> #[trigger] perm[k] < i,
            forall|k1: int, k2: int|
                #![trigger perm[k1], perm[k2]]
                0 <= k1 < k2 < i && sort_cmp_spec(
                    queriables@[k1],
                    queriables@[k2],
                    *field_id,
                    reverse,
                ) == Ordering::Equal ==> perm[k1] < perm[k2],
        decreases n - i,
    {
        let ghost before = queriables@;
        let x: &T = queriables.remove(i);
        let ghost removed = queriables@;
        let mut pos: usize = i;
        loop
            invariant_except_break
                pos <= i,
                i <= removed.len(),
                removed == queriables@,
                forall|k: int|
                    pos <= k < i ==> sort_cmp_spec(
                        #[trigger] removed[k],
                        x,
                        *field_id,
                        reverse,
                    ) == Ordering::Greater,
            ensures
                pos <= i,
                removed == queriables@,
                forall|k: int|
                    pos <= k < i ==> sort_cmp_spec(
                        #[trigger] removed[k],
                        x,
                        *field_id,
                        reverse,
                    ) == Ordering::Greater,
                pos > 0 ==> sort_cmp_spec(removed[pos - 1], x, *field_id, reverse)
                    != Ordering::Greater,
            decreases pos,
        {
            if pos == 0 {
                break ;
            }
            let c = sort_cmp_exec(queriables[pos - 1], x, field_id, reverse);
            if !matches!(c, Ordering::Greater) {
                break ;
            }
            pos = pos - 1;
        }
        proof {
            assert(sorted_prefix(before, *field_id, reverse, i as int));
            assert(removed == before.remove(i as int));
            lemma_sorted_prefix_remove_last(before, removed, *field_id, reverse, i as int);
        }
        queriables.insert(pos, x);
        proof {
            lemma_multiset_restored(before, removed, queriables@, i as int, pos as int, x);
            lemma_insert_sorted(
                removed,
                queriables@,
                x,
                *field_id,
                reverse,
                i as int,
                pos as int,
                (i + 1) as int,
            );
            assert forall|k: int| pos <= k < i implies sort_cmp_spec(
                #[trigger] before[k],
                before[i as int],
                *field_id,
                reverse,
            ) == Ordering::Greater by {
                assert(removed[k] == before[k]);
            }
            lemma_stable_insert(
                orig,
                before,
                queriables@,
                perm,
                *field_id,
                reverse,
                i as int,
                pos as int,
            );
            perm = perm.remove(i as int).insert(pos as int, perm[i as int]);
        }
        i = i + 1;
    }
    proof {
        assert(stable_arrangement(orig, queriables@, *field_id, reverse, perm));
    }
}

/// Moving the element at the boundary of the sorted prefix down to its
/// position keeps every tracking invariant of the ghost permutation: bounds,
/// injectivity, value tracking, the untouched suffix, and stability — the
/// moved element jumps only neighbors strictly greater than it, never one
/// whose key compares equal.
proof fn lemma_stable_insert<T: Queriable>(
    orig: Seq<&T>,
    before: Seq<&T>,
    after: Seq<&T>,
    perm: Seq<int>,
    field_id: T::FieldId,
    reverse: bool,
    i: int,
    pos: int,
)
    requires
        0 <= pos <= i < before.len(),
        perm.len() == before.len(),
        orig.len() == before.len(),
        after == before.remove(i).insert(pos, before[i]),
        forall|k: int| 0 <= k < perm.len() ==> 0 <= #[trigger] perm[k] < perm.len(),
        forall|k1: int, k2: int|
            0 <= k1 < k2 < perm.len() ==> #[trigger] perm[k1] != #[trigger] perm[k2],
        forall|k: int| 0 <= k < perm.len() ==> before[k] == orig[#[trigger] perm[k]],
        forall|k: int| i <= k < perm.len() ==> #[trigger] perm[k] == k,
        forall|k: int| 0 <= k < i ==> #[trigger] perm[k] < i,
        forall|k1: int, k2: int|
            #![trigger perm[k1], perm[k2]]
            0 <= k1 < k2 < i && sort_cmp_spec(before[k1], before[k2], field_id, reverse)
                == Ordering::Equal ==> perm[k1] < perm[k2],
        forall|k: int|
            pos <= k < i ==> sort_cmp_spec(#[trigger] before[k], before[i], field_id, reverse)
                == Ordering::Greater,
    ensures
        ({
            let perm2 = perm.remove(i).insert(pos, perm[i]);
            &&& perm2.len() == perm.len()
            &&& forall|k: int| 0 <= k < perm2.len() ==> 0 <= #[trigger] perm2[k] < perm.len()
            &&& forall|k1: int, k2: int|
                0 <= k1 < k2 < perm2.len() ==> #[trigger] perm2[k1] != #[trigger] perm2[k2]
            &&& forall|k: int| 0 <= k < perm2.len() ==> after[k] == orig[#[trigger] perm2[k]]
            &&& forall|k: int| i + 1 <= k < perm2.len() ==> #[trigger] perm2[k] == k
            &&& forall|k: int| 0 <= k < i + 1 ==> #[trigger] perm2[k] < i + 1
            &&& forall|k1: int, k2: int|
                #![trigger perm2[k1], perm2[k2]]
                0 <= k1 < k2 < i + 1 && sort_cmp_spec(after[k1], after[k2], field_id, reverse)
                    == Ordering::Equal ==> perm2[k1] < perm2[k2]
        }),
{
    let n = perm.len();
    let perm2 = perm.remove(i).insert(pos, perm[i]);
    let x = before[i];
    assert forall|k: int| 0 <= k < n implies #[trigger] perm2[k] == (if k < pos {
        perm[k]
    } else if k == pos {
        perm[i]
    } else if k <= i {
        perm[k - 1]
    } else {
        perm[k]
    }) by {
        if pos < k && k <= i {
            assert(perm2[k] == perm.remove(i)[k - 1]);
        } else if k > i {
            assert(perm2[k] == perm.remove(i)[k - 1]);
        }
    }
    assert forall|k: int| 0 <= k < n implies #[trigger] after[k] == (if k < pos {
        before[k]
    } else if k == pos {
        x
    } else if k <= i {
        before[k - 1]
    } else {
        before[k]
    }) by {
        if pos < k && k <= i {
            assert(after[k] == before.remove(i)[k - 1]);
        } else if k > i {
            assert(after[k] == before.remove(i)[k - 1]);
        }
    }
    assert forall|k1: int, k2: int|
        #![trigger perm2[k1], perm2[k2]]
        0 <= k1 < k2 < i + 1 && sort_cmp_spec(after[k1], after[k2], field_id, reverse)
            == Ordering::Equal implies perm2[k1] < perm2[k2] by {
        if k1 == pos && k2 > pos {
            lemma_sort_cmp_antisym(before[k2 - 1], x, field_id, reverse);
        }
    }
}

/// Removing the element just past a neighbor-sorted prefix leaves the prefix
/// neighbor-sorted.
proof fn lemma_sorted_prefix_remove_last<T: Queriable>(
    before: Seq<&T>,
    removed: Seq<&T>,
    field_id: T::FieldId,
    reverse: bool,
    i: int,
)
    requires
        0 <= i < before.len(),
        removed == before.remove(i),
        sorted_prefix(before, field_id, reverse, i),
    ensures
        sorted_prefix(removed, field_id, reverse, i),
    decreases i,
{
    if i > 1 {
        assert(sorted_prefix(before, field_id, reverse, i - 1));
        lemma_sorted_prefix_remove_last_ind(before, removed, field_id, reverse, i, i);
    }
}

/// The induction behind `lemma_sorted_prefix_remove_last`: every prefix up to
/// the removal point stays neighbor-sorted, element for element.
proof fn lemma_sorted_prefix_remove_last_ind<T: Queriable>(
    before: Seq<&T>,
    removed: Seq<&T>,
    field_id: T::FieldId,
    reverse: bool,
    i: int,
    m: int,
)
    requires
        0 <= i < before.len(),
        removed == before.remove(i),
        sorted_prefix(before, field_id, reverse, i),
        0 <= m <= i,
    ensures
        sorted_prefix(removed, field_id, reverse, m),
    decreases m,
{
    if m > 1 {
        lemma_sorted_prefix_remove_last_ind(before, removed, field_id, reverse, i, m - 1);
        lemma_sorted_prefix_pair(before, field_id, reverse, i, m - 1);
        assert(removed[m - 2] == before[m - 2]);
        assert(removed[m - 1] == before[m - 1]);
    }
}

/// Inserting an element between its non-greater left neighbor and the run of
/// greater elements it was scanned past keeps every neighbor pair in order.
proof fn lemma_insert_sorted<T: Queriable>(
    removed: Seq<&T>,
    after: Seq<&T>,
    x: &T,
    field_id: T::FieldId,
    reverse: bool,
    i: int,
    pos: int,
    m: int,
)
    requires
        0 <= pos <= i <= removed.len(),
        after == removed.insert(pos, x),
        sorted_prefix(removed, field_id, reverse, i),
        forall|k: int|
            pos <= k < i ==> sort_cmp_spec(#[trigger] removed[k], x, field_id, reverse)
                == Ordering::Greater,
        pos > 0 ==> sort_cmp_spec(removed[pos - 1], x, field_id, reverse) != Ordering::Greater,
        0 <= m <= i + 1,
    ensures
        sorted_prefix(after, field_id, reverse, m),
    decreases m,
{
    if m > 1 {
        lemma_insert_sorted(removed, after, x, field_id, reverse, i, pos, m - 1);
        let k = m - 2;
        if k + 1 < pos {
            assert(after[k] == removed[k]);
            assert(after[k + 1] == removed[k + 1]);
            lemma_sorted_prefix_pair(removed, field_id, reverse, i, k + 1);
        } else if k + 1 == pos {
            assert(after[k] == removed[k]);
            assert(after[k + 1] == x);
        } else if k == pos {
            assert(after[k] == x);
            assert(after[k + 1] == removed[k]);
            lemma_sort_cmp_antisym(removed[k], x, field_id, reverse);
        } else {
            assert(after[k] == removed[k - 1]);
            assert(after[k + 1] == removed[k]);
            lemma_sorted_prefix_pair(removed, field_id, reverse, i, k);
        }
    }
}

/// Removing an element and re-inserting it elsewhere keeps the multiset of a
/// sequence.
proof fn lemma_multiset_restored<T>(
    before: Seq<T>,
    removed: Seq<T>,
    after: Seq<T>,
    i: int,
    pos: int,
    x: T,
)
    requires
        0 <= i < before.len(),
        removed == before.remove(i),
        x == before[i],
        0 <= pos <= removed.len(),
        after == removed.insert(pos, x),
    ensures
        after.to_multiset() == before.to_multiset(),
{
    broadcast use vstd::seq_lib::group_to_multiset_ensures;

    assert(removed.insert(i, x) =~= before);
    assert(removed.insert(i, x).to_multiset() == removed.to_multiset().insert(x));
    assert(after.to_multiset() == removed.to_multiset().insert(x));
}


} // verus!
