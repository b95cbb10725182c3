//! The cgroup sample shape and the derived cgroup model tree.
//!
//! A `CgroupSample` is the immutable point-in-time reading the collector hands
//! over for one cgroup directory and its children. `CgroupModel::new` walks
//! the current sample and, when one is given, the previous sample, and derives
//! percentages and per-second rates for every node, detecting recreated
//! cgroups by their inode numbers.

use crate::field::lex_cmp;
use crate::rate::{
    count_per_sec, count_per_sec_spec, count_per_sec_u64, count_per_sec_u64_spec, opt_add_milli,
    opt_add_milli_spec, opt_add_u64, opt_add_u64_spec, usec_pct, usec_pct_spec,
};
use core::cmp::Ordering;
use vstd::prelude::*;

verus! {

/// Cumulative CPU counters of one cgroup, from its `cpu.stat` file. Every
/// leaf is optional: the kernel may not report it.
#[derive(Clone, Debug, PartialEq, Default)]
pub struct CpuStat {
    pub usage_usec: Option<u64>,
    pub user_usec: Option<u64>,
    pub system_usec: Option<u64>,
    pub nr_periods: Option<u64>,
    pub nr_throttled: Option<u64>,
    pub throttled_usec: Option<u64>,
}

/// Cumulative I/O counters of one device, from a cgroup's `io.stat` line.
#[derive(Clone, Debug, PartialEq, Default)]
pub struct IoStat {
    pub rbytes: Option<u64>,
    pub wbytes: Option<u64>,
    pub rios: Option<u64>,
    pub wios: Option<u64>,
    pub dbytes: Option<u64>,
    pub dios: Option<u64>,
}

/// Memory event counters of one cgroup, from its `memory.events` file.
#[derive(Clone, Debug, PartialEq, Default)]
pub struct MemoryEvents {
    pub low: Option<u64>,
    pub high: Option<u64>,
    pub max: Option<u64>,
    pub oom: Option<u64>,
    pub oom_kill: Option<u64>,
}

/// The raw block of a cgroup's `memory.stat` file: absolute gauges first,
/// then cumulative counters that a rate can be derived from.
#[derive(Clone, Debug, PartialEq, Default)]
pub struct MemoryStat {
    pub anon: Option<u64>,
    pub file: Option<u64>,
    pub kernel_stack: Option<u64>,
    pub slab: Option<u64>,
    pub sock: Option<u64>,
    pub shmem: Option<u64>,
    pub file_mapped: Option<u64>,
    pub file_dirty: Option<u64>,
    pub file_writeback: Option<u64>,
    pub anon_thp: Option<u64>,
    pub inactive_anon: Option<u64>,
    pub active_anon: Option<u64>,
    pub inactive_file: Option<u64>,
    pub active_file: Option<u64>,
    pub unevictable: Option<u64>,
    pub slab_reclaimable: Option<u64>,
    pub slab_unreclaimable: Option<u64>,
    pub pgfault: Option<u64>,
    pub pgmajfault: Option<u64>,
    pub workingset_refault: Option<u64>,
    pub workingset_activate: Option<u64>,
    pub workingset_nodereclaim: Option<u64>,
    pub pgrefill: Option<u64>,
    pub pgscan: Option<u64>,
    pub pgsteal: Option<u64>,
    pub pgactivate: Option<u64>,
    pub pgdeactivate: Option<u64>,
    pub pglazyfree: Option<u64>,
    pub pglazyfreed: Option<u64>,
    pub thp_fault_alloc: Option<u64>,
    pub thp_collapse_alloc: Option<u64>,
}

/// Pressure-stall decaying averages of one cgroup, from its `*.pressure`
/// files, in milli-percent. The kernel has already time-normalized them, so
/// no delta is taken.
#[derive(Clone, Debug, PartialEq, Default)]
pub struct Pressure {
    pub cpu_some_pct: Option<i64>,
    pub io_some_pct: Option<i64>,
    pub io_full_pct: Option<i64>,
    pub memory_some_pct: Option<i64>,
    pub memory_full_pct: Option<i64>,
}

/// A point-in-time reading of one cgroup directory. Children are keyed by
/// name; an absent child list is read as an empty one. I/O counters are keyed
/// by device name.
#[derive(Debug, Default)]
pub struct CgroupSample {
    pub inode_number: Option<u64>,
    pub cpu_stat: Option<CpuStat>,
    pub io_stat: Option<Vec<(String, IoStat)>>,
    pub memory_current: Option<u64>,
    pub memory_swap_current: Option<u64>,
    pub memory_high: Option<i64>,
    pub memory_events: Option<MemoryEvents>,
    pub memory_stat: Option<MemoryStat>,
    pub pressure: Option<Pressure>,
    pub children: Option<Vec<(String, CgroupSample)>>,
}

/// Derived CPU metrics of one cgroup, in milli-percent and milli-events per
/// second.
#[derive(Clone, Debug, PartialEq, Default)]
pub struct CgroupCpuModel {
    pub usage_pct: Option<i64>,
    pub user_pct: Option<i64>,
    pub system_pct: Option<i64>,
    pub nr_periods_per_sec: Option<i64>,
    pub nr_throttled_per_sec: Option<i64>,
    pub throttled_pct: Option<i64>,
}

/// What the CPU model derives to from a pair of raw CPU stat blocks.
pub open spec fn cpu_model_spec(begin: CpuStat, end: CpuStat, elapsed_us: u64) -> CgroupCpuModel {
    CgroupCpuModel {
        usage_pct: usec_pct_spec(begin.usage_usec, end.usage_usec, elapsed_us),
        user_pct: usec_pct_spec(begin.user_usec, end.user_usec, elapsed_us),
        system_pct: usec_pct_spec(begin.system_usec, end.system_usec, elapsed_us),
        nr_periods_per_sec: count_per_sec_spec(begin.nr_periods, end.nr_periods, elapsed_us),
        nr_throttled_per_sec: count_per_sec_spec(begin.nr_throttled, end.nr_throttled, elapsed_us),
        throttled_pct: usec_pct_spec(begin.throttled_usec, end.throttled_usec, elapsed_us),
    }
}

impl CgroupCpuModel {
    /// Derive CPU percentages and throttling rates from two readings of a
    /// cgroup's `cpu.stat` taken `elapsed_us` microseconds apart.
    pub fn new(begin: &CpuStat, end: &CpuStat, elapsed_us: u64) -> (r: CgroupCpuModel)
        ensures
            r == cpu_model_spec(*begin, *end, elapsed_us),
    {
        CgroupCpuModel {
            usage_pct: usec_pct(begin.usage_usec, end.usage_usec, elapsed_us),
            user_pct: usec_pct(begin.user_usec, end.user_usec, elapsed_us),
            system_pct: usec_pct(begin.system_usec, end.system_usec, elapsed_us),
            nr_periods_per_sec: count_per_sec(begin.nr_periods, end.nr_periods, elapsed_us),
            nr_throttled_per_sec: count_per_sec(
                begin.nr_throttled,
                end.nr_throttled,
                elapsed_us,
            ),
            throttled_pct: usec_pct(begin.throttled_usec, end.throttled_usec, elapsed_us),
        }
    }
}

/// Derived I/O rates of one cgroup and device, in milli-bytes and
/// milli-operations per second.
#[derive(Clone, Debug, PartialEq, Default)]
pub struct CgroupIoModel {
    pub rbytes_per_sec: Option<i64>,
    pub wbytes_per_sec: Option<i64>,
    pub rios_per_sec: Option<i64>,
    pub wios_per_sec: Option<i64>,
    pub dbytes_per_sec: Option<i64>,
    pub dios_per_sec: Option<i64>,
    pub rwbytes_per_sec: Option<i64>,
}

/// What the I/O model derives to from a pair of raw I/O stat blocks.
pub open spec fn io_model_spec(begin: IoStat, end: IoStat, elapsed_us: u64) -> CgroupIoModel {
    CgroupIoModel {
        rbytes_per_sec: count_per_sec_spec(begin.rbytes, end.rbytes, elapsed_us),
        wbytes_per_sec: count_per_sec_spec(begin.wbytes, end.wbytes, elapsed_us),
        rios_per_sec: count_per_sec_spec(begin.rios, end.rios, elapsed_us),
        wios_per_sec: count_per_sec_spec(begin.wios, end.wios, elapsed_us),
        dbytes_per_sec: count_per_sec_spec(begin.dbytes, end.dbytes, elapsed_us),
        dios_per_sec: count_per_sec_spec(begin.dios, end.dios, elapsed_us),
        rwbytes_per_sec: opt_add_milli_spec(
            count_per_sec_spec(begin.rbytes, end.rbytes, elapsed_us),
            count_per_sec_spec(begin.wbytes, end.wbytes, elapsed_us),
        ),
    }
}

/// The defined all-zero I/O model: what an empty `io.stat` sums to. A cgroup
/// with no I/O at all has this total, which is distinct from an absent one.
pub open spec fn empty_io_model() -> CgroupIoModel {
    CgroupIoModel {
        rbytes_per_sec: Some(0i64),
        wbytes_per_sec: Some(0i64),
        rios_per_sec: Some(0i64),
        wios_per_sec: Some(0i64),
        dbytes_per_sec: Some(0i64),
        dios_per_sec: Some(0i64),
        rwbytes_per_sec: Some(0i64),
    }
}

/// The field-wise sum of two I/O models, with absence as the identity.
pub open spec fn io_add_spec(a: CgroupIoModel, b: CgroupIoModel) -> CgroupIoModel {
    CgroupIoModel {
        rbytes_per_sec: opt_add_milli_spec(a.rbytes_per_sec, b.rbytes_per_sec),
        wbytes_per_sec: opt_add_milli_spec(a.wbytes_per_sec, b.wbytes_per_sec),
        rios_per_sec: opt_add_milli_spec(a.rios_per_sec, b.rios_per_sec),
        wios_per_sec: opt_add_milli_spec(a.wios_per_sec, b.wios_per_sec),
        dbytes_per_sec: opt_add_milli_spec(a.dbytes_per_sec, b.dbytes_per_sec),
        dios_per_sec: opt_add_milli_spec(a.dios_per_sec, b.dios_per_sec),
        rwbytes_per_sec: opt_add_milli_spec(a.rwbytes_per_sec, b.rwbytes_per_sec),
    }
}

impl CgroupIoModel {
    /// Derive per-second I/O rates for one device from two readings taken
    /// `elapsed_us` microseconds apart.
    pub fn new(begin: &IoStat, end: &IoStat, elapsed_us: u64) -> (r: CgroupIoModel)
        ensures
            r == io_model_spec(*begin, *end, elapsed_us),
    {
        let rbytes_per_sec = count_per_sec(begin.rbytes, end.rbytes, elapsed_us);
        let wbytes_per_sec = count_per_sec(begin.wbytes, end.wbytes, elapsed_us);
        let rwbytes_per_sec = opt_add_milli(rbytes_per_sec, wbytes_per_sec);
        CgroupIoModel {
            rbytes_per_sec,
            wbytes_per_sec,
            rios_per_sec: count_per_sec(begin.rios, end.rios, elapsed_us),
            wios_per_sec: count_per_sec(begin.wios, end.wios, elapsed_us),
            dbytes_per_sec: count_per_sec(begin.dbytes, end.dbytes, elapsed_us),
            dios_per_sec: count_per_sec(begin.dios, end.dios, elapsed_us),
            rwbytes_per_sec,
        }
    }

    /// The all-zero I/O model. An empty `io.stat` means the cgroup truly has
    /// no I/O, so the total defaults to zero instead of staying absent.
    pub fn empty() -> (r: CgroupIoModel)
        ensures
            r == empty_io_model(),
    {
        CgroupIoModel {
            rbytes_per_sec: Some(0),
            wbytes_per_sec: Some(0),
            rios_per_sec: Some(0),
            wios_per_sec: Some(0),
            dbytes_per_sec: Some(0),
            dios_per_sec: Some(0),
            rwbytes_per_sec: Some(0),
        }
    }

    /// Field-wise sum of two per-device I/O models; an absent field is the
    /// identity, not zero.
    pub fn add(self, other: &CgroupIoModel) -> (r: CgroupIoModel)
        ensures
            r == io_add_spec(self, *other),
    {
        CgroupIoModel {
            rbytes_per_sec: opt_add_milli(self.rbytes_per_sec, other.rbytes_per_sec),
            wbytes_per_sec: opt_add_milli(self.wbytes_per_sec, other.wbytes_per_sec),
            rios_per_sec: opt_add_milli(self.rios_per_sec, other.rios_per_sec),
            wios_per_sec: opt_add_milli(self.wios_per_sec, other.wios_per_sec),
            dbytes_per_sec: opt_add_milli(self.dbytes_per_sec, other.dbytes_per_sec),
            dios_per_sec: opt_add_milli(self.dios_per_sec, other.dios_per_sec),
            rwbytes_per_sec: opt_add_milli(self.rwbytes_per_sec, other.rwbytes_per_sec),
        }
    }
}

/// Derived pressure-stall percentages of one cgroup, in milli-percent.
#[derive(Clone, Debug, PartialEq, Default)]
pub struct CgroupPressureModel {
    pub cpu_some_pct: Option<i64>,
    pub io_some_pct: Option<i64>,
    pub io_full_pct: Option<i64>,
    pub memory_some_pct: Option<i64>,
    pub memory_full_pct: Option<i64>,
}

/// What the pressure model carries over from the kernel's decaying averages.
pub open spec fn pressure_model_spec(p: Pressure) -> CgroupPressureModel {
    CgroupPressureModel {
        cpu_some_pct: p.cpu_some_pct,
        io_some_pct: p.io_some_pct,
        io_full_pct: p.io_full_pct,
        memory_some_pct: p.memory_some_pct,
        memory_full_pct: p.memory_full_pct,
    }
}

impl CgroupPressureModel {
    /// Carry over the kernel's ten-second decaying averages. They are already
    /// time-normalized, so no delta against a previous sample is taken.
    pub fn new(pressure: &Pressure) -> (r: CgroupPressureModel)
        ensures
            r == pressure_model_spec(*pressure),
    {
        CgroupPressureModel {
            cpu_some_pct: pressure.cpu_some_pct,
            io_some_pct: pressure.io_some_pct,
            io_full_pct: pressure.io_full_pct,
            memory_some_pct: pressure.memory_some_pct,
            memory_full_pct: pressure.memory_full_pct,
        }
    }
}

/// Derived memory metrics of one cgroup: absolute gauges in bytes, event
/// counters, and per-second rates in whole units.
#[derive(Clone, Debug, PartialEq, Default)]
pub struct CgroupMemoryModel {
    pub total: Option<u64>,
    pub swap: Option<u64>,
    pub anon: Option<u64>,
    pub file: Option<u64>,
    pub kernel_stack: Option<u64>,
    pub slab: Option<u64>,
    pub sock: Option<u64>,
    pub shmem: Option<u64>,
    pub file_mapped: Option<u64>,
    pub file_dirty: Option<u64>,
    pub file_writeback: Option<u64>,
    pub anon_thp: Option<u64>,
    pub inactive_anon: Option<u64>,
    pub active_anon: Option<u64>,
    pub inactive_file: Option<u64>,
    pub active_file: Option<u64>,
    pub unevictable: Option<u64>,
    pub slab_reclaimable: Option<u64>,
    pub slab_unreclaimable: Option<u64>,
    pub pgfault: Option<u64>,
    pub pgmajfault: Option<u64>,
    pub workingset_refault: Option<u64>,
    pub workingset_activate: Option<u64>,
    pub workingset_nodereclaim: Option<u64>,
    pub pgrefill: Option<u64>,
    pub pgscan: Option<u64>,
    pub pgsteal: Option<u64>,
    pub pgactivate: Option<u64>,
    pub pgdeactivate: Option<u64>,
    pub pglazyfree: Option<u64>,
    pub pglazyfreed: Option<u64>,
    pub thp_fault_alloc: Option<u64>,
    pub thp_collapse_alloc: Option<u64>,
    pub memory_high: Option<i64>,
    pub events_low: Option<u64>,
    pub events_high: Option<u64>,
    pub events_max: Option<u64>,
    pub events_oom: Option<u64>,
    pub events_oom_kill: Option<u64>,
}

/// The previous memory stat block and the elapsed time, when both exist.
/// Memory rates have their own begin/end pairing, independent of the
/// cgroup-level inode check: they survive a recreation that invalidates CPU
/// and I/O, and vice versa.
pub open spec fn last_memory_stat(last: Option<(CgroupSample, u64)>) -> Option<(MemoryStat, u64)> {
    match last {
        Some((l, d)) => match l.memory_stat {
            Some(st) => Some((st, d)),
            None => None,
        },
        None => None,
    }
}

/// What the memory model derives to: gauges copied from the current sample
/// alone, rates derived only when both ticks carry a raw stat block.
pub open spec fn mem_model_spec(s: CgroupSample, last: Option<(CgroupSample, u64)>) -> CgroupMemoryModel {
    let ls = last_memory_stat(last);
    let st = s.memory_stat;
    CgroupMemoryModel {
        total: s.memory_current,
        swap: s.memory_swap_current,
        memory_high: s.memory_high,
        events_low: match s.memory_events {
            Some(e) => e.low,
            None => None,
        },
        events_high: match s.memory_events {
            Some(e) => e.high,
            None => None,
        },
        events_max: match s.memory_events {
            Some(e) => e.max,
            None => None,
        },
        events_oom: match s.memory_events {
            Some(e) => e.oom,
            None => None,
        },
        events_oom_kill: match s.memory_events {
            Some(e) => e.oom_kill,
            None => None,
        },
        anon: if st is Some {
            st->0.anon
        } else {
            None
        },
        file: if st is Some {
            st->0.file
        } else {
            None
        },
        kernel_stack: if st is Some {
            st->0.kernel_stack
        } else {
            None
        },
        slab: if st is Some {
            st->0.slab
        } else {
            None
        },
        sock: if st is Some {
            st->0.sock
        } else {
            None
        },
        shmem: if st is Some {
            st->0.shmem
        } else {
            None
        },
        file_mapped: if st is Some {
            st->0.file_mapped
        } else {
            None
        },
        file_dirty: if st is Some {
            st->0.file_dirty
        } else {
            None
        },
        file_writeback: if st is Some {
            st->0.file_writeback
        } else {
            None
        },
        anon_thp: if st is Some {
            st->0.anon_thp
        } else {
            None
        },
        inactive_anon: if st is Some {
            st->0.inactive_anon
        } else {
            None
        },
        active_anon: if st is Some {
            st->0.active_anon
        } else {
            None
        },
        inactive_file: if st is Some {
            st->0.inactive_file
        } else {
            None
        },
        active_file: if st is Some {
            st->0.active_file
        } else {
            None
        },
        unevictable: if st is Some {
            st->0.unevictable
        } else {
            None
        },
        slab_reclaimable: if st is Some {
            st->0.slab_reclaimable
        } else {
            None
        },
        slab_unreclaimable: if st is Some {
            st->0.slab_unreclaimable
        } else {
            None
        },
        pgfault: match (st, ls) {
            (Some(stc), Some((lst, d))) => count_per_sec_u64_spec(lst.pgfault, stc.pgfault, d),
            _ => None,
        },
        pgmajfault: match (st, ls) {
            (Some(stc), Some((lst, d))) => count_per_sec_u64_spec(lst.pgmajfault, stc.pgmajfault, d),
            _ => None,
        },
        workingset_refault: match (st, ls) {
            (Some(stc), Some((lst, d))) => count_per_sec_u64_spec(lst.workingset_refault, stc.workingset_refault, d),
            _ => None,
        },
        workingset_activate: match (st, ls) {
            (Some(stc), Some((lst, d))) => count_per_sec_u64_spec(lst.workingset_activate, stc.workingset_activate, d),
            _ => None,
        },
        workingset_nodereclaim: match (st, ls) {
            (Some(stc), Some((lst, d))) => count_per_sec_u64_spec(lst.workingset_nodereclaim, stc.workingset_nodereclaim, d),
            _ => None,
        },
        pgrefill: match (st, ls) {
            (Some(stc), Some((lst, d))) => count_per_sec_u64_spec(lst.pgrefill, stc.pgrefill, d),
            _ => None,
        },
        pgscan: match (st, ls) {
            (Some(stc), Some((lst, d))) => count_per_sec_u64_spec(lst.pgscan, stc.pgscan, d),
            _ => None,
        },
        pgsteal: match (st, ls) {
            (Some(stc), Some((lst, d))) => count_per_sec_u64_spec(lst.pgsteal, stc.pgsteal, d),
            _ => None,
        },
        pgactivate: match (st, ls) {
            (Some(stc), Some((lst, d))) => count_per_sec_u64_spec(lst.pgactivate, stc.pgactivate, d),
            _ => None,
        },
        pgdeactivate: match (st, ls) {
            (Some(stc), Some((lst, d))) => count_per_sec_u64_spec(lst.pgdeactivate, stc.pgdeactivate, d),
            _ => None,
        },
        pglazyfree: match (st, ls) {
            (Some(stc), Some((lst, d))) => count_per_sec_u64_spec(lst.pglazyfree, stc.pglazyfree, d),
            _ => None,
        },
        pglazyfreed: match (st, ls) {
            (Some(stc), Some((lst, d))) => count_per_sec_u64_spec(lst.pglazyfreed, stc.pglazyfreed, d),
            _ => None,
        },
        thp_fault_alloc: match (st, ls) {
            (Some(stc), Some((lst, d))) => count_per_sec_u64_spec(lst.thp_fault_alloc, stc.thp_fault_alloc, d),
            _ => None,
        },
        thp_collapse_alloc: match (st, ls) {
            (Some(stc), Some((lst, d))) => count_per_sec_u64_spec(lst.thp_collapse_alloc, stc.thp_collapse_alloc, d),
            _ => None,
        },
    }
}

/// The view of an optional borrowed sample pair as plain values, for the
/// construction specs.
pub open spec fn spec_last(last: Option<(&CgroupSample, u64)>) -> Option<(CgroupSample, u64)> {
    match last {
        Some((l, d)) => Some((*l, d)),
        None => None,
    }
}

impl CgroupMemoryModel {
    /// Derive the memory model. Gauges and event counters come from the
    /// current sample alone; page-fault, reclaim and transparent-huge-page
    /// rates need the previous raw stat block too, under memory's own
    /// begin/end pairing rather than the cgroup-level inode check.
    pub fn new(sample: &CgroupSample, last: Option<(&CgroupSample, u64)>) -> (r: CgroupMemoryModel)
        ensures
            r == mem_model_spec(*sample, spec_last(last)),
    {
        let mut model = CgroupMemoryModel {
            total: sample.memory_current,
            swap: sample.memory_swap_current,
            memory_high: sample.memory_high,
            anon: None,
            file: None,
            kernel_stack: None,
            slab: None,
            sock: None,
            shmem: None,
            file_mapped: None,
            file_dirty: None,
            file_writeback: None,
            anon_thp: None,
            inactive_anon: None,
            active_anon: None,
            inactive_file: None,
            active_file: None,
            unevictable: None,
            slab_reclaimable: None,
            slab_unreclaimable: None,
            pgfault: None,
            pgmajfault: None,
            workingset_refault: None,
            workingset_activate: None,
            workingset_nodereclaim: None,
            pgrefill: None,
            pgscan: None,
            pgsteal: None,
            pgactivate: None,
            pgdeactivate: None,
            pglazyfree: None,
            pglazyfreed: None,
            thp_fault_alloc: None,
            thp_collapse_alloc: None,
            events_low: None,
            events_high: None,
            events_max: None,
            events_oom: None,
            events_oom_kill: None,
        };
        if let Some(events) = &sample.memory_events {
            model.events_low = events.low;
            model.events_high = events.high;
            model.events_max = events.max;
            model.events_oom = events.oom;
            model.events_oom_kill = events.oom_kill;
        }
        if let Some(stat) = &sample.memory_stat {
            model.anon = stat.anon;
            model.file = stat.file;
            model.kernel_stack = stat.kernel_stack;
            model.slab = stat.slab;
            model.sock = stat.sock;
            model.shmem = stat.shmem;
            model.file_mapped = stat.file_mapped;
            model.file_dirty = stat.file_dirty;
            model.file_writeback = stat.file_writeback;
            model.anon_thp = stat.anon_thp;
            model.inactive_anon = stat.inactive_anon;
            model.active_anon = stat.active_anon;
            model.inactive_file = stat.inactive_file;
            model.active_file = stat.active_file;
            model.unevictable = stat.unevictable;
            model.slab_reclaimable = stat.slab_reclaimable;
            model.slab_unreclaimable = stat.slab_unreclaimable;
            if let Some((l, delta)) = last {
                if let Some(last_stat) = &l.memory_stat {
                    model.pgfault = count_per_sec_u64(last_stat.pgfault, stat.pgfault, delta);
                    model.pgmajfault = count_per_sec_u64(
                        last_stat.pgmajfault,
                        stat.pgmajfault,
                        delta,
                    );
                    model.workingset_refault = count_per_sec_u64(
                        last_stat.workingset_refault,
                        stat.workingset_refault,
                        delta,
                    );
                    model.workingset_activate = count_per_sec_u64(
                        last_stat.workingset_activate,
                        stat.workingset_activate,
                        delta,
                    );
                    model.workingset_nodereclaim = count_per_sec_u64(
                        last_stat.workingset_nodereclaim,
                        stat.workingset_nodereclaim,
                        delta,
                    );
                    model.pgrefill = count_per_sec_u64(last_stat.pgrefill, stat.pgrefill, delta);
                    model.pgscan = count_per_sec_u64(last_stat.pgscan, stat.pgscan, delta);
                    model.pgsteal = count_per_sec_u64(last_stat.pgsteal, stat.pgsteal, delta);
                    model.pgactivate = count_per_sec_u64(
                        last_stat.pgactivate,
                        stat.pgactivate,
                        delta,
                    );
                    model.pgdeactivate = count_per_sec_u64(
                        last_stat.pgdeactivate,
                        stat.pgdeactivate,
                        delta,
                    );
                    model.pglazyfree = count_per_sec_u64(
                        last_stat.pglazyfree,
                        stat.pglazyfree,
                        delta,
                    );
                    model.pglazyfreed = count_per_sec_u64(
                        last_stat.pglazyfreed,
                        stat.pglazyfreed,
                        delta,
                    );
                    model.thp_fault_alloc = count_per_sec_u64(
                        last_stat.thp_fault_alloc,
                        stat.thp_fault_alloc,
                        delta,
                    );
                    model.thp_collapse_alloc = count_per_sec_u64(
                        last_stat.thp_collapse_alloc,
                        stat.thp_collapse_alloc,
                        delta,
                    );
                }
            }
        }
        model
    }

    /// Field-wise sum of two memory models, used to synthesize the root's
    /// values from its direct children. `memory_high` is a limit, not a
    /// counter, so it does not aggregate.
    pub fn add(self, other: CgroupMemoryModel) -> (r: CgroupMemoryModel)
        ensures
            r == mem_add_spec(self, other),
    {
        CgroupMemoryModel {
            total: opt_add_u64(self.total, other.total),
            swap: opt_add_u64(self.swap, other.swap),
            anon: opt_add_u64(self.anon, other.anon),
            file: opt_add_u64(self.file, other.file),
            kernel_stack: opt_add_u64(self.kernel_stack, other.kernel_stack),
            slab: opt_add_u64(self.slab, other.slab),
            sock: opt_add_u64(self.sock, other.sock),
            shmem: opt_add_u64(self.shmem, other.shmem),
            file_mapped: opt_add_u64(self.file_mapped, other.file_mapped),
            file_dirty: opt_add_u64(self.file_dirty, other.file_dirty),
            file_writeback: opt_add_u64(self.file_writeback, other.file_writeback),
            anon_thp: opt_add_u64(self.anon_thp, other.anon_thp),
            inactive_anon: opt_add_u64(self.inactive_anon, other.inactive_anon),
            active_anon: opt_add_u64(self.active_anon, other.active_anon),
            inactive_file: opt_add_u64(self.inactive_file, other.inactive_file),
            active_file: opt_add_u64(self.active_file, other.active_file),
            unevictable: opt_add_u64(self.unevictable, other.unevictable),
            slab_reclaimable: opt_add_u64(self.slab_reclaimable, other.slab_reclaimable),
            slab_unreclaimable: opt_add_u64(self.slab_unreclaimable, other.slab_unreclaimable),
            pgfault: opt_add_u64(self.pgfault, other.pgfault),
            pgmajfault: opt_add_u64(self.pgmajfault, other.pgmajfault),
            workingset_refault: opt_add_u64(self.workingset_refault, other.workingset_refault),
            workingset_activate: opt_add_u64(self.workingset_activate, other.workingset_activate),
            workingset_nodereclaim: opt_add_u64(
                self.workingset_nodereclaim,
                other.workingset_nodereclaim,
            ),
            pgrefill: opt_add_u64(self.pgrefill, other.pgrefill),
            pgscan: opt_add_u64(self.pgscan, other.pgscan),
            pgsteal: opt_add_u64(self.pgsteal, other.pgsteal),
            pgactivate: opt_add_u64(self.pgactivate, other.pgactivate),
            pgdeactivate: opt_add_u64(self.pgdeactivate, other.pgdeactivate),
            pglazyfree: opt_add_u64(self.pglazyfree, other.pglazyfree),
            pglazyfreed: opt_add_u64(self.pglazyfreed, other.pglazyfreed),
            thp_fault_alloc: opt_add_u64(self.thp_fault_alloc, other.thp_fault_alloc),
            thp_collapse_alloc: opt_add_u64(self.thp_collapse_alloc, other.thp_collapse_alloc),
            memory_high: None,
            events_low: opt_add_u64(self.events_low, other.events_low),
            events_high: opt_add_u64(self.events_high, other.events_high),
            events_max: opt_add_u64(self.events_max, other.events_max),
            events_oom: opt_add_u64(self.events_oom, other.events_oom),
            events_oom_kill: opt_add_u64(self.events_oom_kill, other.events_oom_kill),
        }
    }
}

/// The field-wise sum of two memory models, with absence as the identity and
/// `memory_high` dropped.
pub open spec fn mem_add_spec(a: CgroupMemoryModel, b: CgroupMemoryModel) -> CgroupMemoryModel {
    CgroupMemoryModel {
        total: opt_add_u64_spec(a.total, b.total),
        swap: opt_add_u64_spec(a.swap, b.swap),
        anon: opt_add_u64_spec(a.anon, b.anon),
        file: opt_add_u64_spec(a.file, b.file),
        kernel_stack: opt_add_u64_spec(a.kernel_stack, b.kernel_stack),
        slab: opt_add_u64_spec(a.slab, b.slab),
        sock: opt_add_u64_spec(a.sock, b.sock),
        shmem: opt_add_u64_spec(a.shmem, b.shmem),
        file_mapped: opt_add_u64_spec(a.file_mapped, b.file_mapped),
        file_dirty: opt_add_u64_spec(a.file_dirty, b.file_dirty),
        file_writeback: opt_add_u64_spec(a.file_writeback, b.file_writeback),
        anon_thp: opt_add_u64_spec(a.anon_thp, b.anon_thp),
        inactive_anon: opt_add_u64_spec(a.inactive_anon, b.inactive_anon),
        active_anon: opt_add_u64_spec(a.active_anon, b.active_anon),
        inactive_file: opt_add_u64_spec(a.inactive_file, b.inactive_file),
        active_file: opt_add_u64_spec(a.active_file, b.active_file),
        unevictable: opt_add_u64_spec(a.unevictable, b.unevictable),
        slab_reclaimable: opt_add_u64_spec(a.slab_reclaimable, b.slab_reclaimable),
        slab_unreclaimable: opt_add_u64_spec(a.slab_unreclaimable, b.slab_unreclaimable),
        pgfault: opt_add_u64_spec(a.pgfault, b.pgfault),
        pgmajfault: opt_add_u64_spec(a.pgmajfault, b.pgmajfault),
        workingset_refault: opt_add_u64_spec(a.workingset_refault, b.workingset_refault),
        workingset_activate: opt_add_u64_spec(a.workingset_activate, b.workingset_activate),
        workingset_nodereclaim: opt_add_u64_spec(
            a.workingset_nodereclaim,
            b.workingset_nodereclaim,
        ),
        pgrefill: opt_add_u64_spec(a.pgrefill, b.pgrefill),
        pgscan: opt_add_u64_spec(a.pgscan, b.pgscan),
        pgsteal: opt_add_u64_spec(a.pgsteal, b.pgsteal),
        pgactivate: opt_add_u64_spec(a.pgactivate, b.pgactivate),
        pgdeactivate: opt_add_u64_spec(a.pgdeactivate, b.pgdeactivate),
        pglazyfree: opt_add_u64_spec(a.pglazyfree, b.pglazyfree),
        pglazyfreed: opt_add_u64_spec(a.pglazyfreed, b.pglazyfreed),
        thp_fault_alloc: opt_add_u64_spec(a.thp_fault_alloc, b.thp_fault_alloc),
        thp_collapse_alloc: opt_add_u64_spec(a.thp_collapse_alloc, b.thp_collapse_alloc),
        memory_high: None,
        events_low: opt_add_u64_spec(a.events_low, b.events_low),
        events_high: opt_add_u64_spec(a.events_high, b.events_high),
        events_max: opt_add_u64_spec(a.events_max, b.events_max),
        events_oom: opt_add_u64_spec(a.events_oom, b.events_oom),
        events_oom_kill: opt_add_u64_spec(a.events_oom_kill, b.events_oom_kill),
    }
}


/// The children of a sample: an absent child list counts as an empty one.
pub open spec fn sample_children(s: CgroupSample) -> Seq<(String, CgroupSample)> {
    match s.children {
        Some(v) => v@,
        None => Seq::empty(),
    }
}

/// The number of nodes in a sample tree, the root included.
pub open spec fn node_count(s: CgroupSample) -> nat
    decreases s, sample_children(s).len() + 1,
{
    1 + children_node_count(s, sample_children(s).len() as int)
}

/// The number of nodes under the first `i` children of a sample.
pub open spec fn children_node_count(s: CgroupSample, i: int) -> nat
    decreases s, i,
{
    if i <= 0 || i > sample_children(s).len() {
        0
    } else {
        children_node_count(s, i - 1) + node_count(sample_children(s)[i - 1].1)
    }
}

/// Two ticks of one path name the same cgroup: either both carry an inode
/// number and they agree, or neither does (a kernel that reports none).
/// Exactly one carrying a number is a reporting inconsistency and counts as a
/// different identity.
pub open spec fn inode_continuous(prev: CgroupSample, cur: CgroupSample) -> bool {
    ||| (prev.inode_number is Some && cur.inode_number is Some && prev.inode_number
        == cur.inode_number)
    ||| (prev.inode_number is None && cur.inode_number is None)
}

/// The previous sample, kept only when the inode check confirms the identity
/// is continuous; otherwise the node is treated as recreated.
pub open spec fn matched_last(s: CgroupSample, last: Option<(CgroupSample, u64)>) -> Option<
    (CgroupSample, u64),
> {
    match last {
        Some((l, d)) => if inode_continuous(l, s) {
            Some((l, d))
        } else {
            None
        },
        None => None,
    }
}

/// Whether a node is flagged as recreated: a previous sample existed but the
/// inode check rejected it.
pub open spec fn recreate_spec(s: CgroupSample, last: Option<(CgroupSample, u64)>) -> bool {
    last is Some && matched_last(s, last) is None
}

/// The CPU model of a node: derived only when the identity is continuous and
/// both ticks carry a raw CPU stat block.
pub open spec fn cpu_field_spec(s: CgroupSample, cont: Option<(CgroupSample, u64)>) -> Option<
    CgroupCpuModel,
> {
    match cont {
        Some((l, d)) => match (l.cpu_stat, s.cpu_stat) {
            (Some(b), Some(e)) => Some(cpu_model_spec(b, e, d)),
            _ => None,
        },
        None => None,
    }
}

/// The first I/O stat block under the given device name, scanning from the
/// front.
pub open spec fn lookup_io(begin: Seq<(String, IoStat)>, name: Seq<char>) -> Option<IoStat>
    decreases begin.len(),
{
    if begin.len() == 0 {
        None
    } else if begin[0].0@ == name {
        Some(begin[0].1)
    } else {
        lookup_io(begin.drop_first(), name)
    }
}

/// The per-device I/O models derived from the first `i` devices of the
/// current tick, keeping a device only when the previous tick read it too.
pub open spec fn io_map_upto(
    begin: Seq<(String, IoStat)>,
    end: Seq<(String, IoStat)>,
    elapsed_us: u64,
    i: int,
) -> Seq<(String, CgroupIoModel)>
    decreases i,
{
    if i <= 0 || i > end.len() {
        Seq::empty()
    } else {
        io_map_upto(begin, end, elapsed_us, i - 1) + (match lookup_io(begin, end[i - 1].0@) {
            Some(b) => seq![(end[i - 1].0, io_model_spec(b, end[i - 1].1, elapsed_us))],
            None => Seq::empty(),
        })
    }
}

/// The sum of the first `i` per-device models, seeded with the explicit
/// all-zero identity: an empty map still has a defined zero total.
pub open spec fn io_total_upto(map: Seq<(String, CgroupIoModel)>, i: int) -> CgroupIoModel
    decreases i,
{
    if i <= 0 || i > map.len() {
        empty_io_model()
    } else {
        io_add_spec(io_total_upto(map, i - 1), map[i - 1].1)
    }
}

/// How the per-device map and its total must stand in a built node: present
/// exactly when the identity is continuous and both ticks carry `io.stat`,
/// with the total the explicit sum over all matched devices.
pub open spec fn io_fields_match(
    m_io: Option<Vec<(String, CgroupIoModel)>>,
    m_io_total: Option<CgroupIoModel>,
    s: CgroupSample,
    cont: Option<(CgroupSample, u64)>,
) -> bool {
    match cont {
        Some((l, d)) => match (l.io_stat, s.io_stat) {
            (Some(b), Some(e)) => {
                let map = io_map_upto(b@, e@, d, e@.len() as int);
                &&& m_io is Some
                &&& m_io->0@ == map
                &&& m_io_total == Some(io_total_upto(map, map.len() as int))
            },
            _ => m_io is None && m_io_total is None,
        },
        None => m_io is None && m_io_total is None,
    }
}

/// The first child sample under the given name, scanning from the front.
pub open spec fn lookup_child(cs: Seq<(String, CgroupSample)>, name: Seq<char>) -> Option<
    CgroupSample,
>
    decreases cs.len(),
{
    if cs.len() == 0 {
        None
    } else if cs[0].0@ == name {
        Some(cs[0].1)
    } else {
        lookup_child(cs.drop_first(), name)
    }
}

/// The previous sample handed to a child: the like-named child of the
/// previous tick, when there is one. A child absent from the previous tick
/// simply starts without history.
pub open spec fn child_last(last: Option<(CgroupSample, u64)>, name: Seq<char>) -> Option<
    (CgroupSample, u64),
> {
    match last {
        Some((l, d)) => match lookup_child(sample_children(l), name) {
            Some(c) => Some((c, d)),
            None => None,
        },
        None => None,
    }
}

/// The derived cgroup model of one node and, recursively, of its children.
#[derive(Debug, Default)]
pub struct CgroupModel {
    pub name: String,
    pub full_path: String,
    pub inode_number: Option<u64>,
    pub depth: u32,
    pub cpu: Option<CgroupCpuModel>,
    pub memory: Option<CgroupMemoryModel>,
    pub io: Option<Vec<(String, CgroupIoModel)>>,
    pub io_total: Option<CgroupIoModel>,
    pub pressure: Option<CgroupPressureModel>,
    pub children: Vec<CgroupModel>,
    pub count: u32,
    pub recreate_flag: bool,
}

/// What a built model tree is, node for node: every field of every node is
/// pinned to what the two samples and the elapsed time derive to.
pub open spec fn model_matches(
    m: CgroupModel,
    name: Seq<char>,
    path: Seq<char>,
    depth: u32,
    s: CgroupSample,
    last: Option<(CgroupSample, u64)>,
) -> bool
    decreases s, sample_children(s).len() + 1,
{
    let cont = matched_last(s, last);
    let kids = sample_children(s);
    &&& m.name@ == name
    &&& m.full_path@ == path
    &&& m.inode_number == s.inode_number
    &&& m.depth == depth
    &&& m.recreate_flag == recreate_spec(s, last)
    &&& m.cpu == cpu_field_spec(s, cont)
    &&& io_fields_match(m.io, m.io_total, s, cont)
    &&& m.memory == Some(mem_model_spec(s, last))
    &&& m.pressure == (match s.pressure {
        Some(p) => Some(pressure_model_spec(p)),
        None => None,
    })
    &&& m.count == node_count(s)
    &&& m.children@.len() == kids.len()
    &&& children_match_upto(m.children@, path, depth, s, last, kids.len() as int)
}

/// The first `i` built children each match the like-positioned child of the
/// current sample, paired with the like-named child of the previous one.
pub open spec fn children_match_upto(
    children: Seq<CgroupModel>,
    path: Seq<char>,
    depth: u32,
    s: CgroupSample,
    last: Option<(CgroupSample, u64)>,
    i: int,
) -> bool
    decreases s, i,
{
    if i <= 0 || i > sample_children(s).len() || i > children.len() {
        true
    } else {
        let kids = sample_children(s);
        &&& children_match_upto(children, path, depth, s, last, i - 1)
        &&& model_matches(
            children[i - 1],
            kids[i - 1].0@,
            path + "/"@ + kids[i - 1].0@,
            (depth + 1) as u32,
            kids[i - 1].1,
            child_last(last, kids[i - 1].0@),
        )
    }
}

/// Appending a new child does not disturb what holds of the first `i`.
proof fn lemma_children_match_push(
    children: Seq<CgroupModel>,
    cm: CgroupModel,
    path: Seq<char>,
    depth: u32,
    s: CgroupSample,
    last: Option<(CgroupSample, u64)>,
    i: int,
)
    requires
        i <= children.len(),
        children_match_upto(children, path, depth, s, last, i),
    ensures
        children_match_upto(children.push(cm), path, depth, s, last, i),
    decreases i,
{
    if i > 0 && i <= sample_children(s).len() {
        lemma_children_match_push(children, cm, path, depth, s, last, i - 1);
        assert(children.push(cm)[i - 1] == children[i - 1]);
    }
}


/// Join a parent path and a child name with the path separator.
fn path_join(parent: &String, child: &String) -> (r: String)
    ensures
        r@ == parent@ + "/"@ + child@,
{
    let mut r = parent.clone();
    r.append("/");
    r.append(child.as_str());
    r
}

/// Find the I/O stat block of the named device in the previous tick.
fn find_io<'a>(begin: &'a Vec<(String, IoStat)>, name: &String) -> (r: Option<&'a IoStat>)
    ensures
        match r {
            Some(b) => lookup_io(begin@, name@) == Some(*b),
            None => lookup_io(begin@, name@) is None,
        },
{
    let n = begin.len();
    proof {
        assert(begin@.skip(0) =~= begin@);
    }
    for i in 0..n
        invariant
            n == begin@.len(),
            lookup_io(begin@, name@) == lookup_io(begin@.skip(i as int), name@),
    {
        if begin[i].0 == *name {
            proof {
                lemma_lookup_io_found(begin@, name@, i as int);
            }
            return Some(&begin[i].1);
        }
        proof {
            lemma_lookup_io_step(begin@, name@, i as int);
        }
    }
    None
}

/// Scanning past a device that does not match leaves the lookup unchanged.
proof fn lemma_lookup_io_step(b: Seq<(String, IoStat)>, name: Seq<char>, i: int)
    requires
        0 <= i < b.len(),
        b[i].0@ != name,
    ensures
        lookup_io(b.skip(i), name) == lookup_io(b.skip(i + 1), name),
{
    assert(b.skip(i)[0] == b[i]);
    assert(b.skip(i).drop_first() =~= b.skip(i + 1));
}

/// A matching device at the scan position is the lookup's result.
proof fn lemma_lookup_io_found(b: Seq<(String, IoStat)>, name: Seq<char>, i: int)
    requires
        0 <= i < b.len(),
        b[i].0@ == name,
    ensures
        lookup_io(b.skip(i), name) == Some(b[i].1),
{
    assert(b.skip(i)[0] == b[i]);
}

/// Find the like-named child in the previous tick's child list.
fn find_child<'a>(cs: &'a Vec<(String, CgroupSample)>, name: &String) -> (r: Option<
    &'a CgroupSample,
>)
    ensures
        match r {
            Some(c) => lookup_child(cs@, name@) == Some(*c),
            None => lookup_child(cs@, name@) is None,
        },
{
    let n = cs.len();
    proof {
        assert(cs@.skip(0) =~= cs@);
    }
    for i in 0..n
        invariant
            n == cs@.len(),
            lookup_child(cs@, name@) == lookup_child(cs@.skip(i as int), name@),
    {
        if cs[i].0 == *name {
            proof {
                lemma_lookup_child_found(cs@, name@, i as int);
            }
            return Some(&cs[i].1);
        }
        proof {
            lemma_lookup_child_step(cs@, name@, i as int);
        }
    }
    None
}

/// Scanning past a child that does not match leaves the lookup unchanged.
proof fn lemma_lookup_child_step(cs: Seq<(String, CgroupSample)>, name: Seq<char>, i: int)
    requires
        0 <= i < cs.len(),
        cs[i].0@ != name,
    ensures
        lookup_child(cs.skip(i), name) == lookup_child(cs.skip(i + 1), name),
{
    assert(cs.skip(i)[0] == cs[i]);
    assert(cs.skip(i).drop_first() =~= cs.skip(i + 1));
}

/// A matching child at the scan position is the lookup's result.
proof fn lemma_lookup_child_found(cs: Seq<(String, CgroupSample)>, name: Seq<char>, i: int)
    requires
        0 <= i < cs.len(),
        cs[i].0@ == name,
    ensures
        lookup_child(cs.skip(i), name) == Some(cs[i].1),
{
    assert(cs.skip(i)[0] == cs[i]);
}

/// Derive the per-device I/O models: the current tick's devices, in order,
/// each kept only when the previous tick read the same device.
fn build_io_map(
    begin: &Vec<(String, IoStat)>,
    end: &Vec<(String, IoStat)>,
    elapsed_us: u64,
) -> (r: Vec<(String, CgroupIoModel)>)
    ensures
        r@ == io_map_upto(begin@, end@, elapsed_us, end@.len() as int),
{
    let mut r: Vec<(String, CgroupIoModel)> = Vec::new();
    let n = end.len();
    for i in 0..n
        invariant
            n == end@.len(),
            r@ == io_map_upto(begin@, end@, elapsed_us, i as int),
    {
        let device_name = &end[i].0;
        match find_io(begin, device_name) {
            Some(b) => {
                let model = CgroupIoModel::new(b, &end[i].1, elapsed_us);
                r.push((device_name.clone(), model));
            },
            None => (),
        }
    }
    r
}

/// Sum a per-device map into the explicit all-zero identity: an empty map
/// yields the defined zero total, not an absent one.
fn io_total_of(map: &Vec<(String, CgroupIoModel)>) -> (r: CgroupIoModel)
    ensures
        r == io_total_upto(map@, map@.len() as int),
{
    let mut acc = CgroupIoModel::empty();
    let n = map.len();
    for i in 0..n
        invariant
            n == map@.len(),
            acc == io_total_upto(map@, i as int),
    {
        acc = acc.add(&map[i].1);
    }
    acc
}

/// The sum of counts over the first `i` children never shrinks as `i` grows.
proof fn lemma_children_node_count_mono(s: CgroupSample, i: int, j: int)
    requires
        0 <= i <= j <= sample_children(s).len(),
    ensures
        children_node_count(s, i) <= children_node_count(s, j),
    decreases j - i,
{
    if i < j {
        lemma_children_node_count_mono(s, i, j - 1);
    }
}

impl CgroupModel {
    /// Build the derived model of one cgroup node and, recursively, of every
    /// child named by the current sample.
    ///
    /// The inode check decides whether the previous sample names the same
    /// cgroup; when it does not, the CPU and I/O deltas are withheld and the
    /// node is flagged as recreated. Memory and pressure are derived under
    /// their own validity conditions, independent of that check. Children
    /// absent from the previous tick start without history. The node count is
    /// one plus the counts of all children, which must fit the counter.
    pub fn new(
        name: String,
        full_path: String,
        depth: u32,
        sample: &CgroupSample,
        last: Option<(&CgroupSample, u64)>,
    ) -> (r: CgroupModel)
        requires
            depth + node_count(*sample) <= u32::MAX,
        ensures
            model_matches(r, name@, full_path@, depth, *sample, spec_last(last)),
            r.recreate_flag == recreate_spec(*sample, spec_last(last)),
            r.recreate_flag ==> r.cpu is None && r.io is None && r.io_total is None,
            r.count == node_count(*sample),
        decreases *sample,
    {
        let ghost last_val = spec_last(last);
        let ghost name0 = name@;
        let ghost path0 = full_path@;
        let last_matched: Option<(&CgroupSample, u64)> = match last {
            Some((l, d)) => {
                match (l.inode_number, sample.inode_number) {
                    (Some(prev_inode), Some(cur_inode)) => {
                        if prev_inode == cur_inode {
                            Some((l, d))
                        } else {
                            None
                        }
                    },
                    (None, None) => Some((l, d)),
                    _ => None,
                }
            },
            None => None,
        };
        proof {
            assert(spec_last(last_matched) == matched_last(*sample, last_val));
        }
        let recreate_flag = last.is_some() && last_matched.is_none();
        let mut cpu: Option<CgroupCpuModel> = None;
        let mut io: Option<Vec<(String, CgroupIoModel)>> = None;
        let mut io_total: Option<CgroupIoModel> = None;
        if let Some((l, delta)) = last_matched {
            match (&l.cpu_stat, &sample.cpu_stat) {
                (Some(begin), Some(end)) => {
                    cpu = Some(CgroupCpuModel::new(begin, end, delta));
                },
                _ => (),
            }
            match (&l.io_stat, &sample.io_stat) {
                (Some(begin), Some(end)) => {
                    let map = build_io_map(begin, end, delta);
                    io_total = Some(io_total_of(&map));
                    io = Some(map);
                },
                _ => (),
            }
        }
        let memory = Some(CgroupMemoryModel::new(sample, last));
        let pressure = match &sample.pressure {
            Some(p) => Some(CgroupPressureModel::new(p)),
            None => None,
        };
        let mut children: Vec<CgroupModel> = Vec::new();
        let mut nr_descendants: u32 = 0;
        if let Some(kids) = &sample.children {
            let n = kids.len();
            for i in 0..n
                invariant
                    n == kids@.len(),
                    kids@ == sample_children(*sample),
                    depth + node_count(*sample) <= u32::MAX,
                    last_val == spec_last(last),
                    children@.len() == i,
                    nr_descendants == children_node_count(*sample, i as int),
                    children_match_upto(
                        children@,
                        full_path@,
                        depth,
                        *sample,
                        last_val,
                        i as int,
                    ),
            {
                let child_name = &kids[i].0;
                let child_sample = &kids[i].1;
                let child_path = path_join(&full_path, child_name);
                let child_last_pair: Option<(&CgroupSample, u64)> = match last {
                    Some((l, d)) => {
                        match &l.children {
                            Some(last_kids) => {
                                match find_child(last_kids, child_name) {
                                    Some(c) => Some((c, d)),
                                    None => None,
                                }
                            },
                            None => None,
                        }
                    },
                    None => None,
                };
                proof {
                    assert(spec_last(child_last_pair) == child_last(last_val, child_name@));
                    lemma_children_node_count_mono(*sample, i + 1, kids@.len() as int);
                    assert(children_node_count(*sample, i + 1) == children_node_count(
                        *sample,
                        i as int,
                    ) + node_count(kids@[i as int].1));
                }
                let child_model = CgroupModel::new(
                    child_name.clone(),
                    child_path,
                    depth + 1,
                    child_sample,
                    child_last_pair,
                );
                nr_descendants = nr_descendants + child_model.count;
                proof {
                    lemma_children_match_push(
                        children@,
                        child_model,
                        full_path@,
                        depth,
                        *sample,
                        last_val,
                        i as int,
                    );
                }
                children.push(child_model);
            }
        }
        proof {
            if sample.children is None {
                assert(sample_children(*sample) =~= Seq::empty());
            }
            assert(nr_descendants == children_node_count(
                *sample,
                sample_children(*sample).len() as int,
            ));
            assert(node_count(*sample) == 1 + children_node_count(
                *sample,
                sample_children(*sample).len() as int,
            ));
            assert(children_match_upto(
                children@,
                full_path@,
                depth,
                *sample,
                last_val,
                sample_children(*sample).len() as int,
            ));
        }
        let r = CgroupModel {
            name,
            full_path,
            inode_number: sample.inode_number,
            depth,
            cpu,
            memory,
            io,
            io_total,
            pressure,
            children,
            count: nr_descendants + 1,
            recreate_flag,
        };
        proof {
            assert(model_matches(r, name0, path0, depth, *sample, last_val));
        }
        r
    }
}


/// The sum of two optional memory models, with absence as the identity.
pub open spec fn opt_mem_add_spec(
    a: Option<CgroupMemoryModel>,
    b: Option<CgroupMemoryModel>,
) -> Option<CgroupMemoryModel> {
    match (a, b) {
        (Some(x), Some(y)) => Some(mem_add_spec(x, y)),
        (Some(x), None) => Some(x),
        (None, Some(y)) => Some(y),
        (None, None) => None,
    }
}

/// Addition over optional memory models: absence is the identity, two present
/// models add field-wise.
pub fn opt_add_memory(a: Option<CgroupMemoryModel>, b: Option<CgroupMemoryModel>) -> (r: Option<
    CgroupMemoryModel,
>)
    ensures
        r == opt_mem_add_spec(a, b),
{
    match (a, b) {
        (Some(x), Some(y)) => Some(x.add(y)),
        (Some(x), None) => Some(x),
        (None, Some(y)) => Some(y),
        (None, None) => None,
    }
}

/// The running sum of the first `i` children's memory models, starting from
/// absence: a root with no reporting children keeps an absent model.
pub open spec fn aggr_memory_upto(children: Seq<CgroupModel>, i: int) -> Option<
    CgroupMemoryModel,
>
    decreases i,
{
    if i <= 0 || i > children.len() {
        None
    } else {
        opt_mem_add_spec(aggr_memory_upto(children, i - 1), children[i - 1].memory)
    }
}

/// An exact copy of a memory model, field for field.
fn mem_copy(m: &CgroupMemoryModel) -> (r: CgroupMemoryModel)
    ensures
        r == *m,
{
    CgroupMemoryModel {
        total: m.total,
        swap: m.swap,
        anon: m.anon,
        file: m.file,
        kernel_stack: m.kernel_stack,
        slab: m.slab,
        sock: m.sock,
        shmem: m.shmem,
        file_mapped: m.file_mapped,
        file_dirty: m.file_dirty,
        file_writeback: m.file_writeback,
        anon_thp: m.anon_thp,
        inactive_anon: m.inactive_anon,
        active_anon: m.active_anon,
        inactive_file: m.inactive_file,
        active_file: m.active_file,
        unevictable: m.unevictable,
        slab_reclaimable: m.slab_reclaimable,
        slab_unreclaimable: m.slab_unreclaimable,
        pgfault: m.pgfault,
        pgmajfault: m.pgmajfault,
        workingset_refault: m.workingset_refault,
        workingset_activate: m.workingset_activate,
        workingset_nodereclaim: m.workingset_nodereclaim,
        pgrefill: m.pgrefill,
        pgscan: m.pgscan,
        pgsteal: m.pgsteal,
        pgactivate: m.pgactivate,
        pgdeactivate: m.pgdeactivate,
        pglazyfree: m.pglazyfree,
        pglazyfreed: m.pglazyfreed,
        thp_fault_alloc: m.thp_fault_alloc,
        thp_collapse_alloc: m.thp_collapse_alloc,
        memory_high: m.memory_high,
        events_low: m.events_low,
        events_high: m.events_high,
        events_max: m.events_max,
        events_oom: m.events_oom,
        events_oom_kill: m.events_oom_kill,
    }
}

impl CgroupModel {
    /// Overwrite the root's own memory model with the field-wise sum of its
    /// direct children's: the raw counters of the true root are not
    /// representative, so the top level is synthesized.
    pub fn aggr_top_level_val(self) -> (r: CgroupModel)
        ensures
            r == (CgroupModel {
                memory: aggr_memory_upto(self.children@, self.children@.len() as int),
                ..self
            }),
    {
        let mut acc: Option<CgroupMemoryModel> = None;
        let n = self.children.len();
        for i in 0..n
            invariant
                n == self.children@.len(),
                acc == aggr_memory_upto(self.children@, i as int),
        {
            let child_memory: Option<CgroupMemoryModel> = match &self.children[i].memory {
                Some(m) => Some(mem_copy(m)),
                None => None,
            };
            acc = opt_add_memory(acc, child_memory);
        }
        let mut r = self;
        r.memory = acc;
        r
    }
}

/// The counts of the first `i` nodes of a built child list, summed.
pub open spec fn sum_child_counts(cs: Seq<CgroupModel>, i: int) -> int
    decreases i,
{
    if i <= 0 || i > cs.len() {
        0
    } else {
        sum_child_counts(cs, i - 1) + cs[i - 1].count
    }
}

/// The count invariant of a built tree: every node's `count` is one more than
/// the sum of its children's counts.
pub open spec fn tree_counts_ok(m: CgroupModel) -> bool
    decreases m, m.children@.len() + 1,
{
    &&& m.count == 1 + sum_child_counts(m.children@, m.children@.len() as int)
    &&& children_counts_ok(m, m.children@.len() as int)
}

/// The count invariant, over the first `i` children of a node.
pub open spec fn children_counts_ok(m: CgroupModel, i: int) -> bool
    decreases m, i,
{
    if i <= 0 || i > m.children@.len() {
        true
    } else {
        children_counts_ok(m, i - 1) && tree_counts_ok(m.children@[i - 1])
    }
}

/// Every tree the builder returns satisfies the count invariant: at every
/// node, `count` equals one plus the sum of the children's counts, for any
/// input sample tree.
pub proof fn lemma_count_invariant(
    m: CgroupModel,
    name: Seq<char>,
    path: Seq<char>,
    depth: u32,
    s: CgroupSample,
    last: Option<(CgroupSample, u64)>,
)
    requires
        model_matches(m, name, path, depth, s, last),
    ensures
        tree_counts_ok(m),
    decreases s, sample_children(s).len() + 1,
{
    lemma_children_counts(m, path, depth, s, last, sample_children(s).len() as int);
}

/// The induction over a node's children for the count invariant: each built
/// child obeys it, and the partial sums of the built counts equal the sample
/// tree's partial node counts.
proof fn lemma_children_counts(
    m: CgroupModel,
    path: Seq<char>,
    depth: u32,
    s: CgroupSample,
    last: Option<(CgroupSample, u64)>,
    i: int,
)
    requires
        children_match_upto(m.children@, path, depth, s, last, i),
        m.children@.len() == sample_children(s).len(),
        0 <= i <= sample_children(s).len(),
    ensures
        children_counts_ok(m, i),
        sum_child_counts(m.children@, i) == children_node_count(s, i),
    decreases s, i,
{
    if i > 0 {
        lemma_children_counts(m, path, depth, s, last, i - 1);
        let kids = sample_children(s);
        let child = m.children@[i - 1];
        lemma_count_invariant(
            child,
            kids[i - 1].0@,
            path + "/"@ + kids[i - 1].0@,
            (depth + 1) as u32,
            kids[i - 1].1,
            child_last(last, kids[i - 1].0@),
        );
    }
}


/// The first `m` keys of a sample's child list are strictly increasing in
/// lexicographic order, pair by pair.
pub open spec fn names_sorted_upto(cs: Seq<(String, CgroupSample)>, m: int) -> bool
    decreases m,
{
    if m <= 1 || m > cs.len() {
        true
    } else {
        &&& names_sorted_upto(cs, m - 1)
        &&& lex_cmp(cs[m - 2].0@, cs[m - 1].0@) == Ordering::Less
    }
}

/// The collector's contract for child sets: at every node of a sample tree,
/// the child list is strictly sorted by name — children form a set keyed by
/// name, so names are unique and in order.
pub open spec fn sample_names_sorted(s: CgroupSample) -> bool
    decreases s, sample_children(s).len() + 1,
{
    &&& names_sorted_upto(sample_children(s), sample_children(s).len() as int)
    &&& children_samples_sorted_upto(s, sample_children(s).len() as int)
}

/// The collector's contract, over the first `i` child subtrees.
pub open spec fn children_samples_sorted_upto(s: CgroupSample, i: int) -> bool
    decreases s, i,
{
    if i <= 0 || i > sample_children(s).len() {
        true
    } else {
        &&& children_samples_sorted_upto(s, i - 1)
        &&& sample_names_sorted(sample_children(s)[i - 1].1)
    }
}

/// The first `m` built children are strictly name-sorted, pair by pair.
pub open spec fn model_names_sorted_upto(cs: Seq<CgroupModel>, m: int) -> bool
    decreases m,
{
    if m <= 1 || m > cs.len() {
        true
    } else {
        &&& model_names_sorted_upto(cs, m - 1)
        &&& lex_cmp(cs[m - 2].name@, cs[m - 1].name@) == Ordering::Less
    }
}

/// The ordered-set invariant of a built tree: at every node, the children are
/// strictly sorted by name, which also makes the names unique.
pub open spec fn model_names_sorted(m: CgroupModel) -> bool
    decreases m, m.children@.len() + 1,
{
    &&& model_names_sorted_upto(m.children@, m.children@.len() as int)
    &&& model_children_sorted_upto(m, m.children@.len() as int)
}

/// The ordered-set invariant, over the first `i` child subtrees.
pub open spec fn model_children_sorted_upto(m: CgroupModel, i: int) -> bool
    decreases m, i,
{
    if i <= 0 || i > m.children@.len() {
        true
    } else {
        &&& model_children_sorted_upto(m, i - 1)
        &&& model_names_sorted(m.children@[i - 1])
    }
}

/// Any child among the first `i` matched ones matches its sample.
proof fn lemma_children_match_at(
    children: Seq<CgroupModel>,
    path: Seq<char>,
    depth: u32,
    s: CgroupSample,
    last: Option<(CgroupSample, u64)>,
    i: int,
    j: int,
)
    requires
        children_match_upto(children, path, depth, s, last, i),
        i <= sample_children(s).len(),
        i <= children.len(),
        0 <= j < i,
    ensures
        model_matches(
            children[j],
            sample_children(s)[j].0@,
            path + "/"@ + sample_children(s)[j].0@,
            (depth + 1) as u32,
            sample_children(s)[j].1,
            child_last(last, sample_children(s)[j].0@),
        ),
    decreases i,
{
    if j < i - 1 {
        lemma_children_match_at(children, path, depth, s, last, i - 1, j);
    }
}

/// Any adjacent key pair inside a name-sorted prefix is in order.
proof fn lemma_names_sorted_pair(cs: Seq<(String, CgroupSample)>, m: int, k: int)
    requires
        names_sorted_upto(cs, m),
        m <= cs.len(),
        1 <= k < m,
    ensures
        lex_cmp(cs[k - 1].0@, cs[k].0@) == Ordering::Less,
    decreases m,
{
    if k < m - 1 {
        lemma_names_sorted_pair(cs, m - 1, k);
    }
}

/// Any child subtree among the first `i` of a sorted sample is sorted.
proof fn lemma_children_samples_sorted_at(s: CgroupSample, i: int, j: int)
    requires
        children_samples_sorted_upto(s, i),
        i <= sample_children(s).len(),
        0 <= j < i,
    ensures
        sample_names_sorted(sample_children(s)[j].1),
    decreases i,
{
    if j < i - 1 {
        lemma_children_samples_sorted_at(s, i - 1, j);
    }
}

/// Every tree the builder returns from a sample that honors the collector's
/// name-keyed child sets carries the same invariant: at every node, the
/// children are strictly sorted by name — an ordered set with unique names.
pub proof fn lemma_children_sorted_by_name(
    m: CgroupModel,
    name: Seq<char>,
    path: Seq<char>,
    depth: u32,
    s: CgroupSample,
    last: Option<(CgroupSample, u64)>,
)
    requires
        model_matches(m, name, path, depth, s, last),
        sample_names_sorted(s),
    ensures
        model_names_sorted(m),
    decreases s, sample_children(s).len() + 2,
{
    let kids = sample_children(s);
    lemma_model_names_sorted_upto(m, path, depth, s, last, kids.len() as int);
    lemma_model_children_sorted_upto(m, path, depth, s, last, kids.len() as int);
}

/// The induction for the name order of one node's children: each built name
/// equals the sample key at its position, and the keys are sorted.
proof fn lemma_model_names_sorted_upto(
    m: CgroupModel,
    path: Seq<char>,
    depth: u32,
    s: CgroupSample,
    last: Option<(CgroupSample, u64)>,
    k: int,
)
    requires
        children_match_upto(
            m.children@,
            path,
            depth,
            s,
            last,
            sample_children(s).len() as int,
        ),
        m.children@.len() == sample_children(s).len(),
        names_sorted_upto(sample_children(s), sample_children(s).len() as int),
        0 <= k <= sample_children(s).len(),
    ensures
        model_names_sorted_upto(m.children@, k),
    decreases k,
{
    let kids = sample_children(s);
    if k > 1 {
        lemma_model_names_sorted_upto(m, path, depth, s, last, k - 1);
        lemma_children_match_at(m.children@, path, depth, s, last, kids.len() as int, k - 2);
        lemma_children_match_at(m.children@, path, depth, s, last, kids.len() as int, k - 1);
        lemma_names_sorted_pair(kids, kids.len() as int, k - 1);
    }
}

/// The induction over a node's children for the ordered-set invariant: each
/// built child subtree inherits it from its own sorted sample.
proof fn lemma_model_children_sorted_upto(
    m: CgroupModel,
    path: Seq<char>,
    depth: u32,
    s: CgroupSample,
    last: Option<(CgroupSample, u64)>,
    i: int,
)
    requires
        children_match_upto(
            m.children@,
            path,
            depth,
            s,
            last,
            sample_children(s).len() as int,
        ),
        m.children@.len() == sample_children(s).len(),
        children_samples_sorted_upto(s, sample_children(s).len() as int),
        0 <= i <= sample_children(s).len(),
    ensures
        model_children_sorted_upto(m, i),
    decreases s, i,
{
    let kids = sample_children(s);
    if i > 0 {
        lemma_model_children_sorted_upto(m, path, depth, s, last, i - 1);
        lemma_children_match_at(m.children@, path, depth, s, last, kids.len() as int, i - 1);
        lemma_children_samples_sorted_at(s, kids.len() as int, i - 1);
        lemma_children_sorted_by_name(
            m.children@[i - 1],
            kids[i - 1].0@,
            path + "/"@ + kids[i - 1].0@,
            (depth + 1) as u32,
            kids[i - 1].1,
            child_last(last, kids[i - 1].0@),
        );
    }
}

} // verus!
