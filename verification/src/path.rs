//! The textual form of a field address: every `FieldId` converts to and
//! parses from a canonical dotted path, the one wire format the presentation
//! layer speaks (`"cpu.usage_pct"`, `"1.mem.rss_bytes"`).
//!
//! Parsing never aborts: a malformed path, being user input, comes back as a
//! descriptive error value.

use crate::field::str_eq;
use crate::query::{
    Queriable, VecFieldId,
    CgroupCpuModelFieldId, CgroupIoModelFieldId, CgroupMemoryModelFieldId, CgroupModelFieldId,
    CgroupPressureModelFieldId, ProcessCpuModelFieldId, ProcessIoModelFieldId,
    ProcessMemoryModelFieldId, SingleProcessModelFieldId,
};
use vstd::prelude::*;

verus! {

/// A field-path string that parses as no field of the addressed model: the
/// offending text, carried for diagnostics.
#[derive(Clone, Debug, PartialEq)]
pub struct PathParseError {
    pub unmatched: String,
}

/// A field address with a canonical dotted string form. `path_spec` is the
/// canonical path of an address; `parseable` is the exact grammar of the
/// strings that parse; `parses_to` says which address a given string denotes.
/// Parsing is exact: it succeeds precisely on the grammar and returns the
/// denoted address. For flat ids the denoted address prints back as the
/// input; a collection index may be spelled with leading zeros and is then
/// printed back canonically, as the standard integer parser reads it.
pub trait FieldIdStr: Sized {
    spec fn path_spec(&self) -> Seq<char>;

    spec fn parseable(s: Seq<char>) -> bool;

    spec fn parses_to(s: Seq<char>, f: Self) -> bool;

    fn to_string(&self) -> (r: String)
        ensures
            r@ == self.path_spec(),
    ;

    fn from_str(s: &str) -> (r: Result<Self, PathParseError>)
        ensures
            r matches Ok(f) ==> Self::parses_to(s@, f),
            r is Ok <==> Self::parseable(s@),
    ;
}

impl FieldIdStr for CgroupCpuModelFieldId {
    open spec fn path_spec(&self) -> Seq<char> {
        match self {
            CgroupCpuModelFieldId::UsagePct => "usage_pct"@,
            CgroupCpuModelFieldId::UserPct => "user_pct"@,
            CgroupCpuModelFieldId::SystemPct => "system_pct"@,
            CgroupCpuModelFieldId::NrPeriodsPerSec => "nr_periods_per_sec"@,
            CgroupCpuModelFieldId::NrThrottledPerSec => "nr_throttled_per_sec"@,
            CgroupCpuModelFieldId::ThrottledPct => "throttled_pct"@,
        }
    }

    open spec fn parseable(s: Seq<char>) -> bool {
        ||| s == "usage_pct"@
        ||| s == "user_pct"@
        ||| s == "system_pct"@
        ||| s == "nr_periods_per_sec"@
        ||| s == "nr_throttled_per_sec"@
        ||| s == "throttled_pct"@
    }

    open spec fn parses_to(s: Seq<char>, f: Self) -> bool {
        f.path_spec() == s
    }

    fn to_string(&self) -> (r: String)
        ensures
            r@ == self.path_spec(),
    {
        match self {
            CgroupCpuModelFieldId::UsagePct => String::from_str("usage_pct"),
            CgroupCpuModelFieldId::UserPct => String::from_str("user_pct"),
            CgroupCpuModelFieldId::SystemPct => String::from_str("system_pct"),
            CgroupCpuModelFieldId::NrPeriodsPerSec => String::from_str("nr_periods_per_sec"),
            CgroupCpuModelFieldId::NrThrottledPerSec => String::from_str("nr_throttled_per_sec"),
            CgroupCpuModelFieldId::ThrottledPct => String::from_str("throttled_pct"),
        }
    }

    fn from_str(s: &str) -> (r: Result<Self, PathParseError>)
        ensures
            r matches Ok(f) ==> Self::parses_to(s@, f),
            r is Ok <==> Self::parseable(s@),
    {
        if str_eq(s, "usage_pct") {
            Ok(CgroupCpuModelFieldId::UsagePct)
        } else if str_eq(s, "user_pct") {
            Ok(CgroupCpuModelFieldId::UserPct)
        } else if str_eq(s, "system_pct") {
            Ok(CgroupCpuModelFieldId::SystemPct)
        } else if str_eq(s, "nr_periods_per_sec") {
            Ok(CgroupCpuModelFieldId::NrPeriodsPerSec)
        } else if str_eq(s, "nr_throttled_per_sec") {
            Ok(CgroupCpuModelFieldId::NrThrottledPerSec)
        } else if str_eq(s, "throttled_pct") {
            Ok(CgroupCpuModelFieldId::ThrottledPct)
        } else {
            Err(PathParseError { unmatched: String::from_str(s) })
        }
    }
}

impl FieldIdStr for CgroupIoModelFieldId {
    open spec fn path_spec(&self) -> Seq<char> {
        match self {
            CgroupIoModelFieldId::RbytesPerSec => "rbytes_per_sec"@,
            CgroupIoModelFieldId::WbytesPerSec => "wbytes_per_sec"@,
            CgroupIoModelFieldId::RiosPerSec => "rios_per_sec"@,
            CgroupIoModelFieldId::WiosPerSec => "wios_per_sec"@,
            CgroupIoModelFieldId::DbytesPerSec => "dbytes_per_sec"@,
            CgroupIoModelFieldId::DiosPerSec => "dios_per_sec"@,
            CgroupIoModelFieldId::RwbytesPerSec => "rwbytes_per_sec"@,
        }
    }

    open spec fn parseable(s: Seq<char>) -> bool {
        ||| s == "rbytes_per_sec"@
        ||| s == "wbytes_per_sec"@
        ||| s == "rios_per_sec"@
        ||| s == "wios_per_sec"@
        ||| s == "dbytes_per_sec"@
        ||| s == "dios_per_sec"@
        ||| s == "rwbytes_per_sec"@
    }

    open spec fn parses_to(s: Seq<char>, f: Self) -> bool {
        f.path_spec() == s
    }

    fn to_string(&self) -> (r: String)
        ensures
            r@ == self.path_spec(),
    {
        match self {
            CgroupIoModelFieldId::RbytesPerSec => String::from_str("rbytes_per_sec"),
            CgroupIoModelFieldId::WbytesPerSec => String::from_str("wbytes_per_sec"),
            CgroupIoModelFieldId::RiosPerSec => String::from_str("rios_per_sec"),
            CgroupIoModelFieldId::WiosPerSec => String::from_str("wios_per_sec"),
            CgroupIoModelFieldId::DbytesPerSec => String::from_str("dbytes_per_sec"),
            CgroupIoModelFieldId::DiosPerSec => String::from_str("dios_per_sec"),
            CgroupIoModelFieldId::RwbytesPerSec => String::from_str("rwbytes_per_sec"),
        }
    }

    fn from_str(s: &str) -> (r: Result<Self, PathParseError>)
        ensures
            r matches Ok(f) ==> Self::parses_to(s@, f),
            r is Ok <==> Self::parseable(s@),
    {
        if str_eq(s, "rbytes_per_sec") {
            Ok(CgroupIoModelFieldId::RbytesPerSec)
        } else if str_eq(s, "wbytes_per_sec") {
            Ok(CgroupIoModelFieldId::WbytesPerSec)
        } else if str_eq(s, "rios_per_sec") {
            Ok(CgroupIoModelFieldId::RiosPerSec)
        } else if str_eq(s, "wios_per_sec") {
            Ok(CgroupIoModelFieldId::WiosPerSec)
        } else if str_eq(s, "dbytes_per_sec") {
            Ok(CgroupIoModelFieldId::DbytesPerSec)
        } else if str_eq(s, "dios_per_sec") {
            Ok(CgroupIoModelFieldId::DiosPerSec)
        } else if str_eq(s, "rwbytes_per_sec") {
            Ok(CgroupIoModelFieldId::RwbytesPerSec)
        } else {
            Err(PathParseError { unmatched: String::from_str(s) })
        }
    }
}

impl FieldIdStr for CgroupPressureModelFieldId {
    open spec fn path_spec(&self) -> Seq<char> {
        match self {
            CgroupPressureModelFieldId::CpuSomePct => "cpu_some_pct"@,
            CgroupPressureModelFieldId::IoSomePct => "io_some_pct"@,
            CgroupPressureModelFieldId::IoFullPct => "io_full_pct"@,
            CgroupPressureModelFieldId::MemorySomePct => "memory_some_pct"@,
            CgroupPressureModelFieldId::MemoryFullPct => "memory_full_pct"@,
        }
    }

    open spec fn parseable(s: Seq<char>) -> bool {
        ||| s == "cpu_some_pct"@
        ||| s == "io_some_pct"@
        ||| s == "io_full_pct"@
        ||| s == "memory_some_pct"@
        ||| s == "memory_full_pct"@
    }

    open spec fn parses_to(s: Seq<char>, f: Self) -> bool {
        f.path_spec() == s
    }

    fn to_string(&self) -> (r: String)
        ensures
            r@ == self.path_spec(),
    {
        match self {
            CgroupPressureModelFieldId::CpuSomePct => String::from_str("cpu_some_pct"),
            CgroupPressureModelFieldId::IoSomePct => String::from_str("io_some_pct"),
            CgroupPressureModelFieldId::IoFullPct => String::from_str("io_full_pct"),
            CgroupPressureModelFieldId::MemorySomePct => String::from_str("memory_some_pct"),
            CgroupPressureModelFieldId::MemoryFullPct => String::from_str("memory_full_pct"),
        }
    }

    fn from_str(s: &str) -> (r: Result<Self, PathParseError>)
        ensures
            r matches Ok(f) ==> Self::parses_to(s@, f),
            r is Ok <==> Self::parseable(s@),
    {
        if str_eq(s, "cpu_some_pct") {
            Ok(CgroupPressureModelFieldId::CpuSomePct)
        } else if str_eq(s, "io_some_pct") {
            Ok(CgroupPressureModelFieldId::IoSomePct)
        } else if str_eq(s, "io_full_pct") {
            Ok(CgroupPressureModelFieldId::IoFullPct)
        } else if str_eq(s, "memory_some_pct") {
            Ok(CgroupPressureModelFieldId::MemorySomePct)
        } else if str_eq(s, "memory_full_pct") {
            Ok(CgroupPressureModelFieldId::MemoryFullPct)
        } else {
            Err(PathParseError { unmatched: String::from_str(s) })
        }
    }
}

impl FieldIdStr for CgroupMemoryModelFieldId {
    open spec fn path_spec(&self) -> Seq<char> {
        match self {
            CgroupMemoryModelFieldId::Total => "total"@,
            CgroupMemoryModelFieldId::Swap => "swap"@,
            CgroupMemoryModelFieldId::Anon => "anon"@,
            CgroupMemoryModelFieldId::File => "file"@,
            CgroupMemoryModelFieldId::KernelStack => "kernel_stack"@,
            CgroupMemoryModelFieldId::Slab => "slab"@,
            CgroupMemoryModelFieldId::Sock => "sock"@,
            CgroupMemoryModelFieldId::Shmem => "shmem"@,
            CgroupMemoryModelFieldId::FileMapped => "file_mapped"@,
            CgroupMemoryModelFieldId::FileDirty => "file_dirty"@,
            CgroupMemoryModelFieldId::FileWriteback => "file_writeback"@,
            CgroupMemoryModelFieldId::AnonThp => "anon_thp"@,
            CgroupMemoryModelFieldId::InactiveAnon => "inactive_anon"@,
            CgroupMemoryModelFieldId::ActiveAnon => "active_anon"@,
            CgroupMemoryModelFieldId::InactiveFile => "inactive_file"@,
            CgroupMemoryModelFieldId::ActiveFile => "active_file"@,
            CgroupMemoryModelFieldId::Unevictable => "unevictable"@,
            CgroupMemoryModelFieldId::SlabReclaimable => "slab_reclaimable"@,
            CgroupMemoryModelFieldId::SlabUnreclaimable => "slab_unreclaimable"@,
            CgroupMemoryModelFieldId::Pgfault => "pgfault"@,
            CgroupMemoryModelFieldId::Pgmajfault => "pgmajfault"@,
            CgroupMemoryModelFieldId::WorkingsetRefault => "workingset_refault"@,
            CgroupMemoryModelFieldId::WorkingsetActivate => "workingset_activate"@,
            CgroupMemoryModelFieldId::WorkingsetNodereclaim => "workingset_nodereclaim"@,
            CgroupMemoryModelFieldId::Pgrefill => "pgrefill"@,
            CgroupMemoryModelFieldId::Pgscan => "pgscan"@,
            CgroupMemoryModelFieldId::Pgsteal => "pgsteal"@,
            CgroupMemoryModelFieldId::Pgactivate => "pgactivate"@,
            CgroupMemoryModelFieldId::Pgdeactivate => "pgdeactivate"@,
            CgroupMemoryModelFieldId::Pglazyfree => "pglazyfree"@,
            CgroupMemoryModelFieldId::Pglazyfreed => "pglazyfreed"@,
            CgroupMemoryModelFieldId::ThpFaultAlloc => "thp_fault_alloc"@,
            CgroupMemoryModelFieldId::ThpCollapseAlloc => "thp_collapse_alloc"@,
            CgroupMemoryModelFieldId::MemoryHigh => "memory_high"@,
            CgroupMemoryModelFieldId::EventsLow => "events_low"@,
            CgroupMemoryModelFieldId::EventsHigh => "events_high"@,
            CgroupMemoryModelFieldId::EventsMax => "events_max"@,
            CgroupMemoryModelFieldId::EventsOom => "events_oom"@,
            CgroupMemoryModelFieldId::EventsOomKill => "events_oom_kill"@,
        }
    }

    open spec fn parseable(s: Seq<char>) -> bool {
        ||| s == "total"@
        ||| s == "swap"@
        ||| s == "anon"@
        ||| s == "file"@
        ||| s == "kernel_stack"@
        ||| s == "slab"@
        ||| s == "sock"@
        ||| s == "shmem"@
        ||| s == "file_mapped"@
        ||| s == "file_dirty"@
        ||| s == "file_writeback"@
        ||| s == "anon_thp"@
        ||| s == "inactive_anon"@
        ||| s == "active_anon"@
        ||| s == "inactive_file"@
        ||| s == "active_file"@
        ||| s == "unevictable"@
        ||| s == "slab_reclaimable"@
        ||| s == "slab_unreclaimable"@
        ||| s == "pgfault"@
        ||| s == "pgmajfault"@
        ||| s == "workingset_refault"@
        ||| s == "workingset_activate"@
        ||| s == "workingset_nodereclaim"@
        ||| s == "pgrefill"@
        ||| s == "pgscan"@
        ||| s == "pgsteal"@
        ||| s == "pgactivate"@
        ||| s == "pgdeactivate"@
        ||| s == "pglazyfree"@
        ||| s == "pglazyfreed"@
        ||| s == "thp_fault_alloc"@
        ||| s == "thp_collapse_alloc"@
        ||| s == "memory_high"@
        ||| s == "events_low"@
        ||| s == "events_high"@
        ||| s == "events_max"@
        ||| s == "events_oom"@
        ||| s == "events_oom_kill"@
    }

    open spec fn parses_to(s: Seq<char>, f: Self) -> bool {
        f.path_spec() == s
    }

    fn to_string(&self) -> (r: String)
        ensures
            r@ == self.path_spec(),
    {
        match self {
            CgroupMemoryModelFieldId::Total => String::from_str("total"),
            CgroupMemoryModelFieldId::Swap => String::from_str("swap"),
            CgroupMemoryModelFieldId::Anon => String::from_str("anon"),
            CgroupMemoryModelFieldId::File => String::from_str("file"),
            CgroupMemoryModelFieldId::KernelStack => String::from_str("kernel_stack"),
            CgroupMemoryModelFieldId::Slab => String::from_str("slab"),
            CgroupMemoryModelFieldId::Sock => String::from_str("sock"),
            CgroupMemoryModelFieldId::Shmem => String::from_str("shmem"),
            CgroupMemoryModelFieldId::FileMapped => String::from_str("file_mapped"),
            CgroupMemoryModelFieldId::FileDirty => String::from_str("file_dirty"),
            CgroupMemoryModelFieldId::FileWriteback => String::from_str("file_writeback"),
            CgroupMemoryModelFieldId::AnonThp => String::from_str("anon_thp"),
            CgroupMemoryModelFieldId::InactiveAnon => String::from_str("inactive_anon"),
            CgroupMemoryModelFieldId::ActiveAnon => String::from_str("active_anon"),
            CgroupMemoryModelFieldId::InactiveFile => String::from_str("inactive_file"),
            CgroupMemoryModelFieldId::ActiveFile => String::from_str("active_file"),
            CgroupMemoryModelFieldId::Unevictable => String::from_str("unevictable"),
            CgroupMemoryModelFieldId::SlabReclaimable => String::from_str("slab_reclaimable"),
            CgroupMemoryModelFieldId::SlabUnreclaimable => String::from_str("slab_unreclaimable"),
            CgroupMemoryModelFieldId::Pgfault => String::from_str("pgfault"),
            CgroupMemoryModelFieldId::Pgmajfault => String::from_str("pgmajfault"),
            CgroupMemoryModelFieldId::WorkingsetRefault => String::from_str("workingset_refault"),
            CgroupMemoryModelFieldId::WorkingsetActivate => String::from_str("workingset_activate"),
            CgroupMemoryModelFieldId::WorkingsetNodereclaim => String::from_str("workingset_nodereclaim"),
            CgroupMemoryModelFieldId::Pgrefill => String::from_str("pgrefill"),
            CgroupMemoryModelFieldId::Pgscan => String::from_str("pgscan"),
            CgroupMemoryModelFieldId::Pgsteal => String::from_str("pgsteal"),
            CgroupMemoryModelFieldId::Pgactivate => String::from_str("pgactivate"),
            CgroupMemoryModelFieldId::Pgdeactivate => String::from_str("pgdeactivate"),
            CgroupMemoryModelFieldId::Pglazyfree => String::from_str("pglazyfree"),
            CgroupMemoryModelFieldId::Pglazyfreed => String::from_str("pglazyfreed"),
            CgroupMemoryModelFieldId::ThpFaultAlloc => String::from_str("thp_fault_alloc"),
            CgroupMemoryModelFieldId::ThpCollapseAlloc => String::from_str("thp_collapse_alloc"),
            CgroupMemoryModelFieldId::MemoryHigh => String::from_str("memory_high"),
            CgroupMemoryModelFieldId::EventsLow => String::from_str("events_low"),
            CgroupMemoryModelFieldId::EventsHigh => String::from_str("events_high"),
            CgroupMemoryModelFieldId::EventsMax => String::from_str("events_max"),
            CgroupMemoryModelFieldId::EventsOom => String::from_str("events_oom"),
            CgroupMemoryModelFieldId::EventsOomKill => String::from_str("events_oom_kill"),
        }
    }

    fn from_str(s: &str) -> (r: Result<Self, PathParseError>)
        ensures
            r matches Ok(f) ==> Self::parses_to(s@, f),
            r is Ok <==> Self::parseable(s@),
    {
        if str_eq(s, "total") {
            Ok(CgroupMemoryModelFieldId::Total)
        } else if str_eq(s, "swap") {
            Ok(CgroupMemoryModelFieldId::Swap)
        } else if str_eq(s, "anon") {
            Ok(CgroupMemoryModelFieldId::Anon)
        } else if str_eq(s, "file") {
            Ok(CgroupMemoryModelFieldId::File)
        } else if str_eq(s, "kernel_stack") {
            Ok(CgroupMemoryModelFieldId::KernelStack)
        } else if str_eq(s, "slab") {
            Ok(CgroupMemoryModelFieldId::Slab)
        } else if str_eq(s, "sock") {
            Ok(CgroupMemoryModelFieldId::Sock)
        } else if str_eq(s, "shmem") {
            Ok(CgroupMemoryModelFieldId::Shmem)
        } else if str_eq(s, "file_mapped") {
            Ok(CgroupMemoryModelFieldId::FileMapped)
        } else if str_eq(s, "file_dirty") {
            Ok(CgroupMemoryModelFieldId::FileDirty)
        } else if str_eq(s, "file_writeback") {
            Ok(CgroupMemoryModelFieldId::FileWriteback)
        } else if str_eq(s, "anon_thp") {
            Ok(CgroupMemoryModelFieldId::AnonThp)
        } else if str_eq(s, "inactive_anon") {
            Ok(CgroupMemoryModelFieldId::InactiveAnon)
        } else if str_eq(s, "active_anon") {
            Ok(CgroupMemoryModelFieldId::ActiveAnon)
        } else if str_eq(s, "inactive_file") {
            Ok(CgroupMemoryModelFieldId::InactiveFile)
        } else if str_eq(s, "active_file") {
            Ok(CgroupMemoryModelFieldId::ActiveFile)
        } else if str_eq(s, "unevictable") {
            Ok(CgroupMemoryModelFieldId::Unevictable)
        } else if str_eq(s, "slab_reclaimable") {
            Ok(CgroupMemoryModelFieldId::SlabReclaimable)
        } else if str_eq(s, "slab_unreclaimable") {
            Ok(CgroupMemoryModelFieldId::SlabUnreclaimable)
        } else if str_eq(s, "pgfault") {
            Ok(CgroupMemoryModelFieldId::Pgfault)
        } else if str_eq(s, "pgmajfault") {
            Ok(CgroupMemoryModelFieldId::Pgmajfault)
        } else if str_eq(s, "workingset_refault") {
            Ok(CgroupMemoryModelFieldId::WorkingsetRefault)
        } else if str_eq(s, "workingset_activate") {
            Ok(CgroupMemoryModelFieldId::WorkingsetActivate)
        } else if str_eq(s, "workingset_nodereclaim") {
            Ok(CgroupMemoryModelFieldId::WorkingsetNodereclaim)
        } else if str_eq(s, "pgrefill") {
            Ok(CgroupMemoryModelFieldId::Pgrefill)
        } else if str_eq(s, "pgscan") {
            Ok(CgroupMemoryModelFieldId::Pgscan)
        } else if str_eq(s, "pgsteal") {
            Ok(CgroupMemoryModelFieldId::Pgsteal)
        } else if str_eq(s, "pgactivate") {
            Ok(CgroupMemoryModelFieldId::Pgactivate)
        } else if str_eq(s, "pgdeactivate") {
            Ok(CgroupMemoryModelFieldId::Pgdeactivate)
        } else if str_eq(s, "pglazyfree") {
            Ok(CgroupMemoryModelFieldId::Pglazyfree)
        } else if str_eq(s, "pglazyfreed") {
            Ok(CgroupMemoryModelFieldId::Pglazyfreed)
        } else if str_eq(s, "thp_fault_alloc") {
            Ok(CgroupMemoryModelFieldId::ThpFaultAlloc)
        } else if str_eq(s, "thp_collapse_alloc") {
            Ok(CgroupMemoryModelFieldId::ThpCollapseAlloc)
        } else if str_eq(s, "memory_high") {
            Ok(CgroupMemoryModelFieldId::MemoryHigh)
        } else if str_eq(s, "events_low") {
            Ok(CgroupMemoryModelFieldId::EventsLow)
        } else if str_eq(s, "events_high") {
            Ok(CgroupMemoryModelFieldId::EventsHigh)
        } else if str_eq(s, "events_max") {
            Ok(CgroupMemoryModelFieldId::EventsMax)
        } else if str_eq(s, "events_oom") {
            Ok(CgroupMemoryModelFieldId::EventsOom)
        } else if str_eq(s, "events_oom_kill") {
            Ok(CgroupMemoryModelFieldId::EventsOomKill)
        } else {
            Err(PathParseError { unmatched: String::from_str(s) })
        }
    }
}

impl FieldIdStr for ProcessIoModelFieldId {
    open spec fn path_spec(&self) -> Seq<char> {
        match self {
            ProcessIoModelFieldId::RbytesPerSec => "rbytes_per_sec"@,
            ProcessIoModelFieldId::WbytesPerSec => "wbytes_per_sec"@,
            ProcessIoModelFieldId::RwbytesPerSec => "rwbytes_per_sec"@,
        }
    }

    open spec fn parseable(s: Seq<char>) -> bool {
        ||| s == "rbytes_per_sec"@
        ||| s == "wbytes_per_sec"@
        ||| s == "rwbytes_per_sec"@
    }

    open spec fn parses_to(s: Seq<char>, f: Self) -> bool {
        f.path_spec() == s
    }

    fn to_string(&self) -> (r: String)
        ensures
            r@ == self.path_spec(),
    {
        match self {
            ProcessIoModelFieldId::RbytesPerSec => String::from_str("rbytes_per_sec"),
            ProcessIoModelFieldId::WbytesPerSec => String::from_str("wbytes_per_sec"),
            ProcessIoModelFieldId::RwbytesPerSec => String::from_str("rwbytes_per_sec"),
        }
    }

    fn from_str(s: &str) -> (r: Result<Self, PathParseError>)
        ensures
            r matches Ok(f) ==> Self::parses_to(s@, f),
            r is Ok <==> Self::parseable(s@),
    {
        if str_eq(s, "rbytes_per_sec") {
            Ok(ProcessIoModelFieldId::RbytesPerSec)
        } else if str_eq(s, "wbytes_per_sec") {
            Ok(ProcessIoModelFieldId::WbytesPerSec)
        } else if str_eq(s, "rwbytes_per_sec") {
            Ok(ProcessIoModelFieldId::RwbytesPerSec)
        } else {
            Err(PathParseError { unmatched: String::from_str(s) })
        }
    }
}

impl FieldIdStr for ProcessCpuModelFieldId {
    open spec fn path_spec(&self) -> Seq<char> {
        match self {
            ProcessCpuModelFieldId::UsagePct => "usage_pct"@,
            ProcessCpuModelFieldId::UserPct => "user_pct"@,
            ProcessCpuModelFieldId::SystemPct => "system_pct"@,
            ProcessCpuModelFieldId::NumThreads => "num_threads"@,
        }
    }

    open spec fn parseable(s: Seq<char>) -> bool {
        ||| s == "usage_pct"@
        ||| s == "user_pct"@
        ||| s == "system_pct"@
        ||| s == "num_threads"@
    }

    open spec fn parses_to(s: Seq<char>, f: Self) -> bool {
        f.path_spec() == s
    }

    fn to_string(&self) -> (r: String)
        ensures
            r@ == self.path_spec(),
    {
        match self {
            ProcessCpuModelFieldId::UsagePct => String::from_str("usage_pct"),
            ProcessCpuModelFieldId::UserPct => String::from_str("user_pct"),
            ProcessCpuModelFieldId::SystemPct => String::from_str("system_pct"),
            ProcessCpuModelFieldId::NumThreads => String::from_str("num_threads"),
        }
    }

    fn from_str(s: &str) -> (r: Result<Self, PathParseError>)
        ensures
            r matches Ok(f) ==> Self::parses_to(s@, f),
            r is Ok <==> Self::parseable(s@),
    {
        if str_eq(s, "usage_pct") {
            Ok(ProcessCpuModelFieldId::UsagePct)
        } else if str_eq(s, "user_pct") {
            Ok(ProcessCpuModelFieldId::UserPct)
        } else if str_eq(s, "system_pct") {
            Ok(ProcessCpuModelFieldId::SystemPct)
        } else if str_eq(s, "num_threads") {
            Ok(ProcessCpuModelFieldId::NumThreads)
        } else {
            Err(PathParseError { unmatched: String::from_str(s) })
        }
    }
}

impl FieldIdStr for ProcessMemoryModelFieldId {
    open spec fn path_spec(&self) -> Seq<char> {
        match self {
            ProcessMemoryModelFieldId::MinorfaultsPerSec => "minorfaults_per_sec"@,
            ProcessMemoryModelFieldId::MajorfaultsPerSec => "majorfaults_per_sec"@,
            ProcessMemoryModelFieldId::RssBytes => "rss_bytes"@,
            ProcessMemoryModelFieldId::VmSize => "vm_size"@,
            ProcessMemoryModelFieldId::Lock => "lock"@,
            ProcessMemoryModelFieldId::Pin => "pin"@,
            ProcessMemoryModelFieldId::Anon => "anon"@,
            ProcessMemoryModelFieldId::File => "file"@,
            ProcessMemoryModelFieldId::Shmem => "shmem"@,
            ProcessMemoryModelFieldId::Pte => "pte"@,
            ProcessMemoryModelFieldId::Swap => "swap"@,
            ProcessMemoryModelFieldId::HugeTlb => "huge_tlb"@,
        }
    }

    open spec fn parseable(s: Seq<char>) -> bool {
        ||| s == "minorfaults_per_sec"@
        ||| s == "majorfaults_per_sec"@
        ||| s == "rss_bytes"@
        ||| s == "vm_size"@
        ||| s == "lock"@
        ||| s == "pin"@
        ||| s == "anon"@
        ||| s == "file"@
        ||| s == "shmem"@
        ||| s == "pte"@
        ||| s == "swap"@
        ||| s == "huge_tlb"@
    }

    open spec fn parses_to(s: Seq<char>, f: Self) -> bool {
        f.path_spec() == s
    }

    fn to_string(&self) -> (r: String)
        ensures
            r@ == self.path_spec(),
    {
        match self {
            ProcessMemoryModelFieldId::MinorfaultsPerSec => String::from_str("minorfaults_per_sec"),
            ProcessMemoryModelFieldId::MajorfaultsPerSec => String::from_str("majorfaults_per_sec"),
            ProcessMemoryModelFieldId::RssBytes => String::from_str("rss_bytes"),
            ProcessMemoryModelFieldId::VmSize => String::from_str("vm_size"),
            ProcessMemoryModelFieldId::Lock => String::from_str("lock"),
            ProcessMemoryModelFieldId::Pin => String::from_str("pin"),
            ProcessMemoryModelFieldId::Anon => String::from_str("anon"),
            ProcessMemoryModelFieldId::File => String::from_str("file"),
            ProcessMemoryModelFieldId::Shmem => String::from_str("shmem"),
            ProcessMemoryModelFieldId::Pte => String::from_str("pte"),
            ProcessMemoryModelFieldId::Swap => String::from_str("swap"),
            ProcessMemoryModelFieldId::HugeTlb => String::from_str("huge_tlb"),
        }
    }

    fn from_str(s: &str) -> (r: Result<Self, PathParseError>)
        ensures
            r matches Ok(f) ==> Self::parses_to(s@, f),
            r is Ok <==> Self::parseable(s@),
    {
        if str_eq(s, "minorfaults_per_sec") {
            Ok(ProcessMemoryModelFieldId::MinorfaultsPerSec)
        } else if str_eq(s, "majorfaults_per_sec") {
            Ok(ProcessMemoryModelFieldId::MajorfaultsPerSec)
        } else if str_eq(s, "rss_bytes") {
            Ok(ProcessMemoryModelFieldId::RssBytes)
        } else if str_eq(s, "vm_size") {
            Ok(ProcessMemoryModelFieldId::VmSize)
        } else if str_eq(s, "lock") {
            Ok(ProcessMemoryModelFieldId::Lock)
        } else if str_eq(s, "pin") {
            Ok(ProcessMemoryModelFieldId::Pin)
        } else if str_eq(s, "anon") {
            Ok(ProcessMemoryModelFieldId::Anon)
        } else if str_eq(s, "file") {
            Ok(ProcessMemoryModelFieldId::File)
        } else if str_eq(s, "shmem") {
            Ok(ProcessMemoryModelFieldId::Shmem)
        } else if str_eq(s, "pte") {
            Ok(ProcessMemoryModelFieldId::Pte)
        } else if str_eq(s, "swap") {
            Ok(ProcessMemoryModelFieldId::Swap)
        } else if str_eq(s, "huge_tlb") {
            Ok(ProcessMemoryModelFieldId::HugeTlb)
        } else {
            Err(PathParseError { unmatched: String::from_str(s) })
        }
    }
}

impl FieldIdStr for CgroupModelFieldId {
    open spec fn path_spec(&self) -> Seq<char> {
        match self {
            CgroupModelFieldId::Name => "name"@,
            CgroupModelFieldId::FullPath => "full_path"@,
            CgroupModelFieldId::InodeNumber => "inode_number"@,
            CgroupModelFieldId::Cpu(sub) => "cpu."@ + sub.path_spec(),
            CgroupModelFieldId::Mem(sub) => "mem."@ + sub.path_spec(),
            CgroupModelFieldId::Io(sub) => "io."@ + sub.path_spec(),
            CgroupModelFieldId::Pressure(sub) => "pressure."@ + sub.path_spec(),
        }
    }

    open spec fn parseable(s: Seq<char>) -> bool {
        ||| s == "name"@
        ||| s == "full_path"@
        ||| s == "inode_number"@
        ||| (s.len() >= 4 && s.subrange(0, 4) == "cpu."@ && CgroupCpuModelFieldId::parseable(
            s.skip(4),
        ))
        ||| (s.len() >= 4 && s.subrange(0, 4) == "mem."@ && CgroupMemoryModelFieldId::parseable(
            s.skip(4),
        ))
        ||| (s.len() >= 3 && s.subrange(0, 3) == "io."@ && CgroupIoModelFieldId::parseable(
            s.skip(3),
        ))
        ||| (s.len() >= 9 && s.subrange(0, 9) == "pressure."@
            && CgroupPressureModelFieldId::parseable(s.skip(9)))
    }

    open spec fn parses_to(s: Seq<char>, f: Self) -> bool {
        f.path_spec() == s
    }

    fn to_string(&self) -> (r: String)
        ensures
            r@ == self.path_spec(),
    {
        match self {
            CgroupModelFieldId::Name => String::from_str("name"),
            CgroupModelFieldId::FullPath => String::from_str("full_path"),
            CgroupModelFieldId::InodeNumber => String::from_str("inode_number"),
            CgroupModelFieldId::Cpu(sub) => String::from_str("cpu.").concat(
                sub.to_string().as_str(),
            ),
            CgroupModelFieldId::Mem(sub) => String::from_str("mem.").concat(
                sub.to_string().as_str(),
            ),
            CgroupModelFieldId::Io(sub) => String::from_str("io.").concat(
                sub.to_string().as_str(),
            ),
            CgroupModelFieldId::Pressure(sub) => String::from_str("pressure.").concat(
                sub.to_string().as_str(),
            ),
        }
    }

    fn from_str(s: &str) -> (r: Result<Self, PathParseError>)
        ensures
            r matches Ok(f) ==> Self::parses_to(s@, f),
            r is Ok <==> Self::parseable(s@),
    {
        proof {
            reveal_strlit("cpu.");
            reveal_strlit("mem.");
            reveal_strlit("io.");
            reveal_strlit("pressure.");
        }
        let n = s.unicode_len();
        if str_eq(s, "name") {
            Ok(CgroupModelFieldId::Name)
        } else if str_eq(s, "full_path") {
            Ok(CgroupModelFieldId::FullPath)
        } else if str_eq(s, "inode_number") {
            Ok(CgroupModelFieldId::InodeNumber)
        } else if n >= 4 && str_eq(s.substring_char(0, 4), "cpu.") {
            proof {
                assert(s@ =~= s@.subrange(0, 4) + s@.skip(4));
            }
            match CgroupCpuModelFieldId::from_str(s.substring_char(4, n)) {
                Ok(sub) => {
                    proof {
                        assert(s@.subrange(4, n as int) =~= s@.skip(4));
                    }
                    Ok(CgroupModelFieldId::Cpu(sub))
                },
                Err(e) => {
                    proof {
                        if s@.len() >= 3 {
                            assert(s@.subrange(0, 3)[0] == s@[0]);
                        }
                        if s@.len() >= 4 {
                            assert(s@.subrange(0, 4)[0] == s@[0]);
                        }
                        if s@.len() >= 9 {
                            assert(s@.subrange(0, 9)[0] == s@[0]);
                        }
                    }
                    Err(e)
                },
            }
        } else if n >= 4 && str_eq(s.substring_char(0, 4), "mem.") {
            proof {
                assert(s@ =~= s@.subrange(0, 4) + s@.skip(4));
            }
            match CgroupMemoryModelFieldId::from_str(s.substring_char(4, n)) {
                Ok(sub) => {
                    proof {
                        assert(s@.subrange(4, n as int) =~= s@.skip(4));
                    }
                    Ok(CgroupModelFieldId::Mem(sub))
                },
                Err(e) => {
                    proof {
                        if s@.len() >= 3 {
                            assert(s@.subrange(0, 3)[0] == s@[0]);
                        }
                        if s@.len() >= 4 {
                            assert(s@.subrange(0, 4)[0] == s@[0]);
                        }
                        if s@.len() >= 9 {
                            assert(s@.subrange(0, 9)[0] == s@[0]);
                        }
                    }
                    Err(e)
                },
            }
        } else if n >= 3 && str_eq(s.substring_char(0, 3), "io.") {
            proof {
                assert(s@ =~= s@.subrange(0, 3) + s@.skip(3));
            }
            match CgroupIoModelFieldId::from_str(s.substring_char(3, n)) {
                Ok(sub) => {
                    proof {
                        assert(s@.subrange(3, n as int) =~= s@.skip(3));
                    }
                    Ok(CgroupModelFieldId::Io(sub))
                },
                Err(e) => {
                    proof {
                        if s@.len() >= 3 {
                            assert(s@.subrange(0, 3)[0] == s@[0]);
                        }
                        if s@.len() >= 4 {
                            assert(s@.subrange(0, 4)[0] == s@[0]);
                        }
                        if s@.len() >= 9 {
                            assert(s@.subrange(0, 9)[0] == s@[0]);
                        }
                    }
                    Err(e)
                },
            }
        } else if n >= 9 && str_eq(s.substring_char(0, 9), "pressure.") {
            proof {
                assert(s@ =~= s@.subrange(0, 9) + s@.skip(9));
            }
            match CgroupPressureModelFieldId::from_str(s.substring_char(9, n)) {
                Ok(sub) => {
                    proof {
                        assert(s@.subrange(9, n as int) =~= s@.skip(9));
                    }
                    Ok(CgroupModelFieldId::Pressure(sub))
                },
                Err(e) => {
                    proof {
                        if s@.len() >= 3 {
                            assert(s@.subrange(0, 3)[0] == s@[0]);
                        }
                        if s@.len() >= 4 {
                            assert(s@.subrange(0, 4)[0] == s@[0]);
                        }
                        if s@.len() >= 9 {
                            assert(s@.subrange(0, 9)[0] == s@[0]);
                        }
                    }
                    Err(e)
                },
            }
        } else {
            Err(PathParseError { unmatched: String::from_str(s) })
        }
    }
}

impl FieldIdStr for SingleProcessModelFieldId {
    open spec fn path_spec(&self) -> Seq<char> {
        match self {
            SingleProcessModelFieldId::Pid => "pid"@,
            SingleProcessModelFieldId::Ppid => "ppid"@,
            SingleProcessModelFieldId::Comm => "comm"@,
            SingleProcessModelFieldId::State => "state"@,
            SingleProcessModelFieldId::UptimeSecs => "uptime_secs"@,
            SingleProcessModelFieldId::Cgroup => "cgroup"@,
            SingleProcessModelFieldId::Io(sub) => "io."@ + sub.path_spec(),
            SingleProcessModelFieldId::Mem(sub) => "mem."@ + sub.path_spec(),
            SingleProcessModelFieldId::Cpu(sub) => "cpu."@ + sub.path_spec(),
            SingleProcessModelFieldId::Cmdline => "cmdline"@,
            SingleProcessModelFieldId::ExePath => "exe_path"@,
        }
    }

    open spec fn parseable(s: Seq<char>) -> bool {
        ||| s == "pid"@
        ||| s == "ppid"@
        ||| s == "comm"@
        ||| s == "state"@
        ||| s == "uptime_secs"@
        ||| s == "cgroup"@
        ||| s == "cmdline"@
        ||| s == "exe_path"@
        ||| (s.len() >= 3 && s.subrange(0, 3) == "io."@ && ProcessIoModelFieldId::parseable(
            s.skip(3),
        ))
        ||| (s.len() >= 4 && s.subrange(0, 4) == "mem."@ && ProcessMemoryModelFieldId::parseable(
            s.skip(4),
        ))
        ||| (s.len() >= 4 && s.subrange(0, 4) == "cpu."@ && ProcessCpuModelFieldId::parseable(
            s.skip(4),
        ))
    }

    open spec fn parses_to(s: Seq<char>, f: Self) -> bool {
        f.path_spec() == s
    }

    fn to_string(&self) -> (r: String)
        ensures
            r@ == self.path_spec(),
    {
        match self {
            SingleProcessModelFieldId::Pid => String::from_str("pid"),
            SingleProcessModelFieldId::Ppid => String::from_str("ppid"),
            SingleProcessModelFieldId::Comm => String::from_str("comm"),
            SingleProcessModelFieldId::State => String::from_str("state"),
            SingleProcessModelFieldId::UptimeSecs => String::from_str("uptime_secs"),
            SingleProcessModelFieldId::Cgroup => String::from_str("cgroup"),
            SingleProcessModelFieldId::Io(sub) => String::from_str("io.").concat(
                sub.to_string().as_str(),
            ),
            SingleProcessModelFieldId::Mem(sub) => String::from_str("mem.").concat(
                sub.to_string().as_str(),
            ),
            SingleProcessModelFieldId::Cpu(sub) => String::from_str("cpu.").concat(
                sub.to_string().as_str(),
            ),
            SingleProcessModelFieldId::Cmdline => String::from_str("cmdline"),
            SingleProcessModelFieldId::ExePath => String::from_str("exe_path"),
        }
    }

    fn from_str(s: &str) -> (r: Result<Self, PathParseError>)
        ensures
            r matches Ok(f) ==> Self::parses_to(s@, f),
            r is Ok <==> Self::parseable(s@),
    {
        proof {
            reveal_strlit("io.");
            reveal_strlit("mem.");
            reveal_strlit("cpu.");
        }
        let n = s.unicode_len();
        if str_eq(s, "pid") {
            Ok(SingleProcessModelFieldId::Pid)
        } else if str_eq(s, "ppid") {
            Ok(SingleProcessModelFieldId::Ppid)
        } else if str_eq(s, "comm") {
            Ok(SingleProcessModelFieldId::Comm)
        } else if str_eq(s, "state") {
            Ok(SingleProcessModelFieldId::State)
        } else if str_eq(s, "uptime_secs") {
            Ok(SingleProcessModelFieldId::UptimeSecs)
        } else if str_eq(s, "cgroup") {
            Ok(SingleProcessModelFieldId::Cgroup)
        } else if str_eq(s, "cmdline") {
            Ok(SingleProcessModelFieldId::Cmdline)
        } else if str_eq(s, "exe_path") {
            Ok(SingleProcessModelFieldId::ExePath)
        } else if n >= 3 && str_eq(s.substring_char(0, 3), "io.") {
            proof {
                assert(s@ =~= s@.subrange(0, 3) + s@.skip(3));
            }
            match ProcessIoModelFieldId::from_str(s.substring_char(3, n)) {
                Ok(sub) => {
                    proof {
                        assert(s@.subrange(3, n as int) =~= s@.skip(3));
                    }
                    Ok(SingleProcessModelFieldId::Io(sub))
                },
                Err(e) => {
                    proof {
                        if s@.len() >= 3 {
                            assert(s@.subrange(0, 3)[0] == s@[0]);
                        }
                        if s@.len() >= 4 {
                            assert(s@.subrange(0, 4)[0] == s@[0]);
                        }
                        if s@.len() >= 9 {
                            assert(s@.subrange(0, 9)[0] == s@[0]);
                        }
                    }
                    Err(e)
                },
            }
        } else if n >= 4 && str_eq(s.substring_char(0, 4), "mem.") {
            proof {
                assert(s@ =~= s@.subrange(0, 4) + s@.skip(4));
            }
            match ProcessMemoryModelFieldId::from_str(s.substring_char(4, n)) {
                Ok(sub) => {
                    proof {
                        assert(s@.subrange(4, n as int) =~= s@.skip(4));
                    }
                    Ok(SingleProcessModelFieldId::Mem(sub))
                },
                Err(e) => {
                    proof {
                        if s@.len() >= 3 {
                            assert(s@.subrange(0, 3)[0] == s@[0]);
                        }
                        if s@.len() >= 4 {
                            assert(s@.subrange(0, 4)[0] == s@[0]);
                        }
                        if s@.len() >= 9 {
                            assert(s@.subrange(0, 9)[0] == s@[0]);
                        }
                    }
                    Err(e)
                },
            }
        } else if n >= 4 && str_eq(s.substring_char(0, 4), "cpu.") {
            proof {
                assert(s@ =~= s@.subrange(0, 4) + s@.skip(4));
            }
            match ProcessCpuModelFieldId::from_str(s.substring_char(4, n)) {
                Ok(sub) => {
                    proof {
                        assert(s@.subrange(4, n as int) =~= s@.skip(4));
                    }
                    Ok(SingleProcessModelFieldId::Cpu(sub))
                },
                Err(e) => {
                    proof {
                        if s@.len() >= 3 {
                            assert(s@.subrange(0, 3)[0] == s@[0]);
                        }
                        if s@.len() >= 4 {
                            assert(s@.subrange(0, 4)[0] == s@[0]);
                        }
                        if s@.len() >= 9 {
                            assert(s@.subrange(0, 9)[0] == s@[0]);
                        }
                    }
                    Err(e)
                },
            }
        } else {
            Err(PathParseError { unmatched: String::from_str(s) })
        }
    }
}


/// The decimal digits of a number, most significant first, no leading zeros.
pub open spec fn dec_digits(n: nat) -> Seq<char>
    decreases n,
{
    if n < 10 {
        seq![digit_char(n)]
    } else {
        dec_digits(n / 10) + seq![digit_char(n % 10)]
    }
}

/// The character of one decimal digit.
pub open spec fn digit_char(d: nat) -> char {
    if d == 0 {
        '0'
    } else if d == 1 {
        '1'
    } else if d == 2 {
        '2'
    } else if d == 3 {
        '3'
    } else if d == 4 {
        '4'
    } else if d == 5 {
        '5'
    } else if d == 6 {
        '6'
    } else if d == 7 {
        '7'
    } else if d == 8 {
        '8'
    } else {
        '9'
    }
}

/// Whether a character is a decimal digit.
pub open spec fn is_digit(c: char) -> bool {
    48 <= (c as u32) <= 57
}

/// The value of a digit character; zero for anything else.
pub open spec fn digit_val(c: char) -> nat {
    if is_digit(c) {
        ((c as u32) - 48) as nat
    } else {
        0
    }
}

/// Whether a text is digits throughout.
pub open spec fn all_digits(s: Seq<char>) -> bool {
    forall|i: int| 0 <= i < s.len() ==> is_digit(#[trigger] s[i])
}

/// The number a digit text denotes.
pub open spec fn digits_val(s: Seq<char>) -> nat
    decreases s.len(),
{
    if s.len() == 0 {
        0
    } else {
        digits_val(s.drop_last()) * 10 + digit_val(s.last())
    }
}

/// A longer prefix of a digit text never denotes a smaller number.
proof fn lemma_digits_val_prefix_le(s: Seq<char>, i: int, j: int)
    requires
        0 <= i <= j <= s.len(),
    ensures
        digits_val(s.take(i)) <= digits_val(s.take(j)),
    decreases j - i,
{
    if i < j {
        lemma_digits_val_prefix_le(s, i, j - 1);
        assert(s.take(j).drop_last() =~= s.take(j - 1));
        assert(digits_val(s.take(j)) == digits_val(s.take(j - 1)) * 10 + digit_val(
            s.take(j).last(),
        ));
    }
}

/// The digit character of a value below ten, as borrowed text.
fn digit_str(d: u64) -> (r: &'static str)
    requires
        d < 10,
    ensures
        r@ =~= seq![digit_char(d as nat)],
{
    proof {
        reveal_strlit("0");
        reveal_strlit("1");
        reveal_strlit("2");
        reveal_strlit("3");
        reveal_strlit("4");
        reveal_strlit("5");
        reveal_strlit("6");
        reveal_strlit("7");
        reveal_strlit("8");
        reveal_strlit("9");
    }
    if d == 0 {
        "0"
    } else if d == 1 {
        "1"
    } else if d == 2 {
        "2"
    } else if d == 3 {
        "3"
    } else if d == 4 {
        "4"
    } else if d == 5 {
        "5"
    } else if d == 6 {
        "6"
    } else if d == 7 {
        "7"
    } else if d == 8 {
        "8"
    } else {
        "9"
    }
}

/// Print a collection index in decimal.
fn index_to_string(n: usize) -> (r: String)
    ensures
        r@ == dec_digits(n as nat),
    decreases n,
{
    if n < 10 {
        String::from_str(digit_str(n as u64))
    } else {
        let mut s = index_to_string(n / 10);
        s.append(digit_str((n % 10) as u64));
        s
    }
}

/// Parse a collection index: the exact value of a nonempty digit text that
/// fits the machine, nothing else.
fn parse_index(s: &str) -> (r: Option<usize>)
    ensures
        r is Some <==> (s@.len() > 0 && all_digits(s@) && digits_val(s@) <= usize::MAX),
        r matches Some(v) ==> v == digits_val(s@),
{
    let n = s.unicode_len();
    if n == 0 {
        return None;
    }
    let mut acc: usize = 0;
    proof {
        assert(s@.take(0) =~= Seq::empty());
    }
    for i in 0..n
        invariant
            n == s@.len(),
            forall|j: int| 0 <= j < i ==> is_digit(#[trigger] s@[j]),
            acc == digits_val(s@.take(i as int)),
    {
        let c = s.get_char(i);
        let cu = c as u32;
        if cu < 48 || cu > 57 {
            return None;
        }
        let d = (cu - 48) as usize;
        proof {
            assert(s@.take(i + 1).drop_last() =~= s@.take(i as int));
            assert(s@.take(i + 1).last() == s@[i as int]);
        }
        if acc > (usize::MAX - d) / 10 {
            proof {
                assert(digits_val(s@.take(i + 1)) == acc * 10 + d);
                assert(acc * 10 + d > usize::MAX) by (nonlinear_arith)
                    requires
                        acc > (usize::MAX - d) / 10,
                        d < 10,
                ;
                lemma_digits_val_prefix_le(s@, i + 1, s@.len() as int);
                assert(s@.take(s@.len() as int) =~= s@);
            }
            return None;
        }
        proof {
            assert(acc * 10 + d <= usize::MAX) by (nonlinear_arith)
                requires
                    acc <= (usize::MAX - d) / 10,
                    d < 10,
            ;
        }
        acc = acc * 10 + d;
    }
    proof {
        assert(s@.take(s@.len() as int) =~= s@);
    }
    Some(acc)
}

/// The position of the first path separator, or a negative value when the
/// text has none.
pub open spec fn first_dot(s: Seq<char>) -> int
    decreases s.len(),
{
    if s.len() == 0 {
        -1
    } else if s[0] == '.' {
        0
    } else if first_dot(s.drop_first()) < 0 {
        -1
    } else {
        1 + first_dot(s.drop_first())
    }
}

/// A separator at the scan position, with none before it, is the first.
proof fn lemma_first_dot_found(s: Seq<char>, i: int)
    requires
        0 <= i < s.len(),
        s[i] == '.',
        forall|j: int| 0 <= j < i ==> s[j] != '.',
    ensures
        first_dot(s) == i,
    decreases i,
{
    if i > 0 {
        assert(s.drop_first()[i - 1] == s[i]);
        assert(forall|j: int| 0 <= j < i - 1 ==> s.drop_first()[j] == s[j + 1]);
        lemma_first_dot_found(s.drop_first(), i - 1);
    }
}

/// A text without a separator has no first one.
proof fn lemma_first_dot_none(s: Seq<char>)
    requires
        forall|j: int| 0 <= j < s.len() ==> s[j] != '.',
    ensures
        first_dot(s) == -1,
    decreases s.len(),
{
    if s.len() > 0 {
        assert(forall|j: int|
            0 <= j < s.drop_first().len() ==> s.drop_first()[j] == s[j + 1]);
        lemma_first_dot_none(s.drop_first());
    }
}

/// Find the first path separator.
fn find_dot(s: &str) -> (r: Option<usize>)
    ensures
        r matches Some(v) ==> first_dot(s@) == v && v < s@.len() && s@[v as int] == '.',
        r is None ==> first_dot(s@) < 0,
{
    let n = s.unicode_len();
    for i in 0..n
        invariant
            n == s@.len(),
            forall|j: int| 0 <= j < i ==> s@[j] != '.',
    {
        if s.get_char(i) == '.' {
            proof {
                lemma_first_dot_found(s@, i as int);
            }
            return Some(i);
        }
    }
    proof {
        lemma_first_dot_none(s@);
    }
    None
}


impl<Q: Queriable> FieldIdStr for VecFieldId<Q> where Q::FieldId: FieldIdStr {
    open spec fn path_spec(&self) -> Seq<char> {
        dec_digits(self.idx as nat) + "."@ + self.subquery_id.path_spec()
    }

    open spec fn parseable(s: Seq<char>) -> bool {
        let d = first_dot(s);
        &&& 0 < d < s.len()
        &&& all_digits(s.subrange(0, d))
        &&& digits_val(s.subrange(0, d)) <= usize::MAX
        &&& <Q::FieldId as FieldIdStr>::parseable(s.skip(d + 1))
    }

    open spec fn parses_to(s: Seq<char>, f: Self) -> bool {
        let d = first_dot(s);
        &&& 0 < d < s.len()
        &&& f.idx == digits_val(s.subrange(0, d))
        &&& <Q::FieldId as FieldIdStr>::parses_to(s.skip(d + 1), f.subquery_id)
    }

    fn to_string(&self) -> (r: String)
        ensures
            r@ == self.path_spec(),
    {
        let mut r = index_to_string(self.idx);
        r.append(".");
        r.append(self.subquery_id.to_string().as_str());
        r
    }

    /// Parse `"<index>.<nested path>"`. The index is read as the standard
    /// integer parser reads it, so a spelling with leading zeros names the
    /// same index; printing always uses the canonical spelling.
    fn from_str(s: &str) -> (r: Result<Self, PathParseError>)
        ensures
            r matches Ok(f) ==> Self::parses_to(s@, f),
            r is Ok <==> Self::parseable(s@),
    {
        let n = s.unicode_len();
        match find_dot(s) {
            None => Err(PathParseError { unmatched: String::from_str(s) }),
            Some(d) => {
                if d == 0 {
                    return Err(PathParseError { unmatched: String::from_str(s) });
                }
                let idx_part = s.substring_char(0, d);
                proof {
                    assert(idx_part@ == s@.subrange(0, d as int));
                }
                match parse_index(idx_part) {
                    None => Err(PathParseError { unmatched: String::from_str(s) }),
                    Some(idx) => {
                        let rest = s.substring_char(d + 1, n);
                        proof {
                            assert(rest@ =~= s@.skip(d + 1));
                        }
                        match <Q::FieldId as FieldIdStr>::from_str(rest) {
                            Err(e) => Err(e),
                            Ok(sub) => Ok(VecFieldId { idx, subquery_id: sub }),
                        }
                    },
                }
            },
        }
    }
}

} // verus!
