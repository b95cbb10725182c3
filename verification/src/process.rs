//! The process sample shape and the derived per-process models.
//!
//! A `PidMap` is the immutable point-in-time reading the collector hands over
//! for the process table, keyed by process id. `ProcessModel::new` derives a
//! `SingleProcessModel` for every live process; the rate sub-models exist only
//! when the same pid was present in the previous tick.

use crate::rate::{
    count_per_sec, count_per_sec_spec, opt_add_milli, opt_add_milli_spec, sat_add_i64, usec_pct,
    usec_pct_spec,
};
use vstd::prelude::*;

verus! {

/// The execution state the kernel reports for a process.
#[derive(Clone, Copy, Debug, PartialEq, Eq, Structural, Hash)]
pub enum PidState {
    Running,
    Sleeping,
    UninterruptibleSleep,
    Stopped,
    TracingStopped,
    Zombie,
    Dead,
    Idle,
    Parked,
}

/// The raw `stat` reading of one process. Every leaf is optional.
#[derive(Clone, Debug, PartialEq, Default)]
pub struct PidStat {
    pub pid: Option<i32>,
    pub ppid: Option<i32>,
    pub comm: Option<String>,
    pub state: Option<PidState>,
    pub running_secs: Option<u64>,
    pub user_usecs: Option<u64>,
    pub system_usecs: Option<u64>,
    pub num_threads: Option<u64>,
    pub minflt: Option<u64>,
    pub majflt: Option<u64>,
    pub rss_bytes: Option<u64>,
}

/// The raw cumulative I/O counters of one process.
#[derive(Clone, Copy, Debug, PartialEq, Default)]
pub struct PidIo {
    pub rbytes: Option<u64>,
    pub wbytes: Option<u64>,
}

/// The raw memory gauges of one process.
#[derive(Clone, Copy, Debug, PartialEq, Default)]
pub struct PidMem {
    pub vm_size: Option<u64>,
    pub lock: Option<u64>,
    pub pin: Option<u64>,
    pub anon: Option<u64>,
    pub file: Option<u64>,
    pub shmem: Option<u64>,
    pub pte: Option<u64>,
    pub swap: Option<u64>,
    pub huge_tlb: Option<u64>,
}

/// A point-in-time reading of one process.
#[derive(Clone, Debug, PartialEq, Default)]
pub struct PidInfo {
    pub stat: PidStat,
    pub io: PidIo,
    pub mem: PidMem,
    pub cgroup: String,
    pub cmdline_vec: Option<Vec<String>>,
    pub exe_path: Option<String>,
}

/// The process table of one tick, keyed by process id.
pub type PidMap = Vec<(i32, PidInfo)>;

/// Derived per-second I/O rates of one process, in milli-bytes per second.
#[derive(Clone, Debug, PartialEq, Default)]
pub struct ProcessIoModel {
    pub rbytes_per_sec: Option<i64>,
    pub wbytes_per_sec: Option<i64>,
    pub rwbytes_per_sec: Option<i64>,
}

/// What the process I/O model derives to. Unlike the cgroup total, the
/// combined read-write rate here treats an absent side as zero and is always
/// present.
pub open spec fn process_io_spec(begin: PidIo, end: PidIo, elapsed_us: u64) -> ProcessIoModel {
    let r = count_per_sec_spec(begin.rbytes, end.rbytes, elapsed_us);
    let w = count_per_sec_spec(begin.wbytes, end.wbytes, elapsed_us);
    ProcessIoModel {
        rbytes_per_sec: r,
        wbytes_per_sec: w,
        rwbytes_per_sec: Some(
            sat_add_i64(
                match r {
                    Some(x) => x,
                    None => 0,
                },
                match w {
                    Some(x) => x,
                    None => 0,
                },
            ),
        ),
    }
}

impl ProcessIoModel {
    /// Derive per-second I/O rates for one process from two readings taken
    /// `elapsed_us` microseconds apart.
    pub fn new(begin: &PidIo, end: &PidIo, elapsed_us: u64) -> (r: ProcessIoModel)
        ensures
            r == process_io_spec(*begin, *end, elapsed_us),
    {
        let rbytes_per_sec = count_per_sec(begin.rbytes, end.rbytes, elapsed_us);
        let wbytes_per_sec = count_per_sec(begin.wbytes, end.wbytes, elapsed_us);
        let rv: i64 = match rbytes_per_sec {
            Some(x) => x,
            None => 0,
        };
        let wv: i64 = match wbytes_per_sec {
            Some(x) => x,
            None => 0,
        };
        let rwbytes_per_sec = opt_add_milli(Some(rv), Some(wv));
        ProcessIoModel {
            rbytes_per_sec,
            wbytes_per_sec,
            rwbytes_per_sec,
        }
    }
}

/// Derived CPU metrics of one process, in milli-percent.
#[derive(Clone, Debug, PartialEq, Default)]
pub struct ProcessCpuModel {
    pub usage_pct: Option<i64>,
    pub user_pct: Option<i64>,
    pub system_pct: Option<i64>,
    pub num_threads: Option<u64>,
}

/// What the process CPU model derives to: total usage is the optional sum of
/// the user and system percentages.
pub open spec fn process_cpu_spec(begin: PidStat, end: PidStat, elapsed_us: u64) -> ProcessCpuModel {
    let user = usec_pct_spec(begin.user_usecs, end.user_usecs, elapsed_us);
    let system = usec_pct_spec(begin.system_usecs, end.system_usecs, elapsed_us);
    ProcessCpuModel {
        usage_pct: opt_add_milli_spec(user, system),
        user_pct: user,
        system_pct: system,
        num_threads: end.num_threads,
    }
}

impl ProcessCpuModel {
    /// Derive CPU percentages for one process from two `stat` readings taken
    /// `elapsed_us` microseconds apart.
    pub fn new(begin: &PidStat, end: &PidStat, elapsed_us: u64) -> (r: ProcessCpuModel)
        ensures
            r == process_cpu_spec(*begin, *end, elapsed_us),
    {
        let user_pct = usec_pct(begin.user_usecs, end.user_usecs, elapsed_us);
        let system_pct = usec_pct(begin.system_usecs, end.system_usecs, elapsed_us);
        let usage_pct = opt_add_milli(user_pct, system_pct);
        ProcessCpuModel {
            usage_pct,
            user_pct,
            system_pct,
            num_threads: end.num_threads,
        }
    }
}

/// Derived memory metrics of one process: fault rates in milli-faults per
/// second, gauges copied from the current reading.
#[derive(Clone, Debug, PartialEq, Default)]
pub struct ProcessMemoryModel {
    pub minorfaults_per_sec: Option<i64>,
    pub majorfaults_per_sec: Option<i64>,
    pub rss_bytes: Option<u64>,
    pub vm_size: Option<u64>,
    pub lock: Option<u64>,
    pub pin: Option<u64>,
    pub anon: Option<u64>,
    pub file: Option<u64>,
    pub shmem: Option<u64>,
    pub pte: Option<u64>,
    pub swap: Option<u64>,
    pub huge_tlb: Option<u64>,
}

/// What the process memory model derives to.
pub open spec fn process_memory_spec(
    begin: PidInfo,
    end: PidInfo,
    elapsed_us: u64,
) -> ProcessMemoryModel {
    ProcessMemoryModel {
        minorfaults_per_sec: count_per_sec_spec(begin.stat.minflt, end.stat.minflt, elapsed_us),
        majorfaults_per_sec: count_per_sec_spec(begin.stat.majflt, end.stat.majflt, elapsed_us),
        rss_bytes: end.stat.rss_bytes,
        vm_size: end.mem.vm_size,
        lock: end.mem.lock,
        pin: end.mem.pin,
        anon: end.mem.anon,
        file: end.mem.file,
        shmem: end.mem.shmem,
        pte: end.mem.pte,
        swap: end.mem.swap,
        huge_tlb: end.mem.huge_tlb,
    }
}

impl ProcessMemoryModel {
    /// Derive fault rates and copy the memory gauges for one process from two
    /// readings taken `elapsed_us` microseconds apart.
    pub fn new(begin: &PidInfo, end: &PidInfo, elapsed_us: u64) -> (r: ProcessMemoryModel)
        ensures
            r == process_memory_spec(*begin, *end, elapsed_us),
    {
        ProcessMemoryModel {
            minorfaults_per_sec: count_per_sec(begin.stat.minflt, end.stat.minflt, elapsed_us),
            majorfaults_per_sec: count_per_sec(begin.stat.majflt, end.stat.majflt, elapsed_us),
            rss_bytes: end.stat.rss_bytes,
            vm_size: end.mem.vm_size,
            lock: end.mem.lock,
            pin: end.mem.pin,
            anon: end.mem.anon,
            file: end.mem.file,
            shmem: end.mem.shmem,
            pte: end.mem.pte,
            swap: end.mem.swap,
            huge_tlb: end.mem.huge_tlb,
        }
    }
}

/// The derived snapshot of one process: identity fields from the current
/// reading, rate sub-models only when the same pid existed in the previous
/// one.
#[derive(Clone, Debug, PartialEq, Default)]
pub struct SingleProcessModel {
    pub pid: Option<i32>,
    pub ppid: Option<i32>,
    pub comm: Option<String>,
    pub state: Option<PidState>,
    pub uptime_secs: Option<u64>,
    pub cgroup: Option<String>,
    pub io: Option<ProcessIoModel>,
    pub mem: Option<ProcessMemoryModel>,
    pub cpu: Option<ProcessCpuModel>,
    pub cmdline: Option<String>,
    pub exe_path: Option<String>,
}

/// The command line of a process: its argument strings joined with single
/// spaces, over the first `i` arguments.
pub open spec fn join_args(v: Seq<String>, i: int) -> Seq<char>
    decreases i,
{
    if i <= 0 || i > v.len() {
        Seq::empty()
    } else if i == 1 {
        v[0]@
    } else {
        join_args(v, i - 1) + " "@ + v[i - 1]@
    }
}

/// How a built single-process model stands to its readings: identity fields
/// copied, the command line joined with spaces (or the placeholder when the
/// kernel gave none), and each rate sub-model present exactly when a previous
/// reading exists.
pub open spec fn single_process_matches(
    m: SingleProcessModel,
    s: PidInfo,
    last: Option<(PidInfo, u64)>,
) -> bool {
    &&& m.pid == s.stat.pid
    &&& m.ppid == s.stat.ppid
    &&& m.comm == s.stat.comm
    &&& m.state == s.stat.state
    &&& m.uptime_secs == s.stat.running_secs
    &&& m.cgroup == Some(s.cgroup)
    &&& m.io == (match last {
        Some((l, d)) => Some(process_io_spec(l.io, s.io, d)),
        None => None,
    })
    &&& m.mem == (match last {
        Some((l, d)) => Some(process_memory_spec(l, s, d)),
        None => None,
    })
    &&& m.cpu == (match last {
        Some((l, d)) => Some(process_cpu_spec(l.stat, s.stat, d)),
        None => None,
    })
    &&& m.cmdline is Some
    &&& m.cmdline->0@ == (match s.cmdline_vec {
        Some(v) => join_args(v@, v@.len() as int),
        None => "?"@,
    })
    &&& m.exe_path == s.exe_path
}

/// Join the argument strings of a command line with single spaces.
fn join_with_spaces(v: &Vec<String>) -> (r: String)
    ensures
        r@ == join_args(v@, v@.len() as int),
{
    let mut r = String::new();
    let n = v.len();
    for i in 0..n
        invariant
            n == v@.len(),
            r@ == join_args(v@, i as int),
    {
        if i > 0 {
            r.append(" ");
        }
        r.append(v[i].as_str());
    }
    r
}

/// An exact copy of an optional string.
fn opt_str_copy(o: &Option<String>) -> (r: Option<String>)
    ensures
        r == *o,
{
    match o {
        Some(s) => Some(s.clone()),
        None => None,
    }
}

impl SingleProcessModel {
    /// Derive the snapshot of one process. Identity fields come from the
    /// current reading alone; I/O, memory and CPU rates exist only when the
    /// previous tick saw the same pid. A process without a command line is
    /// shown with a placeholder.
    pub fn new(sample: &PidInfo, last: Option<(&PidInfo, u64)>) -> (r: SingleProcessModel)
        ensures
            single_process_matches(r, *sample, spec_last_pid(last)),
    {
        let cmdline: String = match &sample.cmdline_vec {
            Some(cmd_vec) => join_with_spaces(cmd_vec),
            None => String::from_str("?"),
        };
        SingleProcessModel {
            pid: sample.stat.pid,
            ppid: sample.stat.ppid,
            comm: opt_str_copy(&sample.stat.comm),
            state: sample.stat.state,
            uptime_secs: sample.stat.running_secs,
            cgroup: Some(sample.cgroup.clone()),
            io: match last {
                Some((l, d)) => Some(ProcessIoModel::new(&l.io, &sample.io, d)),
                None => None,
            },
            mem: match last {
                Some((l, d)) => Some(ProcessMemoryModel::new(l, sample, d)),
                None => None,
            },
            cpu: match last {
                Some((l, d)) => Some(ProcessCpuModel::new(&l.stat, &sample.stat, d)),
                None => None,
            },
            cmdline: Some(cmdline),
            exe_path: opt_str_copy(&sample.exe_path),
        }
    }
}

/// The view of an optional borrowed process pair as plain values.
pub open spec fn spec_last_pid(last: Option<(&PidInfo, u64)>) -> Option<(PidInfo, u64)> {
    match last {
        Some((l, d)) => Some((*l, d)),
        None => None,
    }
}

/// The first reading under the given pid, scanning from the front.
pub open spec fn lookup_pid(m: Seq<(i32, PidInfo)>, pid: i32) -> Option<PidInfo>
    decreases m.len(),
{
    if m.len() == 0 {
        None
    } else if m[0].0 == pid {
        Some(m[0].1)
    } else {
        lookup_pid(m.drop_first(), pid)
    }
}

/// The previous reading handed to one process: the same pid of the previous
/// tick, when it was present.
pub open spec fn pid_last(last: Option<(Seq<(i32, PidInfo)>, u64)>, pid: i32) -> Option<
    (PidInfo, u64),
> {
    match last {
        Some((l, d)) => match lookup_pid(l, pid) {
            Some(p) => Some((p, d)),
            None => None,
        },
        None => None,
    }
}

/// Find the reading of the given pid in the previous tick's table.
fn find_pid<'a>(m: &'a Vec<(i32, PidInfo)>, pid: i32) -> (r: Option<&'a PidInfo>)
    ensures
        match r {
            Some(p) => lookup_pid(m@, pid) == Some(*p),
            None => lookup_pid(m@, pid) is None,
        },
{
    let n = m.len();
    proof {
        assert(m@.skip(0) =~= m@);
    }
    for i in 0..n
        invariant
            n == m@.len(),
            lookup_pid(m@, pid) == lookup_pid(m@.skip(i as int), pid),
    {
        if m[i].0 == pid {
            proof {
                lemma_lookup_pid_found(m@, pid, i as int);
            }
            return Some(&m[i].1);
        }
        proof {
            lemma_lookup_pid_step(m@, pid, i as int);
        }
    }
    None
}

/// Scanning past a pid that does not match leaves the lookup unchanged.
proof fn lemma_lookup_pid_step(m: Seq<(i32, PidInfo)>, pid: i32, i: int)
    requires
        0 <= i < m.len(),
        m[i].0 != pid,
    ensures
        lookup_pid(m.skip(i), pid) == lookup_pid(m.skip(i + 1), pid),
{
    assert(m.skip(i)[0] == m[i]);
    assert(m.skip(i).drop_first() =~= m.skip(i + 1));
}

/// A matching pid at the scan position is the lookup's result.
proof fn lemma_lookup_pid_found(m: Seq<(i32, PidInfo)>, pid: i32, i: int)
    requires
        0 <= i < m.len(),
        m[i].0 == pid,
    ensures
        lookup_pid(m.skip(i), pid) == Some(m[i].1),
{
    assert(m.skip(i)[0] == m[i]);
}

/// The derived process table of one tick.
#[derive(Debug, Default)]
pub struct ProcessModel {
    pub processes: Vec<(i32, SingleProcessModel)>,
}

/// The first `i` derived entries each carry the sample's pid, in order, and a
/// model that matches that pid's readings.
pub open spec fn processes_match_upto(
    out: Seq<(i32, SingleProcessModel)>,
    sample: Seq<(i32, PidInfo)>,
    last: Option<(Seq<(i32, PidInfo)>, u64)>,
    i: int,
) -> bool
    decreases i,
{
    if i <= 0 || i > sample.len() || i > out.len() {
        true
    } else {
        &&& processes_match_upto(out, sample, last, i - 1)
        &&& out[i - 1].0 == sample[i - 1].0
        &&& single_process_matches(
            out[i - 1].1,
            sample[i - 1].1,
            pid_last(last, sample[i - 1].0),
        )
    }
}

/// Appending a new entry does not disturb what holds of the first `i`.
proof fn lemma_processes_match_push(
    out: Seq<(i32, SingleProcessModel)>,
    entry: (i32, SingleProcessModel),
    sample: Seq<(i32, PidInfo)>,
    last: Option<(Seq<(i32, PidInfo)>, u64)>,
    i: int,
)
    requires
        i <= out.len(),
        processes_match_upto(out, sample, last, i),
    ensures
        processes_match_upto(out.push(entry), sample, last, i),
    decreases i,
{
    if i > 0 && i <= sample.len() {
        lemma_processes_match_push(out, entry, sample, last, i - 1);
        assert(out.push(entry)[i - 1] == out[i - 1]);
    }
}

/// The view of the optional borrowed process-table pair as plain values.
pub open spec fn spec_last_map(last: Option<(&PidMap, u64)>) -> Option<(Seq<(i32, PidInfo)>, u64)> {
    match last {
        Some((l, d)) => Some((l@, d)),
        None => None,
    }
}

impl ProcessModel {
    /// Derive the process table: one `SingleProcessModel` per current pid, in
    /// the sample's order, each paired with the previous tick's reading of
    /// the same pid when there was one.
    pub fn new(sample: &PidMap, last: Option<(&PidMap, u64)>) -> (r: ProcessModel)
        ensures
            r.processes@.len() == sample@.len(),
            processes_match_upto(
                r.processes@,
                sample@,
                spec_last_map(last),
                sample@.len() as int,
            ),
    {
        let ghost last_val = spec_last_map(last);
        let mut processes: Vec<(i32, SingleProcessModel)> = Vec::new();
        let n = sample.len();
        for i in 0..n
            invariant
                n == sample@.len(),
                last_val == spec_last_map(last),
                processes@.len() == i,
                processes_match_upto(processes@, sample@, last_val, i as int),
        {
            let pid = sample[i].0;
            let pidinfo = &sample[i].1;
            let pid_last_pair: Option<(&PidInfo, u64)> = match last {
                Some((l, d)) => {
                    match find_pid(l, pid) {
                        Some(p) => Some((p, d)),
                        None => None,
                    }
                },
                None => None,
            };
            proof {
                assert(spec_last_pid(pid_last_pair) == pid_last(last_val, pid));
            }
            let model = SingleProcessModel::new(pidinfo, pid_last_pair);
            proof {
                lemma_processes_match_push(
                    processes@,
                    (pid, model),
                    sample@,
                    last_val,
                    i as int,
                );
            }
            processes.push((pid, model));
        }
        ProcessModel { processes }
    }
}

} // verus!
