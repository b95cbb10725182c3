//! The derived process table on concrete readings.

use below_model::process::{
    PidInfo, PidIo, PidStat, PidState, ProcessModel, SingleProcessModel,
};

const SEC: u64 = 1_000_000;

fn info(pid: i32, user_usecs: u64) -> PidInfo {
    PidInfo {
        stat: PidStat {
            pid: Some(pid),
            ppid: Some(1),
            comm: Some("proc".to_string()),
            state: Some(PidState::Running),
            user_usecs: Some(user_usecs),
            system_usecs: Some(0),
            ..Default::default()
        },
        io: PidIo { rbytes: Some(0), wbytes: Some(0) },
        cgroup: "/workload".to_string(),
        ..Default::default()
    }
}

#[test]
fn process_with_history_gets_rate_models() {
    let prev = vec![(10, info(10, 0))];
    let cur = vec![(10, info(10, 500_000))];
    let m = ProcessModel::new(&cur, Some((&prev, SEC)));
    assert_eq!(m.processes.len(), 1);
    let (pid, sp) = &m.processes[0];
    assert_eq!(*pid, 10);
    assert_eq!(sp.pid, Some(10));
    assert_eq!(sp.cgroup.as_deref(), Some("/workload"));
    let cpu = sp.cpu.as_ref().expect("cpu model");
    assert_eq!(cpu.user_pct, Some(50_000));
    assert_eq!(cpu.system_pct, Some(0));
    // usage is the optional sum of user and system.
    assert_eq!(cpu.usage_pct, Some(50_000));
    assert!(sp.io.is_some());
    assert!(sp.mem.is_some());
}

#[test]
fn process_without_history_has_no_rate_models() {
    let prev = vec![(11, info(11, 0))];
    let cur = vec![(10, info(10, 500_000))];
    let m = ProcessModel::new(&cur, Some((&prev, SEC)));
    let (_, sp) = &m.processes[0];
    assert!(sp.cpu.is_none());
    assert!(sp.io.is_none());
    assert!(sp.mem.is_none());
    assert_eq!(sp.pid, Some(10));
}

#[test]
fn cmdline_joins_arguments_with_spaces() {
    let mut i = info(10, 0);
    i.cmdline_vec = Some(vec!["prog".to_string(), "-v".to_string(), "x".to_string()]);
    let sp = SingleProcessModel::new(&i, None);
    assert_eq!(sp.cmdline.as_deref(), Some("prog -v x"));
}

#[test]
fn missing_cmdline_becomes_placeholder() {
    let i = info(10, 0);
    let sp = SingleProcessModel::new(&i, None);
    assert_eq!(sp.cmdline.as_deref(), Some("?"));
}

#[test]
fn process_io_rates_treat_absent_side_as_zero() {
    let mut prev = info(10, 0);
    prev.io = PidIo { rbytes: Some(0), wbytes: None };
    let mut cur = info(10, 0);
    cur.io = PidIo { rbytes: Some(2_000), wbytes: None };
    let sp = SingleProcessModel::new(&cur, Some((&prev, SEC)));
    let io = sp.io.expect("io model");
    assert_eq!(io.rbytes_per_sec, Some(2_000_000));
    assert_eq!(io.wbytes_per_sec, None);
    // Unlike the cgroup total, the combined rate is always present, with the
    // absent side counted as zero.
    assert_eq!(io.rwbytes_per_sec, Some(2_000_000));
}

#[test]
fn process_memory_gauges_come_from_current_reading() {
    let mut prev = info(10, 0);
    prev.stat.minflt = Some(0);
    let mut cur = info(10, 0);
    cur.stat.minflt = Some(150);
    cur.stat.rss_bytes = Some(8192);
    cur.mem.vm_size = Some(65536);
    let sp = SingleProcessModel::new(&cur, Some((&prev, SEC)));
    let mem = sp.mem.expect("memory model");
    assert_eq!(mem.minorfaults_per_sec, Some(150_000));
    assert_eq!(mem.rss_bytes, Some(8192));
    assert_eq!(mem.vm_size, Some(65536));
    assert_eq!(mem.swap, None);
}
