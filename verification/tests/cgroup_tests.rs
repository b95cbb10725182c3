//! End-to-end scenarios over the cgroup tree builder.

use below_model::cgroup::{
    CgroupIoModel, CgroupMemoryModel, CgroupModel, CgroupSample, CpuStat, IoStat, MemoryStat,
    Pressure,
};
use below_model::{Model, Sample};

const SEC: u64 = 1_000_000;

fn cpu_sample(usage_usec: u64) -> CpuStat {
    CpuStat { usage_usec: Some(usage_usec), ..Default::default() }
}

#[test]
fn same_inode_derives_cpu_percentage() {
    // Two samples of path /a with the same inode and 1s of CPU over 1s of
    // wall time: usage is 100%, and the node is not marked recreated.
    let prev = CgroupSample {
        inode_number: Some(5),
        cpu_stat: Some(cpu_sample(1_000_000)),
        ..Default::default()
    };
    let cur = CgroupSample {
        inode_number: Some(5),
        cpu_stat: Some(cpu_sample(2_000_000)),
        ..Default::default()
    };
    let m = CgroupModel::new("a".to_string(), "/a".to_string(), 1, &cur, Some((&prev, SEC)));
    assert_eq!(m.name, "a");
    assert_eq!(m.full_path, "/a");
    assert!(!m.recreate_flag);
    let cpu = m.cpu.expect("cpu model should be derived");
    assert_eq!(cpu.usage_pct, Some(100_000));
    assert_eq!(cpu.user_pct, None);
}

#[test]
fn changed_inode_marks_recreated_and_drops_cpu() {
    // The same path with inode 5 then 7: the previous sample is not
    // comparable, so the node is recreated and CPU is withheld, whatever the
    // counters say.
    let prev = CgroupSample {
        inode_number: Some(5),
        cpu_stat: Some(cpu_sample(1_000_000)),
        ..Default::default()
    };
    let cur = CgroupSample {
        inode_number: Some(7),
        cpu_stat: Some(cpu_sample(2_000_000)),
        ..Default::default()
    };
    let m = CgroupModel::new("a".to_string(), "/a".to_string(), 1, &cur, Some((&prev, SEC)));
    assert!(m.recreate_flag);
    assert!(m.cpu.is_none());
    assert!(m.io.is_none());
    assert!(m.io_total.is_none());
}

#[test]
fn one_sided_inode_is_a_recreation_too() {
    let prev = CgroupSample { inode_number: None, ..Default::default() };
    let cur = CgroupSample { inode_number: Some(7), ..Default::default() };
    let m = CgroupModel::new("a".to_string(), "/a".to_string(), 1, &cur, Some((&prev, SEC)));
    assert!(m.recreate_flag);
}

#[test]
fn both_without_inode_are_the_same_identity() {
    let prev = CgroupSample {
        inode_number: None,
        cpu_stat: Some(cpu_sample(0)),
        ..Default::default()
    };
    let cur = CgroupSample {
        inode_number: None,
        cpu_stat: Some(cpu_sample(500_000)),
        ..Default::default()
    };
    let m = CgroupModel::new("a".to_string(), "/a".to_string(), 1, &cur, Some((&prev, SEC)));
    assert!(!m.recreate_flag);
    assert_eq!(m.cpu.expect("cpu").usage_pct, Some(50_000));
}

#[test]
fn no_previous_sample_means_no_deltas_and_recreate_stays_false() {
    let cur = CgroupSample {
        inode_number: Some(5),
        cpu_stat: Some(cpu_sample(2_000_000)),
        ..Default::default()
    };
    let m = CgroupModel::new("a".to_string(), "/a".to_string(), 1, &cur, None);
    assert!(!m.recreate_flag);
    assert!(m.cpu.is_none());
}

fn leaf_with_memory(total: u64) -> CgroupSample {
    CgroupSample { memory_current: Some(total), ..Default::default() }
}

#[test]
fn count_is_one_plus_children_counts() {
    // A root with two children, one of which has one child of its own.
    let grandchild = CgroupSample::default();
    let child_a = CgroupSample {
        children: Some(vec![("x".to_string(), grandchild)]),
        ..Default::default()
    };
    let child_b = CgroupSample::default();
    let root = CgroupSample {
        children: Some(vec![("a".to_string(), child_a), ("b".to_string(), child_b)]),
        ..Default::default()
    };
    let m = CgroupModel::new("<root>".to_string(), String::new(), 0, &root, None);
    assert_eq!(m.count, 4);
    assert_eq!(m.children.len(), 2);
    let a = &m.children[0];
    let b = &m.children[1];
    assert_eq!(a.count, 2);
    assert_eq!(b.count, 1);
    assert_eq!(m.count, 1 + a.count + b.count);
    assert_eq!(a.count, 1 + a.children[0].count);
    // Children of a name-sorted sample come out sorted by name: the ordered
    // set the collector's name-keyed child map induces.
    assert!(m.children[0].name < m.children[1].name);
    // Paths and depths follow the tree.
    assert_eq!(a.full_path, "/a");
    assert_eq!(a.children[0].full_path, "/a/x");
    assert_eq!(a.children[0].depth, 2);
}

#[test]
fn empty_io_stat_sums_to_defined_zero_total() {
    // An empty per-device map still has a defined all-zero total: this cgroup
    // truly has no I/O. An absent io.stat must not produce a total at all.
    let prev = CgroupSample {
        inode_number: Some(1),
        io_stat: Some(vec![]),
        ..Default::default()
    };
    let cur = CgroupSample {
        inode_number: Some(1),
        io_stat: Some(vec![]),
        ..Default::default()
    };
    let m = CgroupModel::new("a".to_string(), "/a".to_string(), 1, &cur, Some((&prev, SEC)));
    assert_eq!(m.io_total, Some(CgroupIoModel::empty()));
    assert_eq!(m.io.as_ref().map(|v| v.len()), Some(0));
    assert_eq!(CgroupIoModel::empty().rbytes_per_sec, Some(0));
    assert_eq!(CgroupIoModel::empty().rwbytes_per_sec, Some(0));

    let absent = CgroupSample { inode_number: Some(1), ..Default::default() };
    let absent2 = CgroupSample { inode_number: Some(1), ..Default::default() };
    let m2 = CgroupModel::new("a".to_string(), "/a".to_string(), 1, &absent2, Some((&absent, SEC)));
    assert!(m2.io_total.is_none());
}

#[test]
fn io_total_sums_matched_devices() {
    let prev = CgroupSample {
        inode_number: Some(1),
        io_stat: Some(vec![
            ("sda".to_string(), IoStat { rbytes: Some(0), ..Default::default() }),
            ("sdb".to_string(), IoStat { rbytes: Some(0), ..Default::default() }),
        ]),
        ..Default::default()
    };
    let cur = CgroupSample {
        inode_number: Some(1),
        io_stat: Some(vec![
            ("sda".to_string(), IoStat { rbytes: Some(1000), ..Default::default() }),
            ("sdb".to_string(), IoStat { rbytes: Some(500), ..Default::default() }),
            // A device new this tick has no begin reading and is dropped.
            ("sdc".to_string(), IoStat { rbytes: Some(9999), ..Default::default() }),
        ]),
        ..Default::default()
    };
    let m = CgroupModel::new("a".to_string(), "/a".to_string(), 1, &cur, Some((&prev, SEC)));
    let io = m.io.expect("per-device map");
    assert_eq!(io.len(), 2);
    assert_eq!(io[0].0, "sda");
    assert_eq!(io[0].1.rbytes_per_sec, Some(1_000_000));
    let total = m.io_total.expect("total");
    assert_eq!(total.rbytes_per_sec, Some(1_500_000));
    // Fields absent on every device stay absent in the sum except through the
    // explicit zero seed.
    assert_eq!(total.wbytes_per_sec, Some(0));
}

#[test]
fn memory_rates_survive_recreation() {
    // Memory has its own begin/end pairing: an inode change invalidates CPU
    // but not the memory rates.
    let prev = CgroupSample {
        inode_number: Some(5),
        cpu_stat: Some(cpu_sample(0)),
        memory_stat: Some(MemoryStat { pgfault: Some(0), ..Default::default() }),
        ..Default::default()
    };
    let cur = CgroupSample {
        inode_number: Some(7),
        cpu_stat: Some(cpu_sample(1_000_000)),
        memory_stat: Some(MemoryStat { pgfault: Some(300), ..Default::default() }),
        ..Default::default()
    };
    let m = CgroupModel::new("a".to_string(), "/a".to_string(), 1, &cur, Some((&prev, SEC)));
    assert!(m.recreate_flag);
    assert!(m.cpu.is_none());
    let mem = m.memory.expect("memory model");
    assert_eq!(mem.pgfault, Some(300));
}

#[test]
fn memory_model_copies_gauges_and_events() {
    let cur = CgroupSample {
        memory_current: Some(4096),
        memory_swap_current: Some(512),
        memory_high: Some(-1),
        memory_stat: Some(MemoryStat {
            anon: Some(100),
            file: Some(200),
            ..Default::default()
        }),
        memory_events: Some(below_model::cgroup::MemoryEvents {
            oom_kill: Some(3),
            ..Default::default()
        }),
        ..Default::default()
    };
    let m = CgroupMemoryModel::new(&cur, None);
    assert_eq!(m.total, Some(4096));
    assert_eq!(m.swap, Some(512));
    assert_eq!(m.memory_high, Some(-1));
    assert_eq!(m.anon, Some(100));
    assert_eq!(m.file, Some(200));
    assert_eq!(m.events_oom_kill, Some(3));
    // No previous stat block: every rate stays absent.
    assert_eq!(m.pgfault, None);
    assert_eq!(m.thp_collapse_alloc, None);
}

#[test]
fn root_memory_is_aggregated_from_children() {
    // A root with two children holding memory totals 100 and 200 and no
    // direct value of its own: after top-level aggregation the root total is
    // 300.
    let root = CgroupSample {
        children: Some(vec![
            ("a".to_string(), leaf_with_memory(100)),
            ("b".to_string(), leaf_with_memory(200)),
        ]),
        ..Default::default()
    };
    let sample = Sample { cgroup: root, processes: vec![] };
    let model = Model::new(77, &sample, None);
    assert_eq!(model.timestamp_us, 77);
    assert_eq!(model.time_elapsed_us, 0);
    assert_eq!(model.cgroup.name, "<root>");
    let mem = model.cgroup.memory.as_ref().expect("aggregated root memory");
    assert_eq!(mem.total, Some(300));
    // memory_high is a limit, not a counter: it does not aggregate.
    assert_eq!(mem.memory_high, None);
    assert_eq!(model.cgroup.count, 3);
}

#[test]
fn root_without_reporting_children_keeps_absent_memory() {
    let root = CgroupSample::default();
    let sample = Sample { cgroup: root, processes: vec![] };
    let model = Model::new(0, &sample, None);
    assert!(model.cgroup.memory.is_none());
}

#[test]
fn pressure_is_carried_without_a_delta() {
    let cur = CgroupSample {
        pressure: Some(Pressure {
            cpu_some_pct: Some(12_500),
            memory_full_pct: Some(80),
            ..Default::default()
        }),
        ..Default::default()
    };
    let m = CgroupModel::new("a".to_string(), "/a".to_string(), 1, &cur, None);
    let p = m.pressure.expect("pressure model");
    assert_eq!(p.cpu_some_pct, Some(12_500));
    assert_eq!(p.memory_full_pct, Some(80));
    assert_eq!(p.io_some_pct, None);
}

#[test]
fn child_absent_last_tick_starts_without_history() {
    let prev = CgroupSample {
        inode_number: Some(1),
        children: Some(vec![(
            "old".to_string(),
            CgroupSample {
                inode_number: Some(2),
                cpu_stat: Some(cpu_sample(0)),
                ..Default::default()
            },
        )]),
        ..Default::default()
    };
    let cur = CgroupSample {
        inode_number: Some(1),
        children: Some(vec![
            (
                "new".to_string(),
                CgroupSample {
                    inode_number: Some(3),
                    cpu_stat: Some(cpu_sample(1_000_000)),
                    ..Default::default()
                },
            ),
            (
                "old".to_string(),
                CgroupSample {
                    inode_number: Some(2),
                    cpu_stat: Some(cpu_sample(500_000)),
                    ..Default::default()
                },
            ),
        ]),
        ..Default::default()
    };
    let m = CgroupModel::new("<root>".to_string(), String::new(), 0, &cur, Some((&prev, SEC)));
    assert_eq!(m.children.len(), 2);
    // "new" was not in the previous tick: no deltas, but also not recreated.
    assert!(m.children[0].cpu.is_none());
    assert!(!m.children[0].recreate_flag);
    // "old" pairs with its previous reading by name.
    assert_eq!(m.children[1].cpu.as_ref().expect("cpu").usage_pct, Some(50_000));
}
