//! The dotted string form of field addresses.

use below_model::cgroup::CgroupCpuModel;
use below_model::query::{
    CgroupCpuModelFieldId, CgroupMemoryModelFieldId, CgroupModelFieldId,
    SingleProcessModelFieldId, VecFieldId,
};
use below_model::path::FieldIdStr;

#[test]
fn leaf_paths_round_trip() {
    let id = CgroupCpuModelFieldId::UsagePct;
    assert_eq!(id.to_string(), "usage_pct");
    assert_eq!(CgroupCpuModelFieldId::from_str("usage_pct"), Ok(CgroupCpuModelFieldId::UsagePct));
    assert_eq!(
        CgroupMemoryModelFieldId::from_str("events_oom_kill"),
        Ok(CgroupMemoryModelFieldId::EventsOomKill)
    );
}

#[test]
fn subquery_paths_are_dotted() {
    let id = CgroupModelFieldId::Cpu(CgroupCpuModelFieldId::SystemPct);
    assert_eq!(id.to_string(), "cpu.system_pct");
    assert_eq!(CgroupModelFieldId::from_str("cpu.system_pct"), Ok(id));
    let mem = CgroupModelFieldId::Mem(CgroupMemoryModelFieldId::Total);
    assert_eq!(mem.to_string(), "mem.total");
    assert_eq!(CgroupModelFieldId::from_str("mem.total"), Ok(mem));
    let p = SingleProcessModelFieldId::Io(below_model::query::ProcessIoModelFieldId::RbytesPerSec);
    assert_eq!(p.to_string(), "io.rbytes_per_sec");
    assert_eq!(SingleProcessModelFieldId::from_str("io.rbytes_per_sec"), Ok(p));
}

#[test]
fn malformed_paths_surface_an_error_not_a_panic() {
    assert!(CgroupModelFieldId::from_str("no_such_field").is_err());
    assert!(CgroupModelFieldId::from_str("cpu.bogus").is_err());
    assert!(CgroupModelFieldId::from_str("").is_err());
    let e = CgroupCpuModelFieldId::from_str("nonsense").unwrap_err();
    assert_eq!(e.unmatched, "nonsense");
}

#[test]
fn collection_paths_carry_an_index() {
    let id: VecFieldId<CgroupCpuModel> =
        VecFieldId { idx: 12, subquery_id: CgroupCpuModelFieldId::UsagePct };
    assert_eq!(id.to_string(), "12.usage_pct");
    let parsed: VecFieldId<CgroupCpuModel> = VecFieldId::from_str("12.usage_pct").unwrap();
    assert_eq!(parsed.idx, 12);
    assert_eq!(parsed.subquery_id, CgroupCpuModelFieldId::UsagePct);
    let zero: VecFieldId<CgroupCpuModel> = VecFieldId::from_str("0.user_pct").unwrap();
    assert_eq!(zero.idx, 0);
    // Leading zeros name the same index, as the standard integer parser reads
    // them; printing uses the canonical spelling.
    let padded: VecFieldId<CgroupCpuModel> = VecFieldId::from_str("007.usage_pct").unwrap();
    assert_eq!(padded.idx, 7);
    assert_eq!(padded.to_string(), "7.usage_pct");
}

#[test]
fn collection_paths_reject_bad_indices() {
    // No separator at all.
    assert!(VecFieldId::<CgroupCpuModel>::from_str("usage_pct").is_err());
    // An empty or non-numeric index.
    assert!(VecFieldId::<CgroupCpuModel>::from_str(".usage_pct").is_err());
    assert!(VecFieldId::<CgroupCpuModel>::from_str("x.usage_pct").is_err());
    // An index beyond the machine limit.
    assert!(VecFieldId::<CgroupCpuModel>::from_str("99999999999999999999999.usage_pct").is_err());
}
