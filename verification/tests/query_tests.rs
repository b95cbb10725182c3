//! The generic query system: field addressing, absence absorption, ordering
//! and sorting.

use below_model::cgroup::{CgroupCpuModel, CgroupModel, CgroupSample, CpuStat};
use below_model::field::{field_add, field_cmp, field_eq, str_cmp, Field};
use below_model::process::PidState;
use below_model::query::{
    CgroupCpuModelFieldId, CgroupModelFieldId, CgroupPressureModelFieldId, Queriable, Recursive,
    VecFieldId,
};
use std::cmp::Ordering;

fn built_cgroup() -> CgroupModel {
    let prev = CgroupSample {
        inode_number: Some(5),
        cpu_stat: Some(CpuStat { usage_usec: Some(0), ..Default::default() }),
        ..Default::default()
    };
    let cur = CgroupSample {
        inode_number: Some(5),
        cpu_stat: Some(CpuStat { usage_usec: Some(250_000), ..Default::default() }),
        ..Default::default()
    };
    CgroupModel::new("a".to_string(), "/a".to_string(), 1, &cur, Some((&prev, 1_000_000)))
}

#[test]
fn query_scalar_leaf() {
    let m = built_cgroup();
    assert_eq!(m.query(&CgroupModelFieldId::Name), Some(Field::Str("a".to_string())));
    assert_eq!(m.query(&CgroupModelFieldId::FullPath), Some(Field::Str("/a".to_string())));
    assert_eq!(m.query(&CgroupModelFieldId::InodeNumber), Some(Field::U64(5)));
}

#[test]
fn query_subquery_reaches_nested_scalar() {
    let m = built_cgroup();
    let r = m.query(&CgroupModelFieldId::Cpu(CgroupCpuModelFieldId::UsagePct));
    assert_eq!(r, Some(Field::Milli(25_000)));
    // A present sub-model whose own leaf is absent: the leaf decides.
    let r2 = m.query(&CgroupModelFieldId::Cpu(CgroupCpuModelFieldId::UserPct));
    assert_eq!(r2, None);
}

#[test]
fn query_absent_submodel_absorbs_to_none() {
    // Pressure was never sampled: every path through it is None.
    let m = built_cgroup();
    assert!(m.pressure.is_none());
    let r = m.query(&CgroupModelFieldId::Pressure(CgroupPressureModelFieldId::CpuSomePct));
    assert_eq!(r, None);
    // An absent io_total behaves the same.
    assert!(m.io_total.is_none());
    let r2 = m.query(&CgroupModelFieldId::Io(
        below_model::query::CgroupIoModelFieldId::RbytesPerSec,
    ));
    assert_eq!(r2, None);
}

#[test]
fn vec_query_indexes_and_bounds() {
    let a = CgroupCpuModel { usage_pct: Some(10), ..Default::default() };
    let b = CgroupCpuModel { usage_pct: Some(20), ..Default::default() };
    let v = vec![a, b];
    let hit = v.query(&VecFieldId { idx: 1, subquery_id: CgroupCpuModelFieldId::UsagePct });
    assert_eq!(hit, Some(Field::Milli(20)));
    let miss = v.query(&VecFieldId { idx: 2, subquery_id: CgroupCpuModelFieldId::UsagePct });
    assert_eq!(miss, None);
}

#[test]
fn recursive_exposes_depth() {
    let m = built_cgroup();
    assert_eq!(m.get_depth(), 1);
}

#[test]
fn field_equality_is_within_variant_only() {
    assert!(field_eq(&Field::U64(5), &Field::U64(5)));
    assert!(!field_eq(&Field::U64(5), &Field::U64(6)));
    // Cross-variant pairs are never equal, even for the same number.
    assert!(!field_eq(&Field::U64(5), &Field::I64(5)));
    assert!(field_eq(
        &Field::Str("x".to_string()),
        &Field::Str("x".to_string())
    ));
    assert!(field_eq(
        &Field::PidState(PidState::Zombie),
        &Field::PidState(PidState::Zombie)
    ));
}

#[test]
fn field_comparison_orders_within_variant() {
    assert_eq!(field_cmp(&Field::U64(1), &Field::U64(2)), Some(Ordering::Less));
    assert_eq!(field_cmp(&Field::Milli(-5), &Field::Milli(-7)), Some(Ordering::Greater));
    assert_eq!(
        field_cmp(&Field::Str("ab".to_string()), &Field::Str("b".to_string())),
        Some(Ordering::Less)
    );
    // Cross-variant pairs are incomparable.
    assert_eq!(field_cmp(&Field::U64(1), &Field::Str("1".to_string())), None);
}

#[test]
fn string_comparison_is_lexicographic() {
    assert_eq!(str_cmp("abc", "abd"), Ordering::Less);
    assert_eq!(str_cmp("abc", "abc"), Ordering::Equal);
    assert_eq!(str_cmp("abcd", "abc"), Ordering::Greater);
    assert_eq!(str_cmp("", "a"), Ordering::Less);
}

#[test]
fn field_addition_within_addable_variants() {
    assert_eq!(field_add(Field::U32(3), Field::U32(4)), Field::U32(7));
    assert_eq!(field_add(Field::U64(3), Field::U64(4)), Field::U64(7));
    assert_eq!(field_add(Field::I64(3), Field::I64(-4)), Field::I64(-1));
    assert_eq!(field_add(Field::Milli(500), Field::Milli(250)), Field::Milli(750));
    assert_eq!(
        field_add(Field::Str("ab".to_string()), Field::Str("cd".to_string())),
        Field::Str("abcd".to_string())
    );
}

fn cpu(usage: Option<i64>) -> CgroupCpuModel {
    CgroupCpuModel { usage_pct: usage, ..Default::default() }
}

#[test]
fn sort_orders_by_queried_field() {
    let a = cpu(Some(300));
    let b = cpu(Some(100));
    let c = cpu(Some(200));
    let mut v: Vec<&CgroupCpuModel> = vec![&a, &b, &c];
    below_model::query::sort_queriables(&mut v, &CgroupCpuModelFieldId::UsagePct, false);
    let got: Vec<Option<i64>> = v.iter().map(|m| m.usage_pct).collect();
    assert_eq!(got, vec![Some(100), Some(200), Some(300)]);
}

#[test]
fn sort_reverse_flips_the_order() {
    let a = cpu(Some(300));
    let b = cpu(Some(100));
    let c = cpu(Some(200));
    let mut v: Vec<&CgroupCpuModel> = vec![&a, &b, &c];
    below_model::query::sort_queriables(&mut v, &CgroupCpuModelFieldId::UsagePct, true);
    let got: Vec<Option<i64>> = v.iter().map(|m| m.usage_pct).collect();
    assert_eq!(got, vec![Some(300), Some(200), Some(100)]);
}

#[test]
fn sort_places_absent_values_first() {
    let a = cpu(Some(300));
    let b = cpu(None);
    let c = cpu(Some(100));
    let mut v: Vec<&CgroupCpuModel> = vec![&a, &b, &c];
    below_model::query::sort_queriables(&mut v, &CgroupCpuModelFieldId::UsagePct, false);
    let got: Vec<Option<i64>> = v.iter().map(|m| m.usage_pct).collect();
    assert_eq!(got, vec![None, Some(100), Some(300)]);
}

#[test]
fn sort_is_stable_for_equal_keys() {
    let a = cpu(Some(100));
    let b = cpu(Some(100));
    let c = cpu(Some(50));
    let mut v: Vec<&CgroupCpuModel> = vec![&a, &b, &c];
    below_model::query::sort_queriables(&mut v, &CgroupCpuModelFieldId::UsagePct, false);
    assert_eq!(v[0].usage_pct, Some(50));
    // The two equal models keep their relative order.
    assert!(std::ptr::eq(v[1], &a));
    assert!(std::ptr::eq(v[2], &b));
}

#[test]
fn vec_field_id_variant_lists_are_empty() {
    let u: Vec<VecFieldId<CgroupCpuModel>> = VecFieldId::unit_variant_list();
    let a: Vec<VecFieldId<CgroupCpuModel>> = VecFieldId::all_variant_list();
    assert!(u.is_empty());
    assert!(a.is_empty());
}

#[test]
fn field_conversions_take_out_the_carried_value() {
    assert_eq!(below_model::field::field_into_i64(Field::I32(-7)), -7);
    assert_eq!(below_model::field::field_into_i64(Field::I64(9)), 9);
    assert_eq!(
        below_model::field::field_into_string(Field::Str("abc".to_string())),
        "abc"
    );
}
