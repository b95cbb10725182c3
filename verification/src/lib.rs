//! A model-derivation and query layer for live system-resource observation.
//!
//! A collector (outside this crate) samples kernel counters into immutable
//! [`Sample`] trees at fixed intervals. This crate turns two time-separated
//! samples into a derived [`Model`]: percentages and per-second rates for
//! every cgroup and process, rebuilt from scratch each tick. Every model
//! field can then be addressed, compared and sorted through the generic
//! query system of [`query`], without per-field code.
//!
//! Derived metrics are exact fixed-point numbers in thousandths
//! (milli-percent, milli-units per second); absent kernel values stay absent
//! (`None`) and propagate through every derivation and subquery.

use vstd::prelude::*;

pub mod cgroup;
pub mod field;
pub mod path;
pub mod process;
pub mod query;
pub mod rate;

use crate::cgroup::{
    aggr_memory_upto, model_matches, node_count, CgroupModel, CgroupSample,
};
use crate::process::{processes_match_upto, PidMap, ProcessModel};

verus! {

/// A point-in-time reading of the whole machine, as the collector hands it
/// over: the cgroup tree and the process table. The host-wide system and
/// network domains belong to collaborating layers outside this crate.
#[derive(Debug, Default)]
pub struct Sample {
    pub cgroup: CgroupSample,
    pub processes: PidMap,
}

/// What the collector reports for GPUs. GPU metrics are deliberately not
/// derived: the map is carried through untouched.
#[derive(Debug, Default)]
pub struct GpuMap {}

/// The GPU portion of the model, deliberately empty: GPU derivation is a
/// non-goal of this layer.
#[derive(Clone, Debug, PartialEq, Eq, Structural, Default)]
pub struct GpuModel {}

impl GpuModel {
    /// Build the (empty) GPU model for one tick.
    pub fn new(_sample: &GpuMap, _last: Option<(&GpuMap, u64)>) -> (r: GpuModel)
        ensures
            r == (GpuModel {  }),
    {
        GpuModel {  }
    }
}

/// The previous cgroup sample and elapsed time of a top-level pair.
pub open spec fn spec_last_cgroup(last: Option<(&Sample, u64)>) -> Option<(CgroupSample, u64)> {
    match last {
        Some((l, d)) => Some((l.cgroup, d)),
        None => None,
    }
}

/// The name of the synthetic root node of the cgroup tree.
pub open spec fn root_name() -> Seq<char> {
    "<root>"@
}

/// The derived model of one tick: the cgroup tree, root values aggregated,
/// and the process table, both queryable field by field.
#[derive(Debug)]
pub struct Model {
    pub time_elapsed_us: u64,
    pub timestamp_us: u64,
    pub cgroup: CgroupModel,
    pub process: ProcessModel,
}

impl Model {
    /// Derive the model of one tick from the current sample and, when one
    /// exists, the previous sample with the microseconds elapsed since it was
    /// collected.
    ///
    /// The cgroup tree is rebuilt from scratch under a synthetic root named
    /// `<root>`, whose own memory model is then overwritten with the sum of
    /// its direct children's: the raw top-level counters are not
    /// representative. The node count of the sample tree must fit the
    /// model's counter.
    pub fn new(timestamp_us: u64, sample: &Sample, last: Option<(&Sample, u64)>) -> (r: Model)
        requires
            node_count(sample.cgroup) <= u32::MAX,
        ensures
            r.timestamp_us == timestamp_us,
            r.time_elapsed_us == (match last {
                Some((_, d)) => d,
                None => 0u64,
            }),
            exists|mem: Option<crate::cgroup::CgroupMemoryModel>|
                #[trigger] model_matches(
                    CgroupModel { memory: mem, ..r.cgroup },
                    root_name(),
                    Seq::empty(),
                    0,
                    sample.cgroup,
                    spec_last_cgroup(last),
                ),
            r.cgroup.memory == aggr_memory_upto(
                r.cgroup.children@,
                r.cgroup.children@.len() as int,
            ),
            r.process.processes@.len() == sample.processes@.len(),
            processes_match_upto(
                r.process.processes@,
                sample.processes@,
                crate::process::spec_last_map(
                    match last {
                        Some((l, d)) => Some((&l.processes, d)),
                        None => None,
                    },
                ),
                sample.processes@.len() as int,
            ),
    {
        let time_elapsed_us: u64 = match last {
            Some((_, d)) => d,
            None => 0,
        };
        let cgroup_last: Option<(&CgroupSample, u64)> = match last {
            Some((l, d)) => Some((&l.cgroup, d)),
            None => None,
        };
        let process_last: Option<(&PidMap, u64)> = match last {
            Some((l, d)) => Some((&l.processes, d)),
            None => None,
        };
        let built = CgroupModel::new(
            String::from_str("<root>"),
            String::new(),
            0,
            &sample.cgroup,
            cgroup_last,
        );
        let ghost built_memory = built.memory;
        let cgroup = built.aggr_top_level_val();
        proof {
            assert(model_matches(
                CgroupModel { memory: built_memory, ..cgroup },
                root_name(),
                Seq::empty(),
                0,
                sample.cgroup,
                spec_last_cgroup(last),
            ));
        }
        let process = ProcessModel::new(&sample.processes, process_last);
        Model { time_elapsed_us, timestamp_us, cgroup, process }
    }
}

} // verus!
