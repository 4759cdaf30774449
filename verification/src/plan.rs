//! The lazy scan plan.
//!
//! A plan node is the unevaluated description of "read these files, with
//! this physical schema, under this access configuration, optionally
//! synthesizing partition columns, optionally casting to the canonical
//! schema". Building it performs no I/O; files are only touched when the
//! engine later evaluates the plan.

use vstd::prelude::*;
use crate::schema::{ColumnDef, ReconciledSchema};
use crate::config::CloudAccessConfig;

verus! {

/// How the plan reconciles per-file heterogeneity.
#[derive(Clone, Copy, Debug, PartialEq, Eq, Structural)]
pub enum ScanStrategy {
    /// One scan node per file, diagonally unioned by name, then cast to the
    /// canonical schema. Robust to schema evolution across files; the
    /// default.
    CastAfterUnion,
    /// One multi-file scan node over the physical schema, with partition
    /// columns synthesized from the hive path encoding. An opt-in
    /// optimization, sound only for files with one shared physical schema.
    SingleNodeHive,
}

/// The knobs every underlying file scan node is built with.
#[derive(Clone, Copy, Debug, PartialEq, Eq, Structural)]
pub struct ScanNodeConfig {
    /// Trade evaluation throughput for reduced peak memory; propagated
    /// verbatim from the caller's options.
    pub low_memory: bool,
    /// Permit file and row-group skipping from embedded min/max metadata;
    /// propagated verbatim.
    pub use_statistics: bool,
    /// Synthesize partition columns from `key=value` path segments.
    pub hive_partitioning: bool,
    /// Row-count hint; planning never precomputes one, so it stays absent.
    pub row_count_hint: Option<usize>,
    /// Eager row-chunk coalescing; an evaluation-time concern, disabled at
    /// planning time so predicate pushdown stays sound.
    pub rechunk: bool,
    /// Cache file reads during evaluation.
    pub cache: bool,
    /// Expand paths by globbing; file locations are literal, so disabled.
    pub glob_paths: bool,
}

/// The lazy, unevaluated scan plan.
pub enum ScanPlanNode {
    /// A zero-row result typed exactly to the given schema; what an empty
    /// table scans to.
    EmptyTyped { schema: Vec<ColumnDef> },
    /// One scan node per file, diagonal union by name (absent columns are
    /// null for that file's rows), then a total, order-preserving cast to
    /// `cast_to`.
    UnionCast {
        files: Vec<String>,
        node: ScanNodeConfig,
        access: Option<CloudAccessConfig>,
        cast_to: Vec<ColumnDef>,
        strict_cast: bool,
        union_parallel: bool,
        union_rechunk: bool,
    },
    /// One multi-file scan node over `physical`, partition columns
    /// synthesized per file and emitted at their original logical position
    /// via `canonical`.
    MultiHive {
        files: Vec<String>,
        node: ScanNodeConfig,
        access: Option<CloudAccessConfig>,
        physical: Vec<ColumnDef>,
        canonical: Vec<ColumnDef>,
    },
}

impl ScanPlanNode {
    /// The columns, in order, the plan's lazy result emits.
    pub open spec fn output_schema(&self) -> Seq<ColumnDef> {
        match self {
            ScanPlanNode::EmptyTyped { schema } => schema@,
            ScanPlanNode::UnionCast { cast_to, .. } => cast_to@,
            ScanPlanNode::MultiHive { canonical, .. } => canonical@,
        }
    }

    /// The file locations the plan reads.
    pub open spec fn planned_files(&self) -> Seq<String> {
        match self {
            ScanPlanNode::EmptyTyped { .. } => Seq::empty(),
            ScanPlanNode::UnionCast { files, .. } => files@,
            ScanPlanNode::MultiHive { files, .. } => files@,
        }
    }

    /// The per-node knobs, where the plan scans any file.
    pub open spec fn node_config(&self) -> Option<ScanNodeConfig> {
        match self {
            ScanPlanNode::EmptyTyped { .. } => None,
            ScanPlanNode::UnionCast { node, .. } => Some(*node),
            ScanPlanNode::MultiHive { node, .. } => Some(*node),
        }
    }
}

/// The knobs planning fixes for every scan node: the caller's flags
/// verbatim, hive synthesis as decided, no row-count hint, no eager
/// coalescing, cached literal reads.
pub open spec fn spec_node_config(low_memory: bool, use_statistics: bool, hive: bool)
    -> ScanNodeConfig {
    ScanNodeConfig {
        low_memory,
        use_statistics,
        hive_partitioning: hive,
        row_count_hint: None,
        rechunk: false,
        cache: true,
        glob_paths: false,
    }
}

/// Assembles the scan plan for the given files and reconciled schema. Zero
/// files yield a valid zero-row plan typed to the canonical schema, never an
/// error. Otherwise the chosen strategy decides the plan's shape; either way
/// the plan emits the canonical schema's columns in canonical order, with
/// the caller's flags propagated verbatim into every scan node, the
/// row-count hint unknown, and eager coalescing disabled.
pub fn build_plan(
    files: Vec<String>,
    reconciled: ReconciledSchema,
    hive: bool,
    access: Option<CloudAccessConfig>,
    low_memory: bool,
    use_statistics: bool,
    strategy: ScanStrategy,
) -> (r: ScanPlanNode)
    ensures
        r.output_schema() == reconciled.canonical@,
        files@.len() == 0 ==> r matches ScanPlanNode::EmptyTyped { .. },
        files@.len() > 0 ==> {
            &&& r.planned_files() == files@
            &&& r.node_config() == Some(spec_node_config(low_memory, use_statistics, hive))
            &&& (strategy == ScanStrategy::CastAfterUnion <==> r matches ScanPlanNode::UnionCast {
                ..
            })
            &&& (strategy == ScanStrategy::SingleNodeHive <==> r matches ScanPlanNode::MultiHive {
                ..
            })
        },
        r matches ScanPlanNode::UnionCast { access: a, strict_cast, union_rechunk, .. } ==> (a
            == access && strict_cast && !union_rechunk),
        r matches ScanPlanNode::MultiHive { access: a, physical, .. } ==> (a == access && physical@
            == reconciled.physical@),
{
    if files.len() == 0 {
        return ScanPlanNode::EmptyTyped { schema: reconciled.canonical };
    }
    let node = ScanNodeConfig {
        low_memory,
        use_statistics,
        hive_partitioning: hive,
        row_count_hint: None,
        rechunk: false,
        cache: true,
        glob_paths: false,
    };
    match strategy {
        ScanStrategy::CastAfterUnion => ScanPlanNode::UnionCast {
            files,
            node,
            access,
            cast_to: reconciled.canonical,
            strict_cast: true,
            union_parallel: true,
            union_rechunk: false,
        },
        ScanStrategy::SingleNodeHive => ScanPlanNode::MultiHive {
            files,
            node,
            access,
            physical: reconciled.physical,
            canonical: reconciled.canonical,
        },
    }
}

} // verus!
