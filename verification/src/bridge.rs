//! The bridge entry point.
//!
//! Orchestration of one scan request: gate the declared features, translate
//! the storage options, reconcile the schema, build the plan, lower it onto
//! the engine. Every component error surfaces to the caller unchanged; a
//! scan either yields a fully valid lazy plan or fails outright.

use vstd::prelude::*;
use polars_lazy::frame::LazyFrame;
use crate::schema::{reconcile, excluded, views_of};
use crate::snapshot::{ResolvedSnapshot, validate_snapshot};
use crate::gate::{check_features, spec_all_features_allowed, spec_feature_allowed};
use crate::config::{ScanOptions, CloudAccessConfig, translate_storage, DEFAULT_RETRY_BUDGET};
use crate::plan::{build_plan, spec_node_config, ScanPlanNode, ScanStrategy};
use crate::engine::{lower_plan, plan_access_absent};
use crate::error::ScanError;

verus! {

/// What the plan's access configuration must hold for the given request:
/// nothing for absent storage options; otherwise the location, the entries
/// verbatim, and the caller's retry budget (ten when absent).
pub open spec fn access_matches(
    a: Option<CloudAccessConfig>,
    location: String,
    options: ScanOptions,
) -> bool {
    match options.storage_options {
        Option::None => a is None,
        Option::Some(m) => a matches Some(c) && c.url == location && c.entries == m
            && c.max_retries == (match options.retries {
            Option::Some(n) => n,
            Option::None => DEFAULT_RETRY_BUDGET,
        }),
    }
}

/// What a successfully planned scan promises: canonical output columns in
/// canonical order, the snapshot's files (or the typed empty plan), the
/// caller's flags verbatim with planning-time knobs fixed, the translated
/// access configuration, and the partition exclusion for the hive strategy.
pub open spec fn plan_matches_request(
    p: ScanPlanNode,
    location: String,
    snapshot: ResolvedSnapshot,
    options: ScanOptions,
    strategy: ScanStrategy,
) -> bool {
    &&& p.output_schema() == snapshot.logical_schema@
    &&& (snapshot.file_locations@.len() == 0 <==> p matches ScanPlanNode::EmptyTyped { .. })
    &&& (snapshot.file_locations@.len() > 0 ==> {
        &&& p.planned_files() == snapshot.file_locations@
        &&& p.node_config() == Some(
            spec_node_config(
                options.low_memory,
                options.use_statistics,
                snapshot.partition_columns@.len() > 0,
            ),
        )
        &&& (strategy == ScanStrategy::CastAfterUnion <==> p matches ScanPlanNode::UnionCast {
            ..
        })
        &&& (strategy == ScanStrategy::SingleNodeHive <==> p matches ScanPlanNode::MultiHive {
            ..
        })
    })
    &&& (p matches ScanPlanNode::UnionCast { access, strict_cast, .. } ==> (access_matches(
        access,
        location,
        options,
    ) && strict_cast))
    &&& (p matches ScanPlanNode::MultiHive { access, physical, .. } ==> (access_matches(
        access,
        location,
        options,
    ) && physical@ == excluded(snapshot.logical_schema@, views_of(snapshot.partition_columns@))))
}

/// Plans one scan of the resolved snapshot without touching the engine:
/// malformed snapshots and empty canonical schemas are planning failures,
/// a non-allowlisted declared feature stops the scan naming the first such
/// tag, and otherwise the returned plan matches the request exactly.
pub fn plan_scan(
    location: &String,
    snapshot: ResolvedSnapshot,
    options: ScanOptions,
    strategy: ScanStrategy,
) -> (r: Result<ScanPlanNode, ScanError>)
    ensures
        !snapshot.wf() ==> (r matches Err(e) && e matches ScanError::PlanConstruction(_)),
        (snapshot.wf() && !spec_all_features_allowed(snapshot.declared_features@)) ==> (r matches
            Err(e) && exists|i: int|
            {
                &&& 0 <= i < snapshot.declared_features@.len()
                &&& !spec_feature_allowed(snapshot.declared_features@[i]@)
                &&& e == ScanError::UnsupportedFeature(snapshot.declared_features@[i])
                &&& forall|k: int|
                    0 <= k < i ==> spec_feature_allowed(snapshot.declared_features@[k]@)
            }),
        (snapshot.wf() && spec_all_features_allowed(snapshot.declared_features@)
            && snapshot.logical_schema@.len() == 0) ==> (r matches Err(e) && e matches
            ScanError::PlanConstruction(_)),
        (snapshot.wf() && spec_all_features_allowed(snapshot.declared_features@)
            && snapshot.logical_schema@.len() > 0) ==> (r matches Ok(p) && plan_matches_request(
            p,
            *location,
            snapshot,
            options,
            strategy,
        )),
{
    if !validate_snapshot(&snapshot) {
        return Err(ScanError::PlanConstruction(String::from_str("malformed snapshot")));
    }
    match check_features(&snapshot.declared_features) {
        Err(e) => {
            return Err(e);
        },
        Ok(_) => {},
    }
    if snapshot.logical_schema.len() == 0 {
        return Err(ScanError::PlanConstruction(String::from_str("empty canonical schema")));
    }
    let hive = snapshot.partition_columns.len() > 0;
    let reconciled = reconcile(&snapshot.logical_schema, &snapshot.partition_columns);
    let ScanOptions { version: _, storage_options, low_memory, use_statistics, retries } =
        options;
    let access = translate_storage(location, storage_options, retries);
    let plan = build_plan(
        snapshot.file_locations,
        reconciled,
        hive,
        access,
        low_memory,
        use_statistics,
        strategy,
    );
    Ok(plan)
}

/// The bridge entry point: plans the scan and lowers it onto the engine as
/// one lazy frame. No data is read; planning errors surface unchanged; an
/// empty table yields a valid zero-row frame typed to the canonical schema,
/// never an error; and no storage-option error can arise when the caller
/// gave no storage options.
pub fn scan(
    location: &String,
    snapshot: ResolvedSnapshot,
    options: ScanOptions,
    strategy: ScanStrategy,
) -> (r: Result<LazyFrame, ScanError>)
    ensures
        !snapshot.wf() ==> (r matches Err(e) && e matches ScanError::PlanConstruction(_)),
        (snapshot.wf() && !spec_all_features_allowed(snapshot.declared_features@)) ==> (r matches
            Err(e) && exists|i: int|
            {
                &&& 0 <= i < snapshot.declared_features@.len()
                &&& !spec_feature_allowed(snapshot.declared_features@[i]@)
                &&& e == ScanError::UnsupportedFeature(snapshot.declared_features@[i])
                &&& forall|k: int|
                    0 <= k < i ==> spec_feature_allowed(snapshot.declared_features@[k]@)
            }),
        (snapshot.wf() && spec_all_features_allowed(snapshot.declared_features@)
            && snapshot.logical_schema@.len() == 0) ==> (r matches Err(e) && e matches
            ScanError::PlanConstruction(_)),
        (snapshot.wf() && spec_all_features_allowed(snapshot.declared_features@)
            && snapshot.logical_schema@.len() > 0 && snapshot.file_locations@.len() == 0) ==> r
            is Ok,
        options.storage_options is None ==> !(r matches Err(e) && e matches
            ScanError::InvalidStorageConfig(_)),
        r matches Err(e) ==> (e matches ScanError::UnsupportedFeature(_) || e matches
            ScanError::InvalidStorageConfig(_) || e matches ScanError::PlanConstruction(_)),
{
    let ghost snap = snapshot;
    let ghost opts = options;
    let plan = match plan_scan(location, snapshot, options, strategy) {
        Ok(p) => p,
        Err(e) => {
            return Err(e);
        },
    };
    proof {
        if opts.storage_options is None {
            assert(plan_access_absent(&plan));
        }
    }
    lower_plan(&plan)
}

} // verus!
