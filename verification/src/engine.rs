//! Lowering the scan plan onto the query engine.
//!
//! The engine's lazy frames, cloud options and errors are opaque here; each
//! engine call the lowering makes goes through one trusted wrapper. All
//! decisions — which files, which knobs, which columns, which types, which
//! retry budget — were already taken and verified while the plan was built;
//! the wrappers only carry them over.

use vstd::prelude::*;
use polars_lazy::frame::LazyFrame;
use polars::io::cloud::CloudOptions;
use polars::prelude::PolarsError;
use polars::prelude::Field;
use polars_lazy::frame::IntoLazy;
use crate::schema::{ColumnDef, DataType};
use crate::plan::{ScanPlanNode, ScanNodeConfig};
use crate::config::CloudAccessConfig;
use crate::error::ScanError;

verus! {

#[verifier::external_type_specification]
#[verifier::external_body]
pub struct ExLazyFrame(LazyFrame);

#[verifier::external_type_specification]
#[verifier::external_body]
pub struct ExCloudOptions(CloudOptions);

#[verifier::external_type_specification]
#[verifier::external_body]
pub struct ExPolarsError(PolarsError);

#[verifier::external_type_specification]
#[verifier::external_body]
pub struct ExField(Field);

/// Relies on polars' CloudOptions::from_untyped_config: parses the generic
/// key/value entries for the location's scheme, rejecting a malformed or
/// unknown key; the retry budget is then set on the returned options.
#[verifier::external_body]
fn cloud_config_for(url: &String, entries: &Vec<(String, String)>, max_retries: u64) -> (r:
    Result<CloudOptions, PolarsError>)
{
    let parsed = CloudOptions::from_untyped_config(
        url.as_str(),
        entries.iter().map(|(k, v)| (k.as_str(), v.as_str())),
    );
    parsed.map(|mut o| {
        o.max_retries = max_retries as usize;
        o
    })
}

/// Relies on polars' Display for its error type to render the message.
#[verifier::external_body]
fn engine_error_text(e: &PolarsError) -> (r: String) {
    format!("{}", e)
}

/// Relies on polars' Field::new; carries one canonical column name and its
/// engine type.
#[verifier::external_body]
fn engine_field(name: &String, dtype: &DataType) -> (r: Field) {
    let dt = match dtype {
        DataType::Boolean => polars::prelude::DataType::Boolean,
        DataType::Int32 => polars::prelude::DataType::Int32,
        DataType::Int64 => polars::prelude::DataType::Int64,
        DataType::Float64 => polars::prelude::DataType::Float64,
        DataType::Utf8 => polars::prelude::DataType::String,
    };
    Field::new(name.as_str(), dt)
}

/// Relies on polars' DataFrame::empty_with_schema and IntoLazy::lazy: a
/// zero-row frame typed to the given fields, wrapped as a lazy plan.
#[verifier::external_body]
fn empty_frame(fields: Vec<Field>) -> (r: LazyFrame) {
    let sc: polars::prelude::Schema = fields.into_iter().collect();
    polars::prelude::DataFrame::empty_with_schema(&sc).lazy()
}

/// Relies on polars' LazyFrame::scan_parquet: builds one lazy scan node for
/// the file, under the given knobs, reading no data.
#[verifier::external_body]
fn scan_parquet_node(path: &String, node: &ScanNodeConfig, cloud: &Option<CloudOptions>) -> (r:
    Result<LazyFrame, PolarsError>)
{
    let hive = polars::io::HiveOptions { enabled: Some(node.hive_partitioning), ..Default::default() };
    let args = polars_lazy::frame::ScanArgsParquet {
        n_rows: node.row_count_hint, parallel: Default::default(), row_index: None,
        cloud_options: cloud.clone(), hive_options: hive,
        use_statistics: node.use_statistics, low_memory: node.low_memory,
        rechunk: node.rechunk, cache: node.cache, glob: node.glob_paths,
    };
    LazyFrame::scan_parquet(path.as_str(), args)
}

/// Relies on polars' LazyFrame::scan_parquet_files: builds one lazy scan
/// node over all the files, under the given knobs, reading no data.
#[verifier::external_body]
fn scan_parquet_multi(paths: &Vec<String>, node: &ScanNodeConfig, cloud: &Option<
    CloudOptions,
>) -> (r: Result<LazyFrame, PolarsError>)
{
    let pb: Vec<std::path::PathBuf> = paths.iter().map(|p| p.as_str().into()).collect();
    let hive = polars::io::HiveOptions { enabled: Some(node.hive_partitioning), ..Default::default() };
    let args = polars_lazy::frame::ScanArgsParquet {
        n_rows: node.row_count_hint, parallel: Default::default(), row_index: None,
        cloud_options: cloud.clone(), hive_options: hive,
        use_statistics: node.use_statistics, low_memory: node.low_memory,
        rechunk: node.rechunk, cache: node.cache, glob: node.glob_paths,
    };
    LazyFrame::scan_parquet_files(pb.into(), args)
}

/// Relies on polars' concat_lf_diagonal: unions the frames by column name,
/// null-filling columns a frame lacks; its source fails exactly on an empty
/// input ("empty container given") and otherwise only assembles the union
/// plan node.
#[verifier::external_body]
fn concat_diagonal(frames: Vec<LazyFrame>, rechunk: bool, parallel: bool) -> (r: Result<
    LazyFrame,
    PolarsError,
>)
    ensures
        r is Ok <==> frames@.len() > 0,
{
    polars_lazy::dsl::functions::concat_lf_diagonal(
        frames,
        polars_lazy::prelude::UnionArgs { rechunk, parallel, ..Default::default() },
    )
}

/// Relies on polars' LazyFrame::select with one cast expression per given
/// field: the result emits exactly those columns, in the given order, each
/// cast to its field's type; plan assembly itself cannot fail.
#[verifier::external_body]
fn select_cast_frame(frame: LazyFrame, fields: &Vec<Field>, strict: bool) -> (r: LazyFrame) {
    let exprs: Vec<polars_lazy::dsl::Expr> = fields.iter().map(|f| {
        let e = polars_lazy::dsl::col(f.name().as_str());
        let dt = f.data_type().clone();
        if strict { e.strict_cast(dt) } else { e.cast(dt) }
    }).collect();
    frame.select(exprs)
}

/// Whether the plan carries no cloud access configuration.
pub open spec fn plan_access_absent(p: &ScanPlanNode) -> bool {
    match p {
        ScanPlanNode::EmptyTyped { .. } => true,
        ScanPlanNode::UnionCast { access, .. } => access is None,
        ScanPlanNode::MultiHive { access, .. } => access is None,
    }
}

/// Translates the plan's access configuration into engine cloud options;
/// absent options translate to none, and a rejected option surfaces as an
/// invalid-storage-config error.
fn cloud_for(access: &Option<CloudAccessConfig>) -> (r: Result<Option<CloudOptions>, ScanError>)
    ensures
        access is None ==> (r matches Ok(o) && o is None),
        r matches Err(e) ==> (access is Some && e matches ScanError::InvalidStorageConfig(_)),
{
    match access {
        None => Ok(None),
        Some(cfg) => match cloud_config_for(&cfg.url, &cfg.entries, cfg.max_retries) {
            Ok(o) => Ok(Some(o)),
            Err(pe) => Err(ScanError::InvalidStorageConfig(engine_error_text(&pe))),
        },
    }
}

/// One engine field per column, in order.
fn engine_fields(cols: &Vec<ColumnDef>) -> (r: Vec<Field>)
    ensures
        r@.len() == cols@.len(),
{
    let mut out: Vec<Field> = Vec::new();
    let mut i: usize = 0;
    while i < cols.len()
        invariant
            0 <= i <= cols@.len(),
            out@.len() == i,
        decreases cols@.len() - i,
    {
        let f = engine_field(&cols[i].name, &cols[i].dtype);
        out.push(f);
        i = i + 1;
    }
    out
}

/// Realizes the plan as one engine lazy frame, reading no data. An empty
/// typed plan always lowers; a failure is either a rejected storage option
/// (only possible when the plan carries one) or a plan-assembly failure,
/// and no other error kind.
pub fn lower_plan(p: &ScanPlanNode) -> (r: Result<LazyFrame, ScanError>)
    ensures
        p matches ScanPlanNode::EmptyTyped { .. } ==> r is Ok,
        r matches Err(e) ==> (e matches ScanError::InvalidStorageConfig(_) || e matches
            ScanError::PlanConstruction(_)),
        plan_access_absent(p) ==> !(r matches Err(e) && e matches ScanError::InvalidStorageConfig(
            _,
        )),
{
    match p {
        ScanPlanNode::EmptyTyped { schema } => {
            let fields = engine_fields(schema);
            Ok(empty_frame(fields))
        },
        ScanPlanNode::UnionCast {
            files,
            node,
            access,
            cast_to,
            strict_cast,
            union_parallel,
            union_rechunk,
        } => {
            let cloud = match cloud_for(access) {
                Ok(c) => c,
                Err(e) => {
                    return Err(e);
                },
            };
            if files.len() == 0 {
                return Err(
                    ScanError::PlanConstruction(String::from_str("scan plan lists no file")),
                );
            }
            let mut frames: Vec<LazyFrame> = Vec::new();
            let mut i: usize = 0;
            while i < files.len()
                invariant
                    0 <= i <= files@.len(),
                    frames@.len() == i,
                    p matches ScanPlanNode::UnionCast { .. },
                decreases files@.len() - i,
            {
                match scan_parquet_node(&files[i], node, &cloud) {
                    Ok(f) => {
                        frames.push(f);
                    },
                    Err(pe) => {
                        return Err(ScanError::PlanConstruction(engine_error_text(&pe)));
                    },
                }
                i = i + 1;
            }
            let unioned = match concat_diagonal(frames, *union_rechunk, *union_parallel) {
                Ok(f) => f,
                Err(pe) => {
                    return Err(ScanError::PlanConstruction(engine_error_text(&pe)));
                },
            };
            let fields = engine_fields(cast_to);
            Ok(select_cast_frame(unioned, &fields, *strict_cast))
        },
        ScanPlanNode::MultiHive { files, node, access, physical: _, canonical } => {
            let cloud = match cloud_for(access) {
                Ok(c) => c,
                Err(e) => {
                    return Err(e);
                },
            };
            if files.len() == 0 {
                return Err(
                    ScanError::PlanConstruction(String::from_str("scan plan lists no file")),
                );
            }
            let base = match scan_parquet_multi(files, node, &cloud) {
                Ok(f) => f,
                Err(pe) => {
                    return Err(ScanError::PlanConstruction(engine_error_text(&pe)));
                },
            };
            let fields = engine_fields(canonical);
            Ok(select_cast_frame(base, &fields, true))
        },
    }
}

} // verus!
