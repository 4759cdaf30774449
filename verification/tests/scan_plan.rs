use delta_scan::schema::{ColumnDef, DataType};
use delta_scan::snapshot::ResolvedSnapshot;
use delta_scan::config::ScanOptions;
use delta_scan::plan::{ScanPlanNode, ScanStrategy};
use delta_scan::bridge::{plan_scan, scan};
use delta_scan::error::ScanError;

fn col(name: &str, dtype: DataType) -> ColumnDef {
    ColumnDef { name: name.to_string(), dtype }
}

fn options() -> ScanOptions {
    ScanOptions {
        version: None,
        storage_options: None,
        low_memory: false,
        use_statistics: true,
        retries: None,
    }
}

fn snapshot(files: Vec<String>, features: Vec<String>) -> ResolvedSnapshot {
    ResolvedSnapshot {
        logical_schema: vec![
            col("a", DataType::Int32),
            col("b", DataType::Int64),
            col("region", DataType::Utf8),
        ],
        partition_columns: vec!["region".to_string()],
        file_locations: files,
        declared_features: features,
    }
}

#[test]
fn empty_table_plans_to_zero_row_typed_plan() {
    let loc = "/data/table".to_string();
    let plan = plan_scan(&loc, snapshot(vec![], vec![]), options(), ScanStrategy::CastAfterUnion)
        .unwrap();
    match plan {
        ScanPlanNode::EmptyTyped { schema } => {
            let names: Vec<&str> = schema.iter().map(|c| c.name.as_str()).collect();
            assert_eq!(names, vec!["a", "b", "region"]);
        },
        _ => panic!("zero files must plan to the typed empty plan"),
    }
}

#[test]
fn union_plan_keeps_files_flags_and_canonical_order() {
    let loc = "/data/table".to_string();
    let files = vec!["/data/f1.parquet".to_string(), "/data/f2.parquet".to_string()];
    let mut opts = options();
    opts.low_memory = true;
    opts.use_statistics = false;
    let plan = plan_scan(&loc, snapshot(files.clone(), vec![]), opts,
        ScanStrategy::CastAfterUnion).unwrap();
    match plan {
        ScanPlanNode::UnionCast { files: pf, node, access, cast_to, strict_cast, .. } => {
            assert_eq!(pf, files);
            assert!(node.low_memory);
            assert!(!node.use_statistics);
            assert!(node.hive_partitioning);
            assert!(node.row_count_hint.is_none());
            assert!(!node.rechunk);
            assert!(node.cache);
            assert!(!node.glob_paths);
            assert!(access.is_none());
            assert!(strict_cast);
            let names: Vec<&str> = cast_to.iter().map(|c| c.name.as_str()).collect();
            assert_eq!(names, vec!["a", "b", "region"]);
        },
        _ => panic!("nonempty files under the union strategy must plan to a union"),
    }
}

#[test]
fn hive_plan_reads_physical_and_emits_canonical() {
    let loc = "/data/table".to_string();
    let files = vec!["/data/region=eu/f1.parquet".to_string()];
    let plan = plan_scan(&loc, snapshot(files, vec![]), options(),
        ScanStrategy::SingleNodeHive).unwrap();
    match plan {
        ScanPlanNode::MultiHive { physical, canonical, node, .. } => {
            let phys: Vec<&str> = physical.iter().map(|c| c.name.as_str()).collect();
            assert_eq!(phys, vec!["a", "b"]);
            let canon: Vec<&str> = canonical.iter().map(|c| c.name.as_str()).collect();
            assert_eq!(canon, vec!["a", "b", "region"]);
            assert!(node.hive_partitioning);
        },
        _ => panic!("the hive strategy must plan to one multi-file node"),
    }
}

#[test]
fn declared_deletion_vectors_stop_the_scan() {
    let loc = "/data/table".to_string();
    let files = vec!["/data/f1.parquet".to_string()];
    let r = scan(&loc, snapshot(files, vec!["deletionVectors".to_string()]), options(),
        ScanStrategy::CastAfterUnion);
    match r {
        Err(ScanError::UnsupportedFeature(tag)) => assert_eq!(tag, "deletionVectors"),
        _ => panic!("an unsupported feature must stop the scan before any file is read"),
    }
}

#[test]
fn malformed_snapshot_is_a_plan_construction_error() {
    let loc = "/data/table".to_string();
    let bad = ResolvedSnapshot {
        logical_schema: vec![col("a", DataType::Int32), col("a", DataType::Int32)],
        partition_columns: vec![],
        file_locations: vec![],
        declared_features: vec![],
    };
    assert!(matches!(
        scan(&loc, bad, options(), ScanStrategy::CastAfterUnion),
        Err(ScanError::PlanConstruction(_))
    ));
}

#[test]
fn empty_canonical_schema_is_a_plan_construction_error() {
    let loc = "/data/table".to_string();
    let empty = ResolvedSnapshot {
        logical_schema: vec![],
        partition_columns: vec![],
        file_locations: vec![],
        declared_features: vec![],
    };
    assert!(matches!(
        plan_scan(&loc, empty, options(), ScanStrategy::CastAfterUnion),
        Err(ScanError::PlanConstruction(_))
    ));
}

#[test]
fn empty_table_scans_to_zero_rows_typed_exactly() {
    let loc = "/data/table".to_string();
    let frame = scan(&loc, snapshot(vec![], vec![]), options(), ScanStrategy::CastAfterUnion)
        .unwrap();
    let df = frame.collect().unwrap();
    assert_eq!(df.height(), 0);
    let names: Vec<&str> = df.get_column_names();
    assert_eq!(names, vec!["a", "b", "region"]);
    let dtypes = df.dtypes();
    assert_eq!(dtypes[0], polars::prelude::DataType::Int32);
    assert_eq!(dtypes[1], polars::prelude::DataType::Int64);
    assert_eq!(dtypes[2], polars::prelude::DataType::String);
}

#[test]
fn empty_table_with_storage_options_still_scans() {
    let loc = "s3://bucket/table".to_string();
    let mut opts = options();
    opts.storage_options = Some(vec![("aws_region".to_string(), "eu".to_string())]);
    opts.retries = Some(2);
    let frame = scan(&loc, snapshot(vec![], vec![]), opts, ScanStrategy::CastAfterUnion)
        .unwrap();
    assert_eq!(frame.collect().unwrap().height(), 0);
}

#[test]
fn planning_reads_no_data_evaluation_does() {
    let loc = "/data/table".to_string();
    let files = vec![
        "/data/table/region=eu/this-file-does-not-exist.parquet".to_string(),
        "/data/table/region=us/this-file-does-not-exist-either.parquet".to_string(),
    ];
    let frame = scan(&loc, snapshot(files, vec![]), options(), ScanStrategy::CastAfterUnion)
        .unwrap();
    assert!(frame.collect().is_err());
}

#[test]
fn unknown_url_scheme_is_an_invalid_storage_config() {
    let loc = "quux://bucket/table".to_string();
    let files = vec!["quux://bucket/table/f1.parquet".to_string()];
    let mut opts = options();
    opts.storage_options = Some(vec![("k".to_string(), "v".to_string())]);
    let r = scan(&loc, snapshot(files, vec![]), opts, ScanStrategy::CastAfterUnion);
    assert!(matches!(r, Err(ScanError::InvalidStorageConfig(_))));
}
