use delta_scan::schema::{ColumnDef, DataType, ReconciledSchema, reconcile};
use delta_scan::snapshot::{ResolvedSnapshot, validate_snapshot};

fn col(name: &str, dtype: DataType) -> ColumnDef {
    ColumnDef { name: name.to_string(), dtype }
}

#[test]
fn partition_column_excluded_from_physical_schema() {
    let logical = vec![
        col("a", DataType::Int32),
        col("b", DataType::Int32),
        col("region", DataType::Utf8),
    ];
    let parts = vec!["region".to_string()];
    let r: ReconciledSchema = reconcile(&logical, &parts);
    let phys: Vec<&str> = r.physical.iter().map(|c| c.name.as_str()).collect();
    assert_eq!(phys, vec!["a", "b"]);
    assert_eq!(r.physical[0].dtype, DataType::Int32);
    assert_eq!(r.physical[1].dtype, DataType::Int32);
    let canon: Vec<&str> = r.canonical.iter().map(|c| c.name.as_str()).collect();
    assert_eq!(canon, vec!["a", "b", "region"]);
    assert_eq!(r.canonical[2].dtype, DataType::Utf8);
}

#[test]
fn no_partitions_keeps_physical_equal_to_canonical() {
    let logical = vec![col("x", DataType::Int64), col("y", DataType::Boolean)];
    let parts: Vec<String> = vec![];
    let r = reconcile(&logical, &parts);
    assert_eq!(r.physical.len(), 2);
    assert_eq!(r.canonical.len(), 2);
    assert_eq!(r.physical[0].name, "x");
    assert_eq!(r.physical[1].name, "y");
}

#[test]
fn canonical_names_cover_physical_and_partitions() {
    let logical = vec![
        col("day", DataType::Utf8),
        col("v", DataType::Float64),
        col("hour", DataType::Int32),
    ];
    let parts = vec!["day".to_string(), "hour".to_string()];
    let r = reconcile(&logical, &parts);
    let mut covered: Vec<String> = r.physical.iter().map(|c| c.name.clone()).collect();
    covered.extend(parts.iter().cloned());
    covered.sort();
    let mut canon: Vec<String> = r.canonical.iter().map(|c| c.name.clone()).collect();
    canon.sort();
    canon.dedup();
    assert_eq!(covered, canon);
}

#[test]
fn snapshot_validation_accepts_well_formed_and_rejects_duplicates() {
    let good = ResolvedSnapshot {
        logical_schema: vec![col("a", DataType::Int32), col("b", DataType::Int64)],
        partition_columns: vec!["b".to_string()],
        file_locations: vec![],
        declared_features: vec![],
    };
    assert!(validate_snapshot(&good));

    let dup_cols = ResolvedSnapshot {
        logical_schema: vec![col("a", DataType::Int32), col("a", DataType::Int64)],
        partition_columns: vec![],
        file_locations: vec![],
        declared_features: vec![],
    };
    assert!(!validate_snapshot(&dup_cols));

    let foreign_part = ResolvedSnapshot {
        logical_schema: vec![col("a", DataType::Int32)],
        partition_columns: vec!["zz".to_string()],
        file_locations: vec![],
        declared_features: vec![],
    };
    assert!(!validate_snapshot(&foreign_part));
}
