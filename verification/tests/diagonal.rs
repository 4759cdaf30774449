use delta_scan::schema::{ColumnDef, DataType};
use delta_scan::union::{CellValue, align_row, diagonal_union_schema, find_column};
use delta_scan::cast::check_cast;
use delta_scan::error::ScanError;

fn col(name: &str, dtype: DataType) -> ColumnDef {
    ColumnDef { name: name.to_string(), dtype }
}

#[test]
fn heterogeneous_files_union_by_name() {
    let file_a = vec![col("a", DataType::Int64), col("b", DataType::Utf8)];
    let file_b = vec![col("a", DataType::Int64), col("c", DataType::Boolean)];
    let union = diagonal_union_schema(&vec![file_a, file_b]);
    let names: Vec<&str> = union.iter().map(|c| c.name.as_str()).collect();
    assert_eq!(names, vec!["a", "b", "c"]);
}

#[test]
fn rows_from_narrow_files_are_null_filled() {
    let file_a = vec![col("a", DataType::Int64), col("b", DataType::Utf8)];
    let file_b = vec![col("a", DataType::Int64), col("c", DataType::Int64)];
    let union = diagonal_union_schema(&vec![clone_defs(&file_a), clone_defs(&file_b)]);

    let row_a = vec![CellValue::Int(1), CellValue::Text("x".to_string())];
    let aligned_a = align_row(&file_a, &union, &row_a);
    assert!(matches!(aligned_a[0], CellValue::Int(1)));
    assert!(matches!(aligned_a[1], CellValue::Text(_)));
    assert!(matches!(aligned_a[2], CellValue::Null));

    let row_b = vec![CellValue::Int(2), CellValue::Int(9)];
    let aligned_b = align_row(&file_b, &union, &row_b);
    assert!(matches!(aligned_b[0], CellValue::Int(2)));
    assert!(matches!(aligned_b[1], CellValue::Null));
    assert!(matches!(aligned_b[2], CellValue::Int(9)));
}

fn clone_defs(v: &Vec<ColumnDef>) -> Vec<ColumnDef> {
    v.iter().map(|c| ColumnDef { name: c.name.clone(), dtype: c.dtype }).collect()
}

#[test]
fn first_occurrence_wins_and_names_stay_unique() {
    let f1 = vec![col("k", DataType::Int32)];
    let f2 = vec![col("k", DataType::Int64), col("m", DataType::Utf8)];
    let union = diagonal_union_schema(&vec![f1, f2]);
    assert_eq!(union.len(), 2);
    assert_eq!(union[0].name, "k");
    assert_eq!(union[0].dtype, DataType::Int32);
    assert_eq!(union[1].name, "m");
}

#[test]
fn find_column_returns_first_index() {
    let cols = vec![col("a", DataType::Int32), col("b", DataType::Int64)];
    assert_eq!(find_column(&cols, &"b".to_string()), Some(1));
    assert_eq!(find_column(&cols, &"zz".to_string()), None);
}

#[test]
fn cast_check_accepts_widening_and_missing_columns() {
    let unioned = vec![col("a", DataType::Int32)];
    let canonical = vec![col("a", DataType::Int64), col("b", DataType::Utf8)];
    assert!(check_cast(&unioned, &canonical).is_ok());
}

#[test]
fn cast_check_names_conflicting_column_and_types() {
    let unioned = vec![col("a", DataType::Utf8)];
    let canonical = vec![col("a", DataType::Int64)];
    match check_cast(&unioned, &canonical) {
        Err(ScanError::SchemaCast { column, from, to }) => {
            assert_eq!(column, "a");
            assert_eq!(from, DataType::Utf8);
            assert_eq!(to, DataType::Int64);
        },
        _ => panic!("conflicting cast must be reported"),
    }
}
