use parquet_bridge::from_parquet::to_parquet_bytes;
use parquet_bridge::schema::PhysicalKind;
use parquet_bridge::value::{DynamicValue, ErrorKind, Record, TableEntry};
use parquet_bridge::write::{build_column_batch, plan_table, ColumnBatch};

fn row(fields: Vec<(&str, DynamicValue)>) -> TableEntry {
    TableEntry::Row(Record {
        fields: fields.into_iter().map(|(n, v)| (n.to_string(), v)).collect(),
    })
}

#[test]
fn test_write_empty_table_fails() {
    let err = to_parquet_bytes(&vec![]).unwrap_err();
    assert_eq!(err.kind, ErrorKind::EmptyOrNonUniformTable);
    assert_eq!(err.message, "empty table");
}

#[test]
fn test_write_non_record_entry_fails() {
    let table = vec![TableEntry::Other];
    let err = to_parquet_bytes(&table).unwrap_err();
    assert_eq!(err.kind, ErrorKind::EmptyOrNonUniformTable);
    assert_eq!(err.message, "not a table");

    let table = vec![row(vec![("a", DynamicValue::Int(1))]), TableEntry::Other];
    let err = to_parquet_bytes(&table).unwrap_err();
    assert_eq!(err.kind, ErrorKind::EmptyOrNonUniformTable);
    assert_eq!(err.message, "not a table");
}

#[test]
fn test_write_non_uniform_rows_fail_on_missing_column() {
    // Each row is record-shaped, so the shape checks pass; the write
    // fails only when the column inferred from row one is missing in a
    // later row.
    let table = vec![
        row(vec![("a", DynamicValue::Int(1))]),
        row(vec![("b", DynamicValue::Int(2))]),
    ];
    let err = to_parquet_bytes(&table).unwrap_err();
    assert_eq!(err.kind, ErrorKind::EmptyOrNonUniformTable);
    assert_eq!(err.message, "column a is missing in a row");
}

#[test]
fn test_write_unmapped_kind_fails() {
    let table = vec![row(vec![("n", DynamicValue::Null)])];
    let err = to_parquet_bytes(&table).unwrap_err();
    assert_eq!(err.kind, ErrorKind::UnsupportedColumnType);
    assert_eq!(err.message, "column n: cannot store nothing type (not supported)");
}

#[test]
fn test_write_mismatched_cell_fails() {
    // The schema is fixed from the first row; a later cell of another
    // kind is a conversion failure, not a schema error.
    let table = vec![
        row(vec![("a", DynamicValue::Int(1))]),
        row(vec![("a", DynamicValue::Str("two".to_string()))]),
    ];
    let err = to_parquet_bytes(&table).unwrap_err();
    assert_eq!(err.kind, ErrorKind::UnsupportedColumnType);
    assert_eq!(err.message, "cannot convert to int");
}

#[test]
fn test_plan_batches_are_column_major() {
    let table = vec![
        row(vec![
            ("flag", DynamicValue::Bool(true)),
            ("n", DynamicValue::Int(7)),
            ("s", DynamicValue::Str("x".to_string())),
        ]),
        row(vec![
            ("flag", DynamicValue::Bool(false)),
            ("n", DynamicValue::Filesize(8)),
            ("s", DynamicValue::Str("y".to_string())),
        ]),
    ];
    let plan = plan_table(&table).unwrap();
    assert_eq!(plan.batches.len(), 3);
    assert_eq!(plan.batches[0], ColumnBatch::Bools(vec![true, false]));
    // The file-size cell writes as its integer, the size semantic dropped.
    assert_eq!(plan.batches[1], ColumnBatch::Ints(vec![7, 8]));
    assert_eq!(
        plan.batches[2],
        ColumnBatch::Texts(vec!["x".to_string(), "y".to_string()])
    );
}

#[test]
fn test_build_column_batch_doubles() {
    let table = vec![
        row(vec![("d", DynamicValue::Float(1.5f64.to_bits()))]),
        row(vec![("d", DynamicValue::Float((-0.25f64).to_bits()))]),
    ];
    let batch = build_column_batch(&table, &"d".to_string(), &PhysicalKind::Double).unwrap();
    assert_eq!(
        batch,
        ColumnBatch::Doubles(vec![1.5f64.to_bits(), (-0.25f64).to_bits()])
    );
}

#[test]
fn test_build_column_batch_unwritable_physical() {
    let table = vec![row(vec![("d", DynamicValue::Int(1))])];
    let err = build_column_batch(&table, &"d".to_string(), &PhysicalKind::Int96).unwrap_err();
    assert_eq!(err.kind, ErrorKind::UnsupportedColumnType);
    assert_eq!(err.message, "type not supported");
}

#[test]
fn test_write_date_cell_fails_conversion() {
    // A date column is stored as a 64-bit integer, but the integer
    // accessor takes only integer and file-size cells, so date data
    // cannot be written.
    let table = vec![row(vec![("d", DynamicValue::Date(0))])];
    let err = to_parquet_bytes(&table).unwrap_err();
    assert_eq!(err.kind, ErrorKind::UnsupportedColumnType);
    assert_eq!(err.message, "cannot convert to int");
}
