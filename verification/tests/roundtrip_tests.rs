use parquet_bridge::from_parquet::{from_parquet_bytes, metadata_from_parquet_bytes,
    to_parquet_bytes};
use parquet_bridge::value::{DynamicValue, ErrorKind, MetaValue, Record, TableEntry};

fn row(fields: Vec<(&str, DynamicValue)>) -> TableEntry {
    TableEntry::Row(Record {
        fields: fields.into_iter().map(|(n, v)| (n.to_string(), v)).collect(),
    })
}

#[test]
fn test_roundtrip_bool_column() {
    // A table of booleans written and read back comes back exactly.
    let table = vec![
        row(vec![("flag", DynamicValue::Bool(true))]),
        row(vec![("flag", DynamicValue::Bool(false))]),
        row(vec![("flag", DynamicValue::Bool(true))]),
    ];
    let bytes = to_parquet_bytes(&table).unwrap();
    let recs = from_parquet_bytes(bytes).unwrap();
    assert_eq!(recs.len(), 3);
    for (rec, expected) in recs.iter().zip([true, false, true]) {
        assert_eq!(rec.fields.len(), 1);
        assert_eq!(rec.fields[0].0, "flag");
        assert_eq!(rec.fields[0].1, DynamicValue::Bool(expected));
    }
}

#[test]
fn test_roundtrip_keeps_columns_and_rows() {
    // For primitive, non-decimal, non-nested columns the round trip
    // keeps the row count and the column names in order.
    let table = vec![
        row(vec![
            ("n", DynamicValue::Int(-3)),
            ("s", DynamicValue::Str("alpha".to_string())),
            ("x", DynamicValue::Float(2.5f64.to_bits())),
            ("b", DynamicValue::Bool(false)),
        ]),
        row(vec![
            ("n", DynamicValue::Int(44)),
            ("s", DynamicValue::Str("beta".to_string())),
            ("x", DynamicValue::Float(0.0f64.to_bits())),
            ("b", DynamicValue::Bool(true)),
        ]),
    ];
    let bytes = to_parquet_bytes(&table).unwrap();
    let recs = from_parquet_bytes(bytes).unwrap();
    assert_eq!(recs.len(), 2);
    for rec in &recs {
        let names: Vec<&str> = rec.fields.iter().map(|(n, _)| n.as_str()).collect();
        assert_eq!(names, vec!["n", "s", "x", "b"]);
    }
    assert_eq!(recs[0].fields[0].1, DynamicValue::Int(-3));
    assert_eq!(recs[1].fields[0].1, DynamicValue::Int(44));
    assert_eq!(recs[0].fields[1].1, DynamicValue::Str("alpha".to_string()));
    assert_eq!(recs[1].fields[1].1, DynamicValue::Str("beta".to_string()));
    assert_eq!(recs[0].fields[2].1, DynamicValue::Float(2.5f64.to_bits()));
    assert_eq!(recs[1].fields[3].1, DynamicValue::Bool(true));
}

#[test]
fn test_read_garbage_fails_to_open() {
    let err = from_parquet_bytes(vec![0, 1, 2, 3]).unwrap_err();
    assert_eq!(err.kind, ErrorKind::ReaderOpenFailure);
    let err = metadata_from_parquet_bytes(vec![]).unwrap_err();
    assert_eq!(err.kind, ErrorKind::ReaderOpenFailure);
}

fn field<'a>(m: &'a MetaValue, name: &str) -> &'a MetaValue {
    match m {
        MetaValue::Record(fs) => {
            for (n, v) in fs {
                if n == name {
                    return v;
                }
            }
            panic!("no field {} in the summary", name);
        },
        _ => panic!("not a record"),
    }
}

#[test]
fn test_metadata_summary_of_written_file() {
    let table = vec![
        row(vec![("n", DynamicValue::Int(1)), ("s", DynamicValue::Str("a".to_string()))]),
        row(vec![("n", DynamicValue::Int(2)), ("s", DynamicValue::Str("b".to_string()))]),
        row(vec![("n", DynamicValue::Int(3)), ("s", DynamicValue::Str("c".to_string()))]),
    ];
    let bytes = to_parquet_bytes(&table).unwrap();
    let m = metadata_from_parquet_bytes(bytes).unwrap();

    assert_eq!(field(&m, "num_rows"), &MetaValue::Int(3));

    // The total row count equals the sum over the row groups.
    match field(&m, "row_groups") {
        MetaValue::List(groups) => {
            let mut sum: i64 = 0;
            for g in groups {
                match field(g, "num_rows") {
                    MetaValue::Int(n) => sum += n,
                    _ => panic!("row-group rows are not an integer"),
                }
            }
            assert_eq!(sum, 3);
        },
        _ => panic!("row_groups is not a list"),
    }

    // The schema walk: the root group yields the bare list of columns.
    match field(&m, "schema") {
        MetaValue::List(cols) => {
            assert_eq!(cols.len(), 2);
            assert_eq!(field(&cols[0], "name"), &MetaValue::Str("n".to_string()));
            assert_eq!(field(&cols[0], "repetition"), &MetaValue::Str("REQUIRED".to_string()));
            assert_eq!(field(&cols[0], "type"), &MetaValue::Str("INT64".to_string()));
            assert_eq!(field(&cols[0], "type_length"), &MetaValue::Null);
            assert_eq!(field(&cols[1], "name"), &MetaValue::Str("s".to_string()));
            assert_eq!(field(&cols[1], "type"), &MetaValue::Str("BYTE_ARRAY".to_string()));
            assert_eq!(field(&cols[1], "logical_type"), &MetaValue::Str("UTF8".to_string()));
        },
        _ => panic!("schema is not a list"),
    }

    // The writer names itself as the creator.
    match field(&m, "creator") {
        MetaValue::Str(s) => assert!(s.contains("parquet")),
        _ => panic!("creator is not a string"),
    }

    match field(&m, "key_values") {
        MetaValue::List(_) => {},
        _ => panic!("key_values is not a list"),
    }
}
