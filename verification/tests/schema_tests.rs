use parquet_bridge::schema::{
    infer_schema, logical_or_converted_type_to_string, physical_type_to_string,
    repetition_to_string, schema_to_value, time_unit_to_string, value_to_type, ConvKind,
    LogicalAnnot, PhysicalKind, PrimitiveInfo, RepetitionKind, SchemaNode, TimeUnitKind,
};
use parquet_bridge::value::{DynamicValue, ErrorKind, MetaValue, Record};

#[test]
fn test_label_resolution_prefers_logical() {
    // A present logical annotation wins, whatever the converted tag says.
    let label = logical_or_converted_type_to_string(
        &Some(LogicalAnnot::DecimalKind { precision: 10, scale: 2 }),
        &ConvKind::Utf8,
        0,
        0,
    );
    assert_eq!(label, "DECIMAL(10,2)");
}

#[test]
fn test_label_resolution_falls_back_to_converted() {
    let label = logical_or_converted_type_to_string(&None, &ConvKind::Utf8, 0, 0);
    assert_eq!(label, "UTF8");
    let label = logical_or_converted_type_to_string(&None, &ConvKind::DecimalConv, 7, 3);
    assert_eq!(label, "DECIMAL(7,3)");
    let label = logical_or_converted_type_to_string(&None, &ConvKind::Interval, 0, 0);
    assert_eq!(label, "INTERVAL");
    let label = logical_or_converted_type_to_string(&None, &ConvKind::Uint64, 0, 0);
    assert_eq!(label, "UINT_64");
}

#[test]
fn test_label_resolution_both_absent_is_empty() {
    let label = logical_or_converted_type_to_string(&None, &ConvKind::NoConv, 0, 0);
    assert_eq!(label, "");
}

#[test]
fn test_label_parameterized_annotations() {
    let label = logical_or_converted_type_to_string(
        &Some(LogicalAnnot::IntegerKind { bit_width: 8, is_signed: true }),
        &ConvKind::NoConv,
        0,
        0,
    );
    assert_eq!(label, "INTEGER(8,true)");
    let label = logical_or_converted_type_to_string(
        &Some(LogicalAnnot::TimeKind { is_utc: false, unit: TimeUnitKind::Millis }),
        &ConvKind::NoConv,
        0,
        0,
    );
    assert_eq!(label, "TIME(MILLISECONDS,false)");
    let label = logical_or_converted_type_to_string(
        &Some(LogicalAnnot::TimestampKind { is_utc: true, unit: TimeUnitKind::Nanos }),
        &ConvKind::NoConv,
        0,
        0,
    );
    assert_eq!(label, "TIMESTAMP(NANOSECONDS,true)");
    assert_eq!(
        logical_or_converted_type_to_string(&Some(LogicalAnnot::TextKind), &ConvKind::NoConv, 0, 0),
        "STRING"
    );
}

#[test]
fn test_time_unit_to_string() {
    assert_eq!(time_unit_to_string(&TimeUnitKind::Millis), "MILLISECONDS");
    assert_eq!(time_unit_to_string(&TimeUnitKind::Micros), "MICROSECONDS");
    assert_eq!(time_unit_to_string(&TimeUnitKind::Nanos), "NANOSECONDS");
}

#[test]
fn test_value_to_type_choices() {
    let info = value_to_type(&"x".to_string(), &DynamicValue::Bool(true)).unwrap();
    assert_eq!(info.physical, PhysicalKind::Boolean);
    assert_eq!(info.converted, ConvKind::NoConv);
    assert_eq!(info.repetition, RepetitionKind::Required);

    let info = value_to_type(&"x".to_string(), &DynamicValue::Int(1)).unwrap();
    assert_eq!(info.physical, PhysicalKind::Int64);

    let info = value_to_type(&"x".to_string(), &DynamicValue::Float(0.5f64.to_bits())).unwrap();
    assert_eq!(info.physical, PhysicalKind::Double);

    let info = value_to_type(&"x".to_string(), &DynamicValue::Str("s".to_string())).unwrap();
    assert_eq!(info.physical, PhysicalKind::ByteArray);
    assert_eq!(info.converted, ConvKind::Utf8);

    let info = value_to_type(&"x".to_string(), &DynamicValue::Date(0)).unwrap();
    assert_eq!(info.physical, PhysicalKind::Int64);
    assert_eq!(info.converted, ConvKind::DateConv);

    // The size semantic of a file-size value is dropped.
    let info = value_to_type(&"x".to_string(), &DynamicValue::Filesize(4096)).unwrap();
    assert_eq!(info.physical, PhysicalKind::Int64);
    assert_eq!(info.converted, ConvKind::NoConv);
}

#[test]
fn test_value_to_type_unsupported_names_column_and_kind() {
    let err = value_to_type(&"blob".to_string(), &DynamicValue::Binary(vec![1])).unwrap_err();
    assert_eq!(err.kind, ErrorKind::UnsupportedColumnType);
    assert_eq!(err.message, "column blob: cannot store binary type (not supported)");
}

#[test]
fn test_infer_schema_column_order() {
    let rec = Record {
        fields: vec![
            ("b".to_string(), DynamicValue::Int(1)),
            ("a".to_string(), DynamicValue::Str("x".to_string())),
        ],
    };
    let schema = infer_schema(&rec).unwrap();
    match schema {
        SchemaNode::Group { name, children } => {
            assert_eq!(name, "schema");
            assert_eq!(children.len(), 2);
            match &children[0] {
                SchemaNode::Primitive(info) => {
                    assert_eq!(info.name, "b");
                    assert_eq!(info.physical, PhysicalKind::Int64);
                },
                _ => panic!("first column is not primitive"),
            }
            match &children[1] {
                SchemaNode::Primitive(info) => {
                    assert_eq!(info.name, "a");
                    assert_eq!(info.physical, PhysicalKind::ByteArray);
                },
                _ => panic!("second column is not primitive"),
            }
        },
        _ => panic!("inferred schema is not a group"),
    }
}

#[test]
fn test_infer_schema_rejects_unmapped_kind() {
    let rec = Record { fields: vec![("n".to_string(), DynamicValue::Null)] };
    let err = infer_schema(&rec).unwrap_err();
    assert_eq!(err.kind, ErrorKind::UnsupportedColumnType);
    assert_eq!(err.message, "column n: cannot store nothing type (not supported)");
}

#[test]
fn test_schema_walk_shapes() {
    // A primitive yields its own record; a group yields only the bare
    // list of its children's values.
    let leaf = PrimitiveInfo {
        name: "v".to_string(),
        repetition: RepetitionKind::Optional,
        physical: PhysicalKind::ByteArray,
        type_length: 16,
        precision: 0,
        scale: 0,
        converted: ConvKind::Utf8,
        logical: None,
    };
    let tree = SchemaNode::Group {
        name: "root".to_string(),
        children: vec![SchemaNode::Primitive(leaf)],
    };
    let walked = schema_to_value(&tree);
    match walked {
        MetaValue::List(children) => {
            assert_eq!(children.len(), 1);
            match &children[0] {
                MetaValue::Record(fs) => {
                    assert_eq!(fs.len(), 5);
                    assert_eq!(fs[0].0, "name");
                    assert_eq!(fs[0].1, MetaValue::Str("v".to_string()));
                    assert_eq!(fs[1].0, "repetition");
                    assert_eq!(fs[1].1, MetaValue::Str("OPTIONAL".to_string()));
                    assert_eq!(fs[2].0, "type");
                    assert_eq!(fs[2].1, MetaValue::Str("BYTE_ARRAY".to_string()));
                    assert_eq!(fs[3].0, "type_length");
                    assert_eq!(fs[3].1, MetaValue::Int(16));
                    assert_eq!(fs[4].0, "logical_type");
                    assert_eq!(fs[4].1, MetaValue::Str("UTF8".to_string()));
                },
                _ => panic!("primitive did not walk to a record"),
            }
        },
        _ => panic!("group did not walk to a list"),
    }
}

#[test]
fn test_schema_walk_type_length_absent_for_fixed_width() {
    let leaf = PrimitiveInfo {
        name: "n".to_string(),
        repetition: RepetitionKind::Required,
        physical: PhysicalKind::Int64,
        type_length: 8,
        precision: 0,
        scale: 0,
        converted: ConvKind::NoConv,
        logical: None,
    };
    let walked = schema_to_value(&SchemaNode::Primitive(leaf));
    match walked {
        MetaValue::Record(fs) => {
            assert_eq!(fs[3].0, "type_length");
            assert_eq!(fs[3].1, MetaValue::Null);
        },
        _ => panic!("primitive did not walk to a record"),
    }
}

#[test]
fn test_physical_and_repetition_names() {
    assert_eq!(physical_type_to_string(&PhysicalKind::FixedLenByteArray), "FIXED_LEN_BYTE_ARRAY");
    assert_eq!(physical_type_to_string(&PhysicalKind::Int96), "INT96");
    assert_eq!(repetition_to_string(&RepetitionKind::Repeated), "REPEATED");
}
