use parquet_bridge::decimal::DecimalValue;
use parquet_bridge::decode::{decode_field, decode_row, decode_rows, RawField};
use parquet_bridge::value::{DynamicValue, ErrorKind};

#[test]
fn test_decode_widens_integers() {
    assert_eq!(decode_field(&RawField::Byte(-7)).unwrap(), DynamicValue::Int(-7));
    assert_eq!(decode_field(&RawField::UByte(200)).unwrap(), DynamicValue::Int(200));
    assert_eq!(decode_field(&RawField::Short(-30000)).unwrap(), DynamicValue::Int(-30000));
    assert_eq!(decode_field(&RawField::UShort(60000)).unwrap(), DynamicValue::Int(60000));
    assert_eq!(decode_field(&RawField::Int(-5)).unwrap(), DynamicValue::Int(-5));
    assert_eq!(decode_field(&RawField::UInt(4000000000)).unwrap(), DynamicValue::Int(4000000000));
    assert_eq!(decode_field(&RawField::Long(i64::MIN)).unwrap(), DynamicValue::Int(i64::MIN));
}

#[test]
fn test_decode_unsigned_overflow() {
    // The maximum unsigned 64-bit value does not fit the signed range.
    let err = decode_field(&RawField::ULong(u64::MAX)).unwrap_err();
    assert_eq!(err.kind, ErrorKind::UnsignedOverflow);
    assert!(err.message.contains("18446744073709551615"));
    // A small unsigned value decodes.
    assert_eq!(decode_field(&RawField::ULong(10)).unwrap(), DynamicValue::Int(10));
    // The boundary value still fits.
    assert_eq!(
        decode_field(&RawField::ULong(i64::MAX as u64)).unwrap(),
        DynamicValue::Int(i64::MAX)
    );
    let err = decode_field(&RawField::ULong(i64::MAX as u64 + 1)).unwrap_err();
    assert_eq!(err.kind, ErrorKind::UnsignedOverflow);
}

#[test]
fn test_decode_scalars() {
    assert_eq!(decode_field(&RawField::Null).unwrap(), DynamicValue::Null);
    assert_eq!(decode_field(&RawField::Bool(true)).unwrap(), DynamicValue::Bool(true));
    let bits = 1.5f64.to_bits();
    assert_eq!(decode_field(&RawField::Double(bits)).unwrap(), DynamicValue::Float(bits));
    assert_eq!(
        decode_field(&RawField::Str("hi".to_string())).unwrap(),
        DynamicValue::Str("hi".to_string())
    );
    assert_eq!(
        decode_field(&RawField::Bytes(vec![1, 2])).unwrap(),
        DynamicValue::Binary(vec![1, 2])
    );
}

#[test]
fn test_decode_dates_and_timestamps() {
    // One day after the epoch, in microseconds.
    assert_eq!(decode_field(&RawField::Date(1)).unwrap(), DynamicValue::Date(86_400_000_000));
    assert_eq!(decode_field(&RawField::Date(-1)).unwrap(), DynamicValue::Date(-86_400_000_000));
    assert_eq!(
        decode_field(&RawField::TimestampMillis(1_500)).unwrap(),
        DynamicValue::Date(1_500_000)
    );
    assert_eq!(
        decode_field(&RawField::TimestampMicros(42)).unwrap(),
        DynamicValue::Date(42)
    );
    // A millisecond count whose microsecond form overflows fails.
    let err = decode_field(&RawField::TimestampMillis(i64::MAX)).unwrap_err();
    assert_eq!(err.kind, ErrorKind::RowDecodeFailure);
}

#[test]
fn test_decode_decimal_field() {
    let d = DecimalValue::FixedInt32 { be: 123i32.to_be_bytes().to_vec(), precision: 5, scale: 2 };
    assert_eq!(decode_field(&RawField::Decimal(d)).unwrap(), DynamicValue::Str("1.23".to_string()));
}

#[test]
fn test_decode_nested_kinds_fail() {
    for f in [RawField::Group, RawField::List, RawField::MapField] {
        let err = decode_field(&f).unwrap_err();
        assert_eq!(err.kind, ErrorKind::UnsupportedFieldKind);
    }
    let err = decode_field(&RawField::Other).unwrap_err();
    assert_eq!(err.kind, ErrorKind::UnsupportedFieldKind);
}

#[test]
fn test_decode_row_keeps_key_order() {
    let raw = vec![
        ("b".to_string(), RawField::Int(2)),
        ("a".to_string(), RawField::Bool(false)),
    ];
    let rec = decode_row(&raw).unwrap();
    assert_eq!(rec.fields.len(), 2);
    assert_eq!(rec.fields[0].0, "b");
    assert_eq!(rec.fields[0].1, DynamicValue::Int(2));
    assert_eq!(rec.fields[1].0, "a");
    assert_eq!(rec.fields[1].1, DynamicValue::Bool(false));
}

#[test]
fn test_decode_rows_all_or_nothing() {
    let raws = vec![
        vec![("a".to_string(), RawField::Int(1))],
        vec![("a".to_string(), RawField::ULong(u64::MAX))],
    ];
    let err = decode_rows(&raws).unwrap_err();
    assert_eq!(err.kind, ErrorKind::UnsignedOverflow);

    let raws = vec![
        vec![("a".to_string(), RawField::Int(1))],
        vec![("a".to_string(), RawField::Int(2))],
    ];
    let recs = decode_rows(&raws).unwrap();
    assert_eq!(recs.len(), 2);
    assert_eq!(recs[1].fields[0].1, DynamicValue::Int(2));
}

#[test]
fn test_error_labels() {
    let err = decode_field(&RawField::ULong(u64::MAX)).unwrap_err();
    assert_eq!(err.label(), "UnsignedOverflow");
    let err = decode_field(&RawField::Group).unwrap_err();
    assert_eq!(err.label(), "UnsupportedFieldKind");
}
