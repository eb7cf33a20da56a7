use parquet_bridge::decimal::{decimal_to_string, DecimalValue};

fn from_i32(value: i32, precision: i32, scale: i32) -> DecimalValue {
    DecimalValue::FixedInt32 { be: value.to_be_bytes().to_vec(), precision, scale }
}

fn from_i64(value: i64, precision: i32, scale: i32) -> DecimalValue {
    DecimalValue::FixedInt64 { be: value.to_be_bytes().to_vec(), precision, scale }
}

fn from_bytes(be: Vec<u8>, precision: i32, scale: i32) -> DecimalValue {
    DecimalValue::VariableBytes { be, precision, scale }
}

#[test]
fn test_decimal_to_string() {
    let decimal = from_i32(123, 5, 0);
    assert_eq!(decimal_to_string(&decimal), "123");
    let decimal = from_i64(123, 5, 0);
    assert_eq!(decimal_to_string(&decimal), "123");
    let decimal = from_bytes(vec![123], 5, 0);
    assert_eq!(decimal_to_string(&decimal), "123");

    let decimal = from_i32(123, 5, 2);
    assert_eq!(decimal_to_string(&decimal), "1.23");
    let decimal = from_i64(123, 5, 2);
    assert_eq!(decimal_to_string(&decimal), "1.23");
    let decimal = from_bytes(vec![123], 5, 2);
    assert_eq!(decimal_to_string(&decimal), "1.23");

    let decimal = from_i32(123, 5, 5);
    assert_eq!(decimal_to_string(&decimal), "0.00123");
    let decimal = from_i64(123, 5, 5);
    assert_eq!(decimal_to_string(&decimal), "0.00123");
    let decimal = from_bytes(vec![123], 5, 5);
    assert_eq!(decimal_to_string(&decimal), "0.00123");

    let decimal = from_i32(0, 5, 5);
    assert_eq!(decimal_to_string(&decimal), "0.00000");
    let decimal = from_i64(0, 5, 5);
    assert_eq!(decimal_to_string(&decimal), "0.00000");
    let decimal = from_bytes(vec![], 5, 5);
    assert_eq!(decimal_to_string(&decimal), "0.00000");
}

#[test]
fn test_decimal_magnitude_is_big_endian() {
    // 0x01_02_03 = 66051
    let decimal = from_bytes(vec![1, 2, 3], 9, 0);
    assert_eq!(decimal_to_string(&decimal), "66051");
    let decimal = from_bytes(vec![1, 2, 3], 9, 2);
    assert_eq!(decimal_to_string(&decimal), "660.51");
    let decimal = from_bytes(vec![1, 2, 3], 9, 7);
    assert_eq!(decimal_to_string(&decimal), "0.0066051");
}

#[test]
fn test_decimal_scale_equals_length() {
    let decimal = from_i32(123, 5, 3);
    assert_eq!(decimal_to_string(&decimal), "0.123");
}

#[test]
fn test_decimal_large_magnitude() {
    // A magnitude beyond 64 bits: 2^64 = 18446744073709551616.
    let mut be = vec![1u8];
    be.extend(std::iter::repeat(0u8).take(8));
    let decimal = from_bytes(be, 21, 0);
    assert_eq!(decimal_to_string(&decimal), "18446744073709551616");
}

#[test]
fn test_decimal_same_magnitude_same_text_across_shapes() {
    // The same magnitude and scale render identically whichever binary
    // shape carries them.
    for scale in [0, 1, 3, 6] {
        let a = from_i32(4095, 7, scale);
        let b = from_i64(4095, 7, scale);
        let c = from_bytes(vec![0x0F, 0xFF], 7, scale);
        let ta = decimal_to_string(&a);
        assert_eq!(ta, decimal_to_string(&b));
        assert_eq!(ta, decimal_to_string(&c));
    }
}

#[test]
fn test_decimal_negative_scale_renders_plain_digits() {
    let decimal = from_i32(123, 5, -2);
    assert_eq!(decimal_to_string(&decimal), "123");
}
