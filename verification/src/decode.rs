//! The decoder: maps one on-disk field value, tagged by physical kind,
//! to exactly one dynamic value, and assembles rows and files of them.
//! All-or-nothing: any failing field fails the whole read.

use vstd::prelude::*;
use vstd::string::StringExecFns;
use crate::decimal::{DecimalValue, be_nat, rendered_decimal, decimal_to_string};
use crate::text::push_u64_digits;
use crate::value::{DynamicValue, Record, BridgeError, ErrorKind};

verus! {

/// Microseconds in one day.
pub const MICROS_PER_DAY: i64 = 86_400_000_000;

/// Microseconds in one millisecond.
pub const MICROS_PER_MILLI: i64 = 1_000;

/// One on-disk field value, as the row reader hands it over: plain
/// payloads for every supported kind, and bare markers for the nested
/// kinds (`Group`, `List`, `Map`) and for any kind outside the mapping
/// table (`Other`), which the decoder refuses.  The time-of-day kinds
/// (milliseconds or microseconds since midnight) have no row in the
/// mapping table and arrive as `Other`.
#[derive(Debug, Clone, PartialEq)]
pub enum RawField {
    Null,
    Bool(bool),
    Byte(i8),
    UByte(u8),
    Short(i16),
    UShort(u16),
    Int(i32),
    UInt(u32),
    Long(i64),
    ULong(u64),
    /// A floating-point payload, as the raw bits of an IEEE-754 double;
    /// narrower floats arrive widened.
    Double(u64),
    Str(String),
    Bytes(Vec<u8>),
    /// Days since the 1970-01-01 UTC epoch.
    Date(i32),
    /// Milliseconds since the epoch.
    TimestampMillis(i64),
    /// Microseconds since the epoch.
    TimestampMicros(i64),
    Decimal(DecimalValue),
    Group,
    List,
    MapField,
    Other,
}

/// Whether a field decodes at all: nested and unknown kinds never do,
/// an unsigned 64-bit value only when it fits the signed range, and a
/// day or millisecond count only when the microsecond value fits a
/// signed 64-bit integer.
pub open spec fn decode_ok(f: RawField) -> bool {
    match f {
        RawField::ULong(u) => u <= i64::MAX,
        RawField::Date(d) => i64::MIN <= d * MICROS_PER_DAY <= i64::MAX,
        RawField::TimestampMillis(ms) => i64::MIN <= ms * MICROS_PER_MILLI <= i64::MAX,
        RawField::Group => false,
        RawField::List => false,
        RawField::MapField => false,
        RawField::Other => false,
        _ => true,
    }
}

/// The exact value that a decodable field decodes to.
pub open spec fn decodes_to(f: RawField, v: DynamicValue) -> bool {
    match f {
        RawField::Null => v == DynamicValue::Null,
        RawField::Bool(b) => v == DynamicValue::Bool(b),
        RawField::Byte(x) => v == DynamicValue::Int(x as i64),
        RawField::UByte(x) => v == DynamicValue::Int(x as i64),
        RawField::Short(x) => v == DynamicValue::Int(x as i64),
        RawField::UShort(x) => v == DynamicValue::Int(x as i64),
        RawField::Int(x) => v == DynamicValue::Int(x as i64),
        RawField::UInt(x) => v == DynamicValue::Int(x as i64),
        RawField::Long(x) => v == DynamicValue::Int(x),
        RawField::ULong(x) => x <= i64::MAX && v == DynamicValue::Int(x as i64),
        RawField::Double(bits) => v == DynamicValue::Float(bits),
        RawField::Str(s) => v matches DynamicValue::Str(t) && t@ == s@,
        RawField::Bytes(b) => v matches DynamicValue::Binary(t) && t@ == b@,
        RawField::Date(d) => decode_ok(f) && v == DynamicValue::Date((d * MICROS_PER_DAY) as i64),
        RawField::TimestampMillis(ms) => decode_ok(f) && v == DynamicValue::Date(
            (ms * MICROS_PER_MILLI) as i64,
        ),
        RawField::TimestampMicros(us) => v == DynamicValue::Date(us),
        RawField::Decimal(d) => v matches DynamicValue::Str(t) && t@ == rendered_decimal(
            be_nat(d.magnitude_bytes()),
            d.scale_of(),
        ),
        _ => false,
    }
}

/// The failure condition of an undecodable field.
pub open spec fn decode_err_kind(f: RawField) -> ErrorKind {
    match f {
        RawField::ULong(_) => ErrorKind::UnsignedOverflow,
        RawField::Group => ErrorKind::UnsupportedFieldKind,
        RawField::List => ErrorKind::UnsupportedFieldKind,
        RawField::MapField => ErrorKind::UnsupportedFieldKind,
        RawField::Other => ErrorKind::UnsupportedFieldKind,
        _ => ErrorKind::RowDecodeFailure,
    }
}

/// The message of an undecodable field.
pub open spec fn decode_err_message(f: RawField) -> Seq<char> {
    match f {
        RawField::ULong(u) => "cannot convert u64 value "@ + crate::text::dec_digits(u as nat)
            + " to i64"@,
        RawField::Group => "nested structs are not supported"@,
        RawField::List => "lists are not supported"@,
        RawField::MapField => "maps are not supported"@,
        RawField::Other => "field kind outside the mapping table"@,
        _ => "date out of range"@,
    }
}

/// Decodes one on-disk field into its dynamic value.  An unsigned
/// 64-bit value beyond the signed range fails with an overflow
/// condition carrying the value; nested and unknown kinds fail as
/// unsupported; a date or timestamp whose microsecond form overflows
/// fails as a row-decode failure.
pub fn decode_field(f: &RawField) -> (r: Result<DynamicValue, BridgeError>)
    ensures
        r is Ok <==> decode_ok(*f),
        match r {
            Ok(v) => decodes_to(*f, v),
            Err(e) => e.kind == decode_err_kind(*f) && e.message@ == decode_err_message(*f),
        },
{
    match f {
        RawField::Null => Ok(DynamicValue::Null),
        RawField::Bool(b) => Ok(DynamicValue::Bool(*b)),
        RawField::Byte(x) => Ok(DynamicValue::Int(*x as i64)),
        RawField::UByte(x) => Ok(DynamicValue::Int(*x as i64)),
        RawField::Short(x) => Ok(DynamicValue::Int(*x as i64)),
        RawField::UShort(x) => Ok(DynamicValue::Int(*x as i64)),
        RawField::Int(x) => Ok(DynamicValue::Int(*x as i64)),
        RawField::UInt(x) => Ok(DynamicValue::Int(*x as i64)),
        RawField::Long(x) => Ok(DynamicValue::Int(*x)),
        RawField::ULong(x) => {
            if *x <= i64::MAX as u64 {
                Ok(DynamicValue::Int(*x as i64))
            } else {
                let mut message = String::from_str("cannot convert u64 value ");
                push_u64_digits(&mut message, *x);
                message.append(" to i64");
                proof {
                    assert(message@ =~= decode_err_message(*f));
                }
                Err(BridgeError { kind: ErrorKind::UnsignedOverflow, message })
            }
        },
        RawField::Double(bits) => Ok(DynamicValue::Float(*bits)),
        RawField::Str(s) => Ok(DynamicValue::Str(s.clone())),
        RawField::Bytes(b) => Ok(DynamicValue::Binary(b.clone())),
        RawField::Date(d) => {
            match (*d as i64).checked_mul(MICROS_PER_DAY) {
                Some(us) => Ok(DynamicValue::Date(us)),
                None => Err(
                    BridgeError {
                        kind: ErrorKind::RowDecodeFailure,
                        message: String::from_str("date out of range"),
                    },
                ),
            }
        },
        RawField::TimestampMillis(ms) => {
            match ms.checked_mul(MICROS_PER_MILLI) {
                Some(us) => Ok(DynamicValue::Date(us)),
                None => Err(
                    BridgeError {
                        kind: ErrorKind::RowDecodeFailure,
                        message: String::from_str("date out of range"),
                    },
                ),
            }
        },
        RawField::TimestampMicros(us) => Ok(DynamicValue::Date(*us)),
        RawField::Decimal(d) => Ok(DynamicValue::Str(decimal_to_string(d))),
        RawField::Group => Err(
            BridgeError {
                kind: ErrorKind::UnsupportedFieldKind,
                message: String::from_str("nested structs are not supported"),
            },
        ),
        RawField::List => Err(
            BridgeError {
                kind: ErrorKind::UnsupportedFieldKind,
                message: String::from_str("lists are not supported"),
            },
        ),
        RawField::MapField => Err(
            BridgeError {
                kind: ErrorKind::UnsupportedFieldKind,
                message: String::from_str("maps are not supported"),
            },
        ),
        RawField::Other => Err(
            BridgeError {
                kind: ErrorKind::UnsupportedFieldKind,
                message: String::from_str("field kind outside the mapping table"),
            },
        ),
    }
}

/// Whether every field of a raw row decodes.
pub open spec fn row_decode_ok(raw: Seq<(String, RawField)>) -> bool {
    forall|i: int| 0 <= i < raw.len() ==> decode_ok(#[trigger] raw[i].1)
}

/// What the decoded record of a raw row holds: the same keys in the
/// same order, each value decoded from its field.
pub open spec fn row_decodes_to(raw: Seq<(String, RawField)>, rec: Record) -> bool {
    &&& rec.fields@.len() == raw.len()
    &&& forall|i: int|
        0 <= i < raw.len() ==> (#[trigger] rec.fields@[i]).0@ == raw[i].0@ && decodes_to(
            raw[i].1,
            rec.fields@[i].1,
        )
}

/// The index of the first field of a row that does not decode (the
/// row's length when every field decodes).
pub open spec fn first_undecodable(raw: Seq<(String, RawField)>) -> int
    decreases raw.len(),
{
    if raw.len() == 0 {
        0
    } else if !decode_ok(raw[0].1) {
        0
    } else {
        1 + first_undecodable(raw.skip(1))
    }
}

/// The first undecodable index is the first index whose field fails.
proof fn lemma_first_undecodable(raw: Seq<(String, RawField)>, i: int)
    requires
        0 <= i < raw.len(),
        forall|j: int| 0 <= j < i ==> decode_ok((#[trigger] raw[j]).1),
        !decode_ok(raw[i].1),
    ensures
        first_undecodable(raw) == i,
    decreases i,
{
    if i > 0 {
        assert(decode_ok(raw[0].1));
        assert forall|j: int| 0 <= j < i - 1 implies decode_ok((#[trigger] raw.skip(1)[j]).1) by {
            assert(raw.skip(1)[j] == raw[j + 1]);
        }
        assert(raw.skip(1)[i - 1] == raw[i]);
        lemma_first_undecodable(raw.skip(1), i - 1);
    }
}

/// Decodes one raw row into a record, visiting its fields in order and
/// keeping their names in that order.  Fails with exactly the first
/// failing field's condition.
pub fn decode_row(raw: &Vec<(String, RawField)>) -> (r: Result<Record, BridgeError>)
    ensures
        r is Ok <==> row_decode_ok(raw@),
        match r {
            Ok(rec) => row_decodes_to(raw@, rec),
            Err(e) => {
                let k = first_undecodable(raw@);
                &&& 0 <= k < raw@.len()
                &&& !decode_ok(raw@[k].1)
                &&& e.kind == decode_err_kind(raw@[k].1)
                &&& e.message@ == decode_err_message(raw@[k].1)
            },
        },
{
    let mut fields: Vec<(String, DynamicValue)> = Vec::new();
    let mut i: usize = 0;
    while i < raw.len()
        invariant
            i <= raw@.len(),
            fields@.len() == i,
            forall|j: int|
                0 <= j < i ==> (#[trigger] fields@[j]).0@ == raw@[j].0@ && decodes_to(
                    raw@[j].1,
                    fields@[j].1,
                ),
            forall|j: int| 0 <= j < i ==> decode_ok(#[trigger] raw@[j].1),
        decreases raw@.len() - i,
    {
        let (name, field) = &raw[i];
        match decode_field(field) {
            Ok(v) => fields.push((name.clone(), v)),
            Err(e) => {
                proof {
                    lemma_first_undecodable(raw@, i as int);
                }
                return Err(e);
            },
        }
        i = i + 1;
    }
    Ok(Record { fields })
}

/// The views of a file's raw rows.
pub open spec fn raw_views(raws: Seq<Vec<(String, RawField)>>) -> Seq<Seq<(String, RawField)>> {
    raws.map_values(|v: Vec<(String, RawField)>| v@)
}

/// Whether every row of a raw file decodes.
pub open spec fn rows_decode_ok(raws: Seq<Seq<(String, RawField)>>) -> bool {
    forall|i: int| 0 <= i < raws.len() ==> row_decode_ok(#[trigger] raws[i])
}

/// What the decoded records of a raw file hold, row for row.
pub open spec fn rows_decode_to(raws: Seq<Seq<(String, RawField)>>, recs: Seq<Record>) -> bool {
    &&& recs.len() == raws.len()
    &&& forall|i: int| 0 <= i < raws.len() ==> row_decodes_to(#[trigger] raws[i], #[trigger] recs[i])
}

/// Decodes all rows of a file, in order, in a single pass.  If any row
/// fails, the whole conversion fails with that row's condition and no
/// partial result.
pub fn decode_rows(raws: &Vec<Vec<(String, RawField)>>) -> (r: Result<Vec<Record>, BridgeError>)
    ensures
        r is Ok <==> rows_decode_ok(raw_views(raws@)),
        match r {
            Ok(recs) => rows_decode_to(raw_views(raws@), recs@),
            Err(e) => exists|i: int, j: int|
                0 <= i < raws@.len() && 0 <= j < raws@[i]@.len() && !decode_ok(
                    #[trigger] raws@[i]@[j].1,
                ) && e.kind == decode_err_kind(raws@[i]@[j].1) && e.message@ == decode_err_message(
                    raws@[i]@[j].1,
                ),
        },
{
    let ghost views = raw_views(raws@);
    let mut recs: Vec<Record> = Vec::new();
    let mut k: usize = 0;
    while k < raws.len()
        invariant
            k <= raws@.len(),
            views == raw_views(raws@),
            views.len() == raws@.len(),
            forall|j: int| 0 <= j < raws@.len() ==> #[trigger] views[j] == raws@[j]@,
            recs@.len() == k,
            forall|j: int| 0 <= j < k ==> row_decodes_to(#[trigger] views[j], #[trigger] recs@[j]),
            forall|j: int| 0 <= j < k ==> row_decode_ok(#[trigger] views[j]),
        decreases raws@.len() - k,
    {
        match decode_row(&raws[k]) {
            Ok(rec) => recs.push(rec),
            Err(e) => {
                proof {
                    assert(!row_decode_ok(views[k as int]));
                    let j = first_undecodable(raws@[k as int]@);
                    assert(0 <= k < raws@.len() && 0 <= j < raws@[k as int]@.len() && !decode_ok(
                        raws@[k as int]@[j].1,
                    ) && e.kind == decode_err_kind(raws@[k as int]@[j].1) && e.message@
                        == decode_err_message(raws@[k as int]@[j].1));
                }
                return Err(e);
            },
        }
        k = k + 1;
    }
    proof {
        assert forall|i: int| 0 <= i < views.len() implies row_decode_ok(#[trigger] raw_views(
            raws@,
        )[i]) by {
            assert(views[i] == raw_views(raws@)[i]);
        }
    }
    Ok(recs)
}

/// Decoding keeps each row's shape: a decoded file holds one record
/// per raw row, and each record holds its raw row's names, in order.
pub proof fn lemma_decode_keeps_shape(raws: Seq<Seq<(String, RawField)>>, recs: Seq<Record>)
    requires
        rows_decode_to(raws, recs),
    ensures
        recs.len() == raws.len(),
        forall|i: int| 0 <= i < raws.len() ==> (#[trigger] recs[i]).fields@.len() == raws[i].len(),
        forall|i: int, j: int|
            0 <= i < raws.len() && 0 <= j < raws[i].len() ==> (#[trigger] recs[i].fields@[j]).0@
                == raws[i][j].0@,
{
    assert forall|i: int|
        0 <= i < raws.len() implies (#[trigger] recs[i]).fields@.len() == raws[i].len() by {
        assert(row_decodes_to(raws[i], recs[i]));
    }
    assert forall|i: int, j: int|
        0 <= i < raws.len() && 0 <= j < raws[i].len() implies (#[trigger] recs[i].fields@[j]).0@
        == raws[i][j].0@ by {
        assert(row_decodes_to(raws[i], recs[i]));
    }
}

} // verus!
