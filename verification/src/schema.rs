//! The on-disk schema model: physical and annotation kinds, the
//! logical/converted label resolution, schema inference from a first
//! row, and the descriptive walk used by metadata introspection.

use vstd::prelude::*;
use vstd::string::StringExecFns;
use crate::text::{int_digits, bool_label, push_i64_digits};
use crate::value::{DynamicValue, Record, MetaValue, BridgeError, ErrorKind};

verus! {

/// The physical (on-disk primitive) type of a column.
#[derive(Debug, Clone, Copy, PartialEq, Eq, Structural)]
pub enum PhysicalKind {
    Boolean,
    Int32,
    Int64,
    Int96,
    Float,
    Double,
    ByteArray,
    FixedLenByteArray,
}

/// The cardinality marker of a field.
#[derive(Debug, Clone, Copy, PartialEq, Eq, Structural)]
pub enum RepetitionKind {
    Required,
    Optional,
    Repeated,
}

/// The unit of a time or timestamp annotation.
#[derive(Debug, Clone, Copy, PartialEq, Eq, Structural)]
pub enum TimeUnitKind {
    Millis,
    Micros,
    Nanos,
}

/// The legacy converted-type tag, consulted only when no logical-type
/// annotation is present.
#[derive(Debug, Clone, Copy, PartialEq, Eq, Structural)]
pub enum ConvKind {
    NoConv,
    Utf8,
    MapConv,
    MapKeyValue,
    ListConv,
    EnumConv,
    DecimalConv,
    DateConv,
    TimeMillisConv,
    TimeMicrosConv,
    TimestampMillisConv,
    TimestampMicrosConv,
    Uint8,
    Uint16,
    Uint32,
    Uint64,
    Int8,
    Int16,
    Int32,
    Int64,
    Json,
    Bson,
    Interval,
}

/// A modern logical-type annotation.  `OtherKind` stands for any
/// annotation outside the enumerated label list; it resolves to the
/// empty label.
#[derive(Debug, Clone, Copy, PartialEq, Eq, Structural)]
pub enum LogicalAnnot {
    TextKind,
    MapKind,
    ListKind,
    EnumKind,
    DecimalKind { precision: i32, scale: i32 },
    DateKind,
    TimeKind { is_utc: bool, unit: TimeUnitKind },
    TimestampKind { is_utc: bool, unit: TimeUnitKind },
    IntegerKind { bit_width: i8, is_signed: bool },
    UnknownKind,
    JsonKind,
    BsonKind,
    UuidKind,
    OtherKind,
}

/// Everything a primitive schema field carries.
#[derive(Debug, Clone, PartialEq)]
pub struct PrimitiveInfo {
    pub name: String,
    pub repetition: RepetitionKind,
    pub physical: PhysicalKind,
    pub type_length: i32,
    pub precision: i32,
    pub scale: i32,
    pub converted: ConvKind,
    pub logical: Option<LogicalAnnot>,
}

/// One node of the schema tree.  A group carries only its name and its
/// children; every descriptive attribute lives on primitives.
#[derive(Debug, PartialEq)]
pub enum SchemaNode {
    Primitive(PrimitiveInfo),
    Group { name: String, children: Vec<SchemaNode> },
}

/// The textual name of a physical type.
pub open spec fn physical_label(p: PhysicalKind) -> Seq<char> {
    match p {
        PhysicalKind::Boolean => "BOOLEAN"@,
        PhysicalKind::Int32 => "INT32"@,
        PhysicalKind::Int64 => "INT64"@,
        PhysicalKind::Int96 => "INT96"@,
        PhysicalKind::Float => "FLOAT"@,
        PhysicalKind::Double => "DOUBLE"@,
        PhysicalKind::ByteArray => "BYTE_ARRAY"@,
        PhysicalKind::FixedLenByteArray => "FIXED_LEN_BYTE_ARRAY"@,
    }
}

/// The textual name of a repetition.
pub open spec fn repetition_label(r: RepetitionKind) -> Seq<char> {
    match r {
        RepetitionKind::Required => "REQUIRED"@,
        RepetitionKind::Optional => "OPTIONAL"@,
        RepetitionKind::Repeated => "REPEATED"@,
    }
}

/// The textual name of a time unit.
pub open spec fn time_unit_label(u: TimeUnitKind) -> Seq<char> {
    match u {
        TimeUnitKind::Millis => "MILLISECONDS"@,
        TimeUnitKind::Micros => "MICROSECONDS"@,
        TimeUnitKind::Nanos => "NANOSECONDS"@,
    }
}

/// The label of a logical-type annotation.
pub open spec fn logical_label(l: LogicalAnnot) -> Seq<char> {
    match l {
        LogicalAnnot::TextKind => "STRING"@,
        LogicalAnnot::MapKind => "MAP"@,
        LogicalAnnot::ListKind => "LIST"@,
        LogicalAnnot::EnumKind => "ENUM"@,
        LogicalAnnot::DecimalKind { precision, scale } => "DECIMAL"@ + "("@ + int_digits(
            precision as int,
        ) + ","@ + int_digits(scale as int) + ")"@,
        LogicalAnnot::DateKind => "DATE"@,
        LogicalAnnot::TimeKind { is_utc, unit } => "TIME"@ + "("@ + time_unit_label(unit) + ","@
            + bool_label(is_utc) + ")"@,
        LogicalAnnot::TimestampKind { is_utc, unit } => "TIMESTAMP"@ + "("@ + time_unit_label(
            unit,
        ) + ","@ + bool_label(is_utc) + ")"@,
        LogicalAnnot::IntegerKind { bit_width, is_signed } => "INTEGER"@ + "("@ + int_digits(
            bit_width as int,
        ) + ","@ + bool_label(is_signed) + ")"@,
        LogicalAnnot::UnknownKind => "UNKNOWN"@,
        LogicalAnnot::JsonKind => "JSON"@,
        LogicalAnnot::BsonKind => "BSON"@,
        LogicalAnnot::UuidKind => "UUID"@,
        LogicalAnnot::OtherKind => Seq::empty(),
    }
}

/// The label of a legacy converted-type tag; a decimal tag renders with
/// the field's precision and scale.
pub open spec fn converted_label(c: ConvKind, precision: int, scale: int) -> Seq<char> {
    match c {
        ConvKind::NoConv => Seq::empty(),
        ConvKind::Utf8 => "UTF8"@,
        ConvKind::MapConv => "MAP"@,
        ConvKind::MapKeyValue => "MAP_KEY_VALUE"@,
        ConvKind::ListConv => "LIST"@,
        ConvKind::EnumConv => "ENUM"@,
        ConvKind::DecimalConv => "DECIMAL"@ + "("@ + int_digits(precision) + ","@ + int_digits(
            scale,
        ) + ")"@,
        ConvKind::DateConv => "DATE"@,
        ConvKind::TimeMillisConv => "TIME_MILLIS"@,
        ConvKind::TimeMicrosConv => "TIME_MICROS"@,
        ConvKind::TimestampMillisConv => "TIMESTAMP_MILLIS"@,
        ConvKind::TimestampMicrosConv => "TIMESTAMP_MICROS"@,
        ConvKind::Uint8 => "UINT_8"@,
        ConvKind::Uint16 => "UINT_16"@,
        ConvKind::Uint32 => "UINT_32"@,
        ConvKind::Uint64 => "UINT_64"@,
        ConvKind::Int8 => "INT_8"@,
        ConvKind::Int16 => "INT_16"@,
        ConvKind::Int32 => "INT_32"@,
        ConvKind::Int64 => "INT_64"@,
        ConvKind::Json => "JSON"@,
        ConvKind::Bson => "BSON"@,
        ConvKind::Interval => "INTERVAL"@,
    }
}

/// The resolved label of a field: the logical annotation's label when
/// one is present, else the converted tag's label, else empty.
pub open spec fn resolved_label(
    l: Option<LogicalAnnot>,
    c: ConvKind,
    precision: int,
    scale: int,
) -> Seq<char> {
    match l {
        Some(a) => logical_label(a),
        None => converted_label(c, precision, scale),
    }
}

/// A present logical annotation always wins over the converted tag.
pub proof fn lemma_label_prefers_logical(a: LogicalAnnot, c: ConvKind, p: int, s: int)
    ensures
        resolved_label(Some(a), c, p, s) == logical_label(a),
{
}

/// Without a logical annotation the label falls back to the converted
/// tag alone.
pub proof fn lemma_label_falls_back(c: ConvKind, p: int, s: int)
    ensures
        resolved_label(None, c, p, s) == converted_label(c, p, s),
{
}

/// The textual name of a time unit.
pub fn time_unit_to_string(unit: &TimeUnitKind) -> (r: String)
    ensures
        r@ == time_unit_label(*unit),
{
    match unit {
        TimeUnitKind::Millis => String::from_str("MILLISECONDS"),
        TimeUnitKind::Micros => String::from_str("MICROSECONDS"),
        TimeUnitKind::Nanos => String::from_str("NANOSECONDS"),
    }
}

/// The textual name of a physical type.
pub fn physical_type_to_string(p: &PhysicalKind) -> (r: String)
    ensures
        r@ == physical_label(*p),
{
    match p {
        PhysicalKind::Boolean => String::from_str("BOOLEAN"),
        PhysicalKind::Int32 => String::from_str("INT32"),
        PhysicalKind::Int64 => String::from_str("INT64"),
        PhysicalKind::Int96 => String::from_str("INT96"),
        PhysicalKind::Float => String::from_str("FLOAT"),
        PhysicalKind::Double => String::from_str("DOUBLE"),
        PhysicalKind::ByteArray => String::from_str("BYTE_ARRAY"),
        PhysicalKind::FixedLenByteArray => String::from_str("FIXED_LEN_BYTE_ARRAY"),
    }
}

/// The textual name of a repetition.
pub fn repetition_to_string(r: &RepetitionKind) -> (s: String)
    ensures
        s@ == repetition_label(*r),
{
    match r {
        RepetitionKind::Required => String::from_str("REQUIRED"),
        RepetitionKind::Optional => String::from_str("OPTIONAL"),
        RepetitionKind::Repeated => String::from_str("REPEATED"),
    }
}

/// Appends `"(", left, ",", right, ")"` to a label under construction.
fn push_paren_pair(out: &mut String, left: &String, right: &String)
    ensures
        final(out)@ == old(out)@ + "("@ + left@ + ","@ + right@ + ")"@,
{
    out.append("(");
    out.append(left.as_str());
    out.append(",");
    out.append(right.as_str());
    out.append(")");
}

/// Resolves the label of a field from its logical annotation, its
/// converted tag and its precision and scale, preferring the logical
/// annotation.
pub fn logical_or_converted_type_to_string(
    logical: &Option<LogicalAnnot>,
    converted: &ConvKind,
    precision: i32,
    scale: i32,
) -> (r: String)
    ensures
        r@ == resolved_label(*logical, *converted, precision as int, scale as int),
{
    match logical {
        Some(a) => logical_annot_to_string(a),
        None => converted_to_string(converted, precision, scale),
    }
}

/// The label of a logical annotation.
pub fn logical_annot_to_string(a: &LogicalAnnot) -> (r: String)
    ensures
        r@ == logical_label(*a),
{
    match a {
        LogicalAnnot::TextKind => String::from_str("STRING"),
        LogicalAnnot::MapKind => String::from_str("MAP"),
        LogicalAnnot::ListKind => String::from_str("LIST"),
        LogicalAnnot::EnumKind => String::from_str("ENUM"),
        LogicalAnnot::DecimalKind { precision, scale } => {
            let mut s = String::from_str("DECIMAL");
            let mut left = String::new();
            push_i64_digits(&mut left, *precision as i64);
            let mut right = String::new();
            push_i64_digits(&mut right, *scale as i64);
            push_paren_pair(&mut s, &left, &right);
            proof {
                assert(s@ =~= logical_label(*a));
            }
            s
        },
        LogicalAnnot::DateKind => String::from_str("DATE"),
        LogicalAnnot::TimeKind { is_utc, unit } => {
            let mut s = String::from_str("TIME");
            let left = time_unit_to_string(unit);
            let right = crate::text::bool_string(*is_utc);
            push_paren_pair(&mut s, &left, &right);
            proof {
                assert(s@ =~= logical_label(*a));
            }
            s
        },
        LogicalAnnot::TimestampKind { is_utc, unit } => {
            let mut s = String::from_str("TIMESTAMP");
            let left = time_unit_to_string(unit);
            let right = crate::text::bool_string(*is_utc);
            push_paren_pair(&mut s, &left, &right);
            proof {
                assert(s@ =~= logical_label(*a));
            }
            s
        },
        LogicalAnnot::IntegerKind { bit_width, is_signed } => {
            let mut s = String::from_str("INTEGER");
            let mut left = String::new();
            push_i64_digits(&mut left, *bit_width as i64);
            let right = crate::text::bool_string(*is_signed);
            push_paren_pair(&mut s, &left, &right);
            proof {
                assert(s@ =~= logical_label(*a));
            }
            s
        },
        LogicalAnnot::UnknownKind => String::from_str("UNKNOWN"),
        LogicalAnnot::JsonKind => String::from_str("JSON"),
        LogicalAnnot::BsonKind => String::from_str("BSON"),
        LogicalAnnot::UuidKind => String::from_str("UUID"),
        LogicalAnnot::OtherKind => String::new(),
    }
}

/// The label of a converted tag.
pub fn converted_to_string(c: &ConvKind, precision: i32, scale: i32) -> (r: String)
    ensures
        r@ == converted_label(*c, precision as int, scale as int),
{
    match c {
        ConvKind::NoConv => String::new(),
        ConvKind::Utf8 => String::from_str("UTF8"),
        ConvKind::MapConv => String::from_str("MAP"),
        ConvKind::MapKeyValue => String::from_str("MAP_KEY_VALUE"),
        ConvKind::ListConv => String::from_str("LIST"),
        ConvKind::EnumConv => String::from_str("ENUM"),
        ConvKind::DecimalConv => {
            let mut s = String::from_str("DECIMAL");
            let mut left = String::new();
            push_i64_digits(&mut left, precision as i64);
            let mut right = String::new();
            push_i64_digits(&mut right, scale as i64);
            push_paren_pair(&mut s, &left, &right);
            proof {
                assert(s@ =~= converted_label(*c, precision as int, scale as int));
            }
            s
        },
        ConvKind::DateConv => String::from_str("DATE"),
        ConvKind::TimeMillisConv => String::from_str("TIME_MILLIS"),
        ConvKind::TimeMicrosConv => String::from_str("TIME_MICROS"),
        ConvKind::TimestampMillisConv => String::from_str("TIMESTAMP_MILLIS"),
        ConvKind::TimestampMicrosConv => String::from_str("TIMESTAMP_MICROS"),
        ConvKind::Uint8 => String::from_str("UINT_8"),
        ConvKind::Uint16 => String::from_str("UINT_16"),
        ConvKind::Uint32 => String::from_str("UINT_32"),
        ConvKind::Uint64 => String::from_str("UINT_64"),
        ConvKind::Int8 => String::from_str("INT_8"),
        ConvKind::Int16 => String::from_str("INT_16"),
        ConvKind::Int32 => String::from_str("INT_32"),
        ConvKind::Int64 => String::from_str("INT_64"),
        ConvKind::Json => String::from_str("JSON"),
        ConvKind::Bson => String::from_str("BSON"),
        ConvKind::Interval => String::from_str("INTERVAL"),
    }
}


/// The kind name of a dynamic value, as error messages report it.
pub open spec fn value_kind_label(v: DynamicValue) -> Seq<char> {
    match v {
        DynamicValue::Null => "nothing"@,
        DynamicValue::Bool(_) => "bool"@,
        DynamicValue::Int(_) => "int"@,
        DynamicValue::Float(_) => "float"@,
        DynamicValue::Str(_) => "string"@,
        DynamicValue::Binary(_) => "binary"@,
        DynamicValue::Date(_) => "date"@,
        DynamicValue::Filesize(_) => "filesize"@,
        DynamicValue::Error(_) => "error"@,
    }
}

/// The kind name of a dynamic value.
pub fn value_kind_string(v: &DynamicValue) -> (r: String)
    ensures
        r@ == value_kind_label(*v),
{
    match v {
        DynamicValue::Null => String::from_str("nothing"),
        DynamicValue::Bool(_) => String::from_str("bool"),
        DynamicValue::Int(_) => String::from_str("int"),
        DynamicValue::Float(_) => String::from_str("float"),
        DynamicValue::Str(_) => String::from_str("string"),
        DynamicValue::Binary(_) => String::from_str("binary"),
        DynamicValue::Date(_) => String::from_str("date"),
        DynamicValue::Filesize(_) => String::from_str("filesize"),
        DynamicValue::Error(_) => String::from_str("error"),
    }
}

/// The physical type and converted tag that the write path chooses for
/// a column, from the first row's value alone; `None` when the value's
/// kind has no on-disk mapping.
pub open spec fn inferred_column(v: DynamicValue) -> Option<(PhysicalKind, ConvKind)> {
    match v {
        DynamicValue::Bool(_) => Some((PhysicalKind::Boolean, ConvKind::NoConv)),
        DynamicValue::Int(_) => Some((PhysicalKind::Int64, ConvKind::NoConv)),
        DynamicValue::Float(_) => Some((PhysicalKind::Double, ConvKind::NoConv)),
        DynamicValue::Str(_) => Some((PhysicalKind::ByteArray, ConvKind::Utf8)),
        DynamicValue::Date(_) => Some((PhysicalKind::Int64, ConvKind::DateConv)),
        DynamicValue::Filesize(_) => Some((PhysicalKind::Int64, ConvKind::NoConv)),
        _ => None,
    }
}

/// The message of an inference failure, naming the column and the
/// value's kind.
pub open spec fn unsupported_column_message(name: Seq<char>, v: DynamicValue) -> Seq<char> {
    "column "@ + name + ": cannot store "@ + value_kind_label(v) + " type (not supported)"@
}

/// What the inferred primitive field of one column holds.
pub open spec fn primitive_matches(name: Seq<char>, v: DynamicValue, info: PrimitiveInfo) -> bool {
    &&& info.name@ == name
    &&& Some((info.physical, info.converted)) == inferred_column(v)
    &&& info.repetition == RepetitionKind::Required
    &&& info.type_length == 0
    &&& info.precision == 0
    &&& info.scale == 0
    &&& info.logical is None
}

/// Chooses one column's on-disk type from its value in the first row.
pub fn value_to_type(column_name: &String, value: &DynamicValue) -> (r: Result<
    PrimitiveInfo,
    BridgeError,
>)
    ensures
        match r {
            Ok(info) => primitive_matches(column_name@, *value, info),
            Err(e) => {
                &&& inferred_column(*value) is None
                &&& e.kind == ErrorKind::UnsupportedColumnType
                &&& e.message@ == unsupported_column_message(column_name@, *value)
            },
        },
        r is Ok <==> inferred_column(*value) is Some,
{
    let picked: Option<(PhysicalKind, ConvKind)> = match value {
        DynamicValue::Bool(_) => Some((PhysicalKind::Boolean, ConvKind::NoConv)),
        DynamicValue::Int(_) => Some((PhysicalKind::Int64, ConvKind::NoConv)),
        DynamicValue::Float(_) => Some((PhysicalKind::Double, ConvKind::NoConv)),
        DynamicValue::Str(_) => Some((PhysicalKind::ByteArray, ConvKind::Utf8)),
        DynamicValue::Date(_) => Some((PhysicalKind::Int64, ConvKind::DateConv)),
        DynamicValue::Filesize(_) => Some((PhysicalKind::Int64, ConvKind::NoConv)),
        _ => None,
    };
    match picked {
        Some((physical, converted)) => Ok(
            PrimitiveInfo {
                name: column_name.clone(),
                repetition: RepetitionKind::Required,
                physical,
                type_length: 0,
                precision: 0,
                scale: 0,
                converted,
                logical: None,
            },
        ),
        None => {
            let mut message = String::from_str("column ");
            message.append(column_name.as_str());
            message.append(": cannot store ");
            let kind = value_kind_string(value);
            message.append(kind.as_str());
            message.append(" type (not supported)");
            proof {
                assert(message@ =~= unsupported_column_message(column_name@, *value));
            }
            Err(BridgeError { kind: ErrorKind::UnsupportedColumnType, message })
        },
    }
}

/// The index of the first column of a row whose value's kind has no
/// on-disk mapping (the row's length when every kind maps).
pub open spec fn first_unmapped(fields: Seq<(String, DynamicValue)>) -> int
    decreases fields.len(),
{
    if fields.len() == 0 {
        0
    } else if inferred_column(fields[0].1) is None {
        0
    } else {
        1 + first_unmapped(fields.skip(1))
    }
}

/// The first unmapped index is the first index whose kind fails.
proof fn lemma_first_unmapped(fields: Seq<(String, DynamicValue)>, i: int)
    requires
        0 <= i < fields.len(),
        forall|j: int| 0 <= j < i ==> inferred_column((#[trigger] fields[j]).1) is Some,
        inferred_column(fields[i].1) is None,
    ensures
        first_unmapped(fields) == i,
    decreases i,
{
    if i > 0 {
        assert(inferred_column(fields[0].1) is Some);
        assert forall|j: int|
            0 <= j < i - 1 implies inferred_column((#[trigger] fields.skip(1)[j]).1) is Some by {
            assert(fields.skip(1)[j] == fields[j + 1]);
        }
        assert(fields.skip(1)[i - 1] == fields[i]);
        lemma_first_unmapped(fields.skip(1), i - 1);
    }
}

/// Whether every column of a first row has an on-disk mapping.
pub open spec fn all_inferable(fields: Seq<(String, DynamicValue)>) -> bool {
    forall|i: int| 0 <= i < fields.len() ==> inferred_column(#[trigger] fields[i].1) is Some
}

/// What the schema inferred from a first row holds: one required
/// primitive column per key, in that row's key order.
pub open spec fn schema_inferred(fields: Seq<(String, DynamicValue)>, n: SchemaNode) -> bool {
    n matches SchemaNode::Group { name, children } && name@ == "schema"@
        && children@.len() == fields.len() && (forall|i: int|
        0 <= i < fields.len() ==> (#[trigger] children@[i] matches SchemaNode::Primitive(info)
            && primitive_matches(fields[i].0@, fields[i].1, info)))
}

/// Derives the on-disk schema from the first row of a table: one
/// required column per key of that row, in key order.  Fails with an
/// unsupported-column condition when some value's kind has no mapping.
pub fn infer_schema(record: &Record) -> (r: Result<SchemaNode, BridgeError>)
    ensures
        match r {
            Ok(n) => schema_inferred(record.fields@, n),
            Err(e) => {
                let k = first_unmapped(record.fields@);
                &&& !all_inferable(record.fields@)
                &&& e.kind == ErrorKind::UnsupportedColumnType
                &&& 0 <= k < record.fields@.len()
                &&& inferred_column(record.fields@[k].1) is None
                &&& e.message@ == unsupported_column_message(
                    record.fields@[k].0@,
                    record.fields@[k].1,
                )
            },
        },
        r is Ok <==> all_inferable(record.fields@),
{
    let mut children: Vec<SchemaNode> = Vec::new();
    let mut i: usize = 0;
    while i < record.fields.len()
        invariant
            i <= record.fields@.len(),
            children@.len() == i,
            forall|j: int|
                0 <= j < i ==> (#[trigger] children@[j] matches SchemaNode::Primitive(info)
                    && primitive_matches(record.fields@[j].0@, record.fields@[j].1, info)),
            forall|j: int|
                0 <= j < i ==> inferred_column(#[trigger] record.fields@[j].1) is Some,
        decreases record.fields@.len() - i,
    {
        let (name, value) = &record.fields[i];
        match value_to_type(name, value) {
            Ok(info) => children.push(SchemaNode::Primitive(info)),
            Err(e) => {
                proof {
                    lemma_first_unmapped(record.fields@, i as int);
                }
                return Err(e);
            },
        }
        i = i + 1;
    }
    Ok(SchemaNode::Group { name: String::from_str("schema"), children })
}

/// What the descriptive record of one primitive field holds: its name,
/// its repetition and physical type by name, its length when the
/// physical type carries one, and its resolved annotation label.
pub open spec fn primitive_meta_rel(info: PrimitiveInfo, fs: Seq<(String, MetaValue)>) -> bool {
    &&& fs.len() == 5
    &&& fs[0].0@ == "name"@
    &&& (fs[0].1 matches MetaValue::Str(s) && s@ == info.name@)
    &&& fs[1].0@ == "repetition"@
    &&& (fs[1].1 matches MetaValue::Str(s) && s@ == repetition_label(info.repetition))
    &&& fs[2].0@ == "type"@
    &&& (fs[2].1 matches MetaValue::Str(s) && s@ == physical_label(info.physical))
    &&& fs[3].0@ == "type_length"@
    &&& fs[3].1 == (if info.physical == PhysicalKind::ByteArray
        || info.physical == PhysicalKind::FixedLenByteArray {
        MetaValue::Int(info.type_length as i64)
    } else {
        MetaValue::Null
    })
    &&& fs[4].0@ == "logical_type"@
    &&& (fs[4].1 matches MetaValue::Str(s) && s@ == resolved_label(
        info.logical,
        info.converted,
        info.precision as int,
        info.scale as int,
    ))
}

/// What the descriptive walk of a schema node yields: a primitive
/// yields its own record; a group yields only the list of its
/// children's values, without its own name or repetition.
pub open spec fn schema_meta_rel(n: SchemaNode, m: MetaValue) -> bool
    decreases n,
{
    match n {
        SchemaNode::Primitive(info) => m matches MetaValue::Record(fs) && primitive_meta_rel(
            info,
            fs@,
        ),
        SchemaNode::Group { name, children } => m matches MetaValue::List(ms) && ms@.len()
            == children@.len() && (forall|i: int|
            0 <= i < children@.len() ==> schema_meta_rel(
                #[trigger] children@[i],
                #[trigger] ms@[i],
            )),
    }
}

/// Walks a schema node into its descriptive value: a record per
/// primitive field, a bare list per group.
pub fn schema_to_value(node: &SchemaNode) -> (r: MetaValue)
    ensures
        schema_meta_rel(*node, r),
    decreases *node,
{
    match node {
        SchemaNode::Primitive(info) => {
            let mut fs: Vec<(String, MetaValue)> = Vec::new();
            fs.push((String::from_str("name"), MetaValue::Str(info.name.clone())));
            fs.push(
                (String::from_str("repetition"), MetaValue::Str(
                    repetition_to_string(&info.repetition),
                )),
            );
            fs.push(
                (String::from_str("type"), MetaValue::Str(physical_type_to_string(&info.physical))),
            );
            let type_length = match info.physical {
                PhysicalKind::ByteArray | PhysicalKind::FixedLenByteArray => MetaValue::Int(
                    info.type_length as i64,
                ),
                _ => MetaValue::Null,
            };
            fs.push((String::from_str("type_length"), type_length));
            fs.push(
                (String::from_str("logical_type"), MetaValue::Str(
                    logical_or_converted_type_to_string(
                        &info.logical,
                        &info.converted,
                        info.precision,
                        info.scale,
                    ),
                )),
            );
            MetaValue::Record(fs)
        },
        SchemaNode::Group { name: name_g, children } => {
            let mut ms: Vec<MetaValue> = Vec::new();
            let mut i: usize = 0;
            while i < children.len()
                invariant
                    *node is Group,
                    node->children == *children,
                    i <= children@.len(),
                    ms@.len() == i,
                    forall|j: int| 0 <= j < i ==> schema_meta_rel(children@[j], #[trigger] ms@[j]),
                decreases children@.len() - i,
            {
                proof {
                    broadcast use vstd::std_specs::vec::axiom_vec_decreases_to_view;
                    broadcast use vstd::seq::axiom_seq_index_decreases;
                    let n = *node;
                    assert(decreases_to!(n => n->children));
                    assert(decreases_to!(*children => children@));
                    assert(decreases_to!(children@ => children@[i as int]));
                }
                ms.push(schema_to_value(&children[i]));
                i = i + 1;
            }
            MetaValue::List(ms)
        },
    }
}


} // verus!
