//! The trusted boundary: every call into the `parquet` crate stands
//! here, behind small wrappers whose bodies Verus does not read.  Each
//! wrapper only makes its call and converts between the crate's types
//! and the library's plain types; all decisions live in verified code.
//!
//! What a call returns is a function of the bytes or values handed to
//! it alone, so the results carry names: `open_ok` and `row_results`
//! for parsing a file image, `parsed_info` for its metadata, and
//! `encoded_file` for the image the writer emits.  The structs that
//! carry parquet's stateful values pair them with ghost views of those
//! names' arguments; every construction and mutation of such a struct
//! lives in this module and keeps the ghost view describing the real
//! state, which is what the named contracts rest on.

use vstd::prelude::*;
use bytes::Bytes;
use core::primitive::f64 as PrimF64;
use std::sync::Arc;
use parquet::basic::{ConvertedType, LogicalType, Repetition, TimeUnit, Type as PhysicalType};
use parquet::column::writer::ColumnWriter;
use parquet::data_type::{ByteArray, Decimal};
use parquet::file::properties::WriterProperties;
use parquet::file::reader::FileReader;
use parquet::file::serialized_reader::SerializedFileReader;
use parquet::file::writer::{SerializedFileWriter, SerializedRowGroupWriter};
use parquet::record::reader::RowIter;
use parquet::record::{Field, Row};
use parquet::schema::types::Type;
use crate::decimal::DecimalValue;
use crate::decode::RawField;
use crate::meta::{FileInfo, RowGroupInfo};
use crate::schema::{ConvKind, LogicalAnnot, PhysicalKind, PrimitiveInfo, RepetitionKind,
    SchemaNode, TimeUnitKind};
use crate::write::ColumnBatch;

verus! {

#[verifier::external_type_specification]
#[verifier::external_body]
pub struct ExParquetError(parquet::errors::ParquetError);

#[verifier::external_type_specification]
#[verifier::external_body]
pub struct ExField(Field);

#[verifier::external_type_specification]
#[verifier::external_body]
pub struct ExSchemaType(Type);

#[verifier::external_type_specification]
#[verifier::external_body]
pub struct ExLogicalType(LogicalType);

#[verifier::external_type_specification]
#[verifier::external_body]
pub struct ExConvertedType(ConvertedType);

#[verifier::external_type_specification]
#[verifier::external_body]
pub struct ExPhysicalType(PhysicalType);

#[verifier::external_type_specification]
#[verifier::external_body]
pub struct ExRepetition(Repetition);

#[verifier::external_type_specification]
#[verifier::external_body]
pub struct ExTimeUnit(TimeUnit);

/// Whether a complete file image's footer parses, so that a reader
/// opens over it; a function of the bytes alone.
pub uninterp spec fn open_ok(bytes: Seq<u8>) -> bool;

/// The rows a parsed file image holds, in file order: each either its
/// named fields in schema order, or the text of its read error.  A
/// function of the bytes alone.
pub uninterp spec fn row_results(bytes: Seq<u8>) -> Seq<Result<Vec<(String, RawField)>, String>>;

/// The descriptive structures a parsed file image holds; a function of
/// the bytes alone.
pub uninterp spec fn parsed_info(bytes: Seq<u8>) -> FileInfo;

/// The complete file image that the writer emits over an in-memory
/// buffer for a root name, a column list (name, physical type,
/// converted tag) and the row groups of column batches written, in
/// order; a function of these alone.
pub uninterp spec fn encoded_file(
    root: Seq<char>,
    cols: Seq<(Seq<char>, PhysicalKind, ConvKind)>,
    groups: Seq<Seq<ColumnBatch>>,
) -> Seq<u8>;

/// The raw parquet reader; generic over an outside trait that cannot
/// be declared here, so it lives in a private field of an opaque
/// struct.
#[verifier::external_body]
struct RawReader {
    inner: SerializedFileReader<Bytes>,
}

/// An open reader paired with the ghost view of the file image it was
/// opened over.  Only this module constructs one, always from the very
/// bytes the raw reader parsed.
pub struct ParquetReader {
    raw: RawReader,
    bytes: Ghost<Seq<u8>>,
}

impl ParquetReader {
    /// The view of the file image this reader was opened over.
    pub closed spec fn image(self) -> Seq<u8> {
        self.bytes@
    }
}

/// Relies on `SerializedFileReader::new`: parses the footer of a
/// complete in-memory file image; it succeeds exactly when the image
/// opens.
#[verifier::external_body]
fn raw_open_reader(bytes: &Vec<u8>) -> (r: Result<RawReader, String>)
    ensures
        r is Ok <==> open_ok(bytes@),
{
    match SerializedFileReader::new(Bytes::from(bytes.clone())) {
        Ok(inner) => Ok(RawReader { inner }),
        Err(e) => Err(e.to_string()),
    }
}

/// Opens a reader over a file image, recording the image's view.
pub(crate) fn open_reader(bytes: &Vec<u8>) -> (r: Result<ParquetReader, String>)
    ensures
        r is Ok <==> open_ok(bytes@),
        r matches Ok(rd) ==> rd.image() == bytes@,
{
    match raw_open_reader(bytes) {
        Ok(raw) => Ok(ParquetReader { raw, bytes: Ghost(bytes@) }),
        Err(message) => Err(message),
    }
}

/// Relies on `RowIter::from_file_into` and `Row::into_columns`: hands
/// out all rows of the file, each converted field by field through
/// `raw_of_field`; together they are the named rows of the image the
/// reader was opened over.
#[verifier::external_body]
pub(crate) fn read_raw_rows(reader: ParquetReader) -> (r: Vec<
    Result<Vec<(String, RawField)>, String>,
>)
    ensures
        r@ == row_results(reader.image()),
{
    RowIter::from_file_into(Box::new(reader.raw.inner)).map(
        |r|
            r.map(
                |row: Row| row.into_columns().into_iter().map(|(n, f)| (n, raw_of_field(&f))).collect(),
            ).map_err(|e| e.to_string()),
    ).collect()
}

/// Relies on parquet's `Field`: the null, boolean and integer variants,
/// one arm each, moving the payload.
#[verifier::external_body]
fn raw_of_int_field(f: &Field) -> Option<RawField> {
    match f {
        Field::Null => Some(RawField::Null),
        Field::Bool(b) => Some(RawField::Bool(*b)),
        Field::Byte(x) => Some(RawField::Byte(*x)),
        Field::Short(x) => Some(RawField::Short(*x)),
        Field::Int(x) => Some(RawField::Int(*x)),
        Field::Long(x) => Some(RawField::Long(*x)),
        Field::UByte(x) => Some(RawField::UByte(*x)),
        Field::UShort(x) => Some(RawField::UShort(*x)),
        Field::UInt(x) => Some(RawField::UInt(*x)),
        Field::ULong(x) => Some(RawField::ULong(*x)),
        _ => None,
    }
}

/// Relies on parquet's `Field`: texts, raw bytes, dates and
/// timestamps, one arm each; the 16- and 32-bit float payloads are
/// widened exactly to double bits.
#[verifier::external_body]
fn raw_of_wide_field(f: &Field) -> Option<RawField> {
    match f {
        Field::Float16(x) => Some(RawField::Double(x.to_f64().to_bits())),
        Field::Float(x) => Some(RawField::Double(PrimF64::from(*x).to_bits())),
        Field::Double(x) => Some(RawField::Double(x.to_bits())),
        Field::Str(s) => Some(RawField::Str(s.clone())),
        Field::Bytes(b) => Some(RawField::Bytes(b.data().to_vec())),
        Field::Date(d) => Some(RawField::Date(*d)),
        Field::TimestampMillis(ms) => Some(RawField::TimestampMillis(*ms)),
        Field::TimestampMicros(us) => Some(RawField::TimestampMicros(*us)),
        _ => None,
    }
}

/// Relies on parquet's `Field` and `Decimal`: the three decimal shapes
/// keep their magnitude bytes, precision and scale; the nested kinds
/// and anything else become bare markers that the decoder refuses.
#[verifier::external_body]
fn raw_of_other_field(f: &Field) -> RawField {
    match f {
        Field::Decimal(Decimal::Int32 { value, precision, scale }) => RawField::Decimal(DecimalValue::FixedInt32 { be: value.to_vec(), precision: *precision, scale: *scale }),
        Field::Decimal(Decimal::Int64 { value, precision, scale }) => RawField::Decimal(DecimalValue::FixedInt64 { be: value.to_vec(), precision: *precision, scale: *scale }),
        Field::Decimal(Decimal::Bytes { value, precision, scale }) => RawField::Decimal(DecimalValue::VariableBytes { be: value.data().to_vec(), precision: *precision, scale: *scale }),
        Field::Group(_) => RawField::Group,
        Field::ListInternal(_) => RawField::List,
        Field::MapInternal(_) => RawField::MapField,
        _ => RawField::Other,
    }
}

/// Converts one field of a row into the decoder's input.
pub(crate) fn raw_of_field(f: &Field) -> RawField {
    match raw_of_int_field(f) {
        Some(r) => r,
        None => match raw_of_wide_field(f) {
            Some(r) => r,
            None => raw_of_other_field(f),
        },
    }
}

/// Relies on `FileMetaData::version`.
#[verifier::external_body]
pub(crate) fn file_version(reader: &ParquetReader) -> (r: i32)
    ensures
        r == parsed_info(reader.image()).version,
{
    reader.raw.inner.metadata().file_metadata().version()
}

/// Relies on `FileMetaData::created_by`.
#[verifier::external_body]
pub(crate) fn file_creator(reader: &ParquetReader) -> (r: Option<String>)
    ensures
        r == parsed_info(reader.image()).creator,
{
    reader.raw.inner.metadata().file_metadata().created_by().map(|s| s.to_string())
}

/// Relies on `FileMetaData::num_rows`.
#[verifier::external_body]
pub(crate) fn file_num_rows(reader: &ParquetReader) -> (r: i64)
    ensures
        r == parsed_info(reader.image()).num_rows,
{
    reader.raw.inner.metadata().file_metadata().num_rows()
}

/// Relies on `FileMetaData::key_value_metadata`: each custom pair as
/// plain strings, in order; an absent list comes back empty.
#[verifier::external_body]
pub(crate) fn file_key_values(reader: &ParquetReader) -> (r: Vec<(String, Option<String>)>)
    ensures
        r == parsed_info(reader.image()).key_values,
{
    match reader.raw.inner.metadata().file_metadata().key_value_metadata() {
        Some(kvs) => kvs.iter().map(|kv| (kv.key.clone(), kv.value.clone())).collect(),
        None => Vec::new(),
    }
}

/// Relies on `RowGroupMetaData::num_rows` and `total_byte_size`: the
/// statistics of each row group, in order.
#[verifier::external_body]
pub(crate) fn row_group_stats(reader: &ParquetReader) -> (r: Vec<RowGroupInfo>)
    ensures
        r == parsed_info(reader.image()).row_groups,
{
    reader.raw.inner.metadata().row_groups().iter().map(
        |rg| RowGroupInfo { num_rows: rg.num_rows(), total_byte_size: rg.total_byte_size() },
    ).collect()
}

/// Relies on `SchemaDescriptor::root_schema` and the structural copy
/// below: the parsed schema tree of the image the reader was opened
/// over.
#[verifier::external_body]
pub(crate) fn file_schema(reader: &ParquetReader) -> (r: SchemaNode)
    ensures
        r == parsed_info(reader.image()).schema,
{
    schema_node_of(reader.raw.inner.metadata().file_metadata().schema_descr().root_schema())
}

/// Relies on parquet's `Repetition`: one arm per variant.
#[verifier::external_body]
fn repetition_kind(r: &Repetition) -> RepetitionKind {
    match r {
        Repetition::REQUIRED => RepetitionKind::Required,
        Repetition::OPTIONAL => RepetitionKind::Optional,
        Repetition::REPEATED => RepetitionKind::Repeated,
    }
}

/// Relies on parquet's physical `Type`: one arm per variant.
#[verifier::external_body]
fn physical_kind(p: &PhysicalType) -> PhysicalKind {
    match p {
        PhysicalType::BOOLEAN => PhysicalKind::Boolean,
        PhysicalType::INT32 => PhysicalKind::Int32,
        PhysicalType::INT64 => PhysicalKind::Int64,
        PhysicalType::INT96 => PhysicalKind::Int96,
        PhysicalType::FLOAT => PhysicalKind::Float,
        PhysicalType::DOUBLE => PhysicalKind::Double,
        PhysicalType::BYTE_ARRAY => PhysicalKind::ByteArray,
        PhysicalType::FIXED_LEN_BYTE_ARRAY => PhysicalKind::FixedLenByteArray,
    }
}

/// Relies on parquet's `ConvertedType`: the first half of the variants,
/// one arm each.
#[verifier::external_body]
fn converted_kind_a(c: &ConvertedType) -> Option<ConvKind> {
    match c {
        ConvertedType::NONE => Some(ConvKind::NoConv),
        ConvertedType::UTF8 => Some(ConvKind::Utf8),
        ConvertedType::MAP => Some(ConvKind::MapConv),
        ConvertedType::MAP_KEY_VALUE => Some(ConvKind::MapKeyValue),
        ConvertedType::LIST => Some(ConvKind::ListConv),
        ConvertedType::ENUM => Some(ConvKind::EnumConv),
        ConvertedType::DECIMAL => Some(ConvKind::DecimalConv),
        ConvertedType::DATE => Some(ConvKind::DateConv),
        ConvertedType::TIME_MILLIS => Some(ConvKind::TimeMillisConv),
        ConvertedType::TIME_MICROS => Some(ConvKind::TimeMicrosConv),
        ConvertedType::TIMESTAMP_MILLIS => Some(ConvKind::TimestampMillisConv),
        ConvertedType::TIMESTAMP_MICROS => Some(ConvKind::TimestampMicrosConv),
        _ => None,
    }
}

/// Relies on parquet's `ConvertedType`: the second half of the
/// variants, one arm each; the rest is handled by the first half.
#[verifier::external_body]
fn converted_kind_b(c: &ConvertedType) -> ConvKind {
    match c {
        ConvertedType::UINT_8 => ConvKind::Uint8,
        ConvertedType::UINT_16 => ConvKind::Uint16,
        ConvertedType::UINT_32 => ConvKind::Uint32,
        ConvertedType::UINT_64 => ConvKind::Uint64,
        ConvertedType::INT_8 => ConvKind::Int8,
        ConvertedType::INT_16 => ConvKind::Int16,
        ConvertedType::INT_32 => ConvKind::Int32,
        ConvertedType::INT_64 => ConvKind::Int64,
        ConvertedType::JSON => ConvKind::Json,
        ConvertedType::BSON => ConvKind::Bson,
        ConvertedType::INTERVAL => ConvKind::Interval,
        _ => ConvKind::NoConv,
    }
}

/// Relies on the two halves above: one arm covers each variant.
#[verifier::external_body]
fn converted_kind(c: &ConvertedType) -> ConvKind {
    match converted_kind_a(c) {
        Some(k) => k,
        None => converted_kind_b(c),
    }
}

/// Relies on parquet's `TimeUnit`: one arm per variant.
#[verifier::external_body]
fn time_unit_kind(u: &TimeUnit) -> TimeUnitKind {
    match u {
        TimeUnit::MILLIS => TimeUnitKind::Millis,
        TimeUnit::MICROS => TimeUnitKind::Micros,
        TimeUnit::NANOS => TimeUnitKind::Nanos,
    }
}

/// Relies on parquet's `LogicalType`: the annotations without a
/// payload, one arm each.
#[verifier::external_body]
fn logical_annot_simple(l: &LogicalType) -> Option<LogicalAnnot> {
    match l {
        LogicalType::String => Some(LogicalAnnot::TextKind),
        LogicalType::Map => Some(LogicalAnnot::MapKind),
        LogicalType::List => Some(LogicalAnnot::ListKind),
        LogicalType::Enum => Some(LogicalAnnot::EnumKind),
        LogicalType::Date => Some(LogicalAnnot::DateKind),
        LogicalType::Json => Some(LogicalAnnot::JsonKind),
        LogicalType::Bson => Some(LogicalAnnot::BsonKind),
        LogicalType::Uuid => Some(LogicalAnnot::UuidKind),
        LogicalType::Unknown => Some(LogicalAnnot::UnknownKind),
        _ => None,
    }
}

/// Relies on parquet's `LogicalType`: the annotations with a payload,
/// one arm each, moving the payload's fields; any annotation outside
/// the label list resolves to the empty label.
#[verifier::external_body]
fn logical_annot_rich(l: &LogicalType) -> LogicalAnnot {
    match l {
        LogicalType::Decimal(t) => LogicalAnnot::DecimalKind { precision: t.precision, scale: t.scale },
        LogicalType::Time(t) => LogicalAnnot::TimeKind { is_utc: t.is_adjusted_to_u_t_c, unit: time_unit_kind(&t.unit) },
        LogicalType::Timestamp(t) => LogicalAnnot::TimestampKind { is_utc: t.is_adjusted_to_u_t_c, unit: time_unit_kind(&t.unit) },
        LogicalType::Integer(t) => LogicalAnnot::IntegerKind { bit_width: t.bit_width, is_signed: t.is_signed },
        _ => LogicalAnnot::OtherKind,
    }
}

/// Relies on the two halves above: one arm covers each variant.
#[verifier::external_body]
fn logical_annot_of(l: &LogicalType) -> LogicalAnnot {
    match logical_annot_simple(l) {
        Some(a) => a,
        None => logical_annot_rich(l),
    }
}

/// Relies on parquet's schema `Type`: one primitive field's own
/// attributes, each enum tag converted; a node without a repetition
/// (only the root) reads as optional.
#[verifier::external_body]
fn primitive_of(t: &Type) -> Option<PrimitiveInfo> {
    match t {
        Type::PrimitiveType { basic_info, physical_type, type_length, scale, precision } => {
            let repetition = if basic_info.has_repetition() { repetition_kind(&basic_info.repetition()) } else { RepetitionKind::Optional };
            Some(PrimitiveInfo {
                name: basic_info.name().to_string(), repetition,
                physical: physical_kind(physical_type), type_length: *type_length,
                precision: *precision, scale: *scale,
                converted: converted_kind(&basic_info.converted_type()),
                logical: basic_info.logical_type_ref().map(|l| logical_annot_of(l)),
            })
        },
        Type::GroupType { .. } => None,
    }
}

/// Relies on parquet's schema `Type`: a structural copy of the tree;
/// groups keep only their name and their children, in order.
#[verifier::external_body]
fn schema_node_of(t: &Type) -> SchemaNode {
    match primitive_of(t) {
        Some(info) => SchemaNode::Primitive(info),
        None => SchemaNode::Group {
            name: match t { Type::GroupType { basic_info, .. } => basic_info.name().to_string(), _ => String::new() },
            children: match t { Type::GroupType { fields, .. } => fields.iter().map(|f| schema_node_of(f)).collect(), _ => Vec::new() },
        },
    }
}

/// One built schema column paired with the ghost view of the name,
/// physical type and converted tag it was built from.
pub struct ColumnType {
    raw: Type,
    desc: Ghost<(Seq<char>, PhysicalKind, ConvKind)>,
}

impl ColumnType {
    /// The name, physical type and converted tag this column was built
    /// from.
    pub closed spec fn described(self) -> (Seq<char>, PhysicalKind, ConvKind) {
        self.desc@
    }
}

/// A built schema root paired with the ghost views of its name and of
/// its columns' descriptions, in order.
pub struct SchemaHandle {
    raw: Type,
    root: Ghost<Seq<char>>,
    cols: Ghost<Seq<(Seq<char>, PhysicalKind, ConvKind)>>,
}

impl SchemaHandle {
    /// The root name this schema was built with.
    pub closed spec fn root_name(self) -> Seq<char> {
        self.root@
    }

    /// The descriptions of this schema's columns, in order.
    pub closed spec fn columns(self) -> Seq<(Seq<char>, PhysicalKind, ConvKind)> {
        self.cols@
    }
}

/// The descriptions of a column list, in order.
pub open spec fn descs_of(fields: Seq<ColumnType>) -> Seq<(Seq<char>, PhysicalKind, ConvKind)> {
    fields.map_values(|c: ColumnType| c.described())
}

/// Relies on parquet's `primitive_type_builder`: one required primitive
/// column.  Its validation refuses a date tag on the 64-bit integer
/// column the write path pairs it with (the tag is admitted only on
/// 32-bit integers), so a date column never builds.
#[verifier::external_body]
fn raw_column_type(name: &str, physical: &PhysicalKind, converted: &ConvKind) -> (r: Result<
    Type,
    String,
>)
    requires
        crate::write::writable_physical(*physical),
        *converted == ConvKind::NoConv || *converted == ConvKind::Utf8 || *converted
            == ConvKind::DateConv,
    ensures
        *converted == ConvKind::DateConv ==> r is Err,
{
    let pt = match physical {
        PhysicalKind::Boolean => PhysicalType::BOOLEAN,
        PhysicalKind::Int64 => PhysicalType::INT64,
        PhysicalKind::Double => PhysicalType::DOUBLE,
        _ => PhysicalType::BYTE_ARRAY,
    };
    let ct = match converted {
        ConvKind::Utf8 => ConvertedType::UTF8,
        ConvKind::DateConv => ConvertedType::DATE,
        _ => ConvertedType::NONE,
    };
    Type::primitive_type_builder(name, pt).with_converted_type(ct).with_repetition(
        Repetition::REQUIRED,
    ).build().map_err(|e| e.to_string())
}

/// Builds one required schema column, recording what it was built from.
pub(crate) fn mk_column_type(name: &str, physical: &PhysicalKind, converted: &ConvKind) -> (r:
    Result<ColumnType, String>)
    requires
        crate::write::writable_physical(*physical),
        *converted == ConvKind::NoConv || *converted == ConvKind::Utf8 || *converted
            == ConvKind::DateConv,
    ensures
        r matches Ok(ct) ==> ct.described() == (name@, *physical, *converted),
        *converted == ConvKind::DateConv ==> r is Err,
{
    match raw_column_type(name, physical, converted) {
        Ok(raw) => Ok(ColumnType { raw, desc: Ghost((name@, *physical, *converted)) }),
        Err(message) => Err(message),
    }
}

/// Relies on parquet's `group_type_builder`: one group with the given
/// fields.
#[verifier::external_body]
fn raw_group_type(name: &str, fields: Vec<Type>) -> Result<Type, String> {
    Type::group_type_builder(name).with_fields(fields.into_iter().map(Arc::new).collect()).build()
        .map_err(|e| e.to_string())
}

/// Builds the schema root over the given columns, recording their
/// descriptions in order.
pub(crate) fn mk_group_type(name: &str, fields: Vec<ColumnType>) -> (r: Result<
    SchemaHandle,
    String,
>)
    ensures
        r matches Ok(g) ==> g.root_name() == name@ && g.columns() == descs_of(fields@),
{
    let ghost ds = descs_of(fields@);
    let n = fields.len();
    let mut rest = fields;
    let mut raws: Vec<Type> = Vec::new();
    let mut k: usize = 0;
    while k < n
        invariant
            k <= n,
            ds.len() == n,
            rest@.len() == n - k,
            forall|j: int| 0 <= j < n - k ==> (#[trigger] rest@[j]).described() == ds[j + k],
            raws@.len() == k,
        decreases n - k,
    {
        let ct = rest.remove(0);
        raws.push(ct.raw);
        k = k + 1;
    }
    match raw_group_type(name, raws) {
        Ok(raw) => Ok(SchemaHandle { raw, root: Ghost(name@), cols: Ghost(ds) }),
        Err(message) => Err(message),
    }
}

/// The raw parquet file writer over an in-memory buffer; opaque for
/// the same reason as `RawReader`.
#[verifier::external_body]
struct RawFileWriter {
    inner: SerializedFileWriter<Vec<u8>>,
}

/// An open raw row group of a `RawFileWriter`.
#[verifier::external_body]
struct RawRowGroup<'a> {
    inner: SerializedRowGroupWriter<'a, Vec<u8>>,
}

/// An open file writer paired with the ghost views of the schema it
/// was created over and of the row groups written so far.  `intact`
/// falls once any write fails, after which nothing more is claimed of
/// the buffer's content.
pub struct ParquetFileWriter {
    raw: RawFileWriter,
    root: Ghost<Seq<char>>,
    cols: Ghost<Seq<(Seq<char>, PhysicalKind, ConvKind)>>,
    groups: Ghost<Seq<Seq<ColumnBatch>>>,
    intact: Ghost<bool>,
}

impl ParquetFileWriter {
    /// The root name of the schema this writer was created over.
    pub closed spec fn root_name(self) -> Seq<char> {
        self.root@
    }

    /// The descriptions of the schema's columns, in order.
    pub closed spec fn columns(self) -> Seq<(Seq<char>, PhysicalKind, ConvKind)> {
        self.cols@
    }

    /// The row groups written through this writer, in order.
    pub closed spec fn groups_written(self) -> Seq<Seq<ColumnBatch>> {
        self.groups@
    }

    /// Whether every write through this writer succeeded.
    pub closed spec fn is_intact(self) -> bool {
        self.intact@
    }
}

/// Relies on `SerializedFileWriter::new` with default properties.
#[verifier::external_body]
fn raw_new_file_writer(schema: Type) -> Result<RawFileWriter, String> {
    let props = Arc::new(WriterProperties::builder().build());
    match SerializedFileWriter::new(Vec::new(), Arc::new(schema), props) {
        Ok(inner) => Ok(RawFileWriter { inner }),
        Err(e) => Err(e.to_string()),
    }
}

/// Opens a file writer over a fresh in-memory buffer, recording the
/// schema it was created over.
pub(crate) fn new_file_writer(schema: SchemaHandle) -> (r: Result<ParquetFileWriter, String>)
    ensures
        r matches Ok(w) ==> w.root_name() == schema.root_name() && w.columns() == schema.columns()
            && w.groups_written() == Seq::<Seq<ColumnBatch>>::empty() && w.is_intact(),
{
    let ghost root = schema.root@;
    let ghost cols = schema.cols@;
    match raw_new_file_writer(schema.raw) {
        Ok(raw) => Ok(
            ParquetFileWriter {
                raw,
                root: Ghost(root),
                cols: Ghost(cols),
                groups: Ghost(Seq::empty()),
                intact: Ghost(true),
            },
        ),
        Err(message) => Err(message),
    }
}

/// Relies on `SerializedFileWriter::next_row_group`: opens the next
/// row group; fails if the previous one is still open.
#[verifier::external_body]
fn open_raw_row_group<'a>(w: &'a mut RawFileWriter) -> Result<RawRowGroup<'a>, String> {
    match w.inner.next_row_group() {
        Ok(inner) => Ok(RawRowGroup { inner }),
        Err(e) => Err(e.to_string()),
    }
}

/// Relies on `next_column`, `write_batch` and `close` of the column
/// writer: appends the values to the row group's next column, flat,
/// without null or repetition levels, and closes it.
#[verifier::external_body]
fn write_raw_bools(rg: &mut RawRowGroup<'_>, values: &Vec<bool>) -> Result<(), String> {
    let mut cw = match rg.inner.next_column() { Ok(Some(c)) => c, Ok(None) => return Err("no open column for a batch".to_string()), Err(e) => return Err(e.to_string()) };
    let res = match cw.untyped() { ColumnWriter::BoolColumnWriter(w) => w.write_batch(values, None, None).map(|_| ()).map_err(|e| e.to_string()), _ => Err("column is not a boolean column".to_string()) };
    if res.is_err() { return res; }
    cw.close().map_err(|e| e.to_string())
}

/// Relies on `next_column`, `write_batch` and `close`: as above, for a
/// 64-bit integer column.
#[verifier::external_body]
fn write_raw_ints(rg: &mut RawRowGroup<'_>, values: &Vec<i64>) -> Result<(), String> {
    let mut cw = match rg.inner.next_column() { Ok(Some(c)) => c, Ok(None) => return Err("no open column for a batch".to_string()), Err(e) => return Err(e.to_string()) };
    let res = match cw.untyped() { ColumnWriter::Int64ColumnWriter(w) => w.write_batch(values, None, None).map(|_| ()).map_err(|e| e.to_string()), _ => Err("column is not an integer column".to_string()) };
    if res.is_err() { return res; }
    cw.close().map_err(|e| e.to_string())
}

/// Relies on `next_column`, `write_batch` and `close`: as above, for a
/// double column; the values arrive as raw IEEE-754 bits and are
/// written as the doubles they encode.
#[verifier::external_body]
fn write_raw_doubles(rg: &mut RawRowGroup<'_>, values: &Vec<u64>) -> Result<(), String> {
    let vals: Vec<PrimF64> = values.iter().map(|b| PrimF64::from_bits(*b)).collect();
    let mut cw = match rg.inner.next_column() { Ok(Some(c)) => c, Ok(None) => return Err("no open column for a batch".to_string()), Err(e) => return Err(e.to_string()) };
    let res = match cw.untyped() { ColumnWriter::DoubleColumnWriter(w) => w.write_batch(&vals, None, None).map(|_| ()).map_err(|e| e.to_string()), _ => Err("column is not a double column".to_string()) };
    if res.is_err() { return res; }
    cw.close().map_err(|e| e.to_string())
}

/// Relies on `next_column`, `write_batch` and `close`: as above, for a
/// byte-array column; each string's UTF-8 bytes become one array
/// value.
#[verifier::external_body]
fn write_raw_texts(rg: &mut RawRowGroup<'_>, values: &Vec<String>) -> Result<(), String> {
    let vals: Vec<ByteArray> = values.iter().map(|s| ByteArray::from(s.as_str())).collect();
    let mut cw = match rg.inner.next_column() { Ok(Some(c)) => c, Ok(None) => return Err("no open column for a batch".to_string()), Err(e) => return Err(e.to_string()) };
    let res = match cw.untyped() { ColumnWriter::ByteArrayColumnWriter(w) => w.write_batch(&vals, None, None).map(|_| ()).map_err(|e| e.to_string()), _ => Err("column is not a byte-array column".to_string()) };
    if res.is_err() { return res; }
    cw.close().map_err(|e| e.to_string())
}

/// Relies on `SerializedRowGroupWriter::close`: fails if a column
/// writer is still open.
#[verifier::external_body]
fn close_raw_row_group(rg: RawRowGroup<'_>) -> Result<(), String> {
    rg.inner.close().map(|_| ()).map_err(|e| e.to_string())
}

/// Opens one row group, writes each batch as the next column, in
/// order, and closes the group; the group, the columns and the file
/// writer close strictly innermost first.
fn write_group_inner(w: &mut RawFileWriter, batches: &Vec<ColumnBatch>) -> (r: Result<(), String>)
{
    let mut rg = match open_raw_row_group(w) {
        Ok(g) => g,
        Err(message) => {
            return Err(message);
        },
    };
    let mut k: usize = 0;
    while k < batches.len()
        decreases batches@.len() - k,
    {
        let res = match &batches[k] {
            ColumnBatch::Bools(v) => write_raw_bools(&mut rg, v),
            ColumnBatch::Ints(v) => write_raw_ints(&mut rg, v),
            ColumnBatch::Doubles(v) => write_raw_doubles(&mut rg, v),
            ColumnBatch::Texts(v) => write_raw_texts(&mut rg, v),
        };
        match res {
            Ok(_) => {},
            Err(message) => {
                return Err(message);
            },
        }
        k = k + 1;
    }
    close_raw_row_group(rg)
}

/// Writes one row group holding the given column batches, in order,
/// and records it in the writer's ghost view; a failure marks the
/// writer no longer intact.
pub(crate) fn write_row_group(w: &mut ParquetFileWriter, batches: &Vec<ColumnBatch>) -> (r: Result<
    (),
    String,
>)
    ensures
        r is Ok ==> final(w).root_name() == old(w).root_name() && final(w).columns() == old(
            w,
        ).columns() && final(w).is_intact() == old(w).is_intact() && final(w).groups_written()
            == old(w).groups_written().push(batches@),
        r is Err ==> !final(w).is_intact(),
{
    match write_group_inner(&mut w.raw, batches) {
        Ok(_) => {
            w.groups = Ghost(w.groups@.push(batches@));
            Ok(())
        },
        Err(message) => {
            w.intact = Ghost(false);
            Err(message)
        },
    }
}

/// Relies on `SerializedFileWriter::into_inner`: writes the footer and
/// hands back the complete file image; fails if a row group is still
/// open.  For an intact writer the image is the named encoding of the
/// schema it was created over and the row groups written through it.
#[verifier::external_body]
pub(crate) fn writer_into_bytes(w: ParquetFileWriter) -> (r: Result<Vec<u8>, String>)
    ensures
        r matches Ok(b) ==> (w.is_intact() ==> b@ == encoded_file(
            w.root_name(),
            w.columns(),
            w.groups_written(),
        )),
{
    w.raw.inner.into_inner().map_err(|e| e.to_string())
}

} // verus!
