//! The dynamic value model: the row-oriented counterpart of the
//! column-oriented on-disk format.

use vstd::prelude::*;

verus! {

/// One dynamically typed cell value.
///
/// Floating-point values are carried as the raw bits of an IEEE-754
/// double so that the verified core never touches a float; the host
/// layer converts bits to native doubles at the boundary.  A `Date` is
/// the number of microseconds since 1970-01-01T00:00:00Z.
#[derive(Debug, Clone, PartialEq)]
pub enum DynamicValue {
    Null,
    Bool(bool),
    Int(i64),
    Float(u64),
    Str(String),
    Binary(Vec<u8>),
    Date(i64),
    Filesize(i64),
    Error(String),
}

/// One decoded row, or one descriptive metadata object: an ordered
/// mapping from column name to value, insertion order significant.
#[derive(Debug, Clone, PartialEq)]
pub struct Record {
    pub fields: Vec<(String, DynamicValue)>,
}

/// One entry of a table handed to the write path.  The host marks
/// entries that are not record-shaped so that the writer can refuse
/// them as the format requires.
#[derive(Debug, Clone, PartialEq)]
pub enum TableEntry {
    Row(Record),
    Other,
}

/// The failure taxonomy: every operation either succeeds completely or
/// returns exactly one of these conditions.
#[derive(Debug, Clone, Copy, PartialEq, Eq, Structural)]
pub enum ErrorKind {
    /// The file footer is malformed or unreadable.
    ReaderOpenFailure,
    /// A row or field could not be decoded; the whole read fails.
    RowDecodeFailure,
    /// An unsigned 64-bit on-disk value exceeds the signed 64-bit range.
    UnsignedOverflow,
    /// A nested group/list/map, or a field kind outside the mapping
    /// table, was encountered on read.
    UnsupportedFieldKind,
    /// The write path received no rows, a row that is not
    /// record-shaped, or a row that lacks an inferred column.
    EmptyOrNonUniformTable,
    /// A dynamic value's kind has no physical-type mapping, or a cell
    /// does not match its column's physical type.
    UnsupportedColumnType,
    /// Opening or closing the column writer, row group or file writer
    /// failed.
    WriterLifecycleFailure,
}

/// One structured failure: a short label and a descriptive message.
#[derive(Debug, Clone, PartialEq)]
pub struct BridgeError {
    pub kind: ErrorKind,
    pub message: String,
}

/// A value of the metadata introspection output: unlike a cell value it
/// may nest records and lists, mirroring the descriptive shape that the
/// schema walk produces.
#[derive(Debug, PartialEq)]
pub enum MetaValue {
    Null,
    Int(i64),
    Str(String),
    Record(Vec<(String, MetaValue)>),
    List(Vec<MetaValue>),
}

impl BridgeError {
    /// The label under which the host reports this failure.
    pub fn label(&self) -> (r: &'static str)
        ensures
            r@ == kind_label(self.kind),
    {
        match self.kind {
            ErrorKind::ReaderOpenFailure => "ReaderOpenFailure",
            ErrorKind::RowDecodeFailure => "RowDecodeFailure",
            ErrorKind::UnsignedOverflow => "UnsignedOverflow",
            ErrorKind::UnsupportedFieldKind => "UnsupportedFieldKind",
            ErrorKind::EmptyOrNonUniformTable => "EmptyOrNonUniformTable",
            ErrorKind::UnsupportedColumnType => "UnsupportedColumnType",
            ErrorKind::WriterLifecycleFailure => "WriterLifecycleFailure",
        }
    }
}

/// The textual label of each failure condition.
pub open spec fn kind_label(k: ErrorKind) -> Seq<char> {
    match k {
        ErrorKind::ReaderOpenFailure => "ReaderOpenFailure"@,
        ErrorKind::RowDecodeFailure => "RowDecodeFailure"@,
        ErrorKind::UnsignedOverflow => "UnsignedOverflow"@,
        ErrorKind::UnsupportedFieldKind => "UnsupportedFieldKind"@,
        ErrorKind::EmptyOrNonUniformTable => "EmptyOrNonUniformTable"@,
        ErrorKind::UnsupportedColumnType => "UnsupportedColumnType"@,
        ErrorKind::WriterLifecycleFailure => "WriterLifecycleFailure"@,
    }
}

} // verus!
