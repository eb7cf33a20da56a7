//! A verified bridge between the Parquet columnar file format and a
//! dynamically typed, row-oriented value model.
//!
//! The read side decodes every supported physical/logical field into a
//! dynamic value, renders fixed-point decimals exactly, and introspects
//! file metadata into one descriptive record.  The write side infers a
//! flat schema from the first row of a table and re-encodes all rows
//! column by column.  The calls into the `parquet` crate stand behind
//! small trusted items in `boundary`; everything around them is verified.

use vstd::prelude::*;

pub mod boundary;
pub mod decimal;
pub mod decode;
pub mod from_parquet;
pub mod meta;
pub mod schema;
pub mod text;
pub mod value;
pub mod write;

verus! {

/// Marker type for the plugin that the host command layer wraps around
/// this library.  The host owns argument parsing and transport; the
/// library owns the verified format bridge.
pub struct ParquetPlugin;

} // verus!
