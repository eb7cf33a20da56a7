//! The three public operations: read a file image into records, read
//! its metadata into one descriptive record, and write a table of
//! records into a file image.

use vstd::prelude::*;
use crate::boundary::{
    open_reader, open_ok, read_raw_rows, row_results, parsed_info, encoded_file, file_version,
    file_creator, file_num_rows, file_key_values, row_group_stats, file_schema, mk_column_type,
    mk_group_type, new_file_writer, write_row_group, writer_into_bytes, ColumnType, descs_of,
};
use crate::decode::{
    RawField, decode_row, decode_ok, decode_err_kind, decode_err_message, row_decode_ok,
    row_decodes_to, first_undecodable,
};
use crate::meta::{FileInfo, metadata_summary, summary_rel};
use crate::schema::SchemaNode;
use crate::value::{Record, MetaValue, BridgeError, ErrorKind, TableEntry};
use crate::write::{
    plan_table, plan_ok, plan_rel, plan_error_rel, first_fields, col_physical, col_converted,
    planned_cols, planned_date_free, batch_rel, ColumnBatch, lemma_inferred_writable,
};

verus! {

/// Whether one read row is fine: it was read, and every field of it
/// decodes.
pub open spec fn row_fine(x: Result<Vec<(String, RawField)>, String>) -> bool {
    x matches Ok(v) && row_decode_ok(v@)
}

/// Whether a whole file of read rows converts.
pub open spec fn file_decode_ok(rs: Seq<Result<Vec<(String, RawField)>, String>>) -> bool {
    forall|i: int| 0 <= i < rs.len() ==> row_fine(#[trigger] rs[i])
}

/// What the decoded records of a file's read rows hold, row for row.
pub open spec fn file_decodes_to(
    rs: Seq<Result<Vec<(String, RawField)>, String>>,
    recs: Seq<Record>,
) -> bool {
    &&& recs.len() == rs.len()
    &&& forall|i: int|
        0 <= i < rs.len() ==> (#[trigger] rs[i] matches Ok(v) && row_decodes_to(v@, recs[i]))
}

/// The index of the first read row that is not fine (the file's row
/// count when all are).
pub open spec fn first_bad_row(rs: Seq<Result<Vec<(String, RawField)>, String>>) -> int
    decreases rs.len(),
{
    if rs.len() == 0 {
        0
    } else if !row_fine(rs[0]) {
        0
    } else {
        1 + first_bad_row(rs.skip(1))
    }
}

/// The first bad index is the first index whose row is not fine.
proof fn lemma_first_bad_row(rs: Seq<Result<Vec<(String, RawField)>, String>>, i: int)
    requires
        0 <= i < rs.len(),
        forall|j: int| 0 <= j < i ==> row_fine(#[trigger] rs[j]),
        !row_fine(rs[i]),
    ensures
        first_bad_row(rs) == i,
    decreases i,
{
    if i > 0 {
        assert(row_fine(rs[0]));
        assert forall|j: int| 0 <= j < i - 1 implies row_fine(#[trigger] rs.skip(1)[j]) by {
            assert(rs.skip(1)[j] == rs[j + 1]);
        }
        assert(rs.skip(1)[i - 1] == rs[i]);
        lemma_first_bad_row(rs.skip(1), i - 1);
    }
}

/// The exact failure of a read: the open condition when the image does
/// not parse, else the first bad row's own condition — its read error
/// text, or its first undecodable field's condition.
pub open spec fn read_error_rel(bytes: Seq<u8>, e: BridgeError) -> bool {
    if !open_ok(bytes) {
        e.kind == ErrorKind::ReaderOpenFailure
    } else {
        let rs = row_results(bytes);
        let k = first_bad_row(rs);
        &&& 0 <= k < rs.len()
        &&& match rs[k] {
            Result::Ok(v) => {
                let j = first_undecodable(v@);
                &&& 0 <= j < v@.len()
                &&& !decode_ok(v@[j].1)
                &&& e.kind == decode_err_kind(v@[j].1)
                &&& e.message@ == decode_err_message(v@[j].1)
            },
            Result::Err(message) => e.kind == ErrorKind::RowDecodeFailure && e.message@
                == message@,
        }
    }
}

/// Reads one complete file image into its rows of records, in file
/// order, all or nothing: the result succeeds exactly when the image
/// opens and every one of its rows reads and decodes, and then holds
/// the decoding of exactly those rows.  Otherwise it fails with the
/// open condition, or with the first failing row's own condition.
pub fn from_parquet_bytes(bytes: Vec<u8>) -> (r: Result<Vec<Record>, BridgeError>)
    ensures
        r is Ok <==> open_ok(bytes@) && file_decode_ok(row_results(bytes@)),
        match r {
            Ok(recs) => file_decodes_to(row_results(bytes@), recs@),
            Err(e) => read_error_rel(bytes@, e),
        },
{
    let reader = match open_reader(&bytes) {
        Ok(r) => r,
        Err(message) => {
            return Err(BridgeError { kind: ErrorKind::ReaderOpenFailure, message });
        },
    };
    let rows = read_raw_rows(reader);
    let mut recs: Vec<Record> = Vec::new();
    let mut i: usize = 0;
    while i < rows.len()
        invariant
            open_ok(bytes@),
            rows@ == row_results(bytes@),
            i <= rows@.len(),
            recs@.len() == i,
            forall|j: int| 0 <= j < i ==> row_fine(#[trigger] rows@[j]),
            forall|j: int|
                0 <= j < i ==> (#[trigger] rows@[j] matches Ok(v) && row_decodes_to(
                    v@,
                    recs@[j],
                )),
        decreases rows@.len() - i,
    {
        match &rows[i] {
            Ok(cols) => {
                match decode_row(cols) {
                    Ok(rec) => recs.push(rec),
                    Err(e) => {
                        proof {
                            assert(rows@[i as int] matches Ok(v) && v@ == cols@);
                            assert(!row_fine(rows@[i as int]));
                            lemma_first_bad_row(rows@, i as int);
                        }
                        return Err(e);
                    },
                }
            },
            Err(message) => {
                proof {
                    assert(!row_fine(rows@[i as int]));
                    lemma_first_bad_row(rows@, i as int);
                }
                return Err(
                    BridgeError { kind: ErrorKind::RowDecodeFailure, message: message.clone() },
                );
            },
        }
        i = i + 1;
    }
    Ok(recs)
}

/// Reads the descriptive structures of one complete file image into
/// its single summary record: the result succeeds exactly when the
/// image opens, and then is the summary of exactly that image's parsed
/// metadata.
pub fn metadata_from_parquet_bytes(bytes: Vec<u8>) -> (r: Result<MetaValue, BridgeError>)
    ensures
        r is Ok <==> open_ok(bytes@),
        match r {
            Ok(m) => summary_rel(parsed_info(bytes@), m),
            Err(e) => e.kind == ErrorKind::ReaderOpenFailure,
        },
{
    let reader = match open_reader(&bytes) {
        Ok(r) => r,
        Err(message) => {
            return Err(BridgeError { kind: ErrorKind::ReaderOpenFailure, message });
        },
    };
    let info = FileInfo {
        version: file_version(&reader),
        creator: file_creator(&reader),
        num_rows: file_num_rows(&reader),
        key_values: file_key_values(&reader),
        schema: file_schema(&reader),
        row_groups: row_group_stats(&reader),
    };
    proof {
        assert(info == parsed_info(bytes@));
    }
    let m = metadata_summary(&info);
    Ok(m)
}

/// Wraps a failure of the writer lifecycle.
fn lifecycle_error(message: String) -> (e: BridgeError)
    ensures
        e.kind == ErrorKind::WriterLifecycleFailure,
{
    BridgeError { kind: ErrorKind::WriterLifecycleFailure, message }
}

/// Writes a non-empty table of uniform records into one complete file
/// image: the schema comes from the first row, every column is
/// materialized across all rows, and one row group is written, its
/// columns in schema order, each closed before the next opens, the row
/// group before the file's footer.  On success the image is the named
/// encoding of the planned schema and batches.  A table the plan
/// refuses fails with the plan's condition; a failure of the writer
/// itself fails as a lifecycle condition.  A date column normally
/// fails in planning, when its cells do not convert to integers; a
/// date tag that still reaches the schema builder (possible only under
/// a duplicated key) is refused there, since the format admits the tag
/// only on 32-bit integer columns while dates are stored in 64-bit
/// ones.
pub fn to_parquet_bytes(table: &Vec<TableEntry>) -> (r: Result<Vec<u8>, BridgeError>)
    ensures
        match r {
            Ok(buffer) => plan_ok(table@) && planned_date_free(table@) && exists|
                batches: Seq<ColumnBatch>,
            |
                #![auto]
                batches.len() == first_fields(table@).len() && (forall|j: int|
                    0 <= j < batches.len() ==> batch_rel(
                        table@,
                        (#[trigger] first_fields(table@)[j]).0@,
                        col_physical(first_fields(table@)[j].1),
                        batches[j],
                    )) && buffer@ == encoded_file(
                    "schema"@,
                    planned_cols(table@),
                    Seq::<Seq<ColumnBatch>>::empty().push(batches),
                ),
            Err(e) => (plan_ok(table@) && e.kind == ErrorKind::WriterLifecycleFailure) || (!plan_ok(
                table@,
            ) && plan_error_rel(table@, e)),
        },
        plan_ok(table@) && !planned_date_free(table@) ==> r is Err,
{
    let plan = match plan_table(table) {
        Ok(p) => p,
        Err(e) => {
            return Err(e);
        },
    };
    let children = match &plan.schema {
        SchemaNode::Group { children, .. } => children,
        SchemaNode::Primitive(_) => {
            proof {
                assert(false);
            }
            return Err(lifecycle_error(String::new()));
        },
    };
    let mut types: Vec<ColumnType> = Vec::new();
    let mut j: usize = 0;
    while j < children.len()
        invariant
            j <= children@.len(),
            plan_ok(table@),
            plan_rel(table@, plan),
            plan.schema is Group,
            plan.schema->children == *children,
            children@.len() == first_fields(table@).len(),
            types@.len() == j,
            descs_of(types@) == planned_cols(table@).take(j as int),
            forall|k: int| 0 <= k < j ==> !((#[trigger] first_fields(table@)[k]).1 is Date),
        decreases children@.len() - j,
    {
        let info = match &children[j] {
            SchemaNode::Primitive(info) => info,
            SchemaNode::Group { .. } => {
                proof {
                    assert(children@[j as int] is Primitive);
                    assert(false);
                }
                return Err(lifecycle_error(String::new()));
            },
        };
        proof {
            lemma_inferred_writable(first_fields(table@)[j as int].1);
            assert(info.physical == col_physical(first_fields(table@)[j as int].1));
            assert(info.converted == col_converted(first_fields(table@)[j as int].1));
        }
        match mk_column_type(info.name.as_str(), &info.physical, &info.converted) {
            Ok(ct) => {
                proof {
                    assert(ct.described() == planned_cols(table@)[j as int]);
                    assert(!(first_fields(table@)[j as int].1 is Date));
                }
                types.push(ct);
                proof {
                    assert(descs_of(types@) =~= planned_cols(table@).take(j + 1));
                }
            },
            Err(message) => {
                return Err(lifecycle_error(message));
            },
        }
        j = j + 1;
    }
    proof {
        assert(planned_cols(table@).take(children@.len() as int) =~= planned_cols(table@));
    }
    let group = match mk_group_type("schema", types) {
        Ok(g) => g,
        Err(message) => {
            return Err(lifecycle_error(message));
        },
    };
    let mut writer = match new_file_writer(group) {
        Ok(w) => w,
        Err(message) => {
            return Err(lifecycle_error(message));
        },
    };
    match write_row_group(&mut writer, &plan.batches) {
        Ok(_) => {},
        Err(message) => {
            return Err(lifecycle_error(message));
        },
    }
    match writer_into_bytes(writer) {
        Ok(buffer) => {
            proof {
                assert(buffer@ == encoded_file(
                    "schema"@,
                    planned_cols(table@),
                    Seq::<Seq<ColumnBatch>>::empty().push(plan.batches@),
                ));
            }
            Ok(buffer)
        },
        Err(message) => Err(lifecycle_error(message)),
    }
}

} // verus!
