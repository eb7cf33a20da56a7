//! The write path's pure half: checks the table's shape, infers the
//! schema from the first row, and materializes each column across all
//! rows (column-major) as a typed batch ready for the column writers.

use vstd::prelude::*;
use vstd::string::StringExecFns;
use crate::schema::{
    SchemaNode, PhysicalKind, ConvKind, infer_schema, schema_inferred, all_inferable,
    inferred_column, first_unmapped, unsupported_column_message,
};
use crate::value::{DynamicValue, TableEntry, BridgeError, ErrorKind};

verus! {

/// One column's values across all rows, converted to the column's
/// physical type.  Doubles are carried as raw IEEE-754 bits.
#[derive(Debug, Clone, PartialEq)]
pub enum ColumnBatch {
    Bools(Vec<bool>),
    Ints(Vec<i64>),
    Doubles(Vec<u64>),
    Texts(Vec<String>),
}

/// The planned write: the inferred schema and one batch per column, in
/// schema order.
#[derive(Debug, PartialEq)]
pub struct WritePlan {
    pub schema: SchemaNode,
    pub batches: Vec<ColumnBatch>,
}

/// The first value under a name in a field list, scanning in order.
pub open spec fn spec_first_get(
    fields: Seq<(String, DynamicValue)>,
    name: Seq<char>,
) -> Option<DynamicValue>
    decreases fields.len(),
{
    if fields.len() == 0 {
        None
    } else if fields[0].0@ == name {
        Some(fields[0].1)
    } else {
        spec_first_get(fields.skip(1), name)
    }
}

/// Scanning past a prefix without the name does not change the result.
proof fn lemma_first_get_skip(fields: Seq<(String, DynamicValue)>, name: Seq<char>, i: int)
    requires
        0 <= i <= fields.len(),
        forall|j: int| 0 <= j < i ==> (#[trigger] fields[j]).0@ != name,
    ensures
        spec_first_get(fields, name) == spec_first_get(fields.skip(i), name),
    decreases i,
{
    if i > 0 {
        assert(fields[0].0@ != name);
        assert(fields.skip(1).skip(i - 1) =~= fields.skip(i));
        assert forall|j: int| 0 <= j < i - 1 implies (#[trigger] fields.skip(1)[j]).0@ != name by {
            assert(fields.skip(1)[j] == fields[j + 1]);
        }
        lemma_first_get_skip(fields.skip(1), name, i - 1);
    } else {
        assert(fields.skip(0) =~= fields);
    }
}

/// Finds the first value under a name in a field list.
pub fn first_get<'a>(fields: &'a Vec<(String, DynamicValue)>, name: &String) -> (r: Option<
    &'a DynamicValue,
>)
    ensures
        match r {
            Some(v) => spec_first_get(fields@, name@) == Some(*v),
            None => spec_first_get(fields@, name@) is None,
        },
{
    let mut i: usize = 0;
    while i < fields.len()
        invariant
            i <= fields@.len(),
            forall|j: int| 0 <= j < i ==> (#[trigger] fields@[j]).0@ != name@,
        decreases fields@.len() - i,
    {
        if fields[i].0 == *name {
            proof {
                lemma_first_get_skip(fields@, name@, i as int);
                assert(fields@.skip(i as int)[0] == fields@[i as int]);
            }
            return Some(&fields[i].1);
        }
        i = i + 1;
    }
    proof {
        lemma_first_get_skip(fields@, name@, fields@.len() as int);
    }
    None
}

/// The cell of a table entry under a column name; a non-record entry
/// has no cells.
pub open spec fn cell_of(e: TableEntry, name: Seq<char>) -> Option<DynamicValue> {
    match e {
        TableEntry::Row(r) => spec_first_get(r.fields@, name),
        TableEntry::Other => None,
    }
}

/// Fetches the cell of one table entry under a column name.
fn get_cell<'a>(table: &'a Vec<TableEntry>, i: usize, name: &String) -> (r: Option<
    &'a DynamicValue,
>)
    requires
        i < table@.len(),
    ensures
        match r {
            Some(v) => cell_of(table@[i as int], name@) == Some(*v),
            None => cell_of(table@[i as int], name@) is None,
        },
{
    match &table[i] {
        TableEntry::Row(rec) => first_get(&rec.fields, name),
        TableEntry::Other => None,
    }
}

/// Whether a cell value matches its column's physical type; only the
/// four writer-supported types accept anything.  An integer column also
/// accepts a file-size value, whose size semantic is dropped.
pub open spec fn cell_ok(p: PhysicalKind, v: DynamicValue) -> bool {
    match p {
        PhysicalKind::Boolean => v is Bool,
        PhysicalKind::Int64 => v is Int || v is Filesize,
        PhysicalKind::Double => v is Float,
        PhysicalKind::ByteArray => v is Str,
        _ => false,
    }
}

/// Whether the writer has a case for this physical type.
pub open spec fn writable_physical(p: PhysicalKind) -> bool {
    match p {
        PhysicalKind::Boolean => true,
        PhysicalKind::Int64 => true,
        PhysicalKind::Double => true,
        PhysicalKind::ByteArray => true,
        _ => false,
    }
}

/// The integer that an integer column writes for a cell.
pub open spec fn int_cell(v: DynamicValue) -> i64 {
    match v {
        DynamicValue::Int(n) => n,
        DynamicValue::Filesize(n) => n,
        _ => 0,
    }
}

/// Whether one whole column converts: every row has the cell and every
/// cell matches the column's physical type.
pub open spec fn column_ok(t: Seq<TableEntry>, name: Seq<char>, p: PhysicalKind) -> bool {
    &&& writable_physical(p)
    &&& forall|i: int|
        0 <= i < t.len() ==> ((#[trigger] cell_of(t[i], name)) matches Some(v) && cell_ok(p, v))
}

/// What a finished batch holds: the column's cell of every row, in row
/// order, converted to the column's physical type.
pub open spec fn batch_rel(
    t: Seq<TableEntry>,
    name: Seq<char>,
    p: PhysicalKind,
    b: ColumnBatch,
) -> bool {
    match b {
        ColumnBatch::Bools(v) => p == PhysicalKind::Boolean && v@.len() == t.len() && (forall|
            i: int,
        |
            0 <= i < t.len() ==> (#[trigger] cell_of(t[i], name)) == Some(
                DynamicValue::Bool(v@[i]),
            )),
        ColumnBatch::Ints(v) => p == PhysicalKind::Int64 && v@.len() == t.len() && (forall|i: int|
            0 <= i < t.len() ==> ((#[trigger] cell_of(t[i], name)) matches Some(c) && cell_ok(p, c)
                && v@[i] == int_cell(c))),
        ColumnBatch::Doubles(v) => p == PhysicalKind::Double && v@.len() == t.len() && (forall|
            i: int,
        |
            0 <= i < t.len() ==> (#[trigger] cell_of(t[i], name)) == Some(
                DynamicValue::Float(v@[i]),
            )),
        ColumnBatch::Texts(v) => p == PhysicalKind::ByteArray && v@.len() == t.len() && (forall|
            i: int,
        |
            0 <= i < t.len() ==> ((#[trigger] cell_of(t[i], name)) matches Some(c)
                && c matches DynamicValue::Str(s) && s@ == v@[i]@)),
    }
}

/// The message of a missing cell.
pub open spec fn missing_column_message(name: Seq<char>) -> Seq<char> {
    "column "@ + name + " is missing in a row"@
}

/// The message of a cell whose kind does not match its column.
pub open spec fn convert_fail_message(p: PhysicalKind) -> Seq<char> {
    match p {
        PhysicalKind::Boolean => "cannot convert to bool"@,
        PhysicalKind::Int64 => "cannot convert to int"@,
        PhysicalKind::Double => "cannot convert to float"@,
        PhysicalKind::ByteArray => "cannot convert to byte array"@,
        _ => "type not supported"@,
    }
}

/// Why one column fails to convert: some row misses the cell, or some
/// cell has the wrong kind, or the physical type has no writer case.
pub open spec fn column_error_rel(
    t: Seq<TableEntry>,
    name: Seq<char>,
    p: PhysicalKind,
    e: BridgeError,
) -> bool {
    if !writable_physical(p) {
        e.kind == ErrorKind::UnsupportedColumnType && e.message@ == convert_fail_message(p)
    } else {
        exists|i: int|
            0 <= i < t.len() && match #[trigger] cell_of(t[i], name) {
                Option::None => e.kind == ErrorKind::EmptyOrNonUniformTable && e.message@
                    == missing_column_message(name),
                Option::Some(v) => !cell_ok(p, v) && e.kind == ErrorKind::UnsupportedColumnType
                    && e.message@ == convert_fail_message(p),
            }
    }
}

/// Builds the message of a missing cell.
fn missing_column_error(name: &String) -> (e: BridgeError)
    ensures
        e.kind == ErrorKind::EmptyOrNonUniformTable,
        e.message@ == missing_column_message(name@),
{
    let mut message = String::from_str("column ");
    message.append(name.as_str());
    message.append(" is missing in a row");
    proof {
        assert(message@ =~= missing_column_message(name@));
    }
    BridgeError { kind: ErrorKind::EmptyOrNonUniformTable, message }
}

/// Builds the message of a mismatched cell.
fn convert_fail_error(p: &PhysicalKind) -> (e: BridgeError)
    ensures
        e.kind == ErrorKind::UnsupportedColumnType,
        e.message@ == convert_fail_message(*p),
{
    let message = match p {
        PhysicalKind::Boolean => String::from_str("cannot convert to bool"),
        PhysicalKind::Int64 => String::from_str("cannot convert to int"),
        PhysicalKind::Double => String::from_str("cannot convert to float"),
        PhysicalKind::ByteArray => String::from_str("cannot convert to byte array"),
        _ => String::from_str("type not supported"),
    };
    BridgeError { kind: ErrorKind::UnsupportedColumnType, message }
}

/// Materializes one column across all rows: fetches the cell of every
/// row in order and converts it to the column's physical type.  The
/// first missing or mismatched cell aborts the column.
pub fn build_column_batch(table: &Vec<TableEntry>, name: &String, physical: &PhysicalKind) -> (r:
    Result<ColumnBatch, BridgeError>)
    ensures
        r is Ok <==> column_ok(table@, name@, *physical),
        match r {
            Ok(b) => batch_rel(table@, name@, *physical, b),
            Err(e) => column_error_rel(table@, name@, *physical, e),
        },
{
    match physical {
        PhysicalKind::Boolean => {
            let mut v: Vec<bool> = Vec::new();
            let mut i: usize = 0;
            while i < table.len()
                invariant
                    *physical == PhysicalKind::Boolean,
                    i <= table@.len(),
                    v@.len() == i,
                    forall|j: int|
                        0 <= j < i ==> (#[trigger] cell_of(table@[j], name@)) == Some(
                            DynamicValue::Bool(v@[j]),
                        ),
                decreases table@.len() - i,
            {
                match get_cell(table, i, name) {
                    Some(DynamicValue::Bool(b)) => v.push(*b),
                    Some(c) => {
                        proof {
                            assert(!cell_ok(*physical, *c));
                        }
                        return Err(convert_fail_error(physical));
                    },
                    None => {
                        proof {
                            assert(cell_of(table@[i as int], name@) is None);
                        }
                        return Err(missing_column_error(name));
                    },
                }
                i = i + 1;
            }
            Ok(ColumnBatch::Bools(v))
        },
        PhysicalKind::Int64 => {
            let mut v: Vec<i64> = Vec::new();
            let mut i: usize = 0;
            while i < table.len()
                invariant
                    *physical == PhysicalKind::Int64,
                    i <= table@.len(),
                    v@.len() == i,
                    forall|j: int|
                        0 <= j < i ==> ((#[trigger] cell_of(table@[j], name@)) matches Some(c)
                            && cell_ok(PhysicalKind::Int64, c) && v@[j] == int_cell(c)),
                decreases table@.len() - i,
            {
                match get_cell(table, i, name) {
                    Some(DynamicValue::Int(n)) => v.push(*n),
                    Some(DynamicValue::Filesize(n)) => v.push(*n),
                    Some(c) => {
                        proof {
                            assert(!cell_ok(*physical, *c));
                        }
                        return Err(convert_fail_error(physical));
                    },
                    None => {
                        proof {
                            assert(cell_of(table@[i as int], name@) is None);
                        }
                        return Err(missing_column_error(name));
                    },
                }
                i = i + 1;
            }
            Ok(ColumnBatch::Ints(v))
        },
        PhysicalKind::Double => {
            let mut v: Vec<u64> = Vec::new();
            let mut i: usize = 0;
            while i < table.len()
                invariant
                    *physical == PhysicalKind::Double,
                    i <= table@.len(),
                    v@.len() == i,
                    forall|j: int|
                        0 <= j < i ==> (#[trigger] cell_of(table@[j], name@)) == Some(
                            DynamicValue::Float(v@[j]),
                        ),
                decreases table@.len() - i,
            {
                match get_cell(table, i, name) {
                    Some(DynamicValue::Float(bits)) => v.push(*bits),
                    Some(c) => {
                        proof {
                            assert(!cell_ok(*physical, *c));
                        }
                        return Err(convert_fail_error(physical));
                    },
                    None => {
                        proof {
                            assert(cell_of(table@[i as int], name@) is None);
                        }
                        return Err(missing_column_error(name));
                    },
                }
                i = i + 1;
            }
            Ok(ColumnBatch::Doubles(v))
        },
        PhysicalKind::ByteArray => {
            let mut v: Vec<String> = Vec::new();
            let mut i: usize = 0;
            while i < table.len()
                invariant
                    *physical == PhysicalKind::ByteArray,
                    i <= table@.len(),
                    v@.len() == i,
                    forall|j: int|
                        0 <= j < i ==> ((#[trigger] cell_of(table@[j], name@)) matches Some(c)
                            && c matches DynamicValue::Str(s) && s@ == v@[j]@),
                decreases table@.len() - i,
            {
                match get_cell(table, i, name) {
                    Some(DynamicValue::Str(s)) => v.push(s.clone()),
                    Some(c) => {
                        proof {
                            assert(!cell_ok(*physical, *c));
                        }
                        return Err(convert_fail_error(physical));
                    },
                    None => {
                        proof {
                            assert(cell_of(table@[i as int], name@) is None);
                        }
                        return Err(missing_column_error(name));
                    },
                }
                i = i + 1;
            }
            Ok(ColumnBatch::Texts(v))
        },
        _ => Err(convert_fail_error(physical)),
    }
}

/// The fields of the first entry of a table (meaningful when that
/// entry is a record).
pub open spec fn first_fields(t: Seq<TableEntry>) -> Seq<(String, DynamicValue)> {
    match t[0] {
        TableEntry::Row(r) => r.fields@,
        TableEntry::Other => Seq::empty(),
    }
}

/// The physical type chosen for a first-row value.
pub open spec fn col_physical(v: DynamicValue) -> PhysicalKind {
    match inferred_column(v) {
        Some((p, _)) => p,
        None => PhysicalKind::Boolean,
    }
}

/// The converted tag chosen for a first-row value.
pub open spec fn col_converted(v: DynamicValue) -> ConvKind {
    match inferred_column(v) {
        Some((_, c)) => c,
        None => ConvKind::NoConv,
    }
}

/// The column descriptions of the schema planned for a table: the
/// first row's keys with their chosen physical types and converted
/// tags, in key order.
pub open spec fn planned_cols(t: Seq<TableEntry>) -> Seq<(Seq<char>, PhysicalKind, ConvKind)> {
    Seq::new(
        first_fields(t).len(),
        |j: int|
            (
                first_fields(t)[j].0@,
                col_physical(first_fields(t)[j].1),
                col_converted(first_fields(t)[j].1),
            ),
    )
}

/// Whether the planned schema carries no date column.  The on-disk
/// format admits the date tag only on 32-bit integer columns, while
/// the write path stores dates as 64-bit integers, so a date column
/// never builds.
pub open spec fn planned_date_free(t: Seq<TableEntry>) -> bool {
    forall|j: int| 0 <= j < first_fields(t).len() ==> !((#[trigger] first_fields(t)[j]).1 is Date)
}

/// Whether a whole table plans: non-empty, every entry record-shaped,
/// the first row's kinds all mapped, and every column's cells present
/// and matching.
pub open spec fn plan_ok(t: Seq<TableEntry>) -> bool {
    &&& t.len() > 0
    &&& t[0] is Row
    &&& all_inferable(first_fields(t))
    &&& forall|i: int| 0 <= i < t.len() ==> #[trigger] t[i] is Row
    &&& forall|j: int|
        0 <= j < first_fields(t).len() ==> column_ok(
            t,
            (#[trigger] first_fields(t)[j]).0@,
            col_physical(first_fields(t)[j].1),
        )
}

/// What a finished plan holds: the schema inferred from the first row,
/// and one batch per column, in schema order.
pub open spec fn plan_rel(t: Seq<TableEntry>, plan: WritePlan) -> bool {
    &&& schema_inferred(first_fields(t), plan.schema)
    &&& plan.batches@.len() == first_fields(t).len()
    &&& forall|j: int|
        0 <= j < first_fields(t).len() ==> batch_rel(
            t,
            (#[trigger] first_fields(t)[j]).0@,
            col_physical(first_fields(t)[j].1),
            plan.batches@[j],
        )
}

/// Why a table fails to plan, by the order in which the write path
/// checks it: an empty table, a non-record first entry, a first-row
/// kind without a mapping, a non-record later entry, or a column that
/// does not convert.
pub open spec fn plan_error_rel(t: Seq<TableEntry>, e: BridgeError) -> bool {
    &&& (t.len() == 0 ==> e.kind == ErrorKind::EmptyOrNonUniformTable && e.message@
        == "empty table"@)
    &&& (t.len() > 0 && !(t[0] is Row) ==> e.kind == ErrorKind::EmptyOrNonUniformTable
        && e.message@ == "not a table"@)
    &&& (t.len() > 0 && t[0] is Row && !all_inferable(first_fields(t)) ==> e.kind
        == ErrorKind::UnsupportedColumnType && {
        let k = first_unmapped(first_fields(t));
        &&& 0 <= k < first_fields(t).len()
        &&& inferred_column(first_fields(t)[k].1) is None
        &&& e.message@ == unsupported_column_message(
            first_fields(t)[k].0@,
            first_fields(t)[k].1,
        )
    })
    &&& (t.len() > 0 && t[0] is Row && all_inferable(first_fields(t)) && !(forall|i: int|
        0 <= i < t.len() ==> #[trigger] t[i] is Row) ==> e.kind
        == ErrorKind::EmptyOrNonUniformTable && e.message@ == "not a table"@)
    &&& (t.len() > 0 && t[0] is Row && all_inferable(first_fields(t)) && (forall|i: int|
        0 <= i < t.len() ==> #[trigger] t[i] is Row) ==> exists|j: int|
        0 <= j < first_fields(t).len() && column_error_rel(
            t,
            (#[trigger] first_fields(t)[j]).0@,
            col_physical(first_fields(t)[j].1),
            e,
        ))
}

/// Plans the whole write: checks the table's shape, infers the schema
/// from the first row, and materializes every column.  Exactly the
/// checks of the write path happen here, in this order: empty table,
/// first entry record-shaped, first row inferable, all entries
/// record-shaped, then each column in schema order.
pub fn plan_table(table: &Vec<TableEntry>) -> (r: Result<WritePlan, BridgeError>)
    ensures
        r is Ok <==> plan_ok(table@),
        match r {
            Ok(plan) => plan_rel(table@, plan),
            Err(e) => plan_error_rel(table@, e),
        },
{
    if table.len() == 0 {
        return Err(
            BridgeError {
                kind: ErrorKind::EmptyOrNonUniformTable,
                message: String::from_str("empty table"),
            },
        );
    }
    let first = match &table[0] {
        TableEntry::Row(rec) => rec,
        TableEntry::Other => {
            return Err(
                BridgeError {
                    kind: ErrorKind::EmptyOrNonUniformTable,
                    message: String::from_str("not a table"),
                },
            );
        },
    };
    proof {
        assert(table@[0] is Row);
        assert(first_fields(table@) == first.fields@);
    }
    let schema = match infer_schema(first) {
        Ok(s) => s,
        Err(e) => {
            return Err(e);
        },
    };
    let mut i: usize = 1;
    while i < table.len()
        invariant
            1 <= i <= table@.len(),
            table@[0] is Row,
            all_inferable(first_fields(table@)),
            forall|j: int| 0 <= j < i ==> #[trigger] table@[j] is Row,
        decreases table@.len() - i,
    {
        match &table[i] {
            TableEntry::Row(_) => {},
            TableEntry::Other => {
                proof {
                    assert(!(table@[i as int] is Row));
                }
                return Err(
                    BridgeError {
                        kind: ErrorKind::EmptyOrNonUniformTable,
                        message: String::from_str("not a table"),
                    },
                );
            },
        }
        i = i + 1;
    }
    let children = match &schema {
        SchemaNode::Group { children, .. } => children,
        SchemaNode::Primitive(_) => {
            proof {
                assert(false);
            }
            return Err(
                BridgeError {
                    kind: ErrorKind::EmptyOrNonUniformTable,
                    message: String::new(),
                },
            );
        },
    };
    let mut batches: Vec<ColumnBatch> = Vec::new();
    let mut j: usize = 0;
    while j < children.len()
        invariant
            j <= children@.len(),
            batches@.len() == j,
            table@.len() > 0,
            table@[0] is Row,
            all_inferable(first_fields(table@)),
            forall|k: int| 0 <= k < table@.len() ==> #[trigger] table@[k] is Row,
            schema_inferred(first_fields(table@), schema),
            schema is Group,
            schema->children == *children,
            children@.len() == first_fields(table@).len(),
            forall|k: int|
                0 <= k < j ==> batch_rel(
                    table@,
                    (#[trigger] first_fields(table@)[k]).0@,
                    col_physical(first_fields(table@)[k].1),
                    batches@[k],
                ),
            forall|k: int|
                0 <= k < j ==> column_ok(
                    table@,
                    (#[trigger] first_fields(table@)[k]).0@,
                    col_physical(first_fields(table@)[k].1),
                ),
        decreases children@.len() - j,
    {
        let info = match &children[j] {
            SchemaNode::Primitive(info) => info,
            SchemaNode::Group { .. } => {
                proof {
                    assert(children@[j as int] is Primitive);
                    assert(false);
                }
                return Err(
                    BridgeError {
                        kind: ErrorKind::EmptyOrNonUniformTable,
                        message: String::new(),
                    },
                );
            },
        };
        proof {
            assert(info.name@ == first_fields(table@)[j as int].0@);
            assert(info.physical == col_physical(first_fields(table@)[j as int].1));
        }
        match build_column_batch(table, &info.name, &info.physical) {
            Ok(b) => batches.push(b),
            Err(e) => {
                proof {
                    assert(!column_ok(
                        table@,
                        first_fields(table@)[j as int].0@,
                        col_physical(first_fields(table@)[j as int].1),
                    ));
                    assert(column_error_rel(
                        table@,
                        first_fields(table@)[j as int].0@,
                        col_physical(first_fields(table@)[j as int].1),
                        e,
                    ));
                }
                return Err(e);
            },
        }
        j = j + 1;
    }
    Ok(WritePlan { schema, batches })
}

/// Every kind with an on-disk mapping maps to a physical type the
/// writer supports and to one of the converted tags the write path
/// uses.
pub proof fn lemma_inferred_writable(v: DynamicValue)
    ensures
        match inferred_column(v) {
            Some((p, c)) => writable_physical(p) && (c == ConvKind::NoConv || c == ConvKind::Utf8
                || c == ConvKind::DateConv),
            None => true,
        },
{
}

/// The number of values a batch carries.
pub open spec fn batch_len(b: ColumnBatch) -> int {
    match b {
        ColumnBatch::Bools(v) => v@.len() as int,
        ColumnBatch::Ints(v) => v@.len() as int,
        ColumnBatch::Doubles(v) => v@.len() as int,
        ColumnBatch::Texts(v) => v@.len() as int,
    }
}

/// Writing keeps the table's shape: a finished plan holds one required
/// schema column per key of the first row, in that row's key order and
/// under its names, and every column's batch holds exactly one value
/// per row of the table.
pub proof fn lemma_plan_keeps_shape(t: Seq<TableEntry>, plan: WritePlan)
    requires
        plan_rel(t, plan),
    ensures
        plan.schema matches SchemaNode::Group { children, .. } && children@.len() == first_fields(
            t,
        ).len() && (forall|j: int|
            0 <= j < children@.len() ==> (#[trigger] children@[j] matches SchemaNode::Primitive(
                info,
            ) && info.name@ == first_fields(t)[j].0@)),
        plan.batches@.len() == first_fields(t).len(),
        forall|j: int|
            0 <= j < plan.batches@.len() ==> batch_len(#[trigger] plan.batches@[j]) == t.len(),
{
    assert forall|j: int|
        0 <= j < plan.batches@.len() implies batch_len(#[trigger] plan.batches@[j])
        == t.len() by {
        assert(batch_rel(
            t,
            first_fields(t)[j].0@,
            col_physical(first_fields(t)[j].1),
            plan.batches@[j],
        ));
    }
}

} // verus!
