//! The metadata introspector: walks a file's descriptive structures
//! into one descriptive record, independent of the row decoder.

use vstd::prelude::*;
use vstd::string::StringExecFns;
use crate::schema::{SchemaNode, schema_meta_rel, schema_to_value};
use crate::value::MetaValue;

verus! {

/// The per-row-group statistics that the summary reports.
#[derive(Debug, Clone, Copy, PartialEq, Eq, Structural)]
pub struct RowGroupInfo {
    pub num_rows: i64,
    pub total_byte_size: i64,
}

/// Everything the summary reads from a parsed file: format version,
/// creator (absent when the file names none), total row count, custom
/// key/value pairs, the root schema node, and per-row-group statistics.
#[derive(Debug, PartialEq)]
pub struct FileInfo {
    pub version: i32,
    pub creator: Option<String>,
    pub num_rows: i64,
    pub key_values: Vec<(String, Option<String>)>,
    pub schema: SchemaNode,
    pub row_groups: Vec<RowGroupInfo>,
}

/// The text of an optional string as the summary reports it: empty
/// when absent.
pub open spec fn string_or_empty(c: Option<String>) -> Seq<char> {
    match c {
        Some(s) => s@,
        None => Seq::empty(),
    }
}

/// What the reported key/value list holds: one two-field record per
/// pair, in order; an absent value reports as the empty string.
pub open spec fn key_values_meta_rel(kvs: Seq<(String, Option<String>)>, m: MetaValue) -> bool {
    m matches MetaValue::List(ms) && ms@.len() == kvs.len() && (forall|i: int|
        0 <= i < kvs.len() ==> (#[trigger] ms@[i] matches MetaValue::Record(fs) && fs@.len() == 2
            && fs@[0].0@ == "key"@ && (fs@[0].1 matches MetaValue::Str(s) && s@ == kvs[i].0@)
            && fs@[1].0@ == "value"@ && (fs@[1].1 matches MetaValue::Str(s) && s@ == string_or_empty(
            kvs[i].1,
        ))))
}

/// What the reported row-group list holds: one two-field record per
/// row group, in order.
pub open spec fn row_groups_meta_rel(rgs: Seq<RowGroupInfo>, m: MetaValue) -> bool {
    m matches MetaValue::List(ms) && ms@.len() == rgs.len() && (forall|i: int|
        0 <= i < rgs.len() ==> (#[trigger] ms@[i] matches MetaValue::Record(fs) && fs@.len() == 2
            && fs@[0].0@ == "num_rows"@ && fs@[0].1 == MetaValue::Int(rgs[i].num_rows)
            && fs@[1].0@ == "total_byte_size"@ && fs@[1].1 == MetaValue::Int(
            rgs[i].total_byte_size,
        )))
}

/// What the whole summary record holds: its six fields, in order.
pub open spec fn summary_rel(info: FileInfo, m: MetaValue) -> bool {
    &&& m matches MetaValue::Record(fs) && {
        &&& fs@.len() == 6
        &&& fs@[0].0@ == "version"@
        &&& fs@[0].1 == MetaValue::Int(info.version as i64)
        &&& fs@[1].0@ == "creator"@
        &&& (fs@[1].1 matches MetaValue::Str(s) && s@ == string_or_empty(info.creator))
        &&& fs@[2].0@ == "num_rows"@
        &&& fs@[2].1 == MetaValue::Int(info.num_rows)
        &&& fs@[3].0@ == "key_values"@
        &&& key_values_meta_rel(info.key_values@, fs@[3].1)
        &&& fs@[4].0@ == "schema"@
        &&& schema_meta_rel(info.schema, fs@[4].1)
        &&& fs@[5].0@ == "row_groups"@
        &&& row_groups_meta_rel(info.row_groups@, fs@[5].1)
    }
}

/// Builds the reported key/value list.
fn key_values_to_value(kvs: &Vec<(String, Option<String>)>) -> (m: MetaValue)
    ensures
        key_values_meta_rel(kvs@, m),
{
    let mut ms: Vec<MetaValue> = Vec::new();
    let mut i: usize = 0;
    while i < kvs.len()
        invariant
            i <= kvs@.len(),
            ms@.len() == i,
            forall|j: int|
                0 <= j < i ==> (#[trigger] ms@[j] matches MetaValue::Record(fs) && fs@.len() == 2
                    && fs@[0].0@ == "key"@ && (fs@[0].1 matches MetaValue::Str(s) && s@
                    == kvs@[j].0@) && fs@[1].0@ == "value"@ && (fs@[1].1 matches MetaValue::Str(s)
                    && s@ == string_or_empty(kvs@[j].1))),
        decreases kvs@.len() - i,
    {
        let (key, value) = &kvs[i];
        let value_str: String = match value {
            Some(v) => v.clone(),
            None => String::new(),
        };
        let mut fs: Vec<(String, MetaValue)> = Vec::new();
        fs.push((String::from_str("key"), MetaValue::Str(key.clone())));
        fs.push((String::from_str("value"), MetaValue::Str(value_str)));
        ms.push(MetaValue::Record(fs));
        i = i + 1;
    }
    MetaValue::List(ms)
}

/// Builds the reported row-group list.
fn row_groups_to_value(rgs: &Vec<RowGroupInfo>) -> (m: MetaValue)
    ensures
        row_groups_meta_rel(rgs@, m),
{
    let mut ms: Vec<MetaValue> = Vec::new();
    let mut i: usize = 0;
    while i < rgs.len()
        invariant
            i <= rgs@.len(),
            ms@.len() == i,
            forall|j: int|
                0 <= j < i ==> (#[trigger] ms@[j] matches MetaValue::Record(fs) && fs@.len() == 2
                    && fs@[0].0@ == "num_rows"@ && fs@[0].1 == MetaValue::Int(rgs@[j].num_rows)
                    && fs@[1].0@ == "total_byte_size"@ && fs@[1].1 == MetaValue::Int(
                    rgs@[j].total_byte_size,
                )),
        decreases rgs@.len() - i,
    {
        let rg = &rgs[i];
        let mut fs: Vec<(String, MetaValue)> = Vec::new();
        fs.push((String::from_str("num_rows"), MetaValue::Int(rg.num_rows)));
        fs.push((String::from_str("total_byte_size"), MetaValue::Int(rg.total_byte_size)));
        ms.push(MetaValue::Record(fs));
        i = i + 1;
    }
    MetaValue::List(ms)
}

/// Builds the one descriptive record of a parsed file: version,
/// creator, total row count, custom pairs, the schema walk, and the
/// row-group statistics, in that order.
pub fn metadata_summary(info: &FileInfo) -> (m: MetaValue)
    ensures
        summary_rel(*info, m),
{
    let creator: String = match &info.creator {
        Some(s) => s.clone(),
        None => String::new(),
    };
    let mut fs: Vec<(String, MetaValue)> = Vec::new();
    fs.push((String::from_str("version"), MetaValue::Int(info.version as i64)));
    fs.push((String::from_str("creator"), MetaValue::Str(creator)));
    fs.push((String::from_str("num_rows"), MetaValue::Int(info.num_rows)));
    fs.push((String::from_str("key_values"), key_values_to_value(&info.key_values)));
    fs.push((String::from_str("schema"), schema_to_value(&info.schema)));
    fs.push((String::from_str("row_groups"), row_groups_to_value(&info.row_groups)));
    MetaValue::Record(fs)
}

/// The sum of the row counts of a file's row groups.
pub open spec fn sum_rows(rgs: Seq<RowGroupInfo>) -> int
    decreases rgs.len(),
{
    if rgs.len() == 0 {
        0
    } else {
        sum_rows(rgs.drop_last()) + rgs.last().num_rows
    }
}

/// The row count that one reported row-group record carries.
pub open spec fn reported_rg_rows(m: MetaValue) -> int {
    match m {
        MetaValue::Record(fs) => match fs@[0].1 {
            MetaValue::Int(n) => n as int,
            _ => 0,
        },
        _ => 0,
    }
}

/// The sum of the row counts over a reported row-group list.
pub open spec fn reported_rows_sum(ms: Seq<MetaValue>) -> int
    decreases ms.len(),
{
    if ms.len() == 0 {
        0
    } else {
        reported_rows_sum(ms.drop_last()) + reported_rg_rows(ms.last())
    }
}

/// A reported row-group list sums to the same row count as the
/// statistics it was built from.
proof fn lemma_reported_sum(rgs: Seq<RowGroupInfo>, ms: Seq<MetaValue>)
    requires
        ms.len() == rgs.len(),
        forall|i: int|
            0 <= i < rgs.len() ==> (#[trigger] ms[i] matches MetaValue::Record(fs) && fs@.len()
                == 2 && fs@[0].0@ == "num_rows"@ && fs@[0].1 == MetaValue::Int(rgs[i].num_rows)
                && fs@[1].0@ == "total_byte_size"@ && fs@[1].1 == MetaValue::Int(
                rgs[i].total_byte_size,
            )),
    ensures
        reported_rows_sum(ms) == sum_rows(rgs),
    decreases rgs.len(),
{
    if rgs.len() > 0 {
        lemma_reported_sum(rgs.drop_last(), ms.drop_last());
        assert(reported_rg_rows(ms.last()) == rgs.last().num_rows);
    }
}

/// For every valid file, one whose total row count is the sum of its
/// row groups' counts, the summary reports a `num_rows` equal to the
/// sum of `num_rows` across all reported row-group records.
pub proof fn lemma_summary_row_count(info: FileInfo, m: MetaValue)
    requires
        summary_rel(info, m),
        info.num_rows == sum_rows(info.row_groups@),
    ensures
        m matches MetaValue::Record(fs) && (fs@[2].1 matches MetaValue::Int(n)
            && fs@[5].1 matches MetaValue::List(ms) && n == reported_rows_sum(ms@)),
{
    let fs = m->Record_0;
    let ms = fs@[5].1->List_0;
    lemma_reported_sum(info.row_groups@, ms@);
}

} // verus!
