//! The columns a table scan reads: the projected fields, looked up in the
//! table's schema, with the time column always available.
use vstd::prelude::*;

use crate::column::{ColumnType, Encoding, TimeUnit};
use crate::schema::{TableColumn, TskvTableSchema, TIME_FIELD_NAME};
use crate::text::str_eq;

verus! {

/// Why a scan cannot be set up.
#[derive(Debug, Clone, PartialEq, Eq)]
pub enum ScanError {
    /// A projected field is not a column of the table.
    NotFoundField { reason: String },
}

pub open spec fn column_view(c: TableColumn) -> (u32, Seq<char>, ColumnType, Encoding) {
    (c.id, c.name@, c.column_type, c.encoding)
}

/// The time column a scan reads: id 0, named `time`, with the table's time
/// unit and encoding when the table has a time column of that name, and
/// nanoseconds with the default encoding otherwise.
pub open spec fn scan_time_column(schema: TskvTableSchema) -> (u32, Seq<char>, ColumnType, Encoding) {
    match schema.index().get(TIME_FIELD_NAME@) {
        Some(i) => (
            0,
            TIME_FIELD_NAME@,
            if schema.cols()[i].column_type is Time {
                schema.cols()[i].column_type
            } else {
                ColumnType::Time(TimeUnit::Nanosecond)
            },
            schema.cols()[i].encoding,
        ),
        None => (0, TIME_FIELD_NAME@, ColumnType::Time(TimeUnit::Nanosecond), Encoding::Default),
    }
}

/// The column a scan reads for a projected name, if the table has it.
pub open spec fn scan_column(schema: TskvTableSchema, name: Seq<char>) -> Option<
    (u32, Seq<char>, ColumnType, Encoding),
> {
    if name == TIME_FIELD_NAME@ {
        Some(scan_time_column(schema))
    } else {
        match schema.index().get(name) {
            Some(i) => Some(column_view(schema.cols()[i])),
            None => None,
        }
    }
}

/// The first projected name the table lacks.
pub open spec fn first_missing(schema: TskvTableSchema, names: Seq<Seq<char>>) -> Option<int>
    decreases names.len(),
{
    if names.len() == 0 {
        None
    } else {
        match first_missing(schema, names.drop_last()) {
            Some(i) => Some(i),
            None => if scan_column(schema, names.last()) is None {
                Some(names.len() - 1)
            } else {
                None
            },
        }
    }
}

pub open spec fn names_view(names: Seq<String>) -> Seq<Seq<char>> {
    names.map_values(|s: String| s@)
}

fn time_column_for_scan(schema: &TskvTableSchema) -> (r: TableColumn)
    requires
        schema.wf(),
    ensures
        column_view(r) == scan_time_column(*schema),
{
    match schema.column(TIME_FIELD_NAME) {
        Some(v) => {
            let column_type = if v.column_type.is_time() {
                v.column_type
            } else {
                ColumnType::Time(TimeUnit::Nanosecond)
            };
            TableColumn::new(0, TIME_FIELD_NAME.to_owned(), column_type, v.encoding)
        },
        None => TableColumn::new(
            0,
            TIME_FIELD_NAME.to_owned(),
            ColumnType::Time(TimeUnit::Nanosecond),
            Encoding::Default,
        ),
    }
}

/// The columns to read for the projected names, in order; the first name
/// the table lacks is the error.
pub fn scan_projection(schema: &TskvTableSchema, names: &Vec<String>) -> (r: Result<
    Vec<TableColumn>,
    ScanError,
>)
    requires
        schema.wf(),
    ensures
        match first_missing(*schema, names_view(names@)) {
            Some(i) => r matches Err(ScanError::NotFoundField { reason }) && reason@ == names@[i]@,
            None => r matches Ok(cols) && cols@.len() == names@.len() && forall|k: int|
                0 <= k < cols@.len() ==> Some(column_view(#[trigger] cols@[k])) == scan_column(
                    *schema,
                    names@[k]@,
                ),
        },
{
    let n = names.len();
    let mut cols: Vec<TableColumn> = Vec::new();
    let ghost nv = names_view(names@);
    let mut i: usize = 0;
    while i < n
        invariant
            schema.wf(),
            n == names@.len(),
            nv == names_view(names@),
            i <= n,
            first_missing(*schema, nv.take(i as int)) is None,
            cols@.len() == i,
            forall|k: int|
                0 <= k < i ==> Some(column_view(#[trigger] cols@[k])) == scan_column(
                    *schema,
                    names@[k]@,
                ),
        decreases n - i,
    {
        let name = names[i].as_str();
        proof {
            assert(nv.take(i as int + 1).drop_last() =~= nv.take(i as int));
            assert(nv.take(i as int + 1).last() == names@[i as int]@);
        }
        if str_eq(name, TIME_FIELD_NAME) {
            cols.push(time_column_for_scan(schema));
        } else {
            match schema.column(name) {
                Some(v) => {
                    cols.push(v.copied());
                },
                None => {
                    proof {
                        lemma_first_missing_extends(*schema, nv, i as int);
                    }
                    return Err(ScanError::NotFoundField { reason: names[i].clone() });
                },
            }
        }
        i = i + 1;
    }
    proof {
        assert(nv.take(n as int) =~= nv);
    }
    Ok(cols)
}

proof fn lemma_first_missing_extends(schema: TskvTableSchema, names: Seq<Seq<char>>, i: int)
    requires
        0 <= i < names.len(),
        first_missing(schema, names.take(i)) is None,
        scan_column(schema, names[i]) is None,
    ensures
        first_missing(schema, names) == Some(i),
    decreases names.len() - i,
{
    let t = names.take(i + 1);
    assert(t.drop_last() =~= names.take(i));
    assert(t.last() == names[i]);
    lemma_first_missing_prefix(schema, names, i + 1);
}

proof fn lemma_first_missing_prefix(schema: TskvTableSchema, names: Seq<Seq<char>>, k: int)
    requires
        0 <= k <= names.len(),
        first_missing(schema, names.take(k)) is Some,
    ensures
        first_missing(schema, names) == first_missing(schema, names.take(k)),
    decreases names.len() - k,
{
    if k < names.len() {
        assert(names.take(k + 1).drop_last() =~= names.take(k));
        lemma_first_missing_prefix(schema, names, k + 1);
    } else {
        assert(names.take(k) =~= names);
    }
}

} // verus!
