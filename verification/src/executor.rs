//! The generic execution layer that sits on top of the chosen connection:
//! positional parameter binding through the value codec, and materialization
//! of a full result set plus the connection-level counters into the
//! external-facing result shape.
use vstd::prelude::*;

use crate::value::{
    spec_to_external, spec_to_sql, to_external, to_sql, ExternalValue, SqlValue,
};
use crate::DbError;

verus! {

/// A fully materialized result set: the ordered column names, one external
/// row per returned engine row with the column order preserved, and the
/// connection-level counters read immediately after the statement completed.
///
/// Invariant: every row holds exactly one cell per column.
#[derive(Debug, Clone, PartialEq, Eq)]
pub struct QueryResult {
    pub columns: Vec<String>,
    pub rows: Vec<Vec<ExternalValue>>,
    pub rows_affected: u64,
    pub last_insert_rowid: i64,
}

impl QueryResult {
    /// Well-formedness: every row's length equals the column count.
    pub open spec fn wf(self) -> bool {
        forall|i: int| 0 <= i < self.rows@.len() ==> #[trigger] self.rows@[i]@.len()
            == self.columns@.len()
    }
}

/// One statement of a batch: opaque SQL text plus its ordered positional
/// arguments, if any.
#[derive(Debug, Clone, PartialEq, Eq)]
pub struct BatchStatement {
    pub sql: String,
    pub args: Option<Vec<ExternalValue>>,
}

/// Converts the ordered argument list to the SQL values it binds as, in
/// order: argument `i` binds to the `i`-th placeholder of the statement.
pub fn bind_args(args: Vec<ExternalValue>) -> (r: Vec<SqlValue>)
    ensures
        r@.len() == args@.len(),
        forall|i: int| 0 <= i < args@.len() ==> #[trigger] r@[i]@ == spec_to_sql(args@[i]@),
{
    let ghost orig = args@;
    let mut rest = args;
    let mut out: Vec<SqlValue> = Vec::new();
    while rest.len() > 0
        invariant
            out@.len() + rest@.len() == orig.len(),
            rest@ == orig.subrange(out@.len() as int, orig.len() as int),
            forall|i: int| 0 <= i < out@.len() ==> #[trigger] out@[i]@ == spec_to_sql(orig[i]@),
        decreases rest@.len(),
    {
        let v = rest.remove(0);
        out.push(to_sql(v));
        proof {
            assert(rest@ =~= orig.subrange(out@.len() as int, orig.len() as int));
        }
    }
    out
}

/// Converts one returned engine row back to its external representation,
/// preserving the cell order.
pub fn decode_row(cells: Vec<SqlValue>) -> (r: Vec<ExternalValue>)
    ensures
        r@.len() == cells@.len(),
        forall|j: int| 0 <= j < cells@.len() ==> #[trigger] r@[j]@ == spec_to_external(cells@[j]@),
{
    let ghost orig = cells@;
    let mut rest = cells;
    let mut out: Vec<ExternalValue> = Vec::new();
    while rest.len() > 0
        invariant
            out@.len() + rest@.len() == orig.len(),
            rest@ == orig.subrange(out@.len() as int, orig.len() as int),
            forall|j: int| 0 <= j < out@.len() ==> #[trigger] out@[j]@ == spec_to_external(
                orig[j]@,
            ),
        decreases rest@.len(),
    {
        let v = rest.remove(0);
        out.push(to_external(v));
        proof {
            assert(rest@ =~= orig.subrange(out@.len() as int, orig.len() as int));
        }
    }
    out
}

/// Assembles the external-facing result from what the engine handed back:
/// the column names read before any row was consumed, the drained raw rows,
/// and the two connection-level counters read after full consumption.
///
/// Succeeds exactly when every raw row holds one cell per column (which the
/// engine guarantees for rows it produced); the assembled result then holds
/// the converted rows in order and satisfies the row-length invariant.
#[verifier::loop_isolation(false)]
pub fn assemble_result(
    columns: Vec<String>,
    raw_rows: Vec<Vec<SqlValue>>,
    rows_affected: u64,
    last_insert_rowid: i64,
) -> (r: Result<QueryResult, DbError>)
    ensures
        r is Ok <==> (forall|i: int| 0 <= i < raw_rows@.len() ==> #[trigger] raw_rows@[i]@.len()
            == columns@.len()),
        r matches Ok(qr) ==> {
            &&& qr.wf()
            &&& qr.columns == columns
            &&& qr.rows@.len() == raw_rows@.len()
            &&& forall|i: int, j: int|
                0 <= i < raw_rows@.len() && 0 <= j < raw_rows@[i]@.len()
                    ==> #[trigger] qr.rows@[i]@[j]@ == spec_to_external(raw_rows@[i]@[j]@)
            &&& qr.rows_affected == rows_affected
            &&& qr.last_insert_rowid == last_insert_rowid
        },
        r matches Err(e) ==> (e matches DbError::Execution { detail } && detail@
            == "row length does not match the column count"@),
{
    let ghost orig = raw_rows@;
    let mut rest = raw_rows;
    let mut rows: Vec<Vec<ExternalValue>> = Vec::new();
    while rest.len() > 0
        invariant
            rows@.len() + rest@.len() == orig.len(),
            rest@ == orig.subrange(rows@.len() as int, orig.len() as int),
            forall|i: int| 0 <= i < rows@.len() ==> #[trigger] orig[i]@.len() == columns@.len(),
            forall|i: int| 0 <= i < rows@.len() ==> #[trigger] rows@[i]@.len() == columns@.len(),
            forall|i: int, j: int|
                0 <= i < rows@.len() && 0 <= j < orig[i]@.len() ==> #[trigger] rows@[i]@[j]@
                    == spec_to_external(orig[i]@[j]@),
        decreases rest@.len(),
    {
        let raw = rest.remove(0);
        if raw.len() != columns.len() {
            proof {
                assert(raw@ == orig[rows@.len() as int]@);
                assert(orig[rows@.len() as int]@.len() != columns@.len());
            }
            return Err(
                DbError::Execution {
                    detail: String::from_str("row length does not match the column count"),
                },
            );
        }
        rows.push(decode_row(raw));
        proof {
            assert(rest@ =~= orig.subrange(rows@.len() as int, orig.len() as int));
        }
    }
    Ok(QueryResult { columns, rows, rows_affected, last_insert_rowid })
}

} // verus!
