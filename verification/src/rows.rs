//! Query result rows.
//!
//! The local execution engine is an external collaborator: what this
//! crate reasons about is the engine's visible output, modelled as a
//! prepared statement holding the column names and the grid of result
//! values the engine produced, together with the engine's step codes.

use vstd::prelude::*;

use crate::errors::Error;
use crate::params::{type_of_value, Value, ValueModel, ValueRef, ValueType};

verus! {

/// Engine step code: the operation succeeded without producing a row.
pub const SQLITE_OK: i32 = 0;

/// Engine step code: a result row is available.
pub const SQLITE_ROW: i32 = 100;

/// Engine step code: the statement has run to completion.
pub const SQLITE_DONE: i32 = 101;

/// Engine column-type code for an integer value.
pub const SQLITE_INTEGER: i32 = 1;

/// Engine column-type code for a real value.
pub const SQLITE_FLOAT: i32 = 2;

/// Engine column-type code for a text value.
pub const SQLITE_TEXT: i32 = 3;

/// Engine column-type code for a blob value.
pub const SQLITE_BLOB: i32 = 4;

/// Engine column-type code for a null value.
pub const SQLITE_NULL: i32 = 5;

/// The engine's raw column-type code of a value.
pub open spec fn type_code_of(v: ValueModel) -> i32 {
    match v {
        ValueModel::Null => SQLITE_NULL,
        ValueModel::Integer(_) => SQLITE_INTEGER,
        ValueModel::Real(_) => SQLITE_FLOAT,
        ValueModel::Text(_) => SQLITE_TEXT,
        ValueModel::Blob(_) => SQLITE_BLOB,
    }
}

/// A prepared statement together with the result the engine produced
/// for it: the column names and the grid of rows not yet consumed.
#[derive(Debug)]
pub struct Statement {
    pub sql: String,
    pub cols: Vec<String>,
    pub grid: Vec<Vec<Value>>,
}

impl Statement {
    /// Shape invariant: the column count fits the engine's index type
    /// and every row is exactly as wide as the column list.
    pub open spec fn wf(&self) -> bool {
        &&& self.cols@.len() <= i32::MAX
        &&& forall|i: int|
            0 <= i < self.grid@.len() ==> (#[trigger] self.grid@[i])@.len() == self.cols@.len()
    }

    /// Wraps an engine result of well-formed shape.
    pub fn new(sql: String, cols: Vec<String>, grid: Vec<Vec<Value>>) -> (r: Statement)
        requires
            cols@.len() <= i32::MAX,
            forall|i: int| 0 <= i < grid@.len() ==> (#[trigger] grid@[i])@.len() == cols@.len(),
        ensures
            r.sql == sql,
            r.cols == cols,
            r.grid == grid,
            r.wf(),
    {
        Statement { sql, cols, grid }
    }
}

/// One result row, detached from the cursor that produced it.
#[derive(Debug)]
pub struct Row {
    pub cols: Vec<String>,
    pub values: Vec<Value>,
}

/// Result rows: a cursor over the statement's remaining grid, plus the
/// engine code of a step already performed but not yet consumed.
#[derive(Debug)]
pub struct Rows {
    pub stmt: Statement,
    pub err: Option<i32>,
}

/// `r` handed out the first remaining row of `pre`, leaving `post`.
pub open spec fn took_first_row(pre: Rows, post: Rows, r: Result<Option<Row>, Error>) -> bool {
    &&& post.stmt.grid.deep_view() == pre.stmt.grid.deep_view().drop_first()
    &&& r matches Ok(ro) && ro matches Some(row) && row.cols.deep_view()
        == pre.stmt.cols.deep_view() && row.values.deep_view() == pre.stmt.grid.deep_view()[0]
}

/// Copies the column names of an engine result.
fn clone_cols(cols: &Vec<String>) -> (r: Vec<String>)
    ensures
        r.deep_view() == cols.deep_view(),
        r@.len() == cols@.len(),
{
    let r = cols.clone();
    proof {
        assert forall|i: int| 0 <= i < r.deep_view().len() implies #[trigger] r.deep_view()[i]
            == cols.deep_view()[i] by {
            assert(cloned::<String>(cols@[i], r@[i]));
        }
        assert(r.deep_view() =~= cols.deep_view());
    }
    r
}

impl Rows {
    /// Shape invariant: the statement is well-formed and a pending
    /// row-available code really has a row behind it.
    pub open spec fn wf(&self) -> bool {
        &&& self.stmt.wf()
        &&& self.err == Some(SQLITE_ROW) ==> self.stmt.grid@.len() > 0
    }

    /// A cursor at the start of a statement's result.
    pub fn new(stmt: Statement) -> (r: Rows)
        ensures
            r.stmt == stmt,
            r.err is None,
            stmt.wf() ==> r.wf(),
    {
        Rows { stmt, err: None }
    }

    /// A cursor whose first engine step has already happened and
    /// reported `code`.
    pub fn with_step_result(stmt: Statement, code: i32) -> (r: Rows)
        requires
            code == SQLITE_ROW ==> stmt.grid@.len() > 0,
        ensures
            r.stmt == stmt,
            r.err == Some(code),
            stmt.wf() ==> r.wf(),
    {
        Rows { stmt, err: Some(code) }
    }

    /// Steps the cursor. A stored non-row engine code surfaces as
    /// `FetchRowFailed` with that code; `Ok(None)` means the result is
    /// exhausted; otherwise the first remaining row is handed out and
    /// removed from the cursor.
    pub fn next(&mut self) -> (r: Result<Option<Row>, Error>)
        requires
            old(self).wf(),
        ensures
            final(self).wf(),
            final(self).err is None,
            final(self).stmt.sql == old(self).stmt.sql,
            final(self).stmt.cols == old(self).stmt.cols,
            match old(self).err {
                Some(c) => {
                    if c == SQLITE_OK || c == SQLITE_DONE {
                        r == Ok::<Option<Row>, Error>(None) && final(self).stmt == old(self).stmt
                    } else if c == SQLITE_ROW {
                        took_first_row(*old(self), *final(self), r)
                    } else {
                        r == Err::<Option<Row>, Error>(Error::FetchRowFailed(c)) && final(self).stmt
                            == old(self).stmt
                    }
                },
                None => {
                    if old(self).stmt.grid@.len() > 0 {
                        took_first_row(*old(self), *final(self), r)
                    } else {
                        r == Ok::<Option<Row>, Error>(None) && final(self).stmt == old(self).stmt
                    }
                },
            },
    {
        let code = match self.err {
            Some(c) => {
                self.err = None;
                c
            },
            None => {
                if self.stmt.grid.len() > 0 {
                    SQLITE_ROW
                } else {
                    SQLITE_DONE
                }
            },
        };
        if code == SQLITE_OK || code == SQLITE_DONE {
            Ok(None)
        } else if code == SQLITE_ROW {
            let values = self.stmt.grid.remove(0);
            let cols = clone_cols(&self.stmt.cols);
            proof {
                assert(self.stmt.grid.deep_view() =~= old(self).stmt.grid.deep_view().drop_first());
            }
            Ok(Some(Row { cols, values }))
        } else {
            Err(Error::FetchRowFailed(code))
        }
    }

    /// How many columns the result has.
    pub fn column_count(&self) -> (r: i32)
        requires
            self.wf(),
        ensures
            r == self.stmt.cols@.len(),
    {
        self.stmt.cols.len() as i32
    }

    /// The name of a column.
    pub fn column_name(&self, idx: i32) -> (r: &str)
        requires
            0 <= idx < self.stmt.cols@.len(),
        ensures
            r@ == self.stmt.cols.deep_view()[idx as int],
    {
        self.stmt.cols[idx as usize].as_str()
    }

    /// The engine's raw type code of a column of the current row, or
    /// the null code once the result is exhausted.
    pub fn column_type(&self, idx: i32) -> (r: i32)
        requires
            self.wf(),
            0 <= idx < self.stmt.cols@.len(),
        ensures
            self.stmt.grid@.len() > 0 ==> r == type_code_of(
                self.stmt.grid.deep_view()[0][idx as int],
            ),
            self.stmt.grid@.len() == 0 ==> r == SQLITE_NULL,
    {
        if self.stmt.grid.len() == 0 {
            return SQLITE_NULL;
        }
        match &self.stmt.grid[0][idx as usize] {
            Value::Null => SQLITE_NULL,
            Value::Integer(_) => SQLITE_INTEGER,
            Value::Real(_) => SQLITE_FLOAT,
            Value::Text(_) => SQLITE_TEXT,
            Value::Blob(_) => SQLITE_BLOB,
        }
    }

    /// The statement behind this cursor.
    pub fn as_ref(&self) -> (r: &Statement)
        ensures
            r == self.stmt,
    {
        &self.stmt
    }
}

impl<'a> View for ValueRef<'a> {
    type V = ValueModel;

    open spec fn view(&self) -> ValueModel {
        match self {
            ValueRef::Null => ValueModel::Null,
            ValueRef::Integer(i) => ValueModel::Integer(*i),
            ValueRef::Real(b) => ValueModel::Real(*b),
            ValueRef::Text(s) => ValueModel::Text(s@),
            ValueRef::Blob(b) => ValueModel::Blob(b@),
        }
    }
}

impl Row {
    /// Shape invariant: the row is as wide as its column list and both
    /// fit the engine's index type.
    pub open spec fn wf(&self) -> bool {
        &&& self.values@.len() == self.cols@.len()
        &&& self.cols@.len() <= i32::MAX
    }

    /// The value of a column, as an owned value.
    pub fn get_value(&self, idx: i32) -> (r: Result<Value, Error>)
        requires
            0 <= idx < self.values@.len(),
        ensures
            r matches Ok(v) && v@ == self.values.deep_view()[idx as int],
    {
        Ok(self.values[idx as usize].clone())
    }

    /// The type of a column of this row.
    pub fn column_type(&self, idx: i32) -> (r: Result<ValueType, Error>)
        requires
            0 <= idx < self.values@.len(),
        ensures
            r == Ok::<ValueType, Error>(type_of_value(self.values.deep_view()[idx as int])),
    {
        Ok(self.values[idx as usize].value_type())
    }

    /// The name of a column.
    pub fn column_name(&self, idx: i32) -> (r: &str)
        requires
            0 <= idx < self.cols@.len(),
        ensures
            r@ == self.cols.deep_view()[idx as int],
    {
        self.cols[idx as usize].as_str()
    }

    /// The value of a column, borrowed.
    pub fn get_ref(&self, idx: i32) -> (r: Result<ValueRef<'_>, Error>)
        requires
            0 <= idx < self.values@.len(),
        ensures
            r matches Ok(v) && v@ == self.values.deep_view()[idx as int],
    {
        let v = match &self.values[idx as usize] {
            Value::Null => ValueRef::Null,
            Value::Integer(i) => ValueRef::Integer(*i),
            Value::Real(b) => ValueRef::Real(*b),
            Value::Text(s) => ValueRef::Text(s.as_str()),
            Value::Blob(b) => ValueRef::Blob(b.as_slice()),
        };
        Ok(v)
    }
}

/// Result rows paired with a caller-supplied mapping over each row.
pub struct MappedRows<F> {
    pub rows: Rows,
    pub map: F,
}

impl<F> MappedRows<F> {
    /// Pairs a cursor with a row mapping.
    pub fn new(rows: Rows, map: F) -> (r: Self)
        ensures
            r.rows == rows,
            r.map == map,
    {
        Self { rows, map }
    }
}

} // verus!
