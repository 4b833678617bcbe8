//! Result-set shape: per-result-set column metadata, rows of host
//! values, and the two-armed execution result.
//!
//! A result set computes its [`ColumnInfo`] exactly once and every
//! row holds a shared reference to that one object; rows carry only
//! their own cells, so writing a cached cell of one row can never
//! touch another row.

use std::sync::Arc;
use vstd::prelude::*;
use vstd::pervasive::VecAdditionalExecFns;
use crate::bytes_util::str_eq;
use crate::errors::Error;
use crate::host_value::{HostValue, HostValueModel};
use crate::wire_tag::WireTag;

verus! {

/// The per-result-set column metadata: ordered column names and the
/// wire type tag of each column. Built once per result set and shared
/// by reference across all of its rows, never copied per row.
pub struct ColumnInfo {
    /// The column names, in result-set order.
    pub names: Vec<String>,
    /// The wire type tag of each column, aligned with `names`.
    pub tags: Vec<WireTag>,
}

/// The mathematical shape of a [`ColumnInfo`]: the name and tag of
/// each column, in order.
pub struct ColumnInfoModel {
    /// The column names.
    pub names: Seq<Seq<char>>,
    /// The wire type tags.
    pub tags: Seq<WireTag>,
}

impl View for ColumnInfo {
    type V = ColumnInfoModel;

    open spec fn view(&self) -> ColumnInfoModel {
        ColumnInfoModel {
            names: self.names@.map_values(|n: String| n@),
            tags: self.tags@,
        }
    }
}

impl ColumnInfoModel {
    /// One tag per name.
    pub open spec fn wf(&self) -> bool {
        self.names.len() == self.tags.len()
    }

    /// The index of the first column carrying `name`, if any.
    pub open spec fn index_of(&self, name: Seq<char>) -> Option<int> {
        if exists|i: int| 0 <= i < self.names.len() && self.names[i] == name {
            Some(choose|i: int| 0 <= i < self.names.len() && self.names[i] == name && forall|k: int|
                0 <= k < i ==> self.names[k] != name)
        } else {
            None
        }
    }
}

impl ColumnInfo {
    /// Builds the metadata of one result set from aligned names and
    /// tags.
    pub fn new(names: Vec<String>, tags: Vec<WireTag>) -> (r: ColumnInfo)
        requires
            names@.len() == tags@.len(),
        ensures
            r@.wf(),
            r@.names == names@.map_values(|n: String| n@),
            r@.tags == tags@,
    {
        ColumnInfo { names, tags }
    }

    /// The number of columns.
    pub fn len(&self) -> (r: usize)
        ensures
            r == self@.names.len(),
    {
        self.names.len()
    }

    /// The name of the column at `index`.
    pub fn name_at(&self, index: usize) -> (r: String)
        requires
            index < self@.names.len(),
        ensures
            r@ == self@.names[index as int],
    {
        self.names[index].clone()
    }

    /// The wire tag of the column at `index`.
    pub fn tag_at(&self, index: usize) -> (r: WireTag)
        requires
            self@.wf(),
            index < self@.names.len(),
        ensures
            r == self@.tags[index as int],
    {
        self.tags[index]
    }

    /// The index of the first column named `name`: present exactly
    /// when some column carries that name.
    pub fn name_index(&self, name: &str) -> (r: Option<usize>)
        ensures
            r matches Some(i) ==> {
                &&& i < self@.names.len()
                &&& self@.names[i as int] == name@
                &&& forall|k: int| 0 <= k < i ==> self@.names[k] != name@
            },
            r is None ==> forall|k: int| 0 <= k < self@.names.len() ==> self@.names[k] != name@,
    {
        let n = self.names.len();
        let mut i: usize = 0;
        while i < n
            invariant
                n == self@.names.len(),
                n == self.names@.len(),
                i <= n,
                forall|k: int| 0 <= k < i ==> self@.names[k] != name@,
            decreases n - i,
        {
            if str_eq(self.names[i].as_str(), name) {
                proof {
                    assert(self@.names[i as int] == self.names@[i as int]@);
                }
                return Some(i);
            }
            proof {
                assert(self@.names[i as int] == self.names@[i as int]@);
            }
            i = i + 1;
        }
        None
    }

    /// All column names, in order.
    pub fn column_names(&self) -> (r: Vec<String>)
        ensures
            r@.map_values(|n: String| n@) == self@.names,
    {
        let n = self.names.len();
        let mut out: Vec<String> = Vec::new();
        let mut i: usize = 0;
        while i < n
            invariant
                n == self.names@.len(),
                i <= n,
                out@.len() == i,
                forall|k: int| 0 <= k < i ==> out@[k]@ == self.names@[k]@,
            decreases n - i,
        {
            out.push(self.names[i].clone());
            i = i + 1;
        }
        proof {
            assert(out@.map_values(|s: String| s@) =~= self@.names);
        }
        out
    }
}

/// One materialized row: its cells, plus a shared reference to the
/// column metadata of its result set.
pub struct Row {
    /// The result set's one schema object, shared by every row.
    pub schema: Arc<ColumnInfo>,
    /// The cells of this row, in column order; owned by this row
    /// alone.
    pub values: Vec<HostValue>,
}

/// The mathematical shape of a [`Row`].
pub struct RowModel {
    /// The schema of the result set the row belongs to.
    pub schema: ColumnInfoModel,
    /// The models of the row's cells.
    pub values: Seq<HostValueModel>,
}

impl View for Row {
    type V = RowModel;

    open spec fn view(&self) -> RowModel {
        RowModel { schema: self.schema@, values: self.values@.map_values(|v: HostValue| v@) }
    }
}

impl RowModel {
    /// As many cells as columns, over a well-formed schema.
    pub open spec fn wf(&self) -> bool {
        self.schema.wf() && self.values.len() == self.schema.names.len()
    }
}

/// Relies on Arc::clone: the handle it returns shares the very same
/// schema object, which is how every row of a result set sees one
/// [`ColumnInfo`].
#[verifier::external_body]
fn share_schema(schema: &Arc<ColumnInfo>) -> (r: Arc<ColumnInfo>)
    ensures
        r == *schema,
{
    Arc::clone(schema)
}

impl Row {
    /// Builds a row over the shared schema of its result set.
    pub fn new(schema: &Arc<ColumnInfo>, values: Vec<HostValue>) -> (r: Row)
        requires
            schema@.wf(),
            values@.len() == schema@.names.len(),
        ensures
            r@.wf(),
            r@.schema == schema@,
            r@.values == values@.map_values(|v: HostValue| v@),
    {
        Row { schema: share_schema(schema), values }
    }

    /// The shared schema handle of this row; two rows of one result
    /// set hand back handles to the same object.
    pub fn schema_handle(&self) -> (r: &Arc<ColumnInfo>)
        ensures
            r@ == self@.schema,
    {
        &self.schema
    }

    /// The number of columns.
    pub fn len(&self) -> (r: usize)
        requires
            self@.wf(),
        ensures
            r == self@.values.len(),
    {
        self.values.len()
    }

    /// All column names, in order.
    pub fn columns(&self) -> (r: Vec<String>)
        ensures
            r@.map_values(|n: String| n@) == self@.schema.names,
    {
        self.schema.column_names()
    }

    /// The cell under the first column named `column`; a missing name
    /// is a distinct error, never a silent NULL.
    pub fn get(&self, column: &str) -> (r: Result<HostValue, Error>)
        requires
            self@.wf(),
        ensures
            r is Ok <==> self@.schema.index_of(column@) is Some,
            r matches Ok(v) ==> (self@.schema.index_of(column@) matches Some(i) && v@
                == self@.values[i]),
            r matches Err(e) ==> e is TypeConversion,
    {
        let found = self.schema.name_index(column);
        match found {
            Some(i) => {
                proof {
                    let j = choose|j: int|
                        0 <= j < self@.schema.names.len() && self@.schema.names[j] == column@
                            && forall|k: int| 0 <= k < j ==> self@.schema.names[k] != column@;
                    assert(self@.schema.index_of(column@) == Some(j));
                    assert(j == i as int) by {
                        if j < i as int {
                            assert(self@.schema.names[j] != column@);
                        }
                        if (i as int) < j {
                            assert(self@.schema.names[i as int] != column@);
                        }
                    }
                }
                Ok(self.values[i].duplicate())
            },
            None => {
                let mut msg = String::from_str("column not found: ");
                msg.append(column);
                proof {
                    assert(self@.schema.index_of(column@) is None);
                }
                Err(Error::TypeConversion(msg))
            },
        }
    }

    /// The cell at `index`; an index beyond the row is a distinct
    /// error, never a silent NULL.
    pub fn get_by_index(&self, index: usize) -> (r: Result<HostValue, Error>)
        requires
            self@.wf(),
        ensures
            r is Ok <==> index < self@.values.len(),
            r matches Ok(v) ==> v@ == self@.values[index as int],
            r matches Err(e) ==> e is TypeConversion,
    {
        if index < self.values.len() {
            Ok(self.values[index].duplicate())
        } else {
            Err(Error::TypeConversion(String::from_str("column index out of range")))
        }
    }

    /// All cells, in column order.
    pub fn values(&self) -> (r: Vec<HostValue>)
        ensures
            r@.map_values(|v: HostValue| v@) == self@.values,
    {
        let n = self.values.len();
        let mut out: Vec<HostValue> = Vec::new();
        let mut i: usize = 0;
        while i < n
            invariant
                n == self.values@.len(),
                i <= n,
                out@.len() == i,
                forall|k: int| 0 <= k < i ==> out@[k]@ == self.values@[k]@,
            decreases n - i,
        {
            out.push(self.values[i].duplicate());
            i = i + 1;
        }
        proof {
            assert(out@.map_values(|v: HostValue| v@) =~= self@.values);
        }
        out
    }

    /// Name/cell pairs, in column order.
    pub fn to_pairs(&self) -> (r: Vec<(String, HostValue)>)
        requires
            self@.wf(),
        ensures
            r@.len() == self@.values.len(),
            forall|k: int| 0 <= k < r@.len() ==> (#[trigger] r@[k]).0@ == self@.schema.names[k]
                && r@[k].1@ == self@.values[k],
    {
        let n = self.values.len();
        let mut out: Vec<(String, HostValue)> = Vec::new();
        let mut i: usize = 0;
        while i < n
            invariant
                self@.wf(),
                n == self.values@.len(),
                n == self@.values.len(),
                i <= n,
                out@.len() == i,
                forall|k: int| 0 <= k < i ==> (#[trigger] out@[k]).0@ == self@.schema.names[k]
                    && out@[k].1@ == self@.values[k],
            decreases n - i,
        {
            let name = self.schema.name_at(i);
            let value = self.values[i].duplicate();
            out.push((name, value));
            proof {
                assert(out@[i as int].0 == name);
                assert(name@ == self@.schema.names[i as int]);
                assert(out@[i as int].1@ == self@.values[i as int]);
            }
            i = i + 1;
        }
        out
    }

    /// Overwrites one cached cell of this row; every other cell and
    /// every other row's cells are untouched, since a row owns its
    /// cells alone.
    pub fn set_value(&mut self, index: usize, value: HostValue)
        requires
            index < old(self)@.values.len(),
        ensures
            final(self)@.schema == old(self)@.schema,
            final(self)@.values == old(self)@.values.update(index as int, value@),
    {
        self.values.set(index, value);
        proof {
            assert(final(self)@.values =~= old(self)@.values.update(index as int, value@));
        }
    }
}

/// All rows of one result set: each references the one shared schema.
pub struct ResultSet {
    /// The schema, built exactly once per result set.
    pub schema: Arc<ColumnInfo>,
    /// The rows; every row's `schema` is this very object.
    pub rows: Vec<Row>,
}

/// The mathematical shape of a [`ResultSet`].
pub struct ResultSetModel {
    /// The shared schema.
    pub schema: ColumnInfoModel,
    /// The cells of each row.
    pub rows: Seq<Seq<HostValueModel>>,
}

impl View for ResultSet {
    type V = ResultSetModel;

    open spec fn view(&self) -> ResultSetModel {
        ResultSetModel {
            schema: self.schema@,
            rows: self.rows@.map_values(|r: Row| r@.values),
        }
    }
}

impl ResultSetModel {
    /// Every row has one cell per column.
    pub open spec fn wf(&self) -> bool {
        &&& self.schema.wf()
        &&& forall|i: int| 0 <= i < self.rows.len() ==> (#[trigger] self.rows[i]).len()
            == self.schema.names.len()
    }
}

impl ResultSet {
    /// Every row references the result set's one schema object.
    pub open spec fn shares_schema(&self) -> bool {
        forall|i: int| 0 <= i < self.rows@.len() ==> (#[trigger] self.rows@[i]).schema@
            == self.schema@
    }

    /// The number of rows.
    pub fn row_count(&self) -> (r: usize)
        ensures
            r == self@.rows.len(),
    {
        self.rows.len()
    }

    /// A shared handle to the one schema object.
    pub fn schema_handle(&self) -> (r: &Arc<ColumnInfo>)
        ensures
            r@ == self@.schema,
    {
        &self.schema
    }

    /// The row at `index`.
    pub fn row_at(&self, index: usize) -> (r: &Row)
        requires
            self.shares_schema(),
            index < self@.rows.len(),
        ensures
            r@.values == self@.rows[index as int],
            r@.schema == self@.schema,
    {
        &self.rows[index]
    }

    /// Overwrites one cached cell of one row; every other row of the
    /// result set is untouched.
    pub fn set_cell(&mut self, row: usize, column: usize, value: HostValue)
        requires
            row < old(self)@.rows.len(),
            column < old(self)@.rows[row as int].len(),
        ensures
            final(self)@.schema == old(self)@.schema,
            final(self)@.rows.len() == old(self)@.rows.len(),
            final(self)@.rows[row as int] == old(self)@.rows[row as int].update(
                column as int,
                value@,
            ),
            forall|i: int| 0 <= i < old(self)@.rows.len() && i != row ==> final(self)@.rows[i]
                == old(self)@.rows[i],
            old(self).shares_schema() ==> final(self).shares_schema(),
            old(self)@.wf() ==> final(self)@.wf(),
    {
        let ghost rows0 = self.rows@;
        let mut tmp = Row { schema: share_schema(&self.schema), values: Vec::new() };
        self.rows.set_and_swap(row, &mut tmp);
        proof {
            assert(tmp@.values == old(self)@.rows[row as int]) by {
                assert(tmp == rows0[row as int]);
            }
        }
        tmp.set_value(column, value);
        self.rows.set_and_swap(row, &mut tmp);
        proof {
            assert(self.rows@[row as int]@.values == old(self)@.rows[row as int].update(
                column as int,
                value@,
            ));
            assert(final(self)@.rows[row as int] == old(self)@.rows[row as int].update(
                column as int,
                value@,
            ));
            assert forall|i: int|
                0 <= i < old(self)@.rows.len() && i != row implies final(self)@.rows[i] == old(
                self,
            )@.rows[i] by {
                assert(self.rows@[i] == rows0[i]);
            }
            if old(self).shares_schema() {
                assert forall|i: int|
                    0 <= i < self.rows@.len() implies (#[trigger] self.rows@[i]).schema@
                    == self.schema@ by {
                    if i != row {
                        assert(self.rows@[i] == rows0[i]);
                    }
                }
            }
            if old(self)@.wf() {
                assert forall|i: int|
                    0 <= i < self@.rows.len() implies (#[trigger] self@.rows[i]).len()
                    == self@.schema.names.len() by {
                    if i != row {
                        assert(self@.rows[i] == old(self)@.rows[i]);
                    }
                }
            }
        }
    }
}

/// The outcome of executing a statement batch: a row set or an
/// affected-row count — never both, never neither.
pub enum ExecutionResult {
    /// The batch produced a result set.
    Rows(ResultSet),
    /// The batch reported only a summed affected-row count.
    Affected(u64),
}

impl ExecutionResult {
    /// True exactly when a result set came back *and* it is
    /// non-empty. An empty result set answers false: a batch the
    /// classifier routed to the query path by mistake degrades to a
    /// falsy, zero-row answer rather than an error. To test the arm
    /// itself, use [`ExecutionResult::rows`].
    pub fn has_rows(&self) -> (r: bool)
        ensures
            r == (self matches ExecutionResult::Rows(rs) && rs@.rows.len() > 0),
    {
        match self {
            ExecutionResult::Rows(rs) => rs.row_count() > 0,
            ExecutionResult::Affected(_) => false,
        }
    }

    /// True exactly on the affected-count arm.
    pub fn has_affected_count(&self) -> (r: bool)
        ensures
            r == (self is Affected),
    {
        matches!(self, ExecutionResult::Affected(_))
    }

    /// The affected count, on that arm alone.
    pub fn affected_rows(&self) -> (r: Option<u64>)
        ensures
            r matches Some(c) ==> self matches ExecutionResult::Affected(a) && a == c,
            r is None <==> self is Rows,
    {
        match self {
            ExecutionResult::Affected(c) => Some(*c),
            ExecutionResult::Rows(_) => None,
        }
    }

    /// The row set, on that arm alone.
    pub fn rows(&self) -> (r: Option<&ResultSet>)
        ensures
            r matches Some(rs) ==> self matches ExecutionResult::Rows(inner) && rs@ == inner@,
            r is None <==> self is Affected,
    {
        match self {
            ExecutionResult::Rows(rs) => Some(rs),
            ExecutionResult::Affected(_) => None,
        }
    }

    /// The number of returned rows; zero on the affected-count arm.
    pub fn row_count(&self) -> (r: usize)
        ensures
            self matches ExecutionResult::Rows(rs) ==> r == rs@.rows.len(),
            self is Affected ==> r == 0,
    {
        match self {
            ExecutionResult::Rows(rs) => rs.row_count(),
            ExecutionResult::Affected(_) => 0,
        }
    }
}

} // verus!
