//! The calls into SQLite. Nothing here is proved: each function states what
//! the underlying call is taken to do, and the rest of the crate is verified
//! against those statements.

use vstd::prelude::*;
use crate::value::{SqlValue, SqlValueView};

verus! {

/// `rusqlite::Connection`: an open database. Opaque here.
#[verifier::external_type_specification]
#[verifier::external_body]
pub struct ExConnection(rusqlite::Connection);

/// `rusqlite::Statement`: a compiled statement. Opaque here.
#[verifier::external_type_specification]
#[verifier::external_body]
pub struct ExStatement<'conn>(rusqlite::Statement<'conn>);

/// `rusqlite::Savepoint`: an open savepoint. Opaque here.
#[verifier::external_type_specification]
#[verifier::external_body]
pub struct ExSavepoint<'conn>(rusqlite::Savepoint<'conn>);

/// `rusqlite::Row`: the current row of a running query. Opaque here.
#[verifier::external_type_specification]
#[verifier::external_body]
pub struct ExSqlRow<'stmt>(rusqlite::Row<'stmt>);

/// `rusqlite::Error`: why a call into the engine failed. Opaque here.
#[verifier::external_type_specification]
#[verifier::external_body]
pub struct ExError(rusqlite::Error);

/// `rusqlite::types::Value`: the engine's own owned value. Opaque here.
#[verifier::external_type_specification]
#[verifier::external_body]
pub struct ExValue(rusqlite::types::Value);

/// `rusqlite::Connection::prepare`: compiles one statement. Nothing is
/// claimed of the outcome.
#[verifier::external_body]
pub(crate) fn prepare<'conn>(conn: &'conn rusqlite::Connection, sql: &str) -> Result<
    rusqlite::Statement<'conn>,
    rusqlite::Error,
> {
    conn.prepare(sql)
}

/// The plain value that an engine value stands for when it is bound to a
/// parameter.
pub uninterp spec fn bound(v: rusqlite::types::Value) -> SqlValueView;

/// Builds a `rusqlite::types::Value`, variant by variant with the same
/// content: the engine value stands for the value given.
#[verifier::external_body]
pub(crate) fn to_engine_value(value: &SqlValue) -> (r: rusqlite::types::Value)
    ensures
        bound(r) == value@,
{
    match value {
        SqlValue::Null => rusqlite::types::Value::Null,
        SqlValue::Integer(i) => rusqlite::types::Value::Integer(*i),
        SqlValue::Text(s) => rusqlite::types::Value::Text(s.clone()),
        SqlValue::Blob(b) => rusqlite::types::Value::Blob(b.clone()),
    }
}

/// `rusqlite::Statement::execute` with positional parameters: binds
/// `values[i]` to parameter `i + 1` and runs the statement. Nothing is
/// claimed of the outcome.
#[verifier::external_body]
pub(crate) fn execute(stmt: &mut rusqlite::Statement<'_>, values: &Vec<rusqlite::types::Value>) -> Result<
    usize,
    rusqlite::Error,
> {
    stmt.execute(rusqlite::params_from_iter(values.iter()))
}

/// What a row holds while it is borrowed: the value of each column of the
/// result set, in order, or `None` for a value that [`SqlValue`] does not
/// carry, which is a real number or text that is not UTF-8.
pub uninterp spec fn held(row: &rusqlite::Row<'_>) -> Seq<Option<SqlValueView>>;

/// The content of a cell as it was copied out of a row.
pub open spec fn cell_view(cell: Option<SqlValue>) -> Option<SqlValueView> {
    match cell {
        Some(v) => Some(v@),
        None => None,
    }
}

/// The content of a list of cells as they were copied out of a row.
pub open spec fn cell_views(cells: Seq<Option<SqlValue>>) -> Seq<Option<SqlValueView>> {
    Seq::new(cells.len(), |i: int| cell_view(cells[i]))
}

/// `rusqlite::Row::as_ref` and `rusqlite::Statement::column_count`: the
/// number of columns of the result set that the row belongs to.
#[verifier::external_body]
pub(crate) fn column_count(row: &rusqlite::Row<'_>) -> (n: usize)
    ensures
        n == held(row).len(),
{
    row.as_ref().column_count()
}

/// `rusqlite::Row::get_ref`: the value of column `index` of the row, copied
/// out variant by variant; `None` stands for what [`SqlValue`] does not
/// carry: a real number, or text that is not UTF-8. The call succeeds for
/// every column of the result set, and fails for an index past the last.
#[verifier::external_body]
pub(crate) fn column_value(row: &rusqlite::Row<'_>, index: usize) -> (r: Result<Option<SqlValue>, rusqlite::Error>)
    ensures
        index < held(row).len() ==> r is Ok && cell_view(r->Ok_0) == held(row)[index as int],
        index >= held(row).len() ==> r is Err,
{
    Ok(match row.get_ref(index)? {
        rusqlite::types::ValueRef::Null => Some(SqlValue::Null),
        rusqlite::types::ValueRef::Integer(i) => Some(SqlValue::Integer(i)),
        rusqlite::types::ValueRef::Real(_) => None,
        rusqlite::types::ValueRef::Text(t) => String::from_utf8(t.to_vec()).ok().map(SqlValue::Text),
        rusqlite::types::ValueRef::Blob(b) => Some(SqlValue::Blob(b.to_vec())),
    })
}

/// Copies every column of an engine row out, in order. Every column of the
/// result set can be had, so this does not fail.
pub(crate) fn read_row(row: &rusqlite::Row<'_>) -> (r: Result<Vec<Option<SqlValue>>, rusqlite::Error>)
    ensures
        r matches Ok(cells) && cell_views(cells@) == held(row),
{
    let n: usize = column_count(row);
    let mut out: Vec<Option<SqlValue>> = Vec::new();
    let mut i: usize = 0;
    while i < n
        invariant
            n == held(row).len(),
            i <= n,
            out@.len() == i,
            forall|j: int| 0 <= j < i ==> (#[trigger] cell_views(out@)[j]) == held(row)[j],
        decreases n - i,
    {
        let v = column_value(row, i)?;
        let ghost before = out@;
        out.push(v);
        proof {
            assert forall|j: int| 0 <= j < i implies (#[trigger] cell_views(out@)[j]) == held(
                row,
            )[j] by {
                assert(cell_views(out@)[j] == cell_views(before)[j]);
            }
        }
        i += 1;
    }
    proof {
        assert(cell_views(out@) =~= held(row));
    }
    Ok(out)
}

/// `rusqlite::Statement::query_and_then` with named parameters, collected:
/// binds `values[i]` to the parameter called `names[i]`, runs the query and
/// reads every result row with [`read_row`]. Nothing is claimed of the
/// outcome.
#[verifier::external_body]
pub(crate) fn query(
    stmt: &mut rusqlite::Statement<'_>,
    names: &Vec<&'static str>,
    values: &Vec<rusqlite::types::Value>,
) -> (r: Result<Vec<Vec<Option<SqlValue>>>, rusqlite::Error>)
    requires
        names@.len() == values@.len(),
{
    let named: Vec<(&str, &dyn rusqlite::ToSql)> =
        names.iter().zip(values.iter()).map(|(n, v)| (*n, v as &dyn rusqlite::ToSql)).collect();
    stmt.query_and_then(named.as_slice(), |row| read_row(row))?.collect()
}

/// `rusqlite::Connection::savepoint`: opens a savepoint on the connection.
#[verifier::external_body]
pub(crate) fn open_savepoint<'conn>(conn: &'conn mut rusqlite::Connection) -> Result<
    rusqlite::Savepoint<'conn>,
    rusqlite::Error,
> {
    conn.savepoint()
}

/// `Deref` of `rusqlite::Savepoint`: the connection the savepoint sits on.
#[verifier::external_body]
pub(crate) fn inside<'a>(savepoint: &'a rusqlite::Savepoint<'_>) -> &'a rusqlite::Connection {
    savepoint
}

/// `rusqlite::Savepoint::commit`: releases the savepoint.
#[verifier::external_body]
pub(crate) fn commit(savepoint: rusqlite::Savepoint<'_>) -> Result<(), rusqlite::Error> {
    savepoint.commit()
}

/// `rusqlite::Savepoint::rollback`: undoes what was done since the
/// savepoint was opened. The savepoint stays open.
#[verifier::external_body]
pub(crate) fn roll_back(savepoint: &mut rusqlite::Savepoint<'_>) -> Result<(), rusqlite::Error> {
    savepoint.rollback()
}

} // verus!
