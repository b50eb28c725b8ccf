//! Plain values that cross the boundary to the storage engine.

use vstd::prelude::*;
use crate::error::DecodeError;

verus! {

/// One dynamically typed SQL value. Real numbers are not carried: no entity
/// of this crate has a real column.
#[derive(Debug, Clone)]
pub enum SqlValue {
    /// SQL `NULL`.
    Null,
    /// A signed 64-bit integer.
    Integer(i64),
    /// A text string.
    Text(String),
    /// A blob of bytes.
    Blob(Vec<u8>),
}

/// The mathematical content of a [`SqlValue`].
pub enum SqlValueView {
    Null,
    Integer(i64),
    Text(Seq<char>),
    Blob(Seq<u8>),
}

impl View for SqlValue {
    type V = SqlValueView;

    open spec fn view(&self) -> SqlValueView {
        match self {
            SqlValue::Null => SqlValueView::Null,
            SqlValue::Integer(i) => SqlValueView::Integer(*i),
            SqlValue::Text(s) => SqlValueView::Text(s@),
            SqlValue::Blob(b) => SqlValueView::Blob(b@),
        }
    }
}

/// The content of a result row, column by column in the table's physical
/// order.
pub open spec fn row_view(row: Seq<SqlValue>) -> Seq<SqlValueView> {
    Seq::new(row.len(), |i: int| row[i]@)
}

/// A named value: a column of a row to write, or a bound statement parameter.
#[derive(Debug, Clone)]
pub struct Column {
    pub name: &'static str,
    pub value: SqlValue,
}

impl View for Column {
    type V = (Seq<char>, SqlValueView);

    open spec fn view(&self) -> (Seq<char>, SqlValueView) {
        (self.name@, self.value@)
    }
}

/// The content of a column list, in order.
pub open spec fn columns_view(columns: Seq<Column>) -> Seq<(Seq<char>, SqlValueView)> {
    Seq::new(columns.len(), |i: int| columns[i]@)
}

/// The names of a list of named values, in order.
pub open spec fn names(pairs: Seq<(Seq<char>, SqlValueView)>) -> Seq<Seq<char>> {
    Seq::new(pairs.len(), |i: int| pairs[i].0)
}

/// The values of a list of named values, in order.
pub open spec fn values(pairs: Seq<(Seq<char>, SqlValueView)>) -> Seq<SqlValueView> {
    Seq::new(pairs.len(), |i: int| pairs[i].1)
}

/// Reads a text column.
pub fn text_column(row: &Vec<SqlValue>, index: usize) -> (r: Result<String, DecodeError>)
    requires
        index < row@.len(),
    ensures
        match row@[index as int]@ {
            SqlValueView::Text(s) => r is Ok && r->Ok_0@ == s,
            _ => r == Err::<String, DecodeError>(DecodeError::ColumnType { index }),
        },
{
    match &row[index] {
        SqlValue::Text(s) => Ok(s.clone()),
        _ => Err(DecodeError::ColumnType { index }),
    }
}

/// Reads a text column that may be `NULL`.
pub fn optional_text_column(row: &Vec<SqlValue>, index: usize) -> (r: Result<
    Option<String>,
    DecodeError,
>)
    requires
        index < row@.len(),
    ensures
        match row@[index as int]@ {
            SqlValueView::Text(s) => r matches Ok(Some(t)) && t@ == s,
            SqlValueView::Null => r == Ok::<Option<String>, DecodeError>(None),
            _ => r == Err::<Option<String>, DecodeError>(DecodeError::ColumnType { index }),
        },
{
    match &row[index] {
        SqlValue::Text(s) => Ok(Some(s.clone())),
        SqlValue::Null => Ok(None),
        _ => Err(DecodeError::ColumnType { index }),
    }
}

/// Reads an integer column.
pub fn integer_column(row: &Vec<SqlValue>, index: usize) -> (r: Result<i64, DecodeError>)
    requires
        index < row@.len(),
    ensures
        match row@[index as int]@ {
            SqlValueView::Integer(i) => r == Ok::<i64, DecodeError>(i),
            _ => r == Err::<i64, DecodeError>(DecodeError::ColumnType { index }),
        },
{
    match &row[index] {
        SqlValue::Integer(i) => Ok(*i),
        _ => Err(DecodeError::ColumnType { index }),
    }
}

/// Reads an integer column that may be `NULL`.
pub fn optional_integer_column(row: &Vec<SqlValue>, index: usize) -> (r: Result<
    Option<i64>,
    DecodeError,
>)
    requires
        index < row@.len(),
    ensures
        match row@[index as int]@ {
            SqlValueView::Integer(i) => r == Ok::<Option<i64>, DecodeError>(Some(i)),
            SqlValueView::Null => r == Ok::<Option<i64>, DecodeError>(None),
            _ => r == Err::<Option<i64>, DecodeError>(DecodeError::ColumnType { index }),
        },
{
    match &row[index] {
        SqlValue::Integer(i) => Ok(Some(*i)),
        SqlValue::Null => Ok(None),
        _ => Err(DecodeError::ColumnType { index }),
    }
}

/// A text column to write.
pub fn text(name: &'static str, value: &String) -> (r: Column)
    ensures
        r@ == (name@, SqlValueView::Text(value@)),
{
    Column { name, value: SqlValue::Text(value.clone()) }
}

/// A text column to write, `NULL` where there is no value.
pub fn optional_text(name: &'static str, value: &Option<String>) -> (r: Column)
    ensures
        r@ == (
            name@,
            match value {
                Some(s) => SqlValueView::Text(s@),
                None => SqlValueView::Null,
            },
        ),
{
    match value {
        Some(s) => Column { name, value: SqlValue::Text(s.clone()) },
        None => Column { name, value: SqlValue::Null },
    }
}

/// An integer column to write.
pub fn integer(name: &'static str, value: i64) -> (r: Column)
    ensures
        r@ == (name@, SqlValueView::Integer(value)),
{
    Column { name, value: SqlValue::Integer(value) }
}

/// An integer column to write, `NULL` where there is no value.
pub fn optional_integer(name: &'static str, value: Option<i64>) -> (r: Column)
    ensures
        r@ == (
            name@,
            match value {
                Some(i) => SqlValueView::Integer(i),
                None => SqlValueView::Null,
            },
        ),
{
    match value {
        Some(i) => Column { name, value: SqlValue::Integer(i) },
        None => Column { name, value: SqlValue::Null },
    }
}

} // verus!
