//! Failures of the mapping core.

use vstd::prelude::*;

verus! {

/// Why a stored row could not be turned into an entity.
#[derive(Debug, Clone, Copy, PartialEq, Eq, Structural)]
pub enum DecodeError {
    /// The row does not have the number of columns the table declares.
    ColumnCount { expected: usize, found: usize },
    /// The column at `index` holds a value of the wrong type.
    ColumnType { index: usize },
}

/// A failed operation against the store.
#[derive(Debug)]
pub enum DbError {
    /// A stored row cannot be coerced into the entity's declared shape.
    Decode(DecodeError),
    /// Preparing or executing a statement failed.
    Statement(rusqlite::Error),
    /// A lookup by key matched more than one row: the schema or the predicate
    /// is wrong, and no row can be chosen.
    KeyNotUnique,
}

} // verus!
