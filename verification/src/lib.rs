//! A small relational mapping core for an inventory of tagged items.
//!
//! An entity describes its table once (name, key columns, data columns, how a
//! row decodes) and receives load-by-key, load-by-filter, scan and upsert with
//! cascade hooks. Statement text is assembled by a verified builder; the calls
//! into SQLite go through a handful of thin wrappers in `engine`.

pub mod value;
pub mod error;
pub mod engine;
pub mod sql;
pub mod db;
pub mod tags;
pub mod tag;
pub mod item;
