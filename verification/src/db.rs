//! The mapping core: capabilities that an entity implements or receives.
//!
//! An entity that implements [`Obj`] describes its table once and is given
//! [`Loadable`], [`Scannable`] and [`Saveable`]; secondary lookups are added
//! per filter type with [`LoadableBy`].

use vstd::prelude::*;
use rusqlite::Connection;
use crate::engine::{
    bound, commit, execute, inside, open_savepoint, prepare, query, roll_back, to_engine_value,
};
use crate::error::{DbError, DecodeError};
use crate::sql::{select_all_sql, select_all_text, select_where_sql, select_where_text, upsert_sql, upsert_text};
use crate::value::{columns_view, names, row_view, Column, SqlValue, SqlValueView};

verus! {

/// Every column of the raw row holds a value.
pub open spec fn all_known(raw: Seq<Option<SqlValue>>) -> bool {
    forall|i: int| 0 <= i < raw.len() ==> (#[trigger] raw[i]) is Some
}

/// The content of a raw row whose columns all hold a value.
pub open spec fn known_values(raw: Seq<Option<SqlValue>>) -> Seq<SqlValueView> {
    Seq::new(raw.len(), |i: int| raw[i]->Some_0@)
}

/// Turns a raw row into a row of known values, or names the first column
/// that holds what [`SqlValue`] does not carry.
pub fn known_row(raw: Vec<Option<SqlValue>>) -> (r: Result<Vec<SqlValue>, DecodeError>)
    ensures
        r is Ok <==> all_known(raw@),
        match r {
            Ok(row) => row@.len() == raw@.len() && forall|i: int|
                0 <= i < raw@.len() ==> #[trigger] raw@[i] == Some(row@[i]),
            Err(e) => e matches DecodeError::ColumnType { index } && index < raw@.len()
                && raw@[index as int] is None && forall|j: int| 0 <= j < index ==> raw@[j] is Some,
        },
{
    let mut cells = raw;
    let ghost given = cells@;
    let n = cells.len();
    let mut out: Vec<SqlValue> = Vec::new();
    let mut i: usize = 0;
    while i < n
        invariant
            given == raw@,
            n == given.len(),
            cells@.len() == n,
            i <= n,
            out@.len() == i,
            forall|j: int| 0 <= j < i ==> #[trigger] given[j] == Some(out@[j]),
            forall|j: int| i <= j < n ==> cells@[j] == given[j],
        decreases n - i,
    {
        let mut cell: Option<SqlValue> = None;
        core::mem::swap(&mut cell, &mut cells[i]);
        match cell {
            Some(v) => {
                out.push(v);
            },
            None => {
                return Err(DecodeError::ColumnType { index: i });
            },
        }
        i += 1;
    }
    Ok(out)
}

/// The engine values of a column list: one for each column, in order, each
/// standing for the value of its column.
pub fn engine_values(columns: &Vec<Column>) -> (r: Vec<rusqlite::types::Value>)
    ensures
        r@.len() == columns@.len(),
        forall|i: int| 0 <= i < r@.len() ==> bound(#[trigger] r@[i]) == columns@[i].value@,
{
    let mut out: Vec<rusqlite::types::Value> = Vec::new();
    let mut i: usize = 0;
    while i < columns.len()
        invariant
            i <= columns@.len(),
            out@.len() == i,
            forall|j: int| 0 <= j < i ==> bound(#[trigger] out@[j]) == columns@[j].value@,
        decreases columns@.len() - i,
    {
        out.push(to_engine_value(&columns[i].value));
        i += 1;
    }
    out
}

/// The names of a column list, in order.
fn parameter_names(columns: &Vec<Column>) -> (r: Vec<&'static str>)
    ensures
        r@.len() == columns@.len(),
        forall|i: int| 0 <= i < r@.len() ==> (#[trigger] r@[i])@ == columns@[i].name@,
{
    let mut out: Vec<&'static str> = Vec::new();
    let mut i: usize = 0;
    while i < columns.len()
        invariant
            i <= columns@.len(),
            out@.len() == i,
            forall|j: int| 0 <= j < i ==> (#[trigger] out@[j])@ == columns@[j].name@,
        decreases columns@.len() - i,
    {
        out.push(columns[i].name);
        i += 1;
    }
    out
}

/// The engine's outcome as this crate reports it: a success as it is, a
/// failure as the statement error that holds it.
pub fn statement_outcome<T>(outcome: Result<T, rusqlite::Error>) -> (r: Result<T, DbError>)
    ensures
        match outcome {
            Ok(v) => r == Ok::<T, DbError>(v),
            Err(e) => r == Err::<T, DbError>(DbError::Statement(e)),
        },
{
    match outcome {
        Ok(v) => Ok(v),
        Err(e) => Err(DbError::Statement(e)),
    }
}

/// Prepares `sql`, binds the value of `columns[i]` to parameter `?(i + 1)`
/// and executes the statement. Returns the number of rows changed, or the
/// engine's failure as a statement error.
pub fn run_statement(conn: &Connection, sql: &str, columns: &Vec<Column>) -> (r: Result<
    usize,
    DbError,
>)
    ensures
        r matches Err(e) ==> e is Statement,
{
    let mut stmt = statement_outcome(prepare(conn, sql))?;
    let bound = engine_values(columns);
    statement_outcome(execute(&mut stmt, &bound))
}

/// Prepares `sql`, binds each parameter by its name, runs the query and
/// copies out every row of the result. Fails with the engine's failure as a
/// statement error.
pub fn run_query(conn: &Connection, sql: &str, params: &Vec<Column>) -> (r: Result<
    Vec<Vec<Option<SqlValue>>>,
    DbError,
>)
    ensures
        r matches Err(e) ==> e is Statement,
{
    let mut stmt = statement_outcome(prepare(conn, sql))?;
    let bound_names = parameter_names(params);
    let bound = engine_values(params);
    statement_outcome(query(&mut stmt, &bound_names, &bound))
}

/// The only element of `rows`, if there is one.
pub open spec fn only<T>(rows: Seq<T>) -> Option<T> {
    if rows.len() == 1 {
        Some(rows[0])
    } else {
        None
    }
}

/// Picks the row of a lookup by key: none for no row, the row itself for
/// one, and [`DbError::KeyNotUnique`] for more than one.
pub fn single<T>(rows: Vec<T>) -> (r: Result<Option<T>, DbError>)
    ensures
        rows@.len() <= 1 ==> r == Ok::<Option<T>, DbError>(only(rows@)),
        rows@.len() > 1 ==> r is Err && r->Err_0 is KeyNotUnique,
{
    let mut rows = rows;
    if rows.len() > 1 {
        Err(DbError::KeyNotUnique)
    } else {
        Ok(rows.pop())
    }
}

/// Row decoding: how an entity is made from the values of a stored row.
/// Column order is the table's physical layout; no name is looked up.
pub trait FromRow: Sized + View {
    /// What a row decodes to, or why it does not decode.
    spec fn decode(row: Seq<SqlValueView>) -> Result<Self::V, DecodeError>;

    /// How the value handed to a caller may differ from the value that its
    /// row decoded to: in what a post-load hook fills in, and nothing else.
    spec fn completes(decoded: Self::V, loaded: Self::V) -> bool;

    /// Whether the entity has child rows, which its hooks read from and
    /// write to the store. The hooks of an entity without children do
    /// nothing.
    spec fn has_children() -> bool;

    /// A value that no hook touched is complete.
    proof fn completes_reflexive(v: Self::V)
        ensures
            Self::completes(v, v),
    ;

    fn from_row(row: &Vec<SqlValue>) -> (r: Result<Self, DecodeError>)
        ensures
            match Self::decode(row_view(row@)) {
                Ok(v) => r is Ok && r->Ok_0@ == v,
                Err(e) => r == Err::<Self, DecodeError>(e),
            },
    ;
}

/// `v` is what some row decodes to, completed by a post-load hook.
pub open spec fn loaded<T: FromRow>(v: T::V) -> bool {
    exists|row: Seq<SqlValueView>| loaded_from::<T>(row, v)
}

/// `v` is what `row` decodes to, completed by a post-load hook.
pub open spec fn loaded_from<T: FromRow>(row: Seq<SqlValueView>, v: T::V) -> bool {
    T::decode(row) matches Ok(d) && T::completes(d, v)
}

/// `v` is what the raw row decodes to, completed by a post-load hook.
pub open spec fn loaded_from_raw<T: FromRow>(raw: Seq<Option<SqlValue>>, v: T::V) -> bool {
    all_known(raw) && loaded_from::<T>(known_values(raw), v)
}

/// What decoding makes of a raw row. A column that holds no known value
/// is a type failure at that column, the first such column winning; else
/// the row decodes as its values do.
pub open spec fn decodes_to<T: FromRow>(raw: Seq<Option<SqlValue>>, r: Result<T, DbError>) -> bool {
    if all_known(raw) {
        match T::decode(known_values(raw)) {
            Ok(decoded) => r matches Ok(v) && v@ == decoded,
            Err(e) => r matches Err(DbError::Decode(x)) && x == e,
        }
    } else {
        r matches Err(DbError::Decode(DecodeError::ColumnType { index })) && index < raw.len()
            && raw[index as int] is None && forall|j: int| 0 <= j < index ==> raw[j] is Some
    }
}

/// The raw row decodes.
pub open spec fn decodable<T: FromRow>(raw: Seq<Option<SqlValue>>) -> bool {
    all_known(raw) && T::decode(known_values(raw)) is Ok
}

/// Turning `rows` into entities one after the other fails at row `k` with
/// `e`: every row before it decodes, and either row `k` does not decode and
/// `e` is what decoding makes of it, or it decodes and the hook failed on
/// it, which only the hook of an entity with children can.
pub open spec fn fails_at<T: FromRow>(rows: Seq<Vec<Option<SqlValue>>>, k: int, e: DbError) -> bool {
    &&& 0 <= k < rows.len()
    &&& forall|j: int| 0 <= j < k ==> decodable::<T>(#[trigger] rows[j]@)
    &&& if decodable::<T>(rows[k]@) {
        T::has_children()
    } else {
        decodes_to::<T>(rows[k]@, Err(e))
    }
}

/// Decodes a raw row as the engine handed it out.
pub fn decode_raw<T: FromRow>(raw: Vec<Option<SqlValue>>) -> (r: Result<T, DbError>)
    ensures
        decodes_to::<T>(raw@, r),
{
    let row = match known_row(raw) {
        Ok(row) => row,
        Err(e) => {
            return Err(DbError::Decode(e));
        },
    };
    proof {
        assert(row_view(row@) =~= known_values(raw@));
    }
    match T::from_row(&row) {
        Ok(v) => Ok(v),
        Err(e) => Err(DbError::Decode(e)),
    }
}

/// What a lookup by key makes of the rows that the store handed out: no
/// row is absence, one row is decoded, and more than one is
/// [`DbError::KeyNotUnique`], whatever the rows hold.
pub fn decode_single<T: FromRow>(rows: Vec<Vec<Option<SqlValue>>>) -> (r: Result<
    Option<T>,
    DbError,
>)
    ensures
        rows@.len() == 0 ==> r matches Ok(None),
        rows@.len() > 1 ==> r matches Err(DbError::KeyNotUnique),
        rows@.len() == 1 ==> match r {
            Ok(Some(v)) => decodes_to::<T>(rows@[0]@, Ok(v)),
            Ok(None) => false,
            Err(e) => decodes_to::<T>(rows@[0]@, Err(e)),
        },
{
    match single(rows)? {
        None => Ok(None),
        Some(raw) => {
            let rc = decode_raw::<T>(raw)?;
            Ok(Some(rc))
        },
    }
}

/// Scan-all: every row of the entity's table.
pub trait Scannable: FromRow {
    /// The text of the scan statement.
    spec fn select_all_text() -> Seq<char>;

    fn select_all() -> (r: String)
        ensures
            r@ == Self::select_all_text(),
    ;

    /// Runs once per decoded row, before the value is handed out. On
    /// success the value differs from what was decoded only in what the hook
    /// is there to fill in; the hook of an entity without children leaves
    /// the value as it is and does not fail.
    fn post_load_hook(&mut self, _conn: &Connection) -> (r: Result<(), DbError>)
        ensures
            r is Ok ==> Self::completes(old(self)@, final(self)@),
            !Self::has_children() ==> r is Ok && final(self)@ == old(self)@,
    {
        proof {
            Self::completes_reflexive(self@);
        }
        Ok(())
    }

    /// Selects every row, decodes each and runs the post-load hook on each.
    /// Any failure aborts the whole scan.
    fn scan(conn: &mut Connection) -> (r: Result<Vec<Self>, DbError>)
        ensures
            r matches Ok(all) ==> forall|i: int|
                0 <= i < all@.len() ==> loaded::<Self>(#[trigger] all@[i]@),
    {
        let sql = Self::select_all();
        let none: Vec<Column> = Vec::new();
        let rows = run_query(conn, sql.as_str(), &none)?;
        let all = Self::from_rows(rows, conn)?;
        assert forall|i: int| 0 <= i < all@.len() implies loaded::<Self>(#[trigger] all@[i]@) by {
            assert(loaded_from::<Self>(known_values(rows@[i]@), all@[i]@));
        }
        Ok(all)
    }

    /// What a scan makes of the rows that the store handed out: one entity
    /// for each row, in the order of the rows, each decoded from its row and
    /// then completed by the post-load hook. The first row that does not
    /// decode, or on which the hook fails, fails the whole: rows that all
    /// decode, of an entity without children, always succeed.
    fn from_rows(rows: Vec<Vec<Option<SqlValue>>>, conn: &Connection) -> (r: Result<
        Vec<Self>,
        DbError,
    >)
        ensures
            r matches Ok(all) ==> all@.len() == rows@.len() && forall|i: int|
                0 <= i < all@.len() ==> loaded_from_raw::<Self>(
                    rows@[i]@,
                    #[trigger] all@[i]@,
                ),
            r matches Err(e) ==> exists|k: int| fails_at::<Self>(rows@, k, e),
    {
        let mut cells = rows;
        let n = cells.len();
        let mut out: Vec<Self> = Vec::new();
        let mut i: usize = 0;
        while i < n
            invariant
                cells@.len() == n,
                rows@.len() == n,
                i <= n,
                out@.len() == i,
                forall|j: int| i <= j < n ==> cells@[j] == rows@[j],
                forall|j: int|
                    0 <= j < i ==> loaded_from_raw::<Self>(rows@[j]@, #[trigger] out@[j]@),
                forall|j: int| 0 <= j < i ==> decodable::<Self>(#[trigger] rows@[j]@),
            decreases n - i,
        {
            let mut raw: Vec<Option<SqlValue>> = Vec::new();
            core::mem::swap(&mut raw, &mut cells[i]);
            let mut rc = match decode_raw::<Self>(raw) {
                Ok(rc) => rc,
                Err(e) => {
                    assert(fails_at::<Self>(rows@, i as int, e));
                    return Err(e);
                },
            };
            match rc.post_load_hook(conn) {
                Ok(()) => {},
                Err(e) => {
                    assert(fails_at::<Self>(rows@, i as int, e));
                    return Err(e);
                },
            }
            out.push(rc);
            i += 1;
        }
        Ok(out)
    }
}

/// Load-by-key: the row that a key identifies, if there is one.
pub trait Loadable: FromRow {
    /// The type of the key.
    type Id;

    /// The text of the lookup statement.
    spec fn select_by_text() -> Seq<char>;

    /// The parameters that bind the lookup statement to `id`.
    spec fn select_params_of(id: &Self::Id) -> Seq<(Seq<char>, SqlValueView)>;

    /// Runs once per decoded row, before the value is handed out. On
    /// success the value differs from what was decoded only in what the hook
    /// is there to fill in; the hook of an entity without children leaves
    /// the value as it is and does not fail.
    fn post_load_hook(&mut self, _conn: &Connection) -> (r: Result<(), DbError>)
        ensures
            r is Ok ==> Self::completes(old(self)@, final(self)@),
            !Self::has_children() ==> r is Ok && final(self)@ == old(self)@,
    {
        proof {
            Self::completes_reflexive(self@);
        }
        Ok(())
    }

    fn select_by() -> (r: String)
        ensures
            r@ == Self::select_by_text(),
    ;

    fn select_params(id: &Self::Id) -> (r: Vec<Column>)
        ensures
            columns_view(r@) == Self::select_params_of(id),
    ;

    /// Looks the key up. No matching row is `Ok(None)`, not an error. More
    /// than one matching row is [`DbError::KeyNotUnique`], whatever the rows
    /// hold: the caller is expected to halt on it. A row that does not
    /// decode, or a hook that fails, fails the load.
    fn load(id: Self::Id, conn: &Connection) -> (r: Result<Option<Self>, DbError>)
        ensures
            r matches Ok(Some(v)) ==> loaded::<Self>(v@),
    {
        let sql = Self::select_by();
        let params = Self::select_params(&id);
        let rows = run_query(conn, sql.as_str(), &params)?;
        let found = Self::from_rows(rows, conn)?;
        proof {
            if found is Some {
                assert(loaded_from::<Self>(known_values(rows@[0]@), found->Some_0@));
            }
        }
        Ok(found)
    }

    /// What a lookup by key makes of the rows that the store handed out: no
    /// row is absence; one row is decoded and then completed by the
    /// post-load hook, and fails the lookup if it does not decode or the
    /// hook fails; more than one row is [`DbError::KeyNotUnique`], whatever
    /// the rows hold.
    fn from_rows(rows: Vec<Vec<Option<SqlValue>>>, conn: &Connection) -> (r: Result<
        Option<Self>,
        DbError,
    >)
        ensures
            rows@.len() == 0 ==> r matches Ok(None),
            rows@.len() > 1 ==> r matches Err(DbError::KeyNotUnique),
            rows@.len() == 1 ==> match r {
                Ok(Some(v)) => loaded_from_raw::<Self>(rows@[0]@, v@),
                Ok(None) => false,
                Err(e) => fails_at::<Self>(rows@, 0, e),
            },
    {
        match decode_single::<Self>(rows)? {
            None => Ok(None),
            Some(rc) => {
                let mut rc = rc;
                rc.post_load_hook(conn)?;
                Ok(Some(rc))
            },
        }
    }
}

/// Load-by-secondary-filter: the rows that a filter of type `T` selects.
pub trait LoadableBy<T>: FromRow {
    /// The text of the statement for the filter.
    spec fn select_by_text(by: &T) -> Seq<char>;

    /// The parameters that the filter binds.
    spec fn select_params_of(by: &T) -> Seq<(Seq<char>, SqlValueView)>;

    /// Runs once per decoded row, before the value is handed out. On
    /// success the value differs from what was decoded only in what the hook
    /// is there to fill in; the hook of an entity without children leaves
    /// the value as it is and does not fail.
    fn post_load_hook(&mut self, _conn: &Connection) -> (r: Result<(), DbError>)
        ensures
            r is Ok ==> Self::completes(old(self)@, final(self)@),
            !Self::has_children() ==> r is Ok && final(self)@ == old(self)@,
    {
        proof {
            Self::completes_reflexive(self@);
        }
        Ok(())
    }

    fn select_by(by: &T) -> (r: (String, Vec<Column>))
        ensures
            r.0@ == Self::select_by_text(by),
            columns_view(r.1@) == Self::select_params_of(by),
    ;

    /// Selects the rows that the filter matches, in the engine's order,
    /// decodes each and runs the post-load hook on each. Any failure aborts
    /// the whole load.
    fn load_by(by: &T, conn: &Connection) -> (r: Result<Vec<Self>, DbError>)
        ensures
            r matches Ok(all) ==> forall|i: int|
                0 <= i < all@.len() ==> loaded::<Self>(#[trigger] all@[i]@),
    {
        let (sql, params) = Self::select_by(by);
        let rows = run_query(conn, sql.as_str(), &params)?;
        let all = Self::from_rows(rows, conn)?;
        assert forall|i: int| 0 <= i < all@.len() implies loaded::<Self>(#[trigger] all@[i]@) by {
            assert(loaded_from::<Self>(known_values(rows@[i]@), all@[i]@));
        }
        Ok(all)
    }

    /// What a load by filter makes of the rows that the store handed out:
    /// one entity for each row, in the order of the rows, each decoded from
    /// its row and then completed by the post-load hook. The first row that
    /// does not decode, or on which the hook fails, fails the whole: rows
    /// that all decode, of an entity without children, always succeed.
    fn from_rows(rows: Vec<Vec<Option<SqlValue>>>, conn: &Connection) -> (r: Result<
        Vec<Self>,
        DbError,
    >)
        ensures
            r matches Ok(all) ==> all@.len() == rows@.len() && forall|i: int|
                0 <= i < all@.len() ==> loaded_from_raw::<Self>(
                    rows@[i]@,
                    #[trigger] all@[i]@,
                ),
            r matches Err(e) ==> exists|k: int| fails_at::<Self>(rows@, k, e),
    {
        let mut cells = rows;
        let n = cells.len();
        let mut out: Vec<Self> = Vec::new();
        let mut i: usize = 0;
        while i < n
            invariant
                cells@.len() == n,
                rows@.len() == n,
                i <= n,
                out@.len() == i,
                forall|j: int| i <= j < n ==> cells@[j] == rows@[j],
                forall|j: int|
                    0 <= j < i ==> loaded_from_raw::<Self>(rows@[j]@, #[trigger] out@[j]@),
                forall|j: int| 0 <= j < i ==> decodable::<Self>(#[trigger] rows@[j]@),
            decreases n - i,
        {
            let mut raw: Vec<Option<SqlValue>> = Vec::new();
            core::mem::swap(&mut raw, &mut cells[i]);
            let mut rc = match decode_raw::<Self>(raw) {
                Ok(rc) => rc,
                Err(e) => {
                    assert(fails_at::<Self>(rows@, i as int, e));
                    return Err(e);
                },
            };
            match rc.post_load_hook(conn) {
                Ok(()) => {},
                Err(e) => {
                    assert(fails_at::<Self>(rows@, i as int, e));
                    return Err(e);
                },
            }
            out.push(rc);
            i += 1;
        }
        Ok(out)
    }
}

/// How a save ends the savepoint that it opened.
#[derive(Debug, Clone, Copy, PartialEq, Eq, Structural)]
pub enum Finish {
    /// Release the savepoint as it stands: what was written stays.
    Release,
    /// Roll back what was done since the savepoint was opened, and release
    /// it only after that: nothing of what was written stays.
    RollBackThenRelease,
}

/// How a save ends its savepoint, given what came of writing the row and
/// of the cascade: it keeps the work only if all of it succeeded.
pub fn finish_of(written: &Result<(), DbError>) -> (r: Finish)
    ensures
        r == (if written is Ok {
            Finish::Release
        } else {
            Finish::RollBackThenRelease
        }),
{
    match written {
        Ok(_) => Finish::Release,
        Err(_) => Finish::RollBackThenRelease,
    }
}

/// What a save returns, given what came of writing the row and of the
/// cascade, and of releasing the savepoint where that was the way to end
/// it: a failure of the write or the cascade as it is, whatever became of
/// the savepoint; else what the release gave.
pub fn save_result(written: Result<(), DbError>, released: Result<(), DbError>) -> (r: Result<
    (),
    DbError,
>)
    ensures
        r == (if written is Err {
            written
        } else {
            released
        }),
{
    match written {
        Ok(_) => released,
        Err(e) => Err(e),
    }
}

/// Save: upsert of the entity's row, then the post-save hook.
pub trait Saveable: Sized {
    /// The name of the table.
    spec fn table() -> Seq<char>;

    /// The columns that identify the row, with their values.
    spec fn keys(&self) -> Seq<(Seq<char>, SqlValueView)>;

    /// The columns that every save replaces, with their values.
    spec fn data(&self) -> Seq<(Seq<char>, SqlValueView)>;

    /// Whether the entity has child rows, which its post-save hook writes.
    /// The hook of an entity without children does nothing.
    spec fn cascades() -> bool;

    fn table_name() -> (r: String)
        ensures
            r@ == Self::table(),
    ;

    fn key_columns(&self) -> (r: Vec<Column>)
        ensures
            columns_view(r@) == self.keys(),
    ;

    fn data_columns(&self) -> (r: Vec<Column>)
        ensures
            columns_view(r@) == self.data(),
    ;

    /// Runs after the row was written, inside the same savepoint. It fails
    /// with a statement error or not at all, and the hook of an entity
    /// without children does not fail.
    fn post_save_hook(&self, _conn: &Connection) -> (r: Result<(), DbError>)
        ensures
            r matches Err(e) ==> e is Statement,
            !Self::cascades() ==> r is Ok,
    {
        Ok(())
    }

    /// The statement that saves this entity, and the columns whose values
    /// are bound to `?1`, `?2`, ... in order: the keys, then the data.
    fn save_statement(&self) -> (r: (String, Vec<Column>))
        ensures
            r.0@ == upsert_text(Self::table(), names(self.keys()), names(self.data())),
            columns_view(r.1@) == self.keys() + self.data(),
    {
        let keys = self.key_columns();
        let data = self.data_columns();
        let table = Self::table_name();
        let sql = upsert_sql(table.as_str(), &keys, &data);
        let mut all = keys;
        let mut rest = data;
        all.append(&mut rest);
        proof {
            assert(columns_view(all@) =~= self.keys() + self.data());
        }
        (sql, all)
    }

    /// Saves the entity and what its hook cascades to inside a savepoint of
    /// its own, so that a save can be a step of a larger transaction. The
    /// savepoint ends as [`finish_of`] says: it is released as it stands
    /// only when the row was written and the hook succeeded; on any failure
    /// what was done since it was opened is rolled back, and the savepoint
    /// is released only after that. The result is that of [`save_result`].
    fn save(self, conn: &mut Connection) -> (r: Result<(), DbError>)
        ensures
            r matches Err(e) ==> e is Statement,
    {
        let mut sp = statement_outcome(open_savepoint(conn))?;
        let written = self.__save_no_savepoint(inside(&sp));
        match finish_of(&written) {
            Finish::Release => {
                let released = statement_outcome(commit(sp));
                save_result(written, released)
            },
            Finish::RollBackThenRelease => {
                let undone = statement_outcome(roll_back(&mut sp));
                let released = match undone {
                    Ok(()) => statement_outcome(commit(sp)),
                    Err(e) => Err(e),
                };
                save_result(written, released)
            },
        }
    }

    /// Writes the row with one upsert statement and runs the post-save
    /// hook, on a connection that already is inside a savepoint. The
    /// statement is that of [`Saveable::save_statement`]; the hook runs only
    /// if the statement succeeded.
    fn __save_no_savepoint(self, conn: &Connection) -> (r: Result<(), DbError>)
        ensures
            r matches Err(e) ==> e is Statement,
    {
        let (sql, columns) = self.save_statement();
        run_statement(conn, sql.as_str(), &columns)?;
        self.post_save_hook(conn)
    }
}

/// The one description an entity writes to receive [`Loadable`],
/// [`Scannable`] and [`Saveable`]: its table, the predicate that finds a row
/// by key, and its key and data columns.
pub trait Obj: FromRow {
    /// The type of the key.
    type Id;

    /// The name of the table.
    spec fn table() -> Seq<char>;

    /// The predicate that a key is looked up with.
    spec fn predicate() -> Seq<char>;

    /// The parameters that bind the predicate to `id`.
    spec fn predicate_params(id: &Self::Id) -> Seq<(Seq<char>, SqlValueView)>;

    /// The columns that identify the row, with their values.
    spec fn keys(&self) -> Seq<(Seq<char>, SqlValueView)>;

    /// The columns that every save replaces, with their values.
    spec fn data(&self) -> Seq<(Seq<char>, SqlValueView)>;

    /// Runs once per decoded row, before the value is handed out. On
    /// success the value differs from what was decoded only in what the hook
    /// is there to fill in; the hook of an entity without children leaves
    /// the value as it is and does not fail.
    fn post_load_hook(&mut self, _conn: &Connection) -> (r: Result<(), DbError>)
        ensures
            r is Ok ==> Self::completes(old(self)@, final(self)@),
            !Self::has_children() ==> r is Ok && final(self)@ == old(self)@,
    {
        proof {
            Self::completes_reflexive(self@);
        }
        Ok(())
    }

    /// Runs after the row was written, inside the same savepoint. It fails
    /// with a statement error or not at all, and the hook of an entity
    /// without children does not fail.
    fn post_save_hook(&self, _conn: &Connection) -> (r: Result<(), DbError>)
        ensures
            r matches Err(e) ==> e is Statement,
            !Self::has_children() ==> r is Ok,
    {
        Ok(())
    }

    fn table_name() -> (r: String)
        ensures
            r@ == Self::table(),
    ;

    fn where_clause() -> (r: String)
        ensures
            r@ == Self::predicate(),
    ;

    fn where_params(id: &Self::Id) -> (r: Vec<Column>)
        ensures
            columns_view(r@) == Self::predicate_params(id),
    ;

    fn key_columns(&self) -> (r: Vec<Column>)
        ensures
            columns_view(r@) == self.keys(),
    ;

    fn data_columns(&self) -> (r: Vec<Column>)
        ensures
            columns_view(r@) == self.data(),
    ;
}

impl<T> Loadable for T where T: Obj {
    type Id = T::Id;

    open spec fn select_by_text() -> Seq<char> {
        select_where_text(<T as Obj>::table(), <T as Obj>::predicate())
    }

    open spec fn select_params_of(id: &Self::Id) -> Seq<(Seq<char>, SqlValueView)> {
        <T as Obj>::predicate_params(id)
    }

    fn post_load_hook(&mut self, conn: &Connection) -> (r: Result<(), DbError>) {
        Obj::post_load_hook(self, conn)
    }

    fn select_by() -> (r: String) {
        let table = <T as Obj>::table_name();
        let predicate = <T as Obj>::where_clause();
        assert(<T as Loadable>::select_by_text() == select_where_text(
            <T as Obj>::table(),
            <T as Obj>::predicate(),
        ));
        select_where_sql(table.as_str(), predicate.as_str())
    }

    fn select_params(id: &Self::Id) -> (r: Vec<Column>) {
        assert(<T as Loadable>::select_params_of(id) == <T as Obj>::predicate_params(id));
        <T as Obj>::where_params(id)
    }
}

impl<T> Scannable for T where T: Obj {
    open spec fn select_all_text() -> Seq<char> {
        select_all_text(<T as Obj>::table())
    }

    fn post_load_hook(&mut self, conn: &Connection) -> (r: Result<(), DbError>) {
        Obj::post_load_hook(self, conn)
    }

    fn select_all() -> (r: String) {
        let table = <T as Obj>::table_name();
        assert(<T as Scannable>::select_all_text() == select_all_text(<T as Obj>::table()));
        select_all_sql(table.as_str())
    }
}

impl<T> Saveable for T where T: Obj {
    open spec fn table() -> Seq<char> {
        <T as Obj>::table()
    }

    open spec fn keys(&self) -> Seq<(Seq<char>, SqlValueView)> {
        Obj::keys(self)
    }

    open spec fn data(&self) -> Seq<(Seq<char>, SqlValueView)> {
        Obj::data(self)
    }

    open spec fn cascades() -> bool {
        <T as FromRow>::has_children()
    }

    fn post_save_hook(&self, conn: &Connection) -> (r: Result<(), DbError>) {
        assert(<T as Saveable>::cascades() == <T as FromRow>::has_children());
        Obj::post_save_hook(self, conn)
    }

    fn table_name() -> (r: String) {
        <T as Obj>::table_name()
    }

    fn key_columns(&self) -> (r: Vec<Column>) {
        Obj::key_columns(self)
    }

    fn data_columns(&self) -> (r: Vec<Column>) {
        Obj::data_columns(self)
    }
}

} // verus!
