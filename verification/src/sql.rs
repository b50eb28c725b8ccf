//! Statement text, assembled from a table name and column names.
//!
//! Every statement of the mapping core is produced here, so that the rest of
//! the crate never touches raw text. Names come from the entities' own
//! declarations, never from a caller.

use vstd::prelude::*;
use vstd::string::*;
use crate::value::{columns_view, names, Column};

verus! {

/// The character for a decimal digit.
pub open spec fn digit_char(d: nat) -> char {
    if d == 0 {
        '0'
    } else if d == 1 {
        '1'
    } else if d == 2 {
        '2'
    } else if d == 3 {
        '3'
    } else if d == 4 {
        '4'
    } else if d == 5 {
        '5'
    } else if d == 6 {
        '6'
    } else if d == 7 {
        '7'
    } else if d == 8 {
        '8'
    } else {
        '9'
    }
}

/// The decimal numeral of `n`, without leading zeros.
pub open spec fn decimal(n: nat) -> Seq<char>
    decreases n,
{
    if n < 10 {
        seq![digit_char(n)]
    } else {
        decimal(n / 10).push(digit_char(n % 10))
    }
}

/// The parts, with `sep` between each two neighbours.
pub open spec fn joined(parts: Seq<Seq<char>>, sep: Seq<char>) -> Seq<char>
    decreases parts.len(),
{
    if parts.len() == 0 {
        Seq::empty()
    } else if parts.len() == 1 {
        parts[0]
    } else {
        joined(parts.drop_last(), sep) + sep + parts.last()
    }
}

/// The positional placeholders `?1` to `?n`.
pub open spec fn placeholders(n: nat) -> Seq<Seq<char>> {
    Seq::new(n, |i: int| seq!['?'] + decimal((i + 1) as nat))
}

/// For each name, the assignment that overwrites the column with the value
/// of the row that could not be inserted.
pub open spec fn assignments(names: Seq<Seq<char>>) -> Seq<Seq<char>> {
    Seq::new(names.len(), |i: int| names[i] + "=excluded."@ + names[i])
}

/// The upsert statement: insert the key and data columns; on a conflict
/// against the key columns, overwrite every data column.
pub open spec fn upsert_text(table: Seq<char>, keys: Seq<Seq<char>>, data: Seq<Seq<char>>) -> Seq<
    char,
> {
    "INSERT INTO "@ + table + "("@ + joined(keys + data, ", "@) + ") VALUES("@ + joined(
        placeholders((keys + data).len()),
        ", "@,
    ) + ") ON CONFLICT("@ + joined(keys, ", "@) + ") DO UPDATE SET "@ + joined(
        assignments(data),
        ","@,
    )
}

/// The statement that selects the rows of `table` that meet `predicate`.
pub open spec fn select_where_text(table: Seq<char>, predicate: Seq<char>) -> Seq<char> {
    "SELECT * FROM "@ + table + " WHERE "@ + predicate
}

/// The statement that selects every row of `table`.
pub open spec fn select_all_text(table: Seq<char>) -> Seq<char> {
    "SELECT * FROM "@ + table
}

/// The views of a list of strings.
pub open spec fn texts(parts: Seq<String>) -> Seq<Seq<char>> {
    Seq::new(parts.len(), |i: int| parts[i]@)
}

fn digit_text(d: usize) -> (r: &'static str)
    requires
        d < 10,
    ensures
        r@ == seq![digit_char(d as nat)],
{
    proof {
        reveal_strlit("0");
        reveal_strlit("1");
        reveal_strlit("2");
        reveal_strlit("3");
        reveal_strlit("4");
        reveal_strlit("5");
        reveal_strlit("6");
        reveal_strlit("7");
        reveal_strlit("8");
        reveal_strlit("9");
    }
    let r = if d == 0 {
        "0"
    } else if d == 1 {
        "1"
    } else if d == 2 {
        "2"
    } else if d == 3 {
        "3"
    } else if d == 4 {
        "4"
    } else if d == 5 {
        "5"
    } else if d == 6 {
        "6"
    } else if d == 7 {
        "7"
    } else if d == 8 {
        "8"
    } else {
        "9"
    };
    assert(r@ =~= seq![digit_char(d as nat)]);
    r
}

/// Writes `n` in decimal.
pub fn decimal_string(n: usize) -> (r: String)
    ensures
        r@ == decimal(n as nat),
    decreases n,
{
    if n < 10 {
        String::from_str(digit_text(n))
    } else {
        let mut s = decimal_string(n / 10);
        s.append(digit_text(n % 10));
        assert(s@ =~= decimal(n as nat));
        s
    }
}

/// Joins the parts with `sep` between each two neighbours.
pub fn join(parts: &Vec<String>, sep: &str) -> (r: String)
    ensures
        r@ == joined(texts(parts@), sep@),
{
    let mut out = String::new();
    let mut i: usize = 0;
    while i < parts.len()
        invariant
            i <= parts@.len(),
            out@ == joined(texts(parts@).take(i as int), sep@),
        decreases parts@.len() - i,
    {
        let ghost before = texts(parts@).take(i as int);
        let ghost after = texts(parts@).take(i + 1);
        proof {
            assert(after.drop_last() =~= before);
            assert(after.last() == parts@[i as int]@);
        }
        if i > 0 {
            out.append(sep);
        }
        out.append(parts[i].as_str());
        proof {
            if i == 0 {
                assert(out@ =~= after[0]);
            }
        }
        i += 1;
    }
    proof {
        assert(texts(parts@).take(i as int) =~= texts(parts@));
    }
    out
}

/// The names of the columns, as owned strings.
fn names_of(columns: &Vec<Column>) -> (r: Vec<String>)
    ensures
        texts(r@) == names(columns_view(columns@)),
{
    let mut out: Vec<String> = Vec::new();
    let mut i: usize = 0;
    while i < columns.len()
        invariant
            i <= columns@.len(),
            out@.len() == i,
            forall|j: int| 0 <= j < i ==> (#[trigger] out@[j])@ == columns@[j].name@,
        decreases columns@.len() - i,
    {
        out.push(String::from_str(columns[i].name));
        i += 1;
    }
    proof {
        assert(texts(out@) =~= names(columns_view(columns@)));
    }
    out
}

/// The placeholders `?1` to `?n`.
fn placeholder_list(n: usize) -> (r: Vec<String>)
    ensures
        texts(r@) == placeholders(n as nat),
{
    let mut out: Vec<String> = Vec::new();
    let mut i: usize = 0;
    while i < n
        invariant
            i <= n,
            out@.len() == i,
            forall|j: int| 0 <= j < i ==> (#[trigger] out@[j])@ == seq!['?'] + decimal((j + 1) as nat),
        decreases n - i,
    {
        proof {
            reveal_strlit("?");
        }
        let mut p = String::from_str("?");
        let number = decimal_string(i + 1);
        p.append(number.as_str());
        assert(p@ =~= seq!['?'] + decimal((i + 1) as nat));
        out.push(p);
        i += 1;
    }
    proof {
        assert(texts(out@) =~= placeholders(n as nat));
    }
    out
}

/// For each column, `name=excluded.name`.
fn assignment_list(columns: &Vec<Column>) -> (r: Vec<String>)
    ensures
        texts(r@) == assignments(names(columns_view(columns@))),
{
    let mut out: Vec<String> = Vec::new();
    let mut i: usize = 0;
    while i < columns.len()
        invariant
            i <= columns@.len(),
            out@.len() == i,
            forall|j: int|
                0 <= j < i ==> (#[trigger] out@[j])@ == columns@[j].name@ + "=excluded."@
                    + columns@[j].name@,
        decreases columns@.len() - i,
    {
        let mut a = String::from_str(columns[i].name);
        a.append("=excluded.");
        a.append(columns[i].name);
        out.push(a);
        i += 1;
    }
    proof {
        assert(texts(out@) =~= assignments(names(columns_view(columns@))));
    }
    out
}

/// Builds the upsert statement for a row of `table` with the given key and
/// data columns. Parameter `?i` stands for the `i`-th column, keys first.
pub fn upsert_sql(table: &str, key_columns: &Vec<Column>, data_columns: &Vec<Column>) -> (r: String)
    ensures
        r@ == upsert_text(
            table@,
            names(columns_view(key_columns@)),
            names(columns_view(data_columns@)),
        ),
{
    let keys = names_of(key_columns);
    let mut all = names_of(key_columns);
    let mut rest = names_of(data_columns);
    all.append(&mut rest);
    proof {
        assert(texts(all@) =~= names(columns_view(key_columns@)) + names(
            columns_view(data_columns@),
        ));
    }
    let marks = placeholder_list(all.len());
    let sets = assignment_list(data_columns);
    let mut sql = String::from_str("INSERT INTO ");
    sql.append(table);
    sql.append("(");
    sql.append(join(&all, ", ").as_str());
    sql.append(") VALUES(");
    sql.append(join(&marks, ", ").as_str());
    sql.append(") ON CONFLICT(");
    sql.append(join(&keys, ", ").as_str());
    sql.append(") DO UPDATE SET ");
    sql.append(join(&sets, ",").as_str());
    sql
}

/// Builds the statement that selects the rows of `table` that meet
/// `predicate`.
pub fn select_where_sql(table: &str, predicate: &str) -> (r: String)
    ensures
        r@ == select_where_text(table@, predicate@),
{
    let mut sql = String::from_str("SELECT * FROM ");
    sql.append(table);
    sql.append(" WHERE ");
    sql.append(predicate);
    sql
}

/// Builds the statement that selects every row of `table`.
pub fn select_all_sql(table: &str) -> (r: String)
    ensures
        r@ == select_all_text(table@),
{
    let mut sql = String::from_str("SELECT * FROM ");
    sql.append(table);
    sql
}

/// The statements that create the two tables, each if it does not exist
/// yet. The order of the columns is the order in which rows are decoded.
pub fn schema_sql() -> (r: &'static str)
    ensures
        r@ == "CREATE TABLE IF NOT EXISTS items (id TEXT PRIMARY KEY, description TEXT NOT NULL, is_container INTEGER NOT NULL, checked_out INTEGER, destroyed INTEGER, parent_container TEXT); CREATE TABLE IF NOT EXISTS tags (item_id TEXT NOT NULL REFERENCES items(id) ON DELETE CASCADE, key TEXT NOT NULL, value TEXT NOT NULL, PRIMARY KEY (item_id, key));"@,
{
    "CREATE TABLE IF NOT EXISTS items (id TEXT PRIMARY KEY, description TEXT NOT NULL, is_container INTEGER NOT NULL, checked_out INTEGER, destroyed INTEGER, parent_container TEXT); CREATE TABLE IF NOT EXISTS tags (item_id TEXT NOT NULL REFERENCES items(id) ON DELETE CASCADE, key TEXT NOT NULL, value TEXT NOT NULL, PRIMARY KEY (item_id, key));"
}

/// The body of the answer that the service gives when the store failed.
pub fn internal_error_message(cause: &str) -> (r: String)
    ensures
        r@ == "Internal server error: "@ + cause@ + "\n"@,
{
    let mut message = String::from_str("Internal server error: ");
    message.append(cause);
    message.append("\n");
    message
}

} // verus!
