//! The trusted boundary around the embedded database. Everything below is
//! believed, not proved: each item's contract states what rusqlite and
//! SQLite document for the one call its body makes.
//!
//! The model speaks of the `todos` table under the schema [`create_table`]
//! makes (`id INTEGER PRIMARY KEY AUTOINCREMENT, task TEXT NOT NULL,
//! completed BOOLEAN NOT NULL`): a database file whose `todos` table was
//! made with another schema, or whose rows were written so that they do not
//! decode as `(i64, String, bool)`, is outside it.

use vstd::prelude::*;

use crate::model::{list_matches, wf_state, Todo};

verus! {

#[verifier::external_type_specification]
#[verifier::external_body]
pub struct ExConnection(rusqlite::Connection);

#[verifier::external_type_specification]
#[verifier::external_body]
pub struct ExSqlError(rusqlite::Error);

/// The decoded contents of the connection's `todos` table: each id present,
/// mapped to its task text and completion flag. Empty where the table is
/// absent. A row whose columns do not decode as `(i64, String, bool)` is not
/// in the map (the library's own writes always decode; [`select_all`] reports
/// an error rather than return a listing that misses such a row).
pub uninterp spec fn db_rows(c: rusqlite::Connection) -> Map<int, (Seq<char>, bool)>;

/// The largest id that has ever been in the connection's `todos` table, or
/// zero where none has been positive: the reading of the table's
/// `AUTOINCREMENT` sequence, which SQLite keeps so that ids are never reused
/// within the database file's lifetime.
pub uninterp spec fn db_high(c: rusqlite::Connection) -> int;

/// Relies on `rusqlite::Connection::open`: opens the database file at
/// `path`, creating the file if absent. Whatever the file held, the table is
/// finite, every present id has existed, and ids are 64-bit: a well-formed
/// state.
#[verifier::external_body]
pub(crate) fn open_file(path: &str) -> (r: Result<rusqlite::Connection, rusqlite::Error>)
    ensures
        r matches Ok(c) ==> wf_state(db_rows(c), db_high(c)),
{
    rusqlite::Connection::open(path)
}

/// Relies on `rusqlite::Connection::open_in_memory`: a fresh in-memory
/// database holds no tables, so its `todos` table is empty and no id has
/// ever been in it.
#[verifier::external_body]
pub(crate) fn open_memory() -> (r: Result<rusqlite::Connection, rusqlite::Error>)
    ensures
        r is Ok ==> db_rows(r->Ok_0) == crate::model::empty_rows(),
        r is Ok ==> db_high(r->Ok_0) == 0,
{
    rusqlite::Connection::open_in_memory()
}

/// Relies on `rusqlite::Connection::execute` with `CREATE TABLE IF NOT
/// EXISTS`: an existing `todos` table is left as it is; an absent one is
/// created empty, which the model already reads as empty. Either way the
/// model is unchanged, and SQLite statements are atomic, so a failure
/// changes nothing either.
#[verifier::external_body]
pub(crate) fn create_table(c: &mut rusqlite::Connection) -> (r: Result<(), rusqlite::Error>)
    ensures
        db_rows(*final(c)) == db_rows(*old(c)),
        db_high(*final(c)) == db_high(*old(c)),
{
    c.execute(
        "CREATE TABLE IF NOT EXISTS todos (
            id INTEGER PRIMARY KEY AUTOINCREMENT,
            task TEXT NOT NULL,
            completed BOOLEAN NOT NULL
        )",
        (),
    ).map(|_| ())
}

/// Relies on `rusqlite::Connection::execute` with `INSERT`: with
/// `AUTOINCREMENT`, SQLite gives the new row an id one larger than the
/// largest that has ever been in the table (and reports an error instead
/// once that would not fit the id type), with the supplied text and a false
/// flag bound as the two parameters. Statements are atomic: on an error
/// nothing changed.
#[verifier::external_body]
pub(crate) fn insert_row(c: &mut rusqlite::Connection, task: &str) -> (r: Result<
    (),
    rusqlite::Error,
>)
    ensures
        r is Ok ==> db_high(*old(c)) < i64::MAX && db_high(*final(c)) == db_high(*old(c)) + 1
            && db_rows(*final(c)) == db_rows(*old(c)).insert(
            db_high(*old(c)) + 1,
            (task@, false),
        ),
        r is Err ==> db_rows(*final(c)) == db_rows(*old(c)) && db_high(*final(c)) == db_high(
            *old(c),
        ),
{
    c.execute("INSERT INTO todos (task, completed) VALUES (?1, ?2)", (task, false)).map(|_| ())
}

/// Relies on `rusqlite::Connection::execute` with `UPDATE ... SET completed
/// = NOT completed WHERE id = ?1`: exactly the row whose id matches has its
/// flag flipped; no row matches, nothing changes. An update assigns no id,
/// so the high-water mark stays. Statements are atomic: on an error nothing
/// changed.
#[verifier::external_body]
pub(crate) fn update_toggle(c: &mut rusqlite::Connection, id: i64) -> (r: Result<
    (),
    rusqlite::Error,
>)
    ensures
        db_high(*final(c)) == db_high(*old(c)),
        r is Ok && db_rows(*old(c)).dom().contains(id as int) ==> db_rows(*final(c)) == db_rows(
            *old(c),
        ).insert(
            id as int,
            (db_rows(*old(c))[id as int].0, !db_rows(*old(c))[id as int].1),
        ),
        r is Ok && !db_rows(*old(c)).dom().contains(id as int) ==> db_rows(*final(c)) == db_rows(
            *old(c),
        ),
        r is Err ==> db_rows(*final(c)) == db_rows(*old(c)),
{
    c.execute("UPDATE todos SET completed = NOT completed WHERE id = ?1", (id,)).map(|_| ())
}

/// Relies on `rusqlite::Connection::execute` with `DELETE ... WHERE id =
/// ?1`: exactly the row whose id matches is removed; no row matches, nothing
/// changes (which is what removing an absent key means). A delete never
/// lowers the `AUTOINCREMENT` sequence, and assigns no id, so the high-water
/// mark stays. Statements are atomic: on an error nothing changed.
#[verifier::external_body]
pub(crate) fn delete_row(c: &mut rusqlite::Connection, id: i64) -> (r: Result<
    (),
    rusqlite::Error,
>)
    ensures
        db_high(*final(c)) == db_high(*old(c)),
        r is Ok ==> db_rows(*final(c)) == db_rows(*old(c)).remove(id as int),
        r is Err ==> db_rows(*final(c)) == db_rows(*old(c)),
{
    c.execute("DELETE FROM todos WHERE id = ?1", (id,)).map(|_| ())
}

/// Relies on `rusqlite::Connection::prepare`, `Statement::query_map` and
/// `Row::get` with `SELECT id, task, completed FROM todos`: the statement
/// yields every row of the table exactly once, each with its id, text and
/// flag. A row that does not decode, or a read that fails part way, fails
/// the whole listing rather than drop rows silently; on success the listing
/// is exactly the table, in whatever order SQLite returned the rows.
#[verifier::external_body]
pub(crate) fn select_all(c: &rusqlite::Connection) -> (r: Result<Vec<Todo>, rusqlite::Error>)
    ensures
        r matches Ok(v) ==> list_matches(db_rows(*c), v@),
{
    let mut stmt = c.prepare("SELECT id, task, completed FROM todos")?;
    let rows = stmt.query_map(
        (),
        |row| Ok(Todo { id: row.get(0)?, task: row.get(1)?, completed: row.get(2)? }),
    )?;
    rows.collect()
}

} // verus!
