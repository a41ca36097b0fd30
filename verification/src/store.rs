//! The storage engine: owns the one database connection and offers the four
//! operations — list, add, toggle, delete — each with a contract over the
//! table model. Exclusive access to the connection is enforced by ownership:
//! the mutating operations take the store by mutable reference.

use vstd::prelude::*;

use crate::model::{added, empty_rows, list_matches, toggled, wf_state, Rows, StoreError, Todo};
use crate::sqlite;

verus! {

/// A handle to one to-do database: the sole owner of its connection.
pub struct Database {
    conn: rusqlite::Connection,
}

impl Database {
    /// The table this store holds, as the model reads it.
    pub closed spec fn rows(&self) -> Rows {
        sqlite::db_rows(self.conn)
    }

    /// The largest id ever assigned in this store's table (zero where none
    /// has been): ids below here are spent and never reused.
    pub closed spec fn high(&self) -> int {
        sqlite::db_high(self.conn)
    }

    /// Every store this module hands out is well formed, and every operation
    /// keeps it so.
    pub open spec fn inv(&self) -> bool {
        wf_state(self.rows(), self.high())
    }

    /// Open (creating the file if absent) the database at `path` and make
    /// sure its `todos` table exists. Fails with `StoreError::Init` when the
    /// file cannot be opened or the table cannot be created; the store must
    /// then not be used.
    pub fn new(path: &str) -> (r: Result<Database, StoreError>)
        ensures
            r matches Ok(db) ==> db.inv(),
            r is Err ==> r->Err_0 == StoreError::Init,
    {
        let mut conn = match sqlite::open_file(path) {
            Ok(c) => c,
            Err(_) => {
                return Err(StoreError::Init);
            },
        };
        match sqlite::create_table(&mut conn) {
            Ok(()) => Ok(Database { conn }),
            Err(_) => Err(StoreError::Init),
        }
    }

    /// Open a store on a fresh in-memory database: it starts empty, with no
    /// id ever assigned, and lives only as long as the handle.
    pub fn new_in_memory() -> (r: Result<Database, StoreError>)
        ensures
            r matches Ok(db) ==> db.inv() && db.rows() == empty_rows() && db.high() == 0,
            r is Err ==> r->Err_0 == StoreError::Init,
    {
        let mut conn = match sqlite::open_memory() {
            Ok(c) => c,
            Err(_) => {
                return Err(StoreError::Init);
            },
        };
        match sqlite::create_table(&mut conn) {
            Ok(()) => Ok(Database { conn }),
            Err(_) => Err(StoreError::Init),
        }
    }

    /// List every record of the table: one `Todo` per table entry, each with
    /// the text and flag the table holds for its id, in no promised order.
    /// Fails with `StoreError::Query` when the read fails or a row does not
    /// decode, rather than return a listing with rows missing.
    pub fn get_all_todos(&self) -> (r: Result<Vec<Todo>, StoreError>)
        ensures
            r matches Ok(v) ==> list_matches(self.rows(), v@),
            r is Err ==> r->Err_0 == StoreError::Query,
    {
        match sqlite::select_all(&self.conn) {
            Ok(v) => Ok(v),
            Err(_) => Err(StoreError::Query),
        }
    }

    /// Add a record with the supplied text and a cleared completion flag. On
    /// success the record's id is one past the old high-water mark — unique,
    /// never seen in this table before — and every other record is
    /// unchanged. On failure (`StoreError::Query`, an input-output error or
    /// an id space exhausted) the table is unchanged.
    pub fn add_todo(&mut self, task: String) -> (r: Result<(), StoreError>)
        requires
            old(self).inv(),
        ensures
            final(self).inv(),
            r is Ok ==> old(self).high() < i64::MAX && final(self).high() == old(self).high() + 1
                && final(self).rows() == added(old(self).rows(), old(self).high(), task@) && !old(
                self,
            ).rows().dom().contains(old(self).high() + 1),
            r is Err ==> final(self).rows() == old(self).rows() && final(self).high() == old(
                self,
            ).high() && r->Err_0 == StoreError::Query,
    {
        match sqlite::insert_row(&mut self.conn, task.as_str()) {
            Ok(()) => Ok(()),
            Err(_) => Err(StoreError::Query),
        }
    }

    /// Flip the completion flag of the record with the given id, leaving its
    /// text and every other record unchanged; a no-op when no record has the
    /// id. Never assigns or frees an id. On failure (`StoreError::Query`)
    /// the table is unchanged.
    pub fn toggle_todo(&mut self, id: i64) -> (r: Result<(), StoreError>)
        requires
            old(self).inv(),
        ensures
            final(self).inv(),
            final(self).high() == old(self).high(),
            r is Ok && old(self).rows().dom().contains(id as int) ==> final(self).rows()
                == toggled(old(self).rows(), id as int),
            r is Ok && !old(self).rows().dom().contains(id as int) ==> final(self).rows() == old(
                self,
            ).rows(),
            r is Err ==> final(self).rows() == old(self).rows() && r->Err_0 == StoreError::Query,
    {
        match sqlite::update_toggle(&mut self.conn, id) {
            Ok(()) => Ok(()),
            Err(_) => Err(StoreError::Query),
        }
    }

    /// Remove the record with the given id, leaving every other record
    /// unchanged; a no-op when no record has the id. The id stays spent:
    /// the high-water mark does not move, so the id is never reused. On
    /// failure (`StoreError::Query`) the table is unchanged.
    pub fn delete_todo(&mut self, id: i64) -> (r: Result<(), StoreError>)
        requires
            old(self).inv(),
        ensures
            final(self).inv(),
            final(self).high() == old(self).high(),
            r is Ok ==> final(self).rows() == old(self).rows().remove(id as int),
            r is Err ==> final(self).rows() == old(self).rows() && r->Err_0 == StoreError::Query,
    {
        match sqlite::delete_row(&mut self.conn, id) {
            Ok(()) => Ok(()),
            Err(_) => Err(StoreError::Query),
        }
    }
}

} // verus!
