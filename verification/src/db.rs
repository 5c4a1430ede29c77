//! The persistence component: durable storage of tasks in a single SQLite
//! table (`todo`), with lazy schema creation and a typed error for every
//! failure.
//!
//! The backing store is reached only through the trusted wrappers below; each
//! wrapper runs one SQL statement and states what that statement does to the
//! abstract content of the store, `db_rows`. Everything above the wrappers is
//! verified against those contracts.

use crate::model::{
    store_create, store_delete, store_empty, store_lookup, store_update, title_taken,
    title_taken_by_other, Row,
};
use crate::task::Task;
use vstd::prelude::*;

verus! {

/// The error taxonomy of the persistence layer.
///
/// `Storage` is a statement preparation or execution failure (disk trouble, a
/// constraint violation such as a duplicate title), carrying the store's own
/// message; `NotFound` is a lookup of an id with no matching row — a typed
/// absence, never a crash.
#[derive(Debug)]
pub enum StoreError {
    Storage(String),
    NotFound,
}

impl StoreError {
    /// The response class a handler owes this error: absence is the client's
    /// problem, a storage failure is the server's.
    pub fn status_code(&self) -> (c: u16)
        ensures
            self is NotFound ==> c == 404,
            self is Storage ==> c == 500,
    {
        match self {
            StoreError::NotFound => 404,
            StoreError::Storage(_) => 500,
        }
    }
}

/// `rusqlite::Connection` is the handle to the backing SQLite store. The
/// library holds it opaquely and touches it only through the trusted wrappers
/// in this module.
#[verifier::external_type_specification]
#[verifier::external_body]
pub struct ExConnection(rusqlite::Connection);

/// The abstract content of the store behind a connection: every row of the
/// `todo` table, keyed by id, as (title, description, progress). A store
/// without a `todo` table holds no rows. The library owns the connection
/// exclusively, so nothing else changes this content between calls.
pub uninterp spec fn db_rows(conn: rusqlite::Connection) -> Map<u32, Row>;

/// Whether the `todo` table exists behind the connection, with the schema this
/// library creates: integer primary key assigned by the store, unique titles.
pub uninterp spec fn db_ready(conn: rusqlite::Connection) -> bool;

/// Relies on `rusqlite::Connection::open`: opens (creating it if missing) the
/// database file at `path`. A SQLite table holds finitely many rows.
#[verifier::external_body]
fn open_file_store(path: &String) -> (r: Result<rusqlite::Connection, StoreError>)
    ensures
        r matches Ok(c) ==> db_rows(c).dom().finite(),
        r matches Err(e) ==> e is Storage,
{
    match rusqlite::Connection::open(path) {
        Ok(c) => Ok(c),
        Err(e) => Err(StoreError::Storage(format!("{}", e))),
    }
}

/// Relies on `rusqlite::Connection::open_in_memory`: a fresh in-memory
/// database holds no tables at all, so no rows.
#[verifier::external_body]
fn open_memory_store() -> (r: Result<rusqlite::Connection, StoreError>)
    ensures
        r matches Ok(c) ==> db_rows(c) == store_empty(),
        r matches Err(e) ==> e is Storage,
{
    match rusqlite::Connection::open_in_memory() {
        Ok(c) => Ok(c),
        Err(e) => Err(StoreError::Storage(format!("{}", e))),
    }
}

/// Relies on `rusqlite::Connection::execute` running one
/// `CREATE TABLE IF NOT EXISTS` statement: on success the `todo` table exists
/// with this library's schema; the statement neither adds, changes nor removes
/// rows, and never removes an existing table.
#[verifier::external_body]
fn exec_create_table(conn: &mut rusqlite::Connection) -> (r: Result<(), StoreError>)
    ensures
        db_rows(*final(conn)) == db_rows(*old(conn)),
        r is Ok ==> db_ready(*final(conn)),
        db_ready(*old(conn)) ==> db_ready(*final(conn)),
        r matches Err(e) ==> e is Storage,
{
    let stmt = "CREATE TABLE IF NOT EXISTS todo (
        id INTEGER PRIMARY KEY AUTOINCREMENT,
        title TEXT UNIQUE NOT NULL,
        description TEXT,
        progress INTEGER DEFAULT 0
    );";
    match conn.execute(stmt, ()) {
        Ok(_) => Ok(()),
        Err(e) => Err(StoreError::Storage(format!("{}", e))),
    }
}

/// Relies on `rusqlite::Connection::execute` running one `INSERT` into `todo`,
/// and on `rusqlite::Connection::last_insert_rowid`: the store assigns the new
/// row an id it never assigned before (`AUTOINCREMENT`) and refuses a title
/// equal to an existing row's (`UNIQUE`); a failed statement changes nothing.
/// The store's ids are trusted to stay within `u32`, as the callers' do.
#[verifier::external_body]
fn exec_insert(
    conn: &mut rusqlite::Connection,
    title: &str,
    description: &str,
    progress: u8,
) -> (r: Result<u32, StoreError>)
    requires
        db_ready(*old(conn)),
    ensures
        db_ready(*final(conn)),
        r matches Ok(id) ==> !title_taken(db_rows(*old(conn)), title@)
            && !db_rows(*old(conn)).dom().contains(id) && db_rows(*final(conn)) == store_create(
            db_rows(*old(conn)),
            id,
            (title@, description@, progress),
        ),
        r is Err ==> db_rows(*final(conn)) == db_rows(*old(conn)),
        title_taken(db_rows(*old(conn)), title@) ==> r is Err,
        r matches Err(e) ==> e is Storage,
{
    let res = conn.execute(
        "INSERT INTO todo (title, description, progress) VALUES (?1, ?2, ?3);",
        (title, description, progress),
    );
    match res {
        Ok(_) => Ok(conn.last_insert_rowid() as u32),
        Err(e) => Err(StoreError::Storage(format!("{}", e))),
    }
}

/// Relies on `rusqlite::Statement::query_map` over
/// `SELECT id, title, description, progress FROM todo`: every persisted row is
/// returned exactly once, each under its id, in the store's scan order.
#[verifier::external_body]
fn query_all_rows(conn: &rusqlite::Connection) -> (r: Result<Vec<Task>, StoreError>)
    requires
        db_ready(*conn),
    ensures
        r matches Ok(v) ==> {
            &&& v@.len() == db_rows(*conn).dom().len()
            &&& forall|k: int|
                0 <= k < v@.len() ==> ((#[trigger] v@[k]).id matches Some(id) && store_lookup(
                    db_rows(*conn),
                    id,
                ) == Some(v@[k].row()))
            &&& forall|k: int, l: int|
                0 <= k < v@.len() && 0 <= l < v@.len() && k != l ==> (#[trigger] v@[k]).id != (
                #[trigger] v@[l]).id
            &&& forall|id: u32|
                #[trigger] db_rows(*conn).dom().contains(id) ==> exists|k: int|
                    0 <= k < v@.len() && (#[trigger] v@[k]).id == Some(id)
        },
        r matches Err(e) ==> e is Storage,
{
    let run = |conn: &rusqlite::Connection| -> rusqlite::Result<Vec<Task>> {
        let mut stmt = conn.prepare("SELECT id, title, description, progress FROM todo;")?;
        let rows = stmt.query_map([], |row| {
            Ok(Task {
                id: row.get(0)?,
                title: row.get(1)?,
                description: row.get(2)?,
                progress: row.get(3)?,
            })
        })?;
        rows.collect()
    };
    run(conn).map_err(|e| StoreError::Storage(format!("{}", e)))
}

/// Relies on `rusqlite::Statement::query_map` over
/// `SELECT ... FROM todo WHERE id = ?1`: the row with the given primary key
/// when the store holds one, nothing otherwise.
#[verifier::external_body]
fn query_row_by_id(conn: &rusqlite::Connection, id: u32) -> (r: Result<Option<Task>, StoreError>)
    requires
        db_ready(*conn),
    ensures
        r matches Ok(Some(t)) ==> t.id == Some(id) && store_lookup(db_rows(*conn), id) == Some(
            t.row(),
        ),
        r matches Ok(None) ==> store_lookup(db_rows(*conn), id) is None,
        r matches Err(e) ==> e is Storage,
{
    let run = |conn: &rusqlite::Connection| -> rusqlite::Result<Option<Task>> {
        let mut stmt = conn.prepare(
            "SELECT id, title, description, progress FROM todo WHERE id = ?1;",
        )?;
        let mut rows = stmt.query_map([id], |row| {
            Ok(Task {
                id: row.get(0)?,
                title: row.get(1)?,
                description: row.get(2)?,
                progress: row.get(3)?,
            })
        })?;
        rows.next().transpose()
    };
    run(conn).map_err(|e| StoreError::Storage(format!("{}", e)))
}

/// Relies on `rusqlite::Connection::execute` running one
/// `UPDATE todo SET ... WHERE id = ?4`: it overwrites title, description and
/// progress of the matching row, does nothing when no row matches, and fails
/// without a change when the new title would collide with another row's
/// (`UNIQUE`); a failed statement changes nothing.
#[verifier::external_body]
fn exec_update(
    conn: &mut rusqlite::Connection,
    id: u32,
    title: &str,
    description: &str,
    progress: u8,
) -> (r: Result<(), StoreError>)
    requires
        db_ready(*old(conn)),
    ensures
        db_ready(*final(conn)),
        r is Ok ==> db_rows(*final(conn)) == store_update(
            db_rows(*old(conn)),
            id,
            (title@, description@, progress),
        ),
        r is Err ==> db_rows(*final(conn)) == db_rows(*old(conn)),
        db_rows(*old(conn)).dom().contains(id) && title_taken_by_other(
            db_rows(*old(conn)),
            id,
            title@,
        ) ==> r is Err,
        r matches Err(e) ==> e is Storage,
{
    let res = conn.execute(
        "UPDATE todo SET title = ?1, description = ?2, progress = ?3 WHERE id = ?4;",
        (title, description, progress, id),
    );
    match res {
        Ok(_) => Ok(()),
        Err(e) => Err(StoreError::Storage(format!("{}", e))),
    }
}

/// Relies on `rusqlite::Connection::execute` running one
/// `DELETE FROM todo WHERE id = ?1`: the matching row is removed, a missing id
/// is a successful no-op, and a failed statement changes nothing.
#[verifier::external_body]
fn exec_delete(conn: &mut rusqlite::Connection, id: u32) -> (r: Result<(), StoreError>)
    requires
        db_ready(*old(conn)),
    ensures
        db_ready(*final(conn)),
        r is Ok ==> db_rows(*final(conn)) == store_delete(db_rows(*old(conn)), id),
        r is Err ==> db_rows(*final(conn)) == db_rows(*old(conn)),
        r matches Err(e) ==> e is Storage,
{
    match conn.execute("DELETE FROM todo WHERE id = ?1;", [id]) {
        Ok(_) => Ok(()),
        Err(e) => Err(StoreError::Storage(format!("{}", e))),
    }
}

/// The persistence component: the sole owner of the connection to the backing
/// store. Its abstract value (the view) is the content of the `todo` table.
pub struct Database {
    conn: rusqlite::Connection,
    ephemeral: bool,
}

impl View for Database {
    type V = Map<u32, Row>;

    closed spec fn view(&self) -> Map<u32, Row> {
        db_rows(self.conn)
    }
}

impl Database {
    /// Well-formed: the schema exists behind the connection and the store
    /// holds finitely many rows. Both constructors establish this and every
    /// operation preserves it.
    pub closed spec fn wf(&self) -> bool {
        db_ready(self.conn) && db_rows(self.conn).dom().finite()
    }

    /// Whether this database fell back to an ephemeral in-memory store instead
    /// of the configured location.
    pub closed spec fn spec_is_ephemeral(&self) -> bool {
        self.ephemeral
    }

    /// Whether this database runs on the ephemeral in-memory fallback: data
    /// written to it vanishes with the process. The fallback is observable
    /// here rather than silent, so a caller can flag it.
    pub fn is_ephemeral(&self) -> (e: bool)
        ensures
            e == self.spec_is_ephemeral(),
    {
        self.ephemeral
    }

    /// Opens the store at the given location and ensures the schema exists.
    /// When the location cannot be opened, falls back to a fresh — and
    /// therefore empty — in-memory store, marked ephemeral.
    pub fn new(filename: String) -> (r: Result<Database, StoreError>)
        ensures
            r matches Ok(db) ==> db.wf() && (db.spec_is_ephemeral() ==> db@ == store_empty()),
            r matches Err(e) ==> e is Storage,
    {
        let (opened, ephemeral): (rusqlite::Connection, bool) = match open_file_store(&filename) {
            Ok(c) => (c, false),
            Err(_) => match open_memory_store() {
                Ok(c) => (c, true),
                Err(e) => return Err(e),
            },
        };
        let mut conn = opened;
        match exec_create_table(&mut conn) {
            Ok(()) => Ok(Database { conn, ephemeral }),
            Err(e) => Err(e),
        }
    }

    /// Opens a fresh in-memory store and ensures the schema: an empty,
    /// ephemeral database.
    pub fn in_memory() -> (r: Result<Database, StoreError>)
        ensures
            r matches Ok(db) ==> db.wf() && db@ == store_empty() && db.spec_is_ephemeral(),
            r matches Err(e) ==> e is Storage,
    {
        let opened = match open_memory_store() {
            Ok(c) => c,
            Err(e) => return Err(e),
        };
        let mut conn = opened;
        match exec_create_table(&mut conn) {
            Ok(()) => Ok(Database { conn, ephemeral: true }),
            Err(e) => Err(e),
        }
    }

    /// Ensures the schema exists; idempotent, and a no-op on the rows.
    pub fn init(&mut self) -> (r: Result<(), StoreError>)
        requires
            old(self).wf(),
        ensures
            final(self).wf(),
            final(self)@ == old(self)@,
            final(self).spec_is_ephemeral() == old(self).spec_is_ephemeral(),
            r matches Err(e) ==> e is Storage,
    {
        exec_create_table(&mut self.conn)
    }

    /// Persists a new task; the store assigns it a fresh id, returned inside
    /// the task. Fails — adding nothing — when the title duplicates an
    /// existing row's, or when the store cannot run the statement.
    pub fn insert(&mut self, item: Task) -> (r: Result<Task, StoreError>)
        requires
            old(self).wf(),
            item.id is None,
        ensures
            final(self).wf(),
            final(self).spec_is_ephemeral() == old(self).spec_is_ephemeral(),
            r matches Ok(t) ==> (t.id matches Some(id) && !old(self)@.dom().contains(id)
                && final(self)@ == store_create(old(self)@, id, item.row()) && t.row()
                == item.row() && !title_taken(old(self)@, item.title@)),
            r is Err ==> final(self)@ == old(self)@,
            title_taken(old(self)@, item.title@) ==> r is Err,
            r matches Err(e) ==> e is Storage,
    {
        match exec_insert(
            &mut self.conn,
            item.title.as_str(),
            item.description.as_str(),
            item.progress,
        ) {
            Ok(id) => Ok(
                Task {
                    id: Some(id),
                    title: item.title,
                    description: item.description,
                    progress: item.progress,
                },
            ),
            Err(e) => Err(e),
        }
    }

    /// Returns every persisted task, each exactly once under its id, in the
    /// store's natural scan order (no particular order is promised). An empty
    /// store yields an empty list, not an error.
    pub fn get_all(&self) -> (r: Result<Vec<Task>, StoreError>)
        requires
            self.wf(),
        ensures
            r matches Ok(v) ==> {
                &&& v@.len() == self@.dom().len()
                &&& forall|k: int|
                    0 <= k < v@.len() ==> ((#[trigger] v@[k]).id matches Some(id) && store_lookup(
                        self@,
                        id,
                    ) == Some(v@[k].row()))
                &&& forall|k: int, l: int|
                    0 <= k < v@.len() && 0 <= l < v@.len() && k != l ==> (#[trigger] v@[k]).id != (
                    #[trigger] v@[l]).id
                &&& forall|id: u32|
                    #[trigger] self@.dom().contains(id) ==> exists|k: int|
                        0 <= k < v@.len() && (#[trigger] v@[k]).id == Some(id)
            },
            r matches Err(e) ==> e is Storage,
    {
        query_all_rows(&self.conn)
    }

    /// Fetches the task with the given id. A missing id — never assigned, or
    /// deleted — yields the typed `NotFound`, not a crash.
    pub fn get_by_id(&self, id: u32) -> (r: Result<Task, StoreError>)
        requires
            self.wf(),
        ensures
            r matches Ok(t) ==> t.id == Some(id) && store_lookup(self@, id) == Some(t.row()),
            r matches Err(e) && e is NotFound ==> store_lookup(self@, id) is None,
            store_lookup(self@, id) is None ==> !(r is Ok),
    {
        match query_row_by_id(&self.conn, id) {
            Ok(Some(t)) => Ok(t),
            Ok(None) => Err(StoreError::NotFound),
            Err(e) => Err(e),
        }
    }

    /// Overwrites title, description and progress of the row matching the
    /// task's id; succeeds as a row-level no-op when no row matches (the store
    /// does not check existence). Fails — changing nothing — when the store
    /// cannot run the statement, a title collision with another row included.
    pub fn update_todo(&mut self, item: &Task) -> (r: Result<(), StoreError>)
        requires
            old(self).wf(),
            item.id is Some,
        ensures
            final(self).wf(),
            final(self).spec_is_ephemeral() == old(self).spec_is_ephemeral(),
            r is Ok ==> (item.id matches Some(id) && final(self)@ == store_update(
                old(self)@,
                id,
                item.row(),
            )),
            r is Err ==> final(self)@ == old(self)@,
            item.id matches Some(id) && old(self)@.dom().contains(id) && title_taken_by_other(
                old(self)@,
                id,
                item.title@,
            ) ==> r is Err,
            r matches Err(e) ==> e is Storage,
    {
        let id = match item.id {
            Some(i) => i,
            None => return Err(StoreError::NotFound),
        };
        exec_update(
            &mut self.conn,
            id,
            item.title.as_str(),
            item.description.as_str(),
            item.progress,
        )
    }

    /// Removes the row with the given id; a missing id is a successful no-op
    /// (the store does not check existence). Fails — changing nothing — only
    /// when the store cannot run the statement.
    pub fn delete_by_id(&mut self, id: u32) -> (r: Result<(), StoreError>)
        requires
            old(self).wf(),
        ensures
            final(self).wf(),
            final(self).spec_is_ephemeral() == old(self).spec_is_ephemeral(),
            r is Ok ==> final(self)@ == store_delete(old(self)@, id),
            r is Err ==> final(self)@ == old(self)@,
            r matches Err(e) ==> e is Storage,
    {
        exec_delete(&mut self.conn, id)
    }
}

} // verus!
