//! The persistence layer: schema migration and the four CRUD operations
//! against the `todos` table.
//!
//! The table is modelled by the uninterpreted function [`todos_of`], a map
//! from row id to the row's title and optional description. Each operation
//! is a single parameterized SQL statement, made through a trusted wrapper
//! whose contract states what the statement does to that map; the public
//! functions are verified against those contracts.

use vstd::prelude::*;
use crate::models::{AddTodo, RemoveTodo, Todo, UpdateTodo, desc_view};

verus! {

#[verifier::external_type_specification]
#[verifier::external_body]
pub struct ExConnection(rusqlite::Connection);

#[verifier::external_type_specification]
#[verifier::external_body]
pub struct ExSqlError(rusqlite::Error);

#[verifier::external_type_specification]
#[verifier::external_body]
pub struct ExMigrationError(rusqlite_migration::Error);

/// The todo rows that a connection's database holds: a map from row id to
/// the row's title and optional description, whatever column names the
/// database's current schema revision gives them.
pub uninterp spec fn todos_of(conn: rusqlite::Connection) -> Map<int, (Seq<char>, Option<Seq<char>>)>;

/// A typed storage error carrying the underlying engine's message.
#[derive(Debug)]
pub struct DbError {
    pub message: String,
}

/// Relies on rusqlite::Connection::open: opens the database file at `path`,
/// creating it if absent. The rows it then holds are whatever the file
/// held, so nothing is claimed of them.
#[verifier::external_body]
fn open_connection(path: &str) -> (r: Result<rusqlite::Connection, rusqlite::Error>) {
    rusqlite::Connection::open(path)
}

/// Whether the table model holds no rows at all.
pub open spec fn empty_table(m: Map<int, (Seq<char>, Option<Seq<char>>)>) -> bool {
    m == Map::<int, (Seq<char>, Option<Seq<char>>)>::empty()
}

/// Relies on rusqlite::Connection::open_in_memory: a fresh in-memory
/// database holds no tables, hence no todo rows.
#[verifier::external_body]
fn open_memory_connection() -> (r: Result<rusqlite::Connection, rusqlite::Error>)
    ensures
        r matches Ok(c) ==> empty_table(todos_of(c)),
{
    rusqlite::Connection::open_in_memory()
}

/// Relies on rusqlite_migration::Migrations::to_latest (with M::up): the
/// pending schema migrations are applied in order, each at most once per
/// database, tracked by the database's persisted version marker, so a run
/// on a current database is a no-op. Each script creates or reshapes the
/// `todos` table; none inserts or deletes rows, and a failed script is
/// rolled back, so on every outcome the rows are unchanged.
#[verifier::external_body]
fn run_migrations(conn: &mut rusqlite::Connection) -> (r: Result<(), rusqlite_migration::Error>)
    ensures
        todos_of(*final(conn)) == todos_of(*old(conn)),
{
    let migrations = rusqlite_migration::Migrations::new(vec![
        rusqlite_migration::M::up("CREATE TABLE todos(id INTEGER PRIMARY KEY, item TEXT NOT NULL);"),
        rusqlite_migration::M::up("ALTER TABLE todos RENAME COLUMN item TO title;"),
        rusqlite_migration::M::up("ALTER TABLE todos ADD COLUMN description TEXT;"),
    ]);
    migrations.to_latest(conn)
}

/// Relies on rusqlite::Connection::execute with an INSERT statement: on
/// success exactly one row is inserted, under a fresh id chosen by the
/// engine; on failure the table is unchanged (single-statement
/// atomicity).
#[verifier::external_body]
fn exec_insert(conn: &mut rusqlite::Connection, title: &String, description: &String) -> (r: Result<
    usize,
    rusqlite::Error,
>)
    ensures
        r matches Ok(n) ==> n == 1usize && (exists|id: int|
            !todos_of(*old(conn)).contains_key(id) && todos_of(*final(conn))
                == todos_of(*old(conn)).insert(id, (title@, Some(description@)))),
        r is Err ==> todos_of(*final(conn)) == todos_of(*old(conn)),
{
    conn.execute("INSERT INTO todos (title, description) VALUES (?1, ?2)", (title, description))
}

/// Relies on rusqlite::Connection::execute with a DELETE statement: on
/// success the row with the given id, if present, is gone, and the count
/// of deleted rows is returned; on failure the table is unchanged.
#[verifier::external_body]
fn exec_delete(conn: &mut rusqlite::Connection, id: i32) -> (r: Result<usize, rusqlite::Error>)
    ensures
        r matches Ok(n) ==> todos_of(*final(conn)) == todos_of(*old(conn)).remove(id as int) && n
            == (if todos_of(*old(conn)).contains_key(id as int) {
            1usize
        } else {
            0usize
        }),
        r is Err ==> todos_of(*final(conn)) == todos_of(*old(conn)),
{
    conn.execute("DELETE FROM todos WHERE id=(?1)", (id,))
}

/// Relies on rusqlite::Connection::execute with an UPDATE statement: on
/// success the row with the given id, if present, carries the new title
/// and description and the count of updated rows is returned; an absent
/// id touches no row; on failure the table is unchanged.
#[verifier::external_body]
fn exec_update(
    conn: &mut rusqlite::Connection,
    id: i32,
    title: &String,
    description: &String,
) -> (r: Result<usize, rusqlite::Error>)
    ensures
        r matches Ok(n) ==> (if todos_of(*old(conn)).contains_key(id as int) {
            todos_of(*final(conn)) == todos_of(*old(conn)).insert(
                id as int,
                (title@, Some(description@)),
            ) && n == 1usize
        } else {
            todos_of(*final(conn)) == todos_of(*old(conn)) && n == 0usize
        }),
        r is Err ==> todos_of(*final(conn)) == todos_of(*old(conn)),
{
    conn.execute(
        "UPDATE todos SET title=(?1), description=(?2) WHERE id=(?3)",
        (title, description, id),
    )
}

/// How a listed sequence of records relates to the table it was read
/// from: every listed record is a row of the table, no id is listed
/// twice, every row of the table is listed, and the counts agree.
pub open spec fn lists_table(v: Seq<Todo>, m: Map<int, (Seq<char>, Option<Seq<char>>)>) -> bool {
    &&& m.dom().finite()
    &&& v.len() == m.dom().len()
    &&& (forall|i: int|
        0 <= i < v.len() ==> m.contains_key((#[trigger] v[i]).id as int) && m[v[i].id as int] == (
        v[i].title@,
        desc_view(v[i].description),
        ))
    &&& (forall|i: int, j: int|
        0 <= i < v.len() && 0 <= j < v.len() && i != j ==> (#[trigger] v[i]).id != (
        #[trigger] v[j]).id)
    &&& (forall|id: int| #[trigger]
        m.contains_key(id) ==> exists|i: int| 0 <= i < v.len() && (#[trigger] v[i]).id as int == id)
}

/// Relies on rusqlite::Connection::prepare and Statement::query_map with a
/// SELECT over the whole table: on success the collected records are
/// exactly the table's rows, each id once, in the engine's scan order.
#[verifier::external_body]
fn query_all(conn: &rusqlite::Connection) -> (r: Result<Vec<Todo>, rusqlite::Error>)
    ensures
        r matches Ok(v) ==> lists_table(v@, todos_of(*conn)),
{
    let mut stmt = conn.prepare("SELECT id, title, description FROM todos")?;
    let rows = stmt.query_map([], |row| {
        Ok(Todo { id: row.get(0)?, title: row.get(1)?, description: row.get(2)? })
    })?;
    rows.collect()
}

/// Relies on the Display impl of rusqlite::Error for the diagnostic text.
#[verifier::external_body]
fn sql_error_text(e: &rusqlite::Error) -> (r: String) {
    format!("{}", e)
}

/// Relies on the Display impl of rusqlite_migration::Error for the
/// diagnostic text.
#[verifier::external_body]
fn migration_error_text(e: &rusqlite_migration::Error) -> (r: String) {
    format!("{}", e)
}

fn sql_error(e: &rusqlite::Error) -> DbError {
    DbError { message: sql_error_text(e) }
}

/// Opens (creating if absent) the database file at its fixed relative
/// path and brings its schema to the latest revision. Fails if the file
/// cannot be opened or a migration script fails to apply; migration never
/// inserts or deletes rows.
pub fn initialize_database() -> (r: Result<rusqlite::Connection, DbError>) {
    let mut conn = match open_connection("my_database.sqlite3") {
        Ok(c) => c,
        Err(e) => {
            return Err(sql_error(&e));
        },
    };
    match run_migrations(&mut conn) {
        Ok(_) => Ok(conn),
        Err(e) => Err(DbError { message: migration_error_text(&e) }),
    }
}

/// Opens a fresh in-memory database and brings its schema to the latest
/// revision; on success the store holds no records.
pub fn initialize_memory_database() -> (r: Result<rusqlite::Connection, DbError>)
    ensures
        r matches Ok(c) ==> empty_table(todos_of(c)),
{
    let mut conn = match open_memory_connection() {
        Ok(c) => c,
        Err(e) => {
            return Err(sql_error(&e));
        },
    };
    match run_migrations(&mut conn) {
        Ok(_) => Ok(conn),
        Err(e) => Err(DbError { message: migration_error_text(&e) }),
    }
}

/// Re-applies the migration sequence to an open store. On an
/// already-current database this is a no-op, and on every outcome the
/// records are unchanged.
pub fn migrate(conn: &mut rusqlite::Connection) -> (r: Result<(), DbError>)
    ensures
        todos_of(*final(conn)) == todos_of(*old(conn)),
{
    match run_migrations(conn) {
        Ok(_) => Ok(()),
        Err(e) => Err(DbError { message: migration_error_text(&e) }),
    }
}

/// Inserts one record with the request's title and description under a
/// fresh id assigned by the store, and returns the count of inserted rows
/// (always one on success). On failure the store is unchanged.
pub fn add_todo(conn: &mut rusqlite::Connection, todo: &AddTodo) -> (r: Result<usize, DbError>)
    ensures
        r matches Ok(n) ==> n == 1usize && (exists|id: int|
            !todos_of(*old(conn)).contains_key(id) && todos_of(*final(conn))
                == todos_of(*old(conn)).insert(id, (todo.title@, Some(todo.description@)))),
        r is Err ==> todos_of(*final(conn)) == todos_of(*old(conn)),
{
    match exec_insert(conn, &todo.title, &todo.description) {
        Ok(n) => Ok(n),
        Err(e) => Err(sql_error(&e)),
    }
}

/// Deletes the record with the request's id, returning the count of
/// deleted rows: one when the id was present, zero when it was absent
/// (which is not an error). On failure the store is unchanged.
pub fn remove_todo(conn: &mut rusqlite::Connection, todo: &RemoveTodo) -> (r: Result<
    usize,
    DbError,
>)
    ensures
        r matches Ok(n) ==> todos_of(*final(conn)) == todos_of(*old(conn)).remove(todo.id as int)
            && n == (if todos_of(*old(conn)).contains_key(todo.id as int) {
            1usize
        } else {
            0usize
        }),
        r is Err ==> todos_of(*final(conn)) == todos_of(*old(conn)),
{
    match exec_delete(conn, todo.id) {
        Ok(n) => Ok(n),
        Err(e) => Err(sql_error(&e)),
    }
}

/// Replaces both mutable fields of the record with the request's id,
/// returning the count of updated rows: one when the id was present, zero
/// when it was absent (which is not an error, and changes nothing). On
/// failure the store is unchanged.
pub fn update_todo(conn: &mut rusqlite::Connection, todo: &UpdateTodo) -> (r: Result<
    usize,
    DbError,
>)
    ensures
        r matches Ok(n) ==> (if todos_of(*old(conn)).contains_key(todo.id as int) {
            todos_of(*final(conn)) == todos_of(*old(conn)).insert(
                todo.id as int,
                (todo.title@, Some(todo.description@)),
            ) && n == 1usize
        } else {
            todos_of(*final(conn)) == todos_of(*old(conn)) && n == 0usize
        }),
        r is Err ==> todos_of(*final(conn)) == todos_of(*old(conn)),
{
    match exec_update(conn, todo.id, &todo.title, &todo.description) {
        Ok(n) => Ok(n),
        Err(e) => Err(sql_error(&e)),
    }
}

/// Reads every record of the store. On success the returned sequence
/// lists exactly the stored records, each id once; on a fresh store it is
/// empty, not an error.
pub fn get_all_todos(conn: &rusqlite::Connection) -> (r: Result<Vec<Todo>, DbError>)
    ensures
        r matches Ok(v) ==> lists_table(v@, todos_of(*conn)),
{
    match query_all(conn) {
        Ok(v) => Ok(v),
        Err(e) => Err(sql_error(&e)),
    }
}

} // verus!
