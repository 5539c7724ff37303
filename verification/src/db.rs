//! The query layer against the real store: four operations over a pooled
//! SQLite connection. Each SQL statement stands behind a small trusted
//! wrapper; everything around the calls — error mapping, the echo of an
//! update, the shape of a created row — is verified. What the statements do
//! to the table is modelled and proved in `store`.

use vstd::prelude::*;
use crate::task::{ApiError, Queries, Task};

verus! {

#[verifier::external_type_specification]
#[verifier::external_body]
pub struct ExRusqliteError(rusqlite::Error);

/// A connection checked out of the pool, opaque to the verifier; it returns
/// to the pool when dropped. (`r2d2::PooledConnection` itself cannot be
/// declared to the verifier: its type parameter is bound by r2d2's
/// `ManageConnection` trait, which the verifier does not know.) The field is
/// public so that the unverified boundary can check a connection out of its
/// pool and hand it in.
#[verifier::external_body]
pub struct Connection {
    pub inner: r2d2::PooledConnection<r2d2_sqlite::SqliteConnectionManager>,
}

/// Relies on rusqlite's `Connection::prepare` and `Statement::query_map` to
/// run `SELECT id, task, time, subject FROM task`: every row of the table, in
/// storage-native order, mapped column by column onto `Task`. What comes back
/// depends on the database alone, so nothing is promised of the rows.
#[verifier::external_body]
fn select_all_tasks(conn: &Connection) -> Result<Vec<Task>, rusqlite::Error> {
    let mut stmt = conn.inner.prepare("SELECT id, task, time, subject FROM task")?;
    let rows = stmt.query_map([], |row| {
        Ok(Task { id: row.get(0)?, task: row.get(1)?, time: row.get(2)?, subject: row.get(3)? })
    })?;
    let mut out = Vec::new();
    for row in rows {
        out.push(row?);
    }
    Ok(out)
}

/// Relies on rusqlite's `Connection::prepare` and `Statement::query_map` to
/// run `SELECT id, task, time, subject FROM task WHERE id = (?)`: the WHERE
/// clause lets only rows whose `id` column equals the parameter through, and
/// that column is what the first mapped field is read from.
#[verifier::external_body]
fn select_tasks_by_id(conn: &Connection, id: u32) -> (r: Result<Vec<Task>, rusqlite::Error>)
    ensures
        r matches Ok(v) ==> forall|i: int| 0 <= i < v@.len() ==> (#[trigger] v@[i]).id == id,
{
    let mut stmt = conn.inner.prepare("SELECT id, task, time, subject FROM task WHERE id = (?)")?;
    let rows = stmt.query_map([&id], |row| {
        Ok(Task { id: row.get(0)?, task: row.get(1)?, time: row.get(2)?, subject: row.get(3)? })
    })?;
    let mut out = Vec::new();
    for row in rows {
        out.push(row?);
    }
    Ok(out)
}

/// Relies on rusqlite's `Connection::execute` to run
/// `UPDATE task set task = (?1), time = (?2), subject = (?3) WHERE id = (?4)`.
/// How many rows matched depends on the database, so nothing is promised of
/// the count; absent fields are bound as SQL NULL.
#[verifier::external_body]
fn update_task_row(conn: &Connection, t: &Task) -> Result<usize, rusqlite::Error> {
    conn.inner.execute(
        "UPDATE task set task = (?1), time = (?2), subject = (?3) WHERE id = (?4)",
        (&t.task, &t.time, &t.subject, t.id),
    )
}

/// Relies on rusqlite's `Connection::execute` to run
/// `INSERT INTO task (task, time, subject) VALUES (?1, ?2, ?3)`: only the
/// three text fields are handed to the store — no id — so the store assigns
/// the row's id itself; absent fields are bound as SQL NULL.
#[verifier::external_body]
fn insert_task_row(conn: &Connection, t: &Task) -> Result<usize, rusqlite::Error> {
    conn.inner.execute(
        "INSERT INTO task (task, time, subject) VALUES (?1, ?2, ?3)",
        (&t.task, &t.time, &t.subject),
    )
}

/// Relies on rusqlite's `Connection::last_insert_rowid`: the rowid of the
/// most recent successful INSERT on this connection. Its value depends on
/// the database, so nothing is promised of it.
#[verifier::external_body]
fn last_insert_id(conn: &Connection) -> i64 {
    conn.inner.last_insert_rowid()
}

/// Returns every row of the `task` table; any storage failure comes back as
/// `QueryFailed`, never as a panic.
pub fn get_tasks(conn: &Connection) -> (r: Result<Vec<Task>, ApiError>)
    ensures
        r matches Err(e) ==> e == ApiError::QueryFailed,
{
    match select_all_tasks(conn) {
        Ok(v) => Ok(v),
        Err(_) => Err(ApiError::QueryFailed),
    }
}

/// Returns the rows whose id matches — an empty vector, not an error, when
/// none does; any storage failure comes back as `QueryFailed`.
pub fn get_task_by_id(conn: &Connection, id: u32) -> (r: Result<Vec<Task>, ApiError>)
    ensures
        r matches Ok(v) ==> forall|i: int| 0 <= i < v@.len() ==> (#[trigger] v@[i]).id == id,
        r matches Err(e) ==> e == ApiError::QueryFailed,
{
    match select_tasks_by_id(conn, id) {
        Ok(v) => Ok(v),
        Err(_) => Err(ApiError::QueryFailed),
    }
}

/// Replaces the three text fields of the row keyed by `task.id` and reports
/// success by echoing the input as a single-row result, whether or not any
/// row matched; any storage failure comes back as `QueryFailed`.
pub fn change_task(conn: &Connection, task: Task) -> (r: Result<Vec<Task>, ApiError>)
    ensures
        r matches Ok(v) ==> v@ == seq![task],
        r matches Err(e) ==> e == ApiError::QueryFailed,
{
    let echoed = task.clone();
    match update_task_row(conn, &task) {
        Ok(_) => {
            let mut v: Vec<Task> = Vec::new();
            v.push(echoed);
            proof {
                assert(v@ =~= seq![task]);
            }
            Ok(v)
        },
        Err(_) => Err(ApiError::QueryFailed),
    }
}

/// Inserts the three text fields of `task` — its id is not handed to the
/// store — and returns the single created row: the same fields under the
/// storage-assigned id read back from the connection. Any storage failure
/// comes back as `QueryFailed`.
pub fn new_task(conn: &Connection, task: Task) -> (r: Result<Vec<Task>, ApiError>)
    ensures
        r matches Ok(v) ==> {
            &&& v@.len() == 1
            &&& v@[0].task == task.task
            &&& v@[0].time == task.time
            &&& v@[0].subject == task.subject
        },
        r matches Err(e) ==> e == ApiError::QueryFailed,
{
    match insert_task_row(conn, &task) {
        Ok(_) => {
            let last_id = last_insert_id(conn);
            let assigned = Task {
                id: #[verifier::truncate] (last_id as u32),
                task: task.task,
                time: task.time,
                subject: task.subject,
            };
            let mut v: Vec<Task> = Vec::new();
            v.push(assigned);
            Ok(v)
        },
        Err(_) => Err(ApiError::QueryFailed),
    }
}

/// Dispatches one query-layer operation on a checked-out connection. Every
/// storage failure surfaces as `QueryFailed`; what each operation promises of
/// its rows carries over from the four functions above.
pub fn execute(conn: &Connection, query: Queries) -> (r: Result<Vec<Task>, ApiError>)
    ensures
        query matches Queries::TaskById(id) ==> (r matches Ok(v) ==> forall|i: int|
            0 <= i < v@.len() ==> (#[trigger] v@[i]).id == id),
        query matches Queries::ChangeTask(t) ==> (r matches Ok(v) ==> v@ == seq![t]),
        query matches Queries::NewTask(t) ==> (r matches Ok(v) ==> {
            &&& v@.len() == 1
            &&& v@[0].task == t.task
            &&& v@[0].time == t.time
            &&& v@[0].subject == t.subject
        }),
        r matches Err(e) ==> e == ApiError::QueryFailed,
{
    match query {
        Queries::GetAllTasks => get_tasks(conn),
        Queries::TaskById(id) => get_task_by_id(conn, id),
        Queries::ChangeTask(task) => change_task(conn, task),
        Queries::NewTask(task) => new_task(conn, task),
    }
}

} // verus!
