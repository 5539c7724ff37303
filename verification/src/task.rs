//! The domain types: the `Task` entity, the client request shape, the query
//! selector, and the error taxonomy of the service.

use vstd::prelude::*;

verus! {

/// The one persisted entity: a to-do item. `id` is assigned by the storage
/// layer on insert and immutable afterwards; the three text fields are
/// nullable end to end.
#[derive(Debug)]
pub struct Task {
    pub id: u32,
    pub task: Option<String>,
    pub time: Option<String>,
    pub subject: Option<String>,
}

/// A client-supplied payload for creating a task: the three optional text
/// fields, and deliberately no `id` — ids are never client-supplied on create.
#[derive(Debug)]
pub struct TaskReq {
    pub task: Option<String>,
    pub time: Option<String>,
    pub subject: Option<String>,
}

/// The four operations of the query layer, as data.
pub enum Queries {
    GetAllTasks,
    TaskById(u32),
    ChangeTask(Task),
    NewTask(Task),
}

/// What can go wrong between a request and the store.
#[derive(Debug, Clone, Copy, PartialEq, Eq, Structural)]
pub enum ApiError {
    /// The pool could not supply a connection.
    StorageUnavailable,
    /// A SQL statement or its row mapping failed.
    QueryFailed,
    /// A path or body did not parse into the expected shape.
    MalformedInput,
}

impl ApiError {
    /// The HTTP status an error maps to: parse failures are the client's
    /// fault, everything else is a server-side failure.
    pub fn status_code(&self) -> (code: u16)
        ensures
            code == (if *self == ApiError::MalformedInput {
                400u16
            } else {
                500u16
            }),
    {
        match self {
            ApiError::StorageUnavailable => 500,
            ApiError::QueryFailed => 500,
            ApiError::MalformedInput => 400,
        }
    }
}

/// Copies an optional text field; the copy holds the very same value.
fn clone_opt_string(s: &Option<String>) -> (r: Option<String>)
    ensures
        r == *s,
{
    match s {
        Some(x) => Some(x.clone()),
        None => None,
    }
}

impl Clone for Task {
    /// A clone is equal to the original, field for field.
    fn clone(&self) -> (r: Self)
        ensures
            r == *self,
    {
        Task {
            id: self.id,
            task: clone_opt_string(&self.task),
            time: clone_opt_string(&self.time),
            subject: clone_opt_string(&self.subject),
        }
    }
}

impl Default for Task {
    /// The sample task: unassigned id and three filled-in text fields.
    fn default() -> (t: Self)
        ensures
            t.id == 0,
            t.task matches Some(s) && s@ == "Do my homework"@,
            t.time matches Some(s) && s@ == "50 min"@,
            t.subject matches Some(s) && s@ == "math"@,
    {
        Task {
            id: 0,
            task: Some("Do my homework".to_string()),
            time: Some("50 min".to_string()),
            subject: Some("math".to_string()),
        }
    }
}

impl TaskReq {
    /// Builds the task a create request stands for: the request's fields under
    /// the unassigned-id sentinel `0`; any notion of a client-chosen id is
    /// structurally impossible here.
    pub fn into_task(self) -> (t: Task)
        ensures
            t == (Task { id: 0u32, task: self.task, time: self.time, subject: self.subject }),
    {
        Task { id: 0, task: self.task, time: self.time, subject: self.subject }
    }
}

/// The fixed health-check body served under `/status`.
pub fn status_message() -> (msg: &'static str)
    ensures
        msg@ == "Server is running"@,
{
    "Server is running"
}

} // verus!
