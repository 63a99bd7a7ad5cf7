//! The decisions of the JSON handlers under `/todos`: the row that a
//! request writes, and the status and body that each database outcome is
//! answered with. A failed request is answered with a status and a text.
//!
//! The queries themselves are run by the caller; these functions take what
//! the database handed back (its error as the error's message).

use vstd::prelude::*;
use crate::model::{HttpStatus, TodoModel};

verus! {

/// The body of a creation request.
pub struct CreateTodo {
    pub title: String,
}

/// The body of an update request.
pub struct UpdateTodo {
    pub title: String,
    pub completed: bool,
}

/// A row to insert; the database chooses its id.
pub struct NewTodo {
    pub title: String,
    pub completed: bool,
}

/// Whether `res` is the answer to a failed query whose error reads `m`.
pub open spec fn is_database_failure<T>(res: Result<T, (HttpStatus, String)>, m: String) -> bool {
    res matches Err((s, n)) && s == HttpStatus::InternalServerError && n@ == m@
}

/// Whether `res` is the answer for an id that no todo has.
pub open spec fn is_not_found<T>(res: Result<T, (HttpStatus, String)>) -> bool {
    res matches Err((s, n)) && s == HttpStatus::NotFound && n@ == "Todo not found"@
}

/// The answer for an id that no todo has.
fn not_found() -> (res: (HttpStatus, String))
    ensures
        res.0 == HttpStatus::NotFound,
        res.1@ == "Todo not found"@,
{
    (HttpStatus::NotFound, String::from_str("Todo not found"))
}

/// The answer to a listing, given what the query ordered by id gave.
pub fn list_todos_response(rows: Result<Vec<TodoModel>, String>) -> (res: Result<
    Vec<TodoModel>,
    (HttpStatus, String),
>)
    ensures
        rows matches Ok(v) ==> res == Ok::<Vec<TodoModel>, (HttpStatus, String)>(v),
        rows matches Err(m) ==> is_database_failure(res, m),
{
    match rows {
        Ok(v) => Ok(v),
        Err(m) => Err((HttpStatus::InternalServerError, m)),
    }
}

/// The row that a creation request inserts: its title as sent, not done.
pub fn new_todo(payload: CreateTodo) -> (row: NewTodo)
    ensures
        row.title == payload.title,
        !row.completed,
{
    NewTodo { title: payload.title, completed: false }
}

/// The answer to a creation, given what the insert gave.
pub fn create_todo_response(row: Result<TodoModel, String>) -> (res: Result<
    (HttpStatus, TodoModel),
    (HttpStatus, String),
>)
    ensures
        row matches Ok(t) ==> res == Ok::<(HttpStatus, TodoModel), (HttpStatus, String)>(
            (HttpStatus::Created, t),
        ),
        row matches Err(m) ==> is_database_failure(res, m),
{
    match row {
        Ok(t) => Ok((HttpStatus::Created, t)),
        Err(m) => Err((HttpStatus::InternalServerError, m)),
    }
}

/// The answer to a lookup by id, given what the lookup gave.
pub fn get_todo_response(row: Result<Option<TodoModel>, String>) -> (res: Result<
    TodoModel,
    (HttpStatus, String),
>)
    ensures
        row matches Ok(Some(t)) ==> res == Ok::<TodoModel, (HttpStatus, String)>(t),
        row matches Ok(None) ==> is_not_found(res),
        row matches Err(m) ==> is_database_failure(res, m),
{
    match row {
        Ok(Some(t)) => Ok(t),
        Ok(None) => Err(not_found()),
        Err(m) => Err((HttpStatus::InternalServerError, m)),
    }
}

/// The row that an update request writes, given what the lookup of its id
/// gave: the found row, with the title and completion of the request.
pub fn update_todo_target(found: Result<Option<TodoModel>, String>, payload: UpdateTodo) -> (res:
    Result<TodoModel, (HttpStatus, String)>)
    ensures
        found matches Ok(Some(t)) ==> res == Ok::<TodoModel, (HttpStatus, String)>(
            TodoModel { id: t.id, title: payload.title, completed: payload.completed },
        ),
        found matches Ok(None) ==> is_not_found(res),
        found matches Err(m) ==> is_database_failure(res, m),
{
    match found {
        Ok(Some(t)) => Ok(TodoModel { id: t.id, title: payload.title, completed: payload.completed }),
        Ok(None) => Err(not_found()),
        Err(m) => Err((HttpStatus::InternalServerError, m)),
    }
}

/// The answer to an update, given what writing the row gave.
pub fn update_todo_response(row: Result<TodoModel, String>) -> (res: Result<
    TodoModel,
    (HttpStatus, String),
>)
    ensures
        row matches Ok(t) ==> res == Ok::<TodoModel, (HttpStatus, String)>(t),
        row matches Err(m) ==> is_database_failure(res, m),
{
    match row {
        Ok(t) => Ok(t),
        Err(m) => Err((HttpStatus::InternalServerError, m)),
    }
}

/// The answer to a deletion, given the number of rows that it removed.
pub fn delete_todo_response(rows_affected: Result<u64, String>) -> (res: Result<
    HttpStatus,
    (HttpStatus, String),
>)
    ensures
        rows_affected matches Ok(n) && n > 0 ==> res == Ok::<HttpStatus, (HttpStatus, String)>(
            HttpStatus::NoContent,
        ),
        rows_affected matches Ok(n) && n == 0 ==> is_not_found(res),
        rows_affected matches Err(m) ==> is_database_failure(res, m),
{
    match rows_affected {
        Ok(0) => Err(not_found()),
        Ok(_) => Ok(HttpStatus::NoContent),
        Err(m) => Err((HttpStatus::InternalServerError, m)),
    }
}

/// The answer to a request for the favicon, which the server does not have.
pub fn no_favicon() -> (res: HttpStatus)
    ensures
        res == HttpStatus::NoContent,
{
    HttpStatus::NoContent
}

} // verus!
