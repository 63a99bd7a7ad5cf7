//! The decisions of the server functions that the pages call: which titles
//! may be stored, and how each database outcome is answered, with the HTTP
//! status that the response is to carry.
//!
//! The queries themselves are run by the caller; these functions take what
//! the database handed back (its error as the error's message).

use vstd::prelude::*;
use crate::model::{ApiError, HttpStatus, TodoModel};
use crate::text::{
    is_white_space, lemma_trim_keeps_text_without_end_white_space, lemma_trimmed_ends, trim,
    trim_chars,
};

verus! {

/// What a server function answers, and the status that it sets on the
/// response where it sets one.
pub struct Reply<T> {
    pub result: Result<T, ApiError>,
    pub status: Option<HttpStatus>,
}

/// A value bound to a parameter of a query.
#[derive(Debug)]
pub enum SqlValue {
    Int(i32),
    Text(String),
    Bool(bool),
}

/// A statement for the database, with the values of its parameters `$1`,
/// `$2`, ... in order.
#[derive(Debug)]
pub struct Query {
    pub sql: &'static str,
    pub values: Vec<SqlValue>,
}

/// The statement that lists every todo, by id.
pub open spec fn list_sql() -> Seq<char> {
    "SELECT id, title, completed FROM todos ORDER BY id"@
}

/// The statement that reads the todo `$1`.
pub open spec fn get_sql() -> Seq<char> {
    "SELECT id, title, completed FROM todos WHERE id = $1"@
}

/// The statement that inserts an open todo titled `$1`.
pub open spec fn insert_sql() -> Seq<char> {
    "INSERT INTO todos (title, completed) VALUES ($1, FALSE) RETURNING id, title, completed"@
}

/// The statement that sets the title `$1` and completion `$2` of the todo `$3`.
pub open spec fn update_sql() -> Seq<char> {
    "UPDATE todos SET title = $1, completed = $2 WHERE id = $3 RETURNING id, title, completed"@
}

/// The statement that removes the todo `$1`.
pub open spec fn delete_sql() -> Seq<char> {
    "DELETE FROM todos WHERE id = $1"@
}

/// The query that lists every todo, ordered by id.
pub fn list_todos_query() -> (q: Query)
    ensures
        q.sql@ == list_sql(),
        q.values@.len() == 0,
{
    Query { sql: "SELECT id, title, completed FROM todos ORDER BY id", values: Vec::new() }
}

/// The query that reads the todo `id`.
pub fn get_todo_query(id: i32) -> (q: Query)
    ensures
        q.sql@ == get_sql(),
        q.values@.len() == 1,
        q.values@[0] == SqlValue::Int(id),
{
    let mut values: Vec<SqlValue> = Vec::new();
    values.push(SqlValue::Int(id));
    Query { sql: "SELECT id, title, completed FROM todos WHERE id = $1", values }
}

/// The query that creates a todo titled `title`, or why there is none: the
/// title is validated first, and its trimmed form is what is inserted.
pub fn create_todo_query(title: String) -> (res: Result<Query, ApiError>)
    ensures
        trim_chars(title@).len() == 0 <==> res matches Err(ApiError::EmptyTitle),
        res is Ok <==> trim_chars(title@).len() > 0,
        res matches Ok(q) ==> q.sql@ == insert_sql() && q.values@.len() == 1 && (q.values@[0] matches SqlValue::Text(t) && t@ == trim_chars(title@)),
{
    let title = validated_title(title)?;
    let mut values: Vec<SqlValue> = Vec::new();
    values.push(SqlValue::Text(title));
    Ok(
        Query {
            sql: "INSERT INTO todos (title, completed) VALUES ($1, FALSE) RETURNING id, title, completed",
            values,
        },
    )
}

/// The query that sets the title and completion of the todo `id`, or why
/// there is none: the title is validated first, and its trimmed form is
/// what is written.
pub fn update_todo_query(id: i32, title: String, completed: bool) -> (res: Result<Query, ApiError>)
    ensures
        trim_chars(title@).len() == 0 <==> res matches Err(ApiError::EmptyTitle),
        res is Ok <==> trim_chars(title@).len() > 0,
        res matches Ok(q) ==> q.sql@ == update_sql() && q.values@.len() == 3 && (q.values@[0] matches SqlValue::Text(t) && t@ == trim_chars(title@)) && q.values@[1] == SqlValue::Bool(completed) && q.values@[2] == SqlValue::Int(id),
{
    let title = validated_title(title)?;
    let mut values: Vec<SqlValue> = Vec::new();
    values.push(SqlValue::Text(title));
    values.push(SqlValue::Bool(completed));
    values.push(SqlValue::Int(id));
    Ok(
        Query {
            sql: "UPDATE todos SET title = $1, completed = $2 WHERE id = $3 RETURNING id, title, completed",
            values,
        },
    )
}

/// The query that removes the todo `id`.
pub fn delete_todo_query(id: i32) -> (q: Query)
    ensures
        q.sql@ == delete_sql(),
        q.values@.len() == 1,
        q.values@[0] == SqlValue::Int(id),
{
    let mut values: Vec<SqlValue> = Vec::new();
    values.push(SqlValue::Int(id));
    Query { sql: "DELETE FROM todos WHERE id = $1", values }
}

/// The title that is stored for `title`, or why none is: the title with its
/// leading and trailing white space removed, which must not be empty.
pub fn validated_title(title: String) -> (res: Result<String, ApiError>)
    ensures
        trim_chars(title@).len() == 0 <==> res matches Err(ApiError::EmptyTitle),
        res is Ok <==> trim_chars(title@).len() > 0,
        res matches Ok(t) ==> t@ == trim_chars(title@),
        res matches Ok(t) ==> t@.len() > 0 && !is_white_space(t@[0]) && !is_white_space(t@.last()),
        title@.len() > 0 && !is_white_space(title@[0]) && !is_white_space(title@.last()) ==> (match res {
            Ok(t) => t@ == title@,
            Err(_) => false,
        }),
{
    proof {
        lemma_trimmed_ends(title@);
        if title@.len() > 0 && !is_white_space(title@[0]) && !is_white_space(title@.last()) {
            lemma_trim_keeps_text_without_end_white_space(title@);
        }
    }
    let trimmed = trim(title.as_str());
    if trimmed.unicode_len() == 0 {
        Err(ApiError::EmptyTitle)
    } else {
        Ok(trimmed)
    }
}

/// The answer to a listing, given what the `SELECT ... ORDER BY id` gave.
pub fn list_todos_reply(rows: Result<Vec<TodoModel>, String>) -> (res: Result<
    Vec<TodoModel>,
    ApiError,
>)
    ensures
        rows matches Ok(v) ==> res == Ok::<Vec<TodoModel>, ApiError>(v),
        rows matches Err(m) ==> res matches Err(ApiError::Database(n)) && n@ == m@,
{
    match rows {
        Ok(v) => Ok(v),
        Err(m) => Err(ApiError::Database(m)),
    }
}

/// The answer to a lookup by id, given what the `SELECT ... WHERE id = $1`
/// gave: a missing row is no error, but the response is marked not found.
pub fn get_todo_reply(row: Result<Option<TodoModel>, String>) -> (res: Reply<Option<TodoModel>>)
    ensures
        row matches Ok(Some(t)) ==> res.result == Ok::<Option<TodoModel>, ApiError>(Some(t))
            && res.status is None,
        row matches Ok(None) ==> res.result == Ok::<Option<TodoModel>, ApiError>(None)
            && res.status == Some(HttpStatus::NotFound),
        row matches Err(m) ==> res.result matches Err(ApiError::Database(n)) && n@ == m@
            && res.status is None,
{
    match row {
        Ok(Some(t)) => Reply { result: Ok(Some(t)), status: None },
        Ok(None) => Reply { result: Ok(None), status: Some(HttpStatus::NotFound) },
        Err(m) => Reply { result: Err(ApiError::Database(m)), status: None },
    }
}

/// The answer to a creation, given what the `INSERT ... RETURNING` gave.
pub fn create_todo_reply(row: Result<Option<TodoModel>, String>) -> (res: Result<
    TodoModel,
    ApiError,
>)
    ensures
        row matches Ok(Some(t)) ==> res == Ok::<TodoModel, ApiError>(t),
        row matches Ok(None) ==> res matches Err(ApiError::CreateFailed),
        row matches Err(m) ==> res matches Err(ApiError::Database(n)) && n@ == m@,
{
    match row {
        Ok(Some(t)) => Ok(t),
        Ok(None) => Err(ApiError::CreateFailed),
        Err(m) => Err(ApiError::Database(m)),
    }
}

/// The answer to an update, given what the `UPDATE ... RETURNING` gave: no
/// row means that no todo has that id.
pub fn update_todo_reply(row: Result<Option<TodoModel>, String>) -> (res: Reply<TodoModel>)
    ensures
        row matches Ok(Some(t)) ==> res.result == Ok::<TodoModel, ApiError>(t)
            && res.status is None,
        row matches Ok(None) ==> (res.result matches Err(ApiError::NotFound))
            && res.status == Some(HttpStatus::NotFound),
        row matches Err(m) ==> res.result matches Err(ApiError::Database(n)) && n@ == m@
            && res.status is None,
{
    match row {
        Ok(Some(t)) => Reply { result: Ok(t), status: None },
        Ok(None) => Reply { result: Err(ApiError::NotFound), status: Some(HttpStatus::NotFound) },
        Err(m) => Reply { result: Err(ApiError::Database(m)), status: None },
    }
}

/// The answer to a deletion, given the number of rows that the `DELETE`
/// removed: none removed means that no todo has that id.
pub fn delete_todo_reply(rows_affected: Result<u64, String>) -> (res: Reply<()>)
    ensures
        rows_affected matches Ok(n) && n > 0 ==> res.result is Ok && res.status is None,
        rows_affected matches Ok(n) && n == 0 ==> (res.result matches Err(ApiError::NotFound))
            && res.status == Some(HttpStatus::NotFound),
        rows_affected matches Err(m) ==> res.result matches Err(ApiError::Database(n)) && n@
            == m@ && res.status is None,
{
    match rows_affected {
        Ok(0) => Reply { result: Err(ApiError::NotFound), status: Some(HttpStatus::NotFound) },
        Ok(_) => Reply { result: Ok(()), status: None },
        Err(m) => Reply { result: Err(ApiError::Database(m)), status: None },
    }
}

} // verus!
