//! The data that every layer shares: a todo row, the HTTP statuses that the
//! server answers with, and the errors of its server functions.

use vstd::prelude::*;

verus! {

/// One row of the `todos` table.
#[derive(Debug)]
pub struct TodoModel {
    pub id: i32,
    pub title: String,
    pub completed: bool,
}

impl TodoModel {
    /// An exact copy of this todo.
    pub fn duplicate(&self) -> (res: TodoModel)
        ensures
            res == *self,
    {
        TodoModel { id: self.id, title: self.title.clone(), completed: self.completed }
    }
}

impl Clone for TodoModel {
    fn clone(&self) -> (res: Self)
        ensures
            res == *self,
    {
        self.duplicate()
    }
}

impl PartialEq for TodoModel {
    fn eq(&self, other: &Self) -> (res: bool) {
        self.id == other.id && self.title == other.title && self.completed == other.completed
    }
}

impl vstd::std_specs::cmp::PartialEqSpecImpl for TodoModel {
    open spec fn obeys_eq_spec() -> bool {
        true
    }

    open spec fn eq_spec(&self, other: &Self) -> bool {
        self.id == other.id && self.title@ == other.title@ && self.completed == other.completed
    }
}

impl Eq for TodoModel {

}

/// The HTTP statuses that the server sets.
#[derive(Debug, Clone, Copy, PartialEq, Eq, Structural)]
pub enum HttpStatus {
    Created,
    NoContent,
    NotFound,
    InternalServerError,
}

/// The numeric code of an HTTP status.
pub open spec fn status_code(s: HttpStatus) -> u16 {
    match s {
        HttpStatus::Created => 201,
        HttpStatus::NoContent => 204,
        HttpStatus::NotFound => 404,
        HttpStatus::InternalServerError => 500,
    }
}

impl HttpStatus {
    /// The numeric code of this status.
    pub fn code(&self) -> (res: u16)
        ensures
            res == status_code(*self),
    {
        match self {
                HttpStatus::Created => 201,
            HttpStatus::NoContent => 204,
            HttpStatus::NotFound => 404,
            HttpStatus::InternalServerError => 500,
        }
    }
}

/// Why a server function failed.
#[derive(Debug)]
pub enum ApiError {
    /// The title was empty once its white space was trimmed.
    EmptyTitle,
    /// The insert returned no row.
    CreateFailed,
    /// No todo has the requested id.
    NotFound,
    /// The database failed; the text is the database error's message.
    Database(String),
}

/// The message that a server function error carries to the client.
pub open spec fn api_error_message(e: ApiError) -> Seq<char> {
    match e {
        ApiError::EmptyTitle => "Title cannot be empty"@,
        ApiError::CreateFailed => "Failed to create todo"@,
        ApiError::NotFound => "Todo not found"@,
        ApiError::Database(m) => m@,
    }
}

impl ApiError {
    /// The message that this error carries to the client.
    pub fn message(&self) -> (res: String)
        ensures
            res@ == api_error_message(*self),
    {
        match self {
            ApiError::EmptyTitle => String::from_str("Title cannot be empty"),
            ApiError::CreateFailed => String::from_str("Failed to create todo"),
            ApiError::NotFound => String::from_str("Todo not found"),
            ApiError::Database(m) => m.clone(),
        }
    }
}

} // verus!
