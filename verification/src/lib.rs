//! The logic of a small todo application: title validation, the decimal
//! text of todo ids in links and their parsing back out of routes, the
//! decisions that the server makes around each database query, and the
//! state that the pages keep between user events.

pub mod decimal;
pub mod handlers;
pub mod model;
pub mod pages;
pub mod server_fns;
pub mod text;
