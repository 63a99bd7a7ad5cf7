# todo_app

The verified core of a small todo application (an Axum server with a
PostgreSQL table of todos, and Leptos pages rendered on the server).

- `src/` is the library, checked by Verus:
  - `text`: Unicode white space and trimming.
  - `decimal`: the decimal text of an `i32`, and reading one back with the
    grammar of `i32`'s `FromStr`.
  - `model`: the todo row, the HTTP statuses, the server-function errors.
  - `server_fns`: title validation and the answer to each database outcome
    of the pages' server functions.
  - `handlers`: the row that each JSON request writes and the answer to each
    database outcome.
  - `pages`: the home page's list and form, the detail page's route, edit
    state and view.
- `app/` is the program around it: database queries, HTTP routing, server
  functions and the Leptos components, which hand plain values to the
  library and act on what it decides.
- `tests/` runs the library on concrete values.
