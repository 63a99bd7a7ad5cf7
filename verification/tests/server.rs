use todo_app::handlers::{
    create_todo_response, delete_todo_response, get_todo_response, list_todos_response,
    new_todo, no_favicon, update_todo_response, update_todo_target, CreateTodo, UpdateTodo,
};
use todo_app::model::{ApiError, HttpStatus, TodoModel};
use todo_app::server_fns::{
    create_todo_reply, delete_todo_reply, get_todo_reply, list_todos_reply, update_todo_reply,
    validated_title,
};

fn todo(id: i32, title: &str, completed: bool) -> TodoModel {
    TodoModel { id, title: title.to_string(), completed }
}

#[test]
fn status_codes() {
    assert_eq!(HttpStatus::Created.code(), 201);
    assert_eq!(HttpStatus::NoContent.code(), 204);
    assert_eq!(HttpStatus::NotFound.code(), 404);
    assert_eq!(HttpStatus::InternalServerError.code(), 500);
}

#[test]
fn error_messages() {
    assert_eq!(ApiError::EmptyTitle.message(), "Title cannot be empty");
    assert_eq!(ApiError::CreateFailed.message(), "Failed to create todo");
    assert_eq!(ApiError::NotFound.message(), "Todo not found");
    assert_eq!(ApiError::Database("connection reset".to_string()).message(), "connection reset");
}

#[test]
fn todo_clone_and_equality() {
    let a = todo(3, "read", true);
    let b = a.clone();
    assert_eq!(a, b);
    assert_ne!(a, todo(3, "read", false));
    assert_ne!(a, todo(4, "read", true));
    assert_ne!(a, todo(3, "write", true));
    assert_eq!(a.duplicate(), a);
}

#[test]
fn validated_title_trims() {
    assert_eq!(validated_title("  walk the dog ".to_string()).unwrap(), "walk the dog");
    assert_eq!(validated_title("x".to_string()).unwrap(), "x");
}

#[test]
fn validated_title_rejects_blank_titles() {
    for t in ["", "   ", "\t\n", "\u{3000}"] {
        match validated_title(t.to_string()) {
            Err(ApiError::EmptyTitle) => {}
            other => panic!("unexpected {:?}", other),
        }
    }
}

#[test]
fn validated_title_keeps_a_valid_title() {
    let first = validated_title(" \u{a0}plan trip\n".to_string()).unwrap();
    assert_eq!(validated_title(first.clone()).unwrap(), first);
}

#[test]
fn list_reply_passes_rows_and_wraps_errors() {
    let rows = vec![todo(1, "a", false), todo(2, "b", true)];
    assert_eq!(list_todos_reply(Ok(rows.clone())).unwrap(), rows);
    match list_todos_reply(Err("db down".to_string())) {
        Err(ApiError::Database(m)) => assert_eq!(m, "db down"),
        other => panic!("unexpected {:?}", other),
    }
}

#[test]
fn get_reply_marks_missing_rows_not_found() {
    let found = get_todo_reply(Ok(Some(todo(5, "x", false))));
    assert_eq!(found.result.unwrap(), Some(todo(5, "x", false)));
    assert_eq!(found.status, None);
    let missing = get_todo_reply(Ok(None));
    assert_eq!(missing.result.unwrap(), None);
    assert_eq!(missing.status, Some(HttpStatus::NotFound));
    let failed = get_todo_reply(Err("boom".to_string()));
    assert!(matches!(failed.result, Err(ApiError::Database(ref m)) if m == "boom"));
    assert_eq!(failed.status, None);
}

#[test]
fn create_reply_needs_a_returned_row() {
    assert_eq!(create_todo_reply(Ok(Some(todo(9, "n", false)))).unwrap(), todo(9, "n", false));
    assert!(matches!(create_todo_reply(Ok(None)), Err(ApiError::CreateFailed)));
    assert!(matches!(create_todo_reply(Err("e".to_string())), Err(ApiError::Database(ref m)) if m == "e"));
}

#[test]
fn update_reply_reports_missing_rows() {
    let ok = update_todo_reply(Ok(Some(todo(2, "t", true))));
    assert_eq!(ok.result.unwrap(), todo(2, "t", true));
    assert_eq!(ok.status, None);
    let missing = update_todo_reply(Ok(None));
    assert!(matches!(missing.result, Err(ApiError::NotFound)));
    assert_eq!(missing.status, Some(HttpStatus::NotFound));
    let failed = update_todo_reply(Err("x".to_string()));
    assert!(matches!(failed.result, Err(ApiError::Database(_))));
    assert_eq!(failed.status, None);
}

#[test]
fn delete_reply_counts_removed_rows() {
    let ok = delete_todo_reply(Ok(1));
    assert!(ok.result.is_ok());
    assert_eq!(ok.status, None);
    let missing = delete_todo_reply(Ok(0));
    assert!(matches!(missing.result, Err(ApiError::NotFound)));
    assert_eq!(missing.status, Some(HttpStatus::NotFound));
    let failed = delete_todo_reply(Err("y".to_string()));
    assert!(matches!(failed.result, Err(ApiError::Database(ref m)) if m == "y"));
    assert_eq!(failed.status, None);
}

#[test]
fn list_response_maps_errors_to_500() {
    assert_eq!(list_todos_response(Ok(vec![])).unwrap(), vec![]);
    let (status, text) = list_todos_response(Err("oops".to_string())).unwrap_err();
    assert_eq!(status, HttpStatus::InternalServerError);
    assert_eq!(text, "oops");
}

#[test]
fn create_inserts_an_open_todo_and_answers_201() {
    let row = new_todo(CreateTodo { title: " as sent ".to_string() });
    assert_eq!(row.title, " as sent ");
    assert!(!row.completed);
    let (status, t) = create_todo_response(Ok(todo(1, " as sent ", false))).unwrap();
    assert_eq!(status, HttpStatus::Created);
    assert_eq!(t, todo(1, " as sent ", false));
    let (status, text) = create_todo_response(Err("dup".to_string())).unwrap_err();
    assert_eq!((status, text.as_str()), (HttpStatus::InternalServerError, "dup"));
}

#[test]
fn get_response_answers_404_for_missing_rows() {
    assert_eq!(get_todo_response(Ok(Some(todo(4, "z", true)))).unwrap(), todo(4, "z", true));
    let (status, text) = get_todo_response(Ok(None)).unwrap_err();
    assert_eq!(status, HttpStatus::NotFound);
    assert_eq!(text, "Todo not found");
    let (status, text) = get_todo_response(Err("q".to_string())).unwrap_err();
    assert_eq!((status, text.as_str()), (HttpStatus::InternalServerError, "q"));
}

#[test]
fn update_target_keeps_the_id_and_takes_the_request() {
    let payload = UpdateTodo { title: "new".to_string(), completed: true };
    assert_eq!(update_todo_target(Ok(Some(todo(8, "old", false))), payload).unwrap(), todo(8, "new", true));
    let payload = UpdateTodo { title: "new".to_string(), completed: true };
    let (status, text) = update_todo_target(Ok(None), payload).unwrap_err();
    assert_eq!((status, text.as_str()), (HttpStatus::NotFound, "Todo not found"));
    let payload = UpdateTodo { title: "new".to_string(), completed: true };
    let (status, _) = update_todo_target(Err("r".to_string()), payload).unwrap_err();
    assert_eq!(status, HttpStatus::InternalServerError);
    assert_eq!(update_todo_response(Ok(todo(8, "new", true))).unwrap(), todo(8, "new", true));
    let (status, text) = update_todo_response(Err("w".to_string())).unwrap_err();
    assert_eq!((status, text.as_str()), (HttpStatus::InternalServerError, "w"));
}

#[test]
fn delete_response_answers_204_or_404() {
    assert_eq!(delete_todo_response(Ok(1)).unwrap(), HttpStatus::NoContent);
    assert_eq!(delete_todo_response(Ok(3)).unwrap(), HttpStatus::NoContent);
    let (status, text) = delete_todo_response(Ok(0)).unwrap_err();
    assert_eq!((status, text.as_str()), (HttpStatus::NotFound, "Todo not found"));
    let (status, text) = delete_todo_response(Err("d".to_string())).unwrap_err();
    assert_eq!((status, text.as_str()), (HttpStatus::InternalServerError, "d"));
}

#[test]
fn favicon_has_no_content() {
    assert_eq!(no_favicon(), HttpStatus::NoContent);
}
