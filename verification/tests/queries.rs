use todo_app::model::ApiError;
use todo_app::server_fns::{
    create_todo_query, delete_todo_query, get_todo_query, list_todos_query, update_todo_query,
    SqlValue,
};

#[test]
fn list_query_orders_by_id() {
    let q = list_todos_query();
    assert_eq!(q.sql, "SELECT id, title, completed FROM todos ORDER BY id");
    assert!(q.values.is_empty());
}

#[test]
fn get_query_binds_the_id() {
    let q = get_todo_query(17);
    assert_eq!(q.sql, "SELECT id, title, completed FROM todos WHERE id = $1");
    assert!(matches!(q.values.as_slice(), [SqlValue::Int(17)]));
}

#[test]
fn create_query_inserts_the_trimmed_title() {
    let q = create_todo_query("  water plants\n".to_string()).unwrap();
    assert_eq!(
        q.sql,
        "INSERT INTO todos (title, completed) VALUES ($1, FALSE) RETURNING id, title, completed"
    );
    match q.values.as_slice() {
        [SqlValue::Text(t)] => assert_eq!(t, "water plants"),
        other => panic!("unexpected {:?}", other),
    }
}

#[test]
fn create_query_refuses_a_blank_title() {
    assert!(matches!(create_todo_query(" \t ".to_string()), Err(ApiError::EmptyTitle)));
}

#[test]
fn update_query_binds_title_completion_and_id() {
    let q = update_todo_query(4, " renamed ".to_string(), true).unwrap();
    assert_eq!(
        q.sql,
        "UPDATE todos SET title = $1, completed = $2 WHERE id = $3 RETURNING id, title, completed"
    );
    match q.values.as_slice() {
        [SqlValue::Text(t), SqlValue::Bool(true), SqlValue::Int(4)] => assert_eq!(t, "renamed"),
        other => panic!("unexpected {:?}", other),
    }
    assert!(matches!(update_todo_query(4, String::new(), false), Err(ApiError::EmptyTitle)));
}

#[test]
fn delete_query_binds_the_id() {
    let q = delete_todo_query(-2);
    assert_eq!(q.sql, "DELETE FROM todos WHERE id = $1");
    assert!(matches!(q.values.as_slice(), [SqlValue::Int(-2)]));
}
