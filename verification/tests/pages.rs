use todo_app::model::{ApiError, HttpStatus, TodoModel};
use todo_app::pages::{
    add_effect, badge_class, check_class, home_view, new_todo_title, route_target, title_class,
    todo_card, todo_href, AddEffect, DetailState, DetailView, HomeView,
};

fn todo(id: i32, title: &str, completed: bool) -> TodoModel {
    TodoModel { id, title: title.to_string(), completed }
}

#[test]
fn href_of_a_todo() {
    assert_eq!(todo_href(12), "/todos/12");
    assert_eq!(todo_href(-3), "/todos/-3");
    assert_eq!(todo_href(0), "/todos/0");
}

#[test]
fn link_leads_back_to_the_todo() {
    for id in [i32::MIN, -1, 0, 1, 77, i32::MAX] {
        let href = todo_href(id);
        let segment = href.strip_prefix("/todos/").unwrap();
        assert_eq!(route_target(Some(segment)).id, Some(id));
    }
}

#[test]
fn new_todo_title_trims_and_skips_blank_input() {
    assert_eq!(new_todo_title("  call mom  ".to_string()), Some("call mom".to_string()));
    assert_eq!(new_todo_title("   ".to_string()), None);
    assert_eq!(new_todo_title(String::new()), None);
}

#[test]
fn add_effects() {
    let created: Result<Option<TodoModel>, ApiError> = Ok(Some(todo(1, "a", false)));
    assert_eq!(add_effect(&created), AddEffect::ClearInputAndReload);
    let skipped: Result<Option<TodoModel>, ApiError> = Ok(None);
    assert_eq!(add_effect(&skipped), AddEffect::Nothing);
    let failed: Result<Option<TodoModel>, ApiError> = Err(ApiError::EmptyTitle);
    assert_eq!(add_effect(&failed), AddEffect::ReportError);
}

#[test]
fn classes_follow_completion() {
    assert!(title_class(true).ends_with("text-slate-500 line-through"));
    assert!(title_class(false).ends_with("text-slate-200 group-hover:text-teal-50"));
    assert!(title_class(true).starts_with("text-lg font-medium transition-colors "));
    assert!(badge_class(true).contains("bg-emerald-500"));
    assert!(badge_class(false).contains("bg-transparent"));
    assert!(check_class(true).contains("shadow-[0_0_10px_rgba(16,185,129,0.5)]"));
    assert!(check_class(false).ends_with("border-slate-500 hover:border-teal-400"));
}

#[test]
fn card_of_a_todo() {
    let card = todo_card(&todo(31, "ship it", true));
    assert_eq!(card.id, 31);
    assert_eq!(card.href, "/todos/31");
    assert_eq!(card.title, "ship it");
    assert!(card.completed);
    assert_eq!(card.badge_class, badge_class(true));
    assert_eq!(card.title_class, title_class(true));
}

#[test]
fn home_view_states() {
    assert!(matches!(home_view(&None), HomeView::Pending));
    assert!(matches!(home_view(&Some(Ok(vec![]))), HomeView::Empty));
    match home_view(&Some(Ok(vec![todo(1, "a", false), todo(2, "b", true)]))) {
        HomeView::List(cards) => {
            assert_eq!(cards.len(), 2);
            assert_eq!(cards[0].href, "/todos/1");
            assert_eq!(cards[1].title, "b");
            assert!(cards[1].completed);
        }
        _ => panic!("expected a list"),
    }
    match home_view(&Some(Err("timeout".to_string()))) {
        HomeView::Failed(text) => assert_eq!(text, "Failed to load todos: timeout"),
        _ => panic!("expected a failure"),
    }
}

#[test]
fn route_target_reads_the_id() {
    let t = route_target(Some("42"));
    assert_eq!(t.id, Some(42));
    assert_eq!(t.status, None);
    let t = route_target(Some("abc"));
    assert_eq!(t.id, None);
    assert_eq!(t.status, Some(HttpStatus::NotFound));
    let t = route_target(None);
    assert_eq!(t.id, None);
    assert_eq!(t.status, Some(HttpStatus::NotFound));
    assert_eq!(route_target(Some("99999999999")).id, None);
}

fn loaded(t: TodoModel) -> Option<Result<Option<TodoModel>, String>> {
    Some(Ok(Some(t)))
}

#[test]
fn fresh_detail_page_shows_the_loaded_todo() {
    let state = DetailState::new();
    let l = loaded(todo(5, "draft", false));
    assert_eq!(state.current_todo(&l), Some(todo(5, "draft", false)));
    assert_eq!(state.displayed_title(&l), "draft");
    assert_eq!(state.current_todo(&None), None);
    assert_eq!(state.displayed_title(&None), "");
}

#[test]
fn typed_title_is_shown_until_saved() {
    let mut state = DetailState::new();
    let l = loaded(todo(5, "draft", false));
    state.on_title_input("final".to_string());
    assert_eq!(state.displayed_title(&l), "final");
    assert_eq!(state.current_todo(&l), Some(todo(5, "draft", false)));
    let save = state.save_request(&todo(5, "draft", false), &l);
    assert_eq!((save.id, save.title.as_str(), save.completed), (5, "final", false));
    let report = state.on_update_result::<ApiError>(Ok(todo(5, "final", false)));
    assert!(!report);
    assert_eq!(state.current_todo(&l), Some(todo(5, "final", false)));
    assert_eq!(state.displayed_title(&l), "final");
    assert_eq!(state.edit_title, None);
}

#[test]
fn toggle_flips_completion() {
    let state = DetailState::new();
    let l = loaded(todo(6, "x", false));
    let req = state.toggle_request(&todo(6, "x", false), &l);
    assert_eq!((req.id, req.title.as_str(), req.completed), (6, "x", true));
}

#[test]
fn failed_update_changes_nothing() {
    let mut state = DetailState::new();
    state.on_title_input("typed".to_string());
    let report = state.on_update_result(Err(ApiError::NotFound));
    assert!(report);
    assert_eq!(state.edit_title, Some("typed".to_string()));
    assert_eq!(state.todo_override, None);
}

#[test]
fn route_change_drops_changes() {
    let mut state = DetailState::new();
    state.on_title_input("typed".to_string());
    state.on_update_result::<ApiError>(Ok(todo(1, "saved", true)));
    state.on_route_change();
    let l = loaded(todo(2, "other", false));
    assert_eq!(state.current_todo(&l), Some(todo(2, "other", false)));
    assert_eq!(state.displayed_title(&l), "other");
}

#[test]
fn detail_view_states() {
    let state = DetailState::new();
    assert!(matches!(state.view(&None), DetailView::Pending));
    assert!(matches!(state.view(&Some(Ok(None))), DetailView::NotFound));
    match state.view(&loaded(todo(3, "t", true))) {
        DetailView::Editor(t) => assert_eq!(t, todo(3, "t", true)),
        _ => panic!("expected the editor"),
    }
    match state.view(&Some(Err("gone".to_string()))) {
        DetailView::Failed(text) => assert_eq!(text, "Failed to load todo: gone"),
        _ => panic!("expected a failure"),
    }
}
