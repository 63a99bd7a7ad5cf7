//! What the two pages decide: the home page's list and new-todo form, and
//! the detail page's route, edit state and view.
//!
//! A page's data arrives as `Option<Result<_, String>>`: `None` while it is
//! loading, the error as its message otherwise.

use vstd::prelude::*;
use crate::decimal::{format_i32, int_decimal, lemma_parse_of_decimal, parse_i32, parse_i32_chars};
use crate::model::{HttpStatus, TodoModel};
use crate::text::{lemma_trim_idempotent, trim, trim_chars};

verus! {

/// The path of a todo's detail page.
pub open spec fn todo_path(id: int) -> Seq<char> {
    "/todos/"@ + int_decimal(id)
}

/// The link to the detail page of the todo `id`.
pub fn todo_href(id: i32) -> (res: String)
    ensures
        res@ == todo_path(id as int),
{
    let digits = format_i32(id);
    String::from_str("/todos/").concat(digits.as_str())
}

/// The detail page's link to todo `id` leads back to `id`: the id segment of
/// the path, read as the detail page reads it, is `id`.
pub proof fn lemma_todo_link_round_trip(id: i32)
    ensures
        todo_path(id as int).skip(7) == int_decimal(id as int),
        parse_i32_chars(todo_path(id as int).skip(7)) == Some(id as int),
{
    reveal_strlit("/todos/");
    assert(todo_path(id as int).skip(7) =~= int_decimal(id as int));
    lemma_parse_of_decimal(id);
}

// ---------------------------------------------------------------- home page

/// The title that the home page's form sends for `input`, or `None` where
/// nothing is to be sent: the input trimmed, unless that is empty.
pub fn new_todo_title(input: String) -> (res: Option<String>)
    ensures
        res is None <==> trim_chars(input@).len() == 0,
        res matches Some(t) ==> t@ == trim_chars(input@),
{
    let title = trim(input.as_str());
    if title.unicode_len() == 0 {
        None
    } else {
        Some(title)
    }
}

/// The server keeps the title that the home page sends as it is: trimming
/// it again changes nothing, and it is not empty.
pub proof fn lemma_sent_title_is_kept(input: Seq<char>)
    ensures
        trim_chars(input).len() > 0 ==> trim_chars(trim_chars(input)) == trim_chars(input)
            && trim_chars(trim_chars(input)).len() > 0,
{
    lemma_trim_idempotent(input);
}

/// What the home page does once a creation has finished.
#[derive(Debug, Clone, Copy, PartialEq, Eq, Structural)]
pub enum AddEffect {
    /// A todo was created: empty the input and load the list again.
    ClearInputAndReload,
    /// Nothing was sent: leave the page as it is.
    Nothing,
    /// The creation failed: report its error.
    ReportError,
}

/// What the home page does with the outcome of a creation.
pub fn add_effect<E>(outcome: &Result<Option<TodoModel>, E>) -> (res: AddEffect)
    ensures
        outcome matches Ok(Some(_)) ==> res == AddEffect::ClearInputAndReload,
        outcome matches Ok(None) ==> res == AddEffect::Nothing,
        outcome is Err ==> res == AddEffect::ReportError,
{
    match outcome {
        Ok(Some(_)) => AddEffect::ClearInputAndReload,
        Ok(None) => AddEffect::Nothing,
        Err(_) => AddEffect::ReportError,
    }
}

/// The class of a todo's completion badge on the home page.
pub open spec fn badge_class_text(completed: bool) -> Seq<char> {
    if completed {
        "w-6 h-6 rounded-full border-2 border-emerald-500 bg-emerald-500 flex items-center justify-center transition-colors"@
    } else {
        "w-6 h-6 rounded-full border-2 border-slate-600 group-hover:border-teal-400 transition-colors bg-transparent"@
    }
}

/// The class of a todo's title on the home page: done todos are struck out.
pub open spec fn title_class_text(completed: bool) -> Seq<char> {
    if completed {
        "text-lg font-medium transition-colors text-slate-500 line-through"@
    } else {
        "text-lg font-medium transition-colors text-slate-200 group-hover:text-teal-50"@
    }
}

/// The class of the completion check box on the detail page.
pub open spec fn check_class_text(completed: bool) -> Seq<char> {
    if completed {
        "w-6 h-6 rounded border-2 flex items-center justify-center transition-all duration-200 bg-emerald-500 border-emerald-500 shadow-[0_0_10px_rgba(16,185,129,0.5)]"@
    } else {
        "w-6 h-6 rounded border-2 flex items-center justify-center transition-all duration-200 border-slate-500 hover:border-teal-400"@
    }
}

/// The class of a todo's completion badge on the home page.
pub fn badge_class(completed: bool) -> (res: &'static str)
    ensures
        res@ == badge_class_text(completed),
        has_class(res@, "bg-emerald-500"@) <==> completed,
        has_class(res@, "bg-transparent"@) <==> !completed,
{
    proof {
        lemma_badge_is_filled_only_when_done(completed);
    }
    if completed {
        "w-6 h-6 rounded-full border-2 border-emerald-500 bg-emerald-500 flex items-center justify-center transition-colors"
    } else {
        "w-6 h-6 rounded-full border-2 border-slate-600 group-hover:border-teal-400 transition-colors bg-transparent"
    }
}

/// The class of a todo's title on the home page.
pub fn title_class(completed: bool) -> (res: &'static str)
    ensures
        res@ == title_class_text(completed),
        has_class(res@, "line-through"@) <==> completed,
        has_class(res@, "text-slate-500"@) <==> completed,
{
    proof {
        lemma_only_done_titles_are_struck_through(completed);
    }
    if completed {
        "text-lg font-medium transition-colors text-slate-500 line-through"
    } else {
        "text-lg font-medium transition-colors text-slate-200 group-hover:text-teal-50"
    }
}

/// The class of the completion check box on the detail page.
pub fn check_class(completed: bool) -> (res: &'static str)
    ensures
        res@ == check_class_text(completed),
        has_class(res@, "bg-emerald-500"@) <==> completed,
        has_class(res@, "border-slate-500"@) <==> !completed,
{
    proof {
        lemma_check_box_is_filled_only_when_done(completed);
    }
    if completed {
        "w-6 h-6 rounded border-2 flex items-center justify-center transition-all duration-200 bg-emerald-500 border-emerald-500 shadow-[0_0_10px_rgba(16,185,129,0.5)]"
    } else {
        "w-6 h-6 rounded border-2 flex items-center justify-center transition-all duration-200 border-slate-500 hover:border-teal-400"
    }
}

/// One todo as the home page lists it.
#[derive(Clone, Debug)]
pub struct TodoCard {
    pub id: i32,
    pub href: String,
    pub title: String,
    pub completed: bool,
    pub badge_class: &'static str,
    pub title_class: &'static str,
}

/// Whether `c` shows the todo `t`.
pub open spec fn is_card_of(c: TodoCard, t: TodoModel) -> bool {
    &&& c.id == t.id
    &&& c.href@ == todo_path(t.id as int)
    &&& c.title@ == t.title@
    &&& c.completed == t.completed
    &&& c.badge_class@ == badge_class_text(t.completed)
    &&& c.title_class@ == title_class_text(t.completed)
}

/// How the home page shows the todo `t`.
pub fn todo_card(t: &TodoModel) -> (res: TodoCard)
    ensures
        is_card_of(res, *t),
{
    TodoCard {
        id: t.id,
        href: todo_href(t.id),
        title: t.title.clone(),
        completed: t.completed,
        badge_class: badge_class(t.completed),
        title_class: title_class(t.completed),
    }
}

/// What the home page shows below its form.
pub enum HomeView {
    /// The list has not arrived yet.
    Pending,
    /// There are no todos.
    Empty,
    /// The todos, in the order in which they arrived.
    List(Vec<TodoCard>),
    /// Loading failed; the text to show.
    Failed(String),
}

/// Whether `view` lists a card for each of `todos`, in their order.
pub open spec fn lists_cards_of(view: HomeView, todos: Seq<TodoModel>) -> bool {
    &&& view matches HomeView::List(cards)
    &&& cards.len() == todos.len()
    &&& forall|i: int| 0 <= i < todos.len() ==> is_card_of(#[trigger] cards[i], todos[i])
}

/// How the home page shows the list `todos`.
pub fn home_view(todos: &Option<Result<Vec<TodoModel>, String>>) -> (res: HomeView)
    ensures
        match todos {
            None => res is Pending,
            Some(Ok(v)) => if v.len() == 0 {
                res is Empty
            } else {
                lists_cards_of(res, v@)
            },
            Some(Err(e)) => res matches HomeView::Failed(text) && text@ == "Failed to load todos: "@
                + e@,
        },
{
    match todos {
        None => HomeView::Pending,
        Some(Ok(v)) => {
            if v.len() == 0 {
                HomeView::Empty
            } else {
                let mut cards: Vec<TodoCard> = Vec::new();
                let mut i: usize = 0;
                while i < v.len()
                    invariant
                        i <= v.len(),
                        cards.len() == i,
                        forall|j: int| 0 <= j < i ==> is_card_of(#[trigger] cards[j], v[j]),
                    decreases v.len() - i,
                {
                    cards.push(todo_card(&v[i]));
                    i = i + 1;
                }
                HomeView::List(cards)
            }
        },
        Some(Err(e)) => HomeView::Failed(String::from_str("Failed to load todos: ").concat(e.as_str())),
    }
}

// -------------------------------------------------------------- detail page

/// The todo that the detail page's route names, and the status of the
/// page's response.
pub struct RouteTarget {
    pub id: Option<i32>,
    pub status: Option<HttpStatus>,
}

/// What the detail page makes of its `id` route parameter: the id it reads,
/// and a not-found status where there is none to read.
pub fn route_target(param: Option<&str>) -> (res: RouteTarget)
    ensures
        param is None ==> res.id is None,
        param matches Some(p) ==> (match parse_i32_chars(p@) {
            Some(v) => res.id == Some(v as i32),
            None => res.id is None,
        }),
        res.id is None <==> res.status == Some(HttpStatus::NotFound),
        res.id is Some <==> res.status is None,
{
    let id = match param {
        Some(p) => parse_i32(p),
        None => None,
    };
    match id {
        Some(v) => RouteTarget { id: Some(v), status: None },
        None => RouteTarget { id: None, status: Some(HttpStatus::NotFound) },
    }
}

/// The changes that the detail page holds over the todo it loaded.
pub struct DetailState {
    /// The todo as the last successful update returned it.
    pub todo_override: Option<TodoModel>,
    /// The title being typed, not yet saved.
    pub edit_title: Option<String>,
}

/// An update that the detail page sends.
pub struct UpdateRequest {
    pub id: i32,
    pub title: String,
    pub completed: bool,
}

/// The state of a page that holds no changes.
pub open spec fn fresh_state() -> DetailState {
    DetailState { todo_override: None, edit_title: None }
}

/// The state once an update has returned `t`.
pub open spec fn saved_state(t: TodoModel) -> DetailState {
    DetailState { todo_override: Some(t), edit_title: None }
}

/// The todo in `loaded`, where one was found.
pub open spec fn loaded_todo(loaded: Option<Result<Option<TodoModel>, String>>) -> Option<
    TodoModel,
> {
    match loaded {
        Some(Ok(t)) => t,
        _ => None,
    }
}

/// What the detail page shows.
pub enum DetailView {
    /// The todo has not arrived yet.
    Pending,
    /// The editor, for this todo.
    Editor(TodoModel),
    /// The todo arrived but is not yet at hand.
    Loading,
    /// No todo has the route's id.
    NotFound,
    /// Loading failed; the text to show.
    Failed(String),
}

impl DetailState {
    /// The state once the title `text` has been typed.
    pub open spec fn typed(self, text: String) -> DetailState {
        DetailState { edit_title: Some(text), ..self }
    }

    /// The todo that the page shows, given what was loaded.
    pub open spec fn current(self, loaded: Option<Result<Option<TodoModel>, String>>) -> Option<
        TodoModel,
    > {
        match self.todo_override {
            Some(t) => Some(t),
            None => loaded_todo(loaded),
        }
    }

    /// The title in the page's title field, given what was loaded.
    pub open spec fn shown_title(self, loaded: Option<Result<Option<TodoModel>, String>>) -> Seq<
        char,
    > {
        match self.edit_title {
            Some(text) => text@,
            None => match self.current(loaded) {
                Some(t) => t.title@,
                None => Seq::empty(),
            },
        }
    }

    /// A page that holds no changes.
    pub fn new() -> (res: DetailState)
        ensures
            res == fresh_state(),
    {
        DetailState { todo_override: None, edit_title: None }
    }

    /// Drops every change when the route names another todo.
    pub fn on_route_change(&mut self)
        ensures
            *final(self) == fresh_state(),
    {
        self.todo_override = None;
        self.edit_title = None;
    }

    /// Keeps the title `text` that was typed.
    pub fn on_title_input(&mut self, text: String)
        ensures
            *final(self) == old(self).typed(text),
    {
        self.edit_title = Some(text);
    }

    /// Takes in the outcome of an update; returns whether it is an error to
    /// report, in which case nothing changes.
    pub fn on_update_result<E>(&mut self, outcome: Result<TodoModel, E>) -> (report: bool)
        ensures
            outcome matches Ok(t) ==> *final(self) == saved_state(t) && !report,
            outcome is Err ==> *final(self) == *old(self) && report,
    {
        match outcome {
            Ok(t) => {
                self.edit_title = None;
                self.todo_override = Some(t);
                false
            },
            Err(_) => true,
        }
    }

    /// The todo that the page shows.
    pub fn current_todo(&self, loaded: &Option<Result<Option<TodoModel>, String>>) -> (res: Option<
        TodoModel,
    >)
        ensures
            res == self.current(*loaded),
    {
        match &self.todo_override {
            Some(t) => Some(t.duplicate()),
            None => match loaded {
                Some(Ok(Some(t))) => Some(t.duplicate()),
                _ => None,
            },
        }
    }

    /// The title in the page's title field.
    pub fn displayed_title(&self, loaded: &Option<Result<Option<TodoModel>, String>>) -> (res:
        String)
        ensures
            res@ == self.shown_title(*loaded),
    {
        match &self.edit_title {
            Some(text) => text.clone(),
            None => match self.current_todo(loaded) {
                Some(t) => t.title,
                None => String::new(),
            },
        }
    }

    /// The update that the check box sends for the shown todo `t`: its
    /// completion flipped, with the title in the title field.
    pub fn toggle_request(&self, t: &TodoModel, loaded: &Option<Result<Option<TodoModel>, String>>) -> (res:
        UpdateRequest)
        ensures
            res.id == t.id,
            res.title@ == self.shown_title(*loaded),
            res.completed == !t.completed,
    {
        UpdateRequest { id: t.id, title: self.displayed_title(loaded), completed: !t.completed }
    }

    /// The update that the save button sends for the shown todo `t`: its
    /// completion as it is, with the title in the title field.
    pub fn save_request(&self, t: &TodoModel, loaded: &Option<Result<Option<TodoModel>, String>>) -> (res:
        UpdateRequest)
        ensures
            res.id == t.id,
            res.title@ == self.shown_title(*loaded),
            res.completed == t.completed,
    {
        UpdateRequest { id: t.id, title: self.displayed_title(loaded), completed: t.completed }
    }

    /// What the page shows.
    pub fn view(&self, loaded: &Option<Result<Option<TodoModel>, String>>) -> (res: DetailView)
        ensures
            loaded is None ==> res is Pending,
            loaded matches Some(Ok(Some(_))) ==> (match self.current(*loaded) {
                Some(t) => res == DetailView::Editor(t),
                None => res is Loading,
            }),
            loaded matches Some(Ok(None)) ==> res is NotFound,
            loaded matches Some(Err(e)) ==> res matches DetailView::Failed(text) && text@
                == "Failed to load todo: "@ + e@,
    {
        match loaded {
            None => DetailView::Pending,
            Some(Ok(Some(_))) => match self.current_todo(loaded) {
                Some(t) => DetailView::Editor(t),
                None => DetailView::Loading,
            },
            Some(Ok(None)) => DetailView::NotFound,
            Some(Err(e)) => DetailView::Failed(
                String::from_str("Failed to load todo: ").concat(e.as_str()),
            ),
        }
    }
}

/// After an update returns `t`, the page shows `t` and its title, whatever
/// was loaded and whatever had been typed.
pub proof fn lemma_saved_todo_is_shown(t: TodoModel, loaded: Option<Result<Option<TodoModel>, String>>)
    ensures
        saved_state(t).current(loaded) == Some(t),
        saved_state(t).shown_title(loaded) == t.title@,
{
}

/// A typed title is what the title field shows, and typing does not change
/// which todo is shown.
pub proof fn lemma_typed_title_is_shown(
    s: DetailState,
    text: String,
    loaded: Option<Result<Option<TodoModel>, String>>,
)
    ensures
        s.typed(text).shown_title(loaded) == text@,
        s.typed(text).current(loaded) == s.current(loaded),
{
}

/// On a page that holds no changes, the loaded todo is shown with its title.
pub proof fn lemma_fresh_page_shows_loaded(loaded: Option<Result<Option<TodoModel>, String>>)
    ensures
        fresh_state().current(loaded) == loaded_todo(loaded),
        loaded_todo(loaded) matches Some(t) ==> fresh_state().shown_title(loaded) == t.title@,
        loaded_todo(loaded) is None ==> fresh_state().shown_title(loaded).len() == 0,
{
}

/// Once a todo has been found, the page shows the editor for some todo,
/// never the loading text.
pub proof fn lemma_found_todo_is_edited(s: DetailState, loaded: Option<Result<Option<TodoModel>, String>>)
    ensures
        loaded_todo(loaded) is Some ==> s.current(loaded) is Some,
{
}


// ------------------------------------------------------------ class lists

/// Whether `t` can be a class name: not empty, with no space in it.
pub open spec fn is_class_name(t: Seq<char>) -> bool {
    t.len() > 0 && forall|k: int| 0 <= k < t.len() ==> #[trigger] t[k] != ' '
}

/// Whether every one of `names` can be a class name.
pub open spec fn are_class_names(names: Seq<Seq<char>>) -> bool {
    forall|i: int| 0 <= i < names.len() ==> is_class_name(#[trigger] names[i])
}

/// The class attribute that lists `names` in order, one space apart.
pub open spec fn class_list(names: Seq<Seq<char>>) -> Seq<char>
    decreases names.len(),
{
    if names.len() == 0 {
        Seq::empty()
    } else if names.len() == 1 {
        names[0]
    } else {
        class_list(names.drop_last()) + seq![' '] + names.last()
    }
}

/// Whether the class attribute `attr` lists the class `name`.
pub open spec fn has_class(attr: Seq<char>, name: Seq<char>) -> bool {
    exists|names: Seq<Seq<char>>|
        #![trigger class_list(names)]
        are_class_names(names) && class_list(names) == attr && names.contains(name)
}

proof fn lemma_class_list_shape(names: Seq<Seq<char>>)
    requires
        are_class_names(names),
        names.len() > 0,
    ensures
        class_list(names).len() >= names.last().len() > 0,
        class_list(names).skip(class_list(names).len() - names.last().len()) == names.last(),
        names.len() == 1 ==> forall|k: int|
            0 <= k < class_list(names).len() ==> #[trigger] class_list(names)[k] != ' ',
        names.len() > 1 ==> class_list(names).len() > names.last().len()
            && class_list(names)[class_list(names).len() - names.last().len() - 1] == ' '
            && class_list(names).take(class_list(names).len() - names.last().len() - 1)
            == class_list(names.drop_last()),
{
    let l = names.last();
    assert(is_class_name(names[names.len() - 1]));
    if names.len() == 1 {
        assert(is_class_name(names[0]));
        assert(names[0].skip(0) =~= names[0]);
    } else {
        let p = class_list(names.drop_last());
        let x = class_list(names);
        assert(x == p + seq![' '] + l);
        assert(x.skip(x.len() - l.len()) =~= l);
        assert(x.take(x.len() - l.len() - 1) =~= p);
    }
}

proof fn lemma_class_list_unique(a: Seq<Seq<char>>, b: Seq<Seq<char>>)
    requires
        are_class_names(a),
        are_class_names(b),
        a.len() > 0,
        b.len() > 0,
        class_list(a) == class_list(b),
    ensures
        a == b,
    decreases a.len() + b.len(),
{
    lemma_class_list_shape(a);
    lemma_class_list_shape(b);
    let x = class_list(a);
    let la = a.last();
    let lb = b.last();
    assert(is_class_name(la) && is_class_name(lb)) by {
        assert(is_class_name(a[a.len() - 1]));
        assert(is_class_name(b[b.len() - 1]));
    }
    if a.len() > 1 && b.len() == 1 {
        assert(x[x.len() - la.len() - 1] == ' ');
        assert(false);
    }
    if a.len() == 1 && b.len() > 1 {
        assert(x[x.len() - lb.len() - 1] == ' ');
        assert(false);
    }
    if la.len() < lb.len() {
        let q = x.len() - la.len() - 1;
        if a.len() > 1 {
            assert(x[q] == ' ');
            assert(x.skip(x.len() - lb.len())[q - (x.len() - lb.len())] == x[q]);
            assert(lb[q - (x.len() - lb.len())] != ' ');
        }
        assert(false);
    }
    if lb.len() < la.len() {
        let q = x.len() - lb.len() - 1;
        if b.len() > 1 {
            assert(x[q] == ' ');
            assert(x.skip(x.len() - la.len())[q - (x.len() - la.len())] == x[q]);
            assert(la[q - (x.len() - la.len())] != ' ');
        }
        assert(false);
    }
    assert(la == lb);
    if a.len() == 1 {
        assert(a =~= b);
    } else {
        let pa = a.drop_last();
        let pb = b.drop_last();
        assert(are_class_names(pa)) by {
            assert forall|i: int| 0 <= i < pa.len() implies is_class_name(#[trigger] pa[i]) by {
                assert(pa[i] == a[i]);
            }
        }
        assert(are_class_names(pb)) by {
            assert forall|i: int| 0 <= i < pb.len() implies is_class_name(#[trigger] pb[i]) by {
                assert(pb[i] == b[i]);
            }
        }
        lemma_class_list_unique(pa, pb);
        assert(a =~= b) by {
            assert forall|i: int| 0 <= i < a.len() implies a[i] == b[i] by {
                if i < a.len() - 1 {
                    assert(a[i] == pa[i]);
                    assert(b[i] == pb[i]);
                }
            }
        }
    }
}

/// A class attribute written from class names lists exactly those names.
pub proof fn lemma_has_class_exactly(names: Seq<Seq<char>>, name: Seq<char>)
    requires
        are_class_names(names),
        names.len() > 0,
    ensures
        has_class(class_list(names), name) <==> names.contains(name),
{
    if has_class(class_list(names), name) {
        let other = choose|other: Seq<Seq<char>>|
            #![trigger class_list(other)]
            are_class_names(other) && class_list(other) == class_list(names) && other.contains(name);
        lemma_class_list_shape(names);
        if other.len() == 0 {
            assert(class_list(other).len() == 0);
        }
        lemma_class_list_unique(other, names);
    }
    if names.contains(name) {
        assert(are_class_names(names) && class_list(names) == class_list(names) && names.contains(name));
    }
}


#[verifier::rlimit(50)]
#[verifier::spinoff_prover]
proof fn lemma_title_class_names(completed: bool) -> (names: Seq<Seq<char>>)
    ensures
        are_class_names(names),
        names.len() == 5,
        class_list(names) == title_class_text(completed),
        names.contains("line-through"@) <==> completed,
        names.contains("text-slate-500"@) <==> completed,
{
    reveal_strlit("text-lg");
    reveal_strlit("font-medium");
    reveal_strlit("transition-colors");
    reveal_strlit("text-slate-500");
    reveal_strlit("line-through");
    reveal_strlit("text-slate-200");
    reveal_strlit("group-hover:text-teal-50");
    reveal_strlit("text-lg font-medium transition-colors text-slate-500 line-through");
    reveal_strlit("text-lg font-medium transition-colors text-slate-200 group-hover:text-teal-50");
    let last: Seq<Seq<char>> = if completed {
        seq!["text-slate-500"@, "line-through"@]
    } else {
        seq!["text-slate-200"@, "group-hover:text-teal-50"@]
    };
    let names = seq!["text-lg"@, "font-medium"@, "transition-colors"@] + last;
    reveal_with_fuel(class_list, 6);
    assert(names.drop_last().drop_last().drop_last().drop_last() =~= seq!["text-lg"@]);
    assert(names.drop_last().drop_last().drop_last() =~= seq!["text-lg"@, "font-medium"@]);
    assert(names.drop_last().drop_last() =~= seq!["text-lg"@, "font-medium"@, "transition-colors"@]);
    assert(class_list(names) =~= title_class_text(completed));
    assert(are_class_names(names));
    if completed {
        assert(names[4] == "line-through"@);
        assert(names[3] == "text-slate-500"@);
    } else {
        assert forall|i: int| 0 <= i < names.len() implies names[i] != "line-through"@ by {
            assert(names[i].len() != "line-through"@.len());
        }
        assert forall|i: int| 0 <= i < names.len() implies names[i] != "text-slate-500"@ by {
            assert(names[i].len() != "text-slate-500"@.len() || names[i][5] != "text-slate-500"@[5]
                || names[i][11] != "text-slate-500"@[11]);
        }
    }
    names
}


#[verifier::rlimit(50)]
#[verifier::spinoff_prover]
proof fn lemma_check_class_names(completed: bool) -> (names: Seq<Seq<char>>)
    ensures
        are_class_names(names),
        names.len() > 0,
        class_list(names) == check_class_text(completed),
        names.contains("bg-emerald-500"@) <==> completed,
        names.contains("border-slate-500"@) <==> !completed,
{
    reveal_strlit("w-6");
    reveal_strlit("h-6");
    reveal_strlit("rounded");
    reveal_strlit("border-2");
    reveal_strlit("flex");
    reveal_strlit("items-center");
    reveal_strlit("justify-center");
    reveal_strlit("transition-all");
    reveal_strlit("duration-200");
    reveal_strlit("bg-emerald-500");
    reveal_strlit("border-emerald-500");
    reveal_strlit("shadow-[0_0_10px_rgba(16,185,129,0.5)]");
    reveal_strlit("border-slate-500");
    reveal_strlit("hover:border-teal-400");
    reveal_strlit(
        "w-6 h-6 rounded border-2 flex items-center justify-center transition-all duration-200 bg-emerald-500 border-emerald-500 shadow-[0_0_10px_rgba(16,185,129,0.5)]",
    );
    reveal_strlit(
        "w-6 h-6 rounded border-2 flex items-center justify-center transition-all duration-200 border-slate-500 hover:border-teal-400",
    );
    let base: Seq<Seq<char>> = seq![
        "w-6"@,
        "h-6"@,
        "rounded"@,
        "border-2"@,
        "flex"@,
        "items-center"@,
        "justify-center"@,
        "transition-all"@,
        "duration-200"@,
    ];
    let state: Seq<Seq<char>> = if completed {
        seq!["bg-emerald-500"@, "border-emerald-500"@, "shadow-[0_0_10px_rgba(16,185,129,0.5)]"@]
    } else {
        seq!["border-slate-500"@, "hover:border-teal-400"@]
    };
    let names = base + state;
    reveal_with_fuel(class_list, 13);
    assert(names.take(1) =~= seq!["w-6"@]);
    assert forall|n: int| 2 <= n <= names.len() implies #[trigger] names.take(n).drop_last() == names.take(n - 1) by {
        assert(names.take(n).drop_last() =~= names.take(n - 1));
    }
    assert(names.take(names.len() as int) =~= names);
    assert(class_list(names) =~= check_class_text(completed));
    assert(are_class_names(names));
    let t = "bg-emerald-500"@;
    let u = "border-slate-500"@;
    if completed {
        assert(names[9] == t);
        assert forall|i: int| 0 <= i < names.len() implies names[i] != u by {
            assert(names[i].len() != u.len());
        }
    } else {
        assert(names[9] == u);
        assert forall|i: int| 0 <= i < names.len() implies names[i] != t by {
            assert(names[i].len() != t.len() || names[i][0] != t[0]);
        }
    }
    names
}

#[verifier::rlimit(50)]
#[verifier::spinoff_prover]
proof fn lemma_badge_class_names(completed: bool) -> (names: Seq<Seq<char>>)
    ensures
        are_class_names(names),
        names.len() > 0,
        class_list(names) == badge_class_text(completed),
        names.contains("bg-emerald-500"@) <==> completed,
        names.contains("bg-transparent"@) <==> !completed,
{
    reveal_strlit("w-6");
    reveal_strlit("h-6");
    reveal_strlit("rounded-full");
    reveal_strlit("border-2");
    reveal_strlit("border-emerald-500");
    reveal_strlit("bg-emerald-500");
    reveal_strlit("flex");
    reveal_strlit("items-center");
    reveal_strlit("justify-center");
    reveal_strlit("transition-colors");
    reveal_strlit("border-slate-600");
    reveal_strlit("group-hover:border-teal-400");
    reveal_strlit("bg-transparent");
    reveal_strlit(
        "w-6 h-6 rounded-full border-2 border-emerald-500 bg-emerald-500 flex items-center justify-center transition-colors",
    );
    reveal_strlit(
        "w-6 h-6 rounded-full border-2 border-slate-600 group-hover:border-teal-400 transition-colors bg-transparent",
    );
    let names: Seq<Seq<char>> = if completed {
        seq![
            "w-6"@,
            "h-6"@,
            "rounded-full"@,
            "border-2"@,
            "border-emerald-500"@,
            "bg-emerald-500"@,
            "flex"@,
            "items-center"@,
            "justify-center"@,
            "transition-colors"@,
        ]
    } else {
        seq![
            "w-6"@,
            "h-6"@,
            "rounded-full"@,
            "border-2"@,
            "border-slate-600"@,
            "group-hover:border-teal-400"@,
            "transition-colors"@,
            "bg-transparent"@,
        ]
    };
    reveal_with_fuel(class_list, 11);
    assert(names.take(1) =~= seq!["w-6"@]);
    assert forall|n: int| 2 <= n <= names.len() implies #[trigger] names.take(n).drop_last() == names.take(n - 1) by {
        assert(names.take(n).drop_last() =~= names.take(n - 1));
    }
    assert(names.take(names.len() as int) =~= names);
    assert(class_list(names) =~= badge_class_text(completed));
    assert(are_class_names(names));
    let t = "bg-emerald-500"@;
    let u = "bg-transparent"@;
    if completed {
        assert(names[5] == t);
        assert forall|i: int| 0 <= i < names.len() implies names[i] != u by {
            assert(names[i].len() != u.len() || names[i][0] != u[0] || names[i][3] != u[3]);
        }
    } else {
        assert(names[7] == u);
        assert forall|i: int| 0 <= i < names.len() implies names[i] != t by {
            assert(names[i].len() != t.len() || names[i][0] != t[0] || names[i][3] != t[3]);
        }
    }
    names
}


/// Only a done todo's title is struck through on the home page, and only a
/// done todo's title is muted.
pub proof fn lemma_only_done_titles_are_struck_through(completed: bool)
    ensures
        has_class(title_class_text(completed), "line-through"@) <==> completed,
        has_class(title_class_text(completed), "text-slate-500"@) <==> completed,
{
    let names = lemma_title_class_names(completed);
    lemma_has_class_exactly(names, "line-through"@);
    lemma_has_class_exactly(names, "text-slate-500"@);
}

/// A done todo's badge on the home page is filled green, an open todo's is
/// transparent, so the two badges differ.
pub proof fn lemma_badge_is_filled_only_when_done(completed: bool)
    ensures
        has_class(badge_class_text(completed), "bg-emerald-500"@) <==> completed,
        has_class(badge_class_text(completed), "bg-transparent"@) <==> !completed,
        badge_class_text(true) != badge_class_text(false),
{
    let names = lemma_badge_class_names(completed);
    lemma_has_class_exactly(names, "bg-emerald-500"@);
    lemma_has_class_exactly(names, "bg-transparent"@);
    let done = lemma_badge_class_names(true);
    lemma_has_class_exactly(done, "bg-transparent"@);
    let open = lemma_badge_class_names(false);
    lemma_has_class_exactly(open, "bg-transparent"@);
}

/// The check box on the detail page is filled green only for a done todo,
/// and has the plain border only for an open one.
pub proof fn lemma_check_box_is_filled_only_when_done(completed: bool)
    ensures
        has_class(check_class_text(completed), "bg-emerald-500"@) <==> completed,
        has_class(check_class_text(completed), "border-slate-500"@) <==> !completed,
{
    let names = lemma_check_class_names(completed);
    lemma_has_class_exactly(names, "bg-emerald-500"@);
    lemma_has_class_exactly(names, "border-slate-500"@);
}

} // verus!
