//! The `Todo` record and the payloads that create and update one.

use vstd::prelude::*;

verus! {

/// Shortest text, in characters, that a valid payload may carry.
pub const MIN_TEXT_LEN: u64 = 1;

/// Longest text, in characters, that a valid payload may carry.
pub const MAX_TEXT_LEN: u64 = 100;

/// What a `Todo` is, mathematically: an identifier, a text and a flag.
pub struct TodoView {
    pub id: int,
    pub text: Seq<char>,
    pub completed: bool,
}

/// What an `UpdateTodo` is: for each field, a new value or nothing.
pub struct UpdateView {
    pub text: Option<Seq<char>>,
    pub completed: Option<bool>,
}

/// A text is valid when it has at least `MIN_TEXT_LEN` and at most
/// `MAX_TEXT_LEN` characters.
pub open spec fn valid_text(text: Seq<char>) -> bool {
    MIN_TEXT_LEN <= text.len() <= MAX_TEXT_LEN
}

/// Whether a length passes the given bounds. Where `equal` is set it alone
/// counts; a bound that is not set allows every length.
pub open spec fn length_allowed(
    len: nat,
    min: Option<u64>,
    max: Option<u64>,
    equal: Option<u64>,
) -> bool {
    match equal {
        Some(n) => len == n,
        None => (min matches Some(n) ==> n <= len) && (max matches Some(n) ==> len <= n),
    }
}

/// `validator::validate_length` on a string: the length it tests is the
/// number of characters, and it returns whether that number passes the
/// bounds as `length_allowed` says.
#[verifier::external_body]
fn validate_length(text: &str, min: Option<u64>, max: Option<u64>, equal: Option<u64>) -> (ok:
    bool)
    ensures
        ok == length_allowed(text@.len(), min, max, equal),
{
    validator::validate_length(text, min, max, equal)
}

/// Whether `text` is valid.
fn text_is_valid(text: &str) -> (ok: bool)
    ensures
        ok == valid_text(text@),
{
    validate_length(text, Some(MIN_TEXT_LEN), None, None) && validate_length(
        text,
        None,
        Some(MAX_TEXT_LEN),
        None,
    )
}

impl UpdateView {
    /// The text, if the patch carries one, is valid.
    pub open spec fn valid(self) -> bool {
        self.text matches Some(text) ==> valid_text(text)
    }

    /// Every field that this patch carries has its value in `todo`.
    pub open spec fn shows_in(self, todo: TodoView) -> bool {
        &&& self.text matches Some(text) ==> todo.text == text
        &&& self.completed matches Some(completed) ==> todo.completed == completed
    }
}

/// The rows of a listing, mathematically.
pub open spec fn views_of(rows: Seq<Todo>) -> Seq<TodoView> {
    rows.map_values(|todo: Todo| todo@)
}

impl TodoView {
    /// The record a store holds right after creating `text` under `id`.
    pub open spec fn fresh(id: int, text: Seq<char>) -> TodoView {
        TodoView { id, text, completed: false }
    }

    /// This record with each field that `patch` carries written over it.
    /// The identifier never changes.
    pub open spec fn merge(self, patch: UpdateView) -> TodoView {
        TodoView {
            id: self.id,
            text: match patch.text {
                Some(t) => t,
                None => self.text,
            },
            completed: match patch.completed {
                Some(c) => c,
                None => self.completed,
            },
        }
    }
}

/// One task: its identifier, its text, and whether it is done.
#[derive(Debug, PartialEq, Eq)]
pub struct Todo {
    pub id: i32,
    pub text: String,
    pub completed: bool,
}

impl View for Todo {
    type V = TodoView;

    open spec fn view(&self) -> TodoView {
        TodoView { id: self.id as int, text: self.text@, completed: self.completed }
    }
}

impl Clone for Todo {
    fn clone(&self) -> (copy: Self)
        ensures
            copy == *self,
    {
        Todo { id: self.id, text: self.text.clone(), completed: self.completed }
    }
}

impl Todo {
    /// A todo that is not completed yet.
    pub fn new(id: i32, text: String) -> (todo: Self)
        ensures
            todo@ == TodoView::fresh(id as int, text@),
            todo.id == id,
            todo.text == text,
    {
        Todo { id, text, completed: false }
    }

    /// The todo that results from writing the fields of `payload` over
    /// this one.
    pub fn merged(&self, payload: UpdateTodo) -> (todo: Self)
        ensures
            todo@ == self@.merge(payload@),
    {
        let text = match payload.text {
            Some(t) => t,
            None => self.text.clone(),
        };
        let completed = match payload.completed {
            Some(c) => c,
            None => self.completed,
        };
        Todo { id: self.id, text, completed }
    }
}

/// The payload of a creation: the text of the new todo.
#[derive(Debug, PartialEq, Eq)]
pub struct CreateTodo {
    pub text: String,
}

impl View for CreateTodo {
    type V = Seq<char>;

    open spec fn view(&self) -> Seq<char> {
        self.text@
    }
}

impl Clone for CreateTodo {
    fn clone(&self) -> (copy: Self)
        ensures
            copy == *self,
    {
        CreateTodo { text: self.text.clone() }
    }
}

impl CreateTodo {
    pub fn new(text: String) -> (payload: Self)
        ensures
            payload@ == text@,
            payload.text == text,
    {
        CreateTodo { text }
    }

    /// Whether the text is not empty and within `MAX_TEXT_LEN`.
    pub fn is_valid(&self) -> (ok: bool)
        ensures
            ok == valid_text(self@),
    {
        text_is_valid(self.text.as_str())
    }
}

/// The payload of a partial update: a field left out stays as it is.
#[derive(Debug, PartialEq, Eq)]
pub struct UpdateTodo {
    pub text: Option<String>,
    pub completed: Option<bool>,
}

impl View for UpdateTodo {
    type V = UpdateView;

    open spec fn view(&self) -> UpdateView {
        UpdateView {
            text: match self.text {
                Some(t) => Some(t@),
                None => None,
            },
            completed: self.completed,
        }
    }
}

impl Clone for UpdateTodo {
    fn clone(&self) -> (copy: Self)
        ensures
            copy == *self,
    {
        let text = match &self.text {
            Some(t) => Some(t.clone()),
            None => None,
        };
        UpdateTodo { text, completed: self.completed }
    }
}

impl UpdateTodo {
    pub fn new(text: Option<String>, completed: Option<bool>) -> (payload: Self)
        ensures
            payload.text == text,
            payload.completed == completed,
    {
        UpdateTodo { text, completed }
    }

    /// Whether the new text, if there is one, is not empty and within
    /// `MAX_TEXT_LEN`.
    pub fn is_valid(&self) -> (ok: bool)
        ensures
            ok == self@.valid(),
    {
        match &self.text {
            Some(t) => text_is_valid(t.as_str()),
            None => true,
        }
    }
}

} // verus!
