//! The contract that every backend keeps.

use vstd::prelude::*;
use crate::entity::{CreateTodo, Todo, TodoView, UpdateTodo};
use crate::error::{ErrorView, RepositoryError};

verus! {

/// What a call that returns a todo has returned, mathematically.
pub open spec fn todo_result_view(r: Result<Todo, RepositoryError>) -> Result<TodoView, ErrorView> {
    match r {
        Ok(todo) => Ok(todo@),
        Err(e) => Err(e@),
    }
}

/// What a call that returns nothing has returned, mathematically.
pub open spec fn unit_result_view(r: Result<(), RepositoryError>) -> Result<(), ErrorView> {
    match r {
        Ok(_) => Ok(()),
        Err(e) => Err(e@),
    }
}

/// No two rows carry the same identifier.
pub open spec fn distinct_ids(rows: Seq<Todo>) -> bool {
    forall|i: int, j: int|
        0 <= i < j < rows.len() ==> #[trigger] rows[i].id != #[trigger] rows[j].id
}

/// Whether `e` is what a backend may answer when asked for `id`: that no
/// todo has this identifier, or that the backend itself failed.
pub open spec fn misses(e: ErrorView, id: int) -> bool {
    e is Unexpected || e == ErrorView::NotFound(id)
}

/// A store of todos that many callers share.
///
/// Every method takes `&self`: a backend guards its state itself, and each
/// call takes effect at once or not at all. Between two calls of one caller
/// others may have changed the store, so a contract here says what holds of
/// a result whatever the store held when the call took effect. What a call
/// returns for a given content of the store is stated where the content is
/// at hand: on `TodoDatas` for the in-memory backend, on `Adapter` for the
/// persistent one.
pub trait TodoRepository: Clone + Send + Sync + 'static {
    /// Stores a new todo with the text of `payload`, not completed, under a
    /// new identifier, and returns it. Only a failure of the backend makes
    /// this fail.
    fn create(&self, payload: CreateTodo) -> (r: Result<Todo, RepositoryError>)
        ensures
            match r {
                Ok(todo) => 1 <= todo.id && todo@ == TodoView::fresh(todo.id as int, payload@),
                Err(e) => e@ is Unexpected,
            },
    ;

    /// Returns the todo stored under `id`.
    fn find(&self, id: i32) -> (r: Result<Todo, RepositoryError>)
        ensures
            match r {
                Ok(todo) => todo.id == id,
                Err(e) => misses(e@, id as int),
            },
    ;

    /// Returns every stored todo once, in no particular order.
    fn all(&self) -> (r: Result<Vec<Todo>, RepositoryError>)
        ensures
            match r {
                Ok(rows) => distinct_ids(rows@),
                Err(e) => e@ is Unexpected,
            },
    ;

    /// Writes the fields that `payload` carries over the todo stored under
    /// `id` and returns the todo as it is stored then.
    fn update(&self, id: i32, payload: UpdateTodo) -> (r: Result<Todo, RepositoryError>)
        ensures
            match r {
                Ok(todo) => todo.id == id && payload@.shows_in(todo@),
                Err(e) => misses(e@, id as int),
            },
    ;

    /// Removes the todo stored under `id`.
    fn delete(&self, id: i32) -> (r: Result<(), RepositoryError>)
        ensures
            r matches Err(e) ==> misses(e@, id as int),
    ;
}

} // verus!
