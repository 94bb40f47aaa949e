//! The in-memory backend: a keyed collection, and the lock that lets many
//! callers share it.

use vstd::prelude::*;
use vstd::rwlock::{RwLock, RwLockPredicate};
use vstd::set_lib::lemma_map_size;
use std::collections::HashMap;
use std::sync::Arc;
use crate::entity::{views_of, CreateTodo, Todo, UpdateTodo};
use crate::error::RepositoryError;
use crate::history::Op;
use crate::model::StoreState;
use crate::repositories::{todo_result_view, unit_result_view, TodoRepository};

verus! {

broadcast use vstd::std_specs::hash::group_hash_axioms;

/// The todos of one store by identifier, and the count of the identifiers
/// handed out so far.
///
/// A creation takes the next identifier; a deletion does not give one
/// back. The collection stores any text as it comes, empty or over-long
/// ones too: payloads are checked before they get here, with `is_valid`.
pub struct TodoDatas {
    todos: HashMap<i32, Todo>,
    issued: i32,
}

impl View for TodoDatas {
    type V = StoreState;

    closed spec fn view(&self) -> StoreState {
        StoreState {
            todos: Map::new(
                |id: int| i32::MIN <= id <= i32::MAX && self.todos@.contains_key(id as i32),
                |id: int| self.todos@[id as i32]@,
            ),
            issued: self.issued as int,
        }
    }
}

impl TodoDatas {
    /// The counter is not negative, and every todo is filed under its own
    /// identifier, which the counter has reached.
    pub closed spec fn wf(&self) -> bool {
        &&& 0 <= self.issued
        &&& forall|k: i32| #[trigger]
            self.todos@.contains_key(k) ==> 1 <= k <= self.issued && self.todos@[k].id == k
    }

    /// A well-formed collection is a well-formed store.
    pub proof fn lemma_view_wf(&self)
        requires
            self.wf(),
        ensures
            self@.wf(),
    {
    }

    /// The view has as many todos as the map has keys.
    proof fn lemma_count(&self)
        ensures
            self@.count() == self.todos@.dom().len(),
    {
        let widen = |k: i32| k as int;
        let keys = self.todos@.dom();
        assert(keys.map(widen) =~= self@.todos.dom()) by {
            assert forall|id: int| self@.todos.dom().contains(id) implies keys.map(widen).contains(
                id,
            ) by {
                assert(keys.contains(id as i32) && widen(id as i32) == id);
            }
        }
        lemma_map_size(keys, self@.todos.dom(), widen);
    }

    /// An empty collection that starts with identifier 1.
    pub fn new() -> (store: Self)
        ensures
            store.wf(),
            store@ == StoreState::empty(),
    {
        let store = TodoDatas { todos: HashMap::new(), issued: 0 };
        assert(store@.todos =~= Map::empty());
        store
    }

    /// An empty collection that counts on after `issued` identifiers, as
    /// one does whose todos were all deleted. A negative count is taken as
    /// none.
    pub fn resuming(issued: i32) -> (store: Self)
        ensures
            store.wf(),
            store@ == StoreState::resumed(issued as int),
    {
        let issued: i32 = if issued < 0 { 0 } else { issued };
        let store = TodoDatas { todos: HashMap::new(), issued };
        assert(store@.todos =~= Map::empty());
        store
    }

    /// Stores a new todo with the text of `payload` under the next
    /// identifier and returns a copy. Fails, and changes nothing, only when
    /// the identifiers are used up.
    pub fn create(&mut self, payload: CreateTodo) -> (r: Result<Todo, RepositoryError>)
        requires
            old(self).wf(),
        ensures
            final(self).wf(),
            todo_result_view(r) == old(self)@.create_result(payload@),
            final(self)@ == old(self)@.create(payload@),
    {
        if self.issued == i32::MAX {
            return Err(
                RepositoryError::Unexpected(String::from_str("todo identifiers are exhausted")),
            );
        }
        let id: i32 = self.issued + 1;
        let todo = Todo::new(id, payload.text);
        self.issued = id;
        self.todos.insert(id, todo.clone());
        assert(self@.todos =~= old(self)@.create(payload@).todos);
        Ok(todo)
    }

    /// Returns a copy of the todo stored under `id`.
    pub fn find(&self, id: i32) -> (r: Result<Todo, RepositoryError>)
        requires
            self.wf(),
        ensures
            todo_result_view(r) == self@.find_result(id as int),
    {
        match self.todos.get(&id) {
            Some(todo) => Ok(todo.clone()),
            None => Err(RepositoryError::NotFound(id)),
        }
    }

    /// Returns a copy of every todo, in the order in which the map yields
    /// them.
    pub fn all(&self) -> (rows: Vec<Todo>)
        requires
            self.wf(),
        ensures
            self@.lists(views_of(rows@)),
    {
        let mut rows: Vec<Todo> = Vec::new();
        for key in it: self.todos.keys()
            invariant
                self.wf(),
                it.seq().unref().to_set() == self.todos@.dom(),
                it.seq().no_duplicates(),
                it.seq().len() == self.todos@.dom().len(),
                rows.len() == it.index(),
                forall|i: int|
                    0 <= i < rows.len() ==> #[trigger] rows[i].id == *it.seq()[i]
                        && self.todos@.contains_key(rows[i].id) && rows[i]
                        == self.todos@[rows[i].id],
        {
            proof {
                assert(it.seq().unref()[it.index()] == *key);
                assert(it.seq().unref().to_set().contains(*key));
            }
            match self.todos.get(key) {
                Some(todo) => rows.push(todo.clone()),
                // A key that the map yields has a value.
                None => {},
            }
        }
        proof {
            self.lemma_count();
        }
        rows
    }

    /// Writes the fields that `payload` carries over the todo stored under
    /// `id`, stores the result and returns a copy.
    pub fn update(&mut self, id: i32, payload: UpdateTodo) -> (r: Result<Todo, RepositoryError>)
        requires
            old(self).wf(),
        ensures
            final(self).wf(),
            todo_result_view(r) == old(self)@.update_result(id as int, payload@),
            final(self)@ == old(self)@.update(id as int, payload@),
    {
        let merged = match self.todos.get(&id) {
            Some(todo) => todo.merged(payload),
            None => {
                return Err(RepositoryError::NotFound(id));
            },
        };
        self.todos.insert(id, merged.clone());
        assert(self@.todos =~= old(self)@.update(id as int, payload@).todos);
        Ok(merged)
    }

    /// Removes the todo stored under `id`.
    pub fn delete(&mut self, id: i32) -> (r: Result<(), RepositoryError>)
        requires
            old(self).wf(),
        ensures
            final(self).wf(),
            unit_result_view(r) == old(self)@.delete_result(id as int),
            final(self)@ == old(self)@.delete(id as int),
    {
        match self.todos.remove(&id) {
            Some(_) => {
                assert(self@.todos =~= old(self)@.delete(id as int).todos);
                Ok(())
            },
            None => {
                assert(self@.todos =~= old(self)@.todos);
                Err(RepositoryError::NotFound(id))
            },
        }
    }

    /// How many todos the collection holds.
    pub fn len(&self) -> (n: usize)
        requires
            self.wf(),
        ensures
            n == self@.count(),
    {
        proof {
            self.lemma_count();
        }
        self.todos.len()
    }
}

/// What the lock of a `TodoRepositoryForMemory` lets in: well-formed
/// collections that hold a state which `start` has come to by the
/// operations of a store.
pub struct ReachedFrom {
    pub start: StoreState,
}

impl RwLockPredicate<TodoDatas> for ReachedFrom {
    open spec fn inv(self, store: TodoDatas) -> bool {
        store.wf() && self.start.reaches(store@)
    }
}

/// The in-memory backend: one collection behind one reader-writer lock,
/// shared by every clone of the handle.
///
/// `create`, `update` and `delete` hold the lock for writing from their
/// reading of the collection to their writing of it, `find` and `all` hold
/// it for reading. So each call is one step of `TodoDatas` on the state
/// that the calls before it have left. Which state that is, no caller can
/// tell beforehand; it is one that the state at the start has come to by
/// such steps. What a call returns is what its step returns on some such
/// state, and its contract says so.
#[derive(Clone)]
pub struct TodoRepositoryForMemory {
    store: Arc<RwLock<TodoDatas, ReachedFrom>>,
}

impl TodoRepositoryForMemory {
    /// The state of the store when the lock was made.
    pub closed spec fn start(&self) -> StoreState {
        self.store.pred().start
    }

    /// A handle to a new, empty store.
    pub fn new() -> (repository: Self)
        ensures
            repository.start() == StoreState::empty(),
    {
        Self::holding(TodoDatas::new())
    }

    /// A handle to a store that starts as `store`.
    pub fn holding(store: TodoDatas) -> (repository: Self)
        requires
            store.wf(),
        ensures
            repository.start() == store@,
    {
        proof {
            store@.lemma_reaches_itself();
        }
        let lock = RwLock::new(store, Ghost(ReachedFrom { start: store@ }));
        TodoRepositoryForMemory { store: Arc::new(lock) }
    }
}

impl TodoRepository for TodoRepositoryForMemory {
    fn create(&self, payload: CreateTodo) -> (r: Result<Todo, RepositoryError>)
        ensures
            self.start().later_creates(payload@, todo_result_view(r)),
    {
        let (mut store, handle) = self.store.acquire_write();
        let ghost before = store@;
        proof {
            store.lemma_view_wf();
        }
        let r = store.create(payload);
        proof {
            self.start().lemma_reaches_further(before, Op::Create(payload@));
        }
        handle.release_write(store);
        assert(self.start().leads_to(before));
        assert(before.create_result(payload@) == todo_result_view(r));
        r
    }

    fn find(&self, id: i32) -> (r: Result<Todo, RepositoryError>)
        ensures
            self.start().later_finds(id as int, todo_result_view(r)),
    {
        let handle = self.store.acquire_read();
        let store = handle.borrow();
        proof {
            store.lemma_view_wf();
        }
        let r = store.find(id);
        assert(self.start().leads_to(store@));
        assert(store@.find_result(id as int) == todo_result_view(r));
        handle.release_read();
        r
    }

    fn all(&self) -> (r: Result<Vec<Todo>, RepositoryError>)
        ensures
            r matches Ok(rows) && self.start().later_lists(views_of(rows@)),
    {
        let handle = self.store.acquire_read();
        let store = handle.borrow();
        proof {
            store.lemma_view_wf();
        }
        let rows = store.all();
        assert(self.start().leads_to(store@));
        assert(store@.lists(views_of(rows@)));
        handle.release_read();
        proof {
            let listed = views_of(rows@);
            assert forall|i: int, j: int| 0 <= i < j < rows.len() implies #[trigger] rows[i].id
                != #[trigger] rows[j].id by {
                assert(listed[i].id != listed[j].id);
            }
        }
        Ok(rows)
    }

    fn update(&self, id: i32, payload: UpdateTodo) -> (r: Result<Todo, RepositoryError>)
        ensures
            self.start().later_updates(id as int, payload@, todo_result_view(r)),
    {
        let (mut store, handle) = self.store.acquire_write();
        let ghost before = store@;
        proof {
            store.lemma_view_wf();
        }
        let r = store.update(id, payload);
        proof {
            self.start().lemma_reaches_further(before, Op::Update(id as int, payload@));
        }
        handle.release_write(store);
        assert(self.start().leads_to(before));
        assert(before.update_result(id as int, payload@) == todo_result_view(r));
        r
    }

    fn delete(&self, id: i32) -> (r: Result<(), RepositoryError>)
        ensures
            self.start().later_deletes(id as int, unit_result_view(r)),
    {
        let (mut store, handle) = self.store.acquire_write();
        let ghost before = store@;
        proof {
            store.lemma_view_wf();
        }
        let r = store.delete(id);
        proof {
            self.start().lemma_reaches_further(before, Op::Delete(id as int));
        }
        handle.release_write(store);
        assert(self.start().leads_to(before));
        assert(before.delete_result(id as int) == unit_result_view(r));
        r
    }
}

} // verus!
