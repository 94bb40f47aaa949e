//! The abstract state of a store, what each operation does to it, and what
//! follows from one operation.

use vstd::prelude::*;
use vstd::set_lib::{lemma_int_range, lemma_len_subset, lemma_subset_equality, set_int_range};
use crate::entity::{TodoView, UpdateView};
use crate::error::ErrorView;

verus! {

/// The detail of the error a store gives once every identifier is used up.
pub open spec fn exhausted_detail() -> Seq<char> {
    "todo identifiers are exhausted"@
}

/// A store seen from outside: the live todos by identifier, and how many
/// identifiers were handed out so far. Identifiers are handed out in
/// ascending order and never again, whatever is deleted in between.
pub struct StoreState {
    pub todos: Map<int, TodoView>,
    pub issued: int,
}

impl StoreState {
    /// Every live todo sits under its own identifier, and the identifiers
    /// in use lie between 1 and `issued`.
    pub open spec fn wf(self) -> bool {
        &&& 0 <= self.issued <= i32::MAX
        &&& forall|id: int| #[trigger]
            self.todos.contains_key(id) ==> 1 <= id <= self.issued && self.todos[id].id == id
    }

    /// The store nothing was ever created in.
    pub open spec fn empty() -> StoreState {
        StoreState { todos: Map::empty(), issued: 0 }
    }

    /// The empty store that counts on from `issued` identifiers.
    pub open spec fn resumed(issued: int) -> StoreState {
        StoreState { todos: Map::empty(), issued: if issued < 0 { 0 } else { issued } }
    }

    pub open spec fn is_live(self, id: int) -> bool {
        self.todos.contains_key(id)
    }

    /// How many todos are live.
    pub open spec fn count(self) -> nat {
        self.todos.dom().len()
    }

    /// Whether another identifier can be handed out.
    pub open spec fn has_room(self) -> bool {
        self.issued < i32::MAX
    }

    /// The identifier that the next creation gets.
    pub open spec fn next_id(self) -> int {
        self.issued + 1
    }

    /// The todo that creating `text` stores.
    pub open spec fn created(self, text: Seq<char>) -> TodoView {
        TodoView::fresh(self.next_id(), text)
    }

    /// What creating `text` returns.
    pub open spec fn create_result(self, text: Seq<char>) -> Result<TodoView, ErrorView> {
        if self.has_room() {
            Ok(self.created(text))
        } else {
            Err(ErrorView::Unexpected(exhausted_detail()))
        }
    }

    /// The store after creating `text`.
    pub open spec fn create(self, text: Seq<char>) -> StoreState {
        if self.has_room() {
            StoreState {
                todos: self.todos.insert(self.next_id(), self.created(text)),
                issued: self.issued + 1,
            }
        } else {
            self
        }
    }

    /// What looking up `id` returns.
    pub open spec fn find_result(self, id: int) -> Result<TodoView, ErrorView> {
        if self.is_live(id) {
            Ok(self.todos[id])
        } else {
            Err(ErrorView::NotFound(id))
        }
    }

    /// What updating `id` with `patch` returns.
    pub open spec fn update_result(self, id: int, patch: UpdateView) -> Result<
        TodoView,
        ErrorView,
    > {
        if self.is_live(id) {
            Ok(self.todos[id].merge(patch))
        } else {
            Err(ErrorView::NotFound(id))
        }
    }

    /// The store after updating `id` with `patch`.
    pub open spec fn update(self, id: int, patch: UpdateView) -> StoreState {
        if self.is_live(id) {
            StoreState { todos: self.todos.insert(id, self.todos[id].merge(patch)), ..self }
        } else {
            self
        }
    }

    /// What deleting `id` returns.
    pub open spec fn delete_result(self, id: int) -> Result<(), ErrorView> {
        if self.is_live(id) {
            Ok(())
        } else {
            Err(ErrorView::NotFound(id))
        }
    }

    /// The store after deleting `id`.
    pub open spec fn delete(self, id: int) -> StoreState {
        if self.is_live(id) {
            StoreState { todos: self.todos.remove(id), ..self }
        } else {
            self
        }
    }

    /// `rows` holds every live todo once, in some order.
    pub open spec fn lists(self, rows: Seq<TodoView>) -> bool {
        &&& rows.len() == self.count()
        &&& forall|i: int|
            0 <= i < rows.len() ==> self.is_live(#[trigger] rows[i].id) && self.todos[rows[i].id]
                == rows[i]
        &&& forall|i: int, j: int|
            0 <= i < j < rows.len() ==> #[trigger] rows[i].id != #[trigger] rows[j].id
    }

    /// A well-formed store holds finitely many todos, no more than the
    /// identifiers it has handed out.
    pub proof fn lemma_finite(self)
        requires
            self.wf(),
        ensures
            self.todos.dom().finite(),
            self.count() <= self.issued,
    {
        lemma_int_range(1, self.issued + 1);
        lemma_len_subset(self.todos.dom(), set_int_range(1, self.issued + 1));
    }

    /// The empty store is well-formed and holds nothing.
    pub proof fn lemma_empty()
        ensures
            Self::empty().wf(),
            Self::empty().count() == 0,
            Self::empty().lists(Seq::empty()),
            forall|id: int| !Self::empty().is_live(id),
    {
    }

    /// A creation with room left succeeds. The new todo carries the given
    /// text, is not completed, and gets an identifier above every live one.
    /// It is live afterwards, and no other todo has changed.
    pub proof fn lemma_create(self, text: Seq<char>)
        requires
            self.wf(),
            self.has_room(),
        ensures
            self.create_result(text) == Ok::<TodoView, ErrorView>(self.created(text)),
            self.created(text).text == text,
            !self.created(text).completed,
            !self.is_live(self.created(text).id),
            forall|id: int| self.is_live(id) ==> id < self.created(text).id,
            self.create(text).wf(),
            self.create(text).is_live(self.created(text).id),
            self.create(text).todos[self.created(text).id] == self.created(text),
            self.create(text).count() == self.count() + 1,
            forall|id: int|
                id != self.created(text).id ==> self.create(text).is_live(id) == self.is_live(id)
                    && self.create(text).todos[id] == self.todos[id],
    {
        self.lemma_finite();
    }

    /// Without room a creation fails and leaves the store as it was.
    pub proof fn lemma_create_without_room(self, text: Seq<char>)
        requires
            !self.has_room(),
        ensures
            self.create_result(text) == Err::<TodoView, ErrorView>(
                ErrorView::Unexpected(exhausted_detail()),
            ),
            self.create(text) == self,
    {
    }

    /// Looking up the identifier that a creation returned gives the todo
    /// that it returned.
    pub proof fn lemma_find_after_create(self, text: Seq<char>)
        requires
            self.wf(),
            self.has_room(),
        ensures
            self.create(text).find_result(self.created(text).id) == Ok::<TodoView, ErrorView>(
                self.created(text),
            ),
    {
    }

    /// An update of a live todo returns the merged todo and stores it. The
    /// identifier, the other todos and the counter stay as they were.
    pub proof fn lemma_update(self, id: int, patch: UpdateView)
        requires
            self.wf(),
            self.is_live(id),
        ensures
            self.update_result(id, patch) == Ok::<TodoView, ErrorView>(self.todos[id].merge(patch)),
            self.update(id, patch).wf(),
            self.update(id, patch).find_result(id) == self.update_result(id, patch),
            self.update(id, patch).todos[id].id == id,
            self.update(id, patch).issued == self.issued,
            self.update(id, patch).count() == self.count(),
            forall|other: int| self.update(id, patch).is_live(other) == self.is_live(other),
            forall|other: int|
                other != id ==> self.update(id, patch).todos[other] == self.todos[other],
    {
        assert(self.update(id, patch).todos.dom() =~= self.todos.dom());
    }

    /// An update that carries only a text changes the text and nothing else.
    pub proof fn lemma_update_text_only(self, id: int, text: Seq<char>)
        requires
            self.wf(),
            self.is_live(id),
        ensures
            ({
                let patch = UpdateView { text: Some(text), completed: None };
                let after = self.update(id, patch).todos[id];
                &&& self.update_result(id, patch) == Ok::<TodoView, ErrorView>(after)
                &&& after.text == text
                &&& after.completed == self.todos[id].completed
                &&& after.id == id
            }),
    {
    }

    /// An update that carries only a flag changes the flag and nothing else.
    pub proof fn lemma_update_completed_only(self, id: int, completed: bool)
        requires
            self.wf(),
            self.is_live(id),
        ensures
            ({
                let patch = UpdateView { text: None, completed: Some(completed) };
                let after = self.update(id, patch).todos[id];
                &&& self.update_result(id, patch) == Ok::<TodoView, ErrorView>(after)
                &&& after.completed == completed
                &&& after.text == self.todos[id].text
                &&& after.id == id
            }),
    {
    }

    /// An update that carries nothing returns the todo as it is and leaves
    /// the store as it was.
    pub proof fn lemma_update_nothing(self, id: int)
        requires
            self.wf(),
            self.is_live(id),
        ensures
            ({
                let patch = UpdateView { text: None, completed: None };
                &&& self.update_result(id, patch) == Ok::<TodoView, ErrorView>(self.todos[id])
                &&& self.update(id, patch) == self
            }),
    {
        let patch = UpdateView { text: None, completed: None };
        assert(self.update(id, patch).todos =~= self.todos);
    }

    /// On an identifier that is not live, a lookup, an update and a deletion
    /// each return `NotFound` with that identifier and change nothing.
    pub proof fn lemma_missing(self, id: int, patch: UpdateView)
        requires
            !self.is_live(id),
        ensures
            self.find_result(id) == Err::<TodoView, ErrorView>(ErrorView::NotFound(id)),
            self.update_result(id, patch) == Err::<TodoView, ErrorView>(ErrorView::NotFound(id)),
            self.delete_result(id) == Err::<(), ErrorView>(ErrorView::NotFound(id)),
            self.update(id, patch) == self,
            self.delete(id) == self,
    {
    }

    /// Deleting a live todo succeeds and removes it and nothing else. Its
    /// identifier is not handed out again: the counter stays.
    pub proof fn lemma_delete(self, id: int)
        requires
            self.wf(),
            self.is_live(id),
        ensures
            self.delete_result(id) == Ok::<(), ErrorView>(()),
            self.delete(id).wf(),
            !self.delete(id).is_live(id),
            self.delete(id).issued == self.issued,
            self.delete(id).count() == self.count() - 1,
            forall|other: int|
                other != id ==> self.delete(id).is_live(other) == self.is_live(other)
                    && self.delete(id).todos[other] == self.todos[other],
    {
        self.lemma_finite();
    }

    /// Whatever the first deletion of an identifier returned, a second one
    /// returns `NotFound`, and so does a lookup.
    pub proof fn lemma_delete_twice(self, id: int)
        ensures
            self.delete(id).delete_result(id) == Err::<(), ErrorView>(ErrorView::NotFound(id)),
            self.delete(id).find_result(id) == Err::<TodoView, ErrorView>(ErrorView::NotFound(id)),
            self.delete(id).delete(id) == self.delete(id),
    {
    }

    /// The identifiers of a listing are exactly the live identifiers, and
    /// its rows are exactly the live todos.
    pub proof fn lemma_lists(self, rows: Seq<TodoView>)
        requires
            self.wf(),
            self.lists(rows),
        ensures
            rows.map_values(|t: TodoView| t.id).no_duplicates(),
            rows.map_values(|t: TodoView| t.id).to_set() == self.todos.dom(),
            forall|id: int|
                self.is_live(id) ==> exists|i: int|
                    0 <= i < rows.len() && #[trigger] rows[i] == self.todos[id],
    {
        let ids = rows.map_values(|t: TodoView| t.id);
        assert forall|i: int, j: int|
            0 <= i < ids.len() && 0 <= j < ids.len() && i != j implies ids[i] != ids[j] by {
            if i < j {
                assert(rows[i].id != rows[j].id);
            } else {
                assert(rows[j].id != rows[i].id);
            }
        }
        ids.unique_seq_to_set();
        self.lemma_finite();
        assert forall|id: int| ids.to_set().contains(id) implies self.todos.dom().contains(id) by {
            let i = choose|i: int| 0 <= i < ids.len() && ids[i] == id;
            assert(self.is_live(rows[i].id));
        }
        lemma_subset_equality(ids.to_set(), self.todos.dom());
        assert forall|id: int| self.is_live(id) implies exists|i: int|
            0 <= i < rows.len() && #[trigger] rows[i] == self.todos[id] by {
            assert(ids.to_set().contains(id));
            let i = choose|i: int| 0 <= i < ids.len() && ids[i] == id;
            assert(rows[i].id == id);
            assert(rows[i] == self.todos[id]);
        }
    }
}

} // verus!
