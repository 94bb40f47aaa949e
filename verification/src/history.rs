//! What holds of a store after any sequence of operations.

use vstd::prelude::*;
use crate::entity::{TodoView, UpdateView};
use crate::error::ErrorView;
use crate::model::StoreState;

verus! {

/// One operation that can change a store.
pub enum Op {
    Create(Seq<char>),
    Update(int, UpdateView),
    Delete(int),
}

/// The creations of `texts`, one after the other.
pub open spec fn creations_of(texts: Seq<Seq<char>>) -> Seq<Op> {
    texts.map_values(|text: Seq<char>| Op::Create(text))
}

impl StoreState {
    /// The store after `op`.
    pub open spec fn apply(self, op: Op) -> StoreState {
        match op {
            Op::Create(text) => self.create(text),
            Op::Update(id, patch) => self.update(id, patch),
            Op::Delete(id) => self.delete(id),
        }
    }

    /// Whether `op` returns a value rather than an error.
    pub open spec fn succeeds(self, op: Op) -> bool {
        match op {
            Op::Create(_) => self.has_room(),
            Op::Update(id, _) => self.is_live(id),
            Op::Delete(id) => self.is_live(id),
        }
    }

    /// The store after `ops`, first to last.
    pub open spec fn run(self, ops: Seq<Op>) -> StoreState
        decreases ops.len(),
    {
        if ops.len() == 0 {
            self
        } else {
            self.run(ops.drop_last()).apply(ops.last())
        }
    }

    /// Whether some sequence of operations takes this store to `later`.
    pub open spec fn reaches(self, later: StoreState) -> bool {
        exists|ops: Seq<Op>| #[trigger] self.run(ops) == later
    }

    /// Whether `later` is a well-formed store that this one can come to.
    pub open spec fn leads_to(self, later: StoreState) -> bool {
        self.reaches(later) && later.wf()
    }

    /// Some store that this one leads to returns `outcome` for creating
    /// `text`.
    pub open spec fn later_creates(
        self,
        text: Seq<char>,
        outcome: Result<TodoView, ErrorView>,
    ) -> bool {
        exists|s: StoreState| self.leads_to(s) && #[trigger] s.create_result(text) == outcome
    }

    /// Some store that this one leads to returns `outcome` for looking up
    /// `id`.
    pub open spec fn later_finds(self, id: int, outcome: Result<TodoView, ErrorView>) -> bool {
        exists|s: StoreState| self.leads_to(s) && #[trigger] s.find_result(id) == outcome
    }

    /// Some store that this one leads to returns `outcome` for updating
    /// `id` with `patch`.
    pub open spec fn later_updates(
        self,
        id: int,
        patch: UpdateView,
        outcome: Result<TodoView, ErrorView>,
    ) -> bool {
        exists|s: StoreState| self.leads_to(s) && #[trigger] s.update_result(id, patch) == outcome
    }

    /// Some store that this one leads to returns `outcome` for deleting
    /// `id`.
    pub open spec fn later_deletes(self, id: int, outcome: Result<(), ErrorView>) -> bool {
        exists|s: StoreState| self.leads_to(s) && #[trigger] s.delete_result(id) == outcome
    }

    /// `rows` is a listing of some store that this one leads to.
    pub open spec fn later_lists(self, rows: Seq<TodoView>) -> bool {
        exists|s: StoreState| self.leads_to(s) && #[trigger] s.lists(rows)
    }

    /// How many creations among `ops` succeed.
    pub open spec fn created_in(self, ops: Seq<Op>) -> nat
        decreases ops.len(),
    {
        if ops.len() == 0 {
            0
        } else {
            let before = self.run(ops.drop_last());
            let one: nat = if ops.last() is Create && before.succeeds(ops.last()) {
                1
            } else {
                0
            };
            self.created_in(ops.drop_last()) + one
        }
    }

    /// How many deletions among `ops` succeed.
    pub open spec fn deleted_in(self, ops: Seq<Op>) -> nat
        decreases ops.len(),
    {
        if ops.len() == 0 {
            0
        } else {
            let before = self.run(ops.drop_last());
            let one: nat = if ops.last() is Delete && before.succeeds(ops.last()) {
                1
            } else {
                0
            };
            self.deleted_in(ops.drop_last()) + one
        }
    }

    /// No operation breaks a store or turns its counter back.
    pub proof fn lemma_apply(self, op: Op)
        requires
            self.wf(),
        ensures
            self.apply(op).wf(),
            self.issued <= self.apply(op).issued,
            !self.succeeds(op) ==> self.apply(op) == self,
    {
        match op {
            Op::Create(text) => {
                if self.has_room() {
                    self.lemma_create(text);
                }
            },
            Op::Update(id, patch) => {
                if self.is_live(id) {
                    self.lemma_update(id, patch);
                }
            },
            Op::Delete(id) => {
                if self.is_live(id) {
                    self.lemma_delete(id);
                }
            },
        }
    }

    /// No sequence of operations breaks a store or turns its counter back.
    pub proof fn lemma_run(self, ops: Seq<Op>)
        requires
            self.wf(),
        ensures
            self.run(ops).wf(),
            self.issued <= self.run(ops).issued,
        decreases ops.len(),
    {
        if ops.len() > 0 {
            self.lemma_run(ops.drop_last());
            self.run(ops.drop_last()).lemma_apply(ops.last());
        }
    }

    /// A store reaches itself, with no operation.
    pub proof fn lemma_reaches_itself(self)
        ensures
            self.reaches(self),
    {
        assert(self.run(Seq::empty()) == self);
    }

    /// What reaches a store reaches the store after one more operation.
    pub proof fn lemma_reaches_further(self, later: StoreState, op: Op)
        requires
            self.reaches(later),
        ensures
            self.reaches(later.apply(op)),
    {
        let ops = choose|ops: Seq<Op>| #[trigger] self.run(ops) == later;
        assert(ops.push(op).drop_last() =~= ops);
        assert(self.run(ops.push(op)) == later.apply(op));
    }

    /// A store that a well-formed one reaches is well-formed, has handed
    /// out no fewer identifiers, and hands out its next one above all that
    /// the first has handed out.
    pub proof fn lemma_reached(self, later: StoreState, text: Seq<char>)
        requires
            self.wf(),
            self.reaches(later),
        ensures
            later.wf(),
            self.issued <= later.issued,
            self.issued < later.created(text).id,
    {
        let ops = choose|ops: Seq<Op>| #[trigger] self.run(ops) == later;
        self.lemma_run(ops);
    }

    /// An identifier is never handed out twice: whatever happens to a store
    /// in between, deletions included, a later creation gets an identifier
    /// above every one that the store has handed out before.
    pub proof fn lemma_identifiers_never_reused(self, ops: Seq<Op>, text: Seq<char>)
        requires
            self.wf(),
        ensures
            self.issued < self.run(ops).created(text).id,
            forall|id: int| self.is_live(id) ==> id != self.run(ops).created(text).id,
    {
        self.lemma_run(ops);
    }

    /// After any sequence of operations a store holds what it held before,
    /// plus one todo for each creation that succeeded, minus one for each
    /// deletion that succeeded.
    pub proof fn lemma_count_after_run(self, ops: Seq<Op>)
        requires
            self.wf(),
        ensures
            self.run(ops).count() == self.count() + self.created_in(ops) - self.deleted_in(ops),
        decreases ops.len(),
    {
        if ops.len() > 0 {
            let before = self.run(ops.drop_last());
            self.lemma_count_after_run(ops.drop_last());
            self.lemma_run(ops.drop_last());
            match ops.last() {
                Op::Create(text) => {
                    if before.has_room() {
                        before.lemma_create(text);
                    }
                },
                Op::Update(id, patch) => {
                    if before.is_live(id) {
                        before.lemma_update(id, patch);
                    }
                },
                Op::Delete(id) => {
                    if before.is_live(id) {
                        before.lemma_delete(id);
                    }
                },
            }
        }
    }

    /// The store after creating `texts`, first to last.
    pub open spec fn create_all(self, texts: Seq<Seq<char>>) -> StoreState {
        self.run(creations_of(texts))
    }

    /// Creations served one after the other, in whatever order they were
    /// taken up, each get an identifier of their own: the next ones in
    /// ascending order. All the new todos are live at the end, each with
    /// its text and not completed, beside the todos that were live before.
    pub proof fn lemma_creations(self, texts: Seq<Seq<char>>)
        requires
            self.wf(),
            self.issued + texts.len() <= i32::MAX,
        ensures
            self.create_all(texts).wf(),
            self.create_all(texts).issued == self.issued + texts.len(),
            self.create_all(texts).count() == self.count() + texts.len(),
            forall|k: int|
                0 <= k < texts.len() ==> #[trigger] self.create_all(texts.take(k)).create_result(
                    texts[k],
                ) == Ok::<TodoView, ErrorView>(TodoView::fresh(self.issued + k + 1, texts[k])),
            forall|id: int|
                self.issued < id <= self.issued + texts.len() ==> #[trigger] self.create_all(
                    texts,
                ).is_live(id) && self.create_all(texts).todos[id] == TodoView::fresh(
                    id,
                    texts[id - self.issued - 1],
                ),
            forall|id: int|
                self.is_live(id) ==> self.create_all(texts).is_live(id) && self.create_all(
                    texts,
                ).todos[id] == self.todos[id],
        decreases texts.len(),
    {
        let ops = creations_of(texts);
        let end = self.create_all(texts);
        if texts.len() > 0 {
            let head = texts.drop_last();
            let before = self.create_all(head);
            self.lemma_creations(head);
            assert(ops.drop_last() =~= creations_of(head));
            assert(ops.last() == Op::Create(texts.last()));
            before.lemma_create(texts.last());
            assert(end == before.create(texts.last()));
            assert forall|k: int| 0 <= k < texts.len() implies #[trigger] self.create_all(
                texts.take(k),
            ).create_result(texts[k]) == Ok::<TodoView, ErrorView>(
                TodoView::fresh(self.issued + k + 1, texts[k]),
            ) by {
                if k < head.len() {
                    assert(texts.take(k) =~= head.take(k));
                    assert(texts[k] == head[k]);
                } else {
                    assert(texts.take(k) =~= head);
                }
            }
            assert forall|id: int|
                self.issued < id <= self.issued + texts.len() implies #[trigger] end.is_live(id)
                && end.todos[id] == TodoView::fresh(id, texts[id - self.issued - 1]) by {
                if id <= self.issued + head.len() {
                    assert(before.is_live(id));
                    assert(head[id - self.issued - 1] == texts[id - self.issued - 1]);
                }
            }
            assert forall|id: int| self.is_live(id) implies end.is_live(id) && end.todos[id]
                == self.todos[id] by {
                assert(before.is_live(id));
            }
        } else {
            assert(ops.len() == 0);
            assert(end == self);
        }
    }
}

} // verus!
