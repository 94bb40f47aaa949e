//! A database that does what it is told, and what the adapter achieves
//! against it: the outcome and the table that the store's own operations
//! give, or, where a command fails, no change at all.

use vstd::prelude::*;
use crate::adapter::{
    finished_detail, first_step, next_step, AdapterView, CommandView, OutcomeView, ReplyView,
    RequestView, StatementView,
};
use crate::entity::{TodoView, UpdateView};
use crate::error::ErrorView;
use crate::model::{exhausted_detail, StoreState};

verus! {

/// The table of todos, and its content at the begin of the transaction
/// that is open, if one is.
pub struct Database {
    pub table: StoreState,
    pub saved: Option<StoreState>,
}

/// The command that the database fails, counted from 0, and what it says
/// of the failure.
pub struct Fault {
    pub at: nat,
    pub detail: Seq<char>,
}

impl StoreState {
    /// What a store that holds this state returns for `request`; `listing`
    /// is the order in which it lists its todos.
    pub open spec fn outcome_of(self, request: RequestView, listing: Seq<TodoView>) -> OutcomeView {
        match request {
            RequestView::Create(text) => match self.create_result(text) {
                Ok(todo) => OutcomeView::One(todo),
                Err(e) => OutcomeView::Failed(e),
            },
            RequestView::Find(id) => match self.find_result(id) {
                Ok(todo) => OutcomeView::One(todo),
                Err(e) => OutcomeView::Failed(e),
            },
            RequestView::All => OutcomeView::Many(listing),
            RequestView::Update(id, patch) => match self.update_result(id, patch) {
                Ok(todo) => OutcomeView::One(todo),
                Err(e) => OutcomeView::Failed(e),
            },
            RequestView::Delete(id) => match self.delete_result(id) {
                Ok(_) => OutcomeView::Gone,
                Err(e) => OutcomeView::Failed(e),
            },
        }
    }

    /// The state that `request` leaves a store in.
    pub open spec fn after(self, request: RequestView) -> StoreState {
        match request {
            RequestView::Create(text) => self.create(text),
            RequestView::Update(id, patch) => self.update(id, patch),
            RequestView::Delete(id) => self.delete(id),
            _ => self,
        }
    }
}

impl Database {
    /// The database with this table and no transaction open.
    pub open spec fn idle(table: StoreState) -> Database {
        Database { table, saved: None }
    }

    /// The table after a statement that goes through, and the reply to it.
    /// An insertion takes the next identifier, as a creation in a store
    /// does, and fails where none is left.
    pub open spec fn carry_out(self, statement: StatementView, listing: Seq<TodoView>) -> (
        StoreState,
        ReplyView,
    ) {
        let table = self.table;
        match statement {
            StatementView::Insert { text } => if table.has_room() {
                (table.create(text), ReplyView::Row(table.created(text)))
            } else {
                (table, ReplyView::Failed(exhausted_detail()))
            },
            StatementView::Select { id } => if table.is_live(id) {
                (table, ReplyView::Row(table.todos[id]))
            } else {
                (table, ReplyView::NoRow)
            },
            StatementView::SelectAll => (table, ReplyView::Rows(listing)),
            StatementView::Update { id, text, completed } => if table.is_live(id) {
                let patch = UpdateView { text: Some(text), completed: Some(completed) };
                (table.update(id, patch), ReplyView::Row(table.todos[id].merge(patch)))
            } else {
                (table, ReplyView::NoRow)
            },
            StatementView::Delete { id } => if table.is_live(id) {
                (table.delete(id), ReplyView::Row(table.todos[id]))
            } else {
                (table, ReplyView::NoRow)
            },
        }
    }

    /// The table once the open transaction is given up.
    pub open spec fn rolled_back(self) -> Database {
        match self.saved {
            Some(table) => Database::idle(table),
            None => self,
        }
    }

    /// The database after a command that goes through, and the reply.
    pub open spec fn answer(self, command: CommandView, listing: Seq<TodoView>) -> (
        Database,
        ReplyView,
    ) {
        match command {
            CommandView::Begin => (
                Database { table: self.table, saved: Some(self.table) },
                ReplyView::Done,
            ),
            CommandView::Execute(statement) => (
                Database { table: self.carry_out(statement, listing).0, saved: self.saved },
                self.carry_out(statement, listing).1,
            ),
            CommandView::Commit => (Database::idle(self.table), ReplyView::Done),
            CommandView::Rollback => (self.rolled_back(), ReplyView::Done),
            CommandView::Finish(_) => (self, ReplyView::Done),
        }
    }

    /// The database after a command that fails, and the reply. A statement
    /// that fails changes nothing; a commit or a rollback that fails leaves
    /// the transaction given up.
    pub open spec fn refuse(self, command: CommandView, detail: Seq<char>) -> (
        Database,
        ReplyView,
    ) {
        match command {
            CommandView::Commit | CommandView::Rollback => (
                self.rolled_back(),
                ReplyView::Failed(detail),
            ),
            _ => (self, ReplyView::Failed(detail)),
        }
    }

    /// What becomes of `command`: a failure if the fault is due, else what
    /// the command asks for.
    pub open spec fn respond(
        self,
        command: CommandView,
        listing: Seq<TodoView>,
        fault: Option<Fault>,
    ) -> (Database, ReplyView) {
        match fault {
            Some(fault) if fault.at == 0 => self.refuse(command, fault.detail),
            _ => self.answer(command, listing),
        }
    }
}

/// The fault as it stands after one more command.
pub open spec fn later(fault: Option<Fault>) -> Option<Fault> {
    match fault {
        Some(fault) if fault.at > 0 => Some(
            Fault { at: (fault.at - 1) as nat, detail: fault.detail },
        ),
        _ => None,
    }
}

/// The outcome and the database at the end of a request that stands at
/// `step`: the driver takes each command to the database and each reply
/// back to the adapter, until the command is `Finish`.
pub open spec fn conduct(
    step: (AdapterView, CommandView),
    database: Database,
    listing: Seq<TodoView>,
    fault: Option<Fault>,
) -> (OutcomeView, Database)
    decreases step.0.steps_left(),
{
    match step.1 {
        CommandView::Finish(outcome) => (outcome, database),
        command => if step.0 is Finished {
            (OutcomeView::Failed(ErrorView::Unexpected(finished_detail())), database)
        } else {
            let (database, reply) = database.respond(command, listing, fault);
            conduct(next_step(step.0, reply), database, listing, later(fault))
        },
    }
}

/// The outcome of `request` and the database after it, on a database that
/// holds `table` and has no transaction open.
pub open spec fn serve(
    request: RequestView,
    table: StoreState,
    listing: Seq<TodoView>,
    fault: Option<Fault>,
) -> (OutcomeView, Database) {
    conduct(first_step(request), Database::idle(table), listing, fault)
}

/// Where no command fails, the adapter returns what a store with the same
/// content returns, and leaves in the table what the store would hold. No
/// transaction stays open.
pub proof fn lemma_serves_as_store(
    request: RequestView,
    table: StoreState,
    listing: Seq<TodoView>,
)
    requires
        table.wf(),
    ensures
        serve(request, table, listing, None) == (
            table.outcome_of(request, listing),
            Database::idle(table.after(request)),
        ),
{
    reveal_with_fuel(conduct, 5);
    match request {
        RequestView::Update(id, patch) => {
            if table.is_live(id) {
                let row = table.todos[id];
                let full = UpdateView {
                    text: Some(row.merge(patch).text),
                    completed: Some(row.merge(patch).completed),
                };
                assert(row.merge(full) == row.merge(patch));
            }
        },
        _ => {},
    }
}

/// Where a command fails, a request changes all that it is to change or
/// nothing: it ends as it does without the failure, or it ends with the
/// database's failure and the table as it was. No transaction stays open.
pub proof fn lemma_all_or_nothing(
    request: RequestView,
    table: StoreState,
    listing: Seq<TodoView>,
    fault: Fault,
)
    requires
        table.wf(),
    ensures
        serve(request, table, listing, Some(fault)).1.saved is None,
        serve(request, table, listing, Some(fault)) == serve(request, table, listing, None)
            || serve(request, table, listing, Some(fault)) == (
            OutcomeView::Failed(ErrorView::Unexpected(fault.detail)),
            Database::idle(table),
        ),
        fault.at == 0 ==> serve(request, table, listing, Some(fault)) == (
            OutcomeView::Failed(ErrorView::Unexpected(fault.detail)),
            Database::idle(table),
        ),
{
    reveal_with_fuel(conduct, 5);
    lemma_serves_as_store(request, table, listing);
    match request {
        RequestView::Update(id, patch) => {
            if table.is_live(id) {
                let row = table.todos[id];
                let full = UpdateView {
                    text: Some(row.merge(patch).text),
                    completed: Some(row.merge(patch).completed),
                };
                assert(row.merge(full) == row.merge(patch));
            }
        },
        _ => {},
    }
}

} // verus!
