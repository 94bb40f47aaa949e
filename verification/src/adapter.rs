//! The persistent backend's part of the work that is decision rather than
//! input and output: which command goes to the database next, and what the
//! caller gets in the end.
//!
//! A driver owns the connection. It sends each `Command` to the database,
//! reports what came back as a `Reply`, and stops at `Command::Finish`.
//! `create`, `update` and `delete` run inside a transaction that is
//! committed only after every statement has succeeded and rolled back
//! otherwise; `find` and `all` are one statement each.

use vstd::prelude::*;
use crate::entity::{views_of, CreateTodo, Todo, TodoView, UpdateTodo, UpdateView};
use crate::error::{ErrorView, RepositoryError};

verus! {

/// The detail of the error for a reply that the command it answers cannot
/// have.
pub open spec fn unfit_detail() -> Seq<char> {
    "the database gave a reply that fits no command"@
}

/// The detail of the error for a reply that comes after the end.
pub open spec fn finished_detail() -> Seq<char> {
    "the request has been answered already"@
}

/// One call of the repository contract.
#[derive(Debug, PartialEq, Eq)]
pub enum Request {
    Create(CreateTodo),
    Find(i32),
    All,
    Update(i32, UpdateTodo),
    Delete(i32),
}

pub enum RequestView {
    Create(Seq<char>),
    Find(int),
    All,
    Update(int, UpdateView),
    Delete(int),
}

impl View for Request {
    type V = RequestView;

    open spec fn view(&self) -> RequestView {
        match self {
            Request::Create(payload) => RequestView::Create(payload@),
            Request::Find(id) => RequestView::Find(*id as int),
            Request::All => RequestView::All,
            Request::Update(id, payload) => RequestView::Update(*id as int, payload@),
            Request::Delete(id) => RequestView::Delete(*id as int),
        }
    }
}

/// One statement for the database. Each but `SelectAll` answers with the
/// row it has stored, read, changed or removed, or with no row.
#[derive(Debug, PartialEq, Eq)]
pub enum Statement {
    /// Store a new, uncompleted row with this text under a new identifier.
    Insert { text: String },
    /// Read the row with this identifier.
    Select { id: i32 },
    /// Read every row.
    SelectAll,
    /// Set text and flag of the row with this identifier.
    Update { id: i32, text: String, completed: bool },
    /// Remove the row with this identifier.
    Delete { id: i32 },
}

pub enum StatementView {
    Insert { text: Seq<char> },
    Select { id: int },
    SelectAll,
    Update { id: int, text: Seq<char>, completed: bool },
    Delete { id: int },
}

impl View for Statement {
    type V = StatementView;

    open spec fn view(&self) -> StatementView {
        match self {
            Statement::Insert { text } => StatementView::Insert { text: text@ },
            Statement::Select { id } => StatementView::Select { id: *id as int },
            Statement::SelectAll => StatementView::SelectAll,
            Statement::Update { id, text, completed } => StatementView::Update {
                id: *id as int,
                text: text@,
                completed: *completed,
            },
            Statement::Delete { id } => StatementView::Delete { id: *id as int },
        }
    }
}

/// What a request has come to.
#[derive(Debug, PartialEq, Eq)]
pub enum Outcome {
    /// The todo that was created, found or updated.
    One(Todo),
    /// Every todo of the store.
    Many(Vec<Todo>),
    /// The todo was deleted.
    Gone,
    Failed(RepositoryError),
}

pub enum OutcomeView {
    One(TodoView),
    Many(Seq<TodoView>),
    Gone,
    Failed(ErrorView),
}

impl View for Outcome {
    type V = OutcomeView;

    open spec fn view(&self) -> OutcomeView {
        match self {
            Outcome::One(todo) => OutcomeView::One(todo@),
            Outcome::Many(rows) => OutcomeView::Many(views_of(rows@)),
            Outcome::Gone => OutcomeView::Gone,
            Outcome::Failed(e) => OutcomeView::Failed(e@),
        }
    }
}

/// What the driver does next.
#[derive(Debug, PartialEq, Eq)]
pub enum Command {
    /// Open a transaction.
    Begin,
    /// Run the statement, inside the transaction if one is open.
    Execute(Statement),
    /// Commit the open transaction.
    Commit,
    /// Roll the open transaction back.
    Rollback,
    /// Hand the outcome to the caller. Nothing is open any more.
    Finish(Outcome),
}

pub enum CommandView {
    Begin,
    Execute(StatementView),
    Commit,
    Rollback,
    Finish(OutcomeView),
}

impl View for Command {
    type V = CommandView;

    open spec fn view(&self) -> CommandView {
        match self {
            Command::Begin => CommandView::Begin,
            Command::Execute(statement) => CommandView::Execute(statement@),
            Command::Commit => CommandView::Commit,
            Command::Rollback => CommandView::Rollback,
            Command::Finish(outcome) => CommandView::Finish(outcome@),
        }
    }
}

/// What the database did with a command.
#[derive(Debug, PartialEq, Eq)]
pub enum Reply {
    /// `Begin`, `Commit` or `Rollback` went through.
    Done,
    /// The statement went through and this is its row.
    Row(Todo),
    /// The statement went through and met no row.
    NoRow,
    /// `SelectAll` went through and these are the rows.
    Rows(Vec<Todo>),
    /// The command failed; the text says how.
    Failed(String),
}

pub enum ReplyView {
    Done,
    Row(TodoView),
    NoRow,
    Rows(Seq<TodoView>),
    Failed(Seq<char>),
}

impl View for Reply {
    type V = ReplyView;

    open spec fn view(&self) -> ReplyView {
        match self {
            Reply::Done => ReplyView::Done,
            Reply::Row(todo) => ReplyView::Row(todo@),
            Reply::NoRow => ReplyView::NoRow,
            Reply::Rows(rows) => ReplyView::Rows(views_of(rows@)),
            Reply::Failed(detail) => ReplyView::Failed(detail@),
        }
    }
}

impl ReplyView {
    /// The error for this reply where it is no success: what the database
    /// said of its failure, or that the reply fits no command.
    pub open spec fn failure(self) -> ErrorView {
        match self {
            ReplyView::Failed(detail) => ErrorView::Unexpected(detail),
            _ => ErrorView::Unexpected(unfit_detail()),
        }
    }
}

/// Where the work on one request stands: which command is out, and what is
/// kept for the steps after it.
#[derive(Debug, PartialEq, Eq)]
pub enum Adapter {
    /// `Begin` is out, for a creation.
    OpeningCreate(CreateTodo),
    /// `Begin` is out, for an update.
    OpeningUpdate(i32, UpdateTodo),
    /// `Begin` is out, for a deletion.
    OpeningDelete(i32),
    /// The insertion is out.
    Inserting,
    /// The reading of the row that an update starts from is out.
    Reading(i32, UpdateTodo),
    /// The writing of the merged row is out.
    Writing(i32),
    /// The deletion is out.
    Deleting(i32),
    /// `Commit` is out; the outcome waits for it.
    Committing(Outcome),
    /// `Rollback` is out; the error waits for it.
    RollingBack(RepositoryError),
    /// The reading of one row is out, outside any transaction.
    Selecting(i32),
    /// The reading of all rows is out, outside any transaction.
    Listing,
    /// The outcome was handed over.
    Finished,
}

pub enum AdapterView {
    OpeningCreate(Seq<char>),
    OpeningUpdate(int, UpdateView),
    OpeningDelete(int),
    Inserting,
    Reading(int, UpdateView),
    Writing(int),
    Deleting(int),
    Committing(OutcomeView),
    RollingBack(ErrorView),
    Selecting(int),
    Listing,
    Finished,
}

impl View for Adapter {
    type V = AdapterView;

    open spec fn view(&self) -> AdapterView {
        match self {
            Adapter::OpeningCreate(payload) => AdapterView::OpeningCreate(payload@),
            Adapter::OpeningUpdate(id, payload) => AdapterView::OpeningUpdate(*id as int, payload@),
            Adapter::OpeningDelete(id) => AdapterView::OpeningDelete(*id as int),
            Adapter::Inserting => AdapterView::Inserting,
            Adapter::Reading(id, payload) => AdapterView::Reading(*id as int, payload@),
            Adapter::Writing(id) => AdapterView::Writing(*id as int),
            Adapter::Deleting(id) => AdapterView::Deleting(*id as int),
            Adapter::Committing(outcome) => AdapterView::Committing(outcome@),
            Adapter::RollingBack(e) => AdapterView::RollingBack(e@),
            Adapter::Selecting(id) => AdapterView::Selecting(*id as int),
            Adapter::Listing => AdapterView::Listing,
            Adapter::Finished => AdapterView::Finished,
        }
    }
}

/// The first command for a request, and where the work stands with it.
pub open spec fn first_step(request: RequestView) -> (AdapterView, CommandView) {
    match request {
        RequestView::Create(text) => (AdapterView::OpeningCreate(text), CommandView::Begin),
        RequestView::Update(id, patch) => (
            AdapterView::OpeningUpdate(id, patch),
            CommandView::Begin,
        ),
        RequestView::Delete(id) => (AdapterView::OpeningDelete(id), CommandView::Begin),
        RequestView::Find(id) => (
            AdapterView::Selecting(id),
            CommandView::Execute(StatementView::Select { id }),
        ),
        RequestView::All => (AdapterView::Listing, CommandView::Execute(StatementView::SelectAll)),
    }
}

/// The end of a request with `outcome`.
pub open spec fn finish(outcome: OutcomeView) -> (AdapterView, CommandView) {
    (AdapterView::Finished, CommandView::Finish(outcome))
}

/// The end of a request with the error `e`.
pub open spec fn fail(e: ErrorView) -> (AdapterView, CommandView) {
    finish(OutcomeView::Failed(e))
}

/// The rollback of the open transaction, after which the request ends with
/// the error `e`.
pub open spec fn abort(e: ErrorView) -> (AdapterView, CommandView) {
    (AdapterView::RollingBack(e), CommandView::Rollback)
}

/// The commit of the open transaction, after which the request ends with
/// `outcome`.
pub open spec fn settle(outcome: OutcomeView) -> (AdapterView, CommandView) {
    (AdapterView::Committing(outcome), CommandView::Commit)
}

/// The command that follows `reply`, and where the work stands with it.
///
/// Before a transaction is open and after its commit is out there is
/// nothing to roll back, so a failure ends the request. In between, a
/// failure or a missing row leads to a rollback first.
pub open spec fn next_step(state: AdapterView, reply: ReplyView) -> (AdapterView, CommandView) {
    match state {
        AdapterView::OpeningCreate(text) => match reply {
            ReplyView::Done => (
                AdapterView::Inserting,
                CommandView::Execute(StatementView::Insert { text }),
            ),
            _ => fail(reply.failure()),
        },
        AdapterView::OpeningUpdate(id, patch) => match reply {
            ReplyView::Done => (
                AdapterView::Reading(id, patch),
                CommandView::Execute(StatementView::Select { id }),
            ),
            _ => fail(reply.failure()),
        },
        AdapterView::OpeningDelete(id) => match reply {
            ReplyView::Done => (
                AdapterView::Deleting(id),
                CommandView::Execute(StatementView::Delete { id }),
            ),
            _ => fail(reply.failure()),
        },
        AdapterView::Inserting => match reply {
            ReplyView::Row(row) => settle(OutcomeView::One(row)),
            _ => abort(reply.failure()),
        },
        AdapterView::Reading(id, patch) => match reply {
            ReplyView::Row(row) => (
                AdapterView::Writing(id),
                CommandView::Execute(
                    StatementView::Update {
                        id,
                        text: row.merge(patch).text,
                        completed: row.merge(patch).completed,
                    },
                ),
            ),
            ReplyView::NoRow => abort(ErrorView::NotFound(id)),
            _ => abort(reply.failure()),
        },
        AdapterView::Writing(id) => match reply {
            ReplyView::Row(row) => settle(OutcomeView::One(row)),
            ReplyView::NoRow => abort(ErrorView::NotFound(id)),
            _ => abort(reply.failure()),
        },
        AdapterView::Deleting(id) => match reply {
            ReplyView::Row(_) => settle(OutcomeView::Gone),
            ReplyView::NoRow => abort(ErrorView::NotFound(id)),
            _ => abort(reply.failure()),
        },
        AdapterView::Committing(outcome) => match reply {
            ReplyView::Done => finish(outcome),
            _ => fail(reply.failure()),
        },
        AdapterView::RollingBack(e) => fail(e),
        AdapterView::Selecting(id) => match reply {
            ReplyView::Row(row) => finish(OutcomeView::One(row)),
            ReplyView::NoRow => fail(ErrorView::NotFound(id)),
            _ => fail(reply.failure()),
        },
        AdapterView::Listing => match reply {
            ReplyView::Rows(rows) => finish(OutcomeView::Many(rows)),
            _ => fail(reply.failure()),
        },
        AdapterView::Finished => fail(ErrorView::Unexpected(finished_detail())),
    }
}

/// The error type of `sqlx`, of which nothing is known here but what the two
/// functions below tell.
#[verifier::external_type_specification]
#[verifier::external_body]
pub struct ExDriverError(sqlx::Error);

/// Whether `e` is `sqlx::Error::RowNotFound`, the error that `sqlx` gives
/// where a statement was to return a row and returned none.
#[verifier::external_body]
fn is_row_not_found(e: &sqlx::Error) -> bool {
    match e {
        sqlx::Error::RowNotFound => true,
        _ => false,
    }
}

/// What `sqlx::Error` says of itself through `Display`.
#[verifier::external_body]
fn describe(e: &sqlx::Error) -> String {
    e.to_string()
}

impl Reply {
    /// The reply for what `Begin`, `Commit` or `Rollback` returned.
    pub fn to_transaction(ended: Result<(), sqlx::Error>) -> (reply: Reply)
        ensures
            ended is Ok ==> reply@ == ReplyView::Done,
            ended is Err ==> reply@ is Failed,
    {
        match ended {
            Ok(_) => Reply::Done,
            Err(e) => Reply::Failed(describe(&e)),
        }
    }

    /// The reply for what a statement for one row returned. That the driver
    /// found no row is no failure, however it says so.
    pub fn to_row(fetched: Result<Option<Todo>, sqlx::Error>) -> (reply: Reply)
        ensures
            match fetched {
                Ok(Some(row)) => reply@ == ReplyView::Row(row@),
                Ok(None) => reply@ == ReplyView::NoRow,
                Err(_) => reply@ == ReplyView::NoRow || reply@ is Failed,
            },
    {
        match fetched {
            Ok(Some(row)) => Reply::Row(row),
            Ok(None) => Reply::NoRow,
            Err(e) => if is_row_not_found(&e) {
                Reply::NoRow
            } else {
                Reply::Failed(describe(&e))
            },
        }
    }

    /// The reply for what `SelectAll` returned.
    pub fn to_rows(fetched: Result<Vec<Todo>, sqlx::Error>) -> (reply: Reply)
        ensures
            match fetched {
                Ok(rows) => reply@ == ReplyView::Rows(views_of(rows@)),
                Err(_) => reply@ is Failed,
            },
    {
        match fetched {
            Ok(rows) => Reply::Rows(rows),
            Err(e) => Reply::Failed(describe(&e)),
        }
    }

    /// The error for this reply where it is no success.
    fn into_failure(self) -> (e: RepositoryError)
        ensures
            e@ == self@.failure(),
    {
        match self {
            Reply::Failed(detail) => RepositoryError::Unexpected(detail),
            _ => RepositoryError::Unexpected(
                String::from_str("the database gave a reply that fits no command"),
            ),
        }
    }
}

impl Adapter {
    fn finish(outcome: Outcome) -> (step: (Adapter, Command))
        ensures
            (step.0@, step.1@) == finish(outcome@),
    {
        (Adapter::Finished, Command::Finish(outcome))
    }

    fn fail(e: RepositoryError) -> (step: (Adapter, Command))
        ensures
            (step.0@, step.1@) == fail(e@),
    {
        (Adapter::Finished, Command::Finish(Outcome::Failed(e)))
    }

    fn abort(e: RepositoryError) -> (step: (Adapter, Command))
        ensures
            (step.0@, step.1@) == abort(e@),
    {
        (Adapter::RollingBack(e), Command::Rollback)
    }

    fn settle(outcome: Outcome) -> (step: (Adapter, Command))
        ensures
            (step.0@, step.1@) == settle(outcome@),
    {
        (Adapter::Committing(outcome), Command::Commit)
    }

    /// Takes up `request`: returns the first command for the driver and
    /// the state to report its reply to.
    pub fn start(request: Request) -> (step: (Adapter, Command))
        ensures
            (step.0@, step.1@) == first_step(request@),
    {
        match request {
            Request::Create(payload) => (Adapter::OpeningCreate(payload), Command::Begin),
            Request::Update(id, payload) => (Adapter::OpeningUpdate(id, payload), Command::Begin),
            Request::Delete(id) => (Adapter::OpeningDelete(id), Command::Begin),
            Request::Find(id) => (
                Adapter::Selecting(id),
                Command::Execute(Statement::Select { id }),
            ),
            Request::All => (Adapter::Listing, Command::Execute(Statement::SelectAll)),
        }
    }

    /// Takes the reply to the command that is out: returns the next command
    /// and the state to report its reply to.
    pub fn advance(self, reply: Reply) -> (step: (Adapter, Command))
        ensures
            (step.0@, step.1@) == next_step(self@, reply@),
    {
        match self {
            Adapter::OpeningCreate(payload) => match reply {
                Reply::Done => (
                    Adapter::Inserting,
                    Command::Execute(Statement::Insert { text: payload.text }),
                ),
                other => Self::fail(other.into_failure()),
            },
            Adapter::OpeningUpdate(id, payload) => match reply {
                Reply::Done => (
                    Adapter::Reading(id, payload),
                    Command::Execute(Statement::Select { id }),
                ),
                other => Self::fail(other.into_failure()),
            },
            Adapter::OpeningDelete(id) => match reply {
                Reply::Done => (Adapter::Deleting(id), Command::Execute(Statement::Delete { id })),
                other => Self::fail(other.into_failure()),
            },
            Adapter::Inserting => match reply {
                Reply::Row(row) => Self::settle(Outcome::One(row)),
                other => Self::abort(other.into_failure()),
            },
            Adapter::Reading(id, payload) => match reply {
                Reply::Row(row) => {
                    let merged = row.merged(payload);
                    (
                        Adapter::Writing(id),
                        Command::Execute(
                            Statement::Update {
                                id,
                                text: merged.text,
                                completed: merged.completed,
                            },
                        ),
                    )
                },
                Reply::NoRow => Self::abort(RepositoryError::NotFound(id)),
                other => Self::abort(other.into_failure()),
            },
            Adapter::Writing(id) => match reply {
                Reply::Row(row) => Self::settle(Outcome::One(row)),
                Reply::NoRow => Self::abort(RepositoryError::NotFound(id)),
                other => Self::abort(other.into_failure()),
            },
            Adapter::Deleting(id) => match reply {
                Reply::Row(_) => Self::settle(Outcome::Gone),
                Reply::NoRow => Self::abort(RepositoryError::NotFound(id)),
                other => Self::abort(other.into_failure()),
            },
            Adapter::Committing(outcome) => match reply {
                Reply::Done => Self::finish(outcome),
                other => Self::fail(other.into_failure()),
            },
            Adapter::RollingBack(e) => Self::fail(e),
            Adapter::Selecting(id) => match reply {
                Reply::Row(row) => Self::finish(Outcome::One(row)),
                Reply::NoRow => Self::fail(RepositoryError::NotFound(id)),
                other => Self::fail(other.into_failure()),
            },
            Adapter::Listing => match reply {
                Reply::Rows(rows) => Self::finish(Outcome::Many(rows)),
                other => Self::fail(other.into_failure()),
            },
            Adapter::Finished => Self::fail(
                RepositoryError::Unexpected(
                    String::from_str("the request has been answered already"),
                ),
            ),
        }
    }
}

impl OutcomeView {
    /// Whether this is an outcome that `request` can have: an error, or a
    /// value of the kind that the request asks for.
    pub open spec fn answers(self, request: RequestView) -> bool {
        match self {
            OutcomeView::Failed(_) => true,
            OutcomeView::One(_) => request is Create || request is Find || request is Update,
            OutcomeView::Many(_) => request is All,
            OutcomeView::Gone => request is Delete,
        }
    }
}

impl AdapterView {
    /// Whether this is a state that the work on `request` can be in.
    pub open spec fn serves(self, request: RequestView) -> bool {
        match self {
            AdapterView::OpeningCreate(_) | AdapterView::Inserting => request is Create,
            AdapterView::OpeningUpdate(_, _) | AdapterView::Reading(_, _) | AdapterView::Writing(
                _,
            ) => request is Update,
            AdapterView::OpeningDelete(_) | AdapterView::Deleting(_) => request is Delete,
            AdapterView::Selecting(_) => request is Find,
            AdapterView::Listing => request is All,
            AdapterView::Committing(outcome) => outcome.answers(request),
            AdapterView::RollingBack(_) | AdapterView::Finished => true,
        }
    }

    /// How many replies this state can still take before the request ends.
    pub open spec fn steps_left(self) -> nat {
        match self {
            AdapterView::OpeningUpdate(_, _) => 4,
            AdapterView::OpeningCreate(_) | AdapterView::OpeningDelete(_) | AdapterView::Reading(
                _,
                _,
            ) => 3,
            AdapterView::Inserting | AdapterView::Writing(_) | AdapterView::Deleting(_) => 2,
            AdapterView::Committing(_) | AdapterView::RollingBack(_) | AdapterView::Selecting(_)
            | AdapterView::Listing => 1,
            AdapterView::Finished => 0,
        }
    }

    /// Whether a transaction is open in this state.
    pub open spec fn in_transaction(self) -> bool {
        self is Inserting || self is Reading || self is Writing || self is Deleting
    }
}

/// A request takes at most four commands, and its first is never the end.
pub proof fn lemma_first_step(request: RequestView)
    ensures
        first_step(request).0.serves(request),
        1 <= first_step(request).0.steps_left() <= 4,
        !(first_step(request).1 is Finish),
        first_step(request).1 is Begin <==> request is Create || request is Update
            || request is Delete,
{
}

/// Whatever the database replies, each reply brings the request nearer to
/// its end, which comes with the command `Finish` and with no other; and
/// the outcome is an error or a value of the kind that the request asks
/// for.
pub proof fn lemma_next_step(request: RequestView, state: AdapterView, reply: ReplyView)
    requires
        state.serves(request),
    ensures
        next_step(state, reply).0.serves(request),
        !(state is Finished) ==> next_step(state, reply).0.steps_left() < state.steps_left(),
        next_step(state, reply).1 is Finish <==> next_step(state, reply).0 is Finished,
        next_step(state, reply).1 matches CommandView::Finish(outcome) ==> outcome.answers(request),
{
}

/// A statement that changes the store goes out only inside a transaction,
/// a commit only in answer to the row of such a statement, and a failure
/// inside a transaction is answered with a rollback, after which the
/// request ends with that failure.
pub proof fn lemma_transactions(state: AdapterView, reply: ReplyView)
    ensures
        next_step(state, reply).1 matches CommandView::Execute(statement) ==> (statement
            is Insert || statement is Update || statement is Delete) ==> next_step(
            state,
            reply,
        ).0.in_transaction() && (state is OpeningCreate || state is OpeningDelete || state
            is Reading),
        next_step(state, reply).1 is Commit ==> reply is Row && (state is Inserting || state
            is Writing || state is Deleting),
        state.in_transaction() && reply is Failed ==> next_step(state, reply) == abort(
            reply.failure(),
        ),
        forall|e: ErrorView, after: ReplyView| #[trigger]
            next_step(abort(e).0, after) == fail(e),
{
}

impl Outcome {
    /// The result of `create`, `find` or `update` for this outcome.
    pub fn into_todo(self) -> (r: Result<Todo, RepositoryError>)
        ensures
            match self@ {
                OutcomeView::One(todo) => r matches Ok(t) && t@ == todo,
                OutcomeView::Failed(e) => r matches Err(f) && f@ == e,
                _ => r matches Err(f) && f@ == ErrorView::Unexpected(unfit_detail()),
            },
    {
        match self {
            Outcome::One(todo) => Ok(todo),
            Outcome::Failed(e) => Err(e),
            _ => Err(
                RepositoryError::Unexpected(
                    String::from_str("the database gave a reply that fits no command"),
                ),
            ),
        }
    }

    /// The result of `all` for this outcome.
    pub fn into_todos(self) -> (r: Result<Vec<Todo>, RepositoryError>)
        ensures
            match self@ {
                OutcomeView::Many(rows) => r matches Ok(v) && views_of(v@) == rows,
                OutcomeView::Failed(e) => r matches Err(f) && f@ == e,
                _ => r matches Err(f) && f@ == ErrorView::Unexpected(unfit_detail()),
            },
    {
        match self {
            Outcome::Many(rows) => Ok(rows),
            Outcome::Failed(e) => Err(e),
            _ => Err(
                RepositoryError::Unexpected(
                    String::from_str("the database gave a reply that fits no command"),
                ),
            ),
        }
    }

    /// The result of `delete` for this outcome.
    pub fn into_unit(self) -> (r: Result<(), RepositoryError>)
        ensures
            match self@ {
                OutcomeView::Gone => r is Ok,
                OutcomeView::Failed(e) => r matches Err(f) && f@ == e,
                _ => r matches Err(f) && f@ == ErrorView::Unexpected(unfit_detail()),
            },
    {
        match self {
            Outcome::Gone => Ok(()),
            Outcome::Failed(e) => Err(e),
            _ => Err(
                RepositoryError::Unexpected(
                    String::from_str("the database gave a reply that fits no command"),
                ),
            ),
        }
    }
}

} // verus!
