//! The persistence capability's verified part: each entity type's table
//! binding, the sequence of store steps that each operation runs inside its
//! transaction, and the error kind that a failing step reports.
use vstd::prelude::*;
use vstd::string::StringExecFns;

use crate::errors::CRUDError;

verus! {

/// A stored entity type, bound to exactly one table.
pub trait Manager {
    /// The table that rows of this type live in.
    spec fn table_name() -> Seq<char>;

    fn table() -> (r: String)
        ensures
            r@ == Self::table_name();
}

/// A row that links an entity to a row of another table.
#[derive(Clone, Debug, PartialEq, Eq, Default)]
pub struct Association {
    pub id: u32,
    pub table_related: String,
    pub row_id: u32,
}

impl Manager for Association {
    open spec fn table_name() -> Seq<char> {
        "associations"@
    }

    fn table() -> (r: String) {
        String::from_str("associations")
    }
}

/// The operations of the persistence capability.
#[derive(Clone, Copy, Debug, PartialEq, Eq, Structural)]
pub enum Operation {
    Get,
    GetAll,
    Find,
    Create,
    Update,
    Delete,
    Exists,
    Encoding,
}

/// One suspension point of an operation against the store.
#[derive(Clone, Copy, Debug, PartialEq, Eq, Structural)]
pub enum Step {
    /// Acquire a connection and begin the transaction.
    Begin,
    /// Run a statement that must yield exactly one row.
    FetchOne,
    /// Run a statement that yields any number of rows.
    FetchAll,
    /// Run the insert statement.
    Insert,
    /// Re-read the row that the statement touched.
    Reread,
    /// Run a statement for its effect.
    Execute,
    /// Read the boolean column of the row fetched.
    ReadColumn,
    /// Commit the transaction.
    Commit,
}

/// What a step's attempt came to.
#[derive(Clone, Copy, Debug, PartialEq, Eq, Structural)]
pub enum Event {
    Succeeded,
    Failed,
}

/// What the caller does next.
#[derive(Clone, Copy, Debug, PartialEq, Eq, Structural)]
pub enum Action {
    /// Run this step.
    Run(Step),
    /// The operation is complete: hand back its result.
    Finish,
    /// The operation failed with this kind; the transaction is dropped
    /// without a commit.
    Fail(CRUDError),
}

/// The steps of an operation, in order.
pub open spec fn steps_of(op: Operation) -> Seq<Step> {
    match op {
        Operation::Get => seq![Step::Begin, Step::FetchOne],
        Operation::GetAll => seq![Step::Begin, Step::FetchAll],
        Operation::Find => seq![Step::Begin, Step::FetchAll],
        Operation::Create => seq![Step::Begin, Step::Insert, Step::Reread, Step::Commit],
        Operation::Update => seq![Step::Begin, Step::Execute, Step::Reread, Step::Commit],
        Operation::Delete => seq![Step::Begin, Step::Execute, Step::Commit],
        Operation::Exists => seq![Step::Begin, Step::FetchOne, Step::ReadColumn],
        Operation::Encoding => seq![Step::Begin, Step::FetchAll, Step::FetchOne],
    }
}

/// The error kind that a failing step reports.
pub open spec fn failure_of(step: Step) -> CRUDError {
    match step {
        Step::Begin => CRUDError::InternalError,
        Step::FetchOne => CRUDError::NotFound,
        Step::FetchAll => CRUDError::WrongParameters,
        Step::Insert => CRUDError::InternalError,
        Step::Reread => CRUDError::NotFound,
        Step::Execute => CRUDError::NotFound,
        Step::ReadColumn => CRUDError::InternalError,
        Step::Commit => CRUDError::NotFound,
    }
}

/// The operations that change the store.
pub open spec fn is_mutating(op: Operation) -> bool {
    op == Operation::Create || op == Operation::Update || op == Operation::Delete
}

/// What follows when the step of index `done` of `op` comes to `event`.
pub open spec fn next_action(op: Operation, done: nat, event: Event) -> Action {
    match event {
        Event::Failed => Action::Fail(failure_of(steps_of(op)[done as int])),
        Event::Succeeded => if done + 1 == steps_of(op).len() {
            Action::Finish
        } else {
            Action::Run(steps_of(op)[(done + 1) as int])
        },
    }
}

/// The number of steps of an operation.
pub fn step_count(op: Operation) -> (r: usize)
    ensures
        r == steps_of(op).len(),
{
    match op {
        Operation::Get | Operation::GetAll | Operation::Find => 2,
        Operation::Delete | Operation::Exists | Operation::Encoding => 3,
        Operation::Create | Operation::Update => 4,
    }
}

/// The step of index `i` of an operation.
pub fn step_at(op: Operation, i: usize) -> (r: Step)
    requires
        i < steps_of(op).len(),
    ensures
        r == steps_of(op)[i as int],
{
    if i == 0 {
        return Step::Begin;
    }
    match op {
        Operation::Get => Step::FetchOne,
        Operation::GetAll | Operation::Find => Step::FetchAll,
        Operation::Create => if i == 1 { Step::Insert } else if i == 2 { Step::Reread } else { Step::Commit },
        Operation::Update => if i == 1 { Step::Execute } else if i == 2 { Step::Reread } else { Step::Commit },
        Operation::Delete => if i == 1 { Step::Execute } else { Step::Commit },
        Operation::Exists => if i == 1 { Step::FetchOne } else { Step::ReadColumn },
        Operation::Encoding => if i == 1 { Step::FetchAll } else { Step::FetchOne },
    }
}

/// The error kind that a failing step reports: a transaction that cannot
/// begin or an insert that fails is an internal error, a bulk read that
/// fails means wrong parameters, and any other failing statement, re-read or
/// commit means the row was not found.
pub fn failure_kind(step: Step) -> (r: CRUDError)
    ensures
        r == failure_of(step),
{
    match step {
        Step::Begin => CRUDError::InternalError,
        Step::FetchOne => CRUDError::NotFound,
        Step::FetchAll => CRUDError::WrongParameters,
        Step::Insert => CRUDError::InternalError,
        Step::Reread => CRUDError::NotFound,
        Step::Execute => CRUDError::NotFound,
        Step::ReadColumn => CRUDError::InternalError,
        Step::Commit => CRUDError::NotFound,
    }
}

/// Decides what follows the step of index `done` of `op`: on failure the
/// operation fails with that step's kind; on success the next step runs, or
/// the operation is complete after its last step.
pub fn advance(op: Operation, done: usize, event: Event) -> (r: Action)
    requires
        done < steps_of(op).len(),
    ensures
        r == next_action(op, done as nat, event),
{
    match event {
        Event::Failed => Action::Fail(failure_kind(step_at(op, done))),
        Event::Succeeded => {
            if done + 1 == step_count(op) {
                Action::Finish
            } else {
                Action::Run(step_at(op, done + 1))
            }
        },
    }
}

/// Every operation begins its transaction first; an operation commits if and
/// only if it changes the store, and then exactly once, as its last step.
pub proof fn lemma_transaction_discipline(op: Operation)
    ensures
        steps_of(op)[0] == Step::Begin,
        steps_of(op).contains(Step::Commit) <==> is_mutating(op),
        is_mutating(op) ==> steps_of(op).last() == Step::Commit
            && forall|i: int| 0 <= i < steps_of(op).len() - 1 ==> steps_of(op)[i] != Step::Commit,
{
    let s = steps_of(op);
    if s.contains(Step::Commit) {
        let i = choose|i: int| 0 <= i < s.len() && s[i] == Step::Commit;
    }
    if is_mutating(op) {
        assert(s[s.len() - 1] == Step::Commit);
    }
}

} // verus!
