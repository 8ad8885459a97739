//! The checkout coordinator: the steps of lending and returning, one at a
//! time, for a store that is asked and answers.
//!
//! The coordinator does no work on the store itself. It names the next
//! action; whoever holds the store carries the action out and hands the
//! store's reply back. Every run begins a transaction, raises its isolation
//! level, reads the state of the book, decides, writes, and commits; every
//! failure on the way rolls the transaction back.
use vstd::prelude::*;
use crate::adapter::database::keys::position;
use crate::adapter::database::model::{CheckoutRecord, CheckoutStateRow};
use crate::adapter::database::store::{Database, DatabaseView};
use crate::adapter::database::transaction::{
    checkout_outcome, lemma_checkout_outcome, lemma_return_outcome, new_loan, return_outcome,
    Transaction, TransactionView,
};
use crate::adapter::repository::checkout::commit_outcome;
use crate::adapter::rules::{
    checkout_verdict, return_verdict, verify_checkout, verify_return, verify_rows_affected,
};
use crate::error::{AppError, FailedWrite, TransactionFault};
use crate::kernel::model::checkout::{CreateCheckout, UpdateReturned};
use crate::kernel::model::id::{BookId, CheckoutId};
use crate::kernel::model::time::Timestamp;

verus! {

/// What is asked of the coordinator.
#[derive(Clone, Copy, Debug, PartialEq, Eq, Structural)]
#[allow(inconsistent_fields)]
pub enum Request {
    /// Lend a book, under the given loan id.
    Checkout { event: CreateCheckout, checkout_id: CheckoutId },
    /// Take a book back.
    Return { event: UpdateReturned },
}

/// What the coordinator asks of the store.
#[derive(Clone, Copy, Debug, PartialEq, Eq, Structural)]
pub enum Action {
    /// Begin a transaction.
    Begin,
    /// Raise the isolation level of the transaction to serializable.
    SetSerializable,
    /// Read the state of the book: whether it exists, and its open loan.
    ReadState { book_id: BookId },
    /// Add the loan to the open loans.
    InsertCheckout { loan: CheckoutRecord },
    /// Copy the open loan with this id to the history, closed at
    /// `returned_at`.
    InsertReturned { checkout_id: CheckoutId, returned_at: Timestamp },
    /// Remove the open loan with this id.
    DeleteCheckout { checkout_id: CheckoutId },
    /// Commit the transaction.
    Commit,
    /// Roll the transaction back.
    Rollback,
}

/// What the store answers.
#[derive(Clone, Copy, Debug, PartialEq, Eq, Structural)]
pub enum Reply {
    /// The action is done.
    Done,
    /// The state of the book: `None` if there is no such book.
    State(Option<CheckoutStateRow>),
    /// The number of rows that the write changed.
    RowsAffected(u64),
    /// The action failed.
    Failed(TransactionFault),
}

/// How far a request has come.
#[derive(Clone, Copy, Debug, PartialEq, Eq, Structural)]
pub enum Phase {
    /// Nothing is done yet.
    Start,
    /// The transaction has begun.
    Begun,
    /// The transaction is serializable.
    Isolated,
    /// The state of the book allows the request.
    Checked,
    /// The returned loan stands in the history and still among the open
    /// loans.
    Recorded,
    /// Every write is done.
    Written,
    /// The request has failed and the transaction is to be rolled back.
    Aborting(AppError),
    /// The transaction is committed: the request has succeeded.
    Committed,
    /// The request has failed and no transaction is open.
    Failed(AppError),
}

impl Request {
    /// The book that the request is about.
    pub open spec fn book_id(self) -> BookId {
        match self {
            Request::Checkout { event, .. } => event.book_id,
            Request::Return { event } => event.book_id,
        }
    }

    /// The id of the loan that the request opens or closes.
    pub open spec fn checkout_id(self) -> CheckoutId {
        match self {
            Request::Checkout { checkout_id, .. } => checkout_id,
            Request::Return { event } => event.checkout_id,
        }
    }

    /// Whether a book in this state allows the request.
    pub open spec fn verdict(self, state: Option<CheckoutStateRow>) -> Result<(), AppError> {
        match self {
            Request::Checkout { event, .. } => checkout_verdict(state, event),
            Request::Return { event } => return_verdict(state, event),
        }
    }

    /// The first write of the request.
    pub open spec fn first_write(self) -> Action {
        match self {
            Request::Checkout { event, checkout_id } => Action::InsertCheckout {
                loan: new_loan(event, checkout_id),
            },
            Request::Return { event } => Action::InsertReturned {
                checkout_id: event.checkout_id,
                returned_at: event.returned_at,
            },
        }
    }

    /// What the statements of the request do to the tables.
    pub open spec fn staged(self, db: DatabaseView) -> Result<DatabaseView, AppError> {
        match self {
            Request::Checkout { event, checkout_id } => checkout_outcome(db, event, checkout_id),
            Request::Return { event } => return_outcome(db, event),
        }
    }

    /// What the request does to the store.
    pub open spec fn outcome(self, db: DatabaseView) -> Result<DatabaseView, AppError> {
        commit_outcome(db, self.staged(db))
    }
}

/// The failure that a reply of the wrong kind, or a reply that reports a
/// failure, stands for.
pub open spec fn fault_of(reply: Reply) -> AppError {
    match reply {
        Reply::Failed(fault) => AppError::TransactionFailure(fault),
        _ => AppError::TransactionFailure(TransactionFault::UnexpectedReply),
    }
}

/// What a write must report, given the failure that it stands for if it
/// changed no row.
pub open spec fn written(reply: Reply, write: FailedWrite) -> Result<(), AppError> {
    match reply {
        Reply::RowsAffected(rows) => if rows >= 1 {
            Ok(())
        } else {
            Err(AppError::UnprocessableState(write))
        },
        _ => Err(fault_of(reply)),
    }
}

/// The action that a request in this phase asks for: `None` once the
/// request is finished.
pub open spec fn action_of(request: Request, phase: Phase) -> Option<Action> {
    match phase {
        Phase::Start => Some(Action::Begin),
        Phase::Begun => Some(Action::SetSerializable),
        Phase::Isolated => Some(Action::ReadState { book_id: request.book_id() }),
        Phase::Checked => Some(request.first_write()),
        Phase::Recorded => Some(Action::DeleteCheckout { checkout_id: request.checkout_id() }),
        Phase::Written => Some(Action::Commit),
        Phase::Aborting(_) => Some(Action::Rollback),
        Phase::Committed => None,
        Phase::Failed(_) => None,
    }
}

/// The phase that a request in this phase enters on the store's reply.
pub open spec fn next_phase(request: Request, phase: Phase, reply: Reply) -> Phase {
    match phase {
        Phase::Start => match reply {
            Reply::Done => Phase::Begun,
            _ => Phase::Failed(fault_of(reply)),
        },
        Phase::Begun => match reply {
            Reply::Done => Phase::Isolated,
            _ => Phase::Aborting(fault_of(reply)),
        },
        Phase::Isolated => match reply {
            Reply::State(state) => match request.verdict(state) {
                Ok(()) => Phase::Checked,
                Err(e) => Phase::Aborting(e),
            },
            _ => Phase::Aborting(fault_of(reply)),
        },
        Phase::Checked => match request {
            Request::Checkout { .. } => match written(reply, FailedWrite::CheckoutNotCreated) {
                Ok(()) => Phase::Written,
                Err(e) => Phase::Aborting(e),
            },
            Request::Return { .. } => match written(reply, FailedWrite::ReturnNotRecorded) {
                Ok(()) => Phase::Recorded,
                Err(e) => Phase::Aborting(e),
            },
        },
        Phase::Recorded => match written(reply, FailedWrite::CheckoutNotDeleted) {
            Ok(()) => Phase::Written,
            Err(e) => Phase::Aborting(e),
        },
        Phase::Written => match reply {
            Reply::Done => Phase::Committed,
            _ => Phase::Failed(fault_of(reply)),
        },
        Phase::Aborting(e) => Phase::Failed(e),
        Phase::Committed => Phase::Committed,
        Phase::Failed(e) => Phase::Failed(e),
    }
}

/// The most actions that a request in this phase still asks for.
pub open spec fn steps_left(phase: Phase) -> nat {
    match phase {
        Phase::Start => 7,
        Phase::Begun => 6,
        Phase::Isolated => 5,
        Phase::Checked => 4,
        Phase::Recorded => 3,
        Phase::Written => 2,
        Phase::Aborting(_) => 1,
        Phase::Committed => 0,
        Phase::Failed(_) => 0,
    }
}

/// The coordinator of one request.
#[derive(Clone, Copy, Debug, PartialEq, Eq, Structural)]
pub struct Coordinator {
    pub request: Request,
    pub phase: Phase,
}

impl Coordinator {
    /// A coordinator that has done nothing yet.
    pub fn new(request: Request) -> (coordinator: Self)
        ensures
            coordinator == (Coordinator { request, phase: Phase::Start }),
    {
        Coordinator { request, phase: Phase::Start }
    }

    /// The action to carry out next: `None` once the request is finished.
    pub fn action(&self) -> (action: Option<Action>)
        ensures
            action == action_of(self.request, self.phase),
    {
        match self.phase {
            Phase::Start => Some(Action::Begin),
            Phase::Begun => Some(Action::SetSerializable),
            Phase::Isolated => Some(
                Action::ReadState {
                    book_id: match self.request {
                        Request::Checkout { event, .. } => event.book_id,
                        Request::Return { event } => event.book_id,
                    },
                },
            ),
            Phase::Checked => Some(
                match self.request {
                    Request::Checkout { event, checkout_id } => Action::InsertCheckout {
                        loan: CheckoutRecord {
                            checkout_id,
                            book_id: event.book_id,
                            user_id: event.checked_out_by,
                            checked_out_at: event.checked_out_at,
                        },
                    },
                    Request::Return { event } => Action::InsertReturned {
                        checkout_id: event.checkout_id,
                        returned_at: event.returned_at,
                    },
                },
            ),
            Phase::Recorded => Some(
                Action::DeleteCheckout {
                    checkout_id: match self.request {
                        Request::Checkout { checkout_id, .. } => checkout_id,
                        Request::Return { event } => event.checkout_id,
                    },
                },
            ),
            Phase::Written => Some(Action::Commit),
            Phase::Aborting(_) => Some(Action::Rollback),
            Phase::Committed => None,
            Phase::Failed(_) => None,
        }
    }

    /// Takes the store's reply to the action that was asked for, and moves
    /// on. A finished request stays as it is.
    pub fn advance(&mut self, reply: Reply)
        ensures
            final(self).request == old(self).request,
            final(self).phase == next_phase(old(self).request, old(self).phase, reply),
            old(self).phase !is Committed && old(self).phase !is Failed ==> steps_left(
                final(self).phase,
            ) < steps_left(old(self).phase),
    {
        let failure = match reply {
            Reply::Failed(fault) => AppError::TransactionFailure(fault),
            _ => AppError::TransactionFailure(TransactionFault::UnexpectedReply),
        };
        let next = match self.phase {
            Phase::Start => match reply {
                Reply::Done => Phase::Begun,
                _ => Phase::Failed(failure),
            },
            Phase::Begun => match reply {
                Reply::Done => Phase::Isolated,
                _ => Phase::Aborting(failure),
            },
            Phase::Isolated => match reply {
                Reply::State(state) => {
                    let verdict = match self.request {
                        Request::Checkout { event, .. } => verify_checkout(state, &event),
                        Request::Return { event } => verify_return(state, &event),
                    };
                    match verdict {
                        Ok(()) => Phase::Checked,
                        Err(e) => Phase::Aborting(e),
                    }
                },
                _ => Phase::Aborting(failure),
            },
            Phase::Checked => match reply {
                Reply::RowsAffected(rows) => match self.request {
                    Request::Checkout { .. } => match verify_rows_affected(
                        rows,
                        FailedWrite::CheckoutNotCreated,
                    ) {
                        Ok(()) => Phase::Written,
                        Err(e) => Phase::Aborting(e),
                    },
                    Request::Return { .. } => match verify_rows_affected(
                        rows,
                        FailedWrite::ReturnNotRecorded,
                    ) {
                        Ok(()) => Phase::Recorded,
                        Err(e) => Phase::Aborting(e),
                    },
                },
                _ => Phase::Aborting(failure),
            },
            Phase::Recorded => match reply {
                Reply::RowsAffected(rows) => match verify_rows_affected(
                    rows,
                    FailedWrite::CheckoutNotDeleted,
                ) {
                    Ok(()) => Phase::Written,
                    Err(e) => Phase::Aborting(e),
                },
                _ => Phase::Aborting(failure),
            },
            Phase::Written => match reply {
                Reply::Done => Phase::Committed,
                _ => Phase::Failed(failure),
            },
            Phase::Aborting(e) => Phase::Failed(e),
            Phase::Committed => Phase::Committed,
            Phase::Failed(e) => Phase::Failed(e),
        };
        self.phase = next;
    }

    /// How the request ended: `None` while it is not finished.
    pub fn outcome(&self) -> (outcome: Option<Result<(), AppError>>)
        ensures
            outcome == match self.phase {
                Phase::Committed => Some(Ok::<(), AppError>(())),
                Phase::Failed(e) => Some(Err::<(), AppError>(e)),
                _ => None::<Result<(), AppError>>,
            },
            outcome is None <==> action_of(self.request, self.phase) is Some,
    {
        match self.phase {
            Phase::Committed => Some(Ok(())),
            Phase::Failed(e) => Some(Err(e)),
            _ => None,
        }
    }
}

/// The phase that a request has reached after the store's replies.
pub open spec fn phase_after(request: Request, replies: Seq<Reply>) -> Phase
    decreases replies.len(),
{
    if replies.len() == 0 {
        Phase::Start
    } else {
        next_phase(request, phase_after(request, replies.drop_last()), replies.last())
    }
}

/// The actions that a request has asked for by the time the store has given
/// these replies: one for each reply that came while it was not finished.
pub open spec fn actions_before(request: Request, replies: Seq<Reply>) -> Seq<Action>
    decreases replies.len(),
{
    if replies.len() == 0 {
        Seq::empty()
    } else {
        let before = actions_before(request, replies.drop_last());
        match action_of(request, phase_after(request, replies.drop_last())) {
            Some(action) => before.push(action),
            None => before,
        }
    }
}

/// How often `action` stands in `actions`.
pub open spec fn count_of(actions: Seq<Action>, action: Action) -> nat
    decreases actions.len(),
{
    if actions.len() == 0 {
        0
    } else {
        count_of(actions.drop_last(), action) + if actions.last() == action {
            1nat
        } else {
            0nat
        }
    }
}

/// The shape of the actions that lead to a phase.
pub open spec fn trace_fits(phase: Phase, actions: Seq<Action>) -> bool {
    let commits = count_of(actions, Action::Commit);
    let rollbacks = count_of(actions, Action::Rollback);
    match phase {
        Phase::Start => actions.len() == 0,
        Phase::Committed => {
            &&& actions.len() > 0
            &&& actions.first() == Action::Begin
            &&& actions.last() == Action::Commit
            &&& commits == 1
            &&& rollbacks == 0
        },
        Phase::Failed(_) => {
            &&& actions.len() > 0
            &&& actions.first() == Action::Begin
            &&& {
                ||| actions.len() == 1 && commits == 0 && rollbacks == 0
                ||| actions.last() == Action::Rollback && commits == 0 && rollbacks == 1
                ||| actions.last() == Action::Commit && commits == 1 && rollbacks == 0
            }
        },
        _ => {
            &&& actions.len() > 0
            &&& actions.first() == Action::Begin
            &&& commits == 0
            &&& rollbacks == 0
        },
    }
}

/// Whatever the store replies, a request begins one transaction and ends it
/// once: a request that succeeded has committed as its last action and
/// never rolled back, and a request that failed has failed to begin, or
/// rolled back as its last action and never committed, or failed to commit
/// as its last action. While a request is under way it has neither
/// committed nor rolled back.
pub proof fn lemma_one_transaction_per_request(request: Request, replies: Seq<Reply>)
    ensures
        trace_fits(phase_after(request, replies), actions_before(request, replies)),
    decreases replies.len(),
{
    if replies.len() > 0 {
        let earlier = replies.drop_last();
        lemma_one_transaction_per_request(request, earlier);
        let phase = phase_after(request, earlier);
        let before = actions_before(request, earlier);
        match action_of(request, phase) {
            Some(action) => {
                let now = before.push(action);
                assert(now.drop_last() =~= before);
                assert(now.last() == action);
                assert(count_of(now, Action::Commit) == count_of(before, Action::Commit)
                    + if action == Action::Commit {
                    1nat
                } else {
                    0nat
                });
                assert(count_of(now, Action::Rollback) == count_of(before, Action::Rollback)
                    + if action == Action::Rollback {
                    1nat
                } else {
                    0nat
                });
                if before.len() > 0 {
                    assert(now.first() == before.first());
                } else {
                    assert(count_of(before, Action::Commit) == 0);
                    assert(count_of(before, Action::Rollback) == 0);
                }
            },
            None => {},
        }
    }
}

/// A request commits only after its checks and its writes: it is checked
/// only on a state of the book that allows it, it counts a write as done
/// only if the write changed a row, it asks for the commit only once every
/// write is done, and it succeeds only if the commit did.
pub proof fn lemma_commit_follows_the_writes(request: Request, phase: Phase, reply: Reply)
    ensures
        action_of(request, phase) == Some(Action::Commit) <==> phase == Phase::Written,
        next_phase(request, phase, reply) == Phase::Checked ==> {
            &&& phase == Phase::Isolated
            &&& reply matches Reply::State(state)
            &&& request.verdict(state) is Ok
        },
        next_phase(request, phase, reply) == Phase::Recorded ==> {
            &&& phase == Phase::Checked
            &&& request is Return
            &&& reply matches Reply::RowsAffected(rows)
            &&& rows >= 1
        },
        next_phase(request, phase, reply) == Phase::Written ==> {
            &&& reply matches Reply::RowsAffected(rows)
            &&& rows >= 1
            &&& (phase == Phase::Checked && request is Checkout) || phase == Phase::Recorded
        },
        next_phase(request, phase, reply) == Phase::Committed ==> phase == Phase::Committed
            || phase == Phase::Written && reply == Reply::Done,
{
}

/// Every request is finished after seven replies at most.
pub proof fn lemma_request_finishes(request: Request, replies: Seq<Reply>)
    ensures
        steps_left(phase_after(request, replies)) + replies.len() <= 7 || action_of(
            request,
            phase_after(request, replies),
        ) is None,
        replies.len() >= 7 ==> action_of(request, phase_after(request, replies)) is None,
    decreases replies.len(),
{
    if replies.len() > 0 {
        lemma_request_finishes(request, replies.drop_last());
    }
}

/// Whether the store and the transaction are where the request's phase says
/// they are, for a request that began on the store `origin`.
pub open spec fn on_course(
    origin: DatabaseView,
    request: Request,
    phase: Phase,
    db: DatabaseView,
    tx: Option<TransactionView>,
) -> bool {
    match phase {
        Phase::Start => db == origin && tx is None,
        Phase::Begun => {
            &&& db == origin
            &&& tx matches Some(t)
            &&& t.tables == origin
        },
        Phase::Isolated => {
            &&& db == origin
            &&& tx matches Some(t)
            &&& t.tables == origin
            &&& t.serializable
        },
        Phase::Checked => {
            &&& db == origin
            &&& tx matches Some(t)
            &&& t.tables == origin
            &&& t.serializable
            &&& request.verdict(origin.checkout_state(request.book_id())) is Ok
        },
        Phase::Recorded => {
            &&& db == origin
            &&& tx matches Some(t)
            &&& t.serializable
            &&& request matches Request::Return { event }
            &&& return_outcome(origin, event) is Ok
            &&& position(origin.lent_book_ids(), event.book_id.0) matches Some(i)
            &&& t.tables == origin.with_returned(origin.checkouts[i].returned(event.returned_at))
        },
        Phase::Written => {
            &&& db == origin
            &&& tx matches Some(t)
            &&& t.serializable
            &&& request.staged(origin) == Ok::<DatabaseView, AppError>(t.tables)
        },
        Phase::Aborting(e) => db == origin && request.staged(origin) == Err::<
            DatabaseView,
            AppError,
        >(e),
        Phase::Committed => tx is None && request.outcome(origin) == Ok::<DatabaseView, AppError>(
            db,
        ),
        Phase::Failed(e) => db == origin && request.outcome(origin) == Err::<
            DatabaseView,
            AppError,
        >(e),
    }
}

/// Carries a request out on the store, action by action as the coordinator
/// asks: lends or takes back the book, or fails and leaves the store as it
/// is.
pub fn execute(db: &mut Database, request: Request) -> (result: Result<(), AppError>)
    requires
        old(db)@.well_formed(),
    ensures
        final(db)@.well_formed(),
        match result {
            Ok(()) => request.outcome(old(db)@) == Ok::<DatabaseView, AppError>(final(db)@),
            Err(e) => {
                &&& request.outcome(old(db)@) == Err::<DatabaseView, AppError>(e)
                &&& final(db)@ == old(db)@
            },
        },
{
    let ghost origin = db@;
    let mut coordinator = Coordinator::new(request);
    let mut tx: Option<Transaction> = None;
    loop
        invariant
            origin.well_formed(),
            db@.well_formed(),
            coordinator.request == request,
            on_course(
                origin,
                request,
                coordinator.phase,
                db@,
                match tx {
                    Some(t) => Some(t@),
                    None => None,
                },
            ),
        ensures
            action_of(request, coordinator.phase) is None,
        decreases steps_left(coordinator.phase),
    {
        let action = match coordinator.action() {
            Some(action) => action,
            None => {
                break ;
            },
        };
        proof {
            match request {
                Request::Checkout { event, checkout_id } => {
                    if checkout_outcome(origin, event, checkout_id) is Ok {
                        lemma_checkout_outcome(origin, event, checkout_id);
                    }
                },
                Request::Return { event } => {
                    if return_outcome(origin, event) is Ok {
                        lemma_return_outcome(origin, event);
                    }
                },
            }
        }
        let reply = match action {
            Action::Begin => {
                tx = Some(db.begin());
                Reply::Done
            },
            Action::SetSerializable => match &mut tx {
                Some(t) => {
                    t.set_serializable();
                    Reply::Done
                },
                None => Reply::Failed(TransactionFault::StoreFailure),
            },
            Action::ReadState { book_id } => match &tx {
                Some(t) => Reply::State(t.checkout_state(book_id)),
                None => Reply::Failed(TransactionFault::StoreFailure),
            },
            Action::InsertCheckout { loan } => match &mut tx {
                Some(t) => Reply::RowsAffected(t.insert_checkout(loan)),
                None => Reply::Failed(TransactionFault::StoreFailure),
            },
            Action::InsertReturned { checkout_id, returned_at } => match &mut tx {
                Some(t) => Reply::RowsAffected(
                    t.insert_returned_from_checkout(checkout_id, returned_at),
                ),
                None => Reply::Failed(TransactionFault::StoreFailure),
            },
            Action::DeleteCheckout { checkout_id } => match &mut tx {
                Some(t) => Reply::RowsAffected(t.delete_checkout(checkout_id)),
                None => Reply::Failed(TransactionFault::StoreFailure),
            },
            Action::Commit => match tx.take() {
                Some(t) => match db.commit(t) {
                    Ok(()) => Reply::Done,
                    Err(AppError::TransactionFailure(fault)) => Reply::Failed(fault),
                    Err(_) => Reply::Failed(TransactionFault::StoreFailure),
                },
                None => Reply::Failed(TransactionFault::StoreFailure),
            },
            Action::Rollback => {
                match tx.take() {
                    Some(t) => {
                        t.rollback();
                    },
                    None => {},
                }
                Reply::Done
            },
        };
        coordinator.advance(reply);
    }
    match coordinator.outcome() {
        Some(result) => result,
        None => Err(AppError::TransactionFailure(TransactionFault::StoreFailure)),
    }
}

} // verus!
