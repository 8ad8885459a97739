use book_manager::adapter::coordinator::{execute, Action, Coordinator, Phase, Reply, Request};
use book_manager::adapter::database::model::{
    BookRecord, CheckoutRecord, CheckoutStateRow, UserRecord,
};
use book_manager::adapter::database::store::Database;
use book_manager::adapter::repository::checkout::CheckoutRepositoryImpl;
use book_manager::adapter::rules::{verify_checkout, verify_return, verify_rows_affected};
use book_manager::error::{AppError, Conflict, FailedWrite, TransactionFault};
use book_manager::kernel::model::checkout::{CreateCheckout, UpdateReturned};
use book_manager::kernel::model::id::{BookId, CheckoutId, UserId};
use book_manager::kernel::model::time::Timestamp;

const BOOK: BookId = BookId(10);
const ANN: UserId = UserId(1);
const BOB: UserId = UserId(2);

fn checkout() -> Request {
    Request::Checkout {
        event: CreateCheckout::new(BOOK, ANN, Timestamp(100)),
        checkout_id: CheckoutId(5),
    }
}

fn give_back() -> Request {
    Request::Return { event: UpdateReturned::new(CheckoutId(5), BOOK, ANN, Timestamp(200)) }
}

fn free() -> Option<CheckoutStateRow> {
    Some(CheckoutStateRow { book_id: BOOK, checkout_id: None, user_id: None })
}

fn lent(checkout_id: u128, user_id: UserId) -> Option<CheckoutStateRow> {
    Some(CheckoutStateRow {
        book_id: BOOK,
        checkout_id: Some(CheckoutId(checkout_id)),
        user_id: Some(user_id),
    })
}

fn run(request: Request, replies: &[Reply]) -> (Vec<Action>, Coordinator) {
    let mut coordinator = Coordinator::new(request);
    let mut actions = Vec::new();
    for reply in replies {
        match coordinator.action() {
            Some(action) => actions.push(action),
            None => break,
        }
        coordinator.advance(*reply);
    }
    (actions, coordinator)
}

#[test]
fn a_checkout_that_succeeds_takes_five_actions() {
    let (actions, end) = run(
        checkout(),
        &[Reply::Done, Reply::Done, Reply::State(free()), Reply::RowsAffected(1), Reply::Done],
    );
    assert_eq!(
        actions,
        vec![
            Action::Begin,
            Action::SetSerializable,
            Action::ReadState { book_id: BOOK },
            Action::InsertCheckout {
                loan: CheckoutRecord {
                    checkout_id: CheckoutId(5),
                    book_id: BOOK,
                    user_id: ANN,
                    checked_out_at: Timestamp(100)
                }
            },
            Action::Commit,
        ]
    );
    assert_eq!(end.phase, Phase::Committed);
    assert_eq!(end.outcome(), Some(Ok(())));
    assert_eq!(end.action(), None);
}

#[test]
fn a_return_that_succeeds_takes_six_actions() {
    let (actions, end) = run(
        give_back(),
        &[
            Reply::Done,
            Reply::Done,
            Reply::State(lent(5, ANN)),
            Reply::RowsAffected(1),
            Reply::RowsAffected(1),
            Reply::Done,
        ],
    );
    assert_eq!(
        actions,
        vec![
            Action::Begin,
            Action::SetSerializable,
            Action::ReadState { book_id: BOOK },
            Action::InsertReturned { checkout_id: CheckoutId(5), returned_at: Timestamp(200) },
            Action::DeleteCheckout { checkout_id: CheckoutId(5) },
            Action::Commit,
        ]
    );
    assert_eq!(end.outcome(), Some(Ok(())));
}

#[test]
fn a_missing_book_is_not_found_and_rolls_back() {
    for request in [checkout(), give_back()] {
        let (actions, end) =
            run(request, &[Reply::Done, Reply::Done, Reply::State(None), Reply::Done]);
        assert_eq!(actions.last(), Some(&Action::Rollback));
        assert_eq!(actions.len(), 4);
        assert_eq!(end.outcome(), Some(Err(AppError::EntityNotFound(BOOK))));
    }
}

#[test]
fn a_lent_book_is_a_conflict_and_rolls_back() {
    let (actions, end) =
        run(checkout(), &[Reply::Done, Reply::Done, Reply::State(lent(4, BOB)), Reply::Done]);
    assert_eq!(actions.last(), Some(&Action::Rollback));
    assert!(!actions.contains(&Action::Commit));
    assert_eq!(
        end.outcome(),
        Some(Err(AppError::Conflict(Conflict::AlreadyCheckedOut { book_id: BOOK })))
    );
}

#[test]
fn a_return_that_does_not_match_is_a_conflict_and_rolls_back() {
    let mismatch = AppError::Conflict(Conflict::ReturnDoesNotMatch {
        checkout_id: CheckoutId(5),
        returned_by: ANN,
        book_id: BOOK,
    });
    for state in [lent(4, ANN), lent(5, BOB), free()] {
        let (actions, end) =
            run(give_back(), &[Reply::Done, Reply::Done, Reply::State(state), Reply::Done]);
        assert_eq!(actions.last(), Some(&Action::Rollback));
        assert_eq!(end.outcome(), Some(Err(mismatch)));
    }
}

#[test]
fn a_write_that_changes_no_row_rolls_back() {
    let (actions, end) = run(
        checkout(),
        &[Reply::Done, Reply::Done, Reply::State(free()), Reply::RowsAffected(0), Reply::Done],
    );
    assert_eq!(actions.last(), Some(&Action::Rollback));
    assert_eq!(
        end.outcome(),
        Some(Err(AppError::UnprocessableState(FailedWrite::CheckoutNotCreated)))
    );
    let (_, end) = run(
        give_back(),
        &[
            Reply::Done,
            Reply::Done,
            Reply::State(lent(5, ANN)),
            Reply::RowsAffected(0),
            Reply::Done,
        ],
    );
    assert_eq!(
        end.outcome(),
        Some(Err(AppError::UnprocessableState(FailedWrite::ReturnNotRecorded)))
    );
    let (actions, end) = run(
        give_back(),
        &[
            Reply::Done,
            Reply::Done,
            Reply::State(lent(5, ANN)),
            Reply::RowsAffected(1),
            Reply::RowsAffected(0),
            Reply::Done,
        ],
    );
    assert_eq!(actions.last(), Some(&Action::Rollback));
    assert_eq!(
        end.outcome(),
        Some(Err(AppError::UnprocessableState(FailedWrite::CheckoutNotDeleted)))
    );
}

#[test]
fn a_failed_commit_is_never_a_success() {
    let (actions, end) = run(
        checkout(),
        &[
            Reply::Done,
            Reply::Done,
            Reply::State(free()),
            Reply::RowsAffected(1),
            Reply::Failed(TransactionFault::SerializationFailure),
        ],
    );
    assert_eq!(actions.last(), Some(&Action::Commit));
    assert_eq!(
        end.outcome(),
        Some(Err(AppError::TransactionFailure(TransactionFault::SerializationFailure)))
    );
}

#[test]
fn a_store_failure_on_the_way_rolls_back() {
    let failed = Reply::Failed(TransactionFault::StoreFailure);
    let surfaced = Some(Err(AppError::TransactionFailure(TransactionFault::StoreFailure)));
    let (actions, end) = run(checkout(), &[failed]);
    assert_eq!(actions, vec![Action::Begin]);
    assert_eq!(end.outcome(), surfaced);
    let (actions, end) = run(checkout(), &[Reply::Done, failed, Reply::Done]);
    assert_eq!(actions, vec![Action::Begin, Action::SetSerializable, Action::Rollback]);
    assert_eq!(end.outcome(), surfaced);
    let (actions, end) = run(checkout(), &[Reply::Done, Reply::Done, failed, failed]);
    assert_eq!(actions.last(), Some(&Action::Rollback));
    assert_eq!(end.outcome(), surfaced);
}

#[test]
fn a_reply_of_the_wrong_kind_is_a_failure() {
    let (actions, end) =
        run(checkout(), &[Reply::Done, Reply::Done, Reply::RowsAffected(1), Reply::Done]);
    assert_eq!(actions.last(), Some(&Action::Rollback));
    assert_eq!(
        end.outcome(),
        Some(Err(AppError::TransactionFailure(TransactionFault::UnexpectedReply)))
    );
}

#[test]
fn a_request_under_way_has_no_outcome() {
    let (_, mid) = run(checkout(), &[Reply::Done, Reply::Done]);
    assert_eq!(mid.phase, Phase::Isolated);
    assert_eq!(mid.outcome(), None);
    let mut done = run(checkout(), &[Reply::Failed(TransactionFault::StoreFailure)]).1;
    let before = done;
    done.advance(Reply::Done);
    assert_eq!(done, before);
}

#[test]
fn the_rules_decide_by_the_state_of_the_book() {
    let lend = CreateCheckout::new(BOOK, BOB, Timestamp(1));
    assert_eq!(verify_checkout(None, &lend), Err(AppError::EntityNotFound(BOOK)));
    assert_eq!(verify_checkout(free(), &lend), Ok(()));
    assert_eq!(
        verify_checkout(lent(5, BOB), &lend),
        Err(AppError::Conflict(Conflict::AlreadyCheckedOut { book_id: BOOK }))
    );
    let back = UpdateReturned::new(CheckoutId(5), BOOK, ANN, Timestamp(2));
    assert_eq!(verify_return(lent(5, ANN), &back), Ok(()));
    assert_eq!(verify_return(None, &back), Err(AppError::EntityNotFound(BOOK)));
    let half = Some(CheckoutStateRow { book_id: BOOK, checkout_id: Some(CheckoutId(5)), user_id: None });
    assert!(verify_return(half, &back).is_err());
    assert_eq!(verify_rows_affected(1, FailedWrite::CheckoutNotDeleted), Ok(()));
    assert_eq!(verify_rows_affected(3, FailedWrite::CheckoutNotDeleted), Ok(()));
    assert_eq!(
        verify_rows_affected(0, FailedWrite::ReturnNotRecorded),
        Err(AppError::UnprocessableState(FailedWrite::ReturnNotRecorded))
    );
}

fn store() -> Database {
    let mut db = Database::new();
    let mut tx = db.begin();
    tx.set_serializable();
    tx.insert_user(UserRecord { user_id: ANN, name: "Ann".to_string() });
    tx.insert_book(BookRecord {
        book_id: BOOK,
        title: "T".to_string(),
        author: "A".to_string(),
        isbn: "I".to_string(),
        description: "D".to_string(),
        user_id: ANN,
    });
    assert_eq!(db.commit(tx), Ok(()));
    db
}

#[test]
fn the_coordinator_carries_requests_out_on_the_store() {
    let mut db = store();
    assert_eq!(
        execute(&mut db, give_back()),
        Err(AppError::Conflict(Conflict::ReturnDoesNotMatch {
            checkout_id: CheckoutId(5),
            returned_by: ANN,
            book_id: BOOK,
        }))
    );
    assert_eq!(db.version(), 1);
    assert_eq!(execute(&mut db, checkout()), Ok(()));
    assert_eq!(db.version(), 2);
    assert_eq!(
        execute(&mut db, checkout()),
        Err(AppError::Conflict(Conflict::AlreadyCheckedOut { book_id: BOOK }))
    );
    assert_eq!(db.version(), 2);
    assert_eq!(db.checkout_state(BOOK), lent(5, ANN));
    assert_eq!(execute(&mut db, give_back()), Ok(()));
    assert_eq!(db.checkout_state(BOOK), free());
    let repo = CheckoutRepositoryImpl::new(db);
    let history = repo.find_history_by_book_id(BOOK).unwrap();
    assert_eq!(history.len(), 1);
    assert_eq!(history[0].returned_at, Some(Timestamp(200)));
}

#[test]
fn the_coordinator_and_the_repository_agree() {
    let requests = [give_back(), checkout(), checkout(), give_back(), give_back(), checkout()];
    let mut by_coordinator = store();
    let mut by_repository = CheckoutRepositoryImpl::new(store());
    for request in requests {
        let expected = match request {
            Request::Checkout { event, checkout_id } => {
                by_repository.create_with_id(event, checkout_id)
            }
            Request::Return { event } => by_repository.update_returned(event),
        };
        assert_eq!(execute(&mut by_coordinator, request), expected);
        assert_eq!(by_coordinator.version(), by_repository.database().version());
        assert_eq!(
            by_coordinator.checkout_state(BOOK),
            by_repository.database().checkout_state(BOOK)
        );
    }
}
