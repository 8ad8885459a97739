use book_manager::adapter::database::model::{BookRecord, UserRecord};
use book_manager::adapter::database::store::Database;
use book_manager::adapter::repository::checkout::CheckoutRepositoryImpl;
use book_manager::error::{AppError, Conflict, FailedWrite, TransactionFault};
use book_manager::kernel::model::checkout::{Checkout, CreateCheckout, UpdateReturned};
use book_manager::kernel::model::id::{BookId, CheckoutId, UserId};
use book_manager::kernel::model::time::Timestamp;

const U1: UserId = UserId(0x11);
const U2: UserId = UserId(0x22);
const B: BookId = BookId(0xb0);
const B2: BookId = BookId(0xb2);

fn user(id: UserId, name: &str) -> UserRecord {
    UserRecord { user_id: id, name: name.to_string() }
}

fn book(id: BookId, title: &str, owner: UserId) -> BookRecord {
    BookRecord {
        book_id: id,
        title: title.to_string(),
        author: "Author".to_string(),
        isbn: "ISBN".to_string(),
        description: "Description".to_string(),
        user_id: owner,
    }
}

fn library() -> CheckoutRepositoryImpl {
    let mut db = Database::new();
    let mut tx = db.begin();
    tx.set_serializable();
    assert_eq!(tx.insert_user(user(U1, "Ann")), 1);
    assert_eq!(tx.insert_user(user(U2, "Bob")), 1);
    assert_eq!(tx.insert_book(book(B, "First", U1)), 1);
    assert_eq!(tx.insert_book(book(B2, "Second", U2)), 1);
    assert_eq!(db.commit(tx), Ok(()));
    CheckoutRepositoryImpl::new(db)
}

fn lend(book_id: BookId, user_id: UserId, at: i64) -> CreateCheckout {
    CreateCheckout::new(book_id, user_id, Timestamp(at))
}

fn give_back(checkout_id: CheckoutId, book_id: BookId, user_id: UserId, at: i64) -> UpdateReturned {
    UpdateReturned::new(checkout_id, book_id, user_id, Timestamp(at))
}

fn ids(checkouts: &[Checkout]) -> Vec<u128> {
    checkouts.iter().map(|c| c.id.0).collect()
}

#[test]
fn checkout_of_a_free_book_succeeds() {
    let mut repo = library();
    assert_eq!(repo.create_with_id(lend(B, U1, 100), CheckoutId(1)), Ok(()));
    let open = repo.find_unreturned_all().unwrap();
    assert_eq!(open.len(), 1);
    assert_eq!(open[0].id, CheckoutId(1));
    assert_eq!(open[0].book.book_id, B);
    assert_eq!(open[0].book.title, "First");
    assert_eq!(open[0].book.author, "Author");
    assert_eq!(open[0].book.isbn, "ISBN");
    assert_eq!(open[0].checked_out_by.id, U1);
    assert_eq!(open[0].checked_out_by.name, "Ann");
    assert_eq!(open[0].checked_out_at, Timestamp(100));
    assert_eq!(open[0].returned_at, None);
}

#[test]
fn checkout_of_a_missing_book_is_not_found() {
    let mut repo = library();
    let missing = BookId(0xdead);
    assert_eq!(
        repo.create_with_id(lend(missing, U1, 100), CheckoutId(1)),
        Err(AppError::EntityNotFound(missing))
    );
    assert_eq!(repo.create(lend(missing, U2, 100)), Err(AppError::EntityNotFound(missing)));
    assert!(repo.find_unreturned_all().unwrap().is_empty());
}

#[test]
fn checkout_of_a_lent_book_is_a_conflict_for_everyone() {
    let mut repo = library();
    assert_eq!(repo.create_with_id(lend(B, U1, 100), CheckoutId(1)), Ok(()));
    let conflict = Err(AppError::Conflict(Conflict::AlreadyCheckedOut { book_id: B }));
    assert_eq!(repo.create_with_id(lend(B, U2, 101), CheckoutId(2)), conflict);
    assert_eq!(repo.create_with_id(lend(B, U1, 102), CheckoutId(3)), conflict);
    assert_eq!(repo.create(lend(B, U2, 103)), conflict);
    assert_eq!(ids(&repo.find_unreturned_all().unwrap()), vec![1]);
}

#[test]
fn checkout_under_a_used_loan_id_writes_nothing() {
    let mut repo = library();
    assert_eq!(repo.create_with_id(lend(B, U1, 100), CheckoutId(1)), Ok(()));
    let refused = Err(AppError::UnprocessableState(FailedWrite::CheckoutNotCreated));
    assert_eq!(repo.create_with_id(lend(B2, U2, 101), CheckoutId(1)), refused);
    assert_eq!(repo.update_returned(give_back(CheckoutId(1), B, U1, 110)), Ok(()));
    assert_eq!(repo.create_with_id(lend(B2, U2, 120), CheckoutId(1)), refused);
    assert!(repo.find_unreturned_all().unwrap().is_empty());
}

#[test]
fn checkout_under_a_random_id_succeeds() {
    let mut repo = library();
    assert_eq!(repo.create(lend(B, U1, 100)), Ok(()));
    assert_eq!(repo.create(lend(B2, U1, 101)), Ok(()));
    let open = repo.find_unreturned_all().unwrap();
    assert_eq!(open.len(), 2);
    assert_ne!(open[0].id, open[1].id);
    for checkout in &open {
        assert_eq!(checkout.id.0 & 0x0000_0000_0000_f000_c000_0000_0000_0000, 0x4000_8000_0000_0000_0000);
    }
}

#[test]
fn return_with_wrong_checkout_id_is_a_conflict() {
    let mut repo = library();
    assert_eq!(repo.create_with_id(lend(B, U1, 100), CheckoutId(1)), Ok(()));
    assert_eq!(
        repo.update_returned(give_back(CheckoutId(9), B, U1, 110)),
        Err(AppError::Conflict(Conflict::ReturnDoesNotMatch {
            checkout_id: CheckoutId(9),
            returned_by: U1,
            book_id: B
        }))
    );
    assert_eq!(ids(&repo.find_unreturned_all().unwrap()), vec![1]);
    assert_eq!(ids(&repo.find_history_by_book_id(B).unwrap()), vec![1]);
}

#[test]
fn return_by_another_user_is_a_conflict() {
    let mut repo = library();
    assert_eq!(repo.create_with_id(lend(B, U1, 100), CheckoutId(1)), Ok(()));
    assert_eq!(
        repo.update_returned(give_back(CheckoutId(1), B, U2, 110)),
        Err(AppError::Conflict(Conflict::ReturnDoesNotMatch {
            checkout_id: CheckoutId(1),
            returned_by: U2,
            book_id: B
        }))
    );
    assert_eq!(ids(&repo.find_unreturned_all().unwrap()), vec![1]);
}

#[test]
fn return_of_a_book_that_is_not_lent_is_a_conflict() {
    let mut repo = library();
    assert_eq!(
        repo.update_returned(give_back(CheckoutId(1), B, U1, 110)),
        Err(AppError::Conflict(Conflict::ReturnDoesNotMatch {
            checkout_id: CheckoutId(1),
            returned_by: U1,
            book_id: B
        }))
    );
    assert!(repo.find_history_by_book_id(B).unwrap().is_empty());
}

#[test]
fn return_under_the_loan_id_of_another_book_is_a_conflict() {
    let mut repo = library();
    assert_eq!(repo.create_with_id(lend(B2, U1, 100), CheckoutId(1)), Ok(()));
    assert_eq!(
        repo.update_returned(give_back(CheckoutId(1), B, U1, 110)),
        Err(AppError::Conflict(Conflict::ReturnDoesNotMatch {
            checkout_id: CheckoutId(1),
            returned_by: U1,
            book_id: B
        }))
    );
    assert_eq!(ids(&repo.find_unreturned_all().unwrap()), vec![1]);
    assert!(repo.find_history_by_book_id(B2).unwrap()[0].returned_at.is_none());
}

#[test]
fn second_return_of_the_same_loan_is_a_conflict() {
    let mut repo = library();
    assert_eq!(repo.create_with_id(lend(B, U1, 100), CheckoutId(1)), Ok(()));
    assert_eq!(repo.update_returned(give_back(CheckoutId(1), B, U1, 110)), Ok(()));
    assert_eq!(
        repo.update_returned(give_back(CheckoutId(1), B, U1, 120)),
        Err(AppError::Conflict(Conflict::ReturnDoesNotMatch {
            checkout_id: CheckoutId(1),
            returned_by: U1,
            book_id: B
        }))
    );
    assert_eq!(repo.find_history_by_book_id(B).unwrap().len(), 1);
}

#[test]
fn return_of_a_missing_book_is_not_found() {
    let mut repo = library();
    let missing = BookId(0xdead);
    assert_eq!(
        repo.update_returned(give_back(CheckoutId(1), missing, U1, 110)),
        Err(AppError::EntityNotFound(missing))
    );
}

#[test]
fn return_moves_the_loan_to_the_history() {
    let mut repo = library();
    assert_eq!(repo.create_with_id(lend(B, U1, 100), CheckoutId(1)), Ok(()));
    assert_eq!(repo.create_with_id(lend(B2, U2, 105), CheckoutId(2)), Ok(()));
    assert_eq!(repo.update_returned(give_back(CheckoutId(1), B, U1, 110)), Ok(()));
    assert_eq!(ids(&repo.find_unreturned_all().unwrap()), vec![2]);
    let history = repo.find_history_by_book_id(B).unwrap();
    assert_eq!(history.len(), 1);
    assert_eq!(history[0].id, CheckoutId(1));
    assert_eq!(history[0].book.book_id, B);
    assert_eq!(history[0].checked_out_by.id, U1);
    assert_eq!(history[0].checked_out_at, Timestamp(100));
    assert_eq!(history[0].returned_at, Some(Timestamp(110)));
}

#[test]
fn return_before_the_checkout_time_is_recorded_as_given() {
    let mut repo = library();
    assert_eq!(repo.create_with_id(lend(B, U1, 10), CheckoutId(1)), Ok(()));
    assert_eq!(repo.update_returned(give_back(CheckoutId(1), B, U1, 5)), Ok(()));
    let history = repo.find_history_by_book_id(B).unwrap();
    assert_eq!(history[0].checked_out_at, Timestamp(10));
    assert_eq!(history[0].returned_at, Some(Timestamp(5)));
}

#[test]
fn lend_conflict_return_lend_again() {
    let mut repo = library();
    assert_eq!(repo.create_with_id(lend(B, U1, 100), CheckoutId(1)), Ok(()));
    let open = repo.find_unreturned_all().unwrap();
    assert_eq!(open[0].book.book_id, B);
    assert_eq!(open[0].checked_out_by.id, U1);
    assert_eq!(
        repo.create_with_id(lend(B, U2, 101), CheckoutId(2)),
        Err(AppError::Conflict(Conflict::AlreadyCheckedOut { book_id: B }))
    );
    assert_eq!(repo.update_returned(give_back(CheckoutId(1), B, U1, 110)), Ok(()));
    assert_eq!(repo.create_with_id(lend(B, U2, 120), CheckoutId(2)), Ok(()));
    let open = repo.find_unreturned_all().unwrap();
    assert_eq!(ids(&open), vec![2]);
    assert_eq!(open[0].checked_out_by.id, U2);
    assert_eq!(ids(&repo.find_history_by_book_id(B).unwrap()), vec![2, 1]);
}

#[test]
fn history_shows_the_open_loan_first_then_the_latest_return() {
    let mut repo = library();
    assert_eq!(repo.create_with_id(lend(B, U1, 100), CheckoutId(1)), Ok(()));
    assert_eq!(repo.update_returned(give_back(CheckoutId(1), B, U1, 110)), Ok(()));
    assert_eq!(repo.create_with_id(lend(B, U2, 120), CheckoutId(2)), Ok(()));
    assert_eq!(repo.update_returned(give_back(CheckoutId(2), B, U2, 130)), Ok(()));
    assert_eq!(repo.create_with_id(lend(B, U1, 50), CheckoutId(3)), Ok(()));
    let history = repo.find_history_by_book_id(B).unwrap();
    assert_eq!(ids(&history), vec![3, 2, 1]);
    assert_eq!(history[0].returned_at, None);
    assert_eq!(history[1].returned_at, Some(Timestamp(130)));
    assert_eq!(history[2].returned_at, Some(Timestamp(110)));
}

#[test]
fn history_orders_returns_by_the_time_of_return() {
    let mut repo = library();
    assert_eq!(repo.create_with_id(lend(B, U1, 300), CheckoutId(1)), Ok(()));
    assert_eq!(repo.update_returned(give_back(CheckoutId(1), B, U1, 900)), Ok(()));
    assert_eq!(repo.create_with_id(lend(B, U2, 400), CheckoutId(2)), Ok(()));
    assert_eq!(repo.update_returned(give_back(CheckoutId(2), B, U2, 500)), Ok(()));
    assert_eq!(repo.create_with_id(lend(B, U2, 600), CheckoutId(3)), Ok(()));
    assert_eq!(repo.update_returned(give_back(CheckoutId(3), B, U2, 700)), Ok(()));
    assert_eq!(ids(&repo.find_history_by_book_id(B).unwrap()), vec![1, 3, 2]);
    assert!(repo.find_history_by_book_id(B2).unwrap().is_empty());
}

#[test]
fn open_loans_are_listed_oldest_first() {
    let mut db = library().into_inner();
    let mut tx = db.begin();
    tx.set_serializable();
    assert_eq!(tx.insert_book(book(BookId(0xb3), "Third", U1)), 1);
    assert_eq!(db.commit(tx), Ok(()));
    let mut repo = CheckoutRepositoryImpl::new(db);
    assert_eq!(repo.create_with_id(lend(B, U1, 300), CheckoutId(1)), Ok(()));
    assert_eq!(repo.create_with_id(lend(B2, U2, 100), CheckoutId(2)), Ok(()));
    assert_eq!(repo.create_with_id(lend(BookId(0xb3), U1, 200), CheckoutId(3)), Ok(()));
    assert_eq!(ids(&repo.find_unreturned_all().unwrap()), vec![2, 3, 1]);
    assert_eq!(ids(&repo.find_unreturned_by_user_id(U1).unwrap()), vec![3, 1]);
    assert_eq!(ids(&repo.find_unreturned_by_user_id(U2).unwrap()), vec![2]);
    assert!(repo.find_unreturned_by_user_id(UserId(0x33)).unwrap().is_empty());
}

#[test]
fn loans_of_equal_time_keep_the_order_of_their_checkout() {
    let mut repo = library();
    assert_eq!(repo.create_with_id(lend(B, U1, 100), CheckoutId(7)), Ok(()));
    assert_eq!(repo.create_with_id(lend(B2, U1, 100), CheckoutId(3)), Ok(()));
    assert_eq!(ids(&repo.find_unreturned_all().unwrap()), vec![7, 3]);
}

#[test]
fn loan_of_an_unknown_user_is_not_listed() {
    let mut repo = library();
    assert_eq!(repo.create_with_id(lend(B, UserId(0x33), 100), CheckoutId(1)), Ok(()));
    assert!(repo.find_unreturned_all().unwrap().is_empty());
    assert_eq!(
        repo.create_with_id(lend(B, U1, 101), CheckoutId(2)),
        Err(AppError::Conflict(Conflict::AlreadyCheckedOut { book_id: B }))
    );
}

#[test]
fn at_most_one_open_loan_per_book_after_many_requests() {
    let mut repo = library();
    let mut next_id: u128 = 1;
    for round in 0..20i64 {
        for (book_id, user_id) in [(B, U1), (B, U2), (B2, U2), (B2, U1)] {
            let _ = repo.create_with_id(lend(book_id, user_id, round), CheckoutId(next_id));
            next_id += 1;
        }
        let open = repo.find_unreturned_all().unwrap();
        let on_b = open.iter().filter(|c| c.book.book_id == B).count();
        let on_b2 = open.iter().filter(|c| c.book.book_id == B2).count();
        assert!(on_b <= 1 && on_b2 <= 1);
        if round % 2 == 0 {
            for checkout in open {
                assert_eq!(
                    repo.update_returned(give_back(
                        checkout.id,
                        checkout.book.book_id,
                        checkout.checked_out_by.id,
                        round + 1
                    )),
                    Ok(())
                );
            }
        }
    }
}

#[test]
fn two_concurrent_checkouts_of_one_book_commit_once() {
    let mut db = library().into_inner();
    let mut first = db.begin();
    let mut second = db.begin();
    first.set_serializable();
    second.set_serializable();
    assert_eq!(first.create_checkout(lend(B, U1, 100), CheckoutId(1)), Ok(()));
    assert_eq!(second.create_checkout(lend(B, U2, 100), CheckoutId(2)), Ok(()));
    assert_eq!(db.commit(first), Ok(()));
    assert_eq!(
        db.commit(second),
        Err(AppError::TransactionFailure(TransactionFault::SerializationFailure))
    );
    let mut repo = CheckoutRepositoryImpl::new(db);
    let open = repo.find_unreturned_all().unwrap();
    assert_eq!(ids(&open), vec![1]);
    assert_eq!(open[0].checked_out_by.id, U1);
    assert_eq!(
        repo.create_with_id(lend(B, U2, 100), CheckoutId(2)),
        Err(AppError::Conflict(Conflict::AlreadyCheckedOut { book_id: B }))
    );
}

#[test]
fn without_serializable_isolation_nothing_is_committed() {
    let mut db = library().into_inner();
    let mut tx = db.begin();
    assert_eq!(tx.create_checkout(lend(B, U1, 100), CheckoutId(1)), Ok(()));
    assert_eq!(
        db.commit(tx),
        Err(AppError::TransactionFailure(TransactionFault::NotSerializable))
    );
    assert_eq!(db.version(), 1);
    assert!(CheckoutRepositoryImpl::new(db).find_unreturned_all().unwrap().is_empty());
}

#[test]
fn a_transaction_that_is_dropped_changes_nothing() {
    let db = library().into_inner();
    {
        let mut tx = db.begin();
        tx.set_serializable();
        assert_eq!(tx.create_checkout(lend(B, U1, 100), CheckoutId(1)), Ok(()));
        assert_eq!(tx.tables().checkout_state(B).unwrap().checkout_id, Some(CheckoutId(1)));
    }
    assert_eq!(db.version(), 1);
    assert_eq!(db.checkout_state(B).unwrap().checkout_id, None);
    assert!(CheckoutRepositoryImpl::new(db).find_unreturned_all().unwrap().is_empty());
}

#[test]
fn a_transaction_that_is_rolled_back_changes_nothing() {
    let mut db = library().into_inner();
    let mut tx = db.begin();
    tx.set_serializable();
    assert_eq!(tx.create_checkout(lend(B, U1, 100), CheckoutId(1)), Ok(()));
    tx.rollback();
    assert_eq!(db.version(), 1);
    assert_eq!(db.checkout_state(B).unwrap().checkout_id, None);
    let mut tx = db.begin();
    tx.set_serializable();
    assert_eq!(tx.create_checkout(lend(B, U2, 100), CheckoutId(1)), Ok(()));
    assert_eq!(db.commit(tx), Ok(()));
    assert_eq!(db.checkout_state(B).unwrap().user_id, Some(U2));
}

#[test]
fn every_commit_counts_one_version() {
    let mut repo = library();
    assert_eq!(repo.database().version(), 1);
    assert_eq!(repo.create_with_id(lend(B, U1, 100), CheckoutId(1)), Ok(()));
    assert_eq!(repo.database().version(), 2);
    assert!(repo.create_with_id(lend(B, U2, 100), CheckoutId(2)).is_err());
    assert_eq!(repo.database().version(), 2);
    assert_eq!(repo.update_returned(give_back(CheckoutId(1), B, U1, 110)), Ok(()));
    assert_eq!(repo.database().version(), 3);
}
