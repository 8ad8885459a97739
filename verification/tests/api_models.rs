use book_manager::api::handler::book::{
    delete_book, register_book, show_book, show_book_list, update_book,
};
use book_manager::api::handler::checkout::{
    checkout_book, checkout_book_at, checkout_history, return_book, return_book_at,
    show_checked_out_list,
};
use book_manager::api::handler::health::{health_check, health_check_db};
use book_manager::api::handler::user::{get_checkouts, get_current_user, require_admin};
use book_manager::api::handler::StatusCode;
use book_manager::api::model::auth::{AccessTokenResponse, LoginRequest};
use book_manager::api::model::book::{
    default_limit, BookCheckoutResponse, BookListQuery, BookResponse, CreateBookRequest,
    PaginatedBookResponse, UpdateBookRequest, UpdateBookRequestWithIds, DEFAULT_LIMIT,
};
use book_manager::api::model::checkout::{CheckoutBookResponse, CheckoutResponse, CheckoutsResponse};
use book_manager::api::model::user::{
    BookOwner, CreateUserRequest, RoleName, UpdateUserPasswordRequest,
    UpdateUserPasswordRequestWithUserId, UpdateUserRoleReqeust, UpdateUserRoleRequestWithUserId,
    UserReponse, UsersResponse,
};
use book_manager::adapter::database::model::UserRecord;
use book_manager::adapter::database::store::Database;
use book_manager::adapter::repository::book::BookRepositoryImpl;
use book_manager::adapter::repository::checkout::CheckoutRepositoryImpl;
use book_manager::error::{AppError, Conflict, InvalidField};
use book_manager::kernel::model::book::{Book, BookListOptions, CreateBook, UpdateBook};
use book_manager::kernel::model::checkout::{Checkout, CheckoutBook};
use book_manager::kernel::model::id::{BookId, CheckoutId, UserId};
use book_manager::kernel::model::list::PaginatedList;
use book_manager::kernel::model::role::Role;
use book_manager::kernel::model::time::Timestamp;
use book_manager::kernel::model::user::{
    CheckoutUser, CreateUser, UpdateUserPassword, UpdateUserRole, User,
};

fn s(text: &str) -> String {
    text.to_string()
}

fn book_request(title: &str, author: &str, isbn: &str) -> CreateBookRequest {
    CreateBookRequest { title: s(title), author: s(author), isbn: s(isbn), description: s("") }
}

#[test]
fn default_limit_is_twenty() {
    assert_eq!(default_limit(), 20);
    assert_eq!(DEFAULT_LIMIT, 20);
    assert_eq!(BookListQuery::with_defaults(None, None), BookListQuery { limit: 20, offset: 0 });
    assert_eq!(
        BookListQuery::with_defaults(Some(5), None),
        BookListQuery { limit: 5, offset: 0 }
    );
    assert_eq!(
        BookListQuery::with_defaults(None, Some(7)),
        BookListQuery { limit: 20, offset: 7 }
    );
    assert_eq!(
        BookListOptions::from(BookListQuery { limit: 3, offset: 4 }),
        BookListOptions { limit: 3, offset: 4 }
    );
}

#[test]
fn a_window_must_not_be_negative() {
    assert_eq!(BookListQuery { limit: 0, offset: 0 }.validate(), Ok(()));
    assert_eq!(
        BookListQuery { limit: -1, offset: 0 }.validate(),
        Err(AppError::ValidationError(InvalidField::Limit))
    );
    assert_eq!(
        BookListQuery { limit: 0, offset: -1 }.validate(),
        Err(AppError::ValidationError(InvalidField::Offset))
    );
}

#[test]
fn a_book_request_needs_title_author_and_isbn() {
    assert_eq!(book_request("T", "A", "I").validate(), Ok(()));
    assert_eq!(
        book_request("", "", "").validate(),
        Err(AppError::ValidationError(InvalidField::Title))
    );
    assert_eq!(
        book_request("T", "", "").validate(),
        Err(AppError::ValidationError(InvalidField::Author))
    );
    assert_eq!(
        book_request("T", "A", "").validate(),
        Err(AppError::ValidationError(InvalidField::Isbn))
    );
    let update =
        UpdateBookRequest { title: s("T"), author: s(""), isbn: s("I"), description: s("D") };
    assert_eq!(update.validate(), Err(AppError::ValidationError(InvalidField::Author)));
}

#[test]
fn book_requests_become_events() {
    let request =
        CreateBookRequest { title: s("T"), author: s("A"), isbn: s("I"), description: s("D") };
    assert_eq!(
        CreateBook::from(request),
        CreateBook { title: s("T"), author: s("A"), isbn: s("I"), description: s("D") }
    );
    let update =
        UpdateBookRequest { title: s("T"), author: s("A"), isbn: s("I"), description: s("D") };
    assert_eq!(
        UpdateBook::from(UpdateBookRequestWithIds::new(BookId(1), UserId(2), true, update)),
        UpdateBook {
            book_id: BookId(1),
            title: s("T"),
            author: s("A"),
            isbn: s("I"),
            description: s("D"),
            requested_user: UserId(2),
            is_admin: true,
        }
    );
}

#[test]
fn roles_and_their_names_stand_for_each_other() {
    assert_eq!(RoleName::from(Role::Admin), RoleName::Admin);
    assert_eq!(RoleName::from(Role::User), RoleName::User);
    assert_eq!(Role::from(RoleName::Admin), Role::Admin);
    assert_eq!(Role::from(RoleName::User), Role::User);
}

#[test]
fn user_requests_become_events() {
    let user = User { id: UserId(1), name: s("N"), email: s("e@x.org"), role: Role::Admin };
    assert_eq!(
        UserReponse::from(user),
        UserReponse { id: UserId(1), name: s("N"), email: s("e@x.org"), role: RoleName::Admin }
    );
    let listing = UsersResponse { items: vec![] };
    assert!(listing.items.is_empty());
    let password = UpdateUserPasswordRequest { current_password: s("old"), new_password: s("new") };
    assert_eq!(
        UpdateUserPassword::from(UpdateUserPasswordRequestWithUserId::new(UserId(3), password)),
        UpdateUserPassword { user_id: UserId(3), current_password: s("old"), new_password: s("new") }
    );
    let create = CreateUserRequest { name: s("N"), email: s("e@x.org"), password: s("p") };
    assert_eq!(
        CreateUser::from(create),
        CreateUser { name: s("N"), email: s("e@x.org"), password: s("p") }
    );
    let role = UpdateUserRoleReqeust { role: RoleName::User };
    assert_eq!(
        UpdateUserRole::from(UpdateUserRoleRequestWithUserId::new(UserId(4), role)),
        UpdateUserRole { user_id: UserId(4), role: Role::User }
    );
    let owner = book_manager::kernel::model::user::BookOwner { id: UserId(5), name: s("O") };
    assert_eq!(BookOwner::from(owner), BookOwner { id: UserId(5), name: s("O") });
    let login = LoginRequest { email: s("e@x.org"), password: s("p") };
    assert_eq!(login.email, "e@x.org");
    let token = AccessTokenResponse { user_id: UserId(1), access_token: s("t") };
    assert_eq!(token.access_token, "t");
}

#[test]
fn a_password_request_needs_both_passwords() {
    let request = |current: &str, new: &str| UpdateUserPasswordRequest {
        current_password: s(current),
        new_password: s(new),
    };
    assert_eq!(request("a", "b").validate(), Ok(()));
    assert_eq!(
        request("", "").validate(),
        Err(AppError::ValidationError(InvalidField::CurrentPassword))
    );
    assert_eq!(
        request("a", "").validate(),
        Err(AppError::ValidationError(InvalidField::NewPassword))
    );
}

#[test]
fn a_registration_needs_a_name_a_well_formed_email_and_a_password() {
    let request = |name: &str, email: &str, password: &str| CreateUserRequest {
        name: s(name),
        email: s(email),
        password: s(password),
    };
    assert_eq!(request("N", "test@example.com", "p").validate(), Ok(()));
    assert_eq!(request("N", "email@[127.0.0.1]", "p").validate(), Ok(()));
    assert_eq!(
        request("", "not an email", "").validate(),
        Err(AppError::ValidationError(InvalidField::Name))
    );
    for email in ["", "no-at-sign", "a@b@c", "user@", "@example.com", "user name@example.com"] {
        assert_eq!(
            request("N", email, "p").validate(),
            Err(AppError::ValidationError(InvalidField::Email))
        );
    }
    assert_eq!(
        request("N", "test@example.com", "").validate(),
        Err(AppError::ValidationError(InvalidField::Password))
    );
    assert_eq!(request("N", "whatever", "p").validate_with(true), Ok(()));
    assert_eq!(
        request("N", "test@example.com", "p").validate_with(false),
        Err(AppError::ValidationError(InvalidField::Email))
    );
}

fn checkout(id: u128, returned_at: Option<i64>) -> Checkout {
    Checkout {
        id: CheckoutId(id),
        checked_out_by: CheckoutUser { id: UserId(1), name: s("Ann") },
        checked_out_at: Timestamp(10),
        returned_at: returned_at.map(Timestamp),
        book: CheckoutBook { book_id: BookId(2), title: s("T"), author: s("A"), isbn: s("I") },
    }
}

#[test]
fn loans_become_responses_in_order() {
    let response = CheckoutsResponse::from(vec![checkout(1, None), checkout(2, Some(20))]);
    assert_eq!(response.items.len(), 2);
    assert_eq!(
        response.items[0],
        CheckoutResponse {
            id: CheckoutId(1),
            checked_out_by: book_manager::api::model::user::CheckoutUser {
                id: UserId(1),
                name: s("Ann")
            },
            checked_out_at: Timestamp(10),
            returned_at: None,
            book: CheckoutBookResponse { id: BookId(2), title: s("T"), author: s("A"), isbn: s("I") },
        }
    );
    assert_eq!(response.items[1].id, CheckoutId(2));
    assert_eq!(response.items[1].returned_at, Some(Timestamp(20)));
    assert_eq!(CheckoutResponse::from(checkout(1, None)), CheckoutResponse::of(&checkout(1, None)));
    assert!(CheckoutsResponse::from(vec![]).items.is_empty());
    assert_eq!(
        CheckoutBookResponse::from(CheckoutBook {
            book_id: BookId(2),
            title: s("T"),
            author: s("A"),
            isbn: s("I")
        }),
        CheckoutBookResponse { id: BookId(2), title: s("T"), author: s("A"), isbn: s("I") }
    );
}

fn a_book(id: u128, lent: bool) -> Book {
    Book {
        id: BookId(id),
        title: s("T"),
        author: s("A"),
        isbn: s("I"),
        description: s("D"),
        owner: book_manager::kernel::model::user::BookOwner { id: UserId(1), name: s("Ann") },
        checkout: if lent {
            Some(book_manager::kernel::model::book::Checkout {
                checkout_id: CheckoutId(9),
                checked_out_by: CheckoutUser { id: UserId(2), name: s("Bob") },
                checked_out_at: Timestamp(10),
            })
        } else {
            None
        },
    }
}

#[test]
fn books_become_responses_in_order() {
    let response = BookResponse::from(a_book(1, true));
    assert_eq!(response.id, BookId(1));
    assert_eq!(response.owner, BookOwner { id: UserId(1), name: s("Ann") });
    assert_eq!(
        response.checkout,
        Some(BookCheckoutResponse {
            id: CheckoutId(9),
            checked_out_by: book_manager::api::model::user::CheckoutUser {
                id: UserId(2),
                name: s("Bob")
            },
            checked_out_at: Timestamp(10),
        })
    );
    assert_eq!(BookResponse::from(a_book(2, false)).checkout, None);
    let page = PaginatedList {
        items: vec![a_book(3, false), a_book(1, true), a_book(2, false)],
        total: 9,
        limit: 3,
        offset: 6,
    };
    let response = PaginatedBookResponse::from(page);
    assert_eq!((response.total, response.limit, response.offset), (9, 3, 6));
    let ids: Vec<u128> = response.items.iter().map(|b| b.id.0).collect();
    assert_eq!(ids, vec![3, 1, 2]);
    assert!(response.items[1].checkout.is_some());
}

#[test]
fn only_an_administrator_is_let_through() {
    assert_eq!(require_admin(true), Ok(()));
    assert_eq!(require_admin(false), Err(AppError::ForbiddenOperation));
}

#[test]
fn status_codes_have_their_numbers() {
    assert_eq!(StatusCode::Done.as_u16(), 200);
    assert_eq!(StatusCode::Created.as_u16(), 201);
    assert_eq!(StatusCode::NoContent.as_u16(), 204);
    assert_eq!(StatusCode::InternalServerError.as_u16(), 500);
    assert_eq!(health_check(), StatusCode::Done);
    assert_eq!(health_check_db(true), StatusCode::Done);
    assert_eq!(health_check_db(false), StatusCode::InternalServerError);
}

#[test]
fn the_current_user_is_shown_as_a_response() {
    let user = User { id: UserId(1), name: s("N"), email: s("e@x.org"), role: Role::User };
    assert_eq!(
        get_current_user(user),
        UserReponse { id: UserId(1), name: s("N"), email: s("e@x.org"), role: RoleName::User }
    );
}

fn store() -> Database {
    let mut db = Database::new();
    let mut tx = db.begin();
    tx.set_serializable();
    tx.insert_user(UserRecord { user_id: UserId(1), name: s("Ann") });
    tx.insert_user(UserRecord { user_id: UserId(2), name: s("Bob") });
    assert_eq!(db.commit(tx), Ok(()));
    db
}

#[test]
fn the_handlers_of_books_answer_as_the_repository_does() {
    let mut books = BookRepositoryImpl::new(store());
    let request =
        CreateBookRequest { title: s("T"), author: s("A"), isbn: s("I"), description: s("D") };
    assert_eq!(register_book(&mut books, UserId(1), request), Ok(StatusCode::Created));
    let page = show_book_list(&books, BookListQuery { limit: 20, offset: 0 }).unwrap();
    assert_eq!(page.total, 1);
    assert_eq!(page.items[0].title, "T");
    assert_eq!(page.items[0].owner, BookOwner { id: UserId(1), name: s("Ann") });
    let id = page.items[0].id;
    assert_eq!(
        show_book_list(&books, BookListQuery { limit: -1, offset: 0 }).unwrap_err(),
        AppError::ValidationError(InvalidField::Limit)
    );
    assert_eq!(show_book(&books, id).unwrap().title, "T");
    assert_eq!(show_book(&books, BookId(0)), Err(AppError::EntityNotFound(BookId(0))));
    let update = |title: &str| UpdateBookRequest {
        title: s(title),
        author: s("A2"),
        isbn: s("I2"),
        description: s("D2"),
    };
    assert_eq!(
        update_book(&mut books, UserId(1), false, id, update("")),
        Err(AppError::ValidationError(InvalidField::Title))
    );
    assert_eq!(
        update_book(&mut books, UserId(2), false, id, update("T2")),
        Err(AppError::EntityNotFound(id))
    );
    assert_eq!(update_book(&mut books, UserId(1), false, id, update("T2")), Ok(StatusCode::NoContent));
    assert_eq!(show_book(&books, id).unwrap().title, "T2");
    assert_eq!(delete_book(&mut books, UserId(2), false, id), Err(AppError::EntityNotFound(id)));
    assert_eq!(delete_book(&mut books, UserId(2), true, id), Ok(StatusCode::NoContent));
    assert_eq!(show_book(&books, id), Err(AppError::EntityNotFound(id)));
}

#[test]
fn the_handlers_of_loans_answer_as_the_repository_does() {
    let mut books = BookRepositoryImpl::new(store());
    assert_eq!(
        books.create_with_id(
            CreateBook { title: s("T"), author: s("A"), isbn: s("I"), description: s("D") },
            UserId(1),
            BookId(7)
        ),
        Ok(())
    );
    let mut loans = CheckoutRepositoryImpl::new(books.into_inner());
    assert_eq!(
        checkout_book_at(&mut loans, UserId(2), BookId(8), Timestamp(1)),
        Err(AppError::EntityNotFound(BookId(8)))
    );
    assert_eq!(
        checkout_book_at(&mut loans, UserId(2), BookId(7), Timestamp(1)),
        Ok(StatusCode::Created)
    );
    assert_eq!(
        checkout_book_at(&mut loans, UserId(1), BookId(7), Timestamp(2)),
        Err(AppError::Conflict(Conflict::AlreadyCheckedOut { book_id: BookId(7) }))
    );
    let open = show_checked_out_list(&loans).unwrap();
    assert_eq!(open.items.len(), 1);
    let checkout_id = open.items[0].id;
    assert_eq!(open.items[0].checked_out_by.name, "Bob");
    assert_eq!(open.items[0].checked_out_at, Timestamp(1));
    assert_eq!(get_checkouts(&loans, UserId(2)).unwrap().items.len(), 1);
    assert!(get_checkouts(&loans, UserId(1)).unwrap().items.is_empty());
    assert_eq!(
        return_book_at(&mut loans, UserId(1), BookId(7), checkout_id, Timestamp(3)),
        Err(AppError::Conflict(Conflict::ReturnDoesNotMatch {
            checkout_id,
            returned_by: UserId(1),
            book_id: BookId(7)
        }))
    );
    assert_eq!(
        return_book_at(&mut loans, UserId(2), BookId(7), checkout_id, Timestamp(3)),
        Ok(StatusCode::Created)
    );
    assert!(show_checked_out_list(&loans).unwrap().items.is_empty());
    let history = checkout_history(&loans, BookId(7)).unwrap();
    assert_eq!(history.items.len(), 1);
    assert_eq!(history.items[0].returned_at, Some(Timestamp(3)));
    assert_eq!(
        checkout_book_at(&mut loans, UserId(1), BookId(7), Timestamp(4)),
        Ok(StatusCode::Created)
    );
    let history = checkout_history(&loans, BookId(7)).unwrap();
    assert_eq!(history.items.len(), 2);
    assert_eq!(history.items[0].returned_at, None);
    assert_eq!(history.items[0].checked_out_by.name, "Ann");
}

#[test]
fn the_handlers_of_loans_read_the_clock() {
    let mut books = BookRepositoryImpl::new(store());
    assert_eq!(
        books.create_with_id(
            CreateBook { title: s("T"), author: s("A"), isbn: s("I"), description: s("D") },
            UserId(1),
            BookId(7)
        ),
        Ok(())
    );
    let mut loans = CheckoutRepositoryImpl::new(books.into_inner());
    let before = Timestamp::now();
    assert!(before.0 > 1_600_000_000_000_000);
    assert_eq!(checkout_book(&mut loans, UserId(2), BookId(7)), Ok(StatusCode::Created));
    assert_eq!(
        checkout_book(&mut loans, UserId(1), BookId(7)),
        Err(AppError::Conflict(Conflict::AlreadyCheckedOut { book_id: BookId(7) }))
    );
    let open = show_checked_out_list(&loans).unwrap();
    let lent_at = open.items[0].checked_out_at;
    assert!(lent_at.0 > 1_600_000_000_000_000);
    assert_eq!(
        return_book(&mut loans, UserId(2), BookId(7), open.items[0].id),
        Ok(StatusCode::Created)
    );
    let history = checkout_history(&loans, BookId(7)).unwrap();
    let returned_at = history.items[0].returned_at.unwrap();
    assert!(returned_at.0 > 1_600_000_000_000_000);
}
