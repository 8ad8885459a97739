//! The tables and the statements that read and write them.
//!
//! A statement keeps every table's key unique and reports how many rows it
//! changed. It knows nothing of the rules of lending: those belong to the
//! transactions that combine statements.
use vstd::prelude::*;
use crate::adapter::database::keys::{
    lemma_position, lemma_position_remove, position, position_from,
};
use crate::adapter::database::model::{
    BookCheckoutRow, BookRecord, BookRow, CheckoutRecord, CheckoutRow, CheckoutStateRow,
    ReturnedCheckoutRecord, UserRecord,
};
use crate::adapter::database::order::{insert_ordered, put_in_order, RowOrder};
use crate::kernel::model::book::{DeleteBook, UpdateBook};
use crate::kernel::model::id::{BookId, CheckoutId, UserId};
use crate::kernel::model::time::Timestamp;

verus! {

/// The store: users, books, open loans and returned loans, each table in the
/// order in which its rows were added, and the number of transactions
/// committed so far.
pub struct Database {
    users: Vec<UserRecord>,
    books: Vec<BookRecord>,
    checkouts: Vec<CheckoutRecord>,
    returned_checkouts: Vec<ReturnedCheckoutRecord>,
    version: u64,
}

/// What a [`Database`] holds, as mathematical sequences.
pub struct DatabaseView {
    pub users: Seq<UserRecord>,
    pub books: Seq<BookRecord>,
    pub checkouts: Seq<CheckoutRecord>,
    pub returned_checkouts: Seq<ReturnedCheckoutRecord>,
    pub version: u64,
}

/// Which open loans a listing asks for.
#[derive(Clone, Copy, Debug, PartialEq, Eq, Structural)]
pub enum LoanFilter {
    /// Every open loan.
    All,
    /// The open loans of one borrower.
    ByUser(UserId),
    /// The open loan of one book.
    ByBook(BookId),
}

impl LoanFilter {
    /// Whether the listing asks for this loan.
    pub open spec fn admits(self, loan: CheckoutRecord) -> bool {
        match self {
            LoanFilter::All => true,
            LoanFilter::ByUser(user_id) => loan.user_id == user_id,
            LoanFilter::ByBook(book_id) => loan.book_id == book_id,
        }
    }

    /// Whether the listing asks for this loan.
    pub fn accepts(&self, loan: &CheckoutRecord) -> (admitted: bool)
        ensures
            admitted == self.admits(*loan),
    {
        match self {
            LoanFilter::All => true,
            LoanFilter::ByUser(user_id) => loan.user_id == *user_id,
            LoanFilter::ByBook(book_id) => loan.book_id == *book_id,
        }
    }
}

impl DatabaseView {
    /// The key column of the users table.
    pub open spec fn user_ids(self) -> Seq<u128> {
        Seq::new(self.users.len(), |i: int| self.users[i].user_id.0)
    }

    /// The key column of the books table.
    pub open spec fn book_ids(self) -> Seq<u128> {
        Seq::new(self.books.len(), |i: int| self.books[i].book_id.0)
    }

    /// The key column of the open loans.
    pub open spec fn checkout_ids(self) -> Seq<u128> {
        Seq::new(self.checkouts.len(), |i: int| self.checkouts[i].checkout_id.0)
    }

    /// The books of the open loans, row by row.
    pub open spec fn lent_book_ids(self) -> Seq<u128> {
        Seq::new(self.checkouts.len(), |i: int| self.checkouts[i].book_id.0)
    }

    /// The key column of the returned loans.
    pub open spec fn returned_ids(self) -> Seq<u128> {
        Seq::new(self.returned_checkouts.len(), |i: int| self.returned_checkouts[i].checkout_id.0)
    }

    /// No table holds a key twice.
    pub open spec fn keys_unique(self) -> bool {
        &&& self.user_ids().no_duplicates()
        &&& self.book_ids().no_duplicates()
        &&& self.checkout_ids().no_duplicates()
        &&& self.returned_ids().no_duplicates()
    }

    /// No book has two open loans.
    pub open spec fn one_loan_per_book(self) -> bool {
        self.lent_book_ids().no_duplicates()
    }

    /// No loan is open and returned at once.
    pub open spec fn open_or_returned(self) -> bool {
        forall|i: int, j: int|
            0 <= i < self.checkouts.len() && 0 <= j < self.returned_checkouts.len()
                ==> self.checkouts[i].checkout_id != self.returned_checkouts[j].checkout_id
    }

    /// The state that every transaction starts from and leaves behind.
    pub open spec fn well_formed(self) -> bool {
        &&& self.keys_unique()
        &&& self.one_loan_per_book()
        &&& self.open_or_returned()
    }

    /// Whether the catalogue holds the book.
    pub open spec fn has_book(self, book_id: BookId) -> bool {
        position(self.book_ids(), book_id.0) is Some
    }

    /// The open loan of the book, if it is lent out.
    pub open spec fn loan_of(self, book_id: BookId) -> Option<CheckoutRecord> {
        match position(self.lent_book_ids(), book_id.0) {
            Some(i) => Some(self.checkouts[i]),
            None => None,
        }
    }

    /// Whether a loan, open or returned, has this id.
    pub open spec fn knows_checkout(self, checkout_id: CheckoutId) -> bool {
        ||| position(self.checkout_ids(), checkout_id.0) is Some
        ||| position(self.returned_ids(), checkout_id.0) is Some
    }

    /// What the store knows of the book's loan: `None` if there is no such
    /// book, else its open loan if it has one.
    pub open spec fn checkout_state(self, book_id: BookId) -> Option<CheckoutStateRow> {
        if !self.has_book(book_id) {
            None
        } else {
            Some(
                match self.loan_of(book_id) {
                    Some(loan) => CheckoutStateRow {
                        book_id,
                        checkout_id: Some(loan.checkout_id),
                        user_id: Some(loan.user_id),
                    },
                    None => CheckoutStateRow { book_id, checkout_id: None, user_id: None },
                },
            )
        }
    }

    /// A loan joined with its book and its borrower: `None` if the book or
    /// the borrower is not in the tables.
    pub open spec fn join_loan(
        self,
        checkout_id: CheckoutId,
        book_id: BookId,
        user_id: UserId,
        checked_out_at: Timestamp,
        returned_at: Option<Timestamp>,
    ) -> Option<CheckoutRow> {
        match (position(self.book_ids(), book_id.0), position(self.user_ids(), user_id.0)) {
            (Some(b), Some(u)) => Some(
                CheckoutRow {
                    checkout_id,
                    book_id,
                    user_id,
                    user_name: self.users[u].name,
                    checked_out_at,
                    returned_at,
                    title: self.books[b].title,
                    author: self.books[b].author,
                    isbn: self.books[b].isbn,
                },
            ),
            _ => None,
        }
    }

    /// An open loan joined with its book and its borrower.
    pub open spec fn join_checkout(self, loan: CheckoutRecord) -> Option<CheckoutRow> {
        self.join_loan(loan.checkout_id, loan.book_id, loan.user_id, loan.checked_out_at, None)
    }

    /// A returned loan joined with its book and its borrower.
    pub open spec fn join_returned(self, loan: ReturnedCheckoutRecord) -> Option<CheckoutRow> {
        self.join_loan(
            loan.checkout_id,
            loan.book_id,
            loan.user_id,
            loan.checked_out_at,
            Some(loan.returned_at),
        )
    }

    /// The listing of the open loans among the first `n` rows that `filter`
    /// asks for and whose book and borrower are in the tables, the oldest
    /// checkout first.
    pub open spec fn unreturned_rows(self, filter: LoanFilter, n: int) -> Seq<CheckoutRow>
        decreases n,
    {
        if n <= 0 {
            Seq::empty()
        } else {
            let rest = self.unreturned_rows(filter, n - 1);
            let loan = self.checkouts[n - 1];
            match self.join_checkout(loan) {
                Some(row) if filter.admits(loan) => insert_ordered(
                    rest,
                    row,
                    RowOrder::OldestCheckoutFirst,
                ),
                _ => rest,
            }
        }
    }

    /// The listing of the returned loans of the book among the first `n`
    /// rows of the history whose book and borrower are in the tables, the
    /// latest return first.
    pub open spec fn returned_rows(self, book_id: BookId, n: int) -> Seq<CheckoutRow>
        decreases n,
    {
        if n <= 0 {
            Seq::empty()
        } else {
            let rest = self.returned_rows(book_id, n - 1);
            let loan = self.returned_checkouts[n - 1];
            match self.join_returned(loan) {
                Some(row) if loan.book_id == book_id => insert_ordered(
                    rest,
                    row,
                    RowOrder::LatestReturnFirst,
                ),
                _ => rest,
            }
        }
    }

    /// The listing of every open loan that `filter` asks for.
    pub open spec fn unreturned(self, filter: LoanFilter) -> Seq<CheckoutRow> {
        self.unreturned_rows(filter, self.checkouts.len() as int)
    }

    /// The listing of every returned loan of the book.
    pub open spec fn returned_of(self, book_id: BookId) -> Seq<CheckoutRow> {
        self.returned_rows(book_id, self.returned_checkouts.len() as int)
    }

    /// A book joined with its owner: `None` if the owner is not in the
    /// tables.
    pub open spec fn join_book(self, book: BookRecord) -> Option<BookRow> {
        match position(self.user_ids(), book.user_id.0) {
            Some(u) => Some(
                BookRow {
                    book_id: book.book_id,
                    title: book.title,
                    author: book.author,
                    isbn: book.isbn,
                    description: book.description,
                    owned_by: book.user_id,
                    owner_name: self.users[u].name,
                },
            ),
            None => None,
        }
    }

    /// The book with this id, joined with its owner.
    pub open spec fn book(self, book_id: BookId) -> Option<BookRow> {
        match position(self.book_ids(), book_id.0) {
            Some(b) => self.join_book(self.books[b]),
            None => None,
        }
    }

    /// The open loan of the book, joined with its borrower: `None` if the
    /// book is not lent out or the borrower is not in the tables.
    pub open spec fn book_checkout(self, book_id: BookId) -> Option<BookCheckoutRow> {
        match self.loan_of(book_id) {
            Some(loan) => match position(self.user_ids(), loan.user_id.0) {
                Some(u) => Some(
                    BookCheckoutRow {
                        checkout_id: loan.checkout_id,
                        book_id: loan.book_id,
                        user_id: loan.user_id,
                        user_name: self.users[u].name,
                        checked_out_at: loan.checked_out_at,
                    },
                ),
                None => None,
            },
            None => None,
        }
    }

    /// How many books the page holds that skips the `offset` newest books
    /// and then takes at most `limit`.
    pub open spec fn page_len(self, limit: int, offset: int) -> int {
        if offset >= self.books.len() {
            0
        } else if limit <= self.books.len() - offset {
            limit
        } else {
            self.books.len() - offset
        }
    }

    /// The first `n` books of the page, the newest first, each joined with
    /// its owner; a book whose owner is not in the tables is left out.
    pub open spec fn page_rows(self, offset: int, n: int) -> Seq<BookRow>
        decreases n,
    {
        if n <= 0 {
            Seq::empty()
        } else {
            let rest = self.page_rows(offset, n - 1);
            match self.join_book(self.books[self.books.len() - offset - n]) {
                Some(row) => rest.push(row),
                None => rest,
            }
        }
    }

    /// The page that skips the `offset` newest books and then takes at most
    /// `limit`.
    pub open spec fn page(self, limit: int, offset: int) -> Seq<BookRow> {
        self.page_rows(offset, self.page_len(limit, offset))
    }

    /// The number of books that a page reports: the size of the catalogue,
    /// or 0 beside a page that selects no book.
    pub open spec fn page_total(self, limit: int, offset: int) -> int {
        if self.page_len(limit, offset) <= 0 {
            0
        } else if self.books.len() <= i64::MAX {
            self.books.len() as int
        } else {
            i64::MAX as int
        }
    }

    /// Whether the user may change or remove the book in row `i`: an
    /// administrator may, and so may the book's owner.
    pub open spec fn may_change(self, i: int, requested_user: UserId, is_admin: bool) -> bool {
        is_admin || self.books[i].user_id == requested_user
    }

    /// The book that an update leaves in place of `book`.
    pub open spec fn updated_book(book: BookRecord, event: UpdateBook) -> BookRecord {
        BookRecord {
            book_id: book.book_id,
            title: event.title,
            author: event.author,
            isbn: event.isbn,
            description: event.description,
            user_id: book.user_id,
        }
    }

    /// The tables with another book in row `i`.
    pub open spec fn with_book_at(self, i: int, book: BookRecord) -> DatabaseView {
        DatabaseView { books: self.books.update(i, book), ..self }
    }

    /// The tables without the book in row `i`.
    pub open spec fn without_book(self, i: int) -> DatabaseView {
        DatabaseView { books: self.books.remove(i), ..self }
    }

    /// The tables with one more user.
    pub open spec fn with_user(self, user: UserRecord) -> DatabaseView {
        DatabaseView { users: self.users.push(user), ..self }
    }

    /// The tables with one more book.
    pub open spec fn with_book(self, book: BookRecord) -> DatabaseView {
        DatabaseView { books: self.books.push(book), ..self }
    }

    /// The tables with one more open loan.
    pub open spec fn with_checkout(self, loan: CheckoutRecord) -> DatabaseView {
        DatabaseView { checkouts: self.checkouts.push(loan), ..self }
    }

    /// The tables with one more returned loan.
    pub open spec fn with_returned(self, loan: ReturnedCheckoutRecord) -> DatabaseView {
        DatabaseView { returned_checkouts: self.returned_checkouts.push(loan), ..self }
    }

    /// The tables without the open loan in row `i`.
    pub open spec fn without_checkout(self, i: int) -> DatabaseView {
        DatabaseView { checkouts: self.checkouts.remove(i), ..self }
    }
}

impl View for Database {
    type V = DatabaseView;

    closed spec fn view(&self) -> DatabaseView {
        DatabaseView {
            users: self.users@,
            books: self.books@,
            checkouts: self.checkouts@,
            returned_checkouts: self.returned_checkouts@,
            version: self.version,
        }
    }
}

impl Database {
    /// An empty store.
    pub fn new() -> (db: Database)
        ensures
            db@.well_formed(),
            db@.users.len() == 0,
            db@.books.len() == 0,
            db@.checkouts.len() == 0,
            db@.returned_checkouts.len() == 0,
            db@.version == 0,
    {
        Database {
            users: Vec::new(),
            books: Vec::new(),
            checkouts: Vec::new(),
            returned_checkouts: Vec::new(),
            version: 0,
        }
    }

    /// The number of transactions committed so far.
    pub fn version(&self) -> (version: u64)
        ensures
            version == self@.version,
    {
        self.version
    }

    fn find_user(&self, user_id: UserId) -> (found: Option<usize>)
        ensures
            match found {
                Some(i) => {
                    &&& i < self@.users.len()
                    &&& position(self@.user_ids(), user_id.0) == Some(i as int)
                },
                None => position(self@.user_ids(), user_id.0) is None,
            },
    {
        let ghost keys = self@.user_ids();
        let mut i: usize = 0;
        while i < self.users.len()
            invariant
                i <= self.users.len(),
                keys == self@.user_ids(),
                position(keys, user_id.0) == position_from(keys, user_id.0, i as int),
            decreases self.users.len() - i,
        {
            if self.users[i].user_id.0 == user_id.0 {
                return Some(i);
            }
            i += 1;
        }
        None
    }

    fn find_book(&self, book_id: BookId) -> (found: Option<usize>)
        ensures
            match found {
                Some(i) => {
                    &&& i < self@.books.len()
                    &&& position(self@.book_ids(), book_id.0) == Some(i as int)
                },
                None => position(self@.book_ids(), book_id.0) is None,
            },
    {
        let ghost keys = self@.book_ids();
        let mut i: usize = 0;
        while i < self.books.len()
            invariant
                i <= self.books.len(),
                keys == self@.book_ids(),
                position(keys, book_id.0) == position_from(keys, book_id.0, i as int),
            decreases self.books.len() - i,
        {
            if self.books[i].book_id.0 == book_id.0 {
                return Some(i);
            }
            i += 1;
        }
        None
    }

    fn find_checkout(&self, checkout_id: CheckoutId) -> (found: Option<usize>)
        ensures
            match found {
                Some(i) => {
                    &&& i < self@.checkouts.len()
                    &&& position(self@.checkout_ids(), checkout_id.0) == Some(i as int)
                },
                None => position(self@.checkout_ids(), checkout_id.0) is None,
            },
    {
        let ghost keys = self@.checkout_ids();
        let mut i: usize = 0;
        while i < self.checkouts.len()
            invariant
                i <= self.checkouts.len(),
                keys == self@.checkout_ids(),
                position(keys, checkout_id.0) == position_from(keys, checkout_id.0, i as int),
            decreases self.checkouts.len() - i,
        {
            if self.checkouts[i].checkout_id.0 == checkout_id.0 {
                return Some(i);
            }
            i += 1;
        }
        None
    }

    fn find_checkout_of_book(&self, book_id: BookId) -> (found: Option<usize>)
        ensures
            match found {
                Some(i) => {
                    &&& i < self@.checkouts.len()
                    &&& position(self@.lent_book_ids(), book_id.0) == Some(i as int)
                },
                None => position(self@.lent_book_ids(), book_id.0) is None,
            },
    {
        let ghost keys = self@.lent_book_ids();
        let mut i: usize = 0;
        while i < self.checkouts.len()
            invariant
                i <= self.checkouts.len(),
                keys == self@.lent_book_ids(),
                position(keys, book_id.0) == position_from(keys, book_id.0, i as int),
            decreases self.checkouts.len() - i,
        {
            if self.checkouts[i].book_id.0 == book_id.0 {
                return Some(i);
            }
            i += 1;
        }
        None
    }

    fn find_returned(&self, checkout_id: CheckoutId) -> (found: Option<usize>)
        ensures
            match found {
                Some(i) => {
                    &&& i < self@.returned_checkouts.len()
                    &&& position(self@.returned_ids(), checkout_id.0) == Some(i as int)
                },
                None => position(self@.returned_ids(), checkout_id.0) is None,
            },
    {
        let ghost keys = self@.returned_ids();
        let mut i: usize = 0;
        while i < self.returned_checkouts.len()
            invariant
                i <= self.returned_checkouts.len(),
                keys == self@.returned_ids(),
                position(keys, checkout_id.0) == position_from(keys, checkout_id.0, i as int),
            decreases self.returned_checkouts.len() - i,
        {
            if self.returned_checkouts[i].checkout_id.0 == checkout_id.0 {
                return Some(i);
            }
            i += 1;
        }
        None
    }

    /// A copy of the whole store.
    pub(crate) fn snapshot(&self) -> (copy: Database)
        ensures
            copy@ == self@,
    {
        let users = self.users.clone();
        let books = self.books.clone();
        let checkouts = self.checkouts.clone();
        let returned_checkouts = self.returned_checkouts.clone();
        assert(users@ =~= self.users@);
        assert(books@ =~= self.books@);
        assert(checkouts@ =~= self.checkouts@);
        assert(returned_checkouts@ =~= self.returned_checkouts@);
        Database { users, books, checkouts, returned_checkouts, version: self.version }
    }

    /// Replaces the tables by those of `tables` and counts one more
    /// committed transaction.
    pub(crate) fn install(&mut self, tables: Database)
        requires
            old(self)@.version < u64::MAX,
        ensures
            final(self)@ == (DatabaseView {
                version: (old(self)@.version + 1) as u64,
                ..tables@
            }),
    {
        let version = self.version + 1;
        *self = tables;
        self.version = version;
    }

    /// Reads what the store knows of the book's loan.
    pub fn checkout_state(&self, book_id: BookId) -> (state: Option<CheckoutStateRow>)
        ensures
            state == self@.checkout_state(book_id),
    {
        match self.find_book(book_id) {
            None => None,
            Some(_) => match self.find_checkout_of_book(book_id) {
                Some(i) => {
                    let loan = self.checkouts[i];
                    Some(
                        CheckoutStateRow {
                            book_id,
                            checkout_id: Some(loan.checkout_id),
                            user_id: Some(loan.user_id),
                        },
                    )
                },
                None => Some(CheckoutStateRow { book_id, checkout_id: None, user_id: None }),
            },
        }
    }

    fn join_loan(
        &self,
        checkout_id: CheckoutId,
        book_id: BookId,
        user_id: UserId,
        checked_out_at: Timestamp,
        returned_at: Option<Timestamp>,
    ) -> (joined: Option<CheckoutRow>)
        ensures
            joined == self@.join_loan(checkout_id, book_id, user_id, checked_out_at, returned_at),
    {
        let b = match self.find_book(book_id) {
            Some(b) => b,
            None => {
                return None;
            },
        };
        let u = match self.find_user(user_id) {
            Some(u) => u,
            None => {
                return None;
            },
        };
        Some(
            CheckoutRow {
                checkout_id,
                book_id,
                user_id,
                user_name: self.users[u].name.clone(),
                checked_out_at,
                returned_at,
                title: self.books[b].title.clone(),
                author: self.books[b].author.clone(),
                isbn: self.books[b].isbn.clone(),
            },
        )
    }

    /// Lists the open loans that `filter` asks for, each joined with its
    /// book and its borrower, the oldest checkout first.
    pub fn select_unreturned(&self, filter: LoanFilter) -> (rows: Vec<CheckoutRow>)
        ensures
            rows@ == self@.unreturned(filter),
    {
        let mut rows: Vec<CheckoutRow> = Vec::new();
        let mut n: usize = 0;
        while n < self.checkouts.len()
            invariant
                n <= self.checkouts.len(),
                rows@ == self@.unreturned_rows(filter, n as int),
            decreases self.checkouts.len() - n,
        {
            let loan = self.checkouts[n];
            if filter.accepts(&loan) {
                match self.join_loan(
                    loan.checkout_id,
                    loan.book_id,
                    loan.user_id,
                    loan.checked_out_at,
                    None,
                ) {
                    Some(row) => {
                        put_in_order(&mut rows, row, RowOrder::OldestCheckoutFirst);
                    },
                    None => {},
                }
            }
            n += 1;
        }
        rows
    }

    /// Lists the returned loans of the book, each joined with its book and
    /// its borrower, the latest return first.
    pub fn select_returned_by_book(&self, book_id: BookId) -> (rows: Vec<CheckoutRow>)
        ensures
            rows@ == self@.returned_of(book_id),
    {
        let mut rows: Vec<CheckoutRow> = Vec::new();
        let mut n: usize = 0;
        while n < self.returned_checkouts.len()
            invariant
                n <= self.returned_checkouts.len(),
                rows@ == self@.returned_rows(book_id, n as int),
            decreases self.returned_checkouts.len() - n,
        {
            let loan = self.returned_checkouts[n];
            if loan.book_id == book_id {
                match self.join_loan(
                    loan.checkout_id,
                    loan.book_id,
                    loan.user_id,
                    loan.checked_out_at,
                    Some(loan.returned_at),
                ) {
                    Some(row) => {
                        put_in_order(&mut rows, row, RowOrder::LatestReturnFirst);
                    },
                    None => {},
                }
            }
            n += 1;
        }
        rows
    }

    /// Adds a user, unless the id is taken. Returns the number of rows
    /// added.
    pub(crate) fn insert_user(&mut self, user: UserRecord) -> (rows: u64)
        requires
            old(self)@.well_formed(),
        ensures
            final(self)@.well_formed(),
            position(old(self)@.user_ids(), user.user_id.0) is Some ==> rows == 0 && final(self)@
                == old(self)@,
            position(old(self)@.user_ids(), user.user_id.0) is None ==> rows == 1 && final(self)@
                == old(self)@.with_user(user),
    {
        match self.find_user(user.user_id) {
            Some(_) => 0,
            None => {
                proof {
                    lemma_position(self@.user_ids(), user.user_id.0);
                    assert(self@.with_user(user).user_ids() =~= self@.user_ids().push(
                        user.user_id.0,
                    ));
                    assert(self@.with_user(user).book_ids() =~= self@.book_ids());
                    assert(self@.with_user(user).checkout_ids() =~= self@.checkout_ids());
                    assert(self@.with_user(user).returned_ids() =~= self@.returned_ids());
                    assert(self@.with_user(user).lent_book_ids() =~= self@.lent_book_ids());
                }
                self.users.push(user);
                1
            },
        }
    }

    /// Adds a book, unless the id is taken. Returns the number of rows
    /// added.
    pub(crate) fn insert_book(&mut self, book: BookRecord) -> (rows: u64)
        requires
            old(self)@.well_formed(),
        ensures
            final(self)@.well_formed(),
            old(self)@.has_book(book.book_id) ==> rows == 0 && final(self)@ == old(self)@,
            !old(self)@.has_book(book.book_id) ==> rows == 1 && final(self)@
                == old(self)@.with_book(book),
    {
        match self.find_book(book.book_id) {
            Some(_) => 0,
            None => {
                proof {
                    lemma_position(self@.book_ids(), book.book_id.0);
                    assert(self@.with_book(book).book_ids() =~= self@.book_ids().push(
                        book.book_id.0,
                    ));
                    assert(self@.with_book(book).user_ids() =~= self@.user_ids());
                    assert(self@.with_book(book).checkout_ids() =~= self@.checkout_ids());
                    assert(self@.with_book(book).returned_ids() =~= self@.returned_ids());
                    assert(self@.with_book(book).lent_book_ids() =~= self@.lent_book_ids());
                }
                self.books.push(book);
                1
            },
        }
    }

    /// Replaces title, author, ISBN and description of the book, if there
    /// is such a book and the user may change it. Returns the number of
    /// rows changed.
    pub(crate) fn update_book(&mut self, event: UpdateBook) -> (rows: u64)
        requires
            old(self)@.well_formed(),
        ensures
            final(self)@.well_formed(),
            match position(old(self)@.book_ids(), event.book_id.0) {
                Some(i) if old(self)@.may_change(i, event.requested_user, event.is_admin) => {
                    &&& rows == 1
                    &&& final(self)@ == old(self)@.with_book_at(
                        i,
                        DatabaseView::updated_book(old(self)@.books[i], event),
                    )
                },
                _ => rows == 0 && final(self)@ == old(self)@,
            },
    {
        match self.find_book(event.book_id) {
            None => 0,
            Some(i) => {
                if !(event.is_admin || self.books[i].user_id == event.requested_user) {
                    return 0;
                }
                let book = BookRecord {
                    book_id: self.books[i].book_id,
                    title: event.title,
                    author: event.author,
                    isbn: event.isbn,
                    description: event.description,
                    user_id: self.books[i].user_id,
                };
                proof {
                    let after = self@.with_book_at(i as int, book);
                    assert(after.book_ids() =~= self@.book_ids());
                    assert(after.user_ids() =~= self@.user_ids());
                    assert(after.checkout_ids() =~= self@.checkout_ids());
                    assert(after.returned_ids() =~= self@.returned_ids());
                    assert(after.lent_book_ids() =~= self@.lent_book_ids());
                }
                self.books.set(i, book);
                1
            },
        }
    }

    /// Removes the book, if there is such a book and the user may remove
    /// it. Returns the number of rows removed. The loans of the book stay on
    /// record.
    pub(crate) fn delete_book(&mut self, event: DeleteBook) -> (rows: u64)
        requires
            old(self)@.well_formed(),
        ensures
            final(self)@.well_formed(),
            match position(old(self)@.book_ids(), event.book_id.0) {
                Some(i) if old(self)@.may_change(i, event.requested_user, event.is_admin) => {
                    &&& rows == 1
                    &&& final(self)@ == old(self)@.without_book(i)
                },
                _ => rows == 0 && final(self)@ == old(self)@,
            },
    {
        match self.find_book(event.book_id) {
            None => 0,
            Some(i) => {
                if !(event.is_admin || self.books[i].user_id == event.requested_user) {
                    return 0;
                }
                proof {
                    let after = self@.without_book(i as int);
                    lemma_position(self@.book_ids(), event.book_id.0);
                    lemma_position_remove(self@.book_ids(), i as int, event.book_id.0);
                    assert(after.book_ids() =~= self@.book_ids().remove(i as int));
                    assert(after.user_ids() =~= self@.user_ids());
                    assert(after.checkout_ids() =~= self@.checkout_ids());
                    assert(after.returned_ids() =~= self@.returned_ids());
                    assert(after.lent_book_ids() =~= self@.lent_book_ids());
                }
                self.books.remove(i);
                1
            },
        }
    }

    fn join_book(&self, i: usize) -> (joined: Option<BookRow>)
        requires
            i < self@.books.len(),
        ensures
            joined == self@.join_book(self@.books[i as int]),
    {
        let book = &self.books[i];
        match self.find_user(book.user_id) {
            None => None,
            Some(u) => Some(
                BookRow {
                    book_id: book.book_id,
                    title: book.title.clone(),
                    author: book.author.clone(),
                    isbn: book.isbn.clone(),
                    description: book.description.clone(),
                    owned_by: book.user_id,
                    owner_name: self.users[u].name.clone(),
                },
            ),
        }
    }

    /// Reads the book with this id, joined with its owner.
    pub fn select_book(&self, book_id: BookId) -> (row: Option<BookRow>)
        ensures
            row == self@.book(book_id),
    {
        match self.find_book(book_id) {
            None => None,
            Some(b) => self.join_book(b),
        }
    }

    /// Reads the open loan of the book, joined with its borrower.
    pub fn select_book_checkout(&self, book_id: BookId) -> (row: Option<BookCheckoutRow>)
        ensures
            row == self@.book_checkout(book_id),
    {
        match self.find_checkout_of_book(book_id) {
            None => None,
            Some(i) => {
                let loan = self.checkouts[i];
                match self.find_user(loan.user_id) {
                    None => None,
                    Some(u) => Some(
                        BookCheckoutRow {
                            checkout_id: loan.checkout_id,
                            book_id: loan.book_id,
                            user_id: loan.user_id,
                            user_name: self.users[u].name.clone(),
                            checked_out_at: loan.checked_out_at,
                        },
                    ),
                }
            },
        }
    }

    /// Reads one page of the catalogue, the newest book first: skips
    /// `offset` books and takes at most `limit`. Returns the number of books
    /// to report beside the page, and the page; `None` if the limit or the
    /// offset is negative.
    pub fn select_book_page(&self, limit: i64, offset: i64) -> (page: Option<(i64, Vec<BookRow>)>)
        ensures
            page is None <==> limit < 0 || offset < 0,
            page matches Some(found) ==> {
                &&& found.0 == self@.page_total(limit as int, offset as int)
                &&& found.1@ == self@.page(limit as int, offset as int)
            },
    {
        if limit < 0 || offset < 0 {
            return None;
        }
        let len = self.books.len();
        let mut rows: Vec<BookRow> = Vec::new();
        if offset as u64 >= len as u64 {
            return Some((0, rows));
        }
        let skipped = offset as usize;
        let wanted: usize = if (limit as u64) <= (len - skipped) as u64 {
            limit as usize
        } else {
            len - skipped
        };
        let mut n: usize = 0;
        while n < wanted
            invariant
                n <= wanted,
                len == self@.books.len(),
                skipped + wanted <= len,
                skipped == offset,
                rows@ == self@.page_rows(offset as int, n as int),
            decreases wanted - n,
        {
            n += 1;
            match self.join_book(len - skipped - n) {
                Some(row) => {
                    rows.push(row);
                },
                None => {},
            }
        }
        let total: i64 = if wanted == 0 {
            0
        } else if len as u64 <= i64::MAX as u64 {
            len as i64
        } else {
            i64::MAX
        };
        Some((total, rows))
    }

    /// Adds an open loan, unless a loan, open or returned, has its id.
    /// Returns the number of rows added.
    pub(crate) fn insert_checkout(&mut self, loan: CheckoutRecord) -> (rows: u64)
        requires
            old(self)@.keys_unique(),
        ensures
            final(self)@.keys_unique(),
            old(self)@.knows_checkout(loan.checkout_id) ==> rows == 0 && final(self)@
                == old(self)@,
            !old(self)@.knows_checkout(loan.checkout_id) ==> rows == 1 && final(self)@
                == old(self)@.with_checkout(loan),
    {
        if self.find_checkout(loan.checkout_id).is_some() {
            return 0;
        }
        if self.find_returned(loan.checkout_id).is_some() {
            return 0;
        }
        proof {
            lemma_position(self@.checkout_ids(), loan.checkout_id.0);
            assert(self@.with_checkout(loan).checkout_ids() =~= self@.checkout_ids().push(
                loan.checkout_id.0,
            ));
            assert(self@.with_checkout(loan).user_ids() =~= self@.user_ids());
            assert(self@.with_checkout(loan).book_ids() =~= self@.book_ids());
            assert(self@.with_checkout(loan).returned_ids() =~= self@.returned_ids());
        }
        self.checkouts.push(loan);
        1
    }

    /// Copies the open loan with this id into the history of returned loans,
    /// closed at `returned_at`, unless there is no such open loan or the
    /// history holds the id already. Returns the number of rows added.
    pub(crate) fn insert_returned_from_checkout(
        &mut self,
        checkout_id: CheckoutId,
        returned_at: Timestamp,
    ) -> (rows: u64)
        requires
            old(self)@.keys_unique(),
        ensures
            final(self)@.keys_unique(),
            match position(old(self)@.checkout_ids(), checkout_id.0) {
                Some(i) if position(old(self)@.returned_ids(), checkout_id.0) is None => {
                    &&& rows == 1
                    &&& final(self)@ == old(self)@.with_returned(
                        old(self)@.checkouts[i].returned(returned_at),
                    )
                },
                _ => rows == 0 && final(self)@ == old(self)@,
            },
    {
        match self.find_checkout(checkout_id) {
            None => 0,
            Some(i) => {
                if self.find_returned(checkout_id).is_some() {
                    return 0;
                }
                let loan = self.checkouts[i];
                let closed = ReturnedCheckoutRecord {
                    checkout_id: loan.checkout_id,
                    book_id: loan.book_id,
                    user_id: loan.user_id,
                    checked_out_at: loan.checked_out_at,
                    returned_at,
                };
                proof {
                    lemma_position(self@.checkout_ids(), checkout_id.0);
                    lemma_position(self@.returned_ids(), checkout_id.0);
                    assert(self@.with_returned(closed).returned_ids() =~= self@.returned_ids().push(
                        checkout_id.0,
                    ));
                    assert(self@.with_returned(closed).user_ids() =~= self@.user_ids());
                    assert(self@.with_returned(closed).book_ids() =~= self@.book_ids());
                    assert(self@.with_returned(closed).checkout_ids() =~= self@.checkout_ids());
                }
                self.returned_checkouts.push(closed);
                1
            },
        }
    }

    /// Removes the open loan with this id, if there is one. Returns the
    /// number of rows removed.
    pub(crate) fn delete_checkout(&mut self, checkout_id: CheckoutId) -> (rows: u64)
        requires
            old(self)@.keys_unique(),
        ensures
            final(self)@.keys_unique(),
            match position(old(self)@.checkout_ids(), checkout_id.0) {
                Some(i) => rows == 1 && final(self)@ == old(self)@.without_checkout(i),
                None => rows == 0 && final(self)@ == old(self)@,
            },
    {
        match self.find_checkout(checkout_id) {
            None => 0,
            Some(i) => {
                proof {
                    let before = self@.checkout_ids();
                    let after = self@.without_checkout(i as int);
                    lemma_position(before, checkout_id.0);
                    assert(after.checkout_ids() =~= before.remove(i as int));
                    assert(after.user_ids() =~= self@.user_ids());
                    assert(after.book_ids() =~= self@.book_ids());
                    assert(after.returned_ids() =~= self@.returned_ids());
                }
                self.checkouts.remove(i);
                1
            },
        }
    }
}

} // verus!
