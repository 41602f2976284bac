//! The association record: what one user has on one book.

use crate::models::book::{book_fetched, Book};
use crate::error::{persistence_error, DriverError, Field, PersistenceError, ValidationError};
use crate::reply::{acknowledged, count_rows, reply_view, rows_affected, ExecOutcome};
use crate::statement::{Command, CommandView, Query};
pub use crate::status::ReadingStatus;
use crate::status::{status_of, token_of, tokens_distinct};
use crate::timestamp::{utc_now, Timestamp};
use crate::models::user::{user_fetched, User};
use crate::value::{
    opt_int_in, opt_int_value, opt_time_in, opt_time_value, row_view, text_in, time_in, Value,
    ValueView,
};
use vstd::prelude::*;

verus! {

/// The reading state of one user on one book. The pair `(user_id, book_id)`
/// is the key: the database stores at most one row for it.
#[derive(Debug, Clone, Copy, PartialEq, Eq, Structural)]
pub struct UserBook {
    pub user_id: i64,
    pub book_id: i64,
    pub status: ReadingStatus,
    pub rating: Option<u8>,
    pub added_at: Timestamp,
    pub began_reading: Option<Timestamp>,
    pub done_reading: Option<Timestamp>,
    pub current_page: Option<u32>,
}

/// An optional small number as an optional integer.
pub open spec fn opt_u8_int(n: Option<u8>) -> Option<int> {
    match n {
        Some(n) => Some(n as int),
        None => None,
    }
}

/// An optional 32-bit number as an optional integer.
pub open spec fn opt_u32_int(n: Option<u32>) -> Option<int> {
    match n {
        Some(n) => Some(n as int),
        None => None,
    }
}

/// The row of an association, in the order of the columns `user_id, book_id,
/// status, rating, added_at, began_reading, done_reading, current_page`.
pub open spec fn user_book_row(ub: UserBook) -> Seq<ValueView> {
    seq![
        ValueView::Int(ub.user_id),
        ValueView::Int(ub.book_id),
        ValueView::Text(token_of(ub.status)),
        opt_int_value(opt_u8_int(ub.rating)),
        ValueView::Time(ub.added_at),
        opt_time_value(ub.began_reading),
        opt_time_value(ub.done_reading),
        opt_int_value(opt_u32_int(ub.current_page)),
    ]
}

/// Whether a row has the columns of an association, whatever its status
/// column says.
pub open spec fn user_book_shaped(row: Seq<ValueView>) -> bool {
    &&& row.len() == 8
    &&& row[0] is Int
    &&& row[1] is Int
    &&& text_in(row[2]) is Some
    &&& opt_int_in(row[3], 0, u8::MAX as int) is Some
    &&& time_in(row[4]) is Some
    &&& opt_time_in(row[5]) is Some
    &&& opt_time_in(row[6]) is Some
    &&& opt_int_in(row[7], 0, u32::MAX as int) is Some
}

/// The association that a row holds. A row without an association's columns
/// is `Malformed`; one with them whose status is none of the three tokens is
/// `CorruptStatus`.
pub open spec fn user_book_of_row(row: Seq<ValueView>) -> Result<UserBook, PersistenceError> {
    if !user_book_shaped(row) {
        Err(PersistenceError::Malformed)
    } else {
        match status_of(text_in(row[2])->0) {
            None => Err(PersistenceError::CorruptStatus),
            Some(status) => Ok(
                UserBook {
                    user_id: row[0]->Int_0,
                    book_id: row[1]->Int_0,
                    status,
                    rating: match opt_int_in(row[3], 0, u8::MAX as int)->0 {
                        Some(n) => Some(n as u8),
                        None => None,
                    },
                    added_at: time_in(row[4])->0,
                    began_reading: opt_time_in(row[5])->0,
                    done_reading: opt_time_in(row[6])->0,
                    current_page: match opt_int_in(row[7], 0, u32::MAX as int)->0 {
                        Some(n) => Some(n as u32),
                        None => None,
                    },
                },
            ),
        }
    }
}

/// What a row fetched for an association means: the association in it, the
/// decoding failure, or the driver's failure where the fetch failed.
pub open spec fn user_book_fetched(reply: Result<Seq<ValueView>, DriverError>) -> Result<
    UserBook,
    PersistenceError,
> {
    match reply {
        Ok(row) => user_book_of_row(row),
        Err(e) => Err(persistence_error(e)),
    }
}

/// Reading an association's row gives the association back.
pub proof fn user_book_row_round_trip(ub: UserBook)
    ensures
        user_book_of_row(user_book_row(ub)) == Ok::<UserBook, PersistenceError>(ub),
{
    tokens_distinct();
    let row = user_book_row(ub);
    assert(user_book_shaped(row));
    assert(status_of(text_in(row[2])->0) == Some(ub.status));
}

/// A column for an optional small number.
pub fn value_of_opt_u8(n: Option<u8>) -> (v: Value)
    ensures
        v@ == opt_int_value(opt_u8_int(n)),
{
    match n {
        Some(n) => Value::Int(n as i64),
        None => Value::Null,
    }
}

/// A column for an optional 32-bit number.
pub fn value_of_opt_u32(n: Option<u32>) -> (v: Value)
    ensures
        v@ == opt_int_value(opt_u32_int(n)),
{
    match n {
        Some(n) => Value::Int(n as i64),
        None => Value::Null,
    }
}

impl UserBook {
    /// The row of this association as the database stores it.
    pub fn to_row(&self) -> (row: Vec<Value>)
        ensures
            row.len() == 8,
            row_view(row@) == user_book_row(*self),
    {
        let mut row: Vec<Value> = Vec::new();
        row.push(Value::Int(self.user_id));
        row.push(Value::Int(self.book_id));
        row.push(Value::Text(self.status.encode().to_owned()));
        row.push(value_of_opt_u8(self.rating));
        row.push(Value::Time(self.added_at));
        row.push(Value::from_opt_time(self.began_reading));
        row.push(Value::from_opt_time(self.done_reading));
        row.push(value_of_opt_u32(self.current_page));
        assert(row_view(row@) =~= user_book_row(*self));
        row
    }

    /// Reads an association from a row with the columns `user_id, book_id,
    /// status, rating, added_at, began_reading, done_reading, current_page`.
    /// A status outside the three tokens is never replaced by a default: the
    /// row is refused as `CorruptStatus`.
    pub fn from_row(row: &Vec<Value>) -> (r: Result<UserBook, PersistenceError>)
        ensures
            r == user_book_of_row(row_view(row@)),
    {
        if row.len() != 8 {
            return Err(PersistenceError::Malformed);
        }
        let user_id = row[0].as_i64();
        let book_id = row[1].as_i64();
        let token = row[2].as_text();
        let rating = row[3].as_opt_u8();
        let added_at = row[4].as_time();
        let began_reading = row[5].as_opt_time();
        let done_reading = row[6].as_opt_time();
        let current_page = row[7].as_opt_u32();
        match (user_id, book_id, token, rating) {
            (Some(user_id), Some(book_id), Some(token), Some(rating)) => match (
                added_at,
                began_reading,
                done_reading,
                current_page,
            ) {
                (Some(added_at), Some(began_reading), Some(done_reading), Some(current_page)) => {
                    match ReadingStatus::decode(token.as_str()) {
                        Some(status) => Ok(
                            UserBook {
                                user_id,
                                book_id,
                                status,
                                rating,
                                added_at,
                                began_reading,
                                done_reading,
                                current_page,
                            },
                        ),
                        None => Err(PersistenceError::CorruptStatus),
                    }
                },
                _ => Err(PersistenceError::Malformed),
            },
            _ => Err(PersistenceError::Malformed),
        }
    }

    /// The statement that stores this association as a new row under its own
    /// key.
    pub fn create_statement(&self) -> (c: Command)
        ensures
            c@ == CommandView::InsertUserBook(*self),
    {
        Command::InsertUserBook(*self)
    }

    /// Takes the database's answer to `create_statement`. The key is the
    /// caller's, so nothing is written back into the record. A key that is
    /// stored already, or a user or book that is not, comes back as
    /// `ConstraintViolation`.
    pub fn create(&mut self, reply: Result<ExecOutcome, DriverError>) -> (r: Result<
        (),
        PersistenceError,
    >)
        ensures
            r == acknowledged(reply),
            *final(self) == *old(self),
    {
        match reply {
            Ok(_) => Ok(()),
            Err(e) => Err(PersistenceError::from_driver(e)),
        }
    }

    /// The statement that overwrites every column, key included, of the row
    /// with this association's key.
    pub fn update_statement(&self) -> (c: Command)
        ensures
            c@ == CommandView::UpdateUserBook(*self),
    {
        Command::UpdateUserBook(*self)
    }

    /// Takes the database's answer to `update_statement`: the number of rows
    /// that the statement matched. None is no error. The record stays as it
    /// is.
    pub fn update(&mut self, reply: Result<ExecOutcome, DriverError>) -> (r: Result<
        u64,
        PersistenceError,
    >)
        ensures
            r == rows_affected(reply),
            *final(self) == *old(self),
    {
        count_rows(reply)
    }

    /// The query for the row with this association's key.
    pub fn fetch_statement(&self) -> (q: Query)
        ensures
            q == (Query::SelectUserBook { book_id: self.book_id, user_id: self.user_id }),
    {
        Query::SelectUserBook { book_id: self.book_id, user_id: self.user_id }
    }

    /// Takes the database's answer to `fetch_statement`: a fresh record of
    /// the stored row. This record is not touched.
    pub fn fetch(&self, reply: Result<Vec<Value>, DriverError>) -> (r: Result<
        UserBook,
        PersistenceError,
    >)
        ensures
            r == user_book_fetched(reply_view(reply)),
    {
        UserBook::get(reply)
    }

    /// The query for the row of the given book and user.
    pub fn get_statement(book_id: i64, user_id: i64) -> (q: Query)
        ensures
            q == (Query::SelectUserBook { book_id, user_id }),
    {
        Query::SelectUserBook { book_id, user_id }
    }

    /// Takes the database's answer to `get_statement`: the stored
    /// association, `NotFound` where no row has the key.
    pub fn get(reply: Result<Vec<Value>, DriverError>) -> (r: Result<UserBook, PersistenceError>)
        ensures
            r == user_book_fetched(reply_view(reply)),
    {
        match reply {
            Ok(row) => UserBook::from_row(&row),
            Err(e) => Err(PersistenceError::from_driver(e)),
        }
    }

    /// The statement that removes the row with this association's key.
    pub fn delete_statement(&self) -> (c: Command)
        ensures
            c@ == (CommandView::DeleteUserBook { user_id: self.user_id, book_id: self.book_id }),
    {
        Command::DeleteUserBook { user_id: self.user_id, book_id: self.book_id }
    }

    /// Takes the database's answer to `delete_statement`: the number of rows
    /// removed. None means that the row was gone already, which is no error.
    /// The record itself stays as it is.
    pub fn delete(&self, reply: Result<ExecOutcome, DriverError>) -> (r: Result<
        u64,
        PersistenceError,
    >)
        ensures
            r == rows_affected(reply),
    {
        count_rows(reply)
    }

    /// The query for the user that this association names.
    pub fn get_user_statement(&self) -> (q: Query)
        ensures
            q == Query::SelectUser(self.user_id),
    {
        Query::SelectUser(self.user_id)
    }

    /// Takes the database's answer to `get_user_statement`: the user, or
    /// `NotFound` where the association names a user that is not stored.
    pub fn get_user(&self, reply: Result<Vec<Value>, DriverError>) -> (r: Result<
        User,
        PersistenceError,
    >)
        ensures
            match user_fetched(reply_view(reply)) {
                Ok(u) => r is Ok && r->Ok_0@ == u,
                Err(e) => r == Err::<User, PersistenceError>(e),
            },
    {
        User::get(reply)
    }

    /// The query for the book that this association names.
    pub fn get_book_statement(&self) -> (q: Query)
        ensures
            q == Query::SelectBook(self.book_id),
    {
        Query::SelectBook(self.book_id)
    }

    /// Takes the database's answer to `get_book_statement`: the book, or
    /// `NotFound` where the association names a book that is not stored.
    pub fn get_book(&self, reply: Result<Vec<Value>, DriverError>) -> (r: Result<
        Book,
        PersistenceError,
    >)
        ensures
            match book_fetched(reply_view(reply)) {
                Ok(b) => r is Ok && r->Ok_0@ == b,
                Err(e) => r == Err::<Book, PersistenceError>(e),
            },
    {
        Book::get(reply)
    }
}

/// An association under construction. `user_id` and `book_id` must be given.
/// Unless given, the status is to-read, the time of adding is the time of
/// building, and everything else is absent.
#[derive(Debug, Clone, Copy, PartialEq, Eq, Structural)]
pub struct UserBookBuilder {
    pub user_id: Option<i64>,
    pub book_id: Option<i64>,
    pub status: Option<ReadingStatus>,
    pub rating: Option<Option<u8>>,
    pub added_at: Option<Timestamp>,
    pub began_reading: Option<Option<Timestamp>>,
    pub done_reading: Option<Option<Timestamp>>,
    pub current_page: Option<Option<u32>>,
}

impl Default for UserBookBuilder {
    fn default() -> (b: UserBookBuilder)
        ensures
            b == (UserBookBuilder {
                user_id: None,
                book_id: None,
                status: None,
                rating: None,
                added_at: None,
                began_reading: None,
                done_reading: None,
                current_page: None,
            }),
    {
        UserBookBuilder {
            user_id: None,
            book_id: None,
            status: None,
            rating: None,
            added_at: None,
            began_reading: None,
            done_reading: None,
            current_page: None,
        }
    }
}

impl UserBookBuilder {
    /// What building at the instant `now` makes of this builder: the
    /// association, or the first required field that is missing.
    pub open spec fn built_at(self, now: Timestamp) -> Result<UserBook, ValidationError> {
        if self.user_id is None {
            Err(ValidationError { field: Field::UserId })
        } else if self.book_id is None {
            Err(ValidationError { field: Field::BookId })
        } else {
            Ok(
                UserBook {
                    user_id: self.user_id->0,
                    book_id: self.book_id->0,
                    status: match self.status {
                        Some(status) => status,
                        None => ReadingStatus::ToRead,
                    },
                    rating: match self.rating {
                        Some(rating) => rating,
                        None => None,
                    },
                    added_at: match self.added_at {
                        Some(at) => at,
                        None => now,
                    },
                    began_reading: match self.began_reading {
                        Some(at) => at,
                        None => None,
                    },
                    done_reading: match self.done_reading {
                        Some(at) => at,
                        None => None,
                    },
                    current_page: match self.current_page {
                        Some(page) => page,
                        None => None,
                    },
                },
            )
        }
    }

    /// Gives the builder its `user_id`.
    pub fn user_id(self, value: i64) -> (b: UserBookBuilder)
        ensures
            b == (UserBookBuilder { user_id: Some(value), ..self }),
    {
        UserBookBuilder { user_id: Some(value), ..self }
    }

    /// Gives the builder its `book_id`.
    pub fn book_id(self, value: i64) -> (b: UserBookBuilder)
        ensures
            b == (UserBookBuilder { book_id: Some(value), ..self }),
    {
        UserBookBuilder { book_id: Some(value), ..self }
    }

    /// Gives the builder its `status`.
    pub fn status(self, value: ReadingStatus) -> (b: UserBookBuilder)
        ensures
            b == (UserBookBuilder { status: Some(value), ..self }),
    {
        UserBookBuilder { status: Some(value), ..self }
    }

    /// Gives the builder its `rating`.
    pub fn rating(self, value: Option<u8>) -> (b: UserBookBuilder)
        ensures
            b == (UserBookBuilder { rating: Some(value), ..self }),
    {
        UserBookBuilder { rating: Some(value), ..self }
    }

    /// Gives the builder its `added_at`.
    pub fn added_at(self, value: Timestamp) -> (b: UserBookBuilder)
        ensures
            b == (UserBookBuilder { added_at: Some(value), ..self }),
    {
        UserBookBuilder { added_at: Some(value), ..self }
    }

    /// Gives the builder its `began_reading`.
    pub fn began_reading(self, value: Option<Timestamp>) -> (b: UserBookBuilder)
        ensures
            b == (UserBookBuilder { began_reading: Some(value), ..self }),
    {
        UserBookBuilder { began_reading: Some(value), ..self }
    }

    /// Gives the builder its `done_reading`.
    pub fn done_reading(self, value: Option<Timestamp>) -> (b: UserBookBuilder)
        ensures
            b == (UserBookBuilder { done_reading: Some(value), ..self }),
    {
        UserBookBuilder { done_reading: Some(value), ..self }
    }

    /// Gives the builder its `current_page`.
    pub fn current_page(self, value: Option<u32>) -> (b: UserBookBuilder)
        ensures
            b == (UserBookBuilder { current_page: Some(value), ..self }),
    {
        UserBookBuilder { current_page: Some(value), ..self }
    }

    /// Makes the association as it would be made at the instant `now`, or
    /// names the first required field that was not given. `now` is used only
    /// where no time of adding was given.
    pub fn build_at(self, now: Timestamp) -> (r: Result<UserBook, ValidationError>)
        ensures
            r == self.built_at(now),
    {
        match (self.user_id, self.book_id) {
            (None, _) => Err(ValidationError { field: Field::UserId }),
            (Some(_), None) => Err(ValidationError { field: Field::BookId }),
            (Some(user_id), Some(book_id)) => Ok(
                UserBook {
                    user_id,
                    book_id,
                    status: match self.status {
                        Some(status) => status,
                        None => ReadingStatus::ToRead,
                    },
                    rating: match self.rating {
                        Some(rating) => rating,
                        None => None,
                    },
                    added_at: match self.added_at {
                        Some(at) => at,
                        None => now,
                    },
                    began_reading: match self.began_reading {
                        Some(at) => at,
                        None => None,
                    },
                    done_reading: match self.done_reading {
                        Some(at) => at,
                        None => None,
                    },
                    current_page: match self.current_page {
                        Some(page) => page,
                        None => None,
                    },
                },
            ),
        }
    }

    /// Makes the association, or names the first required field that was not
    /// given. Where no time of adding was given, the clock is read for it, so
    /// the result is that of `build_at` at some instant.
    pub fn build(self) -> (r: Result<UserBook, ValidationError>)
        ensures
            exists|now: Timestamp| r == self.built_at(now),
            self.added_at is Some ==> r == self.built_at(self.added_at->0),
    {
        let now = utc_now();
        self.build_at(now)
    }
}

} // verus!
