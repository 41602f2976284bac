//! The persisted schema as a mathematical model: three tables, their keys,
//! and what each statement does to them.
//!
//! `users(id PK auto, ..)`, `books(id PK auto, ..)` and
//! `user_books(user_id FK, book_id FK, .., PRIMARY KEY (user_id, book_id))`,
//! where a foreign key is checked when a row is inserted and removing a user
//! or a book removes the associations that name it.

use crate::models::book::{book_row, BookView};
use crate::error::DriverError;
use crate::reply::ExecOutcome;
use crate::statement::{CommandView, Query};
use crate::table::{key_has, Key};
use crate::models::user::{user_row, UserView};
use crate::models::user_book::{user_book_row, UserBook};
use crate::value::ValueView;
use vstd::prelude::*;

verus! {

/// The stored rows, and the ids that the next inserted user and book get.
pub struct Tables {
    pub users: Map<i64, UserView>,
    pub books: Map<i64, BookView>,
    pub user_books: Map<Key, UserBook>,
    pub next_user_id: i64,
    pub next_book_id: i64,
}

/// The answer to a statement that matched `rows` rows and inserted none
/// under an assigned id.
pub open spec fn matched(rows: u64) -> Result<ExecOutcome, DriverError> {
    Ok(ExecOutcome { rows_affected: rows, last_insert_id: 0 })
}

/// The answer to an insert under the assigned id `id`.
pub open spec fn inserted(id: i64) -> Result<ExecOutcome, DriverError> {
    Ok(ExecOutcome { rows_affected: 1, last_insert_id: id as u64 })
}

impl Tables {
    /// The schema right after migration: no rows, ids start at 1.
    pub open spec fn empty() -> Tables {
        Tables {
            users: Map::empty(),
            books: Map::empty(),
            user_books: Map::empty(),
            next_user_id: 1,
            next_book_id: 1,
        }
    }

    /// What the schema guarantees of its rows: every row is stored under its
    /// own key, assigned ids are positive and below the next one, and every
    /// association names a stored user and a stored book.
    pub open spec fn wf(self) -> bool {
        &&& 1 <= self.next_user_id
        &&& 1 <= self.next_book_id
        &&& forall|id: i64| #[trigger]
            self.users.contains_key(id) ==> 1 <= id < self.next_user_id && self.users[id].id
                == id
        &&& forall|id: i64| #[trigger]
            self.books.contains_key(id) ==> 1 <= id < self.next_book_id && self.books[id].id
                == id
        &&& forall|k: Key| #[trigger]
            self.user_books.contains_key(k) ==> self.user_books[k].user_id == k.0
                && self.user_books[k].book_id == k.1 && self.users.contains_key(k.0)
                && self.books.contains_key(k.1)
    }

    /// The tables after a command, and the database's answer to it.
    pub open spec fn execute(self, c: CommandView) -> (Tables, Result<ExecOutcome, DriverError>) {
        match c {
            CommandView::InsertUser(u) => {
                let id = self.next_user_id;
                if id == i64::MAX {
                    (self, Err(DriverError::Other))
                } else {
                    (
                        Tables {
                            users: self.users.insert(id, UserView { id, ..u }),
                            next_user_id: (id + 1) as i64,
                            ..self
                        },
                        inserted(id),
                    )
                }
            },
            CommandView::UpdateUser(u) => {
                if self.users.contains_key(u.id) {
                    (Tables { users: self.users.insert(u.id, u), ..self }, matched(1))
                } else {
                    (self, matched(0))
                }
            },
            CommandView::DeleteUser(id) => {
                if self.users.contains_key(id) {
                    (
                        Tables {
                            users: self.users.remove(id),
                            user_books: self.user_books.remove_keys(
                                Set::new(|k: Key| key_has(k, id, true)),
                            ),
                            ..self
                        },
                        matched(1),
                    )
                } else {
                    (self, matched(0))
                }
            },
            CommandView::InsertBook(b) => {
                let id = self.next_book_id;
                if id == i64::MAX {
                    (self, Err(DriverError::Other))
                } else {
                    (
                        Tables {
                            books: self.books.insert(id, BookView { id, ..b }),
                            next_book_id: (id + 1) as i64,
                            ..self
                        },
                        inserted(id),
                    )
                }
            },
            CommandView::UpdateBook(b) => {
                if self.books.contains_key(b.id) {
                    (Tables { books: self.books.insert(b.id, b), ..self }, matched(1))
                } else {
                    (self, matched(0))
                }
            },
            CommandView::DeleteBook(id) => {
                if self.books.contains_key(id) {
                    (
                        Tables {
                            books: self.books.remove(id),
                            user_books: self.user_books.remove_keys(
                                Set::new(|k: Key| key_has(k, id, false)),
                            ),
                            ..self
                        },
                        matched(1),
                    )
                } else {
                    (self, matched(0))
                }
            },
            CommandView::InsertUserBook(ub) => {
                let k = (ub.user_id, ub.book_id);
                if !self.users.contains_key(ub.user_id) || !self.books.contains_key(ub.book_id) {
                    (self, Err(DriverError::ForeignKeyViolation))
                } else if self.user_books.contains_key(k) {
                    (self, Err(DriverError::UniqueViolation))
                } else {
                    (Tables { user_books: self.user_books.insert(k, ub), ..self }, matched(1))
                }
            },
            CommandView::UpdateUserBook(ub) => {
                let k = (ub.user_id, ub.book_id);
                if self.user_books.contains_key(k) {
                    (Tables { user_books: self.user_books.insert(k, ub), ..self }, matched(1))
                } else {
                    (self, matched(0))
                }
            },
            CommandView::DeleteUserBook { user_id, book_id } => {
                let k = (user_id, book_id);
                if self.user_books.contains_key(k) {
                    (Tables { user_books: self.user_books.remove(k), ..self }, matched(1))
                } else {
                    (self, matched(0))
                }
            },
        }
    }

    /// The database's answer to a query: the one row with the key, or
    /// `RowNotFound`.
    pub open spec fn fetch_one(self, q: Query) -> Result<Seq<ValueView>, DriverError> {
        match q {
            Query::SelectUser(id) => if self.users.contains_key(id) {
                Ok(user_row(self.users[id]))
            } else {
                Err(DriverError::RowNotFound)
            },
            Query::SelectBook(id) => if self.books.contains_key(id) {
                Ok(book_row(self.books[id]))
            } else {
                Err(DriverError::RowNotFound)
            },
            Query::SelectUserBook { book_id, user_id } => if self.user_books.contains_key(
                (user_id, book_id),
            ) {
                Ok(user_book_row(self.user_books[(user_id, book_id)]))
            } else {
                Err(DriverError::RowNotFound)
            },
        }
    }
}

/// No command breaks what the schema guarantees.
pub proof fn execute_keeps_wf(t: Tables, c: CommandView)
    requires
        t.wf(),
    ensures
        t.execute(c).0.wf(),
{
}

} // verus!
