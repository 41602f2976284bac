//! The schema held in memory: a stand-in for the database that runs the
//! library's statements exactly as the model says.

use crate::models::book::Book;
use crate::error::DriverError;
use crate::reply::{reply_view, ExecOutcome};
use crate::schema::Tables;
use crate::statement::{Command, Query};
use crate::table::{Key, Table};
use crate::models::user::User;
use crate::models::user_book::UserBook;
use crate::value::Value;
use vstd::prelude::*;

verus! {

/// The three tables in memory.
pub struct Store {
    users: Table<User>,
    books: Table<Book>,
    user_books: Table<UserBook>,
    next_user_id: i64,
    next_book_id: i64,
}

impl View for Store {
    type V = Tables;

    closed spec fn view(&self) -> Tables {
        Tables {
            users: Map::new(
                |id: i64| self.users.entries().contains_key((id, 0i64)),
                |id: i64| self.users.entries()[(id, 0i64)]@,
            ),
            books: Map::new(
                |id: i64| self.books.entries().contains_key((id, 0i64)),
                |id: i64| self.books.entries()[(id, 0i64)]@,
            ),
            user_books: self.user_books.entries(),
            next_user_id: self.next_user_id,
            next_book_id: self.next_book_id,
        }
    }
}

impl Store {
    /// The store is in order: its tables are, and its rows are what the
    /// schema guarantees.
    pub closed spec fn wf(&self) -> bool {
        &&& self.users.wf()
        &&& self.books.wf()
        &&& self.user_books.wf()
        &&& self@.wf()
    }

    /// A store in order holds what the schema guarantees.
    pub proof fn wf_tables(&self)
        requires
            self.wf(),
        ensures
            self@.wf(),
    {
    }

    /// A store without rows.
    pub fn new() -> (s: Store)
        ensures
            s.wf(),
            s@ == Tables::empty(),
    {
        let s = Store {
            users: Table::new(),
            books: Table::new(),
            user_books: Table::new(),
            next_user_id: 1,
            next_book_id: 1,
        };
        assert(s@.users =~= Map::<i64, crate::models::user::UserView>::empty());
        assert(s@.books =~= Map::<i64, crate::models::book::BookView>::empty());
        s
    }

    /// Runs a command and answers as the database would.
    pub fn execute(&mut self, c: &Command) -> (reply: Result<ExecOutcome, DriverError>)
        requires
            old(self).wf(),
        ensures
            final(self).wf(),
            (final(self)@, reply) == old(self)@.execute(c@),
    {
        let ghost before = self@;
        let reply = match c {
            Command::InsertUser(u) => {
                let id = self.next_user_id;
                if id == i64::MAX {
                    Err(DriverError::Other)
                } else {
                    let mut row = u.clone();
                    row.id = id;
                    assert(!before.users.contains_key(id));
                    self.users.insert((id, 0), row);
                    self.next_user_id = id + 1;
                    Ok(ExecOutcome { rows_affected: 1, last_insert_id: id as u64 })
                }
            },
            Command::UpdateUser(u) => {
                let found = self.users.replace((u.id, 0), u.clone());
                Ok(ExecOutcome { rows_affected: if found { 1 } else { 0 }, last_insert_id: 0 })
            },
            Command::DeleteUser(id) => {
                let found = self.users.remove((*id, 0));
                if found {
                    self.user_books.remove_where(*id, true);
                }
                Ok(ExecOutcome { rows_affected: if found { 1 } else { 0 }, last_insert_id: 0 })
            },
            Command::InsertBook(b) => {
                let id = self.next_book_id;
                if id == i64::MAX {
                    Err(DriverError::Other)
                } else {
                    let mut row = b.clone();
                    row.id = id;
                    assert(!before.books.contains_key(id));
                    self.books.insert((id, 0), row);
                    self.next_book_id = id + 1;
                    Ok(ExecOutcome { rows_affected: 1, last_insert_id: id as u64 })
                }
            },
            Command::UpdateBook(b) => {
                let found = self.books.replace((b.id, 0), b.clone());
                Ok(ExecOutcome { rows_affected: if found { 1 } else { 0 }, last_insert_id: 0 })
            },
            Command::DeleteBook(id) => {
                let found = self.books.remove((*id, 0));
                if found {
                    self.user_books.remove_where(*id, false);
                }
                Ok(ExecOutcome { rows_affected: if found { 1 } else { 0 }, last_insert_id: 0 })
            },
            Command::InsertUserBook(ub) => {
                let k: Key = (ub.user_id, ub.book_id);
                if !self.users.contains((ub.user_id, 0)) || !self.books.contains((ub.book_id, 0)) {
                    Err(DriverError::ForeignKeyViolation)
                } else if self.user_books.contains(k) {
                    Err(DriverError::UniqueViolation)
                } else {
                    self.user_books.insert(k, *ub);
                    Ok(ExecOutcome { rows_affected: 1, last_insert_id: 0 })
                }
            },
            Command::UpdateUserBook(ub) => {
                let found = self.user_books.replace((ub.user_id, ub.book_id), *ub);
                Ok(ExecOutcome { rows_affected: if found { 1 } else { 0 }, last_insert_id: 0 })
            },
            Command::DeleteUserBook { user_id, book_id } => {
                let found = self.user_books.remove((*user_id, *book_id));
                Ok(ExecOutcome { rows_affected: if found { 1 } else { 0 }, last_insert_id: 0 })
            },
        };
        proof {
            let after = before.execute(c@).0;
            assert(self@.users =~= after.users);
            assert(self@.books =~= after.books);
            assert(self@.user_books =~= after.user_books);
            assert(self@ == after);
        }
        reply
    }

    /// Runs a query and answers as the database would: the one row, or
    /// `RowNotFound`.
    pub fn fetch_one(&self, q: &Query) -> (reply: Result<Vec<Value>, DriverError>)
        requires
            self.wf(),
        ensures
            reply_view(reply) == self@.fetch_one(*q),
    {
        match q {
            Query::SelectUser(id) => match self.users.get((*id, 0)) {
                Some(u) => Ok(u.to_row()),
                None => Err(DriverError::RowNotFound),
            },
            Query::SelectBook(id) => match self.books.get((*id, 0)) {
                Some(b) => Ok(b.to_row()),
                None => Err(DriverError::RowNotFound),
            },
            Query::SelectUserBook { book_id, user_id } => match self.user_books.get(
                (*user_id, *book_id),
            ) {
                Some(ub) => Ok(ub.to_row()),
                None => Err(DriverError::RowNotFound),
            },
        }
    }
}

} // verus!
