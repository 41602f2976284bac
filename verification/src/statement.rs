//! The statements that the library asks the database to run.

use crate::models::book::{book_row, Book, BookView};
use crate::models::user::{user_row, User, UserView};
use crate::models::user_book::{user_book_row, UserBook};
use crate::value::{row_view, Value, ValueView};
use vstd::prelude::*;

verus! {

/// A statement that changes stored rows and returns none.
#[derive(Debug, PartialEq, Eq)]
pub enum Command {
    /// Store a new user; the database assigns the id.
    InsertUser(User),
    /// Overwrite every column of the user with the record's id.
    UpdateUser(User),
    /// Remove the user with the id.
    DeleteUser(i64),
    /// Store a new book; the database assigns the id.
    InsertBook(Book),
    /// Overwrite every column of the book with the record's id.
    UpdateBook(Book),
    /// Remove the book with the id.
    DeleteBook(i64),
    /// Store a new association under the record's own key.
    InsertUserBook(UserBook),
    /// Overwrite every column of the association with the record's key.
    UpdateUserBook(UserBook),
    /// Remove the association with the key.
    DeleteUserBook { user_id: i64, book_id: i64 },
}

/// A `Command` with its records by their views.
pub enum CommandView {
    InsertUser(UserView),
    UpdateUser(UserView),
    DeleteUser(i64),
    InsertBook(BookView),
    UpdateBook(BookView),
    DeleteBook(i64),
    InsertUserBook(UserBook),
    UpdateUserBook(UserBook),
    DeleteUserBook { user_id: i64, book_id: i64 },
}

impl View for Command {
    type V = CommandView;

    open spec fn view(&self) -> CommandView {
        match self {
            Command::InsertUser(u) => CommandView::InsertUser(u@),
            Command::UpdateUser(u) => CommandView::UpdateUser(u@),
            Command::DeleteUser(id) => CommandView::DeleteUser(*id),
            Command::InsertBook(b) => CommandView::InsertBook(b@),
            Command::UpdateBook(b) => CommandView::UpdateBook(b@),
            Command::DeleteBook(id) => CommandView::DeleteBook(*id),
            Command::InsertUserBook(ub) => CommandView::InsertUserBook(*ub),
            Command::UpdateUserBook(ub) => CommandView::UpdateUserBook(*ub),
            Command::DeleteUserBook { user_id, book_id } => CommandView::DeleteUserBook {
                user_id: *user_id,
                book_id: *book_id,
            },
        }
    }
}

/// A statement that returns exactly one row, or fails with `RowNotFound`.
#[derive(Debug, Clone, Copy, PartialEq, Eq, Structural)]
pub enum Query {
    /// The user with the id.
    SelectUser(i64),
    /// The book with the id.
    SelectBook(i64),
    /// The association of the book and the user.
    SelectUserBook { book_id: i64, user_id: i64 },
}

/// What a column of a fetched row holds, where it is not `NULL`.
#[derive(Debug, Clone, Copy, PartialEq, Eq, Structural)]
pub enum Column {
    /// An integer.
    Int,
    /// A text.
    Text,
    /// A date and time.
    Time,
}

/// The columns of the row that a query returns, in their order.
pub open spec fn query_columns(q: Query) -> Seq<Column> {
    match q {
        Query::SelectUser(_) => seq![Column::Int, Column::Text, Column::Text, Column::Text],
        Query::SelectBook(_) => seq![
            Column::Int,
            Column::Text,
            Column::Text,
            Column::Text,
            Column::Int,
            Column::Text,
            Column::Text,
            Column::Int,
        ],
        Query::SelectUserBook { .. } => seq![
            Column::Int,
            Column::Int,
            Column::Text,
            Column::Int,
            Column::Time,
            Column::Time,
            Column::Time,
            Column::Int,
        ],
    }
}

/// Whether a value fits a column: `NULL` fits every column.
pub open spec fn fits(v: ValueView, column: Column) -> bool {
    match v {
        ValueView::Null => true,
        ValueView::Int(_) => column == Column::Int,
        ValueView::Text(_) => column == Column::Text,
        ValueView::Time(_) => column == Column::Time,
    }
}

/// Whether a row has the columns of a query, each `NULL` or of the column's
/// kind.
pub open spec fn row_fits(row: Seq<ValueView>, q: Query) -> bool {
    &&& row.len() == query_columns(q).len()
    &&& forall|i: int| 0 <= i < row.len() ==> fits(#[trigger] row[i], query_columns(q)[i])
}

/// The text of a command, with a `?` for each parameter.
pub open spec fn command_sql(c: CommandView) -> Seq<char> {
    match c {
        CommandView::InsertUser(_) => "INSERT INTO users (name, email, password) VALUES (?, ?, ?)"@,
        CommandView::UpdateUser(_) => "UPDATE users SET name = ?, email = ?, password = ? WHERE id = ?"@,
        CommandView::DeleteUser(_) => "DELETE FROM users WHERE id = ?"@,
        CommandView::InsertBook(_) => "INSERT INTO books (title, author, isbn, published_year, description, cover_url, pages) VALUES (?, ?, ?, ?, ?, ?, ?)"@,
        CommandView::UpdateBook(_) => "UPDATE books SET title = ?, author = ?, isbn = ?, published_year = ?, description = ?, cover_url = ?, pages = ? WHERE id = ?"@,
        CommandView::DeleteBook(_) => "DELETE FROM books WHERE id = ?"@,
        CommandView::InsertUserBook(_) => "INSERT INTO user_books (user_id, book_id, status, rating, added_at, began_reading, done_reading, current_page) VALUES (?, ?, ?, ?, ?, ?, ?, ?)"@,
        CommandView::UpdateUserBook(_) => "UPDATE user_books SET user_id = ?, book_id = ?, status = ?, rating = ?, added_at = ?, began_reading = ?, done_reading = ?, current_page = ? WHERE user_id = ? AND book_id = ?"@,
        CommandView::DeleteUserBook { .. } => "DELETE FROM user_books WHERE user_id = ? AND book_id = ?"@,
    }
}

/// The parameters of a command, in the order of its `?`. An insert binds
/// every column but a key that the database assigns; an update binds every
/// column that it sets and then the key that it looks for; a delete binds
/// the key.
pub open spec fn command_params(c: CommandView) -> Seq<ValueView> {
    match c {
        CommandView::InsertUser(u) => user_row(u).skip(1),
        CommandView::UpdateUser(u) => user_row(u).skip(1).push(ValueView::Int(u.id)),
        CommandView::DeleteUser(id) => seq![ValueView::Int(id)],
        CommandView::InsertBook(b) => book_row(b).skip(1),
        CommandView::UpdateBook(b) => book_row(b).skip(1).push(ValueView::Int(b.id)),
        CommandView::DeleteBook(id) => seq![ValueView::Int(id)],
        CommandView::InsertUserBook(ub) => user_book_row(ub),
        CommandView::UpdateUserBook(ub) => user_book_row(ub).push(ValueView::Int(ub.user_id)).push(
            ValueView::Int(ub.book_id),
        ),
        CommandView::DeleteUserBook { user_id, book_id } => seq![
            ValueView::Int(user_id),
            ValueView::Int(book_id),
        ],
    }
}

/// The text of a query, with a `?` for each parameter.
pub open spec fn query_sql(q: Query) -> Seq<char> {
    match q {
        Query::SelectUser(_) => "SELECT id, name, email, password FROM users WHERE id = ?"@,
        Query::SelectBook(_) => "SELECT id, title, author, isbn, published_year, description, cover_url, pages FROM books WHERE id = ?"@,
        Query::SelectUserBook { .. } => "SELECT user_id, book_id, status, rating, added_at, began_reading, done_reading, current_page FROM user_books WHERE book_id = ? AND user_id = ?"@,
    }
}

/// The parameters of a query, in the order of its `?`.
pub open spec fn query_params(q: Query) -> Seq<ValueView> {
    match q {
        Query::SelectUser(id) => seq![ValueView::Int(id)],
        Query::SelectBook(id) => seq![ValueView::Int(id)],
        Query::SelectUserBook { book_id, user_id } => seq![
            ValueView::Int(book_id),
            ValueView::Int(user_id),
        ],
    }
}

/// A row without its first column.
fn without_first(mut row: Vec<Value>) -> (rest: Vec<Value>)
    requires
        row.len() >= 1,
    ensures
        row_view(rest@) == row_view(row@).skip(1),
{
    let ghost before = row@;
    row.remove(0);
    assert(row_view(row@) =~= row_view(before).skip(1));
    row
}

/// A row with one more integer column at its end.
fn with_int(mut row: Vec<Value>, n: i64) -> (longer: Vec<Value>)
    ensures
        row_view(longer@) == row_view(row@).push(ValueView::Int(n)),
{
    let ghost before = row@;
    row.push(Value::Int(n));
    assert(row_view(row@) =~= row_view(before).push(ValueView::Int(n)));
    row
}

/// The row that holds the given integers and nothing else.
fn ints(first: i64, second: Option<i64>) -> (row: Vec<Value>)
    ensures
        row_view(row@) == (match second {
            Some(second) => seq![ValueView::Int(first), ValueView::Int(second)],
            None => seq![ValueView::Int(first)],
        }),
{
    let mut row: Vec<Value> = Vec::new();
    row.push(Value::Int(first));
    match second {
        Some(second) => {
            row.push(Value::Int(second));
            assert(row_view(row@) =~= seq![ValueView::Int(first), ValueView::Int(second)]);
        },
        None => {
            assert(row_view(row@) =~= seq![ValueView::Int(first)]);
        },
    }
    row
}

impl Command {
    /// The text of this command for the database, with a `?` for each
    /// parameter.
    pub fn sql(&self) -> (text: &'static str)
        ensures
            text@ == command_sql(self@),
    {
        match self {
            Command::InsertUser(_) => "INSERT INTO users (name, email, password) VALUES (?, ?, ?)",
            Command::UpdateUser(_) => "UPDATE users SET name = ?, email = ?, password = ? WHERE id = ?",
            Command::DeleteUser(_) => "DELETE FROM users WHERE id = ?",
            Command::InsertBook(_) => "INSERT INTO books (title, author, isbn, published_year, description, cover_url, pages) VALUES (?, ?, ?, ?, ?, ?, ?)",
            Command::UpdateBook(_) => "UPDATE books SET title = ?, author = ?, isbn = ?, published_year = ?, description = ?, cover_url = ?, pages = ? WHERE id = ?",
            Command::DeleteBook(_) => "DELETE FROM books WHERE id = ?",
            Command::InsertUserBook(_) => "INSERT INTO user_books (user_id, book_id, status, rating, added_at, began_reading, done_reading, current_page) VALUES (?, ?, ?, ?, ?, ?, ?, ?)",
            Command::UpdateUserBook(_) => "UPDATE user_books SET user_id = ?, book_id = ?, status = ?, rating = ?, added_at = ?, began_reading = ?, done_reading = ?, current_page = ? WHERE user_id = ? AND book_id = ?",
            Command::DeleteUserBook { .. } => "DELETE FROM user_books WHERE user_id = ? AND book_id = ?",
        }
    }

    /// The values to bind to the `?` of `sql`, in their order.
    pub fn params(&self) -> (values: Vec<Value>)
        ensures
            row_view(values@) == command_params(self@),
    {
        match self {
            Command::InsertUser(u) => without_first(u.to_row()),
            Command::UpdateUser(u) => with_int(without_first(u.to_row()), u.id),
            Command::DeleteUser(id) => ints(*id, None),
            Command::InsertBook(b) => without_first(b.to_row()),
            Command::UpdateBook(b) => with_int(without_first(b.to_row()), b.id),
            Command::DeleteBook(id) => ints(*id, None),
            Command::InsertUserBook(ub) => ub.to_row(),
            Command::UpdateUserBook(ub) => with_int(with_int(ub.to_row(), ub.user_id), ub.book_id),
            Command::DeleteUserBook { user_id, book_id } => ints(*user_id, Some(*book_id)),
        }
    }
}

impl Query {
    /// The text of this query for the database, with a `?` for each
    /// parameter.
    pub fn sql(&self) -> (text: &'static str)
        ensures
            text@ == query_sql(*self),
    {
        match self {
            Query::SelectUser(_) => "SELECT id, name, email, password FROM users WHERE id = ?",
            Query::SelectBook(_) => "SELECT id, title, author, isbn, published_year, description, cover_url, pages FROM books WHERE id = ?",
            Query::SelectUserBook { .. } => "SELECT user_id, book_id, status, rating, added_at, began_reading, done_reading, current_page FROM user_books WHERE book_id = ? AND user_id = ?",
        }
    }

    /// The columns of the row that this query returns, in their order.
    pub fn columns(&self) -> (columns: Vec<Column>)
        ensures
            columns@ == query_columns(*self),
    {
        match self {
            Query::SelectUser(_) => vec![Column::Int, Column::Text, Column::Text, Column::Text],
            Query::SelectBook(_) => vec![
                Column::Int,
                Column::Text,
                Column::Text,
                Column::Text,
                Column::Int,
                Column::Text,
                Column::Text,
                Column::Int,
            ],
            Query::SelectUserBook { .. } => vec![
                Column::Int,
                Column::Int,
                Column::Text,
                Column::Int,
                Column::Time,
                Column::Time,
                Column::Time,
                Column::Int,
            ],
        }
    }

    /// The values to bind to the `?` of `sql`, in their order.
    pub fn params(&self) -> (values: Vec<Value>)
        ensures
            row_view(values@) == query_params(*self),
    {
        match self {
            Query::SelectUser(id) => ints(*id, None),
            Query::SelectBook(id) => ints(*id, None),
            Query::SelectUserBook { book_id, user_id } => ints(*book_id, Some(*user_id)),
        }
    }
}

} // verus!
