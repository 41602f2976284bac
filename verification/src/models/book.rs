//! The book record: a catalog entry.

use crate::error::{persistence_error, DriverError, Field, PersistenceError, ValidationError};
use crate::reply::{
    acknowledged, count_rows, id_after_create, id_from_insert, reply_view, rows_affected,
    ExecOutcome,
};
use crate::statement::{Command, CommandView, Query};
use crate::value::{
    int_in, opt_text_in, opt_text_value, opt_text_view, row_view, text_in, Value, ValueView,
};
use vstd::prelude::*;

verus! {

/// A book in the catalog. `id` is 0 until the database has assigned one.
#[derive(Debug, PartialEq, Eq)]
pub struct Book {
    pub id: i64,
    pub title: String,
    pub author: String,
    pub isbn: String,
    pub published_year: i32,
    pub description: Option<String>,
    pub cover_url: Option<String>,
    pub pages: i32,
}

/// A `Book` with its texts as sequences of characters.
pub struct BookView {
    pub id: i64,
    pub title: Seq<char>,
    pub author: Seq<char>,
    pub isbn: Seq<char>,
    pub published_year: i32,
    pub description: Option<Seq<char>>,
    pub cover_url: Option<Seq<char>>,
    pub pages: i32,
}

impl View for Book {
    type V = BookView;

    open spec fn view(&self) -> BookView {
        BookView {
            id: self.id,
            title: self.title@,
            author: self.author@,
            isbn: self.isbn@,
            published_year: self.published_year,
            description: opt_text_view(self.description),
            cover_url: opt_text_view(self.cover_url),
            pages: self.pages,
        }
    }
}

/// A copy of an optional text.
pub fn clone_opt_text(text: &Option<String>) -> (r: Option<String>)
    ensures
        opt_text_view(r) == opt_text_view(*text),
{
    match text {
        Some(s) => Some(s.clone()),
        None => None,
    }
}

impl Clone for Book {
    fn clone(&self) -> (r: Book)
        ensures
            r@ == self@,
    {
        Book {
            id: self.id,
            title: self.title.clone(),
            author: self.author.clone(),
            isbn: self.isbn.clone(),
            published_year: self.published_year,
            description: clone_opt_text(&self.description),
            cover_url: clone_opt_text(&self.cover_url),
            pages: self.pages,
        }
    }
}

/// The row of a book, in the order of the columns `id, title, author, isbn,
/// published_year, description, cover_url, pages`.
pub open spec fn book_row(b: BookView) -> Seq<ValueView> {
    seq![
        ValueView::Int(b.id),
        ValueView::Text(b.title),
        ValueView::Text(b.author),
        ValueView::Text(b.isbn),
        ValueView::Int(b.published_year as i64),
        opt_text_value(b.description),
        opt_text_value(b.cover_url),
        ValueView::Int(b.pages as i64),
    ]
}

/// The book that a row holds, if the row has a book's columns. The year and
/// the page count must fit in 32 bits.
pub open spec fn book_of_row(row: Seq<ValueView>) -> Option<BookView> {
    if row.len() == 8 && row[0] is Int && text_in(row[1]) is Some && text_in(row[2]) is Some
        && text_in(row[3]) is Some && int_in(row[4], i32::MIN as int, i32::MAX as int) is Some
        && opt_text_in(row[5]) is Some && opt_text_in(row[6]) is Some && int_in(
        row[7],
        i32::MIN as int,
        i32::MAX as int,
    ) is Some {
        Some(
            BookView {
                id: row[0]->Int_0,
                title: text_in(row[1])->0,
                author: text_in(row[2])->0,
                isbn: text_in(row[3])->0,
                published_year: int_in(row[4], i32::MIN as int, i32::MAX as int)->0 as i32,
                description: opt_text_in(row[5])->0,
                cover_url: opt_text_in(row[6])->0,
                pages: int_in(row[7], i32::MIN as int, i32::MAX as int)->0 as i32,
            },
        )
    } else {
        None
    }
}

/// What a row fetched for a book means: the book in it, `Malformed` where the
/// row is not a book's, the driver's failure where the fetch failed.
pub open spec fn book_fetched(reply: Result<Seq<ValueView>, DriverError>) -> Result<
    BookView,
    PersistenceError,
> {
    match reply {
        Ok(row) => match book_of_row(row) {
            Some(b) => Ok(b),
            None => Err(PersistenceError::Malformed),
        },
        Err(e) => Err(persistence_error(e)),
    }
}

/// Reading a book's row gives the book back.
pub proof fn book_row_round_trip(b: BookView)
    ensures
        book_of_row(book_row(b)) == Some(b),
{
}

impl Book {
    /// The row of this book as the database stores it.
    pub fn to_row(&self) -> (row: Vec<Value>)
        ensures
            row.len() == 8,
            row_view(row@) == book_row(self@),
    {
        let mut row: Vec<Value> = Vec::new();
        row.push(Value::Int(self.id));
        row.push(Value::Text(self.title.clone()));
        row.push(Value::Text(self.author.clone()));
        row.push(Value::Text(self.isbn.clone()));
        row.push(Value::Int(self.published_year as i64));
        row.push(Value::from_opt_text(&self.description));
        row.push(Value::from_opt_text(&self.cover_url));
        row.push(Value::Int(self.pages as i64));
        assert(row_view(row@) =~= book_row(self@));
        row
    }

    /// Reads a book from a row with the columns `id, title, author, isbn,
    /// published_year, description, cover_url, pages`.
    pub fn from_row(row: &Vec<Value>) -> (r: Result<Book, PersistenceError>)
        ensures
            match book_of_row(row_view(row@)) {
                Some(b) => r is Ok && r->Ok_0@ == b,
                None => r == Err::<Book, PersistenceError>(PersistenceError::Malformed),
            },
    {
        if row.len() != 8 {
            return Err(PersistenceError::Malformed);
        }
        let id = row[0].as_i64();
        let title = row[1].as_text();
        let author = row[2].as_text();
        let isbn = row[3].as_text();
        let published_year = row[4].as_i32();
        let description = row[5].as_opt_text();
        let cover_url = row[6].as_opt_text();
        let pages = row[7].as_i32();
        match (id, title, author, isbn) {
            (Some(id), Some(title), Some(author), Some(isbn)) => match (
                published_year,
                description,
                cover_url,
                pages,
            ) {
                (Some(published_year), Some(description), Some(cover_url), Some(pages)) => Ok(
                    Book { id, title, author, isbn, published_year, description, cover_url, pages },
                ),
                _ => Err(PersistenceError::Malformed),
            },
            _ => Err(PersistenceError::Malformed),
        }
    }

    /// The statement that stores this book as a new row. The id is left to
    /// the database.
    pub fn create_statement(&self) -> (c: Command)
        ensures
            c@ == CommandView::InsertBook(self@),
    {
        Command::InsertBook(self.clone())
    }

    /// Takes the database's answer to `create_statement`. On success the
    /// record gets the id that the database assigned and is otherwise
    /// unchanged; on failure the record is unchanged.
    pub fn create(&mut self, reply: Result<ExecOutcome, DriverError>) -> (r: Result<
        (),
        PersistenceError,
    >)
        ensures
            r == acknowledged(reply),
            final(self)@ == (BookView { id: id_after_create(old(self).id, reply), ..old(self)@ }),
            reply is Err ==> *final(self) == *old(self),
    {
        match reply {
            Ok(outcome) => {
                self.id = id_from_insert(outcome.last_insert_id);
                Ok(())
            },
            Err(e) => Err(PersistenceError::from_driver(e)),
        }
    }

    /// The statement that overwrites every column of the row with this
    /// book's id.
    pub fn update_statement(&self) -> (c: Command)
        ensures
            c@ == CommandView::UpdateBook(self@),
    {
        Command::UpdateBook(self.clone())
    }

    /// Takes the database's answer to `update_statement`: the number of rows
    /// that the statement matched. None is no error. The record stays as it
    /// is.
    pub fn update(&mut self, reply: Result<ExecOutcome, DriverError>) -> (r: Result<
        u64,
        PersistenceError,
    >)
        ensures
            r == rows_affected(reply),
            *final(self) == *old(self),
    {
        count_rows(reply)
    }

    /// The query for the row with this book's id.
    pub fn fetch_statement(&self) -> (q: Query)
        ensures
            q == Query::SelectBook(self.id),
    {
        Query::SelectBook(self.id)
    }

    /// Takes the database's answer to `fetch_statement`: a fresh record of
    /// the stored row. This record is not touched.
    pub fn fetch(&self, reply: Result<Vec<Value>, DriverError>) -> (r: Result<
        Book,
        PersistenceError,
    >)
        ensures
            match book_fetched(reply_view(reply)) {
                Ok(b) => r is Ok && r->Ok_0@ == b,
                Err(e) => r == Err::<Book, PersistenceError>(e),
            },
    {
        Book::get(reply)
    }

    /// The query for the row with the given id.
    pub fn get_statement(id: i64) -> (q: Query)
        ensures
            q == Query::SelectBook(id),
    {
        Query::SelectBook(id)
    }

    /// Takes the database's answer to `get_statement`: the stored book,
    /// `NotFound` where no row has the id.
    pub fn get(reply: Result<Vec<Value>, DriverError>) -> (r: Result<Book, PersistenceError>)
        ensures
            match book_fetched(reply_view(reply)) {
                Ok(b) => r is Ok && r->Ok_0@ == b,
                Err(e) => r == Err::<Book, PersistenceError>(e),
            },
    {
        match reply {
            Ok(row) => Book::from_row(&row),
            Err(e) => Err(PersistenceError::from_driver(e)),
        }
    }

    /// The statement that removes the row with this book's id.
    pub fn delete_statement(&self) -> (c: Command)
        ensures
            c@ == CommandView::DeleteBook(self.id),
    {
        Command::DeleteBook(self.id)
    }

    /// Takes the database's answer to `delete_statement`: the number of rows
    /// removed. None means that the row was gone already, which is no error.
    /// The record itself stays as it is.
    pub fn delete(&self, reply: Result<ExecOutcome, DriverError>) -> (r: Result<
        u64,
        PersistenceError,
    >)
        ensures
            r == rows_affected(reply),
    {
        count_rows(reply)
    }
}

/// A book under construction. `title`, `author`, `isbn`, `published_year` and
/// `pages` must be given; `id` is 0 and `description` and `cover_url` are
/// absent unless given.
#[derive(Debug)]
pub struct BookBuilder {
    pub id: Option<i64>,
    pub title: Option<String>,
    pub author: Option<String>,
    pub isbn: Option<String>,
    pub published_year: Option<i32>,
    pub description: Option<Option<String>>,
    pub cover_url: Option<Option<String>>,
    pub pages: Option<i32>,
}

impl Default for BookBuilder {
    fn default() -> (b: BookBuilder)
        ensures
            b.id is None,
            b.title is None,
            b.author is None,
            b.isbn is None,
            b.published_year is None,
            b.description is None,
            b.cover_url is None,
            b.pages is None,
    {
        BookBuilder {
            id: None,
            title: None,
            author: None,
            isbn: None,
            published_year: None,
            description: None,
            cover_url: None,
            pages: None,
        }
    }
}

impl BookBuilder {
    /// What `build` makes of this builder: the book, or the first required
    /// field that is missing.
    pub open spec fn built(self) -> Result<BookView, ValidationError> {
        if self.title is None {
            Err(ValidationError { field: Field::Title })
        } else if self.author is None {
            Err(ValidationError { field: Field::Author })
        } else if self.isbn is None {
            Err(ValidationError { field: Field::Isbn })
        } else if self.published_year is None {
            Err(ValidationError { field: Field::PublishedYear })
        } else if self.pages is None {
            Err(ValidationError { field: Field::Pages })
        } else {
            Ok(
                BookView {
                    id: match self.id {
                        Some(id) => id,
                        None => 0,
                    },
                    title: self.title->0@,
                    author: self.author->0@,
                    isbn: self.isbn->0@,
                    published_year: self.published_year->0,
                    description: match self.description {
                        Some(d) => opt_text_view(d),
                        None => None,
                    },
                    cover_url: match self.cover_url {
                        Some(c) => opt_text_view(c),
                        None => None,
                    },
                    pages: self.pages->0,
                },
            )
        }
    }

    /// Gives the builder its `id`.
    pub fn id(self, value: i64) -> (b: BookBuilder)
        ensures
            b == (BookBuilder { id: Some(value), ..self }),
    {
        BookBuilder { id: Some(value), ..self }
    }

    /// Gives the builder its `title`.
    pub fn title(self, value: String) -> (b: BookBuilder)
        ensures
            b == (BookBuilder { title: Some(value), ..self }),
    {
        BookBuilder { title: Some(value), ..self }
    }

    /// Gives the builder its `author`.
    pub fn author(self, value: String) -> (b: BookBuilder)
        ensures
            b == (BookBuilder { author: Some(value), ..self }),
    {
        BookBuilder { author: Some(value), ..self }
    }

    /// Gives the builder its `isbn`.
    pub fn isbn(self, value: String) -> (b: BookBuilder)
        ensures
            b == (BookBuilder { isbn: Some(value), ..self }),
    {
        BookBuilder { isbn: Some(value), ..self }
    }

    /// Gives the builder its `published_year`.
    pub fn published_year(self, value: i32) -> (b: BookBuilder)
        ensures
            b == (BookBuilder { published_year: Some(value), ..self }),
    {
        BookBuilder { published_year: Some(value), ..self }
    }

    /// Gives the builder its `description`.
    pub fn description(self, value: Option<String>) -> (b: BookBuilder)
        ensures
            b == (BookBuilder { description: Some(value), ..self }),
    {
        BookBuilder { description: Some(value), ..self }
    }

    /// Gives the builder its `cover_url`.
    pub fn cover_url(self, value: Option<String>) -> (b: BookBuilder)
        ensures
            b == (BookBuilder { cover_url: Some(value), ..self }),
    {
        BookBuilder { cover_url: Some(value), ..self }
    }

    /// Gives the builder its `pages`.
    pub fn pages(self, value: i32) -> (b: BookBuilder)
        ensures
            b == (BookBuilder { pages: Some(value), ..self }),
    {
        BookBuilder { pages: Some(value), ..self }
    }

    /// Makes the book, or names the first required field that was not given.
    pub fn build(self) -> (r: Result<Book, ValidationError>)
        ensures
            match self.built() {
                Ok(b) => r is Ok && r->Ok_0@ == b,
                Err(e) => r == Err::<Book, ValidationError>(e),
            },
    {
        let id = match self.id {
            Some(id) => id,
            None => 0,
        };
        let description = match self.description {
            Some(d) => d,
            None => None,
        };
        let cover_url = match self.cover_url {
            Some(c) => c,
            None => None,
        };
        match (self.title, self.author, self.isbn) {
            (None, _, _) => Err(ValidationError { field: Field::Title }),
            (Some(_), None, _) => Err(ValidationError { field: Field::Author }),
            (Some(_), Some(_), None) => Err(ValidationError { field: Field::Isbn }),
            (Some(title), Some(author), Some(isbn)) => match (self.published_year, self.pages) {
                (None, _) => Err(ValidationError { field: Field::PublishedYear }),
                (Some(_), None) => Err(ValidationError { field: Field::Pages }),
                (Some(published_year), Some(pages)) => Ok(
                    Book { id, title, author, isbn, published_year, description, cover_url, pages },
                ),
            },
        }
    }
}

} // verus!
