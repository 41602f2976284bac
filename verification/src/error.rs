//! What can go wrong: at construction, and between the library and the
//! database.

use vstd::prelude::*;
use vstd::string::*;

verus! {

/// A field that a record cannot be built without.
#[derive(Debug, Clone, Copy, PartialEq, Eq, Structural)]
pub enum Field {
    Name,
    Email,
    Password,
    Title,
    Author,
    Isbn,
    PublishedYear,
    Pages,
    UserId,
    BookId,
}

/// The column name of a required field.
pub open spec fn label_of(field: Field) -> Seq<char> {
    match field {
        Field::Name => "name"@,
        Field::Email => "email"@,
        Field::Password => "password"@,
        Field::Title => "title"@,
        Field::Author => "author"@,
        Field::Isbn => "isbn"@,
        Field::PublishedYear => "published_year"@,
        Field::Pages => "pages"@,
        Field::UserId => "user_id"@,
        Field::BookId => "book_id"@,
    }
}

impl Field {
    /// The column name of this field.
    pub fn label(&self) -> (label: &'static str)
        ensures
            label@ == label_of(*self),
    {
        match self {
            Field::Name => "name",
            Field::Email => "email",
            Field::Password => "password",
            Field::Title => "title",
            Field::Author => "author",
            Field::Isbn => "isbn",
            Field::PublishedYear => "published_year",
            Field::Pages => "pages",
            Field::UserId => "user_id",
            Field::BookId => "book_id",
        }
    }
}

/// A record was built without one of its required fields. `field` is the
/// first one missing, in the order in which the record declares them.
#[derive(Debug, Clone, Copy, PartialEq, Eq, Structural)]
pub struct ValidationError {
    pub field: Field,
}

/// What a validation error says: the column name between backticks, then
/// ` must be initialized`.
pub open spec fn message_of(e: ValidationError) -> Seq<char> {
    "`"@ + label_of(e.field) + "` must be initialized"@
}

impl ValidationError {
    /// The error in words.
    pub fn message(&self) -> (text: String)
        ensures
            text@ == message_of(*self),
    {
        let mut text = String::from_str("`");
        text.append(self.field.label());
        text.append("` must be initialized");
        text
    }
}

/// A failure as the database driver reports it.
#[derive(Debug, Clone, Copy, PartialEq, Eq, Structural)]
pub enum DriverError {
    /// A query that must return a row returned none.
    RowNotFound,
    /// A row with the same key is already stored.
    UniqueViolation,
    /// A row refers to a row that is not stored.
    ForeignKeyViolation,
    /// Anything else: the connection, the statement, the protocol.
    Other,
}

/// A failure of one of the library's operations.
#[derive(Debug, Clone, Copy, PartialEq, Eq, Structural)]
pub enum PersistenceError {
    /// No stored row has the key that was asked for.
    NotFound,
    /// The statement would have broken a unique key or a foreign key.
    ConstraintViolation,
    /// A stored reading status is none of the three tokens. The stored data
    /// no longer matches the declared domain; callers should not go on.
    CorruptStatus,
    /// A row does not have the columns of the record it was read for.
    Malformed,
    /// Any other failure of the connection or the statement.
    Other,
}

/// The library's error for a failure of the driver.
pub open spec fn persistence_error(e: DriverError) -> PersistenceError {
    match e {
        DriverError::RowNotFound => PersistenceError::NotFound,
        DriverError::UniqueViolation => PersistenceError::ConstraintViolation,
        DriverError::ForeignKeyViolation => PersistenceError::ConstraintViolation,
        DriverError::Other => PersistenceError::Other,
    }
}

impl PersistenceError {
    /// Turns a failure of the driver into the library's error: a missing row
    /// is `NotFound`, a broken unique or foreign key is `ConstraintViolation`,
    /// the rest is `Other`.
    pub fn from_driver(e: DriverError) -> (r: PersistenceError)
        ensures
            r == persistence_error(e),
    {
        match e {
            DriverError::RowNotFound => PersistenceError::NotFound,
            DriverError::UniqueViolation => PersistenceError::ConstraintViolation,
            DriverError::ForeignKeyViolation => PersistenceError::ConstraintViolation,
            DriverError::Other => PersistenceError::Other,
        }
    }
}

} // verus!
