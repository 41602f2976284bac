//! The user record: who reads.

use crate::error::{persistence_error, DriverError, Field, PersistenceError, ValidationError};
use crate::reply::{
    acknowledged, count_rows, id_after_create, id_from_insert, reply_view, rows_affected,
    ExecOutcome,
};
use crate::statement::{Command, CommandView, Query};
use crate::value::{row_view, text_in, Value, ValueView};
use vstd::prelude::*;

verus! {

/// A person with an account. `id` is 0 until the database has assigned one.
#[derive(Debug, PartialEq, Eq)]
pub struct User {
    pub id: i64,
    pub name: String,
    pub email: String,
    pub password: String,
}

/// A `User` with its texts as sequences of characters.
pub struct UserView {
    pub id: i64,
    pub name: Seq<char>,
    pub email: Seq<char>,
    pub password: Seq<char>,
}

impl View for User {
    type V = UserView;

    open spec fn view(&self) -> UserView {
        UserView { id: self.id, name: self.name@, email: self.email@, password: self.password@ }
    }
}

impl Clone for User {
    fn clone(&self) -> (r: User)
        ensures
            r@ == self@,
    {
        User {
            id: self.id,
            name: self.name.clone(),
            email: self.email.clone(),
            password: self.password.clone(),
        }
    }
}

/// The row of a user, in the order of the columns `id, name, email, password`.
pub open spec fn user_row(u: UserView) -> Seq<ValueView> {
    seq![
        ValueView::Int(u.id),
        ValueView::Text(u.name),
        ValueView::Text(u.email),
        ValueView::Text(u.password),
    ]
}

/// The user that a row holds, if the row has a user's columns.
pub open spec fn user_of_row(row: Seq<ValueView>) -> Option<UserView> {
    if row.len() == 4 && row[0] is Int && text_in(row[1]) is Some && text_in(row[2]) is Some
        && text_in(row[3]) is Some {
        Some(
            UserView {
                id: row[0]->Int_0,
                name: text_in(row[1])->0,
                email: text_in(row[2])->0,
                password: text_in(row[3])->0,
            },
        )
    } else {
        None
    }
}

/// What a row fetched for a user means: the user in it, `Malformed` where the
/// row is not a user's, the driver's failure where the fetch failed.
pub open spec fn user_fetched(reply: Result<Seq<ValueView>, DriverError>) -> Result<
    UserView,
    PersistenceError,
> {
    match reply {
        Ok(row) => match user_of_row(row) {
            Some(u) => Ok(u),
            None => Err(PersistenceError::Malformed),
        },
        Err(e) => Err(persistence_error(e)),
    }
}

/// Reading a user's row gives the user back.
pub proof fn user_row_round_trip(u: UserView)
    ensures
        user_of_row(user_row(u)) == Some(u),
{
}

impl User {
    /// The row of this user as the database stores it.
    pub fn to_row(&self) -> (row: Vec<Value>)
        ensures
            row.len() == 4,
            row_view(row@) == user_row(self@),
    {
        let mut row: Vec<Value> = Vec::new();
        row.push(Value::Int(self.id));
        row.push(Value::Text(self.name.clone()));
        row.push(Value::Text(self.email.clone()));
        row.push(Value::Text(self.password.clone()));
        assert(row_view(row@) =~= user_row(self@));
        row
    }

    /// Reads a user from a row with the columns `id, name, email, password`.
    pub fn from_row(row: &Vec<Value>) -> (r: Result<User, PersistenceError>)
        ensures
            match user_of_row(row_view(row@)) {
                Some(u) => r is Ok && r->Ok_0@ == u,
                None => r == Err::<User, PersistenceError>(PersistenceError::Malformed),
            },
    {
        if row.len() != 4 {
            return Err(PersistenceError::Malformed);
        }
        let id = row[0].as_i64();
        let name = row[1].as_text();
        let email = row[2].as_text();
        let password = row[3].as_text();
        match (id, name, email, password) {
            (Some(id), Some(name), Some(email), Some(password)) => Ok(
                User { id, name, email, password },
            ),
            _ => Err(PersistenceError::Malformed),
        }
    }

    /// The statement that stores this user as a new row. The id is left to
    /// the database.
    pub fn create_statement(&self) -> (c: Command)
        ensures
            c@ == CommandView::InsertUser(self@),
    {
        Command::InsertUser(self.clone())
    }

    /// Takes the database's answer to `create_statement`. On success the
    /// record gets the id that the database assigned and is otherwise
    /// unchanged; on failure the record is unchanged.
    pub fn create(&mut self, reply: Result<ExecOutcome, DriverError>) -> (r: Result<
        (),
        PersistenceError,
    >)
        ensures
            r == acknowledged(reply),
            final(self)@ == (UserView { id: id_after_create(old(self).id, reply), ..old(self)@ }),
            reply is Err ==> *final(self) == *old(self),
    {
        match reply {
            Ok(outcome) => {
                self.id = id_from_insert(outcome.last_insert_id);
                Ok(())
            },
            Err(e) => Err(PersistenceError::from_driver(e)),
        }
    }

    /// The statement that overwrites every column of the row with this
    /// user's id.
    pub fn update_statement(&self) -> (c: Command)
        ensures
            c@ == CommandView::UpdateUser(self@),
    {
        Command::UpdateUser(self.clone())
    }

    /// Takes the database's answer to `update_statement`: the number of rows
    /// that the statement matched. None is no error.
    pub fn update(&self, reply: Result<ExecOutcome, DriverError>) -> (r: Result<
        u64,
        PersistenceError,
    >)
        ensures
            r == rows_affected(reply),
    {
        count_rows(reply)
    }

    /// The query for the row with this user's id.
    pub fn fetch_statement(&self) -> (q: Query)
        ensures
            q == Query::SelectUser(self.id),
    {
        Query::SelectUser(self.id)
    }

    /// Takes the database's answer to `fetch_statement`: a fresh record of
    /// the stored row. This record is not touched.
    pub fn fetch(&self, reply: Result<Vec<Value>, DriverError>) -> (r: Result<
        User,
        PersistenceError,
    >)
        ensures
            match user_fetched(reply_view(reply)) {
                Ok(u) => r is Ok && r->Ok_0@ == u,
                Err(e) => r == Err::<User, PersistenceError>(e),
            },
    {
        User::get(reply)
    }

    /// The query for the row with the given id.
    pub fn get_statement(id: i64) -> (q: Query)
        ensures
            q == Query::SelectUser(id),
    {
        Query::SelectUser(id)
    }

    /// Takes the database's answer to `get_statement`: the stored user,
    /// `NotFound` where no row has the id.
    pub fn get(reply: Result<Vec<Value>, DriverError>) -> (r: Result<User, PersistenceError>)
        ensures
            match user_fetched(reply_view(reply)) {
                Ok(u) => r is Ok && r->Ok_0@ == u,
                Err(e) => r == Err::<User, PersistenceError>(e),
            },
    {
        match reply {
            Ok(row) => User::from_row(&row),
            Err(e) => Err(PersistenceError::from_driver(e)),
        }
    }

    /// The statement that removes the row with this user's id.
    pub fn delete_statement(&self) -> (c: Command)
        ensures
            c@ == CommandView::DeleteUser(self.id),
    {
        Command::DeleteUser(self.id)
    }

    /// Takes the database's answer to `delete_statement`: the number of rows
    /// removed. None means that the row was gone already, which is no error.
    /// The record itself stays as it is.
    pub fn delete(&self, reply: Result<ExecOutcome, DriverError>) -> (r: Result<
        u64,
        PersistenceError,
    >)
        ensures
            r == rows_affected(reply),
    {
        count_rows(reply)
    }
}

/// A user under construction. `name`, `email` and `password` must be given;
/// `id` is 0 unless given.
#[derive(Debug)]
pub struct UserBuilder {
    pub id: Option<i64>,
    pub name: Option<String>,
    pub email: Option<String>,
    pub password: Option<String>,
}

impl Default for UserBuilder {
    fn default() -> (b: UserBuilder)
        ensures
            b.id is None,
            b.name is None,
            b.email is None,
            b.password is None,
    {
        UserBuilder { id: None, name: None, email: None, password: None }
    }
}

impl UserBuilder {
    /// What `build` makes of this builder: the user, or the first required
    /// field that is missing.
    pub open spec fn built(self) -> Result<UserView, ValidationError> {
        if self.name is None {
            Err(ValidationError { field: Field::Name })
        } else if self.email is None {
            Err(ValidationError { field: Field::Email })
        } else if self.password is None {
            Err(ValidationError { field: Field::Password })
        } else {
            Ok(
                UserView {
                    id: match self.id {
                        Some(id) => id,
                        None => 0,
                    },
                    name: self.name->0@,
                    email: self.email->0@,
                    password: self.password->0@,
                },
            )
        }
    }

    /// Gives the builder its `id`.
    pub fn id(self, value: i64) -> (b: UserBuilder)
        ensures
            b == (UserBuilder { id: Some(value), ..self }),
    {
        UserBuilder { id: Some(value), ..self }
    }

    /// Gives the builder its `name`.
    pub fn name(self, value: String) -> (b: UserBuilder)
        ensures
            b == (UserBuilder { name: Some(value), ..self }),
    {
        UserBuilder { name: Some(value), ..self }
    }

    /// Gives the builder its `email`.
    pub fn email(self, value: String) -> (b: UserBuilder)
        ensures
            b == (UserBuilder { email: Some(value), ..self }),
    {
        UserBuilder { email: Some(value), ..self }
    }

    /// Gives the builder its `password`.
    pub fn password(self, value: String) -> (b: UserBuilder)
        ensures
            b == (UserBuilder { password: Some(value), ..self }),
    {
        UserBuilder { password: Some(value), ..self }
    }

    /// Makes the user, or names the first required field that was not given.
    pub fn build(self) -> (r: Result<User, ValidationError>)
        ensures
            match self.built() {
                Ok(u) => r is Ok && r->Ok_0@ == u,
                Err(e) => r == Err::<User, ValidationError>(e),
            },
    {
        let id = match self.id {
            Some(id) => id,
            None => 0,
        };
        match self.name {
            None => Err(ValidationError { field: Field::Name }),
            Some(name) => match self.email {
                None => Err(ValidationError { field: Field::Email }),
                Some(email) => match self.password {
                    None => Err(ValidationError { field: Field::Password }),
                    Some(password) => Ok(User { id, name, email, password }),
                },
            },
        }
    }
}

} // verus!
