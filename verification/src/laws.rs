//! What holds of the operations taken together, on every state of the
//! schema.

use crate::models::book::{book_fetched, book_row_round_trip, BookView};
use crate::error::PersistenceError;
use crate::reply::{acknowledged, id_after_create, rows_affected};
use crate::schema::Tables;
use crate::statement::{fits, query_columns, row_fits, CommandView, Query};
use crate::models::user::{user_fetched, user_row_round_trip, UserView};
use crate::models::user_book::{user_book_fetched, user_book_row_round_trip, UserBook};
use vstd::prelude::*;

verus! {

/// Every row that the schema answers a query with has the columns that the
/// query announces.
pub proof fn fetched_rows_fit(t: Tables, q: Query)
    ensures
        t.fetch_one(q) matches Ok(row) ==> row_fits(row, q),
{
    match t.fetch_one(q) {
        Ok(row) => {
            assert forall|i: int| 0 <= i < row.len() implies fits(
                #[trigger] row[i],
                query_columns(q)[i],
            ) by {}
        },
        Err(_) => {},
    }
}

/// Creating a user succeeds unless the ids are used up. The id that the
/// record then gets is positive and was not in use, and getting the user by
/// that id gives the record back, field for field.
pub proof fn user_create_then_get(t: Tables, u: UserView)
    requires
        t.wf(),
    ensures
        ({
            let (after, reply) = t.execute(CommandView::InsertUser(u));
            let id = id_after_create(u.id, reply);
            &&& acknowledged(reply) is Ok <==> t.next_user_id < i64::MAX
            &&& acknowledged(reply) is Ok ==> id > 0 && !t.users.contains_key(id)
                && user_fetched(after.fetch_one(Query::SelectUser(id))) == Ok::<
                UserView,
                PersistenceError,
            >(UserView { id, ..u })
            &&& acknowledged(reply) is Err ==> after == t
        }),
{
    let (after, reply) = t.execute(CommandView::InsertUser(u));
    let id = id_after_create(u.id, reply);
    if t.next_user_id < i64::MAX {
        assert(id == t.next_user_id);
        user_row_round_trip(UserView { id, ..u });
    }
}

/// Creating a book succeeds unless the ids are used up. The id that the
/// record then gets is positive and was not in use, and getting the book by
/// that id gives the record back, field for field.
pub proof fn book_create_then_get(t: Tables, b: BookView)
    requires
        t.wf(),
    ensures
        ({
            let (after, reply) = t.execute(CommandView::InsertBook(b));
            let id = id_after_create(b.id, reply);
            &&& acknowledged(reply) is Ok <==> t.next_book_id < i64::MAX
            &&& acknowledged(reply) is Ok ==> id > 0 && !t.books.contains_key(id)
                && book_fetched(after.fetch_one(Query::SelectBook(id))) == Ok::<
                BookView,
                PersistenceError,
            >(BookView { id, ..b })
            &&& acknowledged(reply) is Err ==> after == t
        }),
{
    let (after, reply) = t.execute(CommandView::InsertBook(b));
    let id = id_after_create(b.id, reply);
    if t.next_book_id < i64::MAX {
        assert(id == t.next_book_id);
        book_row_round_trip(BookView { id, ..b });
    }
}

/// Creating an association succeeds exactly where its user and its book are
/// stored and its key is not. Getting it by its key then gives the record
/// back, field for field.
pub proof fn user_book_create_then_get(t: Tables, ub: UserBook)
    ensures
        ({
            let (after, reply) = t.execute(CommandView::InsertUserBook(ub));
            &&& acknowledged(reply) is Ok <==> t.users.contains_key(ub.user_id)
                && t.books.contains_key(ub.book_id) && !t.user_books.contains_key(
                (ub.user_id, ub.book_id),
            )
            &&& acknowledged(reply) is Ok ==> user_book_fetched(
                after.fetch_one(Query::SelectUserBook { book_id: ub.book_id, user_id: ub.user_id }),
            ) == Ok::<UserBook, PersistenceError>(ub)
        }),
{
    user_book_row_round_trip(ub);
}

/// An association whose user or book is not stored is refused as a
/// constraint violation, and nothing is stored.
pub proof fn user_book_needs_user_and_book(t: Tables, ub: UserBook)
    requires
        !t.users.contains_key(ub.user_id) || !t.books.contains_key(ub.book_id),
    ensures
        ({
            let (after, reply) = t.execute(CommandView::InsertUserBook(ub));
            &&& acknowledged(reply) == Err::<(), PersistenceError>(
                PersistenceError::ConstraintViolation,
            )
            &&& after == t
        }),
{
}

/// A second association under a stored key is refused as a constraint
/// violation, and the stored one stays as it is.
pub proof fn user_book_key_is_unique(t: Tables, ub: UserBook)
    requires
        t.user_books.contains_key((ub.user_id, ub.book_id)),
    ensures
        ({
            let (after, reply) = t.execute(CommandView::InsertUserBook(ub));
            &&& acknowledged(reply) == Err::<(), PersistenceError>(
                PersistenceError::ConstraintViolation,
            )
            &&& after == t
        }),
{
}

/// Updating a user twice with the same fields matches the same number of
/// rows both times, one where the user is stored and none where it is not,
/// and the second update changes nothing.
pub proof fn user_update_is_idempotent(t: Tables, u: UserView)
    ensures
        ({
            let (once, first) = t.execute(CommandView::UpdateUser(u));
            let (twice, second) = once.execute(CommandView::UpdateUser(u));
            &&& rows_affected(first) == Ok::<u64, PersistenceError>(
                if t.users.contains_key(u.id) {
                    1
                } else {
                    0
                },
            )
            &&& second == first
            &&& twice == once
            &&& t.users.contains_key(u.id) ==> once.users[u.id] == u
        }),
{
    let (once, first) = t.execute(CommandView::UpdateUser(u));
    let (twice, second) = once.execute(CommandView::UpdateUser(u));
    assert(twice.users =~= once.users);
}

/// Updating a book twice with the same fields matches the same number of
/// rows both times, one where the book is stored and none where it is not,
/// and the second update changes nothing.
pub proof fn book_update_is_idempotent(t: Tables, b: BookView)
    ensures
        ({
            let (once, first) = t.execute(CommandView::UpdateBook(b));
            let (twice, second) = once.execute(CommandView::UpdateBook(b));
            &&& rows_affected(first) == Ok::<u64, PersistenceError>(
                if t.books.contains_key(b.id) {
                    1
                } else {
                    0
                },
            )
            &&& second == first
            &&& twice == once
            &&& t.books.contains_key(b.id) ==> once.books[b.id] == b
        }),
{
    let (once, first) = t.execute(CommandView::UpdateBook(b));
    let (twice, second) = once.execute(CommandView::UpdateBook(b));
    assert(twice.books =~= once.books);
}

/// Updating an association twice with the same fields matches the same
/// number of rows both times, one where its key is stored and none where it
/// is not, and the second update changes nothing.
pub proof fn user_book_update_is_idempotent(t: Tables, ub: UserBook)
    ensures
        ({
            let (once, first) = t.execute(CommandView::UpdateUserBook(ub));
            let (twice, second) = once.execute(CommandView::UpdateUserBook(ub));
            &&& rows_affected(first) == Ok::<u64, PersistenceError>(
                if t.user_books.contains_key((ub.user_id, ub.book_id)) {
                    1
                } else {
                    0
                },
            )
            &&& second == first
            &&& twice == once
            &&& t.user_books.contains_key((ub.user_id, ub.book_id)) ==> once.user_books[(
                ub.user_id,
                ub.book_id,
            )] == ub
        }),
{
    let (once, first) = t.execute(CommandView::UpdateUserBook(ub));
    let (twice, second) = once.execute(CommandView::UpdateUserBook(ub));
    assert(twice.user_books =~= once.user_books);
}

/// Deleting a user removes one row where the user is stored and none where
/// it is not. After that, getting the user fails as not found, deleting or
/// updating it again matches no row and changes nothing, and no association
/// names it.
pub proof fn user_delete_is_final(t: Tables, u: UserView)
    ensures
        ({
            let (after, reply) = t.execute(CommandView::DeleteUser(u.id));
            &&& rows_affected(reply) == Ok::<u64, PersistenceError>(
                if t.users.contains_key(u.id) {
                    1
                } else {
                    0
                },
            )
            &&& user_fetched(after.fetch_one(Query::SelectUser(u.id))) == Err::<
                UserView,
                PersistenceError,
            >(PersistenceError::NotFound)
            &&& rows_affected(after.execute(CommandView::DeleteUser(u.id)).1) == Ok::<
                u64,
                PersistenceError,
            >(0)
            &&& rows_affected(after.execute(CommandView::UpdateUser(u)).1) == Ok::<
                u64,
                PersistenceError,
            >(0)
            &&& after.execute(CommandView::DeleteUser(u.id)).0 == after
            &&& after.execute(CommandView::UpdateUser(u)).0 == after
            &&& t.wf() ==> forall|book_id: i64| !after.user_books.contains_key((u.id, book_id))
        }),
{
}

/// Deleting a book removes one row where the book is stored and none where
/// it is not. After that, getting the book fails as not found, deleting or
/// updating it again matches no row and changes nothing, and no association
/// names it.
pub proof fn book_delete_is_final(t: Tables, b: BookView)
    ensures
        ({
            let (after, reply) = t.execute(CommandView::DeleteBook(b.id));
            &&& rows_affected(reply) == Ok::<u64, PersistenceError>(
                if t.books.contains_key(b.id) {
                    1
                } else {
                    0
                },
            )
            &&& book_fetched(after.fetch_one(Query::SelectBook(b.id))) == Err::<
                BookView,
                PersistenceError,
            >(PersistenceError::NotFound)
            &&& rows_affected(after.execute(CommandView::DeleteBook(b.id)).1) == Ok::<
                u64,
                PersistenceError,
            >(0)
            &&& rows_affected(after.execute(CommandView::UpdateBook(b)).1) == Ok::<
                u64,
                PersistenceError,
            >(0)
            &&& after.execute(CommandView::DeleteBook(b.id)).0 == after
            &&& after.execute(CommandView::UpdateBook(b)).0 == after
            &&& t.wf() ==> forall|user_id: i64| !after.user_books.contains_key((user_id, b.id))
        }),
{
}

/// Deleting an association removes one row where its key is stored and none
/// where it is not. After that, getting it fails as not found, and deleting
/// or updating it again matches no row and changes nothing.
pub proof fn user_book_delete_is_final(t: Tables, ub: UserBook)
    ensures
        ({
            let gone = CommandView::DeleteUserBook { user_id: ub.user_id, book_id: ub.book_id };
            let (after, reply) = t.execute(gone);
            &&& rows_affected(reply) == Ok::<u64, PersistenceError>(
                if t.user_books.contains_key((ub.user_id, ub.book_id)) {
                    1
                } else {
                    0
                },
            )
            &&& user_book_fetched(
                after.fetch_one(Query::SelectUserBook { book_id: ub.book_id, user_id: ub.user_id }),
            ) == Err::<UserBook, PersistenceError>(PersistenceError::NotFound)
            &&& rows_affected(after.execute(gone).1) == Ok::<u64, PersistenceError>(0)
            &&& rows_affected(after.execute(CommandView::UpdateUserBook(ub)).1) == Ok::<
                u64,
                PersistenceError,
            >(0)
            &&& after.execute(gone).0 == after
            &&& after.execute(CommandView::UpdateUserBook(ub)).0 == after
        }),
{
}

} // verus!
