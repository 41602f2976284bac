//! Records filled with made-up data, for demonstrations and tests. Nothing
//! here touches the database.

use crate::models::book::{Book, BookBuilder, BookView};
use crate::status::ReadingStatus;
use crate::timestamp::{utc_instant, utc_now, utc_ymd_hms, Timestamp};
use crate::models::user::{User, UserBuilder, UserView};
use crate::models::user_book::{UserBook, UserBookBuilder};
use vstd::pervasive::unreached;
use vstd::prelude::*;
use vstd::string::*;

verus! {

/// Whether `c` is one of the ten decimal digits.
pub open spec fn is_digit(c: char) -> bool {
    '0' <= c <= '9'
}

/// Whether `c` is a decimal digit or a letter of the English alphabet, of
/// either case.
pub open spec fn is_letter_or_digit(c: char) -> bool {
    is_digit(c) || 'a' <= c <= 'z' || 'A' <= c <= 'Z'
}

/// Whether `s` holds nothing but English letters and decimal digits.
pub open spec fn all_letters_or_digits(s: Seq<char>) -> bool {
    forall|i: int| 0 <= i < s.len() ==> is_letter_or_digit(#[trigger] s[i])
}

/// Whether `out` is `format` with every `#` replaced by a digit and every
/// `^` by a digit other than 0.
pub open spec fn fills_format(format: Seq<char>, out: Seq<char>) -> bool {
    &&& out.len() == format.len()
    &&& forall|i: int|
        0 <= i < format.len() ==> if format[i] == '#' {
            is_digit(#[trigger] out[i])
        } else if format[i] == '^' {
            is_digit(out[i]) && out[i] != '0'
        } else {
            out[i] == format[i]
        }
}

/// The number that a sequence of decimal digits writes.
pub open spec fn decimal_value(digits: Seq<char>) -> int
    decreases digits.len(),
{
    if digits.len() == 0 {
        0
    } else {
        decimal_value(digits.drop_last()) * 10 + (digits.last() as int - '0' as int)
    }
}

/// Whether every character of `s` is a decimal digit.
pub open spec fn all_digits(s: Seq<char>) -> bool {
    forall|i: int| 0 <= i < s.len() ==> is_digit(#[trigger] s[i])
}

/// A sequence of digits writes no smaller a number than any of its prefixes.
pub proof fn decimal_value_grows(digits: Seq<char>, n: int)
    requires
        all_digits(digits),
        0 <= n <= digits.len(),
    ensures
        0 <= decimal_value(digits.take(n)) <= decimal_value(digits),
    decreases digits.len() - n,
{
    if n == digits.len() {
        assert(digits.take(n) =~= digits);
        decimal_value_nonnegative(digits);
    } else {
        decimal_value_grows(digits, n + 1);
        let longer = digits.take(n + 1);
        assert(longer.drop_last() =~= digits.take(n));
        assert(is_digit(digits[n]));
        assert(longer.last() == digits[n]);
        decimal_value_nonnegative(digits.take(n));
    }
}

/// A sequence of digits writes no negative number.
pub proof fn decimal_value_nonnegative(digits: Seq<char>)
    requires
        all_digits(digits),
    ensures
        0 <= decimal_value(digits),
    decreases digits.len(),
{
    if digits.len() > 0 {
        decimal_value_nonnegative(digits.drop_last());
        assert(is_digit(digits.last()));
    }
}

/// Reads a number written in decimal digits alone. There is a result exactly
/// where the text is not empty, holds nothing but digits and writes a number
/// that fits in 32 bits.
pub fn parse_digits(text: &str) -> (n: Option<i32>)
    ensures
        n is Some <==> text@.len() > 0 && all_digits(text@) && decimal_value(text@) <= i32::MAX,
        n matches Some(v) ==> v == decimal_value(text@),
{
    let len = text.unicode_len();
    if len == 0 {
        return None;
    }
    let mut value: i64 = 0;
    let mut i: usize = 0;
    while i < len
        invariant
            len == text@.len(),
            0 <= i <= len,
            all_digits(text@.take(i as int)),
            value == decimal_value(text@.take(i as int)),
            0 <= value <= i32::MAX,
        decreases len - i,
    {
        let c = text.get_char(i);
        if !('0' <= c && c <= '9') {
            assert(!is_digit(text@[i as int]));
            return None;
        }
        let digit: i64 = (c as u32 - '0' as u32) as i64;
        let ghost longer = text@.take(i + 1);
        proof {
            assert(longer.drop_last() =~= text@.take(i as int));
            assert(longer.last() == c);
            assert forall|j: int| 0 <= j < longer.len() implies is_digit(#[trigger] longer[j]) by {
                if j < i {
                    assert(longer[j] == text@.take(i as int)[j]);
                }
            }
        }
        let next: i64 = value * 10 + digit;
        if next > 2147483647 {
            proof {
                if all_digits(text@) {
                    decimal_value_grows(text@, i + 1);
                }
            }
            return None;
        }
        value = next;
        i += 1;
    }
    assert(text@.take(len as int) =~= text@);
    Some(value as i32)
}

/// Draws a person's name: `fake::Fake::fake` on
/// `fake::faker::name::en::Name()`. Nothing is claimed of the text.
#[verifier::external_body]
fn fake_name() -> (name: String) {
    fake::Fake::fake(&fake::faker::name::en::Name())
}

/// Draws an address at a free mail provider: `fake::Fake::fake` on
/// `fake::faker::internet::en::FreeEmail()`, which writes a drawn user name,
/// an `@` and a drawn provider. The contract claims only that the address
/// holds an `@`.
#[verifier::external_body]
fn fake_free_email() -> (email: String)
    ensures
        email@.contains('@'),
{
    fake::Fake::fake(&fake::faker::internet::en::FreeEmail())
}

/// Draws a password: `fake::Fake::fake` on
/// `fake::faker::internet::en::Password(shortest..longer)`, which draws the
/// length from the range and then each character from the English locale's
/// password characters, the ten digits and the letters of both cases. The
/// range must not be empty: `fake` gives up on an empty one.
#[verifier::external_body]
fn fake_password(shortest: usize, longer: usize) -> (password: String)
    requires
        shortest < longer,
    ensures
        shortest <= password@.len() < longer,
        all_letters_or_digits(password@),
{
    fake::Fake::fake(&fake::faker::internet::en::Password(shortest..longer))
}

/// Draws a word of filler text: `fake::Fake::fake` on
/// `fake::faker::lorem::en::Word()`. Nothing is claimed of the text.
#[verifier::external_body]
fn fake_word() -> (word: String) {
    fake::Fake::fake(&fake::faker::lorem::en::Word())
}

/// Draws a sentence of filler text: `fake::Fake::fake` on
/// `fake::faker::lorem::en::Sentence(fewest..more)`, which draws the number
/// of words from the range. The range must not be empty: `fake` gives up on
/// an empty one. Nothing is claimed of the text.
#[verifier::external_body]
fn fake_sentence(fewest: usize, more: usize) -> (sentence: String)
    requires
        fewest < more,
{
    fake::Fake::fake(&fake::faker::lorem::en::Sentence(fewest..more))
}

/// Draws a text of letters and digits: `fake::Fake::fake` on `fake::Faker`,
/// for a `String`, which draws a length from `5..20` and then each character
/// from `rand`'s `Alphanumeric`, the ten digits and the letters of both
/// cases.
#[verifier::external_body]
fn fake_text() -> (text: String)
    ensures
        5 <= text@.len() < 20,
        all_letters_or_digits(text@),
{
    fake::Fake::fake(&fake::Faker)
}

/// Fills a number format: `fake::Fake::fake` on
/// `fake::faker::number::en::NumberWithFormat(format)`. The contract says
/// what `fake` does character by character: it puts a drawn digit for each
/// `#`, a drawn digit other than 0 for each `^`, and keeps every other
/// character.
#[verifier::external_body]
fn fake_number(format: &str) -> (number: String)
    ensures
        fills_format(format@, number@),
{
    fake::Fake::fake(&fake::faker::number::en::NumberWithFormat(format))
}

/// Draws an integer: `fake::Fake::fake` on the range `lowest..=highest`, for
/// an `i64`, which samples `rand`'s uniform distribution over the closed
/// range. The contract claims only that the draw lies in the range. The
/// range must not be empty: `fake` gives up on an empty one.
#[verifier::external_body]
fn fake_between(lowest: i64, highest: i64) -> (n: i64)
    requires
        lowest <= highest,
    ensures
        lowest <= n <= highest,
{
    fake::Fake::fake(&(lowest..=highest))
}

/// The user with the given texts, not stored: its id is 0.
pub fn user_from_draws(name: String, email: String, password: String) -> (user: User)
    ensures
        user@ == (UserView { id: 0, name: name@, email: email@, password: password@ }),
{
    match UserBuilder::default().name(name).email(email).password(password).build() {
        Ok(user) => user,
        Err(_) => unreached(),
    }
}

/// A user with a drawn name, a drawn address at a free mail provider and a
/// drawn password of 8 to 15 letters and digits. The user is not stored: its
/// id is 0.
pub fn fake_user() -> (user: User)
    ensures
        user.id == 0,
        user.email@.contains('@'),
        8 <= user.password@.len() <= 15,
        all_letters_or_digits(user.password@),
{
    user_from_draws(fake_name(), fake_free_email(), fake_password(8, 16))
}

/// A user to seed the database with: a drawn name, a drawn address at a free
/// mail provider and a drawn text of 5 to 19 letters and digits as the
/// password. The user is not stored: its id is 0.
pub fn seed_user() -> (user: User)
    ensures
        user.id == 0,
        user.email@.contains('@'),
        5 <= user.password@.len() <= 19,
        all_letters_or_digits(user.password@),
{
    user_from_draws(fake_name(), fake_free_email(), fake_text())
}

/// The year that four characters of the format `19##` write.
pub fn year_of(digits: &str) -> (year: i32)
    requires
        fills_format("19##"@, digits@),
    ensures
        year == decimal_value(digits@),
        1900 <= year <= 1999,
{
    proof {
        reveal_strlit("19##");
        let d = digits@;
        assert(d.len() == 4);
        assert(d[0] == '1' && d[1] == '9' && is_digit(d[2]) && is_digit(d[3]));
        assert(all_digits(d));
        let d3 = d.drop_last();
        let d2 = d3.drop_last();
        let d1 = d2.drop_last();
        assert(d1.drop_last().len() == 0);
        assert(decimal_value(d1) == 1) by {
            assert(decimal_value(d1.drop_last()) == 0);
            assert(d1.last() == '1');
        }
        assert(decimal_value(d2) == 19) by {
            assert(d2.last() == '9');
        }
        assert(decimal_value(d3) == 190 + (d[2] as int - '0' as int)) by {
            assert(d3.last() == d[2]);
        }
        assert(decimal_value(d) == 1900 + 10 * (d[2] as int - '0' as int) + (d[3] as int
            - '0' as int)) by {
            assert(d.last() == d[3]);
        }
    }
    match parse_digits(digits) {
        Some(year) => year,
        None => unreached(),
    }
}

/// The book with the given texts and page count, published in the year that
/// `year_digits` writes, not stored: its id is 0.
pub fn book_from_draws(
    title: String,
    author: String,
    isbn: String,
    year_digits: &str,
    description: String,
    cover_url: String,
    pages: i32,
) -> (book: Book)
    requires
        fills_format("19##"@, year_digits@),
    ensures
        book@ == (BookView {
            id: 0,
            title: title@,
            author: author@,
            isbn: isbn@,
            published_year: decimal_value(year_digits@) as i32,
            description: Some(description@),
            cover_url: Some(cover_url@),
            pages,
        }),
        1900 <= book.published_year <= 1999,
{
    let built = BookBuilder::default().title(title).author(author).isbn(isbn).published_year(
        year_of(year_digits),
    ).description(Some(description)).cover_url(Some(cover_url)).pages(pages).build();
    match built {
        Ok(book) => book,
        Err(_) => unreached(),
    }
}

/// A book with a drawn word as its title, a drawn name as its author, drawn
/// texts as its ISBN and cover address, a drawn year of the twentieth
/// century, a drawn sentence of 5 to 9 words as its description and 100 to
/// 1000 pages. The book is not stored: its id is 0.
pub fn fake_book() -> (book: Book)
    ensures
        book.id == 0,
        1900 <= book.published_year <= 1999,
        book.description is Some,
        book.cover_url is Some,
        100 <= book.pages <= 1000,
{
    let title = fake_word();
    let author = fake_name();
    let isbn = fake_text();
    let year_digits = fake_number("19##");
    let description = fake_sentence(5, 10);
    let cover_url = fake_text();
    let pages = fake_between(100, 1000) as i32;
    book_from_draws(title, author, isbn, year_digits.as_str(), description, cover_url, pages)
}

/// The association that `fake_user_book` makes of what it drew and of the
/// instants it was given.
pub open spec fn drawn_user_book(
    user_id: i64,
    book_id: i64,
    status_draw: u8,
    rating: u8,
    page: u32,
    now: Timestamp,
    began: Option<Timestamp>,
) -> UserBook {
    UserBook {
        user_id,
        book_id,
        status: if status_draw == 0 {
            ReadingStatus::ToRead
        } else if status_draw == 1 {
            ReadingStatus::Reading
        } else {
            ReadingStatus::Completed
        },
        rating: Some(rating),
        added_at: now,
        began_reading: began,
        done_reading: None,
        current_page: Some(page),
    }
}

/// The association of the user and the book with the status that the draw
/// chooses, the given rating and page, added at `now`, begun at `began` and
/// not yet done.
pub fn user_book_from_draws(
    user_id: i64,
    book_id: i64,
    status_draw: u8,
    rating: u8,
    page: u32,
    now: Timestamp,
    began: Option<Timestamp>,
) -> (user_book: UserBook)
    ensures
        user_book == drawn_user_book(user_id, book_id, status_draw, rating, page, now, began),
{
    let built = UserBookBuilder::default().user_id(user_id).book_id(book_id).status(
        ReadingStatus::from_draw(status_draw),
    ).rating(Some(rating)).added_at(now).began_reading(began).done_reading(None).current_page(
        Some(page),
    ).build_at(now);
    match built {
        Ok(user_book) => user_book,
        Err(_) => unreached(),
    }
}

/// An association of the user and the book with a drawn status, a drawn
/// rating from 1 to 10 and a drawn page from 1 to 500, added now, begun at
/// noon of 1 January 2023 in UTC and not yet done.
pub fn fake_user_book(user_id: i64, book_id: i64) -> (user_book: UserBook)
    ensures
        exists|status_draw: u8, rating: u8, page: u32, now: Timestamp|
            0 <= status_draw <= 2 && 1 <= rating <= 10 && 1 <= page <= 500 && user_book
                == drawn_user_book(
                user_id,
                book_id,
                status_draw,
                rating,
                page,
                now,
                utc_instant(2023, 1, 1, 12, 0, 0),
            ),
{
    let status_draw = fake_between(0, 2) as u8;
    let rating = fake_between(1, 10) as u8;
    let page = fake_between(1, 500) as u32;
    let now = utc_now();
    let began = utc_ymd_hms(2023, 1, 1, 12, 0, 0);
    user_book_from_draws(user_id, book_id, status_draw, rating, page, now, began)
}

} // verus!
