use bookshelf::factories::{
    book_from_draws, fake_book, fake_user, fake_user_book, parse_digits, seed_user,
    user_book_from_draws, user_from_draws, year_of,
};
use bookshelf::models::book::Book;
use bookshelf::models::user::User;
use bookshelf::status::ReadingStatus;
use bookshelf::timestamp::Timestamp;
use bookshelf::models::user_book::UserBook;

#[test]
fn fake_user_is_not_stored_and_is_filled() {
    for _ in 0..50 {
        let u = fake_user();
        assert_eq!(u.id, 0);
        assert!(!u.name.is_empty());
        assert!(u.email.contains('@'));
        let len = u.password.chars().count();
        assert!((8..16).contains(&len));
        assert!(u.password.chars().all(|c| c.is_ascii_alphanumeric()));
    }
}

#[test]
fn seed_user_is_not_stored_and_is_filled() {
    for _ in 0..50 {
        let u = seed_user();
        assert_eq!(u.id, 0);
        assert!(!u.name.is_empty());
        assert!(u.email.contains('@'));
        let len = u.password.chars().count();
        assert!((5..20).contains(&len));
        assert!(u.password.chars().all(|c| c.is_ascii_alphanumeric()));
    }
}

#[test]
fn fake_users_differ() {
    let emails: std::collections::HashSet<String> = (0..40).map(|_| fake_user().password).collect();
    assert!(emails.len() > 1);
}

#[test]
fn fake_book_stays_in_its_ranges() {
    for _ in 0..200 {
        let b = fake_book();
        assert_eq!(b.id, 0);
        assert!((1900..=1999).contains(&b.published_year));
        assert!((100..=1000).contains(&b.pages));
        assert!(b.description.is_some());
        assert!(b.cover_url.is_some());
        assert!(!b.title.is_empty());
        assert!(!b.author.is_empty());
        assert!(b.description.unwrap().ends_with('.'));
    }
}

#[test]
fn fake_book_years_differ() {
    let years: std::collections::HashSet<i32> = (0..100).map(|_| fake_book().published_year).collect();
    assert!(years.len() > 1);
}

#[test]
fn fake_user_book_stays_in_its_ranges() {
    let before = chrono::Utc::now().timestamp();
    for _ in 0..200 {
        let ub = fake_user_book(7, 3);
        assert_eq!((ub.user_id, ub.book_id), (7, 3));
        let rating = ub.rating.unwrap();
        assert!((1..=10).contains(&rating));
        let page = ub.current_page.unwrap();
        assert!((1..=500).contains(&page));
        assert_eq!(ub.done_reading, None);
        // noon of 1 January 2023 in UTC
        assert_eq!(ub.began_reading, Some(Timestamp { seconds: 1672574400, nanos: 0 }));
        assert!(ub.added_at.seconds >= before);
    }
}

#[test]
fn fake_user_book_draws_every_status() {
    let mut seen = [false; 3];
    for _ in 0..300 {
        match fake_user_book(1, 1).status {
            ReadingStatus::ToRead => seen[0] = true,
            ReadingStatus::Reading => seen[1] = true,
            ReadingStatus::Completed => seen[2] = true,
        }
    }
    assert_eq!(seen, [true, true, true]);
}

#[test]
fn user_book_from_draws_is_exact() {
    let now = Timestamp { seconds: 50, nanos: 1 };
    let began = Some(Timestamp { seconds: 40, nanos: 0 });
    let expected = UserBook {
        user_id: 7,
        book_id: 3,
        status: ReadingStatus::Reading,
        rating: Some(10),
        added_at: now,
        began_reading: began,
        done_reading: None,
        current_page: Some(500),
    };
    assert_eq!(user_book_from_draws(7, 3, 1, 10, 500, now, began), expected);
    assert_eq!(
        user_book_from_draws(7, 3, 0, 10, 500, now, None),
        UserBook { status: ReadingStatus::ToRead, began_reading: None, ..expected }
    );
    assert_eq!(
        user_book_from_draws(7, 3, 2, 1, 1, now, began),
        UserBook {
            status: ReadingStatus::Completed,
            rating: Some(1),
            current_page: Some(1),
            ..expected
        }
    );
}

#[test]
fn parse_digits_reads_decimal_numbers() {
    assert_eq!(parse_digits("0"), Some(0));
    assert_eq!(parse_digits("7"), Some(7));
    assert_eq!(parse_digits("1984"), Some(1984));
    assert_eq!(parse_digits("0042"), Some(42));
    assert_eq!(parse_digits("2147483647"), Some(2147483647));
    assert_eq!(parse_digits("00000000002147483647"), Some(2147483647));
}

#[test]
fn parse_digits_refuses_the_rest() {
    assert_eq!(parse_digits(""), None);
    assert_eq!(parse_digits("2147483648"), None);
    assert_eq!(parse_digits("99999999999999999999999"), None);
    assert_eq!(parse_digits("-1"), None);
    assert_eq!(parse_digits("+1"), None);
    assert_eq!(parse_digits("19 4"), None);
    assert_eq!(parse_digits("19a4"), None);
    assert_eq!(parse_digits("١٩"), None);
    assert_eq!(parse_digits("99999999999x"), None);
}

#[test]
fn year_of_reads_a_year_of_the_twentieth_century() {
    assert_eq!(year_of("1900"), 1900);
    assert_eq!(year_of("1984"), 1984);
    assert_eq!(year_of("1999"), 1999);
}

#[test]
fn user_from_draws_is_exact() {
    assert_eq!(
        user_from_draws("Ann".to_string(), "ann@x.com".to_string(), "pw".to_string()),
        User {
            id: 0,
            name: "Ann".to_string(),
            email: "ann@x.com".to_string(),
            password: "pw".to_string()
        }
    );
}

#[test]
fn book_from_draws_is_exact() {
    assert_eq!(
        book_from_draws(
            "lorem".to_string(),
            "Ann Lee".to_string(),
            "x1".to_string(),
            "1907",
            "a b c d e.".to_string(),
            "y2".to_string(),
            100,
        ),
        Book {
            id: 0,
            title: "lorem".to_string(),
            author: "Ann Lee".to_string(),
            isbn: "x1".to_string(),
            published_year: 1907,
            description: Some("a b c d e.".to_string()),
            cover_url: Some("y2".to_string()),
            pages: 100,
        }
    );
}
