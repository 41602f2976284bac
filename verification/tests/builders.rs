use bookshelf::models::book::{Book, BookBuilder};
use bookshelf::error::{Field, ValidationError};
use bookshelf::status::ReadingStatus;
use bookshelf::timestamp::Timestamp;
use bookshelf::models::user::{User, UserBuilder};
use bookshelf::models::user_book::{UserBook, UserBookBuilder};

fn missing(field: Field) -> ValidationError {
    ValidationError { field }
}

#[test]
fn user_builder_fills_the_id_with_zero() {
    let u = UserBuilder::default()
        .name("Ann".to_string())
        .email("ann@x.com".to_string())
        .password("pw".to_string())
        .build();
    assert_eq!(
        u,
        Ok(User {
            id: 0,
            name: "Ann".to_string(),
            email: "ann@x.com".to_string(),
            password: "pw".to_string()
        })
    );
}

#[test]
fn user_builder_keeps_a_given_id() {
    let u = UserBuilder::default()
        .id(12)
        .name("Ann".to_string())
        .email("ann@x.com".to_string())
        .password("pw".to_string())
        .build()
        .unwrap();
    assert_eq!(u.id, 12);
}

#[test]
fn user_builder_names_the_first_missing_field() {
    assert_eq!(UserBuilder::default().build(), Err(missing(Field::Name)));
    assert_eq!(UserBuilder::default().id(3).build(), Err(missing(Field::Name)));
    assert_eq!(
        UserBuilder::default().email("e".to_string()).password("p".to_string()).build(),
        Err(missing(Field::Name))
    );
    assert_eq!(
        UserBuilder::default().name("n".to_string()).password("p".to_string()).build(),
        Err(missing(Field::Email))
    );
    assert_eq!(UserBuilder::default().name("n".to_string()).build(), Err(missing(Field::Email)));
    assert_eq!(
        UserBuilder::default().name("n".to_string()).email("e".to_string()).build(),
        Err(missing(Field::Password))
    );
}

#[test]
fn user_builder_takes_the_last_value_given() {
    let u = UserBuilder::default()
        .name("first".to_string())
        .name("second".to_string())
        .email("e".to_string())
        .password("p".to_string())
        .build()
        .unwrap();
    assert_eq!(u.name, "second");
}

#[test]
fn book_builder_fills_the_optional_fields() {
    let b = BookBuilder::default()
        .title("T".to_string())
        .author("A".to_string())
        .isbn("I".to_string())
        .published_year(1866)
        .pages(592)
        .build();
    assert_eq!(
        b,
        Ok(Book {
            id: 0,
            title: "T".to_string(),
            author: "A".to_string(),
            isbn: "I".to_string(),
            published_year: 1866,
            description: None,
            cover_url: None,
            pages: 592,
        })
    );
}

#[test]
fn book_builder_keeps_what_is_given() {
    let b = BookBuilder::default()
        .id(5)
        .title("T".to_string())
        .author("A".to_string())
        .isbn("I".to_string())
        .published_year(1866)
        .description(Some("D".to_string()))
        .cover_url(Some("C".to_string()))
        .pages(592)
        .build()
        .unwrap();
    assert_eq!(b.id, 5);
    assert_eq!(b.description, Some("D".to_string()));
    assert_eq!(b.cover_url, Some("C".to_string()));
    let none = BookBuilder::default()
        .title("T".to_string())
        .author("A".to_string())
        .isbn("I".to_string())
        .published_year(1866)
        .description(None)
        .cover_url(None)
        .pages(592)
        .build()
        .unwrap();
    assert_eq!((none.description, none.cover_url), (None, None));
}

#[test]
fn book_builder_names_the_first_missing_field() {
    let full = || {
        BookBuilder::default()
            .title("T".to_string())
            .author("A".to_string())
            .isbn("I".to_string())
            .published_year(1866)
            .pages(592)
    };
    assert!(full().build().is_ok());
    assert_eq!(BookBuilder::default().build(), Err(missing(Field::Title)));
    assert_eq!(BookBuilder { title: None, ..full() }.build(), Err(missing(Field::Title)));
    assert_eq!(BookBuilder { author: None, ..full() }.build(), Err(missing(Field::Author)));
    assert_eq!(BookBuilder { isbn: None, ..full() }.build(), Err(missing(Field::Isbn)));
    assert_eq!(
        BookBuilder { published_year: None, ..full() }.build(),
        Err(missing(Field::PublishedYear))
    );
    assert_eq!(BookBuilder { pages: None, ..full() }.build(), Err(missing(Field::Pages)));
    assert_eq!(
        BookBuilder { author: None, pages: None, ..full() }.build(),
        Err(missing(Field::Author))
    );
    assert_eq!(
        BookBuilder { isbn: None, published_year: None, ..full() }.build(),
        Err(missing(Field::Isbn))
    );
    assert_eq!(
        BookBuilder { published_year: None, pages: None, ..full() }.build(),
        Err(missing(Field::PublishedYear))
    );
}

#[test]
fn user_book_builder_fills_the_defaults() {
    let at = Timestamp { seconds: 1700000000, nanos: 5 };
    let ub = UserBookBuilder::default().user_id(7).book_id(3).build_at(at);
    assert_eq!(
        ub,
        Ok(UserBook {
            user_id: 7,
            book_id: 3,
            status: ReadingStatus::ToRead,
            rating: None,
            added_at: at,
            began_reading: None,
            done_reading: None,
            current_page: None,
        })
    );
}

#[test]
fn user_book_builder_keeps_what_is_given() {
    let at = Timestamp { seconds: 1700000000, nanos: 5 };
    let given = Timestamp { seconds: 12, nanos: 0 };
    let ub = UserBookBuilder::default()
        .user_id(7)
        .book_id(3)
        .status(ReadingStatus::Completed)
        .rating(Some(9))
        .added_at(given)
        .began_reading(Some(Timestamp { seconds: 13, nanos: 0 }))
        .done_reading(Some(Timestamp { seconds: 14, nanos: 0 }))
        .current_page(Some(100))
        .build_at(at)
        .unwrap();
    assert_eq!(
        ub,
        UserBook {
            user_id: 7,
            book_id: 3,
            status: ReadingStatus::Completed,
            rating: Some(9),
            added_at: given,
            began_reading: Some(Timestamp { seconds: 13, nanos: 0 }),
            done_reading: Some(Timestamp { seconds: 14, nanos: 0 }),
            current_page: Some(100),
        }
    );
}

#[test]
fn user_book_builder_names_the_first_missing_field() {
    let at = Timestamp { seconds: 0, nanos: 0 };
    assert_eq!(UserBookBuilder::default().build_at(at), Err(missing(Field::UserId)));
    assert_eq!(UserBookBuilder::default().book_id(3).build_at(at), Err(missing(Field::UserId)));
    assert_eq!(UserBookBuilder::default().user_id(7).build_at(at), Err(missing(Field::BookId)));
    assert_eq!(UserBookBuilder::default().build(), Err(missing(Field::UserId)));
    assert_eq!(
        UserBookBuilder::default().user_id(7).rating(Some(1)).build(),
        Err(missing(Field::BookId))
    );
}

#[test]
fn user_book_builder_reads_the_clock_for_the_time_of_adding() {
    let before = chrono::Utc::now().timestamp();
    let ub = UserBookBuilder::default().user_id(7).book_id(3).build().unwrap();
    let after = chrono::Utc::now().timestamp();
    assert!(before <= ub.added_at.seconds && ub.added_at.seconds <= after);
    assert!(ub.added_at.nanos < 2_000_000_000);
    assert_eq!(ub.status, ReadingStatus::ToRead);
    assert_eq!((ub.rating, ub.began_reading, ub.done_reading, ub.current_page), (None, None, None, None));
}

#[test]
fn user_book_builder_prefers_a_given_time_of_adding() {
    let given = Timestamp { seconds: 12, nanos: 34 };
    let ub = UserBookBuilder::default().user_id(7).book_id(3).added_at(given).build().unwrap();
    assert_eq!(ub.added_at, given);
}

#[test]
fn validation_error_names_the_column() {
    assert_eq!(missing(Field::Name).message(), "`name` must be initialized");
    assert_eq!(missing(Field::PublishedYear).message(), "`published_year` must be initialized");
    let labels: Vec<&str> = [
        Field::Name,
        Field::Email,
        Field::Password,
        Field::Title,
        Field::Author,
        Field::Isbn,
        Field::PublishedYear,
        Field::Pages,
        Field::UserId,
        Field::BookId,
    ]
    .iter()
    .map(|f| f.label())
    .collect();
    assert_eq!(
        labels,
        vec![
            "name",
            "email",
            "password",
            "title",
            "author",
            "isbn",
            "published_year",
            "pages",
            "user_id",
            "book_id"
        ]
    );
}
