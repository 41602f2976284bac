use bookshelf::models::book::{Book, BookBuilder};
use bookshelf::error::PersistenceError;
use bookshelf::statement::{Command, Query};
use bookshelf::store::Store;
use bookshelf::value::Value;

const LIFE: &str = "FYODOR MIKAILOVICH DOSTOEVSKY's life was as dark and dramatic as the great novels he wrote. He was born in Moscow in 1821. A short first novel, Poor Folk (1846) brought him instant success, but his writing career was cut short by his arrest for alleged subversion against Tsar Nicholas I in 1849. In prison he was given the “silent treatment” for eight months (guards even wore velvet soled boots) before he was led in front a firing squad. Dressed in a death shroud, he faced an open grave and awaited execution, when suddenly, an order arrived commuting his sentence. He then spent four years at hard labor in a Siberian prison, where he began to suffer from epilepsy, and he returned to St. Petersburg only a full ten years after he had left in chains.\n His prison experiences coupled with his conversion to a profoundly religious philosophy formed the basis for his great novels. But it was his fortuitous marriage to Anna Snitkina, following a period of utter destitution brought about by his compulsive gambling, that gave Dostoevsky the emotional stability to complete Crime and Punishment (1866), The Idiot (1868-69), The Possessed (1871-72),and The Brothers Karamazov (1879-80). When Dostoevsky died in 1881, he left a legacy of masterworks that influenced the great thinkers and writers of the Western world and immortalized him as a giant among writers of world literature.";

fn sample_book() -> Book {
    Book {
        id: 4,
        title: "T".to_string(),
        author: "A".to_string(),
        isbn: "I".to_string(),
        published_year: 1866,
        description: Some("D".to_string()),
        cover_url: None,
        pages: 592,
    }
}

#[test]
fn book_create_then_get_and_delete() {
    // Arrange
    let mut store = Store::new();
    let mut u = BookBuilder::default()
        .title("Crime and Punishment".to_string())
        .author("Fyodor Dostoevsky".to_string())
        .isbn("9780307829603".to_string())
        .published_year(2012)
        .description(Some(LIFE.to_string()))
        .cover_url(None)
        .pages(592)
        .build()
        .unwrap();

    // Act
    let reply = store.execute(&u.create_statement());
    u.create(reply).unwrap();
    let fetched = Book::get(store.fetch_one(&Book::get_statement(u.id))).unwrap();
    let deleted_rows = u.delete(store.execute(&u.delete_statement())).unwrap();

    // Assert
    assert_eq!("Crime and Punishment".to_string(), fetched.title);
    assert_eq!("Fyodor Dostoevsky".to_string(), fetched.author);
    assert_eq!("9780307829603".to_string(), fetched.isbn);
    assert_eq!(2012, fetched.published_year);
    assert_eq!(Some(LIFE.to_string()), fetched.description);
    assert_eq!(592, fetched.pages);

    assert_eq!(u.id, fetched.id);
    assert_eq!(u.title, fetched.title);
    assert_eq!(u.author, fetched.author);
    assert_eq!(u.isbn, fetched.isbn);
    assert_eq!(u.published_year, fetched.published_year);
    assert_eq!(u.description, fetched.description);
    assert_eq!(u.cover_url, fetched.cover_url);
    assert_eq!(u.pages, fetched.pages);

    assert_eq!(1, deleted_rows)
}

#[test]
fn book_update() {
    // Arrange
    let mut store = Store::new();
    let mut u = BookBuilder::default()
        .title("Crime and Punishment".to_string())
        .author("Fyodor Dostoevsky".to_string())
        .isbn("9780307829604".to_string())
        .published_year(2012)
        .description(Some(LIFE.to_string()))
        .pages(592)
        .build()
        .unwrap();

    // Act
    let reply = store.execute(&u.create_statement());
    u.create(reply).unwrap();
    let fetched = Book::get(store.fetch_one(&Book::get_statement(u.id))).unwrap();

    u.title = "Brothers Karamazov".to_string();
    u.description = None;

    let reply = store.execute(&u.update_statement());
    let updated_rows = u.update(reply).unwrap();

    let updated_fetch = Book::get(store.fetch_one(&Book::get_statement(u.id))).unwrap();

    let deleted_rows = u.delete(store.execute(&u.delete_statement())).unwrap();

    // Assert
    assert_ne!(fetched.title, updated_fetch.title);
    assert_ne!(fetched.description, updated_fetch.description);

    assert_eq!(1, updated_rows);
    assert_eq!(1, deleted_rows);
}

#[test]
fn book_round_trip_keeps_every_field_but_the_id() {
    let mut store = Store::new();
    let built = BookBuilder::default()
        .title("T".to_string())
        .author("A".to_string())
        .isbn("I".to_string())
        .published_year(-44)
        .cover_url(Some("http://x/y.png".to_string()))
        .pages(i32::MAX)
        .build()
        .unwrap();
    let mut b = built.clone();
    let reply = store.execute(&b.create_statement());
    b.create(reply).unwrap();
    assert_eq!(b.id, 1);
    let fetched = b.fetch(store.fetch_one(&b.fetch_statement())).unwrap();
    assert_eq!(fetched, Book { id: 1, ..built });
}

#[test]
fn book_update_twice_and_delete_twice() {
    let mut store = Store::new();
    let mut b = sample_book();
    let reply = store.execute(&b.create_statement());
    b.create(reply).unwrap();
    b.pages = 600;
    let reply = store.execute(&b.update_statement());
    assert_eq!(b.update(reply), Ok(1));
    let reply = store.execute(&b.update_statement());
    assert_eq!(b.update(reply), Ok(1));
    assert_eq!(Book::get(store.fetch_one(&Book::get_statement(b.id))), Ok(b.clone()));
    assert_eq!(b.delete(store.execute(&b.delete_statement())), Ok(1));
    assert_eq!(b.delete(store.execute(&b.delete_statement())), Ok(0));
    let reply = store.execute(&b.update_statement());
    assert_eq!(b.update(reply), Ok(0));
    assert_eq!(Book::get(store.fetch_one(&Book::get_statement(b.id))), Err(PersistenceError::NotFound));
}

#[test]
fn book_statements_bind_the_columns_in_order() {
    let b = sample_book();
    let insert = b.create_statement();
    assert_eq!(insert, Command::InsertBook(b.clone()));
    assert_eq!(
        insert.sql(),
        "INSERT INTO books (title, author, isbn, published_year, description, cover_url, pages) VALUES (?, ?, ?, ?, ?, ?, ?)"
    );
    let bound = vec![
        Value::Text("T".to_string()),
        Value::Text("A".to_string()),
        Value::Text("I".to_string()),
        Value::Int(1866),
        Value::Text("D".to_string()),
        Value::Null,
        Value::Int(592),
    ];
    assert_eq!(insert.params(), bound);
    let update = b.update_statement();
    assert_eq!(
        update.sql(),
        "UPDATE books SET title = ?, author = ?, isbn = ?, published_year = ?, description = ?, cover_url = ?, pages = ? WHERE id = ?"
    );
    let mut with_key = bound.clone();
    with_key.push(Value::Int(4));
    assert_eq!(update.params(), with_key);
    let delete = b.delete_statement();
    assert_eq!(delete, Command::DeleteBook(4));
    assert_eq!(delete.sql(), "DELETE FROM books WHERE id = ?");
    assert_eq!(delete.params(), vec![Value::Int(4)]);
    let fetch = b.fetch_statement();
    assert_eq!(fetch, Query::SelectBook(4));
    assert_eq!(fetch, Book::get_statement(4));
    assert_eq!(
        fetch.sql(),
        "SELECT id, title, author, isbn, published_year, description, cover_url, pages FROM books WHERE id = ?"
    );
    assert_eq!(fetch.params(), vec![Value::Int(4)]);
}

#[test]
fn book_row_is_read_back() {
    let b = sample_book();
    let row = b.to_row();
    assert_eq!(
        row,
        vec![
            Value::Int(4),
            Value::Text("T".to_string()),
            Value::Text("A".to_string()),
            Value::Text("I".to_string()),
            Value::Int(1866),
            Value::Text("D".to_string()),
            Value::Null,
            Value::Int(592),
        ]
    );
    assert_eq!(Book::from_row(&row), Ok(b));
}

#[test]
fn book_row_of_another_shape_is_malformed() {
    let good = sample_book().to_row();
    let mut short = good.clone();
    short.pop();
    assert_eq!(Book::from_row(&short), Err(PersistenceError::Malformed));
    // the required columns may not be NULL, the optional ones may
    for at in [0, 1, 2, 3, 4, 7] {
        let mut bad = good.clone();
        bad[at] = Value::Null;
        assert_eq!(Book::from_row(&bad), Err(PersistenceError::Malformed));
    }
    for at in [5, 6] {
        let mut fine = good.clone();
        fine[at] = Value::Null;
        assert!(Book::from_row(&fine).is_ok());
        let mut bad = good.clone();
        bad[at] = Value::Int(1);
        assert_eq!(Book::from_row(&bad), Err(PersistenceError::Malformed));
    }
}

#[test]
fn book_year_and_pages_must_fit_in_32_bits() {
    let good = sample_book().to_row();
    for at in [4, 7] {
        let mut top = good.clone();
        top[at] = Value::Int(2147483647);
        assert!(Book::from_row(&top).is_ok());
        let mut over = good.clone();
        over[at] = Value::Int(2147483648);
        assert_eq!(Book::from_row(&over), Err(PersistenceError::Malformed));
        let mut bottom = good.clone();
        bottom[at] = Value::Int(-2147483648);
        assert!(Book::from_row(&bottom).is_ok());
        let mut under = good.clone();
        under[at] = Value::Int(-2147483649);
        assert_eq!(Book::from_row(&under), Err(PersistenceError::Malformed));
    }
}
