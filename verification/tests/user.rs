use bookshelf::error::{DriverError, PersistenceError};
use bookshelf::reply::ExecOutcome;
use bookshelf::statement::{Command, Query};
use bookshelf::store::Store;
use bookshelf::models::user::{User, UserBuilder};
use bookshelf::value::Value;

fn stored_user(store: &mut Store, name: &str, email: &str, password: &str) -> User {
    let mut u = UserBuilder::default()
        .name(name.to_string())
        .email(email.to_string())
        .password(password.to_string())
        .build()
        .unwrap();
    let reply = store.execute(&u.create_statement());
    u.create(reply).unwrap();
    u
}

#[test]
fn user_create_then_get_and_delete() {
    // Arrange
    let mut store = Store::new();
    let mut u = UserBuilder::default()
        .name("Test".to_string())
        .email("a@create.com".to_string())
        .password("pw".to_string())
        .build()
        .unwrap();

    // Act
    let reply = store.execute(&u.create_statement());
    u.create(reply).unwrap();
    let fetched = User::get(store.fetch_one(&User::get_statement(u.id))).unwrap();
    let deleted_rows = u.delete(store.execute(&u.delete_statement())).unwrap();

    // Assert
    assert_eq!("a@create.com", fetched.email);
    assert_eq!("Test", fetched.name);
    assert_eq!("pw", fetched.password);

    assert_eq!(u.id, fetched.id);
    assert_eq!(u.email, fetched.email);
    assert_eq!(u.name, fetched.name);
    assert_eq!(u.password, fetched.password);

    assert_eq!(1, deleted_rows)
}

#[test]
fn user_update() {
    // Arrange
    let mut store = Store::new();
    let mut u = UserBuilder::default()
        .name("Test".to_string())
        .email("a@update.com".to_string())
        .password("pw".to_string())
        .build()
        .unwrap();

    // Act
    let reply = store.execute(&u.create_statement());
    u.create(reply).unwrap();
    let fetched = User::get(store.fetch_one(&User::get_statement(u.id))).unwrap();

    u.name = "New Name".to_string();
    u.email = "b@update.dk".to_string();
    u.password = "npw".to_string();

    let updated_rows = u.update(store.execute(&u.update_statement())).unwrap();

    let updated_fetch = User::get(store.fetch_one(&User::get_statement(u.id))).unwrap();

    let deleted_rows = u.delete(store.execute(&u.delete_statement())).unwrap();

    // Assert
    assert_ne!(fetched.name, updated_fetch.name);
    assert_ne!(fetched.email, updated_fetch.email);
    assert_ne!(fetched.password, updated_fetch.password);
    assert_eq!(fetched.id, updated_fetch.id);

    assert_eq!(1, updated_rows);
    assert_eq!(1, deleted_rows);
}

#[test]
fn user_lifecycle_create_update_get_delete() {
    let mut store = Store::new();
    // six users come first, so that Ann is the seventh
    for n in 0..6 {
        stored_user(&mut store, "Other", &format!("o{}@x.com", n), "pw");
    }
    let mut ann = UserBuilder::default()
        .name("Ann".to_string())
        .email("ann@x.com".to_string())
        .password("pw".to_string())
        .build()
        .unwrap();
    assert_eq!(ann.id, 0);
    let reply = store.execute(&ann.create_statement());
    assert_eq!(reply, Ok(ExecOutcome { rows_affected: 1, last_insert_id: 7 }));
    ann.create(reply).unwrap();
    assert_eq!(ann.id, 7);

    ann.email = "a2@x.com".to_string();
    assert_eq!(ann.update(store.execute(&ann.update_statement())), Ok(1));
    let fetched = User::get(store.fetch_one(&User::get_statement(7))).unwrap();
    assert_eq!(fetched.email, "a2@x.com");
    assert_eq!(fetched, ann);

    assert_eq!(ann.delete(store.execute(&ann.delete_statement())), Ok(1));
    assert_eq!(
        User::get(store.fetch_one(&User::get_statement(7))),
        Err(PersistenceError::NotFound)
    );
}

#[test]
fn user_round_trip_keeps_every_field_but_the_id() {
    let mut store = Store::new();
    let built = UserBuilder::default()
        .name("Zoë \"Z\" O'Neil".to_string())
        .email("".to_string())
        .password("pässwörd".to_string())
        .build()
        .unwrap();
    let mut u = built.clone();
    let reply = store.execute(&u.create_statement());
    u.create(reply).unwrap();
    assert!(u.id > 0);
    let fetched = u.fetch(store.fetch_one(&u.fetch_statement())).unwrap();
    assert_eq!(fetched, User { id: u.id, ..built });
}

#[test]
fn user_ids_are_assigned_in_order_and_never_reused() {
    let mut store = Store::new();
    let a = stored_user(&mut store, "A", "a@x.com", "pw");
    let b = stored_user(&mut store, "B", "b@x.com", "pw");
    assert_eq!((a.id, b.id), (1, 2));
    assert_eq!(b.delete(store.execute(&b.delete_statement())), Ok(1));
    let c = stored_user(&mut store, "C", "c@x.com", "pw");
    assert_eq!(c.id, 3);
}

#[test]
fn user_update_twice_matches_one_row_both_times() {
    let mut store = Store::new();
    let mut u = stored_user(&mut store, "Test", "a@x.com", "pw");
    u.name = "Changed".to_string();
    assert_eq!(u.update(store.execute(&u.update_statement())), Ok(1));
    let once = User::get(store.fetch_one(&User::get_statement(u.id))).unwrap();
    assert_eq!(u.update(store.execute(&u.update_statement())), Ok(1));
    let twice = User::get(store.fetch_one(&User::get_statement(u.id))).unwrap();
    assert_eq!(once, twice);
    assert_eq!(twice, u);
}

#[test]
fn user_update_of_a_missing_row_matches_none() {
    let mut store = Store::new();
    let u = stored_user(&mut store, "Test", "a@x.com", "pw");
    assert_eq!(u.delete(store.execute(&u.delete_statement())), Ok(1));
    assert_eq!(u.update(store.execute(&u.update_statement())), Ok(0));
    assert_eq!(u.update(store.execute(&u.update_statement())), Ok(0));
    assert_eq!(u.fetch(store.fetch_one(&u.fetch_statement())), Err(PersistenceError::NotFound));
}

#[test]
fn user_delete_is_final() {
    let mut store = Store::new();
    let u = stored_user(&mut store, "Test", "a@x.com", "pw");
    assert_eq!(u.delete(store.execute(&u.delete_statement())), Ok(1));
    assert_eq!(User::get(store.fetch_one(&User::get_statement(u.id))), Err(PersistenceError::NotFound));
    assert_eq!(u.delete(store.execute(&u.delete_statement())), Ok(0));
    // the record in memory is left as it was
    assert_eq!(u.name, "Test");
}

#[test]
fn user_create_keeps_the_record_on_failure() {
    let mut u = UserBuilder::default()
        .name("Test".to_string())
        .email("a@x.com".to_string())
        .password("pw".to_string())
        .build()
        .unwrap();
    assert_eq!(u.create(Err(DriverError::Other)), Err(PersistenceError::Other));
    assert_eq!(u.id, 0);
    assert_eq!(u.create(Err(DriverError::UniqueViolation)), Err(PersistenceError::ConstraintViolation));
    assert_eq!(u.id, 0);
}

#[test]
fn user_create_takes_the_reported_id() {
    let mut u = UserBuilder::default()
        .name("Test".to_string())
        .email("a@x.com".to_string())
        .password("pw".to_string())
        .build()
        .unwrap();
    assert_eq!(u.create(Ok(ExecOutcome { rows_affected: 1, last_insert_id: 42 })), Ok(()));
    assert_eq!(u.id, 42);
    assert_eq!(u.name, "Test");
    assert_eq!(u.create(Ok(ExecOutcome { rows_affected: 1, last_insert_id: u64::MAX })), Ok(()));
    assert_eq!(u.id, -1);
}

#[test]
fn user_statements_bind_the_columns_in_order() {
    let u = User { id: 9, name: "N".to_string(), email: "E".to_string(), password: "P".to_string() };
    let insert = u.create_statement();
    assert_eq!(insert, Command::InsertUser(u.clone()));
    assert_eq!(insert.sql(), "INSERT INTO users (name, email, password) VALUES (?, ?, ?)");
    assert_eq!(
        insert.params(),
        vec![Value::Text("N".to_string()), Value::Text("E".to_string()), Value::Text("P".to_string())]
    );
    let update = u.update_statement();
    assert_eq!(update.sql(), "UPDATE users SET name = ?, email = ?, password = ? WHERE id = ?");
    assert_eq!(
        update.params(),
        vec![
            Value::Text("N".to_string()),
            Value::Text("E".to_string()),
            Value::Text("P".to_string()),
            Value::Int(9)
        ]
    );
    let delete = u.delete_statement();
    assert_eq!(delete, Command::DeleteUser(9));
    assert_eq!(delete.sql(), "DELETE FROM users WHERE id = ?");
    assert_eq!(delete.params(), vec![Value::Int(9)]);
    let fetch = u.fetch_statement();
    assert_eq!(fetch, Query::SelectUser(9));
    assert_eq!(fetch, User::get_statement(9));
    assert_eq!(fetch.sql(), "SELECT id, name, email, password FROM users WHERE id = ?");
    assert_eq!(fetch.params(), vec![Value::Int(9)]);
}

#[test]
fn user_row_is_read_back() {
    let u = User { id: 9, name: "N".to_string(), email: "E".to_string(), password: "P".to_string() };
    let row = u.to_row();
    assert_eq!(
        row,
        vec![
            Value::Int(9),
            Value::Text("N".to_string()),
            Value::Text("E".to_string()),
            Value::Text("P".to_string())
        ]
    );
    assert_eq!(User::from_row(&row), Ok(u));
}

#[test]
fn user_row_of_another_shape_is_malformed() {
    let good = vec![
        Value::Int(9),
        Value::Text("N".to_string()),
        Value::Text("E".to_string()),
        Value::Text("P".to_string()),
    ];
    let mut short = good.clone();
    short.pop();
    assert_eq!(User::from_row(&short), Err(PersistenceError::Malformed));
    let mut long = good.clone();
    long.push(Value::Null);
    assert_eq!(User::from_row(&long), Err(PersistenceError::Malformed));
    for at in 0..4 {
        let mut bad = good.clone();
        bad[at] = Value::Null;
        assert_eq!(User::from_row(&bad), Err(PersistenceError::Malformed));
    }
    let mut swapped = good.clone();
    swapped[0] = Value::Text("9".to_string());
    assert_eq!(User::from_row(&swapped), Err(PersistenceError::Malformed));
    assert_eq!(User::from_row(&Vec::new()), Err(PersistenceError::Malformed));
}

#[test]
fn user_get_maps_the_failures_of_the_driver() {
    assert_eq!(User::get(Err(DriverError::RowNotFound)), Err(PersistenceError::NotFound));
    assert_eq!(User::get(Err(DriverError::Other)), Err(PersistenceError::Other));
    assert_eq!(User::get(Ok(vec![Value::Int(1)])), Err(PersistenceError::Malformed));
}
