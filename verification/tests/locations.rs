use contact::contact::Contact;
use contact::database::Database;
use contact::error::Error;
use contact::get_database;

fn fault(result: Result<Database, Error>) -> Error {
    match result {
        Ok(_) => panic!("a store was acquired"),
        Err(e) => e,
    }
}

fn store(result: Result<Database, Error>) -> Database {
    match result {
        Ok(database) => database,
        Err(e) => panic!("no store: {:?}", e),
    }
}

fn clear(database: &Database) {
    if let Some(records) = database.select_contacts().unwrap() {
        for record in records {
            database.delete_contact(record.id()).unwrap();
        }
    }
}

#[test]
fn open_where_no_file_is_names_the_location() {
    let location = "/tmp/contact-book-that-is-never-made.db";
    match fault(Database::open(location)) {
        Error::NoFile(named) => assert_eq!(named, location),
        other => panic!("unexpected: {:?}", other),
    }
    assert!(!std::path::Path::new(location).exists());
}

#[test]
fn open_of_a_directory_names_the_location() {
    match fault(Database::open("/tmp")) {
        Error::NoFile(named) => assert_eq!(named, "/tmp"),
        other => panic!("unexpected: {:?}", other),
    }
}

#[test]
fn create_where_the_table_is_already_fails() {
    let location = "/tmp/contact-book-made-twice.db";
    let _ = Database::create(location);
    match fault(Database::create(location)) {
        Error::Rusqlite(message) => assert!(message.contains("already exists"), "{}", message),
        other => panic!("unexpected: {:?}", other),
    }
}

#[test]
fn create_in_a_shared_memory_store_fails_the_second_time() {
    let location = "file:contact-book-shared?mode=memory&cache=shared";
    let first = store(Database::create(location));
    assert!(matches!(fault(Database::create(location)), Error::Rusqlite(_)));
    assert!(first.select_contacts().unwrap().is_none());
}

#[test]
fn create_where_the_location_cannot_be_used_fails() {
    let location = "/nonexistent-directory/for/contact/book.db";
    assert!(matches!(fault(Database::create(location)), Error::Rusqlite(_)));
    assert!(matches!(fault(get_database(location)), Error::Rusqlite(_)));
}

#[test]
fn stored_contacts_outlive_the_connection() {
    let location = "/tmp/contact-book-kept.db";
    {
        let database = store(get_database(location));
        clear(&database);
        database.insert_contact(&Contact::new("Ada", "Lovelace", "ada@example.com").unwrap()).unwrap();
    }
    let database = store(Database::open(location));
    let records = database.select_contacts().unwrap().unwrap();
    assert_eq!(records.len(), 1);
    assert_eq!(records[0].record().surname(), "Lovelace");
    clear(&database);
}

#[test]
fn acquiring_opens_what_it_made_before() {
    let location = "/tmp/contact-book-acquired.db";
    {
        let database = store(get_database(location));
        clear(&database);
        assert!(database.select_contacts().unwrap().is_none());
        database.insert_contact(&Contact::new("Ada", "Lovelace", "ada@example.com").unwrap()).unwrap();
    }
    let database = store(get_database(location));
    assert_eq!(database.select_contacts().unwrap().unwrap().len(), 1);
    clear(&database);
}

fn file_without_the_table(location: &str) {
    let other = rusqlite::Connection::open(location).unwrap();
    other.execute("CREATE TABLE IF NOT EXISTS other (x INTEGER)", []).unwrap();
}

#[test]
fn open_of_a_file_without_the_table_names_the_location() {
    let location = "/tmp/contact-book-without-table.db";
    file_without_the_table(location);
    match fault(Database::open(location)) {
        Error::NoFile(named) => assert_eq!(named, location),
        other => panic!("unexpected: {:?}", other),
    }
    let still = rusqlite::Connection::open(location).unwrap();
    let tables: i64 = still
        .query_row("SELECT count(*) FROM sqlite_master WHERE name = 'contact'", [], |row| {
            row.get(0)
        })
        .unwrap();
    assert_eq!(tables, 0);
}

#[test]
fn acquiring_a_file_without_the_table_does_not_make_it() {
    let location = "/tmp/contact-book-without-table-acquired.db";
    file_without_the_table(location);
    match fault(get_database(location)) {
        Error::NoFile(named) => assert_eq!(named, location),
        other => panic!("unexpected: {:?}", other),
    }
}

#[test]
fn open_of_a_made_table_succeeds() {
    let location = "/tmp/contact-book-opened.db";
    let _ = Database::create(location);
    let database = store(Database::open(location));
    clear(&database);
    assert!(database.select_contacts().unwrap().is_none());
}
