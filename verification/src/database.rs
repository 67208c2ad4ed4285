//! The record store: one table of contacts in a SQLite database.

use crate::contact::Contact;
use crate::error::{Error, ErrorView, Field};
use crate::row::{
    contacts_from_rows, insert_values, is_listing_of, is_search_result_of, records_from_rows,
    StoredRow,
};
use crate::search::like_pattern;
use crate::storage::{
    execute_with_id, execute_with_texts, is_file, last_insert_rowid, open_connection, query_exists,
    query_rows,
};
use vstd::prelude::*;
use vstd::string::StringExecFns;

verus! {

/// Makes the contact table. The identifier is given by the engine, grows
/// with every insert and is never given twice, not even after a delete.
pub const CREATE_TABLE: &'static str = "CREATE TABLE contact (\
    id INTEGER PRIMARY KEY AUTOINCREMENT, \
    forename TEXT NOT NULL, \
    surname TEXT NOT NULL, \
    email TEXT NOT NULL, \
    organisation TEXT, \
    telephone TEXT)";

/// The name of the contact table.
pub const TABLE: &'static str = "contact";

/// Asks the database's catalogue for the table with the bound name.
pub const FIND_TABLE: &'static str =
    "SELECT 1 FROM sqlite_master WHERE type = 'table' AND name = ?1";

/// Removes the row with the bound identifier, if there is one.
pub const DELETE_CONTACT: &'static str = "DELETE FROM contact WHERE id = ?1";

/// Writes one row from five bound texts.
pub const INSERT_CONTACT: &'static str =
    "INSERT INTO contact (forename, surname, email, organisation, telephone) \
    VALUES (?1, ?2, ?3, ?4, ?5)";

/// Reads every row, by surname and then forename. Texts are ordered byte by
/// byte, so upper case comes before lower case.
pub const SELECT_CONTACTS: &'static str =
    "SELECT id, forename, surname, email, organisation, telephone \
    FROM contact \
    ORDER BY surname, forename";

/// Reads the rows of which some text matches the bound pattern, by surname
/// and then forename. An absent organisation or telephone is NULL and
/// matches no pattern. The engine's matching takes the letters of ASCII
/// without regard to case.
pub const SELECT_CONTACT: &'static str =
    "SELECT id, forename, surname, email, organisation, telephone \
    FROM contact \
    WHERE LIKE(?1, forename, '\\') \
    OR LIKE(?1, surname, '\\') \
    OR LIKE(?1, email, '\\') \
    OR LIKE(?1, organisation, '\\') \
    OR LIKE(?1, telephone, '\\') \
    ORDER BY surname, forename";

/// A stored value together with the identifier that the store gave it.
#[derive(Debug)]
pub struct Record<T> {
    id: i64,
    record: T,
}

impl<T> Record<T> {
    /// The identifier, in specifications.
    pub closed spec fn spec_id(&self) -> i64 {
        self.id
    }

    /// The stored value, in specifications.
    pub closed spec fn spec_record(&self) -> T {
        self.record
    }

    /// Pairs an identifier with a value.
    pub fn new(id: i64, record: T) -> (r: Self)
        ensures
            r.spec_id() == id,
            r.spec_record() == record,
    {
        Record { id, record }
    }

    /// The identifier.
    #[verifier::when_used_as_spec(spec_id)]
    pub fn id(&self) -> (r: i64)
        ensures
            r == self.spec_id(),
    {
        self.id
    }

    /// The stored value.
    pub fn record(&self) -> (r: &T)
        ensures
            *r == self.spec_record(),
    {
        &self.record
    }
}

/// The store: one connection to the database that holds the contact table.
pub struct Database {
    connection: rusqlite::Connection,
}

impl Database {
    /// Makes a fresh contact table at `location`. Fails with the engine's
    /// message where the location cannot be used or holds the table already.
    pub fn create(location: &str) -> (r: Result<Database, Error>)
        ensures
            r matches Err(e) ==> e@ is Rusqlite,
    {
        let connection = match reported(open_connection(location)) {
            Ok(connection) => connection,
            Err(e) => {
                return Err(e);
            },
        };
        let nothing: Vec<Option<String>> = Vec::new();
        match reported(execute_with_texts(&connection, CREATE_TABLE, &nothing)) {
            Ok(_) => Ok(Database { connection }),
            Err(e) => Err(e),
        }
    }

    /// Opens the table at `location`. Where no file is there, or the file's
    /// database holds no contact table, nothing is made and the failure
    /// names the location: see [`found`], which decides both on what the
    /// file system and the engine answered.
    pub fn open(location: &str) -> (r: Result<Database, Error>)
        ensures
            r matches Err(e) ==> (e@ == ErrorView::NoFile(location@) || e@ is Rusqlite),
    {
        if let Err(e) = found(location, is_file(location)) {
            return Err(e);
        }
        let connection = match reported(open_connection(location)) {
            Ok(connection) => connection,
            Err(e) => {
                return Err(e);
            },
        };
        let table_there = match reported(query_exists(&connection, FIND_TABLE, TABLE)) {
            Ok(answer) => answer,
            Err(e) => {
                return Err(e);
            },
        };
        match found(location, table_there) {
            Ok(()) => Ok(Database { connection }),
            Err(e) => Err(e),
        }
    }

    /// Removes the contact with the identifier `contact_id`. Where there is
    /// none, nothing happens and the call succeeds.
    pub fn delete_contact(&self, contact_id: i64) -> (r: Result<(), Error>)
        ensures
            r matches Err(e) ==> e@ is Rusqlite,
    {
        let answer = execute_with_id(&self.connection, DELETE_CONTACT, contact_id);
        removed(answer)
    }

    /// Writes `contact` as a new row and hands back the identifier that the
    /// store gave it.
    ///
    /// The texts that are bound are those of [`insert_values`].
    pub fn insert_contact(&self, contact: &Contact) -> (r: Result<i64, Error>)
        ensures
            r matches Err(e) ==> e@ is Rusqlite,
    {
        let values = insert_values(contact);
        match reported(execute_with_texts(&self.connection, INSERT_CONTACT, &values)) {
            Ok(_) => Ok(last_insert_rowid(&self.connection)),
            Err(e) => Err(e),
        }
    }

    /// Lists every stored contact with its identifier, by surname and then
    /// forename; `None` where nothing is stored.
    ///
    /// Whatever rows the engine hands out, the result is their listing: see
    /// [`records_from_rows`].
    pub fn select_contacts(&self) -> (r: Result<Option<Vec<Record<Contact>>>, Error>)
        ensures
            (r matches Err(e) && e@ is Rusqlite) || exists|rows: Seq<StoredRow>|
                is_listing_of(rows, r),
    {
        let nothing: Vec<Option<String>> = Vec::new();
        match reported(query_rows(&self.connection, SELECT_CONTACTS, &nothing)) {
            Ok(rows) => {
                let r = records_from_rows(&rows);
                assert(is_listing_of(rows@, r));
                r
            },
            Err(e) => Err(e),
        }
    }

    /// Finds the contacts of which the forename, surname, email,
    /// organisation or telephone holds `needle`, by surname and then
    /// forename; `None` where there is none. An empty needle is refused.
    ///
    /// Every contact found is rebuilt from its whole row, with its
    /// organisation and its telephone. Whatever rows the engine hands out
    /// for the needle's pattern, the result is their search result: see
    /// [`contacts_from_rows`].
    pub fn select_contact(&self, needle: &str) -> (r: Result<Option<Vec<Contact>>, Error>)
        ensures
            needle@.len() == 0 ==> (r matches Err(e) && e@ == ErrorView::Empty(Field::Needle)),
            needle@.len() > 0 ==> ((r matches Err(e) && e@ is Rusqlite) || exists|
                rows: Seq<StoredRow>,
            | is_search_result_of(rows, r)),
    {
        if needle.is_empty() {
            return Err(Error::Empty(Field::Needle));
        }
        let mut values: Vec<Option<String>> = Vec::new();
        values.push(Some(like_pattern(needle)));
        match reported(query_rows(&self.connection, SELECT_CONTACT, &values)) {
            Ok(rows) => {
                let r = contacts_from_rows(&rows);
                assert(is_search_result_of(rows@, r));
                r
            },
            Err(e) => Err(e),
        }
    }
}

/// What the store reports for an answer of the engine: the answer itself,
/// or the engine's message as a storage failure.
pub fn reported<T>(answer: Result<T, String>) -> (r: Result<T, Error>)
    ensures
        match answer {
            Ok(value) => r == Ok::<T, Error>(value),
            Err(message) => r matches Err(e) && e@ == ErrorView::Rusqlite(message@),
        },
{
    match answer {
        Ok(value) => Ok(value),
        Err(message) => Err(Error::Rusqlite(message)),
    }
}

/// Whether what was looked for at `location` is there: a file, or the
/// contact table in the file's database. What is not there is reported as
/// not found at that location.
pub fn found(location: &str, there: bool) -> (r: Result<(), Error>)
    ensures
        there ==> r is Ok,
        !there ==> (r matches Err(e) && e@ == ErrorView::NoFile(location@)),
{
    if there {
        Ok(())
    } else {
        Err(Error::NoFile(String::from_str(location)))
    }
}

/// What a delete gives for the engine's answer to it: success however many
/// rows went, none included, and else the engine's message as a storage
/// failure.
pub fn removed(answer: Result<usize, String>) -> (r: Result<(), Error>)
    ensures
        match answer {
            Ok(_) => r is Ok,
            Err(message) => r matches Err(e) && e@ == ErrorView::Rusqlite(message@),
        },
{
    match reported(answer) {
        Ok(_) => Ok(()),
        Err(e) => Err(e),
    }
}

} // verus!
