//! A personal address book: validated contacts kept in one SQLite table.
//!
//! The library decides and computes; reading the environment and printing
//! are left to the program around it, which hands in the environment's
//! variables and prints the lines that come back.

pub mod contact;
pub mod database;
pub mod email;
pub mod error;
pub mod operation;
pub mod render;
pub mod row;
pub mod search;
mod storage;

use crate::contact::Contact;
use crate::database::{Database, Record};
use crate::error::{Error, ErrorView};
use crate::operation::Operation;
use crate::render::{is_listing_text, is_search_text, listing_lines, search_lines};
use crate::storage::is_file;
use vstd::prelude::*;
use vstd::string::StringExecFns;

verus! {

/// The name of the environment variable that holds the table's location.
pub const ENV_KEY: &'static str = "CONTACT_DB";

/// Whether `i` is the first variable of `vars` that is named `key`.
pub open spec fn first_named(vars: Seq<(String, String)>, key: Seq<char>, i: int) -> bool {
    &&& 0 <= i < vars.len()
    &&& vars[i].0@ == key
    &&& forall|j: int| 0 <= j < i ==> (#[trigger] vars[j]).0@ != key
}

/// Looks the table's location up among the environment's variables: the
/// value of the first one named [`ENV_KEY`]. Fails with [`Error::Env`]
/// where none is.
pub fn get_database_env(vars: &Vec<(String, String)>) -> (r: Result<String, Error>)
    ensures
        match r {
            Ok(location) => exists|i: int|
                first_named(vars@, ENV_KEY@, i) && location@ == (#[trigger] vars@[i]).1@,
            Err(e) => e@ == ErrorView::Env && forall|i: int|
                0 <= i < vars@.len() ==> (#[trigger] vars@[i]).0@ != ENV_KEY@,
        },
{
    let key = String::from_str(ENV_KEY);
    let mut index: usize = 0;
    while index < vars.len()
        invariant
            index <= vars@.len(),
            key@ == ENV_KEY@,
            forall|j: int| 0 <= j < index ==> (#[trigger] vars@[j]).0@ != ENV_KEY@,
        decreases vars@.len() - index,
    {
        if vars[index].0 == key {
            assert(first_named(vars@, ENV_KEY@, index as int));
            return Ok(vars[index].1.clone());
        }
        index += 1;
    }
    Err(Error::Env)
}

/// How the store at a location is acquired.
#[derive(Debug, Clone, Copy, PartialEq, Eq, Structural)]
pub enum Acquire {
    /// The table is there and is opened.
    Open,
    /// A fresh table is made.
    Create,
}

/// Chooses how to acquire the store: a location at which a file is holds
/// the table to open, and at any other a fresh table is made.
pub fn acquire_by(file_there: bool) -> (r: Acquire)
    ensures
        file_there ==> r is Open,
        !file_there ==> r is Create,
{
    if file_there {
        Acquire::Open
    } else {
        Acquire::Create
    }
}

/// Acquires the store at `location`: opens the table where a file is
/// there, and makes a fresh one where none is, as [`acquire_by`] chooses
/// on what the file system answered.
pub fn get_database(location: &str) -> (r: Result<Database, Error>)
    ensures
        r matches Err(e) ==> (e@ == ErrorView::NoFile(location@) || e@ is Rusqlite),
{
    match acquire_by(is_file(location)) {
        Acquire::Open => Database::open(location),
        Acquire::Create => Database::create(location),
    }
}

/// Performs `operation` on the store that the environment's variables
/// name, and hands back the lines to show.
///
/// Adding and deleting show nothing. A listing shows its heading and a
/// line for each record, a search the number of contacts found and a line
/// for each; where the store holds or finds nothing, nothing is shown.
pub fn run(vars: &Vec<(String, String)>, operation: Operation) -> (r: Result<Vec<String>, Error>)
    ensures
        (r matches Err(e) && e@ == ErrorView::Env) <==> (forall|i: int|
            0 <= i < vars@.len() ==> (#[trigger] vars@[i]).0@ != ENV_KEY@),
        r matches Ok(lines) ==> match operation {
            Operation::Add(_) => lines@.len() == 0,
            Operation::Delete(_) => lines@.len() == 0,
            Operation::List => lines@.len() == 0 || exists|records: Seq<Record<Contact>>|
                records.len() > 0 && is_listing_text(lines@, records),
            Operation::Search(needle) => needle@.len() > 0 && (lines@.len() == 0 || exists|
                contacts: Seq<Contact>,
            | contacts.len() > 0 && is_search_text(lines@, contacts)),
        },
{
    let location = match get_database_env(vars) {
        Ok(location) => location,
        Err(e) => {
            return Err(e);
        },
    };
    let database = match get_database(location.as_str()) {
        Ok(database) => database,
        Err(e) => {
            return Err(e);
        },
    };
    match operation {
        Operation::Add(contact) => match database.insert_contact(&contact) {
            Ok(_) => Ok(Vec::new()),
            Err(e) => Err(e),
        },
        Operation::Delete(id) => match database.delete_contact(id) {
            Ok(()) => Ok(Vec::new()),
            Err(e) => Err(e),
        },
        Operation::List => match database.select_contacts() {
            Ok(listed) => {
                let lines = listing_lines(&listed);
                assert(listed matches Some(records) ==> is_listing_text(lines@, records@));
                Ok(lines)
            },
            Err(e) => Err(e),
        },
        Operation::Search(needle) => match database.select_contact(needle.as_str()) {
            Ok(found) => {
                let lines = search_lines(&found);
                assert(found matches Some(contacts) ==> is_search_text(lines@, contacts@));
                Ok(lines)
            },
            Err(e) => Err(e),
        },
    }
}

} // verus!
