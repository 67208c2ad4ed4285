//! The boundary to the SQLite engine and to the file system.
//!
//! What these calls hand back depends on what is on disk, so none of them
//! promises anything of its result. The verified code around them is proved
//! for every outcome.

use crate::row::StoredRow;
use vstd::prelude::*;

verus! {

/// An open connection to a SQLite database, carried as an opaque value.
#[verifier::external_type_specification]
#[verifier::external_body]
pub struct ExConnection(rusqlite::Connection);

/// Calls `std::path::Path::is_file`: whether a regular file is at
/// `location` right now.
#[verifier::external_body]
pub(crate) fn is_file(location: &str) -> bool {
    std::path::Path::new(location).is_file()
}

/// Calls `rusqlite::Connection::open`, which opens the database at
/// `location` and creates the file where there is none. A failure comes back
/// as the text that the engine's error displays.
#[verifier::external_body]
pub(crate) fn open_connection(location: &str) -> Result<rusqlite::Connection, String> {
    rusqlite::Connection::open(location).map_err(|e| e.to_string())
}

/// Calls `rusqlite::Connection::execute` with `texts` bound, in order, to
/// the statement's parameters; `None` is bound as NULL. Hands back the
/// number of rows changed, or the text that the engine's error displays.
#[verifier::external_body]
pub(crate) fn execute_with_texts(
    connection: &rusqlite::Connection,
    sql: &str,
    texts: &Vec<Option<String>>,
) -> Result<usize, String> {
    connection.execute(sql, rusqlite::params_from_iter(texts.iter())).map_err(|e| e.to_string())
}

/// Calls `rusqlite::Connection::execute` with `id` bound to the statement's
/// one parameter. Hands back the number of rows changed, or the text that
/// the engine's error displays.
#[verifier::external_body]
pub(crate) fn execute_with_id(connection: &rusqlite::Connection, sql: &str, id: i64) -> Result<
    usize,
    String,
> {
    connection.execute(sql, [id]).map_err(|e| e.to_string())
}

/// Calls `rusqlite::Connection::prepare` and `rusqlite::Statement::exists`
/// with `text` bound to the query's one parameter: whether the query gives
/// at least one row. Hands back the answer, or the text that the engine's
/// error displays.
#[verifier::external_body]
pub(crate) fn query_exists(connection: &rusqlite::Connection, sql: &str, text: &str) -> Result<
    bool,
    String,
> {
    let mut statement = connection.prepare(sql).map_err(|e| e.to_string())?;
    statement.exists([text]).map_err(|e| e.to_string())
}

/// Calls `rusqlite::Connection::last_insert_rowid`: the identifier of the
/// row that the connection inserted last.
#[verifier::external_body]
pub(crate) fn last_insert_rowid(connection: &rusqlite::Connection) -> i64 {
    connection.last_insert_rowid()
}

/// Calls `rusqlite::Connection::prepare` and `rusqlite::Statement::query_map`
/// with `texts` bound, in order, to the query's parameters, and reads the
/// six columns of every row with `rusqlite::Row::get`, in the order in which
/// the engine hands the rows out. Hands back the rows, or the text that the
/// engine's first error displays.
#[verifier::external_body]
pub(crate) fn query_rows(
    connection: &rusqlite::Connection,
    sql: &str,
    texts: &Vec<Option<String>>,
) -> Result<Vec<StoredRow>, String> {
    let mut statement = connection.prepare(sql).map_err(|e| e.to_string())?;
    let rows = statement.query_map(rusqlite::params_from_iter(texts.iter()), |row| {
        Ok(StoredRow {
            id: row.get(0)?,
            forename: row.get(1)?,
            surname: row.get(2)?,
            email: row.get(3)?,
            organisation: row.get(4)?,
            telephone: row.get(5)?,
        })
    }).map_err(|e| e.to_string())?;
    rows.collect::<Result<Vec<StoredRow>, rusqlite::Error>>().map_err(|e| e.to_string())
}

} // verus!
