//! The encrypted database behind the store. Everything here is a call into
//! `rusqlite` whose outcome depends on the database file: none of it is
//! proved, and none of it promises more than its types.

use crate::search::DiaryEntry;
use crate::statements::Statement;
use rusqlite::{Connection, OptionalExtension};
use std::path::PathBuf;
use vstd::prelude::*;

verus! {

/// `rusqlite::Connection`, an open handle to a database. Nothing is known of
/// what a connection holds: it is carried from one call to the next.
#[verifier::external_type_specification]
#[verifier::external_body]
pub struct ExConnection(rusqlite::Connection);

/// `rusqlite::Error`, what a failed call into the database hands back.
#[verifier::external_type_specification]
#[verifier::external_body]
pub struct ExDatabaseError(rusqlite::Error);

/// `std::path::PathBuf`, the location of the database file.
#[verifier::external_type_specification]
#[verifier::external_body]
pub struct ExPathBuf(std::path::PathBuf);

/// `Connection::open`: opens the database file at `path`, creating it if it
/// is not there. Whether that succeeds depends on the file system.
#[verifier::external_body]
pub(crate) fn open_database(path: &PathBuf) -> (opened: Result<Connection, rusqlite::Error>) {
    Connection::open(path)
}

/// `Connection::pragma_update` without a schema name: sets the pragma `name`
/// to the text `value`, which the call itself quotes. What the engine makes
/// of the pragma is not stated.
#[verifier::external_body]
pub(crate) fn set_pragma(conn: &Connection, name: &str, value: &str) -> (set: Result<
    (),
    rusqlite::Error,
>) {
    conn.pragma_update(None, name, value)
}

/// `Connection::query_row` on a statement without parameters, reading the
/// first column of the first row as an integer. The outcome depends on the
/// database.
#[verifier::external_body]
pub(crate) fn query_count(conn: &Connection, sql: &str) -> (count: Result<i64, rusqlite::Error>) {
    conn.query_row(sql, (), |row| row.get(0))
}

/// `Connection::query_row` with the statement's parameters bound by
/// position, reading the first column of the first row as text;
/// `OptionalExtension::optional` turns "no row" into `None`. The outcome
/// depends on the database.
#[verifier::external_body]
pub(crate) fn query_text(conn: &Connection, statement: &Statement) -> (found: Result<
    Option<String>,
    rusqlite::Error,
>) {
    let params = rusqlite::params_from_iter(statement.params.iter());
    conn.query_row(statement.sql.as_str(), params, |row| row.get(0)).optional()
}

/// `Connection::prepare`, then `Statement::query_map` without parameters:
/// every row of the answer becomes an entry, its first column the date and
/// its second the text. The outcome depends on the database.
#[verifier::external_body]
pub(crate) fn query_entries(conn: &Connection, sql: &str) -> (rows: Result<
    Vec<DiaryEntry>,
    rusqlite::Error,
>) {
    let mut prepared = conn.prepare(sql)?;
    let rows = prepared.query_map((), |row| {
        Ok(DiaryEntry { date: row.get(0)?, content: row.get(1)? })
    })?;
    rows.collect()
}

/// `Connection::execute` with the statement's parameters bound by position.
/// On success the number is the count of rows that the statement changed;
/// which rows those are depends on the database.
#[verifier::external_body]
pub(crate) fn execute(conn: &Connection, statement: &Statement) -> (changed: Result<
    usize,
    rusqlite::Error,
>) {
    conn.execute(statement.sql.as_str(), rusqlite::params_from_iter(statement.params.iter()))
}

/// The `Display` text of a `rusqlite::Error`.
#[verifier::external_body]
pub(crate) fn describe(error: &rusqlite::Error) -> (text: String) {
    error.to_string()
}

} // verus!
