//! The statements that the store hands to the database.

use crate::text::{decimal, decimal_string};
use vstd::prelude::*;

verus! {

/// Reads the schema of the database: it can be answered only if the key
/// that was applied decrypts the file.
pub const SCHEMA_PROBE_SQL: &'static str = "SELECT count(*) FROM sqlite_master";

/// Reads every entry: its date, then its text.
pub const ENTRIES_SQL: &'static str = "SELECT \"date\", coalesce(content, '') FROM diary";

/// Reads the text of the entry of one date.
pub const CONTENT_SQL: &'static str = "SELECT content FROM diary WHERE \"date\" = ?1";

/// Writes the entry of one date: a new row if the date has none, a new text
/// for the row if it has one.
pub const UPSERT_SQL: &'static str =
    "INSERT INTO diary (date, content) VALUES (?1, ?2) ON CONFLICT(date) DO UPDATE SET content = excluded.content";

/// Removes the entry of one date, if there is one.
pub const DELETE_SQL: &'static str = "DELETE FROM diary WHERE date = ?1";

/// The pragma through which the engine takes the key of the database.
pub const KEY_PRAGMA: &'static str = "key";

/// A statement with the texts that are bound to its parameters, by position.
#[derive(Debug, Clone, PartialEq, Eq)]
pub struct Statement {
    pub sql: String,
    pub params: Vec<String>,
}

/// The statement that reads the text of `date`.
pub fn content_statement(date: i64) -> (s: Statement)
    ensures
        s.sql@ == CONTENT_SQL@,
        s.params@.len() == 1,
        s.params@[0]@ == decimal(date as int),
{
    let mut params: Vec<String> = Vec::new();
    params.push(decimal_string(date));
    Statement { sql: CONTENT_SQL.to_owned(), params }
}

/// The statement that writes `content` as the entry of `date`.
pub fn upsert_statement(date: i64, content: &str) -> (s: Statement)
    ensures
        s.sql@ == UPSERT_SQL@,
        s.params@.len() == 2,
        s.params@[0]@ == decimal(date as int),
        s.params@[1]@ == content@,
{
    let mut params: Vec<String> = Vec::new();
    params.push(decimal_string(date));
    params.push(content.to_owned());
    Statement { sql: UPSERT_SQL.to_owned(), params }
}

/// The statement that removes the entry of `date`.
pub fn delete_statement(date: i64) -> (s: Statement)
    ensures
        s.sql@ == DELETE_SQL@,
        s.params@.len() == 1,
        s.params@[0]@ == decimal(date as int),
{
    let mut params: Vec<String> = Vec::new();
    params.push(decimal_string(date));
    Statement { sql: DELETE_SQL.to_owned(), params }
}

} // verus!
