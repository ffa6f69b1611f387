//! The session of the diary store and its five operations.
//!
//! A session is locked until a password has been verified against the
//! database; from then on it holds the connection that was verified. The
//! operations take the session by reference, so that no two of them work on
//! the connection at once.

use crate::database::{
    describe, execute, open_database, query_count, query_entries, query_text, set_pragma,
};
use crate::error::StoreError;
use crate::search::{answers, model_of, search_result, select_dates};
use crate::statements::{
    content_statement, delete_statement, upsert_statement, ENTRIES_SQL, KEY_PRAGMA,
    SCHEMA_PROBE_SQL,
};
use rusqlite::Connection;
use std::path::PathBuf;
use vstd::prelude::*;

verus! {

/// `PathBuf::new` of std: an empty path.
pub assume_specification[ PathBuf::new ]() -> (path: PathBuf)
;

/// The session: the path of the database file, fixed when the session is
/// made, and the connection to it once a password has been verified.
pub struct States {
    db: Option<Connection>,
    db_path: PathBuf,
}

impl States {
    /// Whether the session holds a verified connection.
    pub closed spec fn is_unlocked(&self) -> bool {
        self.db is Some
    }

    /// The connection that the session holds, if it holds one.
    pub closed spec fn connection(&self) -> Option<Connection> {
        self.db
    }

    /// The path of the database file.
    pub closed spec fn path(&self) -> PathBuf {
        self.db_path
    }

    /// A locked session on the database file at `db_path`.
    pub fn new(db_path: PathBuf) -> (state: Self)
        ensures
            !state.is_unlocked(),
            state.path() == db_path,
    {
        States { db: None, db_path }
    }

    /// Whether the session is unlocked.
    pub fn unlocked(&self) -> (unlocked: bool)
        ensures
            unlocked == self.is_unlocked(),
    {
        self.db.is_some()
    }

    /// The path of the database file.
    pub fn db_path(&self) -> (path: &PathBuf)
        ensures
            *path == self.path(),
    {
        &self.db_path
    }

    /// Decides what becomes of a connection to which a key was applied,
    /// given how the probe of the schema went on it. A probe that was
    /// answered proves the key: the connection becomes the one that the
    /// session holds, in place of any earlier one. A probe that failed means
    /// a wrong password: the connection is dropped and the session stays as
    /// it was.
    pub fn install(&mut self, conn: Connection, probe: Result<i64, rusqlite::Error>) -> (res:
        Result<(), StoreError>)
        ensures
            final(self).path() == old(self).path(),
            probe is Ok ==> res is Ok && final(self).connection() == Some(conn),
            probe is Err ==> res == Err::<(), StoreError>(StoreError::AuthenticationFailed)
                && *final(self) == *old(self),
    {
        match probe {
            Ok(_) => {
                self.db = Some(conn);
                Ok(())
            },
            Err(_) => Err(StoreError::AuthenticationFailed),
        }
    }
}

impl Default for States {
    /// A locked session with an empty path.
    fn default() -> (state: Self)
        ensures
            !state.is_unlocked(),
    {
        States { db: None, db_path: PathBuf::new() }
    }
}

/// Lists the dates that answer `query_str`, from the entries that the
/// database hands over on this connection.
pub fn fetch_dates_internal(conn: &Connection, query_str: String) -> (res: Result<
    Vec<i64>,
    StoreError,
>)
    ensures
        match res {
            Ok(dates) => answers(dates@, query_str@),
            Err(error) => error is StorageReadFailed,
        },
{
    match query_entries(conn, ENTRIES_SQL) {
        Ok(rows) => {
            let dates: Vec<i64> = select_dates(&rows, query_str.as_str());
            assert(dates@ == search_result(model_of(rows@), query_str@));
            Ok(dates)
        },
        Err(error) => Err(StoreError::StorageReadFailed(describe(&error))),
    }
}

/// Unlocks the session with `password` and lists every date in the store,
/// later dates first.
///
/// The database file is opened, the password is applied as its key, and the
/// schema is probed: applying a key never fails, only the probe shows
/// whether the key decrypts the file. If the file cannot be opened, or the
/// probe fails, the session stays as it was. Once the probe has been
/// answered the session holds the new connection, also where listing the
/// dates then fails.
pub fn open_and_list_dates(password: String, state: &mut States) -> (res: Result<
    Vec<i64>,
    StoreError,
>)
    ensures
        final(state).path() == old(state).path(),
        match res {
            Ok(dates) => final(state).is_unlocked() && answers(dates@, Seq::<char>::empty()),
            Err(StoreError::StorageUnavailable(_)) => *final(state) == *old(state),
            Err(StoreError::AuthenticationFailed) => *final(state) == *old(state),
            Err(StoreError::StorageReadFailed(_)) => final(state).is_unlocked(),
            Err(_) => false,
        },
{
    let conn: Connection = match open_database(&state.db_path) {
        Ok(conn) => conn,
        Err(error) => {
            return Err(StoreError::StorageUnavailable(describe(&error)));
        },
    };
    let _applied = set_pragma(&conn, KEY_PRAGMA, password.as_str());
    let probe: Result<i64, rusqlite::Error> = query_count(&conn, SCHEMA_PROBE_SQL);
    match state.install(conn, probe) {
        Err(error) => Err(error),
        Ok(()) => fetch_dates_internal(state.db.as_ref().unwrap(), String::new()),
    }
}

/// Lists the dates of the entries whose date or text holds `query_str`,
/// whatever the case of either, later dates first.
pub fn search_diary(state: &States, query_str: String) -> (res: Result<Vec<i64>, StoreError>)
    ensures
        !state.is_unlocked() ==> res == Err::<Vec<i64>, StoreError>(StoreError::NotUnlocked),
        state.is_unlocked() ==> match res {
            Ok(dates) => answers(dates@, query_str@),
            Err(error) => error is StorageReadFailed,
        },
{
    match &state.db {
        None => Err(StoreError::NotUnlocked),
        Some(conn) => fetch_dates_internal(conn, query_str),
    }
}

/// Decides the answer to a request for the text of a date, given what the
/// database found: the text as it is stored, `EntryNotFound` where there is
/// no row, `StorageReadFailed` where the query failed.
pub fn content_outcome(found: Result<Option<String>, rusqlite::Error>) -> (res: Result<
    String,
    StoreError,
>)
    ensures
        match found {
            Ok(Some(content)) => res == Ok::<String, StoreError>(content),
            Ok(None) => res == Err::<String, StoreError>(StoreError::EntryNotFound),
            Err(_) => res matches Err(StoreError::StorageReadFailed(_)),
        },
{
    match found {
        Ok(Some(content)) => Ok(content),
        Ok(None) => Err(StoreError::EntryNotFound),
        Err(error) => Err(StoreError::StorageReadFailed(describe(&error))),
    }
}

/// Reads the text of the entry of `date`.
pub fn get_diary_content(state: &States, date: i64) -> (res: Result<String, StoreError>)
    ensures
        !state.is_unlocked() ==> res == Err::<String, StoreError>(StoreError::NotUnlocked),
        state.is_unlocked() ==> match res {
            Ok(_) => true,
            Err(error) => error is EntryNotFound || error is StorageReadFailed,
        },
{
    match &state.db {
        None => Err(StoreError::NotUnlocked),
        Some(conn) => content_outcome(query_text(conn, &content_statement(date))),
    }
}

/// Decides the answer to a write, given what the database made of the
/// statement. A statement that ran is a success whatever the number of rows
/// it changed: removing a date that has no entry is no error.
pub fn write_outcome(changed: Result<usize, rusqlite::Error>) -> (res: Result<(), StoreError>)
    ensures
        changed is Ok ==> res is Ok,
        changed is Err ==> res matches Err(StoreError::StorageWriteFailed(_)),
{
    match changed {
        Ok(_) => Ok(()),
        Err(error) => Err(StoreError::StorageWriteFailed(describe(&error))),
    }
}

/// Writes `content` as the entry of `date`: a new entry if the date has
/// none, a new text for the entry if it has one.
pub fn save_diary_content(state: &mut States, date: i64, content: String) -> (res: Result<
    (),
    StoreError,
>)
    ensures
        *final(state) == *old(state),
        !old(state).is_unlocked() ==> res == Err::<(), StoreError>(StoreError::NotUnlocked),
        old(state).is_unlocked() ==> match res {
            Ok(_) => true,
            Err(error) => error is StorageWriteFailed,
        },
{
    match &state.db {
        None => Err(StoreError::NotUnlocked),
        Some(conn) => write_outcome(execute(conn, &upsert_statement(date, content.as_str()))),
    }
}

/// Removes the entry of `date`. Where the date has no entry nothing is
/// removed, and the operation succeeds all the same.
pub fn delete_diary(date: i64, state: &mut States) -> (res: Result<(), StoreError>)
    ensures
        *final(state) == *old(state),
        !old(state).is_unlocked() ==> res == Err::<(), StoreError>(StoreError::NotUnlocked),
        old(state).is_unlocked() ==> match res {
            Ok(_) => true,
            Err(error) => error is StorageWriteFailed,
        },
{
    match &state.db {
        None => Err(StoreError::NotUnlocked),
        Some(conn) => write_outcome(execute(conn, &delete_statement(date))),
    }
}

} // verus!
