//! The ways in which an operation of the store fails.

use vstd::prelude::*;
use vstd::string::StringExecFns;

verus! {

/// Why an operation of the store did not succeed. Every failure can be
/// answered by a corrected request: none of them ends the session.
#[derive(Debug, Clone, PartialEq, Eq)]
pub enum StoreError {
    /// The database file could not be opened or created; the text says why.
    StorageUnavailable(String),
    /// The password does not decrypt the database.
    AuthenticationFailed,
    /// The operation needs an unlocked session, and the session is locked.
    NotUnlocked,
    /// There is no entry for the date that was asked for.
    EntryNotFound,
    /// The database could not be read; the text says why.
    StorageReadFailed(String),
    /// The database could not be written; the text says why.
    StorageWriteFailed(String),
}

impl StoreError {
    /// The message of an error: a fixed sentence, followed by the detail
    /// where the error carries one.
    pub open spec fn message_text(self) -> Seq<char> {
        match self {
            StoreError::StorageUnavailable(detail) => "cannot open the database: "@ + detail@,
            StoreError::AuthenticationFailed => "wrong password, cannot decrypt database"@,
            StoreError::NotUnlocked => "the database is not unlocked"@,
            StoreError::EntryNotFound => "no entry for this date"@,
            StoreError::StorageReadFailed(detail) => "reading failed: "@ + detail@,
            StoreError::StorageWriteFailed(detail) => "writing failed: "@ + detail@,
        }
    }

    /// The message to show for this error.
    pub fn message(&self) -> (text: String)
        ensures
            text@ == self.message_text(),
    {
        match self {
            StoreError::StorageUnavailable(detail) => {
                let mut text: String = "cannot open the database: ".to_owned();
                text.append(detail.as_str());
                text
            },
            StoreError::AuthenticationFailed => "wrong password, cannot decrypt database".to_owned(),
            StoreError::NotUnlocked => "the database is not unlocked".to_owned(),
            StoreError::EntryNotFound => "no entry for this date".to_owned(),
            StoreError::StorageReadFailed(detail) => {
                let mut text: String = "reading failed: ".to_owned();
                text.append(detail.as_str());
                text
            },
            StoreError::StorageWriteFailed(detail) => {
                let mut text: String = "writing failed: ".to_owned();
                text.append(detail.as_str());
                text
            },
        }
    }
}

} // verus!
