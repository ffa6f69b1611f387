//! What the command line gives to the diary.

use std::path::PathBuf;
use vstd::prelude::*;

verus! {

/// The database file that is used when the command line names none.
pub const DEFAULT_DB_PATH: &'static str = "./diary.db";

/// The configuration taken from the command line.
#[derive(Debug)]
pub struct Args {
    /// The path of the database file.
    pub db_path: PathBuf,
}

} // verus!
