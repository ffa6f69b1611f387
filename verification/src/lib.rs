//! An encrypted diary store: entries keyed by a date, kept in an encrypted
//! database file, unlocked by a password and searched by substring.
//!
//! The session and its operations are in [`session`]; what a search answers
//! is defined in [`search`] over the text primitives of [`text`]. The calls
//! into the database engine are gathered in [`database`], and the statements
//! handed to it in [`statements`].

pub mod cli;
pub mod database;
pub mod error;
pub mod search;
pub mod session;
pub mod statements;
pub mod text;
pub mod title;

pub use cli::Args;
pub use error::StoreError;
pub use search::DiaryEntry;
pub use session::States;
