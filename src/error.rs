//! The error type shared by every operation of the library.

use vstd::prelude::*;
use vstd::string::*;
use crate::text::{decimal, decimal_of};

verus! {

/// Declares rusqlite's error type, carried opaquely inside [`KbError::Db`].
#[verifier::external_type_specification]
#[verifier::external_body]
pub struct ExSqlError(rusqlite::Error);

/// Declares std's I/O error type, carried opaquely inside [`KbError::Io`].
#[verifier::external_type_specification]
#[verifier::external_body]
pub struct ExIoError(std::io::Error);

/// Every way an operation of the knowledge base can fail.
#[derive(Debug)]
pub enum KbError {
    /// The storage engine reported a failure (constraint violation, I/O, contention timeout).
    Db(rusqlite::Error),
    /// A scratch-file or terminal operation failed.
    Io(std::io::Error),
    /// No row matches the given id or slug.
    NotFound(String),
    /// A version-checked write found another version than the one expected.
    VersionConflict { expected: i64, actual: i64 },
    /// The caller's input is malformed.
    InvalidInput(String),
}

/// Relies on the `Display` of `rusqlite::Error`: its message.
#[verifier::external_body]
fn sql_error_text(e: &rusqlite::Error) -> (r: String) {
    e.to_string()
}

/// Relies on the `Display` of `std::io::Error`: its message.
#[verifier::external_body]
fn io_error_text(e: &std::io::Error) -> (r: String) {
    e.to_string()
}

impl KbError {
    /// The message shown to a person for this error.
    pub fn message(&self) -> (r: String)
        ensures
            self matches KbError::NotFound(m) ==> r@ == "Not found: "@ + m@,
            self matches KbError::InvalidInput(m) ==> r@ == "Invalid input: "@ + m@,
            self matches KbError::VersionConflict { expected, actual } ==> r@ == "Version conflict: expected "@
                + decimal_of(expected as int) + ", but current version is "@ + decimal_of(actual as int),
    {
        match self {
            KbError::Db(e) => {
                let mut m = String::from_str("Database error: ");
                let t = sql_error_text(e);
                m.append(t.as_str());
                m
            },
            KbError::Io(e) => {
                let mut m = String::from_str("I/O error: ");
                let t = io_error_text(e);
                m.append(t.as_str());
                m
            },
            KbError::NotFound(s) => {
                let mut m = String::from_str("Not found: ");
                m.append(s.as_str());
                m
            },
            KbError::VersionConflict { expected, actual } => {
                let mut m = String::from_str("Version conflict: expected ");
                let e = decimal(*expected);
                m.append(e.as_str());
                m.append(", but current version is ");
                let a = decimal(*actual);
                m.append(a.as_str());
                m
            },
            KbError::InvalidInput(s) => {
                let mut m = String::from_str("Invalid input: ");
                m.append(s.as_str());
                m
            },
        }
    }
}

} // verus!
