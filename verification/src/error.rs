//! The failures that storage and record handling can report.

use vstd::prelude::*;

verus! {

/// Why an operation of this library did not give its result.
#[derive(Clone, Copy, Debug, PartialEq, Eq, Structural)]
pub enum DbError {
    /// The storage could not be opened.
    Connection,
    /// A statement was refused, or failed while it ran.
    Query,
    /// No stored row carries the requested key.
    NotFound,
    /// A generic record lacks a field that the entity declares.
    MissingField,
    /// The action needs a selected row and none is selected.
    InvalidSelection,
    /// A record or a stored row holds, for a declared field, a value that the
    /// field's type cannot take.
    InvalidValue,
}

impl DbError {
    /// The notice shown to the user for this failure.
    pub fn message(&self) -> (r: String)
        ensures
            r@ == match *self {
                DbError::Connection => "cannot open the storage"@,
                DbError::Query => "the storage refused the statement"@,
                DbError::NotFound => "no such record"@,
                DbError::MissingField => "the record lacks a declared field"@,
                DbError::InvalidSelection => "no row is selected"@,
                DbError::InvalidValue => "a field holds a value of the wrong kind"@,
            },
    {
        match self {
            DbError::Connection => String::from_str("cannot open the storage"),
            DbError::Query => String::from_str("the storage refused the statement"),
            DbError::NotFound => String::from_str("no such record"),
            DbError::MissingField => String::from_str("the record lacks a declared field"),
            DbError::InvalidSelection => String::from_str("no row is selected"),
            DbError::InvalidValue => String::from_str("a field holds a value of the wrong kind"),
        }
    }
}

} // verus!
