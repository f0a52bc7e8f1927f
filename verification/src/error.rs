//! The single error kind surfaced to callers.
//!
//! Every failure of the storage layer collapses to one tagged shape carrying
//! the underlying driver's message as an opaque string.

use vstd::prelude::*;

verus! {

/// The one error the backend reports: a database-layer failure with a
/// human-readable message.
#[derive(Debug, PartialEq)]
pub enum DataCollectorError {
    DbError(String),
}

impl DataCollectorError {
    /// The message carried by the error.
    pub fn message(&self) -> (r: &String)
        ensures
            r@ == self.message_spec(),
    {
        match self {
            DataCollectorError::DbError(m) => m,
        }
    }

    /// The message carried by the error, as a character sequence.
    pub open spec fn message_spec(&self) -> Seq<char> {
        match self {
            DataCollectorError::DbError(m) => m@,
        }
    }
}

impl Clone for DataCollectorError {
    fn clone(&self) -> (r: Self)
        ensures
            r == *self,
    {
        match self {
            DataCollectorError::DbError(m) => DataCollectorError::DbError(m.clone()),
        }
    }
}

/// Either the operation's payload or the single error shape.
pub type DataCollectorResult<T> = Result<T, DataCollectorError>;

} // verus!
