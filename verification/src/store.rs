//! What reading a persisted document can come to.
//!
//! Each store holds one document, which is read and written whole. That a
//! document is not there yet is the ordinary first state of a store. One that
//! is there and cannot be used is a fault that nothing here repairs.

use vstd::prelude::*;

verus! {

/// What came of reading a store's document.
#[derive(Debug)]
pub enum Stored<T> {
    /// There is no document.
    Missing,
    /// There is a document, and it could not be read.
    Unreadable,
    /// The document was read, and is not what the store writes.
    Malformed,
    /// The document, as it was written.
    Found(T),
}

/// Why a store cannot be used.
#[derive(Clone, Copy, Debug, PartialEq, Eq, Structural)]
pub enum StoreError {
    /// The document could not be read.
    Unreadable,
    /// The document is not what the store writes.
    Malformed,
}

impl StoreError {
    /// A sentence that says what went wrong.
    pub fn describe(&self) -> (text: String)
        ensures
            text@ == match *self {
                StoreError::Unreadable => "the stored document cannot be read"@,
                StoreError::Malformed => "the stored document is malformed"@,
            },
    {
        match self {
            StoreError::Unreadable => "the stored document cannot be read".to_string(),
            StoreError::Malformed => "the stored document is malformed".to_string(),
        }
    }
}

} // verus!
