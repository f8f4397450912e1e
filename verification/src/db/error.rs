//! Failures of the relational store.

use vstd::prelude::*;
use vstd::string::StringExecFns;

verus! {

/// A failure of the store, as far as the service tells failures apart.
#[derive(Debug)]
pub enum StoreError {
    /// A query that must find a row found none.
    NotFound,
    /// A uniqueness constraint was violated; the store's message is kept.
    UniqueViolation(String),
    /// A foreign key constraint was violated; the store's message is kept.
    ForeignKeyViolation(String),
    /// Any other failure.
    Other,
}

impl Clone for StoreError {
    fn clone(&self) -> (copy: Self)
        ensures
            copy == *self,
    {
        match self {
            StoreError::NotFound => StoreError::NotFound,
            StoreError::UniqueViolation(info) => StoreError::UniqueViolation(info.clone()),
            StoreError::ForeignKeyViolation(info) => StoreError::ForeignKeyViolation(info.clone()),
            StoreError::Other => StoreError::Other,
        }
    }
}

impl StoreError {
    /// What the failure says: the store's message where it gave one.
    pub open spec fn message(self) -> Seq<char> {
        match self {
            StoreError::NotFound => "Record not found"@,
            StoreError::UniqueViolation(info) => info@,
            StoreError::ForeignKeyViolation(info) => info@,
            StoreError::Other => "An unexpected database error occurred"@,
        }
    }

    pub fn to_string(&self) -> (text: String)
        ensures
            text@ == self.message(),
    {
        match self {
            StoreError::NotFound => String::from_str("Record not found"),
            StoreError::UniqueViolation(info) => info.clone(),
            StoreError::ForeignKeyViolation(info) => info.clone(),
            StoreError::Other => String::from_str("An unexpected database error occurred"),
        }
    }
}

} // verus!
