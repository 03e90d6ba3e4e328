//! The error taxonomy of the library.
//!
//! `BadArgument` and `ValidationError` are client errors, detected before any
//! side effect. `RemoteCallError` and `PersistenceError` are server errors,
//! detected after side effects may have occurred. `ConcurrencyError` marks a
//! request that could not obtain exclusive access to shared state.

use vstd::prelude::*;

verus! {

#[derive(Debug)]
pub enum AppError {
    BadArgument(String),
    ValidationError(String),
    RemoteCallError(String),
    PersistenceError(String),
    ConcurrencyError(String),
}

impl AppError {
    /// The human-readable reason carried by the error.
    pub fn message(&self) -> (r: &String)
        ensures
            r@ == self.message_spec(),
    {
        match self {
            AppError::BadArgument(m) => m,
            AppError::ValidationError(m) => m,
            AppError::RemoteCallError(m) => m,
            AppError::PersistenceError(m) => m,
            AppError::ConcurrencyError(m) => m,
        }
    }

    pub open spec fn message_spec(self) -> Seq<char> {
        match self {
            AppError::BadArgument(m) => m@,
            AppError::ValidationError(m) => m@,
            AppError::RemoteCallError(m) => m@,
            AppError::PersistenceError(m) => m@,
            AppError::ConcurrencyError(m) => m@,
        }
    }
}

} // verus!
