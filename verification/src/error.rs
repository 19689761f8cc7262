//! The client-visible failure classes of the resource services: "not found"
//! is distinct from constraint rejections and from internal store failures,
//! and the underlying store cause is always preserved, never swallowed.

use vstd::prelude::*;

use crate::gateway::StoreError;

verus! {

/// A resource-service failure.
#[derive(Clone, Copy, PartialEq, Eq, Structural, Debug)]
pub enum Error {
    /// The addressed author does not exist: a client-visible condition,
    /// distinct from internal failure.
    NotFound { author_id: u64 },
    /// A store constraint rejected the request (duplicate name, dangling
    /// reference, duplicate pair); surfaced as a client-facing validation
    /// failure with the cause preserved.
    Constraint(StoreError),
    /// Any other store-side failure, with the cause preserved.
    Internal(StoreError),
}

/// The class every store error maps to when surfaced by a service.
pub open spec fn spec_store_error(e: StoreError) -> Error {
    match e {
        StoreError::UniqueViolation => Error::Constraint(e),
        StoreError::ForeignKeyViolation => Error::Constraint(e),
        StoreError::PrimaryKeyViolation => Error::Constraint(e),
        StoreError::MissingTable(_) => Error::Internal(e),
        StoreError::RecordNotFound => Error::Internal(e),
        StoreError::IdSpaceExhausted => Error::Internal(e),
    }
}

impl Error {
    /// Wraps a gateway-level store error in its client-visible class,
    /// passing the cause upward unmodified in kind.
    pub fn of_store(e: StoreError) -> (r: Error)
        ensures
            r == spec_store_error(e),
    {
        match e {
            StoreError::UniqueViolation => Error::Constraint(e),
            StoreError::ForeignKeyViolation => Error::Constraint(e),
            StoreError::PrimaryKeyViolation => Error::Constraint(e),
            StoreError::MissingTable(_) => Error::Internal(e),
            StoreError::RecordNotFound => Error::Internal(e),
            StoreError::IdSpaceExhausted => Error::Internal(e),
        }
    }
}

} // verus!
