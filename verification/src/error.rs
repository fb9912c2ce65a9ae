//! Why a request on the post table did not complete.

use vstd::prelude::*;

verus! {

/// The reasons for which a request fails. A failed request leaves the table as it was.
#[derive(Debug, Clone, Copy, PartialEq, Eq, Structural)]
pub enum PostError {
    /// No row carries the identifier that the request named.
    NotFound,
    /// Storage refused the row: no identifier is left to assign to it.
    ConstraintViolation,
    /// Storage could not be reached or did not answer.
    StorageUnavailable,
    /// The request asked for pages of no rows.
    InvalidPageSize,
}

} // verus!
