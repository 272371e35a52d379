//! Why an operation was refused.

use vstd::prelude::*;

verus! {

/// The reasons for which an operation leaves the record untouched.
#[derive(Clone, Copy, Debug, PartialEq, Eq, Structural)]
pub enum BlogError {
    /// The bytes are not well-formed UTF-8; `offset` is where the first
    /// ill-formed sequence begins.
    InvalidEncoding { offset: usize },
    /// The caller is not the authority of the record.
    Unauthorized,
    /// The address already holds a record.
    AlreadyInitialized,
    /// The address holds no record yet.
    NotInitialized,
    /// The text is longer than the space reserved for its field.
    CapacityExceeded,
}

} // verus!
