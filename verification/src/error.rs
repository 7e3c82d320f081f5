//! Why a data-access operation can fail.

use vstd::prelude::*;

verus! {

/// The two ways a data-access operation fails.
#[derive(Debug, Clone, Copy, PartialEq, Eq, Structural)]
pub enum DbError {
    /// The operation addressed a key under which no row is stored.
    NotFound,
    /// The store could not carry the operation out.
    StorageFailure,
}

} // verus!
