//! Why a request was refused.

use crate::state::StorageError;
use vstd::prelude::*;

verus! {

/// Why a request was refused.
#[derive(Clone, Copy, Debug, PartialEq, Eq, Structural)]
pub enum ContractError {
    /// The store could not be read.
    Storage(StorageError),
    /// The request is reserved to the owner, and another sent it.
    Unauthorized,
    /// The trade was dispatched less than the retry delay ago.
    AllPending,
}

} // verus!
