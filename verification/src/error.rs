//! The ways in which a call fails.

use vstd::prelude::*;

verus! {

/// Why a call was turned down. Every one of them ends the call; the
/// storage is then as it was when the call began.
#[derive(Debug, PartialEq)]
pub enum ContractError {
    /// The storage layer failed: a value that must be there is missing or
    /// does not parse. The layer's own error is handed on as it came.
    Std(cosmwasm_std::StdError),
    /// The caller is not the owner.
    Unauthorized {},
    /// No entry is stored under the id.
    NotFound { id: u64 },
    /// The chain does not take the string for an address.
    InvalidIdentity {},
    /// The record under the id holds a status or priority code that stands
    /// for nothing.
    CorruptEntry { id: u64 },
    /// The counter of ids stands at its last value; no further id can be
    /// allocated.
    SequenceExhausted {},
}

} // verus!
