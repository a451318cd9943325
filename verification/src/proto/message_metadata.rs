//! The enumerated codes that a wire metadata record carries.

use vstd::prelude::*;

verus! {

/// The wire code that says how a message relates to the ledger state.
#[derive(Clone, Copy, Debug, PartialEq, Eq, Structural)]
pub enum LedgerInclusionState {
    NoTransaction,
    Included,
    Conflicting,
}

/// The wire code that says why a message conflicts, if it does.
#[derive(Clone, Copy, Debug, PartialEq, Eq, Structural)]
pub enum ConflictReason {
    /// The message does not conflict.
    NoConflict,
    InputAlreadySpent,
    InputAlreadySpentInThisMilestone,
    InputNotFound,
    InputOutputSumMismatch,
    InvalidSignature,
    SemanticValidationFailed,
}

} // verus!
