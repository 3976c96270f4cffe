//! Failure conditions of the marketplace operations.

use vstd::prelude::*;

verus! {

/// Why an operation was rejected.
///
/// Every check runs before any mutation, so an error always means the whole
/// transition was refused with no record changed.
#[derive(Clone, Copy, Debug, PartialEq, Eq, Structural)]
pub enum ErrorCode {
    /// The caller is not the owner or required signer of the target record,
    /// or a supplied record does not match the one the task references.
    UnauthorizedNode,
    /// The task is not in the state the operation requires.
    TaskNotAssigned,
    /// The provider node is inactive and cannot take work.
    InactiveNode,
    /// The provider node is not listed in the node registry.
    ProviderNotRegistered,
    /// The provider's reputation is below the bonus threshold.
    InsufficientReputation,
    /// A funding or custodial balance is too small for the transfer.
    InsufficientFunds,
    /// A counter or balance update would overflow; the operation is refused
    /// rather than wrapped.
    ArithmeticOverflow,
    /// A supplied text field exceeds its fixed maximum length.
    StringTooLong,
    /// A supplied token account is not the one the records designate.
    InvalidTokenAccount,
    /// The record to be created already exists at its derived address.
    AlreadyExists,
}

} // verus!
