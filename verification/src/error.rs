//! Error taxonomy of the registry.
//!
//! Every error is terminal for the state transition that raised it: an
//! operation that returns an error leaves the ledger exactly as it was.

use vstd::prelude::*;

verus! {

/// Generic host-level errors: lookup misses and malformed input surfaced by
/// the host environment rather than the registry's own rules.
#[derive(Clone, Debug, PartialEq, Eq)]
pub enum StdError {
    /// A record that was asked for does not exist.
    NotFound { kind: String },
    /// A free-form failure, such as a malformed address reported by the
    /// host's address validator.
    GenericErr { msg: String },
}

/// Errors raised by the registry's own rules, parametric in a custom error
/// type `E` for extension handlers layered on top of the core.
#[derive(Clone, Debug, PartialEq, Eq)]
pub enum ContractError<E> {
    /// A host-level error passed through unchanged.
    Std(StdError),
    /// The caller lacks the required permission.
    Unauthorized {},
    /// A mint named a token id that is already live.
    Claimed {},
    /// A supplied expiration has already elapsed.
    Expired {},
    /// No approval exists for the named spender.
    ApprovalNotFound { spender: String },
    /// Persisting the contract metadata failed.
    ContractInfoSaveError {},
    /// Persisting the minter record failed.
    MinterSaveError {},
    /// An error raised by an extension handler.
    CustomError(E),
}

/// The default custom error type: extensions that raise no errors of their
/// own use this placeholder.
#[derive(Clone, Debug, PartialEq, Eq)]
pub enum CustomError {
    CustomError {},
}

} // verus!
