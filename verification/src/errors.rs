//! Error taxonomy of the blog ledger.

use vstd::prelude::*;

verus! {

/// The errors a handler reports to its caller: an authorization failure,
/// or a child counter that cannot move in the requested direction.
#[derive(Clone, Copy, PartialEq, Eq, Structural, Debug)]
pub enum BlogError {
    /// The signer is not permitted to perform the mutation, or two records
    /// that must share an owner do not.
    UnauthorizedOwner,
    /// A child counter would drop below zero.
    Underflow,
    /// A child counter would exceed its maximum.
    Overflow,
}

/// The outcome of resolving and mutating ledger records: either a reported
/// handler error, or a failure of the ledger itself to supply the record an
/// operation names.
#[derive(Clone, Copy, PartialEq, Eq, Structural, Debug)]
pub enum OpError {
    /// A handler rejected the operation.
    Program(BlogError),
    /// A record was to be created at an address that is already occupied.
    AccountAlreadyExists,
    /// The record an operation names is absent from the ledger.
    AccountNotFound,
    /// Address derivation found no usable address for the given seeds.
    AddressUnavailable,
}

} // verus!
