//! The errors an entry point can fail with.

use vstd::prelude::*;

verus! {

/// Precondition errors detected by this module's own checks before any
/// external work is attempted.
#[derive(Clone, Copy, Debug, PartialEq, Eq, Structural)]
pub enum CustomError {
    /// The registry does not yet record a successfully created collection.
    CollectionIsNotCreated,
    /// The supplied collection is not the canonical one the registry names.
    WrongCollection,
}

/// Everything an entry point can fail with: the module's own precondition
/// errors, the storage layer's allocation conflicts, and the failures the
/// asset library or its bound oracle report during a nested call.
#[derive(Clone, Copy, Debug, PartialEq, Eq, Structural)]
pub enum LedgerError {
    /// The storage layer refused to create a record at an address where one
    /// already exists.
    AllocationConflict,
    /// One of this module's own precondition checks failed.
    Custom(CustomError),
    /// No asset record exists at the given address.
    AssetNotFound,
    /// The collection account was absent or is not the collection the asset
    /// belongs to.
    InvalidCollection,
    /// The acting authority is not permitted to move the asset.
    InvalidAuthority,
    /// The oracle bound to the collection vetoed the transfer.
    OracleRejected,
}

} // verus!
