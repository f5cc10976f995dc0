//! The registry: the singleton record that names the canonical collection.

use vstd::prelude::*;
use crate::address::Address;
use crate::address::addr_eq;
use crate::error::CustomError;

verus! {

/// The singleton registry record. Its storage address is derived from a
/// fixed label, so at most one such record can ever exist per deployment;
/// the record is written once, by the collection initializer, and read-only
/// thereafter.
#[derive(Clone, Copy, Debug)]
pub struct CollectionInfo {
    /// Identity of the canonical collection object.
    pub collection_address: Address,
    /// False until the initializer succeeds, then permanently true.
    pub is_created: bool,
}

/// The verdict the minting gate reaches against a registry record: the
/// collection must have been created, and the supplied collection must be
/// the canonical one it names.
pub open spec fn mint_gate(info: CollectionInfo, supplied: Seq<u8>) -> Result<(), CustomError> {
    if !info.is_created {
        Err(CustomError::CollectionIsNotCreated)
    } else if supplied != info.collection_address@ {
        Err(CustomError::WrongCollection)
    } else {
        Ok(())
    }
}

impl CollectionInfo {
    /// The record as the initializer writes it for a collection at `address`.
    pub fn new(address: Address) -> (info: CollectionInfo)
        ensures
            info.collection_address@ == address@,
            info.is_created,
    {
        CollectionInfo { collection_address: address, is_created: true }
    }

    /// The mint gate, exactly as the minting entry point applies it: requires
    /// `is_created`, then requires the supplied collection to match.
    pub fn check_mint(&self, supplied: &Address) -> (r: Result<(), CustomError>)
        ensures
            r == mint_gate(*self, supplied@),
    {
        if !self.is_created {
            return Err(CustomError::CollectionIsNotCreated);
        }
        if !addr_eq(supplied, &self.collection_address) {
            return Err(CustomError::WrongCollection);
        }
        Ok(())
    }
}

} // verus!
