//! The account sets and argument records each entry point accepts.

use vstd::prelude::*;
use crate::address::Address;

verus! {

/// Accounts for the collection initializer.
pub struct CreateCollection {
    /// The new collection account; its address becomes the canonical
    /// collection identity.
    pub collection: Address,
    /// Identity permitted to modify the collection later; the payer acts as
    /// update authority if absent.
    pub update_authority: Option<Address>,
    /// The account funding the new records.
    pub payer: Address,
}

/// Accounts for the asset minter.
pub struct CreateAsset {
    /// The new asset account.
    pub asset: Address,
    /// Optional holder of the minting permission, handed through to the
    /// asset library.
    pub authority: Option<Address>,
    /// The collection to mint into; must be the canonical one.
    pub collection: Address,
    /// The account funding the new record.
    pub payer: Address,
    /// The asset's first owner; the payer if absent.
    pub owner: Option<Address>,
    /// Optional update authority for the new asset.
    pub update_authority: Option<Address>,
}

/// Accounts for the transfer orchestrator.
pub struct Transfer {
    /// The asset to move.
    pub asset: Address,
    /// The collection the asset belongs to.
    pub collection: Option<Address>,
    /// The account paying for the operation.
    pub payer: Address,
    /// The owner or delegate moving the asset; the payer acts if absent.
    pub authority: Option<Address>,
    /// The new owner.
    pub new_owner: Address,
}

/// Arguments of the asset minter.
pub struct CreateAssetsArgs {
    pub name: String,
    pub uri: String,
}

/// Arguments of the collection initializer.
pub struct CreateCollectionArgs {
    pub name: String,
    pub uri: String,
}

/// The identity that acts when an optional account is absent: the payer.
pub open spec fn effective_identity(opt: Option<Address>, payer: Address) -> Seq<u8> {
    if opt is Some {
        opt.unwrap()@
    } else {
        payer@
    }
}

} // verus!
