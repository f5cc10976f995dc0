//! The objects the asset library keeps on the ledger: collections and the
//! assets minted under them, as this module's logic reads them.

use vstd::prelude::*;
use crate::address::Address;
use crate::plugin::OracleBinding;

verus! {

/// A collection object: the container every asset of this module belongs
/// to. Exactly one oracle binding is attached at creation time and can never
/// be detached by anything in this module's scope.
#[derive(Debug)]
pub struct Collection {
    /// The collection's identity on the ledger.
    pub address: Address,
    /// Display name.
    pub name: String,
    /// Content pointer.
    pub uri: String,
    /// The identity permitted to modify the collection later.
    pub update_authority: Address,
    /// The oracle binding recorded at creation, consulted by the library's
    /// lifecycle dispatch on every transfer.
    pub oracle: OracleBinding,
}

/// An asset object, permanently bound to its collection at mint time.
#[derive(Debug)]
pub struct Asset {
    /// The asset's identity on the ledger.
    pub address: Address,
    /// Display name.
    pub name: String,
    /// Content pointer.
    pub uri: String,
    /// The current owner; the only field a transfer changes.
    pub owner: Address,
    /// The update authority as supplied at mint time; absent leaves the
    /// library's own default in force.
    pub update_authority: Option<Address>,
    /// Back-reference to the collection the asset was minted into.
    pub collection: Address,
}

} // verus!
