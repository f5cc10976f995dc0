//! The deployment model and the three entry points.
//!
//! `Deployment` holds the slice of ledger state this module touches: the
//! singleton registry record, the canonical collection and the assets minted
//! under it. Each entry point is an all-or-nothing transition on that state;
//! every failure leaves the state exactly as it was. The oracle's verdict on
//! a pending transfer is produced outside this module, so the transfer entry
//! point takes it as an argument and is verified for every value of it.

use vstd::prelude::*;
use crate::address::Address;
use crate::address::addr_eq;
use crate::accounts::CreateAsset;
use crate::accounts::CreateAssetsArgs;
use crate::accounts::CreateCollection;
use crate::accounts::CreateCollectionArgs;
use crate::accounts::Transfer;
use crate::accounts::effective_identity;
use crate::entities::Asset;
use crate::entities::Collection;
use crate::error::CustomError;
use crate::error::LedgerError;
use crate::plugin::LifecycleEvent;
use crate::plugin::Verdict;
use crate::plugin::binding_can_veto;
use crate::plugin::binding_vetoes;
use crate::plugin::is_transfer_veto_binding;
use crate::plugin::lemma_veto_binding_can_veto;
use crate::plugin::oracle_binding;
use crate::registry::CollectionInfo;
use crate::registry::mint_gate;

verus! {

/// The slice of ledger state belonging to one deployment of this module.
pub struct Deployment {
    /// The singleton registry record; `None` until the initializer succeeds.
    /// Its storage address is derived from a fixed label, so the storage
    /// layer refuses a second record with an allocation conflict.
    pub collection_info: Option<CollectionInfo>,
    /// The canonical collection object; created together with the registry.
    pub collection: Option<Collection>,
    /// Every asset minted in this deployment, in mint order.
    pub assets: Vec<Asset>,
}

impl Deployment {
    /// Well-formedness: the registry and the collection exist together and
    /// agree on the collection's identity, the veto-only oracle binding is
    /// attached, every asset is bound to the canonical collection, and asset
    /// addresses are distinct.
    pub open spec fn wf(self) -> bool {
        &&& self.collection_info is Some <==> self.collection is Some
        &&& self.collection_info is Some ==> self.collection_info.unwrap().is_created
        &&& self.collection_info is Some ==> self.collection_info.unwrap().collection_address@
            == self.collection.unwrap().address@
        &&& self.collection is Some ==> is_transfer_veto_binding(self.collection.unwrap().oracle)
        &&& self.collection_info is None ==> self.assets@.len() == 0
        &&& forall|i: int|
            0 <= i < self.assets@.len() ==> (#[trigger] self.assets@[i]).collection@
                == self.collection_info.unwrap().collection_address@
        &&& forall|i: int, j: int|
            0 <= i < j < self.assets@.len() ==> (#[trigger] self.assets@[i]).address@ != (
            #[trigger] self.assets@[j]).address@
    }

    /// A fresh deployment: no registry record, no collection, no assets.
    pub fn new() -> (d: Deployment)
        ensures
            d.wf(),
            d.collection_info is None,
            d.assets@.len() == 0,
    {
        Deployment { collection_info: None, collection: None, assets: Vec::new() }
    }
}

/// Creation is allowed exactly when the registry record does not exist yet:
/// the record's fixed storage address is the whole mechanism.
pub open spec fn create_allowed(d: Deployment) -> bool {
    d.collection_info is None
}

/// The deployment a successful creation leaves behind: the registry names
/// the new collection, the collection carries the supplied name and uri and
/// the veto-only oracle binding, and the assets are untouched.
pub open spec fn created_matches(
    d: Deployment,
    accounts: CreateCollection,
    args: CreateCollectionArgs,
    assets_before: Seq<Asset>,
) -> bool {
    &&& d.collection_info is Some
    &&& d.collection_info.unwrap().is_created
    &&& d.collection_info.unwrap().collection_address@ == accounts.collection@
    &&& d.collection is Some
    &&& d.collection.unwrap().address@ == accounts.collection@
    &&& d.collection.unwrap().name@ == args.name@
    &&& d.collection.unwrap().uri@ == args.uri@
    &&& d.collection.unwrap().update_authority@ == effective_identity(
        accounts.update_authority,
        accounts.payer,
    )
    &&& is_transfer_veto_binding(d.collection.unwrap().oracle)
    &&& d.assets@ == assets_before
}

/// Creates the canonical collection and writes the registry, exactly once.
/// A second call finds the registry record already allocated and fails with
/// the storage layer's allocation conflict, leaving everything unchanged.
pub fn create_collection(
    deployment: &mut Deployment,
    accounts: CreateCollection,
    args: CreateCollectionArgs,
) -> (r: Result<(), LedgerError>)
    requires
        old(deployment).wf(),
    ensures
        final(deployment).wf(),
        r is Ok <==> create_allowed(*old(deployment)),
        r is Ok ==> created_matches(*final(deployment), accounts, args, old(deployment).assets@),
        r is Err ==> r == Err::<(), LedgerError>(LedgerError::AllocationConflict)
            && *final(deployment) == *old(deployment),
{
    if deployment.collection_info.is_some() {
        return Err(LedgerError::AllocationConflict);
    }
    let update_authority = match &accounts.update_authority {
        Some(ua) => *ua,
        None => accounts.payer,
    };
    let collection = Collection {
        address: accounts.collection,
        name: args.name,
        uri: args.uri,
        update_authority,
        oracle: oracle_binding(),
    };
    deployment.collection = Some(collection);
    deployment.collection_info = Some(CollectionInfo::new(accounts.collection));
    Ok(())
}

/// Is some asset already allocated at this address?
pub open spec fn asset_address_taken(d: Deployment, addr: Seq<u8>) -> bool {
    exists|i: int| 0 <= i < d.assets@.len() && (#[trigger] d.assets@[i]).address@ == addr
}

/// The position of the asset allocated at this address.
pub open spec fn asset_index_of(d: Deployment, addr: Seq<u8>) -> int {
    choose|i: int| 0 <= i < d.assets@.len() && (#[trigger] d.assets@[i]).address@ == addr
}

/// The verdict the minting path reaches: the registry must say the
/// collection exists, the supplied collection must be the canonical one,
/// and the new asset's address must be free.
pub open spec fn mint_verdict(d: Deployment, accounts: CreateAsset) -> Result<(), LedgerError> {
    match d.collection_info {
        None => Err(LedgerError::Custom(CustomError::CollectionIsNotCreated)),
        Some(info) => match mint_gate(info, accounts.collection@) {
            Err(e) => Err(LedgerError::Custom(e)),
            Ok(()) => if asset_address_taken(d, accounts.asset@) {
                Err(LedgerError::AllocationConflict)
            } else {
                Ok(())
            },
        },
    }
}

/// The fields of the one asset a successful mint appends.
pub open spec fn asset_fields(a: Asset, accounts: CreateAsset, args: CreateAssetsArgs) -> bool {
    &&& a.address@ == accounts.asset@
    &&& a.name@ == args.name@
    &&& a.uri@ == args.uri@
    &&& a.owner@ == effective_identity(accounts.owner, accounts.payer)
    &&& a.update_authority == accounts.update_authority
    &&& a.collection@ == accounts.collection@
}

/// The deployment a successful mint leaves behind: one asset appended,
/// everything else untouched.
pub open spec fn minted_matches(
    d: Deployment,
    before: Deployment,
    accounts: CreateAsset,
    args: CreateAssetsArgs,
) -> bool {
    &&& d.collection_info == before.collection_info
    &&& d.collection == before.collection
    &&& d.assets@.len() == before.assets@.len() + 1
    &&& d.assets@.subrange(0, before.assets@.len() as int) == before.assets@
    &&& asset_fields(d.assets@[before.assets@.len() as int], accounts, args)
}

/// Looks up an asset record by address.
pub fn find_asset(assets: &Vec<Asset>, addr: &Address) -> (r: Option<usize>)
    ensures
        match r {
            Some(i) => 0 <= i < assets@.len() && assets@[i as int].address@ == addr@,
            None => forall|j: int| 0 <= j < assets@.len() ==> assets@[j].address@ != addr@,
        },
{
    let n = assets.len();
    let mut i: usize = 0;
    while i < n
        invariant
            n == assets@.len(),
            0 <= i <= n,
            forall|j: int| 0 <= j < i ==> assets@[j].address@ != addr@,
        decreases n - i,
    {
        if addr_eq(&assets[i].address, addr) {
            return Some(i);
        }
        i = i + 1;
    }
    None
}

/// Mints one asset into the canonical collection. The registry gate runs
/// first: no collection yet means `CollectionIsNotCreated`; a supplied
/// collection other than the canonical one means `WrongCollection`, however
/// valid that other collection may be.
pub fn create_asset(
    deployment: &mut Deployment,
    accounts: CreateAsset,
    args: CreateAssetsArgs,
) -> (r: Result<(), LedgerError>)
    requires
        old(deployment).wf(),
    ensures
        final(deployment).wf(),
        r == mint_verdict(*old(deployment), accounts),
        r is Ok ==> minted_matches(*final(deployment), *old(deployment), accounts, args),
        r is Err ==> *final(deployment) == *old(deployment),
{
    match &deployment.collection_info {
        None => {
            return Err(LedgerError::Custom(CustomError::CollectionIsNotCreated));
        },
        Some(info) => {
            match info.check_mint(&accounts.collection) {
                Err(e) => {
                    return Err(LedgerError::Custom(e));
                },
                Ok(()) => {},
            }
        },
    }
    if find_asset(&deployment.assets, &accounts.asset).is_some() {
        return Err(LedgerError::AllocationConflict);
    }
    let owner = match &accounts.owner {
        Some(o) => *o,
        None => accounts.payer,
    };
    let asset = Asset {
        address: accounts.asset,
        name: args.name,
        uri: args.uri,
        owner,
        update_authority: accounts.update_authority,
        collection: accounts.collection,
    };
    deployment.assets.push(asset);
    proof {
        let pre = old(deployment).assets@;
        let post = deployment.assets@;
        assert(post == pre.push(asset));
        assert(post.subrange(0, pre.len() as int) =~= pre);
        assert(post[pre.len() as int] == asset);
    }
    Ok(())
}

/// The verdict the transfer path reaches: the asset must exist, the
/// supplied collection account must be the asset's collection, the acting
/// authority must be the owner, and the oracle bound at collection-creation
/// time must not have vetoed the event.
pub open spec fn transfer_verdict(
    d: Deployment,
    accounts: Transfer,
    oracle_verdict: Verdict,
) -> Result<(), LedgerError> {
    if !asset_address_taken(d, accounts.asset@) {
        Err(LedgerError::AssetNotFound)
    } else {
        let a = d.assets@[asset_index_of(d, accounts.asset@)];
        if !(accounts.collection is Some && accounts.collection.unwrap()@ == a.collection@) {
            Err(LedgerError::InvalidCollection)
        } else if effective_identity(accounts.authority, accounts.payer) != a.owner@ {
            Err(LedgerError::InvalidAuthority)
        } else if d.collection is Some && binding_can_veto(
            d.collection.unwrap().oracle,
            LifecycleEvent::Transfer,
        ) && oracle_verdict is Rejected {
            Err(LedgerError::OracleRejected)
        } else {
            Ok(())
        }
    }
}

/// One asset with its owner replaced and every other field kept.
pub open spec fn owner_updated(a: Asset, b: Asset, new_owner: Seq<u8>) -> bool {
    &&& a.address == b.address
    &&& a.name == b.name
    &&& a.uri == b.uri
    &&& a.update_authority == b.update_authority
    &&& a.collection == b.collection
    &&& a.owner@ == new_owner
}

/// The deployment a successful transfer leaves behind: the one asset at the
/// given address has its new owner, everything else is untouched.
pub open spec fn transferred_matches(
    d: Deployment,
    before: Deployment,
    asset_addr: Seq<u8>,
    new_owner: Seq<u8>,
) -> bool {
    &&& d.collection_info == before.collection_info
    &&& d.collection == before.collection
    &&& d.assets@.len() == before.assets@.len()
    &&& forall|i: int|
        0 <= i < before.assets@.len() ==> (if before.assets@[i].address@ == asset_addr {
            owner_updated(#[trigger] d.assets@[i], before.assets@[i], new_owner)
        } else {
            d.assets@[i] == before.assets@[i]
        })
}

/// Moves an asset to a new owner. The module itself re-checks nothing about
/// collection membership; it relies on the asset record's own back-reference
/// and on the lifecycle dispatch consulting the oracle bound at
/// collection-creation time. A reject verdict aborts the whole transfer
/// atomically.
pub fn transfer(deployment: &mut Deployment, accounts: Transfer, oracle_verdict: Verdict) -> (r:
    Result<(), LedgerError>)
    requires
        old(deployment).wf(),
    ensures
        final(deployment).wf(),
        r == transfer_verdict(*old(deployment), accounts, oracle_verdict),
        r is Ok ==> transferred_matches(
            *final(deployment),
            *old(deployment),
            accounts.asset@,
            accounts.new_owner@,
        ),
        r is Err ==> *final(deployment) == *old(deployment),
        oracle_verdict is Rejected ==> r is Err && *final(deployment) == *old(deployment),
{
    let idx = match find_asset(&deployment.assets, &accounts.asset) {
        None => {
            return Err(LedgerError::AssetNotFound);
        },
        Some(i) => i,
    };
    proof {
        assert(asset_address_taken(*deployment, accounts.asset@));
        assert(deployment.assets@[asset_index_of(*deployment, accounts.asset@)].address@
            == accounts.asset@);
        assert(asset_index_of(*deployment, accounts.asset@) == idx as int);
    }
    let coll_ok = match &accounts.collection {
        Some(c) => addr_eq(c, &deployment.assets[idx].collection),
        None => false,
    };
    if !coll_ok {
        return Err(LedgerError::InvalidCollection);
    }
    let acting = match &accounts.authority {
        Some(a) => *a,
        None => accounts.payer,
    };
    if !addr_eq(&acting, &deployment.assets[idx].owner) {
        return Err(LedgerError::InvalidAuthority);
    }
    let vetoed = match &deployment.collection {
        Some(c) => binding_vetoes(&c.oracle, LifecycleEvent::Transfer),
        None => false,
    };
    if vetoed && oracle_verdict == Verdict::Rejected {
        return Err(LedgerError::OracleRejected);
    }
    proof {
        assert(idx < deployment.assets@.len());
        assert(deployment.collection_info is Some);
        lemma_veto_binding_can_veto(deployment.collection.unwrap().oracle);
        assert(!(oracle_verdict is Rejected));
        assert forall|i: int|
            0 <= i < deployment.assets@.len() && (#[trigger] deployment.assets@[i]).address@
                == accounts.asset@ implies i == idx as int by {
            if i != idx as int {
                if i < idx as int {
                    assert(deployment.assets@[i].address@ != deployment.assets@[idx as int].address@);
                } else {
                    assert(deployment.assets@[idx as int].address@ != deployment.assets@[i].address@);
                }
            }
        }
    }
    deployment.assets[idx].owner = accounts.new_owner;
    Ok(())
}

} // verus!
