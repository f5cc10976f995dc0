//! The protocol laws: what holds of every run of a deployment.
//!
//! Each lemma is stated over the same spec predicates the entry points'
//! `ensures` use, so together they extend the per-call contracts to whole
//! histories of calls.

use vstd::prelude::*;
use crate::accounts::CreateAsset;
use crate::accounts::CreateAssetsArgs;
use crate::accounts::CreateCollection;
use crate::accounts::CreateCollectionArgs;
use crate::error::CustomError;
use crate::error::LedgerError;
use crate::ledger::Deployment;
use crate::ledger::asset_address_taken;
use crate::ledger::create_allowed;
use crate::ledger::created_matches;
use crate::ledger::mint_verdict;
use crate::ledger::minted_matches;
use crate::ledger::transferred_matches;

verus! {

/// One observable ledger step: some entry point succeeded and the two
/// states are related by its post predicate, or a call failed (every
/// failure leaves the state unchanged), or nothing ran.
pub open spec fn step(d: Deployment, d1: Deployment) -> bool {
    ||| exists|accounts: CreateCollection, args: CreateCollectionArgs|
        create_allowed(d) && #[trigger] created_matches(d1, accounts, args, d.assets@)
    ||| exists|accounts: CreateAsset, args: CreateAssetsArgs|
        #[trigger] minted_matches(d1, d, accounts, args)
    ||| exists|asset: Seq<u8>, new_owner: Seq<u8>|
        #[trigger] transferred_matches(d1, d, asset, new_owner)
    ||| d1 == d
}

/// A run of the deployment: consecutive states are related by `step`.
pub open spec fn history(states: Seq<Deployment>) -> bool {
    forall|k: int| 0 <= k < states.len() - 1 ==> #[trigger] step(states[k], states[k + 1])
}

/// A successful creation closes the creation window and leaves the registry
/// naming exactly the collection account of that call.
pub proof fn lemma_creation_window_closes(
    d: Deployment,
    d1: Deployment,
    accounts: CreateCollection,
    args: CreateCollectionArgs,
)
    requires
        created_matches(d1, accounts, args, d.assets@),
    ensures
        !create_allowed(d1),
        d1.collection_info.unwrap().collection_address@ == accounts.collection@,
{
}

/// No step re-opens the creation window or repoints the canonical
/// collection: once the registry exists it exists forever, with the same
/// collection address.
pub proof fn lemma_step_keeps_registry(d: Deployment, d1: Deployment)
    requires
        step(d, d1),
        !create_allowed(d),
    ensures
        !create_allowed(d1),
        d1.collection_info.unwrap().collection_address@
            == d.collection_info.unwrap().collection_address@,
{
}

/// Single-creation invariant over a whole run: once some state's registry
/// exists, every later state keeps it with the same collection address. In
/// any sequence of `create_collection` calls at most one can therefore
/// succeed; `create_collection`'s own contract says each of the others
/// fails with the allocation conflict and changes nothing.
pub proof fn lemma_single_creation(states: Seq<Deployment>, k: int, m: int)
    requires
        history(states),
        0 <= k <= m < states.len(),
        !create_allowed(states[k]),
    ensures
        !create_allowed(states[m]),
        states[m].collection_info.unwrap().collection_address@
            == states[k].collection_info.unwrap().collection_address@,
    decreases m - k,
{
    if k < m {
        lemma_single_creation(states, k, m - 1);
        assert(step(states[m - 1], states[m - 1 + 1]));
        assert(states[m - 1 + 1] == states[m]);
        lemma_step_keeps_registry(states[m - 1], states[m]);
    }
}

/// Mint-gating invariant: before any successful creation, every mint
/// attempt is refused with `CollectionIsNotCreated`; `create_asset`'s own
/// contract then says no asset is created and nothing changes.
pub proof fn lemma_mint_gating(d: Deployment, accounts: CreateAsset)
    requires
        create_allowed(d),
    ensures
        mint_verdict(d, accounts) == Err::<(), LedgerError>(
            LedgerError::Custom(CustomError::CollectionIsNotCreated),
        ),
{
}

/// Collection-spoofing rejection: a mint that supplies any collection other
/// than the canonical one is refused with `WrongCollection`, however valid
/// that other collection may be; `create_asset`'s own contract then says no
/// asset is created and nothing changes.
pub proof fn lemma_collection_spoofing_rejected(d: Deployment, accounts: CreateAsset)
    requires
        d.collection_info is Some,
        d.collection_info.unwrap().is_created,
        accounts.collection@ != d.collection_info.unwrap().collection_address@,
    ensures
        mint_verdict(d, accounts) == Err::<(), LedgerError>(
            LedgerError::Custom(CustomError::WrongCollection),
        ),
{
}

/// Idempotence of the read checks: a successful mint consumes nothing that
/// later mint checks read. Another mint whose own asset address is distinct
/// (each call creates a distinct new asset) reaches exactly the verdict it
/// would have reached before, whatever the order of the calls: correct
/// references keep succeeding, wrong ones keep failing.
pub proof fn lemma_mint_checks_idempotent(
    d: Deployment,
    d1: Deployment,
    a1: CreateAsset,
    g1: CreateAssetsArgs,
    a2: CreateAsset,
)
    requires
        minted_matches(d1, d, a1, g1),
        a2.asset@ != a1.asset@,
    ensures
        mint_verdict(d1, a2) == mint_verdict(d, a2),
{
    let pre = d.assets@;
    let post = d1.assets@;
    assert forall|i: int| 0 <= i < pre.len() implies post[i] == pre[i] by {
        assert(post.subrange(0, pre.len() as int)[i] == post[i]);
    }
    assert(post[pre.len() as int].address@ == a1.asset@);
    if asset_address_taken(d1, a2.asset@) {
        let i = choose|i: int| 0 <= i < post.len() && (#[trigger] post[i]).address@ == a2.asset@;
        assert(i < pre.len());
        assert(pre[i].address@ == a2.asset@);
        assert(asset_address_taken(d, a2.asset@));
    }
    if asset_address_taken(d, a2.asset@) {
        let i = choose|i: int| 0 <= i < pre.len() && (#[trigger] pre[i]).address@ == a2.asset@;
        assert(post[i].address@ == a2.asset@);
        assert(asset_address_taken(d1, a2.asset@));
    }
}

} // verus!
