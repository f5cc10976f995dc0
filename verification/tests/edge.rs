//! Error paths, fallback rules and the canonical oracle binding.

use create_core_collection::{
    addr_eq, create_asset, create_collection, oracle_address, oracle_binding, transfer, Address,
    CreateAsset, CreateAssetsArgs, CreateCollection, CreateCollectionArgs, Deployment,
    LedgerError, Transfer, Verdict,
};
use create_core_collection::plugin::{LifecycleEvent, ResultsOffset, CHECK_CAN_REJECT};

fn addr(tag: u8) -> Address {
    Address::new([tag; 32])
}

fn args(name: &str, uri: &str) -> CreateAssetsArgs {
    CreateAssetsArgs { name: String::from(name), uri: String::from(uri) }
}

fn created(coll: Address, payer: Address) -> Deployment {
    let mut d = Deployment::new();
    create_collection(
        &mut d,
        CreateCollection { collection: coll, update_authority: None, payer },
        CreateCollectionArgs { name: String::from("Widgets"), uri: String::from("ipfs://widgets") },
    )
    .unwrap();
    d
}

#[test]
fn oracle_binding_is_veto_only_on_transfer() {
    let b = oracle_binding();
    assert!(addr_eq(&b.base_address, &oracle_address()));
    assert!(b.plugin_authority.is_none());
    assert_eq!(b.lifecycle_checks.len(), 1);
    assert_eq!(b.lifecycle_checks[0].event, LifecycleEvent::Transfer);
    assert_eq!(b.lifecycle_checks[0].flags, CHECK_CAN_REJECT);
    assert!(matches!(b.results_offset, ResultsOffset::Anchor));
}

#[test]
fn binding_vetoes_transfer_only() {
    let b = oracle_binding();
    assert!(create_core_collection::plugin::binding_vetoes(
        &b,
        LifecycleEvent::Transfer
    ));
    assert!(!create_core_collection::plugin::binding_vetoes(
        &b,
        LifecycleEvent::Burn
    ));
    assert!(!create_core_collection::plugin::binding_vetoes(
        &b,
        LifecycleEvent::Create
    ));
}

#[test]
fn oracle_address_bytes() {
    let expected: [u8; 32] = [
        147, 167, 232, 113, 113, 41, 118, 30, 93, 131, 215, 128, 28, 61, 109, 56, 156, 179, 113,
        98, 64, 6, 21, 91, 114, 207, 12, 205, 213, 222, 14, 51,
    ];
    assert_eq!(oracle_address().bytes, expected);
}

#[test]
fn update_authority_defaults_to_payer() {
    let payer = addr(2);
    let d = created(addr(1), payer);
    assert!(addr_eq(&d.collection.as_ref().unwrap().update_authority, &payer));

    let mut d2 = Deployment::new();
    let ua = addr(5);
    create_collection(
        &mut d2,
        CreateCollection { collection: addr(1), update_authority: Some(ua), payer },
        CreateCollectionArgs { name: String::new(), uri: String::new() },
    )
    .unwrap();
    assert!(addr_eq(&d2.collection.as_ref().unwrap().update_authority, &ua));
}

#[test]
fn explicit_owner_is_kept() {
    let coll = addr(1);
    let payer = addr(2);
    let owner = addr(6);
    let mut d = created(coll, payer);
    create_asset(
        &mut d,
        CreateAsset {
            asset: addr(4),
            authority: None,
            collection: coll,
            payer,
            owner: Some(owner),
            update_authority: None,
        },
        args("Widget#1", "ipfs://w1"),
    )
    .unwrap();
    assert!(addr_eq(&d.assets[0].owner, &owner));
}

#[test]
fn duplicate_asset_address_conflicts() {
    let coll = addr(1);
    let payer = addr(2);
    let mut d = created(coll, payer);
    let mint = |d: &mut Deployment| {
        create_asset(
            d,
            CreateAsset {
                asset: addr(4),
                authority: None,
                collection: coll,
                payer,
                owner: None,
                update_authority: None,
            },
            args("Widget#1", "ipfs://w1"),
        )
    };
    assert!(mint(&mut d).is_ok());
    assert_eq!(mint(&mut d), Err(LedgerError::AllocationConflict));
    assert_eq!(d.assets.len(), 1);
}

#[test]
fn transfer_of_unknown_asset_fails() {
    let coll = addr(1);
    let payer = addr(2);
    let mut d = created(coll, payer);
    let r = transfer(
        &mut d,
        Transfer {
            asset: addr(4),
            collection: Some(coll),
            payer,
            authority: None,
            new_owner: addr(3),
        },
        Verdict::Approved,
    );
    assert_eq!(r, Err(LedgerError::AssetNotFound));
}

#[test]
fn transfer_needs_the_assets_collection_account() {
    let coll = addr(1);
    let payer = addr(2);
    let mut d = created(coll, payer);
    create_asset(
        &mut d,
        CreateAsset {
            asset: addr(4),
            authority: None,
            collection: coll,
            payer,
            owner: None,
            update_authority: None,
        },
        args("Widget#1", "ipfs://w1"),
    )
    .unwrap();

    let missing = transfer(
        &mut d,
        Transfer { asset: addr(4), collection: None, payer, authority: None, new_owner: addr(3) },
        Verdict::Approved,
    );
    assert_eq!(missing, Err(LedgerError::InvalidCollection));

    let wrong = transfer(
        &mut d,
        Transfer {
            asset: addr(4),
            collection: Some(addr(9)),
            payer,
            authority: None,
            new_owner: addr(3),
        },
        Verdict::Approved,
    );
    assert_eq!(wrong, Err(LedgerError::InvalidCollection));
}

#[test]
fn only_the_owner_may_transfer() {
    let coll = addr(1);
    let payer = addr(2);
    let owner = addr(6);
    let mut d = created(coll, payer);
    create_asset(
        &mut d,
        CreateAsset {
            asset: addr(4),
            authority: None,
            collection: coll,
            payer,
            owner: Some(owner),
            update_authority: None,
        },
        args("Widget#1", "ipfs://w1"),
    )
    .unwrap();

    // the payer is not the owner here, and no authority is supplied
    let r = transfer(
        &mut d,
        Transfer { asset: addr(4), collection: Some(coll), payer, authority: None, new_owner: addr(3) },
        Verdict::Approved,
    );
    assert_eq!(r, Err(LedgerError::InvalidAuthority));
    assert!(addr_eq(&d.assets[0].owner, &owner));

    // the owner acting as authority succeeds
    let r = transfer(
        &mut d,
        Transfer {
            asset: addr(4),
            collection: Some(coll),
            payer,
            authority: Some(owner),
            new_owner: addr(3),
        },
        Verdict::Approved,
    );
    assert!(r.is_ok());
    assert!(addr_eq(&d.assets[0].owner, &addr(3)));
}

#[test]
fn transfer_changes_only_the_owner() {
    let coll = addr(1);
    let payer = addr(2);
    let mut d = created(coll, payer);
    create_asset(
        &mut d,
        CreateAsset {
            asset: addr(4),
            authority: None,
            collection: coll,
            payer,
            owner: None,
            update_authority: None,
        },
        args("Widget#1", "ipfs://w1"),
    )
    .unwrap();
    create_asset(
        &mut d,
        CreateAsset {
            asset: addr(5),
            authority: None,
            collection: coll,
            payer,
            owner: None,
            update_authority: None,
        },
        args("Widget#2", "ipfs://w2"),
    )
    .unwrap();

    transfer(
        &mut d,
        Transfer {
            asset: addr(4),
            collection: Some(coll),
            payer,
            authority: None,
            new_owner: addr(3),
        },
        Verdict::Approved,
    )
    .unwrap();

    assert_eq!(d.assets.len(), 2);
    assert_eq!(d.assets[0].name, "Widget#1");
    assert_eq!(d.assets[0].uri, "ipfs://w1");
    assert!(addr_eq(&d.assets[0].collection, &coll));
    assert!(addr_eq(&d.assets[0].owner, &addr(3)));
    // the sibling asset is untouched
    assert!(addr_eq(&d.assets[1].owner, &payer));
    assert_eq!(d.assets[1].name, "Widget#2");
}
