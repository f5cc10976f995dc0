//! A ledger module that manages one canonical asset collection and the
//! assets minted under it.
//!
//! The module has three entry points: create the collection (exactly once),
//! mint an asset into that collection, and transfer an asset to a new owner
//! subject to a veto-only oracle check that is bound to the collection at
//! creation time.

pub mod accounts;
pub mod address;
pub mod entities;
pub mod error;
pub mod laws;
pub mod ledger;
pub mod plugin;
pub mod registry;

pub use accounts::CreateAsset;
pub use accounts::CreateAssetsArgs;
pub use accounts::CreateCollection;
pub use accounts::CreateCollectionArgs;
pub use accounts::Transfer;
pub use address::Address;
pub use address::addr_eq;
pub use address::oracle_address;
pub use entities::Asset;
pub use entities::Collection;
pub use error::CustomError;
pub use error::LedgerError;
pub use ledger::Deployment;
pub use ledger::create_asset;
pub use ledger::create_collection;
pub use ledger::transfer;
pub use plugin::OracleBinding;
pub use plugin::Verdict;
pub use plugin::oracle_binding;
pub use registry::CollectionInfo;
