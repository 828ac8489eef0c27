//! A marketplace ledger: accounts register stores, stores list items, and
//! other accounts buy items. Each mutation is checked against the ledger's
//! authorization rules and each purchase leaves an audit log entry.
//!
//! The ledger owns its registries: they are tables and sets in memory, and
//! no operation reads or writes the storage of a host. Who calls, what is
//! attached and what time it is are arguments; what a purchase owes to the
//! seller is part of its result. A host reads the former, carries out the
//! latter, and keeps the ledger durable around these calls.

pub mod contract;
pub mod error;
pub mod id_set;
pub mod laws;
pub mod ledger;
pub mod receipt;
pub mod record;
pub mod storage_key;
pub mod table;
pub mod text;

pub use contract::{test_account, Contract, Purchase};
pub use error::{refusal_message, MarketError, Operation};
pub use record::{ItemMetadata, Log};
pub use storage_key::StorageKey;
