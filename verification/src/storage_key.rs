//! The namespaces under which the ledger's collections are kept in a
//! key-value store: one per collection, and one per account and per store
//! for the sets that belong to them. The host hashes an identifier; the
//! namespace is made of the digest here.

use vstd::prelude::*;
use vstd::bytes::{spec_u32_to_le_bytes, u32_to_le_bytes};
use vstd::slice::slice_to_vec;

verus! {

/// The namespace of one of the ledger's collections.
#[derive(Debug)]
pub enum StorageKey {
    StoresByAccountId,
    OwnersByStoreId,
    StoresByAccountIdInner { account_hash: Vec<u8> },
    OwnersByStoreIdInner { owner_hash: Vec<u8> },
    ItemByStoreId,
    TransactionsByStoreAndItemIds,
    FungibleTokenIds,
    StoresPerOwnerInner,
    AuditLogs,
}

impl StorageKey {
    /// The position of the variant in the declaration, which opens the
    /// namespace's bytes.
    pub open spec fn tag(self) -> u8 {
        match self {
            StorageKey::StoresByAccountId => 0,
            StorageKey::OwnersByStoreId => 1,
            StorageKey::StoresByAccountIdInner { .. } => 2,
            StorageKey::OwnersByStoreIdInner { .. } => 3,
            StorageKey::ItemByStoreId => 4,
            StorageKey::TransactionsByStoreAndItemIds => 5,
            StorageKey::FungibleTokenIds => 6,
            StorageKey::StoresPerOwnerInner => 7,
            StorageKey::AuditLogs => 8,
        }
    }

    /// The hash that the variant carries, if it carries one.
    pub open spec fn hash(self) -> Option<Seq<u8>> {
        match self {
            StorageKey::StoresByAccountIdInner { account_hash } => Some(account_hash@),
            StorageKey::OwnersByStoreIdInner { owner_hash } => Some(owner_hash@),
            _ => None,
        }
    }

    /// The bytes of the namespace: the tag, then, where the variant carries
    /// a hash, the hash's length as four little-endian bytes and the hash.
    pub open spec fn key_bytes(self) -> Seq<u8> {
        match self.hash() {
            Some(hash) => seq![self.tag()] + spec_u32_to_le_bytes(hash.len() as u32) + hash,
            None => seq![self.tag()],
        }
    }

    /// The namespace of the set of stores that an account created, given
    /// the SHA-256 digest of the account's identifier.
    pub fn stores_of_account(account_hash: [u8; 32]) -> (key: StorageKey)
        ensures
            key.tag() == 2,
            key.hash() == Some(account_hash@),
            key.key_bytes() == seq![2u8] + spec_u32_to_le_bytes(32) + account_hash@,
    {
        StorageKey::StoresByAccountIdInner { account_hash: slice_to_vec(account_hash.as_slice()) }
    }

    /// The namespace of the set of owners of a store, given the SHA-256
    /// digest of the store's identifier.
    pub fn owners_of_store(store_hash: [u8; 32]) -> (key: StorageKey)
        ensures
            key.tag() == 3,
            key.hash() == Some(store_hash@),
            key.key_bytes() == seq![3u8] + spec_u32_to_le_bytes(32) + store_hash@,
    {
        StorageKey::OwnersByStoreIdInner { owner_hash: slice_to_vec(store_hash.as_slice()) }
    }

    fn tag_byte(&self) -> (tag: u8)
        ensures
            tag == self.tag(),
    {
        match self {
            StorageKey::StoresByAccountId => 0,
            StorageKey::OwnersByStoreId => 1,
            StorageKey::StoresByAccountIdInner { .. } => 2,
            StorageKey::OwnersByStoreIdInner { .. } => 3,
            StorageKey::ItemByStoreId => 4,
            StorageKey::TransactionsByStoreAndItemIds => 5,
            StorageKey::FungibleTokenIds => 6,
            StorageKey::StoresPerOwnerInner => 7,
            StorageKey::AuditLogs => 8,
        }
    }

    /// The bytes of the namespace.
    pub fn into_storage_key(self) -> (bytes: Vec<u8>)
        requires
            self.hash() matches Some(hash) ==> hash.len() <= u32::MAX,
        ensures
            bytes@ == self.key_bytes(),
    {
        let mut bytes: Vec<u8> = Vec::new();
        bytes.push(self.tag_byte());
        match self {
            StorageKey::StoresByAccountIdInner { account_hash } => {
                let mut length = u32_to_le_bytes(account_hash.len() as u32);
                bytes.append(&mut length);
                bytes.extend_from_slice(account_hash.as_slice());
            },
            StorageKey::OwnersByStoreIdInner { owner_hash } => {
                let mut length = u32_to_le_bytes(owner_hash.len() as u32);
                bytes.append(&mut length);
                bytes.extend_from_slice(owner_hash.as_slice());
            },
            _ => {},
        }
        assert(bytes@ =~= self.key_bytes());
        bytes
    }
}

} // verus!
