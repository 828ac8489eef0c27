use storehub::id_set::IdSet;
use storehub::receipt::{
    frame_purchase_extra, frame_purchase_response, render_purchase_extra, render_purchase_response,
};
use storehub::record::{ItemKey, ItemMetadata, Log};
use storehub::storage_key::StorageKey;
use storehub::table::{Key, Table};
use storehub::text::{make_log_id, push_decimal, store_and_item_key};

const SHA256_OF_BOB: [u8; 32] = [
    129, 182, 55, 216, 252, 210, 198, 218, 99, 89, 230, 150, 49, 19, 161, 23, 13, 231, 149, 228,
    183, 37, 184, 77, 30, 11, 76, 253, 158, 197, 140, 233,
];

const SHA256_OF_CHARLIE: [u8; 32] = [
    185, 221, 150, 12, 23, 83, 69, 154, 120, 17, 93, 60, 184, 69, 165, 125, 146, 75, 104, 119,
    232, 5, 176, 139, 208, 16, 134, 204, 223, 52, 67, 60,
];

fn decimal(n: u128) -> String {
    let mut out = String::new();
    push_decimal(&mut out, n);
    out
}

#[test]
fn decimal_of_small_and_large_numbers() {
    assert_eq!(decimal(0), "0");
    assert_eq!(decimal(7), "7");
    assert_eq!(decimal(10), "10");
    assert_eq!(decimal(1500), "1500");
    assert_eq!(decimal(1234567890), "1234567890");
    assert_eq!(decimal(u128::MAX), "340282366920938463463374607431768211455");
}

#[test]
fn decimal_is_appended_to_what_is_there() {
    let mut out = "paid ".to_string();
    push_decimal(&mut out, 905);
    assert_eq!(out, "paid 905");
}

#[test]
fn composite_key_joins_store_and_item() {
    assert_eq!(store_and_item_key("shop1", "item1"), "shop1.item1");
    assert_eq!(store_and_item_key("", ""), ".");
    assert_eq!(store_and_item_key("a.b", "c"), "a.b.c");
}

#[test]
fn log_id_joins_entity_and_timestamp() {
    assert_eq!(make_log_id("entity", 0), "entity.0");
    assert_eq!(make_log_id("shop1.item1", 1700000000000000000), "shop1.item1.1700000000000000000");
    assert_eq!(make_log_id("", u64::MAX), ".18446744073709551615");
}

#[test]
fn purchase_texts_are_framed_around_what_they_are_given() {
    assert_eq!(frame_purchase_extra(5, "null"), "{\"paid\":5,\"previous_owner\":null}");
    assert_eq!(
        frame_purchase_response("\"x.1\""),
        "{\"message\":\"your purchase is ready\",\"transaction_id\":\"x.1\"}"
    );
}

#[test]
fn purchase_texts_quote_and_escape() {
    assert_eq!(render_purchase_extra(1500, "alice"), "{\"paid\":1500,\"previous_owner\":\"alice\"}");
    assert_eq!(
        render_purchase_extra(0, "a\nb"),
        "{\"paid\":0,\"previous_owner\":\"a\\nb\"}"
    );
    assert_eq!(
        render_purchase_response("shop\"1.item1.3"),
        "{\"message\":\"your purchase is ready\",\"transaction_id\":\"shop\\\"1.item1.3\"}"
    );
}

#[test]
fn plain_namespaces_are_their_tag() {
    assert_eq!(StorageKey::StoresByAccountId.into_storage_key(), vec![0]);
    assert_eq!(StorageKey::OwnersByStoreId.into_storage_key(), vec![1]);
    assert_eq!(StorageKey::ItemByStoreId.into_storage_key(), vec![4]);
    assert_eq!(StorageKey::TransactionsByStoreAndItemIds.into_storage_key(), vec![5]);
    assert_eq!(StorageKey::FungibleTokenIds.into_storage_key(), vec![6]);
    assert_eq!(StorageKey::StoresPerOwnerInner.into_storage_key(), vec![7]);
    assert_eq!(StorageKey::AuditLogs.into_storage_key(), vec![8]);
}

#[test]
fn hashed_namespaces_carry_length_and_hash() {
    let key = StorageKey::StoresByAccountIdInner { account_hash: vec![9, 8, 7] };
    assert_eq!(key.into_storage_key(), vec![2, 3, 0, 0, 0, 9, 8, 7]);
    let key = StorageKey::OwnersByStoreIdInner { owner_hash: vec![] };
    assert_eq!(key.into_storage_key(), vec![3, 0, 0, 0, 0]);
    let key = StorageKey::OwnersByStoreIdInner { owner_hash: vec![1; 300] };
    let bytes = key.into_storage_key();
    assert_eq!(bytes.len(), 305);
    assert_eq!(bytes[..5], [3, 44, 1, 0, 0]);
}

#[test]
fn account_namespace_carries_the_digest() {
    let key = StorageKey::stores_of_account(SHA256_OF_BOB);
    match &key {
        StorageKey::StoresByAccountIdInner { account_hash } => {
            assert_eq!(account_hash.as_slice(), SHA256_OF_BOB);
        }
        other => panic!("unexpected namespace {:?}", other),
    }
    let mut expected = vec![2, 32, 0, 0, 0];
    expected.extend_from_slice(&SHA256_OF_BOB);
    assert_eq!(key.into_storage_key(), expected);
}

#[test]
fn store_namespace_carries_the_digest() {
    let key = StorageKey::owners_of_store(SHA256_OF_CHARLIE);
    match &key {
        StorageKey::OwnersByStoreIdInner { owner_hash } => {
            assert_eq!(owner_hash.as_slice(), SHA256_OF_CHARLIE);
        }
        other => panic!("unexpected namespace {:?}", other),
    }
    let mut expected = vec![3, 32, 0, 0, 0];
    expected.extend_from_slice(&SHA256_OF_CHARLIE);
    assert_eq!(key.into_storage_key(), expected);
    assert_ne!(
        StorageKey::owners_of_store(SHA256_OF_BOB).into_storage_key(),
        StorageKey::stores_of_account(SHA256_OF_BOB).into_storage_key()
    );
}

#[test]
fn namespaces_of_all_zero_and_all_one_digests() {
    let mut expected = vec![2, 32, 0, 0, 0];
    expected.extend_from_slice(&[0; 32]);
    assert_eq!(StorageKey::stores_of_account([0; 32]).into_storage_key(), expected);
    let mut expected = vec![3, 32, 0, 0, 0];
    expected.extend_from_slice(&[255; 32]);
    assert_eq!(StorageKey::owners_of_store([255; 32]).into_storage_key(), expected);
}

#[test]
fn namespace_of_an_account_hashed_by_the_host() {
    let digest = near_sdk::env::sha256_array("bob".as_bytes());
    assert_eq!(digest, SHA256_OF_BOB);
    let mut expected = vec![2, 32, 0, 0, 0];
    expected.extend_from_slice(&SHA256_OF_BOB);
    assert_eq!(StorageKey::stores_of_account(digest).into_storage_key(), expected);
}

#[test]
fn id_set_keeps_order_and_refuses_duplicates() {
    let mut set = IdSet::new();
    assert_eq!(set.len(), 0);
    assert!(!set.contains("a"));
    assert!(set.insert("b".to_string()));
    assert!(set.insert("a".to_string()));
    assert!(!set.insert("b".to_string()));
    assert!(set.insert("".to_string()));
    assert_eq!(set.len(), 3);
    assert!(set.contains("a"));
    assert!(set.contains(""));
    assert!(!set.contains("c"));
    assert_eq!(set.to_vec(), vec!["b", "a", ""]);
}

#[test]
fn table_overwrites_and_returns_what_stood_there() {
    let mut table: Table<String, u32> = Table::new();
    assert!(table.get(&"a".to_string()).is_none());
    assert_eq!(table.insert("a".to_string(), 1), None);
    assert_eq!(table.insert("b".to_string(), 2), None);
    assert_eq!(table.insert("a".to_string(), 3), Some(1));
    assert_eq!(table.get(&"a".to_string()), Some(&3));
    assert_eq!(table.get(&"b".to_string()), Some(&2));
    assert!(table.contains_key(&"b".to_string()));
    assert!(!table.contains_key(&"c".to_string()));
    assert_eq!(table.insert("b".to_string(), 4), Some(2));
    assert_eq!(table.get(&"a".to_string()), Some(&3));
    assert_eq!(table.get(&"b".to_string()), Some(&4));
}

#[test]
fn item_keys_match_on_both_parts() {
    let key = ItemKey { store_id: "a".to_string(), item_id: "b".to_string() };
    assert!(key.same(&ItemKey { store_id: "a".to_string(), item_id: "b".to_string() }));
    assert!(!key.same(&ItemKey { store_id: "a".to_string(), item_id: "c".to_string() }));
    assert!(!key.same(&ItemKey { store_id: "b".to_string(), item_id: "a".to_string() }));
    assert!("x".to_string().same(&"x".to_string()));
    assert!(!"x".to_string().same(&"y".to_string()));
}

#[test]
fn records_are_cloned_field_by_field() {
    let item = ItemMetadata {
        name: "lamp".to_string(),
        price: 3,
        img_url: "u".to_string(),
        owner: "alice".to_string(),
    };
    let copy = item.clone();
    assert_eq!(copy.name, "lamp");
    assert_eq!(copy.price, 3);
    assert_eq!(copy.img_url, "u");
    assert_eq!(copy.owner, "alice");
    let log = Log {
        id: "e.1".to_string(),
        timestamp: 1,
        action: "buy".to_string(),
        actor: "bob".to_string(),
        entity: "e".to_string(),
        extra: "{}".to_string(),
    };
    let copy = log.clone();
    assert_eq!(copy.id, "e.1");
    assert_eq!(copy.timestamp, 1);
    assert_eq!(copy.action, "buy");
    assert_eq!(copy.actor, "bob");
    assert_eq!(copy.entity, "e");
    assert_eq!(copy.extra, "{}");
}
