use near_sdk::test_utils::accounts;
use storehub::contract::{Contract, Purchase};
use storehub::error::MarketError;

fn account(id: usize) -> String {
    accounts(id).to_string()
}

fn granted<T>(result: Result<T, MarketError>) -> T {
    match result {
        Ok(value) => value,
        Err(error) => panic!("{}", error.message()),
    }
}

fn listing(contract: &mut Contract, lister: usize) {
    granted(contract.add_store_item(
        &account(lister),
        "item1",
        &account(2),
        "item_name".to_string(),
        1000,
        "http://image.url".to_string(),
    ));
}

#[test]
fn test_init_contract() {
    let contract = Contract::new(account(0));

    assert_eq!(*contract.overseer_id(), account(0));
}

#[test]
fn test_create_store() {
    let mut contract = Contract::new(account(0));
    granted(contract.create_store(&account(1), &account(2)));

    assert_eq!(contract.get_stores_by_account_id(&account(1)), vec![account(2)]);
}

#[test]
fn test_add_store_owners() {
    let mut contract = Contract::new(account(0));
    granted(contract.create_store(&account(1), &account(2)));
    granted(contract.add_store_owners(&account(1), &account(2), &account(3)));

    let owners = contract.get_owners_by_store_id(&account(2));

    assert!(owners.contains(&account(3)));
}

#[test]
fn test_add_store_item() {
    let mut contract = Contract::new(account(0));
    granted(contract.create_store(&account(1), &account(2)));

    let item_id = "item1".to_string();
    let item_name = "item_name".to_string();
    let item_price: u128 = 1000;
    let item_img_url = "http://image.url".to_string();

    granted(contract.add_store_item(
        &account(1),
        &item_id,
        &account(2),
        item_name.clone(),
        item_price,
        item_img_url.clone(),
    ));

    let item = contract.get_item_by_store_id(&item_id);
    match item {
        Some(metadata) => {
            assert_eq!(metadata.name, item_name);
            assert_eq!(metadata.price, item_price);
            assert_eq!(metadata.img_url, item_img_url);
            assert_eq!(metadata.owner, account(1));
        }
        None => {
            assert!(false, "item doesn't exist");
        }
    }
}

#[test]
#[should_panic(expected = "StoreHub: item doesn't exist")]
fn test_buy_nonexistent_item() {
    let mut contract = Contract::new(account(0));
    granted(contract.create_store(&account(1), &account(2)));

    granted(contract.buy(&account(1), "item1", &account(2), 1000, 0));
}

#[test]
#[should_panic(expected = "StoreHub: this item doesn't exist for this store")]
fn test_buy_existent_wrong_store_item() {
    let mut contract = Contract::new(account(0));
    granted(contract.create_store(&account(1), &account(2)));
    listing(&mut contract, 1);

    granted(contract.buy(&account(1), "item1", &account(3), 1000, 0));
}

#[test]
#[should_panic(expected = "StoreHub: can't buy owned item")]
fn test_buy_owned_item() {
    let mut contract = Contract::new(account(0));
    granted(contract.create_store(&account(1), &account(2)));
    listing(&mut contract, 1);

    granted(contract.buy(&account(1), "item1", &account(2), 2000, 0));
}

#[test]
#[should_panic(expected = "StoreHub: deposit is below price")]
fn test_buy_with_insufficient_deposit() {
    let mut contract = Contract::new(account(0));
    granted(contract.create_store(&account(1), &account(2)));
    listing(&mut contract, 1);

    granted(contract.buy(&account(3), "item1", &account(2), 500, 0));
}

#[test]
fn test_buy_item() {
    let mut contract = Contract::new(account(0));
    granted(contract.create_store(&account(1), &account(2)));
    listing(&mut contract, 1);

    let purchase: Purchase = granted(contract.buy(&account(3), "item1", &account(2), 2000, 0));
    let response: serde_json::Value = serde_json::from_str(&purchase.response).unwrap();

    assert_eq!(response["message"], "your purchase is ready");
    assert!(response["transaction_id"].is_string());
}

#[test]
fn test_add_transaction() {
    let mut contract = Contract::new(account(0));
    let log_id = contract.add_log(
        "action".to_string(),
        "actor".to_string(),
        "entity".to_string(),
        "extra".to_string(),
        0,
    );

    let log = granted(contract.get_log(&log_id));

    assert_eq!(log.id, log_id);
    assert_eq!(log.action, "action");
    assert_eq!(log.actor, "actor");
    assert_eq!(log.entity, "entity");
    assert_eq!(log.extra, "extra");
}

#[test]
#[should_panic(expected = "StoreHub: access denied")]
fn test_add_ft_denied() {
    let mut contract = Contract::new(account(0));
    granted(contract.add_ft(&account(1), &account(2)));
}

#[test]
fn test_add_ft_approved() {
    let mut contract = Contract::new(account(0));
    granted(contract.add_ft(&account(0), &account(2)));

    assert!(contract.is_ft_approved(&account(2)));
}
