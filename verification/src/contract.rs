//! The ledger itself: the registries, and the operations that callers
//! invoke on them.

use vstd::prelude::*;
use vstd::string::*;
use crate::error::MarketError;
use crate::id_set::{with_id, IdSet};
use crate::laws::{
    lemma_add_ft_inv, lemma_add_log_inv, lemma_add_store_item_inv, lemma_add_store_owners_inv,
    lemma_buy_inv, lemma_create_store_inv, lemma_init_inv, lemma_log_position_is,
};
use crate::ledger::{listed_under, seed_token, Ledger};
use crate::receipt::{json_string, purchase_response, render_purchase_extra, render_purchase_response};
use crate::record::{ItemKey, ItemMetadata, Log};
use crate::table::Table;
use crate::text::{composite_key, log_id, make_log_id, store_and_item_key};

verus! {

/// The account of the payment token that every ledger accepts from the
/// start.
pub fn test_account() -> (account: String)
    ensures
        account@ == seed_token(),
{
    String::from_str("testnet")
}

/// What a table of sets stands for: each key with the list of its members.
spec fn members(sets: Map<Seq<char>, IdSet>) -> Map<Seq<char>, Seq<Seq<char>>> {
    sets.map_values(|set: IdSet| set@)
}

/// What the buyer gets back from a purchase, and what is owed to the
/// seller.
#[derive(Debug)]
pub struct Purchase {
    /// The confirmation: a JSON object with a message and the identifier
    /// of the log entry.
    pub response: String,
    /// The identifier of the log entry that records the purchase.
    pub transaction_id: String,
    /// The account that owned the item, to which the payment goes.
    pub seller: String,
    /// The amount to transfer to the seller: the whole payment.
    pub amount: u128,
}

/// The marketplace ledger.
pub struct Contract {
    overseer_id: String,
    stores_by_account_id: Table<String, IdSet>,
    owners_per_store_id: Table<String, IdSet>,
    item_by_store_id: Table<String, String>,
    metadata_by_storeanditem_ids: Table<ItemKey, ItemMetadata>,
    audit_logs: Vec<Log>,
    approved_ft_token_ids: IdSet,
}

impl View for Contract {
    type V = Ledger;

    closed spec fn view(&self) -> Ledger {
        Ledger {
            overseer: self.overseer_id@,
            stores: members(self.stores_by_account_id@),
            owners: members(self.owners_per_store_id@),
            index: self.item_by_store_id@.map_values(|store: String| store@),
            items: self.metadata_by_storeanditem_ids@.map_values(|item: ItemMetadata| item@),
            logs: self.audit_logs@.map_values(|log: Log| log@),
            tokens: self.approved_ft_token_ids@,
        }
    }
}

/// Makes `id` a member of the set under `key`, which is created if it is
/// not there.
fn insert_member(sets: &mut Table<String, IdSet>, key: &str, id: &str)
    ensures
        members(final(sets)@) == members(old(sets)@).insert(
            key@,
            with_id(listed_under(members(old(sets)@), key@), id@),
        ),
{
    let replaced = sets.insert(String::from_str(key), IdSet::new());
    let mut set = match replaced {
        Some(set) => set,
        None => IdSet::new(),
    };
    set.insert(String::from_str(id));
    sets.insert(String::from_str(key), set);
    assert(members(sets@) =~= members(old(sets)@).insert(
        key@,
        with_id(listed_under(members(old(sets)@), key@), id@),
    ));
}

/// The members of the set under `key`, or none if there is no such set.
fn members_of(sets: &Table<String, IdSet>, key: &str) -> (ids: Vec<String>)
    ensures
        ids@.map_values(|id: String| id@) == listed_under(members(sets@), key@),
{
    let wanted = String::from_str(key);
    match sets.get(&wanted) {
        Some(set) => set.to_vec(),
        None => {
            let ids: Vec<String> = Vec::new();
            assert(ids@.map_values(|id: String| id@) =~= Seq::<Seq<char>>::empty());
            ids
        },
    }
}

impl Contract {
    /// A ledger with `overseer_id` as its overseer, no stores, no items, no
    /// log entries, and the one payment token that is always approved.
    pub fn new(overseer_id: String) -> (contract: Self)
        ensures
            contract@ == Ledger::init(overseer_id@),
            contract@.inv(),
    {
        let mut tokens = IdSet::new();
        tokens.insert(test_account());
        let contract = Contract {
            overseer_id,
            stores_by_account_id: Table::new(),
            owners_per_store_id: Table::new(),
            item_by_store_id: Table::new(),
            metadata_by_storeanditem_ids: Table::new(),
            audit_logs: Vec::new(),
            approved_ft_token_ids: tokens,
        };
        proof {
            let init = Ledger::init(overseer_id@);
            assert(contract@.stores =~= init.stores);
            assert(contract@.owners =~= init.owners);
            assert(contract@.index =~= init.index);
            assert(contract@.items =~= init.items);
            assert(contract@.logs =~= init.logs);
            assert(contract@.tokens =~= init.tokens);
            lemma_init_inv(overseer_id@);
        }
        contract
    }

    /// Registers `store_id` among the stores of `caller` and makes `caller`
    /// an owner of it. Refused where one of the two identifiers is empty.
    pub fn create_store(&mut self, caller: &str, store_id: &str) -> (result: Result<
        (),
        MarketError,
    >)
        ensures
            match result {
                Ok(()) => {
                    &&& Ledger::create_store_error(caller@, store_id@) is None
                    &&& final(self)@ == old(self)@.create_store(caller@, store_id@)
                },
                Err(error) => {
                    &&& Ledger::create_store_error(caller@, store_id@) == Some(error)
                    &&& final(self)@ == old(self)@
                },
            },
            old(self)@.inv() ==> final(self)@.inv(),
    {
        if caller.is_empty() || store_id.is_empty() {
            return Err(MarketError::InvalidIdentifier);
        }
        insert_member(&mut self.stores_by_account_id, caller, store_id);
        insert_member(&mut self.owners_per_store_id, store_id, caller);
        proof {
            let after = old(self)@.create_store(caller@, store_id@);
            assert(self@.stores =~= after.stores);
            assert(self@.owners =~= after.owners);
            if old(self)@.inv() {
                lemma_create_store_inv(old(self)@, caller@, store_id@);
            }
        }
        Ok(())
    }

    /// Makes `new_owner_id` an owner of `store_id`. Where the store has
    /// owners, only one of them may do so; a store without owners takes
    /// its first owner from any caller.
    pub fn add_store_owners(&mut self, caller: &str, store_id: &str, new_owner_id: &str) -> (result:
        Result<(), MarketError>)
        ensures
            match result {
                Ok(()) => {
                    &&& old(self)@.add_store_owners_error(caller@, store_id@) is None
                    &&& final(self)@ == old(self)@.add_store_owners(store_id@, new_owner_id@)
                },
                Err(error) => {
                    &&& old(self)@.add_store_owners_error(caller@, store_id@) == Some(error)
                    &&& final(self)@ == old(self)@
                },
            },
            old(self)@.inv() ==> final(self)@.inv(),
    {
        let store_key = String::from_str(store_id);
        match self.owners_per_store_id.get(&store_key) {
            Some(owners) => {
                if owners.len() > 0 && !owners.contains(caller) {
                    return Err(MarketError::AccessDenied);
                }
            },
            None => {},
        }
        insert_member(&mut self.owners_per_store_id, store_id, new_owner_id);
        proof {
            let after = old(self)@.add_store_owners(store_id@, new_owner_id@);
            assert(self@.owners =~= after.owners);
            if old(self)@.inv() {
                lemma_add_store_owners_inv(old(self)@, store_id@, new_owner_id@);
            }
        }
        Ok(())
    }

    /// The stores that `account_id` created, oldest first.
    pub fn get_stores_by_account_id(&self, account_id: &str) -> (stores: Vec<String>)
        ensures
            stores@.map_values(|id: String| id@) == self@.stores_of(account_id@),
    {
        members_of(&self.stores_by_account_id, account_id)
    }

    /// The owners of `store_id`, oldest first; none if the store is
    /// unknown.
    pub fn get_owners_by_store_id(&self, store_id: &str) -> (owners: Vec<String>)
        ensures
            owners@.map_values(|id: String| id@) == self@.owners_of(store_id@),
    {
        members_of(&self.owners_per_store_id, store_id)
    }

    /// The metadata of `item_id`, found through the index; `None` where
    /// the item is not indexed or has no metadata in its store.
    pub fn get_item_by_store_id(&self, item_id: &str) -> (found: Option<ItemMetadata>)
        ensures
            match found {
                Some(metadata) => self@.item(item_id@) == Some(metadata@),
                None => self@.item(item_id@) is None,
            },
    {
        let item_key = String::from_str(item_id);
        match self.item_by_store_id.get(&item_key) {
            Some(store) => {
                let key = ItemKey { store_id: store.clone(), item_id: item_key };
                match self.metadata_by_storeanditem_ids.get(&key) {
                    Some(metadata) => Some(metadata.clone()),
                    None => None,
                }
            },
            None => None,
        }
    }

    /// Lists `item_id` in `store_id` with its name, price and image
    /// reference; `caller` is its first owner. Only an owner of the store
    /// may do so. An item that is listed already is bound to `store_id`
    /// anew.
    pub fn add_store_item(
        &mut self,
        caller: &str,
        item_id: &str,
        store_id: &str,
        item_name: String,
        item_price: u128,
        item_img_url: String,
    ) -> (result: Result<(), MarketError>)
        ensures
            match result {
                Ok(()) => {
                    &&& old(self)@.add_store_item_error(caller@, store_id@) is None
                    &&& final(self)@ == old(self)@.add_store_item(
                        caller@,
                        item_id@,
                        store_id@,
                        item_name@,
                        item_price,
                        item_img_url@,
                    )
                },
                Err(error) => {
                    &&& old(self)@.add_store_item_error(caller@, store_id@) == Some(error)
                    &&& final(self)@ == old(self)@
                },
            },
            old(self)@.inv() ==> final(self)@.inv(),
    {
        let store_key = String::from_str(store_id);
        match self.owners_per_store_id.get(&store_key) {
            Some(owners) => {
                if !owners.contains(caller) {
                    return Err(MarketError::AccessDenied);
                }
            },
            None => {
                return Err(MarketError::InternalInconsistency);
            },
        }
        let item_key = String::from_str(item_id);
        self.item_by_store_id.insert(item_key.clone(), store_key.clone());
        let metadata = ItemMetadata {
            name: item_name,
            price: item_price,
            img_url: item_img_url,
            owner: String::from_str(caller),
        };
        self.metadata_by_storeanditem_ids.insert(
            ItemKey { store_id: store_key, item_id: item_key },
            metadata,
        );
        proof {
            let after = old(self)@.add_store_item(
                caller@,
                item_id@,
                store_id@,
                item_name@,
                item_price,
                item_img_url@,
            );
            assert(self@.index =~= after.index);
            assert(self@.items =~= after.items);
            if old(self)@.inv() {
                lemma_add_store_item_inv(
                    old(self)@,
                    caller@,
                    item_id@,
                    store_id@,
                    item_name@,
                    item_price,
                    item_img_url@,
                );
            }
        }
        Ok(())
    }

    /// `caller` buys `item_id` from `store_id` with `deposit` attached, at
    /// `timestamp`. The item must be listed in that store, the deposit
    /// must reach the price, and the buyer must not own the item. Then the
    /// buyer becomes the owner, the purchase is logged, and the whole
    /// deposit is owed to the previous owner.
    pub fn buy(
        &mut self,
        caller: &str,
        item_id: &str,
        store_id: &str,
        deposit: u128,
        timestamp: u64,
    ) -> (result: Result<Purchase, MarketError>)
        ensures
            match result {
                Ok(purchase) => {
                    &&& old(self)@.buy_error(caller@, item_id@, store_id@, deposit) is None
                    &&& final(self)@ == old(self)@.buy(
                        caller@,
                        item_id@,
                        store_id@,
                        deposit,
                        timestamp,
                    )
                    &&& purchase.transaction_id@ == log_id(
                        composite_key(store_id@, item_id@),
                        timestamp,
                    )
                    &&& purchase.response@ == purchase_response(
                        json_string(purchase.transaction_id@),
                    )
                    &&& (purchase.seller@, purchase.amount) == old(self)@.payout(
                        item_id@,
                        store_id@,
                        deposit,
                    )
                },
                Err(error) => {
                    &&& old(self)@.buy_error(caller@, item_id@, store_id@, deposit) == Some(error)
                    &&& final(self)@ == old(self)@
                },
            },
            old(self)@.inv() ==> final(self)@.inv(),
    {
        let item_key = String::from_str(item_id);
        let store_key = String::from_str(store_id);
        match self.item_by_store_id.get(&item_key) {
            Some(listed_in) => {
                if !(*listed_in == store_key) {
                    return Err(MarketError::Mismatch);
                }
            },
            None => {
                return Err(MarketError::NotFound);
            },
        }
        let key = ItemKey { store_id: store_key, item_id: item_key };
        let buyer = String::from_str(caller);
        let (seller, updated) = match self.metadata_by_storeanditem_ids.get(&key) {
            Some(metadata) => {
                if deposit < metadata.price {
                    return Err(MarketError::InsufficientFunds);
                }
                if buyer == metadata.owner {
                    return Err(MarketError::SelfPurchaseRejected);
                }
                (
                    metadata.owner.clone(),
                    ItemMetadata {
                        name: metadata.name.clone(),
                        price: metadata.price,
                        img_url: metadata.img_url.clone(),
                        owner: buyer.clone(),
                    },
                )
            },
            None => {
                return Err(MarketError::InternalInconsistency);
            },
        };
        self.metadata_by_storeanditem_ids.insert(key, updated);
        let entity = store_and_item_key(store_id, item_id);
        let extra = render_purchase_extra(deposit, seller.as_str());
        let transaction_id = self.add_log(String::from_str("buy"), buyer, entity, extra, timestamp);
        let response = render_purchase_response(transaction_id.as_str());
        proof {
            let after = old(self)@.buy(caller@, item_id@, store_id@, deposit, timestamp);
            assert(self@.items =~= after.items);
            assert(self@.logs =~= after.logs);
            if old(self)@.inv() {
                lemma_buy_inv(old(self)@, caller@, item_id@, store_id@, deposit, timestamp);
            }
        }
        Ok(Purchase { response, transaction_id, seller, amount: deposit })
    }

    /// Appends an entry to the audit log and returns its identifier: the
    /// entity, the delimiter and the timestamp.
    pub fn add_log(
        &mut self,
        action: String,
        actor: String,
        entity: String,
        extra: String,
        timestamp: u64,
    ) -> (id: String)
        ensures
            id@ == log_id(entity@, timestamp),
            final(self)@ == old(self)@.add_log(action@, actor@, entity@, extra@, timestamp),
            old(self)@.inv() ==> final(self)@.inv(),
    {
        let id = make_log_id(entity.as_str(), timestamp);
        let log = Log { id: id.clone(), timestamp, action, actor, entity, extra };
        self.audit_logs.push(log);
        proof {
            let after = old(self)@.add_log(action@, actor@, entity@, extra@, timestamp);
            assert(self@.logs =~= after.logs);
            if old(self)@.inv() {
                lemma_add_log_inv(old(self)@, action@, actor@, entity@, extra@, timestamp);
            }
        }
        id
    }

    /// Approves `ft_account_id` as a payment token. Only the overseer may
    /// do so.
    pub fn add_ft(&mut self, caller: &str, ft_account_id: &str) -> (result: Result<
        (),
        MarketError,
    >)
        ensures
            match result {
                Ok(()) => {
                    &&& old(self)@.add_ft_error(caller@) is None
                    &&& final(self)@ == old(self)@.add_ft(ft_account_id@)
                },
                Err(error) => {
                    &&& old(self)@.add_ft_error(caller@) == Some(error)
                    &&& final(self)@ == old(self)@
                },
            },
            old(self)@.inv() ==> final(self)@.inv(),
    {
        let signer = String::from_str(caller);
        if !(signer == self.overseer_id) {
            return Err(MarketError::AccessDenied);
        }
        self.approved_ft_token_ids.insert(String::from_str(ft_account_id));
        proof {
            if old(self)@.inv() {
                lemma_add_ft_inv(old(self)@, ft_account_id@);
            }
        }
        Ok(())
    }

    /// The oldest log entry with identifier `log_id`; not found where no
    /// entry has it.
    pub fn get_log(&self, log_id: &str) -> (result: Result<Log, MarketError>)
        ensures
            match result {
                Ok(log) => self@.find_log(log_id@) == Some(log@),
                Err(error) => error == MarketError::NotFound && self@.find_log(log_id@) is None,
            },
    {
        let wanted = String::from_str(log_id);
        let mut i: usize = 0;
        while i < self.audit_logs.len()
            invariant
                i <= self.audit_logs@.len(),
                wanted@ == log_id@,
                forall|j: int| 0 <= j < i ==> self@.logs[j].id != log_id@,
            decreases self.audit_logs@.len() - i,
        {
            if self.audit_logs[i].id == wanted {
                proof {
                    lemma_log_position_is(self@.logs, log_id@, 0, i as int);
                }
                return Ok(self.audit_logs[i].clone());
            }
            i = i + 1;
        }
        proof {
            lemma_log_position_is(self@.logs, log_id@, 0, i as int);
        }
        Err(MarketError::NotFound)
    }

    /// Whether `ft_account_id` is an approved payment token.
    pub fn is_ft_approved(&self, ft_account_id: &str) -> (approved: bool)
        ensures
            approved == self@.tokens.contains(ft_account_id@),
    {
        self.approved_ft_token_ids.contains(ft_account_id)
    }

    /// The account that manages the approved payment tokens.
    pub fn overseer_id(&self) -> (id: &String)
        ensures
            id@ == self@.overseer,
    {
        &self.overseer_id
    }
}

} // verus!
