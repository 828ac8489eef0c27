//! The marketplace as a state machine over mathematical values: what the
//! ledger holds, when each operation is refused, and what each operation
//! that is not refused makes of the ledger.

use vstd::prelude::*;
use crate::error::MarketError;
use crate::id_set::with_id;
use crate::receipt::{json_string, purchase_extra};
use crate::record::{ItemView, LogView};
use crate::text::{composite_key, log_id};

verus! {

/// The payment token that every ledger accepts from the start.
pub open spec fn seed_token() -> Seq<char> {
    "testnet"@
}

/// The action that the log entry of a purchase names.
pub open spec fn buy_action() -> Seq<char> {
    "buy"@
}

/// The identifiers listed under `key`: none where there is no such list.
pub open spec fn listed_under(lists: Map<Seq<char>, Seq<Seq<char>>>, key: Seq<char>) -> Seq<
    Seq<char>,
> {
    if lists.contains_key(key) {
        lists[key]
    } else {
        Seq::empty()
    }
}

/// The index of the first log entry at or after `from` with identifier
/// `id`, or the number of entries if there is none.
pub open spec fn log_position(logs: Seq<LogView>, id: Seq<char>, from: int) -> int
    decreases logs.len() - from,
{
    if from < 0 || from >= logs.len() {
        logs.len() as int
    } else if logs[from].id == id {
        from
    } else {
        log_position(logs, id, from + 1)
    }
}

/// The log entry that records an action.
pub open spec fn log_entry(
    action: Seq<char>,
    actor: Seq<char>,
    entity: Seq<char>,
    extra: Seq<char>,
    timestamp: u64,
) -> LogView {
    LogView { id: log_id(entity, timestamp), timestamp, action, actor, entity, extra }
}

/// A call on the ledger, with what the host says of it: who calls, what is
/// attached, and when.
pub enum Call {
    CreateStore { caller: Seq<char>, store: Seq<char> },
    AddStoreOwners { caller: Seq<char>, store: Seq<char>, new_owner: Seq<char> },
    AddStoreItem {
        caller: Seq<char>,
        item: Seq<char>,
        store: Seq<char>,
        name: Seq<char>,
        price: u128,
        img_url: Seq<char>,
    },
    Buy { caller: Seq<char>, item: Seq<char>, store: Seq<char>, payment: u128, timestamp: u64 },
    AddLog {
        action: Seq<char>,
        actor: Seq<char>,
        entity: Seq<char>,
        extra: Seq<char>,
        timestamp: u64,
    },
    AddFt { caller: Seq<char>, token: Seq<char> },
}

/// What the ledger holds.
pub struct Ledger {
    /// The account that manages the approved payment tokens.
    pub overseer: Seq<char>,
    /// For each account, the stores that it created, oldest first.
    pub stores: Map<Seq<char>, Seq<Seq<char>>>,
    /// For each store, its owners, oldest first.
    pub owners: Map<Seq<char>, Seq<Seq<char>>>,
    /// For each item, the store that lists it.
    pub index: Map<Seq<char>, Seq<char>>,
    /// For each store and item, the item's metadata.
    pub items: Map<(Seq<char>, Seq<char>), ItemView>,
    /// The audit log, oldest entry first.
    pub logs: Seq<LogView>,
    /// The approved payment tokens, oldest first.
    pub tokens: Seq<Seq<char>>,
}

impl Ledger {
    /// The ledger before anything has happened.
    pub open spec fn init(overseer: Seq<char>) -> Ledger {
        Ledger {
            overseer,
            stores: Map::empty(),
            owners: Map::empty(),
            index: Map::empty(),
            items: Map::empty(),
            logs: Seq::empty(),
            tokens: seq![seed_token()],
        }
    }

    /// The stores that `account` created.
    pub open spec fn stores_of(self, account: Seq<char>) -> Seq<Seq<char>> {
        listed_under(self.stores, account)
    }

    /// The owners of `store`.
    pub open spec fn owners_of(self, store: Seq<char>) -> Seq<Seq<char>> {
        listed_under(self.owners, store)
    }

    /// The metadata of `item`, found through the index.
    pub open spec fn item(self, item: Seq<char>) -> Option<ItemView> {
        if self.index.contains_key(item) && self.items.contains_key((self.index[item], item)) {
            Some(self.items[(self.index[item], item)])
        } else {
            None
        }
    }

    /// The oldest log entry with identifier `id`.
    pub open spec fn find_log(self, id: Seq<char>) -> Option<LogView> {
        let at = log_position(self.logs, id, 0);
        if at < self.logs.len() {
            Some(self.logs[at])
        } else {
            None
        }
    }

    /// Why `create_store` is refused, if it is.
    pub open spec fn create_store_error(caller: Seq<char>, store: Seq<char>) -> Option<
        MarketError,
    > {
        if caller.len() == 0 || store.len() == 0 {
            Some(MarketError::InvalidIdentifier)
        } else {
            None
        }
    }

    /// `caller` registers `store` and becomes one of its owners.
    pub open spec fn create_store(self, caller: Seq<char>, store: Seq<char>) -> Ledger {
        Ledger {
            stores: self.stores.insert(caller, with_id(self.stores_of(caller), store)),
            owners: self.owners.insert(store, with_id(self.owners_of(store), caller)),
            ..self
        }
    }

    /// Why `add_store_owners` is refused, if it is: the store has owners
    /// and the caller is none of them.
    pub open spec fn add_store_owners_error(self, caller: Seq<char>, store: Seq<char>) -> Option<
        MarketError,
    > {
        if self.owners_of(store).len() > 0 && !self.owners_of(store).contains(caller) {
            Some(MarketError::AccessDenied)
        } else {
            None
        }
    }

    /// `new_owner` becomes an owner of `store`.
    pub open spec fn add_store_owners(self, store: Seq<char>, new_owner: Seq<char>) -> Ledger {
        Ledger { owners: self.owners.insert(store, with_id(self.owners_of(store), new_owner)), ..self }
    }

    /// Why `add_store_item` is refused, if it is.
    pub open spec fn add_store_item_error(self, caller: Seq<char>, store: Seq<char>) -> Option<
        MarketError,
    > {
        if !self.owners.contains_key(store) {
            Some(MarketError::InternalInconsistency)
        } else if !self.owners[store].contains(caller) {
            Some(MarketError::AccessDenied)
        } else {
            None
        }
    }

    /// `caller` lists `item` in `store` and is its first owner.
    pub open spec fn add_store_item(
        self,
        caller: Seq<char>,
        item: Seq<char>,
        store: Seq<char>,
        name: Seq<char>,
        price: u128,
        img_url: Seq<char>,
    ) -> Ledger {
        Ledger {
            index: self.index.insert(item, store),
            items: self.items.insert((store, item), ItemView { name, price, img_url, owner: caller }),
            ..self
        }
    }

    /// Why `buy` is refused, if it is. The checks come in this order: the
    /// item, its store, its metadata, the payment, the buyer.
    pub open spec fn buy_error(
        self,
        caller: Seq<char>,
        item: Seq<char>,
        store: Seq<char>,
        payment: u128,
    ) -> Option<MarketError> {
        if !self.index.contains_key(item) {
            Some(MarketError::NotFound)
        } else if self.index[item] != store {
            Some(MarketError::Mismatch)
        } else if !self.items.contains_key((store, item)) {
            Some(MarketError::InternalInconsistency)
        } else if payment < self.items[(store, item)].price {
            Some(MarketError::InsufficientFunds)
        } else if caller == self.items[(store, item)].owner {
            Some(MarketError::SelfPurchaseRejected)
        } else {
            None
        }
    }

    /// The log entry of a purchase.
    pub open spec fn purchase_log(
        self,
        caller: Seq<char>,
        item: Seq<char>,
        store: Seq<char>,
        payment: u128,
        timestamp: u64,
    ) -> LogView {
        log_entry(
            buy_action(),
            caller,
            composite_key(store, item),
            purchase_extra(payment, json_string(self.items[(store, item)].owner)),
            timestamp,
        )
    }

    /// What a purchase owes to whom: the whole payment, to the owner that
    /// the item had.
    pub open spec fn payout(self, item: Seq<char>, store: Seq<char>, payment: u128) -> (
        Seq<char>,
        u128,
    ) {
        (self.items[(store, item)].owner, payment)
    }

    /// `caller` becomes the owner of `item`, and the purchase is logged.
    pub open spec fn buy(
        self,
        caller: Seq<char>,
        item: Seq<char>,
        store: Seq<char>,
        payment: u128,
        timestamp: u64,
    ) -> Ledger {
        Ledger {
            items: self.items.insert(
                (store, item),
                ItemView { owner: caller, ..self.items[(store, item)] },
            ),
            logs: self.logs.push(self.purchase_log(caller, item, store, payment, timestamp)),
            ..self
        }
    }

    /// An action is logged.
    pub open spec fn add_log(
        self,
        action: Seq<char>,
        actor: Seq<char>,
        entity: Seq<char>,
        extra: Seq<char>,
        timestamp: u64,
    ) -> Ledger {
        Ledger { logs: self.logs.push(log_entry(action, actor, entity, extra, timestamp)), ..self }
    }

    /// Why `add_ft` is refused, if it is.
    pub open spec fn add_ft_error(self, caller: Seq<char>) -> Option<MarketError> {
        if caller != self.overseer {
            Some(MarketError::AccessDenied)
        } else {
            None
        }
    }

    /// `token` becomes an approved payment token.
    pub open spec fn add_ft(self, token: Seq<char>) -> Ledger {
        Ledger { tokens: with_id(self.tokens, token), ..self }
    }

    /// Why `call` is refused, if it is.
    pub open spec fn refusal(self, call: Call) -> Option<MarketError> {
        match call {
            Call::CreateStore { caller, store } => Ledger::create_store_error(caller, store),
            Call::AddStoreOwners { caller, store, new_owner } => self.add_store_owners_error(
                caller,
                store,
            ),
            Call::AddStoreItem { caller, item, store, name, price, img_url } => {
                self.add_store_item_error(caller, store)
            },
            Call::Buy { caller, item, store, payment, timestamp } => self.buy_error(
                caller,
                item,
                store,
                payment,
            ),
            Call::AddLog { action, actor, entity, extra, timestamp } => None,
            Call::AddFt { caller, token } => self.add_ft_error(caller),
        }
    }

    /// The ledger after `call`: as it was where the call is refused.
    pub open spec fn step(self, call: Call) -> Ledger {
        if self.refusal(call) is Some {
            self
        } else {
            match call {
                Call::CreateStore { caller, store } => self.create_store(caller, store),
                Call::AddStoreOwners { caller, store, new_owner } => self.add_store_owners(
                    store,
                    new_owner,
                ),
                Call::AddStoreItem { caller, item, store, name, price, img_url } => {
                    self.add_store_item(caller, item, store, name, price, img_url)
                },
                Call::Buy { caller, item, store, payment, timestamp } => self.buy(
                    caller,
                    item,
                    store,
                    payment,
                    timestamp,
                ),
                Call::AddLog { action, actor, entity, extra, timestamp } => self.add_log(
                    action,
                    actor,
                    entity,
                    extra,
                    timestamp,
                ),
                Call::AddFt { caller, token } => self.add_ft(token),
            }
        }
    }

    /// The ledger after a sequence of calls, the first of them first.
    pub open spec fn run(self, calls: Seq<Call>) -> Ledger
        decreases calls.len(),
    {
        if calls.len() == 0 {
            self
        } else {
            self.run(calls.drop_last()).step(calls.last())
        }
    }

    /// What holds of every ledger that the operations can reach: no list
    /// names an identifier twice, every store that is known has an owner,
    /// whoever created a store is among its owners, every indexed item has
    /// metadata in the store that the index gives, all metadata belongs to
    /// an indexed item, and the identifier of every log entry is made of
    /// its entity and its timestamp.
    pub open spec fn inv(self) -> bool {
        &&& forall|account: Seq<char>| #[trigger]
            self.stores.contains_key(account) ==> self.stores[account].no_duplicates()
        &&& forall|store: Seq<char>| #[trigger]
            self.owners.contains_key(store) ==> self.owners[store].no_duplicates()
                && self.owners[store].len() > 0
        &&& self.tokens.no_duplicates()
        &&& forall|account: Seq<char>, store: Seq<char>|
            self.stores.contains_key(account) && #[trigger] self.stores[account].contains(store)
                ==> self.owners_of(store).contains(account)
        &&& forall|item: Seq<char>| #[trigger]
            self.index.contains_key(item) ==> self.items.contains_key((self.index[item], item))
        &&& forall|store: Seq<char>, item: Seq<char>| #[trigger]
            self.items.contains_key((store, item)) ==> self.index.contains_key(item)
        &&& forall|i: int|
            0 <= i < self.logs.len() ==> (#[trigger] self.logs[i]).id == log_id(
                self.logs[i].entity,
                self.logs[i].timestamp,
            )
    }
}

} // verus!
