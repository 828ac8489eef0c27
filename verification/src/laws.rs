//! What holds of the marketplace whatever the ledger and the arguments are.

use vstd::prelude::*;
use crate::error::MarketError;
use crate::id_set::lemma_with_id;
use crate::ledger::{buy_action, log_position, Call, Ledger};
use crate::record::{ItemView, LogView};
use crate::text::{composite_key, decimal, digit, log_id};

verus! {

/// What `log_position` returns: an index in range before which no entry has
/// the identifier, and at which the entry has it unless the index is the
/// length.
pub proof fn lemma_log_position_finds(logs: Seq<LogView>, id: Seq<char>, from: int)
    requires
        0 <= from <= logs.len(),
    ensures
        from <= log_position(logs, id, from) <= logs.len(),
        forall|j: int| from <= j < log_position(logs, id, from) ==> logs[j].id != id,
        log_position(logs, id, from) < logs.len() ==> logs[log_position(logs, id, from)].id == id,
    decreases logs.len() - from,
{
    if from < logs.len() && logs[from].id != id {
        lemma_log_position_finds(logs, id, from + 1);
    }
}

/// `log_position` returns `at` when no entry between `from` and `at` has
/// the identifier and `at` is the length or holds an entry that has it.
pub proof fn lemma_log_position_is(logs: Seq<LogView>, id: Seq<char>, from: int, at: int)
    requires
        0 <= from <= at <= logs.len(),
        forall|j: int| from <= j < at ==> logs[j].id != id,
        at < logs.len() ==> logs[at].id == id,
    ensures
        log_position(logs, id, from) == at,
    decreases at - from,
{
    if from < at {
        lemma_log_position_is(logs, id, from + 1, at);
    }
}

/// A new ledger satisfies the invariant.
pub proof fn lemma_init_inv(overseer: Seq<char>)
    ensures
        Ledger::init(overseer).inv(),
{
}

/// Creating a store preserves the invariant.
pub proof fn lemma_create_store_inv(ledger: Ledger, caller: Seq<char>, store: Seq<char>)
    requires
        ledger.inv(),
    ensures
        ledger.create_store(caller, store).inv(),
{
    let after = ledger.create_store(caller, store);
    lemma_with_id(ledger.stores_of(caller), store);
    lemma_with_id(ledger.owners_of(store), caller);
    assert forall|account: Seq<char>, listed: Seq<char>|
        after.stores.contains_key(account) && #[trigger] after.stores[account].contains(
            listed,
        ) implies after.owners_of(listed).contains(account) by {
        if account == caller && listed == store {
        } else {
            assert(ledger.stores.contains_key(account));
            assert(ledger.stores[account].contains(listed));
            assert(ledger.owners_of(listed).contains(account));
        }
    }
}

/// Adding an owner preserves the invariant.
pub proof fn lemma_add_store_owners_inv(ledger: Ledger, store: Seq<char>, new_owner: Seq<char>)
    requires
        ledger.inv(),
    ensures
        ledger.add_store_owners(store, new_owner).inv(),
{
    let after = ledger.add_store_owners(store, new_owner);
    lemma_with_id(ledger.owners_of(store), new_owner);
    assert forall|account: Seq<char>, listed: Seq<char>|
        after.stores.contains_key(account) && #[trigger] after.stores[account].contains(
            listed,
        ) implies after.owners_of(listed).contains(account) by {
        assert(ledger.owners_of(listed).contains(account));
    }
}

/// Listing an item preserves the invariant: index and metadata are written
/// together.
pub proof fn lemma_add_store_item_inv(
    ledger: Ledger,
    caller: Seq<char>,
    item: Seq<char>,
    store: Seq<char>,
    name: Seq<char>,
    price: u128,
    img_url: Seq<char>,
)
    requires
        ledger.inv(),
    ensures
        ledger.add_store_item(caller, item, store, name, price, img_url).inv(),
{
    let after = ledger.add_store_item(caller, item, store, name, price, img_url);
    assert forall|other: Seq<char>| #[trigger] after.index.contains_key(other) implies after.items.contains_key(
        (after.index[other], other),
    ) by {
        if other != item {
            assert(ledger.index.contains_key(other));
        }
    }
    assert forall|s: Seq<char>, i: Seq<char>| #[trigger]
        after.items.contains_key((s, i)) implies after.index.contains_key(i) by {
        if (s, i) != (store, item) {
            assert(ledger.items.contains_key((s, i)));
        }
    }
}

/// A purchase preserves the invariant.
pub proof fn lemma_buy_inv(
    ledger: Ledger,
    caller: Seq<char>,
    item: Seq<char>,
    store: Seq<char>,
    payment: u128,
    timestamp: u64,
)
    requires
        ledger.inv(),
        ledger.buy_error(caller, item, store, payment) is None,
    ensures
        ledger.buy(caller, item, store, payment, timestamp).inv(),
{
    let after = ledger.buy(caller, item, store, payment, timestamp);
    assert forall|other: Seq<char>| #[trigger] after.index.contains_key(other) implies after.items.contains_key(
        (after.index[other], other),
    ) by {
        assert(ledger.items.contains_key((ledger.index[other], other)));
    }
    assert forall|s: Seq<char>, i: Seq<char>| #[trigger]
        after.items.contains_key((s, i)) implies after.index.contains_key(i) by {
        if (s, i) != (store, item) {
            assert(ledger.items.contains_key((s, i)));
        }
    }
    assert forall|i: int| 0 <= i < after.logs.len() implies (#[trigger] after.logs[i]).id == log_id(
        after.logs[i].entity,
        after.logs[i].timestamp,
    ) by {
        if i < ledger.logs.len() {
            assert(after.logs[i] == ledger.logs[i]);
        }
    }
}

/// Logging an action preserves the invariant.
pub proof fn lemma_add_log_inv(
    ledger: Ledger,
    action: Seq<char>,
    actor: Seq<char>,
    entity: Seq<char>,
    extra: Seq<char>,
    timestamp: u64,
)
    requires
        ledger.inv(),
    ensures
        ledger.add_log(action, actor, entity, extra, timestamp).inv(),
{
    let after = ledger.add_log(action, actor, entity, extra, timestamp);
    assert forall|i: int| 0 <= i < after.logs.len() implies (#[trigger] after.logs[i]).id == log_id(
        after.logs[i].entity,
        after.logs[i].timestamp,
    ) by {
        if i < ledger.logs.len() {
            assert(after.logs[i] == ledger.logs[i]);
        }
    }
}

/// Approving a payment token preserves the invariant.
pub proof fn lemma_add_ft_inv(ledger: Ledger, token: Seq<char>)
    requires
        ledger.inv(),
    ensures
        ledger.add_ft(token).inv(),
{
    lemma_with_id(ledger.tokens, token);
}

/// Every call preserves the invariant, granted or refused.
pub proof fn lemma_step_inv(ledger: Ledger, call: Call)
    requires
        ledger.inv(),
    ensures
        ledger.step(call).inv(),
{
    if ledger.refusal(call) is None {
        match call {
            Call::CreateStore { caller, store } => {
                lemma_create_store_inv(ledger, caller, store);
            },
            Call::AddStoreOwners { caller, store, new_owner } => {
                lemma_add_store_owners_inv(ledger, store, new_owner);
            },
            Call::AddStoreItem { caller, item, store, name, price, img_url } => {
                lemma_add_store_item_inv(ledger, caller, item, store, name, price, img_url);
            },
            Call::Buy { caller, item, store, payment, timestamp } => {
                lemma_buy_inv(ledger, caller, item, store, payment, timestamp);
            },
            Call::AddLog { action, actor, entity, extra, timestamp } => {
                lemma_add_log_inv(ledger, action, actor, entity, extra, timestamp);
            },
            Call::AddFt { caller, token } => {
                lemma_add_ft_inv(ledger, token);
            },
        }
    }
}

/// Whatever calls are made on a new ledger, in whatever order, the ledger
/// satisfies the invariant: no list names an identifier twice, and index
/// and metadata of the items go together.
pub proof fn law_every_reachable_ledger_is_consistent(overseer: Seq<char>, calls: Seq<Call>)
    ensures
        Ledger::init(overseer).run(calls).inv(),
    decreases calls.len(),
{
    if calls.len() == 0 {
        lemma_init_inv(overseer);
    } else {
        law_every_reachable_ledger_is_consistent(overseer, calls.drop_last());
        lemma_step_inv(Ledger::init(overseer).run(calls.drop_last()), calls.last());
    }
}

/// Whatever calls are made, the audit log only grows: the entries that
/// were there stay where they were, and no call changes the overseer.
pub proof fn law_calls_extend_the_log(ledger: Ledger, calls: Seq<Call>)
    ensures
        ledger.logs.len() <= ledger.run(calls).logs.len(),
        ledger.run(calls).logs.subrange(0, ledger.logs.len() as int) == ledger.logs,
        ledger.run(calls).overseer == ledger.overseer,
    decreases calls.len(),
{
    if calls.len() == 0 {
        assert(ledger.logs.subrange(0, ledger.logs.len() as int) =~= ledger.logs);
    } else {
        law_calls_extend_the_log(ledger, calls.drop_last());
        let before = ledger.run(calls.drop_last());
        let after = before.step(calls.last());
        assert(after.logs.subrange(0, ledger.logs.len() as int) =~= before.logs.subrange(
            0,
            ledger.logs.len() as int,
        ));
    }
}

/// A call changes the metadata of an item only if it lists that item or
/// buys it: calls on stores, owners, tokens and the log, calls on other
/// items and refused calls leave it as it was.
pub proof fn law_other_calls_keep_an_item(ledger: Ledger, call: Call, item: Seq<char>)
    requires
        !(call matches Call::AddStoreItem { item: listed, .. } && listed == item),
        !(call matches Call::Buy { item: bought, .. } && bought == item),
    ensures
        ledger.step(call).item(item) == ledger.item(item),
{
}

/// Right after an account has created a store, the store is among the
/// stores of the account and the account is among the owners of the store.
pub proof fn law_created_store_is_registered(ledger: Ledger, caller: Seq<char>, store: Seq<char>)
    ensures
        ledger.create_store(caller, store).stores_of(caller).contains(store),
        ledger.create_store(caller, store).owners_of(store).contains(caller),
{
    lemma_with_id(ledger.stores_of(caller), store);
    lemma_with_id(ledger.owners_of(store), caller);
}

/// Creating the same store twice from the same account gives what creating
/// it once gives, and the account's list of stores names it once.
pub proof fn law_create_store_is_idempotent(ledger: Ledger, caller: Seq<char>, store: Seq<char>)
    ensures
        ledger.create_store(caller, store).create_store(caller, store) == ledger.create_store(
            caller,
            store,
        ),
        ledger.inv() ==> ledger.create_store(caller, store).create_store(caller, store).stores_of(
            caller,
        ).no_duplicates(),
{
    let once = ledger.create_store(caller, store);
    let twice = once.create_store(caller, store);
    lemma_with_id(ledger.stores_of(caller), store);
    lemma_with_id(ledger.owners_of(store), caller);
    assert(twice.stores =~= once.stores);
    assert(twice.owners =~= once.owners);
    if ledger.inv() {
        lemma_create_store_inv(ledger, caller, store);
    }
}

/// An account that is not an owner of a store that has owners is denied
/// when it adds an owner.
pub proof fn law_stranger_cannot_add_owner(ledger: Ledger, caller: Seq<char>, store: Seq<char>)
    requires
        ledger.owners_of(store).len() > 0,
        !ledger.owners_of(store).contains(caller),
    ensures
        ledger.add_store_owners_error(caller, store) == Some(MarketError::AccessDenied),
{
}

/// Right after an item has been listed, looking it up gives the name, the
/// price and the image reference that were passed, with the caller as its
/// owner.
pub proof fn law_listed_item_is_returned(
    ledger: Ledger,
    caller: Seq<char>,
    item: Seq<char>,
    store: Seq<char>,
    name: Seq<char>,
    price: u128,
    img_url: Seq<char>,
)
    ensures
        ledger.add_store_item(caller, item, store, name, price, img_url).item(item) == Some(
            ItemView { name, price, img_url, owner: caller },
        ),
{
}

/// Listing an item leaves every other item as it was.
pub proof fn law_listing_keeps_other_items(
    ledger: Ledger,
    caller: Seq<char>,
    item: Seq<char>,
    store: Seq<char>,
    name: Seq<char>,
    price: u128,
    img_url: Seq<char>,
    other: Seq<char>,
)
    requires
        other != item,
    ensures
        ledger.add_store_item(caller, item, store, name, price, img_url).item(other)
            == ledger.item(other),
{
}

/// A purchase changes the owner of the item bought and nothing else of any
/// item: name, price and image reference stay as they were listed.
pub proof fn law_purchase_keeps_descriptions(
    ledger: Ledger,
    caller: Seq<char>,
    item: Seq<char>,
    store: Seq<char>,
    payment: u128,
    timestamp: u64,
    other: Seq<char>,
)
    requires
        ledger.buy_error(caller, item, store, payment) is None,
    ensures
        ({
            let after = ledger.buy(caller, item, store, payment, timestamp);
            &&& other != item ==> after.item(other) == ledger.item(other)
            &&& after.item(item) == Some(ItemView { owner: caller, ..ledger.item(item).unwrap() })
        }),
{
}

/// Buying an item that is not indexed fails as not found, and buying an
/// indexed item from another store than its own fails as a mismatch.
pub proof fn law_buy_checks_item_and_store(
    ledger: Ledger,
    caller: Seq<char>,
    item: Seq<char>,
    store: Seq<char>,
    payment: u128,
)
    ensures
        !ledger.index.contains_key(item) ==> ledger.buy_error(caller, item, store, payment)
            == Some(MarketError::NotFound),
        ledger.index.contains_key(item) && ledger.index[item] != store ==> ledger.buy_error(
            caller,
            item,
            store,
            payment,
        ) == Some(MarketError::Mismatch),
{
}

/// Whether `item` is listed in `store` with metadata.
pub open spec fn listed_in(ledger: Ledger, item: Seq<char>, store: Seq<char>) -> bool {
    &&& ledger.index.contains_key(item)
    &&& ledger.index[item] == store
    &&& ledger.items.contains_key((store, item))
}

/// A payment below the price of a listed item is refused as insufficient,
/// whoever pays.
pub proof fn law_underpayment_is_refused(
    ledger: Ledger,
    caller: Seq<char>,
    item: Seq<char>,
    store: Seq<char>,
    payment: u128,
)
    requires
        listed_in(ledger, item, store),
        payment < ledger.items[(store, item)].price,
    ensures
        ledger.buy_error(caller, item, store, payment) == Some(MarketError::InsufficientFunds),
{
}

/// The owner of a listed item cannot buy it, whatever payment at or above
/// the price is attached.
pub proof fn law_owner_cannot_buy(
    ledger: Ledger,
    caller: Seq<char>,
    item: Seq<char>,
    store: Seq<char>,
    payment: u128,
)
    requires
        listed_in(ledger, item, store),
        payment >= ledger.items[(store, item)].price,
        caller == ledger.items[(store, item)].owner,
    ensures
        ledger.buy_error(caller, item, store, payment) == Some(MarketError::SelfPurchaseRejected),
{
}

/// A purchase makes the buyer the owner and appends one log entry, whose
/// action is the purchase and whose actor is the buyer. Looking up the
/// entry's identifier gives that entry, unless an older entry has the same
/// identifier; then it gives the older one, as before.
pub proof fn law_purchase_is_recorded(
    ledger: Ledger,
    caller: Seq<char>,
    item: Seq<char>,
    store: Seq<char>,
    payment: u128,
    timestamp: u64,
)
    requires
        ledger.buy_error(caller, item, store, payment) is None,
    ensures
        ({
            let after = ledger.buy(caller, item, store, payment, timestamp);
            let entry = ledger.purchase_log(caller, item, store, payment, timestamp);
            &&& after.item(item) matches Some(metadata) && metadata.owner == caller
            &&& after.logs == ledger.logs.push(entry)
            &&& entry.action == buy_action()
            &&& entry.actor == caller
            &&& entry.entity == composite_key(store, item)
            &&& after.find_log(entry.id) == if ledger.find_log(entry.id) is None {
                Some(entry)
            } else {
                ledger.find_log(entry.id)
            }
        }),
{
    let after = ledger.buy(caller, item, store, payment, timestamp);
    let entry = ledger.purchase_log(caller, item, store, payment, timestamp);
    lemma_appended_log_lookup(ledger.logs, entry, entry.id);
}

/// In a ledger that the operations have made, the entry of a purchase is
/// found by the identifier that the purchase returns, unless an older
/// entry records an action on the same store and item at the same time.
pub proof fn law_purchase_is_found_by_its_id(
    ledger: Ledger,
    caller: Seq<char>,
    item: Seq<char>,
    store: Seq<char>,
    payment: u128,
    timestamp: u64,
)
    requires
        ledger.inv(),
        ledger.buy_error(caller, item, store, payment) is None,
        forall|i: int|
            0 <= i < ledger.logs.len() ==> !((#[trigger] ledger.logs[i]).entity == composite_key(
                store,
                item,
            ) && ledger.logs[i].timestamp == timestamp),
    ensures
        ledger.buy(caller, item, store, payment, timestamp).find_log(
            log_id(composite_key(store, item), timestamp),
        ) == Some(ledger.purchase_log(caller, item, store, payment, timestamp)),
{
    let entry = ledger.purchase_log(caller, item, store, payment, timestamp);
    assert forall|j: int| 0 <= j < ledger.logs.len() implies ledger.logs[j].id != entry.id by {
        if ledger.logs[j].id == entry.id {
            law_log_id_is_injective(
                ledger.logs[j].entity,
                ledger.logs[j].timestamp,
                composite_key(store, item),
                timestamp,
            );
        }
    }
    lemma_log_position_is(ledger.logs, entry.id, 0, ledger.logs.len() as int);
    law_purchase_is_recorded(ledger, caller, item, store, payment, timestamp);
}

/// A purchase at exactly the price owes exactly the price, to the owner
/// that the item had before.
pub proof fn law_exact_payment_goes_to_previous_owner(
    ledger: Ledger,
    caller: Seq<char>,
    item: Seq<char>,
    store: Seq<char>,
    payment: u128,
)
    requires
        ledger.buy_error(caller, item, store, payment) is None,
        payment == ledger.items[(store, item)].price,
    ensures
        ledger.payout(item, store, payment) == (
            ledger.item(item).unwrap().owner,
            ledger.item(item).unwrap().price,
        ),
        ledger.payout(item, store, payment).0 != caller,
{
}

/// Appending an entry to the log changes no lookup that found an entry,
/// and a lookup that found none finds the new entry if it has the
/// identifier.
pub proof fn lemma_appended_log_lookup(logs: Seq<LogView>, entry: LogView, id: Seq<char>)
    ensures
        ({
            let before = log_position(logs, id, 0);
            let after = log_position(logs.push(entry), id, 0);
            &&& 0 <= before <= logs.len()
            &&& before < logs.len() ==> after == before
            &&& before == logs.len() && entry.id == id ==> after == logs.len()
            &&& before == logs.len() && entry.id != id ==> after == logs.len() + 1
        }),
{
    let before = log_position(logs, id, 0);
    lemma_log_position_finds(logs, id, 0);
    let extended = logs.push(entry);
    if before < logs.len() || entry.id == id {
        lemma_log_position_is(extended, id, 0, before);
    } else {
        lemma_log_position_is(extended, id, 0, extended.len() as int);
    }
}

/// The audit log only grows: after logging an action the older entries
/// stand where they stood, and every identifier that was found gives the
/// entry it gave.
pub proof fn law_log_is_append_only(
    ledger: Ledger,
    action: Seq<char>,
    actor: Seq<char>,
    entity: Seq<char>,
    extra: Seq<char>,
    timestamp: u64,
    id: Seq<char>,
)
    ensures
        ({
            let after = ledger.add_log(action, actor, entity, extra, timestamp);
            &&& after.logs.len() == ledger.logs.len() + 1
            &&& after.logs.subrange(0, ledger.logs.len() as int) == ledger.logs
            &&& ledger.find_log(id) is Some ==> after.find_log(id) == ledger.find_log(id)
        }),
{
    let after = ledger.add_log(action, actor, entity, extra, timestamp);
    assert(after.logs.subrange(0, ledger.logs.len() as int) =~= ledger.logs);
    lemma_appended_log_lookup(ledger.logs, after.logs[ledger.logs.len() as int], id);
    assert(after.logs =~= ledger.logs.push(after.logs[ledger.logs.len() as int]));
}

/// A number in base ten has at least one character, and none of them is
/// the delimiter.
pub proof fn lemma_decimal_has_no_delimiter(n: nat)
    ensures
        decimal(n).len() >= 1,
        n >= 10 ==> decimal(n).len() >= 2,
        !decimal(n).contains('.'),
    decreases n,
{
    if n >= 10 {
        lemma_decimal_has_no_delimiter(n / 10);
        let front = decimal(n / 10);
        assert forall|i: int| 0 <= i < decimal(n).len() implies decimal(n)[i] != '.' by {
            if i < front.len() {
                assert(decimal(n)[i] == front[i]);
                assert(front.contains(front[i]));
            }
        }
    }
}

/// Two numbers with the same text in base ten are the same number.
pub proof fn lemma_decimal_is_injective(a: nat, b: nat)
    requires
        decimal(a) == decimal(b),
    ensures
        a == b,
    decreases a,
{
    lemma_decimal_has_no_delimiter(a);
    lemma_decimal_has_no_delimiter(b);
    if a < 10 {
        assert(decimal(a)[0] == digit(a));
        assert(decimal(b)[0] == digit(b));
    } else {
        let front_a = decimal(a / 10);
        let front_b = decimal(b / 10);
        assert(front_a.push(digit(a % 10)) == front_b.push(digit(b % 10)));
        assert(front_a.push(digit(a % 10)).drop_last() =~= front_a);
        assert(front_b.push(digit(b % 10)).drop_last() =~= front_b);
        assert(front_a.push(digit(a % 10)).last() == digit(a % 10));
        assert(front_b.push(digit(b % 10)).last() == digit(b % 10));
        lemma_decimal_is_injective(a / 10, b / 10);
    }
}

/// Two log entries have the same identifier only if they record actions on
/// the same entity at the same time.
pub proof fn law_log_id_is_injective(
    entity: Seq<char>,
    timestamp: u64,
    other_entity: Seq<char>,
    other_timestamp: u64,
)
    requires
        log_id(entity, timestamp) == log_id(other_entity, other_timestamp),
    ensures
        entity == other_entity,
        timestamp == other_timestamp,
{
    let id = log_id(entity, timestamp);
    let other_id = log_id(other_entity, other_timestamp);
    let time = decimal(timestamp as nat);
    let other_time = decimal(other_timestamp as nat);
    lemma_decimal_has_no_delimiter(timestamp as nat);
    lemma_decimal_has_no_delimiter(other_timestamp as nat);
    assert(id.len() == entity.len() + 1 + time.len());
    assert(other_id.len() == other_entity.len() + 1 + other_time.len());
    assert(id[entity.len() as int] == '.');
    assert(other_id[other_entity.len() as int] == '.');
    if entity.len() < other_entity.len() {
        let at = other_entity.len() - entity.len() - 1;
        assert(0 <= at < time.len());
        assert(id[other_entity.len() as int] == time[at]);
        assert(time.contains(time[at]));
    }
    if other_entity.len() < entity.len() {
        let at = entity.len() - other_entity.len() - 1;
        assert(0 <= at < other_time.len());
        assert(other_id[entity.len() as int] == other_time[at]);
        assert(other_time.contains(other_time[at]));
    }
    assert(entity =~= id.subrange(0, entity.len() as int));
    assert(other_entity =~= other_id.subrange(0, other_entity.len() as int));
    assert(time =~= id.subrange(entity.len() as int + 1, id.len() as int));
    assert(other_time =~= other_id.subrange(other_entity.len() as int + 1, other_id.len() as int));
    lemma_decimal_is_injective(timestamp as nat, other_timestamp as nat);
}

/// Where no store identifier holds the delimiter, two composite keys are
/// equal only if they were made of the same store and the same item.
pub proof fn law_composite_key_is_injective(
    store: Seq<char>,
    item: Seq<char>,
    other_store: Seq<char>,
    other_item: Seq<char>,
)
    requires
        !store.contains('.'),
        !other_store.contains('.'),
        composite_key(store, item) == composite_key(other_store, other_item),
    ensures
        store == other_store,
        item == other_item,
{
    let key = composite_key(store, item);
    let other_key = composite_key(other_store, other_item);
    assert(key[store.len() as int] == '.');
    assert(other_key[other_store.len() as int] == '.');
    if store.len() < other_store.len() {
        assert(other_key[store.len() as int] == other_store[store.len() as int]);
        assert(other_store.contains('.'));
    }
    if other_store.len() < store.len() {
        assert(key[other_store.len() as int] == store[other_store.len() as int]);
        assert(store.contains('.'));
    }
    assert(store =~= key.subrange(0, store.len() as int));
    assert(other_store =~= other_key.subrange(0, other_store.len() as int));
    assert(item =~= key.subrange(store.len() as int + 1, key.len() as int));
    assert(other_item =~= other_key.subrange(other_store.len() as int + 1, other_key.len() as int));
}

} // verus!
