//! The records that the ledger stores, and what each stands for.

use vstd::prelude::*;
use crate::table::Key;

verus! {

/// What an [`ItemMetadata`] stands for.
pub struct ItemView {
    pub name: Seq<char>,
    pub price: u128,
    pub img_url: Seq<char>,
    pub owner: Seq<char>,
}

/// The details of a listed item. Name, price and image reference are fixed
/// when the item is listed; the owner changes with each purchase.
#[derive(Debug)]
pub struct ItemMetadata {
    pub name: String,
    pub price: u128,
    pub img_url: String,
    pub owner: String,
}

impl View for ItemMetadata {
    type V = ItemView;

    open spec fn view(&self) -> ItemView {
        ItemView {
            name: self.name@,
            price: self.price,
            img_url: self.img_url@,
            owner: self.owner@,
        }
    }
}

impl Clone for ItemMetadata {
    fn clone(&self) -> (copy: Self)
        ensures
            copy@ == self@,
    {
        ItemMetadata {
            name: self.name.clone(),
            price: self.price,
            img_url: self.img_url.clone(),
            owner: self.owner.clone(),
        }
    }
}

/// What a [`Log`] stands for.
pub struct LogView {
    pub id: Seq<char>,
    pub timestamp: u64,
    pub action: Seq<char>,
    pub actor: Seq<char>,
    pub entity: Seq<char>,
    pub extra: Seq<char>,
}

/// One entry of the audit log: who did what to which entity, and when.
#[derive(Debug)]
pub struct Log {
    pub id: String,
    pub timestamp: u64,
    pub action: String,
    pub actor: String,
    pub entity: String,
    pub extra: String,
}

impl View for Log {
    type V = LogView;

    open spec fn view(&self) -> LogView {
        LogView {
            id: self.id@,
            timestamp: self.timestamp,
            action: self.action@,
            actor: self.actor@,
            entity: self.entity@,
            extra: self.extra@,
        }
    }
}

impl Clone for Log {
    fn clone(&self) -> (copy: Self)
        ensures
            copy@ == self@,
    {
        Log {
            id: self.id.clone(),
            timestamp: self.timestamp,
            action: self.action.clone(),
            actor: self.actor.clone(),
            entity: self.entity.clone(),
            extra: self.extra.clone(),
        }
    }
}

/// The structured key of an item's metadata: the store and the item.
pub struct ItemKey {
    pub store_id: String,
    pub item_id: String,
}

impl Key for ItemKey {
    type Id = (Seq<char>, Seq<char>);

    open spec fn id(&self) -> (Seq<char>, Seq<char>) {
        (self.store_id@, self.item_id@)
    }

    fn same(&self, other: &ItemKey) -> (b: bool) {
        self.store_id == other.store_id && self.item_id == other.item_id
    }
}

} // verus!
