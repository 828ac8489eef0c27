//! An association table over a vector of entries, searched front to back.
//!
//! A key stands for its identity, a mathematical value; two keys with the
//! same identity address the same entry. The table needs no invariant: the
//! first entry whose key has the identity asked for is the one that counts,
//! and insertion overwrites exactly that entry.

use vstd::prelude::*;

verus! {

/// A key of a [`Table`].
pub trait Key: Sized {
    /// The mathematical value that the key stands for.
    type Id;

    spec fn id(&self) -> Self::Id;

    /// Whether two keys stand for the same identity.
    fn same(&self, other: &Self) -> (b: bool)
        ensures
            b == (self.id() == other.id()),
    ;
}

impl Key for String {
    type Id = Seq<char>;

    open spec fn id(&self) -> Seq<char> {
        self@
    }

    fn same(&self, other: &String) -> (b: bool) {
        *self == *other
    }
}

/// The index of the first entry at or after `from` whose key has the
/// identity `id`, or the number of entries if there is none.
pub open spec fn search<K: Key, V>(entries: Seq<(K, V)>, id: K::Id, from: int) -> int
    decreases entries.len() - from,
{
    if from < 0 || from >= entries.len() {
        entries.len() as int
    } else if entries[from].0.id() == id {
        from
    } else {
        search(entries, id, from + 1)
    }
}

/// The table that a sequence of entries stands for.
pub open spec fn table_of<K: Key, V>(entries: Seq<(K, V)>) -> Map<K::Id, V> {
    Map::new(
        |id: K::Id| search(entries, id, 0) < entries.len(),
        |id: K::Id| entries[search(entries, id, 0)].1,
    )
}

/// What `search` returns: an index in range before which no key matches,
/// and at which the key matches unless the index is the length.
pub proof fn lemma_search_finds<K: Key, V>(entries: Seq<(K, V)>, id: K::Id, from: int)
    requires
        0 <= from <= entries.len(),
    ensures
        from <= search(entries, id, from) <= entries.len(),
        forall|j: int| from <= j < search(entries, id, from) ==> entries[j].0.id() != id,
        search(entries, id, from) < entries.len() ==> entries[search(entries, id, from)].0.id()
            == id,
    decreases entries.len() - from,
{
    if from < entries.len() && entries[from].0.id() != id {
        lemma_search_finds(entries, id, from + 1);
    }
}

/// `search` returns `at` when no key matches between `from` and `at` and
/// `at` is the length or holds a matching key.
pub proof fn lemma_search_is<K: Key, V>(entries: Seq<(K, V)>, id: K::Id, from: int, at: int)
    requires
        0 <= from <= at <= entries.len(),
        forall|j: int| from <= j < at ==> entries[j].0.id() != id,
        at < entries.len() ==> entries[at].0.id() == id,
    ensures
        search(entries, id, from) == at,
    decreases at - from,
{
    if from < at {
        lemma_search_is(entries, id, from + 1, at);
    }
}

/// Overwriting the first entry of an identity, or appending an entry where
/// there is none, inserts into the table.
pub proof fn lemma_table_insert<K: Key, V>(
    before: Seq<(K, V)>,
    after: Seq<(K, V)>,
    key: K,
    value: V,
)
    requires
        ({
            let at = search(before, key.id(), 0);
            if at < before.len() {
                after == before.update(at, (key, value))
            } else {
                after == before.push((key, value))
            }
        }),
    ensures
        table_of(after) == table_of(before).insert(key.id(), value),
{
    let at = search(before, key.id(), 0);
    lemma_search_finds(before, key.id(), 0);
    assert forall|id: K::Id|
        search(after, id, 0) < after.len() <==> (id == key.id() || search(before, id, 0)
            < before.len()) by {
        lemma_search_finds(before, id, 0);
        let old_at = search(before, id, 0);
        if id == key.id() {
            lemma_search_is(after, id, 0, at);
        } else if old_at < before.len() {
            lemma_search_is(after, id, 0, old_at);
        } else {
            lemma_search_is(after, id, 0, after.len() as int);
        }
    }
    assert forall|id: K::Id| search(after, id, 0) < after.len() implies (#[trigger] table_of(
        after,
    )[id]) == table_of(before).insert(key.id(), value)[id] by {
        lemma_search_finds(before, id, 0);
        let old_at = search(before, id, 0);
        if id == key.id() {
            lemma_search_is(after, id, 0, at);
        } else {
            lemma_search_is(after, id, 0, old_at);
        }
    }
    assert(table_of(after) =~= table_of(before).insert(key.id(), value));
}

/// An association table.
pub struct Table<K, V> {
    entries: Vec<(K, V)>,
}

impl<K: Key, V> View for Table<K, V> {
    type V = Map<K::Id, V>;

    closed spec fn view(&self) -> Map<K::Id, V> {
        table_of(self.entries@)
    }
}

impl<K: Key, V> Table<K, V> {
    /// The empty table.
    pub fn new() -> (table: Self)
        ensures
            table@ == Map::<K::Id, V>::empty(),
    {
        let table = Table { entries: Vec::new() };
        assert(table@ =~= Map::<K::Id, V>::empty());
        table
    }

    fn position(&self, key: &K) -> (at: usize)
        ensures
            at == search(self.entries@, key.id(), 0),
            at <= self.entries@.len(),
    {
        let mut i: usize = 0;
        while i < self.entries.len()
            invariant
                i <= self.entries@.len(),
                forall|j: int| 0 <= j < i ==> self.entries@[j].0.id() != key.id(),
            decreases self.entries@.len() - i,
        {
            if self.entries[i].0.same(key) {
                proof {
                    lemma_search_is(self.entries@, key.id(), 0, i as int);
                }
                return i;
            }
            i = i + 1;
        }
        proof {
            lemma_search_is(self.entries@, key.id(), 0, i as int);
        }
        i
    }

    /// The value stored under `key`, if there is one.
    pub fn get(&self, key: &K) -> (found: Option<&V>)
        ensures
            match found {
                Some(value) => self@.contains_key(key.id()) && *value == self@[key.id()],
                None => !self@.contains_key(key.id()),
            },
    {
        let at = self.position(key);
        if at < self.entries.len() {
            Some(&self.entries[at].1)
        } else {
            None
        }
    }

    /// Whether a value is stored under `key`.
    pub fn contains_key(&self, key: &K) -> (found: bool)
        ensures
            found == self@.contains_key(key.id()),
    {
        let at = self.position(key);
        at < self.entries.len()
    }

    /// Stores `value` under `key` and returns the value that stood there.
    pub fn insert(&mut self, key: K, value: V) -> (replaced: Option<V>)
        ensures
            final(self)@ == old(self)@.insert(key.id(), value),
            match replaced {
                Some(previous) => old(self)@.contains_key(key.id()) && previous == old(self)@[key.id()],
                None => !old(self)@.contains_key(key.id()),
            },
    {
        let at = self.position(&key);
        let ghost before = self.entries@;
        let count = self.entries.len();
        self.entries.push((key, value));
        if at < count {
            let previous = self.entries.swap_remove(at);
            proof {
                assert(self.entries@ =~= before.update(at as int, (key, value)));
                lemma_table_insert(before, self.entries@, key, value);
            }
            Some(previous.1)
        } else {
            proof {
                lemma_table_insert(before, self.entries@, key, value);
            }
            None
        }
    }
}

} // verus!
