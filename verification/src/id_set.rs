//! A set of identifiers that remembers the order in which they arrived.

use vstd::prelude::*;
use vstd::string::*;

verus! {

/// What inserting `id` makes of a list of identifiers: the list itself where
/// it already holds `id`, else the list with `id` at its end.
pub open spec fn with_id(ids: Seq<Seq<char>>, id: Seq<char>) -> Seq<Seq<char>> {
    if ids.contains(id) {
        ids
    } else {
        ids.push(id)
    }
}

/// Inserting keeps a list free of duplicates, makes the identifier a member
/// and is idempotent.
pub proof fn lemma_with_id(ids: Seq<Seq<char>>, id: Seq<char>)
    ensures
        with_id(ids, id).contains(id),
        with_id(with_id(ids, id), id) == with_id(ids, id),
        ids.no_duplicates() ==> with_id(ids, id).no_duplicates(),
        forall|other: Seq<char>| ids.contains(other) ==> with_id(ids, id).contains(other),
        forall|other: Seq<char>|
            with_id(ids, id).contains(other) ==> other == id || ids.contains(other),
{
    let after = with_id(ids, id);
    if !ids.contains(id) {
        assert(after[ids.len() as int] == id);
        assert forall|other: Seq<char>| ids.contains(other) implies after.contains(other) by {
            let i = choose|i: int| 0 <= i < ids.len() && ids[i] == other;
            assert(after[i] == other);
        }
    }
}

/// An insertion-ordered set of identifiers.
pub struct IdSet {
    ids: Vec<String>,
}

impl View for IdSet {
    type V = Seq<Seq<char>>;

    closed spec fn view(&self) -> Seq<Seq<char>> {
        self.ids@.map_values(|id: String| id@)
    }
}

impl IdSet {
    /// The empty set.
    pub fn new() -> (set: Self)
        ensures
            set@ == Seq::<Seq<char>>::empty(),
    {
        let set = IdSet { ids: Vec::new() };
        assert(set@ =~= Seq::<Seq<char>>::empty());
        set
    }

    /// The number of identifiers in the set.
    pub fn len(&self) -> (count: usize)
        ensures
            count == self@.len(),
    {
        self.ids.len()
    }

    /// Whether `id` is a member.
    pub fn contains(&self, id: &str) -> (found: bool)
        ensures
            found == self@.contains(id@),
    {
        let wanted = String::from_str(id);
        let mut i: usize = 0;
        while i < self.ids.len()
            invariant
                i <= self.ids@.len(),
                wanted@ == id@,
                forall|j: int| 0 <= j < i ==> self@[j] != id@,
            decreases self.ids@.len() - i,
        {
            if self.ids[i] == wanted {
                assert(self@[i as int] == id@);
                return true;
            }
            i = i + 1;
        }
        false
    }

    /// Makes `id` a member; returns whether it was not one before.
    pub fn insert(&mut self, id: String) -> (fresh: bool)
        ensures
            final(self)@ == with_id(old(self)@, id@),
            fresh == !old(self)@.contains(id@),
    {
        if self.contains(id.as_str()) {
            false
        } else {
            self.ids.push(id);
            assert(self@ =~= old(self)@.push(id@));
            true
        }
    }

    /// The members, in the order in which they were inserted.
    pub fn to_vec(&self) -> (ids: Vec<String>)
        ensures
            ids@.map_values(|id: String| id@) == self@,
    {
        let mut out: Vec<String> = Vec::new();
        let mut i: usize = 0;
        while i < self.ids.len()
            invariant
                i <= self.ids@.len(),
                out@.len() == i,
                forall|j: int| 0 <= j < i ==> out@[j]@ == self.ids@[j]@,
            decreases self.ids@.len() - i,
        {
            out.push(self.ids[i].clone());
            i = i + 1;
        }
        assert(out@.map_values(|id: String| id@) =~= self@);
        out
    }
}

} // verus!
