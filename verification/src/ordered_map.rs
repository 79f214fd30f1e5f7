//! A map from text to text that keeps its entries in the order in which
//! their keys were first inserted.

use vstd::prelude::*;
use vstd::string::*;

use crate::text::str_eq;

verus! {

/// The entries of a map, as pairs of key and value.
pub type Entries = Seq<(Seq<char>, Seq<char>)>;

/// No key stands twice in `entries`.
pub open spec fn keys_distinct(entries: Entries) -> bool {
    forall|i: int, j: int|
        0 <= i < j < entries.len() ==> (#[trigger] entries[i]).0 != (#[trigger] entries[j]).0
}

/// The index of `key` in `entries`, or the number of entries where `key` is
/// not among them.
pub open spec fn index_of_key(entries: Entries, key: Seq<char>) -> int
    decreases entries.len(),
{
    if entries.len() == 0 {
        0
    } else if index_of_key(entries.drop_last(), key) < entries.len() - 1 {
        index_of_key(entries.drop_last(), key)
    } else if entries.last().0 == key {
        entries.len() - 1
    } else {
        entries.len() as int
    }
}

/// The entries after `key` was given `value`: the value is replaced where the
/// key stands, and the pair is put at the end where it does not.
pub open spec fn inserted(entries: Entries, key: Seq<char>, value: Seq<char>) -> Entries {
    let i = index_of_key(entries, key);
    if i < entries.len() {
        entries.update(i, (key, value))
    } else {
        entries.push((key, value))
    }
}

/// Where `index_of_key` points: at the first entry with the key, which is
/// the only one when the keys are distinct.
pub proof fn lemma_index_of_key(entries: Entries, key: Seq<char>)
    ensures
        0 <= index_of_key(entries, key) <= entries.len(),
        index_of_key(entries, key) < entries.len() ==> entries[index_of_key(entries, key)].0
            == key,
        forall|k: int| 0 <= k < index_of_key(entries, key) ==> (#[trigger] entries[k]).0 != key,
    decreases entries.len(),
{
    if entries.len() > 0 {
        let front = entries.drop_last();
        lemma_index_of_key(front, key);
        assert forall|k: int| 0 <= k < index_of_key(entries, key) implies (#[trigger] entries[k]).0
            != key by {
            if k < front.len() {
                assert(front[k] == entries[k]);
            }
        }
        if index_of_key(front, key) < front.len() {
            assert(front[index_of_key(front, key)] == entries[index_of_key(front, key)]);
        }
    }
}

/// Inserting keeps the keys distinct.
pub proof fn lemma_inserted_distinct(entries: Entries, key: Seq<char>, value: Seq<char>)
    requires
        keys_distinct(entries),
    ensures
        keys_distinct(inserted(entries, key, value)),
{
    lemma_index_of_key(entries, key);
    let after = inserted(entries, key, value);
    let at = index_of_key(entries, key);
    assert forall|i: int, j: int| 0 <= i < j < after.len() implies (#[trigger] after[i]).0 != (
    #[trigger] after[j]).0 by {
        if at < entries.len() {
            assert(after[i].0 == entries[i].0);
            assert(after[j].0 == entries[j].0);
        } else if j == entries.len() {
            assert(after[i] == entries[i]);
        } else {
            assert(after[i] == entries[i]);
            assert(after[j] == entries[j]);
        }
    }
}

/// An ordered map from text to text.
#[derive(Debug, PartialEq, Eq)]
pub struct OrderedMap {
    entries: Vec<(String, String)>,
}

impl View for OrderedMap {
    type V = Entries;

    closed spec fn view(&self) -> Entries {
        Seq::new(self.entries@.len(), |i: int| (self.entries@[i].0@, self.entries@[i].1@))
    }
}

impl OrderedMap {
    #[verifier::type_invariant]
    spec fn well_formed(self) -> bool {
        keys_distinct(self@)
    }

    /// The map without entries.
    pub fn new() -> (r: Self)
        ensures
            r@ == Entries::empty(),
    {
        let r = OrderedMap { entries: Vec::new() };
        assert(r@ =~= Entries::empty());
        r
    }

    /// The number of entries.
    pub fn len(&self) -> (n: usize)
        ensures
            n == self@.len(),
    {
        self.entries.len()
    }

    /// Whether the map has no entries.
    pub fn is_empty(&self) -> (b: bool)
        ensures
            b == (self@.len() == 0),
    {
        self.entries.len() == 0
    }

    /// The key and the value of the entry at `index`, if the map has that
    /// many entries.
    pub fn entry(&self, index: usize) -> (r: Option<(&str, &str)>)
        ensures
            index < self@.len() ==> r is Some && r->Some_0.0@ == self@[index as int].0
                && r->Some_0.1@ == self@[index as int].1,
            index >= self@.len() ==> r is None,
    {
        if index < self.entries.len() {
            Some((self.entries[index].0.as_str(), self.entries[index].1.as_str()))
        } else {
            None
        }
    }

    /// The index of the entry with `key`, or the number of entries where
    /// there is none.
    pub fn position(&self, key: &str) -> (i: usize)
        ensures
            i == index_of_key(self@, key@),
            i <= self@.len(),
    {
        let mut i: usize = 0;
        while i < self.entries.len()
            invariant
                i <= self.entries@.len(),
                self.entries@.len() == self@.len(),
                index_of_key(self@.subrange(0, i as int), key@) == i,
            decreases self.entries.len() - i,
        {
            proof {
                let next = self@.subrange(0, i + 1);
                assert(next.drop_last() =~= self@.subrange(0, i as int));
                assert(next.last() == self@[i as int]);
            }
            if str_eq(self.entries[i].0.as_str(), key) {
                proof {
                    lemma_found_key_stays(self@, key@, i as int + 1);
                }
                return i;
            }
            i = i + 1;
        }
        assert(self@.subrange(0, i as int) =~= self@);
        i
    }

    /// The value that `key` has, if it has one.
    pub fn get(&self, key: &str) -> (r: Option<&str>)
        ensures
            match r {
                Some(v) => index_of_key(self@, key@) < self@.len() && v@ == self@[index_of_key(
                    self@,
                    key@,
                )].1,
                None => index_of_key(self@, key@) == self@.len(),
            },
    {
        let i = self.position(key);
        if i < self.entries.len() {
            Some(self.entries[i].1.as_str())
        } else {
            None
        }
    }

    /// This map with `key` given `value`.
    pub fn insert(self, key: String, value: String) -> (r: Self)
        ensures
            r@ == inserted(self@, key@, value@),
    {
        proof {
            use_type_invariant(&self);
            lemma_inserted_distinct(self@, key@, value@);
            lemma_index_of_key(self@, key@);
        }
        let i = self.position(key.as_str());
        let ghost before = self@;
        let mut entries = self.entries;
        if i < entries.len() {
            entries.set(i, (key, value));
        } else {
            entries.push((key, value));
        }
        let ghost after = Seq::new(entries@.len(), |k: int| (entries@[k].0@, entries@[k].1@));
        assert(after =~= inserted(before, key@, value@));
        OrderedMap { entries }
    }

    /// Two maps are the same when they hold the same entries in the same
    /// order.
    pub fn same(&self, other: &OrderedMap) -> (b: bool)
        ensures
            b == (self@ == other@),
    {
        if self.entries.len() != other.entries.len() {
            return false;
        }
        let mut i: usize = 0;
        while i < self.entries.len()
            invariant
                i <= self.entries@.len(),
                self.entries@.len() == other.entries@.len(),
                forall|k: int| 0 <= k < i ==> self@[k] == other@[k],
            decreases self.entries.len() - i,
        {
            if !str_eq(self.entries[i].0.as_str(), other.entries[i].0.as_str()) || !str_eq(
                self.entries[i].1.as_str(),
                other.entries[i].1.as_str(),
            ) {
                assert(self@[i as int] != other@[i as int]);
                return false;
            }
            i = i + 1;
        }
        assert(self@ =~= other@);
        true
    }
}

impl Clone for OrderedMap {
    fn clone(&self) -> (r: Self)
        ensures
            r@ == self@,
    {
        proof {
            use_type_invariant(self);
        }
        let mut entries: Vec<(String, String)> = Vec::new();
        let mut i: usize = 0;
        while i < self.entries.len()
            invariant
                i <= self.entries@.len(),
                entries@.len() == i,
                forall|k: int|
                    0 <= k < i ==> (#[trigger] entries@[k]).0@ == self.entries@[k].0@
                        && entries@[k].1@ == self.entries@[k].1@,
            decreases self.entries.len() - i,
        {
            entries.push((self.entries[i].0.clone(), self.entries[i].1.clone()));
            i = i + 1;
        }
        let ghost copy = Seq::new(entries@.len(), |k: int| (entries@[k].0@, entries@[k].1@));
        assert(copy =~= self@);
        OrderedMap { entries }
    }
}

impl Default for OrderedMap {
    fn default() -> (r: Self)
        ensures
            r@ == Entries::empty(),
    {
        OrderedMap::new()
    }
}

/// A found key stays found at the same index when entries are added at the
/// end.
proof fn lemma_found_key_stays(entries: Entries, key: Seq<char>, end: int)
    requires
        0 < end <= entries.len(),
        index_of_key(entries.subrange(0, end), key) < end,
    ensures
        index_of_key(entries, key) == index_of_key(entries.subrange(0, end), key),
    decreases entries.len() - end,
{
    if end < entries.len() {
        let next = entries.subrange(0, end + 1);
        assert(next.drop_last() =~= entries.subrange(0, end));
        lemma_found_key_stays(entries, key, end + 1);
    } else {
        assert(entries.subrange(0, end) =~= entries);
    }
}

} // verus!
