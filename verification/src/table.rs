//! A small map from text keys to values that keeps its entries in the order
//! in which their keys first came.

use vstd::prelude::*;
use vstd::string::StringExecFns;

verus! {

/// The first index at or behind `from` whose key is `key`; the length of
/// `entries` where there is none.
pub open spec fn find_from<T>(entries: Seq<(Seq<char>, T)>, key: Seq<char>, from: int) -> int
    decreases entries.len() - from,
{
    if from >= entries.len() {
        entries.len() as int
    } else if entries[from].0 == key {
        from
    } else {
        find_from(entries, key, from + 1)
    }
}

/// The value stored under `key`, if any.
pub open spec fn lookup<T>(entries: Seq<(Seq<char>, T)>, key: Seq<char>) -> Option<T> {
    let at = find_from(entries, key, 0);
    if at < entries.len() {
        Some(entries[at].1)
    } else {
        None
    }
}

/// `entries` with `value` stored under `key`: in the place of the value
/// that was there, or else as a new last entry.
pub open spec fn put<T>(entries: Seq<(Seq<char>, T)>, key: Seq<char>, value: T) -> Seq<
    (Seq<char>, T),
> {
    let at = find_from(entries, key, 0);
    if at < entries.len() {
        entries.update(at, (key, value))
    } else {
        entries.push((key, value))
    }
}

/// Whether `key` occurs nowhere in `entries`.
pub open spec fn is_fresh<T>(entries: Seq<(Seq<char>, T)>, key: Seq<char>) -> bool {
    forall|i: int| 0 <= i < entries.len() ==> (#[trigger] entries[i]).0 != key
}

/// Whether no key occurs twice.
pub open spec fn distinct_keys<T>(entries: Seq<(Seq<char>, T)>) -> bool {
    forall|i: int, j: int|
        0 <= i < j < entries.len() ==> (#[trigger] entries[i]).0 != (#[trigger] entries[j]).0
}

/// What `find_from` finds: the key is at the index it returns and at none
/// between `from` and there.
pub proof fn lemma_find_from<T>(entries: Seq<(Seq<char>, T)>, key: Seq<char>, from: int)
    requires
        0 <= from <= entries.len(),
    ensures
        from <= find_from(entries, key, from) <= entries.len(),
        forall|i: int| from <= i < find_from(entries, key, from) ==> (#[trigger] entries[i]).0 != key,
        find_from(entries, key, from) < entries.len() ==> entries[find_from(entries, key, from)].0
            == key,
    decreases entries.len() - from,
{
    if from < entries.len() && entries[from].0 != key {
        lemma_find_from(entries, key, from + 1);
    }
}

/// An index that holds the key, with none before it that does, is the one
/// that `find_from` returns.
pub proof fn lemma_find_unique<T>(entries: Seq<(Seq<char>, T)>, key: Seq<char>, from: int, at: int)
    requires
        0 <= from <= at <= entries.len(),
        forall|i: int| from <= i < at ==> (#[trigger] entries[i]).0 != key,
        at < entries.len() ==> entries[at].0 == key,
    ensures
        find_from(entries, key, from) == at,
    decreases at - from,
{
    if from < at {
        lemma_find_unique(entries, key, from + 1, at);
    }
}

/// The first entry for a key is the one that a lookup finds.
pub proof fn lemma_lookup_first<T>(entries: Seq<(Seq<char>, T)>, key: Seq<char>, at: int)
    requires
        0 <= at < entries.len(),
        entries[at].0 == key,
        forall|i: int| 0 <= i < at ==> (#[trigger] entries[i]).0 != key,
    ensures
        lookup(entries, key) == Some(entries[at].1),
{
    lemma_find_unique(entries, key, 0, at);
}

/// Storing under a key that the table does not hold appends an entry.
pub proof fn lemma_put_fresh<T>(entries: Seq<(Seq<char>, T)>, key: Seq<char>, value: T)
    requires
        is_fresh(entries, key),
    ensures
        put(entries, key, value) == entries.push((key, value)),
{
    lemma_find_unique(entries, key, 0, entries.len() as int);
}

/// A value that was stored under a key is found under it.
pub proof fn lemma_lookup_put_same<T>(entries: Seq<(Seq<char>, T)>, key: Seq<char>, value: T)
    ensures
        lookup(put(entries, key, value), key) == Some(value),
{
    lemma_find_from(entries, key, 0);
    let at = find_from(entries, key, 0);
    let after = put(entries, key, value);
    assert forall|i: int| 0 <= i < at implies (#[trigger] after[i]).0 != key by {
        assert(after[i] == entries[i]);
    }
    lemma_find_unique(after, key, 0, at);
}

/// Storing under one key changes nothing under another.
pub proof fn lemma_lookup_put_other<T>(
    entries: Seq<(Seq<char>, T)>,
    key: Seq<char>,
    value: T,
    other: Seq<char>,
)
    requires
        other != key,
    ensures
        lookup(put(entries, key, value), other) == lookup(entries, other),
{
    lemma_find_from(entries, key, 0);
    lemma_find_from(entries, other, 0);
    let after = put(entries, key, value);
    let at = find_from(entries, other, 0);
    assert forall|i: int| 0 <= i < after.len() implies (#[trigger] after[i]).0 == (if i
        < entries.len() {
        entries[i].0
    } else {
        key
    }) by {}
    if at < entries.len() {
        assert forall|i: int| 0 <= i < at implies (#[trigger] after[i]).0 != other by {
            assert(entries[i].0 != other);
        }
        lemma_find_unique(after, other, 0, at);
    } else {
        assert forall|i: int| 0 <= i < after.len() implies (#[trigger] after[i]).0 != other by {
            if i < entries.len() {
                assert(entries[i].0 != other);
            }
        }
        lemma_find_unique(after, other, 0, after.len() as int);
    }
}

/// Storing a value never makes a key occur twice.
pub proof fn lemma_put_keeps_distinct<T>(entries: Seq<(Seq<char>, T)>, key: Seq<char>, value: T)
    requires
        distinct_keys(entries),
    ensures
        distinct_keys(put(entries, key, value)),
{
    lemma_find_from(entries, key, 0);
    let after = put(entries, key, value);
    assert forall|i: int, j: int| 0 <= i < j < after.len() implies (#[trigger] after[i]).0 != (
    #[trigger] after[j]).0 by {
        if j < entries.len() {
            assert(after[i].0 == entries[i].0);
            assert(after[j].0 == entries[j].0);
        } else {
            assert(after[i] == entries[i]);
        }
    }
}

/// One key with its value.
pub struct Entry<V> {
    pub key: String,
    pub value: V,
}

/// A map from text keys to values, kept as a list of entries in the order
/// in which their keys first came. No key occurs twice.
pub struct Table<V: View> {
    entries: Vec<Entry<V>>,
}

impl<V: View> View for Table<V> {
    type V = Seq<(Seq<char>, V::V)>;

    closed spec fn view(&self) -> Seq<(Seq<char>, V::V)> {
        Seq::new(self.entries@.len(), |i: int| (self.entries@[i].key@, self.entries@[i].value@))
    }
}

impl<V: View> Table<V> {
    #[verifier::type_invariant]
    spec fn keys_once(self) -> bool {
        distinct_keys(self@)
    }

    /// The empty table.
    pub fn new() -> (table: Table<V>)
        ensures
            table@ == Seq::<(Seq<char>, V::V)>::empty(),
    {
        let entries: Vec<Entry<V>> = Vec::new();
        assert(Seq::new(entries@.len(), |i: int| (entries@[i].key@, entries@[i].value@))
            =~= Seq::<(Seq<char>, V::V)>::empty());
        Table { entries }
    }

    /// The number of entries.
    pub fn len(&self) -> (len: usize)
        ensures
            len == self@.len(),
    {
        self.entries.len()
    }

    /// The entries, in their order. No key occurs twice among them.
    pub fn entries(&self) -> (entries: &Vec<Entry<V>>)
        ensures
            entries@.len() == self@.len(),
            forall|i: int|
                0 <= i < entries@.len() ==> (#[trigger] entries@[i]).key@ == self@[i].0
                    && entries@[i].value@ == self@[i].1,
            distinct_keys(self@),
    {
        proof {
            use_type_invariant(self);
        }
        &self.entries
    }

    /// The index of the first entry for `key`; the number of entries where
    /// there is none.
    pub fn index_of(&self, key: &String) -> (at: usize)
        ensures
            at as int == find_from(self@, key@, 0),
            at <= self@.len(),
    {
        let mut at: usize = 0;
        while at < self.entries.len() && !(self.entries[at].key == *key)
            invariant
                at <= self.entries@.len(),
                forall|i: int| 0 <= i < at ==> (#[trigger] self@[i]).0 != key@,
            decreases self.entries@.len() - at,
        {
            at = at + 1;
        }
        proof {
            lemma_find_unique(self@, key@, 0, at as int);
        }
        at
    }

    /// Stores `value` under `key`, in the place of the value that was there
    /// or else as a new last entry. Afterwards the value is found under
    /// the key, and under every other key what was found there before.
    pub fn insert(&mut self, key: String, value: V)
        ensures
            final(self)@ == put(old(self)@, key@, value@),
            is_fresh(old(self)@, key@) ==> final(self)@ == old(self)@.push((key@, value@)),
            distinct_keys(final(self)@),
            lookup(final(self)@, key@) == Some(value@),
            forall|other: Seq<char>|
                other != key@ ==> #[trigger] lookup(final(self)@, other) == lookup(
                    old(self)@,
                    other,
                ),
    {
        let ghost before = self@;
        let at = self.index_of(&key);
        proof {
            use_type_invariant(&*self);
            lemma_put_keeps_distinct(before, key@, value@);
            lemma_lookup_put_same(before, key@, value@);
            if is_fresh(before, key@) {
                lemma_put_fresh(before, key@, value@);
            }
            assert forall|other: Seq<char>| other != key@ implies #[trigger] lookup(
                put(before, key@, value@),
                other,
            ) == lookup(before, other) by {
                lemma_lookup_put_other(before, key@, value@, other);
            }
        }
        let ghost stored = (key@, value@);
        let mut entries: Vec<Entry<V>> = Vec::new();
        assert(Seq::new(entries@.len(), |i: int| (entries@[i].key@, entries@[i].value@))
            =~= Seq::<(Seq<char>, V::V)>::empty());
        std::mem::swap(&mut self.entries, &mut entries);
        if at < entries.len() {
            entries.set(at, Entry { key, value });
        } else {
            entries.push(Entry { key, value });
        }
        assert(Seq::new(entries@.len(), |i: int| (entries@[i].key@, entries@[i].value@)) =~= put(
            before,
            stored.0,
            stored.1,
        ));
        std::mem::swap(&mut self.entries, &mut entries);
    }

    /// The value stored under `key`, if any.
    pub fn get(&self, key: &str) -> (value: Option<&V>)
        ensures
            match value {
                Some(found) => lookup(self@, key@) == Some(found@),
                None => lookup(self@, key@) is None,
            },
    {
        let wanted = String::from_str(key);
        let at = self.index_of(&wanted);
        if at < self.entries.len() {
            Some(&self.entries[at].value)
        } else {
            None
        }
    }
}

} // verus!
