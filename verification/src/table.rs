//! Small tables in the order in which their keys first appeared.

use vstd::prelude::*;

use crate::text::str_eq;

verus! {

/// Position of the entry with the given key, or the length.
pub open spec fn position<K, V>(entries: Seq<(K, V)>, key: K) -> int
    decreases entries.len(),
{
    if entries.len() == 0 {
        0
    } else if entries[0].0 == key {
        0
    } else {
        1 + position(entries.drop_first(), key)
    }
}

/// The value under the given key.
pub open spec fn lookup<K, V>(entries: Seq<(K, V)>, key: K) -> Option<V> {
    if position(entries, key) < entries.len() {
        Some(entries[position(entries, key)].1)
    } else {
        None
    }
}

/// The table with `value` under `key`: in place where the key is known,
/// otherwise at the end.
pub open spec fn put<K, V>(entries: Seq<(K, V)>, key: K, value: V) -> Seq<(K, V)> {
    if position(entries, key) < entries.len() {
        entries.update(position(entries, key), (key, value))
    } else {
        entries.push((key, value))
    }
}

/// Whether no key occurs twice.
pub open spec fn keys_are_distinct<K, V>(entries: Seq<(K, V)>) -> bool {
    forall|i: int, j: int|
        0 <= i < entries.len() && 0 <= j < entries.len() && i != j ==> #[trigger] entries[i].0
            != #[trigger] entries[j].0
}

/// The position of a key: the first entry that has it.
pub proof fn lemma_position<K, V>(entries: Seq<(K, V)>, key: K)
    ensures
        0 <= position(entries, key) <= entries.len(),
        position(entries, key) < entries.len() ==> entries[position(entries, key)].0 == key,
        forall|i: int| 0 <= i < position(entries, key) ==> #[trigger] entries[i].0 != key,
    decreases entries.len(),
{
    if entries.len() > 0 && entries[0].0 != key {
        let rest = entries.drop_first();
        lemma_position(rest, key);
        assert forall|i: int| 0 <= i < position(entries, key) implies #[trigger] entries[i].0
            != key by {
            if i > 0 {
                assert(rest[i - 1] == entries[i]);
            }
        }
    }
}

/// An entry that is the first with its key has the key's position.
pub proof fn lemma_position_is<K, V>(entries: Seq<(K, V)>, key: K, at: int)
    requires
        0 <= at <= entries.len(),
        forall|i: int| 0 <= i < at ==> #[trigger] entries[i].0 != key,
        at < entries.len() ==> entries[at].0 == key,
    ensures
        position(entries, key) == at,
{
    lemma_position(entries, key);
    let found = position(entries, key);
    if found < at {
        assert(entries[found].0 != key);
    } else if at < found {
        assert(entries[at].0 != key);
    }
}

/// A value that was put under a key is found there, every other key keeps its
/// value, and keys stay distinct.
pub proof fn put_is_read_back<K, V>(entries: Seq<(K, V)>, key: K, value: V, other: K)
    ensures
        lookup(put(entries, key, value), key) == Some(value),
        other != key ==> lookup(put(entries, key, value), other) == lookup(entries, other),
        keys_are_distinct(entries) ==> keys_are_distinct(put(entries, key, value)),
{
    let after = put(entries, key, value);
    lemma_position(entries, key);
    lemma_position_is(after, key, position(entries, key));
    if other != key {
        lemma_position(entries, other);
        let found = position(entries, other);
        if found < entries.len() {
            lemma_position_is(after, other, found);
        } else {
            assert forall|i: int| 0 <= i < after.len() implies #[trigger] after[i].0 != other by {
                if i < entries.len() {
                    assert(entries[i].0 != other);
                }
            }
            lemma_position_is(after, other, after.len() as int);
        }
    }
    if keys_are_distinct(entries) {
        assert forall|i: int, j: int|
            0 <= i < after.len() && 0 <= j < after.len() && i != j implies #[trigger] after[i].0
            != #[trigger] after[j].0 by {
            if i < entries.len() && j < entries.len() {
                assert(entries[i].0 != entries[j].0);
            } else if i < entries.len() {
                assert(entries[i].0 != key);
            } else if j < entries.len() {
                assert(entries[j].0 != key);
            }
        }
    }
}

/// In a table with distinct keys, taking out the entry of one key from those
/// kept so far keeps exactly the rest: an entry stays where it was kept and has
/// another key.
pub proof fn lemma_remove_is_filter<K, V>(
    entries: Seq<(K, V)>,
    kept: spec_fn((K, V)) -> bool,
    rest: spec_fn((K, V)) -> bool,
    key: K,
)
    requires
        keys_are_distinct(entries),
        forall|item: (K, V)| #[trigger] rest(item) == (kept(item) && item.0 != key),
    ensures
        ({
            let before = entries.filter(kept);
            let at = position(before, key);
            entries.filter(rest) == if at < before.len() {
                before.remove(at)
            } else {
                before
            }
        }),
    decreases entries.len(),
{
    reveal(Seq::filter);
    if entries.len() > 0 {
        let fewer = entries.drop_last();
        let item = entries.last();
        lemma_remove_is_filter(fewer, kept, rest, key);
        let before = fewer.filter(kept);
        let at = position(before, key);
        lemma_position(before, key);
        assert(rest(item) == (kept(item) && item.0 != key));
        if kept(item) {
            let grown = before.push(item);
            if item.0 == key {
                assert forall|i: int| 0 <= i < before.len() implies #[trigger] before[i].0
                    != key by {
                    assert(before.contains(before[i]));
                    fewer.lemma_filter_contains_rev(kept, before[i]);
                    let j = choose|j: int| 0 <= j < fewer.len() && fewer[j] == before[i];
                    assert(entries[j].0 != entries[entries.len() - 1].0);
                }
                lemma_position_is(grown, key, before.len() as int);
                assert(grown.remove(before.len() as int) =~= before);
            } else if at < before.len() {
                lemma_position_is(grown, key, at);
                assert(grown.remove(at) =~= before.remove(at).push(item));
            } else {
                assert forall|i: int| 0 <= i < grown.len() implies #[trigger] grown[i].0 != key by {
                    if i < before.len() {
                        assert(before[i].0 != key);
                    }
                }
                lemma_position_is(grown, key, grown.len() as int);
            }
        }
    }
}

/// A filter that keeps everything changes nothing.
pub proof fn lemma_filter_all<A>(items: Seq<A>, keep: spec_fn(A) -> bool)
    requires
        forall|item: A| #[trigger] keep(item),
    ensures
        items.filter(keep) == items,
    decreases items.len(),
{
    reveal(Seq::filter);
    if items.len() > 0 {
        lemma_filter_all(items.drop_last(), keep);
        assert(keep(items.last()));
        assert(items.drop_last().push(items.last()) =~= items);
    }
}

/// A table from text to small values.
#[derive(Clone, Debug, PartialEq, Eq)]
pub struct TextTable<V> {
    /// The entries in the order in which their keys first appeared.
    pub entries: Vec<(String, V)>,
}

impl<V> View for TextTable<V> {
    type V = Seq<(Seq<char>, V)>;

    open spec fn view(&self) -> Seq<(Seq<char>, V)> {
        self.entries@.map_values(|entry: (String, V)| (entry.0@, entry.1))
    }
}

impl<V: Copy> TextTable<V> {
    /// A table without entries.
    pub fn new() -> (table: Self)
        ensures
            table@ == Seq::<(Seq<char>, V)>::empty(),
    {
        let table = TextTable { entries: Vec::new() };
        assert(table@ =~= Seq::<(Seq<char>, V)>::empty());
        table
    }

    fn find(&self, key: &str) -> (at: usize)
        ensures
            at == position(self@, key@),
            at <= self.entries.len(),
    {
        let mut at: usize = 0;
        while at < self.entries.len() && !str_eq(self.entries[at].0.as_str(), key)
            invariant
                at <= self.entries.len(),
                forall|i: int| 0 <= i < at ==> #[trigger] self@[i].0 != key@,
            decreases self.entries.len() - at,
        {
            assert(self@[at as int].0 != key@);
            at += 1;
        }
        proof {
            assert(self@.len() == self.entries.len());
            if at < self.entries.len() {
                assert(self@[at as int].0 == key@);
            }
            lemma_position_is(self@, key@, at as int);
        }
        at
    }

    /// The value under a key.
    pub fn get(&self, key: &str) -> (value: Option<V>)
        ensures
            value == lookup(self@, key@),
    {
        let at: usize = self.find(key);
        if at < self.entries.len() {
            assert(self@[at as int].1 == self.entries@[at as int].1);
            Some(self.entries[at].1)
        } else {
            None
        }
    }

    /// Puts a value under a key.
    pub fn set(&mut self, key: &str, value: V)
        ensures
            final(self)@ == put(old(self)@, key@, value),
    {
        let at: usize = self.find(key);
        let ghost before = self@;
        if at < self.entries.len() {
            self.entries.set(at, (key.to_owned(), value));
        } else {
            self.entries.push((key.to_owned(), value));
        }
        assert(self@ =~= put(before, key@, value));
    }
}

/// The count under a key, zero where there is none.
pub open spec fn count_of(entries: Seq<(Seq<char>, u64)>, key: Seq<char>) -> u64 {
    match lookup(entries, key) {
        Some(count) => count,
        None => 0,
    }
}

/// The table with `more` added to the count under a key.
pub open spec fn counted(
    entries: Seq<(Seq<char>, u64)>,
    key: Seq<char>,
    more: u64,
) -> Seq<(Seq<char>, u64)> {
    put(entries, key, crate::model::sat(count_of(entries, key), more))
}

impl TextTable<u64> {
    /// Adds to the count under a key, stopping at the largest count.
    pub fn add_count(&mut self, key: &str, more: u64)
        ensures
            final(self)@ == counted(old(self)@, key@, more),
    {
        let count: u64 = match self.get(key) {
            Some(count) => count,
            None => 0,
        };
        self.set(key, count.saturating_add(more));
    }
}

} // verus!
