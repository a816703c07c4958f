//! A table from texts to values.
use crate::text::same;
use vstd::prelude::*;

verus! {

/// A table from texts to values, kept as a list of its entries.
pub struct Table<V> {
    entries: Vec<(String, V)>,
}

/// Whether the entry at `i` is that of `key`.
spec fn entry_at<V>(entries: Seq<(String, V)>, key: Seq<char>, i: int) -> bool {
    0 <= i < entries.len() && entries[i].0@ == key
}

/// The table that a list of entries stands for.
spec fn as_map<V>(entries: Seq<(String, V)>) -> Map<Seq<char>, V> {
    Map::new(
        |key: Seq<char>| exists|i: int| entry_at(entries, key, i),
        |key: Seq<char>| entries[choose|i: int| entry_at(entries, key, i)].1,
    )
}

/// No two entries have the same key.
spec fn keys_differ<V>(entries: Seq<(String, V)>) -> bool {
    forall|i: int, j: int|
        0 <= i < j < entries.len() ==> (#[trigger] entries[i]).0@ != (#[trigger] entries[j]).0@
}

impl<V> View for Table<V> {
    type V = Map<Seq<char>, V>;

    closed spec fn view(&self) -> Map<Seq<char>, V> {
        as_map(self.entries@)
    }
}

impl<V> Table<V> {
    /// The table is well formed: every key has one entry.
    pub closed spec fn wf(&self) -> bool {
        keys_differ(self.entries@)
    }

    /// A table with nothing in it.
    pub fn new() -> (table: Self)
        ensures
            table.wf(),
            table@ == Map::<Seq<char>, V>::empty(),
    {
        let table = Table { entries: Vec::new() };
        assert(table@ =~= Map::<Seq<char>, V>::empty());
        table
    }

    /// Takes the value of `key` out of the table.
    pub fn remove(&mut self, key: &str) -> (taken: Option<V>)
        requires
            old(self).wf(),
        ensures
            final(self).wf(),
            final(self)@ == old(self)@.remove(key@),
            match taken {
                Some(value) => old(self)@.contains_key(key@) && old(self)@[key@] == value,
                None => !old(self)@.contains_key(key@),
            },
    {
        let ghost before = self.entries@;
        let count = self.entries.len();
        for i in 0..count
            invariant
                count == before.len(),
                self.entries@ == before,
                before == old(self).entries@,
                keys_differ(before),
                forall|j: int| 0 <= j < i ==> !entry_at(before, key@, j),
        {
            if same(self.entries[i].0.as_str(), key) {
                let entry = self.entries.remove(i);
                proof {
                    lemma_removed(before, key@, i as int);
                    assert(self.entries@ =~= before.remove(i as int));
                }
                return Some(entry.1);
            }
            assert(!entry_at(before, key@, i as int));
        }
        assert(self@ =~= old(self)@.remove(key@));
        None
    }

    /// Puts a value under `key`, and hands out the one that it replaces.
    pub fn insert(&mut self, key: String, value: V) -> (replaced: Option<V>)
        requires
            old(self).wf(),
        ensures
            final(self).wf(),
            final(self)@ == old(self)@.insert(key@, value),
            match replaced {
                Some(value) => old(self)@.contains_key(key@) && old(self)@[key@] == value,
                None => !old(self)@.contains_key(key@),
            },
    {
        let replaced = self.remove(key.as_str());
        let ghost before = self.entries@;
        self.entries.push((key, value));
        proof {
            assert(!as_map(before).contains_key(key@));
            lemma_pushed(before, key, value);
            assert(self@ =~= old(self)@.insert(key@, value));
        }
        replaced
    }

    /// The entries of the table, in some order.
    pub fn into_entries(self) -> (entries: Vec<(String, V)>)
        requires
            self.wf(),
        ensures
            forall|i: int, j: int|
                0 <= i < j < entries.len() ==> (#[trigger] entries[i]).0@ != (
                #[trigger] entries[j]).0@,
            forall|i: int|
                0 <= i < entries.len() ==> self@.contains_key((#[trigger] entries[i]).0@)
                    && self@[entries[i].0@] == entries[i].1,
            forall|key: Seq<char>|
                self@.contains_key(key) ==> exists|i: int|
                    0 <= i < entries.len() && (#[trigger] entries[i]).0@ == key,
    {
        proof {
            assert forall|i: int| 0 <= i < self.entries.len() implies self@.contains_key(
                (#[trigger] self.entries[i]).0@,
            ) && self@[self.entries[i].0@] == self.entries[i].1 by {
                assert(entry_at(self.entries@, self.entries[i].0@, i));
            }
            assert forall|key: Seq<char>| self@.contains_key(key) implies exists|i: int|
                0 <= i < self.entries.len() && (#[trigger] self.entries[i]).0@ == key by {
                let i = choose|i: int| entry_at(self.entries@, key, i);
                assert(self.entries[i].0@ == key);
            }
        }
        self.entries
    }
}

proof fn lemma_removed<V>(entries: Seq<(String, V)>, key: Seq<char>, at: int)
    requires
        keys_differ(entries),
        entry_at(entries, key, at),
    ensures
        keys_differ(entries.remove(at)),
        as_map(entries.remove(at)) == as_map(entries).remove(key),
        as_map(entries).contains_key(key),
        as_map(entries)[key] == entries[at].1,
{
    let rest = entries.remove(at);
    assert forall|k: Seq<char>| as_map(rest).contains_key(k) == as_map(entries).remove(
        key,
    ).contains_key(k) by {
        if as_map(rest).contains_key(k) {
            let i = choose|i: int| entry_at(rest, k, i);
            assert(entry_at(entries, k, if i < at { i } else { i + 1 }));
        }
        if as_map(entries).remove(key).contains_key(k) {
            let i = choose|i: int| entry_at(entries, k, i);
            assert(entry_at(rest, k, if i < at { i } else { i - 1 }));
        }
    }
    assert forall|k: Seq<char>| as_map(rest).contains_key(k) implies as_map(rest)[k] == as_map(
        entries,
    ).remove(key)[k] by {
        let i = choose|i: int| entry_at(rest, k, i);
        assert(entry_at(entries, k, if i < at { i } else { i + 1 }));
    }
    assert(as_map(rest) =~= as_map(entries).remove(key));
}

proof fn lemma_pushed<V>(entries: Seq<(String, V)>, key: String, value: V)
    requires
        keys_differ(entries),
        !as_map(entries).contains_key(key@),
    ensures
        keys_differ(entries.push((key, value))),
        as_map(entries.push((key, value))) == as_map(entries).insert(key@, value),
{
    let more = entries.push((key, value));
    assert forall|i: int| 0 <= i < entries.len() implies (#[trigger] entries[i]).0@ != key@ by {
        if entries[i].0@ == key@ {
            assert(entry_at(entries, key@, i));
        }
    }
    assert forall|k: Seq<char>| as_map(more).contains_key(k) == as_map(entries).insert(
        key@,
        value,
    ).contains_key(k) by {
        if as_map(more).contains_key(k) {
            let i = choose|i: int| entry_at(more, k, i);
            assert(i < entries.len() ==> entry_at(entries, k, i));
        }
        if as_map(entries).contains_key(k) {
            let i = choose|i: int| entry_at(entries, k, i);
            assert(entry_at(more, k, i));
        }
        assert(entry_at(more, key@, entries.len() as int));
    }
    assert forall|k: Seq<char>| as_map(more).contains_key(k) implies as_map(more)[k] == as_map(
        entries,
    ).insert(key@, value)[k] by {
        let i = choose|i: int| entry_at(more, k, i);
        assert(i < entries.len() ==> entry_at(entries, k, i));
    }
    assert(as_map(more) =~= as_map(entries).insert(key@, value));
}

} // verus!
