use vstd::prelude::*;
use crate::address::Address;

verus! {

/// Whether no address occurs twice among the keys of `entries`.
pub open spec fn distinct_keys<V>(entries: Seq<(Address, V)>) -> bool {
    forall|i: int, j: int|
        0 <= i < entries.len() && 0 <= j < entries.len() && i != j ==> entries[i].0 != entries[j].0
}

/// Whether `key` is the key of one of `entries`.
pub open spec fn has_key<V>(entries: Seq<(Address, V)>, key: Address) -> bool {
    exists|i: int| 0 <= i < entries.len() && #[trigger] entries[i].0 == key
}

/// The position of an entry under `key`.
pub open spec fn position<V>(entries: Seq<(Address, V)>, key: Address) -> int {
    choose|i: int| 0 <= i < entries.len() && #[trigger] entries[i].0 == key
}

/// The map that a list of entries stands for.
pub open spec fn as_map<V>(entries: Seq<(Address, V)>) -> Map<Address, V> {
    Map::new(
        |key: Address| has_key(entries, key),
        |key: Address| entries[position(entries, key)].1,
    )
}

/// With distinct keys, every entry is found under its key.
proof fn lemma_entry_found<V>(entries: Seq<(Address, V)>, i: int)
    requires
        distinct_keys(entries),
        0 <= i < entries.len(),
    ensures
        has_key(entries, entries[i].0),
        position(entries, entries[i].0) == i,
        as_map(entries).contains_key(entries[i].0),
        as_map(entries)[entries[i].0] == entries[i].1,
{
    assert(entries[i].0 == entries[i].0);
}

/// Adding an entry under a new key inserts it into the map.
proof fn lemma_push_inserts<V>(entries: Seq<(Address, V)>, key: Address, value: V)
    requires
        distinct_keys(entries),
        !has_key(entries, key),
    ensures
        distinct_keys(entries.push((key, value))),
        as_map(entries.push((key, value))) == as_map(entries).insert(key, value),
{
    let grown = entries.push((key, value));
    assert(distinct_keys(grown)) by {
        assert forall|i: int, j: int|
            0 <= i < grown.len() && 0 <= j < grown.len() && i != j implies grown[i].0
            != grown[j].0 by {
            if i < entries.len() && j < entries.len() {
                assert(grown[i] == entries[i] && grown[j] == entries[j]);
            } else if i < entries.len() {
                assert(entries[i].0 == grown[i].0);
            } else {
                assert(entries[j].0 == grown[j].0);
            }
        }
    }
    assert forall|a: Address| has_key(grown, a) <==> (a == key || has_key(entries, a)) by {
        if has_key(grown, a) {
            let i = position(grown, a);
            if i < entries.len() {
                assert(entries[i].0 == a);
            }
        }
        if a == key {
            assert(grown[entries.len() as int].0 == key);
        }
        if has_key(entries, a) {
            let i = position(entries, a);
            assert(grown[i].0 == a);
        }
    }
    assert forall|a: Address| has_key(grown, a) implies #[trigger] as_map(grown)[a] == as_map(
        entries,
    ).insert(key, value)[a] by {
        let i = position(grown, a);
        lemma_entry_found(grown, i);
        if i < entries.len() {
            assert(entries[i].0 == a);
            lemma_entry_found(entries, i);
        }
    }
    assert(as_map(grown) =~= as_map(entries).insert(key, value));
}

/// Taking out the entry at a position removes its key from the map.
proof fn lemma_remove_removes<V>(entries: Seq<(Address, V)>, at: int)
    requires
        distinct_keys(entries),
        0 <= at < entries.len(),
    ensures
        distinct_keys(entries.remove(at)),
        !has_key(entries.remove(at), entries[at].0),
        as_map(entries.remove(at)) == as_map(entries).remove(entries[at].0),
{
    let key = entries[at].0;
    let rest = entries.remove(at);
    assert forall|i: int| 0 <= i < rest.len() implies #[trigger] rest[i] == entries[if i < at {
        i
    } else {
        i + 1
    }] by {}
    assert(distinct_keys(rest)) by {
        assert forall|i: int, j: int|
            0 <= i < rest.len() && 0 <= j < rest.len() && i != j implies rest[i].0
            != rest[j].0 by {
            let i0 = if i < at {
                i
            } else {
                i + 1
            };
            let j0 = if j < at {
                j
            } else {
                j + 1
            };
            assert(rest[i] == entries[i0] && rest[j] == entries[j0]);
        }
    }
    assert forall|a: Address| has_key(rest, a) <==> (a != key && has_key(entries, a)) by {
        if has_key(rest, a) {
            let i = position(rest, a);
            let i0 = if i < at {
                i
            } else {
                i + 1
            };
            assert(rest[i] == entries[i0]);
            assert(entries[i0].0 == a);
        }
        if a != key && has_key(entries, a) {
            let i0 = position(entries, a);
            let i = if i0 < at {
                i0
            } else {
                i0 - 1
            };
            assert(rest[i] == entries[i0]);
            assert(rest[i].0 == a);
        }
    }
    assert forall|a: Address| has_key(rest, a) implies #[trigger] as_map(rest)[a] == as_map(
        entries,
    )[a] by {
        let i = position(rest, a);
        let i0 = if i < at {
            i
        } else {
            i + 1
        };
        assert(rest[i] == entries[i0]);
        lemma_entry_found(rest, i);
        lemma_entry_found(entries, i0);
    }
    assert(as_map(rest) =~= as_map(entries).remove(key));
}

/// A map from addresses to values, kept as a list of entries with distinct
/// keys.
pub struct AddressMap<V> {
    entries: Vec<(Address, V)>,
}

impl<V> AddressMap<V> {
    /// The map that is held.
    pub closed spec fn view(&self) -> Map<Address, V> {
        as_map(self.entries@)
    }

    #[verifier::type_invariant]
    spec fn inv(self) -> bool {
        distinct_keys(self.entries@)
    }

    /// The empty map.
    pub fn new() -> (m: Self)
        ensures
            m@ == Map::<Address, V>::empty(),
    {
        let m = AddressMap { entries: Vec::new() };
        assert(m@ =~= Map::<Address, V>::empty());
        m
    }

    /// The position of the entry under `key`, if there is one.
    fn find(&self, key: Address) -> (r: Option<usize>)
        ensures
            match r {
                Some(i) => i < self.entries@.len() && self.entries@[i as int].0 == key,
                None => !has_key(self.entries@, key),
            },
    {
        let mut i: usize = 0;
        while i < self.entries.len()
            invariant
                i <= self.entries@.len(),
                forall|j: int| 0 <= j < i ==> self.entries@[j].0 != key,
            decreases self.entries@.len() - i,
        {
            if self.entries[i].0 == key {
                return Some(i);
            }
            i += 1;
        }
        None
    }

    /// Whether there is a value under `key`.
    pub fn contains_key(&self, key: Address) -> (r: bool)
        ensures
            r == self@.contains_key(key),
    {
        self.find(key).is_some()
    }

    /// The value under `key`, if there is one.
    pub fn get(&self, key: Address) -> (r: Option<&V>)
        ensures
            match r {
                Some(value) => self@.contains_key(key) && *value == self@[key],
                None => !self@.contains_key(key),
            },
    {
        proof {
            use_type_invariant(self);
        }
        match self.find(key) {
            Some(i) => {
                proof {
                    lemma_entry_found(self.entries@, i as int);
                }
                Some(&self.entries[i].1)
            },
            None => None,
        }
    }

    /// Puts `value` under `key`, in place of what was there.
    pub fn insert(&mut self, key: Address, value: V)
        ensures
            final(self)@ == old(self)@.insert(key, value),
    {
        proof {
            use_type_invariant(&*self);
        }
        let found = self.find(key);
        let mut entries: Vec<(Address, V)> = Vec::new();
        std::mem::swap(&mut entries, &mut self.entries);
        match found {
            Some(i) => {
                proof {
                    lemma_remove_removes(entries@, i as int);
                    lemma_push_inserts(entries@.remove(i as int), key, value);
                    assert(old(self)@.remove(key).insert(key, value) =~= old(self)@.insert(
                        key,
                        value,
                    ));
                }
                entries.remove(i);
            },
            None => {
                proof {
                    lemma_push_inserts(entries@, key, value);
                }
            },
        }
        entries.push((key, value));
        self.entries = entries;
    }

    /// Takes away what is under `key`, if anything.
    pub fn remove(&mut self, key: Address)
        ensures
            final(self)@ == old(self)@.remove(key),
    {
        proof {
            use_type_invariant(&*self);
        }
        match self.find(key) {
            Some(i) => {
                let mut entries: Vec<(Address, V)> = Vec::new();
                std::mem::swap(&mut entries, &mut self.entries);
                proof {
                    lemma_remove_removes(entries@, i as int);
                }
                entries.remove(i);
                self.entries = entries;
            },
            None => {
                assert(old(self)@.remove(key) =~= old(self)@);
            },
        }
    }
}

} // verus!
