//! A small map from texts to values, kept as a list in which no key occurs
//! twice.

use crate::text;
use vstd::prelude::*;

verus! {

/// A map from texts to values.
#[derive(Debug, PartialEq, Eq)]
pub struct Table<V> {
    entries: Vec<(String, V)>,
}

impl<V> View for Table<V> {
    type V = Map<Seq<char>, V>;

    closed spec fn view(&self) -> Map<Seq<char>, V> {
        Map::new(
            |key: Seq<char>| exists|i: int| 0 <= i < self.entries@.len() && self.entries@[i].0@ == key,
            |key: Seq<char>|
                self.entries@[choose|i: int|
                    0 <= i < self.entries@.len() && self.entries@[i].0@ == key].1,
        )
    }
}

impl<V> Table<V> {
    /// No key occurs twice.
    pub closed spec fn wf(&self) -> bool {
        forall|i: int, j: int|
            0 <= i < j < self.entries@.len() ==> (#[trigger] self.entries@[i]).0@ != (
            #[trigger] self.entries@[j]).0@
    }

    /// The key at a position of the list.
    pub closed spec fn key_at(&self, i: int) -> Seq<char> {
        self.entries@[i].0@
    }

    /// How many keys there are.
    pub closed spec fn size(&self) -> nat {
        self.entries@.len()
    }

    proof fn lemma_entry(&self, i: int)
        requires
            self.wf(),
            0 <= i < self.entries@.len(),
        ensures
            self@.dom().contains(self.entries@[i].0@),
            self@[self.entries@[i].0@] == self.entries@[i].1,
    {
        let key = self.entries@[i].0@;
        let k = choose|k: int| 0 <= k < self.entries@.len() && self.entries@[k].0@ == key;
        assert(self.entries@[k].0@ == key);
        if k < i {
            assert(self.entries@[k].0@ != self.entries@[i].0@);
        } else if i < k {
            assert(self.entries@[i].0@ != self.entries@[k].0@);
        }
    }

    /// The keys of the list are the keys of the map.
    pub proof fn lemma_keys(&self)
        requires
            self.wf(),
        ensures
            forall|i: int| 0 <= i < self.size() ==> self@.dom().contains(#[trigger] self.key_at(i)),
            forall|key: Seq<char>| #[trigger]
                self@.dom().contains(key) ==> exists|i: int|
                    0 <= i < self.size() && self.key_at(i) == key,
            forall|i: int, j: int|
                0 <= i < j < self.size() ==> #[trigger] self.key_at(i) != #[trigger] self.key_at(j),
    {
        assert forall|i: int| 0 <= i < self.size() implies self@.dom().contains(
            #[trigger] self.key_at(i),
        ) by {
            self.lemma_entry(i);
        }
        assert forall|key: Seq<char>| #[trigger] self@.dom().contains(key) implies exists|i: int|
            0 <= i < self.size() && self.key_at(i) == key by {
            let i = choose|i: int| 0 <= i < self.entries@.len() && self.entries@[i].0@ == key;
            assert(self.key_at(i) == key);
        }
    }

    /// A map without keys.
    pub fn new() -> (r: Self)
        ensures
            r.wf(),
            r@ == Map::<Seq<char>, V>::empty(),
            r.size() == 0,
    {
        let r = Table { entries: Vec::new() };
        assert(r@ =~= Map::<Seq<char>, V>::empty());
        r
    }

    /// How many keys there are.
    pub fn len(&self) -> (r: usize)
        ensures
            r == self.size(),
    {
        self.entries.len()
    }

    /// The key at a position of the list.
    pub fn key(&self, i: usize) -> (r: &str)
        requires
            i < self.size(),
        ensures
            r@ == self.key_at(i as int),
    {
        self.entries[i].0.as_str()
    }

    /// The value at a position of the list.
    pub fn value(&self, i: usize) -> (r: &V)
        requires
            self.wf(),
            i < self.size(),
        ensures
            self@.dom().contains(self.key_at(i as int)),
            *r == self@[self.key_at(i as int)],
    {
        proof {
            self.lemma_entry(i as int);
        }
        &self.entries[i].1
    }

    /// The position of a key, or the number of keys.
    fn find(&self, key: &str) -> (r: usize)
        requires
            self.wf(),
        ensures
            r <= self.entries@.len(),
            r < self.entries@.len() ==> self.entries@[r as int].0@ == key@,
            r == self.entries@.len() ==> !self@.dom().contains(key@),
    {
        let mut i: usize = 0;
        while i < self.entries.len()
            invariant
                i <= self.entries@.len(),
                forall|k: int| 0 <= k < i ==> (#[trigger] self.entries@[k]).0@ != key@,
            decreases self.entries@.len() - i,
        {
            if text::same_text(self.entries[i].0.as_str(), key) {
                return i;
            }
            i += 1;
        }
        i
    }

    /// The value of a key.
    pub fn get(&self, key: &str) -> (r: Option<&V>)
        requires
            self.wf(),
        ensures
            match r {
                Some(value) => self@.dom().contains(key@) && *value == self@[key@],
                None => !self@.dom().contains(key@),
            },
    {
        let i = self.find(key);
        if i < self.entries.len() {
            proof {
                self.lemma_entry(i as int);
            }
            Some(&self.entries[i].1)
        } else {
            None
        }
    }

    /// Whether the key has a value.
    pub fn contains(&self, key: &str) -> (r: bool)
        requires
            self.wf(),
        ensures
            r == self@.dom().contains(key@),
    {
        let i = self.find(key);
        proof {
            if i < self.entries@.len() {
                self.lemma_entry(i as int);
            }
        }
        i < self.entries.len()
    }

    /// Gives a key a value; the value it had is dropped.
    pub fn insert(&mut self, key: &str, value: V)
        requires
            old(self).wf(),
        ensures
            final(self).wf(),
            final(self)@ == old(self)@.insert(key@, value),
    {
        let i = self.find(key);
        let ghost before = *self;
        if i < self.entries.len() {
            self.entries.set(i, (key.to_owned(), value));
            proof {
                assert forall|a: int, b: int| 0 <= a < b < self.entries@.len() implies (
                #[trigger] self.entries@[a]).0@ != (#[trigger] self.entries@[b]).0@ by {
                    assert(before.entries@[a].0@ != before.entries@[b].0@);
                }
            }
        } else {
            self.entries.push((key.to_owned(), value));
            proof {
                assert forall|a: int, b: int| 0 <= a < b < self.entries@.len() implies (
                #[trigger] self.entries@[a]).0@ != (#[trigger] self.entries@[b]).0@ by {
                    if b < before.entries@.len() {
                        assert(before.entries@[a].0@ != before.entries@[b].0@);
                    } else {
                        before.lemma_entry(a);
                    }
                }
            }
        }
        proof {
            let after = *self;
            assert forall|k: Seq<char>| after@.dom().contains(k) == before@.insert(
                key@,
                value,
            ).dom().contains(k) by {
                if after@.dom().contains(k) {
                    let a = choose|a: int|
                        0 <= a < after.entries@.len() && after.entries@[a].0@ == k;
                    if a != i {
                        before.lemma_entry(a);
                    }
                }
                if k == key@ {
                    after.lemma_entry(i as int);
                } else if before@.dom().contains(k) {
                    let a = choose|a: int|
                        0 <= a < before.entries@.len() && before.entries@[a].0@ == k;
                    assert(after.entries@[a].0@ == k);
                }
            }
            assert forall|k: Seq<char>| after@.dom().contains(k) implies after@[k]
                == before@.insert(key@, value)[k] by {
                let a = choose|a: int| 0 <= a < after.entries@.len() && after.entries@[a].0@ == k;
                after.lemma_entry(a);
                if a != i {
                    before.lemma_entry(a);
                    after.lemma_entry(i as int);
                    assert(after.entries@[i as int].0@ == key@);
                }
            }
            assert(after@ =~= before@.insert(key@, value));
        }
    }

    /// Takes a key out of the map, with its value.
    pub fn remove(&mut self, key: &str) -> (r: Option<V>)
        requires
            old(self).wf(),
        ensures
            final(self).wf(),
            final(self)@ == old(self)@.remove(key@),
            match r {
                Some(value) => old(self)@.dom().contains(key@) && value == old(self)@[key@],
                None => !old(self)@.dom().contains(key@),
            },
    {
        let i = self.find(key);
        let ghost before = *self;
        if i < self.entries.len() {
            let (_, value) = self.entries.remove(i);
            proof {
                before.lemma_entry(i as int);
                let after = *self;
                assert forall|a: int, b: int| 0 <= a < b < after.entries@.len() implies (
                #[trigger] after.entries@[a]).0@ != (#[trigger] after.entries@[b]).0@ by {
                    let x = if a < i { a } else { a + 1 };
                    let y = if b < i { b } else { b + 1 };
                    assert(before.entries@[x].0@ != before.entries@[y].0@);
                }
                assert forall|k: Seq<char>| after@.dom().contains(k) == before@.remove(
                    key@,
                ).dom().contains(k) by {
                    if after@.dom().contains(k) {
                        let a = choose|a: int|
                            0 <= a < after.entries@.len() && after.entries@[a].0@ == k;
                        let x = if a < i { a } else { a + 1 };
                        before.lemma_entry(x);
                        assert(before.entries@[x].0@ == k);
                        assert(before.entries@[x].0@ != before.entries@[i as int].0@);
                    }
                    if before@.dom().contains(k) && k != key@ {
                        let x = choose|x: int|
                            0 <= x < before.entries@.len() && before.entries@[x].0@ == k;
                        let a = if x < i { x } else { x - 1 };
                        assert(after.entries@[a].0@ == k);
                    }
                }
                assert forall|k: Seq<char>| after@.dom().contains(k) implies after@[k]
                    == before@.remove(key@)[k] by {
                    let a = choose|a: int|
                        0 <= a < after.entries@.len() && after.entries@[a].0@ == k;
                    let x = if a < i { a } else { a + 1 };
                    after.lemma_entry(a);
                    before.lemma_entry(x);
                }
                assert(after@ =~= before@.remove(key@));
            }
            Some(value)
        } else {
            assert(self@ =~= before@.remove(key@));
            None
        }
    }
}

/// What is put into a table under a key is found there, and nothing else changes; what is taken
/// out is handed out and gone.
pub proof fn law_tables_keep_what_is_put_in<V>(key: &str, other: Seq<char>, value: V)
    ensures
        forall|t: &mut Table<V>, r: ()|
            #![trigger call_ensures(Table::<V>::insert, (t, key, value), r)]
            call_ensures(Table::<V>::insert, (t, key, value), r) ==> {
                &&& final(t)@.dom().contains(key@) && final(t)@[key@] == value
                &&& other != key@ ==> final(t)@.dom().contains(other) == (*t)@.dom().contains(other)
                &&& other != key@ && (*t)@.dom().contains(other) ==> final(t)@[other] == (*t)@[other]
            },
        forall|t: &mut Table<V>, r: Option<V>|
            #![trigger call_ensures(Table::<V>::remove, (t, key), r)]
            call_ensures(Table::<V>::remove, (t, key), r) ==> {
                &&& !final(t)@.dom().contains(key@)
                &&& r is Some <==> (*t)@.dom().contains(key@)
                &&& r matches Some(taken) ==> taken == (*t)@[key@]
                &&& other != key@ ==> final(t)@.dom().contains(other) == (*t)@.dom().contains(other)
            },
        forall|t: &Table<V>, r: Option<&V>|
            #![trigger call_ensures(Table::<V>::get, (t, key), r)]
            call_ensures(Table::<V>::get, (t, key), r) ==> {
                &&& r is Some <==> t@.dom().contains(key@)
                &&& r matches Some(found) ==> *found == t@[key@]
            },
        forall|t: &Table<V>, r: bool|
            #![trigger call_ensures(Table::<V>::contains, (t, key), r)]
            call_ensures(Table::<V>::contains, (t, key), r) ==> (r <==> t@.dom().contains(key@)),
{
}

}
