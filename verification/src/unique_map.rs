//! Maps with few entries.

use crate::index::push_item;
use crate::oid::Oid;
use vstd::prelude::*;

verus! {

/// What can be looked up.
pub trait MapKey: DeepView + Sized {
    /// Whether two keys are the same.
    fn same(&self, other: &Self) -> (r: bool)
        ensures
            r == (self.deep_view() == other.deep_view()),
    ;
}

impl MapKey for Oid {
    fn same(&self, other: &Oid) -> (r: bool) {
        self.same_bytes(other)
    }
}

impl MapKey for String {
    fn same(&self, other: &String) -> (r: bool) {
        *self == *other
    }
}

/// A map: no key occurs twice.
#[derive(Debug)]
pub struct UniqueMap<K: MapKey, T: DeepView> {
    items: Vec<(K, T)>,
}

/// The values of a list by their keys.
spec fn by_key<Key, V>(items: Seq<(Key, V)>) -> Map<Key, V> {
    Map::new(
        |key: Key| exists|i: int| 0 <= i < items.len() && (#[trigger] items[i]).0 == key,
        |key: Key| items[choose|i: int| 0 <= i < items.len() && (#[trigger] items[i]).0 == key].1,
    )
}

/// Whether no key occurs twice.
spec fn keys_differ<Key, V>(items: Seq<(Key, V)>) -> bool {
    forall|i: int, j: int|
        #![trigger items[i], items[j]]
        0 <= i < j < items.len() ==> items[i].0 != items[j].0
}

impl<K: MapKey, T: DeepView> View for UniqueMap<K, T> {
    type V = Map<K::V, T::V>;

    closed spec fn view(&self) -> Map<K::V, T::V> {
        by_key(self.items.deep_view())
    }
}

/// The value under a key, if there is one.
pub open spec fn lookup<Key, V>(map: Map<Key, V>, key: Key) -> Option<V> {
    if map.dom().contains(key) {
        Some(map[key])
    } else {
        None
    }
}

impl<K: MapKey, T: DeepView> UniqueMap<K, T> {
    #[verifier::type_invariant]
    spec fn one_for_each_key(self) -> bool {
        keys_differ(self.items.deep_view())
    }

    /// The empty map.
    pub fn new() -> (r: UniqueMap<K, T>)
        ensures
            r@ == Map::<K::V, T::V>::empty(),
    {
        let r = UniqueMap { items: Vec::new() };
        assert(r@ =~= Map::<K::V, T::V>::empty());
        r
    }

    /// The place of a key.
    fn find(&self, key: &K) -> (r: Option<usize>)
        ensures
            match r {
                Some(i) => i < self.items@.len() && self.items@[i as int].0.deep_view() == key.deep_view(),
                None => forall|i: int|
                    0 <= i < self.items@.len() ==> (#[trigger] self.items@[i]).0.deep_view() != key.deep_view(),
            },
    {
        for i in 0..self.items.len()
            invariant
                forall|j: int| 0 <= j < i ==> (#[trigger] self.items@[j]).0.deep_view() != key.deep_view(),
        {
            if self.items[i].0.same(key) {
                return Some(i);
            }
        }
        None
    }

    /// The value under a key.
    pub fn get(&self, key: &K) -> (r: Option<&T>)
        ensures
            r.deep_view() == lookup(self@, key.deep_view()),
    {
        proof {
            use_type_invariant(self);
        }
        let ghost items = self.items.deep_view();
        match self.find(key) {
            Some(i) => {
                assert(items[i as int].0 == key.deep_view());
                let ghost j = choose|j: int|
                    0 <= j < items.len() && (#[trigger] items[j]).0 == key.deep_view();
                assert(i == j);
                Some(&self.items[i].1)
            },
            None => {
                assert forall|j: int| 0 <= j < items.len() implies (#[trigger] items[j]).0
                    != key.deep_view() by {
                    assert(items[j].0 == self.items@[j].0.deep_view());
                }
                None
            },
        }
    }

    /// Keeps a value under a key, in place of what was there.
    pub fn insert(&mut self, key: K, value: T)
        ensures
            final(self)@ == old(self)@.insert(key.deep_view(), value.deep_view()),
    {
        proof {
            use_type_invariant(&*self);
        }
        let ghost before = self.items.deep_view();
        let ghost new = (key.deep_view(), value.deep_view());
        let place = self.find(&key);
        let mut items: Vec<(K, T)> = Vec::new();
        std::mem::swap(&mut items, &mut self.items);
        match place {
            Some(i) => {
                items.set(i, (key, value));
                assert(items.deep_view() == before.update(i as int, new));
                proof {
                    lemma_update(before, i as int, new);
                }
            },
            None => {
                push_item(&mut items, (key, value));
                assert forall|j: int| 0 <= j < before.len() implies (#[trigger] before[j]).0
                    != key.deep_view() by {
                    assert(before[j].0 == old(self).items@[j].0.deep_view());
                }
                proof {
                    lemma_push(before, new);
                }
            },
        }
        self.items = items;
    }
}

proof fn lemma_push<Key, V>(items: Seq<(Key, V)>, new: (Key, V))
    requires
        keys_differ(items),
        forall|j: int| 0 <= j < items.len() ==> (#[trigger] items[j]).0 != new.0,
    ensures
        keys_differ(items.push(new)),
        by_key(items.push(new)) == by_key(items).insert(new.0, new.1),
{
    let after = items.push(new);
    assert forall|key: Key| by_key(after).dom().contains(key) == by_key(items).insert(
        new.0,
        new.1,
    ).dom().contains(key) by {
        if exists|i: int| 0 <= i < items.len() && (#[trigger] items[i]).0 == key {
            let i = choose|i: int| 0 <= i < items.len() && (#[trigger] items[i]).0 == key;
            assert(after[i].0 == key);
        }
        assert(after[items.len() as int].0 == new.0);
    }
    assert forall|key: Key| by_key(after).dom().contains(key) implies by_key(after)[key] == by_key(
        items,
    ).insert(new.0, new.1)[key] by {
        let k = choose|i: int| 0 <= i < after.len() && (#[trigger] after[i]).0 == key;
        if key != new.0 {
            let m = choose|i: int| 0 <= i < items.len() && (#[trigger] items[i]).0 == key;
            assert(items[k].0 == key);
            assert(k == m);
        } else {
            assert(k == items.len());
        }
    }
    assert(by_key(after) =~= by_key(items).insert(new.0, new.1));
}

proof fn lemma_update<Key, V>(items: Seq<(Key, V)>, p: int, new: (Key, V))
    requires
        keys_differ(items),
        0 <= p < items.len(),
        items[p].0 == new.0,
    ensures
        keys_differ(items.update(p, new)),
        by_key(items.update(p, new)) == by_key(items).insert(new.0, new.1),
{
    let after = items.update(p, new);
    assert forall|i: int, j: int|
        #![trigger after[i], after[j]]
        0 <= i < j < after.len() implies after[i].0 != after[j].0 by {
        assert(after[i].0 == items[i].0 && after[j].0 == items[j].0);
    }
    assert forall|key: Key| by_key(after).dom().contains(key) == by_key(items).insert(
        new.0,
        new.1,
    ).dom().contains(key) by {
        if exists|i: int| 0 <= i < items.len() && (#[trigger] items[i]).0 == key {
            let i = choose|i: int| 0 <= i < items.len() && (#[trigger] items[i]).0 == key;
            assert(after[i].0 == key);
        }
        if exists|i: int| 0 <= i < after.len() && (#[trigger] after[i]).0 == key {
            let i = choose|i: int| 0 <= i < after.len() && (#[trigger] after[i]).0 == key;
            assert(items[i].0 == key);
        }
        assert(after[p].0 == new.0);
    }
    assert forall|key: Key| by_key(after).dom().contains(key) implies by_key(after)[key] == by_key(
        items,
    ).insert(new.0, new.1)[key] by {
        let k = choose|i: int| 0 <= i < after.len() && (#[trigger] after[i]).0 == key;
        assert(items[k].0 == key);
        if key != new.0 {
            let m = choose|i: int| 0 <= i < items.len() && (#[trigger] items[i]).0 == key;
            assert(k == m);
        } else {
            assert(k == p);
        }
    }
    assert(by_key(after) =~= by_key(items).insert(new.0, new.1));
}

} // verus!
