use vstd::prelude::*;

verus! {

/// A key of an [`OrderedMap`]: a value that is compared by its view.
pub trait MapKey: View + Sized {
    /// Whether two keys stand for the same entry.
    fn same_key(&self, other: &Self) -> (b: bool)
        ensures
            b == (self@ == other@),
    ;
}

impl MapKey for usize {
    fn same_key(&self, other: &Self) -> (b: bool) {
        *self == *other
    }
}

impl MapKey for u128 {
    fn same_key(&self, other: &Self) -> (b: bool) {
        *self == *other
    }
}

impl MapKey for String {
    fn same_key(&self, other: &Self) -> (b: bool) {
        *self == *other
    }
}

/// A map that keeps its keys in the order in which they were first inserted.
///
/// It is read through [`Self::keys`], the keys in that order, and through its view, the
/// mathematical map from each key to its value.
pub struct OrderedMap<K: MapKey, V> {
    keys: Vec<K>,
    vals: Vec<V>,
}

impl<K: MapKey, V> View for OrderedMap<K, V> {
    type V = Map<K::V, V>;

    closed spec fn view(&self) -> Map<K::V, V> {
        Map::new(
            |k: K::V| self.keys().contains(k),
            |k: K::V| self.vals@[self.keys().index_of(k)],
        )
    }
}

impl<K: MapKey, V> OrderedMap<K, V> {
    /// The keys, in the order of their insertion.
    pub closed spec fn keys(&self) -> Seq<K::V> {
        Seq::new(self.keys@.len(), |i: int| self.keys@[i]@)
    }

    /// No key occurs twice, and each key has its value.
    pub closed spec fn wf(&self) -> bool {
        self.keys().no_duplicates() && self.keys@.len() == self.vals@.len()
    }

    /// Whether the map holds `key`.
    pub open spec fn has(&self, key: K::V) -> bool {
        self.keys().contains(key)
    }

    /// The values, each at the position of its key in [`Self::keys`].
    pub open spec fn values(&self) -> Seq<V> {
        Seq::new(self.keys().len(), |i: int| self@[self.keys()[i]])
    }

    /// The view holds the keys of [`Self::keys`] and no others.
    pub proof fn lemma_dom(&self)
        ensures
            self@.dom() =~= self.keys().to_set(),
            forall|k: K::V| #[trigger] self@.dom().contains(k) <==> self.keys().contains(k),
            self@.dom().finite(),
    {
        vstd::seq_lib::seq_to_set_is_finite(self.keys());
        assert(self@.dom() =~= self.keys().to_set());
    }

    /// No key occurs twice.
    pub proof fn lemma_keys(&self)
        requires
            self.wf(),
        ensures
            self.keys().no_duplicates(),
    {
    }

    /// The value at each position is the value of the key at that position.
    pub proof fn lemma_values_view(&self)
        ensures
            self.values().len() == self.keys().len(),
            forall|i: int|
                0 <= i < self.keys().len() ==> #[trigger] self.values()[i] == self@[self.keys()[i]],
    {
    }

    proof fn lemma_entry(&self, i: int)
        requires
            self.wf(),
            0 <= i < self.keys@.len(),
        ensures
            self.keys()[i] == self.keys@[i]@,
            self.keys().contains(self.keys()[i]),
            self.keys().index_of(self.keys()[i]) == i,
            self@.dom().contains(self.keys()[i]),
            self@[self.keys()[i]] == self.vals@[i],
    {
        let k = self.keys()[i];
        assert(self.keys().contains(k));
        let j = self.keys().index_of(k);
        assert(0 <= j < self.keys().len() && self.keys()[j] == k);
    }

    /// The empty map.
    pub fn new() -> (m: Self)
        ensures
            m.wf(),
            m.keys() == Seq::<K::V>::empty(),
            m@ == Map::<K::V, V>::empty(),
    {
        let m = OrderedMap { keys: Vec::new(), vals: Vec::new() };
        assert(m.keys() =~= Seq::<K::V>::empty());
        assert(m@ =~= Map::<K::V, V>::empty());
        m
    }

    /// The number of keys.
    pub fn len(&self) -> (n: usize)
        ensures
            n == self.keys().len(),
    {
        self.keys.len()
    }

    /// Whether the map holds no key.
    pub fn is_empty(&self) -> (b: bool)
        ensures
            b == (self.keys().len() == 0),
    {
        self.keys.len() == 0
    }

    /// The position of `key` among the keys, if the map holds it.
    pub fn position(&self, key: &K) -> (r: Option<usize>)
        ensures
            r is Some == self.has(key@),
            r is Some ==> r->0 < self.keys().len() && self.keys()[r->0 as int] == key@,
    {
        let mut i: usize = 0;
        while i < self.keys.len()
            invariant
                i <= self.keys.len(),
                forall|j: int| 0 <= j < i ==> self.keys()[j] != key@,
            decreases self.keys.len() - i,
        {
            if self.keys[i].same_key(key) {
                assert(self.keys()[i as int] == key@);
                return Some(i);
            }
            i += 1;
        }
        None
    }

    /// Whether the map holds `key`.
    pub fn contains_key(&self, key: &K) -> (b: bool)
        ensures
            b == self.has(key@),
            b == self@.dom().contains(key@),
    {
        proof {
            self.lemma_dom();
        }
        self.position(key).is_some()
    }

    /// The key at position `i`.
    pub fn key_at(&self, i: usize) -> (k: &K)
        requires
            i < self.keys().len(),
        ensures
            k@ == self.keys()[i as int],
    {
        &self.keys[i]
    }

    /// The value at position `i`.
    pub fn value_at(&self, i: usize) -> (v: &V)
        requires
            self.wf(),
            i < self.keys().len(),
        ensures
            *v == self@[self.keys()[i as int]],
            self@.dom().contains(self.keys()[i as int]),
    {
        proof {
            self.lemma_entry(i as int);
        }
        &self.vals[i]
    }

    /// The keys as they are stored, in the order of [`Self::keys`].
    pub fn keys_vec(&self) -> (r: &Vec<K>)
        ensures
            r@.map_values(|k: K| k@) == self.keys(),
    {
        assert(self.keys@.map_values(|k: K| k@) =~= self.keys());
        &self.keys
    }

    /// The values as they are stored, in the order of [`Self::values`].
    pub fn values_vec(&self) -> (r: &Vec<V>)
        requires
            self.wf(),
        ensures
            r@ == self.values(),
    {
        proof {
            assert forall|i: int| 0 <= i < self.keys@.len() implies self.vals@[i]
                == self.values()[i] by {
                self.lemma_entry(i);
            }
            assert(self.vals@ =~= self.values());
        }
        &self.vals
    }

    /// The value at position `i`, to be changed in place.
    pub fn value_at_mut(&mut self, i: usize) -> (v: &mut V)
        requires
            old(self).wf(),
            i < old(self).keys().len(),
        ensures
            *v == old(self)@[old(self).keys()[i as int]],
            final(self).keys() == old(self).keys(),
            final(self)@ == old(self)@.insert(old(self).keys()[i as int], *final(v)),
            final(self).wf(),
    {
        proof {
            self.lemma_entry(i as int);
            assert forall|j: int| 0 <= j < self.keys@.len() implies self.keys().index_of(
                #[trigger] self.keys()[j],
            ) == j by {
                self.lemma_entry(j);
            }
        }
        &mut self.vals[i]
    }

    /// The value of `key`, if the map holds it.
    pub fn get(&self, key: &K) -> (r: Option<&V>)
        requires
            self.wf(),
        ensures
            r is Some == self@.dom().contains(key@),
            r is Some ==> *r->0 == self@[key@],
    {
        match self.position(key) {
            Some(i) => {
                proof {
                    self.lemma_entry(i as int);
                }
                Some(&self.vals[i])
            },
            None => None,
        }
    }

    /// Sets the value of `key`. A key that is new goes to the end; one that is held keeps
    /// its place, and its former value is returned.
    pub fn insert(&mut self, key: K, value: V) -> (r: Option<V>)
        requires
            old(self).wf(),
        ensures
            final(self).wf(),
            final(self)@ == old(self)@.insert(key@, value),
            final(self).keys() == if old(self).has(key@) {
                old(self).keys()
            } else {
                old(self).keys().push(key@)
            },
            r is Some == old(self).has(key@),
            r is Some ==> r->0 == old(self)@[key@],
    {
        let ghost k = key@;
        match self.position(&key) {
            Some(i) => {
                proof {
                    self.lemma_entry(i as int);
                }
                self.vals.push(value);
                let old_value = self.vals.swap_remove(i);
                assert(self.keys() =~= old(self).keys());
                assert(self@ =~= old(self)@.insert(k, value)) by {
                    assert forall|x: K::V| self.keys().contains(x) implies #[trigger] self@[x] == (
                    if x == k {
                        value
                    } else {
                        old(self)@[x]
                    }) by {
                        let j = self.keys().index_of(x);
                        if x == k {
                            assert(self.keys()[i as int] == k);
                        }
                    }
                }
                Some(old_value)
            },
            None => {
                self.keys.push(key);
                self.vals.push(value);
                assert(self.keys() =~= old(self).keys().push(k));
                assert(self@ =~= old(self)@.insert(k, value)) by {
                    let n = old(self).keys().len() as int;
                    assert(self.keys()[n] == k);
                    assert forall|x: K::V| self.keys().contains(x) implies #[trigger] self@[x] == (
                    if x == k {
                        value
                    } else {
                        old(self)@[x]
                    }) by {
                        let j = self.keys().index_of(x);
                        if x != k {
                            assert(j != n);
                            assert(old(self).keys()[j] == x);
                            let j0 = old(self).keys().index_of(x);
                            assert(self.keys()[j0] == x);
                        }
                    }
                    assert forall|x: K::V| old(self).keys().contains(x) implies self.keys().contains(
                        x,
                    ) by {
                        let j0 = old(self).keys().index_of(x);
                        assert(self.keys()[j0] == x);
                    }
                }
                None
            },
        }
    }

    /// Takes out the key at position `i` and its value; the keys behind it move up by
    /// one.
    pub fn remove_at(&mut self, i: usize) -> (r: (K, V))
        requires
            old(self).wf(),
            i < old(self).keys().len(),
        ensures
            final(self).wf(),
            r.0@ == old(self).keys()[i as int],
            r.1 == old(self)@[old(self).keys()[i as int]],
            final(self)@ == old(self)@.remove(old(self).keys()[i as int]),
            final(self).keys() == old(self).keys().remove(i as int),
            !final(self).has(old(self).keys()[i as int]),
    {
        let ghost k = self.keys()[i as int];
        proof {
            self.lemma_entry(i as int);
        }
        let key = self.keys.remove(i);
        let value = self.vals.remove(i);
        proof {
            assert(self.keys() =~= old(self).keys().remove(i as int));
            assert forall|x: K::V| self.keys().contains(x) <==> (old(self).keys().contains(x) && x
                != k) by {
                if self.keys().contains(x) {
                    let j = self.keys().index_of(x);
                    let jj = if j < i { j } else { j + 1 };
                    assert(old(self).keys()[jj] == x);
                }
                if old(self).keys().contains(x) && x != k {
                    let j = old(self).keys().index_of(x);
                    let jj = if j < i { j } else { j - 1 };
                    assert(self.keys()[jj] == x);
                }
            }
            assert(self@ =~= old(self)@.remove(k)) by {
                assert forall|x: K::V| self.keys().contains(x) implies #[trigger] self@[x] == old(
                    self,
                )@[x] by {
                    let j = self.keys().index_of(x);
                    let jj = if j < i { j } else { j + 1 };
                    assert(old(self).keys()[jj] == x);
                    let j0 = old(self).keys().index_of(x);
                    assert(j0 == jj);
                }
            }
        }
        (key, value)
    }

    /// Takes `key` and its value out; the keys behind it move up by one.
    pub fn remove(&mut self, key: &K) -> (r: Option<V>)
        requires
            old(self).wf(),
        ensures
            final(self).wf(),
            final(self)@ == old(self)@.remove(key@),
            final(self).keys() == old(self).keys().remove_value(key@),
            r is Some == old(self).has(key@),
            r is Some ==> r->0 == old(self)@[key@],
    {
        let ghost k = key@;
        proof {
            old(self).keys().index_of_first_ensures(k);
        }
        match self.position(key) {
            Some(i) => {
                assert(old(self).keys().index_of_first(k) == Some(i as int));
                let r = self.remove_at(i);
                Some(r.1)
            },
            None => {
                proof {
                    assert(self@ =~= old(self)@.remove(k));
                }
                None
            },
        }
    }
}

} // verus!
