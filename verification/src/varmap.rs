//! A map from names to values whose slots are recycled through a free list, with
//! an optional parent map that lookups fall back to (an enclosing scope).
use vstd::prelude::*;

verus! {

#[derive(Debug)]
pub struct Varmap<V> {
    storage: Vec<Option<(String, V)>>,
    free_list: Vec<usize>,
    parent: Option<Box<Varmap<V>>>,
}

/// The name held by a slot.
pub open spec fn slot_key<V>(o: Option<(String, V)>) -> Seq<char> {
    match o {
        Some((k, _)) => k@,
        None => Seq::empty(),
    }
}

/// The value held by a slot.
pub open spec fn slot_value<V>(o: Option<(String, V)>) -> V {
    match o {
        Some((_, v)) => v,
        None => arbitrary(),
    }
}

/// Whether slot `i` holds the name `k`.
pub open spec fn slot_has<V>(s: Seq<Option<(String, V)>>, i: int, k: Seq<char>) -> bool {
    s[i] is Some && slot_key(s[i]) == k
}

impl<V> Varmap<V> {
    /// Names occur at most once among the slots; the free list holds distinct
    /// empty slots; the parent is well formed too.
    pub closed spec fn wf(&self) -> bool
        decreases self,
    {
        &&& forall|i: int, j: int|
            0 <= i < self.storage@.len() && 0 <= j < self.storage@.len() && i != j
                && #[trigger] self.storage@[i] is Some && #[trigger] self.storage@[j] is Some
                ==> slot_key(self.storage@[i]) != slot_key(self.storage@[j])
        &&& forall|i: int| 0 <= i < self.free_list@.len() ==> #[trigger] self.free_list@[i] < self.storage@.len()
            && self.storage@[self.free_list@[i] as int] is None
        &&& forall|i: int, j: int| 0 <= i < j < self.free_list@.len() ==> self.free_list@[i] != self.free_list@[j]
        &&& match self.parent {
            Some(p) => p.wf(),
            None => true,
        }
    }

    /// The names held by this map itself, with their values.
    pub closed spec fn local(&self) -> Map<Seq<char>, V> {
        Map::new(
            |k: Seq<char>| exists|i: int| 0 <= i < self.storage@.len() && slot_has(self.storage@, i, k),
            |k: Seq<char>| slot_value(self.storage@[choose|i: int| 0 <= i < self.storage@.len() && slot_has(self.storage@, i, k)]),
        )
    }

    /// The parent map, if any.
    pub closed spec fn parent_map(&self) -> Option<Varmap<V>> {
        match self.parent {
            Some(p) => Some(*p),
            None => None,
        }
    }

    /// The value that a lookup of `k` finds: this map's own, else the parent's.
    pub open spec fn lookup(&self, k: Seq<char>) -> Option<V>
        decreases self,
    {
        if self.local().contains_key(k) {
            Some(self.local()[k])
        } else {
            match self.parent_map() {
                Some(p) => {
                    proof { self.lemma_parent_smaller(); }
                    p.lookup(k)
                },
                None => None,
            }
        }
    }

    /// The number of maps in the parent chain.
    pub open spec fn depth(&self) -> nat
        decreases self,
    {
        match self.parent_map() {
            Some(p) => {
                proof { self.lemma_parent_smaller(); }
                1 + p.depth()
            },
            None => 0,
        }
    }

    pub proof fn lemma_parent_smaller(&self)
        ensures
            self.parent_map() matches Some(p) ==> decreases_to!(self => p),
    {
        if let Some(p) = self.parent {
            assert(decreases_to!(self => self.parent));
        }
    }
}

impl<V> Varmap<V> {
    proof fn lemma_local_at(&self, i: int)
        requires
            self.wf(),
            0 <= i < self.storage@.len(),
            self.storage@[i] is Some,
        ensures
            self.local().contains_key(slot_key(self.storage@[i])),
            self.local()[slot_key(self.storage@[i])] == slot_value(self.storage@[i]),
    {
        let k = slot_key(self.storage@[i]);
        assert(slot_has(self.storage@, i, k));
        let j = choose|j: int| 0 <= j < self.storage@.len() && slot_has(self.storage@, j, k);
        assert(j == i);
    }

    proof fn lemma_local_absent(&self, k: Seq<char>)
        requires
            forall|i: int| 0 <= i < self.storage@.len() ==> !slot_has(self.storage@, i, k),
        ensures
            !self.local().contains_key(k),
    {
    }

    proof fn lemma_replace_value(&self, index: int)
        requires
            self.wf(),
            0 <= index < self.storage@.len(),
            self.storage@[index] is Some,
        ensures
            forall|m: Varmap<V>|
                m.storage@.len() == self.storage@.len() && m.storage@[index] is Some
                && slot_key(#[trigger] m.storage@[index]) == slot_key(self.storage@[index])
                && (forall|i: int| 0 <= i < self.storage@.len() && i != index ==> m.storage@[i] == self.storage@[i])
                && m.free_list == self.free_list && m.parent == self.parent
                ==> {
                    &&& m.wf()
                    &&& m.local() == self.local().insert(slot_key(self.storage@[index]), slot_value(m.storage@[index]))
                    &&& m.parent_map() == self.parent_map()
                },
    {
        assert forall|m: Varmap<V>|
            m.storage@.len() == self.storage@.len() && m.storage@[index] is Some
            && slot_key(#[trigger] m.storage@[index]) == slot_key(self.storage@[index])
            && (forall|i: int| 0 <= i < self.storage@.len() && i != index ==> m.storage@[i] == self.storage@[i])
            && m.free_list == self.free_list && m.parent == self.parent
            implies {
                &&& m.wf()
                &&& m.local() == self.local().insert(slot_key(self.storage@[index]), slot_value(m.storage@[index]))
                &&& m.parent_map() == self.parent_map()
            } by {
            let k = slot_key(self.storage@[index]);
            let nv = slot_value(m.storage@[index]);
            let s0 = self.storage@;
            assert forall|i: int, j: int|
                0 <= i < m.storage@.len() && 0 <= j < m.storage@.len() && i != j
                    && #[trigger] m.storage@[i] is Some && #[trigger] m.storage@[j] is Some
                    implies slot_key(m.storage@[i]) != slot_key(m.storage@[j]) by {
                if i == index {
                    assert(s0[j] is Some && s0[index] is Some);
                } else if j == index {
                    assert(s0[i] is Some && s0[index] is Some);
                }
            }
            assert forall|i: int| 0 <= i < m.free_list@.len() implies #[trigger] m.free_list@[i] < m.storage@.len()
                && m.storage@[m.free_list@[i] as int] is None by {
                assert(s0[self.free_list@[i] as int] is None);
            }
            assert(m.wf());
            assert forall|kk: Seq<char>| #[trigger] m.local().contains_key(kk) == self.local().insert(k, nv).contains_key(kk) by {
                if kk == k {
                    assert(slot_has(m.storage@, index, kk));
                } else {
                    if m.local().contains_key(kk) {
                        let j = choose|j: int| 0 <= j < m.storage@.len() && slot_has(m.storage@, j, kk);
                        assert(slot_has(s0, j, kk));
                    }
                    if self.local().contains_key(kk) {
                        let j = choose|j: int| 0 <= j < s0.len() && slot_has(s0, j, kk);
                        assert(slot_has(m.storage@, j, kk));
                    }
                }
            }
            assert forall|kk: Seq<char>| #[trigger] m.local().contains_key(kk) implies m.local()[kk] == self.local().insert(k, nv)[kk] by {
                let j = choose|j: int| 0 <= j < m.storage@.len() && slot_has(m.storage@, j, kk);
                if kk == k {
                    assert(slot_has(m.storage@, index, kk));
                    assert(j == index);
                } else {
                    let j2 = choose|j2: int| 0 <= j2 < s0.len() && slot_has(s0, j2, kk);
                    assert(slot_has(s0, j, kk));
                    assert(j == j2);
                }
            }
            assert(m.local() =~= self.local().insert(k, nv));
        }
    }

    /// An empty map whose lookups fall back to `parent`.
    pub fn new(parent: Option<Box<Varmap<V>>>) -> (r: Varmap<V>)
        requires
            parent matches Some(p) ==> p.wf(),
        ensures
            r.wf(),
            r.local() == Map::<Seq<char>, V>::empty(),
            r.parent_map() == (match parent {
                Some(p) => Some(*p),
                None => None::<Varmap<V>>,
            }),
    {
        let r = Varmap { storage: Vec::new(), free_list: Vec::new(), parent };
        assert(r.local() =~= Map::<Seq<char>, V>::empty());
        r
    }

    /// The slot that holds `key`, if one does.
    fn find_index(&self, key: &String) -> (r: Option<usize>)
        requires
            self.wf(),
        ensures
            r matches Some(i) ==> i < self.storage@.len() && slot_has(self.storage@, i as int, key@),
            r is None ==> forall|i: int| 0 <= i < self.storage@.len() ==> !slot_has(self.storage@, i, key@),
    {
        let mut i: usize = 0;
        while i < self.storage.len()
            invariant
                i <= self.storage@.len(),
                forall|j: int| 0 <= j < i ==> !slot_has(self.storage@, j, key@),
            decreases self.storage@.len() - i,
        {
            match &self.storage[i] {
                Some((k, _)) => {
                    if k.eq(key) {
                        return Some(i);
                    }
                },
                None => {},
            }
            i += 1;
        }
        None
    }

    /// Whether this map itself holds `key` (the parent is not asked).
    pub fn contains_key(&self, key: &String) -> (r: bool)
        requires
            self.wf(),
        ensures
            r == self.local().contains_key(key@),
    {
        match self.find_index(key) {
            Some(i) => {
                proof { self.lemma_local_at(i as int); }
                true
            },
            None => false,
        }
    }

    /// Binds `key` to `value` in this map, in the slot that holds `key`, else in
    /// the last freed slot, else in a new one.
    pub fn insert(&mut self, key: String, value: V)
        requires
            old(self).wf(),
        ensures
            final(self).wf(),
            final(self).local() == old(self).local().insert(key@, value),
            final(self).parent_map() == old(self).parent_map(),
            final(self).lookup(key@) == Some(value),
            forall|k: Seq<char>| k != key@ ==> #[trigger] final(self).lookup(k) == old(self).lookup(k),
    {
        let ghost k = key@;
        let ghost old_local = self.local();
        let ghost st0 = self.storage@;
        let ghost fl0 = self.free_list@;
        let found = self.find_index(&key);
        let index = match found {
            Some(index) => index,
            None => {
                match self.free_list.pop() {
                    Some(free_index) => {
                        assert(fl0[fl0.len() - 1] == free_index);
                        free_index
                    },
                    None => {
                        self.storage.push(None);
                        (self.storage.len() - 1) as usize
                    },
                }
            },
        };
        proof {
            assert(forall|i: int| 0 <= i < st0.len() ==> self.storage@[i] == st0[i]);
            assert(forall|i: int| 0 <= i < self.free_list@.len() ==> self.free_list@[i] == fl0[i]);
            assert(self.storage@.len() == st0.len() || self.storage@ == st0.push(None));
            assert(forall|i: int| st0.len() <= i < self.storage@.len() ==> self.storage@[i] is None);
            assert(index < self.storage@.len());
            assert(found is Some ==> slot_has(self.storage@, index as int, k));
            assert(found is None ==> self.storage@[index as int] is None);
            assert forall|i: int| found is None && 0 <= i < self.storage@.len() implies !slot_has(self.storage@, i, k) by {
                if i < st0.len() {
                    assert(!slot_has(st0, i, k));
                }
            }
            assert(forall|i: int| 0 <= i < self.free_list@.len() ==> self.free_list@[i] != index);
            assert forall|kk: Seq<char>| #[trigger] self.local().contains_key(kk) == old_local.contains_key(kk) by {
                if old_local.contains_key(kk) {
                    let j = choose|j: int| 0 <= j < st0.len() && slot_has(st0, j, kk);
                    assert(slot_has(self.storage@, j, kk));
                }
                if self.local().contains_key(kk) {
                    let j = choose|j: int| 0 <= j < self.storage@.len() && slot_has(self.storage@, j, kk);
                    assert(slot_has(st0, j, kk));
                }
            }
            assert forall|kk: Seq<char>| #[trigger] self.local().contains_key(kk) implies self.local()[kk] == old_local[kk] by {
                let j = choose|j: int| 0 <= j < self.storage@.len() && slot_has(self.storage@, j, kk);
                let j2 = choose|j2: int| 0 <= j2 < st0.len() && slot_has(st0, j2, kk);
                assert(slot_has(self.storage@, j2, kk));
                assert(j == j2);
            }
            assert(self.local() =~= old_local);
        }
        let ghost s0 = self.storage@;
        let ghost fl1 = self.free_list@;
        self.storage[index] = Some((key, value));
        proof {
            assert(forall|i: int| 0 <= i < s0.len() && i != index ==> self.storage@[i] == s0[i]);
            assert forall|i: int| 0 <= i < self.free_list@.len() implies #[trigger] self.free_list@[i] < self.storage@.len()
                && self.storage@[self.free_list@[i] as int] is None by {
                assert(self.free_list@[i] == fl1[i]);
            }
            assert forall|i: int, j: int|
                0 <= i < self.storage@.len() && 0 <= j < self.storage@.len() && i != j
                    && #[trigger] self.storage@[i] is Some && #[trigger] self.storage@[j] is Some
                    implies slot_key(self.storage@[i]) != slot_key(self.storage@[j]) by {
                if i == index {
                    assert(!slot_has(s0, j, k));
                } else if j == index {
                    assert(!slot_has(s0, i, k));
                }
            }
            assert(self.wf());
            assert forall|kk: Seq<char>| #[trigger] self.local().contains_key(kk) == old_local.insert(k, value).contains_key(kk) by {
                if kk == k {
                    self.lemma_local_at(index as int);
                } else if old_local.contains_key(kk) {
                    assert(self.local().contains_key(kk)) by {
                        let j = choose|j: int| 0 <= j < s0.len() && slot_has(s0, j, kk);
                        assert(slot_has(self.storage@, j, kk));
                    }
                } else {
                    assert forall|i: int| 0 <= i < self.storage@.len() implies !slot_has(self.storage@, i, kk) by {
                        if i != index && slot_has(self.storage@, i, kk) {
                            assert(slot_has(s0, i, kk));
                        }
                    }
                }
            }
            assert forall|kk: Seq<char>| #[trigger] self.local().contains_key(kk) implies self.local()[kk] == old_local.insert(k, value)[kk] by {
                if kk == k {
                    self.lemma_local_at(index as int);
                } else {
                    let j = choose|j: int| 0 <= j < self.storage@.len() && slot_has(self.storage@, j, kk);
                    assert(slot_has(s0, j, kk));
                    self.lemma_local_at(j);
                    assert(old_local[kk] == slot_value(s0[j])) by {
                        let j2 = choose|j2: int| 0 <= j2 < s0.len() && slot_has(s0, j2, kk);
                        assert(j2 == j);
                    }
                }
            }
            assert(self.local() =~= old_local.insert(k, value));
        }
    }

    /// Unbinds `key` in this map, freeing its slot, and gives back its value.
    pub fn remove(&mut self, key: &String) -> (r: Option<V>)
        requires
            old(self).wf(),
        ensures
            final(self).wf(),
            final(self).local() == old(self).local().remove(key@),
            final(self).parent_map() == old(self).parent_map(),
            r == (if old(self).local().contains_key(key@) { Some(old(self).local()[key@]) } else { None }),
            final(self).lookup(key@) == match old(self).parent_map() {
                Some(p) => p.lookup(key@),
                None => None::<V>,
            },
            forall|k: Seq<char>| k != key@ ==> #[trigger] final(self).lookup(k) == old(self).lookup(k),
    {
        let ghost k = key@;
        let ghost old_local = self.local();
        match self.find_index(key) {
            Some(index) => {
                proof { self.lemma_local_at(index as int); }
                let ghost s0 = self.storage@;
                let mut taken: Option<(String, V)> = None;
                std::mem::swap(&mut self.storage[index], &mut taken);
                assert(self.storage@ == s0.update(index as int, None));
                match taken {
                    Some((_, v)) => {
                        let ghost fl0 = self.free_list@;
                        self.free_list.push(index);
                        proof {
                            assert forall|i: int, j: int| 0 <= i < j < self.free_list@.len() implies self.free_list@[i] != self.free_list@[j] by {
                                if j == self.free_list@.len() - 1 {
                                    assert(s0[fl0[i] as int] is None);
                                }
                            }
                            assert forall|kk: Seq<char>| #[trigger] self.local().contains_key(kk) == old_local.remove(k).contains_key(kk) by {
                                if self.local().contains_key(kk) {
                                    let j = choose|j: int| 0 <= j < self.storage@.len() && slot_has(self.storage@, j, kk);
                                    assert(slot_has(s0, j, kk));
                                    assert(j != index);
                                }
                                if old_local.remove(k).contains_key(kk) {
                                    let j = choose|j: int| 0 <= j < s0.len() && slot_has(s0, j, kk);
                                    assert(slot_has(self.storage@, j, kk));
                                }
                            }
                            assert forall|kk: Seq<char>| #[trigger] self.local().contains_key(kk) implies self.local()[kk] == old_local[kk] by {
                                let j = choose|j: int| 0 <= j < self.storage@.len() && slot_has(self.storage@, j, kk);
                                let j2 = choose|j2: int| 0 <= j2 < s0.len() && slot_has(s0, j2, kk);
                                assert(slot_has(s0, j, kk));
                                assert(j == j2);
                            }
                            assert(self.local() =~= old_local.remove(k));
                        }
                        Some(v)
                    },
                    None => None,
                }
            },
            None => {
                proof { self.lemma_local_absent(k); assert(old_local.remove(k) =~= old_local); }
                None
            },
        }
    }

    /// The value that `key` is bound to here, else in the parent maps.
    pub fn get(&self, key: &String) -> (r: Option<&V>)
        requires
            self.wf(),
        ensures
            match r {
                Some(v) => self.lookup(key@) == Some(*v),
                None => self.lookup(key@) is None,
            },
        decreases self,
    {
        match self.find_index(key) {
            Some(index) => {
                proof { self.lemma_local_at(index as int); }
                match &self.storage[index] {
                    Some((_, v)) => Some(v),
                    None => None,
                }
            },
            None => {
                proof { self.lemma_local_absent(key@); }
                match &self.parent {
                    Some(p) => p.get(key),
                    None => None,
                }
            },
        }
    }

    /// Maps whose own entries and whose parents agree on every name but `key`
    /// agree on every lookup but that of `key`.
    proof fn lemma_lookup_others(&self, key: Seq<char>)
        ensures
            forall|m: Varmap<V>| #![trigger m.local(), m.parent_map()]
                (forall|kk: Seq<char>| kk != key ==> (#[trigger] m.local().contains_key(kk) == self.local().contains_key(kk)
                        && (m.local().contains_key(kk) ==> m.local()[kk] == self.local()[kk])))
                && (m.parent_map() is Some == self.parent_map() is Some)
                && (m.parent_map() is Some ==> forall|kk: Seq<char>| kk != key
                        ==> #[trigger] m.parent_map()->Some_0.lookup(kk) == self.parent_map()->Some_0.lookup(kk))
                ==> forall|kk: Seq<char>| kk != key ==> #[trigger] m.lookup(kk) == self.lookup(kk),
    {
        assert forall|m: Varmap<V>| #![trigger m.local(), m.parent_map()]
            (forall|kk: Seq<char>| kk != key ==> (#[trigger] m.local().contains_key(kk) == self.local().contains_key(kk)
                    && (m.local().contains_key(kk) ==> m.local()[kk] == self.local()[kk])))
            && (m.parent_map() is Some == self.parent_map() is Some)
            && (m.parent_map() is Some ==> forall|kk: Seq<char>| kk != key
                    ==> #[trigger] m.parent_map()->Some_0.lookup(kk) == self.parent_map()->Some_0.lookup(kk))
            implies forall|kk: Seq<char>| kk != key ==> #[trigger] m.lookup(kk) == self.lookup(kk) by {
            assert forall|kk: Seq<char>| kk != key implies #[trigger] m.lookup(kk) == self.lookup(kk) by {
                assert(m.local().contains_key(kk) == self.local().contains_key(kk));
                if m.parent_map() is Some {
                    assert(m.parent_map()->Some_0.lookup(kk) == self.parent_map()->Some_0.lookup(kk));
                }
            }
        }
    }

    /// A mutable reference to the value that a lookup of `key` finds: this
    /// map's own, else that of the nearest parent that holds the name. What is
    /// written through it is what the lookup finds afterwards; the other names
    /// and this map's own names are untouched.
    pub fn get_mut(&mut self, key: &String) -> (r: Option<&mut V>)
        requires
            old(self).wf(),
        ensures
            r.is_some() == old(self).lookup(key@).is_some(),
            r.is_some() ==> *r.unwrap() == old(self).lookup(key@).unwrap(),
            r.is_some() ==> final(self).wf(),
            r.is_some() ==> final(self).lookup(key@) == Some(*final(r.unwrap())),
            r.is_some() ==> forall|kk: Seq<char>| kk != key@ ==> #[trigger] final(self).lookup(kk) == old(self).lookup(kk),
            r.is_some() ==> final(self).local().dom() == old(self).local().dom(),
            r.is_none() ==> *final(self) == *old(self),
        decreases old(self).depth(),
    {
        proof { self.lemma_lookup_others(key@); }
        match self.find_index(key) {
            Some(index) => {
                proof { self.lemma_local_at(index as int); self.lemma_replace_value(index as int); }
                let slot = &mut self.storage[index];
                match slot {
                    Some((_, v)) => Some(v),
                    None => None,
                }
            },
            None => {
                proof { self.lemma_local_absent(key@); }
                match &mut self.parent {
                    Some(p) => p.get_mut(key),
                    None => None,
                }
            },
        }
    }

    /// Rebinds `key` to `value` where a lookup of `key` finds it: in this map,
    /// else in the nearest parent that holds it. Whether such a binding existed.
    pub fn set_existing(&mut self, key: &String, value: V) -> (r: bool)
        requires
            old(self).wf(),
        ensures
            final(self).wf(),
            r == old(self).lookup(key@) is Some,
            final(self).lookup(key@) == if r { Some(value) } else { None },
            forall|kk: Seq<char>| kk != key@ ==> #[trigger] final(self).lookup(kk) == old(self).lookup(kk),
            final(self).local().dom() == old(self).local().dom(),
        decreases old(self).depth(),
    {
        match self.find_index(key) {
            Some(index) => {
                proof { self.lemma_local_at(index as int); self.lemma_replace_value(index as int); }
                let k = match &self.storage[index] {
                    Some((k, _)) => k.clone(),
                    None => String::new(),
                };
                let ghost old_self = *old(self);
                self.storage[index] = Some((k, value));
                proof {
                    assert forall|kk: Seq<char>| kk != key@ implies #[trigger] self.lookup(kk) == old_self.lookup(kk) by {
                        assert(self.local().contains_key(kk) == old_self.local().contains_key(kk));
                        if self.local().contains_key(kk) {
                            assert(self.local()[kk] == old_self.local()[kk]);
                        }
                        assert(self.parent_map() == old_self.parent_map());
                    }
                    assert forall|kk: Seq<char>| #[trigger] self.local().dom().contains(kk) == old_self.local().dom().contains(kk) by {
                        if kk != key@ {
                            assert(self.local().contains_key(kk) == old_self.local().contains_key(kk));
                        }
                    }
                    assert(self.local().dom() =~= old_self.local().dom());
                }
                true
            },
            None => {
                proof { self.lemma_local_absent(key@); }
                let ghost old_self = *old(self);
                let mut parent = None;
                std::mem::swap(&mut self.parent, &mut parent);
                let r = match parent {
                    Some(mut p) => {
                        let ghost p0 = *p;
                        assert(old_self.parent_map() == Some(p0));
                        let rr = p.set_existing(key, value);
                        assert(forall|kk: Seq<char>| kk != key@ ==> #[trigger] (*p).lookup(kk) == p0.lookup(kk));
                        self.parent = Some(p);
                        assert(self.parent_map() == Some(*p));
                        rr
                    },
                    None => {
                        self.parent = None;
                        false
                    },
                };
                proof {
                    assert(self.local() =~= old_self.local());
                    assert forall|kk: Seq<char>| kk != key@ implies #[trigger] self.lookup(kk) == old_self.lookup(kk) by {
                        if !self.local().contains_key(kk) {
                            match old_self.parent_map() {
                                Some(op) => {
                                    assert(self.parent_map() is Some);
                                    assert(self.parent_map()->0.lookup(kk) == op.lookup(kk));
                                },
                                None => {},
                            }
                        }
                    }
                }
                r
            },
        }
    }
}

} // verus!
