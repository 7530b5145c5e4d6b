//! Maps from names to values that keep their entries in the order of their
//! names, as a sorted map keyed by strings does.
use vstd::prelude::*;
use crate::vm::text::chars_of;

verus! {

/// Whether `a` comes before `b`: the lexicographic order of their characters
/// compared by code point, which is the order of their UTF-8 encodings.
pub open spec fn name_lt(a: Seq<char>, b: Seq<char>) -> bool
    decreases a.len(),
{
    if a.len() == 0 {
        b.len() > 0
    } else if b.len() == 0 {
        false
    } else if a[0] != b[0] {
        (a[0] as int) < (b[0] as int)
    } else {
        name_lt(a.drop_first(), b.drop_first())
    }
}

/// No name comes before itself.
pub proof fn lemma_name_lt_irreflexive(a: Seq<char>)
    ensures
        !name_lt(a, a),
    decreases a.len(),
{
    if a.len() > 0 {
        lemma_name_lt_irreflexive(a.drop_first());
    }
}

/// The order is transitive.
pub proof fn lemma_name_lt_transitive(a: Seq<char>, b: Seq<char>, c: Seq<char>)
    requires
        name_lt(a, b),
        name_lt(b, c),
    ensures
        name_lt(a, c),
    decreases a.len(),
{
    if a.len() > 0 && b.len() > 0 && c.len() > 0 && a[0] == b[0] && b[0] == c[0] {
        lemma_name_lt_transitive(a.drop_first(), b.drop_first(), c.drop_first());
    }
}

/// Of two different names, one comes before the other.
pub proof fn lemma_name_lt_total(a: Seq<char>, b: Seq<char>)
    requires
        a != b,
    ensures
        name_lt(a, b) || name_lt(b, a),
    decreases a.len(),
{
    if a.len() == 0 && b.len() == 0 {
        assert(a =~= b);
    } else if a.len() > 0 && b.len() > 0 && a[0] == b[0] {
        if a.drop_first() == b.drop_first() {
            assert(a =~= seq![a[0]] + a.drop_first());
            assert(b =~= seq![b[0]] + b.drop_first());
        }
        lemma_name_lt_total(a.drop_first(), b.drop_first());
    } else if a.len() > 0 && b.len() > 0 {
        assert((a[0] as int) != (b[0] as int));
    }
}

/// Of two names, at most one comes before the other.
pub proof fn lemma_name_lt_asymmetric(a: Seq<char>, b: Seq<char>)
    requires
        name_lt(a, b),
    ensures
        !name_lt(b, a),
    decreases a.len(),
{
    if a.len() > 0 && b.len() > 0 && a[0] == b[0] {
        lemma_name_lt_asymmetric(a.drop_first(), b.drop_first());
    }
}

/// Whether `a` comes before `b` in the order of names.
pub fn name_less(a: &String, b: &String) -> (r: bool)
    ensures
        r == name_lt(a@, b@),
{
    let ca = chars_of(a);
    let cb = chars_of(b);
    let mut i: usize = 0;
    assert(a@.skip(0) =~= a@ && b@.skip(0) =~= b@);
    while i < ca.len() && i < cb.len()
        invariant
            i <= ca@.len(),
            i <= cb@.len(),
            ca@ == a@,
            cb@ == b@,
            name_lt(a@, b@) == name_lt(a@.skip(i as int), b@.skip(i as int)),
        decreases ca@.len() - i,
    {
        if ca[i] != cb[i] {
            return ca[i] < cb[i];
        }
        assert(a@.skip(i as int).drop_first() =~= a@.skip(i + 1));
        assert(b@.skip(i as int).drop_first() =~= b@.skip(i + 1));
        i += 1;
    }
    i == ca.len() && i < cb.len()
}

/// The number of leading entries whose names come before `k`.
pub open spec fn position<V>(s: Seq<(String, V)>, k: Seq<char>) -> nat
    decreases s.len(),
{
    if s.len() == 0 || !name_lt(s[0].0@, k) {
        0
    } else {
        1 + position(s.drop_first(), k)
    }
}

/// Entries after placing `(k, v)`: the entry of that name, if there is one, is
/// replaced; else the new one goes before the first name that does not come
/// before `k`.
pub open spec fn placed<V>(s: Seq<(String, V)>, k: String, v: V) -> Seq<(String, V)> {
    let i = position(s, k@) as int;
    if i < s.len() && s[i].0@ == k@ {
        s.update(i, (k, v))
    } else {
        s.insert(i, (k, v))
    }
}

/// The value of the first entry named `k`.
pub open spec fn lookup<V>(s: Seq<(String, V)>, k: Seq<char>) -> Option<V>
    decreases s.len(),
{
    if s.len() == 0 {
        None
    } else if s[0].0@ == k {
        Some(s[0].1)
    } else {
        lookup(s.drop_first(), k)
    }
}

/// Whether the names of `s` are in strictly increasing order.
pub open spec fn ordered<V>(s: Seq<(String, V)>) -> bool {
    forall|i: int, j: int| 0 <= i < j < s.len() ==> name_lt(#[trigger] s[i].0@, #[trigger] s[j].0@)
}

/// In ordered entries, the entries before `position` come before `k` and the
/// others do not.
pub proof fn lemma_position<V>(s: Seq<(String, V)>, k: Seq<char>)
    requires
        ordered(s),
    ensures
        position(s, k) <= s.len(),
        forall|i: int| 0 <= i < position(s, k) ==> name_lt(#[trigger] s[i].0@, k),
        forall|i: int| position(s, k) <= i < s.len() ==> !name_lt(#[trigger] s[i].0@, k),
    decreases s.len(),
{
    if s.len() > 0 {
        let t = s.drop_first();
        assert(ordered(t)) by {
            assert forall|i: int, j: int| 0 <= i < j < t.len() implies name_lt(#[trigger] t[i].0@, #[trigger] t[j].0@) by {
                assert(t[i] == s[i + 1] && t[j] == s[j + 1]);
            }
        }
        lemma_position(t, k);
        if name_lt(s[0].0@, k) {
            assert forall|i: int| 0 <= i < position(s, k) implies name_lt(#[trigger] s[i].0@, k) by {
                if i > 0 {
                    assert(s[i] == t[i - 1]);
                }
            }
            assert forall|i: int| position(s, k) <= i < s.len() implies !name_lt(#[trigger] s[i].0@, k) by {
                assert(s[i] == t[i - 1]);
            }
        } else {
            assert forall|i: int| position(s, k) <= i < s.len() implies !name_lt(#[trigger] s[i].0@, k) by {
                if i > 0 && name_lt(s[i].0@, k) {
                    lemma_name_lt_transitive(s[0].0@, s[i].0@, k);
                }
            }
        }
    }
}

/// Looking a name up finds the first entry of that name.
pub proof fn lemma_lookup_at<V>(s: Seq<(String, V)>, i: int, k: Seq<char>)
    requires
        0 <= i < s.len(),
        s[i].0@ == k,
        forall|j: int| 0 <= j < i ==> #[trigger] s[j].0@ != k,
    ensures
        lookup(s, k) == Some(s[i].1),
    decreases i,
{
    if i > 0 {
        let t = s.drop_first();
        assert forall|j: int| 0 <= j < i - 1 implies #[trigger] t[j].0@ != k by {
            assert(t[j] == s[j + 1]);
        }
        assert(s[0].0@ != k);
        lemma_lookup_at(t, i - 1, k);
    }
}

/// Replacing an entry by one of another name, where neither is named `k`,
/// leaves what looking `k` up finds.
pub proof fn lemma_lookup_update<V>(s: Seq<(String, V)>, i: int, e: (String, V), k: Seq<char>)
    requires
        0 <= i < s.len(),
        s[i].0@ != k,
        e.0@ != k,
    ensures
        lookup(s.update(i, e), k) == lookup(s, k),
    decreases i,
{
    if i > 0 {
        assert(s.update(i, e).drop_first() =~= s.drop_first().update(i - 1, e));
        assert(s.update(i, e)[0] == s[0]);
        lemma_lookup_update(s.drop_first(), i - 1, e, k);
    } else {
        assert(s.update(0, e).drop_first() =~= s.drop_first());
    }
}

/// Inserting an entry not named `k` leaves what looking `k` up finds.
pub proof fn lemma_lookup_insert<V>(s: Seq<(String, V)>, i: int, e: (String, V), k: Seq<char>)
    requires
        0 <= i <= s.len(),
        e.0@ != k,
    ensures
        lookup(s.insert(i, e), k) == lookup(s, k),
    decreases i,
{
    if i == 0 {
        assert(s.insert(0, e).drop_first() =~= s);
    } else {
        assert(s.insert(i, e).drop_first() =~= s.drop_first().insert(i - 1, e));
        lemma_lookup_insert(s.drop_first(), i - 1, e, k);
    }
}

/// What a map gives back of a write: once `insert` has put `v` under the
/// name `k` (turning `before` into `after`), `get` of `k` finds `v`, and `get`
/// of any other name finds what it found before.
pub proof fn law_insert_then_get<V>(before: NameMap<V>, after: NameMap<V>, k: String, v: V, other: Seq<char>)
    requires
        before.wf(),
        after.entries() == placed(before.entries(), k, v),
    ensures
        lookup(after.entries(), k@) == Some(v),
        other != k@ ==> lookup(after.entries(), other) == lookup(before.entries(), other),
{
    let s = before.entries();
    lemma_position(s, k@);
    let i = position(s, k@) as int;
    let t = placed(s, k, v);
    assert forall|j: int| 0 <= j < i implies #[trigger] t[j].0@ != k@ by {
        assert(t[j] == s[j]);
        if t[j].0@ == k@ {
            lemma_name_lt_irreflexive(k@);
        }
    }
    lemma_lookup_at(t, i, k@);
    if other != k@ {
        if i < s.len() && s[i].0@ == k@ {
            lemma_lookup_update(s, i, (k, v), other);
        } else {
            lemma_lookup_insert(s, i, (k, v), other);
        }
    }
}

/// The entries with each value taken by its view.
pub open spec fn entries_view<V: View>(s: Seq<(String, V)>) -> Seq<(String, V::V)> {
    s.map_values(|e: (String, V)| (e.0, e.1@))
}

/// Entries with the same names have the same `position` for any name, and it
/// is at most their number.
pub proof fn lemma_position_same_names<V, W>(s: Seq<(String, V)>, t: Seq<(String, W)>, k: Seq<char>)
    requires
        s.len() == t.len(),
        forall|i: int| 0 <= i < s.len() ==> #[trigger] s[i].0 == t[i].0,
    ensures
        position(s, k) == position(t, k),
        position(s, k) <= s.len(),
    decreases s.len(),
{
    if s.len() > 0 {
        let (s1, t1) = (s.drop_first(), t.drop_first());
        assert forall|i: int| 0 <= i < s1.len() implies #[trigger] s1[i].0 == t1[i].0 by {
            assert(s1[i] == s[i + 1] && t1[i] == t[i + 1]);
        }
        assert(s[0].0 == t[0].0);
        lemma_position_same_names(s1, t1, k);
    }
}

/// Placing an entry and then taking the views is taking the views and then
/// placing the entry's view.
pub proof fn lemma_placed_view<V: View>(s: Seq<(String, V)>, k: String, v: V)
    ensures
        entries_view(placed(s, k, v)) == placed(entries_view(s), k, v@),
{
    let t = entries_view(s);
    assert forall|i: int| 0 <= i < s.len() implies #[trigger] s[i].0 == t[i].0 by {}
    lemma_position_same_names(s, t, k@);
    let i = position(s, k@) as int;
    if i < s.len() && s[i].0@ == k@ {
        assert(entries_view(placed(s, k, v)) =~= placed(t, k, v@));
    } else {
        assert(entries_view(placed(s, k, v)) =~= placed(t, k, v@));
    }
}

/// In ordered entries, the entry named `k`, if any, stands at `position`.
pub proof fn lemma_lookup_ordered<V>(s: Seq<(String, V)>, k: Seq<char>)
    requires
        ordered(s),
    ensures
        lookup(s, k) == (if position(s, k) < s.len() && s[position(s, k) as int].0@ == k {
            Some(s[position(s, k) as int].1)
        } else {
            None::<V>
        }),
    decreases s.len(),
{
    lemma_position(s, k);
    if s.len() > 0 {
        let t = s.drop_first();
        assert(ordered(t)) by {
            assert forall|i: int, j: int| 0 <= i < j < t.len() implies name_lt(#[trigger] t[i].0@, #[trigger] t[j].0@) by {
                assert(t[i] == s[i + 1] && t[j] == s[j + 1]);
            }
        }
        lemma_lookup_ordered(t, k);
        if s[0].0@ == k {
            lemma_name_lt_irreflexive(k);
        } else if !name_lt(s[0].0@, k) {
            lemma_position(t, k);
            if position(t, k) < t.len() && t[position(t, k) as int].0@ == k {
                assert(name_lt(s[0].0@, t[position(t, k) as int].0@));
                lemma_name_lt_asymmetric(s[0].0@, k);
                lemma_name_lt_total(s[0].0@, k);
            }
        }
    }
}

/// Entries kept in the order of their names, one per name.
#[derive(Debug)]
pub struct NameMap<V> {
    entries: Vec<(String, V)>,
}

impl<V> NameMap<V> {
    /// The entries, in the order of their names.
    pub closed spec fn entries(&self) -> Seq<(String, V)> {
        self.entries@
    }

    /// The names come in strictly increasing order (every map keeps them so).
    #[verifier::type_invariant]
    pub open spec fn wf(&self) -> bool {
        ordered(self.entries())
    }

    /// An empty map.
    pub fn new() -> (r: Self)
        ensures
            r.wf(),
            r.entries() == Seq::<(String, V)>::empty(),
    {
        NameMap { entries: Vec::new() }
    }

    /// The number of entries.
    pub fn len(&self) -> (r: usize)
        ensures
            r == self.entries().len(),
    {
        self.entries.len()
    }

    /// Entry `i`.
    pub fn entry(&self, i: usize) -> (r: (&String, &V))
        requires
            i < self.entries().len(),
        ensures
            *r.0 == self.entries()[i as int].0,
            *r.1 == self.entries()[i as int].1,
    {
        let e = &self.entries[i];
        (&e.0, &e.1)
    }

    /// The value named `k`, if any.
    pub fn get(&self, k: &String) -> (r: Option<&V>)
        ensures
            match r {
                Some(v) => lookup(self.entries(), k@) == Some(*v),
                None => lookup(self.entries(), k@) is None,
            },
    {
        let mut i: usize = 0;
        assert(self.entries@.skip(0) =~= self.entries@);
        while i < self.entries.len()
            invariant
                i <= self.entries@.len(),
                lookup(self.entries@, k@) == lookup(self.entries@.skip(i as int), k@),
            decreases self.entries@.len() - i,
        {
            if self.entries[i].0.eq(k) {
                return Some(&self.entries[i].1);
            }
            assert(self.entries@.skip(i as int).drop_first() =~= self.entries@.skip(i + 1));
            i += 1;
        }
        None
    }

    /// Puts `v` under the name `k`, replacing the value that the name had.
    pub fn insert(&mut self, k: String, v: V)
        ensures
            final(self).wf(),
            final(self).entries() == placed(old(self).entries(), k, v),
    {
        proof { use_type_invariant(&*self); }
        let mut entries: Vec<(String, V)> = Vec::new();
        std::mem::swap(&mut self.entries, &mut entries);
        proof { lemma_position(entries@, k@); }
        let ghost s = entries@;
        assert(s == old(self).entries());
        let mut i: usize = 0;
        while i < entries.len() && name_less(&entries[i].0, &k)
            invariant
                entries@ == s,
                ordered(s),
                i <= s.len(),
                i <= position(s, k@),
                forall|j: int| 0 <= j < position(s, k@) ==> name_lt(#[trigger] s[j].0@, k@),
                forall|j: int| position(s, k@) <= j < s.len() ==> !name_lt(#[trigger] s[j].0@, k@),
            decreases s.len() - i,
        {
            i += 1;
        }
        assert(i == position(s, k@));
        if i < entries.len() && entries[i].0.eq(&k) {
            entries.set(i, (k, v));
            assert(ordered(entries@)) by {
                assert forall|a: int, b: int| 0 <= a < b < entries@.len() implies name_lt(#[trigger] entries@[a].0@, #[trigger] entries@[b].0@) by {
                    assert(s[a].0@ == entries@[a].0@ && s[b].0@ == entries@[b].0@);
                }
            }
        } else {
            entries.insert(i, (k, v));
            assert(ordered(entries@)) by {
                let t = entries@;
                let ii = i as int;
                assert forall|a: int, b: int| 0 <= a < b < t.len() implies name_lt(#[trigger] t[a].0@, #[trigger] t[b].0@) by {
                    if b < ii {
                        assert(t[a] == s[a] && t[b] == s[b]);
                    } else if b == ii {
                        assert(t[a] == s[a]);
                    } else if a == ii {
                        assert(t[b] == s[b - 1]);
                        assert(!name_lt(s[b - 1].0@, k@));
                        if s[b - 1].0@ != k@ {
                            lemma_name_lt_total(s[b - 1].0@, k@);
                        } else {
                            assert(b - 1 > ii || s[ii].0@ != k@);
                            if b - 1 > ii {
                                assert(name_lt(s[ii].0@, s[b - 1].0@));
                                lemma_name_lt_total(s[ii].0@, k@);
                                lemma_name_lt_asymmetric(s[ii].0@, k@);
                            }
                        }
                    } else if a < ii {
                        assert(t[a] == s[a] && t[b] == s[b - 1]);
                        assert(name_lt(s[a].0@, k@));
                        if b - 1 > a {
                        }
                    } else {
                        assert(t[a] == s[a - 1] && t[b] == s[b - 1]);
                    }
                }
            }
        }
        self.entries = entries;
    }

    /// Takes all the entries out, leaving the map empty.
    pub fn take_all(&mut self) -> (r: Vec<(String, V)>)
        ensures
            r@ == old(self).entries(),
            ordered(r@),
            final(self).entries().len() == 0,
    {
        proof { use_type_invariant(&*self); }
        let mut entries: Vec<(String, V)> = Vec::new();
        std::mem::swap(&mut self.entries, &mut entries);
        entries
    }

    /// Puts back entries whose names are in order.
    pub fn restore(&mut self, entries: Vec<(String, V)>)
        requires
            ordered(entries@),
        ensures
            final(self).entries() == entries@,
    {
        self.entries = entries;
    }
}

} // verus!
