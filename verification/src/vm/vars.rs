//! The variables of the running program, each bound in the scope (call depth)
//! that stored it.
use vstd::prelude::*;
use super::error::{RuntimeError, RuntimeResult};
use super::value::{VMData, object_of};
use super::memory::{Memory, MemModel, dec_spec};

verus! {

/// A variable: the call depth that it belongs to and its name.
#[derive(Debug, Clone, PartialEq, Eq)]
pub struct Key {
    pub scope: usize,
    pub name: String,
}

/// The bindings of the variables, in the order of their creation.
#[derive(Debug)]
pub struct VarMap {
    pub var_map: Vec<(Key, VMData)>,
}

/// A binding as plain values: scope, name and value.
pub type VarEntry = (usize, Seq<char>, VMData);

pub open spec fn entry_of(e: (Key, VMData)) -> VarEntry {
    (e.0.scope, e.0.name@, e.1)
}

impl View for VarMap {
    type V = Seq<VarEntry>;

    open spec fn view(&self) -> Seq<VarEntry> {
        self.var_map@.map_values(|e: (Key, VMData)| entry_of(e))
    }
}

/// The position of the first binding of `name` in `scope` from position `k` on.
pub open spec fn first_var(vars: Seq<VarEntry>, scope: usize, name: Seq<char>, k: int) -> Option<int>
    decreases vars.len() - k,
{
    if k < 0 || k >= vars.len() {
        None
    } else if vars[k].0 == scope && vars[k].1 == name {
        Some(k)
    } else {
        first_var(vars, scope, name, k + 1)
    }
}

pub proof fn lemma_first_var(vars: Seq<VarEntry>, scope: usize, name: Seq<char>, k: int)
    ensures
        first_var(vars, scope, name, k) matches Some(i) ==> k <= i < vars.len() && vars[i].0 == scope && vars[i].1 == name,
    decreases vars.len() - k,
{
    if 0 <= k < vars.len() && !(vars[k].0 == scope && vars[k].1 == name) {
        lemma_first_var(vars, scope, name, k + 1);
    }
}

/// The position of the binding of `name` in `scope`, if any.
pub open spec fn find_var(vars: Seq<VarEntry>, scope: usize, name: Seq<char>) -> Option<int> {
    first_var(vars, scope, name, 0)
}

/// Binding `name` in `scope` to `val`. A value that the binding replaces loses
/// the reference the variable held.
pub open spec fn insert_spec(vars: Seq<VarEntry>, m: MemModel, scope: usize, name: Seq<char>, val: VMData)
    -> (Seq<VarEntry>, MemModel, RuntimeResult<()>)
{
    match find_var(vars, scope, name) {
        Some(i) => {
            let vars1 = vars.update(i, (scope, name, val));
            match object_of(vars[i].2) {
                Some(o) => {
                    let (m1, r) = dec_spec(m, o);
                    (vars1, m1, r)
                },
                None => (vars1, m, Ok(())),
            }
        },
        None => (vars.push((scope, name, val)), m, Ok(())),
    }
}

/// The bindings whose scope is below `scope`.
pub open spec fn kept(vars: Seq<VarEntry>, scope: usize) -> Seq<VarEntry> {
    vars.filter(|e: VarEntry| e.0 < scope)
}

/// Dropping the references held by the bindings of `vars[k..]` whose scope is
/// `scope` or deeper, in order, until one fails.
pub open spec fn release_vars(vars: Seq<VarEntry>, m: MemModel, scope: usize, k: int) -> (MemModel, RuntimeResult<()>)
    decreases vars.len() - k,
{
    if k < 0 || k >= vars.len() {
        (m, Ok(()))
    } else if vars[k].0 >= scope {
        match object_of(vars[k].2) {
            Some(o) => {
                let (m1, r) = dec_spec(m, o);
                if r is Err {
                    (m1, r)
                } else {
                    release_vars(vars, m1, scope, k + 1)
                }
            },
            None => release_vars(vars, m, scope, k + 1),
        }
    } else {
        release_vars(vars, m, scope, k + 1)
    }
}


pub proof fn lemma_first_var_update(vars: Seq<VarEntry>, scope: usize, name: Seq<char>, k: int, i: int, e: VarEntry)
    requires
        0 <= k <= i < vars.len(),
        first_var(vars, scope, name, k) == Some(i),
        e.0 == scope && e.1 == name,
    ensures
        first_var(vars.update(i, e), scope, name, k) == Some(i),
    decreases i - k,
{
    if k < i {
        lemma_first_var_update(vars, scope, name, k + 1, i, e);
    }
}

pub proof fn lemma_first_var_push(vars: Seq<VarEntry>, scope: usize, name: Seq<char>, k: int, e: VarEntry)
    requires
        0 <= k <= vars.len(),
        first_var(vars, scope, name, k) is None,
        e.0 == scope && e.1 == name,
    ensures
        first_var(vars.push(e), scope, name, k) == Some(vars.len() as int),
    decreases vars.len() - k,
{
    if k < vars.len() {
        lemma_first_var_push(vars, scope, name, k + 1, e);
    }
}

/// A variable reads back as it was bound: after binding `name` in `scope` to
/// `val`, the binding that a lookup of `name` in `scope` finds holds `val`.
pub proof fn law_insert_then_find(vars: Seq<VarEntry>, m: MemModel, scope: usize, name: Seq<char>, val: VMData)
    ensures
        find_var(insert_spec(vars, m, scope, name, val).0, scope, name) matches Some(j)
            && insert_spec(vars, m, scope, name, val).0[j].2 == val,
{
    match find_var(vars, scope, name) {
        Some(i) => {
            lemma_first_var(vars, scope, name, 0);
            lemma_first_var_update(vars, scope, name, 0, i, (scope, name, val));
        },
        None => {
            lemma_first_var_push(vars, scope, name, 0, (scope, name, val));
        },
    }
}

impl VarMap {
    pub fn new() -> (r: VarMap)
        ensures
            r@ == Seq::<VarEntry>::empty(),
    {
        VarMap { var_map: Vec::new() }
    }

    /// The position of the binding of `name` in `scope`, if any.
    fn find(&self, scope: usize, name: &String) -> (r: Option<usize>)
        ensures
            match r {
                Some(i) => find_var(self@, scope, name@) == Some(i as int) && i < self@.len(),
                None => find_var(self@, scope, name@) is None,
            },
    {
        let mut i: usize = 0;
        while i < self.var_map.len()
            invariant
                i <= self@.len(),
                self@.len() == self.var_map@.len(),
                find_var(self@, scope, name@) == first_var(self@, scope, name@, i as int),
            decreases self@.len() - i,
        {
            let e = &self.var_map[i];
            if e.0.scope == scope && e.0.name.eq(name) {
                return Some(i);
            }
            proof { lemma_first_var(self@, scope, name@, i as int); }
            i += 1;
        }
        None
    }

    /// The value of variable `key`.
    pub fn get(&self, key: &Key) -> (r: Option<VMData>)
        ensures
            match find_var(self@, key.scope, key.name@) {
                Some(i) => r == Some(self@[i].2),
                None => r is None,
            },
    {
        match self.find(key.scope, &key.name) {
            Some(i) => Some(self.var_map[i].1),
            None => None,
        }
    }

    /// Binds `key` to `val`.
    pub fn insert(&mut self, key: Key, val: VMData, mem: &mut Memory) -> (r: RuntimeResult<()>)
        ensures
            (final(self)@, final(mem)@, r) == insert_spec(old(self)@, old(mem)@, key.scope, key.name@, val),
    {
        let ghost v0 = self@;
        match self.find(key.scope, &key.name) {
            Some(i) => {
                let prev = self.var_map[i].1;
                let ghost name = key.name@;
                self.var_map[i] = (key, val);
                assert(self@ =~= v0.update(i as int, (key.scope, name, val)));
                match prev.object() {
                    Some(o) => mem.rc_dec(o),
                    None => Ok(()),
                }
            },
            None => {
                self.var_map.push((key, val));
                assert(self@ =~= v0.push((key.scope, key.name@, val)));
                Ok(())
            },
        }
    }

    /// Removes the bindings of scope `scope` and deeper, dropping the references
    /// they held.
    pub fn clean_scope(&mut self, scope: usize, mem: &mut Memory) -> (r: RuntimeResult<()>)
        ensures
            (final(mem)@, r) == release_vars(old(self)@, old(mem)@, scope, 0),
            r is Ok ==> final(self)@ == kept(old(self)@, scope),
            r is Err ==> final(self)@ == old(self)@,
    {
        let ghost v0 = self@;
        let ghost m0 = mem@;
        let mut kept_entries: Vec<(Key, VMData)> = Vec::new();
        let mut k: usize = 0;
        let n = self.var_map.len();
        while k < n
            invariant
                n == self.var_map@.len(),
                self@ == v0,
                m0 == old(mem)@,
                v0 == old(self)@,
                k <= n,
                release_vars(v0, m0, scope, 0) == release_vars(v0, mem@, scope, k as int),
                kept_entries@.map_values(|e: (Key, VMData)| entry_of(e)) == kept(v0.take(k as int), scope),
            decreases n - k,
        {
            let e = &self.var_map[k];
            proof {
                assert(v0.take(k as int + 1).drop_last() =~= v0.take(k as int));
                reveal_with_fuel(vstd::seq::Seq::filter, 1);
            }
            if e.0.scope >= scope {
                match e.1.object() {
                    Some(o) => {
                        let r = mem.rc_dec(o);
                        if r.is_err() {
                            return r;
                        }
                    },
                    None => {},
                }
            } else {
                let entry = (Key { scope: e.0.scope, name: e.0.name.clone() }, e.1);
                let ghost before = kept_entries@;
                kept_entries.push(entry);
                assert(kept_entries@.map_values(|e: (Key, VMData)| entry_of(e))
                    =~= before.map_values(|e: (Key, VMData)| entry_of(e)).push(v0[k as int]));
            }
            k += 1;
        }
        assert(v0.take(n as int) =~= v0);
        self.var_map = kept_entries;
        Ok(())
    }

    /// Removes every binding.
    pub fn clear(&mut self)
        ensures
            final(self)@ == Seq::<VarEntry>::empty(),
    {
        self.var_map = Vec::new();
    }
}

} // verus!
