//! The object memory of the VM: a vector of slots, the free ones chained into a
//! free list, each live one carrying a reference count.
//!
//! Where an index lies outside the memory, or a reference count would drop below
//! zero, an operation stops with `IndexOutOfBounds` or `NullReference` and leaves
//! the memory as it stands at that point.
use vstd::prelude::*;
use super::error::{RuntimeError, RuntimeResult};
use super::value::{VMData, ObjectIndex, object_of};

verus! {

/// The fields of an object, by position.
#[derive(Debug)]
pub struct Class {
    pub fields: Vec<VMData>,
}

/// What a slot of the memory holds.
#[derive(Debug)]
pub enum ObjectKind {
    String(String),
    Class(Class),
    List(Vec<VMData>),
    Free { next: ObjectIndex },
}

/// A slot of the memory: what it holds and how many references it has.
#[derive(Debug)]
pub struct Object {
    pub kind: ObjectKind,
    /// Reference count
    pub rc: usize,
}

/// The mathematical content of a slot.
pub enum KindModel {
    String(Seq<char>),
    Class(Seq<VMData>),
    List(Seq<VMData>),
    Free(ObjectIndex),
}

pub struct ObjectModel {
    pub kind: KindModel,
    pub rc: usize,
}

/// The memory as the slots' contents, the head of the free list and the
/// recorded used space.
pub struct MemModel {
    pub objs: Seq<ObjectModel>,
    pub free: ObjectIndex,
    pub used: usize,
}

impl View for ObjectKind {
    type V = KindModel;

    open spec fn view(&self) -> KindModel {
        match self {
            ObjectKind::String(s) => KindModel::String(s@),
            ObjectKind::Class(c) => KindModel::Class(c.fields@),
            ObjectKind::List(l) => KindModel::List(l@),
            ObjectKind::Free { next } => KindModel::Free(*next),
        }
    }
}

impl View for Object {
    type V = ObjectModel;

    open spec fn view(&self) -> ObjectModel {
        ObjectModel { kind: self.kind@, rc: self.rc }
    }
}

/// Sum of the reference counts of the slots.
pub open spec fn total_rc(s: Seq<ObjectModel>) -> nat
    decreases s.len(),
{
    if s.len() == 0 {
        0
    } else {
        total_rc(s.drop_last()) + s.last().rc as nat
    }
}

pub proof fn lemma_total_rc_update(s: Seq<ObjectModel>, i: int, o: ObjectModel)
    requires
        0 <= i < s.len(),
    ensures
        total_rc(s.update(i, o)) + s[i].rc == total_rc(s) + o.rc,
    decreases s.len(),
{
    if i == s.len() - 1 {
        assert(s.update(i, o).drop_last() =~= s.drop_last());
    } else {
        lemma_total_rc_update(s.drop_last(), i, o);
        assert(s.update(i, o).drop_last() =~= s.drop_last().update(i, o));
    }
}

/// The items of a list slot; nothing for other slots.
pub open spec fn list_items(k: KindModel) -> Seq<VMData> {
    match k {
        KindModel::List(l) => l,
        _ => Seq::empty(),
    }
}

pub open spec fn in_bounds(m: MemModel, i: ObjectIndex) -> bool {
    i.idx < m.objs.len()
}

pub open spec fn slot(m: MemModel, i: ObjectIndex) -> ObjectModel {
    m.objs[i.idx as int]
}

pub open spec fn with_slot(m: MemModel, i: ObjectIndex, o: ObjectModel) -> MemModel {
    MemModel { objs: m.objs.update(i.idx as int, o), free: m.free, used: m.used }
}

/// Decrementing the reference count of slot `i`, releasing it at zero.
pub open spec fn dec_spec(m: MemModel, i: ObjectIndex) -> (MemModel, RuntimeResult<()>)
    decreases total_rc(m.objs), 0nat, 0nat,
{
    if !in_bounds(m, i) {
        (m, Err(RuntimeError::IndexOutOfBounds))
    } else if slot(m, i).rc == 0 {
        (m, Err(RuntimeError::NullReference))
    } else {
        let o = slot(m, i);
        let m1 = with_slot(m, i, ObjectModel { kind: o.kind, rc: (o.rc - 1) as usize });
        if o.rc == 1 {
            proof {
                lemma_total_rc_update(m.objs, i.idx as int, ObjectModel { kind: o.kind, rc: (o.rc - 1) as usize });
            }
            free_spec(m1, i)
        } else {
            (m1, Ok(()))
        }
    }
}

/// Releasing slot `i`: the references held by a list are dropped first, then the
/// slot joins the free list, linked to the head that the list had on entry.
pub open spec fn free_spec(m: MemModel, i: ObjectIndex) -> (MemModel, RuntimeResult<()>)
    decreases total_rc(m.objs), 1nat, 0nat,
{
    if !in_bounds(m, i) {
        (m, Err(RuntimeError::IndexOutOfBounds))
    } else {
        let items = list_items(slot(m, i).kind);
        let (m1, r) = dec_items_spec(m, items, 0);
        if r is Err {
            (m1, r)
        } else {
            let was_free = slot(m1, i).kind is Free;
            let m2 = MemModel {
                objs: m1.objs.update(i.idx as int, ObjectModel { kind: KindModel::Free(m.free), rc: 0 }),
                free: i,
                used: m1.used,
            };
            (m2, if was_free { Err(RuntimeError::NullReference) } else { Ok(()) })
        }
    }
}

/// Dropping the references held by `items[k..]`, in order, until one fails.
pub open spec fn dec_items_spec(m: MemModel, items: Seq<VMData>, k: int) -> (MemModel, RuntimeResult<()>)
    decreases total_rc(m.objs), 0nat, items.len() - k,
{
    if k < 0 || k >= items.len() {
        (m, Ok(()))
    } else {
        match object_of(items[k]) {
            None => dec_items_spec(m, items, k + 1),
            Some(o) => {
                let (m1, r) = dec_spec(m, o);
                if r is Err {
                    (m1, r)
                } else if total_rc(m1.objs) <= total_rc(m.objs) {
                    dec_items_spec(m1, items, k + 1)
                } else {
                    (m1, r)
                }
            }
        }
    }
}

pub proof fn lemma_dec_monotone(m: MemModel, i: ObjectIndex)
    ensures
        total_rc(dec_spec(m, i).0.objs) <= total_rc(m.objs),
        dec_spec(m, i).0.objs.len() == m.objs.len(),
        dec_spec(m, i).0.used == m.used,
    decreases total_rc(m.objs), 0nat, 0nat,
{
    if in_bounds(m, i) && slot(m, i).rc != 0 {
        let o = slot(m, i);
        let o1 = ObjectModel { kind: o.kind, rc: (o.rc - 1) as usize };
        lemma_total_rc_update(m.objs, i.idx as int, o1);
        if o.rc == 1 {
            lemma_free_monotone(with_slot(m, i, o1), i);
        }
    }
}

pub proof fn lemma_free_monotone(m: MemModel, i: ObjectIndex)
    ensures
        total_rc(free_spec(m, i).0.objs) <= total_rc(m.objs),
        free_spec(m, i).0.objs.len() == m.objs.len(),
        free_spec(m, i).0.used == m.used,
    decreases total_rc(m.objs), 1nat, 0nat,
{
    if in_bounds(m, i) {
        let items = list_items(slot(m, i).kind);
        lemma_dec_items_monotone(m, items, 0);
        let (m1, r) = dec_items_spec(m, items, 0);
        if r is Ok {
            lemma_total_rc_update(m1.objs, i.idx as int, ObjectModel { kind: KindModel::Free(m.free), rc: 0 });
        }
    }
}

pub proof fn lemma_dec_items_monotone(m: MemModel, items: Seq<VMData>, k: int)
    ensures
        total_rc(dec_items_spec(m, items, k).0.objs) <= total_rc(m.objs),
        dec_items_spec(m, items, k).0.objs.len() == m.objs.len(),
        dec_items_spec(m, items, k).0.used == m.used,
    decreases total_rc(m.objs), 0nat, items.len() - k,
{
    if 0 <= k < items.len() {
        match object_of(items[k]) {
            None => lemma_dec_items_monotone(m, items, k + 1),
            Some(o) => {
                lemma_dec_monotone(m, o);
                let (m1, r) = dec_spec(m, o);
                if r is Ok {
                    lemma_dec_items_monotone(m1, items, k + 1);
                }
            }
        }
    }
}


/// Storing a string or an object and reading it back: right after `put` the
/// slot holds it with one reference, and reading it (which drops that
/// reference) succeeds and gives it back.
pub proof fn law_put_then_get(m: MemModel, k: KindModel)
    requires
        mem_ok(m),
        k is String || k is Class,
    ensures
        put_spec(m, k).1 matches Ok(i) ==> {
            &&& in_bounds(put_spec(m, k).0, i)
            &&& slot(put_spec(m, k).0, i) == (ObjectModel { kind: k, rc: 1 })
            &&& dec_spec(put_spec(m, k).0, i).1 is Ok
        },
{
    let (m1, r) = put_spec(m, k);
    if let Ok(i) = r {
        let o1 = ObjectModel { kind: k, rc: 0 };
        let m2 = with_slot(m1, i, o1);
        assert(list_items(slot(m2, i).kind) =~= Seq::<VMData>::empty());
        assert(dec_items_spec(m2, list_items(slot(m2, i).kind), 0).1 is Ok);
    }
}

/// Adding a reference and dropping it leaves the memory as it was, for an
/// object that already had one.
pub proof fn law_inc_then_dec(m: MemModel, i: ObjectIndex)
    requires
        in_bounds(m, i),
        0 < slot(m, i).rc < usize::MAX,
    ensures
        inc_spec(m, i).1 is Ok,
        dec_spec(inc_spec(m, i).0, i) == (m, Ok::<(), RuntimeError>(())),
{
    let m1 = inc_spec(m, i).0;
    let m2 = dec_spec(m1, i).0;
    assert(m2.objs =~= m.objs);
}

/// A released slot is the next one to be stored into: freeing a string or an
/// object, then storing anything, puts it in the same slot.
pub proof fn law_free_then_put_reuses(m: MemModel, i: ObjectIndex, k: KindModel)
    requires
        mem_ok(m),
        in_bounds(m, i),
        slot(m, i).kind is String || slot(m, i).kind is Class,
    ensures
        free_spec(m, i).1 is Ok,
        put_spec(free_spec(m, i).0, k).1 == Ok::<ObjectIndex, RuntimeError>(i),
{
    assert(list_items(slot(m, i).kind) =~= Seq::<VMData>::empty());
}

/// The memory that `Memory::new(space)` makes: every slot free, each linked to
/// the next one, the last one back to the first.
pub open spec fn new_spec(space: nat) -> MemModel {
    MemModel {
        objs: Seq::new(space, |x: int| ObjectModel {
            kind: KindModel::Free(ObjectIndex { idx: ((x + 1) % (space as int)) as u64 }),
            rc: 0,
        }),
        free: ObjectIndex { idx: 0 },
        used: 0,
    }
}

/// The memory after `clear`: every slot free, each linked to the one before it,
/// the first one to the old head, the head being the last slot.
pub open spec fn clear_spec(m: MemModel) -> MemModel {
    MemModel {
        objs: Seq::new(m.objs.len(), |x: int| ObjectModel {
            kind: KindModel::Free(if x == 0 { m.free } else { ObjectIndex { idx: (x - 1) as u64 } }),
            rc: 0,
        }),
        free: if m.objs.len() == 0 { m.free } else { ObjectIndex { idx: (m.objs.len() - 1) as u64 } },
        used: m.used,
    }
}

/// The memory doubled with free slots, as `put` does when the used space equals
/// the number of slots.
pub open spec fn grow_spec(m: MemModel) -> MemModel {
    let n = m.objs.len();
    MemModel {
        objs: m.objs + Seq::new(n, |j: int| ObjectModel {
            kind: KindModel::Free(if j == 0 { m.free } else { ObjectIndex { idx: (n + j - 1) as u64 } }),
            rc: 0,
        }),
        free: if n == 0 { m.free } else { ObjectIndex { idx: (2 * n - 1) as u64 } },
        used: m.used,
    }
}

/// Storing `k`: it goes into the slot at the head of the free list with a
/// reference count of one. That slot's link becomes the new head; where the slot
/// was not free, its content is lost and the store fails with `OutOfMemory`.
pub open spec fn put_spec(m: MemModel, k: KindModel) -> (MemModel, RuntimeResult<ObjectIndex>) {
    let g = if m.used == m.objs.len() { grow_spec(m) } else { m };
    let i = g.free;
    if !in_bounds(g, i) {
        (g, Err(RuntimeError::IndexOutOfBounds))
    } else {
        let g1 = with_slot(g, i, ObjectModel { kind: k, rc: 1 });
        match slot(g, i).kind {
            KindModel::Free(next) => (MemModel { free: next, ..g1 }, Ok(i)),
            _ => (g1, Err(RuntimeError::OutOfMemory)),
        }
    }
}

/// Memory as the VM keeps it: nothing recorded as used, so that storing never
/// grows it, and room to double.
pub open spec fn mem_ok(m: MemModel) -> bool {
    m.used == 0 && 0 < m.objs.len() <= usize::MAX / 2
}

pub proof fn lemma_mem_ok_dec(m: MemModel, i: ObjectIndex)
    requires
        mem_ok(m),
    ensures
        mem_ok(dec_spec(m, i).0),
        mem_ok(free_spec(m, i).0),
{
    lemma_dec_monotone(m, i);
    lemma_free_monotone(m, i);
}

pub proof fn lemma_mem_ok_put(m: MemModel, k: KindModel)
    requires
        mem_ok(m),
    ensures
        mem_ok(put_spec(m, k).0),
{
}

/// Adding one reference to slot `i`.
pub open spec fn inc_spec(m: MemModel, i: ObjectIndex) -> (MemModel, RuntimeResult<()>) {
    if !in_bounds(m, i) {
        (m, Err(RuntimeError::IndexOutOfBounds))
    } else if slot(m, i).rc == usize::MAX {
        (m, Err(RuntimeError::OutOfMemory))
    } else {
        (with_slot(m, i, ObjectModel { kind: slot(m, i).kind, rc: (slot(m, i).rc + 1) as usize }), Ok(()))
    }
}

/// A copy of the values of `v`.
pub fn copy_values(v: &Vec<VMData>) -> (r: Vec<VMData>)
    ensures
        r@ == v@,
{
    let mut r: Vec<VMData> = Vec::new();
    let mut k: usize = 0;
    while k < v.len()
        invariant
            k <= v.len(),
            r@ == v@.subrange(0, k as int),
        decreases v.len() - k,
    {
        r.push(v[k]);
        k += 1;
    }
    r
}

impl Class {
    /// A class with the given field values.
    pub fn new(fields: Vec<VMData>) -> (r: Class)
        ensures
            r.fields@ == fields@,
    {
        Class { fields }
    }
}

impl ObjectKind {
    /// A copy of this content.
    pub fn copy(&self) -> (r: ObjectKind)
        ensures
            r@ == self@,
    {
        match self {
            ObjectKind::String(s) => ObjectKind::String(s.clone()),
            ObjectKind::Class(c) => ObjectKind::Class(Class { fields: copy_values(&c.fields) }),
            ObjectKind::List(l) => ObjectKind::List(copy_values(l)),
            ObjectKind::Free { next } => ObjectKind::Free { next: *next },
        }
    }

    /// The string held by a string slot.
    pub fn string(&self) -> (r: &String)
        requires
            self is String,
        ensures
            self@ == KindModel::String(r@),
    {
        match self {
            ObjectKind::String(s) => s,
            _ => vstd::pervasive::unreached(),
        }
    }

    /// The class held by a class slot.
    pub fn class(&self) -> (r: &Class)
        requires
            self is Class,
        ensures
            self@ == KindModel::Class(r.fields@),
    {
        match self {
            ObjectKind::Class(c) => c,
            _ => vstd::pervasive::unreached(),
        }
    }

    /// The values held by a list slot.
    pub fn list(&self) -> (r: &Vec<VMData>)
        requires
            self is List,
        ensures
            self@ == KindModel::List(r@),
    {
        match self {
            ObjectKind::List(l) => l,
            _ => vstd::pervasive::unreached(),
        }
    }
}

/// The object memory of the VM.
pub struct Memory {
    mem: Vec<Object>,
    pub free: ObjectIndex,
    pub used_space: usize,
}

impl View for Memory {
    type V = MemModel;

    closed spec fn view(&self) -> MemModel {
        MemModel { objs: self.mem@.map_values(|o: Object| o@), free: self.free, used: self.used_space }
    }
}

impl Memory {
    proof fn lemma_view_update(&self, old_mem: Seq<Object>, i: int)
        requires
            0 <= i < old_mem.len(),
            self.mem@ == old_mem.update(i, self.mem@[i]),
        ensures
            self.mem@.map_values(|o: Object| o@) == old_mem.map_values(|o: Object| o@).update(i, self.mem@[i]@),
    {
        assert(self.mem@.map_values(|o: Object| o@) =~= old_mem.map_values(|o: Object| o@).update(i, self.mem@[i]@));
    }

    /// A memory of `space` free slots.
    pub fn new(space: usize) -> (r: Memory)
        ensures
            r@ == new_spec(space as nat),
    {
        let mut mem: Vec<Object> = Vec::new();
        let mut x: usize = 0;
        while x < space
            invariant
                x <= space,
                mem@.len() == x,
                forall|j: int| 0 <= j < x ==> #[trigger] mem@[j]@ == new_spec(space as nat).objs[j],
            decreases space - x,
        {
            let next: u64 = if x + 1 == space { 0 } else { (x + 1) as u64 };
            proof {
                if x + 1 < space {
                    vstd::arithmetic::div_mod::lemma_small_mod((x + 1) as nat, space as nat);
                } else {
                    assert((space as int) % (space as int) == 0) by (nonlinear_arith)
                        requires space > 0;
                }
            }
            mem.push(Object { kind: ObjectKind::Free { next: ObjectIndex { idx: next } }, rc: 0 });
            x += 1;
        }
        let r = Memory { free: ObjectIndex { idx: 0 }, mem, used_space: 0 };
        assert(r@.objs =~= new_spec(space as nat).objs);
        r
    }

    /// The number of slots.
    pub fn len(&self) -> (r: usize)
        ensures
            r == self@.objs.len(),
    {
        self.mem.len()
    }

    /// Makes every slot free again, each linked to the one before it.
    pub fn clear(&mut self)
        ensures
            final(self)@ == clear_spec(old(self)@),
    {
        let n = self.mem.len();
        let ghost m0 = old(self)@;
        let mut idx: usize = 0;
        while idx < n
            invariant
                n == self.mem@.len(),
                n == m0.objs.len(),
                idx <= n,
                self.used_space == m0.used,
                idx == 0 ==> self.free == m0.free,
                idx > 0 ==> self.free == (ObjectIndex { idx: (idx - 1) as u64 }),
                forall|j: int| 0 <= j < idx ==> #[trigger] self.mem@[j]@ == clear_spec(m0).objs[j],
            decreases n - idx,
        {
            let next = self.free;
            self.mem[idx] = Object { kind: ObjectKind::Free { next }, rc: 0 };
            self.free = ObjectIndex { idx: idx as u64 };
            idx += 1;
        }
        assert(self@.objs =~= clear_spec(m0).objs);
    }

    /// Adds one reference to slot `index`.
    pub fn rc_inc(&mut self, index: ObjectIndex) -> (r: RuntimeResult<()>)
        ensures
            (final(self)@, r) == inc_spec(old(self)@, index),
    {
        if index.idx >= self.mem.len() as u64 {
            return Err(RuntimeError::IndexOutOfBounds);
        }
        let i = index.idx as usize;
        if self.mem[i].rc == usize::MAX {
            return Err(RuntimeError::OutOfMemory);
        }
        let ghost old_mem = self.mem@;
        self.mem[i].rc = self.mem[i].rc + 1;
        proof { self.lemma_view_update(old_mem, i as int); }
        Ok(())
    }

    /// Drops one reference to slot `index`; the slot is released when none is left.
    pub fn rc_dec(&mut self, index: ObjectIndex) -> (r: RuntimeResult<()>)
        ensures
            (final(self)@, r) == dec_spec(old(self)@, index),
        decreases total_rc(old(self)@.objs), 0nat, 0nat,
    {
        if index.idx >= self.mem.len() as u64 {
            return Err(RuntimeError::IndexOutOfBounds);
        }
        let i = index.idx as usize;
        if self.mem[i].rc == 0 {
            return Err(RuntimeError::NullReference);
        }
        let ghost m0 = self@;
        let ghost old_mem = self.mem@;
        self.mem[i].rc = self.mem[i].rc - 1;
        proof {
            self.lemma_view_update(old_mem, i as int);
            lemma_total_rc_update(m0.objs, i as int, self@.objs[i as int]);
        }
        if self.mem[i].rc == 0 {
            self.free(index)
        } else {
            Ok(())
        }
    }

    /// Releases slot `index`: the references that a list holds are dropped, then
    /// the slot becomes the head of the free list.
    pub fn free(&mut self, index: ObjectIndex) -> (r: RuntimeResult<()>)
        ensures
            (final(self)@, r) == free_spec(old(self)@, index),
        decreases total_rc(old(self)@.objs), 1nat, 0nat,
    {
        if index.idx >= self.mem.len() as u64 {
            return Err(RuntimeError::IndexOutOfBounds);
        }
        let i = index.idx as usize;
        let next = self.free;
        let items: Vec<VMData> = match &self.mem[i].kind {
            ObjectKind::List(l) => copy_values(l),
            _ => Vec::new(),
        };
        let ghost m0 = self@;
        assert(items@ == list_items(slot(m0, index).kind));
        let mut k: usize = 0;
        while k < items.len()
            invariant
                0 <= k <= items.len(),
                i == index.idx,
                i < self.mem@.len(),
                self.mem@.len() == m0.objs.len(),
                next == m0.free,
                m0 == old(self)@,
                items@ == list_items(slot(m0, index).kind),
                total_rc(self@.objs) <= total_rc(m0.objs),
                dec_items_spec(m0, items@, 0) == dec_items_spec(self@, items@, k as int),
            decreases items.len() - k,
        {
            match items[k].object() {
                Some(o) => {
                    let ghost before = self@;
                    proof { lemma_dec_monotone(before, o); }
                    let r = self.rc_dec(o);
                    if r.is_err() {
                        return r;
                    }
                },
                None => {},
            }
            k += 1;
        }
        let was_free = match &self.mem[i].kind {
            ObjectKind::Free { .. } => true,
            _ => false,
        };
        let ghost old_mem = self.mem@;
        self.mem[i] = Object { kind: ObjectKind::Free { next }, rc: 0 };
        proof { self.lemma_view_update(old_mem, i as int); }
        self.free = index;
        if was_free {
            Err(RuntimeError::NullReference)
        } else {
            Ok(())
        }
    }

    /// Stores `object` in the slot at the head of the free list, first doubling
    /// the memory with free slots where the used space equals its size.
    pub fn put(&mut self, object: ObjectKind) -> (r: RuntimeResult<ObjectIndex>)
        requires
            old(self)@.objs.len() <= usize::MAX / 2,
        ensures
            (final(self)@, r) == put_spec(old(self)@, object@),
    {
        let ghost m0 = self@;
        if self.used_space == self.mem.len() {
            let n = self.mem.len();
            let mut i = n;
            while i < n * 2
                invariant
                    n == m0.objs.len(),
                    n <= usize::MAX / 2,
                    n <= i <= 2 * n,
                    self.mem@.len() == i,
                    self.used_space == m0.used,
                    forall|j: int| 0 <= j < i ==> #[trigger] self.mem@[j]@ == grow_spec(m0).objs[j],
                    i == n ==> self.free == m0.free,
                    i > n ==> self.free == (ObjectIndex { idx: (i - 1) as u64 }),
                decreases 2 * n - i,
            {
                let next = self.free;
                self.mem.push(Object { kind: ObjectKind::Free { next }, rc: 0 });
                self.free = ObjectIndex { idx: i as u64 };
                i += 1;
            }
            assert(self@.objs =~= grow_spec(m0).objs);
        }
        let ghost g = self@;
        assert(g == (if m0.used == m0.objs.len() { grow_spec(m0) } else { m0 }));
        if self.free.idx >= self.mem.len() as u64 {
            return Err(RuntimeError::IndexOutOfBounds);
        }
        let idx = self.free;
        let i = idx.idx as usize;
        let prev_next = match &self.mem[i].kind {
            ObjectKind::Free { next } => Some(*next),
            _ => None,
        };
        let ghost old_mem = self.mem@;
        self.mem[i] = Object { kind: object, rc: 1 };
        proof { self.lemma_view_update(old_mem, i as int); }
        match prev_next {
            Some(next) => {
                self.free = next;
                Ok(idx)
            },
            None => Err(RuntimeError::OutOfMemory),
        }
    }

    /// A copy of the content of slot `index`, whose reference is dropped.
    pub fn get(&mut self, index: ObjectIndex) -> (r: RuntimeResult<ObjectKind>)
        ensures
            !in_bounds(old(self)@, index) ==> final(self)@ == old(self)@ && r == Err::<ObjectKind, RuntimeError>(RuntimeError::IndexOutOfBounds),
            in_bounds(old(self)@, index) ==> final(self)@ == dec_spec(old(self)@, index).0,
            in_bounds(old(self)@, index) ==> match dec_spec(old(self)@, index).1 {
                Ok(_) => r is Ok && r->Ok_0@ == slot(old(self)@, index).kind,
                Err(e) => r == Err::<ObjectKind, RuntimeError>(e),
            },
    {
        if index.idx >= self.mem.len() as u64 {
            return Err(RuntimeError::IndexOutOfBounds);
        }
        let kind = self.mem[index.idx as usize].kind.copy();
        match self.rc_dec(index) {
            Ok(()) => Ok(kind),
            Err(e) => Err(e),
        }
    }

    /// The content of slot `index`, read in place.
    pub fn kind(&self, index: ObjectIndex) -> (r: &ObjectKind)
        requires
            in_bounds(self@, index),
        ensures
            r@ == slot(self@, index).kind,
    {
        assert(self.mem@.len() == self@.objs.len());
        let n = self.mem.len();
        assert(index.idx < n);
        let i = index.idx as usize;
        assert(self.mem@.map_values(|o: Object| o@)[i as int] == self.mem@[i as int]@);
        &self.mem[i].kind
    }

    /// Takes the content out of slot `index`, leaving a free-slot marker that
    /// links to slot zero; its reference count stays.
    pub fn take_kind(&mut self, index: ObjectIndex) -> (r: ObjectKind)
        requires
            in_bounds(old(self)@, index),
        ensures
            r@ == slot(old(self)@, index).kind,
            final(self)@ == with_slot(old(self)@, index, ObjectModel {
                kind: KindModel::Free(ObjectIndex { idx: 0 }),
                rc: slot(old(self)@, index).rc,
            }),
    {
        assert(self.mem@.len() == self@.objs.len());
        let n = self.mem.len();
        assert(index.idx < n);
        let i = index.idx as usize;
        assert(self.mem@.map_values(|o: Object| o@)[i as int] == self.mem@[i as int]@);
        let rc = self.mem[i].rc;
        let ghost old_mem = self.mem@;
        let mut o = Object { kind: ObjectKind::Free { next: ObjectIndex { idx: 0 } }, rc };
        std::mem::swap(&mut self.mem[i], &mut o);
        proof { self.lemma_view_update(old_mem, i as int); }
        o.kind
    }

    /// Puts `kind` into slot `index`, keeping its reference count.
    pub fn set_kind(&mut self, index: ObjectIndex, kind: ObjectKind)
        requires
            in_bounds(old(self)@, index),
        ensures
            final(self)@ == with_slot(old(self)@, index, ObjectModel { kind: kind@, rc: slot(old(self)@, index).rc }),
    {
        assert(self.mem@.len() == self@.objs.len());
        let n = self.mem.len();
        assert(index.idx < n);
        let i = index.idx as usize;
        assert(self.mem@.map_values(|o: Object| o@)[i as int] == self.mem@[i as int]@);
        let rc = self.mem[i].rc;
        let ghost old_mem = self.mem@;
        self.mem[i] = Object { kind, rc };
        proof { self.lemma_view_update(old_mem, i as int); }
    }
}

} // verus!
