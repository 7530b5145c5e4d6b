//! The value stack of the VM: a fixed array of `STACK_SIZE` slots and the index
//! of the first free one.
use vstd::prelude::*;
use super::error::{RuntimeError, RuntimeResult};
use super::value::{VMData, object_of};
use super::memory::{Memory, MemModel, dec_spec, inc_spec};

verus! {

/// The number of slots of the stack: 16 times 16384 bytes over the 16 bytes of a value.
pub const STACK_SIZE: usize = 16384;

/// The stack as its slots and the index of the first free one.
pub struct StackModel {
    pub values: Seq<VMData>,
    pub top: usize,
}

/// A frame of the stack: the slots from `base` up to `top`.
#[derive(Debug)]
pub struct StackFrame {
    pub top: usize,
    pub base: usize,
}

pub struct Stack {
    values: Vec<VMData>,
    pub top: usize,
}

impl View for Stack {
    type V = StackModel;

    closed spec fn view(&self) -> StackModel {
        StackModel { values: self.values@, top: self.top }
    }
}

/// Pushing `val` onto the stack.
pub open spec fn push_spec(s: StackModel, val: VMData) -> (StackModel, RuntimeResult<()>) {
    if s.top < STACK_SIZE {
        (StackModel { values: s.values.update(s.top as int, val), top: (s.top + 1) as usize }, Ok(()))
    } else {
        (s, Err(RuntimeError::StackOverflow))
    }
}

/// Popping the top value: on an empty stack `StackUnderflow`.
pub open spec fn pop_spec(s: StackModel) -> (StackModel, RuntimeResult<VMData>) {
    if s.top == 0 {
        (s, Err(RuntimeError::StackUnderflow))
    } else if s.top - 1 >= s.values.len() {
        (StackModel { top: (s.top - 1) as usize, ..s }, Err(RuntimeError::IndexOutOfBounds))
    } else {
        (StackModel { top: (s.top - 1) as usize, ..s }, Ok(s.values[s.top - 1]))
    }
}

/// Pushing `val` and adding a reference to the object it refers to.
pub open spec fn push_rc_spec(s: StackModel, m: MemModel, val: VMData) -> (StackModel, MemModel, RuntimeResult<()>) {
    if s.top < STACK_SIZE {
        let s1 = StackModel { values: s.values.update(s.top as int, val), top: s.top };
        match object_of(val) {
            Some(o) => {
                let (m1, r) = inc_spec(m, o);
                if r is Err {
                    (s1, m1, r)
                } else {
                    (StackModel { top: (s.top + 1) as usize, ..s1 }, m1, Ok(()))
                }
            },
            None => (StackModel { top: (s.top + 1) as usize, ..s1 }, m, Ok(())),
        }
    } else {
        (s, m, Err(RuntimeError::StackOverflow))
    }
}

/// Popping the top value and dropping the reference it holds.
pub open spec fn pop_rc_spec(s: StackModel, m: MemModel) -> (StackModel, MemModel, RuntimeResult<VMData>) {
    let (s1, r) = pop_spec(s);
    match r {
        Ok(v) => match object_of(v) {
            Some(o) => {
                let (m1, rr) = dec_spec(m, o);
                match rr {
                    Ok(_) => (s1, m1, Ok(v)),
                    Err(e) => (s1, m1, Err(e)),
                }
            },
            None => (s1, m, Ok(v)),
        },
        Err(e) => (s1, m, Err(e)),
    }
}

/// Dropping the references held by the slots `i..=last`, in order, until one fails.
pub open spec fn release_spec(values: Seq<VMData>, m: MemModel, i: int, last: int) -> (MemModel, RuntimeResult<()>)
    decreases last + 1 - i,
{
    if i > last {
        (m, Ok(()))
    } else if i < 0 || i >= values.len() {
        (m, Err(RuntimeError::IndexOutOfBounds))
    } else {
        match object_of(values[i]) {
            Some(o) => {
                let (m1, r) = dec_spec(m, o);
                if r is Err {
                    (m1, r)
                } else {
                    release_spec(values, m1, i + 1, last)
                }
            },
            None => release_spec(values, m, i + 1, last),
        }
    }
}


/// Popping right after pushing gives the pushed value back and the stack top
/// as it was: on any stack with a free slot, `push` succeeds and the `pop`
/// after it returns the value.
pub proof fn law_push_then_pop(s: Stack, v: VMData)
    requires
        s.wf(),
        s@.top < STACK_SIZE,
    ensures
        push_spec(s@, v).1 is Ok,
        pop_spec(push_spec(s@, v).0) == (StackModel { values: s@.values.update(s@.top as int, v), top: s@.top }, Ok::<VMData, RuntimeError>(v)),
        forall|j: int| 0 <= j < s@.top ==> #[trigger] pop_spec(push_spec(s@, v).0).0.values[j] == s@.values[j],
{
}

impl Stack {
    /// The stack is made of `STACK_SIZE` slots.
    pub open spec fn wf(&self) -> bool {
        self@.values.len() == STACK_SIZE
    }

    /// An empty stack whose slots hold unit.
    pub fn new() -> (r: Stack)
        ensures
            r.wf(),
            r@.top == 0,
            r@.values == Seq::new(STACK_SIZE as nat, |i: int| VMData::Unit),
    {
        let mut values: Vec<VMData> = Vec::new();
        let mut i: usize = 0;
        while i < STACK_SIZE
            invariant
                i <= STACK_SIZE,
                values@ == Seq::new(i as nat, |j: int| VMData::Unit),
            decreases STACK_SIZE - i,
        {
            values.push(VMData::Unit);
            i += 1;
            assert(values@ =~= Seq::new(i as nat, |j: int| VMData::Unit));
        }
        Stack { values, top: 0 }
    }

    /// The index of the first free slot.
    pub fn top(&self) -> (r: usize)
        ensures
            r == self@.top,
    {
        self.top
    }

    /// Sets the index of the first free slot; the slots keep their values.
    pub fn set_top(&mut self, top: usize)
        requires
            old(self).wf(),
        ensures
            final(self).wf(),
            final(self)@ == (StackModel { top: top, ..old(self)@ }),
    {
        self.top = top;
    }

    /// Empties the stack; the slots keep their values.
    pub fn clear(&mut self)
        requires
            old(self).wf(),
        ensures
            final(self).wf(),
            final(self)@ == (StackModel { top: 0, ..old(self)@ }),
    {
        self.top = 0;
    }

    pub fn push(&mut self, val: VMData) -> (r: RuntimeResult<()>)
        requires
            old(self).wf(),
        ensures
            final(self).wf(),
            (final(self)@, r) == push_spec(old(self)@, val),
    {
        if self.top < STACK_SIZE {
            self.values[self.top] = val;
            self.top += 1;
            Ok(())
        } else {
            Err(RuntimeError::StackOverflow)
        }
    }

    /// Pushes `val`, adding a reference to the object it refers to.
    pub fn push_with_rc(&mut self, val: VMData, mem: &mut Memory) -> (r: RuntimeResult<()>)
        requires
            old(self).wf(),
        ensures
            final(self).wf(),
            (final(self)@, final(mem)@, r) == push_rc_spec(old(self)@, old(mem)@, val),
    {
        if self.top < STACK_SIZE {
            self.values[self.top] = val;
            match val.object() {
                Some(o) => {
                    let r = mem.rc_inc(o);
                    if r.is_err() {
                        return r;
                    }
                },
                None => {},
            }
            self.top += 1;
            Ok(())
        } else {
            Err(RuntimeError::StackOverflow)
        }
    }

    /// Drops the references held by the slots from `new_top` up to and including
    /// the slot at `top`, then sets `top` to `new_top`.
    pub fn truncate(&mut self, new_top: usize, mem: &mut Memory) -> (r: RuntimeResult<()>)
        requires
            old(self).wf(),
        ensures
            final(self).wf(),
            final(self)@.values == old(self)@.values,
            (final(mem)@, r) == release_spec(old(self)@.values, old(mem)@, new_top as int, old(self)@.top as int),
            final(self)@.top == if r is Ok { new_top } else { old(self)@.top },
    {
        if new_top > self.top {
            self.top = new_top;
            return Ok(());
        }
        let mut i = new_top;
        let ghost m0 = mem@;
        loop
            invariant_except_break
                release_spec(self@.values, m0, new_top as int, self@.top as int)
                    == release_spec(self@.values, mem@, i as int, self@.top as int),
            invariant
                self.wf(),
                new_top <= i <= self.top,
                self@ == old(self)@,
                m0 == old(mem)@,
            ensures
                self.wf(),
                self@ == old(self)@,
                m0 == old(mem)@,
                release_spec(self@.values, m0, new_top as int, self@.top as int) == (mem@, Ok::<(), RuntimeError>(())),
            decreases self.top - i,
        {
            if i >= STACK_SIZE {
                return Err(RuntimeError::IndexOutOfBounds);
            }
            proof { reveal_with_fuel(release_spec, 2); }
            match self.values[i].object() {
                Some(o) => {
                    let r = mem.rc_dec(o);
                    if r.is_err() {
                        return r;
                    }
                },
                None => {},
            }
            if i == self.top {
                break;
            }
            i += 1;
        }
        self.top = new_top;
        Ok(())
    }

    pub fn pop(&mut self) -> (r: RuntimeResult<VMData>)
        requires
            old(self).wf(),
        ensures
            final(self).wf(),
            (final(self)@, r) == pop_spec(old(self)@),
    {
        if self.top == 0 {
            return Err(RuntimeError::StackUnderflow);
        }
        self.top = self.top - 1;
        if self.top >= STACK_SIZE {
            return Err(RuntimeError::IndexOutOfBounds);
        }
        Ok(self.values[self.top])
    }

    /// Pops the top value, dropping the reference it holds.
    pub fn pop_with_rc(&mut self, mem: &mut Memory) -> (r: RuntimeResult<VMData>)
        requires
            old(self).wf(),
        ensures
            final(self).wf(),
            (final(self)@, final(mem)@, r) == pop_rc_spec(old(self)@, old(mem)@),
    {
        let v = self.pop()?;
        match v.object() {
            Some(o) => {
                match mem.rc_dec(o) {
                    Ok(()) => Ok(v),
                    Err(e) => Err(e),
                }
            },
            None => Ok(v),
        }
    }

    /// The top value.
    pub fn last(&self) -> (r: RuntimeResult<VMData>)
        requires
            self.wf(),
        ensures
            self@.top == 0 ==> r == Err::<VMData, RuntimeError>(RuntimeError::StackUnderflow),
            0 < self@.top <= STACK_SIZE ==> r == Ok::<VMData, RuntimeError>(self@.values[self@.top - 1]),
            self@.top > STACK_SIZE ==> r == Err::<VMData, RuntimeError>(RuntimeError::IndexOutOfBounds),
    {
        if self.top != 0 {
            if self.top > STACK_SIZE {
                return Err(RuntimeError::IndexOutOfBounds);
            }
            Ok(self.values[self.top - 1])
        } else {
            Err(RuntimeError::StackUnderflow)
        }
    }

    /// Pushes all of `values`, provided that room stays for one more.
    pub fn extends(&mut self, values: &[VMData]) -> (r: RuntimeResult<()>)
        requires
            old(self).wf(),
        ensures
            final(self).wf(),
            old(self)@.top + values@.len() < STACK_SIZE ==> {
                &&& r is Ok
                &&& final(self)@.top == old(self)@.top + values@.len()
                &&& final(self)@.values == old(self)@.values.take(old(self)@.top as int)
                        + values@ + old(self)@.values.skip(old(self)@.top + values@.len())
            },
            old(self)@.top + values@.len() >= STACK_SIZE ==> final(self)@ == old(self)@
                && r == Err::<(), RuntimeError>(RuntimeError::StackOverflow),
    {
        if self.top >= STACK_SIZE || values.len() >= STACK_SIZE - self.top {
            return Err(RuntimeError::StackOverflow);
        }
        let t0 = self.top;
        let ghost v0 = self.values@;
        let mut k: usize = 0;
        while k < values.len()
            invariant
                self.wf(),
                t0 + values@.len() < STACK_SIZE,
                k <= values@.len(),
                self.top == t0 + k,
                v0.len() == STACK_SIZE,
                forall|j: int| 0 <= j < STACK_SIZE ==> #[trigger] self.values@[j] == if j < t0 {
                    v0[j]
                } else if j < t0 + k {
                    values@[j - t0]
                } else {
                    v0[j]
                },
            decreases values@.len() - k,
        {
            self.values[self.top] = values[k];
            self.top += 1;
            k += 1;
        }
        assert(self.values@ =~= v0.take(t0 as int) + values@ + v0.skip(t0 + k));
        Ok(())
    }

    /// The value in slot `index`.
    pub fn get(&self, index: usize) -> (r: VMData)
        requires
            self.wf(),
            index < STACK_SIZE,
        ensures
            r == self@.values[index as int],
    {
        self.values[index]
    }

    /// Puts `val` into slot `index`.
    pub fn set_value(&mut self, index: usize, val: VMData)
        requires
            old(self).wf(),
            index < STACK_SIZE,
        ensures
            final(self).wf(),
            final(self)@ == (StackModel { values: old(self)@.values.update(index as int, val), ..old(self)@ }),
    {
        self.values[index] = val;
    }

    /// The values of the slots below `top`.
    pub fn live_values(&self) -> (r: Vec<VMData>)
        requires
            self.wf(),
            self@.top <= STACK_SIZE,
        ensures
            r@ == self@.values.take(self@.top as int),
    {
        let mut r: Vec<VMData> = Vec::new();
        let mut k: usize = 0;
        while k < self.top
            invariant
                self.wf(),
                self.top <= STACK_SIZE,
                k <= self.top,
                r@ == self@.values.take(k as int),
            decreases self.top - k,
        {
            r.push(self.values[k]);
            k += 1;
            assert(r@ =~= self@.values.take(k as int));
        }
        r
    }
}

} // verus!
