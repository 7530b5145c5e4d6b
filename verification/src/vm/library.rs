//! The standard library functions that a program reaches through `ExternCall`,
//! over the stack and the object memory.
use vstd::prelude::*;
use super::error::{RuntimeError, RuntimeResult};
use super::value::{VMData, ObjectIndex, int_of, object_of};
use super::memory::{Memory, MemModel, KindModel, ObjectKind, put_spec, dec_spec, in_bounds, slot, with_slot, ObjectModel, mem_ok, lemma_mem_ok_dec, lemma_mem_ok_put, copy_values};
use super::stack::{Stack, StackModel, pop_spec, pop_rc_spec};
use rand::Rng;

verus! {

/// The stack and the memory as plain values.
pub struct Heap {
    pub stack: StackModel,
    pub mem: MemModel,
}

pub open spec fn h_pop(h: Heap) -> (Heap, RuntimeResult<VMData>) {
    let (st, r) = pop_spec(h.stack);
    (heap(st, h.mem), r)
}

pub open spec fn h_pop_rc(h: Heap) -> (Heap, RuntimeResult<VMData>) {
    let (st, m, r) = pop_rc_spec(h.stack, h.mem);
    (heap(st, m), r)
}

/// Popping a reference to an object.
pub open spec fn h_pop_obj(h: Heap) -> (Heap, RuntimeResult<ObjectIndex>) {
    let (h1, r) = h_pop(h);
    match r {
        Err(e) => (h1, Err(e)),
        Ok(v) => match object_of(v) {
            Some(o) => (h1, Ok(o)),
            None => (h1, Err(RuntimeError::TypeMismatchError)),
        },
    }
}

/// Popping a reference to an object, dropping the reference.
pub open spec fn h_pop_obj_rc(h: Heap) -> (Heap, RuntimeResult<ObjectIndex>) {
    let (h1, r) = h_pop_rc(h);
    match r {
        Err(e) => (h1, Err(e)),
        Ok(v) => match object_of(v) {
            Some(o) => (h1, Ok(o)),
            None => (h1, Err(RuntimeError::TypeMismatchError)),
        },
    }
}

/// Reading an object: its content, its reference being dropped.
pub open spec fn h_get(h: Heap, i: ObjectIndex) -> (Heap, RuntimeResult<KindModel>) {
    if !in_bounds(h.mem, i) {
        (h, Err(RuntimeError::IndexOutOfBounds))
    } else {
        let (m, r) = dec_spec(h.mem, i);
        match r {
            Ok(_) => (heap(h.stack, m), Ok(slot(h.mem, i).kind)),
            Err(e) => (heap(h.stack, m), Err(e)),
        }
    }
}

/// Opening an object for change: its reference is dropped, then its content
/// (as it stands after that) is read.
pub open spec fn h_get_mut(h: Heap, i: ObjectIndex) -> (Heap, RuntimeResult<KindModel>) {
    if !in_bounds(h.mem, i) {
        (h, Err(RuntimeError::IndexOutOfBounds))
    } else {
        let (m, r) = dec_spec(h.mem, i);
        match r {
            Ok(_) => (heap(h.stack, m), Ok(slot(m, i).kind)),
            Err(e) => (heap(h.stack, m), Err(e)),
        }
    }
}

/// Writing `k` into object `i`, its reference count kept.
pub open spec fn h_set(h: Heap, i: ObjectIndex, k: KindModel) -> Heap {
    heap(h.stack, with_slot(h.mem, i, ObjectModel { kind: k, rc: slot(h.mem, i).rc }))
}

/// Storing a string; any failure reads as `OutOfMemory`.
pub open spec fn h_put_string(h: Heap, s: Seq<char>) -> (Heap, RuntimeResult<VMData>) {
    let (m, r) = put_spec(h.mem, KindModel::String(s));
    match r {
        Ok(i) => (heap(h.stack, m), Ok(VMData::Str(i))),
        Err(_) => (heap(h.stack, m), Err(RuntimeError::OutOfMemory)),
    }
}

/// Storing a list; any failure reads as `OutOfMemory`.
pub open spec fn h_put_list(h: Heap, l: Seq<VMData>) -> (Heap, RuntimeResult<VMData>) {
    let (m, r) = put_spec(h.mem, KindModel::List(l));
    match r {
        Ok(i) => (heap(h.stack, m), Ok(VMData::List(i))),
        Err(_) => (heap(h.stack, m), Err(RuntimeError::OutOfMemory)),
    }
}

/// Whether a character is white space (Unicode `White_Space`, as
/// `char::is_whitespace` decides it).
pub open spec fn is_space(c: char) -> bool {
    let u = c as u32;
    (0x09 <= u <= 0x0d) || u == 0x20 || u == 0x85 || u == 0xa0 || u == 0x1680
        || (0x2000 <= u <= 0x200a) || u == 0x2028 || u == 0x2029 || u == 0x202f
        || u == 0x205f || u == 0x3000
}

/// The number of leading white-space characters of `s` from position `k` on.
pub open spec fn lead_spaces(s: Seq<char>, k: int) -> int
    decreases s.len() - k,
{
    if k < 0 || k >= s.len() || !is_space(s[k]) { 0 } else { 1 + lead_spaces(s, k + 1) }
}

/// The number of trailing white-space characters of `s[..k]`.
pub open spec fn trail_spaces(s: Seq<char>, k: int) -> int
    decreases k,
{
    if k <= 0 || k > s.len() || !is_space(s[k - 1]) { 0 } else { 1 + trail_spaces(s, k - 1) }
}

/// `s` without its leading and trailing white space (`str::trim`).
pub open spec fn trim_spec(s: Seq<char>) -> Seq<char> {
    let l = lead_spaces(s, 0);
    if l == s.len() {
        Seq::empty()
    } else {
        s.subrange(l, s.len() - trail_spaces(s, s.len() as int))
    }
}

/// Lexicographic comparison by code point: -1, 0 or 1 (`Ord` on `str`, whose
/// byte order over UTF-8 is code point order).
pub open spec fn lex_order(a: Seq<char>, b: Seq<char>) -> i64
    decreases a.len(),
{
    if a.len() == 0 {
        if b.len() == 0 { 0 } else { -1i64 }
    } else if b.len() == 0 {
        1
    } else if (a[0] as u32) < (b[0] as u32) {
        -1i64
    } else if (a[0] as u32) > (b[0] as u32) {
        1
    } else {
        lex_order(a.drop_first(), b.drop_first())
    }
}

/// What `str::to_uppercase` gives for `s`.
pub uninterp spec fn upper_of(s: Seq<char>) -> Seq<char>;

/// What `str::to_lowercase` gives for `s`.
pub uninterp spec fn lower_of(s: Seq<char>) -> Seq<char>;

/// Whether `d` occurs in `s` at position `i`.
pub open spec fn occurs_at(s: Seq<char>, d: Seq<char>, i: int) -> bool {
    0 <= i && i + d.len() <= s.len() && s.subrange(i, i + d.len()) == d
}

/// Whether `d` occurs somewhere in `s`.
pub open spec fn contains_text(s: Seq<char>, d: Seq<char>) -> bool {
    exists|i: int| occurs_at(s, d, i)
}

/// The pieces of `s` from `start` on, cut at the occurrences of a non-empty
/// `d`, the search for the next one going on at `i`: the text up to the first
/// occurrence at or after `i`, then the pieces after that occurrence.
pub open spec fn pieces_from(s: Seq<char>, d: Seq<char>, start: int, i: int) -> Seq<Seq<char>>
    decreases s.len() - i,
{
    if d.len() == 0 || i < start || i + d.len() > s.len() {
        seq![s.subrange(start, s.len() as int)]
    } else if s.subrange(i, i + d.len()) == d {
        seq![s.subrange(start, i)] + pieces_from(s, d, i + d.len(), i + d.len())
    } else {
        pieces_from(s, d, start, i + 1)
    }
}

/// The pieces that `str::split` cuts `s` into at the occurrences of `d`, found
/// from left to right without overlap. An empty `d` cuts before and after
/// every character: an empty piece, each character, an empty piece.
pub open spec fn split_of(s: Seq<char>, d: Seq<char>) -> Seq<Seq<char>> {
    if d.len() == 0 {
        seq![Seq::<char>::empty()] + s.map_values(|c: char| seq![c]) + seq![Seq::<char>::empty()]
    } else {
        pieces_from(s, d, 0, 0)
    }
}

/// The pieces joined, with `d` between each two.
pub open spec fn join_with(ps: Seq<Seq<char>>, d: Seq<char>) -> Seq<char>
    decreases ps.len(),
{
    if ps.len() == 0 {
        Seq::empty()
    } else if ps.len() == 1 {
        ps[0]
    } else {
        ps[0] + d + join_with(ps.drop_first(), d)
    }
}

/// The number of occurrences of a non-empty `d` in `s` from `i` on, found from
/// left to right without overlap.
pub open spec fn match_count(s: Seq<char>, d: Seq<char>, i: int) -> nat
    decreases s.len() - i,
{
    if d.len() == 0 || i < 0 || i + d.len() > s.len() {
        0
    } else if s.subrange(i, i + d.len()) == d {
        1 + match_count(s, d, i + d.len())
    } else {
        match_count(s, d, i + 1)
    }
}

/// The pieces from `start` rejoin to the text from `start`, hold no
/// occurrence of `d`, and number one more than the occurrences from `i`,
/// where none starts in `start..i`.
pub proof fn lemma_pieces_from(s: Seq<char>, d: Seq<char>, start: int, i: int)
    requires
        d.len() > 0,
        0 <= start <= i,
        start <= s.len(),
        forall|q: int| start <= q < i ==> !#[trigger] occurs_at(s, d, q),
    ensures
        join_with(pieces_from(s, d, start, i), d) == s.subrange(start, s.len() as int),
        forall|k: int| 0 <= k < pieces_from(s, d, start, i).len()
            ==> !contains_text(#[trigger] pieces_from(s, d, start, i)[k], d),
        pieces_from(s, d, start, i).len() == match_count(s, d, i) + 1,
    decreases s.len() - i,
{
    let dl = d.len() as int;
    let ps = pieces_from(s, d, start, i);
    if i + dl > s.len() {
        let x = s.subrange(start, s.len() as int);
        assert(ps =~= seq![x]);
        assert forall|k: int| 0 <= k < ps.len() implies !contains_text(#[trigger] ps[k], d) by {
            if contains_text(x, d) {
                let j = choose|j: int| occurs_at(x, d, j);
                assert(x.subrange(j, j + dl) =~= s.subrange(start + j, start + j + dl));
                assert(occurs_at(s, d, start + j));
            }
        }
    } else if s.subrange(i, i + dl) == d {
        let x = s.subrange(start, i);
        let rest = pieces_from(s, d, i + dl, i + dl);
        lemma_pieces_from(s, d, i + dl, i + dl);
        assert(ps == seq![x] + rest);
        assert((seq![x] + rest).drop_first() =~= rest);
        assert(rest.len() >= 1);
        assert(join_with(ps, d) == x + d + join_with(rest, d));
        assert(x + d + s.subrange(i + dl, s.len() as int) =~= s.subrange(start, s.len() as int));
        assert forall|k: int| 0 <= k < ps.len() implies !contains_text(#[trigger] ps[k], d) by {
            if k == 0 {
                if contains_text(x, d) {
                    let j = choose|j: int| occurs_at(x, d, j);
                    assert(x.subrange(j, j + dl) =~= s.subrange(start + j, start + j + dl));
                    assert(occurs_at(s, d, start + j));
                }
            } else {
                assert(ps[k] == rest[k - 1]);
            }
        }
    } else {
        assert(!occurs_at(s, d, i));
        lemma_pieces_from(s, d, start, i + 1);
    }
}

/// What `split` gives, rejoined with a non-empty delimiter, is the text it was
/// given; no piece holds the delimiter; and there is one piece more than
/// there are occurrences of the delimiter.
pub proof fn law_split_rejoins(s: Seq<char>, d: Seq<char>)
    requires
        d.len() > 0,
    ensures
        join_with(split_of(s, d), d) == s,
        forall|k: int| 0 <= k < split_of(s, d).len() ==> !contains_text(#[trigger] split_of(s, d)[k], d),
        split_of(s, d).len() == match_count(s, d, 0) + 1,
{
    lemma_pieces_from(s, d, 0, 0);
    assert(s.subrange(0, s.len() as int) =~= s);
}

/// `s` without its leading and trailing white space (std's `str::trim`).
#[verifier::external_body]
pub(crate) fn trim_text(s: &String) -> (r: String)
    ensures
        r@ == trim_spec(s@),
{
    s.trim().to_string()
}

/// `s` in upper case (std's `str::to_uppercase`).
#[verifier::external_body]
pub(crate) fn upper_text(s: &String) -> (r: String)
    ensures
        r@ == upper_of(s@),
{
    s.to_uppercase()
}

/// `s` in lower case (std's `str::to_lowercase`).
#[verifier::external_body]
pub(crate) fn lower_text(s: &String) -> (r: String)
    ensures
        r@ == lower_of(s@),
{
    s.to_lowercase()
}

/// The pieces of `s` between the occurrences of `d` (std's `str::split`), as
/// `split_of` states them.
#[verifier::external_body]
pub(crate) fn split_text(s: &String, d: &String) -> (r: Vec<String>)
    ensures
        r@.len() == split_of(s@, d@).len(),
        forall|i: int| 0 <= i < r@.len() ==> #[trigger] r@[i]@ == split_of(s@, d@)[i],
{
    s.split(d.as_str()).map(|p| p.to_string()).collect()
}

/// `a` against `b`: -1, 0 or 1 (std's `Ord::cmp` on `str`).
#[verifier::external_body]
pub(crate) fn compare_text(a: &String, b: &String) -> (r: i64)
    ensures
        r == lex_order(a@, b@),
{
    match a.as_str().cmp(b.as_str()) {
        std::cmp::Ordering::Less => -1,
        std::cmp::Ordering::Equal => 0,
        std::cmp::Ordering::Greater => 1,
    }
}

/// A number in `low..high`, drawn at random (rand's `Rng::gen_range` on the
/// thread-local generator).
#[verifier::external_body]
pub(crate) fn random_in(low: i64, high: i64) -> (r: i64)
    requires
        low < high,
    ensures
        low <= r < high,
{

    rand::thread_rng().gen_range(low..high)
}

/// The text of a string slot, else `TypeMismatchError`.
pub open spec fn as_text(k: KindModel) -> RuntimeResult<Seq<char>> {
    match k {
        KindModel::String(s) => Ok(s),
        _ => Err(RuntimeError::TypeMismatchError),
    }
}

/// The values of a list slot, else `TypeMismatchError`.
pub open spec fn as_values(k: KindModel) -> RuntimeResult<Seq<VMData>> {
    match k {
        KindModel::List(l) => Ok(l),
        _ => Err(RuntimeError::TypeMismatchError),
    }
}

/// Pop a string reference, read the string.
pub open spec fn pop_text(h: Heap, rc: bool) -> (Heap, RuntimeResult<Seq<char>>) {
    let (h1, r) = if rc { h_pop_obj_rc(h) } else { h_pop_obj(h) };
    match r {
        Err(e) => (h1, Err(e)),
        Ok(o) => {
            let (h2, k) = h_get(h1, o);
            match k {
                Err(e) => (h2, Err(e)),
                Ok(k) => (h2, as_text(k)),
            }
        },
    }
}

/// `str_len(s)`: the length of `s` in UTF-8 bytes.
pub open spec fn str_len_spec(h: Heap) -> (Heap, RuntimeResult<VMData>) {
    let (h1, r) = pop_text(h, false);
    match r {
        Err(e) => (h1, Err(e)),
        Ok(s) => (h1, Ok(VMData::I64((vstd::utf8::encode_utf8(s).len() as usize) as i64))),
    }
}

/// `str_cmp(a, b)`, `b` on top: `a` against... the top string against the one below.
pub open spec fn str_cmp_spec(h: Heap) -> (Heap, RuntimeResult<VMData>) {
    let (h1, r1) = h_pop_obj(h);
    match r1 {
        Err(e) => (h1, Err(e)),
        Ok(o1) => {
            let (h2, r2) = h_pop_obj(h1);
            match r2 {
                Err(e) => (h2, Err(e)),
                Ok(o2) => {
                    let (h3, k1) = h_get(h2, o1);
                    match k1 {
                        Err(e) => (h3, Err(e)),
                        Ok(k1) => {
                            let (h4, k2) = h_get(h3, o2);
                            match k2 {
                                Err(e) => (h4, Err(e)),
                                Ok(k2) => match (as_text(k1), as_text(k2)) {
                                    (Ok(s1), Ok(s2)) => (h4, Ok(VMData::I64(lex_order(s1, s2)))),
                                    (Err(e), _) => (h4, Err(e)),
                                    (_, Err(e)) => (h4, Err(e)),
                                },
                            }
                        },
                    }
                },
            }
        },
    }
}

/// The string functions that make one new string of one: `trim`,
/// `to_upper`, `to_lower`.
#[derive(Debug, Clone, Copy, PartialEq, Eq, Structural)]
pub enum TextMap {
    Trim,
    Upper,
    Lower,
}

pub open spec fn text_map(f: TextMap, s: Seq<char>) -> Seq<char> {
    match f {
        TextMap::Trim => trim_spec(s),
        TextMap::Upper => upper_of(s),
        TextMap::Lower => lower_of(s),
    }
}

/// `trim(s)`, `to_upper(s)`, `to_lower(s)`: a new string.
pub open spec fn text_map_spec(h: Heap, f: TextMap) -> (Heap, RuntimeResult<VMData>) {
    let (h1, r) = pop_text(h, true);
    match r {
        Err(e) => (h1, Err(e)),
        Ok(s) => h_put_string(h1, text_map(f, s)),
    }
}

/// Storing the strings `pieces[k..]`, in order, until one fails.
pub open spec fn put_strings(h: Heap, pieces: Seq<Seq<char>>, k: int) -> (Heap, RuntimeResult<Seq<VMData>>)
    decreases pieces.len() - k,
{
    if k < 0 || k >= pieces.len() {
        (h, Ok(Seq::empty()))
    } else {
        let (h1, r) = h_put_string(h, pieces[k]);
        match r {
            Err(e) => (h1, Err(e)),
            Ok(v) => {
                let (h2, rest) = put_strings(h1, pieces, k + 1);
                match rest {
                    Err(e) => (h2, Err(e)),
                    Ok(vs) => (h2, Ok(seq![v] + vs)),
                }
            },
        }
    }
}

/// The texts of some strings.
pub open spec fn texts(v: Seq<String>) -> Seq<Seq<char>> {
    v.map_values(|p: String| p@)
}

/// Storing the strings `pieces`, in order, then a list of them.
pub open spec fn store_strings_spec(h: Heap, pieces: Seq<Seq<char>>) -> (Heap, RuntimeResult<VMData>) {
    let (h1, vs) = put_strings(h, pieces, 0);
    match vs {
        Err(e) => (h1, Err(e)),
        Ok(vs) => h_put_list(h1, vs),
    }
}

/// `split(s, d)`, `d` on top: a new list of new strings.
pub open spec fn split_spec(h: Heap) -> (Heap, RuntimeResult<VMData>) {
    let (h1, r1) = h_pop_obj_rc(h);
    match r1 {
        Err(e) => (h1, Err(e)),
        Ok(od) => {
            let (h2, r2) = h_pop_obj_rc(h1);
            match r2 {
                Err(e) => (h2, Err(e)),
                Ok(os) => {
                    let (h3, kd) = h_get(h2, od);
                    match kd {
                        Err(e) => (h3, Err(e)),
                        Ok(kd) => match as_text(kd) {
                            Err(e) => (h3, Err(e)),
                            Ok(d) => {
                                let (h4, ks) = h_get(h3, os);
                                match ks {
                                    Err(e) => (h4, Err(e)),
                                    Ok(ks) => match as_text(ks) {
                                        Err(e) => (h4, Err(e)),
                                        Ok(s) => store_strings_spec(h4, split_of(s, d)),
                                    },
                                }
                            },
                        },
                    }
                },
            }
        },
    }
}

/// Popping `a` then `b` as integers, giving `f(a, b)`.
pub open spec fn int2_spec(h: Heap, f: spec_fn(i64, i64) -> RuntimeResult<VMData>) -> (Heap, RuntimeResult<VMData>) {
    let (h1, ra) = h_pop(h);
    match ra {
        Err(e) => (h1, Err(e)),
        Ok(a) => {
            let (h2, rb) = h_pop(h1);
            match rb {
                Err(e) => (h2, Err(e)),
                Ok(b) => (h2, f(int_of(a), int_of(b))),
            }
        },
    }
}

/// `abs(x)`.
pub open spec fn abs_spec(h: Heap) -> (Heap, RuntimeResult<VMData>) {
    let (h1, r) = h_pop(h);
    match r {
        Err(e) => (h1, Err(e)),
        Ok(v) => if int_of(v) == i64::MIN {
            (h1, Err(RuntimeError::InvalidOperation))
        } else {
            (h1, Ok(VMData::I64((if int_of(v) < 0 { -(int_of(v) as int) } else { int_of(v) as int }) as i64)))
        },
    }
}

/// `b` to the power `e`, the exponent taken modulo 2^32 as `i64::pow` takes a
/// `u32`; `None` where the result leaves `i64`.
pub open spec fn pow_spec(b: int, e: nat) -> int
    decreases e,
{
    if e == 0 { 1 } else { b * pow_spec(b, (e - 1) as nat) }
}

pub open spec fn pow_result(base: i64, exponent: i64) -> RuntimeResult<VMData> {
    let e = (exponent as int) % 0x1_0000_0000;
    let v = pow_spec(base as int, e as nat);
    if i64::MIN <= v <= i64::MAX { Ok(VMData::I64(v as i64)) } else { Err(RuntimeError::InvalidOperation) }
}

/// `min(a, b)` and `max(a, b)`.
pub open spec fn min_result(v1: i64, v2: i64) -> RuntimeResult<VMData> {
    Ok(VMData::I64(if v1 <= v2 { v1 } else { v2 }))
}

pub open spec fn max_result(v1: i64, v2: i64) -> RuntimeResult<VMData> {
    Ok(VMData::I64(if v1 >= v2 { v1 } else { v2 }))
}

/// `pow(base, exponent)`, the exponent on top.
pub open spec fn pow_instr_spec(h: Heap) -> (Heap, RuntimeResult<VMData>) {
    int2_spec(h, |e: i64, b: i64| pow_result(b, e))
}

/// `len(list)`.
pub open spec fn len_spec(h: Heap) -> (Heap, RuntimeResult<VMData>) {
    let (h1, r) = h_pop_obj(h);
    match r {
        Err(e) => (h1, Err(e)),
        Ok(o) => {
            let (h2, k) = h_get(h1, o);
            match k {
                Err(e) => (h2, Err(e)),
                Ok(k) => match as_values(k) {
                    Err(e) => (h2, Err(e)),
                    Ok(l) => (h2, Ok(VMData::I64(l.len() as i64))),
                },
            }
        },
    }
}

/// An index read as `index as usize` does: a negative one is out of any range.
pub open spec fn index_ok(i: i64, len: nat) -> bool {
    0 <= i < len
}

/// `get(list, index)`, the index on top.
pub open spec fn list_get_spec(h: Heap) -> (Heap, RuntimeResult<VMData>) {
    let (h1, ri) = h_pop(h);
    match ri {
        Err(e) => (h1, Err(e)),
        Ok(iv) => {
            let (h2, r) = h_pop_obj(h1);
            match r {
                Err(e) => (h2, Err(e)),
                Ok(o) => {
                    let (h3, k) = h_get(h2, o);
                    match k {
                        Err(e) => (h3, Err(e)),
                        Ok(k) => match as_values(k) {
                            Err(e) => (h3, Err(e)),
                            Ok(l) => if index_ok(int_of(iv), l.len()) {
                                (h3, Ok(l[int_of(iv) as int]))
                            } else {
                                (h3, Err(RuntimeError::IndexOutOfBounds))
                            },
                        },
                    }
                },
            }
        },
    }
}

/// The changes of a list that `set`, `push`, `pop` and `remove` make.
#[derive(Debug, Clone, Copy, PartialEq, Eq, Structural)]
pub enum ListEdit {
    Assign,
    Push,
    Pop,
    Remove,
}

/// A list edit: the operands are popped (the value first where there is one,
/// then the index where there is one, then the list), the list is opened for
/// change, then changed.
pub open spec fn list_edit_spec(h: Heap, op: ListEdit) -> (Heap, RuntimeResult<VMData>) {
    let (h1, rv) = if op == ListEdit::Assign || op == ListEdit::Push { h_pop(h) } else { (h, Ok(VMData::Unit)) };
    match rv {
        Err(e) => (h1, Err(e)),
        Ok(val) => {
            let (h2, ri) = if op == ListEdit::Assign || op == ListEdit::Remove { h_pop(h1) } else { (h1, Ok(VMData::Unit)) };
            match ri {
                Err(e) => (h2, Err(e)),
                Ok(iv) => {
                    let (h3, r) = h_pop_obj(h2);
                    match r {
                        Err(e) => (h3, Err(e)),
                        Ok(o) => {
                            let (h4, k) = h_get_mut(h3, o);
                            match k {
                                Err(e) => (h4, Err(e)),
                                Ok(k) => match as_values(k) {
                                    Err(e) => (h4, Err(e)),
                                    Ok(l) => {
                                        let i = int_of(iv);
                                        match op {
                                            ListEdit::Assign => if index_ok(i, l.len()) {
                                                (h_set(h4, o, KindModel::List(l.update(i as int, val))), Ok(VMData::Unit))
                                            } else {
                                                (h4, Err(RuntimeError::IndexOutOfBounds))
                                            },
                                            ListEdit::Push => (h_set(h4, o, KindModel::List(l.push(val))), Ok(VMData::Unit)),
                                            ListEdit::Pop => if l.len() > 0 {
                                                (h_set(h4, o, KindModel::List(l.drop_last())), Ok(l.last()))
                                            } else {
                                                (h4, Err(RuntimeError::IndexOutOfBounds))
                                            },
                                            ListEdit::Remove => if index_ok(i, l.len()) {
                                                (h_set(h4, o, KindModel::List(l.remove(i as int))), Ok(l[i as int]))
                                            } else {
                                                (h4, Err(RuntimeError::IndexOutOfBounds))
                                            },
                                        }
                                    },
                                },
                            }
                        },
                    }
                },
            }
        },
    }
}

/// `slice(list, start, end)`, `end` on top: a new list of `list[start..end]`.
pub open spec fn slice_spec(h: Heap) -> (Heap, RuntimeResult<VMData>) {
    let (h1, re) = h_pop(h);
    match re {
        Err(e) => (h1, Err(e)),
        Ok(ev) => {
            let (h2, rs) = h_pop(h1);
            match rs {
                Err(e) => (h2, Err(e)),
                Ok(sv) => {
                    let (h3, r) = h_pop_obj(h2);
                    match r {
                        Err(e) => (h3, Err(e)),
                        Ok(o) => {
                            let (h4, k) = h_get(h3, o);
                            match k {
                                Err(e) => (h4, Err(e)),
                                Ok(k) => match as_values(k) {
                                    Err(e) => (h4, Err(e)),
                                    Ok(l) => {
                                        let (st, en) = (int_of(sv), int_of(ev));
                                        if 0 <= st <= en <= l.len() {
                                            h_put_list(h4, l.subrange(st as int, en as int))
                                        } else {
                                            (h4, Err(RuntimeError::IndexOutOfBounds))
                                        }
                                    },
                                },
                            }
                        },
                    }
                },
            }
        },
    }
}


pub open spec fn heap(st: StackModel, m: MemModel) -> Heap {
    Heap { stack: st, mem: m }
}

/// Pops a reference to an object.
pub fn pop_obj(stack: &mut Stack) -> (r: RuntimeResult<ObjectIndex>)
    requires
        old(stack).wf(),
    ensures
        final(stack).wf(),
        forall|m: MemModel| #[trigger] h_pop_obj(heap(old(stack)@, m)) == (heap(final(stack)@, m), r),
{
    let v = stack.pop()?;
    match v.object() {
        Some(o) => Ok(o),
        None => Err(RuntimeError::TypeMismatchError),
    }
}

/// Pops a reference to an object, dropping the reference.
pub fn pop_obj_rc(stack: &mut Stack, mem: &mut Memory) -> (r: RuntimeResult<ObjectIndex>)
    requires
        old(stack).wf(),
        mem_ok(old(mem)@),
    ensures
        final(stack).wf(),
        mem_ok(final(mem)@),
        h_pop_obj_rc(heap(old(stack)@, old(mem)@)) == (heap(final(stack)@, final(mem)@), r),
{
    proof {
        let (s1, r1) = pop_spec(old(stack)@);
        if let Ok(v) = r1 {
            if let Some(o) = object_of(v) {
                lemma_mem_ok_dec(old(mem)@, o);
            }
        }
    }
    let v = stack.pop_with_rc(mem)?;
    match v.object() {
        Some(o) => Ok(o),
        None => Err(RuntimeError::TypeMismatchError),
    }
}

/// Reads object `i`, dropping the reference.
pub fn get_obj(mem: &mut Memory, i: ObjectIndex) -> (r: RuntimeResult<ObjectKind>)
    requires
        mem_ok(old(mem)@),
    ensures
        mem_ok(final(mem)@),
        forall|st: StackModel| #[trigger] h_get(heap(st, old(mem)@), i) == (heap(st, final(mem)@), match r {
            Ok(k) => Ok::<KindModel, RuntimeError>(k@),
            Err(e) => Err(e),
        }),
{
    proof { lemma_mem_ok_dec(old(mem)@, i); }
    mem.get(i)
}

/// The memory with the content of slot `i` taken out.
pub open spec fn taken(m: MemModel, i: ObjectIndex) -> MemModel {
    with_slot(m, i, ObjectModel { kind: KindModel::Free(ObjectIndex { idx: 0 }), rc: slot(m, i).rc })
}

pub proof fn lemma_put_back(m: MemModel, i: ObjectIndex, k: KindModel)
    requires
        in_bounds(m, i),
    ensures
        with_slot(taken(m, i), i, ObjectModel { kind: k, rc: slot(taken(m, i), i).rc })
            == with_slot(m, i, ObjectModel { kind: k, rc: slot(m, i).rc }),
{
    assert(with_slot(taken(m, i), i, ObjectModel { kind: k, rc: slot(taken(m, i), i).rc }).objs
        =~= with_slot(m, i, ObjectModel { kind: k, rc: slot(m, i).rc }).objs);
}

/// Opens object `i` for change, dropping the reference: its content is taken
/// out, to be put back with `Memory::set_kind`.
pub fn get_obj_mut(mem: &mut Memory, i: ObjectIndex) -> (r: RuntimeResult<ObjectKind>)
    requires
        mem_ok(old(mem)@),
    ensures
        mem_ok(final(mem)@),
        match r {
            Ok(k) => {
                &&& in_bounds(old(mem)@, i)
                &&& dec_spec(old(mem)@, i).1 is Ok
                &&& in_bounds(dec_spec(old(mem)@, i).0, i)
                &&& k@ == slot(dec_spec(old(mem)@, i).0, i).kind
                &&& final(mem)@ == taken(dec_spec(old(mem)@, i).0, i)
            },
            Err(e) => {
                ||| !in_bounds(old(mem)@, i) && e == RuntimeError::IndexOutOfBounds && final(mem)@ == old(mem)@
                ||| in_bounds(old(mem)@, i) && dec_spec(old(mem)@, i) == (final(mem)@, Err::<(), RuntimeError>(e))
            },
        },
{
    proof { lemma_mem_ok_dec(old(mem)@, i); super::memory::lemma_dec_monotone(old(mem)@, i); }
    if i.idx >= mem.len() as u64 {
        return Err(RuntimeError::IndexOutOfBounds);
    }
    match mem.rc_dec(i) {
        Err(e) => return Err(e),
        Ok(()) => {},
    }
    let k = mem.take_kind(i);
    Ok(k)
}

/// Stores the string `text`; any failure reads as `OutOfMemory`.
pub fn put_string(mem: &mut Memory, text: String) -> (r: RuntimeResult<VMData>)
    requires
        mem_ok(old(mem)@),
    ensures
        mem_ok(final(mem)@),
        forall|st: StackModel| #[trigger] h_put_string(heap(st, old(mem)@), text@) == (heap(st, final(mem)@), r),
{
    proof { lemma_mem_ok_put(old(mem)@, KindModel::String(text@)); }
    match mem.put(ObjectKind::String(text)) {
        Ok(i) => Ok(VMData::Str(i)),
        Err(_) => Err(RuntimeError::OutOfMemory),
    }
}

/// Stores the list `values`; any failure reads as `OutOfMemory`.
pub fn put_list(mem: &mut Memory, values: Vec<VMData>) -> (r: RuntimeResult<VMData>)
    requires
        mem_ok(old(mem)@),
    ensures
        mem_ok(final(mem)@),
        forall|st: StackModel| #[trigger] h_put_list(heap(st, old(mem)@), values@) == (heap(st, final(mem)@), r),
{
    proof { lemma_mem_ok_put(old(mem)@, KindModel::List(values@)); }
    match mem.put(ObjectKind::List(values)) {
        Ok(i) => Ok(VMData::List(i)),
        Err(_) => Err(RuntimeError::OutOfMemory),
    }
}

/// Pops a string reference and reads the string.
pub fn pop_string(stack: &mut Stack, mem: &mut Memory, rc: bool) -> (r: RuntimeResult<String>)
    requires
        old(stack).wf(),
        mem_ok(old(mem)@),
    ensures
        final(stack).wf(),
        mem_ok(final(mem)@),
        pop_text(heap(old(stack)@, old(mem)@), rc) == (heap(final(stack)@, final(mem)@), match r {
            Ok(t) => Ok::<Seq<char>, RuntimeError>(t@),
            Err(e) => Err(e),
        }),
{
    let o = if rc { pop_obj_rc(stack, mem)? } else { pop_obj(stack)? };
    let k = get_obj(mem, o)?;
    match k {
        ObjectKind::String(t) => Ok(t),
        _ => Err(RuntimeError::TypeMismatchError),
    }
}

/// `str_len(s)`: the length of `s` in UTF-8 bytes.
pub fn str_len(stack: &mut Stack, mem: &mut Memory) -> (r: RuntimeResult<VMData>)
    requires
        old(stack).wf(),
        mem_ok(old(mem)@),
    ensures
        final(stack).wf(),
        mem_ok(final(mem)@),
        str_len_spec(heap(old(stack)@, old(mem)@)) == (heap(final(stack)@, final(mem)@), r),
{
    let t = pop_string(stack, mem, false)?;
    let n = t.as_str().len();
    Ok(VMData::I64(n as i64))
}

/// `str_cmp`: the string on top against the one below it: -1, 0 or 1.
pub fn str_cmp(stack: &mut Stack, mem: &mut Memory) -> (r: RuntimeResult<VMData>)
    requires
        old(stack).wf(),
        mem_ok(old(mem)@),
    ensures
        final(stack).wf(),
        mem_ok(final(mem)@),
        str_cmp_spec(heap(old(stack)@, old(mem)@)) == (heap(final(stack)@, final(mem)@), r),
{
    let o1 = pop_obj(stack)?;
    let o2 = pop_obj(stack)?;
    let k1 = get_obj(mem, o1)?;
    let k2 = get_obj(mem, o2)?;
    match (k1, k2) {
        (ObjectKind::String(s1), ObjectKind::String(s2)) => Ok(VMData::I64(compare_text(&s1, &s2))),
        _ => Err(RuntimeError::TypeMismatchError),
    }
}

/// `trim(s)`, `to_upper(s)` or `to_lower(s)`: a new string.
pub fn text_map_fn(stack: &mut Stack, mem: &mut Memory, f: TextMap) -> (r: RuntimeResult<VMData>)
    requires
        old(stack).wf(),
        mem_ok(old(mem)@),
    ensures
        final(stack).wf(),
        mem_ok(final(mem)@),
        text_map_spec(heap(old(stack)@, old(mem)@), f) == (heap(final(stack)@, final(mem)@), r),
{
    let t = pop_string(stack, mem, true)?;
    let out = match f {
        TextMap::Trim => trim_text(&t),
        TextMap::Upper => upper_text(&t),
        TextMap::Lower => lower_text(&t),
    };
    put_string(mem, out)
}

/// `split(s, d)`: a new list of new strings, the pieces of `s` between the
/// occurrences of `d`.
pub fn split(stack: &mut Stack, mem: &mut Memory) -> (r: RuntimeResult<VMData>)
    requires
        old(stack).wf(),
        mem_ok(old(mem)@),
    ensures
        final(stack).wf(),
        mem_ok(final(mem)@),
        split_spec(heap(old(stack)@, old(mem)@)) == (heap(final(stack)@, final(mem)@), r),
{
    let od = pop_obj_rc(stack, mem)?;
    let os = pop_obj_rc(stack, mem)?;
    let kd = get_obj(mem, od)?;
    let d = match kd {
        ObjectKind::String(d) => d,
        _ => return Err(RuntimeError::TypeMismatchError),
    };
    let ks = get_obj(mem, os)?;
    let t = match ks {
        ObjectKind::String(t) => t,
        _ => return Err(RuntimeError::TypeMismatchError),
    };
    let pieces = split_text(&t, &d);
    let ghost ps = split_of(t@, d@);
    assert(texts(pieces@) =~= ps);
    put_string_list(mem, pieces)
}

/// Stores each of `pieces` as a new string, in order, then a new list of them;
/// any failure reads as `OutOfMemory`.
pub fn put_string_list(mem: &mut Memory, pieces: Vec<String>) -> (r: RuntimeResult<VMData>)
    requires
        mem_ok(old(mem)@),
    ensures
        mem_ok(final(mem)@),
        forall|st: StackModel| #[trigger] store_strings_spec(heap(st, old(mem)@), texts(pieces@))
            == (heap(st, final(mem)@), r),
{
    let ghost ps = texts(pieces@);
    let ghost m0 = mem@;
    let mut values: Vec<VMData> = Vec::new();
    let mut k: usize = 0;
    while k < pieces.len()
        invariant
            mem_ok(mem@),
            m0 == old(mem)@,
            ps == texts(pieces@),
            k <= pieces@.len(),
            forall|st: StackModel| ({
                let (hk, rk) = put_strings(heap(st, mem@), ps, k as int);
                #[trigger] put_strings(heap(st, m0), ps, 0) == (hk, match rk {
                    Ok(vs) => Ok::<Seq<VMData>, RuntimeError>(values@ + vs),
                    Err(e) => Err(e),
                })
            }),
        decreases pieces@.len() - k,
    {
        let piece = pieces[k].clone();
        let ghost mb = mem@;
        assert(piece@ == ps[k as int]);
        let v = match put_string(mem, piece) {
            Ok(v) => v,
            Err(e) => {
                assert forall|st: StackModel| #[trigger] store_strings_spec(heap(st, m0), ps) == (heap(st, mem@), Err::<VMData, RuntimeError>(e)) by {
                    assert(put_strings(heap(st, mb), ps, k as int) == (heap(st, mem@), Err::<Seq<VMData>, RuntimeError>(e)));
                    assert(put_strings(heap(st, m0), ps, 0) == (heap(st, mem@), Err::<Seq<VMData>, RuntimeError>(e)));
                }
                return Err(e);
            },
        };
        let ghost before = values@;
        values.push(v);
        proof {
            assert forall|st: StackModel| ({
                let (hk, rk) = put_strings(heap(st, mem@), ps, k as int + 1);
                #[trigger] put_strings(heap(st, m0), ps, 0) == (hk, match rk {
                    Ok(vs) => Ok::<Seq<VMData>, RuntimeError>(values@ + vs),
                    Err(e) => Err(e),
                })
            }) by {
                assert(h_put_string(heap(st, mb), ps[k as int]) == (heap(st, mem@), Ok::<VMData, RuntimeError>(v)));
                let (hk, rk) = put_strings(heap(st, mem@), ps, k as int + 1);
                match rk {
                    Ok(vs) => { assert(values@ + vs =~= before + (seq![v] + vs)); },
                    Err(_) => {},
                }
            }
        }
        k += 1;
    }
    put_list(mem, values)
}

/// `abs(x)`.
pub fn abs(stack: &mut Stack, mem: &mut Memory) -> (r: RuntimeResult<VMData>)
    requires
        old(stack).wf(),
        mem_ok(old(mem)@),
    ensures
        final(stack).wf(),
        final(mem)@ == old(mem)@,
        abs_spec(heap(old(stack)@, old(mem)@)) == (heap(final(stack)@, final(mem)@), r),
{
    let v = stack.pop()?.as_i64();
    if v == i64::MIN {
        return Err(RuntimeError::InvalidOperation);
    }
    Ok(VMData::I64(if v < 0 { -v } else { v }))
}

/// `base` to the power `exponent`, the exponent taken modulo 2^32.
pub fn pow_i64(base: i64, exponent: i64) -> (r: RuntimeResult<VMData>)
    ensures
        r == pow_result(base, exponent),
{
    let e: u64 = (((exponent as i128) + 9223372036854775808i128) % 4294967296i128) as u64;
    proof {
        assert(((exponent as int) + 9223372036854775808int) % 4294967296int == (exponent as int) % 4294967296int) by (nonlinear_arith);
    }
    if base == 0 || base == 1 {
        proof { lemma_pow_small(base as int, e as nat); }
        return Ok(VMData::I64(if e == 0 { 1 } else { base }));
    }
    if base == -1 {
        proof { lemma_pow_minus_one(e as nat); }
        return Ok(VMData::I64(if e % 2 == 0 { 1 } else { -1 }));
    }
    let mut acc: i64 = 1;
    let mut k: u64 = 0;
    while k < e
        invariant
            k <= e,
            acc as int == pow_spec(base as int, k as nat),
            base != 0 && base != 1 && base != -1,
            e == (exponent as int) % 4294967296int,
        decreases e - k,
    {
        match acc.checked_mul(base) {
            Some(p) => {
                acc = p;
                k += 1;
            },
            None => {
                proof { lemma_pow_grows(base as int, k as nat, e as nat); }
                return Err(RuntimeError::InvalidOperation);
            },
        }
    }
    Ok(VMData::I64(acc))
}

pub proof fn lemma_pow_small(b: int, e: nat)
    requires
        b == 0 || b == 1,
    ensures
        pow_spec(b, e) == if e == 0 { 1 } else { b },
    decreases e,
{
    if e > 0 {
        lemma_pow_small(b, (e - 1) as nat);
    }
}

pub proof fn lemma_pow_minus_one(e: nat)
    ensures
        pow_spec(-1, e) == if e % 2 == 0 { 1int } else { -1int },
    decreases e,
{
    if e > 0 {
        lemma_pow_minus_one((e - 1) as nat);
    }
}

pub proof fn lemma_pow_abs_monotone(b: int, k: nat, e: nat)
    requires
        abs_of(b) >= 2,
        k <= e,
    ensures
        abs_of(pow_spec(b, k)) <= abs_of(pow_spec(b, e)),
    decreases e - k,
{
    if k < e {
        lemma_pow_abs_monotone(b, k, (e - 1) as nat);
        let p = pow_spec(b, (e - 1) as nat);
        assert(abs_of(b * p) == abs_of(b) * abs_of(p)) by (nonlinear_arith);
        assert(abs_of(p) <= abs_of(b) * abs_of(p)) by (nonlinear_arith)
            requires abs_of(b) >= 2, abs_of(p) >= 0;
    }
}

pub open spec fn abs_of(x: int) -> int {
    if x < 0 { -x } else { x }
}

/// Where `base^(k+1)` leaves `i64`, so does every higher power.
pub proof fn lemma_pow_grows(b: int, k: nat, e: nat)
    requires
        b != 0 && b != 1 && b != -1,
        k < e,
        !(i64::MIN <= b * pow_spec(b, k) <= i64::MAX),
    ensures
        !(i64::MIN <= pow_spec(b, e) <= i64::MAX),
{
    assert(abs_of(b) >= 2);
    assert(pow_spec(b, k + 1) == b * pow_spec(b, k));
    assert(abs_of(pow_spec(b, k + 1)) >= 0x8000_0000_0000_0000);
    if e > k + 1 {
        lemma_pow_abs_monotone(b, k + 1, (e - 1) as nat);
        let p = pow_spec(b, (e - 1) as nat);
        assert(pow_spec(b, e) == b * p);
        assert(abs_of(b * p) == abs_of(b) * abs_of(p)) by (nonlinear_arith);
        assert(abs_of(b) * abs_of(p) >= 2 * abs_of(p)) by (nonlinear_arith)
            requires abs_of(b) >= 2, abs_of(p) >= 0;
    }
}

/// `pow(base, exponent)`, the exponent on top.
pub fn pow(stack: &mut Stack, mem: &mut Memory) -> (r: RuntimeResult<VMData>)
    requires
        old(stack).wf(),
    ensures
        final(stack).wf(),
        final(mem)@ == old(mem)@,
        pow_instr_spec(heap(old(stack)@, old(mem)@)) == (heap(final(stack)@, final(mem)@), r),
{
    let exponent = stack.pop()?.as_i64();
    let base = stack.pop()?.as_i64();
    pow_i64(base, exponent)
}

/// `min(a, b)` (`MinMax::Min`) or `max(a, b)` (`MinMax::Max`).
#[derive(Debug, Clone, Copy, PartialEq, Eq, Structural)]
pub enum MinMax {
    Min,
    Max,
}

pub open spec fn min_max_spec(h: Heap, f: MinMax) -> (Heap, RuntimeResult<VMData>) {
    match f {
        MinMax::Min => int2_spec(h, |v1: i64, v2: i64| min_result(v1, v2)),
        MinMax::Max => int2_spec(h, |v1: i64, v2: i64| max_result(v1, v2)),
    }
}

/// `min(a, b)` or `max(a, b)`.
pub fn min_max(stack: &mut Stack, mem: &mut Memory, f: MinMax) -> (r: RuntimeResult<VMData>)
    requires
        old(stack).wf(),
    ensures
        final(stack).wf(),
        final(mem)@ == old(mem)@,
        min_max_spec(heap(old(stack)@, old(mem)@), f) == (heap(final(stack)@, final(mem)@), r),
{
    let v1 = stack.pop()?.as_i64();
    let v2 = stack.pop()?.as_i64();
    match f {
        MinMax::Min => Ok(VMData::I64(if v1 <= v2 { v1 } else { v2 })),
        MinMax::Max => Ok(VMData::I64(if v1 >= v2 { v1 } else { v2 })),
    }
}

/// `random(min, max)`, `max` on top: a number in `min..max` drawn at random.
pub fn random(stack: &mut Stack, mem: &mut Memory) -> (r: RuntimeResult<VMData>)
    requires
        old(stack).wf(),
    ensures
        final(stack).wf(),
        final(mem)@ == old(mem)@,
        ({
            let (h2, rr) = int2_spec(heap(old(stack)@, old(mem)@), |a: i64, b: i64| Ok::<VMData, RuntimeError>(VMData::Unit));
            &&& heap(final(stack)@, final(mem)@) == h2
            &&& match rr {
                Err(e) => r == Err::<VMData, RuntimeError>(e),
                Ok(_) => {
                    let (hi, lo) = (int_of(h_pop(heap(old(stack)@, old(mem)@)).1->Ok_0),
                        int_of(h_pop(h_pop(heap(old(stack)@, old(mem)@)).0).1->Ok_0));
                    if lo < hi {
                        r matches Ok(VMData::I64(x)) && lo <= x < hi
                    } else {
                        r == Err::<VMData, RuntimeError>(RuntimeError::InvalidOperation)
                    }
                },
            }
        }),
{
    let high = stack.pop()?.as_i64();
    let low = stack.pop()?.as_i64();
    if low < high {
        Ok(VMData::I64(random_in(low, high)))
    } else {
        Err(RuntimeError::InvalidOperation)
    }
}

/// `len(list)`.
pub fn len(stack: &mut Stack, mem: &mut Memory) -> (r: RuntimeResult<VMData>)
    requires
        old(stack).wf(),
        mem_ok(old(mem)@),
    ensures
        final(stack).wf(),
        mem_ok(final(mem)@),
        len_spec(heap(old(stack)@, old(mem)@)) == (heap(final(stack)@, final(mem)@), r),
{
    let o = pop_obj(stack)?;
    let k = get_obj(mem, o)?;
    match k {
        ObjectKind::List(l) => Ok(VMData::I64(l.len() as i64)),
        _ => Err(RuntimeError::TypeMismatchError),
    }
}

/// `get(list, index)`.
pub fn list_get(stack: &mut Stack, mem: &mut Memory) -> (r: RuntimeResult<VMData>)
    requires
        old(stack).wf(),
        mem_ok(old(mem)@),
    ensures
        final(stack).wf(),
        mem_ok(final(mem)@),
        list_get_spec(heap(old(stack)@, old(mem)@)) == (heap(final(stack)@, final(mem)@), r),
{
    let i = stack.pop()?.as_i64();
    let o = pop_obj(stack)?;
    let k = get_obj(mem, o)?;
    match k {
        ObjectKind::List(l) => if 0 <= i && (i as u64) < l.len() as u64 {
            Ok(l[i as usize])
        } else {
            Err(RuntimeError::IndexOutOfBounds)
        },
        _ => Err(RuntimeError::TypeMismatchError),
    }
}

/// `set(list, index, value)`, `push(list, value)`, `pop(list)` or
/// `remove(list, index)`.
pub fn list_edit(stack: &mut Stack, mem: &mut Memory, op: ListEdit) -> (r: RuntimeResult<VMData>)
    requires
        old(stack).wf(),
        mem_ok(old(mem)@),
    ensures
        final(stack).wf(),
        mem_ok(final(mem)@),
        list_edit_spec(heap(old(stack)@, old(mem)@), op) == (heap(final(stack)@, final(mem)@), r),
{
    let val = if op == ListEdit::Assign || op == ListEdit::Push { stack.pop()? } else { VMData::Unit };
    let iv = if op == ListEdit::Assign || op == ListEdit::Remove { stack.pop()? } else { VMData::Unit };
    let o = pop_obj(stack)?;
    let ghost m3 = mem@;
    let k = get_obj_mut(mem, o)?;
    let ghost m4 = dec_spec(m3, o).0;
    let mut l = match k {
        ObjectKind::List(l) => l,
        other => {
            mem.set_kind(o, other);
            proof { lemma_put_back(m4, o, slot(m4, o).kind); assert(m4.objs =~= mem@.objs); }
            return Err(RuntimeError::TypeMismatchError);
        },
    };
    let i = iv.as_i64();
    let ghost l0 = l@;
    match op {
        ListEdit::Assign => {
            if !(0 <= i && (i as u64) < l.len() as u64) {
                mem.set_kind(o, ObjectKind::List(l));
                proof { lemma_put_back(m4, o, KindModel::List(l0)); assert(m4.objs =~= mem@.objs); }
                return Err(RuntimeError::IndexOutOfBounds);
            }
            l[i as usize] = val;
            mem.set_kind(o, ObjectKind::List(l));
            proof { lemma_put_back(m4, o, KindModel::List(l0.update(i as int, val))); }
            Ok(VMData::Unit)
        },
        ListEdit::Push => {
            l.push(val);
            mem.set_kind(o, ObjectKind::List(l));
            proof { lemma_put_back(m4, o, KindModel::List(l0.push(val))); }
            Ok(VMData::Unit)
        },
        ListEdit::Pop => {
            match l.pop() {
                Some(v) => {
                    mem.set_kind(o, ObjectKind::List(l));
                    proof { lemma_put_back(m4, o, KindModel::List(l0.drop_last())); }
                    Ok(v)
                },
                None => {
                    mem.set_kind(o, ObjectKind::List(l));
                    proof { lemma_put_back(m4, o, KindModel::List(l0)); assert(m4.objs =~= mem@.objs); }
                    Err(RuntimeError::IndexOutOfBounds)
                },
            }
        },
        ListEdit::Remove => {
            if !(0 <= i && (i as u64) < l.len() as u64) {
                mem.set_kind(o, ObjectKind::List(l));
                proof { lemma_put_back(m4, o, KindModel::List(l0)); assert(m4.objs =~= mem@.objs); }
                return Err(RuntimeError::IndexOutOfBounds);
            }
            let v = l.remove(i as usize);
            mem.set_kind(o, ObjectKind::List(l));
            proof { lemma_put_back(m4, o, KindModel::List(l0.remove(i as int))); }
            Ok(v)
        },
    }
}

/// `slice(list, start, end)`: a new list of `list[start..end]`.
pub fn slice(stack: &mut Stack, mem: &mut Memory) -> (r: RuntimeResult<VMData>)
    requires
        old(stack).wf(),
        mem_ok(old(mem)@),
    ensures
        final(stack).wf(),
        mem_ok(final(mem)@),
        slice_spec(heap(old(stack)@, old(mem)@)) == (heap(final(stack)@, final(mem)@), r),
{
    let end = stack.pop()?.as_i64();
    let start = stack.pop()?.as_i64();
    let o = pop_obj(stack)?;
    let k = get_obj(mem, o)?;
    match k {
        ObjectKind::List(l) => {
            if 0 <= start && start <= end && (end as u64) <= l.len() as u64 {
                let mut out: Vec<VMData> = Vec::new();
                let first: usize = start as usize;
                let last: usize = end as usize;
                assert(first as int == start as int && last as int == end as int);
                let mut j: usize = first;
                while j < last
                    invariant
                        first as int == start as int,
                        last as int == end as int,
                        0 <= first <= last <= l@.len(),
                        first <= j <= last,
                        out@ == l@.subrange(first as int, j as int),
                    decreases last - j,
                {
                    out.push(l[j]);
                    j += 1;
                    assert(out@ =~= l@.subrange(first as int, j as int));
                }
                put_list(mem, out)
            } else {
                Err(RuntimeError::IndexOutOfBounds)
            }
        },
        _ => Err(RuntimeError::TypeMismatchError),
    }
}

} // verus!
