//! Rendering values as text and reading integers and booleans from text, as the
//! VM's casts do.
use vstd::prelude::*;
use vstd::string::*;
use super::value::{VMData, ObjectIndex, bits_of};

verus! {

/// Appends `c` to `s` (std's `String::push`).
#[verifier::external_body]
pub(crate) fn push_char(s: &mut String, c: char)
    ensures
        final(s)@ == old(s)@.push(c),
{
    s.push(c)
}

/// The character of a decimal digit.
pub open spec fn digit_char(d: nat) -> char {
    if d == 0 { '0' } else if d == 1 { '1' } else if d == 2 { '2' } else if d == 3 { '3' }
    else if d == 4 { '4' } else if d == 5 { '5' } else if d == 6 { '6' } else if d == 7 { '7' }
    else if d == 8 { '8' } else { '9' }
}

/// The value of a character that is a decimal digit.
pub open spec fn digit_value(c: char) -> Option<nat> {
    if '0' <= c && c <= '9' { Some((c as nat - '0' as nat) as nat) } else { None }
}

/// The decimal digits of `n`, without leading zeros ("0" for zero).
pub open spec fn decimal(n: nat) -> Seq<char>
    decreases n,
{
    if n < 10 {
        seq![digit_char(n)]
    } else {
        decimal(n / 10).push(digit_char(n % 10))
    }
}

/// The decimal text of a signed integer: a minus sign before a negative one.
pub open spec fn signed_decimal(i: int) -> Seq<char> {
    if i < 0 { seq!['-'] + decimal((-i) as nat) } else { decimal(i as nat) }
}

fn digit(d: u64) -> (c: char)
    requires
        d < 10,
    ensures
        c == digit_char(d as nat),
{
    if d == 0 { '0' } else if d == 1 { '1' } else if d == 2 { '2' } else if d == 3 { '3' }
    else if d == 4 { '4' } else if d == 5 { '5' } else if d == 6 { '6' } else if d == 7 { '7' }
    else if d == 8 { '8' } else { '9' }
}

/// The decimal text of `n`.
pub fn decimal_u64(n: u64) -> (r: String)
    ensures
        r@ == decimal(n as nat),
    decreases n,
{
    if n < 10 {
        let mut s = String::new();
        push_char(&mut s, digit(n));
        assert(s@ =~= decimal(n as nat));
        s
    } else {
        let mut s = decimal_u64(n / 10);
        push_char(&mut s, digit(n % 10));
        s
    }
}

/// The decimal text of `i`.
pub fn decimal_i64(i: i64) -> (r: String)
    ensures
        r@ == signed_decimal(i as int),
{
    if i < 0 {
        let mut s = String::new();
        push_char(&mut s, '-');
        let m: u64 = if i == i64::MIN { 9223372036854775808u64 } else { (-i) as u64 };
        let d = decimal_u64(m);
        s.append(d.as_str());
        assert(s@ =~= signed_decimal(i as int));
        s
    } else {
        decimal_u64(i as u64)
    }
}

/// The text of a string made of `prefix`, `body` and `suffix`.
fn framed(prefix: &str, body: &String, suffix: &str) -> (r: String)
    ensures
        r@ == prefix@ + body@ + suffix@,
{
    let mut s = String::from_str(prefix);
    s.append(body.as_str());
    s.append(suffix);
    s
}

/// How a value is displayed: integers and pointers in decimal, booleans as
/// `true` or `false`, a character between single quotes, a reference to an
/// object as `[@index]`, unit as `()`, the null value as `reserved`. A float
/// has no text here (`None`).
pub open spec fn display_of(v: VMData) -> Option<Seq<char>> {
    match v {
        VMData::Unit => Some(seq!['(', ')']),
        VMData::Null => Some(seq!['r', 'e', 's', 'e', 'r', 'v', 'e', 'd']),
        VMData::U64(u) => Some(decimal(u as nat)),
        VMData::I64(i) => Some(signed_decimal(i as int)),
        VMData::Float(_) => None,
        VMData::Bool(b) => Some(if b { seq!['t', 'r', 'u', 'e'] } else { seq!['f', 'a', 'l', 's', 'e'] }),
        VMData::Char(c) => Some(seq!['\'', c, '\'']),
        VMData::StackPtr(p) => Some(decimal(p as nat)),
        VMData::FnPtr(p) => Some(decimal(p as nat)),
        VMData::Str(o) => Some(seq!['[', '@'] + decimal(o.idx as nat) + seq![']']),
        VMData::List(o) => Some(seq!['[', '@'] + decimal(o.idx as nat) + seq![']']),
        VMData::Object(o) => Some(seq!['[', '@'] + decimal(o.idx as nat) + seq![']']),
    }
}

fn index_text(o: ObjectIndex) -> (r: String)
    ensures
        r@ == seq!['[', '@'] + decimal(o.idx as nat) + seq![']'],
{
    let mut s = String::new();
    push_char(&mut s, '[');
    push_char(&mut s, '@');
    let d = decimal_u64(o.idx);
    s.append(d.as_str());
    push_char(&mut s, ']');
    assert(s@ =~= seq!['[', '@'] + decimal(o.idx as nat) + seq![']']);
    s
}

fn chars_text(cs: &Vec<char>) -> (r: String)
    ensures
        r@ == cs@,
{
    let mut s = String::new();
    let mut k: usize = 0;
    while k < cs.len()
        invariant
            k <= cs@.len(),
            s@ == cs@.take(k as int),
        decreases cs@.len() - k,
    {
        push_char(&mut s, cs[k]);
        k += 1;
        assert(s@ =~= cs@.take(k as int));
    }
    assert(cs@.take(k as int) =~= cs@);
    s
}

/// The text of a value, as `display_of` gives it.
pub fn display(v: VMData) -> (r: Option<String>)
    ensures
        match r {
            Some(s) => display_of(v) == Some(s@),
            None => display_of(v) is None,
        },
{
    match v {
        VMData::Unit => Some(chars_text(&vec!['(', ')'])),
        VMData::Null => Some(chars_text(&vec!['r', 'e', 's', 'e', 'r', 'v', 'e', 'd'])),
        VMData::U64(u) => Some(decimal_u64(u)),
        VMData::I64(i) => Some(decimal_i64(i)),
        VMData::Float(_) => None,
        VMData::Bool(b) => if b {
            Some(chars_text(&vec!['t', 'r', 'u', 'e']))
        } else {
            Some(chars_text(&vec!['f', 'a', 'l', 's', 'e']))
        },
        VMData::Char(c) => Some(chars_text(&vec!['\'', c, '\''])),
        VMData::StackPtr(p) => Some(decimal_u64(p as u64)),
        VMData::FnPtr(p) => Some(decimal_u64(p as u64)),
        VMData::Str(o) => Some(index_text(o)),
        VMData::List(o) => Some(index_text(o)),
        VMData::Object(o) => Some(index_text(o)),
    }
}

/// Whether every character of `s` is a decimal digit.
pub open spec fn all_digits(s: Seq<char>) -> bool {
    forall|i: int| 0 <= i < s.len() ==> #[trigger] digit_value(s[i]) is Some
}

/// The number that the decimal digits `s` spell.
pub open spec fn digits_value(s: Seq<char>) -> nat
    decreases s.len(),
{
    if s.len() == 0 {
        0
    } else {
        digits_value(s.drop_last()) * 10 + match digit_value(s.last()) {
            Some(d) => d,
            None => 0,
        }
    }
}

pub proof fn lemma_digits_monotone(s: Seq<char>, k: int)
    requires
        0 <= k <= s.len(),
    ensures
        digits_value(s.take(k)) <= digits_value(s),
    decreases s.len() - k,
{
    if k < s.len() {
        lemma_digits_monotone(s, k + 1);
        assert(s.take(k + 1).drop_last() =~= s.take(k));
    } else {
        assert(s.take(k) =~= s);
    }
}

/// The integer that `s` spells as Rust reads an integer of the given bounds:
/// an optional sign (`-` only where negatives are allowed) and one or more
/// decimal digits, the value within `min..=max`.
pub open spec fn parse_integer(s: Seq<char>, min: int, max: int) -> Option<int> {
    let neg = s.len() > 0 && s[0] == '-' && min < 0;
    let body = if s.len() > 0 && (s[0] == '+' || (s[0] == '-' && min < 0)) { s.drop_first() } else { s };
    if body.len() == 0 || !all_digits(body) {
        None
    } else {
        let v = if neg { -(digits_value(body) as int) } else { digits_value(body) as int };
        if min <= v <= max { Some(v) } else { None }
    }
}

/// What `str::parse::<bool>` gives: `true` and `false` exactly.
pub open spec fn parse_boolean(s: Seq<char>) -> Option<bool> {
    if s == seq!['t', 'r', 'u', 'e'] {
        Some(true)
    } else if s == seq!['f', 'a', 'l', 's', 'e'] {
        Some(false)
    } else {
        None
    }
}

/// The characters of `s`.
pub fn chars_of(s: &String) -> (r: Vec<char>)
    ensures
        r@ == s@,
{
    let st = s.as_str();
    let n = st.unicode_len();
    let mut r: Vec<char> = Vec::new();
    let mut k: usize = 0;
    while k < n
        invariant
            n == st@.len(),
            st@ == s@,
            k <= n,
            r@ == s@.take(k as int),
        decreases n - k,
    {
        r.push(st.get_char(k));
        k += 1;
        assert(r@ =~= s@.take(k as int));
    }
    assert(s@.take(k as int) =~= s@);
    r
}

fn digit_of(c: char) -> (r: Option<u128>)
    ensures
        match digit_value(c) {
            Some(d) => r == Some(d as u128),
            None => r is None,
        },
{
    if '0' <= c && c <= '9' {
        Some((c as u32 - '0' as u32) as u128)
    } else {
        None
    }
}

/// The number that the digits `cs[start..]` spell, where they all are digits
/// and it does not exceed `limit`.
fn parse_magnitude(cs: &Vec<char>, start: usize, limit: u128) -> (r: Option<u128>)
    requires
        start <= cs@.len(),
        limit <= 18446744073709551616u128,
    ensures
        match r {
            Some(m) => all_digits(cs@.skip(start as int)) && m == digits_value(cs@.skip(start as int)) && m <= limit,
            None => !all_digits(cs@.skip(start as int)) || digits_value(cs@.skip(start as int)) > limit,
        },
{
    let ghost body = cs@.skip(start as int);
    let n = cs.len();
    let mut k: usize = start;
    let mut acc: u128 = 0;
    while k < n
        invariant
            n == cs@.len(),
            start <= k <= n,
            body == cs@.skip(start as int),
            limit <= 18446744073709551616u128,
            acc == digits_value(body.take(k - start)),
            acc <= limit,
            all_digits(body.take(k - start)),
        decreases n - k,
    {
        proof {
            assert(body.take(k - start + 1).drop_last() =~= body.take(k - start));
            assert(body.take(k - start + 1).last() == cs@[k as int]);
        }
        match digit_of(cs[k]) {
            Some(d) => {
                let next = acc * 10 + d;
                if next > limit {
                    proof {
                        if all_digits(body) {
                            lemma_digits_monotone(body, k - start + 1);
                        }
                    }
                    return None;
                }
                acc = next;
                proof {
                    assert forall|i: int| 0 <= i < body.take(k - start + 1).len() implies #[trigger] digit_value(body.take(k - start + 1)[i]) is Some by {
                        if i < k - start {
                            assert(body.take(k - start + 1)[i] == body.take(k - start)[i]);
                        }
                    }
                }
            },
            None => {
                proof {
                    assert(digit_value(body[k - start]) is None);
                }
                return None;
            },
        }
        k += 1;
    }
    assert(body.take(n - start) =~= body);
    Some(acc)
}

/// The `i64` that `s` spells (`str::parse::<i64>`).
pub fn parse_i64(s: &String) -> (r: Option<i64>)
    ensures
        match parse_integer(s@, i64::MIN as int, i64::MAX as int) {
            Some(v) => r == Some(v as i64),
            None => r is None,
        },
{
    let cs = chars_of(s);
    let n = cs.len();
    if n == 0 {
        return None;
    }
    let neg = cs[0] == '-';
    let start: usize = if cs[0] == '+' || cs[0] == '-' { 1 } else { 0 };
    if start >= n {
        return None;
    }
    assert(start == 1 ==> cs@.skip(1) =~= s@.drop_first());
    assert(start == 0 ==> cs@.skip(0) =~= s@);
    let limit: u128 = if neg { 9223372036854775808u128 } else { 9223372036854775807u128 };
    match parse_magnitude(&cs, start, limit) {
        Some(m) => {
            if neg {
                if m == 9223372036854775808u128 {
                    Some(i64::MIN)
                } else {
                    Some(-(m as i64))
                }
            } else {
                Some(m as i64)
            }
        },
        None => None,
    }
}

/// The `u64` that `s` spells (`str::parse::<u64>`).
pub fn parse_u64(s: &String) -> (r: Option<u64>)
    ensures
        match parse_integer(s@, 0, u64::MAX as int) {
            Some(v) => r == Some(v as u64),
            None => r is None,
        },
{
    let cs = chars_of(s);
    let n = cs.len();
    if n == 0 {
        return None;
    }
    let start: usize = if cs[0] == '+' { 1 } else { 0 };
    if start >= n {
        return None;
    }
    assert(start == 1 ==> cs@.skip(1) =~= s@.drop_first());
    assert(start == 0 ==> cs@.skip(0) =~= s@);
    match parse_magnitude(&cs, start, 18446744073709551615u128) {
        Some(m) => Some(m as u64),
        None => None,
    }
}

/// The boolean that `s` spells (`str::parse::<bool>`).
pub fn parse_bool(s: &String) -> (r: Option<bool>)
    ensures
        r == parse_boolean(s@),
{
    let cs = chars_of(s);
    if cs.len() == 4 && cs[0] == 't' && cs[1] == 'r' && cs[2] == 'u' && cs[3] == 'e' {
        assert(s@ =~= seq!['t', 'r', 'u', 'e']);
        Some(true)
    } else if cs.len() == 5 && cs[0] == 'f' && cs[1] == 'a' && cs[2] == 'l' && cs[3] == 's' && cs[4] == 'e' {
        assert(s@ =~= seq!['f', 'a', 'l', 's', 'e']);
        Some(false)
    } else {
        assert(s@ != seq!['t', 'r', 'u', 'e'] && s@ != seq!['f', 'a', 'l', 's', 'e']) by {
            if s@ == seq!['t', 'r', 'u', 'e'] {
                assert(cs@.len() == 4 && cs@[0] == 't' && cs@[1] == 'r' && cs@[2] == 'u' && cs@[3] == 'e');
            }
            if s@ == seq!['f', 'a', 'l', 's', 'e'] {
                assert(cs@.len() == 5 && cs@[0] == 'f');
            }
        }
        None
    }
}


/// Whether `u` is the code of a character: a Unicode scalar value.
pub open spec fn is_char_code(u: u32) -> bool {
    u < 0xD800 || (0xE000 <= u && u <= 0x10FFFF)
}

/// The character of code `u` (std's `char::from_u32`): `Some` exactly where `u`
/// is a Unicode scalar value.
#[verifier::external_body]
pub(crate) fn char_from_code(u: u32) -> (r: Option<char>)
    ensures
        r == (if is_char_code(u) { Some(u as char) } else { None::<char> }),
{
    char::from_u32(u)
}

/// A value read as a character: a character itself, else the character whose
/// code is the low 32 bits of the payload, where they are one.
pub open spec fn char_of(v: VMData) -> Option<char> {
    match v {
        VMData::Char(c) => Some(c),
        _ => {
            let u = (bits_of(v) % 0x1_0000_0000) as u32;
            if is_char_code(u) { Some(u as char) } else { None }
        },
    }
}

/// A value read as a character, as `char_of` gives it.
pub fn value_char(v: VMData) -> (r: Option<char>)
    ensures
        r == char_of(v),
{
    match v {
        VMData::Char(c) => Some(c),
        _ => {
            let u = (v.bits() % 0x1_0000_0000) as u32;
            char_from_code(u)
        },
    }
}

/// The number of bytes of `c` in UTF-8.
pub open spec fn utf8_width(c: char) -> nat {
    let u = c as u32;
    if u < 0x80 { 1 } else if u < 0x800 { 2 } else if u < 0x10000 { 3 } else { 4 }
}

/// The byte offset in UTF-8 of the character at position `j` of `s`.
pub open spec fn byte_offset(s: Seq<char>, j: int) -> nat
    decreases j,
{
    if j <= 0 || j > s.len() { 0 } else { byte_offset(s, j - 1) + utf8_width(s[j - 1]) }
}

/// The position of the first character from `j` on whose UTF-8 encoding starts
/// at byte `b`.
pub open spec fn char_from_byte(s: Seq<char>, b: nat, j: int) -> Option<int>
    decreases s.len() - j,
{
    if j < 0 || j >= s.len() {
        None
    } else if byte_offset(s, j) == b {
        Some(j)
    } else {
        char_from_byte(s, b, j + 1)
    }
}

/// The position of the character whose UTF-8 encoding starts at byte `b`, if
/// one does.
pub open spec fn char_at_byte(s: Seq<char>, b: nat) -> Option<int> {
    char_from_byte(s, b, 0)
}

pub proof fn lemma_byte_offset_bound(s: Seq<char>, j: int)
    requires
        0 <= j <= s.len(),
    ensures
        byte_offset(s, j) <= 4 * j,
    decreases j,
{
    if j > 0 {
        lemma_byte_offset_bound(s, j - 1);
    }
}

pub proof fn lemma_char_from_byte(s: Seq<char>, b: nat, j: int)
    requires
        0 <= j,
    ensures
        char_from_byte(s, b, j) matches Some(k) ==> j <= k < s.len(),
    decreases s.len() - j,
{
    if j < s.len() && byte_offset(s, j) != b {
        lemma_char_from_byte(s, b, j + 1);
    }
}

fn utf8_len(c: char) -> (r: u128)
    ensures
        r == utf8_width(c),
{
    let u = c as u32;
    if u < 0x80 { 1 } else if u < 0x800 { 2 } else if u < 0x10000 { 3 } else { 4 }
}

/// `s` with the character whose UTF-8 encoding starts at byte `b` replaced by
/// `c`; `None` where no character starts there.
pub fn replace_at_byte(s: &String, b: u64, c: char) -> (r: Option<String>)
    ensures
        match char_at_byte(s@, b as nat) {
            Some(j) => r is Some && r->Some_0@ == s@.update(j, c),
            None => r is None,
        },
{
    let cs = chars_of(s);
    let n = cs.len();
    let mut j: usize = 0;
    let mut off: u128 = 0;
    while j < n
        invariant
            j <= n,
            n == s@.len(),
            cs@ == s@,
            off == byte_offset(s@, j as int),
            char_at_byte(s@, b as nat) == char_from_byte(s@, b as nat, j as int),
        ensures
            j <= n,
            off == byte_offset(s@, j as int),
            char_at_byte(s@, b as nat) == char_from_byte(s@, b as nat, j as int),
            j < n ==> off == b as u128,
        decreases n - j,
    {
        if off == b as u128 {
            break;
        }
        proof { lemma_byte_offset_bound(s@, j as int); }
        off = off + utf8_len(cs[j]);
        j += 1;
    }
    if j >= n {
        return None;
    }
    let mut out = String::new();
    let mut k: usize = 0;
    while k < n
        invariant
            k <= n,
            j < n,
            n == s@.len(),
            cs@ == s@,
            out@ == s@.update(j as int, c).take(k as int),
        decreases n - k,
    {
        let x = if k == j { c } else { cs[k] };
        push_char(&mut out, x);
        k += 1;
        assert(out@ =~= s@.update(j as int, c).take(k as int));
    }
    assert(s@.update(j as int, c).take(n as int) =~= s@.update(j as int, c));
    Some(out)
}

} // verus!