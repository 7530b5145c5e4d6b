//! The standard libraries that a program imports, the functions they bring, and
//! the running of those functions that compute over the stack and the memory.
//! The others (files, the console, the clock, chance, floats) are run by the
//! caller of the VM.
use vstd::prelude::*;
use super::error::{RuntimeError, RuntimeResult};
use super::value::{VMData, int_of};
use super::memory::{Memory, MemModel, KindModel, ObjectKind, Class, put_spec, mem_ok, lemma_mem_ok_put};
use super::stack::{Stack, StackModel};
use super::library::{
    Heap, heap, h_pop_obj_rc, h_get, h_put_string, as_text, ListEdit, TextMap, MinMax,
    len_spec, list_get_spec, list_edit_spec, slice_spec, abs_spec, pow_instr_spec, min_max_spec,
    str_len_spec, text_map_spec, split_spec, str_cmp_spec, pop_obj_rc, get_obj, put_string,
    len, list_get, list_edit, slice, abs, pow, min_max, str_len, text_map_fn, split, str_cmp,
};

verus! {

/// The standard libraries.
#[derive(Debug, Clone, Copy, PartialEq, Eq, Structural)]
pub enum StdLibrary {
    File,
    Io,
    List,
    Math,
    String,
    Time,
}

/// The functions of the standard libraries.
#[derive(Debug, Clone, Copy, PartialEq, Eq, Structural)]
pub enum ExternFunction {
    ReadDir,
    ReadFile,
    WriteFile,
    FileExists,
    RemoveFile,
    Print,
    Println,
    Input,
    Len,
    Get,
    SetAt,
    Push,
    Pop,
    Remove,
    Slice,
    Abs,
    Pow,
    Sqrt,
    Min,
    Max,
    Round,
    Random,
    StrLen,
    Trim,
    ToUpper,
    ToLower,
    Split,
    StrCmp,
    Now,
    FormatTimeIso,
    FormatTime,
    Elapsed,
}

/// The library that brings a function.
pub open spec fn library_of(f: ExternFunction) -> StdLibrary {
    match f {
        ExternFunction::ReadDir | ExternFunction::ReadFile | ExternFunction::WriteFile
        | ExternFunction::FileExists | ExternFunction::RemoveFile => StdLibrary::File,
        ExternFunction::Print | ExternFunction::Println | ExternFunction::Input => StdLibrary::Io,
        ExternFunction::Len | ExternFunction::Get | ExternFunction::SetAt | ExternFunction::Push
        | ExternFunction::Pop | ExternFunction::Remove | ExternFunction::Slice => StdLibrary::List,
        ExternFunction::Abs | ExternFunction::Pow | ExternFunction::Sqrt | ExternFunction::Min
        | ExternFunction::Max | ExternFunction::Round | ExternFunction::Random => StdLibrary::Math,
        ExternFunction::StrLen | ExternFunction::Trim | ExternFunction::ToUpper
        | ExternFunction::ToLower | ExternFunction::Split | ExternFunction::StrCmp => StdLibrary::String,
        ExternFunction::Now | ExternFunction::FormatTimeIso | ExternFunction::FormatTime
        | ExternFunction::Elapsed => StdLibrary::Time,
    }
}

/// The library of that name.
pub open spec fn library_named(name: Seq<char>) -> Option<StdLibrary> {
    if name == "file"@ {
        Some(StdLibrary::File)
    } else if name == "io"@ {
        Some(StdLibrary::Io)
    } else if name == "list"@ {
        Some(StdLibrary::List)
    } else if name == "math"@ {
        Some(StdLibrary::Math)
    } else if name == "string"@ {
        Some(StdLibrary::String)
    } else if name == "time"@ {
        Some(StdLibrary::Time)
    } else {
        None
    }
}

/// The function of that name.
pub open spec fn extern_named(name: Seq<char>) -> Option<ExternFunction> {
    if name == "read_dir"@ { Some(ExternFunction::ReadDir) }
    else if name == "read_file"@ { Some(ExternFunction::ReadFile) }
    else if name == "write_file"@ { Some(ExternFunction::WriteFile) }
    else if name == "file_exists"@ { Some(ExternFunction::FileExists) }
    else if name == "remove_file"@ { Some(ExternFunction::RemoveFile) }
    else if name == "print"@ { Some(ExternFunction::Print) }
    else if name == "println"@ { Some(ExternFunction::Println) }
    else if name == "input"@ { Some(ExternFunction::Input) }
    else if name == "len"@ { Some(ExternFunction::Len) }
    else if name == "get"@ { Some(ExternFunction::Get) }
    else if name == "set"@ { Some(ExternFunction::SetAt) }
    else if name == "push"@ { Some(ExternFunction::Push) }
    else if name == "pop"@ { Some(ExternFunction::Pop) }
    else if name == "remove"@ { Some(ExternFunction::Remove) }
    else if name == "slice"@ { Some(ExternFunction::Slice) }
    else if name == "abs"@ { Some(ExternFunction::Abs) }
    else if name == "pow"@ { Some(ExternFunction::Pow) }
    else if name == "sqrt"@ { Some(ExternFunction::Sqrt) }
    else if name == "min"@ { Some(ExternFunction::Min) }
    else if name == "max"@ { Some(ExternFunction::Max) }
    else if name == "round"@ { Some(ExternFunction::Round) }
    else if name == "random"@ { Some(ExternFunction::Random) }
    else if name == "str_len"@ { Some(ExternFunction::StrLen) }
    else if name == "trim"@ { Some(ExternFunction::Trim) }
    else if name == "to_upper"@ { Some(ExternFunction::ToUpper) }
    else if name == "to_lower"@ { Some(ExternFunction::ToLower) }
    else if name == "split"@ { Some(ExternFunction::Split) }
    else if name == "str_cmp"@ { Some(ExternFunction::StrCmp) }
    else if name == "now"@ { Some(ExternFunction::Now) }
    else if name == "format_time_iso"@ { Some(ExternFunction::FormatTimeIso) }
    else if name == "format_time"@ { Some(ExternFunction::FormatTime) }
    else if name == "elapsed"@ { Some(ExternFunction::Elapsed) }
    else { None }
}

/// Whether `s` spells `lit`.
fn text_is(s: &String, lit: &str) -> (r: bool)
    ensures
        r == (s@ == lit@),
{
    let t = String::from_str(lit);
    s.eq(&t)
}

impl StdLibrary {
    /// The library of that name.
    pub fn from_name(name: &String) -> (r: Option<StdLibrary>)
        ensures
            r == library_named(name@),
    {
        if text_is(name, "file") {
            Some(StdLibrary::File)
        } else if text_is(name, "io") {
            Some(StdLibrary::Io)
        } else if text_is(name, "list") {
            Some(StdLibrary::List)
        } else if text_is(name, "math") {
            Some(StdLibrary::Math)
        } else if text_is(name, "string") {
            Some(StdLibrary::String)
        } else if text_is(name, "time") {
            Some(StdLibrary::Time)
        } else {
            None
        }
    }
}

impl ExternFunction {
    /// The function of that name.
    pub fn from_name(name: &String) -> (r: Option<ExternFunction>)
        ensures
            r == extern_named(name@),
    {
        if text_is(name, "read_dir") { Some(ExternFunction::ReadDir) }
        else if text_is(name, "read_file") { Some(ExternFunction::ReadFile) }
        else if text_is(name, "write_file") { Some(ExternFunction::WriteFile) }
        else if text_is(name, "file_exists") { Some(ExternFunction::FileExists) }
        else if text_is(name, "remove_file") { Some(ExternFunction::RemoveFile) }
        else if text_is(name, "print") { Some(ExternFunction::Print) }
        else if text_is(name, "println") { Some(ExternFunction::Println) }
        else if text_is(name, "input") { Some(ExternFunction::Input) }
        else if text_is(name, "len") { Some(ExternFunction::Len) }
        else if text_is(name, "get") { Some(ExternFunction::Get) }
        else if text_is(name, "set") { Some(ExternFunction::SetAt) }
        else if text_is(name, "push") { Some(ExternFunction::Push) }
        else if text_is(name, "pop") { Some(ExternFunction::Pop) }
        else if text_is(name, "remove") { Some(ExternFunction::Remove) }
        else if text_is(name, "slice") { Some(ExternFunction::Slice) }
        else if text_is(name, "abs") { Some(ExternFunction::Abs) }
        else if text_is(name, "pow") { Some(ExternFunction::Pow) }
        else if text_is(name, "sqrt") { Some(ExternFunction::Sqrt) }
        else if text_is(name, "min") { Some(ExternFunction::Min) }
        else if text_is(name, "max") { Some(ExternFunction::Max) }
        else if text_is(name, "round") { Some(ExternFunction::Round) }
        else if text_is(name, "random") { Some(ExternFunction::Random) }
        else if text_is(name, "str_len") { Some(ExternFunction::StrLen) }
        else if text_is(name, "trim") { Some(ExternFunction::Trim) }
        else if text_is(name, "to_upper") { Some(ExternFunction::ToUpper) }
        else if text_is(name, "to_lower") { Some(ExternFunction::ToLower) }
        else if text_is(name, "split") { Some(ExternFunction::Split) }
        else if text_is(name, "str_cmp") { Some(ExternFunction::StrCmp) }
        else if text_is(name, "now") { Some(ExternFunction::Now) }
        else if text_is(name, "format_time_iso") { Some(ExternFunction::FormatTimeIso) }
        else if text_is(name, "format_time") { Some(ExternFunction::FormatTime) }
        else if text_is(name, "elapsed") { Some(ExternFunction::Elapsed) }
        else { None }
    }

    /// The library that brings the function.
    pub fn library(&self) -> (r: StdLibrary)
        ensures
            r == library_of(*self),
    {
        match self {
            ExternFunction::ReadDir | ExternFunction::ReadFile | ExternFunction::WriteFile
            | ExternFunction::FileExists | ExternFunction::RemoveFile => StdLibrary::File,
            ExternFunction::Print | ExternFunction::Println | ExternFunction::Input => StdLibrary::Io,
            ExternFunction::Len | ExternFunction::Get | ExternFunction::SetAt | ExternFunction::Push
            | ExternFunction::Pop | ExternFunction::Remove | ExternFunction::Slice => StdLibrary::List,
            ExternFunction::Abs | ExternFunction::Pow | ExternFunction::Sqrt | ExternFunction::Min
            | ExternFunction::Max | ExternFunction::Round | ExternFunction::Random => StdLibrary::Math,
            ExternFunction::StrLen | ExternFunction::Trim | ExternFunction::ToUpper
            | ExternFunction::ToLower | ExternFunction::Split | ExternFunction::StrCmp => StdLibrary::String,
            ExternFunction::Now | ExternFunction::FormatTimeIso | ExternFunction::FormatTime
            | ExternFunction::Elapsed => StdLibrary::Time,
        }
    }

    /// Whether the VM runs the function itself: those that only compute over
    /// the stack and the memory.
    pub fn runs_in_vm(&self) -> (r: bool)
        ensures
            r == runs_here(*self),
    {
        match self {
            ExternFunction::ReadDir | ExternFunction::ReadFile | ExternFunction::WriteFile
            | ExternFunction::FileExists | ExternFunction::RemoveFile | ExternFunction::Print
            | ExternFunction::Println | ExternFunction::Input | ExternFunction::Sqrt
            | ExternFunction::Round | ExternFunction::Random | ExternFunction::Now => false,
            _ => true,
        }
    }
}

/// The functions that the VM runs itself; the others read or write files, the
/// console or the clock, draw at random or compute on floats.
pub open spec fn runs_here(f: ExternFunction) -> bool {
    !(f == ExternFunction::ReadDir || f == ExternFunction::ReadFile || f == ExternFunction::WriteFile
        || f == ExternFunction::FileExists || f == ExternFunction::RemoveFile || f == ExternFunction::Print
        || f == ExternFunction::Println || f == ExternFunction::Input || f == ExternFunction::Sqrt
        || f == ExternFunction::Round || f == ExternFunction::Random || f == ExternFunction::Now)
}

/// Where the part of `s` after its last `/` starts.
pub open spec fn segment_start(s: Seq<char>, k: int) -> int
    decreases k,
{
    if k <= 0 || k > s.len() {
        0
    } else if s[k - 1] == '/' {
        k
    } else {
        segment_start(s, k - 1)
    }
}

/// The part of a library's path after its last `/`: its name.
pub open spec fn last_segment(s: Seq<char>) -> Seq<char> {
    s.subrange(segment_start(s, s.len() as int), s.len() as int)
}

pub proof fn lemma_segment_start(s: Seq<char>, k: int)
    requires
        0 <= k <= s.len(),
    ensures
        0 <= segment_start(s, k) <= k,
    decreases k,
{
    if k > 0 && s[k - 1] != '/' {
        lemma_segment_start(s, k - 1);
    }
}

/// The name of a library, the part of its path after the last `/`.
pub fn library_name(path: &String) -> (r: String)
    ensures
        r@ == last_segment(path@),
{
    let cs = super::text::chars_of(path);
    let n = cs.len();
    let mut k: usize = n;
    while k > 0 && cs[k - 1] != '/'
        invariant
            k <= n,
            n == path@.len(),
            cs@ == path@,
            segment_start(path@, n as int) == segment_start(path@, k as int),
        decreases k,
    {
        k -= 1;
    }
    proof { lemma_segment_start(path@, n as int); }
    let mut out = String::new();
    let mut j: usize = k;
    while j < n
        invariant
            k <= j <= n,
            n == path@.len(),
            cs@ == path@,
            out@ == path@.subrange(k as int, j as int),
        decreases n - j,
    {
        super::text::push_char(&mut out, cs[j]);
        j += 1;
        assert(out@ =~= path@.subrange(k as int, j as int));
    }
    out
}

/// A time as the standard library keeps it: an object whose first two fields
/// are the seconds and nanoseconds since the UNIX epoch.
pub open spec fn time_of(k: KindModel) -> RuntimeResult<(i64, i64)> {
    match k {
        KindModel::Class(fs) => if fs.len() >= 2 {
            Ok((int_of(fs[0]), int_of(fs[1])))
        } else {
            Err(RuntimeError::InvalidOperation)
        },
        _ => Err(RuntimeError::TypeMismatchError),
    }
}

/// Storing an object with these fields; any failure reads as `OutOfMemory`.
pub open spec fn h_put_object(h: Heap, fields: Seq<VMData>) -> (Heap, RuntimeResult<VMData>) {
    let (m, r) = put_spec(h.mem, KindModel::Class(fields));
    match r {
        Ok(i) => (heap(h.stack, m), Ok(VMData::Object(i))),
        Err(_) => (heap(h.stack, m), Err(RuntimeError::OutOfMemory)),
    }
}

/// `elapsed(start, end)`, `end` on top: a new time, `end - start` field by field.
pub open spec fn elapsed_spec(h: Heap) -> (Heap, RuntimeResult<VMData>) {
    let (h1, r1) = h_pop_obj_rc(h);
    match r1 {
        Err(e) => (h1, Err(e)),
        Ok(oe) => {
            let (h2, r2) = h_pop_obj_rc(h1);
            match r2 {
                Err(e) => (h2, Err(e)),
                Ok(os) => {
                    let (h3, ks) = h_get(h2, os);
                    match ks {
                        Err(e) => (h3, Err(e)),
                        Ok(ks) => match time_of(ks) {
                            Err(e) => (h3, Err(e)),
                            Ok(start) => {
                                let (h4, ke) = h_get(h3, oe);
                                match ke {
                                    Err(e) => (h4, Err(e)),
                                    Ok(ke) => match time_of(ke) {
                                        Err(e) => (h4, Err(e)),
                                        Ok(end) => {
                                            let ds = end.0 - start.0;
                                            let dn = end.1 - start.1;
                                            if i64::MIN <= ds <= i64::MAX && i64::MIN <= dn <= i64::MAX {
                                                h_put_object(h4, seq![VMData::I64(ds as i64), VMData::I64(dn as i64)])
                                            } else {
                                                (h4, Err(RuntimeError::InvalidOperation))
                                            }
                                        },
                                    },
                                }
                            },
                        },
                    }
                },
            }
        },
    }
}

/// What the `time` crate writes for the UNIX time `sec` seconds plus `nsec`
/// nanoseconds, in UTC, in the format that `format` describes; `None` where the
/// description does not parse, the time is out of range, or the format cannot
/// be written for it.
pub uninterp spec fn formatted_time(sec: i64, nsec: i64, format: Seq<char>) -> Option<Seq<char>>;

/// The UNIX time `sec` seconds plus `nsec` nanoseconds written in the format
/// that `format` describes (time's `format_description::parse`,
/// `OffsetDateTime::from_unix_timestamp`, `checked_add` of
/// `Duration::nanoseconds`, then `OffsetDateTime::format`). The result is named,
/// not stated.
#[verifier::external_body]
fn format_unix_time(sec: i64, nsec: i64, format: &String) -> (r: Option<String>)
    ensures
        match r {
            Some(s) => formatted_time(sec, nsec, format@) == Some(s@),
            None => formatted_time(sec, nsec, format@) is None,
        },
{
    let items = time::format_description::parse(format.as_str()).ok()?;
    let at = time::OffsetDateTime::from_unix_timestamp(sec).ok()?;
    let at = at.checked_add(time::Duration::nanoseconds(nsec))?;
    at.format(&items).ok()
}

/// The description of the ISO 8601 format that `format_time_iso` writes.
pub open spec fn iso_format() -> Seq<char> {
    "[year]-[month]-[day]T[hour]:[minute]:[second].[frac][offset]"@
}

/// Writing a time: a new string, or `InvalidOperation` where it cannot be written.
pub open spec fn h_put_formatted(h: Heap, sec: i64, nsec: i64, format: Seq<char>) -> (Heap, RuntimeResult<VMData>) {
    match formatted_time(sec, nsec, format) {
        None => (h, Err(RuntimeError::InvalidOperation)),
        Some(s) => h_put_string(h, s),
    }
}

/// `format_time_iso(time)`: the time in ISO 8601.
pub open spec fn format_iso_spec(h: Heap) -> (Heap, RuntimeResult<VMData>) {
    let (h1, r1) = h_pop_obj_rc(h);
    match r1 {
        Err(e) => (h1, Err(e)),
        Ok(o) => {
            let (h2, k) = h_get(h1, o);
            match k {
                Err(e) => (h2, Err(e)),
                Ok(k) => match time_of(k) {
                    Err(e) => (h2, Err(e)),
                    Ok(t) => h_put_formatted(h2, t.0, t.1, iso_format()),
                },
            }
        },
    }
}

/// `format_time(time, format)`, `format` on top: the time in that format.
pub open spec fn format_spec(h: Heap) -> (Heap, RuntimeResult<VMData>) {
    let (h1, r1) = h_pop_obj_rc(h);
    match r1 {
        Err(e) => (h1, Err(e)),
        Ok(of) => {
            let (h2, r2) = h_pop_obj_rc(h1);
            match r2 {
                Err(e) => (h2, Err(e)),
                Ok(ot) => {
                    let (h3, kf) = h_get(h2, of);
                    match kf {
                        Err(e) => (h3, Err(e)),
                        Ok(kf) => match as_text(kf) {
                            Err(e) => (h3, Err(e)),
                            Ok(fmt) => {
                                let (h4, kt) = h_get(h3, ot);
                                match kt {
                                    Err(e) => (h4, Err(e)),
                                    Ok(kt) => match time_of(kt) {
                                        Err(e) => (h4, Err(e)),
                                        Ok(t) => h_put_formatted(h4, t.0, t.1, fmt),
                                    },
                                }
                            },
                        },
                    }
                },
            }
        },
    }
}

/// What running a function that the VM runs itself does to the stack and the
/// memory, and what it returns.
pub open spec fn extern_spec(h: Heap, f: ExternFunction) -> (Heap, RuntimeResult<VMData>) {
    match f {
        ExternFunction::Len => len_spec(h),
        ExternFunction::Get => list_get_spec(h),
        ExternFunction::SetAt => list_edit_spec(h, ListEdit::Assign),
        ExternFunction::Push => list_edit_spec(h, ListEdit::Push),
        ExternFunction::Pop => list_edit_spec(h, ListEdit::Pop),
        ExternFunction::Remove => list_edit_spec(h, ListEdit::Remove),
        ExternFunction::Slice => slice_spec(h),
        ExternFunction::Abs => abs_spec(h),
        ExternFunction::Pow => pow_instr_spec(h),
        ExternFunction::Min => min_max_spec(h, MinMax::Min),
        ExternFunction::Max => min_max_spec(h, MinMax::Max),
        ExternFunction::StrLen => str_len_spec(h),
        ExternFunction::Trim => text_map_spec(h, TextMap::Trim),
        ExternFunction::ToUpper => text_map_spec(h, TextMap::Upper),
        ExternFunction::ToLower => text_map_spec(h, TextMap::Lower),
        ExternFunction::Split => split_spec(h),
        ExternFunction::StrCmp => str_cmp_spec(h),
        ExternFunction::Elapsed => elapsed_spec(h),
        ExternFunction::FormatTimeIso => format_iso_spec(h),
        ExternFunction::FormatTime => format_spec(h),
        _ => (h, Err(RuntimeError::InvalidOperation)),
    }
}

/// Stores an object with these fields; any failure reads as `OutOfMemory`.
pub fn put_object(mem: &mut Memory, fields: Vec<VMData>) -> (r: RuntimeResult<VMData>)
    requires
        mem_ok(old(mem)@),
    ensures
        mem_ok(final(mem)@),
        forall|st: StackModel| #[trigger] h_put_object(heap(st, old(mem)@), fields@) == (heap(st, final(mem)@), r),
{
    proof { lemma_mem_ok_put(old(mem)@, KindModel::Class(fields@)); }
    match mem.put(ObjectKind::Class(Class::new(fields))) {
        Ok(i) => Ok(VMData::Object(i)),
        Err(_) => Err(RuntimeError::OutOfMemory),
    }
}

/// The seconds and nanoseconds of a time object.
fn time_fields(k: &ObjectKind) -> (r: RuntimeResult<(i64, i64)>)
    ensures
        r == time_of(k@),
{
    match k {
        ObjectKind::Class(c) => if c.fields.len() >= 2 {
            Ok((c.fields[0].as_i64(), c.fields[1].as_i64()))
        } else {
            Err(RuntimeError::InvalidOperation)
        },
        _ => Err(RuntimeError::TypeMismatchError),
    }
}

/// `elapsed(start, end)`: a new time, `end - start`.
pub fn elapsed(stack: &mut Stack, mem: &mut Memory) -> (r: RuntimeResult<VMData>)
    requires
        old(stack).wf(),
        mem_ok(old(mem)@),
    ensures
        final(stack).wf(),
        mem_ok(final(mem)@),
        elapsed_spec(heap(old(stack)@, old(mem)@)) == (heap(final(stack)@, final(mem)@), r),
{
    let oe = pop_obj_rc(stack, mem)?;
    let os = pop_obj_rc(stack, mem)?;
    let ks = get_obj(mem, os)?;
    let start = time_fields(&ks)?;
    let ke = get_obj(mem, oe)?;
    let end = time_fields(&ke)?;
    let ds = end.0 as i128 - start.0 as i128;
    let dn = end.1 as i128 - start.1 as i128;
    if ds < i64::MIN as i128 || ds > i64::MAX as i128 || dn < i64::MIN as i128 || dn > i64::MAX as i128 {
        return Err(RuntimeError::InvalidOperation);
    }
    let fields = vec![VMData::I64(ds as i64), VMData::I64(dn as i64)];
    assert(fields@ =~= seq![VMData::I64(ds as i64), VMData::I64(dn as i64)]);
    put_object(mem, fields)
}

/// Writes a time in a format; `InvalidOperation` where it cannot be written.
fn put_formatted(mem: &mut Memory, sec: i64, nsec: i64, format: &String) -> (r: RuntimeResult<VMData>)
    requires
        mem_ok(old(mem)@),
    ensures
        mem_ok(final(mem)@),
        forall|st: StackModel| #[trigger] h_put_formatted(heap(st, old(mem)@), sec, nsec, format@) == (heap(st, final(mem)@), r),
{
    match format_unix_time(sec, nsec, format) {
        None => Err(RuntimeError::InvalidOperation),
        Some(s) => put_string(mem, s),
    }
}

/// `format_time_iso(time)`: the time in ISO 8601.
pub fn format_time_iso(stack: &mut Stack, mem: &mut Memory) -> (r: RuntimeResult<VMData>)
    requires
        old(stack).wf(),
        mem_ok(old(mem)@),
    ensures
        final(stack).wf(),
        mem_ok(final(mem)@),
        format_iso_spec(heap(old(stack)@, old(mem)@)) == (heap(final(stack)@, final(mem)@), r),
{
    let o = pop_obj_rc(stack, mem)?;
    let k = get_obj(mem, o)?;
    let t = time_fields(&k)?;
    let format = String::from_str("[year]-[month]-[day]T[hour]:[minute]:[second].[frac][offset]");
    assert(format@ == iso_format());
    put_formatted(mem, t.0, t.1, &format)
}

/// `format_time(time, format)`: the time in that format.
pub fn format_time(stack: &mut Stack, mem: &mut Memory) -> (r: RuntimeResult<VMData>)
    requires
        old(stack).wf(),
        mem_ok(old(mem)@),
    ensures
        final(stack).wf(),
        mem_ok(final(mem)@),
        format_spec(heap(old(stack)@, old(mem)@)) == (heap(final(stack)@, final(mem)@), r),
{
    let of = pop_obj_rc(stack, mem)?;
    let ot = pop_obj_rc(stack, mem)?;
    let kf = get_obj(mem, of)?;
    let format = match kf {
        ObjectKind::String(s) => s,
        _ => return Err(RuntimeError::TypeMismatchError),
    };
    let kt = get_obj(mem, ot)?;
    let t = time_fields(&kt)?;
    put_formatted(mem, t.0, t.1, &format)
}

/// Runs a function that the VM runs itself, over the stack and the memory.
pub fn call_extern(stack: &mut Stack, mem: &mut Memory, f: ExternFunction) -> (r: RuntimeResult<VMData>)
    requires
        old(stack).wf(),
        mem_ok(old(mem)@),
    ensures
        final(stack).wf(),
        mem_ok(final(mem)@),
        extern_spec(heap(old(stack)@, old(mem)@), f) == (heap(final(stack)@, final(mem)@), r),
{
    match f {
        ExternFunction::Len => len(stack, mem),
        ExternFunction::Get => list_get(stack, mem),
        ExternFunction::SetAt => list_edit(stack, mem, ListEdit::Assign),
        ExternFunction::Push => list_edit(stack, mem, ListEdit::Push),
        ExternFunction::Pop => list_edit(stack, mem, ListEdit::Pop),
        ExternFunction::Remove => list_edit(stack, mem, ListEdit::Remove),
        ExternFunction::Slice => slice(stack, mem),
        ExternFunction::Abs => abs(stack, mem),
        ExternFunction::Pow => pow(stack, mem),
        ExternFunction::Min => min_max(stack, mem, MinMax::Min),
        ExternFunction::Max => min_max(stack, mem, MinMax::Max),
        ExternFunction::StrLen => str_len(stack, mem),
        ExternFunction::Trim => text_map_fn(stack, mem, TextMap::Trim),
        ExternFunction::ToUpper => text_map_fn(stack, mem, TextMap::Upper),
        ExternFunction::ToLower => text_map_fn(stack, mem, TextMap::Lower),
        ExternFunction::Split => split(stack, mem),
        ExternFunction::StrCmp => str_cmp(stack, mem),
        ExternFunction::Elapsed => elapsed(stack, mem),
        ExternFunction::FormatTimeIso => format_time_iso(stack, mem),
        ExternFunction::FormatTime => format_time(stack, mem),
        _ => Err(RuntimeError::InvalidOperation),
    }
}

} // verus!
