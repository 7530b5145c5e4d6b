//! The types of the high-level intermediate representation and their
//! identities: a 64-bit hash of what makes each type what it is.
use vstd::prelude::*;
use std::hash::{Hash, Hasher};
use crate::span::Span;

verus! {

/// The identity of a type: the hash of what makes it that type.
#[derive(Debug, Clone, Copy, PartialEq, Eq, Structural, Hash)]
pub struct HirTyId(u64);

impl View for HirTyId {
    type V = u64;

    closed spec fn view(&self) -> u64 {
        self.0
    }
}

/// What std's `DefaultHasher` (made by `DefaultHasher::new`) finishes with after
/// hashing the `i32` value `tag`.
pub uninterp spec fn hash_of_tag(tag: i32) -> u64;

/// What `DefaultHasher` finishes with after hashing the pair of the `i32` value
/// `tag` and a type identity whose hash is `id`.
pub uninterp spec fn hash_of_tag_id(tag: i32, id: u64) -> u64;

/// What `DefaultHasher` finishes with after hashing the triple of the `i32`
/// value `tag`, a type identity `ret` and a slice of type identities `params`.
pub uninterp spec fn hash_of_tag_ids(tag: i32, ret: u64, params: Seq<u64>) -> u64;

/// What `DefaultHasher` finishes with after hashing the pair of the `i32` value
/// `tag` and the string slice `name`.
pub uninterp spec fn hash_of_tag_str(tag: i32, name: Seq<char>) -> u64;

/// The hash of `tag` (std's `DefaultHasher::new`, `Hash::hash`, `Hasher::finish`).
/// The result is named, not stated.
#[verifier::external_body]
fn hash_tag(tag: i32) -> (r: u64)
    ensures
        r == hash_of_tag(tag),
{
    let mut hasher = std::hash::DefaultHasher::new();
    tag.hash(&mut hasher);
    hasher.finish()
}

/// The hash of `(tag, id)` (std's `DefaultHasher`). The result is named, not stated.
#[verifier::external_body]
fn hash_tag_id(tag: i32, id: &HirTyId) -> (r: u64)
    ensures
        r == hash_of_tag_id(tag, id@),
{
    let mut hasher = std::hash::DefaultHasher::new();
    (tag, id).hash(&mut hasher);
    hasher.finish()
}

/// The identities of some types, as plain values.
pub open spec fn ids_of(ids: Seq<HirTyId>) -> Seq<u64> {
    ids.map_values(|t: HirTyId| t@)
}

/// The hash of `(tag, ret, params)` (std's `DefaultHasher`). The result is
/// named, not stated.
#[verifier::external_body]
fn hash_tag_ids(tag: i32, ret: &HirTyId, params: &[HirTyId]) -> (r: u64)
    ensures
        r == hash_of_tag_ids(tag, ret@, ids_of(params@)),
{
    let mut hasher = std::hash::DefaultHasher::new();
    (tag, ret, params).hash(&mut hasher);
    hasher.finish()
}

/// The hash of `(tag, name)` (std's `DefaultHasher`). The result is named, not
/// stated.
#[verifier::external_body]
fn hash_tag_str(tag: i32, name: &str) -> (r: u64)
    ensures
        r == hash_of_tag_str(tag, name@),
{
    let mut hasher = std::hash::DefaultHasher::new();
    (tag, name).hash(&mut hasher);
    hasher.finish()
}

/// The tags that set the kinds of types apart in their identities.
pub const INTEGER64_TAG: i32 = 0x00;
pub const FLOAT64_TAG: i32 = 0x01;
pub const UINT64_TAG: i32 = 0x02;
pub const BOOLEAN_TAG: i32 = 0x03;
pub const UNIT_TAG: i32 = 0x04;
pub const CHAR_TAG: i32 = 0x05;
pub const STR_TAG: i32 = 0x10;
pub const FUNCTION_TAG: i32 = 0x20;
pub const LIST_TAG: i32 = 0x30;
pub const UNINITIALIZED_TAG: i32 = 0x50;
pub const NAME_TAG: i32 = 0x10;

impl HirTyId {
    pub fn compute_integer64_ty_id() -> (r: HirTyId)
        ensures
            r@ == hash_of_tag(INTEGER64_TAG),
    {
        HirTyId(hash_tag(INTEGER64_TAG))
    }

    pub fn compute_float64_ty_id() -> (r: HirTyId)
        ensures
            r@ == hash_of_tag(FLOAT64_TAG),
    {
        HirTyId(hash_tag(FLOAT64_TAG))
    }

    pub fn compute_uint64_ty_id() -> (r: HirTyId)
        ensures
            r@ == hash_of_tag(UINT64_TAG),
    {
        HirTyId(hash_tag(UINT64_TAG))
    }

    pub fn compute_boolean_ty_id() -> (r: HirTyId)
        ensures
            r@ == hash_of_tag(BOOLEAN_TAG),
    {
        HirTyId(hash_tag(BOOLEAN_TAG))
    }

    pub fn compute_unit_ty_id() -> (r: HirTyId)
        ensures
            r@ == hash_of_tag(UNIT_TAG),
    {
        HirTyId(hash_tag(UNIT_TAG))
    }

    pub fn compute_char_ty_id() -> (r: HirTyId)
        ensures
            r@ == hash_of_tag(CHAR_TAG),
    {
        HirTyId(hash_tag(CHAR_TAG))
    }

    pub fn compute_str_ty_id() -> (r: HirTyId)
        ensures
            r@ == hash_of_tag(STR_TAG),
    {
        HirTyId(hash_tag(STR_TAG))
    }

    /// The identity of the function type from `params` to `ret_ty`.
    pub fn compute_function_ty_id(ret_ty: &HirTyId, params: &[HirTyId]) -> (r: HirTyId)
        ensures
            r@ == hash_of_tag_ids(FUNCTION_TAG, ret_ty@, ids_of(params@)),
    {
        HirTyId(hash_tag_ids(FUNCTION_TAG, ret_ty, params))
    }

    /// The identity of the type of lists of `ty`.
    pub fn compute_list_ty_id(ty: &HirTyId) -> (r: HirTyId)
        ensures
            r@ == hash_of_tag_id(LIST_TAG, ty@),
    {
        HirTyId(hash_tag_id(LIST_TAG, ty))
    }

    pub fn compute_uninitialized_ty_id() -> (r: HirTyId)
        ensures
            r@ == hash_of_tag(UNINITIALIZED_TAG),
    {
        HirTyId(hash_tag(UNINITIALIZED_TAG))
    }

    /// The identity of the type named `name`.
    pub fn compute_name_ty_id(name: &str) -> (r: HirTyId)
        ensures
            r@ == hash_of_tag_str(NAME_TAG, name@),
    {
        HirTyId(hash_tag_str(NAME_TAG, name))
    }
}

/// The char type is a 32-bit Unicode code point.
///
/// It can be considered as a 4-byte integer.
#[derive(Debug, Clone, Copy, PartialEq, Eq, Structural)]
pub struct HirCharTy {}

#[derive(Debug, Clone, Copy, PartialEq, Eq, Structural)]
pub struct HirUninitializedTy {}

#[derive(Debug, Clone, Copy, PartialEq, Eq, Structural)]
pub struct HirIntegerTy {}

#[derive(Debug, Clone, Copy, PartialEq, Eq, Structural)]
pub struct HirFloatTy {}

#[derive(Debug, Clone, Copy, PartialEq, Eq, Structural)]
pub struct HirUnsignedIntTy {}

#[derive(Debug, Clone, Copy, PartialEq, Eq, Structural)]
pub struct HirUnitTy {}

#[derive(Debug, Clone, Copy, PartialEq, Eq, Structural)]
pub struct HirBooleanTy {}

#[derive(Debug, Clone, Copy, PartialEq, Eq, Structural)]
pub struct HirStringTy {}

/// The type of lists of `inner`.
#[derive(Debug)]
pub struct HirListTy {
    pub inner: Box<HirTy>,
}

/// A type given by its name.
#[derive(Debug)]
pub struct HirNamedTy {
    pub name: String,
    /// Span of the name declaration.
    pub span: Span,
}

/// The type of functions from `params` to `ret_ty`.
#[derive(Debug)]
pub struct HirFunctionTy {
    pub ret_ty: Box<HirTy>,
    pub params: Vec<HirTy>,
}

/// A type of the high-level intermediate representation.
#[derive(Debug)]
pub enum HirTy {
    Int64(HirIntegerTy),
    Float64(HirFloatTy),
    UInt64(HirUnsignedIntTy),
    Char(HirCharTy),
    Unit(HirUnitTy),
    Boolean(HirBooleanTy),
    String(HirStringTy),
    List(HirListTy),
    Named(HirNamedTy),
    Uninitialized(HirUninitializedTy),
    Function(HirFunctionTy),
}

/// A type as a plain value: its parameter list a sequence.
pub enum TyView {
    Int64,
    Float64,
    UInt64,
    Char,
    Unit,
    Boolean,
    String,
    List(Box<TyView>),
    Named(String, Span),
    Uninitialized,
    Function(Box<TyView>, Seq<TyView>),
}

/// The plain value of a type.
pub open spec fn ty_view(t: HirTy) -> TyView
    decreases t, 0int,
{
    match t {
        HirTy::Int64(_) => TyView::Int64,
        HirTy::Float64(_) => TyView::Float64,
        HirTy::UInt64(_) => TyView::UInt64,
        HirTy::Char(_) => TyView::Char,
        HirTy::Unit(_) => TyView::Unit,
        HirTy::Boolean(_) => TyView::Boolean,
        HirTy::String(_) => TyView::String,
        HirTy::List(l) => TyView::List(Box::new(ty_view(*l.inner))),
        HirTy::Named(n) => TyView::Named(n.name, n.span),
        HirTy::Uninitialized(_) => TyView::Uninitialized,
        HirTy::Function(f) => TyView::Function(Box::new(ty_view(*f.ret_ty)), tys_view(f.params@, f.params@.len() as int)),
    }
}

/// The plain values of the first `n` types of `ps`.
pub open spec fn tys_view(ps: Seq<HirTy>, n: int) -> Seq<TyView>
    decreases ps, n,
{
    if n <= 0 || n > ps.len() {
        Seq::empty()
    } else {
        tys_view(ps, n - 1).push(ty_view(ps[n - 1]))
    }
}

/// `tys_view` keeps the length and takes each type's view.
pub proof fn lemma_tys_view(ps: Seq<HirTy>, n: int)
    requires
        0 <= n <= ps.len(),
    ensures
        tys_view(ps, n).len() == n,
        forall|i: int| 0 <= i < n ==> #[trigger] tys_view(ps, n)[i] == ty_view(ps[i]),
    decreases n,
{
    if n > 0 {
        lemma_tys_view(ps, n - 1);
    }
}

impl View for HirTy {
    type V = TyView;

    open spec fn view(&self) -> TyView {
        ty_view(*self)
    }
}

/// The identity of a type.
pub open spec fn ty_id(t: TyView) -> u64
    decreases t, 0int,
{
    match t {
        TyView::Int64 => hash_of_tag(INTEGER64_TAG),
        TyView::Float64 => hash_of_tag(FLOAT64_TAG),
        TyView::UInt64 => hash_of_tag(UINT64_TAG),
        TyView::Char => hash_of_tag(CHAR_TAG),
        TyView::Boolean => hash_of_tag(BOOLEAN_TAG),
        TyView::Unit => hash_of_tag(UNIT_TAG),
        TyView::String => hash_of_tag(STR_TAG),
        TyView::List(inner) => hash_of_tag_id(LIST_TAG, ty_id(*inner)),
        TyView::Named(name, _) => hash_of_tag_str(NAME_TAG, name@),
        TyView::Uninitialized => hash_of_tag(UNINITIALIZED_TAG),
        TyView::Function(ret, params) => hash_of_tag_ids(FUNCTION_TAG, ty_id(*ret), param_ids(params, params.len() as int)),
    }
}

/// The identities of the first `n` types of `ps`.
pub open spec fn param_ids(ps: Seq<TyView>, n: int) -> Seq<u64>
    decreases ps, n,
{
    if n <= 0 || n > ps.len() {
        Seq::empty()
    } else {
        param_ids(ps, n - 1).push(ty_id(ps[n - 1]))
    }
}

impl HirTyId {
    /// Whether two identities are the same.
    pub fn same(&self, other: &HirTyId) -> (r: bool)
        ensures
            r == (self@ == other@),
    {
        self.0 == other.0
    }

    /// The identity of a type.
    pub fn from(value: &HirTy) -> (r: HirTyId)
        ensures
            r@ == ty_id(value@),
        decreases value,
    {
        match value {
            HirTy::Int64(_) => Self::compute_integer64_ty_id(),
            HirTy::Float64(_) => Self::compute_float64_ty_id(),
            HirTy::UInt64(_) => Self::compute_uint64_ty_id(),
            HirTy::Char(_) => Self::compute_char_ty_id(),
            HirTy::Boolean(_) => Self::compute_boolean_ty_id(),
            HirTy::Unit(_) => Self::compute_unit_ty_id(),
            HirTy::String(_) => Self::compute_str_ty_id(),
            HirTy::List(l) => {
                let inner = HirTyId::from(&l.inner);
                HirTyId::compute_list_ty_id(&inner)
            },
            HirTy::Named(n) => HirTyId::compute_name_ty_id(n.name.as_str()),
            HirTy::Uninitialized(_) => Self::compute_uninitialized_ty_id(),
            HirTy::Function(f) => {
                let mut parameters: Vec<HirTyId> = Vec::new();
                let mut k: usize = 0;
                while k < f.params.len()
                    invariant
                        k <= f.params@.len(),
                        ids_of(parameters@) == param_ids(tys_view(f.params@, f.params@.len() as int), k as int),
                        *value == HirTy::Function(*f),
                    decreases f.params@.len() - k,
                {
                    proof {
                        let fv = (*value)->Function_0;
                        assert(decreases_to!(*value => (*value)->Function_0));
                        assert(decreases_to!(fv => fv.params));
                        assert(decreases_to!(fv.params => fv.params@));
                        assert(decreases_to!(fv.params@ => fv.params@[k as int]));
                    }
                    let id = HirTyId::from(&f.params[k]);
                    parameters.push(id);
                    k += 1;
                    proof { lemma_tys_view(f.params@, f.params@.len() as int); }
                    assert(ids_of(parameters@) =~= param_ids(tys_view(f.params@, f.params@.len() as int), k as int));
                }
                proof { lemma_tys_view(f.params@, f.params@.len() as int); }
                let ret_ty = HirTyId::from(&f.ret_ty);
                HirTyId::compute_function_ty_id(&ret_ty, parameters.as_slice())
            },
        }
    }
}


/// The text of a type, as the compiler's messages write it.
pub open spec fn ty_text(t: TyView) -> Seq<char>
    decreases t, 0int,
{
    match t {
        TyView::Int64 => "int64"@,
        TyView::Float64 => "float64"@,
        TyView::UInt64 => "uint64"@,
        TyView::Char => "char"@,
        TyView::Unit => "unit"@,
        TyView::Boolean => "bool"@,
        TyView::String => "str"@,
        TyView::List(inner) => "["@ + ty_text(*inner) + "]"@,
        TyView::Named(name, _) => name@,
        TyView::Uninitialized => "uninitialized"@,
        TyView::Function(ret, params) => "("@ + params_text(params, params.len() as int) + ") -> "@ + ty_text(*ret),
    }
}

/// The texts of the first `n` types of `ps`, separated by `, `.
pub open spec fn params_text(ps: Seq<TyView>, n: int) -> Seq<char>
    decreases ps, n,
{
    if n <= 0 || n > ps.len() {
        Seq::empty()
    } else if n == 1 {
        ty_text(ps[0])
    } else {
        params_text(ps, n - 1) + ", "@ + ty_text(ps[n - 1])
    }
}

impl HirTy {
    /// A copy of the type.
    pub fn copy(&self) -> (r: HirTy)
        ensures
            r@ == self@,
        decreases self,
    {
        match self {
            HirTy::Int64(x) => HirTy::Int64(*x),
            HirTy::Float64(x) => HirTy::Float64(*x),
            HirTy::UInt64(x) => HirTy::UInt64(*x),
            HirTy::Char(x) => HirTy::Char(*x),
            HirTy::Unit(x) => HirTy::Unit(*x),
            HirTy::Boolean(x) => HirTy::Boolean(*x),
            HirTy::String(x) => HirTy::String(*x),
            HirTy::List(l) => HirTy::List(HirListTy { inner: Box::new(l.inner.copy()) }),
            HirTy::Named(n) => HirTy::Named(HirNamedTy { name: n.name.clone(), span: n.span }),
            HirTy::Uninitialized(x) => HirTy::Uninitialized(*x),
            HirTy::Function(f) => {
                let mut params: Vec<HirTy> = Vec::new();
                let mut k: usize = 0;
                while k < f.params.len()
                    invariant
                        k <= f.params@.len(),
                        params@.len() == k,
                        forall|i: int| 0 <= i < k ==> #[trigger] ty_view(params@[i]) == ty_view(f.params@[i]),
                        *self == HirTy::Function(*f),
                    decreases f.params@.len() - k,
                {
                    proof {
                        let fv = (*self)->Function_0;
                        assert(decreases_to!(*self => (*self)->Function_0));
                        assert(decreases_to!(fv => fv.params));
                        assert(decreases_to!(fv.params => fv.params@));
                        assert(decreases_to!(fv.params@ => fv.params@[k as int]));
                    }
                    let p = f.params[k].copy();
                    params.push(p);
                    k += 1;
                }
                proof {
                    lemma_tys_view(params@, params@.len() as int);
                    lemma_tys_view(f.params@, f.params@.len() as int);
                    assert(tys_view(params@, params@.len() as int) =~= tys_view(f.params@, f.params@.len() as int));
                }
                HirTy::Function(HirFunctionTy { ret_ty: Box::new(f.ret_ty.copy()), params })
            },
        }
    }

    /// The text of the type, as the compiler's messages write it.
    pub fn text(&self) -> (r: String)
        ensures
            r@ == ty_text(self@),
        decreases self,
    {
        match self {
            HirTy::Int64(_) => String::from_str("int64"),
            HirTy::Float64(_) => String::from_str("float64"),
            HirTy::UInt64(_) => String::from_str("uint64"),
            HirTy::Char(_) => String::from_str("char"),
            HirTy::Unit(_) => String::from_str("unit"),
            HirTy::Boolean(_) => String::from_str("bool"),
            HirTy::String(_) => String::from_str("str"),
            HirTy::List(l) => {
                let inner = l.inner.text();
                let mut r = String::from_str("[");
                r.append(inner.as_str());
                r.append("]");
                r
            },
            HirTy::Named(n) => n.name.clone(),
            HirTy::Uninitialized(_) => String::from_str("uninitialized"),
            HirTy::Function(f) => {
                let mut r = String::from_str("(");
                let mut k: usize = 0;
                let ghost start = r@;
                while k < f.params.len()
                    invariant
                        k <= f.params@.len(),
                        r@ == "("@ + params_text(tys_view(f.params@, f.params@.len() as int), k as int),
                        *self == HirTy::Function(*f),
                    decreases f.params@.len() - k,
                {
                    proof {
                        let fv = (*self)->Function_0;
                        assert(decreases_to!(*self => (*self)->Function_0));
                        assert(decreases_to!(fv => fv.params));
                        assert(decreases_to!(fv.params => fv.params@));
                        assert(decreases_to!(fv.params@ => fv.params@[k as int]));
                    }
                    let t = f.params[k].text();
                    if k > 0 {
                        r.append(", ");
                    }
                    r.append(t.as_str());
                    k += 1;
                    proof {
                        lemma_tys_view(f.params@, f.params@.len() as int);
                        let vs = tys_view(f.params@, f.params@.len() as int);
                        if k == 1 {
                            assert(params_text(vs, 0) =~= Seq::<char>::empty());
                            assert("("@ + params_text(vs, 0) =~= "("@);
                        }
                        assert(r@ =~= "("@ + params_text(vs, k as int));
                    }
                }
                proof { lemma_tys_view(f.params@, f.params@.len() as int); }
                let ret = f.ret_ty.text();
                r.append(") -> ");
                r.append(ret.as_str());
                r
            },
        }
    }
}

} // verus!
