//! The signatures of a module's functions: what the type checker and the code
//! generator know of a function without reading its body.
use vstd::prelude::*;
use crate::span::Span;
use crate::hir::ty::{HirTy, TyView, ty_view};
use crate::hir::names::{NameMap, ordered};

verus! {

/// The API of a module: the signatures of its functions, by name.
#[derive(Debug)]
pub struct HirModuleSignature {
    pub functions: NameMap<HirFunctionSignature>,
}

impl HirModuleSignature {
    /// A module with no function.
    pub fn new() -> (r: Self)
        ensures
            r.functions.wf(),
            r.functions.entries().len() == 0,
    {
        HirModuleSignature { functions: NameMap::new() }
    }
}

#[derive(Debug)]
pub struct HirFunctionSignature {
    pub span: Span,
    pub params: Vec<HirFunctionParameterSignature>,
    pub type_params: Vec<HirTypeParameterItemSignature>,
    /// The type parameters of an external function, where it has them.
    pub generics: Option<Vec<HirTypeParameterItemSignature>>,
    /// The return type (`()` where the source gives none).
    pub return_ty: HirTy,
    /// The span of the return type, where the source gives one.
    pub return_ty_span: Option<Span>,
    /// Whether the function is provided by a library of the VM.
    pub is_external: bool,
}

#[derive(Debug)]
pub struct HirTypeParameterItemSignature {
    pub span: Span,
    pub name: String,
    pub name_span: Span,
}

#[derive(Debug)]
pub struct HirFunctionParameterSignature {
    pub span: Span,
    pub name: String,
    pub name_span: Span,
    pub ty: HirTy,
    pub ty_span: Span,
}


/// A parameter as a plain value.
pub struct ParamView {
    pub span: Span,
    pub name: String,
    pub name_span: Span,
    pub ty: TyView,
    pub ty_span: Span,
}

/// A function signature as a plain value.
pub struct SigView {
    pub span: Span,
    pub params: Seq<ParamView>,
    pub type_params: Seq<HirTypeParameterItemSignature>,
    pub generics: Option<Seq<HirTypeParameterItemSignature>>,
    pub return_ty: TyView,
    pub return_ty_span: Option<Span>,
    pub is_external: bool,
}

/// The plain values of some parameters.
pub open spec fn param_views(ps: Seq<HirFunctionParameterSignature>) -> Seq<ParamView> {
    ps.map_values(|p: HirFunctionParameterSignature| p@)
}

impl View for HirFunctionParameterSignature {
    type V = ParamView;

    open spec fn view(&self) -> ParamView {
        ParamView { span: self.span, name: self.name, name_span: self.name_span, ty: ty_view(self.ty), ty_span: self.ty_span }
    }
}

impl View for HirFunctionSignature {
    type V = SigView;

    open spec fn view(&self) -> SigView {
        SigView {
            span: self.span,
            params: param_views(self.params@),
            type_params: self.type_params@,
            generics: match self.generics {
                Some(g) => Some(g@),
                None => None,
            },
            return_ty: ty_view(self.return_ty),
            return_ty_span: self.return_ty_span,
            is_external: self.is_external,
        }
    }
}


impl HirFunctionParameterSignature {
    /// A copy of the parameter.
    pub fn copy(&self) -> (r: Self)
        ensures
            r@ == self@,
    {
        HirFunctionParameterSignature { span: self.span, name: self.name.clone(), name_span: self.name_span, ty: self.ty.copy(), ty_span: self.ty_span }
    }
}

impl HirTypeParameterItemSignature {
    /// A copy of the type parameter.
    pub fn copy(&self) -> (r: Self)
        ensures
            r == *self,
    {
        HirTypeParameterItemSignature { span: self.span, name: self.name.clone(), name_span: self.name_span }
    }
}

/// A copy of some type parameters.
fn copy_type_params(v: &Vec<HirTypeParameterItemSignature>) -> (r: Vec<HirTypeParameterItemSignature>)
    ensures
        r@ == v@,
{
    let mut r: Vec<HirTypeParameterItemSignature> = Vec::new();
    let mut k: usize = 0;
    while k < v.len()
        invariant
            k <= v@.len(),
            r@ == v@.take(k as int),
        decreases v@.len() - k,
    {
        r.push(v[k].copy());
        k += 1;
        assert(r@ =~= v@.take(k as int));
    }
    assert(v@.take(k as int) =~= v@);
    r
}

impl HirFunctionSignature {
    /// A copy of the signature.
    pub fn copy(&self) -> (r: Self)
        ensures
            r@ == self@,
    {
        let mut params: Vec<HirFunctionParameterSignature> = Vec::new();
        let mut k: usize = 0;
        while k < self.params.len()
            invariant
                k <= self.params@.len(),
                params@.len() == k,
                forall|i: int| 0 <= i < k ==> #[trigger] params@[i]@ == self.params@[i]@,
            decreases self.params@.len() - k,
        {
            params.push(self.params[k].copy());
            k += 1;
        }
        assert(param_views(params@) =~= param_views(self.params@));
        let generics = match &self.generics {
            Some(g) => Some(copy_type_params(g)),
            None => None,
        };
        HirFunctionSignature {
            span: self.span,
            params,
            type_params: copy_type_params(&self.type_params),
            generics,
            return_ty: self.return_ty.copy(),
            return_ty_span: self.return_ty_span,
            is_external: self.is_external,
        }
    }
}

impl HirModuleSignature {
    /// A copy of the signatures.
    pub fn copy(&self) -> (r: Self)
        ensures
            r.functions.entries().map_values(|e: (String, HirFunctionSignature)| (e.0, e.1@))
                == self.functions.entries().map_values(|e: (String, HirFunctionSignature)| (e.0, e.1@)),
    {
        proof { use_type_invariant(&self.functions); }
        let n = self.functions.len();
        let mut entries: Vec<(String, HirFunctionSignature)> = Vec::new();
        let mut k: usize = 0;
        while k < n
            invariant
                k <= n,
                n == self.functions.entries().len(),
                entries@.len() == k,
                ordered(self.functions.entries()),
                forall|i: int| 0 <= i < k ==> #[trigger] entries@[i].0 == self.functions.entries()[i].0
                    && entries@[i].1@ == self.functions.entries()[i].1@,
            decreases n - k,
        {
            let (name, sig) = self.functions.entry(k);
            entries.push((name.clone(), sig.copy()));
            k += 1;
        }
        assert(ordered(entries@)) by {
            assert forall|i: int, j: int| 0 <= i < j < entries@.len() implies crate::hir::names::name_lt(#[trigger] entries@[i].0@, #[trigger] entries@[j].0@) by {
                assert(entries@[i].0 == self.functions.entries()[i].0);
                assert(entries@[j].0 == self.functions.entries()[j].0);
            }
        }
        let mut functions = NameMap::new();
        functions.restore(entries);
        let r = HirModuleSignature { functions };
        assert(r.functions.entries().map_values(|e: (String, HirFunctionSignature)| (e.0, e.1@))
            =~= self.functions.entries().map_values(|e: (String, HirFunctionSignature)| (e.0, e.1@)));
        r
    }
}

} // verus!
