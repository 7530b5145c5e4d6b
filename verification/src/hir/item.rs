//! Items and modules of the high-level intermediate representation.
use vstd::prelude::*;
use crate::span::Span;
use crate::hir::stmt::{HirBlock, BlockView};
use crate::hir::signature::{HirFunctionSignature, HirModuleSignature, SigView};
use crate::hir::names::NameMap;

verus! {

#[derive(Debug)]
pub struct HirFunction {
    pub span: Span,
    pub name: String,
    pub name_span: Span,
    pub signature: HirFunctionSignature,
    pub body: HirBlock,
}

/// A function as a plain value.
pub struct FnView {
    pub span: Span,
    pub name: String,
    pub name_span: Span,
    pub signature: SigView,
    pub body: BlockView,
}

impl View for HirFunction {
    type V = FnView;

    open spec fn view(&self) -> FnView {
        FnView { span: self.span, name: self.name, name_span: self.name_span, signature: self.signature@, body: self.body@ }
    }
}

/// A library that the module imports; the type checker reads its API.
#[derive(Debug)]
pub struct HirImport {
    pub span: Span,
    pub path: String,
    pub path_span: Span,
    /// Aliases are not supported yet.
    pub alias: Option<String>,
    pub alias_span: Option<Span>,
}

#[derive(Debug)]
pub enum HirItem {
    Function(HirFunction),
    Import(HirImport),
}

/// The functions of a module, by name, and its imports.
#[derive(Debug)]
pub struct HirModuleBody {
    pub functions: NameMap<HirFunction>,
    pub imports: Vec<HirImport>,
}

/// A module: its body and its signature.
#[derive(Debug)]
pub struct HirModule {
    pub body: HirModuleBody,
    pub signature: HirModuleSignature,
}

impl HirModule {
    /// A module with no function and no import.
    pub fn new() -> (r: Self)
        ensures
            r.wf(),
            r.body.functions.entries().len() == 0,
            r.body.imports@.len() == 0,
            r.signature.functions.entries().len() == 0,
    {
        HirModule {
            body: HirModuleBody { functions: NameMap::new(), imports: Vec::new() },
            signature: HirModuleSignature::new(),
        }
    }

    /// Both maps keep their names in order.
    pub open spec fn wf(&self) -> bool {
        self.body.functions.wf() && self.signature.functions.wf()
    }
}

} // verus!
