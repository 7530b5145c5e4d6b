//! The errors of the lowering pass, of the type checker and of the code
//! generator.
use vstd::prelude::*;
use crate::span::Span;

verus! {

/// A semantic error.
#[derive(Debug, Clone, PartialEq, Eq)]
pub enum HirError {
    /// A name that denotes no known variable or function.
    UnknownType { name: String, span: Span },
    BreakOutsideLoop { span: Span },
    ContinueOutsideLoop { span: Span },
    /// An expression of type `actual_type` where `expected_type` is needed.
    TypeMismatch { actual_type: String, actual_loc: Span, expected_type: String, expected_loc: Span },
    /// A call with another number of arguments than the function takes.
    FunctionTypeMismatch { expected_ty: String, span: Span },
    /// A statement that this stage does not handle yet.
    UnsupportedStatement { span: Span },
    /// An expression that this stage does not handle yet.
    UnsupportedExpr { span: Span },
    /// `-x` where `x` is not a signed integer.
    TryingToNegateUnsigned { span: Span },
    /// `[]`: the type of the items cannot be known.
    EmptyListLiteral { span: Span },
}

/// The result of a stage of the compiler.
pub type HirResult<T> = Result<T, HirError>;


/// An error as a plain value.
pub enum ErrView {
    UnknownType { name: Seq<char>, span: Span },
    BreakOutsideLoop { span: Span },
    ContinueOutsideLoop { span: Span },
    TypeMismatch { actual_type: Seq<char>, actual_loc: Span, expected_type: Seq<char>, expected_loc: Span },
    FunctionTypeMismatch { expected_ty: Seq<char>, span: Span },
    UnsupportedStatement { span: Span },
    UnsupportedExpr { span: Span },
    TryingToNegateUnsigned { span: Span },
    EmptyListLiteral { span: Span },
}

impl View for HirError {
    type V = ErrView;

    open spec fn view(&self) -> ErrView {
        match *self {
            HirError::UnknownType { name, span } => ErrView::UnknownType { name: name@, span },
            HirError::BreakOutsideLoop { span } => ErrView::BreakOutsideLoop { span },
            HirError::ContinueOutsideLoop { span } => ErrView::ContinueOutsideLoop { span },
            HirError::TypeMismatch { actual_type, actual_loc, expected_type, expected_loc } => ErrView::TypeMismatch {
                actual_type: actual_type@, actual_loc, expected_type: expected_type@, expected_loc,
            },
            HirError::FunctionTypeMismatch { expected_ty, span } => ErrView::FunctionTypeMismatch { expected_ty: expected_ty@, span },
            HirError::UnsupportedStatement { span } => ErrView::UnsupportedStatement { span },
            HirError::UnsupportedExpr { span } => ErrView::UnsupportedExpr { span },
            HirError::TryingToNegateUnsigned { span } => ErrView::TryingToNegateUnsigned { span },
            HirError::EmptyListLiteral { span } => ErrView::EmptyListLiteral { span },
        }
    }
}

} // verus!
