//! Compile errors and warnings, and results that carry them.

use vstd::prelude::*;

use crate::span::{Ident, Span};

verus! {

/// An error found while compiling.
#[derive(Debug)]
pub enum CompileError {
    DeclIsNotAnEnum { actually: String, span: Span },
    DeclIsNotAStruct { actually: String, span: Span },
    DeclIsNotAFunction { actually: String, span: Span },
    DeclIsNotAVariable { actually: String, span: Span },
    DeclIsNotAnAbi { actually: String, span: Span },
    DeclIsNotAConstant { actually: String, span: Span },
    DeclIsNotATrait { actually: String, span: Span },
    DeclIsNotATraitFn { actually: String, span: Span },
    DeclIsNotAnImplTrait { actually: String, span: Span },
    DeclIsNotAStorage { actually: String, span: Span },
    UnknownEnumVariant { enum_name: Ident, variant_name: Ident, span: Span },
    NotAType { span: Span, name: String, actually_is: &'static str },
    ModuleNotFound { span: Span, name: String },
    WhereClauseNotYetSupported { span: Span },
    Internal(&'static str, Span),
}

/// A warning found while compiling.
#[derive(Debug)]
pub enum Warning {
    NonClassCaseTraitName { name: Ident },
}

#[derive(Debug)]
pub struct CompileWarning {
    pub span: Span,
    pub warning_content: Warning,
}

/// The outcome of a compilation step: a value when it succeeded, and the
/// warnings and errors it found.
pub struct CompileResult<T> {
    pub value: Option<T>,
    pub warnings: Vec<CompileWarning>,
    pub errors: Vec<CompileError>,
}

/// A successful result.
pub fn ok<T>(value: T, warnings: Vec<CompileWarning>, errors: Vec<CompileError>) -> (res: CompileResult<T>)
    ensures
        res.value == Some(value),
        res.warnings == warnings,
        res.errors == errors,
{
    CompileResult { value: Some(value), warnings, errors }
}

/// A failed result.
pub fn err<T>(warnings: Vec<CompileWarning>, errors: Vec<CompileError>) -> (res: CompileResult<T>)
    ensures
        res.value.is_none(),
        res.warnings == warnings,
        res.errors == errors,
{
    CompileResult { value: None, warnings, errors }
}

} // verus!
