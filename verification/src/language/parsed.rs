//! The parsed syntax tree, as far as the type checker reads it here.

use vstd::prelude::*;

use crate::language::declaration::{Purity, Supertrait};
use crate::language::ty::{AttributeKind, AttributesMap, Visibility};
use crate::span::{Ident, Span};
use crate::type_system::{TypeArgument, TypeEngine, TypeInfo, TypeParameter};

verus! {

/// What a parsed node is.  Of an expression, only its span is kept here.
#[derive(Debug)]
pub enum AstNodeContent {
    UseStatement,
    Declaration,
    Expression { span: Span },
    /// An expression whose value is the value of its enclosing block.
    ImplicitReturnExpression { span: Span },
    IncludeStatement,
}

#[derive(Debug)]
pub struct AstNode {
    pub content: AstNodeContent,
    pub span: Span,
}

/// A parsed block of code.
#[derive(Debug)]
pub struct CodeBlock {
    pub contents: Vec<AstNode>,
    pub whole_block_span: Span,
}

/// The span of the first implicit return among `nodes`, if any.
pub open spec fn first_implicit_return_span(nodes: Seq<AstNode>) -> Option<Span>
    decreases nodes.len(),
{
    if nodes.len() == 0 {
        None
    } else {
        match nodes[0].content {
            AstNodeContent::ImplicitReturnExpression { span } => Some(span),
            _ => first_implicit_return_span(nodes.subrange(1, nodes.len() as int)),
        }
    }
}

impl CodeBlock {
    /// The span that the value of the block is reported at: that of its
    /// implicit return, or else the whole block.
    pub open spec fn spec_result_span(&self) -> Span {
        match first_implicit_return_span(self.contents@) {
            Some(s) => s,
            None => self.whole_block_span,
        }
    }

    pub fn result_span(&self) -> (res: Span)
        ensures
            res == self.spec_result_span(),
    {
        let mut i: usize = 0;
        assert(self.contents@.subrange(0, self.contents@.len() as int) =~= self.contents@);
        while i < self.contents.len()
            invariant
                0 <= i <= self.contents@.len(),
                first_implicit_return_span(self.contents@) == first_implicit_return_span(
                    self.contents@.subrange(i as int, self.contents@.len() as int),
                ),
            decreases self.contents@.len() - i,
        {
            let ghost rest = self.contents@.subrange(i as int, self.contents@.len() as int);
            assert(rest.subrange(1, rest.len() as int) =~= self.contents@.subrange(
                i + 1,
                self.contents@.len() as int,
            ));
            assert(rest[0] == self.contents@[i as int]);
            if let AstNodeContent::ImplicitReturnExpression { span } = &self.contents[i].content {
                return *span;
            }
            i = i + 1;
        }
        self.whole_block_span
    }
}

/// A field of a parsed struct declaration.
#[derive(Debug)]
pub struct StructField {
    pub name: Ident,
    pub attributes: AttributesMap,
    pub type_info: TypeInfo,
    pub span: Span,
    pub type_span: Span,
}

/// A parsed struct declaration.
#[derive(Debug)]
pub struct StructDeclaration {
    pub name: Ident,
    pub attributes: AttributesMap,
    pub fields: Vec<StructField>,
    pub type_parameters: Vec<TypeParameter>,
    pub visibility: Visibility,
    pub span: Span,
}

/// A variant of a parsed enum declaration.
#[derive(Debug)]
pub struct EnumVariant {
    pub name: Ident,
    pub attributes: AttributesMap,
    pub type_info: TypeInfo,
    pub type_span: Span,
    pub tag: usize,
    pub span: Span,
}

/// A parsed enum declaration.
#[derive(Debug)]
pub struct EnumDeclaration {
    pub name: Ident,
    pub attributes: AttributesMap,
    pub type_parameters: Vec<TypeParameter>,
    pub variants: Vec<EnumVariant>,
    pub span: Span,
    pub visibility: Visibility,
}

/// A parameter of a parsed function declaration.
#[derive(Debug)]
pub struct FunctionParameter {
    pub name: Ident,
    pub is_reference: bool,
    pub is_mutable: bool,
    pub mutability_span: Span,
    pub type_info: TypeInfo,
    pub type_span: Span,
}

impl FunctionParameter {
    /// Parameters are equal when they agree in name, passing mode, spans
    /// and type.
    pub open spec fn spec_eq(&self, other: &FunctionParameter) -> bool {
        &&& self.name.name@ == other.name.name@
        &&& self.is_reference == other.is_reference
        &&& self.is_mutable == other.is_mutable
        &&& self.mutability_span == other.mutability_span
        &&& self.type_info@ == other.type_info@
        &&& self.type_span == other.type_span
    }

    pub fn eq(&self, other: &FunctionParameter, type_engine: &TypeEngine) -> (res: bool)
        ensures
            res == self.spec_eq(other),
    {
        self.name.same_name(&other.name) && self.is_reference == other.is_reference && self.is_mutable
            == other.is_mutable && self.mutability_span == other.mutability_span && self.type_info.same_info(
            &other.type_info,
        ) && self.type_span == other.type_span
    }
}

/// A parsed function declaration.
#[derive(Debug)]
pub struct FunctionDeclaration {
    pub purity: Purity,
    pub attributes: AttributesMap,
    pub name: Ident,
    pub visibility: Visibility,
    pub body: CodeBlock,
    pub parameters: Vec<FunctionParameter>,
    pub span: Span,
    pub return_type: TypeArgument,
    pub type_parameters: Vec<TypeParameter>,
}

impl FunctionDeclaration {
    /// Whether this function is a test: it carries a `test` attribute.
    pub fn is_test(&self) -> (res: bool)
        ensures
            res == self.attributes.has_kind(AttributeKind::Test),
    {
        self.attributes.contains_kind(AttributeKind::Test)
    }
}

/// A function signature that a parsed trait declares: its name and where it
/// stands.
#[derive(Debug)]
pub struct TraitFn {
    pub name: Ident,
    pub span: Span,
}

/// A parsed trait declaration.
#[derive(Debug)]
pub struct TraitDeclaration {
    pub name: Ident,
    pub type_parameters: Vec<TypeParameter>,
    pub attributes: AttributesMap,
    pub interface_surface: Vec<TraitFn>,
    pub methods: Vec<FunctionDeclaration>,
    pub supertraits: Vec<Supertrait>,
    pub visibility: Visibility,
    pub span: Span,
}

} // verus!
