//! The declaration engine: the store of the typed declarations, and the ids
//! that refer to them.

use vstd::prelude::*;

use crate::error::CompileError;
use crate::language::declaration::{
    DeclKind, DeclWrapper, TyAbiDeclaration, TyConstantDeclaration, TyEnumDeclaration, TyFunctionDeclaration,
    TyImplTrait, TyStorageDeclaration, TyStructDeclaration, TyTraitDeclaration, TyTraitFn,
};
use crate::span::Span;

verus! {

/// An id of a declaration in the [`DeclEngine`], with the span where it was
/// referred to.  Two ids are equal when they refer to the same declaration.
#[derive(Clone, Copy, Debug)]
pub struct DeclId {
    pub index: usize,
    pub span: Span,
}

impl DeclId {
    pub fn new(index: usize, span: Span) -> (res: DeclId)
        ensures
            res.index == index,
            res.span == span,
    {
        DeclId { index, span }
    }

    /// Ids are equal when they refer to the same declaration.
    pub fn eq(&self, other: &DeclId) -> (res: bool)
        ensures
            res == (self.index == other.index),
    {
        self.index == other.index
    }

    pub fn span(&self) -> (res: Span)
        ensures
            res == self.span,
    {
        self.span
    }

    pub fn duplicate(&self) -> (res: DeclId)
        ensures
            res == *self,
    {
        DeclId { index: self.index, span: self.span }
    }

    pub fn replace_id(&mut self, index: usize)
        ensures
            final(self).index == index,
            final(self).span == old(self).span,
    {
        self.index = index;
    }
}

/// Stores the declarations met while type checking.
pub struct DeclEngine {
    pub slab: Vec<DeclWrapper>,
}

impl DeclEngine {
    pub open spec fn valid(&self, id: DeclId) -> bool {
        id.index < self.slab@.len()
    }

    pub open spec fn decl(&self, id: DeclId) -> DeclWrapper {
        self.slab@[id.index as int]
    }

    pub fn new() -> (res: DeclEngine)
        ensures
            res.slab@.len() == 0,
    {
        DeclEngine { slab: Vec::new() }
    }

    /// Puts `wrapper` in place of the declaration stored at `index`.
    pub fn replace(&mut self, index: DeclId, wrapper: DeclWrapper)
        requires
            old(self).valid(index),
        ensures
            final(self).slab@ == old(self).slab@.update(index.index as int, wrapper),
    {
        self.slab.set(index.index, wrapper);
    }

    pub fn get(&self, index: DeclId) -> (res: &DeclWrapper)
        requires
            self.valid(index),
        ensures
            *res == self.decl(index),
    {
        &self.slab[index.index]
    }

    pub fn get_function(&self, index: DeclId, span: &Span) -> (res: Result<&TyFunctionDeclaration, CompileError>)
        requires
            self.valid(index),
        ensures
            self.decl(index) matches DeclWrapper::Function(d) ==> res == Ok::<&TyFunctionDeclaration, CompileError>(&d),
            !(self.decl(index) is Function) ==> (res matches Err(e) && self.decl(index).expect_error(
                DeclKind::Function,
                *span,
                e,
            )),
    {
        self.slab[index.index].expect_function(span)
    }

    pub fn get_trait_fn(&self, index: DeclId, span: &Span) -> (res: Result<&TyTraitFn, CompileError>)
        requires
            self.valid(index),
        ensures
            self.decl(index) matches DeclWrapper::TraitFn(d) ==> res == Ok::<&TyTraitFn, CompileError>(&d),
            !(self.decl(index) is TraitFn) ==> (res matches Err(e) && self.decl(index).expect_error(
                DeclKind::TraitFn,
                *span,
                e,
            )),
    {
        self.slab[index.index].expect_trait_fn(span)
    }

    pub fn get_trait(&self, index: DeclId, span: &Span) -> (res: Result<&TyTraitDeclaration, CompileError>)
        requires
            self.valid(index),
        ensures
            self.decl(index) matches DeclWrapper::Trait(d) ==> res == Ok::<&TyTraitDeclaration, CompileError>(&d),
            !(self.decl(index) is Trait) ==> (res matches Err(e) && self.decl(index).expect_error(
                DeclKind::Trait,
                *span,
                e,
            )),
    {
        self.slab[index.index].expect_trait(span)
    }

    pub fn get_struct(&self, index: DeclId, span: &Span) -> (res: Result<&TyStructDeclaration, CompileError>)
        requires
            self.valid(index),
        ensures
            self.decl(index) matches DeclWrapper::Struct(d) ==> res == Ok::<&TyStructDeclaration, CompileError>(&d),
            !(self.decl(index) is Struct) ==> (res matches Err(e) && self.decl(index).expect_error(
                DeclKind::Struct,
                *span,
                e,
            )),
    {
        self.slab[index.index].expect_struct(span)
    }

    pub fn get_impl_trait(&self, index: DeclId, span: &Span) -> (res: Result<&TyImplTrait, CompileError>)
        requires
            self.valid(index),
        ensures
            self.decl(index) matches DeclWrapper::ImplTrait(d) ==> res == Ok::<&TyImplTrait, CompileError>(&d),
            !(self.decl(index) is ImplTrait) ==> (res matches Err(e) && self.decl(index).expect_error(
                DeclKind::ImplTrait,
                *span,
                e,
            )),
    {
        self.slab[index.index].expect_impl_trait(span)
    }

    pub fn get_storage(&self, index: DeclId, span: &Span) -> (res: Result<&TyStorageDeclaration, CompileError>)
        requires
            self.valid(index),
        ensures
            self.decl(index) matches DeclWrapper::Storage(d) ==> res == Ok::<&TyStorageDeclaration, CompileError>(&d),
            !(self.decl(index) is Storage) ==> (res matches Err(e) && self.decl(index).expect_error(
                DeclKind::Storage,
                *span,
                e,
            )),
    {
        self.slab[index.index].expect_storage(span)
    }

    pub fn get_abi(&self, index: DeclId, span: &Span) -> (res: Result<&TyAbiDeclaration, CompileError>)
        requires
            self.valid(index),
        ensures
            self.decl(index) matches DeclWrapper::Abi(d) ==> res == Ok::<&TyAbiDeclaration, CompileError>(&d),
            !(self.decl(index) is Abi) ==> (res matches Err(e) && self.decl(index).expect_error(
                DeclKind::Abi,
                *span,
                e,
            )),
    {
        self.slab[index.index].expect_abi(span)
    }

    pub fn get_constant(&self, index: DeclId, span: &Span) -> (res: Result<&TyConstantDeclaration, CompileError>)
        requires
            self.valid(index),
        ensures
            self.decl(index) matches DeclWrapper::Constant(d) ==> res == Ok::<&TyConstantDeclaration, CompileError>(&d),
            !(self.decl(index) is Constant) ==> (res matches Err(e) && self.decl(index).expect_error(
                DeclKind::Constant,
                *span,
                e,
            )),
    {
        self.slab[index.index].expect_constant(span)
    }

    pub fn get_enum(&self, index: DeclId, span: &Span) -> (res: Result<&TyEnumDeclaration, CompileError>)
        requires
            self.valid(index),
        ensures
            self.decl(index) matches DeclWrapper::Enum(d) ==> res == Ok::<&TyEnumDeclaration, CompileError>(&d),
            !(self.decl(index) is Enum) ==> (res matches Err(e) && self.decl(index).expect_error(
                DeclKind::Enum,
                *span,
                e,
            )),
    {
        self.slab[index.index].expect_enum(span)
    }
}

} // verus!
