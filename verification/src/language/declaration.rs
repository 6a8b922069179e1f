//! The typed declarations that the declaration engine stores.

use vstd::prelude::*;

use crate::decl_engine::DeclId;
use crate::error::{err, ok, CompileError, CompileResult};
use crate::language::ty::{
    AttributeKind, AttributesMap, TyCodeBlock, TyEnumVariant, TyExpression, TyStructField, Visibility,
};
use crate::span::{CallPath, Ident, Span};
use crate::type_system::{TypeArgument, TypeId, TypeParameter, TypeSubstList};

verus! {

#[derive(Clone, Copy, Debug, PartialEq, Eq, Structural, Hash)]
pub enum Purity {
    Pure,
    Reads,
    Writes,
    ReadsWrites,
}

/// A method of a trait, an abi or an impl: its name and the declaration of
/// its body, with the type arguments it is instantiated with.
#[derive(Debug)]
pub struct TyMethodValue {
    pub name: Ident,
    pub decl_id: DeclId,
    pub type_subst_list: TypeSubstList,
}

impl TyMethodValue {
    pub fn new(name: Ident, decl_id: DeclId, type_subst_list: TypeSubstList) -> (res: TyMethodValue)
        ensures
            res.name == name,
            res.decl_id == decl_id,
            res.type_subst_list == type_subst_list,
    {
        TyMethodValue { name, decl_id, type_subst_list }
    }
}

#[derive(Debug)]
pub struct TyFunctionParameter {
    pub name: Ident,
    pub is_reference: bool,
    pub is_mutable: bool,
    pub mutability_span: Span,
    pub type_id: TypeId,
    pub initial_type_id: TypeId,
    pub type_span: Span,
}

#[derive(Debug)]
pub struct TyFunctionDeclaration {
    pub name: Ident,
    pub body: TyCodeBlock,
    pub parameters: Vec<TyFunctionParameter>,
    pub span: Span,
    pub attributes: AttributesMap,
    pub return_type: TypeId,
    pub type_parameters: Vec<TypeParameter>,
    pub visibility: Visibility,
    pub is_contract_call: bool,
    pub purity: Purity,
}

impl TyFunctionDeclaration {
    /// Whether this function is a test: it carries a `test` attribute.
    pub open spec fn spec_is_test(&self) -> bool {
        self.attributes.has_kind(AttributeKind::Test)
    }

    pub fn is_test(&self) -> (res: bool)
        ensures
            res == self.spec_is_test(),
    {
        self.attributes.contains_kind(AttributeKind::Test)
    }
}

#[derive(Debug)]
pub struct TyTraitFn {
    pub name: Ident,
    pub purity: Purity,
    pub parameters: Vec<TyFunctionParameter>,
    pub return_type: TypeId,
    pub attributes: AttributesMap,
}

#[derive(Debug)]
pub struct Supertrait {
    pub name: CallPath,
}

#[derive(Debug)]
pub struct TyTraitDeclaration {
    pub name: Ident,
    pub type_parameters: Vec<TypeParameter>,
    pub interface_surface: Vec<TyMethodValue>,
    pub methods: Vec<TyMethodValue>,
    pub supertraits: Vec<Supertrait>,
    pub visibility: Visibility,
    pub attributes: AttributesMap,
    pub span: Span,
}

#[derive(Debug)]
pub struct TyStructDeclaration {
    pub name: Ident,
    pub fields: Vec<TyStructField>,
    pub type_parameters: Vec<TypeParameter>,
    pub visibility: Visibility,
    pub span: Span,
    pub attributes: AttributesMap,
}

#[derive(Debug)]
pub struct TyImplTrait {
    pub impl_type_parameters: Vec<TypeParameter>,
    pub trait_name: CallPath,
    pub trait_type_arguments: Vec<TypeArgument>,
    pub methods: Vec<TyMethodValue>,
    pub implementing_for_type_id: TypeId,
    pub trait_decl_id: Option<DeclId>,
    pub type_implementing_for_span: Span,
    pub span: Span,
}

#[derive(Debug)]
pub struct TyStorageField {
    pub name: Ident,
    pub type_id: TypeId,
    pub span: Span,
}

#[derive(Debug)]
pub struct TyStorageDeclaration {
    pub fields: Vec<TyStorageField>,
    pub span: Span,
}

impl TyStorageDeclaration {
    /// The types of the storage fields, in order.
    pub open spec fn spec_field_types(&self) -> Seq<TypeId> {
        self.fields@.map_values(|f: TyStorageField| f.type_id)
    }

    /// The storage fields seen as the fields of a struct: their types, in order.
    pub fn fields_as_typed_struct_fields(&self) -> (res: Vec<TypeId>)
        ensures
            res@ == self.spec_field_types(),
    {
        let mut res: Vec<TypeId> = Vec::new();
        let mut i: usize = 0;
        while i < self.fields.len()
            invariant
                0 <= i <= self.fields@.len(),
                res@ == self.fields@.subrange(0, i as int).map_values(|f: TyStorageField| f.type_id),
            decreases self.fields@.len() - i,
        {
            res.push(self.fields[i].type_id);
            proof {
                assert(self.fields@.subrange(0, i + 1).drop_last() =~= self.fields@.subrange(0, i as int));
            }
            i = i + 1;
        }
        assert(self.fields@.subrange(0, i as int) =~= self.fields@);
        res
    }
}

/// The type-checked version of an `abi` declaration.
#[derive(Debug)]
pub struct TyAbiDeclaration {
    /// The name of the abi trait (also known as a "contract trait").
    pub name: Ident,
    /// The methods a contract is required to implement in order opt in to this interface.
    pub interface_surface: Vec<TyMethodValue>,
    pub methods: Vec<TyMethodValue>,
    pub span: Span,
    pub attributes: AttributesMap,
}

#[derive(Debug)]
pub struct TyConstantDeclaration {
    pub name: Ident,
    pub value: TyExpression,
    pub visibility: Visibility,
    pub return_type: TypeId,
    pub attributes: AttributesMap,
    pub span: Span,
}

#[derive(Debug)]
pub struct TyEnumDeclaration {
    pub name: Ident,
    pub type_parameters: Vec<TypeParameter>,
    pub attributes: AttributesMap,
    pub variants: Vec<TyEnumVariant>,
    pub span: Span,
    pub visibility: Visibility,
}

impl TyEnumDeclaration {
    /// Whether `i` is the position of the first variant named `name`.
    pub open spec fn is_first_variant_named(&self, i: int, name: Seq<char>) -> bool {
        &&& 0 <= i < self.variants@.len()
        &&& self.variants@[i].name.name@ == name
        &&& forall|j: int| 0 <= j < i ==> self.variants@[j].name.name@ != name
    }

    /// The first variant with the given name; an `UnknownEnumVariant` error
    /// at the name's span where there is none.
    pub fn expect_variant_from_name(&self, variant_name: &Ident) -> (res: CompileResult<&TyEnumVariant>)
        ensures
            res.warnings@.len() == 0,
            (exists|i: int| 0 <= i < self.variants@.len() && self.variants@[i].name.name@ == variant_name.name@)
                ==> exists|i: int|
                self.is_first_variant_named(i, variant_name.name@) && res.value == Some(&self.variants@[i])
                    && res.errors@.len() == 0,
            !(exists|i: int| 0 <= i < self.variants@.len() && self.variants@[i].name.name@ == variant_name.name@)
                ==> res.value is None && res.errors@ == seq![
                CompileError::UnknownEnumVariant {
                    enum_name: self.name,
                    variant_name: *variant_name,
                    span: variant_name.span,
                },
            ],
    {
        let mut i: usize = 0;
        while i < self.variants.len()
            invariant
                0 <= i <= self.variants@.len(),
                forall|j: int| 0 <= j < i ==> self.variants@[j].name.name@ != variant_name.name@,
            decreases self.variants@.len() - i,
        {
            if self.variants[i].name.same_name(variant_name) {
                assert(self.is_first_variant_named(i as int, variant_name.name@));
                return ok(&self.variants[i], Vec::new(), Vec::new());
            }
            i = i + 1;
        }
        let mut errors = Vec::new();
        errors.push(
            CompileError::UnknownEnumVariant {
                enum_name: self.name.duplicate(),
                variant_name: variant_name.duplicate(),
                span: variant_name.span,
            },
        );
        err(Vec::new(), errors)
    }
}

/// A declaration stored in the declaration engine.
#[derive(Debug)]
pub enum DeclWrapper {
    Unknown,
    Function(TyFunctionDeclaration),
    TraitFn(TyTraitFn),
    Trait(TyTraitDeclaration),
    Struct(TyStructDeclaration),
    ImplTrait(TyImplTrait),
    Storage(TyStorageDeclaration),
    Abi(TyAbiDeclaration),
    Constant(TyConstantDeclaration),
    Enum(TyEnumDeclaration),
}

impl DeclWrapper {
    pub open spec fn spec_friendly_name(&self) -> Seq<char> {
        match self {
            DeclWrapper::Unknown => "unknown"@,
            DeclWrapper::Function(_) => "function"@,
            DeclWrapper::TraitFn(_) => "trait function"@,
            DeclWrapper::Trait(_) => "trait"@,
            DeclWrapper::Struct(_) => "struct"@,
            DeclWrapper::ImplTrait(_) => "impl trait"@,
            DeclWrapper::Storage(_) => "storage"@,
            DeclWrapper::Abi(_) => "abi"@,
            DeclWrapper::Constant(_) => "constant"@,
            DeclWrapper::Enum(_) => "enum"@,
        }
    }

    /// The name of the kind of declaration, used in error messages.
    pub fn friendly_name(&self) -> (res: &'static str)
        ensures
            res@ == self.spec_friendly_name(),
    {
        match self {
            DeclWrapper::Unknown => "unknown",
            DeclWrapper::Function(_) => "function",
            DeclWrapper::TraitFn(_) => "trait function",
            DeclWrapper::Trait(_) => "trait",
            DeclWrapper::Struct(_) => "struct",
            DeclWrapper::ImplTrait(_) => "impl trait",
            DeclWrapper::Storage(_) => "storage",
            DeclWrapper::Abi(_) => "abi",
            DeclWrapper::Constant(_) => "constant",
            DeclWrapper::Enum(_) => "enum",
        }
    }
}

/// The kinds of declaration that can be asked of a [`DeclWrapper`].
#[derive(Clone, Copy, Debug, PartialEq, Eq, Structural)]
pub enum DeclKind {
    Function,
    TraitFn,
    Trait,
    Struct,
    ImplTrait,
    Storage,
    Abi,
    Constant,
    Enum,
}

/// A copy of a string slice.
pub fn owned_string(s: &str) -> (res: String)
    ensures
        res@ == s@,
{
    proof {
        broadcast use vstd::string::group_string_axioms;
    }
    s.to_string()
}

impl DeclWrapper {
    /// Whether `e` is the error for asking this declaration to be of kind
    /// `kind`, which it is not: an internal error for an unknown
    /// declaration, else the mismatch of `kind` naming what it actually is.
    pub open spec fn expect_error(&self, kind: DeclKind, span: Span, e: CompileError) -> bool {
        if self is Unknown {
            e matches CompileError::Internal(_, s) && s == span
        } else {
            match kind {
                DeclKind::Function => e matches CompileError::DeclIsNotAFunction { actually, span: s } && actually@
                    == self.spec_friendly_name() && s == span,
                DeclKind::TraitFn => e matches CompileError::DeclIsNotATraitFn { actually, span: s } && actually@
                    == self.spec_friendly_name() && s == span,
                DeclKind::Trait => e matches CompileError::DeclIsNotATrait { actually, span: s } && actually@
                    == self.spec_friendly_name() && s == span,
                DeclKind::Struct => e matches CompileError::DeclIsNotAStruct { actually, span: s } && actually@
                    == self.spec_friendly_name() && s == span,
                DeclKind::ImplTrait => e matches CompileError::DeclIsNotAnImplTrait { actually, span: s } && actually@
                    == self.spec_friendly_name() && s == span,
                DeclKind::Storage => e matches CompileError::DeclIsNotAStorage { actually, span: s } && actually@
                    == self.spec_friendly_name() && s == span,
                DeclKind::Abi => e matches CompileError::DeclIsNotAnAbi { actually, span: s } && actually@
                    == self.spec_friendly_name() && s == span,
                DeclKind::Constant => e matches CompileError::DeclIsNotAConstant { actually, span: s } && actually@
                    == self.spec_friendly_name() && s == span,
                DeclKind::Enum => e matches CompileError::DeclIsNotAnEnum { actually, span: s } && actually@
                    == self.spec_friendly_name() && s == span,
            }
        }
    }

    fn mismatch(&self, kind: DeclKind, span: &Span) -> (res: CompileError)
        ensures
            !(self is Unknown) ==> self.expect_error(kind, *span, res),
            self is Unknown ==> self.expect_error(kind, *span, res),
    {
        if let DeclWrapper::Unknown = self {
            return CompileError::Internal("cannot expect what is unknown", *span);
        }
        let actually = owned_string(self.friendly_name());
        match kind {
            DeclKind::Function => CompileError::DeclIsNotAFunction { actually, span: *span },
            DeclKind::TraitFn => CompileError::DeclIsNotATraitFn { actually, span: *span },
            DeclKind::Trait => CompileError::DeclIsNotATrait { actually, span: *span },
            DeclKind::Struct => CompileError::DeclIsNotAStruct { actually, span: *span },
            DeclKind::ImplTrait => CompileError::DeclIsNotAnImplTrait { actually, span: *span },
            DeclKind::Storage => CompileError::DeclIsNotAStorage { actually, span: *span },
            DeclKind::Abi => CompileError::DeclIsNotAnAbi { actually, span: *span },
            DeclKind::Constant => CompileError::DeclIsNotAConstant { actually, span: *span },
            DeclKind::Enum => CompileError::DeclIsNotAnEnum { actually, span: *span },
        }
    }

    pub fn expect_function(&self, span: &Span) -> (res: Result<&TyFunctionDeclaration, CompileError>)
        ensures
            self matches DeclWrapper::Function(d) ==> res == Ok::<&TyFunctionDeclaration, CompileError>(d),
            !(self is Function) ==> (res matches Err(e) && self.expect_error(DeclKind::Function, *span, e)),
    {
        match self {
            DeclWrapper::Function(decl) => Ok(decl),
            _ => Err(self.mismatch(DeclKind::Function, span)),
        }
    }

    pub fn expect_trait_fn(&self, span: &Span) -> (res: Result<&TyTraitFn, CompileError>)
        ensures
            self matches DeclWrapper::TraitFn(d) ==> res == Ok::<&TyTraitFn, CompileError>(d),
            !(self is TraitFn) ==> (res matches Err(e) && self.expect_error(DeclKind::TraitFn, *span, e)),
    {
        match self {
            DeclWrapper::TraitFn(decl) => Ok(decl),
            _ => Err(self.mismatch(DeclKind::TraitFn, span)),
        }
    }

    pub fn expect_trait(&self, span: &Span) -> (res: Result<&TyTraitDeclaration, CompileError>)
        ensures
            self matches DeclWrapper::Trait(d) ==> res == Ok::<&TyTraitDeclaration, CompileError>(d),
            !(self is Trait) ==> (res matches Err(e) && self.expect_error(DeclKind::Trait, *span, e)),
    {
        match self {
            DeclWrapper::Trait(decl) => Ok(decl),
            _ => Err(self.mismatch(DeclKind::Trait, span)),
        }
    }

    pub fn expect_struct(&self, span: &Span) -> (res: Result<&TyStructDeclaration, CompileError>)
        ensures
            self matches DeclWrapper::Struct(d) ==> res == Ok::<&TyStructDeclaration, CompileError>(d),
            !(self is Struct) ==> (res matches Err(e) && self.expect_error(DeclKind::Struct, *span, e)),
    {
        match self {
            DeclWrapper::Struct(decl) => Ok(decl),
            _ => Err(self.mismatch(DeclKind::Struct, span)),
        }
    }

    pub fn expect_impl_trait(&self, span: &Span) -> (res: Result<&TyImplTrait, CompileError>)
        ensures
            self matches DeclWrapper::ImplTrait(d) ==> res == Ok::<&TyImplTrait, CompileError>(d),
            !(self is ImplTrait) ==> (res matches Err(e) && self.expect_error(DeclKind::ImplTrait, *span, e)),
    {
        match self {
            DeclWrapper::ImplTrait(decl) => Ok(decl),
            _ => Err(self.mismatch(DeclKind::ImplTrait, span)),
        }
    }

    pub fn expect_storage(&self, span: &Span) -> (res: Result<&TyStorageDeclaration, CompileError>)
        ensures
            self matches DeclWrapper::Storage(d) ==> res == Ok::<&TyStorageDeclaration, CompileError>(d),
            !(self is Storage) ==> (res matches Err(e) && self.expect_error(DeclKind::Storage, *span, e)),
    {
        match self {
            DeclWrapper::Storage(decl) => Ok(decl),
            _ => Err(self.mismatch(DeclKind::Storage, span)),
        }
    }

    pub fn expect_abi(&self, span: &Span) -> (res: Result<&TyAbiDeclaration, CompileError>)
        ensures
            self matches DeclWrapper::Abi(d) ==> res == Ok::<&TyAbiDeclaration, CompileError>(d),
            !(self is Abi) ==> (res matches Err(e) && self.expect_error(DeclKind::Abi, *span, e)),
    {
        match self {
            DeclWrapper::Abi(decl) => Ok(decl),
            _ => Err(self.mismatch(DeclKind::Abi, span)),
        }
    }

    pub fn expect_constant(&self, span: &Span) -> (res: Result<&TyConstantDeclaration, CompileError>)
        ensures
            self matches DeclWrapper::Constant(d) ==> res == Ok::<&TyConstantDeclaration, CompileError>(d),
            !(self is Constant) ==> (res matches Err(e) && self.expect_error(DeclKind::Constant, *span, e)),
    {
        match self {
            DeclWrapper::Constant(decl) => Ok(decl),
            _ => Err(self.mismatch(DeclKind::Constant, span)),
        }
    }

    pub fn expect_enum(&self, span: &Span) -> (res: Result<&TyEnumDeclaration, CompileError>)
        ensures
            self matches DeclWrapper::Enum(d) ==> res == Ok::<&TyEnumDeclaration, CompileError>(d),
            !(self is Enum) ==> (res matches Err(e) && self.expect_error(DeclKind::Enum, *span, e)),
    {
        match self {
            DeclWrapper::Enum(decl) => Ok(decl),
            _ => Err(self.mismatch(DeclKind::Enum, span)),
        }
    }
}

} // verus!
