//! Queries on typed declarations.

use vstd::prelude::*;

use crate::decl_engine::{DeclEngine, DeclId};
use crate::error::{err, ok, CompileError, CompileResult};
use crate::language::declaration::{
    owned_string, DeclKind, DeclWrapper, TyAbiDeclaration, TyConstantDeclaration, TyEnumDeclaration,
    TyFunctionDeclaration, TyStructDeclaration,
};
use crate::language::ty::{TyDeclaration, TyVariableDeclaration, Visibility};
use crate::span::{Ident, Span};
use crate::type_system::{TypeEngine, TypeId, TypeInfo, TypeInfoView, TypeSubstList};

verus! {

/// The result of a lookup in the declaration engine, as a compile result:
/// the value with no diagnostics, or the one error.
pub fn from_result<T>(r: Result<T, CompileError>) -> (res: CompileResult<T>)
    ensures
        r matches Ok(v) ==> res.value == Some(v) && res.warnings@.len() == 0 && res.errors@.len() == 0,
        r matches Err(e) ==> res.value.is_none() && res.warnings@.len() == 0 && res.errors@ == seq![e],
{
    match r {
        Ok(v) => ok(v, Vec::new(), Vec::new()),
        Err(e) => {
            let mut errors = Vec::new();
            errors.push(e);
            err(Vec::new(), errors)
        },
    }
}

impl TyDeclaration {
    pub open spec fn spec_friendly_name(&self) -> Seq<char> {
        match self {
            TyDeclaration::VariableDeclaration(_) => "variable"@,
            TyDeclaration::ConstantDeclaration(_) => "constant"@,
            TyDeclaration::FunctionDeclaration(_, _) => "function"@,
            TyDeclaration::TraitDeclaration(_) => "trait"@,
            TyDeclaration::StructDeclaration(_, _) => "struct"@,
            TyDeclaration::EnumDeclaration(_, _) => "enum"@,
            TyDeclaration::ImplTrait(_) => "impl trait"@,
            TyDeclaration::AbiDeclaration(_) => "abi"@,
            TyDeclaration::GenericTypeForFunctionScope { .. } => "generic type parameter"@,
            TyDeclaration::ErrorRecovery(_) => "error"@,
            TyDeclaration::StorageDeclaration(_) => "contract storage declaration"@,
        }
    }

    /// friendly name string used for error reporting.
    pub fn friendly_name(&self) -> (res: &'static str)
        ensures
            res@ == self.spec_friendly_name(),
    {
        match self {
            TyDeclaration::VariableDeclaration(_) => "variable",
            TyDeclaration::ConstantDeclaration(_) => "constant",
            TyDeclaration::FunctionDeclaration(_, _) => "function",
            TyDeclaration::TraitDeclaration(_) => "trait",
            TyDeclaration::StructDeclaration(_, _) => "struct",
            TyDeclaration::EnumDeclaration(_, _) => "enum",
            TyDeclaration::ImplTrait(_) => "impl trait",
            TyDeclaration::AbiDeclaration(_) => "abi",
            TyDeclaration::GenericTypeForFunctionScope { .. } => "generic type parameter",
            TyDeclaration::ErrorRecovery(_) => "error",
            TyDeclaration::StorageDeclaration(_) => "contract storage declaration",
        }
    }

    /// Whether `forc doc` documents declarations of this kind.
    pub open spec fn is_documentable(&self) -> bool {
        !(self is VariableDeclaration || self is GenericTypeForFunctionScope || self is ErrorRecovery)
    }

    pub open spec fn spec_doc_name(&self) -> Seq<char> {
        match self {
            TyDeclaration::StructDeclaration(_, _) => "struct"@,
            TyDeclaration::EnumDeclaration(_, _) => "enum"@,
            TyDeclaration::TraitDeclaration(_) => "trait"@,
            TyDeclaration::AbiDeclaration(_) => "abi"@,
            TyDeclaration::StorageDeclaration(_) => "contract_storage"@,
            TyDeclaration::ImplTrait(_) => "impl_trait"@,
            TyDeclaration::FunctionDeclaration(_, _) => "fn"@,
            _ => "constant"@,
        }
    }

    /// name string used in `forc doc` file path generation that mirrors `cargo doc`.
    pub fn doc_name(&self) -> (res: &'static str)
        requires
            self.is_documentable(),
        ensures
            res@ == self.spec_doc_name(),
    {
        match self {
            TyDeclaration::StructDeclaration(_, _) => "struct",
            TyDeclaration::EnumDeclaration(_, _) => "enum",
            TyDeclaration::TraitDeclaration(_) => "trait",
            TyDeclaration::AbiDeclaration(_) => "abi",
            TyDeclaration::StorageDeclaration(_) => "contract_storage",
            TyDeclaration::ImplTrait(_) => "impl_trait",
            TyDeclaration::FunctionDeclaration(_, _) => "fn",
            _ => "constant",
        }
    }

    /// Whether the span of this declaration is known here: those of
    /// functions, structs and enums are not.
    pub open spec fn has_span(&self) -> bool {
        !(self is FunctionDeclaration || self is StructDeclaration || self is EnumDeclaration)
    }

    pub open spec fn spec_span(&self) -> Span {
        match self {
            TyDeclaration::VariableDeclaration(decl) => decl.name.span,
            TyDeclaration::ConstantDeclaration(decl_id) => decl_id.span,
            TyDeclaration::TraitDeclaration(decl_id) => decl_id.span,
            TyDeclaration::AbiDeclaration(decl_id) => decl_id.span,
            TyDeclaration::ImplTrait(decl_id) => decl_id.span,
            TyDeclaration::StorageDeclaration(decl_id) => decl_id.span,
            TyDeclaration::GenericTypeForFunctionScope { name, .. } => name.span,
            TyDeclaration::ErrorRecovery(span) => *span,
            _ => arbitrary(),
        }
    }

    pub fn span(&self) -> (res: Span)
        requires
            self.has_span(),
        ensures
            res == self.spec_span(),
    {
        match self {
            TyDeclaration::VariableDeclaration(decl) => decl.name.span,
            TyDeclaration::ConstantDeclaration(decl_id) => decl_id.span(),
            TyDeclaration::TraitDeclaration(decl_id) => decl_id.span(),
            TyDeclaration::AbiDeclaration(decl_id) => decl_id.span(),
            TyDeclaration::ImplTrait(decl_id) => decl_id.span(),
            TyDeclaration::StorageDeclaration(decl_id) => decl_id.span(),
            TyDeclaration::GenericTypeForFunctionScope { name, .. } => name.span,
            TyDeclaration::ErrorRecovery(span) => *span,
            _ => {
                proof {
                    assert(false);
                }
                Span { source: 0, start: 0, end: 0 }
            },
        }
    }

    /// Returns `Some(decl_id)` if `self` is an enum declaration, otherwise
    /// returns `None`.
    pub fn unwrap_enum(&self) -> (res: Option<DeclId>)
        ensures
            match self {
                TyDeclaration::EnumDeclaration(id, _) => res == Some(*id),
                _ => res is None,
            },
    {
        match self {
            TyDeclaration::EnumDeclaration(decl_id, _) => Some(decl_id.duplicate()),
            _ => None,
        }
    }
}

/// Whether `res` succeeded with `v` and reported nothing.
pub open spec fn succeeded_with<T>(res: CompileResult<T>, v: T) -> bool {
    res.value == Some(v) && res.warnings@.len() == 0 && res.errors@.len() == 0
}

/// Whether `res` failed with exactly the error of asking the stored
/// declaration `w` to be of kind `kind` at `span`.
pub open spec fn failed_lookup<T>(res: CompileResult<T>, w: DeclWrapper, kind: DeclKind, span: Span) -> bool {
    res.value is None && res.warnings@.len() == 0 && res.errors@.len() == 1 && w.expect_error(
        kind,
        span,
        res.errors@[0],
    )
}

/// Whether `res` failed and reported nothing: the outcome on a declaration
/// that is already the recovery from an error.
pub open spec fn failed_silently<T>(res: CompileResult<T>) -> bool {
    res.value is None && res.warnings@.len() == 0 && res.errors@.len() == 0
}

/// Whether `res` failed with the one error `e`.
pub open spec fn failed_with_one<T>(res: CompileResult<T>, e: CompileError) -> bool {
    res.value is None && res.warnings@.len() == 0 && res.errors@ == seq![e]
}

fn fail_one<T>(e: CompileError) -> (res: CompileResult<T>)
    ensures
        failed_with_one(res, e),
{
    let mut errors = Vec::new();
    errors.push(e);
    err(Vec::new(), errors)
}

impl TyDeclaration {
    /// The kind of stored declaration this declaration refers to, with the
    /// id it refers to it by, where it refers to one.
    pub open spec fn decl_ref(&self) -> Option<(DeclKind, DeclId)> {
        match self {
            TyDeclaration::ConstantDeclaration(id) => Some((DeclKind::Constant, *id)),
            TyDeclaration::FunctionDeclaration(id, _) => Some((DeclKind::Function, *id)),
            TyDeclaration::TraitDeclaration(id) => Some((DeclKind::Trait, *id)),
            TyDeclaration::StructDeclaration(id, _) => Some((DeclKind::Struct, *id)),
            TyDeclaration::EnumDeclaration(id, _) => Some((DeclKind::Enum, *id)),
            TyDeclaration::ImplTrait(id) => Some((DeclKind::ImplTrait, *id)),
            TyDeclaration::AbiDeclaration(id) => Some((DeclKind::Abi, *id)),
            TyDeclaration::StorageDeclaration(id) => Some((DeclKind::Storage, *id)),
            _ => None,
        }
    }

    /// Whether, where this declaration refers to a stored declaration of
    /// one of the `looked_up` kinds, its id refers to a declaration stored
    /// in `decl_engine`: the ids that a query looks up must be valid, the
    /// others need not be.
    pub open spec fn ids_valid(&self, decl_engine: &DeclEngine, looked_up: Set<DeclKind>) -> bool {
        match self.decl_ref() {
            Some((kind, id)) => looked_up.contains(kind) ==> decl_engine.valid(id),
            None => true,
        }
    }

    /// What the printed form says between its brackets: the name of a trait
    /// (or "unknown trait" where the id refers to something else), and
    /// nothing for the other declarations printed here.
    pub open spec fn spec_display_detail(&self, decl_engine: &DeclEngine) -> Seq<char> {
        match self {
            TyDeclaration::TraitDeclaration(id) => match decl_engine.decl(*id) {
                DeclWrapper::Trait(d) => d.name.name@,
                _ => "unknown trait"@,
            },
            _ => ""@,
        }
    }

    /// The printed form of a declaration: its friendly name, then
    /// " declaration (", the detail and ")".
    pub open spec fn spec_display(&self, decl_engine: &DeclEngine) -> Seq<char> {
        self.spec_friendly_name() + " declaration ("@ + self.spec_display_detail(decl_engine) + ")"@
    }

    /// The printed form of a declaration other than a variable, function,
    /// struct or enum declaration.
    pub fn display(&self, decl_engine: &DeclEngine) -> (res: String)
        requires
            self.ids_valid(decl_engine, set![DeclKind::Trait]),
            !(self is VariableDeclaration || self is FunctionDeclaration || self is StructDeclaration
                || self is EnumDeclaration),
        ensures
            res@ == self.spec_display(decl_engine),
    {
        let mut s = String::new();
        s.append(self.friendly_name());
        s.append(" declaration (");
        match self {
            TyDeclaration::TraitDeclaration(decl_id) => match decl_engine.get_trait(*decl_id, &decl_id.span()) {
                Ok(d) => s.append(d.name.as_str()),
                Err(_) => s.append("unknown trait"),
            },
            _ => {
                proof {
                    reveal_strlit("");
                }
                assert(self.spec_display_detail(decl_engine) =~= Seq::<char>::empty());
            },
        }
        s.append(")");
        assert(s@ =~= self.spec_display(decl_engine));
        s
    }
}

impl TyDeclaration {
    /// The error for asking this declaration to be of a kind it is not:
    /// `error` names what it actually is, at its span.
    pub open spec fn is_mismatch(&self, e: CompileError, kind: DeclKind) -> bool {
        let span = self.spec_span();
        let actually = self.spec_friendly_name();
        match kind {
            DeclKind::Enum => e matches CompileError::DeclIsNotAnEnum { actually: a, span: s } && a@ == actually
                && s == span,
            DeclKind::Function => e matches CompileError::DeclIsNotAFunction { actually: a, span: s } && a@
                == actually && s == span,
            DeclKind::Abi => e matches CompileError::DeclIsNotAnAbi { actually: a, span: s } && a@ == actually && s
                == span,
            DeclKind::Constant => e matches CompileError::DeclIsNotAConstant { actually: a, span: s } && a@
                == actually && s == span,
            DeclKind::Struct => e matches CompileError::DeclIsNotAStruct { actually: a, span: s } && a@
                == actually && s == span,
            _ => false,
        }
    }

    fn mismatch(&self, kind: DeclKind) -> (res: CompileError)
        requires
            self.has_span(),
            kind == DeclKind::Enum || kind == DeclKind::Function || kind == DeclKind::Abi || kind
                == DeclKind::Constant || kind == DeclKind::Struct,
        ensures
            self.is_mismatch(res, kind),
    {
        let actually = owned_string(self.friendly_name());
        let span = self.span();
        match kind {
            DeclKind::Enum => CompileError::DeclIsNotAnEnum { actually, span },
            DeclKind::Function => CompileError::DeclIsNotAFunction { actually, span },
            DeclKind::Abi => CompileError::DeclIsNotAnAbi { actually, span },
            DeclKind::Struct => CompileError::DeclIsNotAStruct { actually, span },
            _ => CompileError::DeclIsNotAConstant { actually, span },
        }
    }

    /// Retrieves the declaration as an enum declaration, with its id and the
    /// type arguments it was instantiated with.  Fails silently on an
    /// error recovery, and with a `DeclIsNotAnEnum` error on another
    /// declaration.
    pub fn expect_enum<'a>(self, decl_engine: &'a DeclEngine, access_span: &Span) -> (res: CompileResult<
        (&'a TyEnumDeclaration, DeclId, TypeSubstList),
    >)
        requires
            self.ids_valid(decl_engine, set![DeclKind::Enum]),
            !(self is FunctionDeclaration || self is StructDeclaration),
        ensures
            match self {
                TyDeclaration::EnumDeclaration(id, subst) => match decl_engine.decl(id) {
                    DeclWrapper::Enum(d) => succeeded_with(res, (&d, id, subst)),
                    w => failed_lookup(res, w, DeclKind::Enum, *access_span),
                },
                TyDeclaration::ErrorRecovery(_) => failed_silently(res),
                _ => res.value is None && res.warnings@.len() == 0 && res.errors@.len() == 1 && self.is_mismatch(
                    res.errors@[0],
                    DeclKind::Enum,
                ),
            },
    {
        match self {
            TyDeclaration::EnumDeclaration(decl_id, type_subst_list) => match decl_engine.get_enum(
                decl_id,
                access_span,
            ) {
                Ok(decl) => ok((decl, decl_id, type_subst_list), Vec::new(), Vec::new()),
                Err(e) => fail_one(e),
            },
            TyDeclaration::ErrorRecovery(_) => err(Vec::new(), Vec::new()),
            decl => {
                let e = decl.mismatch(DeclKind::Enum);
                fail_one(e)
            },
        }
    }

    /// Retrieves the declaration as a struct declaration.  Fails silently on
    /// an error recovery, and with a `DeclIsNotAStruct` error on another
    /// declaration.
    pub fn expect_struct<'a>(&self, decl_engine: &'a DeclEngine, access_span: &Span) -> (res: CompileResult<
        &'a TyStructDeclaration,
    >)
        requires
            self.ids_valid(decl_engine, set![DeclKind::Struct]),
            !(self is FunctionDeclaration || self is EnumDeclaration),
        ensures
            match self {
                TyDeclaration::StructDeclaration(id, _) => match decl_engine.decl(*id) {
                    DeclWrapper::Struct(d) => succeeded_with(res, &d),
                    w => failed_lookup(res, w, DeclKind::Struct, *access_span),
                },
                TyDeclaration::ErrorRecovery(_) => failed_silently(res),
                _ => res.value is None && res.warnings@.len() == 0 && res.errors@.len() == 1 && self.is_mismatch(
                    res.errors@[0],
                    DeclKind::Struct,
                ),
            },
    {
        match self {
            TyDeclaration::StructDeclaration(decl_id, _) => match decl_engine.get_struct(*decl_id, access_span) {
                Ok(decl) => ok(decl, Vec::new(), Vec::new()),
                Err(e) => fail_one(e),
            },
            TyDeclaration::ErrorRecovery(_) => err(Vec::new(), Vec::new()),
            decl => {
                let e = decl.mismatch(DeclKind::Struct);
                fail_one(e)
            },
        }
    }

    /// Retrieves the declaration as a function declaration, with its id and
    /// the type arguments it was instantiated with.
    pub fn expect_function<'a>(self, decl_engine: &'a DeclEngine, access_span: &Span) -> (res: CompileResult<
        (&'a TyFunctionDeclaration, DeclId, TypeSubstList),
    >)
        requires
            self.ids_valid(decl_engine, set![DeclKind::Function]),
            !(self is StructDeclaration || self is EnumDeclaration),
        ensures
            match self {
                TyDeclaration::FunctionDeclaration(id, subst) => match decl_engine.decl(id) {
                    DeclWrapper::Function(d) => succeeded_with(res, (&d, id, subst)),
                    w => failed_lookup(res, w, DeclKind::Function, *access_span),
                },
                TyDeclaration::ErrorRecovery(_) => failed_silently(res),
                _ => res.value is None && res.warnings@.len() == 0 && res.errors@.len() == 1 && self.is_mismatch(
                    res.errors@[0],
                    DeclKind::Function,
                ),
            },
    {
        match self {
            TyDeclaration::FunctionDeclaration(decl_id, type_subst_list) => match decl_engine.get_function(
                decl_id,
                access_span,
            ) {
                Ok(decl) => ok((decl, decl_id, type_subst_list), Vec::new(), Vec::new()),
                Err(e) => fail_one(e),
            },
            TyDeclaration::ErrorRecovery(_) => err(Vec::new(), Vec::new()),
            decl => {
                let e = decl.mismatch(DeclKind::Function);
                fail_one(e)
            },
        }
    }

    /// Retrieves the declaration as a variable declaration.
    pub fn expect_variable(&self) -> (res: CompileResult<&TyVariableDeclaration>)
        requires
            self.has_span(),
        ensures
            match self {
                TyDeclaration::VariableDeclaration(d) => succeeded_with(res, &**d),
                TyDeclaration::ErrorRecovery(_) => failed_silently(res),
                _ => res.value is None && res.warnings@.len() == 0 && res.errors@.len() == 1 && (
                res.errors@[0] matches CompileError::DeclIsNotAVariable { actually, span } && actually@
                    == self.spec_friendly_name() && span == self.spec_span()),
            },
    {
        match self {
            TyDeclaration::VariableDeclaration(decl) => ok(&**decl, Vec::new(), Vec::new()),
            TyDeclaration::ErrorRecovery(_) => err(Vec::new(), Vec::new()),
            decl => {
                let e = CompileError::DeclIsNotAVariable {
                    actually: owned_string(decl.friendly_name()),
                    span: decl.span(),
                };
                fail_one(e)
            },
        }
    }

    /// Retrieves the declaration as an abi declaration.
    pub fn expect_abi<'a>(&self, decl_engine: &'a DeclEngine, access_span: &Span) -> (res: CompileResult<
        &'a TyAbiDeclaration,
    >)
        requires
            self.ids_valid(decl_engine, set![DeclKind::Abi]),
            self.has_span(),
        ensures
            match self {
                TyDeclaration::AbiDeclaration(id) => match decl_engine.decl(*id) {
                    DeclWrapper::Abi(d) => succeeded_with(res, &d),
                    w => failed_lookup(res, w, DeclKind::Abi, *access_span),
                },
                TyDeclaration::ErrorRecovery(_) => failed_silently(res),
                _ => res.value is None && res.warnings@.len() == 0 && res.errors@.len() == 1 && self.is_mismatch(
                    res.errors@[0],
                    DeclKind::Abi,
                ),
            },
    {
        match self {
            TyDeclaration::AbiDeclaration(decl_id) => from_result(decl_engine.get_abi(*decl_id, access_span)),
            TyDeclaration::ErrorRecovery(_) => err(Vec::new(), Vec::new()),
            decl => {
                let e = decl.mismatch(DeclKind::Abi);
                fail_one(e)
            },
        }
    }

    /// Retrieves the declaration as a constant declaration.
    pub fn expect_const<'a>(&self, decl_engine: &'a DeclEngine, access_span: &Span) -> (res: CompileResult<
        &'a TyConstantDeclaration,
    >)
        requires
            self.ids_valid(decl_engine, set![DeclKind::Constant]),
            self.has_span(),
        ensures
            match self {
                TyDeclaration::ConstantDeclaration(id) => match decl_engine.decl(*id) {
                    DeclWrapper::Constant(d) => succeeded_with(res, &d),
                    w => failed_lookup(res, w, DeclKind::Constant, *access_span),
                },
                TyDeclaration::ErrorRecovery(_) => failed_silently(res),
                _ => res.value is None && res.warnings@.len() == 0 && res.errors@.len() == 1 && self.is_mismatch(
                    res.errors@[0],
                    DeclKind::Constant,
                ),
            },
    {
        match self {
            TyDeclaration::ConstantDeclaration(decl_id) => from_result(
                decl_engine.get_constant(*decl_id, access_span),
            ),
            TyDeclaration::ErrorRecovery(_) => err(Vec::new(), Vec::new()),
            decl => {
                let e = decl.mismatch(DeclKind::Constant);
                fail_one(e)
            },
        }
    }
}

impl TyDeclaration {
    /// The visibility of a declaration: that of the stored trait, constant,
    /// struct, enum or function (failing where the id refers to another
    /// kind), private for a variable, and public for the rest.
    pub fn visibility(&self, decl_engine: &DeclEngine) -> (res: CompileResult<Visibility>)
        requires
            self.ids_valid(decl_engine, set![DeclKind::Trait, DeclKind::Constant, DeclKind::Struct, DeclKind::Enum, DeclKind::Function]),
        ensures
            match self {
                TyDeclaration::TraitDeclaration(id) => match decl_engine.decl(*id) {
                    DeclWrapper::Trait(d) => succeeded_with(res, d.visibility),
                    w => failed_lookup(res, w, DeclKind::Trait, id.span),
                },
                TyDeclaration::ConstantDeclaration(id) => match decl_engine.decl(*id) {
                    DeclWrapper::Constant(d) => succeeded_with(res, d.visibility),
                    w => failed_lookup(res, w, DeclKind::Constant, id.span),
                },
                TyDeclaration::StructDeclaration(id, _) => match decl_engine.decl(*id) {
                    DeclWrapper::Struct(d) => succeeded_with(res, d.visibility),
                    w => failed_lookup(res, w, DeclKind::Struct, id.span),
                },
                TyDeclaration::EnumDeclaration(id, _) => match decl_engine.decl(*id) {
                    DeclWrapper::Enum(d) => succeeded_with(res, d.visibility),
                    w => failed_lookup(res, w, DeclKind::Enum, id.span),
                },
                TyDeclaration::FunctionDeclaration(id, _) => match decl_engine.decl(*id) {
                    DeclWrapper::Function(d) => succeeded_with(res, d.visibility),
                    w => failed_lookup(res, w, DeclKind::Function, id.span),
                },
                TyDeclaration::VariableDeclaration(_) => succeeded_with(res, Visibility::Private),
                _ => succeeded_with(res, Visibility::Public),
            },
    {
        match self {
            TyDeclaration::TraitDeclaration(decl_id) => match decl_engine.get_trait(*decl_id, &decl_id.span()) {
                Ok(d) => ok(d.visibility, Vec::new(), Vec::new()),
                Err(e) => fail_one(e),
            },
            TyDeclaration::ConstantDeclaration(decl_id) => match decl_engine.get_constant(
                *decl_id,
                &decl_id.span(),
            ) {
                Ok(d) => ok(d.visibility, Vec::new(), Vec::new()),
                Err(e) => fail_one(e),
            },
            TyDeclaration::StructDeclaration(decl_id, _) => match decl_engine.get_struct(
                *decl_id,
                &decl_id.span(),
            ) {
                Ok(d) => ok(d.visibility, Vec::new(), Vec::new()),
                Err(e) => fail_one(e),
            },
            TyDeclaration::EnumDeclaration(decl_id, _) => match decl_engine.get_enum(*decl_id, &decl_id.span()) {
                Ok(d) => ok(d.visibility, Vec::new(), Vec::new()),
                Err(e) => fail_one(e),
            },
            TyDeclaration::FunctionDeclaration(decl_id, _) => match decl_engine.get_function(
                *decl_id,
                &decl_id.span(),
            ) {
                Ok(d) => ok(d.visibility, Vec::new(), Vec::new()),
                Err(e) => fail_one(e),
            },
            TyDeclaration::VariableDeclaration(decl) => ok(decl.mutability.visibility(), Vec::new(), Vec::new()),
            _ => ok(Visibility::Public, Vec::new(), Vec::new()),
        }
    }

    /// Whether the declarations that `get_decl_ident` reads are of the kind
    /// their ids promise.
    pub open spec fn ident_lookups_match(&self, decl_engine: &DeclEngine) -> bool {
        match self {
            TyDeclaration::ConstantDeclaration(id) => decl_engine.decl(*id) is Constant,
            TyDeclaration::TraitDeclaration(id) => decl_engine.decl(*id) is Trait,
            TyDeclaration::ImplTrait(id) => decl_engine.decl(*id) is ImplTrait,
            TyDeclaration::AbiDeclaration(id) => decl_engine.decl(*id) is Abi,
            _ => true,
        }
    }

    /// The identifier that a declaration declares: the name of a variable,
    /// constant, trait, abi or generic type, the trait name of an impl, and
    /// none for storage and error recovery.
    pub fn get_decl_ident(&self, decl_engine: &DeclEngine) -> (res: Option<Ident>)
        requires
            self.ids_valid(decl_engine, set![DeclKind::Constant, DeclKind::Trait, DeclKind::ImplTrait, DeclKind::Abi]),
            self.ident_lookups_match(decl_engine),
            !(self is FunctionDeclaration || self is StructDeclaration || self is EnumDeclaration),
        ensures
            match self {
                TyDeclaration::VariableDeclaration(d) => res == Some(d.name),
                TyDeclaration::ConstantDeclaration(id) => res == Some(decl_engine.decl(*id)->Constant_0.name),
                TyDeclaration::TraitDeclaration(id) => res == Some(decl_engine.decl(*id)->Trait_0.name),
                TyDeclaration::ImplTrait(id) => res == Some(decl_engine.decl(*id)->ImplTrait_0.trait_name.suffix),
                TyDeclaration::AbiDeclaration(id) => res == Some(decl_engine.decl(*id)->Abi_0.name),
                TyDeclaration::GenericTypeForFunctionScope { name, .. } => res == Some(*name),
                _ => res is None,
            },
    {
        match self {
            TyDeclaration::VariableDeclaration(decl) => Some(decl.name.duplicate()),
            TyDeclaration::ConstantDeclaration(decl_id) => match decl_engine.get_constant(
                *decl_id,
                &decl_id.span(),
            ) {
                Ok(d) => Some(d.name.duplicate()),
                Err(_) => None,
            },
            TyDeclaration::TraitDeclaration(decl_id) => match decl_engine.get_trait(*decl_id, &decl_id.span()) {
                Ok(d) => Some(d.name.duplicate()),
                Err(_) => None,
            },
            TyDeclaration::ImplTrait(decl_id) => match decl_engine.get_impl_trait(*decl_id, &decl_id.span()) {
                Ok(d) => Some(d.trait_name.suffix.duplicate()),
                Err(_) => None,
            },
            TyDeclaration::AbiDeclaration(decl_id) => match decl_engine.get_abi(*decl_id, &decl_id.span()) {
                Ok(d) => Some(d.name.duplicate()),
                Err(_) => None,
            },
            TyDeclaration::GenericTypeForFunctionScope { name, .. } => Some(name.duplicate()),
            _ => None,
        }
    }

    /// The type a declaration stands for: the type of a variable's value,
    /// the type of a generic type parameter, and for a storage declaration a
    /// new storage type over its field types; any other declaration is no
    /// type, and gives a `NotAType` error naming it.
    pub fn return_type(&self, type_engine: &mut TypeEngine, decl_engine: &DeclEngine, access_span: &Span) -> (res:
        CompileResult<TypeId>)
        requires
            self.ids_valid(decl_engine, set![DeclKind::Storage, DeclKind::Trait]),
            !(self is FunctionDeclaration || self is StructDeclaration || self is EnumDeclaration),
        ensures
            match self {
                TyDeclaration::VariableDeclaration(d) => succeeded_with(res, d.body.return_type) && final(type_engine).slab@ == old(type_engine).slab@,
                TyDeclaration::GenericTypeForFunctionScope { type_id, .. } => succeeded_with(res, *type_id) && final(type_engine).slab@ == old(type_engine).slab@,
                TyDeclaration::StorageDeclaration(id) => match decl_engine.decl(*id) {
                    DeclWrapper::Storage(d) => {
                        &&& succeeded_with(res, TypeId(old(type_engine).slab@.len() as usize))
                        &&& final(type_engine).slab@.len() == old(type_engine).slab@.len() + 1
                        &&& final(type_engine).slab@.drop_last() == old(type_engine).slab@
                        &&& final(type_engine).slab@.last()@ == TypeInfoView::Storage {
                            fields: d.spec_field_types(),
                        }
                    },
                    w => failed_lookup(res, w, DeclKind::Storage, id.span) && final(type_engine).slab@ == old(type_engine).slab@,
                },
                _ => {
                    &&& res.value is None
                    &&& res.warnings@.len() == 0
                    &&& res.errors@.len() == 1
                    &&& res.errors@[0] matches CompileError::NotAType { span, name, actually_is }
                    &&& span == self.spec_span()
                    &&& name@ == self.spec_display(decl_engine)
                    &&& actually_is@ == self.spec_friendly_name()
                    &&& final(type_engine).slab@ == old(type_engine).slab@
                },
            },
    {
        match self {
            TyDeclaration::VariableDeclaration(decl) => ok(decl.body.return_type, Vec::new(), Vec::new()),
            TyDeclaration::StorageDeclaration(decl_id) => match decl_engine.get_storage(*decl_id, &self.span()) {
                Ok(storage_decl) => {
                    let fields = storage_decl.fields_as_typed_struct_fields();
                    let id = type_engine.insert(TypeInfo::Storage { fields });
                    assert(type_engine.slab@.drop_last() =~= old(type_engine).slab@);
                    ok(id, Vec::new(), Vec::new())
                },
                Err(e) => fail_one(e),
            },
            TyDeclaration::GenericTypeForFunctionScope { type_id, .. } => ok(*type_id, Vec::new(), Vec::new()),
            decl => {
                let e = CompileError::NotAType {
                    span: decl.span(),
                    name: decl.display(decl_engine),
                    actually_is: decl.friendly_name(),
                };
                fail_one(e)
            },
        }
    }
}

} // verus!
