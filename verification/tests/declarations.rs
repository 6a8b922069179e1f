use sway_verified::decl_engine::{DeclEngine, DeclId};
use sway_verified::error::CompileError;
use sway_verified::language::declaration::{
    DeclWrapper, TyAbiDeclaration, TyConstantDeclaration, TyEnumDeclaration, TyStorageDeclaration,
    TyStorageField, TyStructDeclaration, TyTraitDeclaration,
};
use sway_verified::language::ty::{
    AttributesMap, Literal, TyDeclaration, TyEnumVariant, TyExpression, TyExpressionVariant,
    TyVariableDeclaration, VariableMutability, Visibility,
};
use sway_verified::span::{Ident, Span};
use sway_verified::type_system::{TypeEngine, TypeId, TypeInfo, TypeSubstList};

fn decl_span(start: usize) -> Span {
    Span::new(1, start, start + 4)
}

fn decl_ident(name: &str, start: usize) -> Ident {
    Ident::new(name.to_string(), decl_span(start))
}

fn no_attributes() -> AttributesMap {
    AttributesMap { attributes: vec![] }
}

fn sample_engine() -> DeclEngine {
    let trait_decl = TyTraitDeclaration {
        name: decl_ident("Hash", 0),
        type_parameters: vec![],
        interface_surface: vec![],
        methods: vec![],
        supertraits: vec![],
        visibility: Visibility::Public,
        attributes: no_attributes(),
        span: decl_span(0),
    };
    let enum_decl = TyEnumDeclaration {
        name: decl_ident("Color", 10),
        type_parameters: vec![],
        attributes: no_attributes(),
        variants: vec![
            TyEnumVariant {
                name: decl_ident("Red", 20),
                type_id: TypeId(0),
                initial_type_id: TypeId(0),
                type_span: decl_span(20),
                tag: 0,
                span: decl_span(20),
                attributes: no_attributes(),
            },
            TyEnumVariant {
                name: decl_ident("Blue", 30),
                type_id: TypeId(0),
                initial_type_id: TypeId(0),
                type_span: decl_span(30),
                tag: 1,
                span: decl_span(30),
                attributes: no_attributes(),
            },
        ],
        span: decl_span(10),
        visibility: Visibility::Private,
    };
    let storage = TyStorageDeclaration {
        fields: vec![
            TyStorageField { name: decl_ident("x", 40), type_id: TypeId(3), span: decl_span(40) },
            TyStorageField { name: decl_ident("y", 50), type_id: TypeId(5), span: decl_span(50) },
        ],
        span: decl_span(40),
    };
    let abi = TyAbiDeclaration {
        name: decl_ident("Wallet", 60),
        interface_surface: vec![],
        methods: vec![],
        span: decl_span(60),
        attributes: no_attributes(),
    };
    let constant = TyConstantDeclaration {
        name: decl_ident("MAX", 70),
        value: TyExpression {
            expression: TyExpressionVariant::Literal(Literal::U64(7)),
            return_type: TypeId(0),
            span: decl_span(70),
        },
        visibility: Visibility::Public,
        return_type: TypeId(0),
        attributes: no_attributes(),
        span: decl_span(70),
    };
    DeclEngine {
        slab: vec![
            DeclWrapper::Trait(trait_decl),
            DeclWrapper::Enum(enum_decl),
            DeclWrapper::Storage(storage),
            DeclWrapper::Abi(abi),
            DeclWrapper::Constant(constant),
            DeclWrapper::Unknown,
        ],
    }
}

#[test]
fn friendly_and_doc_names() {
    let d = TyDeclaration::TraitDeclaration(DeclId::new(0, decl_span(0)));
    assert_eq!(d.friendly_name(), "trait");
    assert_eq!(d.doc_name(), "trait");
    let s = TyDeclaration::StorageDeclaration(DeclId::new(2, decl_span(0)));
    assert_eq!(s.friendly_name(), "contract storage declaration");
    assert_eq!(s.doc_name(), "contract_storage");
    let g = TyDeclaration::GenericTypeForFunctionScope { name: decl_ident("T", 0), type_id: TypeId(1) };
    assert_eq!(g.friendly_name(), "generic type parameter");
    let e = TyDeclaration::ErrorRecovery(decl_span(3));
    assert_eq!(e.friendly_name(), "error");
    assert_eq!(e.span(), decl_span(3));
}

#[test]
fn expect_enum_finds_the_enum() {
    let engine = sample_engine();
    let d = TyDeclaration::EnumDeclaration(DeclId::new(1, decl_span(10)), TypeSubstList::new());
    let r = d.expect_enum(&engine, &decl_span(99));
    assert!(r.errors.is_empty());
    let (decl, id, _) = r.value.unwrap();
    assert_eq!(decl.name.as_str(), "Color");
    assert_eq!(id.index, 1);
}

#[test]
fn expect_enum_on_a_trait_is_an_error() {
    let engine = sample_engine();
    let d = TyDeclaration::TraitDeclaration(DeclId::new(0, decl_span(0)));
    let r = d.expect_enum(&engine, &decl_span(99));
    assert!(r.value.is_none());
    assert_eq!(r.errors.len(), 1);
    match &r.errors[0] {
        CompileError::DeclIsNotAnEnum { actually, span } => {
            assert_eq!(actually, "trait");
            assert_eq!(*span, decl_span(0));
        }
        other => panic!("unexpected error {:?}", other),
    }
}

#[test]
fn expect_enum_on_an_id_of_another_kind_is_a_lookup_error() {
    let engine = sample_engine();
    let d = TyDeclaration::EnumDeclaration(DeclId::new(0, decl_span(0)), TypeSubstList::new());
    let r = d.expect_enum(&engine, &decl_span(99));
    assert!(r.value.is_none());
    match &r.errors[0] {
        CompileError::DeclIsNotAnEnum { actually, span } => {
            assert_eq!(actually, "trait");
            assert_eq!(*span, decl_span(99));
        }
        other => panic!("unexpected error {:?}", other),
    }
}

#[test]
fn expect_on_error_recovery_fails_silently() {
    let engine = sample_engine();
    let d = TyDeclaration::ErrorRecovery(decl_span(5));
    let r = d.expect_abi(&engine, &decl_span(5));
    assert!(r.value.is_none());
    assert!(r.errors.is_empty());
    assert!(r.warnings.is_empty());
    let d2 = TyDeclaration::ErrorRecovery(decl_span(5));
    let r2 = d2.expect_variable();
    assert!(r2.value.is_none() && r2.errors.is_empty());
}

#[test]
fn expect_abi_and_const() {
    let engine = sample_engine();
    let abi = TyDeclaration::AbiDeclaration(DeclId::new(3, decl_span(60)));
    assert_eq!(abi.expect_abi(&engine, &decl_span(60)).value.unwrap().name.as_str(), "Wallet");
    let constant = TyDeclaration::ConstantDeclaration(DeclId::new(4, decl_span(70)));
    assert_eq!(constant.expect_const(&engine, &decl_span(70)).value.unwrap().name.as_str(), "MAX");
    let wrong = abi.expect_const(&engine, &decl_span(60));
    assert!(matches!(wrong.errors[0], CompileError::DeclIsNotAConstant { .. }));
    let unknown = TyDeclaration::AbiDeclaration(DeclId::new(5, decl_span(1)));
    let r = unknown.expect_abi(&engine, &decl_span(8));
    assert!(matches!(r.errors[0], CompileError::Internal(_, s) if s == decl_span(8)));
}

#[test]
fn expect_variable_gives_the_variable() {
    let var = TyVariableDeclaration {
        name: decl_ident("x", 0),
        body: TyExpression {
            expression: TyExpressionVariant::Literal(Literal::Boolean(true)),
            return_type: TypeId(2),
            span: decl_span(0),
        },
        mutability: VariableMutability::Mutable,
        return_type: TypeId(2),
        type_ascription: TypeId(2),
    };
    let d = TyDeclaration::VariableDeclaration(Box::new(var));
    let r = d.expect_variable();
    assert_eq!(r.value.unwrap().name.as_str(), "x");
    let t = TyDeclaration::TraitDeclaration(DeclId::new(0, decl_span(0)));
    let r2 = t.expect_variable();
    assert!(matches!(&r2.errors[0], CompileError::DeclIsNotAVariable { actually, .. } if actually == "trait"));
}

#[test]
fn visibility_of_declarations() {
    let engine = sample_engine();
    let t = TyDeclaration::TraitDeclaration(DeclId::new(0, decl_span(0)));
    assert_eq!(t.visibility(&engine).value, Some(Visibility::Public));
    let e = TyDeclaration::EnumDeclaration(DeclId::new(1, decl_span(0)), TypeSubstList::new());
    assert_eq!(e.visibility(&engine).value, Some(Visibility::Private));
    let s = TyDeclaration::StorageDeclaration(DeclId::new(2, decl_span(0)));
    assert_eq!(s.visibility(&engine).value, Some(Visibility::Public));
    let wrong = TyDeclaration::TraitDeclaration(DeclId::new(1, decl_span(12)));
    let r = wrong.visibility(&engine);
    assert!(r.value.is_none());
    assert!(matches!(&r.errors[0], CompileError::DeclIsNotATrait { actually, span } if actually == "enum" && *span == decl_span(12)));
}

#[test]
fn declared_identifiers() {
    let engine = sample_engine();
    let t = TyDeclaration::TraitDeclaration(DeclId::new(0, decl_span(0)));
    assert_eq!(t.get_decl_ident(&engine).unwrap().as_str(), "Hash");
    let c = TyDeclaration::ConstantDeclaration(DeclId::new(4, decl_span(0)));
    assert_eq!(c.get_decl_ident(&engine).unwrap().as_str(), "MAX");
    let s = TyDeclaration::StorageDeclaration(DeclId::new(2, decl_span(0)));
    assert!(s.get_decl_ident(&engine).is_none());
    let e = TyDeclaration::ErrorRecovery(decl_span(0));
    assert!(e.get_decl_ident(&engine).is_none());
}

#[test]
fn return_type_of_storage_is_a_new_storage_type() {
    let engine = sample_engine();
    let mut types = TypeEngine::new();
    types.insert(TypeInfo::Boolean);
    let s = TyDeclaration::StorageDeclaration(DeclId::new(2, decl_span(40)));
    let r = s.return_type(&mut types, &engine, &decl_span(0));
    assert_eq!(r.value, Some(TypeId(1)));
    match types.get(TypeId(1)) {
        TypeInfo::Storage { fields } => assert_eq!(fields, &vec![TypeId(3), TypeId(5)]),
        other => panic!("unexpected type {:?}", other),
    }
}

#[test]
fn return_type_of_a_trait_is_not_a_type() {
    let engine = sample_engine();
    let mut types = TypeEngine::new();
    let t = TyDeclaration::TraitDeclaration(DeclId::new(0, decl_span(0)));
    let r = t.return_type(&mut types, &engine, &decl_span(0));
    assert!(r.value.is_none());
    match &r.errors[0] {
        CompileError::NotAType { span, name, actually_is } => {
            assert_eq!(*span, decl_span(0));
            assert_eq!(name, "trait declaration (Hash)");
            assert_eq!(*actually_is, "trait");
        }
        other => panic!("unexpected error {:?}", other),
    }
    assert!(types.slab.is_empty());
    let c = TyDeclaration::ConstantDeclaration(DeclId::new(4, decl_span(0)));
    assert_eq!(c.display(&engine), "constant declaration ()");
}

#[test]
fn enum_variants_by_name() {
    let engine = sample_engine();
    let decl = match &engine.slab[1] {
        DeclWrapper::Enum(d) => d,
        _ => unreachable!(),
    };
    let blue = decl.expect_variant_from_name(&decl_ident("Blue", 90));
    assert_eq!(blue.value.unwrap().tag, 1);
    let green = decl.expect_variant_from_name(&decl_ident("Green", 90));
    assert!(green.value.is_none());
    match &green.errors[0] {
        CompileError::UnknownEnumVariant { enum_name, variant_name, span } => {
            assert_eq!(enum_name.as_str(), "Color");
            assert_eq!(variant_name.as_str(), "Green");
            assert_eq!(*span, decl_span(90));
        }
        other => panic!("unexpected error {:?}", other),
    }
}

#[test]
fn lookups_of_the_wrong_kind_name_what_they_found() {
    let engine = sample_engine();
    let at = decl_span(55);
    let trait_id = DeclId::new(0, decl_span(0));
    assert!(matches!(engine.get_trait_fn(trait_id, &at), Err(CompileError::DeclIsNotATraitFn { actually, span }) if actually == "trait" && span == at));
    assert!(matches!(engine.get_impl_trait(trait_id, &at), Err(CompileError::DeclIsNotAnImplTrait { actually, .. }) if actually == "trait"));
    assert!(matches!(engine.get_struct(trait_id, &at), Err(CompileError::DeclIsNotAStruct { .. })));
    assert!(matches!(engine.get_function(trait_id, &at), Err(CompileError::DeclIsNotAFunction { .. })));
    assert!(matches!(engine.get_storage(trait_id, &at), Err(CompileError::DeclIsNotAStorage { .. })));
    assert!(engine.get_trait(trait_id, &at).is_ok());
    assert_eq!(engine.get(trait_id).friendly_name(), "trait");
}

#[test]
fn declarations_of_another_kind_are_refused() {
    let engine = sample_engine();
    let constant = TyDeclaration::ConstantDeclaration(DeclId::new(4, decl_span(70)));
    let r = constant.expect_abi(&engine, &decl_span(0));
    assert!(matches!(&r.errors[0], CompileError::DeclIsNotAnAbi { actually, span } if actually == "constant" && *span == decl_span(70)));
    let t = TyDeclaration::TraitDeclaration(DeclId::new(0, decl_span(0)));
    let r2 = t.expect_function(&engine, &decl_span(0));
    assert!(matches!(&r2.errors[0], CompileError::DeclIsNotAFunction { actually, .. } if actually == "trait"));
    let s = TyDeclaration::StructDeclaration(DeclId::new(0, decl_span(9)), TypeSubstList::new());
    let r3 = s.visibility(&engine);
    assert!(matches!(&r3.errors[0], CompileError::DeclIsNotAStruct { actually, span } if actually == "trait" && *span == decl_span(9)));
    let storage = TyDeclaration::StorageDeclaration(DeclId::new(0, decl_span(9)));
    let mut types = TypeEngine::new();
    let r4 = storage.return_type(&mut types, &engine, &decl_span(0));
    assert!(matches!(&r4.errors[0], CompileError::DeclIsNotAStorage { .. }));
    assert!(types.slab.is_empty());
}

#[test]
fn unwrap_enum_gives_the_id_of_an_enum() {
    let e = TyDeclaration::EnumDeclaration(DeclId::new(4, decl_span(0)), TypeSubstList::new());
    assert_eq!(e.unwrap_enum().unwrap().index, 4);
    assert!(TyDeclaration::ErrorRecovery(decl_span(0)).unwrap_enum().is_none());
    assert!(TyDeclaration::ImplTrait(DeclId::new(4, decl_span(0))).unwrap_enum().is_none());
}

#[test]
fn declarations_that_need_no_lookup_work_on_an_empty_engine() {
    let de = DeclEngine::new();
    let impl_trait = TyDeclaration::ImplTrait(DeclId::new(0, decl_span(0)));
    assert_eq!(impl_trait.display(&de), "impl trait declaration ()");
    assert_eq!(TyDeclaration::ErrorRecovery(decl_span(0)).display(&de), "error declaration ()");
    assert_eq!(impl_trait.visibility(&de).value, Some(Visibility::Public));
    let storage = TyDeclaration::StorageDeclaration(DeclId::new(5, decl_span(0)));
    assert_eq!(storage.visibility(&de).value, Some(Visibility::Public));
    let abi = TyDeclaration::AbiDeclaration(DeclId::new(6, decl_span(0)));
    assert_eq!(abi.visibility(&de).value, Some(Visibility::Public));
}

#[test]
fn expect_struct_finds_the_struct() {
    let mut de = DeclEngine::new();
    de.slab.push(DeclWrapper::Struct(TyStructDeclaration {
        name: decl_ident("Point", 40),
        type_parameters: vec![],
        fields: vec![],
        visibility: Visibility::Private,
        span: decl_span(40),
        attributes: no_attributes(),
    }));
    let found = TyDeclaration::StructDeclaration(DeclId::new(0, decl_span(41)), TypeSubstList::new())
        .expect_struct(&de, &decl_span(42));
    assert_eq!(found.value.unwrap().name.as_str(), "Point");
    let silent = TyDeclaration::ErrorRecovery(decl_span(0)).expect_struct(&de, &decl_span(42));
    assert!(silent.value.is_none() && silent.errors.is_empty());
    let abi = TyDeclaration::AbiDeclaration(DeclId::new(0, decl_span(43))).expect_struct(&de, &decl_span(42));
    assert!(abi.value.is_none());
    match &abi.errors[0] {
        CompileError::DeclIsNotAStruct { actually, span } => {
            assert_eq!(actually, "abi");
            assert_eq!(*span, decl_span(43));
        }
        other => panic!("unexpected error {:?}", other),
    }
}
