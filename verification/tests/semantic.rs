use sway_verified::decl_engine::DeclId;
use sway_verified::error::{CompileError, CompileResult, CompileWarning, Warning};
use sway_verified::language::parsed::{
    AstNode, AstNodeContent, CodeBlock, EnumDeclaration, EnumVariant, StructDeclaration, StructField,
};
use sway_verified::language::ty::{
    AttributesMap, Literal, TyAstNode, TyAstNodeContent, TyCodeBlock, TyDeclaration, TyEnumVariant, TyExpression,
    TyExpressionVariant, TyStructField, Visibility,
};
use sway_verified::language::declaration::{TyEnumDeclaration, TyStructDeclaration};
use sway_verified::semantic_analysis::TypeParameterChecks;
use sway_verified::span::{CallPath, Ident, Span};
use sway_verified::type_system::{TraitConstraint, TypeEngine, TypeId, TypeInfo, TypeParameter, TypeSubstList};

fn sem_span(start: usize) -> Span {
    Span::new(2, start, start + 1)
}

fn unified() -> CompileResult<()> {
    CompileResult { value: Some(()), warnings: vec![], errors: vec![] }
}

fn checked(node: TyAstNode) -> CompileResult<TyAstNode> {
    CompileResult { value: Some(node), warnings: vec![], errors: vec![] }
}

fn failed_node(msg: &'static str) -> CompileResult<TyAstNode> {
    CompileResult { value: None, warnings: vec![], errors: vec![CompileError::Internal(msg, sem_span(0))] }
}

fn expr_node(ret: TypeId, implicit: bool) -> TyAstNode {
    let e = TyExpression { expression: TyExpressionVariant::Literal(Literal::U8(1)), return_type: ret, span: sem_span(1) };
    TyAstNode {
        content: if implicit {
            TyAstNodeContent::ImplicitReturnExpression(e)
        } else {
            TyAstNodeContent::Expression(e)
        },
        span: sem_span(1),
    }
}

fn parsed_block(implicit_at: Option<usize>) -> CodeBlock {
    let mut contents = vec![AstNode { content: AstNodeContent::Declaration, span: sem_span(0) }];
    if let Some(s) = implicit_at {
        contents.push(AstNode { content: AstNodeContent::ImplicitReturnExpression { span: sem_span(s) }, span: sem_span(s) });
    }
    CodeBlock { contents, whole_block_span: sem_span(100) }
}

#[test]
fn block_type_is_that_of_its_implicit_return() {
    let mut te = TypeEngine::new();
    te.insert(TypeInfo::Boolean);
    let r = TyCodeBlock::type_check(
        &mut te,
        &parsed_block(Some(5)),
        vec![checked(expr_node(TypeId(9), false)), checked(expr_node(TypeId(0), true))],
        vec![false, false],
        None,
        unified(),
    );
    let (block, ty) = r.value.unwrap();
    assert_eq!(ty, TypeId(0));
    assert_eq!(block.contents.len(), 2);
    assert_eq!(te.slab.len(), 1);
}

#[test]
fn block_without_return_is_unit() {
    let mut te = TypeEngine::new();
    let r = TyCodeBlock::type_check(&mut te, &parsed_block(None), vec![checked(expr_node(TypeId(0), false))], vec![false], None, unified());
    let (_, ty) = r.value.unwrap();
    assert_eq!(ty, TypeId(0));
    assert!(matches!(te.get(ty), TypeInfo::Tuple(fields) if fields.is_empty()));
}

#[test]
fn aborting_block_gets_the_never_type() {
    let mut te = TypeEngine::new();
    let never = TyDeclaration::EnumDeclaration(DeclId::new(3, sem_span(0)), TypeSubstList::new());
    let r = TyCodeBlock::type_check(
        &mut te,
        &parsed_block(None),
        vec![failed_node("bad"), checked(expr_node(TypeId(0), false))],
        vec![false, true],
        Some(never),
        unified(),
    );
    assert_eq!(r.errors.len(), 1);
    let (block, ty) = r.value.unwrap();
    assert_eq!(block.contents.len(), 1);
    match te.get(ty) {
        TypeInfo::Enum { name, decl_id, .. } => {
            assert_eq!(name.as_str(), "Never");
            assert_eq!(name.span, sem_span(100));
            assert_eq!(decl_id.index, 3);
        }
        other => panic!("unexpected type {:?}", other),
    }
}

#[test]
fn unification_diagnostics_follow_those_of_the_nodes() {
    let mut te = TypeEngine::new();
    let mismatch = CompileResult {
        value: None,
        warnings: vec![],
        errors: vec![CompileError::Internal("mismatched block type", sem_span(100))],
    };
    let r = TyCodeBlock::type_check(
        &mut te,
        &parsed_block(None),
        vec![failed_node("node"), checked(expr_node(TypeId(0), false))],
        vec![false, false],
        None,
        mismatch,
    );
    assert_eq!(r.errors.len(), 2);
    assert!(matches!(r.errors[0], CompileError::Internal("node", _)));
    assert!(matches!(r.errors[1], CompileError::Internal("mismatched block type", _)));
    assert!(r.value.is_some());
}

#[test]
fn aborting_block_without_never_is_unknown() {
    let mut te = TypeEngine::new();
    let r = TyCodeBlock::type_check(&mut te, &parsed_block(None), vec![checked(expr_node(TypeId(0), false))], vec![true], None, unified());
    let (_, ty) = r.value.unwrap();
    assert!(matches!(te.get(ty), TypeInfo::Unknown));
    assert_eq!(parsed_block(Some(7)).result_span(), sem_span(7));
    assert_eq!(parsed_block(None).result_span(), sem_span(100));
}

fn field(name: &str) -> StructField {
    StructField {
        name: Ident::new(name.to_string(), sem_span(10)),
        attributes: AttributesMap { attributes: vec![] },
        type_info: TypeInfo::Boolean,
        span: sem_span(10),
        type_span: sem_span(11),
    }
}

#[test]
fn struct_field_with_unresolved_type_recovers() {
    let mut te = TypeEngine::new();
    let ok_field = TyStructField::type_check(
        &mut te,
        field("a"),
        CompileResult { value: Some(TypeId(7)), warnings: vec![], errors: vec![] },
    );
    let f = ok_field.value.unwrap();
    assert_eq!(f.type_id, TypeId(7));
    assert_eq!(f.initial_type_id, TypeId(0));
    let bad_field = TyStructField::type_check(
        &mut te,
        field("b"),
        CompileResult { value: None, warnings: vec![], errors: vec![CompileError::Internal("unresolved", sem_span(0))] },
    );
    assert_eq!(bad_field.errors.len(), 1);
    let g = bad_field.value.unwrap();
    assert_eq!(g.initial_type_id, TypeId(1));
    assert_eq!(g.type_id, TypeId(2));
    assert!(matches!(te.get(TypeId(2)), TypeInfo::ErrorRecovery));
}

#[test]
fn struct_declaration_checks_every_field() {
    let mut te = TypeEngine::new();
    let decl = StructDeclaration {
        name: Ident::new("Point".to_string(), sem_span(0)),
        attributes: AttributesMap { attributes: vec![] },
        fields: vec![field("x"), field("y")],
        type_parameters: vec![],
        visibility: Visibility::Public,
        span: sem_span(0),
    };
    let r = TyStructDeclaration::type_check(
        &mut te,
        decl,
        TypeSubstList::new(),
        vec![],
        vec![
            CompileResult { value: Some(TypeId(40)), warnings: vec![], errors: vec![] },
            CompileResult { value: None, warnings: vec![], errors: vec![CompileError::Internal("no", sem_span(0))] },
        ],
    );
    assert_eq!(r.errors.len(), 1);
    let (d, _) = r.value.unwrap();
    assert_eq!(d.name.as_str(), "Point");
    assert_eq!(d.fields.len(), 2);
    assert_eq!(d.fields[0].type_id, TypeId(40));
    assert_eq!(d.fields[1].initial_type_id, TypeId(1));
    assert_eq!(d.fields[1].type_id, TypeId(2));
    assert_eq!(te.slab.len(), 3);
}

#[test]
fn struct_declaration_fails_with_its_type_parameters() {
    let mut te = TypeEngine::new();
    let decl = StructDeclaration {
        name: Ident::new("P".to_string(), sem_span(0)),
        attributes: AttributesMap { attributes: vec![] },
        fields: vec![field("x")],
        type_parameters: vec![type_param("T", true)],
        visibility: Visibility::Private,
        span: sem_span(0),
    };
    let r = TyStructDeclaration::type_check(
        &mut te,
        decl,
        TypeSubstList::new(),
        vec![param_checks(true, true)],
        vec![CompileResult { value: Some(TypeId(0)), warnings: vec![], errors: vec![] }],
    );
    assert!(r.value.is_none());
    assert_eq!(r.errors.len(), 1);
    assert!(matches!(r.errors[0], CompileError::WhereClauseNotYetSupported { .. }));
    assert!(te.slab.is_empty());
}

#[test]
fn enum_declaration_reports_variant_errors() {
    let mut te = TypeEngine::new();
    let variant = |name: &str, tag: usize| EnumVariant {
        name: Ident::new(name.to_string(), sem_span(20)),
        attributes: AttributesMap { attributes: vec![] },
        type_info: TypeInfo::Boolean,
        type_span: sem_span(21),
        tag,
        span: sem_span(20),
    };
    let decl = EnumDeclaration {
        name: Ident::new("E".to_string(), sem_span(0)),
        attributes: AttributesMap { attributes: vec![] },
        type_parameters: vec![],
        variants: vec![variant("A", 0), variant("B", 1)],
        span: sem_span(0),
        visibility: Visibility::Public,
    };
    let r = TyEnumDeclaration::type_check(
        &mut te,
        decl,
        TypeSubstList::new(),
        vec![],
        vec![
            CompileResult { value: None, warnings: vec![], errors: vec![CompileError::Internal("no", sem_span(0))] },
            CompileResult { value: Some(TypeId(9)), warnings: vec![], errors: vec![] },
        ],
    );
    assert_eq!(r.errors.len(), 1);
    let (d, _) = r.value.unwrap();
    assert_eq!(d.variants.len(), 2);
    assert_eq!(d.variants[0].type_id, TypeId(1));
    assert_eq!(d.variants[1].type_id, TypeId(9));
    assert_eq!(d.variants[1].tag, 1);
    let single = TyEnumVariant::type_check(&mut te, variant("C", 2), CompileResult { value: Some(TypeId(0)), warnings: vec![], errors: vec![] });
    assert_eq!(single.value.unwrap().initial_type_id, TypeId(3));
}

fn param_checks(ok_constraints: bool, ok_insert: bool) -> TypeParameterChecks {
    TypeParameterChecks {
        constraints: if ok_constraints {
            CompileResult { value: Some(vec![]), warnings: vec![], errors: vec![] }
        } else {
            CompileResult { value: None, warnings: vec![], errors: vec![CompileError::Internal("constraint", sem_span(0))] }
        },
        constraints_inserted: if ok_insert {
            CompileResult { value: Some(()), warnings: vec![], errors: vec![] }
        } else {
            CompileResult { value: None, warnings: vec![], errors: vec![CompileError::Internal("insert", sem_span(0))] }
        },
        symbol_inserted: CompileResult { value: Some(()), warnings: vec![], errors: vec![] },
    }
}

fn type_param(name: &str, with_constraint: bool) -> TypeParameter {
    TypeParameter {
        type_id: TypeId(0),
        initial_type_id: TypeId(77),
        name_ident: Ident::new(name.to_string(), sem_span(30)),
        trait_constraints: if with_constraint {
            vec![TraitConstraint {
                trait_name: CallPath { prefixes: vec![], suffix: Ident::new("Eq".to_string(), sem_span(31)), is_absolute: false },
                type_arguments: vec![],
            }]
        } else {
            vec![]
        },
        trait_constraints_span: sem_span(32),
    }
}

#[test]
fn a_type_parameter_gets_a_generic_type_and_a_reference() {
    let mut te = TypeEngine::new();
    te.insert(TypeInfo::Boolean);
    let mut scope = Vec::new();
    let r = TypeParameter::type_check(&mut te, type_param("T", false), 4, param_checks(true, true), &mut scope);
    let (subst, reference) = r.value.unwrap();
    assert_eq!(scope.len(), 1);
    assert_eq!(scope[0].0.as_str(), "T");
    assert!(matches!(&scope[0].1, TyDeclaration::GenericTypeForFunctionScope { name, type_id }
        if name.as_str() == "T" && *type_id == TypeId(2)));
    assert_eq!(subst.type_id, TypeId(1));
    assert_eq!(reference.type_id, TypeId(2));
    assert_eq!(subst.initial_type_id, TypeId(77));
    assert!(matches!(te.get(TypeId(1)), TypeInfo::UnknownGeneric { name, trait_constraints } if name.as_str() == "T" && trait_constraints.is_empty()));
    assert!(matches!(te.get(TypeId(2)), TypeInfo::TypeParam(4)));
    let failed = TypeParameter::type_check(&mut te, type_param("U", false), 5, param_checks(false, true), &mut scope);
    assert!(failed.value.is_none());
    assert_eq!(scope.len(), 1);
    assert_eq!(te.slab.len(), 3);
    let not_inserted = TypeParameter::type_check(&mut te, type_param("V", false), 6, param_checks(true, false), &mut scope);
    assert!(not_inserted.value.is_none());
    assert_eq!(scope.len(), 1);
    assert_eq!(te.slab.len(), 5);
}

#[test]
fn a_generic_type_keeps_its_checked_constraints() {
    let mut te = TypeEngine::new();
    let mut checks = param_checks(true, true);
    checks.constraints = CompileResult { value: Some(type_param("T", true).trait_constraints), warnings: vec![], errors: vec![] };
    let r = TypeParameter::type_check(&mut te, type_param("T", true), 0, checks, &mut Vec::new());
    let (subst, reference) = r.value.unwrap();
    assert_eq!(subst.trait_constraints.len(), 1);
    assert_eq!(reference.trait_constraints.len(), 1);
    match te.get(TypeId(0)) {
        TypeInfo::UnknownGeneric { name, trait_constraints } => {
            assert_eq!(name.as_str(), "T");
            assert_eq!(trait_constraints.len(), 1);
            assert_eq!(trait_constraints[0].trait_name.suffix.as_str(), "Eq");
        }
        _ => panic!("expected a generic type"),
    }
}

#[test]
fn type_parameters_extend_the_inherited_list() {
    let mut te = TypeEngine::new();
    let inherited = TypeSubstList { list: vec![type_param("A", false)] };
    let mut scope = Vec::new();
    let r = TypeParameter::type_check_type_parameters(
        &mut te,
        vec![type_param("T", false), type_param("U", false)],
        false,
        inherited,
        vec![param_checks(true, true), param_checks(true, true)],
        &mut scope,
    );
    let (refs, stack) = r.value.unwrap();
    assert_eq!(scope.len(), 2);
    assert_eq!(scope[1].0.as_str(), "U");
    assert!(matches!(&scope[1].1, TyDeclaration::GenericTypeForFunctionScope { type_id, .. } if *type_id == TypeId(3)));
    assert_eq!(refs.len(), 2);
    assert_eq!(stack.list.len(), 3);
    assert!(matches!(te.get(TypeId(1)), TypeInfo::TypeParam(1)));
    assert!(matches!(te.get(TypeId(3)), TypeInfo::TypeParam(2)));
    assert_eq!(refs[1].type_id, TypeId(3));
}

#[test]
fn where_clauses_are_refused_where_not_allowed() {
    let mut te = TypeEngine::new();
    let r = TypeParameter::type_check_type_parameters(
        &mut te,
        vec![type_param("T", false), type_param("U", true), type_param("V", false)],
        false,
        TypeSubstList::new(),
        vec![param_checks(true, true), param_checks(true, true), param_checks(true, true)],
        &mut Vec::new(),
    );
    assert!(r.value.is_none());
    assert_eq!(r.errors.len(), 1);
    assert!(matches!(r.errors[0], CompileError::WhereClauseNotYetSupported { span } if span == sem_span(32)));
    assert_eq!(te.slab.len(), 2);
    let allowed = TypeParameter::type_check_type_parameters(
        &mut te,
        vec![type_param("U", true)],
        true,
        TypeSubstList::new(),
        vec![param_checks(true, true)],
        &mut Vec::new(),
    );
    assert!(allowed.value.is_some());
}

#[test]
fn a_failing_type_parameter_fails_the_list() {
    let mut te = TypeEngine::new();
    let r = TypeParameter::type_check_type_parameters(
        &mut te,
        vec![type_param("T", false), type_param("U", false)],
        true,
        TypeSubstList::new(),
        vec![param_checks(true, false), param_checks(true, true)],
        &mut Vec::new(),
    );
    assert!(r.value.is_none());
    assert_eq!(r.errors.len(), 1);
    assert_eq!(te.slab.len(), 4);
}

#[test]
fn fields_keep_warnings_and_variants_drop_them() {
    let warning = || CompileWarning {
        span: sem_span(50),
        warning_content: Warning::NonClassCaseTraitName { name: Ident::new("w".to_string(), sem_span(50)) },
    };
    let mut te = TypeEngine::new();
    let f = TyStructField::type_check(
        &mut te,
        field("a"),
        CompileResult { value: Some(TypeId(0)), warnings: vec![warning()], errors: vec![] },
    );
    assert_eq!(f.warnings.len(), 1);
    let v = TyEnumVariant::type_check(
        &mut te,
        EnumVariant {
            name: Ident::new("V".to_string(), sem_span(20)),
            attributes: AttributesMap { attributes: vec![] },
            type_info: TypeInfo::Boolean,
            type_span: sem_span(21),
            tag: 0,
            span: sem_span(20),
        },
        CompileResult { value: Some(TypeId(0)), warnings: vec![warning()], errors: vec![] },
    );
    assert!(v.warnings.is_empty());
    assert!(v.value.is_some());
}
