use sway_verified::decl_engine::DeclId;
use sway_verified::error::{CompileError, CompileResult, Warning};
use sway_verified::language::declaration::{Purity, TyFunctionDeclaration, TyTraitDeclaration, TyTraitFn};
use sway_verified::language::parsed::{CodeBlock, FunctionDeclaration, TraitDeclaration, TraitFn};
use sway_verified::language::ty::{AttributesMap, TyCodeBlock, Visibility};
use sway_verified::semantic_analysis::TypeParameterChecks;
use sway_verified::span::{Ident, Span};
use sway_verified::type_system::{TypeArgument, TypeEngine, TypeId, TypeInfo, TypeParameter, TypeSubstList};

fn tsp(start: usize) -> Span {
    Span::new(3, start, start + 1)
}

fn tid(name: &str) -> Ident {
    Ident::new(name.to_string(), tsp(0))
}

fn no_attrs() -> AttributesMap {
    AttributesMap { attributes: vec![] }
}

fn parsed_method(name: &str) -> FunctionDeclaration {
    FunctionDeclaration {
        purity: Purity::Pure,
        attributes: no_attrs(),
        name: tid(name),
        visibility: Visibility::Public,
        body: CodeBlock { contents: vec![], whole_block_span: tsp(0) },
        parameters: vec![],
        span: tsp(0),
        return_type: TypeArgument { type_id: TypeId(0), initial_type_id: TypeId(0), span: tsp(0) },
        type_parameters: vec![],
    }
}

fn trait_decl(name: &str, params: Vec<TypeParameter>, fns: &[&str], methods: &[&str]) -> TraitDeclaration {
    TraitDeclaration {
        name: tid(name),
        type_parameters: params,
        attributes: no_attrs(),
        interface_surface: fns.iter().map(|n| TraitFn { name: tid(n), span: tsp(1) }).collect(),
        methods: methods.iter().map(|n| parsed_method(n)).collect(),
        supertraits: vec![],
        visibility: Visibility::Public,
        span: tsp(9),
    }
}

fn fine<T>(v: T) -> CompileResult<T> {
    CompileResult { value: Some(v), warnings: vec![], errors: vec![] }
}

fn failed<T>(msg: &'static str) -> CompileResult<T> {
    CompileResult { value: None, warnings: vec![], errors: vec![CompileError::Internal(msg, tsp(0))] }
}

fn trait_fn(name: &str) -> TyTraitFn {
    TyTraitFn { name: tid(name), purity: Purity::Pure, parameters: vec![], return_type: TypeId(0), attributes: no_attrs() }
}

fn checked_method(name: &str) -> (TyFunctionDeclaration, TypeSubstList) {
    (
        TyFunctionDeclaration {
            name: tid(name),
            body: TyCodeBlock { contents: vec![] },
            parameters: vec![],
            span: tsp(0),
            attributes: no_attrs(),
            return_type: TypeId(0),
            type_parameters: vec![],
            visibility: Visibility::Public,
            is_contract_call: false,
            purity: Purity::Pure,
        },
        TypeSubstList::new(),
    )
}

fn id(n: usize) -> DeclId {
    DeclId::new(n, tsp(0))
}

fn param(name: &str) -> TypeParameter {
    TypeParameter {
        type_id: TypeId(0),
        initial_type_id: TypeId(0),
        name_ident: tid(name),
        trait_constraints: vec![],
        trait_constraints_span: tsp(5),
    }
}

fn param_ok() -> TypeParameterChecks {
    TypeParameterChecks { constraints: fine(vec![]), constraints_inserted: fine(()), symbol_inserted: fine(()) }
}

#[test]
fn a_trait_with_signatures_and_methods_checks() {
    let mut te = TypeEngine::new();
    let r = TyTraitDeclaration::type_check(
        &mut te,
        trait_decl("Summary", vec![param("T")], &["len"], &["is_empty", "broken"]),
        true,
        TypeSubstList::new(),
        vec![param_ok()],
        fine(()),
        vec![fine(trait_fn("len"))],
        vec![id(4)],
        fine(()),
        vec![fine(checked_method("is_empty")), failed("method")],
        vec![id(5), id(6)],
    );
    assert!(r.warnings.is_empty());
    assert_eq!(r.errors.len(), 1);
    let d = r.value.unwrap();
    assert_eq!(d.name.as_str(), "Summary");
    assert_eq!(d.type_parameters.len(), 1);
    assert_eq!(d.type_parameters[0].type_id, TypeId(2));
    assert_eq!(d.interface_surface.len(), 1);
    assert_eq!(d.interface_surface[0].name.as_str(), "len");
    assert_eq!(d.interface_surface[0].decl_id.index, 4);
    assert_eq!(d.methods.len(), 2);
    assert_eq!(d.methods[0].name.as_str(), "is_empty");
    assert_eq!(d.methods[1].name.as_str(), "broken");
    assert_eq!(d.methods[1].decl_id.index, 6);
    assert!(matches!(te.get(TypeId(0)), TypeInfo::SelfType));
    assert!(matches!(te.get(TypeId(2)), TypeInfo::TypeParam(0)));
    assert_eq!(te.slab.len(), 3);
}

#[test]
fn a_lower_case_trait_name_is_warned_about() {
    let mut te = TypeEngine::new();
    let r = TyTraitDeclaration::type_check(
        &mut te,
        trait_decl("summary", vec![], &[], &[]),
        false,
        TypeSubstList::new(),
        vec![],
        fine(()),
        vec![],
        vec![],
        fine(()),
        vec![],
        vec![],
    );
    assert!(r.value.is_some());
    assert_eq!(r.warnings.len(), 1);
    assert!(matches!(&r.warnings[0].warning_content, Warning::NonClassCaseTraitName { name } if name.as_str() == "summary"));
}

#[test]
fn the_check_stops_at_the_first_failing_signature() {
    let mut te = TypeEngine::new();
    let r = TyTraitDeclaration::type_check(
        &mut te,
        trait_decl("Summary", vec![], &["a", "b", "c"], &["m"]),
        true,
        TypeSubstList::new(),
        vec![],
        fine(()),
        vec![fine(trait_fn("a")), failed("b"), failed("c")],
        vec![id(1), id(2), id(3)],
        failed("placeholders"),
        vec![failed("m")],
        vec![id(4)],
    );
    assert!(r.value.is_none());
    assert_eq!(r.errors.len(), 1);
    assert!(matches!(r.errors[0], CompileError::Internal("b", _)));
}

#[test]
fn failing_supertraits_or_placeholders_stop_the_check() {
    let mut te = TypeEngine::new();
    let r = TyTraitDeclaration::type_check(
        &mut te,
        trait_decl("Summary", vec![], &["a"], &[]),
        true,
        TypeSubstList::new(),
        vec![],
        failed("supertraits"),
        vec![failed("a")],
        vec![id(1)],
        fine(()),
        vec![],
        vec![],
    );
    assert!(r.value.is_none());
    assert_eq!(r.errors.len(), 1);
    assert!(matches!(r.errors[0], CompileError::Internal("supertraits", _)));
    let r = TyTraitDeclaration::type_check(
        &mut te,
        trait_decl("Summary", vec![], &["a"], &[]),
        true,
        TypeSubstList::new(),
        vec![],
        fine(()),
        vec![fine(trait_fn("a"))],
        vec![id(1)],
        failed("placeholders"),
        vec![],
        vec![],
    );
    assert!(r.value.is_none());
    assert!(matches!(r.errors[0], CompileError::Internal("placeholders", _)));
}
