use sway_verified::error::{err, ok, CompileError};
use sway_verified::language::declaration::Purity;
use sway_verified::language::parsed::{CodeBlock, FunctionDeclaration, FunctionParameter};
use sway_verified::language::ty::{Attribute, AttributeKind, AttributesMap, Visibility};
use sway_verified::span::{CallPath, Ident, Span};
use sway_verified::type_system::{
    TraitConstraint, TypeArgument, TypeEngine, TypeId, TypeInfo, TypeParameter, TypeSubstList,
};

fn ts_span(start: usize, end: usize) -> Span {
    Span::new(3, start, end)
}

fn ts_ident(name: &str) -> Ident {
    Ident::new(name.to_string(), ts_span(0, 1))
}

fn param(name: &str, ty: usize, constraint: Option<&str>) -> TypeParameter {
    TypeParameter {
        type_id: TypeId(ty),
        initial_type_id: TypeId(ty),
        name_ident: ts_ident(name),
        trait_constraints: constraint
            .map(|c| {
                vec![TraitConstraint {
                    trait_name: CallPath { prefixes: vec![], suffix: ts_ident(c), is_absolute: false },
                    type_arguments: vec![TypeArgument { type_id: TypeId(ty), initial_type_id: TypeId(ty), span: ts_span(0, 1) }],
                }]
            })
            .unwrap_or_default(),
        trait_constraints_span: ts_span(0, 1),
    }
}

#[test]
fn spans_join_to_cover_both() {
    let a = ts_span(4, 9);
    let b = ts_span(2, 6);
    assert_eq!(Span::join(a, b), ts_span(2, 9));
    assert_eq!(Span::join(b, a), ts_span(2, 9));
}

#[test]
fn type_engine_ids_and_equality() {
    let mut te = TypeEngine::new();
    let a = te.insert(TypeInfo::UnsignedInteger(8));
    let b = te.insert(TypeInfo::UnsignedInteger(8));
    let c = te.insert(TypeInfo::Tuple(vec![a, b]));
    let d = te.insert(TypeInfo::Tuple(vec![a, b]));
    let e = te.insert(TypeInfo::Tuple(vec![b, a]));
    assert_eq!((a, b, c), (TypeId(0), TypeId(1), TypeId(2)));
    assert!(te.eq_types(a, b));
    assert!(te.eq_types(c, d));
    assert!(!te.eq_types(c, e));
    assert!(te.eq_types(TypeId(50), TypeId(60)));
    assert!(!te.eq_types(a, TypeId(60)));
}

#[test]
fn type_parameters_compare_types_names_and_constraints() {
    let mut te = TypeEngine::new();
    te.insert(TypeInfo::UnknownGeneric { name: ts_ident("T"), trait_constraints: vec![] });
    te.insert(TypeInfo::UnknownGeneric { name: ts_ident("T"), trait_constraints: vec![] });
    te.insert(TypeInfo::Boolean);
    assert!(param("T", 0, Some("Eq")).eq(&param("T", 1, Some("Eq")), &te));
    assert!(!param("T", 0, Some("Eq")).eq(&param("T", 0, Some("Ord")), &te));
    assert!(!param("T", 0, None).eq(&param("U", 0, None), &te));
    assert!(!param("T", 0, None).eq(&param("T", 2, None), &te));
    let l1 = TypeSubstList { list: vec![param("T", 0, None)] };
    let l2 = TypeSubstList { list: vec![param("T", 1, None)] };
    assert!(l1.eq(&l2, &te));
    assert!(!l1.eq(&TypeSubstList::new(), &te));
    assert!(TypeSubstList::new().is_empty());
}

#[test]
fn compile_results() {
    let good = ok(3u8, vec![], vec![]);
    assert_eq!(good.value, Some(3));
    let bad = err::<u8>(vec![], vec![CompileError::WhereClauseNotYetSupported { span: ts_span(1, 2) }]);
    assert!(bad.value.is_none());
    assert_eq!(bad.errors.len(), 1);
}

#[test]
fn parsed_functions_and_parameters() {
    let p = |name: &str, t: TypeInfo| FunctionParameter {
        name: ts_ident(name),
        is_reference: false,
        is_mutable: true,
        mutability_span: ts_span(0, 3),
        type_info: t,
        type_span: ts_span(4, 6),
    };
    let te = TypeEngine::new();
    assert!(p("x", TypeInfo::Boolean).eq(&p("x", TypeInfo::Boolean), &te));
    assert!(!p("x", TypeInfo::Boolean).eq(&p("y", TypeInfo::Boolean), &te));
    assert!(!p("x", TypeInfo::Boolean).eq(&p("x", TypeInfo::UnsignedInteger(8)), &te));
    let f = |attrs: Vec<(AttributeKind, Attribute)>| FunctionDeclaration {
        purity: Purity::Pure,
        attributes: AttributesMap { attributes: attrs },
        name: ts_ident("f"),
        visibility: Visibility::Private,
        body: CodeBlock { contents: vec![], whole_block_span: ts_span(0, 9) },
        parameters: vec![],
        span: ts_span(0, 9),
        return_type: TypeArgument { type_id: TypeId(0), initial_type_id: TypeId(0), span: ts_span(0, 1) },
        type_parameters: vec![],
    };
    assert!(f(vec![(AttributeKind::Test, Attribute { name: ts_ident("test"), args: vec![] })]).is_test());
    assert!(!f(vec![(AttributeKind::Inline, Attribute { name: ts_ident("inline"), args: vec![] })]).is_test());
}

#[test]
fn type_parameter_equality_is_symmetric_on_examples() {
    let mut te = TypeEngine::new();
    te.insert(TypeInfo::Boolean);
    te.insert(TypeInfo::Boolean);
    te.insert(TypeInfo::UnsignedInteger(64));
    let params = [param("T", 0, None), param("T", 1, Some("Eq")), param("U", 2, None), param("T", 1, None)];
    for a in params.iter() {
        for b in params.iter() {
            assert_eq!(a.eq(b, &te), b.eq(a, &te));
        }
    }
}
