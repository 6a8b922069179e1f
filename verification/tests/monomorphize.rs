use sway_verified::decl_engine::{DeclEngine, DeclId};
use sway_verified::error::CompileError;
use sway_verified::language::declaration::{DeclWrapper, Purity, TyFunctionDeclaration};
use sway_verified::language::module::{TyModule, TySubmodule};
use sway_verified::language::ty::{
    Attribute, AttributeKind, AttributesMap, Literal, TyAstNode, TyAstNodeContent, TyCodeBlock, TyDeclaration,
    TyExpression, TyExpressionVariant, Visibility,
};
use sway_verified::monomorphize::constraint::{args_helper, Constraint};
use sway_verified::monomorphize::gather::{gather_constraints, gather_from_exp, gather_from_node, gather_from_root};
use sway_verified::monomorphize::namespace::{module_not_found, Module, Namespace};
use sway_verified::monomorphize::solver::Solver;
use sway_verified::span::{CallPath, Ident, Span};
use sway_verified::type_system::{TypeEngine, TypeId, TypeInfo, TypeSubstList};

fn mono_span(source: usize, start: usize, end: usize) -> Span {
    Span::new(source, start, end)
}

fn mono_ident(name: &str) -> Ident {
    Ident::new(name.to_string(), mono_span(0, 0, 1))
}

fn literal_exp(ty: usize) -> TyExpression {
    TyExpression {
        expression: TyExpressionVariant::Literal(Literal::Boolean(false)),
        return_type: TypeId(ty),
        span: mono_span(0, 0, 1),
    }
}

fn call_exp(decl: usize, ret: usize, arg_types: &[usize]) -> TyExpression {
    TyExpression {
        expression: TyExpressionVariant::FunctionApplication {
            call_path: CallPath { prefixes: vec![], suffix: mono_ident("f"), is_absolute: false },
            contract_call_params: vec![],
            arguments: arg_types.iter().map(|t| (mono_ident("a"), literal_exp(*t))).collect(),
            function_decl_id: DeclId::new(decl, mono_span(0, 0, 1)),
            function_type_subst_list: TypeSubstList::new(),
            self_state_idx: None,
            selector: None,
            type_binding: None,
        },
        return_type: TypeId(ret),
        span: mono_span(0, 0, 1),
    }
}

fn function(body: Vec<TyAstNode>, test: bool) -> TyFunctionDeclaration {
    let attributes = if test {
        vec![(AttributeKind::Test, Attribute { name: mono_ident("test"), args: vec![] })]
    } else {
        vec![]
    };
    TyFunctionDeclaration {
        name: mono_ident("g"),
        body: TyCodeBlock { contents: body },
        parameters: vec![],
        span: mono_span(0, 0, 1),
        attributes: AttributesMap { attributes },
        return_type: TypeId(0),
        type_parameters: vec![],
        visibility: Visibility::Public,
        is_contract_call: false,
        purity: Purity::Pure,
    }
}

fn fn_node(id: usize) -> TyAstNode {
    TyAstNode {
        content: TyAstNodeContent::Declaration(TyDeclaration::FunctionDeclaration(
            DeclId::new(id, mono_span(0, 0, 1)),
            TypeSubstList::new(),
        )),
        span: mono_span(0, 0, 1),
    }
}

#[test]
fn a_call_gives_its_types_then_the_call() {
    let engine = DeclEngine::new();
    let exp = call_exp(0, 5, &[6, 7]);
    let mut constraints = Vec::new();
    assert!(gather_from_exp(&mut constraints, &engine, &exp).is_ok());
    assert_eq!(constraints.len(), 4);
    assert!(matches!(constraints[0], Constraint::Ty(TypeId(5))));
    assert!(matches!(constraints[1], Constraint::Ty(TypeId(6))));
    assert!(matches!(constraints[2], Constraint::Ty(TypeId(7))));
    match &constraints[3] {
        Constraint::FnCall { decl_id, arguments, .. } => {
            assert_eq!(decl_id.index, 0);
            assert_eq!(arguments, &vec![TypeId(6), TypeId(7)]);
        }
        other => panic!("unexpected constraint {:?}", other),
    }
}

#[test]
fn declared_functions_are_walked() {
    let body = vec![TyAstNode { content: TyAstNodeContent::Expression(literal_exp(3)), span: mono_span(0, 0, 1) }];
    let engine = DeclEngine { slab: vec![DeclWrapper::Function(function(body, false)), DeclWrapper::Unknown] };
    let first = fn_node(0);
    let second = fn_node(1);
    let mut constraints = Vec::new();
    assert!(gather_from_node(&mut constraints, &engine, &first).is_ok());
    assert_eq!(constraints.len(), 1);
    assert!(matches!(constraints[0], Constraint::Ty(TypeId(3))));
    let mut more = Vec::new();
    let r = gather_from_node(&mut more, &engine, &second);
    assert!(matches!(r, Err(CompileError::Internal(..))));
}

#[test]
fn modules_are_walked_depth_first() {
    let engine = DeclEngine::new();
    let node = |t: usize| TyAstNode { content: TyAstNodeContent::Expression(literal_exp(t)), span: mono_span(0, 0, 1) };
    let leaf = TyModule { submodules: vec![], all_nodes: vec![node(1)] };
    let middle = TyModule {
        submodules: vec![(mono_ident("leaf"), TySubmodule { library_name: mono_ident("leaf"), module: leaf })],
        all_nodes: vec![node(2)],
    };
    let root = TyModule {
        submodules: vec![(mono_ident("middle"), TySubmodule { library_name: mono_ident("middle"), module: middle })],
        all_nodes: vec![node(3)],
    };
    let mut submodules = root.submodules_recursive();
    let mut order: Vec<&str> = Vec::new();
    while let Some((name, _)) = submodules.next() {
        order.push(name.as_str());
    }
    assert_eq!(order, vec!["leaf", "middle"]);
    let mut constraints = Vec::new();
    assert!(gather_from_root(&mut constraints, &engine, &root).is_ok());
    let types: Vec<usize> = constraints
        .iter()
        .map(|c| match c {
            Constraint::Ty(t) => t.0,
            _ => panic!("unexpected call"),
        })
        .collect();
    assert_eq!(types, vec![1, 1, 2, 3]);
}

#[test]
fn test_functions_of_a_module() {
    let engine = DeclEngine {
        slab: vec![DeclWrapper::Function(function(vec![], true)), DeclWrapper::Function(function(vec![], false))],
    };
    let module = TyModule { submodules: vec![], all_nodes: vec![fn_node(1), fn_node(0)] };
    let tests = module.test_fns(&engine);
    assert_eq!(tests.len(), 1);
    assert_eq!(tests[0].1.index, 0);
}

#[test]
fn constraints_compare_through_the_type_engine() {
    let mut te = TypeEngine::new();
    te.insert(TypeInfo::Boolean);
    te.insert(TypeInfo::Boolean);
    te.insert(TypeInfo::UnsignedInteger(8));
    assert!(Constraint::from_type_id(TypeId(0)).eq(&Constraint::from_type_id(TypeId(1)), &te));
    assert!(!Constraint::from_type_id(TypeId(0)).eq(&Constraint::from_type_id(TypeId(2)), &te));
    let a = call_exp(1, 0, &[0]);
    let b = call_exp(1, 0, &[1]);
    let c = call_exp(1, 0, &[2]);
    let ca = Constraint::from_variant(&a.expression);
    let cb = Constraint::from_variant(&b.expression);
    let cc = Constraint::from_variant(&c.expression);
    assert!(ca.eq(&cb, &te));
    assert!(!ca.eq(&cc, &te));
    assert_eq!(ca.discriminant_value(), 1);
    assert_eq!(Constraint::from_type_id(TypeId(0)).discriminant_value(), 0);
    if let TyExpressionVariant::FunctionApplication { arguments, .. } = &a.expression {
        assert_eq!(args_helper(arguments), vec![TypeId(0)]);
    }
}

#[test]
fn submodules_by_path() {
    let mut inner = Module::new(Some(mono_ident("inner")));
    inner.insert_submodule("deep".to_string(), Module::new(Some(mono_ident("deep"))));
    let mut root = Module::new(Some(mono_ident("root")));
    root.insert_submodule("inner".to_string(), inner);
    let found = root.submodule(&vec![mono_ident("inner"), mono_ident("deep")]).unwrap();
    assert_eq!(found.name.as_ref().unwrap().as_str(), "deep");
    assert!(root.submodule(&vec![mono_ident("deep")]).is_none());
    assert!(root.check_submodule(&vec![]).is_ok());
    let path = vec![
        Ident::new("inner".to_string(), mono_span(4, 10, 15)),
        Ident::new("nowhere".to_string(), mono_span(4, 17, 24)),
    ];
    match root.check_submodule(&path) {
        Err(CompileError::ModuleNotFound { span, name }) => {
            assert_eq!(name, "inner::nowhere");
            assert_eq!(span, mono_span(4, 10, 24));
        }
        _ => panic!("expected a missing module"),
    }
}

#[test]
fn writes_through_submodule_access_are_read_back() {
    let mut inner = Module::new(Some(mono_ident("inner")));
    inner.insert_submodule("deep".to_string(), Module::new(None));
    let mut root = Module::new(Some(mono_ident("root")));
    root.insert_submodule("inner".to_string(), inner);
    root.insert_submodule("side".to_string(), Module::new(Some(mono_ident("side"))));

    let path = vec![mono_ident("inner"), mono_ident("deep")];
    {
        let deep = root.submodule_mut(&path).unwrap();
        assert!(deep.name.is_none());
        deep.name = Some(mono_ident("renamed"));
        deep.insert_submodule("leaf".to_string(), Module::new(None));
    }
    let deep = root.submodule(&path).unwrap();
    assert_eq!(deep.name.as_ref().unwrap().as_str(), "renamed");
    assert!(root.submodule(&vec![mono_ident("inner"), mono_ident("deep"), mono_ident("leaf")]).is_some());
    assert_eq!(root.submodule(&vec![mono_ident("side")]).unwrap().name.as_ref().unwrap().as_str(), "side");
    assert_eq!(root.submodule(&vec![mono_ident("inner")]).unwrap().name.as_ref().unwrap().as_str(), "inner");

    assert!(root.submodule_mut(&vec![mono_ident("inner"), mono_ident("nowhere")]).is_none());
    assert!(root.submodule(&path).is_some());
    assert!(root.submodule_mut(&vec![]).is_some());
}

#[test]
fn the_current_module_can_be_changed_in_place() {
    let mut root = Module::new(None);
    root.insert_submodule("inner".to_string(), Module::new(None));
    let mut ns = Namespace::new_from_root(root);
    let session = ns.enter_submodule(mono_ident("inner"));
    ns.module_mut().insert_submodule("added".to_string(), Module::new(Some(mono_ident("added"))));
    session.leave(&mut ns);
    let found = ns.module().submodule(&vec![mono_ident("inner"), mono_ident("added")]).unwrap();
    assert_eq!(found.name.as_ref().unwrap().as_str(), "added");
}

#[test]
fn module_not_found_skips_spans_of_other_sources() {
    let path = vec![
        Ident::new("a".to_string(), mono_span(1, 5, 6)),
        Ident::new("b".to_string(), mono_span(2, 0, 1)),
        Ident::new("c".to_string(), mono_span(1, 8, 9)),
    ];
    match module_not_found(&path) {
        CompileError::ModuleNotFound { span, name } => {
            assert_eq!(name, "a::b::c");
            assert_eq!(span, mono_span(1, 5, 9));
        }
        _ => panic!("expected a missing module"),
    }
}

#[test]
fn entering_and_leaving_a_submodule_restores_the_path() {
    let mut inner = Module::new(Some(mono_ident("inner")));
    inner.insert_submodule("deep".to_string(), Module::new(None));
    let mut root = Module::new(None);
    root.insert_submodule("inner".to_string(), inner);
    let mut ns = Namespace::new_from_root(root);
    assert!(ns.mod_path().is_empty());
    let session = ns.enter_submodule(mono_ident("inner"));
    assert_eq!(ns.mod_path().len(), 1);
    assert_eq!(ns.module().name.as_ref().unwrap().as_str(), "inner");
    let nested = ns.enter_submodule(mono_ident("deep"));
    assert_eq!(ns.mod_path().len(), 2);
    nested.leave(&mut ns);
    assert_eq!(ns.mod_path().len(), 1);
    session.leave(&mut ns);
    assert!(ns.mod_path().is_empty());
    assert!(ns.module().name.is_none());
}

#[test]
fn constraint_equality_is_symmetric_on_examples() {
    let mut te = TypeEngine::new();
    te.insert(TypeInfo::Boolean);
    te.insert(TypeInfo::UnsignedInteger(8));
    let pairs = [(0usize, 0usize), (0, 1), (1, 0), (1, 1), (0, 9)];
    for (l, r) in pairs {
        let a = Constraint::from_type_id(TypeId(l));
        let b = Constraint::from_type_id(TypeId(r));
        assert_eq!(a.eq(&b, &te), b.eq(&a, &te));
    }
    let c = call_exp(0, 0, &[0, 1]);
    let d = call_exp(0, 0, &[0]);
    let cc = Constraint::from_variant(&c.expression);
    let dc = Constraint::from_variant(&d.expression);
    assert!(!cc.eq(&dc, &te));
    assert!(!dc.eq(&cc, &te));
}

#[test]
fn constraints_of_a_whole_module() {
    let body = vec![TyAstNode { content: TyAstNodeContent::Expression(literal_exp(8)), span: mono_span(0, 0, 1) }];
    let mut engine = DeclEngine { slab: vec![DeclWrapper::Unknown, DeclWrapper::Unknown] };
    engine.replace(DeclId::new(0, mono_span(0, 0, 1)), DeclWrapper::Function(function(body, false)));
    let module = TyModule { submodules: vec![], all_nodes: vec![fn_node(0)] };
    let constraints = gather_constraints(&engine, &module).unwrap();
    assert_eq!(constraints.len(), 1);
    assert!(matches!(constraints[0], Constraint::Ty(TypeId(8))));
    let broken = TyModule { submodules: vec![], all_nodes: vec![fn_node(1)] };
    assert!(gather_constraints(&engine, &broken).is_err());
}

#[test]
fn a_solver_starts_from_the_gathered_constraints() {
    let te = TypeEngine::new();
    let de = DeclEngine::new();
    let solver = Solver::new(&te, &de, vec![Constraint::from_type_id(TypeId(3)), Constraint::from_type_id(TypeId(1))]);
    assert_eq!(solver.constraints.len(), 2);
    assert!(matches!(solver.constraints[0], Constraint::Ty(TypeId(3))));
    assert!(matches!(solver.constraints[1], Constraint::Ty(TypeId(1))));
}
