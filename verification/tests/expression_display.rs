use sway_verified::ir::irtype::push_decimal;
use sway_verified::decl_engine::DeclId;
use sway_verified::language::ty::{
    AttributesMap, TyEnumVariant, LazyOp, TypeBinding, Literal, ProjectionKind, TyCodeBlock, TyExpression, TyExpressionVariant, TyReassignment,
    TyStorageReassignDescriptor, TyStorageReassignment, VariableMutability,
};
use sway_verified::span::{CallPath, Ident, Span};
use sway_verified::type_system::{TypeId, TypeSubstList};

fn sp() -> Span {
    Span::new(0, 0, 1)
}

fn ident(name: &str) -> Ident {
    Ident::new(name.to_string(), sp())
}

fn lit(n: u64) -> TyExpression {
    TyExpression { expression: TyExpressionVariant::Literal(Literal::U64(n)), return_type: TypeId(0), span: sp() }
}

#[test]
fn decimal_forms() {
    for (n, text) in [(0u64, "0"), (7, "7"), (10, "10"), (120, "120"), (98765, "98765")] {
        let mut s = String::from("x");
        push_decimal(&mut s, n);
        assert_eq!(s, format!("x{text}"));
    }
}

#[test]
fn fixed_forms() {
    assert_eq!(TyExpressionVariant::Break.display(&vec![]), "break");
    assert_eq!(TyExpressionVariant::Continue.display(&vec![]), "continue");
    assert_eq!(TyExpressionVariant::FunctionParameter.display(&vec![]), "fn param access");
    assert_eq!(TyExpressionVariant::CodeBlock(TyCodeBlock { contents: vec![] }).display(&vec![]), "code block entry");
    assert_eq!(TyExpressionVariant::Array { contents: vec![] }.display(&vec![]), "array");
    let index =
        TyExpressionVariant::ArrayIndex { prefix: Box::new(lit(1)), index: Box::new(lit(0)) };
    assert_eq!(index.display(&vec![]), "[..]");
    let and = TyExpressionVariant::LazyOperator { op: LazyOp::And, lhs: Box::new(lit(1)), rhs: Box::new(lit(2)) };
    assert_eq!(and.display(&vec![]), "&&");
    let or = TyExpressionVariant::LazyOperator { op: LazyOp::Or, lhs: Box::new(lit(1)), rhs: Box::new(lit(2)) };
    assert_eq!(or.display(&vec![]), "||");
    let if_exp =
        TyExpressionVariant::IfExp { condition: Box::new(lit(1)), then: Box::new(lit(2)), else_branch: None };
    assert_eq!(if_exp.display(&vec![]), "if exp");
}

#[test]
fn named_forms() {
    let var = TyExpressionVariant::VariableExpression {
        name: ident("counter"),
        span: sp(),
        mutability: VariableMutability::Immutable,
    };
    assert_eq!(var.display(&vec![]), "\"counter\" variable exp");

    let path = |name: &str| CallPath { prefixes: vec![ident("lib")], suffix: ident(name), is_absolute: true };
    let call = TyExpressionVariant::FunctionApplication {
        call_path: path("transfer"),
        contract_call_params: vec![],
        arguments: vec![],
        function_decl_id: DeclId::new(0, sp()),
        function_type_subst_list: TypeSubstList::new(),
        self_state_idx: None,
        selector: None,
        type_binding: None,
    };
    assert_eq!(call.display(&vec![]), "\"transfer\" fn entry");

    let init = TyExpressionVariant::StructExpression {
        struct_name: ident("Point"),
        fields: vec![],
        span: sp(),
        type_binding: TypeBinding { type_arguments: vec![], span: sp() },
    };
    assert_eq!(init.display(&vec![]), "\"Point\" struct init");

    let cast = TyExpressionVariant::AbiCast { abi_name: path("Wallet"), address: Box::new(lit(0)), span: sp() };
    assert_eq!(cast.display(&vec![]), "abi cast Wallet");
}

#[test]
fn reassignment_forms() {
    let r = TyReassignment {
        lhs_base_name: ident("point"),
        lhs_type: TypeId(0),
        lhs_indices: vec![
            ProjectionKind::StructField { name: ident("inner") },
            ProjectionKind::TupleField { index: 12, index_span: sp() },
            ProjectionKind::StructField { name: ident("x") },
        ],
        rhs: lit(3),
    };
    assert_eq!(TyExpressionVariant::Reassignment(Box::new(r)).display(&vec![]), "reassignment to point.inner.12.x");

    let plain = TyReassignment { lhs_base_name: ident("y"), lhs_type: TypeId(0), lhs_indices: vec![], rhs: lit(3) };
    assert_eq!(TyExpressionVariant::Reassignment(Box::new(plain)).display(&vec![]), "reassignment to y");

    let storage = TyStorageReassignment {
        fields: vec![
            TyStorageReassignDescriptor { name: ident("owner"), type_id: TypeId(0), span: sp() },
            TyStorageReassignDescriptor { name: ident("balance"), type_id: TypeId(0), span: sp() },
        ],
        ix: 0,
        rhs: lit(3),
    };
    assert_eq!(
        TyExpressionVariant::StorageReassignment(Box::new(storage)).display(&vec![]),
        "storage reassignment to ownerbalance"
    );
}

#[test]
fn forms_that_embed_other_printed_forms() {
    let lit_form = TyExpressionVariant::Literal(Literal::U64(7)).display(&vec!["7".to_string()]);
    assert_eq!(lit_form, "literal 7");
    let tuple = TyExpressionVariant::Tuple { fields: vec![lit(1), lit(2), lit(3)] };
    assert_eq!(tuple.display(&vec!["a".to_string(), "b".to_string(), "c".to_string()]), "tuple(a, b, c)");
    assert_eq!(TyExpressionVariant::Tuple { fields: vec![] }.display(&vec![]), "tuple()");
    let elem = TyExpressionVariant::TupleElemAccess {
        prefix: Box::new(lit(0)),
        elem_to_access_num: 3,
        resolved_type_of_parent: TypeId(0),
        elem_to_access_span: sp(),
    };
    assert_eq!(elem.display(&vec!["(u64, bool)".to_string()]), "\"(u64, bool).3\" tuple index");
    let tag = TyExpressionVariant::EnumTag { exp: Box::new(lit(0)) };
    assert_eq!(tag.display(&vec!["Color".to_string()]), "(Color as tag)");
    let looped = TyExpressionVariant::WhileLoop { condition: Box::new(lit(1)), body: TyCodeBlock { contents: vec![] } };
    assert_eq!(looped.display(&vec!["x < 3".to_string()]), "while loop on x < 3");
    let ret = TyExpressionVariant::Return(Box::new(lit(1)));
    assert_eq!(ret.display(&vec!["1".to_string()]), "return 1");
}

#[test]
fn array_indices_of_a_place_take_their_printed_forms_in_order() {
    let r = TyReassignment {
        lhs_base_name: ident("grid"),
        lhs_type: TypeId(0),
        lhs_indices: vec![
            ProjectionKind::ArrayIndex { index: Box::new(lit(1)), index_span: sp() },
            ProjectionKind::TupleField { index: 0, index_span: sp() },
            ProjectionKind::ArrayIndex { index: Box::new(lit(2)), index_span: sp() },
        ],
        rhs: lit(3),
    };
    assert_eq!(
        TyExpressionVariant::Reassignment(Box::new(r)).display(&vec!["i".to_string(), "j".to_string()]),
        "reassignment to grid.i.0.j"
    );
}

#[test]
fn a_downcast_names_the_variant() {
    let variant = TyEnumVariant {
        name: ident("Some"),
        type_id: TypeId(0),
        initial_type_id: TypeId(0),
        type_span: sp(),
        tag: 1,
        span: sp(),
        attributes: AttributesMap { attributes: vec![] },
    };
    let down = TyExpressionVariant::UnsafeDowncast { exp: Box::new(lit(0)), variant };
    assert_eq!(down.display(&vec!["Option<u64>".to_string()]), "(Option<u64> as Some)");
}
