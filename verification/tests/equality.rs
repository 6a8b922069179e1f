use sway_verified::decl_engine::DeclId;
use sway_verified::language::ty::{
    LazyOp, Literal, TyAstNode, TyAstNodeContent, TyCodeBlock, TyDeclaration, TyExpression, TyExpressionVariant,
    VariableMutability,
};
use sway_verified::span::{Ident, Span};
use sway_verified::type_system::{TypeEngine, TypeId, TypeInfo, TypeSubstList};

fn eq_span() -> Span {
    Span::new(0, 0, 1)
}

fn lit(n: u64, ty: TypeId) -> TyExpression {
    TyExpression { expression: TyExpressionVariant::Literal(Literal::U64(n)), return_type: ty, span: eq_span() }
}

fn engine_with_two_u64() -> TypeEngine {
    let mut te = TypeEngine::new();
    te.insert(TypeInfo::UnsignedInteger(64));
    te.insert(TypeInfo::UnsignedInteger(64));
    te.insert(TypeInfo::Boolean);
    te
}

fn if_exp(else_branch: Option<u64>) -> TyExpressionVariant {
    TyExpressionVariant::IfExp {
        condition: Box::new(TyExpression {
            expression: TyExpressionVariant::Literal(Literal::Boolean(true)),
            return_type: TypeId(2),
            span: eq_span(),
        }),
        then: Box::new(lit(1, TypeId(0))),
        else_branch: else_branch.map(|n| Box::new(lit(n, TypeId(0)))),
    }
}

#[test]
fn literals_compare_by_value_and_type() {
    let te = engine_with_two_u64();
    assert!(lit(3, TypeId(0)).eq(&lit(3, TypeId(1)), &te));
    assert!(!lit(3, TypeId(0)).eq(&lit(4, TypeId(0)), &te));
    assert!(!lit(3, TypeId(0)).eq(&lit(3, TypeId(2)), &te));
}

#[test]
fn breaks_are_never_equal() {
    let te = engine_with_two_u64();
    assert!(!TyExpressionVariant::Break.eq(&TyExpressionVariant::Break, &te));
    assert!(!TyExpressionVariant::Continue.eq(&TyExpressionVariant::Continue, &te));
    assert!(!TyExpressionVariant::FunctionParameter.eq(&TyExpressionVariant::FunctionParameter, &te));
}

#[test]
fn an_if_without_else_matches_one_with_else() {
    let te = engine_with_two_u64();
    assert!(if_exp(None).eq(&if_exp(Some(2)), &te));
    assert!(if_exp(Some(2)).eq(&if_exp(None), &te));
    assert!(if_exp(Some(2)).eq(&if_exp(Some(2)), &te));
    assert!(!if_exp(Some(2)).eq(&if_exp(Some(3)), &te));
}

#[test]
fn lazy_operators_compare_operator_and_operands() {
    let te = engine_with_two_u64();
    let mk = |op: LazyOp, r: u64| TyExpressionVariant::LazyOperator {
        op,
        lhs: Box::new(lit(1, TypeId(0))),
        rhs: Box::new(lit(r, TypeId(0))),
    };
    assert!(mk(LazyOp::And, 2).eq(&mk(LazyOp::And, 2), &te));
    assert!(!mk(LazyOp::And, 2).eq(&mk(LazyOp::Or, 2), &te));
    assert!(!mk(LazyOp::And, 2).eq(&mk(LazyOp::And, 5), &te));
}

#[test]
fn variables_compare_name_span_and_mutability() {
    let te = engine_with_two_u64();
    let mk = |name: &str, m: VariableMutability| TyExpressionVariant::VariableExpression {
        name: Ident::new(name.to_string(), eq_span()),
        span: eq_span(),
        mutability: m,
    };
    assert!(mk("a", VariableMutability::Immutable).eq(&mk("a", VariableMutability::Immutable), &te));
    assert!(!mk("a", VariableMutability::Immutable).eq(&mk("b", VariableMutability::Immutable), &te));
    assert!(!mk("a", VariableMutability::Immutable).eq(&mk("a", VariableMutability::Mutable), &te));
}

#[test]
fn tuples_compare_lengths_and_fields() {
    let te = engine_with_two_u64();
    let t1 = TyExpressionVariant::Tuple { fields: vec![lit(1, TypeId(0)), lit(2, TypeId(0))] };
    let t2 = TyExpressionVariant::Tuple { fields: vec![lit(1, TypeId(1)), lit(2, TypeId(1))] };
    let t3 = TyExpressionVariant::Tuple { fields: vec![lit(1, TypeId(0))] };
    assert!(t1.eq(&t2, &te));
    assert!(!t1.eq(&t3, &te));
    assert!(!t3.eq(&t1, &te));
}

#[test]
fn code_blocks_compare_their_nodes() {
    let te = engine_with_two_u64();
    let block = |n: u64| TyCodeBlock {
        contents: vec![
            TyAstNode {
                content: TyAstNodeContent::Declaration(TyDeclaration::ErrorRecovery(eq_span())),
                span: eq_span(),
            },
            TyAstNode { content: TyAstNodeContent::ImplicitReturnExpression(lit(n, TypeId(0))), span: eq_span() },
        ],
    };
    assert!(block(1).eq(&block(1), &te));
    assert!(!block(1).eq(&block(2), &te));
    let d1 = TyDeclaration::FunctionDeclaration(DeclId::new(4, eq_span()), TypeSubstList::new());
    let d2 = TyDeclaration::FunctionDeclaration(DeclId::new(4, Span::new(7, 7, 7)), TypeSubstList::new());
    assert!(d1.eq(&d2, &te));
}

#[test]
fn declaration_equality_is_symmetric_on_examples() {
    let te = engine_with_two_u64();
    let decls = [
        TyDeclaration::ErrorRecovery(eq_span()),
        TyDeclaration::ErrorRecovery(Span::new(0, 3, 4)),
        TyDeclaration::ConstantDeclaration(DeclId::new(1, eq_span())),
        TyDeclaration::GenericTypeForFunctionScope { name: Ident::new("T".to_string(), eq_span()), type_id: TypeId(0) },
        TyDeclaration::GenericTypeForFunctionScope { name: Ident::new("T".to_string(), eq_span()), type_id: TypeId(1) },
    ];
    for a in decls.iter() {
        for b in decls.iter() {
            assert_eq!(a.eq(b, &te), b.eq(a, &te));
        }
    }
    assert!(decls[2].eq(&decls[2], &te));
    assert!(!decls[3].eq(&decls[4], &te));
}
