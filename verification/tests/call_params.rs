use sway_verified::language::ty::{insert_call_param, Literal, TyExpression, TyExpressionVariant};
use sway_verified::span::Span;
use sway_verified::type_system::TypeId;

fn lit(n: u64) -> TyExpression {
    TyExpression {
        expression: TyExpressionVariant::Literal(Literal::U64(n)),
        return_type: TypeId(0),
        span: Span::new(0, 0, 1),
    }
}

fn value_of(e: &TyExpression) -> u64 {
    match e.expression {
        TyExpressionVariant::Literal(Literal::U64(n)) => n,
        _ => panic!("expected a literal"),
    }
}

#[test]
fn call_params_are_kept_by_name() {
    let mut params = Vec::new();
    assert!(insert_call_param(&mut params, "gas".to_string(), lit(10)).is_none());
    assert!(insert_call_param(&mut params, "coins".to_string(), lit(5)).is_none());
    let prev = insert_call_param(&mut params, "gas".to_string(), lit(20)).unwrap();
    assert_eq!(value_of(&prev), 10);
    assert_eq!(params.len(), 2);
    assert_eq!(params[0].0, "gas");
    assert_eq!(value_of(&params[0].1), 20);
    assert_eq!(params[1].0, "coins");
    assert_eq!(value_of(&params[1].1), 5);
}
