//! Gathering the constraints of a typed tree: every type an expression has,
//! and every function call, in the order the tree is walked.  Function
//! declarations met on the way are looked up in the declaration engine and
//! their bodies walked in turn.
//!
//! Only part of the language is handled: the walk stops (the compiler does
//! not go on) at the expressions and declarations it does not handle yet,
//! at generic functions and at functions with parameters.  The outcome of a
//! walk is therefore specified as an `Option`, `None` standing for a walk
//! that stops, and the executable walks require that theirs does not.
//!
//! A declaration met in the body of the function declared at index `k` of
//! the declaration engine is walked only where its index is below `k`, as
//! it is where declarations are stored after those they contain.

use vstd::prelude::*;

use crate::decl_engine::{DeclEngine, DeclId};
use crate::error::CompileError;
use crate::language::declaration::{DeclKind, DeclWrapper, TyFunctionDeclaration};
use crate::language::ty::{
    TyAstNode, TyAstNodeContent, TyCodeBlock, TyDeclaration, TyExpression, TyExpressionVariant,
    TyVariableDeclaration,
};
use crate::language::module::{TyModule, TySubmodule};
use crate::monomorphize::constraint::{call_constraint, Constraint, ConstraintSpec};
use crate::span::Ident;
use crate::type_system::{TypeId, TypeSubstList};

verus! {

/// The outcome of a walk: the constraints gathered, and the declaration id
/// whose lookup as a function failed, if one did (the walk ends there).
/// `None` is a walk that stops.
pub type GatherOutcome = Option<(Seq<ConstraintSpec>, Option<DeclId>)>;

/// A walk that gathers `cs` and succeeds.
pub open spec fn gathered(cs: Seq<ConstraintSpec>) -> GatherOutcome {
    Some((cs, None))
}

/// A walk `a` followed by a walk `b`, which happens only where `a`
/// succeeded.
pub open spec fn then_gather(a: GatherOutcome, b: GatherOutcome) -> GatherOutcome {
    match a {
        Some((cs, None)) => match b {
            Some((cs2, e)) => Some((cs + cs2, e)),
            None => None,
        },
        _ => a,
    }
}

/// The outcome of walking an expression.
pub open spec fn exp_gathered(de: &DeclEngine, bound: nat, e: TyExpression) -> GatherOutcome
    decreases bound, e, 2nat,
{
    variant_gathered(de, bound, e.expression, e.return_type)
}

/// The outcome of walking an expression variant of type `return_type`: the
/// type first, then what the variant holds.
pub open spec fn variant_gathered(
    de: &DeclEngine,
    bound: nat,
    v: TyExpressionVariant,
    return_type: TypeId,
) -> GatherOutcome
    decreases bound, v, 1nat,
{
    then_gather(gathered(seq![ConstraintSpec::Ty(return_type)]), variant_parts_gathered(de, bound, v))
}

/// The outcome of walking what an expression variant holds: the arguments
/// of a call then its contract call parameters, then the call itself; the
/// operands of a lazy operator; the fields of a tuple; the nodes of a code
/// block; the prefix of a tuple element access; the operand of an enum tag
/// or a return.  Literals, variables, breaks, continues and function
/// parameters hold nothing; the walk stops at the other variants.
pub open spec fn variant_parts_gathered(de: &DeclEngine, bound: nat, v: TyExpressionVariant) -> GatherOutcome
    decreases bound, v, 0nat,
{
    match v {
        TyExpressionVariant::FunctionApplication { arguments, contract_call_params, .. } => then_gather(
            then_gather(args_gathered(de, bound, arguments@), params_gathered(de, bound, contract_call_params@)),
            gathered(seq![call_constraint(v)]),
        ),
        TyExpressionVariant::LazyOperator { lhs, rhs, .. } => then_gather(
            exp_gathered(de, bound, *lhs),
            exp_gathered(de, bound, *rhs),
        ),
        TyExpressionVariant::VariableExpression { .. } => gathered(Seq::empty()),
        TyExpressionVariant::Tuple { fields } => exps_gathered(de, bound, fields@),
        TyExpressionVariant::CodeBlock(block) => nodes_gathered(de, bound, block.contents@),
        TyExpressionVariant::TupleElemAccess { prefix, .. } => exp_gathered(de, bound, *prefix),
        TyExpressionVariant::EnumTag { exp } => exp_gathered(de, bound, *exp),
        TyExpressionVariant::Return(exp) => exp_gathered(de, bound, *exp),
        TyExpressionVariant::Literal(_) => gathered(Seq::empty()),
        TyExpressionVariant::Break => gathered(Seq::empty()),
        TyExpressionVariant::Continue => gathered(Seq::empty()),
        TyExpressionVariant::FunctionParameter => gathered(Seq::empty()),
        _ => None,
    }
}

/// The outcome of walking a list of expressions, from the first on.
pub open spec fn exps_gathered(de: &DeclEngine, bound: nat, s: Seq<TyExpression>) -> GatherOutcome
    decreases bound, s, 0nat,
{
    if s.len() == 0 {
        gathered(Seq::empty())
    } else {
        then_gather(exp_gathered(de, bound, s[0]), exps_gathered(de, bound, s.subrange(1, s.len() as int)))
    }
}

/// The outcome of walking the arguments of a call, from the first on.
pub open spec fn args_gathered(de: &DeclEngine, bound: nat, s: Seq<(Ident, TyExpression)>) -> GatherOutcome
    decreases bound, s, 0nat,
{
    if s.len() == 0 {
        gathered(Seq::empty())
    } else {
        then_gather(exp_gathered(de, bound, s[0].1), args_gathered(de, bound, s.subrange(1, s.len() as int)))
    }
}

/// The outcome of walking the contract call parameters of a call.
pub open spec fn params_gathered(de: &DeclEngine, bound: nat, s: Seq<(String, TyExpression)>) -> GatherOutcome
    decreases bound, s, 0nat,
{
    if s.len() == 0 {
        gathered(Seq::empty())
    } else {
        then_gather(exp_gathered(de, bound, s[0].1), params_gathered(de, bound, s.subrange(1, s.len() as int)))
    }
}

/// The outcome of walking a list of nodes, from the first on.
pub open spec fn nodes_gathered(de: &DeclEngine, bound: nat, s: Seq<TyAstNode>) -> GatherOutcome
    decreases bound, s, 0nat,
{
    if s.len() == 0 {
        gathered(Seq::empty())
    } else {
        then_gather(node_gathered(de, bound, s[0]), nodes_gathered(de, bound, s.subrange(1, s.len() as int)))
    }
}

/// The outcome of walking a node: its declaration or expression.
pub open spec fn node_gathered(de: &DeclEngine, bound: nat, n: TyAstNode) -> GatherOutcome
    decreases bound, n, 1nat,
{
    content_gathered(de, bound, n.content)
}

/// The outcome of walking the content of a node.
pub open spec fn content_gathered(de: &DeclEngine, bound: nat, content: TyAstNodeContent) -> GatherOutcome
    decreases bound, content, 0nat,
{
    match content {
        TyAstNodeContent::Declaration(d) => decl_gathered(de, bound, d),
        TyAstNodeContent::Expression(e) => exp_gathered(de, bound, e),
        TyAstNodeContent::ImplicitReturnExpression(e) => exp_gathered(de, bound, e),
        TyAstNodeContent::SideEffect => gathered(Seq::empty()),
    }
}

/// The outcome of walking a declaration: the body of a variable; the body
/// of a declared function, looked up in `de` (failing where the id is not
/// that of a function); nothing for an error recovery.  The walk stops at
/// the other declarations, at generic functions, at functions with
/// parameters and at functions not stored below `bound`.
pub open spec fn decl_gathered(de: &DeclEngine, bound: nat, d: TyDeclaration) -> GatherOutcome
    decreases bound, d, 0nat,
{
    match d {
        TyDeclaration::VariableDeclaration(v) => exp_gathered(de, bound, v.body),
        TyDeclaration::FunctionDeclaration(id, subst) => if !de.valid(id) {
            None
        } else {
            match de.decl(id) {
                DeclWrapper::Function(f) => if id.index < bound && subst.list@.len() == 0 && f.parameters@.len()
                    == 0 {
                    nodes_gathered(de, id.index as nat, f.body.contents@)
                } else {
                    None
                },
                _ => Some((Seq::empty(), Some(id))),
            }
        },
        TyDeclaration::ErrorRecovery(_) => gathered(Seq::empty()),
        _ => None,
    }
}

/// The constraints of a list, as values.
pub open spec fn constraint_views<'a>(s: Seq<Constraint<'a>>) -> Seq<ConstraintSpec> {
    s.map_values(|c: Constraint<'a>| c@)
}

/// Whether a walk with the given outcome went from the constraints
/// `before` to `after` and reported `res`: the constraints it gathered are
/// appended, and a failed lookup is reported as the error it gave.
pub open spec fn walked<'a>(
    de: &DeclEngine,
    outcome: GatherOutcome,
    before: Seq<Constraint<'a>>,
    after: Seq<Constraint<'a>>,
    res: Result<(), CompileError>,
) -> bool {
    match outcome {
        Some((cs, failed)) => {
            &&& constraint_views(after) == constraint_views(before) + cs
            &&& match failed {
                None => res is Ok,
                Some(id) => res matches Err(e) && de.decl(id).expect_error(DeclKind::Function, id.span, e),
            }
        },
        None => false,
    }
}

proof fn lemma_then_gathered(d: Seq<ConstraintSpec>, c: Seq<ConstraintSpec>, x: GatherOutcome)
    ensures
        then_gather(gathered(d), then_gather(gathered(c), x)) == then_gather(gathered(d + c), x),
{
    match x {
        Some((cs2, e)) => {
            assert(d + (c + cs2) =~= (d + c) + cs2);
        },
        None => {},
    }
}

proof fn lemma_views_push<'a>(s: Seq<Constraint<'a>>, c: Constraint<'a>)
    ensures
        constraint_views(s.push(c)) == constraint_views(s) + seq![c@],
{
    assert(constraint_views(s.push(c)) =~= constraint_views(s) + seq![c@]);
}

/// A walk that first gathered `d` and then walked with outcome `x`.
proof fn lemma_walked_after<'a>(
    de: &DeclEngine,
    d: Seq<ConstraintSpec>,
    x: GatherOutcome,
    before: Seq<Constraint<'a>>,
    mid: Seq<Constraint<'a>>,
    after: Seq<Constraint<'a>>,
    res: Result<(), CompileError>,
)
    requires
        constraint_views(mid) == constraint_views(before) + d,
        walked(de, x, mid, after, res),
    ensures
        walked(de, then_gather(gathered(d), x), before, after, res),
{
    let (cs, _) = x.unwrap();
    assert(constraint_views(after) =~= constraint_views(before) + (d + cs));
}

/// Two walks in a row: the second happens only where the first succeeded.
proof fn lemma_walked_then<'a>(
    de: &DeclEngine,
    a: GatherOutcome,
    b: GatherOutcome,
    before: Seq<Constraint<'a>>,
    mid: Seq<Constraint<'a>>,
    after: Seq<Constraint<'a>>,
    res: Result<(), CompileError>,
)
    requires
        walked(de, a, before, mid, Ok(())),
        walked(de, b, mid, after, res),
    ensures
        walked(de, then_gather(a, b), before, after, res),
{
    let (ca, fa) = a.unwrap();
    assert(fa is None);
    lemma_walked_after(de, ca, b, before, mid, after, res);
}

/// A walk that failed is the outcome of itself followed by anything.
proof fn lemma_walked_failed<'a>(
    de: &DeclEngine,
    a: GatherOutcome,
    b: GatherOutcome,
    before: Seq<Constraint<'a>>,
    after: Seq<Constraint<'a>>,
    res: Result<(), CompileError>,
)
    requires
        walked(de, a, before, after, res),
        res is Err,
    ensures
        walked(de, then_gather(a, b), before, after, res),
{
}

/// Walks an expression, appending its constraints.
fn gather_exp_walk<'a>(
    constraints: &mut Vec<Constraint<'a>>,
    decl_engine: &'a DeclEngine,
    exp: &'a TyExpression,
    Ghost(bound): Ghost<nat>,
) -> (res: Result<(), CompileError>)
    requires
        exp_gathered(decl_engine, bound, *exp) is Some,
    ensures
        walked(decl_engine, exp_gathered(decl_engine, bound, *exp), old(constraints)@, final(constraints)@, res),
    decreases bound, *exp, 3nat,
{
    gather_from_exp_inner(constraints, decl_engine, &exp.expression, exp.return_type, Ghost(bound))
}

/// Walks an expression variant of type `return_type`: the type first, then
/// what the variant holds; see [`variant_parts_gathered`].
pub(crate) fn gather_from_exp_inner<'a>(
    constraints: &mut Vec<Constraint<'a>>,
    decl_engine: &'a DeclEngine,
    exp: &'a TyExpressionVariant,
    return_type: TypeId,
    Ghost(bound): Ghost<nat>,
) -> (res: Result<(), CompileError>)
    requires
        variant_gathered(decl_engine, bound, *exp, return_type) is Some,
    ensures
        walked(
            decl_engine,
            variant_gathered(decl_engine, bound, *exp, return_type),
            old(constraints)@,
            final(constraints)@,
            res,
        ),
    decreases bound, *exp, 2nat,
{
    constraints.push(Constraint::from_type_id(return_type));
    let ghost mid = constraints@;
    proof {
        lemma_views_push(old(constraints)@, Constraint::Ty(return_type));
    }
    let res = gather_variant_parts(constraints, decl_engine, exp, Ghost(bound));
    proof {
        lemma_walked_after(
            decl_engine,
            seq![ConstraintSpec::Ty(return_type)],
            variant_parts_gathered(decl_engine, bound, *exp),
            old(constraints)@,
            mid,
            constraints@,
            res,
        );
    }
    res
}

fn gather_variant_parts<'a>(
    constraints: &mut Vec<Constraint<'a>>,
    decl_engine: &'a DeclEngine,
    exp: &'a TyExpressionVariant,
    Ghost(bound): Ghost<nat>,
) -> (res: Result<(), CompileError>)
    requires
        variant_parts_gathered(decl_engine, bound, *exp) is Some,
    ensures
        walked(
            decl_engine,
            variant_parts_gathered(decl_engine, bound, *exp),
            old(constraints)@,
            final(constraints)@,
            res,
        ),
    decreases bound, *exp, 1nat,
{
    match exp {
        TyExpressionVariant::FunctionApplication { arguments, contract_call_params, .. } => {
            let ghost a = args_gathered(decl_engine, bound, arguments@);
            let ghost b = params_gathered(decl_engine, bound, contract_call_params@);
            let ghost c = gathered(seq![call_constraint(*exp)]);
            let ghost s0 = constraints@;
            let r1 = gather_args(constraints, decl_engine, arguments, Ghost(bound));
            if r1.is_err() {
                proof {
                    lemma_walked_failed(decl_engine, a, b, s0, constraints@, r1);
                    lemma_walked_failed(decl_engine, then_gather(a, b), c, s0, constraints@, r1);
                }
                return r1;
            }
            let ghost s1 = constraints@;
            let r2 = gather_params(constraints, decl_engine, contract_call_params, Ghost(bound));
            proof {
                lemma_walked_then(decl_engine, a, b, s0, s1, constraints@, r2);
            }
            if r2.is_err() {
                proof {
                    lemma_walked_failed(decl_engine, then_gather(a, b), c, s0, constraints@, r2);
                }
                return r2;
            }
            let ghost s2 = constraints@;
            constraints.push(Constraint::from_variant(exp));
            proof {
                lemma_views_push(s2, constraints@.last());
                assert(walked(decl_engine, c, s2, constraints@, Ok(())));
                lemma_walked_then(decl_engine, then_gather(a, b), c, s0, s2, constraints@, Ok(()));
            }
            Ok(())
        },
        TyExpressionVariant::LazyOperator { lhs, rhs, .. } => {
            let ghost a = exp_gathered(decl_engine, bound, **lhs);
            let ghost b = exp_gathered(decl_engine, bound, **rhs);
            let ghost s0 = constraints@;
            let r1 = gather_exp_walk(constraints, decl_engine, lhs, Ghost(bound));
            if r1.is_err() {
                proof {
                    lemma_walked_failed(decl_engine, a, b, s0, constraints@, r1);
                }
                return r1;
            }
            let ghost s1 = constraints@;
            let r2 = gather_exp_walk(constraints, decl_engine, rhs, Ghost(bound));
            proof {
                lemma_walked_then(decl_engine, a, b, s0, s1, constraints@, r2);
            }
            r2
        },
        TyExpressionVariant::Tuple { fields } => gather_exps(constraints, decl_engine, fields, Ghost(bound)),
        TyExpressionVariant::CodeBlock(block) => gather_from_code_block(constraints, decl_engine, block, Ghost(bound)),
        TyExpressionVariant::TupleElemAccess { prefix, .. } => gather_exp_walk(
            constraints,
            decl_engine,
            prefix,
            Ghost(bound),
        ),
        TyExpressionVariant::EnumTag { exp } => gather_exp_walk(constraints, decl_engine, exp, Ghost(bound)),
        TyExpressionVariant::Return(exp) => gather_exp_walk(constraints, decl_engine, exp, Ghost(bound)),
        _ => {
            assert(constraint_views(constraints@) =~= constraint_views(old(constraints)@) + Seq::empty());
            Ok(())
        },
    }
}

fn gather_exps<'a>(
    constraints: &mut Vec<Constraint<'a>>,
    decl_engine: &'a DeclEngine,
    s: &'a Vec<TyExpression>,
    Ghost(bound): Ghost<nat>,
) -> (res: Result<(), CompileError>)
    requires
        exps_gathered(decl_engine, bound, s@) is Some,
    ensures
        walked(decl_engine, exps_gathered(decl_engine, bound, s@), old(constraints)@, final(constraints)@, res),
    decreases bound, s@, 1nat,
{
    let ghost all = s@;
    let ghost start = constraints@;
    let ghost mut done: Seq<ConstraintSpec> = Seq::empty();
    let mut i: usize = 0;
    assert(all.subrange(0, all.len() as int) =~= all);
    assert(constraint_views(start) =~= constraint_views(start) + done);
    while i < s.len()
        invariant
            all == s@,
            start == old(constraints)@,
            0 <= i <= all.len(),
            exps_gathered(decl_engine, bound, all) is Some,
            constraint_views(constraints@) == constraint_views(start) + done,
            exps_gathered(decl_engine, bound, all) == then_gather(
                gathered(done),
                exps_gathered(decl_engine, bound, all.subrange(i as int, all.len() as int)),
            ),
        decreases all.len() - i,
    {
        let ghost rest = all.subrange(i as int, all.len() as int);
        assert(rest.subrange(1, rest.len() as int) =~= all.subrange(i + 1, all.len() as int));
        assert(rest[0] == all[i as int]);
        let ghost x = exp_gathered(decl_engine, bound, all[i as int]);
        let ghost y = exps_gathered(decl_engine, bound, all.subrange(i + 1, all.len() as int));
        assert(exps_gathered(decl_engine, bound, rest) == then_gather(x, y));
        let ghost mid = constraints@;
        let r = gather_exp_walk(constraints, decl_engine, &s[i], Ghost(bound));
        if r.is_err() {
            proof {
                lemma_walked_failed(decl_engine, x, y, mid, constraints@, r);
                lemma_walked_after(decl_engine, done, then_gather(x, y), start, mid, constraints@, r);
            }
            return r;
        }
        proof {
            let (cx, _) = x.unwrap();
            lemma_then_gathered(done, cx, y);
            assert(constraint_views(constraints@) =~= constraint_views(start) + (done + cx));
            done = done + cx;
        }
        i = i + 1;
    }
    proof {
        assert(all.subrange(i as int, all.len() as int) =~= Seq::<TyExpression>::empty());
        assert(done + Seq::<ConstraintSpec>::empty() =~= done);
    }
    Ok(())
}

fn gather_args<'a>(
    constraints: &mut Vec<Constraint<'a>>,
    decl_engine: &'a DeclEngine,
    s: &'a Vec<(Ident, TyExpression)>,
    Ghost(bound): Ghost<nat>,
) -> (res: Result<(), CompileError>)
    requires
        args_gathered(decl_engine, bound, s@) is Some,
    ensures
        walked(decl_engine, args_gathered(decl_engine, bound, s@), old(constraints)@, final(constraints)@, res),
    decreases bound, s@, 1nat,
{
    let ghost all = s@;
    let ghost start = constraints@;
    let ghost mut done: Seq<ConstraintSpec> = Seq::empty();
    let mut i: usize = 0;
    assert(all.subrange(0, all.len() as int) =~= all);
    assert(constraint_views(start) =~= constraint_views(start) + done);
    while i < s.len()
        invariant
            all == s@,
            start == old(constraints)@,
            0 <= i <= all.len(),
            args_gathered(decl_engine, bound, all) is Some,
            constraint_views(constraints@) == constraint_views(start) + done,
            args_gathered(decl_engine, bound, all) == then_gather(
                gathered(done),
                args_gathered(decl_engine, bound, all.subrange(i as int, all.len() as int)),
            ),
        decreases all.len() - i,
    {
        let ghost rest = all.subrange(i as int, all.len() as int);
        assert(rest.subrange(1, rest.len() as int) =~= all.subrange(i + 1, all.len() as int));
        assert(rest[0] == all[i as int]);
        let ghost x = exp_gathered(decl_engine, bound, all[i as int].1);
        let ghost y = args_gathered(decl_engine, bound, all.subrange(i + 1, all.len() as int));
        assert(args_gathered(decl_engine, bound, rest) == then_gather(x, y));
        let ghost mid = constraints@;
        let r = gather_exp_walk(constraints, decl_engine, &s[i].1, Ghost(bound));
        if r.is_err() {
            proof {
                lemma_walked_failed(decl_engine, x, y, mid, constraints@, r);
                lemma_walked_after(decl_engine, done, then_gather(x, y), start, mid, constraints@, r);
            }
            return r;
        }
        proof {
            let (cx, _) = x.unwrap();
            lemma_then_gathered(done, cx, y);
            assert(constraint_views(constraints@) =~= constraint_views(start) + (done + cx));
            done = done + cx;
        }
        i = i + 1;
    }
    proof {
        assert(all.subrange(i as int, all.len() as int) =~= Seq::<(Ident, TyExpression)>::empty());
        assert(done + Seq::<ConstraintSpec>::empty() =~= done);
    }
    Ok(())
}

fn gather_params<'a>(
    constraints: &mut Vec<Constraint<'a>>,
    decl_engine: &'a DeclEngine,
    s: &'a Vec<(String, TyExpression)>,
    Ghost(bound): Ghost<nat>,
) -> (res: Result<(), CompileError>)
    requires
        params_gathered(decl_engine, bound, s@) is Some,
    ensures
        walked(decl_engine, params_gathered(decl_engine, bound, s@), old(constraints)@, final(constraints)@, res),
    decreases bound, s@, 1nat,
{
    let ghost all = s@;
    let ghost start = constraints@;
    let ghost mut done: Seq<ConstraintSpec> = Seq::empty();
    let mut i: usize = 0;
    assert(all.subrange(0, all.len() as int) =~= all);
    assert(constraint_views(start) =~= constraint_views(start) + done);
    while i < s.len()
        invariant
            all == s@,
            start == old(constraints)@,
            0 <= i <= all.len(),
            params_gathered(decl_engine, bound, all) is Some,
            constraint_views(constraints@) == constraint_views(start) + done,
            params_gathered(decl_engine, bound, all) == then_gather(
                gathered(done),
                params_gathered(decl_engine, bound, all.subrange(i as int, all.len() as int)),
            ),
        decreases all.len() - i,
    {
        let ghost rest = all.subrange(i as int, all.len() as int);
        assert(rest.subrange(1, rest.len() as int) =~= all.subrange(i + 1, all.len() as int));
        assert(rest[0] == all[i as int]);
        let ghost x = exp_gathered(decl_engine, bound, all[i as int].1);
        let ghost y = params_gathered(decl_engine, bound, all.subrange(i + 1, all.len() as int));
        assert(params_gathered(decl_engine, bound, rest) == then_gather(x, y));
        let ghost mid = constraints@;
        let r = gather_exp_walk(constraints, decl_engine, &s[i].1, Ghost(bound));
        if r.is_err() {
            proof {
                lemma_walked_failed(decl_engine, x, y, mid, constraints@, r);
                lemma_walked_after(decl_engine, done, then_gather(x, y), start, mid, constraints@, r);
            }
            return r;
        }
        proof {
            let (cx, _) = x.unwrap();
            lemma_then_gathered(done, cx, y);
            assert(constraint_views(constraints@) =~= constraint_views(start) + (done + cx));
            done = done + cx;
        }
        i = i + 1;
    }
    proof {
        assert(all.subrange(i as int, all.len() as int) =~= Seq::<(String, TyExpression)>::empty());
        assert(done + Seq::<ConstraintSpec>::empty() =~= done);
    }
    Ok(())
}

fn gather_nodes<'a>(
    constraints: &mut Vec<Constraint<'a>>,
    decl_engine: &'a DeclEngine,
    s: &'a Vec<TyAstNode>,
    Ghost(bound): Ghost<nat>,
) -> (res: Result<(), CompileError>)
    requires
        nodes_gathered(decl_engine, bound, s@) is Some,
    ensures
        walked(decl_engine, nodes_gathered(decl_engine, bound, s@), old(constraints)@, final(constraints)@, res),
    decreases bound, s@, 1nat,
{
    let ghost all = s@;
    let ghost start = constraints@;
    let ghost mut done: Seq<ConstraintSpec> = Seq::empty();
    let mut i: usize = 0;
    assert(all.subrange(0, all.len() as int) =~= all);
    assert(constraint_views(start) =~= constraint_views(start) + done);
    while i < s.len()
        invariant
            all == s@,
            start == old(constraints)@,
            0 <= i <= all.len(),
            nodes_gathered(decl_engine, bound, all) is Some,
            constraint_views(constraints@) == constraint_views(start) + done,
            nodes_gathered(decl_engine, bound, all) == then_gather(
                gathered(done),
                nodes_gathered(decl_engine, bound, all.subrange(i as int, all.len() as int)),
            ),
        decreases all.len() - i,
    {
        let ghost rest = all.subrange(i as int, all.len() as int);
        assert(rest.subrange(1, rest.len() as int) =~= all.subrange(i + 1, all.len() as int));
        assert(rest[0] == all[i as int]);
        let ghost x = node_gathered(decl_engine, bound, all[i as int]);
        let ghost y = nodes_gathered(decl_engine, bound, all.subrange(i + 1, all.len() as int));
        assert(nodes_gathered(decl_engine, bound, rest) == then_gather(x, y));
        let ghost mid = constraints@;
        let r = gather_from_node_walk(constraints, decl_engine, &s[i], Ghost(bound));
        if r.is_err() {
            proof {
                lemma_walked_failed(decl_engine, x, y, mid, constraints@, r);
                lemma_walked_after(decl_engine, done, then_gather(x, y), start, mid, constraints@, r);
            }
            return r;
        }
        proof {
            let (cx, _) = x.unwrap();
            lemma_then_gathered(done, cx, y);
            assert(constraint_views(constraints@) =~= constraint_views(start) + (done + cx));
            done = done + cx;
        }
        i = i + 1;
    }
    proof {
        assert(all.subrange(i as int, all.len() as int) =~= Seq::<TyAstNode>::empty());
        assert(done + Seq::<ConstraintSpec>::empty() =~= done);
    }
    Ok(())
}

/// Walks the nodes of a code block, in order.
pub(crate) fn gather_from_code_block<'a>(
    constraints: &mut Vec<Constraint<'a>>,
    decl_engine: &'a DeclEngine,
    block: &'a TyCodeBlock,
    Ghost(bound): Ghost<nat>,
) -> (res: Result<(), CompileError>)
    requires
        nodes_gathered(decl_engine, bound, block.contents@) is Some,
    ensures
        walked(
            decl_engine,
            nodes_gathered(decl_engine, bound, block.contents@),
            old(constraints)@,
            final(constraints)@,
            res,
        ),
    decreases bound, *block, 2nat,
{
    gather_nodes(constraints, decl_engine, &block.contents, Ghost(bound))
}

fn gather_from_node_walk<'a>(
    constraints: &mut Vec<Constraint<'a>>,
    decl_engine: &'a DeclEngine,
    node: &'a TyAstNode,
    Ghost(bound): Ghost<nat>,
) -> (res: Result<(), CompileError>)
    requires
        node_gathered(decl_engine, bound, *node) is Some,
    ensures
        walked(decl_engine, node_gathered(decl_engine, bound, *node), old(constraints)@, final(constraints)@, res),
    decreases bound, *node, 3nat,
{
    gather_from_node_content(constraints, decl_engine, &node.content, Ghost(bound))
}

fn gather_from_node_content<'a>(
    constraints: &mut Vec<Constraint<'a>>,
    decl_engine: &'a DeclEngine,
    content: &'a TyAstNodeContent,
    Ghost(bound): Ghost<nat>,
) -> (res: Result<(), CompileError>)
    requires
        content_gathered(decl_engine, bound, *content) is Some,
    ensures
        walked(
            decl_engine,
            content_gathered(decl_engine, bound, *content),
            old(constraints)@,
            final(constraints)@,
            res,
        ),
    decreases bound, *content, 2nat,
{
    match content {
        TyAstNodeContent::Declaration(decl) => gather_from_decl_walk(constraints, decl_engine, decl, Ghost(bound)),
        TyAstNodeContent::Expression(exp) => gather_exp_walk(constraints, decl_engine, exp, Ghost(bound)),
        TyAstNodeContent::ImplicitReturnExpression(exp) => gather_exp_walk(
            constraints,
            decl_engine,
            exp,
            Ghost(bound),
        ),
        TyAstNodeContent::SideEffect => {
            assert(constraint_views(constraints@) =~= constraint_views(old(constraints)@) + Seq::empty());
            Ok(())
        },
    }
}

fn gather_from_decl_walk<'a>(
    constraints: &mut Vec<Constraint<'a>>,
    decl_engine: &'a DeclEngine,
    decl: &'a TyDeclaration,
    Ghost(bound): Ghost<nat>,
) -> (res: Result<(), CompileError>)
    requires
        decl_gathered(decl_engine, bound, *decl) is Some,
    ensures
        walked(decl_engine, decl_gathered(decl_engine, bound, *decl), old(constraints)@, final(constraints)@, res),
    decreases bound, *decl, 1nat,
{
    match decl {
        TyDeclaration::VariableDeclaration(var_decl) => gather_from_var_decl(
            constraints,
            decl_engine,
            var_decl,
            Ghost(bound),
        ),
        TyDeclaration::FunctionDeclaration(decl_id, type_subst_list) => {
            match decl_engine.get_function(*decl_id, &decl_id.span()) {
                Ok(fn_decl) => gather_from_fn_decl(
                    constraints,
                    decl_engine,
                    fn_decl,
                    type_subst_list,
                    Ghost(decl_id.index as nat),
                ),
                Err(e) => {
                    assert(constraint_views(constraints@) =~= constraint_views(old(constraints)@) + Seq::empty());
                    Err(e)
                },
            }
        },
        _ => {
            assert(constraint_views(constraints@) =~= constraint_views(old(constraints)@) + Seq::empty());
            Ok(())
        },
    }
}

fn gather_from_var_decl<'a>(
    constraints: &mut Vec<Constraint<'a>>,
    decl_engine: &'a DeclEngine,
    decl: &'a TyVariableDeclaration,
    Ghost(bound): Ghost<nat>,
) -> (res: Result<(), CompileError>)
    requires
        exp_gathered(decl_engine, bound, decl.body) is Some,
    ensures
        walked(decl_engine, exp_gathered(decl_engine, bound, decl.body), old(constraints)@, final(constraints)@, res),
    decreases bound, *decl, 0nat,
{
    gather_exp_walk(constraints, decl_engine, &decl.body, Ghost(bound))
}

/// Walks the body of a declared function: one without type arguments and
/// without parameters.
fn gather_from_fn_decl<'a>(
    constraints: &mut Vec<Constraint<'a>>,
    decl_engine: &'a DeclEngine,
    decl: &'a TyFunctionDeclaration,
    type_subst_list: &'a TypeSubstList,
    Ghost(bound): Ghost<nat>,
) -> (res: Result<(), CompileError>)
    requires
        type_subst_list.list@.len() == 0,
        decl.parameters@.len() == 0,
        nodes_gathered(decl_engine, bound, decl.body.contents@) is Some,
    ensures
        walked(
            decl_engine,
            nodes_gathered(decl_engine, bound, decl.body.contents@),
            old(constraints)@,
            final(constraints)@,
            res,
        ),
    decreases bound, decl.body, 3nat,
{
    gather_from_code_block(constraints, decl_engine, &decl.body, Ghost(bound))
}

/// Gathers the constraints of an expression into `constraints`: see
/// [`exp_gathered`], where every declaration of the engine may be walked.
pub fn gather_from_exp<'a>(
    constraints: &mut Vec<Constraint<'a>>,
    decl_engine: &'a DeclEngine,
    exp: &'a TyExpression,
) -> (res: Result<(), CompileError>)
    requires
        exp_gathered(decl_engine, decl_engine.slab@.len(), *exp) is Some,
    ensures
        walked(
            decl_engine,
            exp_gathered(decl_engine, decl_engine.slab@.len(), *exp),
            old(constraints)@,
            final(constraints)@,
            res,
        ),
{
    gather_exp_walk(constraints, decl_engine, exp, Ghost(decl_engine.slab@.len()))
}

/// Gathers the constraints of a node into `constraints`.
pub fn gather_from_node<'a>(
    constraints: &mut Vec<Constraint<'a>>,
    decl_engine: &'a DeclEngine,
    node: &'a TyAstNode,
) -> (res: Result<(), CompileError>)
    requires
        node_gathered(decl_engine, decl_engine.slab@.len(), *node) is Some,
    ensures
        walked(
            decl_engine,
            node_gathered(decl_engine, decl_engine.slab@.len(), *node),
            old(constraints)@,
            final(constraints)@,
            res,
        ),
{
    gather_from_node_walk(constraints, decl_engine, node, Ghost(decl_engine.slab@.len()))
}

/// Gathers the constraints of a declaration into `constraints`.
pub fn gather_from_decl<'a>(
    constraints: &mut Vec<Constraint<'a>>,
    decl_engine: &'a DeclEngine,
    decl: &'a TyDeclaration,
) -> (res: Result<(), CompileError>)
    requires
        decl_gathered(decl_engine, decl_engine.slab@.len(), *decl) is Some,
    ensures
        walked(
            decl_engine,
            decl_gathered(decl_engine, decl_engine.slab@.len(), *decl),
            old(constraints)@,
            final(constraints)@,
            res,
        ),
{
    gather_from_decl_walk(constraints, decl_engine, decl, Ghost(decl_engine.slab@.len()))
}

/// The outcome of walking a module: every submodule below it, depth first
/// (each after everything below it), then its nodes.
pub open spec fn module_gathered(de: &DeclEngine, m: TyModule) -> GatherOutcome
    decreases m, 0nat,
{
    then_gather(below_gathered(de, m.submodules@), nodes_gathered(de, de.slab@.len(), m.all_nodes@))
}

/// The outcome of walking, depth first, the modules of a list of
/// submodules and everything below them.
pub open spec fn below_gathered(de: &DeclEngine, subs: Seq<(Ident, TySubmodule)>) -> GatherOutcome
    decreases subs, 1nat,
{
    if subs.len() == 0 {
        gathered(Seq::empty())
    } else {
        then_gather(below_gathered(de, subs.drop_last()), submodule_gathered(de, subs.last()))
    }
}

/// The outcome of walking everything below a submodule, then the
/// submodule.
pub open spec fn submodule_gathered(de: &DeclEngine, sub: (Ident, TySubmodule)) -> GatherOutcome
    decreases sub, 2nat,
{
    then_gather(below_gathered(de, sub.1.module.submodules@), module_gathered(de, sub.1.module))
}

proof fn lemma_walked_empty<'a>(de: &DeclEngine, s: Seq<Constraint<'a>>)
    ensures
        walked(de, gathered(Seq::empty()), s, s, Ok(())),
{
    assert(constraint_views(s) =~= constraint_views(s) + Seq::<ConstraintSpec>::empty());
}

proof fn lemma_below_prefix(de: &DeclEngine, subs: Seq<(Ident, TySubmodule)>, k: int)
    requires
        0 <= k <= subs.len(),
        below_gathered(de, subs) is Some,
    ensures
        below_gathered(de, subs.subrange(0, k)) is Some,
        below_gathered(de, subs.subrange(0, k)) matches Some((_, Some(_))) ==> below_gathered(de, subs)
            == below_gathered(de, subs.subrange(0, k)),
    decreases subs.len() - k,
{
    if k < subs.len() {
        lemma_below_prefix(de, subs, k + 1);
        let p = subs.subrange(0, k + 1);
        assert(p.drop_last() =~= subs.subrange(0, k));
    } else {
        assert(subs.subrange(0, k) =~= subs);
    }
}

fn gather_below<'a>(
    constraints: &mut Vec<Constraint<'a>>,
    decl_engine: &'a DeclEngine,
    subs: &'a Vec<(Ident, TySubmodule)>,
) -> (res: Result<(), CompileError>)
    requires
        below_gathered(decl_engine, subs@) is Some,
    ensures
        walked(decl_engine, below_gathered(decl_engine, subs@), old(constraints)@, final(constraints)@, res),
    decreases subs@, 3nat,
{
    let ghost start = constraints@;
    let mut i: usize = 0;
    proof {
        lemma_walked_empty(decl_engine, start);
        assert(subs@.subrange(0, 0) =~= Seq::<(Ident, TySubmodule)>::empty());
    }
    while i < subs.len()
        invariant
            0 <= i <= subs@.len(),
            start == old(constraints)@,
            below_gathered(decl_engine, subs@) is Some,
            below_gathered(decl_engine, subs@.subrange(0, i as int)) matches Some((_, None)),
            walked(decl_engine, below_gathered(decl_engine, subs@.subrange(0, i as int)), start, constraints@, Ok(())),
        decreases subs@.len() - i,
    {
        let ghost prefix = subs@.subrange(0, i + 1);
        proof {
            assert(prefix.drop_last() =~= subs@.subrange(0, i as int));
            assert(prefix.last() == subs@[i as int]);
            lemma_below_prefix(decl_engine, subs@, i + 1);
        }
        let ghost mid = constraints@;
        let r = gather_submodule(constraints, decl_engine, &subs[i]);
        proof {
            lemma_walked_then(
                decl_engine,
                below_gathered(decl_engine, subs@.subrange(0, i as int)),
                submodule_gathered(decl_engine, subs@[i as int]),
                start,
                mid,
                constraints@,
                r,
            );
        }
        if r.is_err() {
            return r;
        }
        i = i + 1;
    }
    assert(subs@.subrange(0, subs@.len() as int) =~= subs@);
    Ok(())
}

fn gather_submodule<'a>(
    constraints: &mut Vec<Constraint<'a>>,
    decl_engine: &'a DeclEngine,
    sub: &'a (Ident, TySubmodule),
) -> (res: Result<(), CompileError>)
    requires
        submodule_gathered(decl_engine, *sub) is Some,
    ensures
        walked(decl_engine, submodule_gathered(decl_engine, *sub), old(constraints)@, final(constraints)@, res),
    decreases *sub, 2nat,
{
    let ghost start = constraints@;
    let ghost a = below_gathered(decl_engine, sub.1.module.submodules@);
    let ghost b = module_gathered(decl_engine, sub.1.module);
    let r1 = gather_below(constraints, decl_engine, &sub.1.module.submodules);
    if r1.is_err() {
        proof {
            lemma_walked_failed(decl_engine, a, b, start, constraints@, r1);
        }
        return r1;
    }
    let ghost mid = constraints@;
    let r2 = gather_module(constraints, decl_engine, &sub.1.module);
    proof {
        lemma_walked_then(decl_engine, a, b, start, mid, constraints@, r2);
    }
    r2
}

fn gather_module<'a>(
    constraints: &mut Vec<Constraint<'a>>,
    decl_engine: &'a DeclEngine,
    module: &'a TyModule,
) -> (res: Result<(), CompileError>)
    requires
        module_gathered(decl_engine, *module) is Some,
    ensures
        walked(decl_engine, module_gathered(decl_engine, *module), old(constraints)@, final(constraints)@, res),
    decreases *module, 1nat,
{
    let ghost start = constraints@;
    let ghost a = below_gathered(decl_engine, module.submodules@);
    let ghost b = nodes_gathered(decl_engine, decl_engine.slab@.len(), module.all_nodes@);
    let r1 = gather_below(constraints, decl_engine, &module.submodules);
    if r1.is_err() {
        proof {
            lemma_walked_failed(decl_engine, a, b, start, constraints@, r1);
        }
        return r1;
    }
    let ghost mid = constraints@;
    let r2 = gather_nodes(constraints, decl_engine, &module.all_nodes, Ghost(decl_engine.slab@.len()));
    proof {
        lemma_walked_then(decl_engine, a, b, start, mid, constraints@, r2);
    }
    r2
}

/// Gathers the constraints of a module that is not the root: every
/// submodule below it, depth first, then its nodes.
pub fn gather_from_module<'a>(
    constraints: &mut Vec<Constraint<'a>>,
    decl_engine: &'a DeclEngine,
    module: &'a TyModule,
) -> (res: Result<(), CompileError>)
    requires
        module_gathered(decl_engine, *module) is Some,
    ensures
        walked(decl_engine, module_gathered(decl_engine, *module), old(constraints)@, final(constraints)@, res),
{
    gather_module(constraints, decl_engine, module)
}

/// Gathers the constraints of the root module: every submodule below it,
/// depth first, then its nodes.
pub fn gather_from_root<'a>(
    constraints: &mut Vec<Constraint<'a>>,
    decl_engine: &'a DeclEngine,
    module: &'a TyModule,
) -> (res: Result<(), CompileError>)
    requires
        module_gathered(decl_engine, *module) is Some,
    ensures
        walked(decl_engine, module_gathered(decl_engine, *module), old(constraints)@, final(constraints)@, res),
{
    gather_module(constraints, decl_engine, module)
}

/// The constraints of a module, from the root down: see
/// [`module_gathered`].  A failed lookup of a function is reported as the
/// error it gave, and the constraints gathered so far are dropped.
pub fn gather_constraints<'a>(decl_engine: &'a DeclEngine, module: &'a TyModule) -> (res: Result<
    Vec<Constraint<'a>>,
    CompileError,
>)
    requires
        module_gathered(decl_engine, *module) is Some,
    ensures
        match module_gathered(decl_engine, *module) {
            Some((cs, None)) => res matches Ok(v) && constraint_views(v@) == cs,
            Some((_, Some(id))) => res matches Err(e) && decl_engine.decl(id).expect_error(DeclKind::Function, id.span, e),
            None => false,
        },
{
    let mut constraints: Vec<Constraint<'a>> = Vec::new();
    let r = gather_from_root(&mut constraints, decl_engine, module);
    assert(constraint_views(constraints@) =~= Seq::<ConstraintSpec>::empty() + constraint_views(constraints@));
    match r {
        Ok(()) => Ok(constraints),
        Err(e) => Err(e),
    }
}


/// The constraints gathered from a lazy operator are its type, then all the
/// constraints of its left operand, then all those of its right operand:
/// both operands are walked, the left first.
pub proof fn lemma_lazy_operator_walks_both_operands(
    de: &DeclEngine,
    bound: nat,
    e: TyExpression,
    left: Seq<ConstraintSpec>,
    right: Seq<ConstraintSpec>,
    stop: Option<DeclId>,
)
    requires
        e.expression is LazyOperator,
        exp_gathered(de, bound, *e.expression->LazyOperator_lhs) == Some((left, None::<DeclId>)),
        exp_gathered(de, bound, *e.expression->LazyOperator_rhs) == Some((right, stop)),
    ensures
        exp_gathered(de, bound, e) == Some((seq![ConstraintSpec::Ty(e.return_type)] + left + right, stop)),
        exp_gathered(de, bound, e) matches Some((cs, _)) && cs.len() == 1 + left.len() + right.len()
            && cs.subrange(1 + left.len() as int, cs.len() as int) == right,
{
    let cs = seq![ConstraintSpec::Ty(e.return_type)] + left + right;
    assert(seq![ConstraintSpec::Ty(e.return_type)] + (left + right) =~= cs);
    assert(cs.subrange(1 + left.len() as int, cs.len() as int) =~= right);
}


/// Whatever an expression is, a walk of it that succeeds gathers the
/// expression's type first.
pub proof fn lemma_expression_type_comes_first(de: &DeclEngine, bound: nat, e: TyExpression)
    requires
        exp_gathered(de, bound, e) is Some,
    ensures
        exp_gathered(de, bound, e).unwrap().0.len() >= 1,
        exp_gathered(de, bound, e).unwrap().0[0] == ConstraintSpec::Ty(e.return_type),
{
}

/// A literal, a variable, a function parameter, a `break` or a `continue`
/// gathers its type and nothing else.
pub proof fn lemma_leaves_gather_their_type(de: &DeclEngine, bound: nat, e: TyExpression)
    requires
        e.expression is Literal || e.expression is VariableExpression || e.expression is FunctionParameter
            || e.expression is Break || e.expression is Continue,
    ensures
        exp_gathered(de, bound, e) == Some((seq![ConstraintSpec::Ty(e.return_type)], None::<DeclId>)),
{
    assert(seq![ConstraintSpec::Ty(e.return_type)] + Seq::<ConstraintSpec>::empty() =~= seq![
        ConstraintSpec::Ty(e.return_type),
    ]);
}

/// A tuple element access, an enum tag and a return gather their type, then
/// all the constraints of the expression they hold.
pub proof fn lemma_single_operand_walked(
    de: &DeclEngine,
    bound: nat,
    e: TyExpression,
    inner: TyExpression,
    cs: Seq<ConstraintSpec>,
    stop: Option<DeclId>,
)
    requires
        ({
            ||| (e.expression matches TyExpressionVariant::TupleElemAccess { prefix, .. } && *prefix == inner)
            ||| (e.expression matches TyExpressionVariant::EnumTag { exp } && *exp == inner)
            ||| (e.expression matches TyExpressionVariant::Return(exp) && *exp == inner)
        }),
        exp_gathered(de, bound, inner) == Some((cs, stop)),
    ensures
        exp_gathered(de, bound, e) == Some((seq![ConstraintSpec::Ty(e.return_type)] + cs, stop)),
{
}

/// A call that is walked through without stopping gathers its own
/// constraint last, after those of its arguments.
pub proof fn lemma_call_comes_last(de: &DeclEngine, bound: nat, e: TyExpression, cs: Seq<ConstraintSpec>)
    requires
        e.expression is FunctionApplication,
        exp_gathered(de, bound, e) == Some((cs, None::<DeclId>)),
    ensures
        cs.len() >= 2,
        cs.last() == call_constraint(e.expression),
{
}

} // verus!
