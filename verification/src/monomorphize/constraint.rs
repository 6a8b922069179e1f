//! The constraints that monomorphization gathers: the types used, and the
//! function calls made.

use vstd::prelude::*;

use crate::decl_engine::DeclId;
use crate::language::equality::{lemma_params_symmetric, lemma_same_path_symmetric};
use crate::language::ty::{TyExpression, TyExpressionVariant};
use crate::span::{CallPath, Ident};
use crate::type_system::{TypeEngine, TypeId, TypeSubstList};

verus! {

/// A constraint, referring to the parts of the tree it was gathered from.
#[derive(Debug)]
pub enum Constraint<'a> {
    /// Type use.
    Ty(TypeId),
    /// Function call: the function called, the type arguments it is
    /// instantiated with, and the types of its arguments.
    FnCall {
        call_path: &'a CallPath,
        decl_id: DeclId,
        subst_list: &'a TypeSubstList,
        arguments: Vec<TypeId>,
    },
}

/// A constraint as a value.
pub enum ConstraintSpec {
    Ty(TypeId),
    FnCall { call_path: CallPath, decl_id: DeclId, subst_list: TypeSubstList, arguments: Seq<TypeId> },
}

impl<'a> View for Constraint<'a> {
    type V = ConstraintSpec;

    open spec fn view(&self) -> ConstraintSpec {
        match self {
            Constraint::Ty(t) => ConstraintSpec::Ty(*t),
            Constraint::FnCall { call_path, decl_id, subst_list, arguments } => ConstraintSpec::FnCall {
                call_path: **call_path,
                decl_id: *decl_id,
                subst_list: **subst_list,
                arguments: arguments@,
            },
        }
    }
}

/// The types of the arguments of a call, in order.
pub open spec fn argument_types(args: Seq<(Ident, TyExpression)>) -> Seq<TypeId> {
    args.map_values(|a: (Ident, TyExpression)| a.1.return_type)
}

/// The types of the arguments of a call, in order.
pub fn args_helper(args: &Vec<(Ident, TyExpression)>) -> (res: Vec<TypeId>)
    ensures
        res@ == argument_types(args@),
{
    let mut res: Vec<TypeId> = Vec::new();
    let mut i: usize = 0;
    while i < args.len()
        invariant
            0 <= i <= args@.len(),
            res@ == argument_types(args@.subrange(0, i as int)),
        decreases args@.len() - i,
    {
        res.push(args[i].1.return_type);
        assert(args@.subrange(0, i + 1).drop_last() =~= args@.subrange(0, i as int));
        assert(argument_types(args@.subrange(0, i + 1)) =~= argument_types(args@.subrange(0, i as int)).push(
            args@[i as int].1.return_type,
        ));
        i = i + 1;
    }
    assert(args@.subrange(0, args@.len() as int) =~= args@);
    res
}

/// The constraint of a function application: the call it makes.
pub open spec fn call_constraint(v: TyExpressionVariant) -> ConstraintSpec
    recommends
        v is FunctionApplication,
{
    match v {
        TyExpressionVariant::FunctionApplication {
            call_path,
            arguments,
            function_decl_id,
            function_type_subst_list,
            ..
        } => ConstraintSpec::FnCall {
            call_path,
            decl_id: function_decl_id,
            subst_list: function_type_subst_list,
            arguments: argument_types(arguments@),
        },
        _ => arbitrary(),
    }
}

impl<'a> Constraint<'a> {
    /// The kind of a constraint, as a number: type uses first.
    pub fn discriminant_value(&self) -> (res: u8)
        ensures
            res == (if self is Ty {
                0u8
            } else {
                1u8
            }),
    {
        match self {
            Constraint::Ty(_) => 0,
            Constraint::FnCall { .. } => 1,
        }
    }

    /// The constraint that a type is used.
    pub fn from_type_id(value: TypeId) -> (res: Constraint<'a>)
        ensures
            res@ == ConstraintSpec::Ty(value),
    {
        Constraint::Ty(value)
    }

    /// The constraint of a function application: the call it makes.  Only
    /// function applications make constraints this way.
    pub fn from_variant(value: &'a TyExpressionVariant) -> (res: Constraint<'a>)
        requires
            value is FunctionApplication,
        ensures
            res@ == call_constraint(*value),
    {
        match value {
            TyExpressionVariant::FunctionApplication {
                call_path,
                arguments,
                function_decl_id,
                function_type_subst_list,
                ..
            } => Constraint::FnCall {
                call_path,
                decl_id: *function_decl_id,
                subst_list: function_type_subst_list,
                arguments: args_helper(arguments),
            },
            _ => {
                proof {
                    assert(false);
                }
                Constraint::Ty(TypeId(0))
            },
        }
    }
}

/// Whether two constraints are equal relative to a type engine: type uses
/// of the same type, or calls of the same function by the same path, with
/// the same type arguments and argument types.
pub open spec fn constraint_equal(te: &TypeEngine, a: ConstraintSpec, b: ConstraintSpec) -> bool {
    match (a, b) {
        (ConstraintSpec::Ty(l), ConstraintSpec::Ty(r)) => te.same_type(l, r),
        (
            ConstraintSpec::FnCall { call_path: lcp, decl_id: ldi, subst_list: lsl, arguments: la },
            ConstraintSpec::FnCall { call_path: rcp, decl_id: rdi, subst_list: rsl, arguments: ra },
        ) => {
            &&& lcp.same_path(&rcp)
            &&& ldi.index == rdi.index
            &&& te.params_equiv(lsl.list@, rsl.list@)
            &&& la.len() == ra.len()
            &&& forall|i: int| 0 <= i < la.len() ==> te.same_type(#[trigger] la[i], ra[i])
        },
        _ => false,
    }
}

impl<'a> Constraint<'a> {
    pub fn eq(&self, other: &Constraint<'a>, type_engine: &TypeEngine) -> (res: bool)
        ensures
            res == constraint_equal(type_engine, self@, other@),
    {
        match (self, other) {
            (Constraint::Ty(l), Constraint::Ty(r)) => type_engine.eq_types(*l, *r),
            (
                Constraint::FnCall { call_path: lcp, decl_id: ldi, subst_list: lsl, arguments: la },
                Constraint::FnCall { call_path: rcp, decl_id: rdi, subst_list: rsl, arguments: ra },
            ) => {
                if !(lcp.eq(rcp) && ldi.eq(rdi) && lsl.eq(rsl, type_engine) && la.len() == ra.len()) {
                    return false;
                }
                let ghost outcome = constraint_equal(type_engine, self@, other@);
                assert(outcome == forall|j: int| 0 <= j < la@.len() ==> type_engine.same_type(#[trigger] la@[j], ra@[j]));
                let mut i: usize = 0;
                while i < la.len()
                    invariant
                        outcome == constraint_equal(type_engine, self@, other@),
                        outcome == forall|j: int| 0 <= j < la@.len() ==> type_engine.same_type(#[trigger] la@[j], ra@[j]),
                        la@.len() == ra@.len(),
                        0 <= i <= la@.len(),
                        forall|j: int| 0 <= j < i ==> type_engine.same_type(#[trigger] la@[j], ra@[j]),
                    decreases la@.len() - i,
                {
                    if !type_engine.eq_types(la[i], ra[i]) {
                        assert(!type_engine.same_type(la@[i as int], ra@[i as int]));
                        return false;
                    }
                    i = i + 1;
                }
                true
            },
            _ => false,
        }
    }
}

/// Equality of constraints is symmetric.
pub proof fn lemma_constraint_equal_symmetric(te: &TypeEngine, a: ConstraintSpec, b: ConstraintSpec)
    ensures
        constraint_equal(te, a, b) == constraint_equal(te, b, a),
{
    match (a, b) {
        (
            ConstraintSpec::FnCall { call_path: lcp, subst_list: lsl, arguments: la, .. },
            ConstraintSpec::FnCall { call_path: rcp, subst_list: rsl, arguments: ra, .. },
        ) => {
            lemma_same_path_symmetric(lcp, rcp);
            lemma_params_symmetric(te, lsl.list@, rsl.list@);
            if la.len() == ra.len() {
                assert((forall|i: int| 0 <= i < la.len() ==> te.same_type(#[trigger] la[i], ra[i])) == (forall|i: int|
                    0 <= i < ra.len() ==> te.same_type(#[trigger] ra[i], la[i])));
            }
        },
        _ => {},
    }
}

} // verus!
