//! Equality of typed syntax trees relative to a type engine: two trees are
//! equal when they have the same shape and their types are the same types
//! in the engine.
//!
//! A comparison may reach a pair of enum instantiations, which the compiler
//! does not know how to compare: there it stops.  The specifications
//! therefore give the outcome of a comparison as an `Option<bool>`, `None`
//! standing for a comparison that stops, and the executable comparisons
//! require that theirs completes.

use vstd::prelude::*;

use crate::language::ty::{
    AsmOp, AsmRegister, Literal, TyAsmRegisterDeclaration, TyAstNode, TyAstNodeContent, TyCodeBlock, TyDeclaration,
    TyEnumVariant, TyExpression, TyExpressionVariant, TyIntrinsicFunctionKind, TyStorageAccess,
    TyStorageAccessDescriptor, TyStructExpressionField, TyStructField, TyVariableDeclaration, TypeBinding,
};
use crate::span::{CallPath, Ident, Span};
use crate::type_system::{TypeArgument, TypeEngine, TypeParameter};

verus! {

/// Short-circuit conjunction of two comparison outcomes: the second counts
/// only where the first completed with `true`.
pub open spec fn both_outcome(x: Option<bool>, y: Option<bool>) -> Option<bool> {
    if x == Some(true) {
        y
    } else {
        x
    }
}

/// Whether two lists of identifiers name the same things, in order.
pub open spec fn same_ident_names(a: Seq<Ident>, b: Seq<Ident>) -> bool {
    a.len() == b.len() && forall|i: int| 0 <= i < a.len() ==> #[trigger] a[i].name@ == b[i].name@
}

/// Two assembly instructions are equal when they have the same name, the
/// same argument registers and the same immediate.
pub open spec fn asm_op_equal(a: AsmOp, b: AsmOp) -> bool {
    &&& a.op_name.name@ == b.op_name.name@
    &&& same_ident_names(a.op_args@, b.op_args@)
    &&& match (a.immediate, b.immediate) {
        (Some(x), Some(y)) => x.name@ == y.name@,
        (None, None) => true,
        _ => false,
    }
}

pub open spec fn asm_ops_equal(a: Seq<AsmOp>, b: Seq<AsmOp>) -> bool {
    a.len() == b.len() && forall|i: int| 0 <= i < a.len() ==> asm_op_equal(#[trigger] a[i], b[i])
}

/// The returned registers of two assembly blocks are equal when both return
/// the same register from the same span, or neither returns one.
pub open spec fn asm_return_registers_equal(a: Option<(AsmRegister, Span)>, b: Option<(AsmRegister, Span)>) -> bool {
    match (a, b) {
        (Some(x), Some(y)) => x.0.name@ == y.0.name@ && x.1 == y.1,
        (None, None) => true,
        _ => false,
    }
}

/// A type binding is equal to another with the same span and the same
/// types as type arguments.
pub open spec fn binding_equal(te: &TypeEngine, a: TypeBinding, b: TypeBinding) -> bool {
    a.span == b.span && te.type_args_equiv(a.type_arguments@, b.type_arguments@)
}

/// Struct fields are equal when they have the same name and type.
pub open spec fn struct_field_equal(te: &TypeEngine, a: TyStructField, b: TyStructField) -> bool {
    a.name.name@ == b.name.name@ && te.same_type(a.type_id, b.type_id)
}

/// Enum variants are equal when they have the same name, type and tag.
pub open spec fn enum_variant_equal(te: &TypeEngine, a: TyEnumVariant, b: TyEnumVariant) -> bool {
    a.name.name@ == b.name.name@ && te.same_type(a.type_id, b.type_id) && a.tag == b.tag
}

pub open spec fn storage_descriptor_equal(
    te: &TypeEngine,
    a: TyStorageAccessDescriptor,
    b: TyStorageAccessDescriptor,
) -> bool {
    a.name.name@ == b.name.name@ && te.same_type(a.type_id, b.type_id)
}

/// Storage accesses are equal when they reach the same fields, with the
/// same types, at the same index.
pub open spec fn storage_access_equal(te: &TypeEngine, a: TyStorageAccess, b: TyStorageAccess) -> bool {
    &&& a.fields@.len() == b.fields@.len()
    &&& forall|i: int|
        0 <= i < a.fields@.len() ==> storage_descriptor_equal(te, #[trigger] a.fields@[i], b.fields@[i])
    &&& a.ix == b.ix
}

/// The outcome of comparing two expressions: their variants, then their
/// types.
pub open spec fn exp_outcome(te: &TypeEngine, a: TyExpression, b: TyExpression) -> Option<bool>
    decreases a, 0nat,
{
    both_outcome(variant_outcome(te, a.expression, b.expression), Some(te.same_type(a.return_type, b.return_type)))
}

/// The outcome of comparing two lists of expressions: their lengths, then
/// the pairs of expressions from the first on.
pub open spec fn exps_outcome(te: &TypeEngine, a: Seq<TyExpression>, b: Seq<TyExpression>) -> Option<bool>
    decreases a, a.len(),
{
    if a.len() != b.len() {
        Some(false)
    } else if a.len() == 0 {
        Some(true)
    } else {
        both_outcome(
            exp_outcome(te, a[0], b[0]),
            exps_outcome(te, a.subrange(1, a.len() as int), b.subrange(1, b.len() as int)),
        )
    }
}

/// The outcome of comparing two lists of named arguments.
pub open spec fn args_outcome(te: &TypeEngine, a: Seq<(Ident, TyExpression)>, b: Seq<(Ident, TyExpression)>) -> Option<
    bool,
>
    decreases a, a.len(),
{
    if a.len() != b.len() {
        Some(false)
    } else if a.len() == 0 {
        Some(true)
    } else {
        both_outcome(
            both_outcome(Some(a[0].0.name@ == b[0].0.name@), exp_outcome(te, a[0].1, b[0].1)),
            args_outcome(te, a.subrange(1, a.len() as int), b.subrange(1, b.len() as int)),
        )
    }
}

/// The outcome of comparing two lists of struct expression fields.
pub open spec fn fields_outcome(
    te: &TypeEngine,
    a: Seq<TyStructExpressionField>,
    b: Seq<TyStructExpressionField>,
) -> Option<bool>
    decreases a, a.len(),
{
    if a.len() != b.len() {
        Some(false)
    } else if a.len() == 0 {
        Some(true)
    } else {
        both_outcome(
            both_outcome(Some(a[0].name.name@ == b[0].name.name@), exp_outcome(te, a[0].value, b[0].value)),
            fields_outcome(te, a.subrange(1, a.len() as int), b.subrange(1, b.len() as int)),
        )
    }
}

/// The outcome of comparing two lists of register declarations; an
/// initializer counts only where both registers have one.
pub open spec fn registers_outcome(
    te: &TypeEngine,
    a: Seq<TyAsmRegisterDeclaration>,
    b: Seq<TyAsmRegisterDeclaration>,
) -> Option<bool>
    decreases a, a.len(),
{
    if a.len() != b.len() {
        Some(false)
    } else if a.len() == 0 {
        Some(true)
    } else {
        both_outcome(
            both_outcome(
                Some(a[0].name.name@ == b[0].name.name@),
                match (a[0].initializer, b[0].initializer) {
                    (Some(l), Some(r)) => exp_outcome(te, l, r),
                    _ => Some(true),
                },
            ),
            registers_outcome(te, a.subrange(1, a.len() as int), b.subrange(1, b.len() as int)),
        )
    }
}

/// The outcome of comparing two lists of nodes.
pub open spec fn nodes_outcome(te: &TypeEngine, a: Seq<TyAstNode>, b: Seq<TyAstNode>) -> Option<bool>
    decreases a, a.len(),
{
    if a.len() != b.len() {
        Some(false)
    } else if a.len() == 0 {
        Some(true)
    } else {
        both_outcome(
            node_outcome(te, a[0], b[0]),
            nodes_outcome(te, a.subrange(1, a.len() as int), b.subrange(1, b.len() as int)),
        )
    }
}

/// The outcome of comparing two nodes: by their contents.
pub open spec fn node_outcome(te: &TypeEngine, a: TyAstNode, b: TyAstNode) -> Option<bool>
    decreases a, 0nat,
{
    match a.content {
        TyAstNodeContent::Declaration(x) => match b.content {
            TyAstNodeContent::Declaration(y) => decl_outcome(te, x, y),
            _ => Some(false),
        },
        TyAstNodeContent::Expression(x) => match b.content {
            TyAstNodeContent::Expression(y) => exp_outcome(te, x, y),
            _ => Some(false),
        },
        TyAstNodeContent::ImplicitReturnExpression(x) => match b.content {
            TyAstNodeContent::ImplicitReturnExpression(y) => exp_outcome(te, x, y),
            _ => Some(false),
        },
        TyAstNodeContent::SideEffect => Some(b.content is SideEffect),
    }
}

/// The outcome of comparing two variable declarations: names, bodies,
/// then mutability and types.
pub open spec fn var_decl_outcome(te: &TypeEngine, a: TyVariableDeclaration, b: TyVariableDeclaration) -> Option<bool>
    decreases a, 0nat,
{
    both_outcome(
        both_outcome(Some(a.name.name@ == b.name.name@), exp_outcome(te, a.body, b.body)),
        Some(
            a.mutability == b.mutability && te.same_type(a.return_type, b.return_type) && te.same_type(
                a.type_ascription,
                b.type_ascription,
            ),
        ),
    )
}

/// The outcome of comparing two declarations: variables by their parts,
/// the others by their ids (and type arguments), generic types by name and
/// id, and error recoveries by span.
pub open spec fn decl_outcome(te: &TypeEngine, a: TyDeclaration, b: TyDeclaration) -> Option<bool>
    decreases a, 0nat,
{
    match a {
        TyDeclaration::VariableDeclaration(x) => match b {
            TyDeclaration::VariableDeclaration(y) => var_decl_outcome(te, *x, *y),
            _ => Some(false),
        },
        _ => Some(decl_equal_flat(te, a, b)),
    }
}

/// Equality of declarations other than variable declarations.
pub open spec fn decl_equal_flat(te: &TypeEngine, a: TyDeclaration, b: TyDeclaration) -> bool {
    match (a, b) {
        (TyDeclaration::ConstantDeclaration(x), TyDeclaration::ConstantDeclaration(y)) => x.index == y.index,
        (TyDeclaration::FunctionDeclaration(x1, x2), TyDeclaration::FunctionDeclaration(y1, y2)) => x1.index
            == y1.index && te.params_equiv(x2.list@, y2.list@),
        (TyDeclaration::TraitDeclaration(x), TyDeclaration::TraitDeclaration(y)) => x.index == y.index,
        (TyDeclaration::StructDeclaration(x1, x2), TyDeclaration::StructDeclaration(y1, y2)) => x1.index
            == y1.index && te.params_equiv(x2.list@, y2.list@),
        (TyDeclaration::EnumDeclaration(x1, x2), TyDeclaration::EnumDeclaration(y1, y2)) => x1.index == y1.index
            && te.params_equiv(x2.list@, y2.list@),
        (TyDeclaration::ImplTrait(x), TyDeclaration::ImplTrait(y)) => x.index == y.index,
        (TyDeclaration::AbiDeclaration(x), TyDeclaration::AbiDeclaration(y)) => x.index == y.index,
        (TyDeclaration::StorageDeclaration(x), TyDeclaration::StorageDeclaration(y)) => x.index == y.index,
        (
            TyDeclaration::GenericTypeForFunctionScope { name: xn, type_id: xt },
            TyDeclaration::GenericTypeForFunctionScope { name: yn, type_id: yt },
        ) => xn.name@ == yn.name@ && xt == yt,
        (TyDeclaration::ErrorRecovery(x), TyDeclaration::ErrorRecovery(y)) => x == y,
        _ => false,
    }
}

/// The outcome of comparing two intrinsic calls: their kinds, arguments
/// and type arguments.
pub open spec fn intrinsic_outcome(te: &TypeEngine, a: TyIntrinsicFunctionKind, b: TyIntrinsicFunctionKind) -> Option<
    bool,
>
    decreases a, 0nat,
{
    both_outcome(
        both_outcome(Some(a.kind == b.kind), exps_outcome(te, a.arguments@, b.arguments@)),
        Some(te.type_args_equiv(a.type_arguments@, b.type_arguments@)),
    )
}

/// The outcome of comparing two expression variants.  Variants of
/// different kinds differ; so do two `break`s, two `continue`s, two
/// function parameters, two abi names, two reassignments, two storage
/// reassignments and two returns.  Two enum instantiations stop the
/// comparison.  An `if` without an `else` is equal to one with an `else`
/// where conditions and branches agree.
pub open spec fn variant_outcome(te: &TypeEngine, a: TyExpressionVariant, b: TyExpressionVariant) -> Option<bool>
    decreases a, 0nat,
{
    match a {
        TyExpressionVariant::Literal(l) => match b {
            TyExpressionVariant::Literal(r) => Some(l@ == r@),
            _ => Some(false),
        },
        TyExpressionVariant::FunctionApplication { call_path, arguments, function_decl_id, .. } => match b {
            TyExpressionVariant::FunctionApplication {
                call_path: r_call_path,
                arguments: r_arguments,
                function_decl_id: r_function_decl_id,
                ..
            } => both_outcome(
                both_outcome(Some(call_path.same_path(&r_call_path)), args_outcome(te, arguments@, r_arguments@)),
                Some(function_decl_id.index == r_function_decl_id.index),
            ),
            _ => Some(false),
        },
        TyExpressionVariant::LazyOperator { op, lhs, rhs } => match b {
            TyExpressionVariant::LazyOperator { op: r_op, lhs: r_lhs, rhs: r_rhs } => both_outcome(
                both_outcome(Some(op == r_op), exp_outcome(te, *lhs, *r_lhs)),
                exp_outcome(te, *rhs, *r_rhs),
            ),
            _ => Some(false),
        },
        TyExpressionVariant::VariableExpression { name, span, mutability } => match b {
            TyExpressionVariant::VariableExpression { name: r_name, span: r_span, mutability: r_mutability } => Some(
                name.name@ == r_name.name@ && span == r_span && mutability == r_mutability,
            ),
            _ => Some(false),
        },
        TyExpressionVariant::Tuple { fields } => match b {
            TyExpressionVariant::Tuple { fields: r_fields } => exps_outcome(te, fields@, r_fields@),
            _ => Some(false),
        },
        TyExpressionVariant::Array { contents } => match b {
            TyExpressionVariant::Array { contents: r_contents } => exps_outcome(te, contents@, r_contents@),
            _ => Some(false),
        },
        TyExpressionVariant::ArrayIndex { prefix, index } => match b {
            TyExpressionVariant::ArrayIndex { prefix: r_prefix, index: r_index } => both_outcome(
                exp_outcome(te, *prefix, *r_prefix),
                exp_outcome(te, *index, *r_index),
            ),
            _ => Some(false),
        },
        TyExpressionVariant::StructExpression { struct_name, fields, span, type_binding } => match b {
            TyExpressionVariant::StructExpression {
                struct_name: r_struct_name,
                fields: r_fields,
                span: r_span,
                type_binding: r_type_binding,
            } => both_outcome(
                both_outcome(Some(struct_name.name@ == r_struct_name.name@), fields_outcome(te, fields@, r_fields@)),
                Some(span == r_span && binding_equal(te, type_binding, r_type_binding)),
            ),
            _ => Some(false),
        },
        TyExpressionVariant::CodeBlock(l) => match b {
            TyExpressionVariant::CodeBlock(r) => nodes_outcome(te, l.contents@, r.contents@),
            _ => Some(false),
        },
        TyExpressionVariant::IfExp { condition, then, else_branch } => match b {
            TyExpressionVariant::IfExp { condition: r_condition, then: r_then, else_branch: r_else_branch } => {
                both_outcome(
                    both_outcome(exp_outcome(te, *condition, *r_condition), exp_outcome(te, *then, *r_then)),
                    match (else_branch, r_else_branch) {
                        (Some(l), Some(r)) => exp_outcome(te, *l, *r),
                        _ => Some(true),
                    },
                )
            },
            _ => Some(false),
        },
        TyExpressionVariant::AsmExpression { registers, body, return_register, .. } => match b {
            TyExpressionVariant::AsmExpression {
                registers: r_registers,
                body: r_body,
                return_register: r_return_register,
                ..
            } => both_outcome(
                registers_outcome(te, registers@, r_registers@),
                Some(asm_ops_equal(body@, r_body@) && asm_return_registers_equal(return_register, r_return_register)),
            ),
            _ => Some(false),
        },
        TyExpressionVariant::StructFieldAccess { prefix, field_to_access, resolved_type_of_parent, .. } => match b {
            TyExpressionVariant::StructFieldAccess {
                prefix: r_prefix,
                field_to_access: r_field_to_access,
                resolved_type_of_parent: r_resolved_type_of_parent,
                ..
            } => both_outcome(
                exp_outcome(te, *prefix, *r_prefix),
                Some(
                    struct_field_equal(te, field_to_access, r_field_to_access) && te.same_type(
                        resolved_type_of_parent,
                        r_resolved_type_of_parent,
                    ),
                ),
            ),
            _ => Some(false),
        },
        TyExpressionVariant::TupleElemAccess { prefix, elem_to_access_num, resolved_type_of_parent, .. } => match b {
            TyExpressionVariant::TupleElemAccess {
                prefix: r_prefix,
                elem_to_access_num: r_elem_to_access_num,
                resolved_type_of_parent: r_resolved_type_of_parent,
                ..
            } => both_outcome(
                exp_outcome(te, *prefix, *r_prefix),
                Some(
                    elem_to_access_num == r_elem_to_access_num && te.same_type(
                        resolved_type_of_parent,
                        r_resolved_type_of_parent,
                    ),
                ),
            ),
            _ => Some(false),
        },
        TyExpressionVariant::EnumInstantiation { .. } => if b is EnumInstantiation {
            None
        } else {
            Some(false)
        },
        TyExpressionVariant::AbiCast { abi_name, address, .. } => match b {
            TyExpressionVariant::AbiCast { abi_name: r_abi_name, address: r_address, .. } => both_outcome(
                Some(abi_name.same_path(&r_abi_name)),
                exp_outcome(te, *address, *r_address),
            ),
            _ => Some(false),
        },
        TyExpressionVariant::IntrinsicFunction(l) => match b {
            TyExpressionVariant::IntrinsicFunction(r) => intrinsic_outcome(te, l, r),
            _ => Some(false),
        },
        TyExpressionVariant::UnsafeDowncast { exp, variant } => match b {
            TyExpressionVariant::UnsafeDowncast { exp: r_exp, variant: r_variant } => both_outcome(
                exp_outcome(te, *exp, *r_exp),
                Some(enum_variant_equal(te, variant, r_variant)),
            ),
            _ => Some(false),
        },
        TyExpressionVariant::EnumTag { exp } => match b {
            TyExpressionVariant::EnumTag { exp: r_exp } => exp_outcome(te, *exp, *r_exp),
            _ => Some(false),
        },
        TyExpressionVariant::StorageAccess(l) => match b {
            TyExpressionVariant::StorageAccess(r) => Some(storage_access_equal(te, l, r)),
            _ => Some(false),
        },
        TyExpressionVariant::WhileLoop { condition, body } => match b {
            TyExpressionVariant::WhileLoop { condition: r_condition, body: r_body } => both_outcome(
                nodes_outcome(te, body.contents@, r_body.contents@),
                exp_outcome(te, *condition, *r_condition),
            ),
            _ => Some(false),
        },
        _ => Some(false),
    }
}

fn same_opt_names(a: &Option<Ident>, b: &Option<Ident>) -> (res: bool)
    ensures
        res == match (*a, *b) {
            (Some(x), Some(y)) => x.name@ == y.name@,
            (None, None) => true,
            _ => false,
        },
{
    match (a, b) {
        (Some(x), Some(y)) => x.same_name(y),
        (None, None) => true,
        _ => false,
    }
}

impl AsmOp {
    /// Whether two instructions have the same name, arguments and immediate.
    pub fn same_op(&self, other: &AsmOp) -> (res: bool)
        ensures
            res == asm_op_equal(*self, *other),
    {
        self.op_name.same_name(&other.op_name) && crate::span::same_names(&self.op_args, &other.op_args)
            && same_opt_names(&self.immediate, &other.immediate)
    }
}

fn same_asm_ops(a: &Vec<AsmOp>, b: &Vec<AsmOp>) -> (res: bool)
    ensures
        res == asm_ops_equal(a@, b@),
{
    if a.len() != b.len() {
        return false;
    }
    let mut i: usize = 0;
    while i < a.len()
        invariant
            a@.len() == b@.len(),
            0 <= i <= a@.len(),
            forall|j: int| 0 <= j < i ==> asm_op_equal(#[trigger] a@[j], b@[j]),
        decreases a@.len() - i,
    {
        if !a[i].same_op(&b[i]) {
            return false;
        }
        i = i + 1;
    }
    true
}

fn same_return_registers(a: &Option<(AsmRegister, Span)>, b: &Option<(AsmRegister, Span)>) -> (res: bool)
    ensures
        res == asm_return_registers_equal(*a, *b),
{
    match (a, b) {
        (Some(x), Some(y)) => x.0.name == y.0.name && x.1 == y.1,
        (None, None) => true,
        _ => false,
    }
}

impl TypeBinding {
    pub fn eq(&self, other: &TypeBinding, type_engine: &TypeEngine) -> (res: bool)
        ensures
            res == binding_equal(type_engine, *self, *other),
    {
        self.span == other.span && type_engine.eq_type_args(&self.type_arguments, &other.type_arguments)
    }
}

impl TyStructField {
    pub fn eq(&self, other: &TyStructField, type_engine: &TypeEngine) -> (res: bool)
        ensures
            res == struct_field_equal(type_engine, *self, *other),
    {
        self.name.same_name(&other.name) && type_engine.eq_types(self.type_id, other.type_id)
    }
}

impl TyEnumVariant {
    pub fn eq(&self, other: &TyEnumVariant, type_engine: &TypeEngine) -> (res: bool)
        ensures
            res == enum_variant_equal(type_engine, *self, *other),
    {
        self.name.same_name(&other.name) && type_engine.eq_types(self.type_id, other.type_id) && self.tag
            == other.tag
    }
}

impl TyStorageAccess {
    pub fn eq(&self, other: &TyStorageAccess, type_engine: &TypeEngine) -> (res: bool)
        ensures
            res == storage_access_equal(type_engine, *self, *other),
    {
        if self.fields.len() != other.fields.len() {
            return false;
        }
        let mut i: usize = 0;
        while i < self.fields.len()
            invariant
                self.fields@.len() == other.fields@.len(),
                0 <= i <= self.fields@.len(),
                forall|j: int|
                    0 <= j < i ==> storage_descriptor_equal(type_engine, #[trigger] self.fields@[j], other.fields@[j]),
            decreases self.fields@.len() - i,
        {
            if !(self.fields[i].name.same_name(&other.fields[i].name) && type_engine.eq_types(
                self.fields[i].type_id,
                other.fields[i].type_id,
            )) {
                return false;
            }
            i = i + 1;
        }
        self.ix == other.ix
    }
}

impl TyExpression {
    /// Whether two expressions are equal: the same variant, and the same
    /// type in `type_engine`.
    pub fn eq(&self, other: &TyExpression, type_engine: &TypeEngine) -> (res: bool)
        requires
            exp_outcome(type_engine, *self, *other) is Some,
        ensures
            Some(res) == exp_outcome(type_engine, *self, *other),
        decreases *self, 1nat,
    {
        self.expression.eq(&other.expression, type_engine) && type_engine.eq_types(
            self.return_type,
            other.return_type,
        )
    }
}

fn eq_exps(a: &Vec<TyExpression>, b: &Vec<TyExpression>, type_engine: &TypeEngine) -> (res: bool)
    requires
        exps_outcome(type_engine, a@, b@) is Some,
    ensures
        Some(res) == exps_outcome(type_engine, a@, b@),
    decreases a@, a@.len() + 1,
{
    if a.len() != b.len() {
        return false;
    }
    let mut i: usize = 0;
    assert(a@.subrange(0, a@.len() as int) =~= a@);
    assert(b@.subrange(0, b@.len() as int) =~= b@);
    while i < a.len()
        invariant
            a@.len() == b@.len(),
            0 <= i <= a@.len(),
            exps_outcome(type_engine, a@, b@) is Some,
            exps_outcome(type_engine, a@, b@) == exps_outcome(
                type_engine,
                a@.subrange(i as int, a@.len() as int),
                b@.subrange(i as int, b@.len() as int),
            ),
        decreases a@.len() - i,
    {
        let ghost sa = a@.subrange(i as int, a@.len() as int);
        let ghost sb = b@.subrange(i as int, b@.len() as int);
        assert(sa.subrange(1, sa.len() as int) =~= a@.subrange(i + 1, a@.len() as int));
        assert(sb.subrange(1, sb.len() as int) =~= b@.subrange(i + 1, b@.len() as int));
        assert(sa[0] == a@[i as int] && sb[0] == b@[i as int]);
        if !a[i].eq(&b[i], type_engine) {
            return false;
        }
        i = i + 1;
    }
    true
}

fn eq_args(a: &Vec<(Ident, TyExpression)>, b: &Vec<(Ident, TyExpression)>, type_engine: &TypeEngine) -> (res: bool)
    requires
        args_outcome(type_engine, a@, b@) is Some,
    ensures
        Some(res) == args_outcome(type_engine, a@, b@),
    decreases a@, a@.len() + 1,
{
    if a.len() != b.len() {
        return false;
    }
    let mut i: usize = 0;
    assert(a@.subrange(0, a@.len() as int) =~= a@);
    assert(b@.subrange(0, b@.len() as int) =~= b@);
    while i < a.len()
        invariant
            a@.len() == b@.len(),
            0 <= i <= a@.len(),
            args_outcome(type_engine, a@, b@) is Some,
            args_outcome(type_engine, a@, b@) == args_outcome(
                type_engine,
                a@.subrange(i as int, a@.len() as int),
                b@.subrange(i as int, b@.len() as int),
            ),
        decreases a@.len() - i,
    {
        let ghost sa = a@.subrange(i as int, a@.len() as int);
        let ghost sb = b@.subrange(i as int, b@.len() as int);
        assert(sa.subrange(1, sa.len() as int) =~= a@.subrange(i + 1, a@.len() as int));
        assert(sb.subrange(1, sb.len() as int) =~= b@.subrange(i + 1, b@.len() as int));
        assert(sa[0] == a@[i as int] && sb[0] == b@[i as int]);
        if !(a[i].0.same_name(&b[i].0) && a[i].1.eq(&b[i].1, type_engine)) {
            return false;
        }
        i = i + 1;
    }
    true
}

fn eq_fields(a: &Vec<TyStructExpressionField>, b: &Vec<TyStructExpressionField>, type_engine: &TypeEngine) -> (res:
    bool)
    requires
        fields_outcome(type_engine, a@, b@) is Some,
    ensures
        Some(res) == fields_outcome(type_engine, a@, b@),
    decreases a@, a@.len() + 1,
{
    if a.len() != b.len() {
        return false;
    }
    let mut i: usize = 0;
    assert(a@.subrange(0, a@.len() as int) =~= a@);
    assert(b@.subrange(0, b@.len() as int) =~= b@);
    while i < a.len()
        invariant
            a@.len() == b@.len(),
            0 <= i <= a@.len(),
            fields_outcome(type_engine, a@, b@) is Some,
            fields_outcome(type_engine, a@, b@) == fields_outcome(
                type_engine,
                a@.subrange(i as int, a@.len() as int),
                b@.subrange(i as int, b@.len() as int),
            ),
        decreases a@.len() - i,
    {
        let ghost sa = a@.subrange(i as int, a@.len() as int);
        let ghost sb = b@.subrange(i as int, b@.len() as int);
        assert(sa.subrange(1, sa.len() as int) =~= a@.subrange(i + 1, a@.len() as int));
        assert(sb.subrange(1, sb.len() as int) =~= b@.subrange(i + 1, b@.len() as int));
        assert(sa[0] == a@[i as int] && sb[0] == b@[i as int]);
        if !(a[i].name.same_name(&b[i].name) && a[i].value.eq(&b[i].value, type_engine)) {
            return false;
        }
        i = i + 1;
    }
    true
}

impl TyAsmRegisterDeclaration {
    /// Registers are equal when their names are; their initializers count
    /// only where both have one.
    pub fn eq(&self, other: &TyAsmRegisterDeclaration, type_engine: &TypeEngine) -> (res: bool)
        requires
            both_outcome(
                Some(self.name.name@ == other.name.name@),
                match (self.initializer, other.initializer) {
                    (Some(l), Some(r)) => exp_outcome(type_engine, l, r),
                    _ => Some(true),
                },
            ) is Some,
        ensures
            Some(res) == both_outcome(
                Some(self.name.name@ == other.name.name@),
                match (self.initializer, other.initializer) {
                    (Some(l), Some(r)) => exp_outcome(type_engine, l, r),
                    _ => Some(true),
                },
            ),
        decreases *self, 1nat,
    {
        self.name.same_name(&other.name) && match (&self.initializer, &other.initializer) {
            (Some(l), Some(r)) => l.eq(r, type_engine),
            _ => true,
        }
    }
}

fn eq_registers(a: &Vec<TyAsmRegisterDeclaration>, b: &Vec<TyAsmRegisterDeclaration>, type_engine: &TypeEngine) -> (res:
    bool)
    requires
        registers_outcome(type_engine, a@, b@) is Some,
    ensures
        Some(res) == registers_outcome(type_engine, a@, b@),
    decreases a@, a@.len() + 1,
{
    if a.len() != b.len() {
        return false;
    }
    let mut i: usize = 0;
    assert(a@.subrange(0, a@.len() as int) =~= a@);
    assert(b@.subrange(0, b@.len() as int) =~= b@);
    while i < a.len()
        invariant
            a@.len() == b@.len(),
            0 <= i <= a@.len(),
            registers_outcome(type_engine, a@, b@) is Some,
            registers_outcome(type_engine, a@, b@) == registers_outcome(
                type_engine,
                a@.subrange(i as int, a@.len() as int),
                b@.subrange(i as int, b@.len() as int),
            ),
        decreases a@.len() - i,
    {
        let ghost sa = a@.subrange(i as int, a@.len() as int);
        let ghost sb = b@.subrange(i as int, b@.len() as int);
        assert(sa.subrange(1, sa.len() as int) =~= a@.subrange(i + 1, a@.len() as int));
        assert(sb.subrange(1, sb.len() as int) =~= b@.subrange(i + 1, b@.len() as int));
        assert(sa[0] == a@[i as int] && sb[0] == b@[i as int]);
        if !a[i].eq(&b[i], type_engine) {
            return false;
        }
        i = i + 1;
    }
    true
}

fn eq_nodes(a: &Vec<TyAstNode>, b: &Vec<TyAstNode>, type_engine: &TypeEngine) -> (res: bool)
    requires
        nodes_outcome(type_engine, a@, b@) is Some,
    ensures
        Some(res) == nodes_outcome(type_engine, a@, b@),
    decreases a@, a@.len() + 1,
{
    if a.len() != b.len() {
        return false;
    }
    let mut i: usize = 0;
    assert(a@.subrange(0, a@.len() as int) =~= a@);
    assert(b@.subrange(0, b@.len() as int) =~= b@);
    while i < a.len()
        invariant
            a@.len() == b@.len(),
            0 <= i <= a@.len(),
            nodes_outcome(type_engine, a@, b@) is Some,
            nodes_outcome(type_engine, a@, b@) == nodes_outcome(
                type_engine,
                a@.subrange(i as int, a@.len() as int),
                b@.subrange(i as int, b@.len() as int),
            ),
        decreases a@.len() - i,
    {
        let ghost sa = a@.subrange(i as int, a@.len() as int);
        let ghost sb = b@.subrange(i as int, b@.len() as int);
        assert(sa.subrange(1, sa.len() as int) =~= a@.subrange(i + 1, a@.len() as int));
        assert(sb.subrange(1, sb.len() as int) =~= b@.subrange(i + 1, b@.len() as int));
        assert(sa[0] == a@[i as int] && sb[0] == b@[i as int]);
        if !a[i].eq(&b[i], type_engine) {
            return false;
        }
        i = i + 1;
    }
    true
}

impl TyCodeBlock {
    /// Code blocks are equal when their nodes are, in order.
    pub fn eq(&self, other: &TyCodeBlock, type_engine: &TypeEngine) -> (res: bool)
        requires
            nodes_outcome(type_engine, self.contents@, other.contents@) is Some,
        ensures
            Some(res) == nodes_outcome(type_engine, self.contents@, other.contents@),
        decreases *self, 1nat,
    {
        eq_nodes(&self.contents, &other.contents, type_engine)
    }
}

impl TyAstNode {
    /// Nodes are equal when their contents are.
    pub fn eq(&self, other: &TyAstNode, type_engine: &TypeEngine) -> (res: bool)
        requires
            node_outcome(type_engine, *self, *other) is Some,
        ensures
            Some(res) == node_outcome(type_engine, *self, *other),
        decreases *self, 1nat,
    {
        match (&self.content, &other.content) {
            (TyAstNodeContent::Declaration(x), TyAstNodeContent::Declaration(y)) => x.eq(y, type_engine),
            (TyAstNodeContent::Expression(x), TyAstNodeContent::Expression(y)) => x.eq(y, type_engine),
            (
                TyAstNodeContent::ImplicitReturnExpression(x),
                TyAstNodeContent::ImplicitReturnExpression(y),
            ) => x.eq(y, type_engine),
            (TyAstNodeContent::SideEffect, TyAstNodeContent::SideEffect) => true,
            _ => false,
        }
    }
}

impl TyVariableDeclaration {
    pub fn eq(&self, other: &TyVariableDeclaration, type_engine: &TypeEngine) -> (res: bool)
        requires
            var_decl_outcome(type_engine, *self, *other) is Some,
        ensures
            Some(res) == var_decl_outcome(type_engine, *self, *other),
        decreases *self, 1nat,
    {
        self.name.same_name(&other.name) && self.body.eq(&other.body, type_engine) && self.mutability
            == other.mutability && type_engine.eq_types(self.return_type, other.return_type)
            && type_engine.eq_types(self.type_ascription, other.type_ascription)
    }
}

impl TyDeclaration {
    /// Whether two declarations are equal: variable declarations by their
    /// parts, the others by the ids they refer to, with the types they are
    /// instantiated with.
    pub fn eq(&self, other: &TyDeclaration, type_engine: &TypeEngine) -> (res: bool)
        requires
            decl_outcome(type_engine, *self, *other) is Some,
        ensures
            Some(res) == decl_outcome(type_engine, *self, *other),
        decreases *self, 1nat,
    {
        match (self, other) {
            (TyDeclaration::VariableDeclaration(x), TyDeclaration::VariableDeclaration(y)) => x.eq(y, type_engine),
            (TyDeclaration::ConstantDeclaration(x), TyDeclaration::ConstantDeclaration(y)) => x.eq(y),
            (TyDeclaration::FunctionDeclaration(x1, x2), TyDeclaration::FunctionDeclaration(y1, y2)) => x1.eq(y1)
                && x2.eq(y2, type_engine),
            (TyDeclaration::TraitDeclaration(x), TyDeclaration::TraitDeclaration(y)) => x.eq(y),
            (TyDeclaration::StructDeclaration(x1, x2), TyDeclaration::StructDeclaration(y1, y2)) => x1.eq(y1)
                && x2.eq(y2, type_engine),
            (TyDeclaration::EnumDeclaration(x1, x2), TyDeclaration::EnumDeclaration(y1, y2)) => x1.eq(y1) && x2.eq(
                y2,
                type_engine,
            ),
            (TyDeclaration::ImplTrait(x), TyDeclaration::ImplTrait(y)) => x.eq(y),
            (TyDeclaration::AbiDeclaration(x), TyDeclaration::AbiDeclaration(y)) => x.eq(y),
            (TyDeclaration::StorageDeclaration(x), TyDeclaration::StorageDeclaration(y)) => x.eq(y),
            (
                TyDeclaration::GenericTypeForFunctionScope { name: xn, type_id: xt },
                TyDeclaration::GenericTypeForFunctionScope { name: yn, type_id: yt },
            ) => xn.same_name(yn) && *xt == *yt,
            (TyDeclaration::ErrorRecovery(x), TyDeclaration::ErrorRecovery(y)) => *x == *y,
            _ => false,
        }
    }
}

impl TyIntrinsicFunctionKind {
    pub fn eq(&self, other: &TyIntrinsicFunctionKind, type_engine: &TypeEngine) -> (res: bool)
        requires
            intrinsic_outcome(type_engine, *self, *other) is Some,
        ensures
            Some(res) == intrinsic_outcome(type_engine, *self, *other),
        decreases *self, 1nat,
    {
        self.kind == other.kind && eq_exps(&self.arguments, &other.arguments, type_engine)
            && type_engine.eq_type_args(&self.type_arguments, &other.type_arguments)
    }
}

impl TyExpressionVariant {
    /// Whether two expression variants are equal relative to
    /// `type_engine`; see [`variant_outcome`].
    pub fn eq(&self, other: &TyExpressionVariant, type_engine: &TypeEngine) -> (res: bool)
        requires
            variant_outcome(type_engine, *self, *other) is Some,
        ensures
            Some(res) == variant_outcome(type_engine, *self, *other),
        decreases *self, 1nat,
    {
        match (self, other) {
            (TyExpressionVariant::Literal(l), TyExpressionVariant::Literal(r)) => l.same(r),
            (
                TyExpressionVariant::FunctionApplication {
                    call_path: l_name,
                    arguments: l_arguments,
                    function_decl_id: l_function_decl_id,
                    ..
                },
                TyExpressionVariant::FunctionApplication {
                    call_path: r_name,
                    arguments: r_arguments,
                    function_decl_id: r_function_decl_id,
                    ..
                },
            ) => l_name.eq(r_name) && eq_args(l_arguments, r_arguments, type_engine) && l_function_decl_id.eq(
                r_function_decl_id,
            ),
            (
                TyExpressionVariant::LazyOperator { op: l_op, lhs: l_lhs, rhs: l_rhs },
                TyExpressionVariant::LazyOperator { op: r_op, lhs: r_lhs, rhs: r_rhs },
            ) => *l_op == *r_op && l_lhs.eq(r_lhs, type_engine) && l_rhs.eq(r_rhs, type_engine),
            (
                TyExpressionVariant::VariableExpression { name: l_name, span: l_span, mutability: l_mutability },
                TyExpressionVariant::VariableExpression { name: r_name, span: r_span, mutability: r_mutability },
            ) => l_name.same_name(r_name) && *l_span == *r_span && *l_mutability == *r_mutability,
            (TyExpressionVariant::Tuple { fields: l_fields }, TyExpressionVariant::Tuple { fields: r_fields }) => {
                eq_exps(l_fields, r_fields, type_engine)
            },
            (
                TyExpressionVariant::Array { contents: l_contents },
                TyExpressionVariant::Array { contents: r_contents },
            ) => eq_exps(l_contents, r_contents, type_engine),
            (
                TyExpressionVariant::ArrayIndex { prefix: l_prefix, index: l_index },
                TyExpressionVariant::ArrayIndex { prefix: r_prefix, index: r_index },
            ) => l_prefix.eq(r_prefix, type_engine) && l_index.eq(r_index, type_engine),
            (
                TyExpressionVariant::StructExpression {
                    struct_name: l_struct_name,
                    fields: l_fields,
                    span: l_span,
                    type_binding: l_type_binding,
                },
                TyExpressionVariant::StructExpression {
                    struct_name: r_struct_name,
                    fields: r_fields,
                    span: r_span,
                    type_binding: r_type_binding,
                },
            ) => l_struct_name.same_name(r_struct_name) && eq_fields(l_fields, r_fields, type_engine) && *l_span
                == *r_span && l_type_binding.eq(r_type_binding, type_engine),
            (TyExpressionVariant::CodeBlock(l0), TyExpressionVariant::CodeBlock(r0)) => l0.eq(r0, type_engine),
            (
                TyExpressionVariant::IfExp { condition: l_condition, then: l_then, else_branch: l_r },
                TyExpressionVariant::IfExp { condition: r_condition, then: r_then, else_branch: r_r },
            ) => l_condition.eq(r_condition, type_engine) && l_then.eq(r_then, type_engine) && match (l_r, r_r) {
                (Some(l), Some(r)) => l.eq(r, type_engine),
                _ => true,
            },
            (
                TyExpressionVariant::AsmExpression {
                    registers: l_registers,
                    body: l_body,
                    return_register: l_return_register,
                    ..
                },
                TyExpressionVariant::AsmExpression {
                    registers: r_registers,
                    body: r_body,
                    return_register: r_return_register,
                    ..
                },
            ) => eq_registers(l_registers, r_registers, type_engine) && same_asm_ops(l_body, r_body)
                && same_return_registers(l_return_register, r_return_register),
            (
                TyExpressionVariant::StructFieldAccess {
                    prefix: l_prefix,
                    field_to_access: l_field_to_access,
                    resolved_type_of_parent: l_resolved_type_of_parent,
                    ..
                },
                TyExpressionVariant::StructFieldAccess {
                    prefix: r_prefix,
                    field_to_access: r_field_to_access,
                    resolved_type_of_parent: r_resolved_type_of_parent,
                    ..
                },
            ) => l_prefix.eq(r_prefix, type_engine) && l_field_to_access.eq(r_field_to_access, type_engine)
                && type_engine.eq_types(*l_resolved_type_of_parent, *r_resolved_type_of_parent),
            (
                TyExpressionVariant::TupleElemAccess {
                    prefix: l_prefix,
                    elem_to_access_num: l_elem_to_access_num,
                    resolved_type_of_parent: l_resolved_type_of_parent,
                    ..
                },
                TyExpressionVariant::TupleElemAccess {
                    prefix: r_prefix,
                    elem_to_access_num: r_elem_to_access_num,
                    resolved_type_of_parent: r_resolved_type_of_parent,
                    ..
                },
            ) => l_prefix.eq(r_prefix, type_engine) && *l_elem_to_access_num == *r_elem_to_access_num
                && type_engine.eq_types(*l_resolved_type_of_parent, *r_resolved_type_of_parent),
            (
                TyExpressionVariant::AbiCast { abi_name: l_abi_name, address: l_address, .. },
                TyExpressionVariant::AbiCast { abi_name: r_abi_name, address: r_address, .. },
            ) => l_abi_name.eq(r_abi_name) && l_address.eq(r_address, type_engine),
            (TyExpressionVariant::IntrinsicFunction(l_kind), TyExpressionVariant::IntrinsicFunction(r_kind)) => {
                l_kind.eq(r_kind, type_engine)
            },
            (
                TyExpressionVariant::UnsafeDowncast { exp: l_exp, variant: l_variant },
                TyExpressionVariant::UnsafeDowncast { exp: r_exp, variant: r_variant },
            ) => l_exp.eq(r_exp, type_engine) && l_variant.eq(r_variant, type_engine),
            (TyExpressionVariant::EnumTag { exp: l_exp }, TyExpressionVariant::EnumTag { exp: r_exp }) => {
                l_exp.eq(r_exp, type_engine)
            },
            (TyExpressionVariant::StorageAccess(l_exp), TyExpressionVariant::StorageAccess(r_exp)) => {
                l_exp.eq(r_exp, type_engine)
            },
            (
                TyExpressionVariant::WhileLoop { body: l_body, condition: l_condition },
                TyExpressionVariant::WhileLoop { body: r_body, condition: r_condition },
            ) => l_body.eq(r_body, type_engine) && l_condition.eq(r_condition, type_engine),
            _ => false,
        }
    }
}

/// Naming the same symbol in the same way is symmetric.
pub proof fn lemma_same_path_symmetric(a: CallPath, b: CallPath)
    ensures
        a.same_path(&b) == b.same_path(&a),
{
    if a.same_path(&b) {
        assert forall|i: int| 0 <= i < b.prefixes@.len() implies #[trigger] b.prefixes@[i].name@
            == a.prefixes@[i].name@ by {
            assert(a.prefixes@[i].name@ == b.prefixes@[i].name@);
        }
    }
    if b.same_path(&a) {
        assert forall|i: int| 0 <= i < a.prefixes@.len() implies #[trigger] a.prefixes@[i].name@
            == b.prefixes@[i].name@ by {
            assert(b.prefixes@[i].name@ == a.prefixes@[i].name@);
        }
    }
}

proof fn lemma_type_args_symmetric(te: &TypeEngine, a: Seq<TypeArgument>, b: Seq<TypeArgument>)
    ensures
        te.type_args_equiv(a, b) == te.type_args_equiv(b, a),
{
    if te.type_args_equiv(a, b) {
        assert forall|i: int| 0 <= i < b.len() implies te.same_type(#[trigger] b[i].type_id, a[i].type_id) by {
            assert(te.same_type(a[i].type_id, b[i].type_id));
        }
    }
    if te.type_args_equiv(b, a) {
        assert forall|i: int| 0 <= i < a.len() implies te.same_type(#[trigger] a[i].type_id, b[i].type_id) by {
            assert(te.same_type(b[i].type_id, a[i].type_id));
        }
    }
}

proof fn lemma_param_symmetric(te: &TypeEngine, a: TypeParameter, b: TypeParameter)
    ensures
        te.param_equiv(a, b) == te.param_equiv(b, a),
{
    let ca = a.trait_constraints@;
    let cb = b.trait_constraints@;
    assert forall|i: int| 0 <= i < ca.len() && i < cb.len() implies te.constraint_equiv(#[trigger] ca[i], cb[i])
        == te.constraint_equiv(cb[i], ca[i]) by {
        lemma_same_path_symmetric(ca[i].trait_name, cb[i].trait_name);
        lemma_type_args_symmetric(te, ca[i].type_arguments@, cb[i].type_arguments@);
    }
    if te.constraints_equiv(ca, cb) {
        assert forall|i: int| 0 <= i < cb.len() implies te.constraint_equiv(#[trigger] cb[i], ca[i]) by {
            assert(te.constraint_equiv(ca[i], cb[i]));
        }
    }
    if te.constraints_equiv(cb, ca) {
        assert forall|i: int| 0 <= i < ca.len() implies te.constraint_equiv(#[trigger] ca[i], cb[i]) by {
            assert(te.constraint_equiv(cb[i], ca[i]));
        }
    }
}

/// Equality of lists of type parameters (and so of substitution lists) is
/// symmetric.
pub proof fn lemma_params_symmetric(te: &TypeEngine, a: Seq<TypeParameter>, b: Seq<TypeParameter>)
    ensures
        te.params_equiv(a, b) == te.params_equiv(b, a),
{
    assert forall|i: int| 0 <= i < a.len() && i < b.len() implies te.param_equiv(#[trigger] a[i], b[i])
        == te.param_equiv(b[i], a[i]) by {
        lemma_param_symmetric(te, a[i], b[i]);
    }
    if te.params_equiv(a, b) {
        assert forall|i: int| 0 <= i < b.len() implies te.param_equiv(#[trigger] b[i], a[i]) by {
            assert(te.param_equiv(a[i], b[i]));
        }
    }
    if te.params_equiv(b, a) {
        assert forall|i: int| 0 <= i < a.len() implies te.param_equiv(#[trigger] a[i], b[i]) by {
            assert(te.param_equiv(b[i], a[i]));
        }
    }
}

proof fn lemma_flat_equalities_symmetric(te: &TypeEngine)
    ensures
        forall|a: AsmOp, b: AsmOp| #[trigger] asm_op_equal(a, b) == asm_op_equal(b, a),
        forall|a: Seq<AsmOp>, b: Seq<AsmOp>| #[trigger] asm_ops_equal(a, b) == asm_ops_equal(b, a),
        forall|a: TyStorageAccess, b: TyStorageAccess| #[trigger] storage_access_equal(te, a, b)
            == storage_access_equal(te, b, a),
        forall|a: TypeBinding, b: TypeBinding| #[trigger] binding_equal(te, a, b) == binding_equal(te, b, a),
        forall|a: TyDeclaration, b: TyDeclaration| #[trigger] decl_equal_flat(te, a, b) == decl_equal_flat(te, b, a),
{
    assert forall|a: AsmOp, b: AsmOp| #[trigger] asm_op_equal(a, b) == asm_op_equal(b, a) by {
        if same_ident_names(a.op_args@, b.op_args@) {
            assert forall|i: int| 0 <= i < b.op_args@.len() implies #[trigger] b.op_args@[i].name@
                == a.op_args@[i].name@ by {
                assert(a.op_args@[i].name@ == b.op_args@[i].name@);
            }
        }
        if same_ident_names(b.op_args@, a.op_args@) {
            assert forall|i: int| 0 <= i < a.op_args@.len() implies #[trigger] a.op_args@[i].name@
                == b.op_args@[i].name@ by {
                assert(b.op_args@[i].name@ == a.op_args@[i].name@);
            }
        }
    }
    assert forall|a: Seq<AsmOp>, b: Seq<AsmOp>| #[trigger] asm_ops_equal(a, b) == asm_ops_equal(b, a) by {
        if asm_ops_equal(a, b) {
            assert forall|i: int| 0 <= i < b.len() implies asm_op_equal(#[trigger] b[i], a[i]) by {
                assert(asm_op_equal(a[i], b[i]));
            }
        }
        if asm_ops_equal(b, a) {
            assert forall|i: int| 0 <= i < a.len() implies asm_op_equal(#[trigger] a[i], b[i]) by {
                assert(asm_op_equal(b[i], a[i]));
            }
        }
    }
    assert forall|a: TyStorageAccess, b: TyStorageAccess| #[trigger] storage_access_equal(te, a, b)
        == storage_access_equal(te, b, a) by {
        if storage_access_equal(te, a, b) {
            assert forall|i: int| 0 <= i < b.fields@.len() implies storage_descriptor_equal(
                te,
                #[trigger] b.fields@[i],
                a.fields@[i],
            ) by {
                assert(storage_descriptor_equal(te, a.fields@[i], b.fields@[i]));
            }
        }
        if storage_access_equal(te, b, a) {
            assert forall|i: int| 0 <= i < a.fields@.len() implies storage_descriptor_equal(
                te,
                #[trigger] a.fields@[i],
                b.fields@[i],
            ) by {
                assert(storage_descriptor_equal(te, b.fields@[i], a.fields@[i]));
            }
        }
    }
    assert forall|a: TypeBinding, b: TypeBinding| #[trigger] binding_equal(te, a, b) == binding_equal(te, b, a) by {
        lemma_type_args_symmetric(te, a.type_arguments@, b.type_arguments@);
    }
    assert forall|a: TyDeclaration, b: TyDeclaration| #[trigger] decl_equal_flat(te, a, b) == decl_equal_flat(
        te,
        b,
        a,
    ) by {
        match (a, b) {
            (TyDeclaration::FunctionDeclaration(_, x), TyDeclaration::FunctionDeclaration(_, y)) => {
                lemma_params_symmetric(te, x.list@, y.list@);
            },
            (TyDeclaration::StructDeclaration(_, x), TyDeclaration::StructDeclaration(_, y)) => {
                lemma_params_symmetric(te, x.list@, y.list@);
            },
            (TyDeclaration::EnumDeclaration(_, x), TyDeclaration::EnumDeclaration(_, y)) => {
                lemma_params_symmetric(te, x.list@, y.list@);
            },
            _ => {},
        }
    }
}

proof fn lemma_exps_symmetric(te: &TypeEngine, a: Seq<TyExpression>, b: Seq<TyExpression>)
    ensures
        exps_outcome(te, a, b) == exps_outcome(te, b, a),
    decreases a, 0nat,
{
    if a.len() == b.len() && a.len() > 0 {
        lemma_exp_outcome_symmetric(te, a[0], b[0]);
        lemma_exps_symmetric(te, a.subrange(1, a.len() as int), b.subrange(1, b.len() as int));
    }
}

proof fn lemma_args_symmetric(te: &TypeEngine, a: Seq<(Ident, TyExpression)>, b: Seq<(Ident, TyExpression)>)
    ensures
        args_outcome(te, a, b) == args_outcome(te, b, a),
    decreases a, 0nat,
{
    if a.len() == b.len() && a.len() > 0 {
        lemma_exp_outcome_symmetric(te, a[0].1, b[0].1);
        lemma_args_symmetric(te, a.subrange(1, a.len() as int), b.subrange(1, b.len() as int));
    }
}

proof fn lemma_fields_symmetric(te: &TypeEngine, a: Seq<TyStructExpressionField>, b: Seq<TyStructExpressionField>)
    ensures
        fields_outcome(te, a, b) == fields_outcome(te, b, a),
    decreases a, 0nat,
{
    if a.len() == b.len() && a.len() > 0 {
        lemma_exp_outcome_symmetric(te, a[0].value, b[0].value);
        lemma_fields_symmetric(te, a.subrange(1, a.len() as int), b.subrange(1, b.len() as int));
    }
}

proof fn lemma_nodes_symmetric(te: &TypeEngine, a: Seq<TyAstNode>, b: Seq<TyAstNode>)
    ensures
        nodes_outcome(te, a, b) == nodes_outcome(te, b, a),
    decreases a, 0nat,
{
    if a.len() == b.len() && a.len() > 0 {
        lemma_node_symmetric(te, a[0], b[0]);
        lemma_nodes_symmetric(te, a.subrange(1, a.len() as int), b.subrange(1, b.len() as int));
    }
}

proof fn lemma_registers_symmetric(te: &TypeEngine, a: Seq<TyAsmRegisterDeclaration>, b: Seq<TyAsmRegisterDeclaration>)
    ensures
        registers_outcome(te, a, b) == registers_outcome(te, b, a),
    decreases a, 0nat,
{
    if a.len() == b.len() && a.len() > 0 {
        match (a[0].initializer, b[0].initializer) {
            (Some(l), Some(r)) => lemma_exp_outcome_symmetric(te, l, r),
            _ => {},
        }
        lemma_registers_symmetric(te, a.subrange(1, a.len() as int), b.subrange(1, b.len() as int));
    }
}

proof fn lemma_node_symmetric(te: &TypeEngine, a: TyAstNode, b: TyAstNode)
    ensures
        node_outcome(te, a, b) == node_outcome(te, b, a),
    decreases a, 0nat,
{
    match (a.content, b.content) {
        (TyAstNodeContent::Declaration(x), TyAstNodeContent::Declaration(y)) => lemma_decl_symmetric(te, x, y),
        (TyAstNodeContent::Expression(x), TyAstNodeContent::Expression(y)) => lemma_exp_outcome_symmetric(te, x, y),
        (
            TyAstNodeContent::ImplicitReturnExpression(x),
            TyAstNodeContent::ImplicitReturnExpression(y),
        ) => lemma_exp_outcome_symmetric(te, x, y),
        _ => {},
    }
}

/// Comparing two declarations gives the same outcome in either order.
pub proof fn lemma_decl_symmetric(te: &TypeEngine, a: TyDeclaration, b: TyDeclaration)
    ensures
        decl_outcome(te, a, b) == decl_outcome(te, b, a),
    decreases a, 0nat,
{
    lemma_flat_equalities_symmetric(te);
    match (a, b) {
        (TyDeclaration::VariableDeclaration(x), TyDeclaration::VariableDeclaration(y)) => {
            lemma_exp_outcome_symmetric(te, x.body, y.body);
        },
        _ => {
            assert(decl_equal_flat(te, a, b) == decl_equal_flat(te, b, a));
        },
    }
}

/// Comparing two expressions gives the same outcome in either order: the
/// equality of expressions is symmetric, and a comparison stops in one
/// order exactly when it stops in the other.
pub proof fn lemma_exp_outcome_symmetric(te: &TypeEngine, a: TyExpression, b: TyExpression)
    ensures
        exp_outcome(te, a, b) == exp_outcome(te, b, a),
    decreases a, 1nat,
{
    lemma_variant_outcome_symmetric(te, a.expression, b.expression);
}

/// Comparing two expression variants gives the same outcome in either
/// order.
pub proof fn lemma_variant_outcome_symmetric(te: &TypeEngine, a: TyExpressionVariant, b: TyExpressionVariant)
    ensures
        variant_outcome(te, a, b) == variant_outcome(te, b, a),
    decreases a, 0nat,
{
    lemma_flat_equalities_symmetric(te);
    match a {
        TyExpressionVariant::FunctionApplication { call_path, arguments, .. } => match b {
            TyExpressionVariant::FunctionApplication { call_path: r_call_path, arguments: r_arguments, .. } => {
                lemma_same_path_symmetric(call_path, r_call_path);
                lemma_args_symmetric(te, arguments@, r_arguments@);
            },
            _ => {},
        },
        TyExpressionVariant::LazyOperator { lhs, rhs, .. } => match b {
            TyExpressionVariant::LazyOperator { lhs: r_lhs, rhs: r_rhs, .. } => {
                lemma_exp_outcome_symmetric(te, *lhs, *r_lhs);
                lemma_exp_outcome_symmetric(te, *rhs, *r_rhs);
            },
            _ => {},
        },
        TyExpressionVariant::Tuple { fields } => match b {
            TyExpressionVariant::Tuple { fields: r_fields } => lemma_exps_symmetric(te, fields@, r_fields@),
            _ => {},
        },
        TyExpressionVariant::Array { contents } => match b {
            TyExpressionVariant::Array { contents: r_contents } => lemma_exps_symmetric(te, contents@, r_contents@),
            _ => {},
        },
        TyExpressionVariant::ArrayIndex { prefix, index } => match b {
            TyExpressionVariant::ArrayIndex { prefix: r_prefix, index: r_index } => {
                lemma_exp_outcome_symmetric(te, *prefix, *r_prefix);
                lemma_exp_outcome_symmetric(te, *index, *r_index);
            },
            _ => {},
        },
        TyExpressionVariant::StructExpression { fields, type_binding, .. } => match b {
            TyExpressionVariant::StructExpression { fields: r_fields, type_binding: r_type_binding, .. } => {
                lemma_fields_symmetric(te, fields@, r_fields@);
                assert(binding_equal(te, type_binding, r_type_binding) == binding_equal(te, r_type_binding, type_binding));
            },
            _ => {},
        },
        TyExpressionVariant::CodeBlock(l) => match b {
            TyExpressionVariant::CodeBlock(r) => lemma_nodes_symmetric(te, l.contents@, r.contents@),
            _ => {},
        },
        TyExpressionVariant::IfExp { condition, then, else_branch } => match b {
            TyExpressionVariant::IfExp { condition: r_condition, then: r_then, else_branch: r_else_branch } => {
                lemma_exp_outcome_symmetric(te, *condition, *r_condition);
                lemma_exp_outcome_symmetric(te, *then, *r_then);
                match (else_branch, r_else_branch) {
                    (Some(l), Some(r)) => lemma_exp_outcome_symmetric(te, *l, *r),
                    _ => {},
                }
            },
            _ => {},
        },
        TyExpressionVariant::AsmExpression { registers, body, .. } => match b {
            TyExpressionVariant::AsmExpression { registers: r_registers, body: r_body, .. } => {
                lemma_registers_symmetric(te, registers@, r_registers@);
                assert(asm_ops_equal(body@, r_body@) == asm_ops_equal(r_body@, body@));
            },
            _ => {},
        },
        TyExpressionVariant::StructFieldAccess { prefix, .. } => match b {
            TyExpressionVariant::StructFieldAccess { prefix: r_prefix, .. } => {
                lemma_exp_outcome_symmetric(te, *prefix, *r_prefix);
            },
            _ => {},
        },
        TyExpressionVariant::TupleElemAccess { prefix, .. } => match b {
            TyExpressionVariant::TupleElemAccess { prefix: r_prefix, .. } => {
                lemma_exp_outcome_symmetric(te, *prefix, *r_prefix);
            },
            _ => {},
        },
        TyExpressionVariant::AbiCast { abi_name, address, .. } => match b {
            TyExpressionVariant::AbiCast { abi_name: r_abi_name, address: r_address, .. } => {
                lemma_same_path_symmetric(abi_name, r_abi_name);
                lemma_exp_outcome_symmetric(te, *address, *r_address);
            },
            _ => {},
        },
        TyExpressionVariant::IntrinsicFunction(l) => match b {
            TyExpressionVariant::IntrinsicFunction(r) => {
                lemma_exps_symmetric(te, l.arguments@, r.arguments@);
                lemma_type_args_symmetric(te, l.type_arguments@, r.type_arguments@);
            },
            _ => {},
        },
        TyExpressionVariant::UnsafeDowncast { exp, .. } => match b {
            TyExpressionVariant::UnsafeDowncast { exp: r_exp, .. } => {
                lemma_exp_outcome_symmetric(te, *exp, *r_exp);
            },
            _ => {},
        },
        TyExpressionVariant::EnumTag { exp } => match b {
            TyExpressionVariant::EnumTag { exp: r_exp } => lemma_exp_outcome_symmetric(te, *exp, *r_exp),
            _ => {},
        },
        TyExpressionVariant::StorageAccess(l) => match b {
            TyExpressionVariant::StorageAccess(r) => {
                assert(storage_access_equal(te, l, r) == storage_access_equal(te, r, l));
            },
            _ => {},
        },
        TyExpressionVariant::WhileLoop { condition, body } => match b {
            TyExpressionVariant::WhileLoop { condition: r_condition, body: r_body } => {
                lemma_nodes_symmetric(te, body.contents@, r_body.contents@);
                lemma_exp_outcome_symmetric(te, *condition, *r_condition);
            },
            _ => {},
        },
        _ => {},
    }
}


/// Two accesses to different elements of a tuple are never equal, whatever
/// their prefixes and types.
pub proof fn lemma_different_tuple_elements_differ(te: &TypeEngine, a: TyExpressionVariant, b: TyExpressionVariant)
    requires
        a is TupleElemAccess,
        b is TupleElemAccess,
        a->TupleElemAccess_elem_to_access_num != b->TupleElemAccess_elem_to_access_num,
    ensures
        variant_outcome(te, a, b) != Some(true),
{
}


/// The kind of an expression variant, as a number.
pub open spec fn variant_kind(v: TyExpressionVariant) -> nat {
    match v {
        TyExpressionVariant::Literal(_) => 0,
        TyExpressionVariant::FunctionApplication { .. } => 1,
        TyExpressionVariant::LazyOperator { .. } => 2,
        TyExpressionVariant::VariableExpression { .. } => 3,
        TyExpressionVariant::Tuple { .. } => 4,
        TyExpressionVariant::Array { .. } => 5,
        TyExpressionVariant::ArrayIndex { .. } => 6,
        TyExpressionVariant::StructExpression { .. } => 7,
        TyExpressionVariant::CodeBlock(_) => 8,
        TyExpressionVariant::FunctionParameter => 9,
        TyExpressionVariant::IfExp { .. } => 10,
        TyExpressionVariant::AsmExpression { .. } => 11,
        TyExpressionVariant::StructFieldAccess { .. } => 12,
        TyExpressionVariant::TupleElemAccess { .. } => 13,
        TyExpressionVariant::EnumInstantiation { .. } => 14,
        TyExpressionVariant::AbiCast { .. } => 15,
        TyExpressionVariant::StorageAccess(_) => 16,
        TyExpressionVariant::IntrinsicFunction(_) => 17,
        TyExpressionVariant::AbiName(_) => 18,
        TyExpressionVariant::EnumTag { .. } => 19,
        TyExpressionVariant::UnsafeDowncast { .. } => 20,
        TyExpressionVariant::WhileLoop { .. } => 21,
        TyExpressionVariant::Break => 22,
        TyExpressionVariant::Continue => 23,
        TyExpressionVariant::Reassignment(_) => 24,
        TyExpressionVariant::StorageReassignment(_) => 25,
        TyExpressionVariant::Return(_) => 26,
    }
}

/// Expressions of different kinds are never equal.
pub proof fn lemma_equal_variants_have_one_kind(te: &TypeEngine, a: TyExpressionVariant, b: TyExpressionVariant)
    requires
        variant_outcome(te, a, b) == Some(true),
    ensures
        variant_kind(a) == variant_kind(b),
{
}

/// Equal tuple element accesses and equal struct field accesses read the
/// same element or field.
pub proof fn lemma_equal_accesses_read_the_same_part(
    te: &TypeEngine,
    a: TyExpressionVariant,
    b: TyExpressionVariant,
)
    requires
        variant_outcome(te, a, b) == Some(true),
    ensures
        a is TupleElemAccess ==> b is TupleElemAccess && a->TupleElemAccess_elem_to_access_num
            == b->TupleElemAccess_elem_to_access_num,
        a is StructFieldAccess ==> b is StructFieldAccess
            && a->StructFieldAccess_field_to_access.name.name@ == b->StructFieldAccess_field_to_access.name.name@,
{
}

} // verus!
