//! The typed syntax tree: expressions, code blocks, nodes and declarations.

use vstd::prelude::*;

use crate::decl_engine::DeclId;
use crate::span::{CallPath, Ident, Span};
use crate::type_system::{TypeArgument, TypeId, TypeSubstList};

verus! {

#[derive(Clone, Copy, Debug, PartialEq, Eq, Structural, Hash)]
pub enum Visibility {
    Private,
    Public,
}

#[derive(Clone, Copy, Debug, PartialEq, Eq, Structural, Hash)]
pub enum VariableMutability {
    Mutable,
    RefMutable,
    Immutable,
}

impl VariableMutability {
    /// The visibility of a variable: variables are private.
    pub fn visibility(&self) -> (res: Visibility)
        ensures
            res == Visibility::Private,
    {
        Visibility::Private
    }
}

#[derive(Clone, Copy, Debug, PartialEq, Eq, Structural, Hash)]
pub enum LazyOp {
    And,
    Or,
}

/// A literal value.
#[derive(Debug)]
pub enum Literal {
    U8(u8),
    U16(u16),
    U32(u32),
    U64(u64),
    String(String),
    Boolean(bool),
    B256(Vec<u8>),
}

pub enum LiteralView {
    U8(u8),
    U16(u16),
    U32(u32),
    U64(u64),
    String(Seq<char>),
    Boolean(bool),
    B256(Seq<u8>),
}

impl View for Literal {
    type V = LiteralView;

    open spec fn view(&self) -> LiteralView {
        match self {
            Literal::U8(n) => LiteralView::U8(*n),
            Literal::U16(n) => LiteralView::U16(*n),
            Literal::U32(n) => LiteralView::U32(*n),
            Literal::U64(n) => LiteralView::U64(*n),
            Literal::String(s) => LiteralView::String(s@),
            Literal::Boolean(b) => LiteralView::Boolean(*b),
            Literal::B256(bs) => LiteralView::B256(bs@),
        }
    }
}

fn copy_bytes(a: &Vec<u8>) -> (res: Vec<u8>)
    ensures
        res@ == a@,
{
    let mut res: Vec<u8> = Vec::new();
    let mut i: usize = 0;
    while i < a.len()
        invariant
            0 <= i <= a@.len(),
            res@ =~= a@.subrange(0, i as int),
        decreases a@.len() - i,
    {
        res.push(a[i]);
        i = i + 1;
    }
    assert(res@ =~= a@);
    res
}

fn same_bytes(a: &Vec<u8>, b: &Vec<u8>) -> (res: bool)
    ensures
        res == (a@ == b@),
{
    if a.len() != b.len() {
        return false;
    }
    let mut i: usize = 0;
    while i < a.len()
        invariant
            a@.len() == b@.len(),
            0 <= i <= a@.len(),
            forall|j: int| 0 <= j < i ==> a@[j] == b@[j],
        decreases a@.len() - i,
    {
        if a[i] != b[i] {
            return false;
        }
        i = i + 1;
    }
    assert(a@ =~= b@);
    true
}

impl Literal {
    /// Whether two literals are the same value of the same kind.
    pub fn same(&self, other: &Literal) -> (res: bool)
        ensures
            res == (self@ == other@),
    {
        match (self, other) {
            (Literal::U8(l), Literal::U8(r)) => *l == *r,
            (Literal::U16(l), Literal::U16(r)) => *l == *r,
            (Literal::U32(l), Literal::U32(r)) => *l == *r,
            (Literal::U64(l), Literal::U64(r)) => *l == *r,
            (Literal::String(l), Literal::String(r)) => *l == *r,
            (Literal::Boolean(l), Literal::Boolean(r)) => *l == *r,
            (Literal::B256(l), Literal::B256(r)) => same_bytes(l, r),
            _ => false,
        }
    }

    pub fn duplicate(&self) -> (res: Literal)
        ensures
            res@ == self@,
    {
        match self {
            Literal::U8(n) => Literal::U8(*n),
            Literal::U16(n) => Literal::U16(*n),
            Literal::U32(n) => Literal::U32(*n),
            Literal::U64(n) => Literal::U64(*n),
            Literal::String(s) => Literal::String(s.clone()),
            Literal::Boolean(b) => Literal::Boolean(*b),
            Literal::B256(bs) => Literal::B256(copy_bytes(bs)),
        }
    }
}

/// The kind of an attribute.
#[derive(Clone, Copy, Debug, PartialEq, Eq, Structural, Hash)]
pub enum AttributeKind {
    Doc,
    Storage,
    Inline,
    Test,
    Payable,
    Allow,
}

#[derive(Debug)]
pub struct Attribute {
    pub name: Ident,
    pub args: Vec<Ident>,
}

/// The attributes of an item, each with its kind.
#[derive(Debug)]
pub struct AttributesMap {
    pub attributes: Vec<(AttributeKind, Attribute)>,
}

impl AttributesMap {
    /// Whether an attribute of kind `kind` is present.
    pub open spec fn has_kind(&self, kind: AttributeKind) -> bool {
        exists|i: int| 0 <= i < self.attributes@.len() && #[trigger] self.attributes@[i].0 == kind
    }

    pub fn contains_kind(&self, kind: AttributeKind) -> (res: bool)
        ensures
            res == self.has_kind(kind),
    {
        let mut i: usize = 0;
        while i < self.attributes.len()
            invariant
                0 <= i <= self.attributes@.len(),
                forall|j: int| 0 <= j < i ==> #[trigger] self.attributes@[j].0 != kind,
            decreases self.attributes@.len() - i,
        {
            if self.attributes[i].0 == kind {
                return true;
            }
            i = i + 1;
        }
        false
    }
}

/// Binding information of a path with type arguments.
#[derive(Debug)]
pub struct TypeBinding {
    pub type_arguments: Vec<TypeArgument>,
    pub span: Span,
}

/// The contract call parameters of a function application.
#[derive(Debug)]
pub struct ContractCallParams {
    pub func_selector: Vec<u8>,
    pub contract_address: Box<TyExpression>,
}

#[derive(Debug)]
pub struct TyStructExpressionField {
    pub name: Ident,
    pub value: TyExpression,
}

#[derive(Debug)]
pub struct TyStructField {
    pub name: Ident,
    pub type_id: TypeId,
    pub initial_type_id: TypeId,
    pub span: Span,
    pub type_span: Span,
    pub attributes: AttributesMap,
}

#[derive(Debug)]
pub struct AsmRegister {
    pub name: String,
}

#[derive(Debug)]
pub struct AsmOp {
    pub op_name: Ident,
    pub op_args: Vec<Ident>,
    pub immediate: Option<Ident>,
    pub span: Span,
}

#[derive(Debug)]
pub struct TyAsmRegisterDeclaration {
    pub initializer: Option<TyExpression>,
    pub name: Ident,
}

#[derive(Debug)]
pub struct TyEnumVariant {
    pub name: Ident,
    pub type_id: TypeId,
    pub initial_type_id: TypeId,
    pub type_span: Span,
    pub tag: usize,
    pub span: Span,
    pub attributes: AttributesMap,
}

/// One field of a storage access.
#[derive(Debug)]
pub struct TyStorageAccessDescriptor {
    pub name: Ident,
    pub type_id: TypeId,
    pub span: Span,
}

#[derive(Debug)]
pub struct TyStorageAccess {
    pub fields: Vec<TyStorageAccessDescriptor>,
    pub ix: u64,
}

#[derive(Clone, Copy, Debug, PartialEq, Eq, Structural, Hash)]
pub enum Intrinsic {
    SizeOfType,
    SizeOfVal,
    Eq,
    Gtf,
    AddrOf,
    StateLoadWord,
    Log,
    Add,
    Sub,
    Revert,
}

#[derive(Debug)]
pub struct TyIntrinsicFunctionKind {
    pub kind: Intrinsic,
    pub arguments: Vec<TyExpression>,
    pub type_arguments: Vec<TypeArgument>,
    pub span: Span,
}

#[derive(Debug)]
pub enum AbiName {
    Deferred,
    Known(CallPath),
}

#[derive(Debug)]
pub enum ProjectionKind {
    StructField { name: Ident },
    TupleField { index: usize, index_span: Span },
    ArrayIndex { index: Box<TyExpression>, index_span: Span },
}

#[derive(Debug)]
pub struct TyReassignment {
    pub lhs_base_name: Ident,
    pub lhs_type: TypeId,
    pub lhs_indices: Vec<ProjectionKind>,
    pub rhs: TyExpression,
}

#[derive(Debug)]
pub struct TyStorageReassignDescriptor {
    pub name: Ident,
    pub type_id: TypeId,
    pub span: Span,
}

#[derive(Debug)]
pub struct TyStorageReassignment {
    pub fields: Vec<TyStorageReassignDescriptor>,
    pub ix: u64,
    pub rhs: TyExpression,
}

#[derive(Debug)]
pub enum TyExpressionVariant {
    Literal(Literal),
    FunctionApplication {
        call_path: CallPath,
        /// The contract call parameters by name, each name at most once
        /// (see [`call_param_names_distinct`] and [`insert_call_param`]).
        contract_call_params: Vec<(String, TyExpression)>,
        arguments: Vec<(Ident, TyExpression)>,
        function_decl_id: DeclId,
        function_type_subst_list: TypeSubstList,
        /// The index of the storage state of the callee, where it has one.
        self_state_idx: Option<usize>,
        /// The contract call parameters, where this is a contract call.
        selector: Option<ContractCallParams>,
        /// How the call was written, for the language server.
        type_binding: Option<TypeBinding>,
    },
    LazyOperator { op: LazyOp, lhs: Box<TyExpression>, rhs: Box<TyExpression> },
    VariableExpression { name: Ident, span: Span, mutability: VariableMutability },
    Tuple { fields: Vec<TyExpression> },
    Array { contents: Vec<TyExpression> },
    ArrayIndex { prefix: Box<TyExpression>, index: Box<TyExpression> },
    StructExpression {
        struct_name: Ident,
        fields: Vec<TyStructExpressionField>,
        span: Span,
        type_binding: TypeBinding,
    },
    CodeBlock(TyCodeBlock),
    /// A value that will later be provided as a parameter.
    FunctionParameter,
    IfExp { condition: Box<TyExpression>, then: Box<TyExpression>, else_branch: Option<Box<TyExpression>> },
    AsmExpression {
        registers: Vec<TyAsmRegisterDeclaration>,
        body: Vec<AsmOp>,
        return_register: Option<(AsmRegister, Span)>,
        whole_block_span: Span,
    },
    StructFieldAccess {
        prefix: Box<TyExpression>,
        field_to_access: TyStructField,
        field_instantiation_span: Span,
        resolved_type_of_parent: TypeId,
    },
    TupleElemAccess {
        prefix: Box<TyExpression>,
        elem_to_access_num: usize,
        resolved_type_of_parent: TypeId,
        elem_to_access_span: Span,
    },
    EnumInstantiation {
        type_id: TypeId,
        variant_name: Ident,
        tag: usize,
        contents: Option<Box<TyExpression>>,
        enum_instantiation_span: Span,
        variant_instantiation_span: Span,
        type_binding: TypeBinding,
    },
    AbiCast { abi_name: CallPath, address: Box<TyExpression>, span: Span },
    StorageAccess(TyStorageAccess),
    IntrinsicFunction(TyIntrinsicFunctionKind),
    AbiName(AbiName),
    EnumTag { exp: Box<TyExpression> },
    UnsafeDowncast { exp: Box<TyExpression>, variant: TyEnumVariant },
    WhileLoop { condition: Box<TyExpression>, body: TyCodeBlock },
    Break,
    Continue,
    Reassignment(Box<TyReassignment>),
    StorageReassignment(Box<TyStorageReassignment>),
    Return(Box<TyExpression>),
}

#[derive(Debug)]
pub struct TyExpression {
    pub expression: TyExpressionVariant,
    pub return_type: TypeId,
    pub span: Span,
}

#[derive(Debug)]
pub struct TyCodeBlock {
    pub contents: Vec<TyAstNode>,
}

#[derive(Debug)]
pub struct TyAstNode {
    pub content: TyAstNodeContent,
    pub span: Span,
}

#[derive(Debug)]
pub enum TyAstNodeContent {
    Declaration(TyDeclaration),
    Expression(TyExpression),
    ImplicitReturnExpression(TyExpression),
    SideEffect,
}

#[derive(Debug)]
pub struct TyVariableDeclaration {
    pub name: Ident,
    pub body: TyExpression,
    pub mutability: VariableMutability,
    pub return_type: TypeId,
    pub type_ascription: TypeId,
}

#[derive(Debug)]
pub enum TyDeclaration {
    VariableDeclaration(Box<TyVariableDeclaration>),
    ConstantDeclaration(DeclId),
    FunctionDeclaration(DeclId, TypeSubstList),
    TraitDeclaration(DeclId),
    StructDeclaration(DeclId, TypeSubstList),
    EnumDeclaration(DeclId, TypeSubstList),
    ImplTrait(DeclId),
    AbiDeclaration(DeclId),
    /// A type parameter of a function, put in the namespace just for the
    /// body of that function.
    GenericTypeForFunctionScope { name: Ident, type_id: TypeId },
    ErrorRecovery(Span),
    StorageDeclaration(DeclId),
}

/// Whether no name occurs twice among contract call parameters.
pub open spec fn call_param_names_distinct(params: Seq<(String, TyExpression)>) -> bool {
    forall|i: int, j: int| 0 <= i < j < params.len() ==> #[trigger] params[i].0@ != #[trigger] params[j].0@
}

/// Sets the contract call parameter `name` to `value`, as a map keyed by
/// name does: the value it replaces is given back, and a new name is added
/// at the end.  No name comes to occur twice.
pub fn insert_call_param(params: &mut Vec<(String, TyExpression)>, name: String, value: TyExpression) -> (res:
    Option<TyExpression>)
    requires
        call_param_names_distinct(old(params)@),
    ensures
        call_param_names_distinct(final(params)@),
        match res {
            Some(prev) => exists|i: int|
                0 <= i < old(params)@.len() && #[trigger] old(params)@[i].0@ == name@ && prev == old(params)@[i].1
                    && final(params)@ == old(params)@.update(i, (final(params)@[i].0, value))
                    && final(params)@[i].0@ == name@,
            None => (forall|i: int| 0 <= i < old(params)@.len() ==> #[trigger] old(params)@[i].0@ != name@)
                && final(params)@.len() == old(params)@.len() + 1
                && final(params)@.drop_last() == old(params)@
                && final(params)@.last().0@ == name@ && final(params)@.last().1 == value,
        },
{
    let mut i: usize = 0;
    while i < params.len()
        invariant
            params@ == old(params)@,
            call_param_names_distinct(params@),
            i <= params@.len(),
            forall|j: int| 0 <= j < i ==> #[trigger] params@[j].0@ != name@,
        decreases params@.len() - i,
    {
        if params[i].0 == name {
            let (key, prev) = params.remove(i);
            params.insert(i, (key, value));
            proof {
                assert(params@ =~= old(params)@.update(i as int, (params@[i as int].0, value)));
            }
            return Some(prev);
        }
        i = i + 1;
    }
    params.push((name, value));
    None
}

/// Whether the references of `refs` are to the expressions of `exps`, in order.
pub open spec fn refs_to(refs: Seq<&TyExpression>, exps: Seq<TyExpression>) -> bool {
    refs.len() == exps.len() && forall|i: int| 0 <= i < refs.len() ==> *#[trigger] refs[i] == exps[i]
}

/// The explicit `return` expressions inside an expression, in order.
pub open spec fn exp_returns(e: TyExpression) -> Seq<TyExpression>
    decreases e, 0nat,
{
    variant_returns(e.expression)
}

pub open spec fn opt_exp_returns(e: Option<Box<TyExpression>>) -> Seq<TyExpression>
    decreases e, 0nat,
{
    match e {
        Some(b) => exp_returns(*b),
        None => Seq::empty(),
    }
}

pub open spec fn selector_returns(sel: Option<ContractCallParams>) -> Seq<TyExpression>
    decreases sel, 0nat,
{
    match sel {
        Some(s) => exp_returns(*s.contract_address),
        None => Seq::empty(),
    }
}

pub open spec fn exps_returns(s: Seq<TyExpression>) -> Seq<TyExpression>
    decreases s, s.len(),
{
    if s.len() == 0 {
        Seq::empty()
    } else {
        exps_returns(s.subrange(0, s.len() - 1)) + exp_returns(s[s.len() - 1])
    }
}

pub open spec fn named_returns(s: Seq<(Ident, TyExpression)>) -> Seq<TyExpression>
    decreases s, s.len(),
{
    if s.len() == 0 {
        Seq::empty()
    } else {
        named_returns(s.subrange(0, s.len() - 1)) + exp_returns(s[s.len() - 1].1)
    }
}

pub open spec fn keyed_returns(s: Seq<(String, TyExpression)>) -> Seq<TyExpression>
    decreases s, s.len(),
{
    if s.len() == 0 {
        Seq::empty()
    } else {
        keyed_returns(s.subrange(0, s.len() - 1)) + exp_returns(s[s.len() - 1].1)
    }
}

pub open spec fn field_returns(s: Seq<TyStructExpressionField>) -> Seq<TyExpression>
    decreases s, s.len(),
{
    if s.len() == 0 {
        Seq::empty()
    } else {
        field_returns(s.subrange(0, s.len() - 1)) + exp_returns(s[s.len() - 1].value)
    }
}

pub open spec fn nodes_returns(s: Seq<TyAstNode>) -> Seq<TyExpression>
    decreases s, s.len(),
{
    if s.len() == 0 {
        Seq::empty()
    } else {
        nodes_returns(s.subrange(0, s.len() - 1)) + node_returns(s[s.len() - 1])
    }
}

/// The explicit returns of a node: those of its expression, or of the body
/// of the variable it declares.
pub open spec fn node_returns(n: TyAstNode) -> Seq<TyExpression>
    decreases n, 0nat,
{
    match n.content {
        TyAstNodeContent::ImplicitReturnExpression(e) => exp_returns(e),
        TyAstNodeContent::Declaration(TyDeclaration::VariableDeclaration(d)) => exp_returns(d.body),
        TyAstNodeContent::Expression(e) => exp_returns(e),
        _ => Seq::empty(),
    }
}

pub open spec fn variant_returns(v: TyExpressionVariant) -> Seq<TyExpression>
    decreases v, 0nat,
{
    match v {
        TyExpressionVariant::IfExp { condition, then, else_branch } => exp_returns(*condition) + exp_returns(*then)
            + opt_exp_returns(else_branch),
        TyExpressionVariant::CodeBlock(b) => nodes_returns(b.contents@),
        TyExpressionVariant::WhileLoop { condition, body } => exp_returns(*condition) + nodes_returns(body.contents@),
        TyExpressionVariant::Reassignment(r) => exp_returns(r.rhs),
        TyExpressionVariant::StorageReassignment(r) => exp_returns(r.rhs),
        TyExpressionVariant::LazyOperator { lhs, rhs, .. } => exp_returns(*lhs) + exp_returns(*rhs),
        TyExpressionVariant::Tuple { fields } => exps_returns(fields@),
        TyExpressionVariant::Array { contents } => exps_returns(contents@),
        TyExpressionVariant::ArrayIndex { prefix, index } => exp_returns(*prefix) + exp_returns(*index),
        TyExpressionVariant::StructFieldAccess { prefix, .. } => exp_returns(*prefix),
        TyExpressionVariant::TupleElemAccess { prefix, .. } => exp_returns(*prefix),
        TyExpressionVariant::EnumInstantiation { contents, .. } => opt_exp_returns(contents),
        TyExpressionVariant::AbiCast { address, .. } => exp_returns(*address),
        TyExpressionVariant::IntrinsicFunction(k) => exps_returns(k.arguments@),
        TyExpressionVariant::StructExpression { fields, .. } => field_returns(fields@),
        TyExpressionVariant::FunctionApplication { contract_call_params, arguments, selector, .. } => keyed_returns(
            contract_call_params@,
        ) + named_returns(arguments@) + selector_returns(selector),
        TyExpressionVariant::EnumTag { exp } => exp_returns(*exp),
        TyExpressionVariant::UnsafeDowncast { exp, .. } => exp_returns(*exp),
        TyExpressionVariant::Return(exp) => seq![*exp],
        _ => Seq::empty(),
    }
}

pub proof fn lemma_refs_to_concat(r1: Seq<&TyExpression>, e1: Seq<TyExpression>, r2: Seq<&TyExpression>, e2: Seq<TyExpression>)
    requires
        refs_to(r1, e1),
        refs_to(r2, e2),
    ensures
        refs_to(r1 + r2, e1 + e2),
{
    assert forall|i: int| 0 <= i < (r1 + r2).len() implies *#[trigger] (r1 + r2)[i] == (e1 + e2)[i] by {
        if i < r1.len() {
            assert((r1 + r2)[i] == r1[i]);
        } else {
            assert((r1 + r2)[i] == r2[i - r1.len()]);
        }
    }
}

/// Appends `other` to `buf`.
fn append_refs<'a>(buf: &mut Vec<&'a TyExpression>, other: Vec<&'a TyExpression>, Ghost(e1): Ghost<Seq<TyExpression>>, Ghost(e2): Ghost<Seq<TyExpression>>)
    requires
        refs_to(old(buf)@, e1),
        refs_to(other@, e2),
    ensures
        refs_to(final(buf)@, e1 + e2),
{
    let mut other = other;
    let ghost o = other@;
    buf.append(&mut other);
    proof {
        lemma_refs_to_concat(old(buf)@, e1, o, e2);
    }
}

impl TyExpression {
    /// The explicit `return` expressions inside this expression.  Implicit
    /// returns are not control flow and are not gathered.
    pub fn gather_return_statements(&self) -> (res: Vec<&TyExpression>)
        ensures
            refs_to(res@, exp_returns(*self)),
        decreases *self, 1nat,
    {
        self.expression.gather_return_statements()
    }
}

fn gather_opt<'a>(e: &'a Option<Box<TyExpression>>) -> (res: Vec<&'a TyExpression>)
    ensures
        refs_to(res@, opt_exp_returns(*e)),
    decreases *e, 1nat,
{
    match e {
        Some(b) => b.gather_return_statements(),
        None => Vec::new(),
    }
}

fn gather_exps<'a>(s: &'a Vec<TyExpression>) -> (res: Vec<&'a TyExpression>)
    ensures
        refs_to(res@, exps_returns(s@)),
    decreases s@, s@.len() + 1,
{
    let mut buf: Vec<&TyExpression> = Vec::new();
    let mut i: usize = 0;
    while i < s.len()
        invariant
            0 <= i <= s@.len(),
            refs_to(buf@, exps_returns(s@.subrange(0, i as int))),
        decreases s@.len() - i,
    {
        assert(s@.subrange(0, i + 1).subrange(0, i as int) =~= s@.subrange(0, i as int));
        let r = s[i].gather_return_statements();
        append_refs(&mut buf, r, Ghost(exps_returns(s@.subrange(0, i as int))), Ghost(exp_returns(s@[i as int])));
        i = i + 1;
    }
    assert(s@.subrange(0, s@.len() as int) =~= s@);
    buf
}

fn gather_named<'a>(s: &'a Vec<(Ident, TyExpression)>) -> (res: Vec<&'a TyExpression>)
    ensures
        refs_to(res@, named_returns(s@)),
    decreases s@, s@.len() + 1,
{
    let mut buf: Vec<&TyExpression> = Vec::new();
    let mut i: usize = 0;
    while i < s.len()
        invariant
            0 <= i <= s@.len(),
            refs_to(buf@, named_returns(s@.subrange(0, i as int))),
        decreases s@.len() - i,
    {
        assert(s@.subrange(0, i + 1).subrange(0, i as int) =~= s@.subrange(0, i as int));
        let r = s[i].1.gather_return_statements();
        append_refs(&mut buf, r, Ghost(named_returns(s@.subrange(0, i as int))), Ghost(exp_returns(s@[i as int].1)));
        i = i + 1;
    }
    assert(s@.subrange(0, s@.len() as int) =~= s@);
    buf
}

fn gather_keyed<'a>(s: &'a Vec<(String, TyExpression)>) -> (res: Vec<&'a TyExpression>)
    ensures
        refs_to(res@, keyed_returns(s@)),
    decreases s@, s@.len() + 1,
{
    let mut buf: Vec<&TyExpression> = Vec::new();
    let mut i: usize = 0;
    while i < s.len()
        invariant
            0 <= i <= s@.len(),
            refs_to(buf@, keyed_returns(s@.subrange(0, i as int))),
        decreases s@.len() - i,
    {
        assert(s@.subrange(0, i + 1).subrange(0, i as int) =~= s@.subrange(0, i as int));
        let r = s[i].1.gather_return_statements();
        append_refs(&mut buf, r, Ghost(keyed_returns(s@.subrange(0, i as int))), Ghost(exp_returns(s@[i as int].1)));
        i = i + 1;
    }
    assert(s@.subrange(0, s@.len() as int) =~= s@);
    buf
}

fn gather_fields<'a>(s: &'a Vec<TyStructExpressionField>) -> (res: Vec<&'a TyExpression>)
    ensures
        refs_to(res@, field_returns(s@)),
    decreases s@, s@.len() + 1,
{
    let mut buf: Vec<&TyExpression> = Vec::new();
    let mut i: usize = 0;
    while i < s.len()
        invariant
            0 <= i <= s@.len(),
            refs_to(buf@, field_returns(s@.subrange(0, i as int))),
        decreases s@.len() - i,
    {
        assert(s@.subrange(0, i + 1).subrange(0, i as int) =~= s@.subrange(0, i as int));
        let r = s[i].value.gather_return_statements();
        append_refs(&mut buf, r, Ghost(field_returns(s@.subrange(0, i as int))), Ghost(exp_returns(s@[i as int].value)));
        i = i + 1;
    }
    assert(s@.subrange(0, s@.len() as int) =~= s@);
    buf
}

fn gather_nodes<'a>(s: &'a Vec<TyAstNode>) -> (res: Vec<&'a TyExpression>)
    ensures
        refs_to(res@, nodes_returns(s@)),
    decreases s@, s@.len() + 1,
{
    let mut buf: Vec<&TyExpression> = Vec::new();
    let mut i: usize = 0;
    while i < s.len()
        invariant
            0 <= i <= s@.len(),
            refs_to(buf@, nodes_returns(s@.subrange(0, i as int))),
        decreases s@.len() - i,
    {
        assert(s@.subrange(0, i + 1).subrange(0, i as int) =~= s@.subrange(0, i as int));
        let r = s[i].gather_return_statements();
        append_refs(&mut buf, r, Ghost(nodes_returns(s@.subrange(0, i as int))), Ghost(node_returns(s@[i as int])));
        i = i + 1;
    }
    assert(s@.subrange(0, s@.len() as int) =~= s@);
    buf
}

impl TyAstNode {
    /// The explicit `return` expressions inside this node.
    pub fn gather_return_statements(&self) -> (res: Vec<&TyExpression>)
        ensures
            refs_to(res@, node_returns(*self)),
        decreases *self, 1nat,
    {
        match &self.content {
            TyAstNodeContent::ImplicitReturnExpression(exp) => exp.gather_return_statements(),
            TyAstNodeContent::Declaration(TyDeclaration::VariableDeclaration(decl)) => decl.body.gather_return_statements(),
            TyAstNodeContent::Expression(exp) => exp.gather_return_statements(),
            _ => Vec::new(),
        }
    }
}

impl TyExpressionVariant {
    /// Returns `self` as a literal, if possible.
    pub fn extract_literal_value(&self) -> (res: Option<Literal>)
        ensures
            match self {
                TyExpressionVariant::Literal(l) => res matches Some(r) && r@ == l@,
                _ => res is None,
            },
    {
        match self {
            TyExpressionVariant::Literal(value) => Some(value.duplicate()),
            _ => None,
        }
    }

    /// Recurse into `self` and get any return statements, used to validate
    /// that all returns do indeed return the correct type.  This does _not_
    /// extract implicit return statements as those are not control flow: it
    /// is _only_ for explicit returns.
    pub fn gather_return_statements(&self) -> (res: Vec<&TyExpression>)
        ensures
            refs_to(res@, variant_returns(*self)),
        decreases *self, 1nat,
    {
        match self {
            TyExpressionVariant::IfExp { condition, then, else_branch } => {
                let mut buf = condition.gather_return_statements();
                append_refs(&mut buf, then.gather_return_statements(), Ghost(exp_returns(**condition)), Ghost(exp_returns(**then)));
                append_refs(&mut buf, gather_opt(else_branch), Ghost(exp_returns(**condition) + exp_returns(**then)), Ghost(opt_exp_returns(*else_branch)));
                buf
            },
            TyExpressionVariant::CodeBlock(block) => gather_nodes(&block.contents),
            TyExpressionVariant::WhileLoop { condition, body } => {
                let mut buf = condition.gather_return_statements();
                append_refs(&mut buf, gather_nodes(&body.contents), Ghost(exp_returns(**condition)), Ghost(nodes_returns(body.contents@)));
                buf
            },
            TyExpressionVariant::Reassignment(reassignment) => reassignment.rhs.gather_return_statements(),
            TyExpressionVariant::StorageReassignment(storage_reassignment) => storage_reassignment.rhs.gather_return_statements(),
            TyExpressionVariant::LazyOperator { lhs, rhs, .. } => {
                let mut buf = lhs.gather_return_statements();
                append_refs(&mut buf, rhs.gather_return_statements(), Ghost(exp_returns(**lhs)), Ghost(exp_returns(**rhs)));
                buf
            },
            TyExpressionVariant::Tuple { fields } => gather_exps(fields),
            TyExpressionVariant::Array { contents } => gather_exps(contents),
            TyExpressionVariant::ArrayIndex { prefix, index } => {
                let mut buf = prefix.gather_return_statements();
                append_refs(&mut buf, index.gather_return_statements(), Ghost(exp_returns(**prefix)), Ghost(exp_returns(**index)));
                buf
            },
            TyExpressionVariant::StructFieldAccess { prefix, .. } => prefix.gather_return_statements(),
            TyExpressionVariant::TupleElemAccess { prefix, .. } => prefix.gather_return_statements(),
            TyExpressionVariant::EnumInstantiation { contents, .. } => gather_opt(contents),
            TyExpressionVariant::AbiCast { address, .. } => address.gather_return_statements(),
            TyExpressionVariant::IntrinsicFunction(intrinsic_function_kind) => gather_exps(&intrinsic_function_kind.arguments),
            TyExpressionVariant::StructExpression { fields, .. } => gather_fields(fields),
            TyExpressionVariant::FunctionApplication { contract_call_params, arguments, selector, .. } => {
                let mut buf = gather_keyed(contract_call_params);
                append_refs(&mut buf, gather_named(arguments), Ghost(keyed_returns(contract_call_params@)), Ghost(named_returns(arguments@)));
                let sel = match selector {
                    Some(params) => params.contract_address.gather_return_statements(),
                    None => Vec::new(),
                };
                append_refs(&mut buf, sel, Ghost(keyed_returns(contract_call_params@) + named_returns(arguments@)), Ghost(selector_returns(*selector)));
                buf
            },
            TyExpressionVariant::EnumTag { exp } => exp.gather_return_statements(),
            TyExpressionVariant::UnsafeDowncast { exp, .. } => exp.gather_return_statements(),
            TyExpressionVariant::Return(exp) => {
                let mut buf: Vec<&TyExpression> = Vec::new();
                buf.push(&**exp);
                buf
            },
            _ => Vec::new(),
        }
    }
}

} // verus!


