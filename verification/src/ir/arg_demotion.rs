//! Function argument demotion.
//!
//! This pass demotes 'by-value' function arg types to 'by-reference' pointer
//! types.  An argument is demoted when its type is larger than 64 bits or is
//! an aggregate, and when at every call site the value passed for it is a
//! `load`.  The pass does not change the call sites of the functions it
//! changes: passing the pointer that each `load` reads from is left to
//! later passes.

use vstd::prelude::*;

use crate::ir::function::{
    Block, BlockArgument, Function, Instruction, Module, Value, ValueContent, ValueDatum,
};
use crate::ir::irtype::{Context, Type, TypeContent, TypeShape};

verus! {

/// The analyses available to a pass.
pub struct AnalysisResults {}

/// An error raised by a pass.
#[derive(Debug)]
pub enum IrError {
    VerifyArgumentValueIsMissing(String),
}

/// The function transforms that a pass may run.
#[derive(Clone, Copy, Debug, PartialEq, Eq, Structural)]
pub enum FunctionTransform {
    ArgDemotion,
}

/// Whether a pass only inspects the IR or changes it.
#[derive(Clone, Copy, Debug, PartialEq, Eq, Structural)]
pub enum PassMutability {
    Transform(FunctionTransform),
}

/// The scope over which a pass runs.
#[derive(Clone, Copy, Debug, PartialEq, Eq, Structural)]
pub enum ScopedPass {
    FunctionPass(PassMutability),
}

/// A pass of the optimiser.
pub struct Pass {
    pub name: &'static str,
    pub descr: &'static str,
    pub runner: ScopedPass,
}

pub fn create_arg_demotion_pass() -> (res: Pass)
    ensures
        res.name@ == "argdemotion"@,
        res.descr@ == "By-value function argument demotion to by-reference."@,
        res.runner == ScopedPass::FunctionPass(PassMutability::Transform(FunctionTransform::ArgDemotion)),
{
    Pass {
        name: "argdemotion",
        descr: "By-value function argument demotion to by-reference.",
        runner: ScopedPass::FunctionPass(PassMutability::Transform(FunctionTransform::ArgDemotion)),
    }
}

impl Context {
    /// Whether a value of type `ty` is passed by reference after demotion:
    /// anything but unit, bool, pointers and integers of up to 64 bits.
    pub open spec fn is_demotable_type(&self, ty: Type) -> bool {
        match self.content(ty) {
            TypeShape::Unit | TypeShape::Bool | TypeShape::Pointer(_) => false,
            TypeShape::Uint(bits) => bits > 64,
            _ => true,
        }
    }

    pub open spec fn value_type(&self, v: Value) -> Option<Type> {
        match self.datum(v) {
            ValueDatum::Argument(ba) => Some(ba.ty),
            ValueDatum::Constant(t) => Some(t),
            ValueDatum::Instruction(_) => None,
        }
    }

    /// Whether argument `i` of `f` is a candidate for demotion.
    pub open spec fn is_candidate_arg(&self, f: Function, i: int) -> bool {
        &&& 0 <= i < self.arg_values(f).len()
        &&& self.value_type(self.arg_values(f)[i]) matches Some(t)
        &&& self.is_demotable_type(t)
    }

    pub open spec fn block_holds(&self, b: Block, v: Value) -> bool {
        exists|k: int|
            0 <= k < self.blocks@[b.0 as int].instructions@.len()
                && #[trigger] self.blocks@[b.0 as int].instructions@[k] == v
    }

    pub open spec fn function_holds(&self, g: Function, v: Value) -> bool {
        exists|j: int|
            0 <= j < self.functions@[g.0 as int].blocks@.len() && self.block_holds(
                #[trigger] self.functions@[g.0 as int].blocks@[j],
                v,
            )
    }

    pub open spec fn module_holds(&self, m: Module, v: Value) -> bool {
        exists|j: int|
            0 <= j < self.modules@[m.0 as int].functions@.len() && self.function_holds(
                #[trigger] self.modules@[m.0 as int].functions@[j],
                v,
            )
    }

    /// Whether `v` is an instruction of a block of a function of a module.
    pub open spec fn program_holds(&self, v: Value) -> bool {
        exists|m: int| 0 <= m < self.modules@.len() && #[trigger] self.module_holds(Module(m as usize), v)
    }

    pub open spec fn is_call_to(&self, v: Value, f: Function) -> bool {
        self.datum(v) matches ValueDatum::Instruction(Instruction::Call(g, _)) && g == f
    }

    /// The instructions of the program that call `f`.
    pub open spec fn is_call_site(&self, f: Function, v: Value) -> bool {
        self.program_holds(v) && self.is_call_to(v, f)
    }

    pub open spec fn call_args(&self, v: Value) -> Seq<Value> {
        match self.datum(v) {
            ValueDatum::Instruction(Instruction::Call(_, args)) => args@,
            _ => Seq::empty(),
        }
    }

    /// The pointer that `v` loads from, if `v` is a load.
    pub open spec fn load_source(&self, v: Value) -> Option<Value> {
        match self.datum(v) {
            ValueDatum::Instruction(Instruction::Load(p)) => Some(p),
            _ => None,
        }
    }

    /// Whether every call of `f` passes a load for argument `i`.
    pub open spec fn all_loaded(&self, f: Function, i: int) -> bool {
        forall|v: Value| #[trigger]
            self.is_call_site(f, v) ==> self.load_source(self.call_args(v)[i]) is Some
    }

    /// Whether argument `i` of `f` is demoted by the pass.
    pub open spec fn is_demoted_arg(&self, f: Function, i: int) -> bool {
        self.is_candidate_arg(f, i) && self.all_loaded(f, i)
    }
}

impl Context {
    /// `self` is `old` after demoting the arguments of `f` whose indices are
    /// in `d`: each such argument of `f` takes a pointer to its former type;
    /// nothing else changes (the calls of `f` pass what they passed before),
    /// and types are only added.
    pub open spec fn demotion_applied(&self, old: &Context, f: Function, d: Set<int>) -> bool {
        &&& self.ir_wf()
        &&& self.extends_types(old)
        &&& self.blocks == old.blocks
        &&& self.functions == old.functions
        &&& self.modules == old.modules
        &&& self.values@.len() == old.values@.len()
        &&& forall|v: Value| #[trigger] old.valid_value(v) ==> self.demoted_value(old, f, d, v)
        &&& self.adds_only_pointers(old, f, d)
    }

    /// Every type of `self` that `old` lacks is a pointer to the type of one
    /// of the demoted arguments.
    pub open spec fn adds_only_pointers(&self, old: &Context, f: Function, d: Set<int>) -> bool {
        forall|u: Type| #[trigger] self.has_type(u) && !old.has_type(u) ==> exists|i: int|
            d.contains(i) && 0 <= i < old.arg_values(f).len() && old.value_type(#[trigger] old.arg_values(f)[i])
                == Some(self.content(u)->Pointer_0)
                && self.content(u) is Pointer
    }

    pub open spec fn demoted_value(&self, old: &Context, f: Function, d: Set<int>, v: Value) -> bool {
        if (exists|i: int|
            d.contains(i) && 0 <= i < old.arg_values(f).len() && #[trigger] old.arg_values(f)[i] == v)
            && old.datum(v) is Argument {
            &&& self.datum(v) matches ValueDatum::Argument(ba)
            &&& old.datum(v) matches ValueDatum::Argument(oba)
            &&& ba.block == oba.block
            &&& ba.idx == oba.idx
            &&& self.has_type(ba.ty)
            &&& self.content(ba.ty) == TypeShape::Pointer(oba.ty)
        } else {
            self.values@[v.0 as int] == old.values@[v.0 as int]
        }
    }

    /// The instructions of the program are values of the context.
    pub proof fn lemma_program_values_valid(&self, v: Value)
        requires
            self.ir_wf(),
            self.program_holds(v),
        ensures
            self.valid_value(v),
            self.datum(v) is Instruction,
    {
        let m = choose|m: int| 0 <= m < self.modules@.len() && #[trigger] self.module_holds(Module(m as usize), v);
        let mm = Module(m as usize);
        assert(self.valid_module(mm));
        assert(self.module_wf(mm));
        let j = choose|j: int|
            0 <= j < self.modules@[mm.0 as int].functions@.len() && self.function_holds(
                #[trigger] self.modules@[mm.0 as int].functions@[j],
                v,
            );
        let g = self.modules@[mm.0 as int].functions@[j];
        assert(self.valid_function(g));
        assert(self.function_wf(g));
        let bs = self.functions@[g.0 as int].blocks@;
        let jb = choose|jb: int| 0 <= jb < bs.len() && self.block_holds(#[trigger] bs[jb], v);
        let b = bs[jb];
        assert(self.valid_block(b));
        let k = choose|k: int| 0 <= k < self.blocks@[b.0 as int].instructions@.len() && #[trigger] self.blocks@[b.0 as int].instructions@[k] == v;
        assert(self.block_wf(b));
    }
}

impl Context {
    /// The argument values of a function are pairwise distinct.
    pub proof fn lemma_arg_values_distinct(&self, f: Function, i: int, j: int)
        requires
            self.ir_wf(),
            self.valid_function(f),
            0 <= i < self.arg_values(f).len(),
            0 <= j < self.arg_values(f).len(),
            self.arg_values(f)[i] == self.arg_values(f)[j],
        ensures
            i == j,
    {
        assert(self.function_wf(f));
        let args = self.functions@[f.0 as int].arguments@;
        assert(self.arg_values(f)[i] == args[i].1);
        assert(self.arg_values(f)[j] == args[j].1);
    }

    /// A demotion leaves the call sites of `f` as they were (each passes
    /// what it passed before), and the loads in place.
    pub proof fn lemma_demotion_keeps_calls(&self, old: &Context, f: Function, d: Set<int>)
        requires
            old.ir_wf(),
            self.demotion_applied(old, f, d),
        ensures
            forall|v: Value| #[trigger] self.is_call_site(f, v) == old.is_call_site(f, v),
            forall|v: Value| #[trigger] old.is_call_site(f, v) ==> self.values@[v.0 as int] == old.values@[v.0 as int],
            forall|v: Value| #[trigger] old.valid_value(v) ==> self.load_source(v) == old.load_source(v),
    {
        assert forall|v: Value| #[trigger] self.is_call_site(f, v) == old.is_call_site(f, v) by {
            assert(self.blocks@ == old.blocks@);
            assert(self.functions@ == old.functions@);
            assert(self.modules@ == old.modules@);
            assert forall|b: Block| #[trigger] self.block_holds(b, v) == old.block_holds(b, v) by {}
            assert forall|g: Function| #[trigger] self.function_holds(g, v) == old.function_holds(g, v) by {
                if self.function_holds(g, v) {
                    let j = choose|j: int| 0 <= j < self.functions@[g.0 as int].blocks@.len() && self.block_holds(#[trigger] self.functions@[g.0 as int].blocks@[j], v);
                    assert(old.block_holds(old.functions@[g.0 as int].blocks@[j], v));
                }
                if old.function_holds(g, v) {
                    let j = choose|j: int| 0 <= j < old.functions@[g.0 as int].blocks@.len() && old.block_holds(#[trigger] old.functions@[g.0 as int].blocks@[j], v);
                    assert(self.block_holds(self.functions@[g.0 as int].blocks@[j], v));
                }
            }
            assert forall|m: Module| #[trigger] self.module_holds(m, v) == old.module_holds(m, v) by {
                if self.module_holds(m, v) {
                    let j = choose|j: int| 0 <= j < self.modules@[m.0 as int].functions@.len() && self.function_holds(#[trigger] self.modules@[m.0 as int].functions@[j], v);
                    assert(old.function_holds(old.modules@[m.0 as int].functions@[j], v));
                }
                if old.module_holds(m, v) {
                    let j = choose|j: int| 0 <= j < old.modules@[m.0 as int].functions@.len() && old.function_holds(#[trigger] old.modules@[m.0 as int].functions@[j], v);
                    assert(self.function_holds(self.modules@[m.0 as int].functions@[j], v));
                }
            }
            if self.program_holds(v) {
                let m = choose|m: int| 0 <= m < self.modules@.len() && #[trigger] self.module_holds(Module(m as usize), v);
                assert(old.module_holds(Module(m as usize), v));
            }
            if old.program_holds(v) {
                let m = choose|m: int| 0 <= m < old.modules@.len() && #[trigger] old.module_holds(Module(m as usize), v);
                assert(self.module_holds(Module(m as usize), v));
            }
            assert(self.program_holds(v) == old.program_holds(v));
            if old.program_holds(v) {
                old.lemma_program_values_valid(v);
                assert(self.demoted_value(old, f, d, v));
            }
        }
        assert forall|v: Value| #[trigger] old.valid_value(v) implies self.load_source(v) == old.load_source(v) by {
            assert(self.demoted_value(old, f, d, v));
        }
        assert forall|v: Value| #[trigger] old.is_call_site(f, v) implies self.values@[v.0 as int]
            == old.values@[v.0 as int] by {
            old.lemma_program_values_valid(v);
            assert(self.demoted_value(old, f, d, v));
        }
    }

    /// Demoting one more argument `x` after the arguments in `d` is demoting
    /// the arguments in `d` and `x` at once.
    pub proof fn lemma_demotion_compose(&self, old: &Context, mid: &Context, f: Function, d: Set<int>, x: int)
        requires
            old.ir_wf(),
            old.valid_function(f),
            mid.demotion_applied(old, f, d),
            self.demotion_applied(mid, f, set![x]),
            !d.contains(x),
            0 <= x < old.arg_values(f).len(),
        ensures
            self.demotion_applied(old, f, d.insert(x)),
    {
        mid.lemma_demotion_keeps_calls(old, f, d);
        assert forall|u: Type| #[trigger] old.has_type(u) implies self.has_type(u) && self.content(u)
            == old.content(u) && self.rank(u) == old.rank(u) by {
            assert(mid.has_type(u));
        }
        assert forall|v: Value| #[trigger] old.valid_value(v) implies self.demoted_value(old, f, d.insert(x), v) by {
            assert(mid.demoted_value(old, f, d, v));
            assert(mid.valid_value(v));
            assert(self.demoted_value(mid, f, set![x], v));
            if (exists|i: int|
                d.insert(x).contains(i) && 0 <= i < old.arg_values(f).len() && #[trigger] old.arg_values(f)[i] == v)
                && old.datum(v) is Argument {
                let i = choose|i: int|
                    d.insert(x).contains(i) && 0 <= i < old.arg_values(f).len() && #[trigger] old.arg_values(f)[i] == v;
                if i == x {
                    if exists|i2: int| d.contains(i2) && 0 <= i2 < old.arg_values(f).len() && #[trigger] old.arg_values(f)[i2] == v {
                        let i2 = choose|i2: int| d.contains(i2) && 0 <= i2 < old.arg_values(f).len() && #[trigger] old.arg_values(f)[i2] == v;
                        old.lemma_arg_values_distinct(f, i, i2);
                    }
                    assert(mid.values@[v.0 as int] == old.values@[v.0 as int]);
                    assert(set![x].contains(x));
                    assert(mid.arg_values(f)[x] == v);
                } else {
                    assert(d.contains(i));
                    if exists|i2: int| set![x].contains(i2) && 0 <= i2 < mid.arg_values(f).len() && #[trigger] mid.arg_values(f)[i2] == v {
                        let i2 = choose|i2: int| set![x].contains(i2) && 0 <= i2 < mid.arg_values(f).len() && #[trigger] mid.arg_values(f)[i2] == v;
                        old.lemma_arg_values_distinct(f, i, i2);
                    }
                    assert(self.values@[v.0 as int] == mid.values@[v.0 as int]);
                }
            } else {
                if (exists|i2: int| set![x].contains(i2) && 0 <= i2 < mid.arg_values(f).len() && #[trigger] mid.arg_values(f)[i2] == v) && mid.datum(v) is Argument {
                    assert(mid.arg_values(f)[x] == v);
                    assert(d.insert(x).contains(x));
                    assert(old.arg_values(f)[x] == v);
                    if exists|i3: int| d.contains(i3) && 0 <= i3 < old.arg_values(f).len() && #[trigger] old.arg_values(f)[i3] == v {
                        let i3 = choose|i3: int| d.contains(i3) && 0 <= i3 < old.arg_values(f).len() && #[trigger] old.arg_values(f)[i3] == v;
                        old.lemma_arg_values_distinct(f, x, i3);
                    }
                    assert(mid.values@[v.0 as int] == old.values@[v.0 as int]);
                }
                if exists|i3: int| d.contains(i3) && 0 <= i3 < old.arg_values(f).len() && #[trigger] old.arg_values(f)[i3] == v {
                    let i3 = choose|i3: int| d.contains(i3) && 0 <= i3 < old.arg_values(f).len() && #[trigger] old.arg_values(f)[i3] == v;
                    assert(d.insert(x).contains(i3));
                }
            }
        }
    }
}

impl Context {
    /// Demoting no argument is the identity.
    pub proof fn lemma_demotion_none(&self, f: Function, d: Set<int>)
        requires
            self.ir_wf(),
            forall|i: int| !d.contains(i),
        ensures
            self.demotion_applied(self, f, d),
    {
        assert forall|v: Value| #[trigger] self.valid_value(v) implies self.demoted_value(self, f, d, v) by {
            if self.is_call_site(f, v) {
                self.lemma_program_values_valid(v);
            }
        }
    }

    /// An argument outside `d` is passed as it was, so whether every call
    /// loads it is unchanged.
    pub proof fn lemma_all_loaded_kept(&self, old: &Context, f: Function, d: Set<int>, x: int)
        requires
            old.ir_wf(),
            old.valid_function(f),
            self.demotion_applied(old, f, d),
            !d.contains(x),
            0 <= x < old.arg_values(f).len(),
        ensures
            self.all_loaded(f, x) == old.all_loaded(f, x),
    {
        self.lemma_demotion_keeps_calls(old, f, d);
        assert forall|v: Value| #[trigger] old.is_call_site(f, v) implies self.load_source(self.call_args(v)[x])
            == old.load_source(old.call_args(v)[x]) by {
            old.lemma_program_values_valid(v);
            assert(self.demoted_value(old, f, d, v));
            assert(old.datum_wf(old.datum(v)));
            assert(old.valid_value(old.call_args(v)[x]));
        }
        if self.all_loaded(f, x) {
            assert forall|v: Value| #[trigger] old.is_call_site(f, v) implies old.load_source(old.call_args(v)[x]) is Some by {
                assert(self.is_call_site(f, v));
            }
        }
        if old.all_loaded(f, x) {
            assert forall|v: Value| #[trigger] self.is_call_site(f, v) implies self.load_source(self.call_args(v)[x]) is Some by {
                assert(old.is_call_site(f, v));
            }
        }
    }
}

impl Context {
    /// The arguments that one run of the pass demotes.
    pub open spec fn demoted_args(&self, f: Function) -> Set<int> {
        Set::new(|i: int| self.is_demoted_arg(f, i))
    }

    /// Demotion is idempotent: once the pass has demoted the arguments of
    /// `f` that it demotes, a second run demotes none (the arguments of `f`
    /// being block arguments, as functions make them).
    pub proof fn lemma_demotion_idempotent(&self, old: &Context, f: Function)
        requires
            old.ir_wf(),
            old.valid_function(f),
            forall|i: int| 0 <= i < old.arg_values(f).len() ==> old.datum(#[trigger] old.arg_values(f)[i]) is Argument,
            self.demotion_applied(old, f, old.demoted_args(f)),
        ensures
            forall|i: int| !#[trigger] self.is_demoted_arg(f, i),
    {
        let d = old.demoted_args(f);
        assert forall|i: int| !#[trigger] self.is_demoted_arg(f, i) by {
            if 0 <= i < old.arg_values(f).len() {
                let v = old.arg_values(f)[i];
                assert(self.arg_values(f) == old.arg_values(f));
                assert(old.function_wf(f));
                assert(old.valid_value(v));
                assert(old.datum(v) is Argument);
                assert(self.demoted_value(old, f, d, v));
                if old.is_call_site(f, v) {
                    old.lemma_program_values_valid(v);
                } else if d.contains(i) {
                    assert(self.datum(v) matches ValueDatum::Argument(ba) && self.content(ba.ty) is Pointer);
                    assert(!self.is_candidate_arg(f, i));
                } else {
                    if exists|j: int| d.contains(j) && 0 <= j < old.arg_values(f).len() && #[trigger] old.arg_values(f)[j] == v {
                        let j = choose|j: int| d.contains(j) && 0 <= j < old.arg_values(f).len() && #[trigger] old.arg_values(f)[j] == v;
                        old.lemma_arg_values_distinct(f, i, j);
                    }
                    assert(self.values@[v.0 as int] == old.values@[v.0 as int]);
                    if old.is_candidate_arg(f, i) {
                        self.lemma_all_loaded_kept(old, f, d, i);
                    } else {
                        assert(self.datum(v) == old.datum(v));
                        if let Some(t) = old.value_type(v) {
                            assert(old.datum_wf(old.datum(v)));
                            assert(old.has_type(t));
                            assert(self.content(t) == old.content(t));
                        }
                    }
                }
            }
        }
    }
}

/// Sets the type of an argument value; other values are left alone.
fn set_arg_type(context: &mut Context, v: Value, ty: Type)
    requires
        old(context).ir_wf(),
        old(context).valid_value(v),
        old(context).has_type(ty),
    ensures
        final(context).ir_wf(),
        final(context).same_type_store(old(context)),
        final(context).blocks == old(context).blocks,
        final(context).functions == old(context).functions,
        final(context).modules == old(context).modules,
        final(context).values@.len() == old(context).values@.len(),
        forall|u: int| 0 <= u < old(context).values@.len() && u != v.0 ==> #[trigger] final(context).values@[u] == old(context).values@[u],
        old(context).datum(v) matches ValueDatum::Argument(oba) ==> final(context).datum(v) == ValueDatum::Argument(
            BlockArgument { block: oba.block, idx: oba.idx, ty },
        ),
        !(old(context).datum(v) is Argument) ==> final(context).values@[v.0 as int] == old(context).values@[v.0 as int],
{
    let ghost old_ctx = *context;
    let new_datum = match &context.values[v.0].value {
        ValueDatum::Argument(ba) => Some(ValueDatum::Argument(BlockArgument { block: ba.block, idx: ba.idx, ty })),
        _ => None,
    };
    if let Some(d) = new_datum {
        context.values.set(v.0, ValueContent { value: d });
        proof {
            context.lemma_same_type_store(&old_ctx);
            context.lemma_value_changes_keep_ir_wf(&old_ctx);
        }
    }
}

fn collect_in_block(context: &Context, b: Block, f: Function, out: &mut Vec<Value>)
    requires
        context.ir_wf(),
        context.valid_block(b),
    ensures
        forall|v: Value|
            #[trigger] final(out)@.contains(v) <==> old(out)@.contains(v) || (context.block_holds(b, v)
                && context.is_call_to(v, f)),
{
    proof {
        assert(context.block_wf(b));
    }
    let ghost start = out@;
    let instrs = &context.blocks[b.0].instructions;
    let mut k: usize = 0;
    while k < instrs.len()
        invariant
            context.ir_wf(),
            context.valid_block(b),
            instrs@ == context.blocks@[b.0 as int].instructions@,
            0 <= k <= instrs@.len(),
            forall|v: Value|
                #[trigger] out@.contains(v) <==> start.contains(v) || (exists|j: int|
                    0 <= j < k && #[trigger] instrs@[j] == v) && context.is_call_to(v, f),
        decreases instrs@.len() - k,
    {
        let v = instrs[k];
        proof {
            assert(context.block_wf(b));
            assert(context.valid_value(instrs@[k as int]));
        }
        let is_call = match v.get_instruction(context) {
            Some(Instruction::Call(g, _)) => *g == f,
            _ => false,
        };
        let ghost before = out@;
        if is_call {
            out.push(v);
        }
        proof {
            assert forall|u: Value| #[trigger] out@.contains(u) <==> start.contains(u) || (exists|j: int|
                0 <= j < k + 1 && #[trigger] instrs@[j] == u) && context.is_call_to(u, f) by {
                if out@.contains(u) && !before.contains(u) {
                    assert(u == v);
                    assert(instrs@[k as int] == u);
                }
                if (exists|j: int| 0 <= j < k + 1 && #[trigger] instrs@[j] == u) && context.is_call_to(u, f) {
                    let j = choose|j: int| 0 <= j < k + 1 && #[trigger] instrs@[j] == u;
                    if j == k {
                        assert(out@[out@.len() - 1] == u);
                    } else {
                        assert(before.contains(u));
                        let i = choose|i: int| 0 <= i < before.len() && before[i] == u;
                        assert(out@[i] == u);
                    }
                }
                if before.contains(u) {
                    let i = choose|i: int| 0 <= i < before.len() && before[i] == u;
                    assert(out@[i] == u);
                }
            }
        }
        k = k + 1;
    }
}

fn collect_in_function(context: &Context, g: Function, f: Function, out: &mut Vec<Value>)
    requires
        context.ir_wf(),
        context.valid_function(g),
    ensures
        forall|v: Value|
            #[trigger] final(out)@.contains(v) <==> old(out)@.contains(v) || (context.function_holds(g, v)
                && context.is_call_to(v, f)),
{
    proof {
        assert(context.function_wf(g));
    }
    let ghost start = out@;
    let blocks = &context.functions[g.0].blocks;
    let mut j: usize = 0;
    while j < blocks.len()
        invariant
            context.ir_wf(),
            context.valid_function(g),
            blocks@ == context.functions@[g.0 as int].blocks@,
            0 <= j <= blocks@.len(),
            forall|v: Value|
                #[trigger] out@.contains(v) <==> start.contains(v) || (exists|i: int|
                    0 <= i < j && context.block_holds(#[trigger] blocks@[i], v)) && context.is_call_to(v, f),
        decreases blocks@.len() - j,
    {
        proof {
            assert(context.function_wf(g));
            assert(context.valid_block(blocks@[j as int]));
        }
        let ghost before = out@;
        collect_in_block(context, blocks[j], f, out);
        proof {
            assert forall|u: Value| #[trigger] out@.contains(u) <==> start.contains(u) || (exists|i: int|
                0 <= i < j + 1 && context.block_holds(#[trigger] blocks@[i], u)) && context.is_call_to(u, f) by {
                if (exists|i: int| 0 <= i < j + 1 && context.block_holds(#[trigger] blocks@[i], u)) {
                    let i = choose|i: int| 0 <= i < j + 1 && context.block_holds(#[trigger] blocks@[i], u);
                    if i < j {
                        assert(exists|i2: int| 0 <= i2 < j && context.block_holds(#[trigger] blocks@[i2], u));
                    }
                }
                if (exists|i: int| 0 <= i < j && context.block_holds(#[trigger] blocks@[i], u)) {
                    let i = choose|i: int| 0 <= i < j && context.block_holds(#[trigger] blocks@[i], u);
                    assert(exists|i2: int| 0 <= i2 < j + 1 && context.block_holds(#[trigger] blocks@[i2], u));
                }
            }
        }
        j = j + 1;
    }
}

fn collect_in_module(context: &Context, m: Module, f: Function, out: &mut Vec<Value>)
    requires
        context.ir_wf(),
        context.valid_module(m),
    ensures
        forall|v: Value|
            #[trigger] final(out)@.contains(v) <==> old(out)@.contains(v) || (context.module_holds(m, v)
                && context.is_call_to(v, f)),
{
    proof {
        assert(context.module_wf(m));
    }
    let ghost start = out@;
    let fns = &context.modules[m.0].functions;
    let mut j: usize = 0;
    while j < fns.len()
        invariant
            context.ir_wf(),
            context.valid_module(m),
            fns@ == context.modules@[m.0 as int].functions@,
            0 <= j <= fns@.len(),
            forall|v: Value|
                #[trigger] out@.contains(v) <==> start.contains(v) || (exists|i: int|
                    0 <= i < j && context.function_holds(#[trigger] fns@[i], v)) && context.is_call_to(v, f),
        decreases fns@.len() - j,
    {
        proof {
            assert(context.module_wf(m));
            assert(context.valid_function(fns@[j as int]));
        }
        let ghost before = out@;
        collect_in_function(context, fns[j], f, out);
        proof {
            assert forall|u: Value| #[trigger] out@.contains(u) <==> start.contains(u) || (exists|i: int|
                0 <= i < j + 1 && context.function_holds(#[trigger] fns@[i], u)) && context.is_call_to(u, f) by {
                if (exists|i: int| 0 <= i < j + 1 && context.function_holds(#[trigger] fns@[i], u)) {
                    let i = choose|i: int| 0 <= i < j + 1 && context.function_holds(#[trigger] fns@[i], u);
                    if i < j {
                        assert(exists|i2: int| 0 <= i2 < j && context.function_holds(#[trigger] fns@[i2], u));
                    }
                }
                if (exists|i: int| 0 <= i < j && context.function_holds(#[trigger] fns@[i], u)) {
                    let i = choose|i: int| 0 <= i < j && context.function_holds(#[trigger] fns@[i], u);
                    assert(exists|i2: int| 0 <= i2 < j + 1 && context.function_holds(#[trigger] fns@[i2], u));
                }
            }
        }
        j = j + 1;
    }
}

/// All the instructions of the program that call `f`.
fn collect_call_sites(context: &Context, f: Function) -> (res: Vec<Value>)
    requires
        context.ir_wf(),
    ensures
        forall|v: Value| #[trigger] res@.contains(v) <==> context.is_call_site(f, v),
{
    let mut out: Vec<Value> = Vec::new();
    let mut m: usize = 0;
    while m < context.modules.len()
        invariant
            context.ir_wf(),
            0 <= m <= context.modules@.len(),
            forall|v: Value|
                #[trigger] out@.contains(v) <==> (exists|i: int|
                    0 <= i < m && #[trigger] context.module_holds(Module(i as usize), v)) && context.is_call_to(v, f),
        decreases context.modules@.len() - m,
    {
        let ghost before = out@;
        collect_in_module(context, Module(m), f, &mut out);
        proof {
            assert forall|u: Value| #[trigger] out@.contains(u) <==> (exists|i: int|
                0 <= i < m + 1 && #[trigger] context.module_holds(Module(i as usize), u)) && context.is_call_to(u, f) by {
                if (exists|i: int| 0 <= i < m + 1 && #[trigger] context.module_holds(Module(i as usize), u)) {
                    let i = choose|i: int| 0 <= i < m + 1 && #[trigger] context.module_holds(Module(i as usize), u);
                    if i < m {
                        assert(exists|i2: int| 0 <= i2 < m && #[trigger] context.module_holds(Module(i2 as usize), u));
                    } else {
                        assert(Module(i as usize) == Module(m));
                    }
                }
                if (exists|i: int| 0 <= i < m && #[trigger] context.module_holds(Module(i as usize), u)) {
                    let i = choose|i: int| 0 <= i < m && #[trigger] context.module_holds(Module(i as usize), u);
                    assert(exists|i2: int| 0 <= i2 < m + 1 && #[trigger] context.module_holds(Module(i2 as usize), u));
                }
                if out@.contains(u) && !before.contains(u) {
                    assert(context.module_holds(Module(m), u));
                    assert(context.module_holds(Module((m as int) as usize), u));
                }
            }
        }
        m = m + 1;
    }
    out
}

/// Demotes argument `arg_idx` of `function` if every one of its call sites
/// passes a `load` for it; otherwise changes nothing.
fn demote_arg(
    context: &mut Context,
    call_sites: &Vec<Value>,
    function: &Function,
    arg_idx: usize,
    arg_ty: &Type,
) -> (res: bool)
    requires
        old(context).ir_wf(),
        old(context).valid_function(*function),
        arg_idx < old(context).arg_values(*function).len(),
        old(context).value_type(old(context).arg_values(*function)[arg_idx as int]) == Some(*arg_ty),
        forall|v: Value| #[trigger] call_sites@.contains(v) <==> old(context).is_call_site(*function, v),
    ensures
        res == old(context).all_loaded(*function, arg_idx as int),
        !res ==> *final(context) == *old(context),
        res ==> final(context).demotion_applied(old(context), *function, set![arg_idx as int]),
{
    let ghost old_ctx = *context;
    let f = *function;
    proof {
        assert(old_ctx.function_wf(f));
    }
    // Every call site must pass a `load` for the argument.
    let mut callers_and_ptrs: Vec<(Value, Value)> = Vec::new();
    let mut k: usize = 0;
    while k < call_sites.len()
        invariant
            *context == old_ctx,
            old_ctx == *old(context),
            f == *function,
            context.ir_wf(),
            context.valid_function(f),
            arg_idx < context.arg_values(f).len(),
            forall|v: Value| #[trigger] call_sites@.contains(v) <==> context.is_call_site(f, v),
            0 <= k <= call_sites@.len(),
            callers_and_ptrs@.len() == k,
            forall|j: int|
                0 <= j < k ==> {
                    &&& (#[trigger] callers_and_ptrs@[j]).0 == call_sites@[j]
                    &&& context.load_source(context.call_args(call_sites@[j])[arg_idx as int])
                        == Some(callers_and_ptrs@[j].1)
                },
        decreases call_sites@.len() - k,
    {
        let c = call_sites[k];
        proof {
            assert(call_sites@.contains(c));
            context.lemma_program_values_valid(c);
            assert(context.datum_wf(context.datum(c)));
        }
        let args = match c.get_instruction(context) {
            Some(Instruction::Call(_, args)) => args,
            _ => {
                proof {
                    assert(false);
                }
                return false;
            },
        };
        let a = args[arg_idx];
        proof {
            assert(context.valid_value(args@[arg_idx as int]));
        }
        match a.get_instruction(context) {
            Some(Instruction::Load(ptr_val)) => {
                callers_and_ptrs.push((c, *ptr_val));
            },
            _ => {
                assert(context.is_call_site(f, c));
                assert(context.call_args(c) == args@);
                assert(context.load_source(context.call_args(c)[arg_idx as int]) is None);
                assert(!old_ctx.all_loaded(f, arg_idx as int));
                assert(!old(context).all_loaded(*function, arg_idx as int));
                return false;
            },
        }
        k = k + 1;
    }
    proof {
        assert forall|v: Value| #[trigger] old_ctx.is_call_site(f, v) implies old_ctx.load_source(
            old_ctx.call_args(v)[arg_idx as int],
        ) is Some by {
            assert(call_sites@.contains(v));
            let j = choose|j: int| 0 <= j < call_sites@.len() && call_sites@[j] == v;
            assert(callers_and_ptrs@[j].0 == v);
        }
    }
    // The function now takes a pointer to the argument's type.
    proof {
        assert(old_ctx.valid_value(old_ctx.arg_values(f)[arg_idx as int]));
        assert(old_ctx.datum_wf(old_ctx.datum(old_ctx.arg_values(f)[arg_idx as int])));
    }
    let ptr_ty = Type::new_pointer(context, *arg_ty);
    proof {
        context.lemma_interning_keeps_ir_wf(&old_ctx);
    }
    let ghost after_ptr = *context;
    let arg_val = context.functions[f.0].arguments[arg_idx].1;
    proof {
        assert(arg_val == old_ctx.arg_values(f)[arg_idx as int]);
    }
    set_arg_type(context, arg_val, ptr_ty);
    proof {
        context.lemma_same_type_store(&after_ptr);
    }
    let ghost after_first = *context;
    // The entry block mirrors the function's arguments.
    let entry_block = f.get_entry_block(context);
    let entry_arg = match entry_block.get_arg(context, arg_idx) {
        Some(v) => v,
        None => {
            proof {
                assert(context.function_wf(f));
                assert(false);
            }
            return true;
        },
    };
    proof {
        assert(context.function_wf(f));
        assert(entry_arg == context.arg_values(f)[arg_idx as int]);
        assert(entry_arg == arg_val);
    }
    set_arg_type(context, entry_arg, ptr_ty);
    proof {
        context.lemma_same_type_store(&after_first);
        assert forall|u: Type| #[trigger] old_ctx.has_type(u) implies context.has_type(u)
            && context.content(u) == old_ctx.content(u) && context.rank(u) == old_ctx.rank(u) by {
            assert(after_ptr.has_type(u));
            assert(after_first.has_type(u));
        }
        assert forall|u: Type| #[trigger] context.has_type(u) implies old_ctx.has_type(u) || u == ptr_ty by {
            assert(after_first.has_type(u));
            assert(after_ptr.has_type(u));
        }
    }
    proof {
        assert forall|u: Type| #[trigger] context.has_type(u) && !old_ctx.has_type(u) implies exists|i: int|
            set![arg_idx as int].contains(i) && 0 <= i < old_ctx.arg_values(f).len() && old_ctx.value_type(
                #[trigger] old_ctx.arg_values(f)[i],
            ) == Some(context.content(u)->Pointer_0) && context.content(u) is Pointer by {
            assert(u == ptr_ty);
            assert(set![arg_idx as int].contains(arg_idx as int));
            assert(old_ctx.arg_values(f)[arg_idx as int] == arg_val);
        }
        assert forall|v: Value| #[trigger] old_ctx.valid_value(v) implies context.demoted_value(
            &old_ctx,
            f,
            set![arg_idx as int],
            v,
        ) by {
            if old_ctx.is_call_site(f, v) {
                assert(call_sites@.contains(v));
                let j = choose|j: int| 0 <= j < call_sites@.len() && call_sites@[j] == v;
                assert(callers_and_ptrs@[j].0 == v);
                assert(old_ctx.datum_wf(old_ctx.datum(v)));
            } else if (exists|i: int|
                set![arg_idx as int].contains(i) && 0 <= i < old_ctx.arg_values(f).len()
                    && #[trigger] old_ctx.arg_values(f)[i] == v) && old_ctx.datum(v) is Argument {
                let i = choose|i: int|
                    set![arg_idx as int].contains(i) && 0 <= i < old_ctx.arg_values(f).len()
                        && #[trigger] old_ctx.arg_values(f)[i] == v;
                assert(i == arg_idx);
                assert(v == arg_val);
            } else {
                if v == arg_val {
                    assert(old_ctx.arg_values(f)[arg_idx as int] == v);
                    assert(set![arg_idx as int].contains(arg_idx as int));
                }
            }
        }
    }
    true
}

/// Demotes every argument of `function` whose type is larger than 64 bits
/// or an aggregate, and which every call site passes as a `load`: the
/// argument (of the function and of its entry block) becomes a pointer to
/// its former type.  The call sites are left as they are.  Returns whether
/// any argument was demoted; where none was, the context is left as it
/// was.  The only types added are the pointers to the types of the demoted
/// arguments.
pub fn fn_arg_demotion(
    context: &mut Context,
    _analyses: &AnalysisResults,
    function: Function,
) -> (res: Result<bool, IrError>)
    requires
        old(context).ir_wf(),
        old(context).valid_function(function),
    ensures
        res matches Ok(changed) && changed == exists|i: int| old(context).is_demoted_arg(function, i),
        res == Ok::<bool, IrError>(false) ==> *final(context) == *old(context),
        final(context).demotion_applied(
            old(context),
            function,
            Set::new(|i: int| old(context).is_demoted_arg(function, i)),
        ),
{
    let ghost old_ctx = *context;
    let ghost all_demoted = Set::new(|i: int| old_ctx.is_demoted_arg(function, i));
    // Find candidate argument indices.
    let n = context.functions[function.0].arguments.len();
    let mut candidate_args: Vec<(usize, Type)> = Vec::new();
    let mut i: usize = 0;
    while i < n
        invariant
            *context == old_ctx,
            context.ir_wf(),
            context.valid_function(function),
            n == context.arg_values(function).len(),
            0 <= i <= n,
            forall|j: int|
                0 <= j < candidate_args@.len() ==> {
                    &&& (#[trigger] candidate_args@[j]).0 < i
                    &&& context.is_candidate_arg(function, candidate_args@[j].0 as int)
                    &&& context.value_type(context.arg_values(function)[candidate_args@[j].0 as int])
                        == Some(candidate_args@[j].1)
                },
            forall|j1: int, j2: int|
                0 <= j1 < j2 < candidate_args@.len() ==> #[trigger] candidate_args@[j1].0 < #[trigger] candidate_args@[j2].0,
            forall|x: int|
                0 <= x < i && #[trigger] context.is_candidate_arg(function, x) ==> exists|j: int|
                    0 <= j < candidate_args@.len() && #[trigger] candidate_args@[j].0 == x,
        decreases n - i,
    {
        let arg_val = context.functions[function.0].arguments[i].1;
        proof {
            assert(context.function_wf(function));
            assert(arg_val == context.arg_values(function)[i as int]);
            assert(context.valid_value(arg_val));
            assert(context.datum_wf(context.datum(arg_val)));
        }
        let ghost before = candidate_args@;
        match arg_val.get_type(context) {
            Some(ty) => {
                let demote = match ty.get_content(context) {
                    TypeContent::Unit | TypeContent::Bool | TypeContent::Pointer(_) => false,
                    TypeContent::Uint(bits) => *bits > 64,
                    _ => true,
                };
                if demote {
                    candidate_args.push((i, ty));
                }
            },
            None => {},
        }
        proof {
            assert forall|x: int|
                0 <= x < i + 1 && #[trigger] context.is_candidate_arg(function, x) implies exists|j: int|
                    0 <= j < candidate_args@.len() && #[trigger] candidate_args@[j].0 == x by {
                if x < i {
                    let j = choose|j: int| 0 <= j < before.len() && #[trigger] before[j].0 == x;
                    assert(candidate_args@[j] == before[j]);
                } else {
                    assert(candidate_args@[candidate_args@.len() - 1].0 == x);
                }
            }
        }
        i = i + 1;
    }
    if candidate_args.len() == 0 {
        proof {
            assert forall|x: int| !all_demoted.contains(x) by {
                if old_ctx.is_demoted_arg(function, x) {
                    let j = choose|j: int| 0 <= j < candidate_args@.len() && #[trigger] candidate_args@[j].0 == x;
                }
            }
            old_ctx.lemma_demotion_none(function, all_demoted);
        }
        return Ok(false);
    }
    // Find all the call sites for this function.
    let call_sites = collect_call_sites(context, function);
    let mut result = false;
    let mut k: usize = 0;
    proof {
        old_ctx.lemma_demotion_none(function, Set::<int>::empty());
        assert(Set::new(|i: int| old_ctx.is_demoted_arg(function, i) && exists|j: int| 0 <= j < 0 && candidate_args@[j].0 == i) =~= Set::<int>::empty());
    }
    while k < candidate_args.len()
        invariant
            old_ctx == *old(context),
            old_ctx.ir_wf(),
            old_ctx.valid_function(function),
            0 <= k <= candidate_args@.len(),
            forall|j: int|
                0 <= j < candidate_args@.len() ==> {
                    &&& (#[trigger] candidate_args@[j]).0 < old_ctx.arg_values(function).len()
                    &&& old_ctx.is_candidate_arg(function, candidate_args@[j].0 as int)
                    &&& old_ctx.value_type(old_ctx.arg_values(function)[candidate_args@[j].0 as int])
                        == Some(candidate_args@[j].1)
                },
            forall|j1: int, j2: int|
                0 <= j1 < j2 < candidate_args@.len() ==> #[trigger] candidate_args@[j1].0 < #[trigger] candidate_args@[j2].0,
            forall|v: Value| #[trigger] call_sites@.contains(v) <==> old_ctx.is_call_site(function, v),
            context.demotion_applied(
                &old_ctx,
                function,
                Set::new(|i: int| old_ctx.is_demoted_arg(function, i) && exists|j: int| 0 <= j < k && candidate_args@[j].0 == i),
            ),
            result == exists|j: int| 0 <= j < k && old_ctx.all_loaded(function, #[trigger] candidate_args@[j].0 as int),
            !result ==> *context == old_ctx,
        decreases candidate_args@.len() - k,
    {
        let ghost d = Set::new(|i: int| old_ctx.is_demoted_arg(function, i) && exists|j: int| 0 <= j < k && candidate_args@[j].0 == i);
        let ghost mid = *context;
        let (idx, arg_ty) = candidate_args[k];
        proof {
            assert(!d.contains(idx as int)) by {
                if d.contains(idx as int) {
                    let j = choose|j: int| 0 <= j < k && candidate_args@[j].0 == idx;
                    assert(candidate_args@[j].0 < candidate_args@[k as int].0);
                }
            }
            mid.lemma_demotion_keeps_calls(&old_ctx, function, d);
            mid.lemma_all_loaded_kept(&old_ctx, function, d, idx as int);
            let v = old_ctx.arg_values(function)[idx as int];
            assert(mid.demoted_value(&old_ctx, function, d, v));
            assert(old_ctx.valid_value(v)) by {
                assert(old_ctx.function_wf(function));
            }
            if exists|i2: int| d.contains(i2) && 0 <= i2 < old_ctx.arg_values(function).len() && #[trigger] old_ctx.arg_values(function)[i2] == v {
                let i2 = choose|i2: int| d.contains(i2) && 0 <= i2 < old_ctx.arg_values(function).len() && #[trigger] old_ctx.arg_values(function)[i2] == v;
                old_ctx.lemma_arg_values_distinct(function, idx as int, i2);
            }
            assert(!old_ctx.is_call_site(function, v));
            assert(mid.values@[v.0 as int] == old_ctx.values@[v.0 as int]);
            assert forall|u: Value| #[trigger] call_sites@.contains(u) <==> mid.is_call_site(function, u) by {}
        }
        let demoted = demote_arg(context, &call_sites, &function, idx, &arg_ty);
        proof {
            let d2 = Set::new(|i: int| old_ctx.is_demoted_arg(function, i) && exists|j: int| 0 <= j < k + 1 && candidate_args@[j].0 == i);
            if demoted {
                context.lemma_demotion_compose(&old_ctx, &mid, function, d, idx as int);
                assert forall|i: int| #[trigger] d2.contains(i) == d.insert(idx as int).contains(i) by {
                    if d2.contains(i) && i != idx {
                        let j = choose|j: int| 0 <= j < k + 1 && candidate_args@[j].0 == i;
                        assert(j < k);
                    }
                    if i == idx {
                        assert(candidate_args@[k as int].0 == i);
                    }
                }
                assert(d2 =~= d.insert(idx as int));
            } else {
                assert forall|i: int| #[trigger] d2.contains(i) == d.contains(i) by {
                    if d2.contains(i) {
                        let j = choose|j: int| 0 <= j < k + 1 && candidate_args@[j].0 == i;
                        if j == k {
                            assert(!old_ctx.all_loaded(function, i));
                        }
                    }
                }
                assert(d2 =~= d);
            }
            if demoted || result {
                if demoted {
                    assert(old_ctx.all_loaded(function, candidate_args@[k as int].0 as int));
                }
            }
        }
        result = demoted || result;
        k = k + 1;
    }
    proof {
        let dn = Set::new(|i: int| old_ctx.is_demoted_arg(function, i) && exists|j: int| 0 <= j < k && candidate_args@[j].0 == i);
        assert forall|i: int| #[trigger] dn.contains(i) == all_demoted.contains(i) by {
            if old_ctx.is_demoted_arg(function, i) {
                let j = choose|j: int| 0 <= j < candidate_args@.len() && #[trigger] candidate_args@[j].0 == i;
            }
        }
        assert(dn =~= all_demoted);
        if result {
            let j = choose|j: int| 0 <= j < k && old_ctx.all_loaded(function, #[trigger] candidate_args@[j].0 as int);
            assert(old_ctx.is_demoted_arg(function, candidate_args@[j].0 as int));
        }
        if exists|i: int| old_ctx.is_demoted_arg(function, i) {
            let i = choose|i: int| old_ctx.is_demoted_arg(function, i);
            let j = choose|j: int| 0 <= j < candidate_args@.len() && #[trigger] candidate_args@[j].0 == i;
            assert(old_ctx.all_loaded(function, candidate_args@[j].0 as int));
        }
    }
    Ok(result)
}


/// Every argument whose type is not unit, bool, a pointer or an integer of
/// at most 64 bits (a string, b256, an array, a struct, a union or a wider
/// integer), and which every call passes as a `load`, is demoted by the
/// pass: it is one the pass demotes, so the pass reports a change, and
/// afterwards the argument takes a pointer to its former type.  `after` is
/// what one run of the pass makes of `before`.
pub proof fn lemma_large_loaded_arguments_are_demoted(before: &Context, after: &Context, f: Function, i: int)
    requires
        before.ir_wf(),
        before.valid_function(f),
        after.demotion_applied(before, f, before.demoted_args(f)),
        0 <= i < before.arg_values(f).len(),
        before.datum(before.arg_values(f)[i]) is Argument,
        !(before.content(before.datum(before.arg_values(f)[i])->Argument_0.ty) is Unit),
        !(before.content(before.datum(before.arg_values(f)[i])->Argument_0.ty) is Bool),
        !(before.content(before.datum(before.arg_values(f)[i])->Argument_0.ty) is Pointer),
        !(before.content(before.datum(before.arg_values(f)[i])->Argument_0.ty) matches TypeShape::Uint(bits)
            && bits <= 64),
        forall|v: Value| #[trigger]
            before.is_call_site(f, v) ==> before.load_source(before.call_args(v)[i]) is Some,
    ensures
        before.is_demoted_arg(f, i),
        after.datum(before.arg_values(f)[i]) matches ValueDatum::Argument(ba) && after.content(ba.ty)
            == TypeShape::Pointer(before.datum(before.arg_values(f)[i])->Argument_0.ty),
{
    let v = before.arg_values(f)[i];
    assert(before.is_demoted_arg(f, i));
    assert(before.demoted_args(f).contains(i));
    assert(before.function_wf(f));
    assert(before.valid_value(v));
    assert(after.demoted_value(before, f, before.demoted_args(f), v));
}

/// An argument of unit, bool, pointer or small integer type is never
/// demoted: after the pass it keeps its type.
pub proof fn lemma_small_arguments_are_kept(before: &Context, after: &Context, f: Function, i: int)
    requires
        before.ir_wf(),
        before.valid_function(f),
        after.demotion_applied(before, f, before.demoted_args(f)),
        0 <= i < before.arg_values(f).len(),
        before.datum(before.arg_values(f)[i]) is Argument,
        ({
            let shape = before.content(before.datum(before.arg_values(f)[i])->Argument_0.ty);
            shape is Unit || shape is Bool || shape is Pointer || (shape matches TypeShape::Uint(bits) && bits <= 64)
        }),
    ensures
        !before.is_demoted_arg(f, i),
        after.datum(before.arg_values(f)[i]) == before.datum(before.arg_values(f)[i]),
{
    let v = before.arg_values(f)[i];
    assert(!before.is_demoted_arg(f, i));
    assert(before.function_wf(f));
    assert(before.valid_value(v));
    assert(after.demoted_value(before, f, before.demoted_args(f), v));
    if exists|j: int|
        before.demoted_args(f).contains(j) && 0 <= j < before.arg_values(f).len() && #[trigger] before.arg_values(f)[j]
            == v {
        let j = choose|j: int|
            before.demoted_args(f).contains(j) && 0 <= j < before.arg_values(f).len() && #[trigger] before.arg_values(
                f,
            )[j] == v;
        before.lemma_arg_values_distinct(f, i, j);
    }
}


/// An argument that some call passes as something other than a `load` is
/// never demoted, whatever its type: after the pass it keeps its type.
pub proof fn lemma_arguments_not_loaded_are_kept(before: &Context, after: &Context, f: Function, i: int, call: Value)
    requires
        before.ir_wf(),
        before.valid_function(f),
        after.demotion_applied(before, f, before.demoted_args(f)),
        0 <= i < before.arg_values(f).len(),
        before.datum(before.arg_values(f)[i]) is Argument,
        before.is_call_site(f, call),
        before.load_source(before.call_args(call)[i]) is None,
    ensures
        !before.is_demoted_arg(f, i),
        after.datum(before.arg_values(f)[i]) == before.datum(before.arg_values(f)[i]),
{
    let v = before.arg_values(f)[i];
    assert(!before.all_loaded(f, i));
    assert(!before.is_demoted_arg(f, i));
    assert(before.function_wf(f));
    assert(before.valid_value(v));
    assert(after.demoted_value(before, f, before.demoted_args(f), v));
    if exists|j: int|
        before.demoted_args(f).contains(j) && 0 <= j < before.arg_values(f).len() && #[trigger] before.arg_values(f)[j]
            == v {
        let j = choose|j: int|
            before.demoted_args(f).contains(j) && 0 <= j < before.arg_values(f).len() && #[trigger] before.arg_values(
                f,
            )[j] == v;
        before.lemma_arg_values_distinct(f, i, j);
    }
}

} // verus!
