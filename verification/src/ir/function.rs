//! Values, blocks, functions and modules of the IR.
//!
//! Each of them is a handle into a store of the [`Context`].  A function's
//! first block is its entry block, whose arguments are the function's
//! arguments.

use vstd::prelude::*;

use crate::ir::irtype::{Context, Type};

verus! {

/// A handle to a value in a [`Context`].
#[derive(Clone, Copy, Debug, PartialEq, Eq, Structural, Hash)]
pub struct Value(pub usize);

/// A handle to a block in a [`Context`].
#[derive(Clone, Copy, Debug, PartialEq, Eq, Structural, Hash)]
pub struct Block(pub usize);

/// A handle to a function in a [`Context`].
#[derive(Clone, Copy, Debug, PartialEq, Eq, Structural, Hash)]
pub struct Function(pub usize);

/// A handle to a module in a [`Context`].
#[derive(Clone, Copy, Debug, PartialEq, Eq, Structural, Hash)]
pub struct Module(pub usize);

/// An IR instruction.
#[derive(Debug)]
pub enum Instruction {
    /// A call of a function with one value per argument.
    Call(Function, Vec<Value>),
    /// A load through a pointer value.
    Load(Value),
    /// A store of `stored_val` through the pointer `dst_val`.
    Store { dst_val: Value, stored_val: Value },
    /// A return of a value of the given type.
    Ret(Value, Type),
}

/// An argument of a block.
#[derive(Debug)]
pub struct BlockArgument {
    pub block: Block,
    pub idx: usize,
    pub ty: Type,
}

/// What a value is.
#[derive(Debug)]
pub enum ValueDatum {
    Argument(BlockArgument),
    Constant(Type),
    Instruction(Instruction),
}

#[derive(Debug)]
pub struct ValueContent {
    pub value: ValueDatum,
}

pub struct BlockContent {
    pub function: Function,
    pub args: Vec<Value>,
    pub instructions: Vec<Value>,
}

pub struct FunctionContent {
    pub name: String,
    pub module: Module,
    pub arguments: Vec<(String, Value)>,
    pub blocks: Vec<Block>,
}

pub struct ModuleContent {
    pub functions: Vec<Function>,
}

impl Context {
    pub open spec fn ir_empty(&self) -> bool {
        &&& self.values@.len() == 0
        &&& self.blocks@.len() == 0
        &&& self.functions@.len() == 0
        &&& self.modules@.len() == 0
    }

    pub open spec fn valid_value(&self, v: Value) -> bool {
        v.0 < self.values@.len()
    }

    pub open spec fn valid_block(&self, b: Block) -> bool {
        b.0 < self.blocks@.len()
    }

    pub open spec fn valid_function(&self, f: Function) -> bool {
        f.0 < self.functions@.len()
    }

    pub open spec fn valid_module(&self, m: Module) -> bool {
        m.0 < self.modules@.len()
    }

    pub open spec fn datum(&self, v: Value) -> ValueDatum {
        self.values@[v.0 as int].value
    }

    /// The values of the arguments of `f`.
    pub open spec fn arg_values(&self, f: Function) -> Seq<Value> {
        self.functions@[f.0 as int].arguments@.map_values(|a: (String, Value)| a.1)
    }

    pub open spec fn entry_block(&self, f: Function) -> Block {
        self.functions@[f.0 as int].blocks@[0]
    }

    /// Whether an instruction refers only to values, functions and types of
    /// the context, and a call passes one value per argument of the callee.
    pub open spec fn instruction_wf(&self, i: Instruction) -> bool {
        match i {
            Instruction::Call(g, args) => {
                &&& self.valid_function(g)
                &&& args@.len() == self.functions@[g.0 as int].arguments@.len()
                &&& forall|k: int| 0 <= k < args@.len() ==> self.valid_value(#[trigger] args@[k])
            },
            Instruction::Load(p) => self.valid_value(p),
            Instruction::Store { dst_val, stored_val } => self.valid_value(dst_val)
                && self.valid_value(stored_val),
            Instruction::Ret(v, t) => self.valid_value(v) && self.has_type(t),
        }
    }

    pub open spec fn datum_wf(&self, d: ValueDatum) -> bool {
        match d {
            ValueDatum::Argument(ba) => self.has_type(ba.ty),
            ValueDatum::Constant(t) => self.has_type(t),
            ValueDatum::Instruction(i) => self.instruction_wf(i),
        }
    }

    pub open spec fn function_wf(&self, f: Function) -> bool {
        let fc = self.functions@[f.0 as int];
        &&& self.valid_module(fc.module)
        &&& fc.blocks@.len() > 0
        &&& forall|j: int| 0 <= j < fc.blocks@.len() ==> self.valid_block(#[trigger] fc.blocks@[j])
        &&& self.blocks@[fc.blocks@[0].0 as int].args@ == self.arg_values(f)
        &&& forall|k: int| 0 <= k < fc.arguments@.len() ==> self.valid_value(#[trigger] fc.arguments@[k].1)
        &&& forall|k1: int, k2: int|
            0 <= k1 < fc.arguments@.len() && 0 <= k2 < fc.arguments@.len() && k1 != k2
                ==> #[trigger] fc.arguments@[k1].1 != #[trigger] fc.arguments@[k2].1
    }

    pub open spec fn block_wf(&self, b: Block) -> bool {
        let bc = self.blocks@[b.0 as int];
        &&& self.valid_function(bc.function)
        &&& forall|k: int| 0 <= k < bc.args@.len() ==> self.valid_value(#[trigger] bc.args@[k])
        &&& forall|k: int|
            0 <= k < bc.instructions@.len() ==> {
                &&& self.valid_value(#[trigger] bc.instructions@[k])
                &&& self.datum(bc.instructions@[k]) is Instruction
            }
    }

    pub open spec fn module_wf(&self, m: Module) -> bool {
        forall|j: int|
            0 <= j < self.modules@[m.0 as int].functions@.len() ==> self.valid_function(
                #[trigger] self.modules@[m.0 as int].functions@[j],
            )
    }

    /// The invariant of the IR: every handle refers into the context.
    pub open spec fn ir_wf(&self) -> bool {
        &&& self.types_wf()
        &&& forall|v: Value| #[trigger] self.valid_value(v) ==> self.datum_wf(self.datum(v))
        &&& forall|b: Block| #[trigger] self.valid_block(b) ==> self.block_wf(b)
        &&& forall|f: Function| #[trigger] self.valid_function(f) ==> self.function_wf(f)
        &&& forall|m: Module| #[trigger] self.valid_module(m) ==> self.module_wf(m)
    }
}

impl Context {
    /// Interning types keeps every handle of the IR valid.
    pub proof fn lemma_interning_keeps_ir_wf(&self, old: &Context)
        requires
            old.ir_wf(),
            self.types_wf(),
            self.same_ir(old),
            self.extends_types(old),
        ensures
            self.ir_wf(),
    {
        assert forall|v: Value| #[trigger] self.valid_value(v) implies self.datum_wf(self.datum(v)) by {
            assert(old.valid_value(v));
            assert(self.datum(v) == old.datum(v));
            assert(old.datum_wf(old.datum(v)));
            match self.datum(v) {
                ValueDatum::Argument(ba) => assert(old.has_type(ba.ty)),
                ValueDatum::Constant(t) => assert(old.has_type(t)),
                ValueDatum::Instruction(i) => match i {
                    Instruction::Ret(_, t) => assert(old.has_type(t)),
                    _ => {},
                },
            }
        }
        assert forall|b: Block| #[trigger] self.valid_block(b) implies self.block_wf(b) by {
            assert(old.valid_block(b));
        }
        assert forall|f: Function| #[trigger] self.valid_function(f) implies self.function_wf(f) by {
            assert(old.valid_function(f));
        }
        assert forall|m: Module| #[trigger] self.valid_module(m) implies self.module_wf(m) by {
            assert(old.valid_module(m));
        }
    }
}

impl Context {
    /// Changing some values keeps the IR well formed when each changed value
    /// is well formed and stays an instruction exactly when it was one.
    pub proof fn lemma_value_changes_keep_ir_wf(&self, old: &Context)
        requires
            old.ir_wf(),
            self.types_wf(),
            self.extends_types(old),
            self.blocks == old.blocks,
            self.functions == old.functions,
            self.modules == old.modules,
            self.values@.len() == old.values@.len(),
            forall|u: Value| #[trigger]
                old.valid_value(u) ==> self.values@[u.0 as int] == old.values@[u.0 as int] || (
                self.datum_wf(self.datum(u)) && (self.datum(u) is Instruction <==> old.datum(
                    u,
                ) is Instruction)),
        ensures
            self.ir_wf(),
    {
        assert forall|v: Value| #[trigger] self.valid_value(v) implies self.datum_wf(self.datum(v)) by {
            assert(old.valid_value(v));
            if self.values@[v.0 as int] == old.values@[v.0 as int] {
                assert(old.datum_wf(old.datum(v)));
                match self.datum(v) {
                    ValueDatum::Argument(ba) => assert(old.has_type(ba.ty)),
                    ValueDatum::Constant(t) => assert(old.has_type(t)),
                    ValueDatum::Instruction(i) => match i {
                        Instruction::Ret(_, t) => assert(old.has_type(t)),
                        _ => {},
                    },
                }
            }
        }
        assert forall|b: Block| #[trigger] self.valid_block(b) implies self.block_wf(b) by {
            assert(old.valid_block(b));
            let bc = self.blocks@[b.0 as int];
            assert forall|k: int| 0 <= k < bc.instructions@.len() implies {
                &&& self.valid_value(#[trigger] bc.instructions@[k])
                &&& self.datum(bc.instructions@[k]) is Instruction
            } by {
                assert(old.valid_value(bc.instructions@[k]));
            }
        }
        assert forall|f: Function| #[trigger] self.valid_function(f) implies self.function_wf(f) by {
            assert(old.valid_function(f));
        }
        assert forall|m: Module| #[trigger] self.valid_module(m) implies self.module_wf(m) by {
            assert(old.valid_module(m));
        }
    }
}

impl Module {
    /// A new module with no functions.
    pub fn new(context: &mut Context) -> (res: Module)
        requires
            old(context).ir_wf(),
        ensures
            final(context).ir_wf(),
            final(context).type_view() == old(context).type_view(),
            final(context).values == old(context).values,
            final(context).blocks == old(context).blocks,
            final(context).functions == old(context).functions,
            final(context).modules@.len() == old(context).modules@.len() + 1,
            final(context).modules@.subrange(0, old(context).modules@.len() as int) == old(context).modules@,
            final(context).modules@[res.0 as int].functions@.len() == 0,
            res.0 == old(context).modules@.len(),
    {
        let ghost old_ctx = *context;
        context.modules.push(ModuleContent { functions: Vec::new() });
        let res = Module(context.modules.len() - 1);
        proof {
            assert(context.modules@.subrange(0, old_ctx.modules@.len() as int) =~= old_ctx.modules@);
            context.lemma_same_type_store(&old_ctx);
            assert forall|v: Value| #[trigger] context.valid_value(v) implies context.datum_wf(
                context.datum(v),
            ) by {
                assert(old_ctx.valid_value(v));
            }
            assert forall|b: Block| #[trigger] context.valid_block(b) implies context.block_wf(b) by {
                assert(old_ctx.valid_block(b));
            }
            assert forall|f: Function| #[trigger] context.valid_function(f) implies context.function_wf(f) by {
                assert(old_ctx.valid_function(f));
            }
            assert forall|m: Module| #[trigger] context.valid_module(m) implies context.module_wf(m) by {
                if m != res {
                    assert(old_ctx.valid_module(m));
                    assert(context.modules@[m.0 as int] == old_ctx.modules@[m.0 as int]);
                }
            }
        }
        res
    }
}

impl Function {
    /// A new function of `module` whose entry block takes one argument per
    /// entry of `args`, with the given name and type, and holds no
    /// instruction yet.
    pub fn new(context: &mut Context, module: Module, name: String, args: Vec<(String, Type)>) -> (res:
        Function)
        requires
            old(context).ir_wf(),
            old(context).valid_module(module),
            forall|i: int| 0 <= i < args@.len() ==> old(context).has_type(#[trigger] args@[i].1),
        ensures
            final(context).ir_wf(),
            final(context).type_view() == old(context).type_view(),
            res.0 == old(context).functions@.len(),
            final(context).valid_function(res),
            final(context).functions@.len() == old(context).functions@.len() + 1,
            final(context).functions@.subrange(0, res.0 as int) == old(context).functions@,
            final(context).values@.len() == old(context).values@.len() + args@.len(),
            final(context).values@.subrange(0, old(context).values@.len() as int) == old(context).values@,
            final(context).blocks@.len() == old(context).blocks@.len() + 1,
            final(context).blocks@.subrange(0, old(context).blocks@.len() as int) == old(context).blocks@,
            final(context).entry_block(res).0 == old(context).blocks@.len(),
            final(context).functions@[res.0 as int].blocks@.len() == 1,
            final(context).functions@[res.0 as int].name@ == name@,
            final(context).functions@[res.0 as int].module == module,
            final(context).blocks@[final(context).entry_block(res).0 as int].instructions@.len() == 0,
            final(context).arg_values(res).len() == args@.len(),
            forall|i: int|
                0 <= i < args@.len() ==> {
                    &&& (#[trigger] final(context).arg_values(res)[i]).0 == old(context).values@.len() + i
                    &&& final(context).functions@[res.0 as int].arguments@[i].0@ == args@[i].0@
                    &&& final(context).datum(final(context).arg_values(res)[i])
                        == ValueDatum::Argument(
                        BlockArgument {
                            block: final(context).entry_block(res),
                            idx: i as usize,
                            ty: args@[i].1,
                        },
                    )
                },
            final(context).modules@.len() == old(context).modules@.len(),
            final(context).modules@[module.0 as int].functions@ == old(context).modules@[module.0 as int].functions@.push(res),
            forall|m: int|
                0 <= m < old(context).modules@.len() && m != module.0 ==> #[trigger] final(context).modules@[m]
                    == old(context).modules@[m],
    {
        let ghost old_ctx = *context;
        let f = Function(context.functions.len());
        let b = Block(context.blocks.len());
        let mut arguments: Vec<(String, Value)> = Vec::new();
        let mut block_args: Vec<Value> = Vec::new();
        let n = args.len();
        let mut i: usize = 0;
        while i < n
            invariant
                n == args@.len(),
                0 <= i <= n,
                context.same_type_store(&old_ctx),
                context.blocks == old_ctx.blocks,
                context.functions == old_ctx.functions,
                context.modules == old_ctx.modules,
                context.values@.len() == old_ctx.values@.len() + i,
                context.values@.subrange(0, old_ctx.values@.len() as int) == old_ctx.values@,
                b.0 == old_ctx.blocks@.len(),
                arguments@.len() == i,
                block_args@.len() == i,
                forall|k: int| 0 <= k < i ==> {
                    &&& (#[trigger] arguments@[k]).1 == block_args@[k]
                    &&& arguments@[k].0@ == args@[k].0@
                    &&& block_args@[k].0 == old_ctx.values@.len() + k
                    &&& context.values@[old_ctx.values@.len() + k].value == ValueDatum::Argument(
                        BlockArgument { block: b, idx: k as usize, ty: args@[k].1 },
                    )
                },
            decreases n - i,
        {
            let v = Value(context.values.len());
            context.values.push(
                ValueContent { value: ValueDatum::Argument(BlockArgument { block: b, idx: i, ty: args[i].1 }) },
            );
            arguments.push((args[i].0.clone(), v));
            block_args.push(v);
            proof {
                assert(context.values@.subrange(0, old_ctx.values@.len() as int) =~= old_ctx.values@.subrange(0, old_ctx.values@.len() as int));
            }
            i = i + 1;
        }
        context.blocks.push(BlockContent { function: f, args: block_args, instructions: Vec::new() });
        let mut blocks: Vec<Block> = Vec::new();
        blocks.push(b);
        context.functions.push(FunctionContent { name, module, arguments, blocks });
        context.modules[module.0].functions.push(f);
        proof {
            context.lemma_same_type_store(&old_ctx);
            assert(context.arg_values(f) =~= block_args@);
            assert(context.values@.subrange(0, old_ctx.values@.len() as int) =~= old_ctx.values@);
            assert(context.blocks@.subrange(0, old_ctx.blocks@.len() as int) =~= old_ctx.blocks@);
            assert(context.functions@.subrange(0, f.0 as int) =~= old_ctx.functions@);
            assert forall|v: Value| #[trigger] context.valid_value(v) implies context.datum_wf(
                context.datum(v),
            ) by {
                if v.0 < old_ctx.values@.len() {
                    assert(old_ctx.valid_value(v));
                    assert(context.datum(v) == old_ctx.datum(v));
                    assert(old_ctx.datum_wf(old_ctx.datum(v)));
                } else {
                    let k = v.0 - old_ctx.values@.len();
                    assert(arguments@[k].1 == block_args@[k]);
                }
            }
            assert forall|bb: Block| #[trigger] context.valid_block(bb) implies context.block_wf(bb) by {
                if bb.0 < old_ctx.blocks@.len() {
                    assert(old_ctx.valid_block(bb));
                    assert(context.blocks@[bb.0 as int] == old_ctx.blocks@[bb.0 as int]);
                    let bc = old_ctx.blocks@[bb.0 as int];
                    assert forall|k: int| 0 <= k < bc.instructions@.len() implies {
                        &&& context.valid_value(#[trigger] bc.instructions@[k])
                        &&& context.datum(bc.instructions@[k]) is Instruction
                    } by {
                        assert(old_ctx.valid_value(bc.instructions@[k]));
                    }
                } else {
                    assert(bb == b);
                }
            }
            assert forall|g: Function| #[trigger] context.valid_function(g) implies context.function_wf(g) by {
                if g.0 < old_ctx.functions@.len() {
                    assert(old_ctx.valid_function(g));
                    assert(context.functions@[g.0 as int] == old_ctx.functions@[g.0 as int]);
                    let fc = old_ctx.functions@[g.0 as int];
                    assert(old_ctx.valid_block(fc.blocks@[0]));
                    assert(context.blocks@[fc.blocks@[0].0 as int] == old_ctx.blocks@[fc.blocks@[0].0 as int]);
                    assert(context.arg_values(g) =~= old_ctx.arg_values(g));
                } else {
                    assert(g == f);
                    assert forall|k1: int, k2: int|
                        0 <= k1 < arguments@.len() && 0 <= k2 < arguments@.len() && k1 != k2
                            implies #[trigger] arguments@[k1].1 != #[trigger] arguments@[k2].1 by {
                        assert(block_args@[k1].0 == old_ctx.values@.len() + k1);
                        assert(block_args@[k2].0 == old_ctx.values@.len() + k2);
                    }
                }
            }
            assert forall|m: Module| #[trigger] context.valid_module(m) implies context.module_wf(m) by {
                assert(old_ctx.valid_module(m));
                if m != module {
                    assert(context.modules@[m.0 as int] == old_ctx.modules@[m.0 as int]);
                }
            }
        }
        f
    }

    /// The entry block of this function.
    pub fn get_entry_block(&self, context: &Context) -> (res: Block)
        requires
            context.ir_wf(),
            context.valid_function(*self),
        ensures
            res == context.entry_block(*self),
            context.valid_block(res),
    {
        proof {
            assert(context.function_wf(*self));
        }
        context.functions[self.0].blocks[0]
    }

    /// The number of arguments of this function.
    pub fn num_args(&self, context: &Context) -> (res: usize)
        requires
            context.valid_function(*self),
        ensures
            res == context.arg_values(*self).len(),
    {
        context.functions[self.0].arguments.len()
    }
}

impl Block {
    /// Appends an instruction to the block, as a new value.
    pub fn append_instruction(&self, context: &mut Context, instruction: Instruction) -> (res: Value)
        requires
            old(context).ir_wf(),
            old(context).valid_block(*self),
            old(context).instruction_wf(instruction),
        ensures
            final(context).ir_wf(),
            final(context).type_view() == old(context).type_view(),
            res.0 == old(context).values@.len(),
            final(context).values@ == old(context).values@.push(
                ValueContent { value: ValueDatum::Instruction(instruction) },
            ),
            final(context).blocks@.len() == old(context).blocks@.len(),
            final(context).blocks@[self.0 as int].instructions@ == old(context).blocks@[self.0 as int].instructions@.push(res),
            final(context).blocks@[self.0 as int].args == old(context).blocks@[self.0 as int].args,
            final(context).blocks@[self.0 as int].function == old(context).blocks@[self.0 as int].function,
            forall|k: int|
                0 <= k < old(context).blocks@.len() && k != self.0 ==> #[trigger] final(context).blocks@[k]
                    == old(context).blocks@[k],
            final(context).functions == old(context).functions,
            final(context).modules == old(context).modules,
    {
        let ghost old_ctx = *context;
        let v = Value(context.values.len());
        context.values.push(ValueContent { value: ValueDatum::Instruction(instruction) });
        context.blocks[self.0].instructions.push(v);
        proof {
            context.lemma_same_type_store(&old_ctx);
            assert forall|u: Value| #[trigger] context.valid_value(u) implies context.datum_wf(
                context.datum(u),
            ) by {
                if u.0 < old_ctx.values@.len() {
                    assert(old_ctx.valid_value(u));
                    assert(context.datum(u) == old_ctx.datum(u));
                    assert(old_ctx.datum_wf(old_ctx.datum(u)));
                    match context.datum(u) {
                        ValueDatum::Instruction(Instruction::Call(g, args)) => {
                            assert forall|k: int| 0 <= k < args@.len() implies context.valid_value(#[trigger] args@[k]) by {
                                assert(old_ctx.valid_value(args@[k]));
                            }
                        },
                        _ => {},
                    }
                } else {
                    match context.datum(u) {
                        ValueDatum::Instruction(Instruction::Call(g, args)) => {
                            assert forall|k: int| 0 <= k < args@.len() implies context.valid_value(#[trigger] args@[k]) by {
                                assert(old_ctx.valid_value(args@[k]));
                            }
                        },
                        _ => {},
                    }
                }
            }
            assert forall|bb: Block| #[trigger] context.valid_block(bb) implies context.block_wf(bb) by {
                assert(old_ctx.valid_block(bb));
                let bc = context.blocks@[bb.0 as int];
                assert forall|k: int| 0 <= k < bc.instructions@.len() implies {
                    &&& context.valid_value(#[trigger] bc.instructions@[k])
                    &&& context.datum(bc.instructions@[k]) is Instruction
                } by {
                    if bb != *self || k < old_ctx.blocks@[bb.0 as int].instructions@.len() {
                        assert(bc.instructions@[k] == old_ctx.blocks@[bb.0 as int].instructions@[k]);
                        assert(old_ctx.valid_value(bc.instructions@[k]));
                    }
                }
                assert forall|k: int| 0 <= k < bc.args@.len() implies context.valid_value(#[trigger] bc.args@[k]) by {
                    assert(old_ctx.valid_value(bc.args@[k]));
                }
            }
            assert forall|g: Function| #[trigger] context.valid_function(g) implies context.function_wf(g) by {
                assert(old_ctx.valid_function(g));
                let fc = old_ctx.functions@[g.0 as int];
                assert(old_ctx.valid_block(fc.blocks@[0]));
                assert forall|k: int| 0 <= k < fc.arguments@.len() implies context.valid_value(#[trigger] fc.arguments@[k].1) by {
                    assert(old_ctx.valid_value(fc.arguments@[k].1));
                }
            }
            assert forall|m: Module| #[trigger] context.valid_module(m) implies context.module_wf(m) by {
                assert(old_ctx.valid_module(m));
            }
        }
        v
    }

    /// The argument `idx` of this block, if it has one.
    pub fn get_arg(&self, context: &Context, idx: usize) -> (res: Option<Value>)
        requires
            context.valid_block(*self),
        ensures
            res == (if idx < context.blocks@[self.0 as int].args@.len() {
                Some(context.blocks@[self.0 as int].args@[idx as int])
            } else {
                None
            }),
    {
        let args = &context.blocks[self.0].args;
        if idx < args.len() {
            Some(args[idx])
        } else {
            None
        }
    }
}

impl Value {
    /// The type of an argument or a constant; instructions have none here.
    pub fn get_type(&self, context: &Context) -> (res: Option<Type>)
        requires
            context.valid_value(*self),
        ensures
            res == (match context.datum(*self) {
                ValueDatum::Argument(ba) => Some(ba.ty),
                ValueDatum::Constant(t) => Some(t),
                ValueDatum::Instruction(_) => None,
            }),
    {
        match &context.values[self.0].value {
            ValueDatum::Argument(ba) => Some(ba.ty),
            ValueDatum::Constant(t) => Some(*t),
            ValueDatum::Instruction(_) => None,
        }
    }

    /// The instruction of this value, if it is one.
    pub fn get_instruction<'a>(&self, context: &'a Context) -> (res: Option<&'a Instruction>)
        requires
            context.valid_value(*self),
        ensures
            res == (match context.datum(*self) {
                ValueDatum::Instruction(i) => Some(&i),
                _ => None,
            }),
    {
        match &context.values[self.0].value {
            ValueDatum::Instruction(i) => Some(i),
            _ => None,
        }
    }
}

} // verus!
