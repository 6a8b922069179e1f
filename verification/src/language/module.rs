//! Typed modules: their nodes and their submodules.

use vstd::prelude::*;

use crate::decl_engine::{DeclEngine, DeclId};
use crate::language::declaration::{DeclWrapper, TyFunctionDeclaration};
use crate::language::ty::{TyAstNode, TyAstNodeContent, TyDeclaration};
use crate::span::Ident;

verus! {

/// A typed module: its submodules, each under the name it was declared
/// with, and all its nodes.
pub struct TyModule {
    pub submodules: Vec<(Ident, TySubmodule)>,
    pub all_nodes: Vec<TyAstNode>,
}

/// A submodule: the name of its library and its module.
pub struct TySubmodule {
    pub library_name: Ident,
    pub module: TyModule,
}

/// All the submodules below a list of submodules, depth first: each
/// submodule comes after everything below it.
pub open spec fn submodules_below(subs: Seq<(Ident, TySubmodule)>) -> Seq<(Ident, TySubmodule)>
    decreases subs, 0nat,
{
    if subs.len() == 0 {
        Seq::empty()
    } else {
        submodules_below(subs.drop_last()) + submodule_and_below(subs.last())
    }
}

/// A submodule after everything below it.
pub open spec fn submodule_and_below(sub: (Ident, TySubmodule)) -> Seq<(Ident, TySubmodule)>
    decreases sub, 1nat,
{
    submodules_below(sub.1.module.submodules@).push(sub)
}

/// Whether the references of `refs` are to the entries of `entries`, in
/// order.
pub open spec fn refers_to(refs: Seq<&(Ident, TySubmodule)>, entries: Seq<(Ident, TySubmodule)>) -> bool {
    refs.len() == entries.len() && forall|i: int| 0 <= i < refs.len() ==> *#[trigger] refs[i] == entries[i]
}

proof fn lemma_refers_to_concat(
    r1: Seq<&(Ident, TySubmodule)>,
    e1: Seq<(Ident, TySubmodule)>,
    r2: Seq<&(Ident, TySubmodule)>,
    e2: Seq<(Ident, TySubmodule)>,
)
    requires
        refers_to(r1, e1),
        refers_to(r2, e2),
    ensures
        refers_to(r1 + r2, e1 + e2),
{
    assert forall|i: int| 0 <= i < (r1 + r2).len() implies *#[trigger] (r1 + r2)[i] == (e1 + e2)[i] by {
        if i < r1.len() {
            assert((r1 + r2)[i] == r1[i]);
        } else {
            assert((r1 + r2)[i] == r2[i - r1.len()]);
        }
    }
}

fn collect_below<'a>(subs: &'a Vec<(Ident, TySubmodule)>) -> (res: Vec<&'a (Ident, TySubmodule)>)
    ensures
        refers_to(res@, submodules_below(subs@)),
    decreases subs@, 2nat,
{
    let mut res: Vec<&(Ident, TySubmodule)> = Vec::new();
    let mut i: usize = 0;
    while i < subs.len()
        invariant
            0 <= i <= subs@.len(),
            refers_to(res@, submodules_below(subs@.subrange(0, i as int))),
        decreases subs@.len() - i,
    {
        let ghost before = res@;
        let entry = &subs[i];
        let mut below = collect_below(&entry.1.module.submodules);
        below.push(entry);
        assert(subs@.subrange(0, i + 1).drop_last() =~= subs@.subrange(0, i as int));
        assert(refers_to(below@, submodule_and_below(subs@[i as int])));
        res.append(&mut below);
        proof {
            lemma_refers_to_concat(
                before,
                submodules_below(subs@.subrange(0, i as int)),
                res@.subrange(before.len() as int, res@.len() as int),
                submodule_and_below(subs@[i as int]),
            );
            assert(before + res@.subrange(before.len() as int, res@.len() as int) =~= res@);
        }
        i = i + 1;
    }
    assert(subs@.subrange(0, subs@.len() as int) =~= subs@);
    res
}

/// Whether `n` declares a function.
pub open spec fn declares_function(n: TyAstNode) -> bool {
    n.content matches TyAstNodeContent::Declaration(TyDeclaration::FunctionDeclaration(_, _))
}

/// The id of the function that `n` declares.
pub open spec fn declared_function_id(n: TyAstNode) -> DeclId
    recommends
        declares_function(n),
{
    match n.content {
        TyAstNodeContent::Declaration(TyDeclaration::FunctionDeclaration(id, _)) => id,
        _ => arbitrary(),
    }
}

/// The test functions declared by `nodes`, with their ids, in order.
pub open spec fn test_functions(de: &DeclEngine, nodes: Seq<TyAstNode>) -> Seq<(TyFunctionDeclaration, DeclId)>
    decreases nodes.len(),
{
    if nodes.len() == 0 {
        Seq::empty()
    } else {
        let rest = test_functions(de, nodes.drop_last());
        let n = nodes.last();
        if declares_function(n) {
            match de.decl(declared_function_id(n)) {
                DeclWrapper::Function(f) => if f.spec_is_test() {
                    rest.push((f, declared_function_id(n)))
                } else {
                    rest
                },
                _ => rest,
            }
        } else {
            rest
        }
    }
}

/// The submodules of a module, recursively, depth first, handed out one by
/// one.
pub struct SubmodulesRecursive<'module> {
    entries: Vec<&'module (Ident, TySubmodule)>,
    next_index: usize,
}

impl<'module> SubmodulesRecursive<'module> {
    /// The submodules still to be handed out, in order.
    pub closed spec fn remaining(&self) -> Seq<(Ident, TySubmodule)> {
        self.entries@.subrange(self.next_index as int, self.entries@.len() as int).map_values(
            |r: &'module (Ident, TySubmodule)| *r,
        )
    }

    pub closed spec fn well_formed(&self) -> bool {
        self.next_index <= self.entries@.len()
    }

    /// What one call of `next` does: on `before`, it hands out `res` and
    /// leaves `after`.
    pub open spec fn next_step(
        before: SubmodulesRecursive<'module>,
        res: Option<&'module (Ident, TySubmodule)>,
        after: SubmodulesRecursive<'module>,
    ) -> bool {
        &&& after.well_formed()
        &&& before.remaining().len() == 0 ==> res is None && after.remaining() == before.remaining()
        &&& before.remaining().len() > 0 ==> (res matches Some(r) && *r == before.remaining()[0]
            && after.remaining() == before.remaining().subrange(1, before.remaining().len() as int))
    }

    /// The next submodule, if any is left.
    pub fn next(&mut self) -> (res: Option<&'module (Ident, TySubmodule)>)
        requires
            old(self).well_formed(),
        ensures
            Self::next_step(*old(self), res, *final(self)),
            final(self).well_formed(),
            old(self).remaining().len() == 0 ==> res is None && final(self).remaining() == old(self).remaining(),
            old(self).remaining().len() > 0 ==> (res matches Some(r) && *r == old(self).remaining()[0]
                && final(self).remaining() == old(self).remaining().subrange(1, old(self).remaining().len() as int)),
    {
        if self.next_index < self.entries.len() {
            let r = self.entries[self.next_index];
            self.next_index = self.next_index + 1;
            proof {
                assert(self.remaining() =~= old(self).remaining().subrange(1, old(self).remaining().len() as int));
            }
            Some(r)
        } else {
            None
        }
    }
}

impl TyModule {
    /// All submodules, recursively, depth first: each submodule comes
    /// after everything below it.
    pub fn submodules_recursive(&self) -> (res: SubmodulesRecursive)
        ensures
            res.well_formed(),
            res.remaining() == submodules_below(self.submodules@),
    {
        let entries = collect_below(&self.submodules);
        let res = SubmodulesRecursive { entries, next_index: 0 };
        proof {
            assert(res.remaining() =~= submodules_below(self.submodules@));
        }
        res
    }

    /// Whether every function that a node of this module declares is
    /// stored in `decl_engine` as a function.
    pub open spec fn functions_stored(&self, decl_engine: &DeclEngine) -> bool {
        forall|i: int|
            0 <= i < self.all_nodes@.len() && declares_function(#[trigger] self.all_nodes@[i]) ==> {
                &&& decl_engine.valid(declared_function_id(self.all_nodes@[i]))
                &&& decl_engine.decl(declared_function_id(self.all_nodes@[i])) is Function
            }
    }

    /// All test functions declared by the nodes of this module, with their
    /// ids, in order.
    pub fn test_fns<'a>(&self, decl_engine: &'a DeclEngine) -> (res: Vec<(&'a TyFunctionDeclaration, DeclId)>)
        requires
            self.functions_stored(decl_engine),
        ensures
            res@.map_values(|p: (&'a TyFunctionDeclaration, DeclId)| (*p.0, p.1)) == test_functions(
                decl_engine,
                self.all_nodes@,
            ),
    {
        let mut res: Vec<(&'a TyFunctionDeclaration, DeclId)> = Vec::new();
        let mut i: usize = 0;
        while i < self.all_nodes.len()
            invariant
                self.functions_stored(decl_engine),
                0 <= i <= self.all_nodes@.len(),
                res@.map_values(|p: (&'a TyFunctionDeclaration, DeclId)| (*p.0, p.1)) == test_functions(
                    decl_engine,
                    self.all_nodes@.subrange(0, i as int),
                ),
            decreases self.all_nodes@.len() - i,
        {
            let node = &self.all_nodes[i];
            let ghost prefix = self.all_nodes@.subrange(0, i + 1);
            assert(prefix.drop_last() =~= self.all_nodes@.subrange(0, i as int));
            assert(prefix.last() == *node);
            if let TyAstNodeContent::Declaration(TyDeclaration::FunctionDeclaration(decl_id, _)) = &node.content {
                assert(declares_function(self.all_nodes@[i as int]));
                match decl_engine.get_function(*decl_id, &node.span) {
                    Ok(fn_decl) => {
                        if fn_decl.is_test() {
                            res.push((fn_decl, *decl_id));
                            assert(res@.map_values(|p: (&'a TyFunctionDeclaration, DeclId)| (*p.0, p.1))
                                =~= test_functions(decl_engine, prefix));
                        }
                    },
                    Err(_) => {},
                }
            }
            i = i + 1;
        }
        assert(self.all_nodes@.subrange(0, self.all_nodes@.len() as int) =~= self.all_nodes@);
        res
    }
}

/// Calling `next` over and over on the submodules of `m` hands out every
/// submodule below `m` once, in order, each after everything below it, and
/// nothing once they are all out: `states` are the successive iterators,
/// the first made by `submodules_recursive`, and `outs` what the calls
/// handed out.
pub proof fn lemma_repeated_next<'module>(
    m: TyModule,
    states: Seq<SubmodulesRecursive<'module>>,
    outs: Seq<Option<&'module (Ident, TySubmodule)>>,
)
    requires
        states.len() == outs.len() + 1,
        states[0].well_formed(),
        states[0].remaining() == submodules_below(m.submodules@),
        forall|k: int|
            0 <= k < outs.len() ==> SubmodulesRecursive::next_step(#[trigger] states[k], outs[k], states[k + 1]),
    ensures
        forall|k: int|
            0 <= k < outs.len() ==> if k < submodules_below(m.submodules@).len() {
                #[trigger] outs[k] matches Some(r) && *r == submodules_below(m.submodules@)[k]
            } else {
                outs[k] is None
            },
{
    let below = submodules_below(m.submodules@);
    assert forall|k: int|
        0 <= k < outs.len() implies if k < below.len() {
            #[trigger] outs[k] matches Some(r) && *r == below[k]
        } else {
            outs[k] is None
        } by {
        lemma_remaining_after(below, states, outs, k);
    }
}

proof fn lemma_remaining_after<'module>(
    below: Seq<(Ident, TySubmodule)>,
    states: Seq<SubmodulesRecursive<'module>>,
    outs: Seq<Option<&'module (Ident, TySubmodule)>>,
    k: int,
)
    requires
        states.len() == outs.len() + 1,
        states[0].remaining() == below,
        forall|j: int|
            0 <= j < outs.len() ==> SubmodulesRecursive::next_step(#[trigger] states[j], outs[j], states[j + 1]),
        0 <= k <= outs.len(),
    ensures
        states[k].remaining() == below.subrange(if k < below.len() { k } else { below.len() as int }, below.len() as int),
        k < outs.len() ==> if k < below.len() {
            outs[k] matches Some(r) && *r == below[k]
        } else {
            outs[k] is None
        },
    decreases k,
{
    if k == 0 {
        assert(below.subrange(0, below.len() as int) =~= below);
    } else {
        lemma_remaining_after(below, states, outs, k - 1);
        assert(SubmodulesRecursive::next_step(states[k - 1], outs[k - 1], states[k]));
        if k - 1 < below.len() {
            let lo = k - 1;
            assert(states[k - 1].remaining().subrange(1, states[k - 1].remaining().len() as int) =~= below.subrange(
                lo + 1,
                below.len() as int,
            ));
        }
    }
    if k < outs.len() {
        assert(SubmodulesRecursive::next_step(states[k], outs[k], states[k + 1]));
    }
}

} // verus!
