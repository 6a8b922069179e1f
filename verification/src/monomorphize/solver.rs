//! The solver of monomorphization constraints: what it starts from.

use vstd::prelude::*;

use crate::decl_engine::DeclEngine;
use crate::monomorphize::constraint::Constraint;
use crate::type_system::TypeEngine;

verus! {

/// The state of solving the constraints gathered from a program: the
/// engines that give their types and declarations meaning, and the
/// constraints left to solve.
pub struct Solver<'a> {
    pub type_engine: &'a TypeEngine,
    pub decl_engine: &'a DeclEngine,
    pub constraints: Vec<Constraint<'a>>,
}

impl<'a> Solver<'a> {
    /// A solver of `constraints` over the given engines.
    pub fn new(type_engine: &'a TypeEngine, decl_engine: &'a DeclEngine, constraints: Vec<Constraint<'a>>) -> (res:
        Solver<'a>)
        ensures
            res.type_engine == type_engine,
            res.decl_engine == decl_engine,
            res.constraints@ == constraints@,
    {
        Solver { type_engine, decl_engine, constraints }
    }
}

} // verus!
