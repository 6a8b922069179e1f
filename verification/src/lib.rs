//! A verified core of the Sway compiler: the types and the argument
//! demotion pass of its intermediate representation, the type and
//! declaration engines of its type checker, the typed syntax tree with the
//! queries and equalities on it, the decisions of type checking
//! declarations (traits among them) and code blocks, and the constraint
//! gathering of monomorphization.

pub mod ir;
pub mod span;
pub mod error;
pub mod type_system;
pub mod decl_engine;
pub mod language;
pub mod semantic_analysis;
pub mod trait_check;
pub mod monomorphize;
