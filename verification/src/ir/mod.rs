//! The intermediate representation: interned types and the passes over them.

pub mod arena;
pub mod arg_demotion;
pub mod function;
pub mod irtype;
