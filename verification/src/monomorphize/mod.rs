//! Monomorphization: the namespace it walks, and the constraints it gathers.

pub mod namespace;
pub mod constraint;
pub mod gather;
pub mod solver;
