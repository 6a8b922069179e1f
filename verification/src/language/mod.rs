//! The syntax trees of the language.

pub mod ty;
pub mod declaration;
pub mod ty_declaration;
pub mod equality;
pub mod parsed;
pub mod module;
pub mod declaration_equality;
pub mod expression_display;
