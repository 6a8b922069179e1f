//! The generational arenas that hold the contents of the IR.
//!
//! The arena itself is `generational_arena::Arena`; an index into it is kept
//! here by its raw parts, the slot number and the generation.

use generational_arena::{Arena, Index};
use vstd::prelude::*;

use crate::ir::irtype::TypeContent;

verus! {

#[verifier::external_type_specification]
#[verifier::external_body]
#[verifier::reject_recursive_types(T)]
pub struct ExArena<T>(Arena<T>);

/// The live entries of an arena of type contents, keyed by the raw parts of
/// their `Index`.
pub uninterp spec fn type_arena_items(arena: Arena<TypeContent>) -> Map<(usize, u64), TypeContent>;

/// `Arena::new`: a new arena holds no entry.
#[verifier::external_body]
pub(crate) fn new_type_arena() -> (arena: Arena<TypeContent>)
    ensures
        type_arena_items(arena).dom() == Set::<(usize, u64)>::empty(),
{
    Arena::new()
}

/// `Arena::insert` followed by `Index::into_raw_parts`: the value is stored
/// under a key that held no live entry before, and no other entry changes.
#[verifier::external_body]
pub(crate) fn insert_type_content(arena: &mut Arena<TypeContent>, value: TypeContent) -> (key: (
    usize,
    u64,
))
    ensures
        !type_arena_items(*old(arena)).dom().contains(key),
        type_arena_items(*final(arena)) == type_arena_items(*old(arena)).insert(key, value),
{
    arena.insert(value).into_raw_parts()
}

/// `Arena::get` at the `Index` made by `Index::from_raw_parts`: the live
/// entry under that key, if there is one.
#[verifier::external_body]
pub(crate) fn get_type_content(arena: &Arena<TypeContent>, key: (usize, u64)) -> (res: Option<
    &TypeContent,
>)
    ensures
        type_arena_items(*arena).dom().contains(key) ==> res == Some(
            &type_arena_items(*arena)[key],
        ),
        !type_arena_items(*arena).dom().contains(key) ==> res.is_none(),
{
    arena.get(Index::from_raw_parts(key.0, key.1))
}

} // verus!
