# sway_verified

A verified core of parts of the Sway compiler, written in Verus: every
function in `src/` carries a contract that Verus proves.

## Layout

- `src/ir/` — the intermediate representation: interned types (in a
  `generational_arena::Arena`), values, blocks, functions and modules, and
  the argument demotion pass, which turns large by-value arguments of a
  function into pointers (its call sites are left to later passes).
- `src/type_system.rs`, `src/decl_engine.rs` — the type engine and the
  declaration engine of the type checker, with type parameters and
  substitution lists.
- `src/language/` — the typed syntax tree, the stored declarations and the
  queries on them, equality of trees relative to the type engine, the
  printed form of expressions, typed modules, and the parts of the parsed
  tree that the type checker reads.
- `src/semantic_analysis.rs`, `src/trait_check.rs` — the decisions of type
  checking code blocks, struct, enum and trait declarations, fields,
  variants and type parameters, given what the type checking context
  resolved.
- `src/monomorphize/` — the namespace walked during monomorphization (its
  submodules held in an `im::OrdMap`), the gathering of constraints from
  typed trees, and the state the constraint solver starts from.
- `app/` — the language server's code action on abi declarations.
- `tests/` — tests of the library on concrete values.
