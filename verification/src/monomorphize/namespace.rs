//! The namespace that monomorphization walks: a tree of modules, each with
//! its submodules by name, and a path to the module being worked on.

use vstd::prelude::*;

use crate::error::CompileError;
use crate::ir::irtype::join_strings;
use crate::span::{Ident, Span};

verus! {

/// The submodules of a module by name, in an ordered map of the `im`
/// crate.
#[verifier::external_body]
pub struct SubmoduleMap {
    map: im::OrdMap<String, Module>,
}

impl Clone for SubmoduleMap {
    /// A copy of the map, by `im::OrdMap::clone` (which the map's insertion
    /// needs of the modules it stores); nothing is stated of it.
    #[verifier::external_body]
    fn clone(&self) -> (res: SubmoduleMap) {
        SubmoduleMap { map: self.map.clone() }
    }
}

/// The entries of a map without submodules.
pub open spec fn no_submodules() -> Map<Seq<char>, Module> {
    Map::empty()
}

/// What a submodule map holds: each name with its module.
pub uninterp spec fn submodule_entries(map: SubmoduleMap) -> Map<Seq<char>, Module>;

impl SubmoduleMap {
    /// An empty map, by `im::OrdMap::new`.
    #[verifier::external_body]
    pub(crate) fn new() -> (res: SubmoduleMap)
        ensures
            submodule_entries(res) == no_submodules(),
    {
        SubmoduleMap { map: im::OrdMap::new() }
    }

    /// The module stored under `name`, by `im::OrdMap::get`: the map finds
    /// a key by comparing strings, so it finds the entry whose name is
    /// `name`, if any.
    #[verifier::external_body]
    pub(crate) fn get(&self, name: &str) -> (res: Option<&Module>)
        ensures
            match res {
                Some(m) => submodule_entries(*self).dom().contains(name@) && *m == submodule_entries(*self)[name@],
                None => !submodule_entries(*self).dom().contains(name@),
            },
    {
        self.map.get(name)
    }

    /// Unique access to the module stored under `name`, by
    /// `im::OrdMap::get_mut`: the entry whose name is `name`, if any.  Once
    /// the access ends the map holds what was written through it under
    /// `name`, and its other entries as they were (the map copies the nodes
    /// it shares with other maps before handing out the access).
    #[verifier::external_body]
    pub(crate) fn get_mut(&mut self, name: &str) -> (res: Option<&mut Module>)
        ensures
            match res {
                Some(m) => {
                    &&& submodule_entries(*old(self)).dom().contains(name@)
                    &&& *m == submodule_entries(*old(self))[name@]
                    &&& submodule_entries(*final(self)) == submodule_entries(*old(self)).insert(name@, *final(m))
                },
                None => {
                    &&& !submodule_entries(*old(self)).dom().contains(name@)
                    &&& submodule_entries(*final(self)) == submodule_entries(*old(self))
                },
            },
    {
        self.map.get_mut(name)
    }

    /// Stores `module` under `name`, replacing any module stored there, by
    /// `im::OrdMap::insert`, which gives back the replaced module.
    #[verifier::external_body]
    pub(crate) fn insert(&mut self, name: String, module: Module) -> (res: Option<Module>)
        ensures
            submodule_entries(*final(self)) == submodule_entries(*old(self)).insert(name@, module),
            match res {
                Some(m) => submodule_entries(*old(self)).dom().contains(name@) && m == submodule_entries(
                    *old(self),
                )[name@],
                None => !submodule_entries(*old(self)).dom().contains(name@),
            },
    {
        self.map.insert(name, module)
    }
}

/// A module of a project: its name (the package name for the root, the
/// library name for the others) and its submodules.
#[derive(Clone)]
pub struct Module {
    pub name: Option<Ident>,
    pub submodules: SubmoduleMap,
}

/// The module at `path` below `module`, following the names of the path.
pub open spec fn module_at(module: Module, path: Seq<Ident>) -> Option<Module>
    decreases path.len(),
{
    if path.len() == 0 {
        Some(module)
    } else {
        let entries = submodule_entries(module.submodules);
        if entries.dom().contains(path[0].name@) {
            module_at(entries[path[0].name@], path.subrange(1, path.len() as int))
        } else {
            None
        }
    }
}

/// Whether `after` is `before` with the module at `path` below it changed
/// to `sub`, and nothing else changed on the way down.
pub open spec fn changed_at(before: Module, after: Module, path: Seq<Ident>, sub: Module) -> bool
    decreases path.len(),
{
    if path.len() == 0 {
        after == sub
    } else {
        let old_entries = submodule_entries(before.submodules);
        let new_entries = submodule_entries(after.submodules);
        let key = path[0].name@;
        &&& after.name == before.name
        &&& old_entries.dom().contains(key)
        &&& new_entries == old_entries.insert(key, new_entries[key])
        &&& changed_at(old_entries[key], new_entries[key], path.subrange(1, path.len() as int), sub)
    }
}

/// After a change through unique access to the module at a path, looking up
/// that path finds what was written there.
pub proof fn lemma_changed_at_reads_back(before: Module, after: Module, path: Seq<Ident>, sub: Module)
    requires
        changed_at(before, after, path, sub),
    ensures
        module_at(after, path) == Some(sub),
    decreases path.len(),
{
    if path.len() > 0 {
        let new_entries = submodule_entries(after.submodules);
        let old_entries = submodule_entries(before.submodules);
        lemma_changed_at_reads_back(
            old_entries[path[0].name@],
            new_entries[path[0].name@],
            path.subrange(1, path.len() as int),
            sub,
        );
    }
}

/// A change through unique access to the module at `path` leaves every
/// path that parts from `path` (at some step `k` the two name different
/// modules) finding what it found before.
pub proof fn lemma_changed_at_leaves_others(
    before: Module,
    after: Module,
    path: Seq<Ident>,
    sub: Module,
    other: Seq<Ident>,
    k: int,
)
    requires
        changed_at(before, after, path, sub),
        0 <= k < path.len(),
        k < other.len(),
        path[k].name@ != other[k].name@,
    ensures
        module_at(after, other) == module_at(before, other),
    decreases path.len(),
{
    let new_entries = submodule_entries(after.submodules);
    let old_entries = submodule_entries(before.submodules);
    let key = path[0].name@;
    if other[0].name@ != key {
        assert(new_entries.dom().contains(other[0].name@) == old_entries.dom().contains(other[0].name@));
    } else {
        lemma_changed_at_leaves_others(
            old_entries[key],
            new_entries[key],
            path.subrange(1, path.len() as int),
            sub,
            other.subrange(1, other.len() as int),
            k - 1,
        );
    }
}

/// Whether `after` holds what `before` holds along `path`, where `path`
/// names no module: at each step down the entries stay as they were.
pub open spec fn unchanged_along(before: Module, after: Module, path: Seq<Ident>) -> bool
    decreases path.len(),
{
    if path.len() == 0 {
        false
    } else {
        let old_entries = submodule_entries(before.submodules);
        let new_entries = submodule_entries(after.submodules);
        let key = path[0].name@;
        &&& after.name == before.name
        &&& if old_entries.dom().contains(key) {
            &&& new_entries == old_entries.insert(key, new_entries[key])
            &&& unchanged_along(old_entries[key], new_entries[key], path.subrange(1, path.len() as int))
        } else {
            new_entries == old_entries
        }
    }
}

/// The span reported for a path: the spans of its parts joined from the
/// first on, skipping those in another source than the span so far.
pub open spec fn path_span(path: Seq<Ident>) -> Span
    recommends
        path.len() > 0,
    decreases path.len(),
{
    if path.len() <= 1 {
        path[0].span
    } else {
        let acc = path_span(path.drop_last());
        let s = path.last().span;
        if acc.source == s.source {
            Span {
                source: acc.source,
                start: if acc.start <= s.start {
                    acc.start
                } else {
                    s.start
                },
                end: if acc.end >= s.end {
                    acc.end
                } else {
                    s.end
                },
            }
        } else {
            acc
        }
    }
}

/// The names of the parts of a path.
pub open spec fn path_names(path: Seq<Ident>) -> Seq<Seq<char>> {
    path.map_values(|i: Ident| i.name@)
}

/// The error for a path that names no module: the names joined by `::`, at
/// the span of the path.
pub fn module_not_found(path: &Vec<Ident>) -> (res: CompileError)
    requires
        path@.len() > 0,
    ensures
        res matches CompileError::ModuleNotFound { span, name } && span == path_span(path@) && name@
            == join_strings(path_names(path@), "::"@),
{
    let mut span = path[0].span;
    let mut name = String::new();
    name.append(path[0].as_str());
    let mut i: usize = 1;
    assert(path@.subrange(0, 1).len() == 1);
    assert(path_names(path@.subrange(0, 1)) =~= seq![path@[0].name@]);
    while i < path.len()
        invariant
            1 <= i <= path@.len(),
            span == path_span(path@.subrange(0, i as int)),
            name@ == join_strings(path_names(path@.subrange(0, i as int)), "::"@),
        decreases path@.len() - i,
    {
        let ghost prefix = path@.subrange(0, i + 1);
        assert(prefix.drop_last() =~= path@.subrange(0, i as int));
        assert(path_names(prefix).drop_last() =~= path_names(path@.subrange(0, i as int)));
        let this_one = path[i].span;
        if span.source == this_one.source {
            span = Span::join(span, this_one);
        }
        name.append("::");
        name.append(path[i].as_str());
        i = i + 1;
    }
    assert(path@.subrange(0, path@.len() as int) =~= path@);
    CompileError::ModuleNotFound { span, name }
}

impl Module {
    /// A module with the given name and no submodules.
    pub fn new(name: Option<Ident>) -> (res: Module)
        ensures
            res.name == name,
            submodule_entries(res.submodules) == no_submodules(),
    {
        Module { name, submodules: SubmoduleMap::new() }
    }

    /// Makes `module` the submodule named `name`, in place of any submodule
    /// of that name.
    pub fn insert_submodule(&mut self, name: String, module: Module)
        ensures
            final(self).name == old(self).name,
            submodule_entries(final(self).submodules) == submodule_entries(old(self).submodules).insert(
                name@,
                module,
            ),
    {
        let _ = self.submodules.insert(name, module);
    }

    /// Looks up the submodule at the given path.
    pub fn submodule(&self, path: &Vec<Ident>) -> (res: Option<&Module>)
        ensures
            match res {
                Some(m) => module_at(*self, path@) == Some(*m),
                None => module_at(*self, path@) is None,
            },
    {
        let mut module = self;
        let mut i: usize = 0;
        assert(path@.subrange(0, path@.len() as int) =~= path@);
        while i < path.len()
            invariant
                0 <= i <= path@.len(),
                module_at(*self, path@) == module_at(*module, path@.subrange(i as int, path@.len() as int)),
            decreases path@.len() - i,
        {
            let ghost rest = path@.subrange(i as int, path@.len() as int);
            assert(rest.subrange(1, rest.len() as int) =~= path@.subrange(i + 1, path@.len() as int));
            assert(rest[0] == path@[i as int]);
            match module.submodules.get(path[i].as_str()) {
                Some(ns) => module = ns,
                None => return None,
            }
            i = i + 1;
        }
        Some(module)
    }

    /// Unique access to the submodule at the given path: where there is
    /// one, what is written through the access is what the module then
    /// holds at that path; where there is none, the module keeps what it
    /// holds.
    pub fn submodule_mut(&mut self, path: &Vec<Ident>) -> (res: Option<&mut Module>)
        ensures
            match module_at(*old(self), path@) {
                Some(m) => res matches Some(r) && *r == m,
                None => res is None,
            },
            res matches Some(r) ==> changed_at(*old(self), *final(self), path@, *final(r)),
            res is None ==> unchanged_along(*old(self), *final(self), path@),
    {
        proof {
            assert(path@.subrange(0, path@.len() as int) =~= path@);
        }
        self.submodule_mut_from(path, 0)
    }

    fn submodule_mut_from(&mut self, path: &Vec<Ident>, i: usize) -> (res: Option<&mut Module>)
        requires
            i <= path@.len(),
        ensures
            match module_at(*old(self), path@.subrange(i as int, path@.len() as int)) {
                Some(m) => res matches Some(r) && *r == m,
                None => res is None,
            },
            res matches Some(r) ==> changed_at(
                *old(self),
                *final(self),
                path@.subrange(i as int, path@.len() as int),
                *final(r),
            ),
            res is None ==> unchanged_along(*old(self), *final(self), path@.subrange(i as int, path@.len() as int)),
        decreases path@.len() - i,
    {
        if i == path.len() {
            return Some(self);
        }
        let ghost rest = path@.subrange(i as int, path@.len() as int);
        proof {
            assert(rest.subrange(1, rest.len() as int) =~= path@.subrange(i + 1, path@.len() as int));
            assert(rest[0] == path@[i as int]);
        }
        match self.submodules.get_mut(path[i].as_str()) {
            Some(ns) => ns.submodule_mut_from(path, i + 1),
            None => None,
        }
    }

    /// Looks up the submodule at the given path; a `ModuleNotFound` error
    /// where there is none.
    pub fn check_submodule(&self, path: &Vec<Ident>) -> (res: Result<&Module, CompileError>)
        ensures
            match module_at(*self, path@) {
                Some(m) => res == Ok::<&Module, CompileError>(&m),
                None => res matches Err(e) && e matches CompileError::ModuleNotFound { span, name } && span
                    == path_span(path@) && name@ == join_strings(path_names(path@), "::"@),
            },
    {
        match self.submodule(path) {
            Some(module) => Ok(module),
            None => {
                assert(path@.len() > 0);
                Err(module_not_found(path))
            },
        }
    }
}

/// The root module, from which all other modules can be reached.
pub struct Root {
    pub module: Module,
}

/// The namespace of monomorphization: the root, and the absolute path of
/// the module being worked on.
pub struct Namespace {
    pub mod_path: Vec<Ident>,
    pub root: Root,
}

/// What entering a submodule leaves to restore: the path of the module it
/// was entered from.
pub struct SubmoduleNamespace {
    pub parent_mod_path: Vec<Ident>,
}

impl Namespace {
    /// A namespace at the root of the given module.
    pub fn new_from_root(root: Module) -> (res: Namespace)
        ensures
            res.mod_path@.len() == 0,
            res.root.module == root,
    {
        Namespace { root: Root { module: root }, mod_path: Vec::new() }
    }

    /// The path of the module being worked on.
    pub fn mod_path(&self) -> (res: &Vec<Ident>)
        ensures
            res@ == self.mod_path@,
    {
        &self.mod_path
    }

    /// The module being worked on, which must exist.
    pub fn module(&self) -> (res: &Module)
        requires
            module_at(self.root.module, self.mod_path@) is Some,
        ensures
            Some(*res) == module_at(self.root.module, self.mod_path@),
    {
        match self.root.module.submodule(&self.mod_path) {
            Some(m) => m,
            None => {
                proof {
                    assert(false);
                }
                &self.root.module
            },
        }
    }

    /// Unique access to the module being worked on, which must exist: what
    /// is written through it is what the root then holds at the current
    /// path.
    pub fn module_mut(&mut self) -> (res: &mut Module)
        requires
            module_at(old(self).root.module, old(self).mod_path@) is Some,
        ensures
            Some(*res) == module_at(old(self).root.module, old(self).mod_path@),
            final(self).mod_path == old(self).mod_path,
            changed_at(old(self).root.module, final(self).root.module, old(self).mod_path@, *final(res)),
    {
        self.root.module.submodule_mut(&self.mod_path).unwrap()
    }

    /// Enters the submodule `dep_name` of the current module: the path of
    /// the current module is handed back, to be restored when the work on
    /// the submodule is done.
    pub fn enter_submodule(&mut self, dep_name: Ident) -> (res: SubmoduleNamespace)
        ensures
            final(self).mod_path@ == old(self).mod_path@.push(dep_name),
            final(self).root == old(self).root,
            res.parent_mod_path@ == old(self).mod_path@,
    {
        let mut submod_path = crate::span::duplicate_idents(&self.mod_path);
        submod_path.push(dep_name);
        let mut parent_mod_path = submod_path;
        std::mem::swap(&mut self.mod_path, &mut parent_mod_path);
        SubmoduleNamespace { parent_mod_path }
    }
}

impl SubmoduleNamespace {
    /// Ends the work on a submodule: the namespace is back at the module it
    /// was entered from.
    pub fn leave(self, namespace: &mut Namespace)
        ensures
            final(namespace).mod_path@ == self.parent_mod_path@,
            final(namespace).root == old(namespace).root,
    {
        namespace.mod_path = self.parent_mod_path;
    }
}

/// Entering a submodule and leaving it again puts the namespace back at the
/// module it was in, with the same root: `entered` is what
/// `enter_submodule` makes of `before` with the session it hands back, and
/// `after` what `leave` makes of `entered` with that session.
pub proof fn lemma_enter_then_leave(
    before: Namespace,
    dep_name: Ident,
    entered: Namespace,
    session: SubmoduleNamespace,
    after: Namespace,
)
    requires
        entered.mod_path@ == before.mod_path@.push(dep_name),
        entered.root == before.root,
        session.parent_mod_path@ == before.mod_path@,
        after.mod_path@ == session.parent_mod_path@,
        after.root == entered.root,
    ensures
        after.mod_path@ == before.mod_path@,
        after.root == before.root,
        entered.mod_path@.drop_last() == before.mod_path@,
{
    assert(entered.mod_path@.drop_last() =~= before.mod_path@);
}

} // verus!
