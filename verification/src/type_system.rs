//! The type engine of the type checker, and the type parameters and
//! arguments that declarations carry.

use vstd::prelude::*;

use crate::decl_engine::DeclId;
use crate::span::{CallPath, Ident, Span};

verus! {

/// A handle to a type stored in a [`TypeEngine`].
#[derive(Clone, Copy, Debug, PartialEq, Eq, Structural, Hash)]
pub struct TypeId(pub usize);

/// What the type checker knows of a type.
#[derive(Debug)]
pub enum TypeInfo {
    Unknown,
    /// A generic type, with the trait constraints it was declared with.
    UnknownGeneric { name: Ident, trait_constraints: Vec<TraitConstraint> },
    /// The type parameter at this position of the enclosing substitution list.
    TypeParam(usize),
    Boolean,
    UnsignedInteger(u8),
    Tuple(Vec<TypeId>),
    /// An enum type: the declaration it instantiates, with the type
    /// arguments of the instantiation.
    Enum { name: Ident, decl_id: DeclId, subst_list: TypeSubstList },
    /// A struct type: the declaration it instantiates, with the type
    /// arguments of the instantiation.
    Struct { name: Ident, decl_id: DeclId, subst_list: TypeSubstList },
    ContractCaller { abi_name: String },
    Storage { fields: Vec<TypeId> },
    SelfType,
    ErrorRecovery,
}

/// The shape of a [`TypeInfo`]: names as strings, declarations by index.
/// An enum or struct type is known by its name and declaration; the type
/// arguments of its instantiation are not part of the shape.  A generic
/// type is known by its name; its constraints are kept in the engine's
/// entry, not in the shape.
pub enum TypeInfoView {
    Unknown,
    UnknownGeneric { name: Seq<char> },
    TypeParam(usize),
    Boolean,
    UnsignedInteger(u8),
    Tuple(Seq<TypeId>),
    Enum { name: Seq<char>, decl: usize },
    Struct { name: Seq<char>, decl: usize },
    ContractCaller { abi_name: Seq<char> },
    Storage { fields: Seq<TypeId> },
    SelfType,
    ErrorRecovery,
}

impl View for TypeInfo {
    type V = TypeInfoView;

    open spec fn view(&self) -> TypeInfoView {
        match self {
            TypeInfo::Unknown => TypeInfoView::Unknown,
            TypeInfo::UnknownGeneric { name, .. } => TypeInfoView::UnknownGeneric { name: name.name@ },
            TypeInfo::TypeParam(n) => TypeInfoView::TypeParam(*n),
            TypeInfo::Boolean => TypeInfoView::Boolean,
            TypeInfo::UnsignedInteger(w) => TypeInfoView::UnsignedInteger(*w),
            TypeInfo::Tuple(ts) => TypeInfoView::Tuple(ts@),
            TypeInfo::Enum { name, decl_id, .. } => TypeInfoView::Enum { name: name.name@, decl: decl_id.index },
            TypeInfo::Struct { name, decl_id, .. } => TypeInfoView::Struct { name: name.name@, decl: decl_id.index },
            TypeInfo::ContractCaller { abi_name } => TypeInfoView::ContractCaller { abi_name: abi_name@ },
            TypeInfo::Storage { fields } => TypeInfoView::Storage { fields: fields@ },
            TypeInfo::SelfType => TypeInfoView::SelfType,
            TypeInfo::ErrorRecovery => TypeInfoView::ErrorRecovery,
        }
    }
}

fn same_type_ids(a: &Vec<TypeId>, b: &Vec<TypeId>) -> (res: bool)
    ensures
        res == (a@ == b@),
{
    if a.len() != b.len() {
        return false;
    }
    let mut i: usize = 0;
    while i < a.len()
        invariant
            a@.len() == b@.len(),
            0 <= i <= a@.len(),
            forall|j: int| 0 <= j < i ==> a@[j] == b@[j],
        decreases a@.len() - i,
    {
        if a[i] != b[i] {
            return false;
        }
        i = i + 1;
    }
    assert(a@ =~= b@);
    true
}

impl TypeInfo {
    /// Whether two type infos are the same: the same kind, names and
    /// declarations, and the same component type ids.
    pub fn same_info(&self, other: &TypeInfo) -> (res: bool)
        ensures
            res == (self@ == other@),
    {
        match (self, other) {
            (TypeInfo::Unknown, TypeInfo::Unknown) => true,
            (TypeInfo::UnknownGeneric { name: l, .. }, TypeInfo::UnknownGeneric { name: r, .. }) => l.same_name(r),
            (TypeInfo::TypeParam(l), TypeInfo::TypeParam(r)) => *l == *r,
            (TypeInfo::Boolean, TypeInfo::Boolean) => true,
            (TypeInfo::UnsignedInteger(l), TypeInfo::UnsignedInteger(r)) => *l == *r,
            (TypeInfo::Tuple(l), TypeInfo::Tuple(r)) => same_type_ids(l, r),
            (TypeInfo::Enum { name: ln, decl_id: ld, .. }, TypeInfo::Enum { name: rn, decl_id: rd, .. }) => ln.same_name(rn)
                && ld.index == rd.index,
            (TypeInfo::Struct { name: ln, decl_id: ld, .. }, TypeInfo::Struct { name: rn, decl_id: rd, .. }) => ln.same_name(
                rn,
            ) && ld.index == rd.index,
            (TypeInfo::ContractCaller { abi_name: l }, TypeInfo::ContractCaller { abi_name: r }) => *l == *r,
            (TypeInfo::Storage { fields: l }, TypeInfo::Storage { fields: r }) => same_type_ids(l, r),
            (TypeInfo::SelfType, TypeInfo::SelfType) => true,
            (TypeInfo::ErrorRecovery, TypeInfo::ErrorRecovery) => true,
            _ => false,
        }
    }
}

/// The store of the types met while type checking.
pub struct TypeEngine {
    pub slab: Vec<TypeInfo>,
}

impl TypeEngine {
    pub open spec fn valid(&self, id: TypeId) -> bool {
        id.0 < self.slab@.len()
    }

    pub open spec fn info(&self, id: TypeId) -> TypeInfoView {
        self.slab@[id.0 as int]@
    }

    /// What the engine holds at `id`, if anything.
    pub open spec fn lookup(&self, id: TypeId) -> Option<TypeInfoView> {
        if self.valid(id) {
            Some(self.info(id))
        } else {
            None
        }
    }

    /// Whether two type ids stand for the same type: both hold equal type
    /// infos, or neither is in the engine.
    pub open spec fn same_type(&self, a: TypeId, b: TypeId) -> bool {
        self.lookup(a) == self.lookup(b)
    }

    pub fn new() -> (res: TypeEngine)
        ensures
            res.slab@.len() == 0,
    {
        TypeEngine { slab: Vec::new() }
    }

    /// Stores a type and returns its id.
    pub fn insert(&mut self, ty: TypeInfo) -> (res: TypeId)
        ensures
            final(self).slab@ == old(self).slab@.push(ty),
            res.0 == old(self).slab@.len(),
    {
        let id = TypeId(self.slab.len());
        self.slab.push(ty);
        id
    }

    pub fn get(&self, id: TypeId) -> (res: &TypeInfo)
        requires
            self.valid(id),
        ensures
            *res == self.slab@[id.0 as int],
    {
        &self.slab[id.0]
    }

    /// Whether two type ids stand for the same type: their type infos have
    /// the same shape.  Two instantiations of one enum or struct count as
    /// the same type whatever their type arguments, and two generic types
    /// with the same name whatever their constraints.
    pub fn eq_types(&self, a: TypeId, b: TypeId) -> (res: bool)
        ensures
            res == self.same_type(a, b),
    {
        let n = self.slab.len();
        if a.0 < n && b.0 < n {
            self.get(a).same_info(self.get(b))
        } else {
            a.0 >= n && b.0 >= n
        }
    }
}

/// A type given as an argument, with where it was written.
#[derive(Clone, Copy, Debug)]
pub struct TypeArgument {
    pub type_id: TypeId,
    pub initial_type_id: TypeId,
    pub span: Span,
}

/// A bound on a type parameter: the trait and its type arguments.
#[derive(Debug)]
pub struct TraitConstraint {
    pub trait_name: CallPath,
    pub type_arguments: Vec<TypeArgument>,
}

/// A type parameter of a declaration.
#[derive(Debug)]
pub struct TypeParameter {
    pub type_id: TypeId,
    pub initial_type_id: TypeId,
    pub name_ident: Ident,
    pub trait_constraints: Vec<TraitConstraint>,
    pub trait_constraints_span: Span,
}

/// The type parameters that a declaration was instantiated with.
#[derive(Debug)]
pub struct TypeSubstList {
    pub list: Vec<TypeParameter>,
}

impl TypeEngine {
    pub open spec fn type_args_equiv(&self, a: Seq<TypeArgument>, b: Seq<TypeArgument>) -> bool {
        a.len() == b.len() && forall|i: int| 0 <= i < a.len() ==> self.same_type(#[trigger] a[i].type_id, b[i].type_id)
    }

    pub open spec fn constraint_equiv(&self, a: TraitConstraint, b: TraitConstraint) -> bool {
        a.trait_name.same_path(&b.trait_name) && self.type_args_equiv(a.type_arguments@, b.type_arguments@)
    }

    pub open spec fn constraints_equiv(&self, a: Seq<TraitConstraint>, b: Seq<TraitConstraint>) -> bool {
        a.len() == b.len() && forall|i: int| 0 <= i < a.len() ==> self.constraint_equiv(#[trigger] a[i], b[i])
    }

    /// Type parameters are equal when their types, names and constraints are.
    pub open spec fn param_equiv(&self, a: TypeParameter, b: TypeParameter) -> bool {
        &&& self.same_type(a.type_id, b.type_id)
        &&& a.name_ident.name@ == b.name_ident.name@
        &&& self.constraints_equiv(a.trait_constraints@, b.trait_constraints@)
    }

    pub open spec fn params_equiv(&self, a: Seq<TypeParameter>, b: Seq<TypeParameter>) -> bool {
        a.len() == b.len() && forall|i: int| 0 <= i < a.len() ==> self.param_equiv(#[trigger] a[i], b[i])
    }

    pub fn eq_type_args(&self, a: &Vec<TypeArgument>, b: &Vec<TypeArgument>) -> (res: bool)
        ensures
            res == self.type_args_equiv(a@, b@),
    {
        if a.len() != b.len() {
            return false;
        }
        let mut i: usize = 0;
        while i < a.len()
            invariant
                a@.len() == b@.len(),
                0 <= i <= a@.len(),
                forall|j: int| 0 <= j < i ==> self.same_type(#[trigger] a@[j].type_id, b@[j].type_id),
            decreases a@.len() - i,
        {
            if !self.eq_types(a[i].type_id, b[i].type_id) {
                return false;
            }
            i = i + 1;
        }
        true
    }

    pub fn eq_constraints(&self, a: &Vec<TraitConstraint>, b: &Vec<TraitConstraint>) -> (res: bool)
        ensures
            res == self.constraints_equiv(a@, b@),
    {
        if a.len() != b.len() {
            return false;
        }
        let mut i: usize = 0;
        while i < a.len()
            invariant
                a@.len() == b@.len(),
                0 <= i <= a@.len(),
                forall|j: int| 0 <= j < i ==> self.constraint_equiv(#[trigger] a@[j], b@[j]),
            decreases a@.len() - i,
        {
            if !(a[i].trait_name.eq(&b[i].trait_name) && self.eq_type_args(&a[i].type_arguments, &b[i].type_arguments)) {
                return false;
            }
            i = i + 1;
        }
        true
    }

    pub fn eq_params(&self, a: &Vec<TypeParameter>, b: &Vec<TypeParameter>) -> (res: bool)
        ensures
            res == self.params_equiv(a@, b@),
    {
        if a.len() != b.len() {
            return false;
        }
        let mut i: usize = 0;
        while i < a.len()
            invariant
                a@.len() == b@.len(),
                0 <= i <= a@.len(),
                forall|j: int| 0 <= j < i ==> self.param_equiv(#[trigger] a@[j], b@[j]),
            decreases a@.len() - i,
        {
            if !a[i].eq(&b[i], self) {
                return false;
            }
            i = i + 1;
        }
        true
    }
}

impl TypeParameter {
    pub fn eq(&self, other: &TypeParameter, type_engine: &TypeEngine) -> (res: bool)
        ensures
            res == type_engine.param_equiv(*self, *other),
    {
        type_engine.eq_types(self.type_id, other.type_id) && self.name_ident.same_name(&other.name_ident)
            && type_engine.eq_constraints(&self.trait_constraints, &other.trait_constraints)
    }
}

impl TypeSubstList {
    pub fn new() -> (res: TypeSubstList)
        ensures
            res.list@.len() == 0,
    {
        TypeSubstList { list: Vec::new() }
    }

    pub fn is_empty(&self) -> (res: bool)
        ensures
            res == (self.list@.len() == 0),
    {
        self.list.len() == 0
    }

    pub fn eq(&self, other: &TypeSubstList, type_engine: &TypeEngine) -> (res: bool)
        ensures
            res == type_engine.params_equiv(self.list@, other.list@),
    {
        type_engine.eq_params(&self.list, &other.list)
    }
}

/// A trait constraint seen as a value: the trait's path and the type
/// arguments.
pub struct TraitConstraintView {
    pub prefixes: Seq<Ident>,
    pub suffix: Ident,
    pub is_absolute: bool,
    pub type_arguments: Seq<TypeArgument>,
}

impl View for TraitConstraint {
    type V = TraitConstraintView;

    open spec fn view(&self) -> TraitConstraintView {
        TraitConstraintView {
            prefixes: self.trait_name.prefixes@,
            suffix: self.trait_name.suffix,
            is_absolute: self.trait_name.is_absolute,
            type_arguments: self.type_arguments@,
        }
    }
}

/// The views of a list of trait constraints.
pub open spec fn constraint_views(cs: Seq<TraitConstraint>) -> Seq<TraitConstraintView> {
    cs.map_values(|c: TraitConstraint| c@)
}

/// A type parameter seen as a value.
pub struct TypeParameterView {
    pub type_id: TypeId,
    pub initial_type_id: TypeId,
    pub name_ident: Ident,
    pub trait_constraints: Seq<TraitConstraintView>,
    pub trait_constraints_span: Span,
}

impl View for TypeParameter {
    type V = TypeParameterView;

    open spec fn view(&self) -> TypeParameterView {
        TypeParameterView {
            type_id: self.type_id,
            initial_type_id: self.initial_type_id,
            name_ident: self.name_ident,
            trait_constraints: constraint_views(self.trait_constraints@),
            trait_constraints_span: self.trait_constraints_span,
        }
    }
}

fn copy_type_arguments(v: &Vec<TypeArgument>) -> (res: Vec<TypeArgument>)
    ensures
        res@ == v@,
{
    let mut res: Vec<TypeArgument> = Vec::new();
    let mut i: usize = 0;
    while i < v.len()
        invariant
            0 <= i <= v@.len(),
            res@ =~= v@.subrange(0, i as int),
        decreases v@.len() - i,
    {
        res.push(v[i]);
        i = i + 1;
    }
    assert(res@ =~= v@);
    res
}

impl TraitConstraint {
    /// A copy of this constraint.
    pub fn duplicate(&self) -> (res: TraitConstraint)
        ensures
            res@ == self@,
    {
        TraitConstraint { trait_name: self.trait_name.duplicate(), type_arguments: copy_type_arguments(&self.type_arguments) }
    }
}

/// A copy of each constraint of a list.
pub fn duplicate_constraints(v: &Vec<TraitConstraint>) -> (res: Vec<TraitConstraint>)
    ensures
        constraint_views(res@) == constraint_views(v@),
{
    let mut res: Vec<TraitConstraint> = Vec::new();
    let mut i: usize = 0;
    while i < v.len()
        invariant
            0 <= i <= v@.len(),
            constraint_views(res@) =~= constraint_views(v@.subrange(0, i as int)),
        decreases v@.len() - i,
    {
        let ghost before = res@;
        res.push(v[i].duplicate());
        proof {
            assert(res@ == before.push(res@.last()));
            assert(v@.subrange(0, i + 1) == v@.subrange(0, i as int).push(v@[i as int]));
            assert(constraint_views(res@) =~= constraint_views(before).push(res@.last()@));
            assert(constraint_views(v@.subrange(0, i + 1)) =~= constraint_views(v@.subrange(0, i as int)).push(
                v@[i as int]@,
            ));
        }
        i = i + 1;
    }
    assert(v@.subrange(0, v@.len() as int) =~= v@);
    res
}

} // verus!
