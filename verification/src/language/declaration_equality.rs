//! Equality of stored declarations relative to a type engine, and the
//! contract caller type of an abi.

use vstd::prelude::*;

use crate::language::declaration::{
    Supertrait, TyAbiDeclaration, TyEnumDeclaration, TyImplTrait, TyMethodValue, TyTraitDeclaration,
};
use crate::language::equality::{enum_variant_equal, same_ident_names};
use crate::language::ty::{Attribute, AttributeKind, AttributesMap, TyEnumVariant};
use crate::type_system::{TypeEngine, TypeId, TypeInfo, TypeSubstList};

verus! {

/// Methods are equal when they refer to the same declaration with the same
/// type arguments.
pub open spec fn method_equal(te: &TypeEngine, a: TyMethodValue, b: TyMethodValue) -> bool {
    a.decl_id.index == b.decl_id.index && te.params_equiv(a.type_subst_list.list@, b.type_subst_list.list@)
}

pub open spec fn methods_equal(te: &TypeEngine, a: Seq<TyMethodValue>, b: Seq<TyMethodValue>) -> bool {
    a.len() == b.len() && forall|i: int| 0 <= i < a.len() ==> method_equal(te, #[trigger] a[i], b[i])
}

/// Attributes are equal when they are of the same kinds, with the same
/// names and arguments, in the same order.
pub open spec fn attribute_equal(a: (AttributeKind, Attribute), b: (AttributeKind, Attribute)) -> bool {
    a.0 == b.0 && a.1.name.name@ == b.1.name.name@ && same_ident_names(a.1.args@, b.1.args@)
}

pub open spec fn attributes_equal(a: AttributesMap, b: AttributesMap) -> bool {
    &&& a.attributes@.len() == b.attributes@.len()
    &&& forall|i: int| 0 <= i < a.attributes@.len() ==> attribute_equal(#[trigger] a.attributes@[i], b.attributes@[i])
}

pub open spec fn supertraits_equal(a: Seq<Supertrait>, b: Seq<Supertrait>) -> bool {
    a.len() == b.len() && forall|i: int| 0 <= i < a.len() ==> (#[trigger] a[i]).name.same_path(&b[i].name)
}

pub open spec fn variants_equal(te: &TypeEngine, a: Seq<TyEnumVariant>, b: Seq<TyEnumVariant>) -> bool {
    a.len() == b.len() && forall|i: int| 0 <= i < a.len() ==> enum_variant_equal(te, #[trigger] a[i], b[i])
}

impl TyMethodValue {
    pub fn eq(&self, other: &TyMethodValue, type_engine: &TypeEngine) -> (res: bool)
        ensures
            res == method_equal(type_engine, *self, *other),
    {
        self.decl_id.eq(&other.decl_id) && self.type_subst_list.eq(&other.type_subst_list, type_engine)
    }
}

fn eq_methods(a: &Vec<TyMethodValue>, b: &Vec<TyMethodValue>, type_engine: &TypeEngine) -> (res: bool)
    ensures
        res == methods_equal(type_engine, a@, b@),
{
    if a.len() != b.len() {
        return false;
    }
    let mut i: usize = 0;
    while i < a.len()
        invariant
            a@.len() == b@.len(),
            0 <= i <= a@.len(),
            forall|j: int| 0 <= j < i ==> method_equal(type_engine, #[trigger] a@[j], b@[j]),
        decreases a@.len() - i,
    {
        if !a[i].eq(&b[i], type_engine) {
            return false;
        }
        i = i + 1;
    }
    true
}

impl AttributesMap {
    pub fn eq(&self, other: &AttributesMap) -> (res: bool)
        ensures
            res == attributes_equal(*self, *other),
    {
        if self.attributes.len() != other.attributes.len() {
            return false;
        }
        let mut i: usize = 0;
        while i < self.attributes.len()
            invariant
                self.attributes@.len() == other.attributes@.len(),
                0 <= i <= self.attributes@.len(),
                forall|j: int|
                    0 <= j < i ==> attribute_equal(#[trigger] self.attributes@[j], other.attributes@[j]),
            decreases self.attributes@.len() - i,
        {
            let a = &self.attributes[i];
            let b = &other.attributes[i];
            if !(a.0 == b.0 && a.1.name.same_name(&b.1.name) && crate::span::same_names(&a.1.args, &b.1.args)) {
                return false;
            }
            i = i + 1;
        }
        true
    }
}

fn eq_supertraits(a: &Vec<Supertrait>, b: &Vec<Supertrait>) -> (res: bool)
    ensures
        res == supertraits_equal(a@, b@),
{
    if a.len() != b.len() {
        return false;
    }
    let mut i: usize = 0;
    while i < a.len()
        invariant
            a@.len() == b@.len(),
            0 <= i <= a@.len(),
            forall|j: int| 0 <= j < i ==> (#[trigger] a@[j]).name.same_path(&b@[j].name),
        decreases a@.len() - i,
    {
        if !a[i].name.eq(&b[i].name) {
            return false;
        }
        i = i + 1;
    }
    true
}

fn eq_variants(a: &Vec<TyEnumVariant>, b: &Vec<TyEnumVariant>, type_engine: &TypeEngine) -> (res: bool)
    ensures
        res == variants_equal(type_engine, a@, b@),
{
    if a.len() != b.len() {
        return false;
    }
    let mut i: usize = 0;
    while i < a.len()
        invariant
            a@.len() == b@.len(),
            0 <= i <= a@.len(),
            forall|j: int| 0 <= j < i ==> enum_variant_equal(type_engine, #[trigger] a@[j], b@[j]),
        decreases a@.len() - i,
    {
        if !a[i].eq(&b[i], type_engine) {
            return false;
        }
        i = i + 1;
    }
    true
}

impl TyTraitDeclaration {
    /// Whether two trait declarations are equal: names, type parameters,
    /// interface surfaces, supertraits, visibility and attributes agree, and
    /// the methods of the first agree with the interface surface of the
    /// second.
    pub open spec fn spec_eq(&self, te: &TypeEngine, other: &TyTraitDeclaration) -> bool {
        &&& self.name.name@ == other.name.name@
        &&& te.params_equiv(self.type_parameters@, other.type_parameters@)
        &&& methods_equal(te, self.interface_surface@, other.interface_surface@)
        &&& methods_equal(te, self.methods@, other.interface_surface@)
        &&& supertraits_equal(self.supertraits@, other.supertraits@)
        &&& self.visibility == other.visibility
        &&& attributes_equal(self.attributes, other.attributes)
    }

    pub fn eq(&self, other: &TyTraitDeclaration, type_engine: &TypeEngine) -> (res: bool)
        ensures
            res == self.spec_eq(type_engine, other),
    {
        self.name.same_name(&other.name) && type_engine.eq_params(&self.type_parameters, &other.type_parameters)
            && eq_methods(&self.interface_surface, &other.interface_surface, type_engine) && eq_methods(
            &self.methods,
            &other.interface_surface,
            type_engine,
        ) && eq_supertraits(&self.supertraits, &other.supertraits) && self.visibility == other.visibility
            && self.attributes.eq(&other.attributes)
    }
}

impl TyImplTrait {
    /// Whether two impls are equal: type parameters, trait name, trait type
    /// arguments, methods and implementing type agree.
    pub open spec fn spec_eq(&self, te: &TypeEngine, other: &TyImplTrait) -> bool {
        &&& te.params_equiv(self.impl_type_parameters@, other.impl_type_parameters@)
        &&& self.trait_name.same_path(&other.trait_name)
        &&& te.type_args_equiv(self.trait_type_arguments@, other.trait_type_arguments@)
        &&& methods_equal(te, self.methods@, other.methods@)
        &&& te.same_type(self.implementing_for_type_id, other.implementing_for_type_id)
    }

    pub fn eq(&self, other: &TyImplTrait, type_engine: &TypeEngine) -> (res: bool)
        ensures
            res == self.spec_eq(type_engine, other),
    {
        type_engine.eq_params(&self.impl_type_parameters, &other.impl_type_parameters) && self.trait_name.eq(
            &other.trait_name,
        ) && type_engine.eq_type_args(&self.trait_type_arguments, &other.trait_type_arguments) && eq_methods(
            &self.methods,
            &other.methods,
            type_engine,
        ) && type_engine.eq_types(self.implementing_for_type_id, other.implementing_for_type_id)
    }
}

impl TyEnumDeclaration {
    /// Whether two enum declarations are equal: names, type parameters,
    /// variants and visibility agree.
    pub open spec fn spec_eq(&self, te: &TypeEngine, other: &TyEnumDeclaration) -> bool {
        &&& self.name.name@ == other.name.name@
        &&& te.params_equiv(self.type_parameters@, other.type_parameters@)
        &&& variants_equal(te, self.variants@, other.variants@)
        &&& self.visibility == other.visibility
    }

    pub fn eq(&self, other: &TyEnumDeclaration, type_engine: &TypeEngine) -> (res: bool)
        ensures
            res == self.spec_eq(type_engine, other),
    {
        self.name.same_name(&other.name) && type_engine.eq_params(&self.type_parameters, &other.type_parameters)
            && eq_variants(&self.variants, &other.variants, type_engine) && self.visibility == other.visibility
    }
}

impl TyAbiDeclaration {
    /// Whether two abi declarations are equal: names, interface surfaces,
    /// methods and attributes agree; spans do not count.
    pub open spec fn spec_eq(&self, te: &TypeEngine, other: &TyAbiDeclaration) -> bool {
        &&& self.name.name@ == other.name.name@
        &&& methods_equal(te, self.interface_surface@, other.interface_surface@)
        &&& methods_equal(te, self.methods@, other.methods@)
        &&& attributes_equal(self.attributes, other.attributes)
    }

    pub fn eq(&self, other: &TyAbiDeclaration, type_engine: &TypeEngine) -> (res: bool)
        ensures
            res == self.spec_eq(type_engine, other),
    {
        self.name.same_name(&other.name) && eq_methods(&self.interface_surface, &other.interface_surface, type_engine)
            && eq_methods(&self.methods, &other.methods, type_engine) && self.attributes.eq(&other.attributes)
    }

    /// The type of a caller of a contract with this abi: a new contract
    /// caller type named after the abi.
    pub fn create_type_id(&self, type_engine: &mut TypeEngine, subst_list: TypeSubstList) -> (res: TypeId)
        ensures
            res.0 == old(type_engine).slab@.len(),
            final(type_engine).slab@.len() == old(type_engine).slab@.len() + 1,
            final(type_engine).slab@.drop_last() == old(type_engine).slab@,
            final(type_engine).slab@.last() matches TypeInfo::ContractCaller { abi_name } && abi_name@
                == self.name.name@,
    {
        let ty = TypeInfo::ContractCaller { abi_name: self.name.name.clone() };
        let id = type_engine.insert(ty);
        assert(type_engine.slab@.drop_last() =~= old(type_engine).slab@);
        id
    }
}

} // verus!
