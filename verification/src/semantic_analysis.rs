//! Type checking of code blocks, struct declarations and enum
//! declarations.
//!
//! Type checking a node, resolving a written type and type checking type
//! parameters are done by the type checking context, which owns the
//! namespace.  The functions here take what those steps gave (each as a
//! compile result) and decide the rest: which types to put in the type
//! engine, what the checked declaration is, and which diagnostics to
//! report.

use vstd::prelude::*;

use crate::error::{err, ok, CompileError, CompileResult, CompileWarning};
use crate::language::declaration::{owned_string, TyEnumDeclaration, TyStructDeclaration};
use crate::language::parsed::{CodeBlock, EnumDeclaration, EnumVariant, StructDeclaration, StructField};
use crate::language::ty::{
    AttributesMap, TyAstNode, TyAstNodeContent, TyCodeBlock, TyDeclaration, TyEnumVariant, TyStructField,
    Visibility,
};
use crate::span::{Ident, Span};
use crate::type_system::{
    constraint_views, duplicate_constraints, TraitConstraint, TraitConstraintView, TypeEngine, TypeId, TypeInfo,
    TypeParameter, TypeParameterView, TypeSubstList,
};

verus! {

/// The type ids that the engine gives to the next insertions.
pub open spec fn next_id(slab: Seq<TypeInfo>) -> TypeId {
    TypeId(slab.len() as usize)
}

/// Moves the diagnostics of `r` to the end of `warnings` and `errors`, and
/// hands back its value.
fn take_diagnostics<T>(r: CompileResult<T>, warnings: &mut Vec<CompileWarning>, errors: &mut Vec<CompileError>) -> (res:
    Option<T>)
    ensures
        res == r.value,
        final(warnings)@ == old(warnings)@ + r.warnings@,
        final(errors)@ == old(errors)@ + r.errors@,
{
    let CompileResult { value, warnings: mut w, errors: mut e } = r;
    warnings.append(&mut w);
    errors.append(&mut e);
    value
}

/// A parsed field checked against the outcome `resolved` of resolving its
/// type, where its type info went into the engine at `initial`: the
/// resolved type, or the error recovery type inserted right after.
pub open spec fn checked_struct_field(field: StructField, initial: TypeId, resolved: Option<TypeId>) -> TyStructField {
    TyStructField {
        name: field.name,
        type_id: match resolved {
            Some(t) => t,
            None => TypeId((initial.0 + 1) as usize),
        },
        initial_type_id: initial,
        span: field.span,
        type_span: field.type_span,
        attributes: field.attributes,
    }
}

/// What checking a field puts in the type engine: its type info, then the
/// error recovery type where its type was not resolved.
pub open spec fn field_insertions(type_info: TypeInfo, resolved: Option<TypeId>) -> Seq<TypeInfo> {
    match resolved {
        Some(_) => seq![type_info],
        None => seq![type_info, TypeInfo::ErrorRecovery],
    }
}

impl TyStructField {
    /// Type checks a struct field.  Its type info goes into the engine, and
    /// `resolved` is the outcome of resolving that type (the id the engine
    /// gives next) in the scope of the struct.  The field has the resolved
    /// type, or an error recovery type where there is none; the diagnostics
    /// of the resolution are reported, and a field is always given.
    pub fn type_check(type_engine: &mut TypeEngine, field: StructField, resolved: CompileResult<TypeId>) -> (res:
        CompileResult<TyStructField>)
        requires
            old(type_engine).slab@.len() + 2 <= usize::MAX,
        ensures
            final(type_engine).slab@ == old(type_engine).slab@ + field_insertions(field.type_info, resolved.value),
            res.value == Some(checked_struct_field(field, next_id(old(type_engine).slab@), resolved.value)),
            res.warnings@ == resolved.warnings@,
            res.errors@ == resolved.errors@,
    {
        let mut warnings = Vec::new();
        let mut errors = Vec::new();
        let StructField { name, attributes, type_info, span, type_span } = field;
        let initial_type_id = type_engine.insert(type_info);
        let type_id = match take_diagnostics(resolved, &mut warnings, &mut errors) {
            Some(t) => t,
            None => type_engine.insert(TypeInfo::ErrorRecovery),
        };
        assert(type_engine.slab@ =~= old(type_engine).slab@ + field_insertions(field.type_info, resolved.value));
        ok(TyStructField { name, type_id, initial_type_id, span, type_span, attributes }, warnings, errors)
    }
}

/// What checking the fields `fields`, with the outcomes `resolutions` of
/// resolving their types, puts in the type engine, in order.
pub open spec fn fields_insertions(fields: Seq<StructField>, resolutions: Seq<CompileResult<TypeId>>) -> Seq<TypeInfo>
    decreases fields.len(),
{
    if fields.len() == 0 {
        Seq::empty()
    } else {
        fields_insertions(fields.drop_last(), resolutions.drop_last()) + field_insertions(
            fields.last().type_info,
            resolutions[fields.len() - 1].value,
        )
    }
}

/// The checked fields, when the engine held `base` types before the first.
pub open spec fn checked_struct_fields(
    base: nat,
    fields: Seq<StructField>,
    resolutions: Seq<CompileResult<TypeId>>,
) -> Seq<TyStructField>
    decreases fields.len(),
{
    if fields.len() == 0 {
        Seq::empty()
    } else {
        let before = fields_insertions(fields.drop_last(), resolutions.drop_last());
        checked_struct_fields(base, fields.drop_last(), resolutions.drop_last()).push(
            checked_struct_field(
                fields.last(),
                TypeId((base + before.len()) as usize),
                resolutions[fields.len() - 1].value,
            ),
        )
    }
}

/// The warnings of a list of outcomes, in order.
pub open spec fn all_warnings<T>(rs: Seq<CompileResult<T>>) -> Seq<CompileWarning>
    decreases rs.len(),
{
    if rs.len() == 0 {
        Seq::empty()
    } else {
        all_warnings(rs.drop_last()) + rs.last().warnings@
    }
}

/// The errors of a list of outcomes, in order.
pub open spec fn all_errors<T>(rs: Seq<CompileResult<T>>) -> Seq<CompileError>
    decreases rs.len(),
{
    if rs.len() == 0 {
        Seq::empty()
    } else {
        all_errors(rs.drop_last()) + rs.last().errors@
    }
}

proof fn lemma_fields_insertions_len(fields: Seq<StructField>, resolutions: Seq<CompileResult<TypeId>>)
    ensures
        fields_insertions(fields, resolutions).len() <= 2 * fields.len(),
    decreases fields.len(),
{
    if fields.len() > 0 {
        lemma_fields_insertions_len(fields.drop_last(), resolutions.drop_last());
    }
}

/// Checks the fields of a struct in order against the outcomes of
/// resolving their types, appending their diagnostics.
fn check_struct_fields(
    type_engine: &mut TypeEngine,
    fields: Vec<StructField>,
    resolutions: Vec<CompileResult<TypeId>>,
    warnings: &mut Vec<CompileWarning>,
    errors: &mut Vec<CompileError>,
) -> (res: Vec<TyStructField>)
    requires
        fields@.len() == resolutions@.len(),
        old(type_engine).slab@.len() + 2 * fields@.len() + 2 <= usize::MAX,
    ensures
        final(type_engine).slab@ == old(type_engine).slab@ + fields_insertions(fields@, resolutions@),
        res@ == checked_struct_fields(old(type_engine).slab@.len(), fields@, resolutions@),
        final(warnings)@ == old(warnings)@ + all_warnings(resolutions@),
        final(errors)@ == old(errors)@ + all_errors(resolutions@),
{
    let ghost all_f = fields@;
    let ghost all_r = resolutions@;
    let ghost base = old(type_engine).slab@.len();
    let n = fields.len();
    let mut fields = fields;
    let mut resolutions = resolutions;
    let mut checked: Vec<TyStructField> = Vec::new();
    let mut i: usize = 0;
    assert(all_f.subrange(0, 0) =~= Seq::<StructField>::empty());
    assert(all_r.subrange(0, 0) =~= Seq::<CompileResult<TypeId>>::empty());
    assert(all_f.subrange(0, n as int) =~= all_f);
    assert(all_r.subrange(0, n as int) =~= all_r);
    while i < n
        invariant
            n == all_f.len(),
            n == all_r.len(),
            0 <= i <= n,
            base + 2 * n + 2 <= usize::MAX,
            fields@ == all_f.subrange(i as int, n as int),
            resolutions@ == all_r.subrange(i as int, n as int),
            type_engine.slab@ == old(type_engine).slab@ + fields_insertions(
                all_f.subrange(0, i as int),
                all_r.subrange(0, i as int),
            ),
            base == old(type_engine).slab@.len(),
            checked@ == checked_struct_fields(base, all_f.subrange(0, i as int), all_r.subrange(0, i as int)),
            warnings@ == old(warnings)@ + all_warnings(all_r.subrange(0, i as int)),
            errors@ == old(errors)@ + all_errors(all_r.subrange(0, i as int)),
        decreases n - i,
    {
        let field = fields.remove(0);
        let resolved = resolutions.remove(0);
        assert(fields@ =~= all_f.subrange(i + 1, n as int));
        assert(resolutions@ =~= all_r.subrange(i + 1, n as int));
        let ghost pf = all_f.subrange(0, i + 1);
        let ghost pr = all_r.subrange(0, i + 1);
        assert(pf.drop_last() =~= all_f.subrange(0, i as int));
        assert(pr.drop_last() =~= all_r.subrange(0, i as int));
        assert(pf.last() == field);
        assert(pr[i as int] == resolved);
        proof {
            lemma_fields_insertions_len(all_f.subrange(0, i as int), all_r.subrange(0, i as int));
        }
        let r = TyStructField::type_check(type_engine, field, resolved);
        let f = take_diagnostics(r, warnings, errors);
        match f {
            Some(f) => checked.push(f),
            None => {},
        }
        assert(type_engine.slab@ =~= old(type_engine).slab@ + fields_insertions(pf, pr));
        assert(warnings@ =~= old(warnings)@ + all_warnings(pr));
        assert(errors@ =~= old(errors)@ + all_errors(pr));
        i = i + 1;
    }
    checked
}

impl TyStructDeclaration {
    /// Type checks a struct declaration, given the substitution list
    /// inherited from the enclosing scope, what the type checking context
    /// gave for each type parameter, and the outcomes of resolving the types
    /// of its fields, in order.  The type parameters are checked first, with
    /// no where clause allowed; where they fail, so does the declaration,
    /// with their diagnostics.  Else every field is checked, and the
    /// declaration succeeds with the checked parameters and the substitution
    /// list they extend.
    pub fn type_check(
        type_engine: &mut TypeEngine,
        decl: StructDeclaration,
        inherited: TypeSubstList,
        param_checks: Vec<TypeParameterChecks>,
        field_resolutions: Vec<CompileResult<TypeId>>,
    ) -> (res: CompileResult<(TyStructDeclaration, TypeSubstList)>)
        requires
            decl.fields@.len() == field_resolutions@.len(),
            decl.type_parameters@.len() == param_checks@.len(),
            old(type_engine).slab@.len() + 2 * decl.fields@.len() + 2 * decl.type_parameters@.len() + 4
                <= usize::MAX,
            inherited.list@.len() + decl.type_parameters@.len() <= usize::MAX,
        ensures
            ({
                let run = params_run(
                    old(type_engine).slab@.len(),
                    inherited.list@.len(),
                    false,
                    decl.type_parameters@,
                    param_checks@,
                );
                if run.stopped || run.errors.len() > 0 {
                    &&& res.value is None
                    &&& res.warnings@ == run.warnings
                    &&& res.errors@ == run.errors
                    &&& final(type_engine).slab@ == old(type_engine).slab@ + run.insertions
                } else {
                    &&& final(type_engine).slab@ == old(type_engine).slab@ + run.insertions + fields_insertions(
                        decl.fields@,
                        field_resolutions@,
                    )
                    &&& res.value matches Some((d, s)) && param_views(s.list@) == param_views(inherited.list@)
                        + run.substs && d.name == decl.name && param_views(d.type_parameters@) == run.refs
                        && d.fields@ == checked_struct_fields(
                        old(type_engine).slab@.len() + run.insertions.len(),
                        decl.fields@,
                        field_resolutions@,
                    ) && d.visibility == decl.visibility && d.span == decl.span && d.attributes
                        == decl.attributes
                    &&& res.warnings@ == run.warnings + all_warnings(field_resolutions@)
                    &&& res.errors@ == all_errors(field_resolutions@)
                }
            }),
    {
        let ghost run = params_run(
            type_engine.slab@.len(),
            inherited.list@.len(),
            false,
            decl.type_parameters@,
            param_checks@,
        );
        proof {
            lemma_params_run_bounds(
                type_engine.slab@.len(),
                inherited.list@.len(),
                false,
                decl.type_parameters@,
                param_checks@,
            );
        }
        let ghost parsed_fields = decl.fields@;
        let ghost resolutions = field_resolutions@;
        let mut warnings = Vec::new();
        let mut errors = Vec::new();
        let StructDeclaration { name, attributes, fields, type_parameters, visibility, span } = decl;
        let mut decl_scope: Vec<(Ident, TyDeclaration)> = Vec::new();
        let checked_params = TypeParameter::type_check_type_parameters(
            type_engine,
            type_parameters,
            false,
            inherited,
            param_checks,
            &mut decl_scope,
        );
        let (new_type_parameters, type_subst_list) = match take_diagnostics(
            checked_params,
            &mut warnings,
            &mut errors,
        ) {
            Some(checked) => checked,
            None => {
                assert(warnings@ =~= run.warnings);
                assert(errors@ =~= run.errors);
                return err(warnings, errors);
            },
        };
        assert(errors@ =~= Seq::<CompileError>::empty());
        let new_fields = check_struct_fields(type_engine, fields, field_resolutions, &mut warnings, &mut errors);
        let decl = TyStructDeclaration {
            name,
            type_parameters: new_type_parameters,
            fields: new_fields,
            visibility,
            span,
            attributes,
        };
        assert(type_engine.slab@ =~= old(type_engine).slab@ + run.insertions + fields_insertions(
            parsed_fields,
            resolutions,
        ));
        assert(warnings@ =~= run.warnings + all_warnings(resolutions));
        assert(errors@ =~= all_errors(resolutions));
        ok((decl, type_subst_list), warnings, errors)
    }
}

/// A parsed variant checked against the outcome of resolving its type,
/// where its type info went into the engine at `initial`.
pub open spec fn checked_enum_variant(variant: EnumVariant, initial: TypeId, resolved: Option<TypeId>) -> TyEnumVariant {
    TyEnumVariant {
        name: variant.name,
        type_id: match resolved {
            Some(t) => t,
            None => TypeId((initial.0 + 1) as usize),
        },
        initial_type_id: initial,
        type_span: variant.type_span,
        tag: variant.tag,
        span: variant.span,
        attributes: variant.attributes,
    }
}

impl TyEnumVariant {
    /// Type checks an enum variant, given the outcome `resolved` of
    /// resolving its type (the id the engine gives next).  The variant has
    /// the resolved type, or an error recovery type where there is none; the
    /// errors of the resolution are reported and its warnings are not.
    pub fn type_check(type_engine: &mut TypeEngine, variant: EnumVariant, resolved: CompileResult<TypeId>) -> (res:
        CompileResult<TyEnumVariant>)
        requires
            old(type_engine).slab@.len() + 2 <= usize::MAX,
        ensures
            final(type_engine).slab@ == old(type_engine).slab@ + field_insertions(variant.type_info, resolved.value),
            res.value == Some(checked_enum_variant(variant, next_id(old(type_engine).slab@), resolved.value)),
            res.warnings@.len() == 0,
            res.errors@ == resolved.errors@,
    {
        let mut warnings = Vec::new();
        let mut errors = Vec::new();
        let EnumVariant { name, attributes, type_info, type_span, tag, span } = variant;
        let initial_type_id = type_engine.insert(type_info);
        let type_id = match take_diagnostics(resolved, &mut warnings, &mut errors) {
            Some(t) => t,
            None => type_engine.insert(TypeInfo::ErrorRecovery),
        };
        assert(type_engine.slab@ =~= old(type_engine).slab@ + field_insertions(variant.type_info, resolved.value));
        ok(
            TyEnumVariant { name, type_id, initial_type_id, type_span, tag, span, attributes },
            Vec::new(),
            errors,
        )
    }
}

/// What checking the variants puts in the type engine, in order.
pub open spec fn variants_insertions(variants: Seq<EnumVariant>, resolutions: Seq<CompileResult<TypeId>>) -> Seq<
    TypeInfo,
>
    decreases variants.len(),
{
    if variants.len() == 0 {
        Seq::empty()
    } else {
        variants_insertions(variants.drop_last(), resolutions.drop_last()) + field_insertions(
            variants.last().type_info,
            resolutions[variants.len() - 1].value,
        )
    }
}

/// The checked variants, when the engine held `base` types before the first.
pub open spec fn checked_enum_variants(
    base: nat,
    variants: Seq<EnumVariant>,
    resolutions: Seq<CompileResult<TypeId>>,
) -> Seq<TyEnumVariant>
    decreases variants.len(),
{
    if variants.len() == 0 {
        Seq::empty()
    } else {
        let before = variants_insertions(variants.drop_last(), resolutions.drop_last());
        checked_enum_variants(base, variants.drop_last(), resolutions.drop_last()).push(
            checked_enum_variant(
                variants.last(),
                TypeId((base + before.len()) as usize),
                resolutions[variants.len() - 1].value,
            ),
        )
    }
}

proof fn lemma_variants_insertions_len(variants: Seq<EnumVariant>, resolutions: Seq<CompileResult<TypeId>>)
    ensures
        variants_insertions(variants, resolutions).len() <= 2 * variants.len(),
    decreases variants.len(),
{
    if variants.len() > 0 {
        lemma_variants_insertions_len(variants.drop_last(), resolutions.drop_last());
    }
}

fn check_enum_variants(
    type_engine: &mut TypeEngine,
    variants: Vec<EnumVariant>,
    resolutions: Vec<CompileResult<TypeId>>,
    errors: &mut Vec<CompileError>,
) -> (res: Vec<TyEnumVariant>)
    requires
        variants@.len() == resolutions@.len(),
        old(type_engine).slab@.len() + 2 * variants@.len() + 2 <= usize::MAX,
    ensures
        final(type_engine).slab@ == old(type_engine).slab@ + variants_insertions(variants@, resolutions@),
        res@ == checked_enum_variants(old(type_engine).slab@.len(), variants@, resolutions@),
        final(errors)@ == old(errors)@ + all_errors(resolutions@),
{
    let ghost all_v = variants@;
    let ghost all_r = resolutions@;
    let ghost base = old(type_engine).slab@.len();
    let n = variants.len();
    let mut variants = variants;
    let mut resolutions = resolutions;
    let mut checked: Vec<TyEnumVariant> = Vec::new();
    let mut unused_warnings: Vec<CompileWarning> = Vec::new();
    let mut i: usize = 0;
    assert(all_v.subrange(0, 0) =~= Seq::<EnumVariant>::empty());
    assert(all_r.subrange(0, 0) =~= Seq::<CompileResult<TypeId>>::empty());
    assert(all_v.subrange(0, n as int) =~= all_v);
    assert(all_r.subrange(0, n as int) =~= all_r);
    while i < n
        invariant
            n == all_v.len(),
            n == all_r.len(),
            0 <= i <= n,
            base + 2 * n + 2 <= usize::MAX,
            variants@ == all_v.subrange(i as int, n as int),
            resolutions@ == all_r.subrange(i as int, n as int),
            type_engine.slab@ == old(type_engine).slab@ + variants_insertions(
                all_v.subrange(0, i as int),
                all_r.subrange(0, i as int),
            ),
            base == old(type_engine).slab@.len(),
            checked@ == checked_enum_variants(base, all_v.subrange(0, i as int), all_r.subrange(0, i as int)),
            errors@ == old(errors)@ + all_errors(all_r.subrange(0, i as int)),
        decreases n - i,
    {
        let variant = variants.remove(0);
        let resolved = resolutions.remove(0);
        assert(variants@ =~= all_v.subrange(i + 1, n as int));
        assert(resolutions@ =~= all_r.subrange(i + 1, n as int));
        let ghost pv = all_v.subrange(0, i + 1);
        let ghost pr = all_r.subrange(0, i + 1);
        assert(pv.drop_last() =~= all_v.subrange(0, i as int));
        assert(pr.drop_last() =~= all_r.subrange(0, i as int));
        assert(pv.last() == variant);
        assert(pr[i as int] == resolved);
        proof {
            lemma_variants_insertions_len(all_v.subrange(0, i as int), all_r.subrange(0, i as int));
        }
        let r = TyEnumVariant::type_check(type_engine, variant, resolved);
        let v = take_diagnostics(r, &mut unused_warnings, errors);
        match v {
            Some(v) => checked.push(v),
            None => {},
        }
        assert(type_engine.slab@ =~= old(type_engine).slab@ + variants_insertions(pv, pr));
        assert(errors@ =~= old(errors)@ + all_errors(pr));
        i = i + 1;
    }
    checked
}

impl TyEnumDeclaration {
    /// Type checks an enum declaration, given the substitution list
    /// inherited from the enclosing scope, what the type checking context
    /// gave for each type parameter, and the outcomes of resolving the types
    /// of its variants, in order.  The type parameters are checked first,
    /// with no where clause allowed; where they fail, so does the
    /// declaration.  Else every variant is checked (their errors are
    /// reported, their warnings are not), and the declaration succeeds.
    pub fn type_check(
        type_engine: &mut TypeEngine,
        decl: EnumDeclaration,
        inherited: TypeSubstList,
        param_checks: Vec<TypeParameterChecks>,
        variant_resolutions: Vec<CompileResult<TypeId>>,
    ) -> (res: CompileResult<(TyEnumDeclaration, TypeSubstList)>)
        requires
            decl.variants@.len() == variant_resolutions@.len(),
            decl.type_parameters@.len() == param_checks@.len(),
            old(type_engine).slab@.len() + 2 * decl.variants@.len() + 2 * decl.type_parameters@.len() + 4
                <= usize::MAX,
            inherited.list@.len() + decl.type_parameters@.len() <= usize::MAX,
        ensures
            ({
                let run = params_run(
                    old(type_engine).slab@.len(),
                    inherited.list@.len(),
                    false,
                    decl.type_parameters@,
                    param_checks@,
                );
                if run.stopped || run.errors.len() > 0 {
                    &&& res.value is None
                    &&& res.warnings@ == run.warnings
                    &&& res.errors@ == run.errors
                    &&& final(type_engine).slab@ == old(type_engine).slab@ + run.insertions
                } else {
                    &&& final(type_engine).slab@ == old(type_engine).slab@ + run.insertions + variants_insertions(
                        decl.variants@,
                        variant_resolutions@,
                    )
                    &&& res.value matches Some((d, s)) && param_views(s.list@) == param_views(inherited.list@)
                        + run.substs && d.name == decl.name && param_views(d.type_parameters@) == run.refs
                        && d.variants@ == checked_enum_variants(
                        old(type_engine).slab@.len() + run.insertions.len(),
                        decl.variants@,
                        variant_resolutions@,
                    ) && d.visibility == decl.visibility && d.span == decl.span && d.attributes
                        == decl.attributes
                    &&& res.warnings@ == run.warnings
                    &&& res.errors@ == all_errors(variant_resolutions@)
                }
            }),
    {
        let ghost run = params_run(
            type_engine.slab@.len(),
            inherited.list@.len(),
            false,
            decl.type_parameters@,
            param_checks@,
        );
        proof {
            lemma_params_run_bounds(
                type_engine.slab@.len(),
                inherited.list@.len(),
                false,
                decl.type_parameters@,
                param_checks@,
            );
        }
        let ghost parsed_variants = decl.variants@;
        let ghost resolutions = variant_resolutions@;
        let mut warnings = Vec::new();
        let mut errors = Vec::new();
        let EnumDeclaration { name, attributes, type_parameters, variants, span, visibility } = decl;
        let mut decl_scope: Vec<(Ident, TyDeclaration)> = Vec::new();
        let checked_params = TypeParameter::type_check_type_parameters(
            type_engine,
            type_parameters,
            false,
            inherited,
            param_checks,
            &mut decl_scope,
        );
        let (new_type_parameters, type_subst_list) = match take_diagnostics(
            checked_params,
            &mut warnings,
            &mut errors,
        ) {
            Some(checked) => checked,
            None => {
                assert(warnings@ =~= run.warnings);
                assert(errors@ =~= run.errors);
                return err(warnings, errors);
            },
        };
        assert(errors@ =~= Seq::<CompileError>::empty());
        let new_variants = check_enum_variants(type_engine, variants, variant_resolutions, &mut errors);
        let decl = TyEnumDeclaration {
            name,
            type_parameters: new_type_parameters,
            attributes,
            variants: new_variants,
            span,
            visibility,
        };
        assert(type_engine.slab@ =~= old(type_engine).slab@ + run.insertions + variants_insertions(
            parsed_variants,
            resolutions,
        ));
        assert(warnings@ =~= run.warnings);
        assert(errors@ =~= all_errors(resolutions));
        ok((decl, type_subst_list), warnings, errors)
    }
}

/// The nodes that type checked, in order.
pub open spec fn checked_node_values(rs: Seq<CompileResult<TyAstNode>>) -> Seq<TyAstNode>
    decreases rs.len(),
{
    if rs.len() == 0 {
        Seq::empty()
    } else {
        let rest = checked_node_values(rs.drop_last());
        match rs.last().value {
            Some(n) => rest.push(n),
            None => rest,
        }
    }
}

/// The type of the first implicit return among `nodes`, if any.
pub open spec fn implicit_return_type(nodes: Seq<TyAstNode>) -> Option<TypeId>
    decreases nodes.len(),
{
    if nodes.len() == 0 {
        None
    } else {
        match nodes[0].content {
            TyAstNodeContent::ImplicitReturnExpression(e) => Some(e.return_type),
            _ => implicit_return_type(nodes.subrange(1, nodes.len() as int)),
        }
    }
}

/// Whether a node that type checked always aborts.
pub open spec fn some_checked_node_aborts(rs: Seq<CompileResult<TyAstNode>>, aborts: Seq<bool>) -> bool {
    exists|i: int| 0 <= i < rs.len() && rs[i].value is Some && #[trigger] aborts[i]
}

/// The type that a block without an implicit return gets: the never type
/// where some node aborts (the `Never` enum declared by `never_decl`, at
/// `span`, or an unknown type where there is none), else the unit type.
pub open spec fn fallback_block_type(info: TypeInfo, aborts: bool, never_decl: Option<TyDeclaration>, span: Span) -> bool {
    if aborts {
        match never_decl {
            Some(TyDeclaration::EnumDeclaration(id, subst)) => info matches TypeInfo::Enum { name, decl_id, subst_list }
                && name.name@ == "Never"@ && name.span == span && decl_id == id && subst_list == subst,
            _ => info is Unknown,
        }
    } else {
        info matches TypeInfo::Tuple(ts) && ts@.len() == 0
    }
}

impl TyCodeBlock {
    /// Type checks a code block, given the outcomes of type checking its
    /// nodes, in order, whether each node that checked always aborts, what
    /// the path `core::never::Never` resolves to, and the outcome of
    /// unifying the block's type with the expected one at the block's
    /// result span.  The block holds the nodes that checked.  Its type is
    /// that of its first implicit return; without one, a new type is made:
    /// the never type where some node aborts, else the unit type.  The
    /// diagnostics of all nodes are reported, followed by those of the
    /// unification, which does not stop the check.
    pub fn type_check(
        type_engine: &mut TypeEngine,
        code_block: &CodeBlock,
        checked_nodes: Vec<CompileResult<TyAstNode>>,
        aborts: Vec<bool>,
        never_decl: Option<TyDeclaration>,
        unified: CompileResult<()>,
    ) -> (res: CompileResult<(TyCodeBlock, TypeId)>)
        requires
            checked_nodes@.len() == aborts@.len(),
            old(type_engine).slab@.len() + 1 <= usize::MAX,
        ensures
            res.warnings@ == all_warnings(checked_nodes@) + unified.warnings@,
            res.errors@ == all_errors(checked_nodes@) + unified.errors@,
            res.value matches Some((block, block_type)) && block.contents@ == checked_node_values(checked_nodes@)
                && match implicit_return_type(checked_node_values(checked_nodes@)) {
                Some(t) => block_type == t && final(type_engine).slab@ == old(type_engine).slab@,
                None => {
                    &&& block_type == next_id(old(type_engine).slab@)
                    &&& final(type_engine).slab@.len() == old(type_engine).slab@.len() + 1
                    &&& final(type_engine).slab@.drop_last() == old(type_engine).slab@
                    &&& fallback_block_type(
                        final(type_engine).slab@.last(),
                        some_checked_node_aborts(checked_nodes@, aborts@),
                        never_decl,
                        code_block.spec_result_span(),
                    )
                },
            },
    {
        let ghost all = checked_nodes@;
        let n = checked_nodes.len();
        let mut checked_nodes = checked_nodes;
        let mut warnings: Vec<CompileWarning> = Vec::new();
        let mut errors: Vec<CompileError> = Vec::new();
        let mut contents: Vec<TyAstNode> = Vec::new();
        let mut node_aborts = false;
        let mut i: usize = 0;
        assert(all.subrange(0, 0) =~= Seq::<CompileResult<TyAstNode>>::empty());
        assert(all.subrange(0, n as int) =~= all);
        while i < n
            invariant
                n == all.len(),
                n == aborts@.len(),
                0 <= i <= n,
                checked_nodes@ == all.subrange(i as int, n as int),
                contents@ == checked_node_values(all.subrange(0, i as int)),
                warnings@ == all_warnings(all.subrange(0, i as int)),
                errors@ == all_errors(all.subrange(0, i as int)),
                node_aborts == exists|j: int| 0 <= j < i && all[j].value is Some && #[trigger] aborts@[j],
            decreases n - i,
        {
            let r = checked_nodes.remove(0);
            assert(checked_nodes@ =~= all.subrange(i + 1, n as int));
            let ghost p = all.subrange(0, i + 1);
            assert(p.drop_last() =~= all.subrange(0, i as int));
            assert(p.last() == r);
            match take_diagnostics(r, &mut warnings, &mut errors) {
                Some(node) => {
                    if aborts[i] {
                        node_aborts = true;
                    }
                    contents.push(node);
                },
                None => {},
            }
            assert(warnings@ =~= all_warnings(p));
            assert(errors@ =~= all_errors(p));
            i = i + 1;
        }
        assert(node_aborts == some_checked_node_aborts(all, aborts@));
        let ghost values = contents@;
        let mut k: usize = 0;
        let mut found: Option<TypeId> = None;
        assert(values.subrange(0, values.len() as int) =~= values);
        while k < contents.len()
            invariant_except_break
                found is None,
            invariant
                contents@ == values,
                0 <= k <= values.len(),
                implicit_return_type(values) == implicit_return_type(
                    values.subrange(k as int, values.len() as int),
                ),
            ensures
                found == implicit_return_type(values),
            decreases values.len() - k,
        {
            let ghost rest = values.subrange(k as int, values.len() as int);
            assert(rest.subrange(1, rest.len() as int) =~= values.subrange(k + 1, values.len() as int));
            assert(rest[0] == values[k as int]);
            if let TyAstNodeContent::ImplicitReturnExpression(e) = &contents[k].content {
                found = Some(e.return_type);
                break;
            }
            k = k + 1;
        }
        let block_type = match found {
            Some(t) => t,
            None => if node_aborts {
                match never_decl {
                    Some(TyDeclaration::EnumDeclaration(decl_id, subst_list)) => {
                        let name = Ident::new(owned_string("Never"), code_block.result_span());
                        type_engine.insert(TypeInfo::Enum { name, decl_id, subst_list })
                    },
                    _ => type_engine.insert(TypeInfo::Unknown),
                }
            } else {
                type_engine.insert(TypeInfo::Tuple(Vec::new()))
            },
        };
        assert(found is None ==> type_engine.slab@.drop_last() =~= old(type_engine).slab@);
        let _ = take_diagnostics(unified, &mut warnings, &mut errors);
        ok((TyCodeBlock { contents }, block_type), warnings, errors)
    }
}

/// What the type checking context gave while checking one type parameter.
pub struct TypeParameterChecks {
    /// The trait constraints of the parameter, type checked.
    pub constraints: CompileResult<Vec<TraitConstraint>>,
    /// The outcome of putting those constraints into the namespace for the
    /// type that the parameter stands for in the declaration.
    pub constraints_inserted: CompileResult<()>,
    /// The outcome of declaring the parameter's name in the namespace.
    pub symbol_inserted: CompileResult<()>,
}

/// Whether checking a type parameter with these outcomes gives the
/// parameter: its constraints checked and went into the namespace.
pub open spec fn param_check_succeeds(c: TypeParameterChecks) -> bool {
    c.constraints.value is Some && c.constraints_inserted.value is Some
}

/// The warnings of checking a type parameter: those of each step reached.
pub open spec fn param_check_warnings(c: TypeParameterChecks) -> Seq<CompileWarning> {
    if c.constraints.value is None {
        c.constraints.warnings@
    } else if c.constraints_inserted.value is None {
        c.constraints.warnings@ + c.constraints_inserted.warnings@
    } else {
        c.constraints.warnings@ + c.constraints_inserted.warnings@ + c.symbol_inserted.warnings@
    }
}

/// The errors of checking a type parameter: those of each step reached.
pub open spec fn param_check_errors(c: TypeParameterChecks) -> Seq<CompileError> {
    if c.constraints.value is None {
        c.constraints.errors@
    } else if c.constraints_inserted.value is None {
        c.constraints.errors@ + c.constraints_inserted.errors@
    } else {
        c.constraints.errors@ + c.constraints_inserted.errors@ + c.symbol_inserted.errors@
    }
}

/// What checking a type parameter named `name`, at position `n` of the
/// substitution list, puts in the type engine: once its constraints
/// checked, the generic type it stands for, with those checked
/// constraints, then the reference to position `n`.
pub open spec fn param_insertions(name: Ident, n: usize, c: TypeParameterChecks) -> Seq<TypeInfo> {
    if c.constraints.value is Some {
        seq![
            TypeInfo::UnknownGeneric { name, trait_constraints: c.constraints.value.unwrap() },
            TypeInfo::TypeParam(n),
        ]
    } else {
        Seq::empty()
    }
}

/// What checking a type parameter named `name` declares in the scope of the
/// declaration, once its constraints checked and went into the namespace:
/// the name, bound to a generic type of the function's scope whose type is
/// `ty`, the reference into the substitution list.
pub open spec fn param_bindings(name: Ident, c: TypeParameterChecks, ty: TypeId) -> Seq<(Ident, TyDeclaration)> {
    if param_check_succeeds(c) {
        seq![(name, TyDeclaration::GenericTypeForFunctionScope { name, type_id: ty })]
    } else {
        Seq::empty()
    }
}

/// The checked parameter with the type `ty` and the checked constraints.
pub open spec fn checked_param_view(p: TypeParameter, c: TypeParameterChecks, ty: TypeId) -> TypeParameterView {
    TypeParameterView {
        type_id: ty,
        initial_type_id: p.initial_type_id,
        name_ident: p.name_ident,
        trait_constraints: constraint_views(c.constraints.value.unwrap()@),
        trait_constraints_span: p.trait_constraints_span,
    }
}

/// The views of a list of type parameters.
pub open spec fn param_views(s: Seq<TypeParameter>) -> Seq<TypeParameterView> {
    s.map_values(|p: TypeParameter| p@)
}

impl TypeParameter {
    /// Type checks a type parameter at position `n` of the substitution
    /// list, given what the type checking context gave for it.  Once its
    /// constraints checked, the generic type it stands for (with those
    /// constraints) and a reference to position `n` go into the engine.
    /// Where the constraints also went into the namespace, the parameter's
    /// name is declared in `scope` as a generic type of the function's
    /// scope with the reference's type, and the parameter is given twice,
    /// once with each of those types (the first for the substitution list,
    /// the second for the declaration).
    pub fn type_check(
        type_engine: &mut TypeEngine,
        type_parameter: TypeParameter,
        n: usize,
        checks: TypeParameterChecks,
        scope: &mut Vec<(Ident, TyDeclaration)>,
    ) -> (res: CompileResult<(TypeParameter, TypeParameter)>)
        requires
            old(type_engine).slab@.len() + 2 <= usize::MAX,
        ensures
            final(scope)@ == old(scope)@ + param_bindings(
                type_parameter.name_ident,
                checks,
                TypeId((old(type_engine).slab@.len() + 1) as usize),
            ),
            final(type_engine).slab@ == old(type_engine).slab@ + param_insertions(type_parameter.name_ident, n, checks),
            res.warnings@ == param_check_warnings(checks),
            res.errors@ == param_check_errors(checks),
            param_check_succeeds(checks) ==> (res.value matches Some((s, r)) && s@ == checked_param_view(
                type_parameter,
                checks,
                next_id(old(type_engine).slab@),
            ) && r@ == checked_param_view(
                type_parameter,
                checks,
                TypeId((old(type_engine).slab@.len() + 1) as usize),
            )),
            !param_check_succeeds(checks) ==> res.value is None,
    {
        let mut warnings = Vec::new();
        let mut errors = Vec::new();
        let TypeParameter { type_id: _, initial_type_id, name_ident, trait_constraints: _, trait_constraints_span } =
            type_parameter;
        let TypeParameterChecks { constraints, constraints_inserted, symbol_inserted } = checks;
        let trait_constraints = match take_diagnostics(constraints, &mut warnings, &mut errors) {
            Some(cs) => cs,
            None => {
                assert(type_engine.slab@ =~= old(type_engine).slab@ + param_insertions(
                    type_parameter.name_ident,
                    n,
                    checks,
                ));
                assert(scope@ =~= old(scope)@ + param_bindings(
                    type_parameter.name_ident,
                    checks,
                    TypeId((old(type_engine).slab@.len() + 1) as usize),
                ));
                return err(warnings, errors);
            },
        };
        let subst_constraints = duplicate_constraints(&trait_constraints);
        let ref_constraints = duplicate_constraints(&trait_constraints);
        let type_subst_id = type_engine.insert(
            TypeInfo::UnknownGeneric { name: name_ident.duplicate(), trait_constraints },
        );
        let subst_list_ref_id = type_engine.insert(TypeInfo::TypeParam(n));
        assert(type_engine.slab@ =~= old(type_engine).slab@ + param_insertions(type_parameter.name_ident, n, checks));
        let type_subst = TypeParameter {
            name_ident: name_ident.duplicate(),
            type_id: type_subst_id,
            initial_type_id,
            trait_constraints: subst_constraints,
            trait_constraints_span,
        };
        let subst_list_ref = TypeParameter {
            name_ident,
            type_id: subst_list_ref_id,
            initial_type_id,
            trait_constraints: ref_constraints,
            trait_constraints_span,
        };
        match take_diagnostics(constraints_inserted, &mut warnings, &mut errors) {
            Some(_) => {},
            None => {
                assert(scope@ =~= old(scope)@ + param_bindings(type_parameter.name_ident, checks, subst_list_ref_id));
                return err(warnings, errors);
            },
        }
        scope.push((subst_list_ref.name_ident.duplicate(), TyDeclaration::GenericTypeForFunctionScope {
            name: subst_list_ref.name_ident.duplicate(),
            type_id: subst_list_ref_id,
        }));
        let _ = take_diagnostics(symbol_inserted, &mut warnings, &mut errors);
        assert(scope@ =~= old(scope)@ + param_bindings(type_parameter.name_ident, checks, subst_list_ref_id));
        assert(warnings@ =~= param_check_warnings(checks));
        assert(errors@ =~= param_check_errors(checks));
        ok((type_subst, subst_list_ref), warnings, errors)
    }
}

/// Where checking a list of type parameters stands after some of them.
pub struct ParamsRun {
    /// Whether a where clause stopped the check.
    pub stopped: bool,
    /// What went into the type engine.
    pub insertions: Seq<TypeInfo>,
    /// The parameters checked for the declaration.
    pub refs: Seq<TypeParameterView>,
    /// The parameters checked for the substitution list.
    pub substs: Seq<TypeParameterView>,
    pub warnings: Seq<CompileWarning>,
    pub errors: Seq<CompileError>,
    /// What was declared in the scope of the declaration.
    pub bindings: Seq<(Ident, TyDeclaration)>,
}

/// Checking the type parameters `params` in order, with what the context
/// gave for each in `checks`, when the engine held `base` types and the
/// inherited substitution list `inherited` parameters.  A parameter with a
/// constraint where none is allowed stops the check with a
/// `WhereClauseNotYetSupported` error; a parameter that does not check is
/// left out, and its diagnostics are kept.
pub open spec fn params_run(
    base: nat,
    inherited: nat,
    allowed: bool,
    params: Seq<TypeParameter>,
    checks: Seq<TypeParameterChecks>,
) -> ParamsRun
    decreases params.len(),
{
    if params.len() == 0 {
        ParamsRun {
            stopped: false,
            insertions: Seq::empty(),
            refs: Seq::empty(),
            substs: Seq::empty(),
            warnings: Seq::empty(),
            errors: Seq::empty(),
            bindings: Seq::empty(),
        }
    } else {
        let r = params_run(base, inherited, allowed, params.drop_last(), checks.subrange(0, params.len() - 1));
        let p = params.last();
        let c = checks[params.len() - 1];
        if r.stopped {
            r
        } else if !allowed && p.trait_constraints@.len() > 0 {
            ParamsRun {
                stopped: true,
                errors: r.errors.push(CompileError::WhereClauseNotYetSupported { span: p.trait_constraints_span }),
                ..r
            }
        } else {
            let at = base + r.insertions.len();
            let n = (inherited + r.substs.len()) as usize;
            ParamsRun {
                stopped: false,
                insertions: r.insertions + param_insertions(p.name_ident, n, c),
                refs: if param_check_succeeds(c) {
                    r.refs.push(checked_param_view(p, c, TypeId((at + 1) as usize)))
                } else {
                    r.refs
                },
                substs: if param_check_succeeds(c) {
                    r.substs.push(checked_param_view(p, c, TypeId(at as usize)))
                } else {
                    r.substs
                },
                warnings: r.warnings + param_check_warnings(c),
                errors: r.errors + param_check_errors(c),
                bindings: r.bindings + param_bindings(p.name_ident, c, TypeId((at + 1) as usize)),
            }
        }
    }
}

proof fn lemma_params_run_bounds(
    base: nat,
    inherited: nat,
    allowed: bool,
    params: Seq<TypeParameter>,
    checks: Seq<TypeParameterChecks>,
)
    ensures
        params_run(base, inherited, allowed, params, checks).insertions.len() <= 2 * params.len(),
        params_run(base, inherited, allowed, params, checks).substs.len() <= params.len(),
    decreases params.len(),
{
    if params.len() > 0 {
        lemma_params_run_bounds(base, inherited, allowed, params.drop_last(), checks.subrange(0, params.len() - 1));
    }
}

impl TypeParameter {
    /// Type checks a list of type parameters in order, given the
    /// substitution list inherited from the enclosing scope and what the
    /// type checking context gave for each parameter.  Succeeds, where no
    /// parameter failed and no error was reported, with the parameters for
    /// the declaration and the inherited substitution list extended by the
    /// parameters for it.  The name of each parameter that checks is
    /// declared in `scope`; see [`params_run`].
    #[verifier::loop_isolation(false)]
    pub fn type_check_type_parameters(
        type_engine: &mut TypeEngine,
        type_parameters: Vec<TypeParameter>,
        where_clauses_allowed: bool,
        inherited: TypeSubstList,
        checks: Vec<TypeParameterChecks>,
        scope: &mut Vec<(Ident, TyDeclaration)>,
    ) -> (res: CompileResult<(Vec<TypeParameter>, TypeSubstList)>)
        requires
            type_parameters@.len() == checks@.len(),
            old(type_engine).slab@.len() + 2 * type_parameters@.len() + 2 <= usize::MAX,
            inherited.list@.len() + type_parameters@.len() <= usize::MAX,
        ensures
            ({
                let run = params_run(
                    old(type_engine).slab@.len(),
                    inherited.list@.len(),
                    where_clauses_allowed,
                    type_parameters@,
                    checks@,
                );
                &&& final(type_engine).slab@ == old(type_engine).slab@ + run.insertions
                &&& final(scope)@ == old(scope)@ + run.bindings
                &&& res.warnings@ == run.warnings
                &&& res.errors@ == run.errors
                &&& if !run.stopped && run.errors.len() == 0 {
                    res.value matches Some((refs, stack)) && param_views(refs@) == run.refs && param_views(
                        stack.list@,
                    ) == param_views(inherited.list@) + run.substs
                } else {
                    res.value is None
                }
            }),
    {
        let ghost all_p = type_parameters@;
        let ghost all_c = checks@;
        let ghost base = old(type_engine).slab@.len();
        let ghost inherited_len = inherited.list@.len();
        let ghost inherited_views = param_views(inherited.list@);
        let n = type_parameters.len();
        let mut type_parameters = type_parameters;
        let mut checks = checks;
        let mut warnings: Vec<CompileWarning> = Vec::new();
        let mut errors: Vec<CompileError> = Vec::new();
        let mut subst_list_refs: Vec<TypeParameter> = Vec::new();
        let mut type_subst_stack = inherited.list;
        let mut i: usize = 0;
        assert(all_p.subrange(0, 0) =~= Seq::<TypeParameter>::empty());
        assert(all_c.subrange(0, 0) =~= Seq::<TypeParameterChecks>::empty());
        assert(param_views(type_subst_stack@) =~= inherited_views + Seq::<TypeParameterView>::empty());
        assert(param_views(subst_list_refs@) =~= Seq::<TypeParameterView>::empty());
        while i < n
            invariant
                n == all_p.len(),
                n == all_c.len(),
                0 <= i <= n,
                base == old(type_engine).slab@.len(),
                base + 2 * n + 2 <= usize::MAX,
                inherited_len + n <= usize::MAX,
                type_parameters@ == all_p.subrange(i as int, n as int),
                checks@ == all_c.subrange(i as int, n as int),
                ({
                    let run = params_run(
                        base,
                        inherited_len,
                        where_clauses_allowed,
                        all_p.subrange(0, i as int),
                        all_c.subrange(0, i as int),
                    );
                    &&& !run.stopped
                    &&& type_engine.slab@ == old(type_engine).slab@ + run.insertions
                    &&& scope@ == old(scope)@ + run.bindings
                    &&& warnings@ == run.warnings
                    &&& errors@ == run.errors
                    &&& param_views(subst_list_refs@) == run.refs
                    &&& param_views(type_subst_stack@) == inherited_views + run.substs
                    &&& type_subst_stack@.len() == inherited_len + run.substs.len()
                }),
            decreases n - i,
        {
            let ghost pp = all_p.subrange(0, i + 1);
            let ghost pc = all_c.subrange(0, i + 1);
            assert(pp.drop_last() =~= all_p.subrange(0, i as int));
            assert(pc.subrange(0, i as int) =~= all_c.subrange(0, i as int));
            let ghost before = params_run(
                base,
                inherited_len,
                where_clauses_allowed,
                all_p.subrange(0, i as int),
                all_c.subrange(0, i as int),
            );
            proof {
                lemma_params_run_bounds(
                    base,
                    inherited_len,
                    where_clauses_allowed,
                    all_p.subrange(0, i as int),
                    all_c.subrange(0, i as int),
                );
            }
            let type_param = type_parameters.remove(0);
            let check = checks.remove(0);
            assert(type_parameters@ =~= all_p.subrange(i + 1, n as int));
            assert(checks@ =~= all_c.subrange(i + 1, n as int));
            assert(pp.last() == type_param);
            assert(pc[i as int] == check);
            if !where_clauses_allowed && type_param.trait_constraints.len() != 0 {
                errors.push(CompileError::WhereClauseNotYetSupported { span: type_param.trait_constraints_span });
                proof {
                    let after = params_run(base, inherited_len, where_clauses_allowed, pp, pc);
                    assert(after.stopped);
                    assert(after.errors =~= errors@);
                    assert(after.insertions == before.insertions);
                    assert(after.warnings == before.warnings);
                    lemma_params_run_stays_stopped(base, inherited_len, where_clauses_allowed, all_p, all_c, i + 1);
                }
                return err(warnings, errors);
            }
            let position = type_subst_stack.len();
            let r = TypeParameter::type_check(type_engine, type_param, position, check, scope);
            let ghost mid_refs = subst_list_refs@;
            let ghost mid_stack = type_subst_stack@;
            match take_diagnostics(r, &mut warnings, &mut errors) {
                Some((type_subst, subst_list_ref)) => {
                    type_subst_stack.push(type_subst);
                    subst_list_refs.push(subst_list_ref);
                    proof {
                        assert(param_views(subst_list_refs@) =~= param_views(mid_refs).push(subst_list_ref@));
                        assert(param_views(type_subst_stack@) =~= param_views(mid_stack).push(type_subst@));
                    }
                },
                None => {},
            }
            proof {
                let after = params_run(base, inherited_len, where_clauses_allowed, pp, pc);
                assert(type_engine.slab@ =~= old(type_engine).slab@ + after.insertions);
                assert(scope@ =~= old(scope)@ + after.bindings);
                assert(warnings@ =~= after.warnings);
                assert(errors@ =~= after.errors);
                assert(param_views(subst_list_refs@) =~= after.refs);
                assert(param_views(type_subst_stack@) =~= inherited_views + after.substs);
            }
            i = i + 1;
        }
        assert(all_p.subrange(0, n as int) =~= all_p);
        assert(all_c.subrange(0, n as int) =~= all_c);
        if errors.len() == 0 {
            ok((subst_list_refs, TypeSubstList { list: type_subst_stack }), warnings, errors)
        } else {
            err(warnings, errors)
        }
    }
}

/// Once a where clause stops the check, the rest of the parameters change
/// nothing.
proof fn lemma_params_run_stays_stopped(
    base: nat,
    inherited: nat,
    allowed: bool,
    params: Seq<TypeParameter>,
    checks: Seq<TypeParameterChecks>,
    k: int,
)
    requires
        0 <= k <= params.len(),
        params.len() == checks.len(),
        params_run(base, inherited, allowed, params.subrange(0, k), checks.subrange(0, k)).stopped,
    ensures
        params_run(base, inherited, allowed, params, checks) == params_run(
            base,
            inherited,
            allowed,
            params.subrange(0, k),
            checks.subrange(0, k),
        ),
    decreases params.len() - k,
{
    if k < params.len() {
        let p2 = params.subrange(0, k + 1);
        let c2 = checks.subrange(0, k + 1);
        assert(p2.drop_last() =~= params.subrange(0, k));
        assert(c2.subrange(0, k) =~= checks.subrange(0, k));
        lemma_params_run_stays_stopped(base, inherited, allowed, params, checks, k + 1);
    } else {
        assert(params.subrange(0, k) =~= params);
        assert(checks.subrange(0, k) =~= checks);
    }
}

} // verus!
