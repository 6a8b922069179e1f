//! Type checking of trait declarations.
//!
//! Type checking the signatures and methods of a trait, putting the
//! supertraits and the placeholders of the signatures into the namespace,
//! storing the checked functions in the declaration engine and telling
//! whether the trait's name is in upper camel case are done elsewhere.  The
//! function here takes what those steps gave and decides the rest: what
//! goes into the type engine, what the checked trait is, which diagnostics
//! are reported, and where the check stops.

use vstd::prelude::*;

use crate::decl_engine::DeclId;
use crate::error::{err, ok, CompileError, CompileResult, CompileWarning, Warning};
use crate::language::declaration::{TyFunctionDeclaration, TyMethodValue, TyTraitDeclaration, TyTraitFn};
use crate::language::parsed::{FunctionDeclaration, TraitDeclaration};
use crate::language::ty::TyDeclaration;
use crate::semantic_analysis::{all_errors, all_warnings, param_views, params_run, TypeParameterChecks};
use crate::span::Ident;
use crate::type_system::{TypeEngine, TypeInfo, TypeParameter, TypeSubstList};

verus! {

/// Whether every outcome succeeded.
pub open spec fn all_succeed<T>(rs: Seq<CompileResult<T>>) -> bool {
    forall|i: int| 0 <= i < rs.len() ==> (#[trigger] rs[i]).value is Some
}

/// The warnings of the outcomes up to and including the first that failed.
pub open spec fn warnings_until_failure<T>(rs: Seq<CompileResult<T>>) -> Seq<CompileWarning>
    decreases rs.len(),
{
    if rs.len() == 0 {
        Seq::empty()
    } else if all_succeed(rs.drop_last()) {
        warnings_until_failure(rs.drop_last()) + rs.last().warnings@
    } else {
        warnings_until_failure(rs.drop_last())
    }
}

/// The errors of the outcomes up to and including the first that failed.
pub open spec fn errors_until_failure<T>(rs: Seq<CompileResult<T>>) -> Seq<CompileError>
    decreases rs.len(),
{
    if rs.len() == 0 {
        Seq::empty()
    } else if all_succeed(rs.drop_last()) {
        errors_until_failure(rs.drop_last()) + rs.last().errors@
    } else {
        errors_until_failure(rs.drop_last())
    }
}

proof fn lemma_until_failure_stays<T>(rs: Seq<CompileResult<T>>, k: int)
    requires
        0 <= k <= rs.len(),
        !all_succeed(rs.take(k)),
    ensures
        warnings_until_failure(rs) == warnings_until_failure(rs.take(k)),
        errors_until_failure(rs) == errors_until_failure(rs.take(k)),
    decreases rs.len() - k,
{
    if k < rs.len() {
        let t = rs.take(k + 1);
        assert(t.drop_last() =~= rs.take(k));
        assert(!all_succeed(t)) by {
            let i = choose|i: int| 0 <= i < k && !((#[trigger] rs.take(k)[i]).value is Some);
            assert(t[i] == rs.take(k)[i]);
        }
        lemma_until_failure_stays(rs, k + 1);
    } else {
        assert(rs.take(k) =~= rs);
    }
}

proof fn lemma_until_failure_all<T>(rs: Seq<CompileResult<T>>)
    requires
        all_succeed(rs),
    ensures
        warnings_until_failure(rs) == all_warnings(rs),
        errors_until_failure(rs) == all_errors(rs),
    decreases rs.len(),
{
    if rs.len() > 0 {
        assert(all_succeed(rs.drop_last())) by {
            assert forall|i: int| 0 <= i < rs.drop_last().len() implies (#[trigger] rs.drop_last()[i]).value is Some by {
                assert(rs.drop_last()[i] == rs[i]);
            }
        }
        lemma_until_failure_all(rs.drop_last());
    }
}

/// The warning for a trait whose name is not in upper camel case, if it is
/// not.
pub open spec fn name_style_warnings(name: Ident, upper_camel_case: bool) -> Seq<CompileWarning> {
    if upper_camel_case {
        Seq::empty()
    } else {
        seq![CompileWarning { span: name.span, warning_content: Warning::NonClassCaseTraitName { name } }]
    }
}

/// Whether `m` is the method value for a checked signature `f` stored under
/// `id`: named as it, with no type arguments.
pub open spec fn interface_value(m: TyMethodValue, f: TyTraitFn, id: DeclId) -> bool {
    m.name == f.name && m.decl_id == id && m.type_subst_list.list@.len() == 0
}

/// Whether `m` is the method value for a method stored under `id`, given
/// the outcome of checking it: named as the checked method with its type
/// arguments, or, where it failed, as the parsed method with none.
pub open spec fn method_value(
    m: TyMethodValue,
    parsed: FunctionDeclaration,
    r: CompileResult<(TyFunctionDeclaration, TypeSubstList)>,
    id: DeclId,
) -> bool {
    &&& m.decl_id == id
    &&& match r.value {
        Some((f, subst)) => m.name == f.name && m.type_subst_list == subst,
        None => m.name == parsed.name && m.type_subst_list.list@.len() == 0,
    }
}

fn take_diagnostics<T>(r: CompileResult<T>, warnings: &mut Vec<CompileWarning>, errors: &mut Vec<CompileError>) -> (res:
    Option<T>)
    ensures
        res == r.value,
        final(warnings)@ == old(warnings)@ + r.warnings@,
        final(errors)@ == old(errors)@ + r.errors@,
{
    let CompileResult { value, warnings: mut w, errors: mut e } = r;
    warnings.append(&mut w);
    errors.append(&mut e);
    value
}

/// The method values of the checked signatures, stopping at the first that
/// failed to check.
fn check_interface(
    checks: Vec<CompileResult<TyTraitFn>>,
    ids: &Vec<DeclId>,
    warnings: &mut Vec<CompileWarning>,
    errors: &mut Vec<CompileError>,
) -> (res: Option<Vec<TyMethodValue>>)
    requires
        checks@.len() == ids@.len(),
    ensures
        final(warnings)@ == old(warnings)@ + warnings_until_failure(checks@),
        final(errors)@ == old(errors)@ + errors_until_failure(checks@),
        res is Some <==> all_succeed(checks@),
        res matches Some(vs) ==> vs@.len() == checks@.len() && forall|i: int|
            0 <= i < vs@.len() ==> interface_value(#[trigger] vs@[i], checks@[i].value.unwrap(), ids@[i]),
{
    let ghost all = checks@;
    let n = checks.len();
    let mut remaining = checks;
    let mut values: Vec<TyMethodValue> = Vec::new();
    let mut i: usize = 0;
    assert(all.take(0) =~= Seq::<CompileResult<TyTraitFn>>::empty());
    while i < n
        invariant
            n == all.len(),
            all == checks@,
            n == ids@.len(),
            0 <= i <= n,
            remaining@ == all.subrange(i as int, n as int),
            all_succeed(all.take(i as int)),
            warnings@ == old(warnings)@ + warnings_until_failure(all.take(i as int)),
            errors@ == old(errors)@ + errors_until_failure(all.take(i as int)),
            values@.len() == i,
            forall|j: int| 0 <= j < i ==> interface_value(#[trigger] values@[j], all[j].value.unwrap(), ids@[j]),
        decreases n - i,
    {
        let r = remaining.remove(0);
        assert(remaining@ =~= all.subrange(i + 1, n as int));
        let ghost t = all.take(i + 1);
        assert(t.drop_last() =~= all.take(i as int));
        assert(t.last() == r);
        match take_diagnostics(r, warnings, errors) {
            Some(f) => {
                values.push(TyMethodValue::new(f.name, ids[i], TypeSubstList::new()));
                assert(all_succeed(t)) by {
                    assert forall|j: int| 0 <= j < t.len() implies (#[trigger] t[j]).value is Some by {
                        if j < i {
                            assert(t[j] == all.take(i as int)[j]);
                        }
                    }
                }
            },
            None => {
                assert(!all_succeed(t)) by {
                    assert(t[i as int] == r);
                }
                proof {
                    assert(warnings_until_failure(t) == warnings_until_failure(all.take(i as int)) + r.warnings@);
                    assert(errors_until_failure(t) == errors_until_failure(all.take(i as int)) + r.errors@);
                    assert(warnings@ =~= old(warnings)@ + warnings_until_failure(t));
                    assert(errors@ =~= old(errors)@ + errors_until_failure(t));
                    lemma_until_failure_stays(all, i + 1);
                    assert(all == checks@);
                    assert(warnings_until_failure(all) == warnings_until_failure(t));
                    assert(!all_succeed(all)) by {
                        assert(all[i as int] == r);
                    }
                }
                return None;
            },
        }
        i = i + 1;
    }
    assert(all.take(n as int) =~= all);
    Some(values)
}

/// The method values of the methods, the failed ones included.
fn check_methods(
    parsed: &Vec<FunctionDeclaration>,
    checks: Vec<CompileResult<(TyFunctionDeclaration, TypeSubstList)>>,
    ids: &Vec<DeclId>,
    warnings: &mut Vec<CompileWarning>,
    errors: &mut Vec<CompileError>,
) -> (res: Vec<TyMethodValue>)
    requires
        checks@.len() == ids@.len(),
        checks@.len() == parsed@.len(),
    ensures
        final(warnings)@ == old(warnings)@ + all_warnings(checks@),
        final(errors)@ == old(errors)@ + all_errors(checks@),
        res@.len() == checks@.len(),
        forall|i: int| 0 <= i < res@.len() ==> method_value(#[trigger] res@[i], parsed@[i], checks@[i], ids@[i]),
{
    let ghost all = checks@;
    let n = checks.len();
    let mut checks = checks;
    let mut values: Vec<TyMethodValue> = Vec::new();
    let mut i: usize = 0;
    assert(all.subrange(0, 0) =~= Seq::<CompileResult<(TyFunctionDeclaration, TypeSubstList)>>::empty());
    while i < n
        invariant
            n == all.len(),
            n == ids@.len(),
            n == parsed@.len(),
            0 <= i <= n,
            checks@ == all.subrange(i as int, n as int),
            warnings@ == old(warnings)@ + all_warnings(all.subrange(0, i as int)),
            errors@ == old(errors)@ + all_errors(all.subrange(0, i as int)),
            values@.len() == i,
            forall|j: int| 0 <= j < i ==> method_value(#[trigger] values@[j], parsed@[j], all[j], ids@[j]),
        decreases n - i,
    {
        let r = checks.remove(0);
        assert(checks@ =~= all.subrange(i + 1, n as int));
        let ghost p = all.subrange(0, i + 1);
        assert(p.drop_last() =~= all.subrange(0, i as int));
        assert(p.last() == r);
        match take_diagnostics(r, warnings, errors) {
            Some((f, subst)) => values.push(TyMethodValue::new(f.name, ids[i], subst)),
            None => values.push(TyMethodValue::new(parsed[i].name.duplicate(), ids[i], TypeSubstList::new())),
        }
        i = i + 1;
    }
    assert(all.subrange(0, n as int) =~= all);
    values
}

impl TyTraitDeclaration {
    /// Type checks a trait declaration, given whether its name is in upper
    /// camel case, the substitution list inherited from the enclosing
    /// scope, what the type checking context gave for each type parameter,
    /// the outcome of putting the supertraits into the namespace, the
    /// outcomes of checking the signatures of the interface (with the ids
    /// the checked ones are stored under), the outcome of putting
    /// placeholders for them into the namespace, and the outcomes of
    /// checking the methods (with the ids they are stored under).
    ///
    /// A name not in upper camel case gets a `NonClassCaseTraitName`
    /// warning.  The `Self` type goes into the engine, then the type
    /// parameters are checked, where clauses allowed.  The check stops,
    /// failing, at the first of these to fail: the type parameters, the
    /// supertraits, a signature, the placeholders.  A method that fails to
    /// check is kept, with no type arguments, and the check goes on.  Each
    /// step's diagnostics are reported in order.
    pub fn type_check(
        type_engine: &mut TypeEngine,
        trait_decl: TraitDeclaration,
        name_is_upper_camel_case: bool,
        inherited: TypeSubstList,
        param_checks: Vec<TypeParameterChecks>,
        supertraits_inserted: CompileResult<()>,
        interface_checks: Vec<CompileResult<TyTraitFn>>,
        interface_ids: Vec<DeclId>,
        placeholders_inserted: CompileResult<()>,
        method_checks: Vec<CompileResult<(TyFunctionDeclaration, TypeSubstList)>>,
        method_ids: Vec<DeclId>,
    ) -> (res: CompileResult<TyTraitDeclaration>)
        requires
            trait_decl.type_parameters@.len() == param_checks@.len(),
            trait_decl.interface_surface@.len() == interface_checks@.len(),
            interface_checks@.len() == interface_ids@.len(),
            trait_decl.methods@.len() == method_checks@.len(),
            method_checks@.len() == method_ids@.len(),
            old(type_engine).slab@.len() + 2 * trait_decl.type_parameters@.len() + 3 <= usize::MAX,
            inherited.list@.len() + trait_decl.type_parameters@.len() <= usize::MAX,
        ensures
            ({
                let run = params_run(
                    old(type_engine).slab@.len() + 1,
                    inherited.list@.len(),
                    true,
                    trait_decl.type_parameters@,
                    param_checks@,
                );
                let w0 = name_style_warnings(trait_decl.name, name_is_upper_camel_case) + run.warnings;
                let w1 = w0 + supertraits_inserted.warnings@;
                let e1 = run.errors + supertraits_inserted.errors@;
                &&& final(type_engine).slab@ == old(type_engine).slab@.push(TypeInfo::SelfType) + run.insertions
                &&& if run.stopped || run.errors.len() > 0 {
                    &&& res.value is None
                    &&& res.warnings@ == w0
                    &&& res.errors@ == run.errors
                } else if supertraits_inserted.value is None {
                    &&& res.value is None
                    &&& res.warnings@ == w1
                    &&& res.errors@ == e1
                } else if !all_succeed(interface_checks@) {
                    &&& res.value is None
                    &&& res.warnings@ == w1 + warnings_until_failure(interface_checks@)
                    &&& res.errors@ == e1 + errors_until_failure(interface_checks@)
                } else if placeholders_inserted.value is None {
                    &&& res.value is None
                    &&& res.warnings@ == w1 + all_warnings(interface_checks@) + placeholders_inserted.warnings@
                    &&& res.errors@ == e1 + all_errors(interface_checks@) + placeholders_inserted.errors@
                } else {
                    &&& res.warnings@ == w1 + all_warnings(interface_checks@) + placeholders_inserted.warnings@
                        + all_warnings(method_checks@)
                    &&& res.errors@ == e1 + all_errors(interface_checks@) + placeholders_inserted.errors@
                        + all_errors(method_checks@)
                    &&& res.value matches Some(d)
                    &&& d.name == trait_decl.name
                    &&& param_views(d.type_parameters@) == run.refs
                    &&& d.supertraits == trait_decl.supertraits
                    &&& d.visibility == trait_decl.visibility
                    &&& d.attributes == trait_decl.attributes
                    &&& d.span == trait_decl.span
                    &&& d.interface_surface@.len() == interface_checks@.len()
                    &&& forall|i: int|
                        0 <= i < d.interface_surface@.len() ==> interface_value(
                            #[trigger] d.interface_surface@[i],
                            interface_checks@[i].value.unwrap(),
                            interface_ids@[i],
                        )
                    &&& d.methods@.len() == method_checks@.len()
                    &&& forall|i: int|
                        0 <= i < d.methods@.len() ==> method_value(
                            #[trigger] d.methods@[i],
                            trait_decl.methods@[i],
                            method_checks@[i],
                            method_ids@[i],
                        )
                }
            }),
    {
        let ghost run = params_run(
            old(type_engine).slab@.len() + 1,
            inherited.list@.len(),
            true,
            trait_decl.type_parameters@,
            param_checks@,
        );
        let ghost parsed_methods = trait_decl.methods@;
        let mut warnings: Vec<CompileWarning> = Vec::new();
        let mut errors: Vec<CompileError> = Vec::new();
        let TraitDeclaration {
            name,
            type_parameters,
            attributes,
            interface_surface: _,
            methods,
            supertraits,
            visibility,
            span,
        } = trait_decl;
        if !name_is_upper_camel_case {
            warnings.push(
                CompileWarning {
                    span: name.span,
                    warning_content: Warning::NonClassCaseTraitName { name: name.duplicate() },
                },
            );
        }
        assert(warnings@ =~= name_style_warnings(trait_decl.name, name_is_upper_camel_case));
        let _self_type = type_engine.insert(TypeInfo::SelfType);
        let mut trait_scope: Vec<(Ident, TyDeclaration)> = Vec::new();
        let checked_params = TypeParameter::type_check_type_parameters(
            type_engine,
            type_parameters,
            true,
            inherited,
            param_checks,
            &mut trait_scope,
        );
        let (new_type_parameters, _) = match take_diagnostics(checked_params, &mut warnings, &mut errors) {
            Some(checked) => checked,
            None => {
                return err(warnings, errors);
            },
        };
        assert(errors@ =~= run.errors);
        match take_diagnostics(supertraits_inserted, &mut warnings, &mut errors) {
            Some(_) => {},
            None => {
                return err(warnings, errors);
            },
        }
        let new_interface_surface = match check_interface(
            interface_checks,
            &interface_ids,
            &mut warnings,
            &mut errors,
        ) {
            Some(values) => values,
            None => {
                return err(warnings, errors);
            },
        };
        proof {
            lemma_until_failure_all(interface_checks@);
        }
        match take_diagnostics(placeholders_inserted, &mut warnings, &mut errors) {
            Some(_) => {},
            None => {
                return err(warnings, errors);
            },
        }
        let new_methods = check_methods(&methods, method_checks, &method_ids, &mut warnings, &mut errors);
        let typed_trait_decl = TyTraitDeclaration {
            name,
            type_parameters: new_type_parameters,
            interface_surface: new_interface_surface,
            methods: new_methods,
            supertraits,
            visibility,
            attributes,
            span,
        };
        ok(typed_trait_decl, warnings, errors)
    }
}

} // verus!
