//! The printed form of typed expressions, as the compiler's debug output
//! shows them.
//!
//! An identifier prints as its name, a number in decimal.  Some forms embed
//! the printed form of something printed elsewhere: of a literal, a type, a
//! nested expression, an intrinsic, an ABI name or a storage field.  Those
//! texts are handed in, in the order the form uses them (see
//! [`TyExpressionVariant::printed_parts`]).

use vstd::prelude::*;

use crate::ir::irtype::{decimal, join_strings, push_decimal};
use crate::language::ty::{LazyOp, ProjectionKind, TyExpressionVariant, TyStorageReassignDescriptor};

verus! {

/// The characters of each string.
pub open spec fn texts(parts: Seq<String>) -> Seq<Seq<char>> {
    parts.map_values(|s: String| s@)
}

/// How many of the projections of a place are array indices, whose printed
/// forms are handed in.
pub open spec fn array_index_count(ps: Seq<ProjectionKind>) -> nat
    decreases ps.len(),
{
    if ps.len() == 0 {
        0
    } else {
        array_index_count(ps.drop_last()) + if ps.last() is ArrayIndex {
            1nat
        } else {
            0nat
        }
    }
}

/// The printed form of one projection of a reassigned place: a dot, then
/// the field's name, the tuple index in decimal, or the printed form of the
/// array index (the `k`-th of `parts`).
pub open spec fn projection_text(p: ProjectionKind, parts: Seq<Seq<char>>, k: nat) -> Seq<char> {
    match p {
        ProjectionKind::StructField { name } => "."@ + name.name@,
        ProjectionKind::TupleField { index, .. } => "."@ + decimal(index as nat),
        ProjectionKind::ArrayIndex { .. } => "."@ + parts[k as int],
    }
}

/// The printed projections of a place, in order, the array indices taking
/// their printed forms from `parts` in order.
pub open spec fn projections_text(ps: Seq<ProjectionKind>, parts: Seq<Seq<char>>) -> Seq<char>
    decreases ps.len(),
{
    if ps.len() == 0 {
        Seq::empty()
    } else {
        projections_text(ps.drop_last(), parts) + projection_text(ps.last(), parts, array_index_count(ps.drop_last()))
    }
}

/// The names of the fields of a storage place, run together.
pub open spec fn storage_fields_text(fs: Seq<TyStorageReassignDescriptor>) -> Seq<char>
    decreases fs.len(),
{
    if fs.len() == 0 {
        Seq::empty()
    } else {
        storage_fields_text(fs.drop_last()) + fs.last().name.name@
    }
}

impl TyExpressionVariant {
    /// How many printed forms of other things this form embeds: one for a
    /// literal, a field or element access (the parent's type), a storage
    /// access (the field's name), an intrinsic, an ABI name, an enum tag or
    /// a downcast (the type of the expression), a while loop (its
    /// condition) and a return (its value); one per field of a tuple; one
    /// per array index of a reassigned place; none for the rest.
    pub open spec fn printed_parts(&self) -> nat {
        match self {
            TyExpressionVariant::Literal(_) => 1,
            TyExpressionVariant::Tuple { fields } => fields@.len(),
            TyExpressionVariant::StructFieldAccess { .. } => 1,
            TyExpressionVariant::TupleElemAccess { .. } => 1,
            TyExpressionVariant::StorageAccess(_) => 1,
            TyExpressionVariant::IntrinsicFunction(_) => 1,
            TyExpressionVariant::AbiName(_) => 1,
            TyExpressionVariant::EnumTag { .. } => 1,
            TyExpressionVariant::UnsafeDowncast { .. } => 1,
            TyExpressionVariant::WhileLoop { .. } => 1,
            TyExpressionVariant::Return(_) => 1,
            TyExpressionVariant::Reassignment(r) => array_index_count(r.lhs_indices@),
            _ => 0,
        }
    }

    /// The printed form of an expression, given the printed forms it embeds.
    pub open spec fn spec_display(&self, parts: Seq<Seq<char>>) -> Seq<char> {
        match self {
            TyExpressionVariant::Literal(_) => "literal "@ + parts[0],
            TyExpressionVariant::FunctionApplication { call_path, .. } => "\""@ + call_path.suffix.name@
                + "\" fn entry"@,
            TyExpressionVariant::LazyOperator { op, .. } => match op {
                LazyOp::And => "&&"@,
                LazyOp::Or => "||"@,
            },
            TyExpressionVariant::Tuple { .. } => "tuple("@ + join_strings(parts, ", "@) + ")"@,
            TyExpressionVariant::Array { .. } => "array"@,
            TyExpressionVariant::ArrayIndex { .. } => "[..]"@,
            TyExpressionVariant::StructExpression { struct_name, .. } => "\""@ + struct_name.name@
                + "\" struct init"@,
            TyExpressionVariant::CodeBlock(_) => "code block entry"@,
            TyExpressionVariant::FunctionParameter => "fn param access"@,
            TyExpressionVariant::IfExp { .. } => "if exp"@,
            TyExpressionVariant::AsmExpression { .. } => "inline asm"@,
            TyExpressionVariant::AbiCast { abi_name, .. } => "abi cast "@ + abi_name.suffix.name@,
            TyExpressionVariant::StructFieldAccess { field_to_access, .. } => "\""@ + parts[0] + "."@
                + field_to_access.name.name@ + "\" struct field access"@,
            TyExpressionVariant::TupleElemAccess { elem_to_access_num, .. } => "\""@ + parts[0] + "."@ + decimal(
                *elem_to_access_num as nat,
            ) + "\" tuple index"@,
            TyExpressionVariant::VariableExpression { name, .. } => "\""@ + name.name@ + "\" variable exp"@,
            TyExpressionVariant::StorageAccess(_) => "storage field "@ + parts[0] + " access"@,
            TyExpressionVariant::IntrinsicFunction(_) => parts[0],
            TyExpressionVariant::AbiName(_) => "ABI name "@ + parts[0],
            TyExpressionVariant::EnumTag { .. } => "("@ + parts[0] + " as tag)"@,
            TyExpressionVariant::UnsafeDowncast { variant, .. } => "("@ + parts[0] + " as "@ + variant.name.name@
                + ")"@,
            TyExpressionVariant::WhileLoop { .. } => "while loop on "@ + parts[0],
            TyExpressionVariant::Break => "break"@,
            TyExpressionVariant::Continue => "continue"@,
            TyExpressionVariant::Reassignment(r) => "reassignment to "@ + r.lhs_base_name.name@ + projections_text(
                r.lhs_indices@,
                parts,
            ),
            TyExpressionVariant::StorageReassignment(r) => "storage reassignment to "@ + storage_fields_text(
                r.fields@,
            ),
            TyExpressionVariant::Return(_) => "return "@ + parts[0],
            TyExpressionVariant::EnumInstantiation { .. } => Seq::empty(),
        }
    }

    /// The printed form of this expression; `parts` are the printed forms it
    /// embeds, in order (see [`TyExpressionVariant::printed_parts`]).  An
    /// enum instantiation has no printed form.
    pub fn display(&self, parts: &Vec<String>) -> (res: String)
        requires
            !(self is EnumInstantiation),
            parts@.len() == self.printed_parts(),
        ensures
            res@ == self.spec_display(texts(parts@)),
    {
        let ghost ps = texts(parts@);
        let mut s = String::new();
        match self {
            TyExpressionVariant::Literal(_) => {
                s.append("literal ");
                s.append(parts[0].as_str());
            },
            TyExpressionVariant::FunctionApplication { call_path, .. } => {
                s.append("\"");
                s.append(call_path.suffix.as_str());
                s.append("\" fn entry");
            },
            TyExpressionVariant::LazyOperator { op, .. } => match op {
                LazyOp::And => s.append("&&"),
                LazyOp::Or => s.append("||"),
            },
            TyExpressionVariant::Tuple { .. } => {
                s.append("tuple(");
                let ghost start = s@;
                let mut i: usize = 0;
                while i < parts.len()
                    invariant
                        ps == texts(parts@),
                        i <= parts@.len(),
                        s@ == start + join_strings(ps.take(i as int), ", "@),
                    decreases parts@.len() - i,
                {
                    if i > 0 {
                        s.append(", ");
                    }
                    s.append(parts[i].as_str());
                    proof {
                        let t = ps.take(i + 1);
                        assert(t.drop_last() =~= ps.take(i as int));
                        assert(t.last() == parts@[i as int]@);
                        if i == 0 {
                            assert(ps.take(0) =~= Seq::<Seq<char>>::empty());
                        }
                    }
                    i = i + 1;
                }
                assert(ps.take(i as int) =~= ps);
                s.append(")");
            },
            TyExpressionVariant::Array { .. } => s.append("array"),
            TyExpressionVariant::ArrayIndex { .. } => s.append("[..]"),
            TyExpressionVariant::StructExpression { struct_name, .. } => {
                s.append("\"");
                s.append(struct_name.as_str());
                s.append("\" struct init");
            },
            TyExpressionVariant::CodeBlock(_) => s.append("code block entry"),
            TyExpressionVariant::FunctionParameter => s.append("fn param access"),
            TyExpressionVariant::IfExp { .. } => s.append("if exp"),
            TyExpressionVariant::AsmExpression { .. } => s.append("inline asm"),
            TyExpressionVariant::AbiCast { abi_name, .. } => {
                s.append("abi cast ");
                s.append(abi_name.suffix.as_str());
            },
            TyExpressionVariant::StructFieldAccess { field_to_access, .. } => {
                s.append("\"");
                s.append(parts[0].as_str());
                s.append(".");
                s.append(field_to_access.name.as_str());
                s.append("\" struct field access");
            },
            TyExpressionVariant::TupleElemAccess { elem_to_access_num, .. } => {
                s.append("\"");
                s.append(parts[0].as_str());
                s.append(".");
                push_decimal(&mut s, *elem_to_access_num as u64);
                s.append("\" tuple index");
            },
            TyExpressionVariant::VariableExpression { name, .. } => {
                s.append("\"");
                s.append(name.as_str());
                s.append("\" variable exp");
            },
            TyExpressionVariant::StorageAccess(_) => {
                s.append("storage field ");
                s.append(parts[0].as_str());
                s.append(" access");
            },
            TyExpressionVariant::IntrinsicFunction(_) => s.append(parts[0].as_str()),
            TyExpressionVariant::AbiName(_) => {
                s.append("ABI name ");
                s.append(parts[0].as_str());
            },
            TyExpressionVariant::EnumTag { .. } => {
                s.append("(");
                s.append(parts[0].as_str());
                s.append(" as tag)");
            },
            TyExpressionVariant::UnsafeDowncast { variant, .. } => {
                s.append("(");
                s.append(parts[0].as_str());
                s.append(" as ");
                s.append(variant.name.as_str());
                s.append(")");
            },
            TyExpressionVariant::WhileLoop { .. } => {
                s.append("while loop on ");
                s.append(parts[0].as_str());
            },
            TyExpressionVariant::Break => s.append("break"),
            TyExpressionVariant::Continue => s.append("continue"),
            TyExpressionVariant::Reassignment(r) => {
                s.append("reassignment to ");
                s.append(r.lhs_base_name.as_str());
                let ghost start = s@;
                let ghost idx = r.lhs_indices@;
                let n_parts = parts.len();
                let mut i: usize = 0;
                let mut k: usize = 0;
                while i < r.lhs_indices.len()
                    invariant
                        ps == texts(parts@),
                        idx == r.lhs_indices@,
                        i <= idx.len(),
                        parts@.len() == array_index_count(idx),
                        parts@.len() == n_parts,
                        k == array_index_count(idx.take(i as int)),
                        s@ == start + projections_text(idx.take(i as int), ps),
                    decreases idx.len() - i,
                {
                    proof {
                        lemma_array_index_count_prefix(idx, i as int + 1);
                        let taken = idx.take(i + 1);
                        assert(taken.drop_last() =~= idx.take(i as int));
                        assert(taken.last() == idx[i as int]);
                    }
                    s.append(".");
                    match &r.lhs_indices[i] {
                        ProjectionKind::StructField { name } => s.append(name.as_str()),
                        ProjectionKind::TupleField { index, .. } => push_decimal(&mut s, *index as u64),
                        ProjectionKind::ArrayIndex { .. } => {
                            assert(k < parts@.len());
                            s.append(parts[k].as_str());
                            k = k + 1;
                        },
                    }
                    i = i + 1;
                }
                assert(idx.take(i as int) =~= idx);
            },
            TyExpressionVariant::StorageReassignment(r) => {
                s.append("storage reassignment to ");
                let ghost start = s@;
                let mut i: usize = 0;
                while i < r.fields.len()
                    invariant
                        i <= r.fields@.len(),
                        s@ == start + storage_fields_text(r.fields@.take(i as int)),
                    decreases r.fields@.len() - i,
                {
                    s.append(r.fields[i].name.as_str());
                    proof {
                        let taken = r.fields@.take(i + 1);
                        assert(taken.drop_last() =~= r.fields@.take(i as int));
                    }
                    i = i + 1;
                }
                assert(r.fields@.take(i as int) =~= r.fields@);
            },
            TyExpressionVariant::Return(_) => {
                s.append("return ");
                s.append(parts[0].as_str());
            },
            TyExpressionVariant::EnumInstantiation { .. } => {},
        }
        s
    }
}

/// The array indices among the first `i` projections are no more than
/// those among all of them.
proof fn lemma_array_index_count_prefix(ps: Seq<ProjectionKind>, i: int)
    requires
        0 <= i <= ps.len(),
    ensures
        array_index_count(ps.take(i)) <= array_index_count(ps),
        i > 0 && ps[i - 1] is ArrayIndex ==> array_index_count(ps.take(i - 1)) < array_index_count(ps),
    decreases ps.len() - i,
{
    if i < ps.len() {
        lemma_array_index_count_prefix(ps, i + 1);
        let t = ps.take(i + 1);
        assert(t.drop_last() =~= ps.take(i));
    } else {
        assert(ps.take(i) =~= ps);
    }
    if i > 0 {
        let t = ps.take(i);
        assert(t.drop_last() =~= ps.take(i - 1));
    }
}


/// The printed form of a struct field access is a quote, then the printed
/// form of the parent's type, a dot and the field's name, then the closing
/// quote and ` struct field access`.
pub proof fn lemma_field_access_prints_parent_then_field(e: TyExpressionVariant, parts: Seq<Seq<char>>)
    requires
        e is StructFieldAccess,
        parts.len() == 1,
    ensures
        e.spec_display(parts).take(parts[0].len() + 2int) == "\""@ + parts[0] + "."@,
        e.spec_display(parts).subrange(
            parts[0].len() + 2int,
            parts[0].len() + 2int + e->StructFieldAccess_field_to_access.name.name@.len(),
        ) == e->StructFieldAccess_field_to_access.name.name@,
{
    let name = e->StructFieldAccess_field_to_access.name.name@;
    reveal_strlit("\"");
    reveal_strlit(".");
    let d = e.spec_display(parts);
    assert(d.take(parts[0].len() + 2int) =~= "\""@ + parts[0] + "."@);
    assert(d.subrange(parts[0].len() + 2int, parts[0].len() + 2int + name.len()) =~= name);
}


/// The printed form of a tuple element access is a quote, then the printed
/// form of the parent's type, a dot and the element's index in decimal.
pub proof fn lemma_element_access_prints_parent_then_index(e: TyExpressionVariant, parts: Seq<Seq<char>>)
    requires
        e is TupleElemAccess,
        parts.len() == 1,
    ensures
        e.spec_display(parts).take(parts[0].len() + 2int + decimal(e->TupleElemAccess_elem_to_access_num as nat).len())
            == "\""@ + parts[0] + "."@ + decimal(e->TupleElemAccess_elem_to_access_num as nat),
{
    reveal_strlit("\"");
    reveal_strlit(".");
    let d = e.spec_display(parts);
    let n = decimal(e->TupleElemAccess_elem_to_access_num as nat);
    assert(d.take(parts[0].len() + 2int + n.len()) =~= "\""@ + parts[0] + "."@ + n);
}

} // verus!
