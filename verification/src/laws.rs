//! Properties that relate the constructors and the accessors.
use vstd::prelude::*;

use crate::attribute::SpecAttribute;
use crate::debug_info::{
    composite_type_model, derived_type_model, is_subprogram, subprogram_compile_unit,
    subprogram_file, subprogram_line, subprogram_model, subprogram_scope, subprogram_scope_line,
    subprogram_type,
};

verus! {

/// The accessors of a subprogram read back what it was built with: its scope,
/// line, scope line, compile unit, file and subroutine type.
pub proof fn lemma_subprogram_read_back(
    rec_id: SpecAttribute,
    id: SpecAttribute,
    compile_unit: SpecAttribute,
    scope: SpecAttribute,
    name: Seq<char>,
    linkage_name: Seq<char>,
    file: SpecAttribute,
    line: u32,
    scope_line: u32,
    subprogram_flags: u64,
    ty: SpecAttribute,
    retained_nodes: Seq<SpecAttribute>,
    annotations: Seq<SpecAttribute>,
)
    ensures
        ({
            let sp = subprogram_model(
                rec_id,
                id,
                compile_unit,
                scope,
                name,
                linkage_name,
                file,
                line,
                scope_line,
                subprogram_flags,
                ty,
                retained_nodes,
                annotations,
            );
            &&& is_subprogram(sp)
            &&& subprogram_scope(sp) == scope
            &&& subprogram_line(sp) == line
            &&& subprogram_scope_line(sp) == scope_line
            &&& subprogram_compile_unit(sp) == compile_unit
            &&& subprogram_file(sp) == file
            &&& subprogram_type(sp) == ty
        }),
{
}

/// A self-referencing subprogram is a subprogram that carries only its
/// identifier: null scope, compile unit, file and type, and lines 0.
pub proof fn lemma_subprogram_rec_self_read_back(rec_id: SpecAttribute)
    ensures
        ({
            let sp = SpecAttribute::SubprogramRecSelf { rec_id: Box::new(rec_id) };
            &&& is_subprogram(sp)
            &&& subprogram_scope(sp) == SpecAttribute::Null
            &&& subprogram_line(sp) == 0
            &&& subprogram_scope_line(sp) == 0
            &&& subprogram_compile_unit(sp) == SpecAttribute::Null
            &&& subprogram_file(sp) == SpecAttribute::Null
            &&& subprogram_type(sp) == SpecAttribute::Null
        }),
{
}

/// Each argument of a subprogram keeps its role: the name is the name and the
/// linkage name the linkage name, the line is the line and the scope line the
/// scope line, and so on for every field; it is not a self-reference.
pub proof fn lemma_subprogram_roles(
    rec_id: SpecAttribute,
    id: SpecAttribute,
    compile_unit: SpecAttribute,
    scope: SpecAttribute,
    name: Seq<char>,
    linkage_name: Seq<char>,
    file: SpecAttribute,
    line: u32,
    scope_line: u32,
    subprogram_flags: u64,
    ty: SpecAttribute,
    retained_nodes: Seq<SpecAttribute>,
    annotations: Seq<SpecAttribute>,
)
    ensures
        subprogram_model(
            rec_id,
            id,
            compile_unit,
            scope,
            name,
            linkage_name,
            file,
            line,
            scope_line,
            subprogram_flags,
            ty,
            retained_nodes,
            annotations,
        ) matches SpecAttribute::Subprogram {
            rec_id: ri,
            is_rec_self: rs,
            id: ident,
            compile_unit: cu,
            scope: sc,
            name: n,
            linkage_name: l,
            file: f,
            line: ln,
            scope_line: sl,
            subprogram_flags: fl,
            subprogram_type: t,
            retained_nodes: rn,
            annotations: an,
        } && *ri == rec_id && !rs && *ident == id && *cu == compile_unit && *sc == scope && n == name
            && l == linkage_name && *f == file && ln == line && sl == scope_line && fl == subprogram_flags
            && *t == ty && rn.len() == retained_nodes.len()
            && (forall|i: int| 0 <= i < retained_nodes.len() ==> #[trigger] rn[i] == retained_nodes[i])
            && an.len() == annotations.len()
            && (forall|i: int| 0 <= i < annotations.len() ==> #[trigger] an[i] == annotations[i]),
{
}

/// Each argument of a composite type keeps its role: the size is the size and
/// the alignment the alignment, the elements come in the order given, and the
/// data location, rank, allocation and association are null.
pub proof fn lemma_composite_type_roles(
    rec_id: SpecAttribute,
    tag: u32,
    name: Seq<char>,
    file: SpecAttribute,
    line: u32,
    scope: SpecAttribute,
    base_type: SpecAttribute,
    flags: i64,
    size_in_bits: u64,
    align_in_bits: u64,
    elements: Seq<SpecAttribute>,
)
    ensures
        composite_type_model(
            rec_id,
            tag,
            name,
            file,
            line,
            scope,
            base_type,
            flags,
            size_in_bits,
            align_in_bits,
            elements,
        ) matches SpecAttribute::CompositeType {
            rec_id: ri,
            is_rec_self: rs,
            tag: t,
            name: n,
            file: f,
            line: ln,
            scope: sc,
            base_type: b,
            flags: fl,
            size_in_bits: sz,
            align_in_bits: al,
            elements: es,
            data_location: dl,
            rank: rk,
            allocated: ac,
            associated: asc,
        } && *ri == rec_id && !rs && t == tag && n == name && *f == file && ln == line && *sc == scope
            && *b == base_type && fl == flags && sz == size_in_bits && al == align_in_bits
            && es.len() == elements.len()
            && (forall|i: int| 0 <= i < elements.len() ==> #[trigger] es[i] == elements[i])
            && *dl == SpecAttribute::Null && *rk == SpecAttribute::Null && *ac == SpecAttribute::Null
            && *asc == SpecAttribute::Null,
{
}

/// Each argument of a derived type keeps its role: the base type is the base
/// type, and the sizes, offset, address space and extra data are those given.
pub proof fn lemma_derived_type_roles(
    tag: u32,
    name: Seq<char>,
    base_type: SpecAttribute,
    size_in_bits: u64,
    align_in_bits: u32,
    offset_in_bits: u64,
    dwarf_address_space: i64,
    extra_data: SpecAttribute,
)
    ensures
        derived_type_model(
            tag,
            name,
            base_type,
            size_in_bits,
            align_in_bits,
            offset_in_bits,
            dwarf_address_space,
            extra_data,
        ) matches SpecAttribute::DerivedType {
            tag: t,
            name: n,
            base_type: b,
            size_in_bits: sz,
            align_in_bits: al,
            offset_in_bits: o,
            dwarf_address_space: d,
            extra_data: x,
        } && t == tag && n == name && *b == base_type && sz == size_in_bits && al == align_in_bits
            && o == offset_in_bits && d == dwarf_address_space && *x == extra_data,
{
}

/// The subprogram accessors read the field they are named after.
pub proof fn lemma_subprogram_accessors_read_their_field(a: SpecAttribute)
    ensures
        a matches SpecAttribute::Subprogram {
            scope: sc,
            line: ln,
            scope_line: sl,
            compile_unit: cu,
            file: f,
            subprogram_type: t,
            ..
        } ==> subprogram_scope(a) == *sc && subprogram_line(a) == ln && subprogram_scope_line(a) == sl
            && subprogram_compile_unit(a) == *cu && subprogram_file(a) == *f && subprogram_type(a) == *t,
{
}

} // verus!
