//! LLVM debug information attributes.
//!
//! Constructors for MLIR's LLVM dialect debug info (DI) attributes. These map
//! to DWARF metadata and enable source-level debugging of compiled programs.
//! Each constructor returns the [`Attribute`] value that describes the call
//! made to MLIR's C API: the same arguments, with absent optional attributes
//! passed as the null attribute and the fixed defaults that the constructor
//! chooses.
use vstd::prelude::*;

use crate::attribute::{copy_all, lemma_models, models, or_null, or_null_model, Attribute, SpecAttribute};
use crate::flags::DISubprogramFlags;
use crate::kinds::{DIEmissionKind, DINameTableKind, DITypeEncoding};

verus! {

/// A derived type built from these arguments.
pub open spec fn derived_type_model(
    tag: u32,
    name: Seq<char>,
    base_type: SpecAttribute,
    size_in_bits: u64,
    align_in_bits: u32,
    offset_in_bits: u64,
    dwarf_address_space: i64,
    extra_data: SpecAttribute,
) -> SpecAttribute {
    SpecAttribute::DerivedType {
        tag,
        name,
        base_type: Box::new(base_type),
        size_in_bits,
        align_in_bits,
        offset_in_bits,
        dwarf_address_space,
        extra_data: Box::new(extra_data),
    }
}

/// A composite type built from these arguments: not a self-reference, with
/// no data location, rank, allocation or association.
pub open spec fn composite_type_model(
    rec_id: SpecAttribute,
    tag: u32,
    name: Seq<char>,
    file: SpecAttribute,
    line: u32,
    scope: SpecAttribute,
    base_type: SpecAttribute,
    flags: i64,
    size_in_bits: u64,
    align_in_bits: u64,
    elements: Seq<SpecAttribute>,
) -> SpecAttribute {
    SpecAttribute::CompositeType {
        rec_id: Box::new(rec_id),
        is_rec_self: false,
        tag,
        name,
        file: Box::new(file),
        line,
        scope: Box::new(scope),
        base_type: Box::new(base_type),
        flags,
        size_in_bits,
        align_in_bits,
        elements,
        data_location: Box::new(SpecAttribute::Null),
        rank: Box::new(SpecAttribute::Null),
        allocated: Box::new(SpecAttribute::Null),
        associated: Box::new(SpecAttribute::Null),
    }
}

/// A subprogram built from these arguments, not a self-reference.
pub open spec fn subprogram_model(
    rec_id: SpecAttribute,
    id: SpecAttribute,
    compile_unit: SpecAttribute,
    scope: SpecAttribute,
    name: Seq<char>,
    linkage_name: Seq<char>,
    file: SpecAttribute,
    line: u32,
    scope_line: u32,
    subprogram_flags: u64,
    subprogram_type: SpecAttribute,
    retained_nodes: Seq<SpecAttribute>,
    annotations: Seq<SpecAttribute>,
) -> SpecAttribute {
    SpecAttribute::Subprogram {
        rec_id: Box::new(rec_id),
        is_rec_self: false,
        id: Box::new(id),
        compile_unit: Box::new(compile_unit),
        scope: Box::new(scope),
        name,
        linkage_name,
        file: Box::new(file),
        line,
        scope_line,
        subprogram_flags,
        subprogram_type: Box::new(subprogram_type),
        retained_nodes,
        annotations,
    }
}

/// Whether `a` is a subprogram: a full one or a self-reference.
pub open spec fn is_subprogram(a: SpecAttribute) -> bool {
    a is Subprogram || a is SubprogramRecSelf
}

/// The scope of a subprogram; a self-reference has none.
pub open spec fn subprogram_scope(a: SpecAttribute) -> SpecAttribute {
    match a {
        SpecAttribute::Subprogram { scope, .. } => *scope,
        _ => SpecAttribute::Null,
    }
}

/// The line of a subprogram; that of a self-reference is 0.
pub open spec fn subprogram_line(a: SpecAttribute) -> u32 {
    match a {
        SpecAttribute::Subprogram { line, .. } => line,
        _ => 0,
    }
}

/// The scope line of a subprogram; that of a self-reference is 0.
pub open spec fn subprogram_scope_line(a: SpecAttribute) -> u32 {
    match a {
        SpecAttribute::Subprogram { scope_line, .. } => scope_line,
        _ => 0,
    }
}

/// The compile unit of a subprogram; a self-reference has none.
pub open spec fn subprogram_compile_unit(a: SpecAttribute) -> SpecAttribute {
    match a {
        SpecAttribute::Subprogram { compile_unit, .. } => *compile_unit,
        _ => SpecAttribute::Null,
    }
}

/// The file of a subprogram; a self-reference has none.
pub open spec fn subprogram_file(a: SpecAttribute) -> SpecAttribute {
    match a {
        SpecAttribute::Subprogram { file, .. } => *file,
        _ => SpecAttribute::Null,
    }
}

/// The subroutine type of a subprogram; a self-reference has none.
pub open spec fn subprogram_type(a: SpecAttribute) -> SpecAttribute {
    match a {
        SpecAttribute::Subprogram { subprogram_type, .. } => *subprogram_type,
        _ => SpecAttribute::Null,
    }
}

/// Creates a null DI type attribute.
///
/// Used as a placeholder where a type is optional or not yet known.
pub fn di_null_type() -> (r: Attribute)
    ensures
        r@ == SpecAttribute::NullType,
        (r is NullType),
{
    Attribute::NullType
}

/// Creates a DI file attribute.
///
/// Represents a source file in the debug info, with a filename and directory.
pub fn di_file(name: &str, directory: &str) -> (r: Attribute)
    ensures
        r@ == (SpecAttribute::File { name: name@, directory: directory@ }),
        (r matches Attribute::File { name: n, directory: d } && n@ == name@ && d@ == directory@),
{
    Attribute::File { name: name.to_owned(), directory: directory.to_owned() }
}

/// Creates a DI compile unit attribute.
///
/// A compile unit is the top-level scope for debug info in a translation unit.
/// The `id` should be a distinct attribute.
pub fn di_compile_unit(
    id: &Attribute,
    source_language: u32,
    file: &Attribute,
    producer: &str,
    is_optimized: bool,
    emission_kind: DIEmissionKind,
    name_table_kind: DINameTableKind,
) -> (r: Attribute)
    ensures
        r@ == (SpecAttribute::CompileUnit {
            id: Box::new(id@),
            source_language,
            file: Box::new(file@),
            producer: producer@,
            is_optimized,
            emission_kind: emission_kind.spec_value(),
            name_table_kind: name_table_kind.spec_value(),
        }),
        (r matches Attribute::CompileUnit {
            id: ident,
            source_language: sl,
            file: f,
            producer: p,
            is_optimized: o,
            emission_kind: ek,
            name_table_kind: nk,
        } && ident@ == id@ && sl == source_language && f@ == file@ && p@ == producer@ && o == is_optimized
            && ek == emission_kind.spec_value() && nk == name_table_kind.spec_value()),
{
    Attribute::CompileUnit {
        id: Box::new(id.duplicate()),
        source_language,
        file: Box::new(file.duplicate()),
        producer: producer.to_owned(),
        is_optimized,
        emission_kind: emission_kind.value(),
        name_table_kind: name_table_kind.value(),
    }
}

/// Creates a DI basic type attribute.
///
/// Describes a primitive type (integer, float, boolean, etc.) with its DWARF
/// tag, name, bit size, and encoding.
pub fn di_basic_type(tag: u32, name: &str, size_in_bits: u64, encoding: DITypeEncoding) -> (r: Attribute)
    ensures
        r@ == (SpecAttribute::BasicType {
            tag,
            name: name@,
            size_in_bits,
            encoding: encoding.spec_value(),
        }),
        (r matches Attribute::BasicType { tag: t, name: n, size_in_bits: s, encoding: e } && t == tag
            && n@ == name@ && s == size_in_bits && e == encoding.spec_value()),
{
    Attribute::BasicType { tag, name: name.to_owned(), size_in_bits, encoding: encoding.value() }
}

/// Creates a DI flags attribute.
///
/// Encodes DWARF access and other flags as a bitmask. Common flag values
/// include 0 for no flags, or combinations of DWARF DIFlag constants.
pub fn di_flags(value: u64) -> (r: Attribute)
    ensures
        r@ == (SpecAttribute::Flags { value }),
        (r matches Attribute::Flags { value: v } && v == value),
{
    Attribute::Flags { value }
}

/// Creates a DI derived type attribute.
///
/// Represents a type derived from another (pointer, typedef, const qualifier,
/// etc.), with no DWARF address space (0) and no extra data.
pub fn di_derived_type(
    tag: u32,
    name: &str,
    base_type: &Attribute,
    size_in_bits: u64,
    align_in_bits: u32,
    offset_in_bits: u64,
) -> (r: Attribute)
    ensures
        r@ == derived_type_model(
            tag,
            name@,
            base_type@,
            size_in_bits,
            align_in_bits,
            offset_in_bits,
            0,
            SpecAttribute::Null,
        ),
        (r matches Attribute::DerivedType {
            tag: t,
            name: n,
            base_type: b,
            size_in_bits: s,
            align_in_bits: a,
            offset_in_bits: o,
            dwarf_address_space: d,
            extra_data: x,
        } && t == tag && n@ == name@ && b@ == base_type@ && s == size_in_bits && a == align_in_bits
            && o == offset_in_bits && d == 0 && x@ == SpecAttribute::Null),
{
    di_derived_type_full(tag, name, base_type, size_in_bits, align_in_bits, offset_in_bits, 0, None)
}

/// Creates a DI derived type attribute with full control over all parameters.
pub fn di_derived_type_full(
    tag: u32,
    name: &str,
    base_type: &Attribute,
    size_in_bits: u64,
    align_in_bits: u32,
    offset_in_bits: u64,
    dwarf_address_space: i64,
    extra_data: Option<&Attribute>,
) -> (r: Attribute)
    ensures
        r@ == derived_type_model(
            tag,
            name@,
            base_type@,
            size_in_bits,
            align_in_bits,
            offset_in_bits,
            dwarf_address_space,
            or_null_model(extra_data),
        ),
        (r matches Attribute::DerivedType {
            tag: t,
            name: n,
            base_type: b,
            size_in_bits: s,
            align_in_bits: a,
            offset_in_bits: o,
            dwarf_address_space: d,
            extra_data: x,
        } && t == tag && n@ == name@ && b@ == base_type@ && s == size_in_bits && a == align_in_bits
            && o == offset_in_bits && d == dwarf_address_space && x@ == or_null_model(extra_data)),
{
    Attribute::DerivedType {
        tag,
        name: name.to_owned(),
        base_type: Box::new(base_type.duplicate()),
        size_in_bits,
        align_in_bits,
        offset_in_bits,
        dwarf_address_space,
        extra_data: Box::new(or_null(extra_data)),
    }
}

/// Creates a self-referencing DI composite type for recursive type definitions.
///
/// Use this to break cycles in type graphs (e.g., a struct with a pointer to
/// itself). Pass the same `rec_id` to `di_composite_type_recursive`.
pub fn di_composite_type_rec_self(rec_id: &Attribute) -> (r: Attribute)
    ensures
        r@ == (SpecAttribute::CompositeTypeRecSelf { rec_id: Box::new(rec_id@) }),
        (r matches Attribute::CompositeTypeRecSelf { rec_id: ri } && ri@ == rec_id@),
{
    Attribute::CompositeTypeRecSelf { rec_id: Box::new(rec_id.duplicate()) }
}

/// Creates a DI composite type attribute.
///
/// Describes a compound type such as a struct, class, enum, or array. It has
/// no recursive identifier (the null attribute stands in its place).
pub fn di_composite_type(
    tag: u32,
    name: &str,
    file: Option<&Attribute>,
    line: u32,
    scope: Option<&Attribute>,
    base_type: Option<&Attribute>,
    flags: i64,
    size_in_bits: u64,
    align_in_bits: u64,
    elements: &[Attribute],
) -> (r: Attribute)
    ensures
        r@ == composite_type_model(
            SpecAttribute::Null,
            tag,
            name@,
            or_null_model(file),
            line,
            or_null_model(scope),
            or_null_model(base_type),
            flags,
            size_in_bits,
            align_in_bits,
            models(elements@),
        ),
        (r matches Attribute::CompositeType {
            rec_id: ri,
            is_rec_self: rs,
            tag: t,
            name: n,
            file: f,
            line: ln,
            scope: sc,
            base_type: b,
            flags: fl,
            size_in_bits: sz,
            align_in_bits: al,
            elements: es,
            data_location: dl,
            rank: rk,
            allocated: ac,
            associated: asc,
        } && ri@ == SpecAttribute::Null && !rs && t == tag && n@ == name@ && f@ == or_null_model(file) && ln == line
            && sc@ == or_null_model(scope) && b@ == or_null_model(base_type) && fl == flags
            && sz == size_in_bits && al == align_in_bits && es@.len() == elements@.len()
            && (forall|i: int| 0 <= i < elements@.len() ==> (#[trigger] es@[i])@ == elements@[i]@)
            && dl@ == SpecAttribute::Null && rk@ == SpecAttribute::Null && ac@ == SpecAttribute::Null
            && asc@ == SpecAttribute::Null),
{
    di_composite_type_recursive(
        &Attribute::Null,
        tag,
        name,
        file,
        line,
        scope,
        base_type,
        flags,
        size_in_bits,
        align_in_bits,
        elements,
    )
}

/// Creates a DI composite type attribute with a recursive self-reference.
///
/// For types that reference themselves (e.g., linked list nodes), pass a
/// distinct `rec_id`, the one that `di_composite_type_rec_self` was given.
pub fn di_composite_type_recursive(
    rec_id: &Attribute,
    tag: u32,
    name: &str,
    file: Option<&Attribute>,
    line: u32,
    scope: Option<&Attribute>,
    base_type: Option<&Attribute>,
    flags: i64,
    size_in_bits: u64,
    align_in_bits: u64,
    elements: &[Attribute],
) -> (r: Attribute)
    ensures
        r@ == composite_type_model(
            rec_id@,
            tag,
            name@,
            or_null_model(file),
            line,
            or_null_model(scope),
            or_null_model(base_type),
            flags,
            size_in_bits,
            align_in_bits,
            models(elements@),
        ),
        (r matches Attribute::CompositeType {
            rec_id: ri,
            is_rec_self: rs,
            tag: t,
            name: n,
            file: f,
            line: ln,
            scope: sc,
            base_type: b,
            flags: fl,
            size_in_bits: sz,
            align_in_bits: al,
            elements: es,
            data_location: dl,
            rank: rk,
            allocated: ac,
            associated: asc,
        } && ri@ == rec_id@ && !rs && t == tag && n@ == name@ && f@ == or_null_model(file) && ln == line
            && sc@ == or_null_model(scope) && b@ == or_null_model(base_type) && fl == flags
            && sz == size_in_bits && al == align_in_bits && es@.len() == elements@.len()
            && (forall|i: int| 0 <= i < elements@.len() ==> (#[trigger] es@[i])@ == elements@[i]@)
            && dl@ == SpecAttribute::Null && rk@ == SpecAttribute::Null && ac@ == SpecAttribute::Null
            && asc@ == SpecAttribute::Null),
{
    let rec = rec_id.duplicate();
    let file_attr = or_null(file);
    let scope_attr = or_null(scope);
    let base_attr = or_null(base_type);
    let copied = copy_all(elements);
    let r = Attribute::CompositeType {
        rec_id: Box::new(rec),
        is_rec_self: false,
        tag,
        name: name.to_owned(),
        file: Box::new(file_attr),
        line,
        scope: Box::new(scope_attr),
        base_type: Box::new(base_attr),
        flags,
        size_in_bits,
        align_in_bits,
        elements: copied,
        data_location: Box::new(Attribute::Null),
        rank: Box::new(Attribute::Null),
        allocated: Box::new(Attribute::Null),
        associated: Box::new(Attribute::Null),
    };
    assert(Attribute::Null@ == SpecAttribute::Null);
    r
}

/// Creates a DI subroutine type attribute.
///
/// Describes a function signature for debug info. The `types` array should have
/// the return type as the first element, followed by parameter types.
/// Use `di_null_type` for void return.
pub fn di_subroutine_type(calling_convention: u32, types: &[Attribute]) -> (r: Attribute)
    ensures
        r@ == (SpecAttribute::SubroutineType { calling_convention, types: models(types@) }),
        (r matches Attribute::SubroutineType { calling_convention: c, types: ts } && c == calling_convention
            && ts@.len() == types@.len()
            && (forall|i: int| 0 <= i < types@.len() ==> (#[trigger] ts@[i])@ == types@[i]@)),
{
    Attribute::SubroutineType { calling_convention, types: copy_all(types) }
}

/// Creates a self-referencing DI subprogram attribute for recursive references.
pub fn di_subprogram_rec_self(rec_id: &Attribute) -> (r: Attribute)
    ensures
        r@ == (SpecAttribute::SubprogramRecSelf { rec_id: Box::new(rec_id@) }),
        (r matches Attribute::SubprogramRecSelf { rec_id: ri } && ri@ == rec_id@),
{
    Attribute::SubprogramRecSelf { rec_id: Box::new(rec_id.duplicate()) }
}

/// Creates a DI subprogram attribute.
///
/// Describes a function or method for debug info, with no recursive
/// identifier, retained nodes or annotations. Attach it to an `llvm.func`
/// operation via the `llvm.di_subprogram` attribute.
pub fn di_subprogram(
    id: &Attribute,
    compile_unit: &Attribute,
    scope: &Attribute,
    name: &str,
    linkage_name: &str,
    file: &Attribute,
    line: u32,
    scope_line: u32,
    flags: DISubprogramFlags,
    subprogram_type: &Attribute,
) -> (r: Attribute)
    ensures
        r@ == subprogram_model(
            SpecAttribute::Null,
            id@,
            compile_unit@,
            scope@,
            name@,
            linkage_name@,
            file@,
            line,
            scope_line,
            flags.0,
            subprogram_type@,
            Seq::empty(),
            Seq::empty(),
        ),
        (r matches Attribute::Subprogram {
            rec_id: ri,
            is_rec_self: rs,
            id: ident,
            compile_unit: cu,
            scope: sc,
            name: n,
            linkage_name: ln_name,
            file: f,
            line: ln,
            scope_line: sl,
            subprogram_flags: fl,
            subprogram_type: ty,
            retained_nodes: rn,
            annotations: an,
        } && ri@ == SpecAttribute::Null && !rs && ident@ == id@ && cu@ == compile_unit@ && sc@ == scope@ && n@ == name@
            && ln_name@ == linkage_name@ && f@ == file@ && ln == line && sl == scope_line && fl == flags.0
            && ty@ == subprogram_type@ && rn@.len() == 0 && an@.len() == 0),
{
    let no_nodes: Vec<Attribute> = Vec::new();
    let r = di_subprogram_full(
        None,
        id,
        compile_unit,
        scope,
        name,
        linkage_name,
        file,
        line,
        scope_line,
        flags,
        subprogram_type,
        no_nodes.as_slice(),
        no_nodes.as_slice(),
    );
    proof {
        broadcast use lemma_models;
        assert(models(no_nodes@) =~= Seq::<SpecAttribute>::empty());
    }
    r
}

/// Creates a DI subprogram attribute with retained nodes and annotations.
pub fn di_subprogram_full(
    rec_id: Option<&Attribute>,
    id: &Attribute,
    compile_unit: &Attribute,
    scope: &Attribute,
    name: &str,
    linkage_name: &str,
    file: &Attribute,
    line: u32,
    scope_line: u32,
    flags: DISubprogramFlags,
    subprogram_type: &Attribute,
    retained_nodes: &[Attribute],
    annotations: &[Attribute],
) -> (r: Attribute)
    ensures
        r@ == subprogram_model(
            or_null_model(rec_id),
            id@,
            compile_unit@,
            scope@,
            name@,
            linkage_name@,
            file@,
            line,
            scope_line,
            flags.0,
            subprogram_type@,
            models(retained_nodes@),
            models(annotations@),
        ),
        (r matches Attribute::Subprogram {
            rec_id: ri,
            is_rec_self: rs,
            id: ident,
            compile_unit: cu,
            scope: sc,
            name: n,
            linkage_name: ln_name,
            file: f,
            line: ln,
            scope_line: sl,
            subprogram_flags: fl,
            subprogram_type: ty,
            retained_nodes: rn,
            annotations: an,
        } && ri@ == or_null_model(rec_id) && !rs && ident@ == id@ && cu@ == compile_unit@ && sc@ == scope@ && n@ == name@
            && ln_name@ == linkage_name@ && f@ == file@ && ln == line && sl == scope_line && fl == flags.0
            && ty@ == subprogram_type@ && rn@.len() == retained_nodes@.len()
            && (forall|i: int| 0 <= i < retained_nodes@.len() ==> (#[trigger] rn@[i])@ == retained_nodes@[i]@)
            && an@.len() == annotations@.len()
            && (forall|i: int| 0 <= i < annotations@.len() ==> (#[trigger] an@[i])@ == annotations@[i]@)),
{
    Attribute::Subprogram {
        rec_id: Box::new(or_null(rec_id)),
        is_rec_self: false,
        id: Box::new(id.duplicate()),
        compile_unit: Box::new(compile_unit.duplicate()),
        scope: Box::new(scope.duplicate()),
        name: name.to_owned(),
        linkage_name: linkage_name.to_owned(),
        file: Box::new(file.duplicate()),
        line,
        scope_line,
        subprogram_flags: flags.0,
        subprogram_type: Box::new(subprogram_type.duplicate()),
        retained_nodes: copy_all(retained_nodes),
        annotations: copy_all(annotations),
    }
}

/// Gets the scope from a DI subprogram attribute.
///
/// A self-referencing subprogram carries only its identifier: its scope is null.
pub fn di_subprogram_scope(subprogram: &Attribute) -> (r: Attribute)
    requires
        is_subprogram(subprogram@),
    ensures
        r@ == subprogram_scope(subprogram@),
        subprogram matches Attribute::Subprogram { scope: x, .. } ==> r@ == x@,
        subprogram is SubprogramRecSelf ==> r@ == SpecAttribute::Null,
{
    match subprogram {
        Attribute::Subprogram { scope, .. } => scope.duplicate(),
        _ => Attribute::Null,
    }
}

/// Gets the line number from a DI subprogram attribute (0 for a self-reference).
pub fn di_subprogram_line(subprogram: &Attribute) -> (r: u32)
    requires
        is_subprogram(subprogram@),
    ensures
        r == subprogram_line(subprogram@),
        subprogram matches Attribute::Subprogram { line: x, .. } ==> r == x,
        subprogram is SubprogramRecSelf ==> r == 0,
{
    match subprogram {
        Attribute::Subprogram { line, .. } => *line,
        _ => 0,
    }
}

/// Gets the scope line from a DI subprogram attribute (0 for a self-reference).
pub fn di_subprogram_scope_line(subprogram: &Attribute) -> (r: u32)
    requires
        is_subprogram(subprogram@),
    ensures
        r == subprogram_scope_line(subprogram@),
        subprogram matches Attribute::Subprogram { scope_line: x, .. } ==> r == x,
        subprogram is SubprogramRecSelf ==> r == 0,
{
    match subprogram {
        Attribute::Subprogram { scope_line, .. } => *scope_line,
        _ => 0,
    }
}

/// Gets the compile unit from a DI subprogram attribute (null for a self-reference).
pub fn di_subprogram_compile_unit(subprogram: &Attribute) -> (r: Attribute)
    requires
        is_subprogram(subprogram@),
    ensures
        r@ == subprogram_compile_unit(subprogram@),
        subprogram matches Attribute::Subprogram { compile_unit: x, .. } ==> r@ == x@,
        subprogram is SubprogramRecSelf ==> r@ == SpecAttribute::Null,
{
    match subprogram {
        Attribute::Subprogram { compile_unit, .. } => compile_unit.duplicate(),
        _ => Attribute::Null,
    }
}

/// Gets the file from a DI subprogram attribute (null for a self-reference).
pub fn di_subprogram_file(subprogram: &Attribute) -> (r: Attribute)
    requires
        is_subprogram(subprogram@),
    ensures
        r@ == subprogram_file(subprogram@),
        subprogram matches Attribute::Subprogram { file: x, .. } ==> r@ == x@,
        subprogram is SubprogramRecSelf ==> r@ == SpecAttribute::Null,
{
    match subprogram {
        Attribute::Subprogram { file, .. } => file.duplicate(),
        _ => Attribute::Null,
    }
}

/// Gets the subroutine type from a DI subprogram attribute (null for a self-reference).
pub fn di_subprogram_type(subprogram: &Attribute) -> (r: Attribute)
    requires
        is_subprogram(subprogram@),
    ensures
        r@ == subprogram_type(subprogram@),
        subprogram matches Attribute::Subprogram { subprogram_type: x, .. } ==> r@ == x@,
        subprogram is SubprogramRecSelf ==> r@ == SpecAttribute::Null,
{
    match subprogram {
        Attribute::Subprogram { subprogram_type, .. } => subprogram_type.duplicate(),
        _ => Attribute::Null,
    }
}

/// Creates a DI local variable attribute.
///
/// Describes a local variable (parameter or automatic) in a function. Use with
/// `llvm.intr.dbg.declare` or `llvm.intr.dbg.value` operations to associate a
/// variable with a storage location.
///
/// Set `arg` to 0 for local variables, or the 1-based parameter index for
/// function arguments.
pub fn di_local_variable(
    scope: &Attribute,
    name: &str,
    file: &Attribute,
    line: u32,
    arg: u32,
    align_in_bits: u32,
    di_type: &Attribute,
    flags: i64,
) -> (r: Attribute)
    ensures
        r@ == (SpecAttribute::LocalVariable {
            scope: Box::new(scope@),
            name: name@,
            file: Box::new(file@),
            line,
            arg,
            align_in_bits,
            di_type: Box::new(di_type@),
            flags,
        }),
        (r matches Attribute::LocalVariable {
            scope: sc,
            name: n,
            file: f,
            line: ln,
            arg: ag,
            align_in_bits: al,
            di_type: ty,
            flags: fl,
        } && sc@ == scope@ && n@ == name@ && f@ == file@ && ln == line && ag == arg && al == align_in_bits
            && ty@ == di_type@ && fl == flags),
{
    Attribute::LocalVariable {
        scope: Box::new(scope.duplicate()),
        name: name.to_owned(),
        file: Box::new(file.duplicate()),
        line,
        arg,
        align_in_bits,
        di_type: Box::new(di_type.duplicate()),
        flags,
    }
}

/// Creates a DI lexical block attribute.
///
/// Represents a lexical scope within a function (e.g., a block statement,
/// loop body, or branch arm).
pub fn di_lexical_block(scope: &Attribute, file: &Attribute, line: u32, column: u32) -> (r: Attribute)
    ensures
        r@ == (SpecAttribute::LexicalBlock {
            scope: Box::new(scope@),
            file: Box::new(file@),
            line,
            column,
        }),
        (r matches Attribute::LexicalBlock { scope: sc, file: f, line: ln, column: c } && sc@ == scope@
            && f@ == file@ && ln == line && c == column),
{
    Attribute::LexicalBlock {
        scope: Box::new(scope.duplicate()),
        file: Box::new(file.duplicate()),
        line,
        column,
    }
}

/// Creates a DI lexical block file attribute.
///
/// A lexical scope discriminated by a file. Useful when inlining produces
/// locations from different files within the same scope.
pub fn di_lexical_block_file(scope: &Attribute, file: &Attribute, discriminator: u32) -> (r: Attribute)
    ensures
        r@ == (SpecAttribute::LexicalBlockFile {
            scope: Box::new(scope@),
            file: Box::new(file@),
            discriminator,
        }),
        (r matches Attribute::LexicalBlockFile { scope: sc, file: f, discriminator: d } && sc@ == scope@
            && f@ == file@ && d == discriminator),
{
    Attribute::LexicalBlockFile {
        scope: Box::new(scope.duplicate()),
        file: Box::new(file.duplicate()),
        discriminator,
    }
}

/// Creates a DI expression element attribute.
///
/// An element of a DWARF expression (opcode + arguments). Combine multiple
/// elements into a DI expression with `di_expression`.
pub fn di_expression_elem(opcode: u32, arguments: &[u64]) -> (r: Attribute)
    ensures
        r@ == (SpecAttribute::ExpressionElem { opcode, arguments: arguments@ }),
        (r matches Attribute::ExpressionElem { opcode: o, arguments: a } && o == opcode && a@ == arguments@),
{
    Attribute::ExpressionElem { opcode, arguments: vstd::slice::slice_to_vec(arguments) }
}

/// Creates a DI expression attribute.
///
/// A DWARF expression describes how to compute a variable's location from
/// registers, memory, or other values. An empty expression means "the value
/// is directly in the location."
pub fn di_expression(operations: &[Attribute]) -> (r: Attribute)
    ensures
        r@ == (SpecAttribute::Expression { operations: models(operations@) }),
        (r matches Attribute::Expression { operations: ops } && ops@.len() == operations@.len()
            && (forall|i: int| 0 <= i < operations@.len() ==> (#[trigger] ops@[i])@ == operations@[i]@)),
{
    Attribute::Expression { operations: copy_all(operations) }
}

/// Creates a DI module attribute.
pub fn di_module(
    file: Option<&Attribute>,
    scope: Option<&Attribute>,
    name: &str,
    config_macros: &str,
    include_path: &str,
    apinotes: &str,
    line: u32,
    is_decl: bool,
) -> (r: Attribute)
    ensures
        r@ == (SpecAttribute::Module {
            file: Box::new(or_null_model(file)),
            scope: Box::new(or_null_model(scope)),
            name: name@,
            config_macros: config_macros@,
            include_path: include_path@,
            apinotes: apinotes@,
            line,
            is_decl,
        }),
        (r matches Attribute::Module {
            file: f,
            scope: sc,
            name: n,
            config_macros: cm,
            include_path: ip,
            apinotes: an,
            line: ln,
            is_decl: d,
        } && f@ == or_null_model(file) && sc@ == or_null_model(scope) && n@ == name@ && cm@ == config_macros@
            && ip@ == include_path@ && an@ == apinotes@ && ln == line && d == is_decl),
{
    Attribute::Module {
        file: Box::new(or_null(file)),
        scope: Box::new(or_null(scope)),
        name: name.to_owned(),
        config_macros: config_macros.to_owned(),
        include_path: include_path.to_owned(),
        apinotes: apinotes.to_owned(),
        line,
        is_decl,
    }
}

/// Creates a DI imported entity attribute.
pub fn di_imported_entity(
    tag: u32,
    scope: &Attribute,
    entity: Option<&Attribute>,
    file: Option<&Attribute>,
    line: u32,
    name: &str,
    elements: &[Attribute],
) -> (r: Attribute)
    ensures
        r@ == (SpecAttribute::ImportedEntity {
            tag,
            scope: Box::new(scope@),
            entity: Box::new(or_null_model(entity)),
            file: Box::new(or_null_model(file)),
            line,
            name: name@,
            elements: models(elements@),
        }),
        (r matches Attribute::ImportedEntity {
            tag: t,
            scope: sc,
            entity: en,
            file: f,
            line: ln,
            name: n,
            elements: es,
        } && t == tag && sc@ == scope@ && en@ == or_null_model(entity) && f@ == or_null_model(file)
            && ln == line && n@ == name@ && es@.len() == elements@.len()
            && (forall|i: int| 0 <= i < elements@.len() ==> (#[trigger] es@[i])@ == elements@[i]@)),
{
    Attribute::ImportedEntity {
        tag,
        scope: Box::new(scope.duplicate()),
        entity: Box::new(or_null(entity)),
        file: Box::new(or_null(file)),
        line,
        name: name.to_owned(),
        elements: copy_all(elements),
    }
}

/// Creates a DI annotation attribute.
pub fn di_annotation(name: &str, value: &str) -> (r: Attribute)
    ensures
        r@ == (SpecAttribute::Annotation { name: name@, value: value@ }),
        (r matches Attribute::Annotation { name: n, value: v } && n@ == name@ && v@ == value@),
{
    Attribute::Annotation { name: name.to_owned(), value: value.to_owned() }
}

} // verus!
