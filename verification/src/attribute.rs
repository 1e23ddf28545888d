//! The value that describes one debug-information attribute.
//!
//! Each variant holds exactly the arguments that MLIR's C API for the LLVM
//! dialect receives when the attribute is built: nested attributes, strings
//! (which MLIR turns into string attributes), integer codes and lists. An
//! optional attribute that is absent is handed over as the null attribute.
use vstd::prelude::*;

verus! {

/// A debug-information attribute, described by the arguments it is built from.
#[derive(Debug, PartialEq)]
pub enum Attribute {
    /// The null attribute: what an absent optional argument is passed as.
    Null,
    /// An attribute built outside this module (a distinct identifier, a type, ...),
    /// known by a handle that its owner assigns.
    Foreign(u64),
    /// `#llvm.di_null_type`.
    NullType,
    File { name: String, directory: String },
    CompileUnit {
        id: Box<Attribute>,
        source_language: u32,
        file: Box<Attribute>,
        producer: String,
        is_optimized: bool,
        emission_kind: u32,
        name_table_kind: u32,
    },
    BasicType { tag: u32, name: String, size_in_bits: u64, encoding: u32 },
    Flags { value: u64 },
    DerivedType {
        tag: u32,
        name: String,
        base_type: Box<Attribute>,
        size_in_bits: u64,
        align_in_bits: u32,
        offset_in_bits: u64,
        dwarf_address_space: i64,
        extra_data: Box<Attribute>,
    },
    /// The self-reference of a recursive composite type.
    CompositeTypeRecSelf { rec_id: Box<Attribute> },
    CompositeType {
        rec_id: Box<Attribute>,
        is_rec_self: bool,
        tag: u32,
        name: String,
        file: Box<Attribute>,
        line: u32,
        scope: Box<Attribute>,
        base_type: Box<Attribute>,
        flags: i64,
        size_in_bits: u64,
        align_in_bits: u64,
        elements: Vec<Attribute>,
        data_location: Box<Attribute>,
        rank: Box<Attribute>,
        allocated: Box<Attribute>,
        associated: Box<Attribute>,
    },
    SubroutineType { calling_convention: u32, types: Vec<Attribute> },
    /// The self-reference of a recursive subprogram.
    SubprogramRecSelf { rec_id: Box<Attribute> },
    Subprogram {
        rec_id: Box<Attribute>,
        is_rec_self: bool,
        id: Box<Attribute>,
        compile_unit: Box<Attribute>,
        scope: Box<Attribute>,
        name: String,
        linkage_name: String,
        file: Box<Attribute>,
        line: u32,
        scope_line: u32,
        subprogram_flags: u64,
        subprogram_type: Box<Attribute>,
        retained_nodes: Vec<Attribute>,
        annotations: Vec<Attribute>,
    },
    LocalVariable {
        scope: Box<Attribute>,
        name: String,
        file: Box<Attribute>,
        line: u32,
        arg: u32,
        align_in_bits: u32,
        di_type: Box<Attribute>,
        flags: i64,
    },
    LexicalBlock { scope: Box<Attribute>, file: Box<Attribute>, line: u32, column: u32 },
    LexicalBlockFile { scope: Box<Attribute>, file: Box<Attribute>, discriminator: u32 },
    ExpressionElem { opcode: u32, arguments: Vec<u64> },
    Expression { operations: Vec<Attribute> },
    Module {
        file: Box<Attribute>,
        scope: Box<Attribute>,
        name: String,
        config_macros: String,
        include_path: String,
        apinotes: String,
        line: u32,
        is_decl: bool,
    },
    ImportedEntity {
        tag: u32,
        scope: Box<Attribute>,
        entity: Box<Attribute>,
        file: Box<Attribute>,
        line: u32,
        name: String,
        elements: Vec<Attribute>,
    },
    Annotation { name: String, value: String },
}

/// The mathematical value of an [`Attribute`]: strings as character
/// sequences, lists as sequences.
pub enum SpecAttribute {
    Null,
    Foreign(u64),
    NullType,
    File { name: Seq<char>, directory: Seq<char> },
    CompileUnit {
        id: Box<SpecAttribute>,
        source_language: u32,
        file: Box<SpecAttribute>,
        producer: Seq<char>,
        is_optimized: bool,
        emission_kind: u32,
        name_table_kind: u32,
    },
    BasicType { tag: u32, name: Seq<char>, size_in_bits: u64, encoding: u32 },
    Flags { value: u64 },
    DerivedType {
        tag: u32,
        name: Seq<char>,
        base_type: Box<SpecAttribute>,
        size_in_bits: u64,
        align_in_bits: u32,
        offset_in_bits: u64,
        dwarf_address_space: i64,
        extra_data: Box<SpecAttribute>,
    },
    CompositeTypeRecSelf { rec_id: Box<SpecAttribute> },
    CompositeType {
        rec_id: Box<SpecAttribute>,
        is_rec_self: bool,
        tag: u32,
        name: Seq<char>,
        file: Box<SpecAttribute>,
        line: u32,
        scope: Box<SpecAttribute>,
        base_type: Box<SpecAttribute>,
        flags: i64,
        size_in_bits: u64,
        align_in_bits: u64,
        elements: Seq<SpecAttribute>,
        data_location: Box<SpecAttribute>,
        rank: Box<SpecAttribute>,
        allocated: Box<SpecAttribute>,
        associated: Box<SpecAttribute>,
    },
    SubroutineType { calling_convention: u32, types: Seq<SpecAttribute> },
    SubprogramRecSelf { rec_id: Box<SpecAttribute> },
    Subprogram {
        rec_id: Box<SpecAttribute>,
        is_rec_self: bool,
        id: Box<SpecAttribute>,
        compile_unit: Box<SpecAttribute>,
        scope: Box<SpecAttribute>,
        name: Seq<char>,
        linkage_name: Seq<char>,
        file: Box<SpecAttribute>,
        line: u32,
        scope_line: u32,
        subprogram_flags: u64,
        subprogram_type: Box<SpecAttribute>,
        retained_nodes: Seq<SpecAttribute>,
        annotations: Seq<SpecAttribute>,
    },
    LocalVariable {
        scope: Box<SpecAttribute>,
        name: Seq<char>,
        file: Box<SpecAttribute>,
        line: u32,
        arg: u32,
        align_in_bits: u32,
        di_type: Box<SpecAttribute>,
        flags: i64,
    },
    LexicalBlock { scope: Box<SpecAttribute>, file: Box<SpecAttribute>, line: u32, column: u32 },
    LexicalBlockFile { scope: Box<SpecAttribute>, file: Box<SpecAttribute>, discriminator: u32 },
    ExpressionElem { opcode: u32, arguments: Seq<u64> },
    Expression { operations: Seq<SpecAttribute> },
    Module {
        file: Box<SpecAttribute>,
        scope: Box<SpecAttribute>,
        name: Seq<char>,
        config_macros: Seq<char>,
        include_path: Seq<char>,
        apinotes: Seq<char>,
        line: u32,
        is_decl: bool,
    },
    ImportedEntity {
        tag: u32,
        scope: Box<SpecAttribute>,
        entity: Box<SpecAttribute>,
        file: Box<SpecAttribute>,
        line: u32,
        name: Seq<char>,
        elements: Seq<SpecAttribute>,
    },
    Annotation { name: Seq<char>, value: Seq<char> },
}

/// The values of a list of attributes, in order. It and `Attribute::model`
/// call each other, so it needs its own termination measure.
pub open spec fn models(s: Seq<Attribute>) -> Seq<SpecAttribute>
    decreases s,
{
    Seq::new(s.len(), |i: int| if 0 <= i < s.len() { s[i].model() } else { SpecAttribute::Null })
}

/// `models` keeps the length and takes the value of each item.
pub broadcast proof fn lemma_models(s: Seq<Attribute>)
    ensures
        #[trigger] models(s).len() == s.len(),
        forall|i: int| 0 <= i < s.len() ==> #[trigger] models(s)[i] == s[i]@,
{
}

/// The value of an optional attribute: the null attribute where it is absent.
pub open spec fn or_null_model(a: Option<&Attribute>) -> SpecAttribute {
    match a {
        Some(x) => x@,
        None => SpecAttribute::Null,
    }
}

impl Attribute {
    /// The value of this attribute.
    pub open spec fn model(&self) -> SpecAttribute
        decreases self,
    {
        match self {
            Attribute::Null => SpecAttribute::Null,
            Attribute::Foreign(h) => SpecAttribute::Foreign(*h),
            Attribute::NullType => SpecAttribute::NullType,
            Attribute::File { name, directory } => SpecAttribute::File {
                name: name@,
                directory: directory@,
            },
            Attribute::CompileUnit {
                id,
                source_language,
                file,
                producer,
                is_optimized,
                emission_kind,
                name_table_kind,
            } => SpecAttribute::CompileUnit {
                id: Box::new(id.model()),
                source_language: *source_language,
                file: Box::new(file.model()),
                producer: producer@,
                is_optimized: *is_optimized,
                emission_kind: *emission_kind,
                name_table_kind: *name_table_kind,
            },
            Attribute::BasicType { tag, name, size_in_bits, encoding } => SpecAttribute::BasicType {
                tag: *tag,
                name: name@,
                size_in_bits: *size_in_bits,
                encoding: *encoding,
            },
            Attribute::Flags { value } => SpecAttribute::Flags { value: *value },
            Attribute::DerivedType {
                tag,
                name,
                base_type,
                size_in_bits,
                align_in_bits,
                offset_in_bits,
                dwarf_address_space,
                extra_data,
            } => SpecAttribute::DerivedType {
                tag: *tag,
                name: name@,
                base_type: Box::new(base_type.model()),
                size_in_bits: *size_in_bits,
                align_in_bits: *align_in_bits,
                offset_in_bits: *offset_in_bits,
                dwarf_address_space: *dwarf_address_space,
                extra_data: Box::new(extra_data.model()),
            },
            Attribute::CompositeTypeRecSelf { rec_id } => SpecAttribute::CompositeTypeRecSelf {
                rec_id: Box::new(rec_id.model()),
            },
            Attribute::CompositeType {
                rec_id,
                is_rec_self,
                tag,
                name,
                file,
                line,
                scope,
                base_type,
                flags,
                size_in_bits,
                align_in_bits,
                elements,
                data_location,
                rank,
                allocated,
                associated,
            } => SpecAttribute::CompositeType {
                rec_id: Box::new(rec_id.model()),
                is_rec_self: *is_rec_self,
                tag: *tag,
                name: name@,
                file: Box::new(file.model()),
                line: *line,
                scope: Box::new(scope.model()),
                base_type: Box::new(base_type.model()),
                flags: *flags,
                size_in_bits: *size_in_bits,
                align_in_bits: *align_in_bits,
                elements: models(elements@),
                data_location: Box::new(data_location.model()),
                rank: Box::new(rank.model()),
                allocated: Box::new(allocated.model()),
                associated: Box::new(associated.model()),
            },
            Attribute::SubroutineType { calling_convention, types } => SpecAttribute::SubroutineType {
                calling_convention: *calling_convention,
                types: models(types@),
            },
            Attribute::SubprogramRecSelf { rec_id } => SpecAttribute::SubprogramRecSelf {
                rec_id: Box::new(rec_id.model()),
            },
            Attribute::Subprogram {
                rec_id,
                is_rec_self,
                id,
                compile_unit,
                scope,
                name,
                linkage_name,
                file,
                line,
                scope_line,
                subprogram_flags,
                subprogram_type,
                retained_nodes,
                annotations,
            } => SpecAttribute::Subprogram {
                rec_id: Box::new(rec_id.model()),
                is_rec_self: *is_rec_self,
                id: Box::new(id.model()),
                compile_unit: Box::new(compile_unit.model()),
                scope: Box::new(scope.model()),
                name: name@,
                linkage_name: linkage_name@,
                file: Box::new(file.model()),
                line: *line,
                scope_line: *scope_line,
                subprogram_flags: *subprogram_flags,
                subprogram_type: Box::new(subprogram_type.model()),
                retained_nodes: models(retained_nodes@),
                annotations: models(annotations@),
            },
            Attribute::LocalVariable {
                scope,
                name,
                file,
                line,
                arg,
                align_in_bits,
                di_type,
                flags,
            } => SpecAttribute::LocalVariable {
                scope: Box::new(scope.model()),
                name: name@,
                file: Box::new(file.model()),
                line: *line,
                arg: *arg,
                align_in_bits: *align_in_bits,
                di_type: Box::new(di_type.model()),
                flags: *flags,
            },
            Attribute::LexicalBlock { scope, file, line, column } => SpecAttribute::LexicalBlock {
                scope: Box::new(scope.model()),
                file: Box::new(file.model()),
                line: *line,
                column: *column,
            },
            Attribute::LexicalBlockFile { scope, file, discriminator } => SpecAttribute::LexicalBlockFile {
                scope: Box::new(scope.model()),
                file: Box::new(file.model()),
                discriminator: *discriminator,
            },
            Attribute::ExpressionElem { opcode, arguments } => SpecAttribute::ExpressionElem {
                opcode: *opcode,
                arguments: arguments@,
            },
            Attribute::Expression { operations } => SpecAttribute::Expression {
                operations: models(operations@),
            },
            Attribute::Module {
                file,
                scope,
                name,
                config_macros,
                include_path,
                apinotes,
                line,
                is_decl,
            } => SpecAttribute::Module {
                file: Box::new(file.model()),
                scope: Box::new(scope.model()),
                name: name@,
                config_macros: config_macros@,
                include_path: include_path@,
                apinotes: apinotes@,
                line: *line,
                is_decl: *is_decl,
            },
            Attribute::ImportedEntity { tag, scope, entity, file, line, name, elements } =>
                SpecAttribute::ImportedEntity {
                    tag: *tag,
                    scope: Box::new(scope.model()),
                    entity: Box::new(entity.model()),
                    file: Box::new(file.model()),
                    line: *line,
                    name: name@,
                    elements: models(elements@),
                },
            Attribute::Annotation { name, value } => SpecAttribute::Annotation {
                name: name@,
                value: value@,
            },
        }
    }
}

impl View for Attribute {
    type V = SpecAttribute;

    open spec fn view(&self) -> SpecAttribute {
        self.model()
    }
}

impl Attribute {
    /// A copy of this attribute, with the same value.
    pub fn duplicate(&self) -> (r: Attribute)
        ensures
            r@ == self@,
        decreases self, 1int,
    {
        proof {
            broadcast use lemma_models;
            broadcast use vstd::std_specs::vec::axiom_vec_decreases_to_view;
        }
        match self {
            Attribute::Null => Attribute::Null,
            Attribute::Foreign(h) => Attribute::Foreign(*h),
            Attribute::NullType => Attribute::NullType,
            Attribute::File { name, directory } => Attribute::File {
                name: name.clone(),
                directory: directory.clone(),
            },
            Attribute::CompileUnit {
                id,
                source_language,
                file,
                producer,
                is_optimized,
                emission_kind,
                name_table_kind,
            } => Attribute::CompileUnit {
                id: Box::new(id.duplicate()),
                source_language: *source_language,
                file: Box::new(file.duplicate()),
                producer: producer.clone(),
                is_optimized: *is_optimized,
                emission_kind: *emission_kind,
                name_table_kind: *name_table_kind,
            },
            Attribute::BasicType { tag, name, size_in_bits, encoding } => Attribute::BasicType {
                tag: *tag,
                name: name.clone(),
                size_in_bits: *size_in_bits,
                encoding: *encoding,
            },
            Attribute::Flags { value } => Attribute::Flags { value: *value },
            Attribute::DerivedType {
                tag,
                name,
                base_type,
                size_in_bits,
                align_in_bits,
                offset_in_bits,
                dwarf_address_space,
                extra_data,
            } => Attribute::DerivedType {
                tag: *tag,
                name: name.clone(),
                base_type: Box::new(base_type.duplicate()),
                size_in_bits: *size_in_bits,
                align_in_bits: *align_in_bits,
                offset_in_bits: *offset_in_bits,
                dwarf_address_space: *dwarf_address_space,
                extra_data: Box::new(extra_data.duplicate()),
            },
            Attribute::CompositeTypeRecSelf { rec_id } => Attribute::CompositeTypeRecSelf {
                rec_id: Box::new(rec_id.duplicate()),
            },
            Attribute::CompositeType {
                rec_id,
                is_rec_self,
                tag,
                name,
                file,
                line,
                scope,
                base_type,
                flags,
                size_in_bits,
                align_in_bits,
                elements,
                data_location,
                rank,
                allocated,
                associated,
            } => {
                let copied = self.copy_nested(elements);
                Attribute::CompositeType {
                    rec_id: Box::new(rec_id.duplicate()),
                    is_rec_self: *is_rec_self,
                    tag: *tag,
                    name: name.clone(),
                    file: Box::new(file.duplicate()),
                    line: *line,
                    scope: Box::new(scope.duplicate()),
                    base_type: Box::new(base_type.duplicate()),
                    flags: *flags,
                    size_in_bits: *size_in_bits,
                    align_in_bits: *align_in_bits,
                    elements: copied,
                    data_location: Box::new(data_location.duplicate()),
                    rank: Box::new(rank.duplicate()),
                    allocated: Box::new(allocated.duplicate()),
                    associated: Box::new(associated.duplicate()),
                }
            },
            Attribute::SubroutineType { calling_convention, types } => {
                let copied = self.copy_nested(types);
                Attribute::SubroutineType { calling_convention: *calling_convention, types: copied }
            },
            Attribute::SubprogramRecSelf { rec_id } => Attribute::SubprogramRecSelf {
                rec_id: Box::new(rec_id.duplicate()),
            },
            Attribute::Subprogram {
                rec_id,
                is_rec_self,
                id,
                compile_unit,
                scope,
                name,
                linkage_name,
                file,
                line,
                scope_line,
                subprogram_flags,
                subprogram_type,
                retained_nodes,
                annotations,
            } => {
                let copied_nodes = self.copy_nested(retained_nodes);
                let copied_annotations = self.copy_nested(annotations);
                Attribute::Subprogram {
                    rec_id: Box::new(rec_id.duplicate()),
                    is_rec_self: *is_rec_self,
                    id: Box::new(id.duplicate()),
                    compile_unit: Box::new(compile_unit.duplicate()),
                    scope: Box::new(scope.duplicate()),
                    name: name.clone(),
                    linkage_name: linkage_name.clone(),
                    file: Box::new(file.duplicate()),
                    line: *line,
                    scope_line: *scope_line,
                    subprogram_flags: *subprogram_flags,
                    subprogram_type: Box::new(subprogram_type.duplicate()),
                    retained_nodes: copied_nodes,
                    annotations: copied_annotations,
                }
            },
            Attribute::LocalVariable {
                scope,
                name,
                file,
                line,
                arg,
                align_in_bits,
                di_type,
                flags,
            } => Attribute::LocalVariable {
                scope: Box::new(scope.duplicate()),
                name: name.clone(),
                file: Box::new(file.duplicate()),
                line: *line,
                arg: *arg,
                align_in_bits: *align_in_bits,
                di_type: Box::new(di_type.duplicate()),
                flags: *flags,
            },
            Attribute::LexicalBlock { scope, file, line, column } => Attribute::LexicalBlock {
                scope: Box::new(scope.duplicate()),
                file: Box::new(file.duplicate()),
                line: *line,
                column: *column,
            },
            Attribute::LexicalBlockFile { scope, file, discriminator } => Attribute::LexicalBlockFile {
                scope: Box::new(scope.duplicate()),
                file: Box::new(file.duplicate()),
                discriminator: *discriminator,
            },
            Attribute::ExpressionElem { opcode, arguments } => Attribute::ExpressionElem {
                opcode: *opcode,
                arguments: vstd::slice::slice_to_vec(arguments.as_slice()),
            },
            Attribute::Expression { operations } => {
                let copied = self.copy_nested(operations);
                Attribute::Expression { operations: copied }
            },
            Attribute::Module {
                file,
                scope,
                name,
                config_macros,
                include_path,
                apinotes,
                line,
                is_decl,
            } => Attribute::Module {
                file: Box::new(file.duplicate()),
                scope: Box::new(scope.duplicate()),
                name: name.clone(),
                config_macros: config_macros.clone(),
                include_path: include_path.clone(),
                apinotes: apinotes.clone(),
                line: *line,
                is_decl: *is_decl,
            },
            Attribute::ImportedEntity { tag, scope, entity, file, line, name, elements } => {
                let copied = self.copy_nested(elements);
                Attribute::ImportedEntity {
                    tag: *tag,
                    scope: Box::new(scope.duplicate()),
                    entity: Box::new(entity.duplicate()),
                    file: Box::new(file.duplicate()),
                    line: *line,
                    name: name.clone(),
                    elements: copied,
                }
            },
            Attribute::Annotation { name, value } => Attribute::Annotation {
                name: name.clone(),
                value: value.clone(),
            },
        }
    }

    /// Copies a list held inside this attribute.
    fn copy_nested(&self, items: &Vec<Attribute>) -> (r: Vec<Attribute>)
        requires
            decreases_to!(*self => items@),
        ensures
            models(r@) == models(items@),
        decreases self, 0int,
    {
        let mut out: Vec<Attribute> = Vec::new();
        let mut i: usize = 0;
        while i < items.len()
            invariant
                decreases_to!(*self => items@),
                i <= items@.len(),
                out@.len() == i,
                forall|j: int| 0 <= j < i ==> #[trigger] out@[j]@ == items@[j]@,
            decreases items@.len() - i,
        {
            proof {
                broadcast use vstd::seq::axiom_seq_index_decreases;
                assert(decreases_to!(items@ => items@[i as int]));
            }
            let e = items[i].duplicate();
            out.push(e);
            i = i + 1;
        }
        proof {
            broadcast use lemma_models;
            assert(models(out@) =~= models(items@));
        }
        out
    }
}

/// Copies a list of attributes, keeping their order.
pub fn copy_all(items: &[Attribute]) -> (r: Vec<Attribute>)
    ensures
        models(r@) == models(items@),
        r@.len() == items@.len(),
        forall|i: int| 0 <= i < items@.len() ==> (#[trigger] r@[i])@ == items@[i]@,
{
    let mut out: Vec<Attribute> = Vec::new();
    let mut i: usize = 0;
    while i < items.len()
        invariant
            i <= items@.len(),
            out@.len() == i,
            forall|j: int| 0 <= j < i ==> #[trigger] out@[j]@ == items@[j]@,
        decreases items@.len() - i,
    {
        let e = items[i].duplicate();
        out.push(e);
        i = i + 1;
    }
    proof {
        broadcast use lemma_models;
        assert(models(out@) =~= models(items@));
    }
    out
}

/// The attribute that an optional argument is passed as: a copy of it, or the
/// null attribute where it is absent.
pub fn or_null(a: Option<&Attribute>) -> (r: Attribute)
    ensures
        r@ == or_null_model(a),
{
    match a {
        Some(x) => x.duplicate(),
        None => Attribute::Null,
    }
}

} // verus!
