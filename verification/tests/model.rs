use melior_debug_info::attribute::{copy_all, or_null, Attribute};
use melior_debug_info::debug_info::{
    di_annotation, di_basic_type, di_composite_type, di_composite_type_rec_self,
    di_composite_type_recursive, di_derived_type, di_derived_type_full, di_expression,
    di_expression_elem, di_file, di_imported_entity, di_lexical_block_file, di_module,
    di_null_type, di_subprogram, di_subprogram_compile_unit, di_subprogram_file,
    di_subprogram_full, di_subprogram_line, di_subprogram_rec_self, di_subprogram_scope,
    di_subprogram_scope_line, di_subprogram_type, di_subroutine_type,
};
use melior_debug_info::flags::DISubprogramFlags;
use melior_debug_info::kinds::{DIEmissionKind, DINameTableKind, DITag, DITypeEncoding};

#[test]
fn emission_and_name_table_codes() {
    assert_eq!(DIEmissionKind::NoDebug.value(), 0);
    assert_eq!(DIEmissionKind::Full.value(), 1);
    assert_eq!(DIEmissionKind::LineTablesOnly.value(), 2);
    assert_eq!(DIEmissionKind::DebugDirectivesOnly.value(), 3);
    assert_eq!(DINameTableKind::Default.value(), 0);
    assert_eq!(DINameTableKind::GNU.value(), 1);
    assert_eq!(DINameTableKind::NoNames.value(), 2);
    assert_eq!(DINameTableKind::Apple.value(), 3);
}

#[test]
fn type_encoding_codes() {
    let all = [
        (DITypeEncoding::Address, 1),
        (DITypeEncoding::Boolean, 2),
        (DITypeEncoding::ComplexFloat, 3),
        (DITypeEncoding::Float, 4),
        (DITypeEncoding::Signed, 5),
        (DITypeEncoding::SignedChar, 6),
        (DITypeEncoding::Unsigned, 7),
        (DITypeEncoding::UnsignedChar, 8),
    ];
    for (encoding, code) in all {
        assert_eq!(encoding.value(), code);
    }
}

#[test]
fn tag_codes() {
    let all = [
        (DITag::BaseType, 0x24),
        (DITag::ClassType, 0x02),
        (DITag::EnumerationType, 0x04),
        (DITag::Member, 0x0d),
        (DITag::PointerType, 0x0f),
        (DITag::ReferenceType, 0x10),
        (DITag::StructureType, 0x13),
        (DITag::Typedef, 0x16),
        (DITag::UnionType, 0x17),
        (DITag::ArrayType, 0x01),
        (DITag::SubrangeType, 0x21),
        (DITag::ConstType, 0x26),
        (DITag::VolatileType, 0x35),
        (DITag::RestrictType, 0x37),
    ];
    for (tag, code) in all {
        assert_eq!(tag.value(), code);
    }
}

#[test]
fn subprogram_flag_values() {
    assert_eq!(DISubprogramFlags::none().0, 0);
    assert_eq!(DISubprogramFlags::virtual_().0, 1);
    assert_eq!(DISubprogramFlags::pure_virtual().0, 2);
    assert_eq!(DISubprogramFlags::local_to_unit().0, 4);
    assert_eq!(DISubprogramFlags::definition().0, 8);
    assert_eq!(DISubprogramFlags::optimized().0, 16);
}

#[test]
fn subprogram_flags_combine_laws() {
    let a = DISubprogramFlags::virtual_() | DISubprogramFlags::local_to_unit();
    let b = DISubprogramFlags::local_to_unit() | DISubprogramFlags::virtual_();
    assert_eq!(a, b);
    assert_eq!(a.0, 5);
    assert_eq!(a | DISubprogramFlags::none(), a);
    assert_eq!(a | a, a);
    let c = DISubprogramFlags::optimized();
    assert_eq!((a | b) | c, a | (b | c));
    assert_eq!((a | c).0 & 16, 16);
}

#[test]
fn derived_type_defaults() {
    let int_ty = di_basic_type(0x24, "int", 32, DITypeEncoding::Signed);
    let short = di_derived_type(0x0f, "ptr", &int_ty, 64, 64, 0);
    let full = di_derived_type_full(0x0f, "ptr", &int_ty, 64, 64, 0, 0, None);
    assert_eq!(short, full);
    let with_extra = di_derived_type_full(0x0d, "m", &int_ty, 32, 32, 8, 2, Some(&Attribute::Foreign(9)));
    match &with_extra {
        Attribute::DerivedType { tag, offset_in_bits, dwarf_address_space, extra_data, .. } => {
            assert_eq!(*tag, 0x0d);
            assert_eq!(*offset_in_bits, 8);
            assert_eq!(*dwarf_address_space, 2);
            assert_eq!(**extra_data, Attribute::Foreign(9));
        }
        _ => panic!("not a derived type"),
    }
    assert_ne!(with_extra, full);
}

#[test]
fn recursive_composite_type() {
    let rec_id = Attribute::Foreign(42);
    let self_ref = di_composite_type_rec_self(&rec_id);
    assert_eq!(self_ref, Attribute::CompositeTypeRecSelf { rec_id: Box::new(Attribute::Foreign(42)) });
    let next = di_derived_type(0x0f, "next", &self_ref, 64, 64, 0);
    let node = di_composite_type_recursive(
        &rec_id,
        DITag::StructureType.value(),
        "Node",
        None,
        3,
        None,
        None,
        0,
        64,
        64,
        &[next],
    );
    match &node {
        Attribute::CompositeType { rec_id, is_rec_self, elements, data_location, rank, allocated, associated, .. } => {
            assert_eq!(**rec_id, Attribute::Foreign(42));
            assert!(!*is_rec_self);
            assert_eq!(elements.len(), 1);
            for extra in [data_location, rank, allocated, associated] {
                assert_eq!(**extra, Attribute::Null);
            }
        }
        _ => panic!("not a composite type"),
    }
    let plain = di_composite_type(0x13, "Node", None, 3, None, None, 0, 64, 64, &[]);
    let plain_via_recursive =
        di_composite_type_recursive(&Attribute::Null, 0x13, "Node", None, 3, None, None, 0, 64, 64, &[]);
    assert_eq!(plain, plain_via_recursive);
}

#[test]
fn subprogram_accessors_read_back() {
    let file = di_file("lib.rs", "/src");
    let cu = Attribute::Foreign(1);
    let scope = Attribute::Foreign(3);
    let ty = di_subroutine_type(0, &[di_null_type()]);
    let sp = di_subprogram(
        &Attribute::Foreign(2),
        &cu,
        &scope,
        "f",
        "_ZN1f",
        &file,
        12,
        13,
        DISubprogramFlags::definition() | DISubprogramFlags::optimized(),
        &ty,
    );
    assert_eq!(di_subprogram_line(&sp), 12);
    assert_eq!(di_subprogram_scope_line(&sp), 13);
    assert_eq!(di_subprogram_scope(&sp), scope);
    assert_eq!(di_subprogram_compile_unit(&sp), cu);
    assert_eq!(di_subprogram_file(&sp), file);
    assert_eq!(di_subprogram_type(&sp), ty);
    match &sp {
        Attribute::Subprogram { subprogram_flags, rec_id, retained_nodes, annotations, .. } => {
            assert_eq!(*subprogram_flags, 24);
            assert_eq!(**rec_id, Attribute::Null);
            assert!(retained_nodes.is_empty());
            assert!(annotations.is_empty());
        }
        _ => panic!("not a subprogram"),
    }
}

#[test]
fn subprogram_full_and_short_agree() {
    let file = di_file("a.c", "/");
    let ty = di_subroutine_type(0, &[]);
    let id = Attribute::Foreign(5);
    let short = di_subprogram(&id, &id, &file, "g", "g", &file, 1, 2, DISubprogramFlags::none(), &ty);
    let full = di_subprogram_full(None, &id, &id, &file, "g", "g", &file, 1, 2, DISubprogramFlags::none(), &ty, &[], &[]);
    assert_eq!(short, full);

    let annotation = di_annotation("key", "value");
    let with_lists = di_subprogram_full(
        Some(&Attribute::Foreign(6)),
        &id,
        &id,
        &file,
        "g",
        "g",
        &file,
        1,
        2,
        DISubprogramFlags::none(),
        &ty,
        &[Attribute::Foreign(7), Attribute::Foreign(8)],
        &[annotation],
    );
    match &with_lists {
        Attribute::Subprogram { rec_id, retained_nodes, annotations, .. } => {
            assert_eq!(**rec_id, Attribute::Foreign(6));
            assert_eq!(*retained_nodes, vec![Attribute::Foreign(7), Attribute::Foreign(8)]);
            assert_eq!(*annotations, vec![di_annotation("key", "value")]);
        }
        _ => panic!("not a subprogram"),
    }
}

#[test]
fn subprogram_rec_self_accessors() {
    let sp = di_subprogram_rec_self(&Attribute::Foreign(4));
    assert_eq!(sp, Attribute::SubprogramRecSelf { rec_id: Box::new(Attribute::Foreign(4)) });
    assert_eq!(di_subprogram_line(&sp), 0);
    assert_eq!(di_subprogram_scope_line(&sp), 0);
    assert_eq!(di_subprogram_scope(&sp), Attribute::Null);
    assert_eq!(di_subprogram_compile_unit(&sp), Attribute::Null);
    assert_eq!(di_subprogram_file(&sp), Attribute::Null);
    assert_eq!(di_subprogram_type(&sp), Attribute::Null);
}

#[test]
fn lexical_block_file_and_expression() {
    let file = di_file("b.c", "/");
    let scope = Attribute::Foreign(1);
    let block = di_lexical_block_file(&scope, &file, 7);
    assert_eq!(
        block,
        Attribute::LexicalBlockFile { scope: Box::new(Attribute::Foreign(1)), file: Box::new(di_file("b.c", "/")), discriminator: 7 }
    );
    let elem = di_expression_elem(0x10, &[1, 2, 3]);
    assert_eq!(elem, Attribute::ExpressionElem { opcode: 0x10, arguments: vec![1, 2, 3] });
    let expr = di_expression(&[elem]);
    match &expr {
        Attribute::Expression { operations } => {
            assert_eq!(operations.len(), 1);
            assert_eq!(operations[0], di_expression_elem(0x10, &[1, 2, 3]));
        }
        _ => panic!("not an expression"),
    }
}

#[test]
fn module_imported_entity_annotation() {
    let module = di_module(None, Some(&Attribute::Foreign(1)), "m", "-DX", "/inc", "notes", 4, true);
    match &module {
        Attribute::Module { file, scope, name, config_macros, include_path, apinotes, line, is_decl } => {
            assert_eq!(**file, Attribute::Null);
            assert_eq!(**scope, Attribute::Foreign(1));
            assert_eq!((name.as_str(), config_macros.as_str(), include_path.as_str(), apinotes.as_str()), ("m", "-DX", "/inc", "notes"));
            assert_eq!((*line, *is_decl), (4, true));
        }
        _ => panic!("not a module"),
    }
    let entity = di_imported_entity(0x3a, &Attribute::Foreign(2), Some(&module), None, 9, "use", &[]);
    match &entity {
        Attribute::ImportedEntity { tag, scope, entity, file, line, name, elements } => {
            assert_eq!(*tag, 0x3a);
            assert_eq!(**scope, Attribute::Foreign(2));
            assert_eq!(**entity, module);
            assert_eq!(**file, Attribute::Null);
            assert_eq!(*line, 9);
            assert_eq!(name, "use");
            assert!(elements.is_empty());
        }
        _ => panic!("not an imported entity"),
    }
    let annotation = di_annotation("name", "value");
    assert_eq!(annotation, Attribute::Annotation { name: "name".to_string(), value: "value".to_string() });
}

#[test]
fn duplicate_copy_all_or_null() {
    let file = di_file("c.c", "/");
    let composite = di_composite_type(0x13, "S", Some(&file), 1, None, None, 0, 8, 8, &[di_null_type(), file.duplicate()]);
    assert_eq!(composite.duplicate(), composite);
    let list = [Attribute::Foreign(1), file.duplicate(), composite.duplicate()];
    let copied = copy_all(&list);
    assert_eq!(copied.len(), 3);
    assert_eq!(copied[0], list[0]);
    assert_eq!(copied[2], composite);
    assert_eq!(or_null(None), Attribute::Null);
    assert_eq!(or_null(Some(&file)), file);
}
