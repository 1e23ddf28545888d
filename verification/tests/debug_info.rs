use melior_debug_info::attribute::Attribute;
use melior_debug_info::debug_info::{
    di_basic_type, di_compile_unit, di_composite_type, di_derived_type, di_expression, di_file,
    di_flags, di_lexical_block, di_local_variable, di_null_type, di_subprogram, di_subprogram_line,
    di_subprogram_scope_line, di_subroutine_type,
};
use melior_debug_info::flags::DISubprogramFlags;
use melior_debug_info::kinds::{DIEmissionKind, DINameTableKind, DITag, DITypeEncoding};

fn file_name(attribute: &Attribute) -> &str {
    match attribute {
        Attribute::File { name, .. } => name.as_str(),
        _ => panic!("not a file: {:?}", attribute),
    }
}

fn distinct_id(handle: u64) -> Attribute {
    Attribute::Foreign(handle)
}

fn test_compile_unit(file: &Attribute) -> Attribute {
    di_compile_unit(
        &distinct_id(1),
        29, // DW_LANG_C11
        file,
        "my-compiler 1.0",
        false,
        DIEmissionKind::Full,
        DINameTableKind::Default,
    )
}

fn test_subprogram(file: &Attribute, line: u32, scope_line: u32) -> Attribute {
    let cu = test_compile_unit(file);
    let null_ty = di_null_type();
    let sub_ty = di_subroutine_type(0, &[null_ty]);
    di_subprogram(
        &distinct_id(2),
        &cu,
        file,
        "my_function",
        "my_function",
        file,
        line,
        scope_line,
        DISubprogramFlags::definition(),
        &sub_ty,
    )
}

fn int64_type() -> Attribute {
    di_basic_type(DITag::BaseType.value(), "int64", 64, DITypeEncoding::Signed)
}

#[test]
fn create_di_file() {
    let file = di_file("main.c", "/home/user/project");
    match &file {
        Attribute::File { name, directory } => {
            assert!(name.contains("main.c"));
            assert!(directory.contains("/home/user/project"));
        }
        _ => panic!("not a file"),
    }
}

#[test]
fn create_di_null_type() {
    let null = di_null_type();
    assert_eq!(null, Attribute::NullType);
}

#[test]
fn create_di_basic_type() {
    let ty = int64_type();
    match &ty {
        Attribute::BasicType { tag, name, size_in_bits, encoding } => {
            assert!(name.contains("int64"));
            assert_eq!(*tag, 0x24);
            assert_eq!(*size_in_bits, 64);
            assert_eq!(*encoding, 5);
        }
        _ => panic!("not a basic type"),
    }
}

#[test]
fn create_di_compile_unit() {
    let file = di_file("main.c", "/project");
    let cu = test_compile_unit(&file);
    match &cu {
        Attribute::CompileUnit {
            id,
            source_language,
            file,
            producer,
            is_optimized,
            emission_kind,
            name_table_kind,
        } => {
            assert!(file_name(file).contains("main.c"));
            assert_eq!(**id, Attribute::Foreign(1));
            assert_eq!(*source_language, 29);
            assert_eq!(producer, "my-compiler 1.0");
            assert!(!*is_optimized);
            assert_eq!(*emission_kind, 1);
            assert_eq!(*name_table_kind, 0);
        }
        _ => panic!("not a compile unit"),
    }
}

#[test]
fn create_di_subroutine_type() {
    let null_ty = di_null_type();
    let int_ty = int64_type();
    let sub_ty = di_subroutine_type(0, &[null_ty, int_ty]);
    match &sub_ty {
        Attribute::SubroutineType { calling_convention, types } => {
            assert_eq!(*calling_convention, 0);
            assert_eq!(types.len(), 2);
            assert_eq!(types[0], Attribute::NullType);
            assert_eq!(types[1], int64_type());
        }
        _ => panic!("not a subroutine type"),
    }
}

#[test]
fn create_di_subprogram() {
    let file = di_file("main.c", "/project");
    let sp = test_subprogram(&file, 10, 10);

    assert_eq!(di_subprogram_line(&sp), 10);
    assert_eq!(di_subprogram_scope_line(&sp), 10);
}

#[test]
fn create_di_local_variable() {
    let file = di_file("main.c", "/project");
    let sp = test_subprogram(&file, 1, 1);
    let int_ty = int64_type();

    let var = di_local_variable(&sp, "my_var", &file, 5, 0, 0, &int_ty, 0);
    match &var {
        Attribute::LocalVariable { scope, name, file: var_file, line, arg, align_in_bits, di_type, flags } => {
            assert!(name.contains("my_var"));
            assert_eq!(**scope, sp);
            assert_eq!(**var_file, file);
            assert_eq!((*line, *arg, *align_in_bits, *flags), (5, 0, 0, 0));
            assert_eq!(**di_type, int_ty);
        }
        _ => panic!("not a local variable"),
    }
}

#[test]
fn create_di_lexical_block() {
    let file = di_file("main.c", "/project");
    let sp = test_subprogram(&file, 1, 1);

    let block = di_lexical_block(&sp, &file, 5, 3);
    assert_eq!(
        block,
        Attribute::LexicalBlock {
            scope: Box::new(test_subprogram(&file, 1, 1)),
            file: Box::new(di_file("main.c", "/project")),
            line: 5,
            column: 3,
        }
    );
}

#[test]
fn create_di_composite_type() {
    let file = di_file("main.c", "/project");
    let int_ty = int64_type();
    let field = di_derived_type(DITag::Member.value(), "x", &int_ty, 64, 64, 0);

    let struct_ty = di_composite_type(
        DITag::StructureType.value(),
        "Point",
        Some(&file),
        10,
        None,
        None,
        0,
        128,
        64,
        &[field],
    );
    match &struct_ty {
        Attribute::CompositeType { rec_id, is_rec_self, tag, name, file: ty_file, line, scope, base_type, elements, .. } => {
            assert!(name.contains("Point"));
            assert_eq!(**rec_id, Attribute::Null);
            assert!(!*is_rec_self);
            assert_eq!(*tag, 0x13);
            assert_eq!(file_name(ty_file), "main.c");
            assert_eq!(*line, 10);
            assert_eq!(**scope, Attribute::Null);
            assert_eq!(**base_type, Attribute::Null);
            assert_eq!(elements.len(), 1);
            assert_eq!(elements[0], di_derived_type(0x0d, "x", &int64_type(), 64, 64, 0));
        }
        _ => panic!("not a composite type"),
    }
}

#[test]
fn create_di_expression() {
    let empty_expr = di_expression(&[]);
    assert_eq!(empty_expr, Attribute::Expression { operations: vec![] });
}

#[test]
fn create_di_flags() {
    let flags = di_flags(0);
    assert_eq!(flags, Attribute::Flags { value: 0 });
}

#[test]
fn subprogram_flags_combine() {
    let flags = DISubprogramFlags::definition() | DISubprogramFlags::optimized();
    assert_eq!(flags.0, (1 << 3) | (1 << 4));
}

#[test]
fn create_di_subprogram_and_attach_to_func() {
    let file = di_file("test.c", "/project");
    let cu = test_compile_unit(&file);
    let null_ty = di_null_type();
    let sub_ty = di_subroutine_type(0, &[null_ty]);

    let sp_id = distinct_id(2);
    let sp = di_subprogram(
        &sp_id,
        &cu,
        &file,
        "main",
        "main",
        &file,
        1,
        1,
        DISubprogramFlags::definition(),
        &sub_ty,
    );

    assert_eq!(
        sp,
        Attribute::Subprogram {
            rec_id: Box::new(Attribute::Null),
            is_rec_self: false,
            id: Box::new(Attribute::Foreign(2)),
            compile_unit: Box::new(test_compile_unit(&di_file("test.c", "/project"))),
            scope: Box::new(di_file("test.c", "/project")),
            name: "main".to_string(),
            linkage_name: "main".to_string(),
            file: Box::new(di_file("test.c", "/project")),
            line: 1,
            scope_line: 1,
            subprogram_flags: 8,
            subprogram_type: Box::new(di_subroutine_type(0, &[di_null_type()])),
            retained_nodes: vec![],
            annotations: vec![],
        }
    );
    assert_eq!(di_subprogram_line(&sp), 1);
    assert_eq!(di_subprogram_scope_line(&sp), 1);
}
