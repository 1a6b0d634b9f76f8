use hi_ffi::decl::{Decl, FfiError, FieldDecl, FnDecl, ParamDecl, StructDecl, TypeExpr};
use hi_ffi::naming;
use hi_ffi::session::Session;

fn named_field(name: &str, ty: &str) -> FieldDecl {
    FieldDecl {
        name: Some(name.to_string()),
        ty: TypeExpr::Name(ty.to_string()),
        is_public: true,
        annotations: Vec::new(),
    }
}

fn simple_struct(name: &str, fields: Vec<FieldDecl>) -> Decl {
    Decl::Struct(StructDecl {
        name: name.to_string(),
        fields,
        derives: Vec::new(),
        original_definition: format!("struct {} {{}}", name),
    })
}

fn simple_fn(name: &str, params: Vec<ParamDecl>, ret: Option<TypeExpr>) -> Decl {
    Decl::Function(FnDecl {
        name: name.to_string(),
        params,
        ret,
        original_definition: format!("fn {}() {{}}", name),
    })
}

fn fresh_session() -> Session {
    Session::new("testpkg".to_string())
}

#[test]
fn symbol_names_follow_the_contract() {
    assert_eq!(naming::fn_symbol("add"), "__hiFfi__$add");
    assert_eq!(naming::member_symbol("Point", "area"), "__hiFfi__$Point__area");
    assert_eq!(naming::getter_symbol("Point", "x"), "__hiFfi__$Point__get_x");
    assert_eq!(naming::setter_symbol("Point", "x"), "__hiFfi__$Point__set_x");
    assert_eq!(naming::drop_symbol("Point"), "__hiFfi__$Point__drop");
    assert_eq!(naming::clone_symbol("Point"), "__hiFfi__$Point__clone");
    assert_eq!(naming::default_symbol("Point"), "__hiFfi__$Point__default");
}

#[test]
fn unnamed_field_is_an_unsupported_shape() {
    let mut s = fresh_session();
    let d = simple_struct(
        "Tup",
        vec![FieldDecl {
            name: None,
            ty: TypeExpr::Name("i32".to_string()),
            is_public: true,
            annotations: Vec::new(),
        }],
    );
    assert_eq!(hi_ffi::generate_bindings(&d, &mut s).unwrap_err(), FfiError::UnsupportedShape);
}

#[test]
fn complex_field_type_is_unsupported() {
    let mut s = fresh_session();
    let d = simple_struct(
        "W",
        vec![FieldDecl {
            name: Some("xs".to_string()),
            ty: TypeExpr::Other,
            is_public: true,
            annotations: Vec::new(),
        }],
    );
    assert_eq!(hi_ffi::generate_bindings(&d, &mut s).unwrap_err(), FfiError::UnsupportedType);
}

#[test]
fn undeclared_opaque_field_type_is_unsupported() {
    let mut s = fresh_session();
    let d = simple_struct("H", vec![named_field("inner", "Missing")]);
    assert_eq!(hi_ffi::generate_bindings(&d, &mut s).unwrap_err(), FfiError::UnsupportedType);
}

#[test]
fn declared_opaque_field_type_is_accepted() {
    let mut s = fresh_session();
    let other = simple_struct("Other", vec![named_field("v", "u64")]);
    assert!(hi_ffi::generate_bindings(&other, &mut s).is_ok());
    let holder = simple_struct("H", vec![named_field("inner", "Other")]);
    assert!(hi_ffi::generate_bindings(&holder, &mut s).is_ok());
}

#[test]
fn receiver_parameter_is_an_unsupported_shape() {
    let mut s = fresh_session();
    let d = simple_fn("method", vec![ParamDecl::Receiver], None);
    assert_eq!(hi_ffi::generate_bindings(&d, &mut s).unwrap_err(), FfiError::UnsupportedShape);
}

#[test]
fn destructured_parameter_is_an_unsupported_shape() {
    let mut s = fresh_session();
    let d = simple_fn("f", vec![ParamDecl::Destructured], None);
    assert_eq!(hi_ffi::generate_bindings(&d, &mut s).unwrap_err(), FfiError::UnsupportedShape);
}

#[test]
fn opaque_parameter_is_unsupported() {
    let mut s = fresh_session();
    let other = simple_struct("Other", vec![named_field("v", "u64")]);
    assert!(hi_ffi::generate_bindings(&other, &mut s).is_ok());
    // opaque types are accepted as struct fields but rejected as parameters
    let d = simple_fn(
        "takes_opaque",
        vec![ParamDecl::Named { name: "o".to_string(), ty: TypeExpr::Name("Other".to_string()) }],
        None,
    );
    assert_eq!(hi_ffi::generate_bindings(&d, &mut s).unwrap_err(), FfiError::UnsupportedType);
}

#[test]
fn opaque_return_is_unsupported() {
    let mut s = fresh_session();
    let d = simple_fn("make", Vec::new(), Some(TypeExpr::Name("Widget".to_string())));
    assert_eq!(hi_ffi::generate_bindings(&d, &mut s).unwrap_err(), FfiError::UnsupportedType);
}

#[test]
fn every_primitive_width_is_accepted() {
    for ty in ["i8", "i16", "i32", "i64", "i128", "u8", "u16", "u32", "u64", "u128", "f32", "f64", "bool"] {
        let mut s = fresh_session();
        let d = simple_fn(
            "probe",
            vec![ParamDecl::Named { name: "v".to_string(), ty: TypeExpr::Name(ty.to_string()) }],
            Some(TypeExpr::Name(ty.to_string())),
        );
        let b = hi_ffi::generate_bindings(&d, &mut s).expect("primitive should be accepted");
        assert!(b.rust_shim.contains(&format!("v: {}", ty)));
        assert!(b.rust_shim.contains(&format!("-> {}", ty)));
    }
}

#[test]
fn duplicate_declaration_collides() {
    let mut s = fresh_session();
    let d = simple_struct("Twice", vec![named_field("x", "i32")]);
    assert!(hi_ffi::generate_bindings(&d, &mut s).is_ok());
    let d2 = simple_struct("Twice", vec![named_field("x", "i32")]);
    assert_eq!(hi_ffi::generate_bindings(&d2, &mut s).unwrap_err(), FfiError::NameCollision);
}

#[test]
fn duplicate_field_names_collide() {
    let mut s = fresh_session();
    let d = simple_struct("Dup", vec![named_field("x", "i32"), named_field("x", "u8")]);
    assert_eq!(hi_ffi::generate_bindings(&d, &mut s).unwrap_err(), FfiError::NameCollision);
}

#[test]
fn cross_declaration_symbol_collision_is_fatal() {
    let mut s = fresh_session();
    let p = simple_struct("P", vec![named_field("x", "i32")]);
    assert!(hi_ffi::generate_bindings(&p, &mut s).is_ok());
    // this function's entry point would be "__hiFfi__$P__get_x", which the
    // struct's getter already claimed
    let clash = simple_fn("P__get_x", Vec::new(), None);
    assert_eq!(hi_ffi::generate_bindings(&clash, &mut s).unwrap_err(), FfiError::NameCollision);
}

#[test]
fn reserved_runtime_symbol_collides() {
    let mut s = fresh_session();
    // its entry point would be the reserved "__hiFfi__$slice_len"
    let d = simple_fn("slice_len", Vec::new(), None);
    assert_eq!(hi_ffi::generate_bindings(&d, &mut s).unwrap_err(), FfiError::NameCollision);
}

#[test]
fn failed_declaration_leaves_the_session_usable() {
    let mut s = fresh_session();
    let bad = simple_struct("Bad", vec![named_field("inner", "Missing")]);
    assert!(hi_ffi::generate_bindings(&bad, &mut s).is_err());
    // the failed declaration claimed nothing: the same names are still free
    let good = simple_struct("Bad", vec![named_field("x", "i32")]);
    let b = hi_ffi::generate_bindings(&good, &mut s).expect("retry should succeed");
    // and it is still the build's first declaration
    assert!(b.rust_runtime.is_some());
    assert!(b.swift_bootstrap.is_some());
}

#[test]
fn bootstrap_is_handed_out_exactly_once() {
    let mut s = fresh_session();
    let first = simple_struct("A", vec![named_field("x", "i32")]);
    let second = simple_struct("B", vec![named_field("x", "i32")]);
    let b1 = hi_ffi::generate_bindings(&first, &mut s).unwrap();
    let b2 = hi_ffi::generate_bindings(&second, &mut s).unwrap();
    assert!(b1.rust_runtime.is_some());
    assert!(b1.swift_bootstrap.is_some());
    assert!(b2.rust_runtime.is_none());
    assert!(b2.swift_bootstrap.is_none());
    assert!(b1.swift_header_block_new);
    assert!(b2.swift_header_block_new);
}

#[test]
fn shared_header_appends_are_keyed_by_name() {
    let mut s = fresh_session();
    let as_struct = simple_struct("Same", vec![named_field("x", "i32")]);
    // a function of the same name claims a different symbol, so it builds,
    // but its shared-header block is not appended a second time
    let as_fn = simple_fn("Same", Vec::new(), None);
    let b1 = hi_ffi::generate_bindings(&as_struct, &mut s).unwrap();
    let b2 = hi_ffi::generate_bindings(&as_fn, &mut s).unwrap();
    assert!(b1.swift_header_block_new);
    assert!(!b2.swift_header_block_new);
}

#[test]
fn bootstrap_texts_declare_the_runtime_symbols() {
    let b = hi_ffi::cpp::cpp_code_base();
    for sym in [
        "__hiFfi__$slice_len",
        "__hiFfi__$slice_ptr",
        "__hiFfi__$slice_drop",
        "__hiFfi__$rust_string_drop",
        "__hiFfi__$rust_string_data",
        "__hiFfi__$rust_string_len",
    ] {
        assert!(b.contains(sym));
    }
    let h = hi_ffi::swift::swift_c_header_code_base();
    assert!(h.contains("__hiFfi__$rust_string_data"));
    let base = hi_ffi::swift::swift_code_base();
    assert!(base.contains("open class Opaque"));
    assert!(base.contains("deinit {"));
    let map = hi_ffi::swift::clang_module_map("mypkg");
    assert!(map.contains("link \"mypkg\""));
    assert!(map.contains("header \"ffi_swift.h\""));
}

#[test]
fn fixed_fragments_are_byte_exact() {
    assert_eq!(
        hi_ffi::swift::clang_module_map("mylib"),
        "\nmodule CFfiModule {\n    header \"ffi_swift.h\"\n    link \"mylib\"\n    export *\n}\n"
    );
    assert_eq!(
        hi_ffi::wrapper::cpp::class_definition::pointer_constructor_definition("Point"),
        "    Point(void* self) : self(self) {}"
    );
    assert_eq!(
        hi_ffi::wrapper::cpp::class_definition::custom_type_include("Other"),
        "#include \"Other.h\"\n"
    );
}

#[test]
fn wrapper_name_matches_the_declaration() {
    let mut s = fresh_session();
    let d = simple_struct("Named", vec![named_field("x", "i32")]);
    let b = hi_ffi::generate_bindings(&d, &mut s).unwrap();
    assert_eq!(b.name, "Named");
    let f = simple_fn("callable", Vec::new(), None);
    let bf = hi_ffi::generate_bindings(&f, &mut s).unwrap();
    assert_eq!(bf.name, "callable");
}
