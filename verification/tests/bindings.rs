use hi_ffi::decl::{Decl, FieldDecl, FnDecl, ParamDecl, StructDecl, TypeExpr};
use hi_ffi::session::Session;
use hi_ffi::GeneratedBindings;

fn field(name: &str, ty: &str, public: bool, anns: &[&str]) -> FieldDecl {
    FieldDecl {
        name: Some(name.to_string()),
        ty: TypeExpr::Name(ty.to_string()),
        is_public: public,
        annotations: anns.iter().map(|s| s.to_string()).collect(),
    }
}

fn struct_decl(name: &str, fields: Vec<FieldDecl>, derives: &[&str]) -> Decl {
    Decl::Struct(StructDecl {
        name: name.to_string(),
        fields,
        derives: derives.iter().map(|s| s.to_string()).collect(),
        original_definition: format!("struct {} {{ /* fields */ }}", name),
    })
}

fn fn_decl(name: &str, params: &[(&str, &str)], ret: Option<&str>) -> Decl {
    Decl::Function(FnDecl {
        name: name.to_string(),
        params: params
            .iter()
            .map(|(n, t)| ParamDecl::Named {
                name: n.to_string(),
                ty: TypeExpr::Name(t.to_string()),
            })
            .collect(),
        ret: ret.map(|t| TypeExpr::Name(t.to_string())),
        original_definition: format!("fn {}() {{}}", name),
    })
}

fn generate(d: &Decl) -> GeneratedBindings {
    let mut session = Session::new("testpkg".to_string());
    hi_ffi::generate_bindings(d, &mut session).expect("generation should succeed")
}

#[test]
fn point_struct_exposes_requested_accessors_only() {
    let d = struct_decl(
        "Point",
        vec![field("x", "i32", true, &[]), field("y", "i32", false, &["getter"])],
        &[],
    );
    let b = generate(&d);
    assert!(b.rust_shim.contains("__hiFfi__$Point__get_x"));
    assert!(b.rust_shim.contains("__hiFfi__$Point__set_x"));
    assert!(b.rust_shim.contains("__hiFfi__$Point__get_y"));
    assert!(!b.rust_shim.contains("__hiFfi__$Point__set_y"));
    assert!(b.cpp.header.contains("__hiFfi__$Point__get_y"));
    assert!(!b.cpp.header.contains("__hiFfi__$Point__set_y"));
    assert!(b.swift.header.contains("__hiFfi__$Point__get_y"));
    assert!(!b.swift.header.contains("__hiFfi__$Point__set_y"));
    assert!(b.rust_shim.contains("pub unsafe extern \"C\" fn Point_get_x(_self: *mut Point) -> i32"));
    assert!(b.rust_shim.contains("pub unsafe extern \"C\" fn Point_set_x(_self: *mut Point, value: i32)"));
}

#[test]
fn primitive_function_wrapper_passes_values_through() {
    let d = fn_decl("add", &[("a", "i32"), ("b", "i32")], Some("i32"));
    let b = generate(&d);
    assert!(b.rust_shim.contains(
        "pub unsafe extern \"C\" fn ffi_wrapper_add(a: i32, b: i32, ) -> i32"
    ));
    assert!(b.rust_shim.contains("let result = add(a, b, );"));
    // no heap allocation anywhere on the primitive path
    assert!(!b.rust_shim.contains("Box::"));
    assert!(b.cpp.header.contains("i32 __hiFfi__$add(i32 a, i32 b);"));
    assert!(b.cpp.header.contains("i32 add(i32 a, i32 b);"));
    let source = b.cpp.source.expect("functions emit a source file");
    assert!(source.contains("i32 result = __hiFfi__$add(a, b);"));
    assert!(source.contains("return result;"));
    assert!(b.swift.header.contains("i32 __hiFfi__$add(i32 a, i32 b);"));
    assert!(b.swift.source.contains("public func add(_ a: i32, _ b: i32) -> i32 {"));
}

#[test]
fn text_function_scopes_the_returned_handle() {
    let d = fn_decl("greet", &[("name", "String")], Some("String"));
    let b = generate(&d);
    // native side: borrowed pointer in, owned handle out
    assert!(b.rust_shim.contains("name: *const i8"));
    assert!(b.rust_shim.contains("-> *mut String"));
    assert!(b.rust_shim.contains("Box::into_raw(Box::new(result))"));
    // manual-memory side: the scoped adapter owns the handle and frees it
    let source = b.cpp.source.expect("functions emit a source file");
    assert!(source.contains("auto rust_str = RustString(result);"));
    assert!(source.contains("return rust_str.to_string();"));
    // reference-counted side: same adapter, freed by its deinitializer
    assert!(b.swift.source.contains("let casted_result = RustString(result!).to_string()"));
    assert!(b.swift.source.contains("_ name: String"));
}

#[test]
fn opaque_field_accessors_clone_not_alias() {
    let mut session = Session::new("testpkg".to_string());
    let other = struct_decl("Other", vec![field("v", "i32", true, &[])], &[]);
    hi_ffi::generate_bindings(&other, &mut session).expect("first declaration");
    let holder = struct_decl(
        "Holder",
        vec![field("inner", "Other", false, &["getter", "setter"])],
        &[],
    );
    let b = hi_ffi::generate_bindings(&holder, &mut session).expect("second declaration");
    // the getter hands out a freshly cloned handle, never the internal one
    assert!(b.rust_shim.contains("Box::leak(Box::new((&*_self).inner.clone()))"));
    // the setter clones the caller's value into the owner
    assert!(b.rust_shim.contains("(&mut *_self).inner = (*value).clone();"));
    // the manual-memory side passes the raw handle for the native side to clone
    assert!(b.cpp.header.contains("value.self_ptr()"));
    assert!(b.cpp.header.contains("#include \"Other.h\""));
    // the reference-counted backend mirrors it: the getter wraps the cloned
    // handle in the field type's class, the setter hands the raw handle over
    assert!(b.swift.source.contains("public var inner: Other {"));
    assert!(b.swift.source.contains("return Other(__hiFfi__$Holder__get_inner(self.rawPtr())!)"));
    assert!(b.swift.source.contains("__hiFfi__$Holder__set_inner(self.rawPtr(), newValue.rawPtr())"));
    assert!(b.swift.header.contains("void* __hiFfi__$Holder__get_inner(void*);"));
    assert!(b.swift.header.contains("void __hiFfi__$Holder__set_inner(void*, void*);"));
}

#[test]
fn generation_is_deterministic() {
    let d = struct_decl(
        "Point",
        vec![field("x", "i32", true, &[]), field("s", "String", true, &[])],
        &["Default"],
    );
    let a = generate(&d);
    let b = generate(&d);
    assert_eq!(a.rust_shim, b.rust_shim);
    assert_eq!(a.cpp.header, b.cpp.header);
    assert_eq!(a.cpp.source, b.cpp.source);
    assert_eq!(a.swift.header, b.swift.header);
    assert_eq!(a.swift.source, b.swift.source);
    assert_eq!(a.rust_runtime, b.rust_runtime);
}

#[test]
fn destructor_is_guarded_against_null() {
    let d = struct_decl("Point", vec![field("x", "i32", true, &[])], &[]);
    let b = generate(&d);
    assert!(b.cpp.header.contains(
        "    virtual ~Point() {\n        if (this->self != nullptr)\n            __hiFfi__$Point__drop(this->self);\n    }\n"
    ));
    // the move-constructor nulls the source it stole from
    assert!(b.cpp.header.contains("other.self = nullptr;"));
}

#[test]
fn skip_suppresses_accessors_despite_other_flags() {
    let d = struct_decl(
        "S",
        vec![field("hidden", "i32", true, &["getter", "setter", "skip"])],
        &[],
    );
    let b = generate(&d);
    assert!(!b.rust_shim.contains("get_hidden"));
    assert!(!b.rust_shim.contains("set_hidden"));
    assert!(!b.cpp.header.contains("get_hidden"));
    assert!(!b.cpp.header.contains("set_hidden"));
    assert!(!b.swift.source.contains("hidden"));
}

#[test]
fn unannotated_field_follows_visibility() {
    let d = struct_decl(
        "V",
        vec![field("shown", "i32", true, &[]), field("kept", "i32", false, &[])],
        &[],
    );
    let b = generate(&d);
    assert!(b.rust_shim.contains("__hiFfi__$V__get_shown"));
    assert!(b.rust_shim.contains("__hiFfi__$V__set_shown"));
    assert!(!b.rust_shim.contains("__hiFfi__$V__get_kept"));
    assert!(!b.rust_shim.contains("__hiFfi__$V__set_kept"));
}

#[test]
fn empty_struct_emits_only_drop_and_clone() {
    let d = struct_decl("Unit", vec![], &[]);
    let b = generate(&d);
    assert!(b.rust_shim.contains("__hiFfi__$Unit__drop"));
    assert!(b.rust_shim.contains("__hiFfi__$Unit__clone"));
    assert!(!b.rust_shim.contains("__get_"));
    assert!(!b.rust_shim.contains("__set_"));
    assert!(!b.rust_shim.contains("__default"));
    assert!(!b.cpp.header.contains("__get_"));
    assert!(!b.cpp.header.contains("__set_"));
    assert!(!b.cpp.header.contains("__default"));
}

#[test]
fn default_capability_allocates_a_constructor() {
    let d = struct_decl("D", vec![field("x", "i32", true, &[])], &["Default", "Clone"]);
    let b = generate(&d);
    assert!(b.rust_shim.contains("__hiFfi__$D__default"));
    assert!(b.rust_shim.contains("pub unsafe extern \"C\" fn D__default() -> *mut D"));
    assert!(b.cpp.header.contains("this->self = __hiFfi__$D__default();"));
    assert!(b.swift.source.contains("self.init(__hiFfi__$D__default())"));
}

#[test]
fn text_field_accessors_use_the_descriptor() {
    let d = struct_decl("T", vec![field("msg", "String", true, &[])], &[]);
    let b = generate(&d);
    // native getter wraps the bytes in a length+pointer descriptor
    assert!(b.rust_shim.contains("-> *mut FfiSlice"));
    assert!(b.rust_shim.contains("ptr: (&*_self).msg.as_ptr(),"));
    assert!(b.rust_shim.contains("len: (&*_self).msg.len(),"));
    // both consumers read through the paired length, then drop the descriptor
    assert!(b.cpp.header.contains("__hiFfi__$slice_ptr(slice_ptr)"));
    assert!(b.cpp.header.contains("__hiFfi__$slice_len(slice_ptr)"));
    assert!(b.cpp.header.contains("__hiFfi__$slice_drop(slice_ptr)"));
    assert!(b.swift.source.contains("__hiFfi__$slice_drop(slice_ptr)"));
    // setter copies exactly the passed number of bytes at once; the caller
    // keeps its buffer
    assert!(b.rust_shim.contains("ptr: *const i8, len: usize"));
    assert!(b.rust_shim.contains("std::slice::from_raw_parts(ptr as *const u8, len)"));
    assert!(b.rust_shim.contains("String::from_utf8(bytes.to_vec()).unwrap()"));
    // the consumer sides pass a terminator-free length with the pointer
    assert!(b.cpp.header.contains("auto len = value.size();"));
    assert!(b.swift.source.contains("newValue.utf8CString.count - 1"));
    // and the buffer pointer never leaves the buffer's scope
    assert!(b.swift.source.contains("newValue.utf8CString.withUnsafeBufferPointer({ ptr in"));
}

#[test]
fn function_with_no_return_emits_no_conversion() {
    let d = fn_decl("ping", &[], None);
    let b = generate(&d);
    assert!(b.rust_shim.contains("pub unsafe extern \"C\" fn ffi_wrapper_ping() {"));
    // an absent return declares void and captures nothing
    assert!(b.cpp.header.contains("    void __hiFfi__$ping();"));
    assert!(b.cpp.header.contains("void ping();"));
    let source = b.cpp.source.expect("functions emit a source file");
    assert!(source.contains("    __hiFfi__$ping();"));
    assert!(!source.contains("result"));
    assert!(b.swift.source.contains("public func ping() {"));
}

#[test]
fn text_argument_pointer_stays_in_scope() {
    let d = fn_decl("greet", &[("name", "String")], Some("String"));
    let b = generate(&d);
    // the entry-point call is nested inside the buffer's closure
    assert!(b.swift.source.contains(
        "let result = name.utf8CString.withUnsafeBufferPointer({ name_ptr in __hiFfi__$greet(UnsafeMutableRawPointer(mutating: name_ptr.baseAddress!)) })"
    ));
}
