//! The schema builder: validates one declaration into an immutable wrapper
//! schema, or fails it entirely.
//!
//! The supported value types are the fixed-width integers of 8 to 128 bits,
//! the two floating-point widths, booleans, the built-in text type, and —
//! for struct fields only — a previously declared opaque type.
use crate::decl::{Decl, DeclView, FfiError};
use crate::naming::str_eq;
use crate::session::Session;
use crate::wrapper::struct_wrapper::FieldWrapperType;
use crate::wrapper::{Wrapper, WrapperView};
use vstd::prelude::*;

pub mod function_translator;
pub mod struct_translator;

verus! {

/// Whether a type name is one of the supported by-value primitives.
pub open spec fn spec_is_primitive_name(s: Seq<char>) -> bool {
    ||| s == "i8"@
    ||| s == "i16"@
    ||| s == "i32"@
    ||| s == "i64"@
    ||| s == "i128"@
    ||| s == "u8"@
    ||| s == "u16"@
    ||| s == "u32"@
    ||| s == "u64"@
    ||| s == "u128"@
    ||| s == "f32"@
    ||| s == "f64"@
    ||| s == "bool"@
}

pub fn is_primitive_name(s: &str) -> (r: bool)
    ensures
        r == spec_is_primitive_name(s@),
{
    str_eq(s, "i8") || str_eq(s, "i16") || str_eq(s, "i32") || str_eq(s, "i64") || str_eq(
        s,
        "i128",
    ) || str_eq(s, "u8") || str_eq(s, "u16") || str_eq(s, "u32") || str_eq(s, "u64") || str_eq(
        s,
        "u128",
    ) || str_eq(s, "f32") || str_eq(s, "f64") || str_eq(s, "bool")
}

/// How a type name crosses the boundary: primitives by value, the built-in
/// text type as an owned buffer, anything else as an opaque handle.
pub open spec fn spec_classify(s: Seq<char>) -> FieldWrapperType {
    if spec_is_primitive_name(s) {
        FieldWrapperType::Primitive
    } else if s == "String"@ {
        FieldWrapperType::String
    } else {
        FieldWrapperType::Custom
    }
}

pub fn classify(s: &str) -> (r: FieldWrapperType)
    ensures
        r == spec_classify(s@),
{
    if is_primitive_name(s) {
        FieldWrapperType::Primitive
    } else if str_eq(s, "String") {
        FieldWrapperType::String
    } else {
        FieldWrapperType::Custom
    }
}

/// Whether building this declaration succeeds against the given session
/// state.
pub open spec fn spec_translate_ok(
    d: DeclView,
    declared: Seq<Seq<char>>,
    table: Seq<Seq<char>>,
) -> bool {
    match d {
        DeclView::Struct(s) => struct_translator::spec_struct_ok(s, declared, table),
        DeclView::Function(f) => function_translator::spec_function_ok(f, table),
    }
}

/// The error a failing build reports.
pub open spec fn spec_translate_error(
    d: DeclView,
    declared: Seq<Seq<char>>,
    table: Seq<Seq<char>>,
) -> FfiError {
    match d {
        DeclView::Struct(s) => struct_translator::spec_struct_error(s, declared),
        DeclView::Function(f) => function_translator::spec_function_error(f),
    }
}

/// The schema a successful build produces.
pub open spec fn spec_translate(d: DeclView) -> WrapperView {
    match d {
        DeclView::Struct(s) => struct_translator::spec_translate_struct(s),
        DeclView::Function(f) => function_translator::spec_translate_function(f),
    }
}

/// The symbols a successful build claims, in claim order.
pub open spec fn spec_translate_symbols(d: DeclView) -> Seq<Seq<char>> {
    match d {
        DeclView::Struct(s) => struct_translator::spec_struct_symbols(
            struct_translator::spec_struct_wrapper(s),
        ),
        DeclView::Function(f) => seq![crate::naming::spec_fn_symbol(f.name)],
    }
}

/// Validates one declaration into a schema, claiming its entry-point names;
/// a struct additionally registers its own name as a declared opaque type.
/// On any failure the session is left unchanged and nothing is emitted.
pub fn translate(d: &Decl, session: &mut Session) -> (r: Result<Wrapper, FfiError>)
    requires
        old(session).wf(),
    ensures
        final(session).wf(),
        final(session).rust_base_done() == old(session).rust_base_done(),
        final(session).swift_bootstrap_done() == old(session).swift_bootstrap_done(),
        final(session).appended() == old(session).appended(),
        final(session).package() == old(session).package(),
        r is Ok <==> spec_translate_ok(d@, old(session).declared(), old(session).symbols()),
        match r {
            Result::Ok(w) => w@ == spec_translate(d@) && final(session).symbols() == old(session).symbols() + spec_translate_symbols(d@) && final(session).declared() == (match d@ {
                DeclView::Struct(s) => old(session).declared().push(s.name),
                DeclView::Function(_) => old(session).declared(),
            }),
            Result::Err(e) => e == spec_translate_error(
                d@,
                old(session).declared(),
                old(session).symbols(),
            ) && final(session).symbols() == old(session).symbols() && final(session).declared()
                == old(session).declared(),
        },
{
    match d {
        Decl::Struct(s) => struct_translator::translate_struct(s, session),
        Decl::Function(f) => function_translator::translate_function(f, session),
    }
}

} // verus!
