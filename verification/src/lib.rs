//! Generator of cross-language foreign-function bindings.
//!
//! An annotated struct or function declaration, given as plain data, is
//! validated into an immutable wrapper schema; independent generators then
//! synthesize the native ABI shim (Rust source text) and glue source for two
//! consumer languages (a manual-memory one and a reference-counted one).
//! A per-build session keeps exported symbol names unique and makes one-time
//! bootstrap output happen exactly once.
use vstd::prelude::*;

pub mod cpp;
pub mod decl;
pub mod naming;
pub mod session;
pub mod swift;
pub mod translator;
pub mod wrapper;

use decl::{Decl, DeclView, FfiError};
use session::{Session, SwiftBootstrap};
use wrapper::base::spec_rust_code_base;
use wrapper::cpp::{spec_cpp_header, spec_cpp_source, CppFiles};
use wrapper::swift::{spec_swift_header, spec_swift_source, SwiftFiles};
use wrapper::{spec_wrapper_name, spec_wrapper_rust_shim};

verus! {

/// Everything one declaration generates: the augmented native source
/// fragment, both backends' artifacts, and the one-time bootstrap output
/// where this declaration is the build's first.
#[derive(Debug)]
pub struct GeneratedBindings {
    /// The declaration's own name, for per-declaration file naming.
    pub name: String,
    /// The native source fragment: the declaration itself plus its shim.
    pub rust_shim: String,
    /// The native runtime base, present only on the build's first
    /// declaration.
    pub rust_runtime: Option<String>,
    /// The manual-memory backend's header and optional source.
    pub cpp: CppFiles,
    /// The reference-counted backend's shared-header block and source.
    pub swift: SwiftFiles,
    /// The reference-counted backend's bootstrap artifacts, present only
    /// once per build.
    pub swift_bootstrap: Option<SwiftBootstrap>,
    /// Whether the shared-header block is new; a block already appended
    /// under this name must not be appended again.
    pub swift_header_block_new: bool,
}

/// Validates one declaration and generates every binding artifact for it.
/// Any validation failure fails the whole declaration with the session
/// unchanged: no partially-correct bindings are ever handed out.
pub fn generate_bindings(d: &Decl, session: &mut Session) -> (r: Result<
    GeneratedBindings,
    FfiError,
>)
    requires
        old(session).wf(),
    ensures
        final(session).wf(),
        r is Ok <==> translator::spec_translate_ok(
            d@,
            old(session).declared(),
            old(session).symbols(),
        ),
        match r {
            Result::Ok(b) => {
                let w = translator::spec_translate(d@);
                b.name@ == spec_wrapper_name(w) && b.rust_shim@ == spec_wrapper_rust_shim(w)
                    && b.cpp.header@ == spec_cpp_header(w) && b.cpp.source.deep_view()
                    == spec_cpp_source(w) && b.swift.header@ == spec_swift_header(w)
                    && b.swift.source@ == spec_swift_source(w) && (old(session).rust_base_done()
                    ==> b.rust_runtime is None) && (!old(session).rust_base_done()
                    ==> (b.rust_runtime matches Option::Some(t) && t@ == spec_rust_code_base()))
                    && final(session).rust_base_done() && (old(session).swift_bootstrap_done()
                    ==> b.swift_bootstrap is None) && (!old(session).swift_bootstrap_done() ==> (
                b.swift_bootstrap matches Option::Some(sb) && sb.c_ffi_package@
                    == swift::spec_swift_c_ffi_package_definition() && sb.ffi_package@
                    == swift::spec_swift_ffi_package_definition() && sb.module_map@
                    == swift::spec_clang_module_map(old(session).package()) && sb.c_header_base@
                    == swift::spec_swift_c_header_code_base() && sb.code_base@
                    == swift::spec_swift_code_base())) && final(session).swift_bootstrap_done() && (
                b.swift_header_block_new == !old(session).appended().contains(spec_wrapper_name(w)))
                    && (b.swift_header_block_new ==> final(session).appended() == old(session).appended().push(spec_wrapper_name(w))) && (!b.swift_header_block_new ==> final(session).appended() == old(session).appended()) && final(session).symbols() == old(session).symbols() + translator::spec_translate_symbols(d@)
            },
            Result::Err(e) => e == translator::spec_translate_error(
                d@,
                old(session).declared(),
                old(session).symbols(),
            ) && final(session).symbols() == old(session).symbols() && final(session).declared()
                == old(session).declared() && final(session).rust_base_done() == old(session).rust_base_done() && final(session).swift_bootstrap_done() == old(session).swift_bootstrap_done() && final(session).appended() == old(session).appended(),
        },
{
    let w = match translator::translate(d, session) {
        Result::Ok(w) => w,
        Result::Err(e) => {
            return Result::Err(e);
        },
    };
    let name = w.name();
    let rust_runtime = session.rust_bootstrap();
    let swift_bootstrap = session.swift_bootstrap();
    let fresh = session.append_swift_header(name.as_str());
    let cpp_files = w.cpp();
    let swift_files = w.swift();
    let rust_shim = w.rust_shim();
    Result::Ok(
        GeneratedBindings {
            name,
            rust_shim,
            rust_runtime,
            cpp: cpp_files,
            swift: swift_files,
            swift_bootstrap,
            swift_header_block_new: fresh,
        },
    )
}

/// Determinism: generating bindings twice for an identical declaration
/// produces byte-identical output.  Every artifact is a function of the
/// declaration alone — never of the session, of other declarations, or of
/// processing order.
pub proof fn lemma_generation_deterministic(d1: DeclView, d2: DeclView)
    requires
        d1 == d2,
    ensures
        translator::spec_translate(d1) == translator::spec_translate(d2),
        spec_wrapper_rust_shim(translator::spec_translate(d1)) == spec_wrapper_rust_shim(
            translator::spec_translate(d2),
        ),
        spec_cpp_header(translator::spec_translate(d1)) == spec_cpp_header(
            translator::spec_translate(d2),
        ),
        spec_cpp_source(translator::spec_translate(d1)) == spec_cpp_source(
            translator::spec_translate(d2),
        ),
        spec_swift_header(translator::spec_translate(d1)) == spec_swift_header(
            translator::spec_translate(d2),
        ),
        spec_swift_source(translator::spec_translate(d1)) == spec_swift_source(
            translator::spec_translate(d2),
        ),
{
}

} // verus!
