//! The manual-memory consumer backend: emits a header/source text pair per
//! declaration.
use vstd::prelude::*;

pub mod class_definition;
pub mod function_definition;

verus! {

/// The per-declaration artifacts of the manual-memory backend: a header for
/// every declaration, and a separate source file for functions only.
#[derive(Debug)]
pub struct CppFiles {
    pub header: String,
    pub source: Option<String>,
}

/// The header the manual-memory backend emits for a declaration.
pub open spec fn spec_cpp_header(w: crate::wrapper::WrapperView) -> Seq<char> {
    match w.parsed {
        crate::wrapper::ParsedWrapperView::Struct(s) =>
            class_definition::spec_gen_class_definition(s),
        crate::wrapper::ParsedWrapperView::Function(f) =>
            function_definition::spec_gen_function_declaration(f),
    }
}

/// The source the manual-memory backend emits for a declaration: present for
/// functions only.
pub open spec fn spec_cpp_source(w: crate::wrapper::WrapperView) -> Option<Seq<char>> {
    match w.parsed {
        crate::wrapper::ParsedWrapperView::Struct(_) => Option::None,
        crate::wrapper::ParsedWrapperView::Function(f) => Option::Some(
            function_definition::spec_gen_function_definition(f),
        ),
    }
}

impl crate::wrapper::Wrapper {
    /// Emits the manual-memory backend's artifacts for this declaration.
    pub fn cpp(&self) -> (r: CppFiles)
        ensures
            r.header@ == spec_cpp_header(self@),
            r.source.deep_view() == spec_cpp_source(self@),
    {
        match &self.parsed {
            crate::wrapper::ParsedWrapper::Struct(s) => CppFiles {
                header: class_definition::gen_class_definition(s),
                source: Option::None,
            },
            crate::wrapper::ParsedWrapper::Function(f) => CppFiles {
                header: function_definition::gen_function_declaration(f),
                source: Option::Some(function_definition::gen_function_definition(f)),
            },
        }
    }
}

} // verus!
