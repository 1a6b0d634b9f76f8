//! The reference-counted consumer backend: emits a shared-header block and a
//! source text per declaration.
use vstd::prelude::*;

pub mod class_definition;
pub mod function_definition;

verus! {

/// The per-declaration artifacts of the reference-counted backend: a block
/// appended to the shared header, and a source file of its own.
#[derive(Debug)]
pub struct SwiftFiles {
    pub header: String,
    pub source: String,
}

/// The block the reference-counted backend appends to the shared C header
/// for a declaration.
pub open spec fn spec_swift_header(w: crate::wrapper::WrapperView) -> Seq<char> {
    match w.parsed {
        crate::wrapper::ParsedWrapperView::Struct(s) =>
            class_definition::spec_gen_class_header(s),
        crate::wrapper::ParsedWrapperView::Function(f) =>
            function_definition::spec_gen_function_header(f),
    }
}

/// The source the reference-counted backend emits for a declaration.
pub open spec fn spec_swift_source(w: crate::wrapper::WrapperView) -> Seq<char> {
    match w.parsed {
        crate::wrapper::ParsedWrapperView::Struct(s) =>
            class_definition::spec_gen_class_definition(s),
        crate::wrapper::ParsedWrapperView::Function(f) =>
            function_definition::spec_gen_function_definition(f),
    }
}

impl crate::wrapper::Wrapper {
    /// Emits the reference-counted backend's artifacts for this declaration.
    pub fn swift(&self) -> (r: SwiftFiles)
        ensures
            r.header@ == spec_swift_header(self@),
            r.source@ == spec_swift_source(self@),
    {
        match &self.parsed {
            crate::wrapper::ParsedWrapper::Struct(s) => SwiftFiles {
                header: class_definition::gen_class_header(s),
                source: class_definition::gen_class_definition(s),
            },
            crate::wrapper::ParsedWrapper::Function(f) => SwiftFiles {
                header: function_definition::gen_function_header(f),
                source: function_definition::gen_function_definition(f),
            },
        }
    }
}

} // verus!
