//! The validated, immutable schema of one declaration, and the generators
//! that consume it.
//!
//! A `Wrapper` is built once per declaration by the translator, then read by
//! the native shim generator and by both consumer-language backends; it is
//! never modified.
use vstd::prelude::*;

pub mod base;
pub mod cpp;
pub mod function_wrapper;
pub mod struct_wrapper;
pub mod swift;

use function_wrapper::{FunctionWrapper, FunctionWrapperView};
use struct_wrapper::{StructWrapper, StructWrapperView};

verus! {

/// The schema of one declaration: its re-emitted source text and the parsed
/// form consumed by every generator.
#[derive(Debug)]
pub struct Wrapper {
    pub original_definition: String,
    pub parsed: ParsedWrapper,
}

/// The two supported declaration kinds.
#[derive(Debug)]
pub enum ParsedWrapper {
    Struct(StructWrapper),
    Function(FunctionWrapper),
}

pub ghost struct WrapperView {
    pub original_definition: Seq<char>,
    pub parsed: ParsedWrapperView,
}

pub ghost enum ParsedWrapperView {
    Struct(StructWrapperView),
    Function(FunctionWrapperView),
}

impl View for ParsedWrapper {
    type V = ParsedWrapperView;

    open spec fn view(&self) -> ParsedWrapperView {
        match self {
            ParsedWrapper::Struct(s) => ParsedWrapperView::Struct(s@),
            ParsedWrapper::Function(f) => ParsedWrapperView::Function(f@),
        }
    }
}

impl View for Wrapper {
    type V = WrapperView;

    open spec fn view(&self) -> WrapperView {
        WrapperView { original_definition: self.original_definition@, parsed: self.parsed@ }
    }
}

/// The declaration's own name: the struct or function name.
pub open spec fn spec_wrapper_name(w: WrapperView) -> Seq<char> {
    match w.parsed {
        ParsedWrapperView::Struct(s) => s.name,
        ParsedWrapperView::Function(f) => f.name,
    }
}

/// The augmented native source fragment for one declaration: the struct shim
/// (which re-emits the declaration itself), or the declaration followed by
/// its function wrapper.
pub open spec fn spec_wrapper_rust_shim(w: WrapperView) -> Seq<char> {
    match w.parsed {
        ParsedWrapperView::Struct(s) => struct_wrapper::spec_struct_shim(s),
        ParsedWrapperView::Function(f) => w.original_definition + "\n"@
            + function_wrapper::spec_function_shim(f),
    }
}

impl Wrapper {
    pub fn name(&self) -> (r: String)
        ensures
            r@ == spec_wrapper_name(self@),
    {
        match &self.parsed {
            ParsedWrapper::Struct(s) => s.name.clone(),
            ParsedWrapper::Function(f) => f.name.clone(),
        }
    }

    /// Emits the native ABI shim of this declaration.
    pub fn rust_shim(&self) -> (r: String)
        ensures
            r@ == spec_wrapper_rust_shim(self@),
    {
        match &self.parsed {
            ParsedWrapper::Struct(s) => s.rust_shim(),
            ParsedWrapper::Function(f) => {
                let mut r = self.original_definition.clone();
                r.append("\n");
                let shim = f.rust_shim();
                r.append(shim.as_str());
                r
            },
        }
    }
}

} // verus!
