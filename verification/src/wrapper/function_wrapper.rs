//! The function schema and the native ABI wrapper emitted for it.
use crate::wrapper::struct_wrapper::{shim_export_header, spec_shim_export_header};
use vstd::prelude::*;

verus! {

/// How an argument crosses the boundary: by value, or as a borrowed text
/// pointer that the shim copies into an owned value at once.
#[derive(Clone, Copy, Debug, PartialEq, Eq, Structural)]
pub enum FunctionArgWrapperType {
    Primitive,
    String,
}

/// How a return value crosses the boundary: by value, or as a newly
/// allocated owned text handle destroyed by the shared text destructor.
#[derive(Clone, Copy, Debug, PartialEq, Eq, Structural)]
pub enum FunctionReturnWrapperType {
    Primitive,
    String,
}

/// One parameter of a function schema.
#[derive(Debug)]
pub struct FunctionArgWrapper {
    pub wrapper_type: FunctionArgWrapperType,
    pub arg_name: String,
    pub arg_type: String,
}

/// The return of a function schema, when there is one.
#[derive(Debug)]
pub struct FunctionReturnWrapper {
    pub wrapper_type: FunctionReturnWrapperType,
    pub return_type: String,
}

/// A validated function schema.
#[derive(Debug)]
pub struct FunctionWrapper {
    pub name: String,
    pub extern_function_name: String,
    pub args_wrappers: Vec<FunctionArgWrapper>,
    pub return_wrapper: Option<FunctionReturnWrapper>,
}

pub ghost struct FunctionArgWrapperView {
    pub wrapper_type: FunctionArgWrapperType,
    pub arg_name: Seq<char>,
    pub arg_type: Seq<char>,
}

pub ghost struct FunctionReturnWrapperView {
    pub wrapper_type: FunctionReturnWrapperType,
    pub return_type: Seq<char>,
}

pub ghost struct FunctionWrapperView {
    pub name: Seq<char>,
    pub extern_function_name: Seq<char>,
    pub args_wrappers: Seq<FunctionArgWrapperView>,
    pub return_wrapper: Option<FunctionReturnWrapperView>,
}

impl View for FunctionArgWrapper {
    type V = FunctionArgWrapperView;

    open spec fn view(&self) -> FunctionArgWrapperView {
        FunctionArgWrapperView {
            wrapper_type: self.wrapper_type,
            arg_name: self.arg_name@,
            arg_type: self.arg_type@,
        }
    }
}

impl DeepView for FunctionArgWrapper {
    type V = FunctionArgWrapperView;

    open spec fn deep_view(&self) -> FunctionArgWrapperView {
        self@
    }
}

impl View for FunctionReturnWrapper {
    type V = FunctionReturnWrapperView;

    open spec fn view(&self) -> FunctionReturnWrapperView {
        FunctionReturnWrapperView {
            wrapper_type: self.wrapper_type,
            return_type: self.return_type@,
        }
    }
}

impl DeepView for FunctionReturnWrapper {
    type V = FunctionReturnWrapperView;

    open spec fn deep_view(&self) -> FunctionReturnWrapperView {
        self@
    }
}

impl View for FunctionWrapper {
    type V = FunctionWrapperView;

    open spec fn view(&self) -> FunctionWrapperView {
        FunctionWrapperView {
            name: self.name@,
            extern_function_name: self.extern_function_name@,
            args_wrappers: self.args_wrappers.deep_view(),
            return_wrapper: self.return_wrapper.deep_view(),
        }
    }
}

/// One parameter of the shim's signature, with its trailing comma: passed by
/// value, or as a borrowed text pointer.
pub open spec fn spec_arg_signature(a: FunctionArgWrapperView) -> Seq<char> {
    match a.wrapper_type {
        FunctionArgWrapperType::Primitive => a.arg_name + ": "@ + a.arg_type + ", "@,
        FunctionArgWrapperType::String => a.arg_name + ": *const i8, "@,
    }
}

fn arg_signature(a: &FunctionArgWrapper) -> (r: String)
    ensures
        r@ == spec_arg_signature(a@),
{
    match a.wrapper_type {
        FunctionArgWrapperType::Primitive => {
            let mut r = a.arg_name.clone();
            r.append(": ");
            r.append(a.arg_type.as_str());
            r.append(", ");
            r
        },
        FunctionArgWrapperType::String => {
            let mut r = a.arg_name.clone();
            r.append(": *const i8, ");
            r
        },
    }
}

pub open spec fn spec_arg_signatures(args: Seq<FunctionArgWrapperView>) -> Seq<char>
    decreases args.len(),
{
    if args.len() == 0 {
        Seq::<char>::empty()
    } else {
        spec_arg_signatures(args.drop_last()) + spec_arg_signature(args.last())
    }
}

/// The conversion statement for one parameter: a text argument's borrowed
/// pointer is copied into an owned value before the call; a by-value
/// parameter needs none.
pub open spec fn spec_arg_cast(a: FunctionArgWrapperView) -> Seq<char> {
    match a.wrapper_type {
        FunctionArgWrapperType::Primitive => Seq::<char>::empty(),
        FunctionArgWrapperType::String => "    let "@ + a.arg_name
            + " = unsafe { std::ffi::CStr::from_ptr("@ + a.arg_name
            + ").to_str().unwrap().to_owned() };\n"@,
    }
}

fn arg_cast(a: &FunctionArgWrapper) -> (r: String)
    ensures
        r@ == spec_arg_cast(a@),
{
    match a.wrapper_type {
        FunctionArgWrapperType::Primitive => String::new(),
        FunctionArgWrapperType::String => {
            let mut r = String::from_str("    let ");
            r.append(a.arg_name.as_str());
            r.append(" = unsafe { std::ffi::CStr::from_ptr(");
            r.append(a.arg_name.as_str());
            r.append(").to_str().unwrap().to_owned() };\n");
            r
        },
    }
}

pub open spec fn spec_arg_casts(args: Seq<FunctionArgWrapperView>) -> Seq<char>
    decreases args.len(),
{
    if args.len() == 0 {
        Seq::<char>::empty()
    } else {
        spec_arg_casts(args.drop_last()) + spec_arg_cast(args.last())
    }
}

/// The argument list of the inner call, with trailing commas.
pub open spec fn spec_arg_names(args: Seq<FunctionArgWrapperView>) -> Seq<char>
    decreases args.len(),
{
    if args.len() == 0 {
        Seq::<char>::empty()
    } else {
        spec_arg_names(args.drop_last()) + args.last().arg_name + ", "@
    }
}

/// The shim's return type: by value for primitives, a newly allocated owned
/// text handle for text, nothing when the declaration returns nothing.
pub open spec fn spec_return_signature(ret: Option<FunctionReturnWrapperView>) -> Seq<char> {
    match ret {
        Option::Some(rw) => match rw.wrapper_type {
            FunctionReturnWrapperType::Primitive => " -> "@ + rw.return_type,
            FunctionReturnWrapperType::String => " -> *mut String"@,
        },
        Option::None => Seq::<char>::empty(),
    }
}

fn return_signature(ret: &Option<FunctionReturnWrapper>) -> (r: String)
    ensures
        r@ == spec_return_signature(ret.deep_view()),
{
    match ret {
        Option::Some(rw) => match rw.wrapper_type {
            FunctionReturnWrapperType::Primitive => {
                let mut r = String::from_str(" -> ");
                r.append(rw.return_type.as_str());
                r
            },
            FunctionReturnWrapperType::String => String::from_str(" -> *mut String"),
        },
        Option::None => String::new(),
    }
}

/// How the inner call's result leaves the shim: unchanged for primitives and
/// for absent returns, boxed into an owned handle for text.
pub open spec fn spec_result_cast(ret: Option<FunctionReturnWrapperView>) -> Seq<char> {
    match ret {
        Option::Some(rw) => match rw.wrapper_type {
            FunctionReturnWrapperType::Primitive => "    result\n"@,
            FunctionReturnWrapperType::String => "    Box::into_raw(Box::new(result))\n"@,
        },
        Option::None => "    result\n"@,
    }
}

fn result_cast(ret: &Option<FunctionReturnWrapper>) -> (r: String)
    ensures
        r@ == spec_result_cast(ret.deep_view()),
{
    match ret {
        Option::Some(rw) => match rw.wrapper_type {
            FunctionReturnWrapperType::Primitive => String::from_str("    result\n"),
            FunctionReturnWrapperType::String => String::from_str(
                "    Box::into_raw(Box::new(result))\n",
            ),
        },
        Option::None => String::from_str("    result\n"),
    }
}

/// The whole native wrapper of a function: converts text arguments, invokes
/// the original declaration, converts the result.
pub open spec fn spec_function_shim(f: FunctionWrapperView) -> Seq<char> {
    spec_shim_export_header(f.extern_function_name) + "pub unsafe extern \"C\" fn ffi_wrapper_"@
        + f.name + "("@ + spec_arg_signatures(f.args_wrappers) + ")"@ + spec_return_signature(
        f.return_wrapper,
    ) + " {\n"@ + spec_arg_casts(f.args_wrappers) + "    let result = "@ + f.name + "("@
        + spec_arg_names(f.args_wrappers) + ");\n"@ + spec_result_cast(f.return_wrapper) + "}\n"@
}

impl FunctionWrapper {
    /// Emits the native ABI wrapper for this function.
    pub fn rust_shim(&self) -> (r: String)
        ensures
            r@ == spec_function_shim(self@),
    {
        let ghost dv = self.args_wrappers.deep_view();
        let mut sigs = String::new();
        let mut casts = String::new();
        let mut names = String::new();
        let mut i: usize = 0;
        while i < self.args_wrappers.len()
            invariant
                0 <= i <= self.args_wrappers.len(),
                dv == self.args_wrappers.deep_view(),
                dv.len() == self.args_wrappers.len(),
                sigs@ == spec_arg_signatures(dv.take(i as int)),
                casts@ == spec_arg_casts(dv.take(i as int)),
                names@ == spec_arg_names(dv.take(i as int)),
            decreases self.args_wrappers.len() - i,
        {
            let a = &self.args_wrappers[i];
            proof {
                assert(dv[i as int] == self.args_wrappers@[i as int]@);
                assert(dv.take(i + 1).drop_last() =~= dv.take(i as int));
                assert(dv.take(i + 1).last() == dv[i as int]);
            }
            let sig = arg_signature(a);
            sigs.append(sig.as_str());
            let cast = arg_cast(a);
            casts.append(cast.as_str());
            names.append(a.arg_name.as_str());
            names.append(", ");
            i = i + 1;
        }
        proof {
            assert(dv.take(self.args_wrappers.len() as int) =~= dv);
        }
        let mut r = shim_export_header(self.extern_function_name.as_str());
        r.append("pub unsafe extern \"C\" fn ffi_wrapper_");
        r.append(self.name.as_str());
        r.append("(");
        r.append(sigs.as_str());
        r.append(")");
        let ret_sig = return_signature(&self.return_wrapper);
        r.append(ret_sig.as_str());
        r.append(" {\n");
        r.append(casts.as_str());
        r.append("    let result = ");
        r.append(self.name.as_str());
        r.append("(");
        r.append(names.as_str());
        r.append(");\n");
        let res_cast = result_cast(&self.return_wrapper);
        r.append(res_cast.as_str());
        r.append("}\n");
        r
    }
}

} // verus!
