//! The manual-memory backend's declaration/definition pair for one function
//! schema.
use crate::wrapper::function_wrapper::{
    FunctionArgWrapper, FunctionArgWrapperType, FunctionReturnWrapper, FunctionReturnWrapperType,
    FunctionReturnWrapperView, FunctionArgWrapperView, FunctionWrapper, FunctionWrapperView,
};
use vstd::prelude::*;

verus! {

/// One parameter as the consumer-language signature writes it: by value for
/// primitives, a by-value (moved) string for text.
pub open spec fn spec_cpp_arg(a: FunctionArgWrapperView) -> Seq<char> {
    match a.wrapper_type {
        FunctionArgWrapperType::Primitive => a.arg_type + " "@ + a.arg_name,
        FunctionArgWrapperType::String => "std::string&& "@ + a.arg_name,
    }
}

/// One parameter as the extern declaration of the entry point writes it.
pub open spec fn spec_wrapper_arg(a: FunctionArgWrapperView) -> Seq<char> {
    match a.wrapper_type {
        FunctionArgWrapperType::Primitive => a.arg_type + " "@ + a.arg_name,
        FunctionArgWrapperType::String => "char* "@ + a.arg_name,
    }
}

/// A comma-separated consumer-language parameter list.
pub open spec fn spec_cpp_args(args: Seq<FunctionArgWrapperView>) -> Seq<char>
    decreases args.len(),
{
    if args.len() == 0 {
        Seq::<char>::empty()
    } else if args.len() == 1 {
        spec_cpp_arg(args.last())
    } else {
        spec_cpp_args(args.drop_last()) + ", "@ + spec_cpp_arg(args.last())
    }
}

/// A comma-separated extern-declaration parameter list.
pub open spec fn spec_wrapper_args(args: Seq<FunctionArgWrapperView>) -> Seq<char>
    decreases args.len(),
{
    if args.len() == 0 {
        Seq::<char>::empty()
    } else if args.len() == 1 {
        spec_wrapper_arg(args.last())
    } else {
        spec_wrapper_args(args.drop_last()) + ", "@ + spec_wrapper_arg(args.last())
    }
}

fn cpp_arg(a: &FunctionArgWrapper) -> (r: String)
    ensures
        r@ == spec_cpp_arg(a@),
{
    match a.wrapper_type {
        FunctionArgWrapperType::Primitive => {
            let mut r = a.arg_type.clone();
            r.append(" ");
            r.append(a.arg_name.as_str());
            r
        },
        FunctionArgWrapperType::String => {
            let mut r = String::from_str("std::string&& ");
            r.append(a.arg_name.as_str());
            r
        },
    }
}

fn wrapper_arg(a: &FunctionArgWrapper) -> (r: String)
    ensures
        r@ == spec_wrapper_arg(a@),
{
    match a.wrapper_type {
        FunctionArgWrapperType::Primitive => {
            let mut r = a.arg_type.clone();
            r.append(" ");
            r.append(a.arg_name.as_str());
            r
        },
        FunctionArgWrapperType::String => {
            let mut r = String::from_str("char* ");
            r.append(a.arg_name.as_str());
            r
        },
    }
}

/// The three return-side texts every emission needs: the entry point's
/// return type, the consumer-language return type, and the statements that
/// convert the entry point's result.  A text result is wrapped in a scoped
/// adapter whose destructor frees the native handle before the function
/// returns.
pub open spec fn spec_ext_return_type(ret: Option<FunctionReturnWrapperView>) -> Seq<char> {
    match ret {
        Option::Some(rw) => match rw.wrapper_type {
            FunctionReturnWrapperType::Primitive => rw.return_type,
            FunctionReturnWrapperType::String => "void*"@,
        },
        Option::None => "void"@,
    }
}

pub open spec fn spec_cpp_return_type(ret: Option<FunctionReturnWrapperView>) -> Seq<char> {
    match ret {
        Option::Some(rw) => match rw.wrapper_type {
            FunctionReturnWrapperType::Primitive => rw.return_type,
            FunctionReturnWrapperType::String => "std::string"@,
        },
        Option::None => "void"@,
    }
}

pub open spec fn spec_return_cast(ret: Option<FunctionReturnWrapperView>) -> Seq<char> {
    match ret {
        Option::Some(rw) => match rw.wrapper_type {
            FunctionReturnWrapperType::Primitive => "    return result;\n"@,
            FunctionReturnWrapperType::String =>
                "\n    auto rust_str = RustString(result);\n    return rust_str.to_string();\n"@,
        },
        Option::None => Seq::<char>::empty(),
    }
}

fn ext_return_type(ret: &Option<FunctionReturnWrapper>) -> (r: String)
    ensures
        r@ == spec_ext_return_type(ret.deep_view()),
{
    match ret {
        Option::Some(rw) => match rw.wrapper_type {
            FunctionReturnWrapperType::Primitive => rw.return_type.clone(),
            FunctionReturnWrapperType::String => String::from_str("void*"),
        },
        Option::None => String::from_str("void"),
    }
}

fn cpp_return_type(ret: &Option<FunctionReturnWrapper>) -> (r: String)
    ensures
        r@ == spec_cpp_return_type(ret.deep_view()),
{
    match ret {
        Option::Some(rw) => match rw.wrapper_type {
            FunctionReturnWrapperType::Primitive => rw.return_type.clone(),
            FunctionReturnWrapperType::String => String::from_str("std::string"),
        },
        Option::None => String::from_str("void"),
    }
}

fn return_cast(ret: &Option<FunctionReturnWrapper>) -> (r: String)
    ensures
        r@ == spec_return_cast(ret.deep_view()),
{
    match ret {
        Option::Some(rw) => match rw.wrapper_type {
            FunctionReturnWrapperType::Primitive => String::from_str("    return result;\n"),
            FunctionReturnWrapperType::String => String::from_str(
                "\n    auto rust_str = RustString(result);\n    return rust_str.to_string();\n",
            ),
        },
        Option::None => String::new(),
    }
}

/// The consumer-side header of a function: the extern declaration of its
/// entry point and the declaration matching the source signature.
pub open spec fn spec_gen_function_declaration(f: FunctionWrapperView) -> Seq<char> {
    "\n#include \"base.h\"\n\nextern \"C\" {\n    "@ + spec_ext_return_type(f.return_wrapper)
        + " "@ + f.extern_function_name + "("@ + spec_wrapper_args(f.args_wrappers)
        + ");\n}\n\n"@ + spec_cpp_return_type(f.return_wrapper) + " "@ + f.name + "("@
        + spec_cpp_args(f.args_wrappers) + ");\n"@
}

/// Emits the manual-memory backend's header for a function schema.
pub fn gen_function_declaration(f: &FunctionWrapper) -> (r: String)
    ensures
        r@ == spec_gen_function_declaration(f@),
{
    let ghost dv = f.args_wrappers.deep_view();
    let mut cpp_args = String::new();
    let mut wrapper_args = String::new();
    let mut i: usize = 0;
    while i < f.args_wrappers.len()
        invariant
            0 <= i <= f.args_wrappers.len(),
            dv == f.args_wrappers.deep_view(),
            dv.len() == f.args_wrappers.len(),
            cpp_args@ == spec_cpp_args(dv.take(i as int)),
            wrapper_args@ == spec_wrapper_args(dv.take(i as int)),
        decreases f.args_wrappers.len() - i,
    {
        let a = &f.args_wrappers[i];
        proof {
            assert(dv[i as int] == f.args_wrappers@[i as int]@);
            assert(dv.take(i + 1).drop_last() =~= dv.take(i as int));
            assert(dv.take(i + 1).last() == dv[i as int]);
        }
        if i > 0 {
            cpp_args.append(", ");
            wrapper_args.append(", ");
        }
        let c = cpp_arg(a);
        cpp_args.append(c.as_str());
        let w = wrapper_arg(a);
        wrapper_args.append(w.as_str());
        i = i + 1;
    }
    proof {
        assert(dv.take(f.args_wrappers.len() as int) =~= dv);
    }
    let mut r = String::from_str("\n#include \"base.h\"\n\nextern \"C\" {\n    ");
    let ext_ret = ext_return_type(&f.return_wrapper);
    r.append(ext_ret.as_str());
    r.append(" ");
    r.append(f.extern_function_name.as_str());
    r.append("(");
    r.append(wrapper_args.as_str());
    r.append(");\n}\n\n");
    let cpp_ret = cpp_return_type(&f.return_wrapper);
    r.append(cpp_ret.as_str());
    r.append(" ");
    r.append(f.name.as_str());
    r.append("(");
    r.append(cpp_args.as_str());
    r.append(");\n");
    r
}

/// The conversion statement for one argument of the definition's body: a
/// text argument's raw pointer is extracted before the call.
pub open spec fn spec_cpp_arg_cast(a: FunctionArgWrapperView) -> Seq<char> {
    match a.wrapper_type {
        FunctionArgWrapperType::Primitive => Seq::<char>::empty(),
        FunctionArgWrapperType::String => "    auto casted_"@ + a.arg_name + " = "@ + a.arg_name
            + ".data();\n"@,
    }
}

/// One argument of the entry-point call in the definition's body.
pub open spec fn spec_cpp_call_name(a: FunctionArgWrapperView) -> Seq<char> {
    match a.wrapper_type {
        FunctionArgWrapperType::Primitive => a.arg_name,
        FunctionArgWrapperType::String => "casted_"@ + a.arg_name,
    }
}

pub open spec fn spec_cpp_arg_casts(args: Seq<FunctionArgWrapperView>) -> Seq<char>
    decreases args.len(),
{
    if args.len() == 0 {
        Seq::<char>::empty()
    } else {
        spec_cpp_arg_casts(args.drop_last()) + spec_cpp_arg_cast(args.last())
    }
}

pub open spec fn spec_cpp_call_names(args: Seq<FunctionArgWrapperView>) -> Seq<char>
    decreases args.len(),
{
    if args.len() == 0 {
        Seq::<char>::empty()
    } else if args.len() == 1 {
        spec_cpp_call_name(args.last())
    } else {
        spec_cpp_call_names(args.drop_last()) + ", "@ + spec_cpp_call_name(args.last())
    }
}

fn cpp_arg_cast(a: &FunctionArgWrapper) -> (r: String)
    ensures
        r@ == spec_cpp_arg_cast(a@),
{
    match a.wrapper_type {
        FunctionArgWrapperType::Primitive => String::new(),
        FunctionArgWrapperType::String => {
            let mut r = String::from_str("    auto casted_");
            r.append(a.arg_name.as_str());
            r.append(" = ");
            r.append(a.arg_name.as_str());
            r.append(".data();\n");
            r
        },
    }
}

fn cpp_call_name(a: &FunctionArgWrapper) -> (r: String)
    ensures
        r@ == spec_cpp_call_name(a@),
{
    match a.wrapper_type {
        FunctionArgWrapperType::Primitive => a.arg_name.clone(),
        FunctionArgWrapperType::String => {
            let mut r = String::from_str("casted_");
            r.append(a.arg_name.as_str());
            r
        },
    }
}

/// The conversion block of the definition's body: one extraction statement
/// per text argument, or the bare separator line when there is none.
pub open spec fn spec_cpp_casts_block(args: Seq<FunctionArgWrapperView>) -> Seq<char> {
    if spec_cpp_arg_casts(args).len() == 0 {
        "\n"@
    } else {
        spec_cpp_arg_casts(args)
    }
}

/// The call and result conversion of the definition's body: a present
/// return is captured and converted; an absent return emits nothing beyond
/// the bare call.
pub open spec fn spec_cpp_call_block(f: FunctionWrapperView) -> Seq<char> {
    match f.return_wrapper {
        Option::Some(_) => "    "@ + spec_ext_return_type(f.return_wrapper) + " result = "@
            + f.extern_function_name + "("@ + spec_cpp_call_names(f.args_wrappers) + ");\n"@
            + spec_return_cast(f.return_wrapper) + "}\n"@,
        Option::None => "    "@ + f.extern_function_name + "("@ + spec_cpp_call_names(
            f.args_wrappers,
        ) + ");\n}\n"@,
    }
}

/// The consumer-side definition of a function: extracts raw pointers from
/// text arguments, calls the entry point, and converts the result.
pub open spec fn spec_gen_function_definition(f: FunctionWrapperView) -> Seq<char> {
    "\n#include \""@ + f.name + ".h\"\n\n"@ + spec_cpp_return_type(f.return_wrapper) + " "@
        + f.name + "("@ + spec_cpp_args(f.args_wrappers) + ") {\n"@ + spec_cpp_casts_block(
        f.args_wrappers,
    ) + spec_cpp_call_block(f)
}

/// Emits the manual-memory backend's source for a function schema.
pub fn gen_function_definition(f: &FunctionWrapper) -> (r: String)
    ensures
        r@ == spec_gen_function_definition(f@),
{
    let ghost dv = f.args_wrappers.deep_view();
    let mut sigs = String::new();
    let mut casts = String::new();
    let mut names = String::new();
    let mut i: usize = 0;
    while i < f.args_wrappers.len()
        invariant
            0 <= i <= f.args_wrappers.len(),
            dv == f.args_wrappers.deep_view(),
            dv.len() == f.args_wrappers.len(),
            sigs@ == spec_cpp_args(dv.take(i as int)),
            casts@ == spec_cpp_arg_casts(dv.take(i as int)),
            names@ == spec_cpp_call_names(dv.take(i as int)),
        decreases f.args_wrappers.len() - i,
    {
        let a = &f.args_wrappers[i];
        proof {
            assert(dv[i as int] == f.args_wrappers@[i as int]@);
            assert(dv.take(i + 1).drop_last() =~= dv.take(i as int));
            assert(dv.take(i + 1).last() == dv[i as int]);
        }
        if i > 0 {
            sigs.append(", ");
            names.append(", ");
        }
        let c = cpp_arg(a);
        sigs.append(c.as_str());
        let cast = cpp_arg_cast(a);
        casts.append(cast.as_str());
        let n = cpp_call_name(a);
        names.append(n.as_str());
        i = i + 1;
    }
    proof {
        assert(dv.take(f.args_wrappers.len() as int) =~= dv);
    }
    let mut r = String::from_str("\n#include \"");
    r.append(f.name.as_str());
    r.append(".h\"\n\n");
    let cpp_ret = cpp_return_type(&f.return_wrapper);
    r.append(cpp_ret.as_str());
    r.append(" ");
    r.append(f.name.as_str());
    r.append("(");
    r.append(sigs.as_str());
    r.append(") {\n");
    if casts.as_str().is_empty() {
        r.append("\n");
    } else {
        r.append(casts.as_str());
    }
    match &f.return_wrapper {
        Option::Some(_) => {
            r.append("    ");
            let ext_ret = ext_return_type(&f.return_wrapper);
            r.append(ext_ret.as_str());
            r.append(" result = ");
            r.append(f.extern_function_name.as_str());
            r.append("(");
            r.append(names.as_str());
            r.append(");\n");
            let cast = return_cast(&f.return_wrapper);
            r.append(cast.as_str());
            r.append("}\n");
        },
        Option::None => {
            r.append("    ");
            r.append(f.extern_function_name.as_str());
            r.append("(");
            r.append(names.as_str());
            r.append(");\n}\n");
        },
    }
    proof {
        assert(r@ =~= spec_gen_function_definition(f@));
    }
    r
}

} // verus!
