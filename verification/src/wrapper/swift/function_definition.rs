//! The reference-counted backend's callable text for one function schema.
//!
//! A text argument's bytes are handed over inside the scope of the buffer
//! they live in: the entry-point call is nested in one
//! `withUnsafeBufferPointer` closure per text argument, so no buffer
//! pointer outlives its buffer.
use crate::wrapper::function_wrapper::{
    FunctionArgWrapper, FunctionArgWrapperType, FunctionReturnWrapper, FunctionReturnWrapperType,
    FunctionReturnWrapperView, FunctionArgWrapperView, FunctionWrapper, FunctionWrapperView,
};
use vstd::prelude::*;

verus! {

/// One parameter of the entry point's C declaration.
pub open spec fn spec_c_arg(a: FunctionArgWrapperView) -> Seq<char> {
    match a.wrapper_type {
        FunctionArgWrapperType::Primitive => a.arg_type + " "@ + a.arg_name,
        FunctionArgWrapperType::String => "void* "@ + a.arg_name,
    }
}

pub open spec fn spec_c_args(args: Seq<FunctionArgWrapperView>) -> Seq<char>
    decreases args.len(),
{
    if args.len() == 0 {
        Seq::<char>::empty()
    } else if args.len() == 1 {
        spec_c_arg(args.last())
    } else {
        spec_c_args(args.drop_last()) + ", "@ + spec_c_arg(args.last())
    }
}

/// The entry point's C return type: by value for primitives, a raw handle
/// for text, nothing for an absent return.
pub open spec fn spec_c_return_type(ret: Option<FunctionReturnWrapperView>) -> Seq<char> {
    match ret {
        Option::Some(rw) => match rw.wrapper_type {
            FunctionReturnWrapperType::Primitive => rw.return_type,
            FunctionReturnWrapperType::String => "void*"@,
        },
        Option::None => "void"@,
    }
}

/// The block this function contributes to the shared C header.
pub open spec fn spec_gen_function_header(f: FunctionWrapperView) -> Seq<char> {
    spec_c_return_type(f.return_wrapper) + " "@ + f.extern_function_name + "("@ + spec_c_args(
        f.args_wrappers,
    ) + ");"@
}

fn c_arg(a: &FunctionArgWrapper) -> (r: String)
    ensures
        r@ == spec_c_arg(a@),
{
    match a.wrapper_type {
        FunctionArgWrapperType::Primitive => {
            let mut r = a.arg_type.clone();
            r.append(" ");
            r.append(a.arg_name.as_str());
            r
        },
        FunctionArgWrapperType::String => {
            let mut r = String::from_str("void* ");
            r.append(a.arg_name.as_str());
            r
        },
    }
}

fn c_return_type(ret: &Option<FunctionReturnWrapper>) -> (r: String)
    ensures
        r@ == spec_c_return_type(ret.deep_view()),
{
    match ret {
        Option::Some(rw) => match rw.wrapper_type {
            FunctionReturnWrapperType::Primitive => rw.return_type.clone(),
            FunctionReturnWrapperType::String => String::from_str("void*"),
        },
        Option::None => String::from_str("void"),
    }
}

/// Emits this function's block of the shared C header.
pub fn gen_function_header(f: &FunctionWrapper) -> (r: String)
    ensures
        r@ == spec_gen_function_header(f@),
{
    let ghost dv = f.args_wrappers.deep_view();
    let mut r = c_return_type(&f.return_wrapper);
    r.append(" ");
    r.append(f.extern_function_name.as_str());
    r.append("(");
    let mut args = String::new();
    let mut i: usize = 0;
    while i < f.args_wrappers.len()
        invariant
            0 <= i <= f.args_wrappers.len(),
            dv == f.args_wrappers.deep_view(),
            dv.len() == f.args_wrappers.len(),
            args@ == spec_c_args(dv.take(i as int)),
        decreases f.args_wrappers.len() - i,
    {
        proof {
            assert(dv[i as int] == f.args_wrappers@[i as int]@);
            assert(dv.take(i + 1).drop_last() =~= dv.take(i as int));
            assert(dv.take(i + 1).last() == dv[i as int]);
        }
        if i > 0 {
            args.append(", ");
        }
        let c = c_arg(&f.args_wrappers[i]);
        args.append(c.as_str());
        i = i + 1;
    }
    proof {
        assert(dv.take(f.args_wrappers.len() as int) =~= dv);
    }
    r.append(args.as_str());
    r.append(");");
    r
}

/// One parameter of the consumer-language signature.
pub open spec fn spec_swift_arg(a: FunctionArgWrapperView) -> Seq<char> {
    match a.wrapper_type {
        FunctionArgWrapperType::Primitive => "_ "@ + a.arg_name + ": "@ + a.arg_type,
        FunctionArgWrapperType::String => "_ "@ + a.arg_name + ": String"@,
    }
}

pub open spec fn spec_swift_args(args: Seq<FunctionArgWrapperView>) -> Seq<char>
    decreases args.len(),
{
    if args.len() == 0 {
        Seq::<char>::empty()
    } else if args.len() == 1 {
        spec_swift_arg(args.last())
    } else {
        spec_swift_args(args.drop_last()) + ", "@ + spec_swift_arg(args.last())
    }
}

/// One argument of the entry-point call: a primitive passes through; a text
/// argument passes the pointer of the buffer whose closure the call sits
/// in.
pub open spec fn spec_swift_call_name(a: FunctionArgWrapperView) -> Seq<char> {
    match a.wrapper_type {
        FunctionArgWrapperType::Primitive => a.arg_name,
        FunctionArgWrapperType::String => "UnsafeMutableRawPointer(mutating: "@ + a.arg_name
            + "_ptr.baseAddress!)"@,
    }
}

pub open spec fn spec_swift_call_names(args: Seq<FunctionArgWrapperView>) -> Seq<char>
    decreases args.len(),
{
    if args.len() == 0 {
        Seq::<char>::empty()
    } else if args.len() == 1 {
        spec_swift_call_name(args.last())
    } else {
        spec_swift_call_names(args.drop_last()) + ", "@ + spec_swift_call_name(args.last())
    }
}

/// The bare entry-point call expression.
pub open spec fn spec_call_core(f: FunctionWrapperView) -> Seq<char> {
    f.extern_function_name + "("@ + spec_swift_call_names(f.args_wrappers) + ")"@
}

/// The call expression wrapped in one buffer-scope closure per text
/// argument, leftmost outermost, so every buffer pointer stays inside the
/// scope of its buffer.
pub open spec fn spec_wrapped_call(args: Seq<FunctionArgWrapperView>, core: Seq<char>) -> Seq<
    char,
>
    decreases args.len(),
{
    if args.len() == 0 {
        core
    } else {
        match args.first().wrapper_type {
            FunctionArgWrapperType::Primitive => spec_wrapped_call(args.drop_first(), core),
            FunctionArgWrapperType::String => args.first().arg_name
                + ".utf8CString.withUnsafeBufferPointer({ "@ + args.first().arg_name + "_ptr in "@
                + spec_wrapped_call(args.drop_first(), core) + " })"@,
        }
    }
}

fn wrapped_call(args: &Vec<FunctionArgWrapper>, core: &String) -> (r: String)
    ensures
        r@ == spec_wrapped_call(args.deep_view(), core@),
{
    let ghost dv = args.deep_view();
    let mut call = core.clone();
    let mut i: usize = args.len();
    proof {
        assert(dv.skip(dv.len() as int) =~= Seq::<FunctionArgWrapperView>::empty());
    }
    while i > 0
        invariant
            0 <= i <= args.len(),
            dv == args.deep_view(),
            dv.len() == args.len(),
            call@ == spec_wrapped_call(dv.skip(i as int), core@),
        decreases i,
    {
        i = i - 1;
        let a = &args[i];
        proof {
            assert(dv[i as int] == args@[i as int]@);
            assert(dv.skip(i as int).first() == dv[i as int]);
            assert(dv.skip(i as int).drop_first() =~= dv.skip(i + 1));
        }
        match a.wrapper_type {
            FunctionArgWrapperType::Primitive => {},
            FunctionArgWrapperType::String => {
                let mut t = a.arg_name.clone();
                t.append(".utf8CString.withUnsafeBufferPointer({ ");
                t.append(a.arg_name.as_str());
                t.append("_ptr in ");
                t.append(call.as_str());
                t.append(" })");
                call = t;
            },
        }
    }
    proof {
        assert(dv.skip(0) =~= dv);
    }
    call
}

/// The signature tail and body of the callable: a primitive result is
/// returned directly; a text result is wrapped in the owned text adapter,
/// copied out, and released when the adapter's lifetime ends.
pub open spec fn spec_swift_fn_tail(f: FunctionWrapperView) -> Seq<char> {
    match f.return_wrapper {
        Option::Some(rw) => match rw.wrapper_type {
            FunctionReturnWrapperType::Primitive => ") -> "@ + rw.return_type
                + " {\n\n    return "@ + spec_wrapped_call(f.args_wrappers, spec_call_core(f))
                + "\n}"@,
            FunctionReturnWrapperType::String => ") -> String {\n\n    let result = "@
                + spec_wrapped_call(f.args_wrappers, spec_call_core(f))
                + "\n    let casted_result = RustString(result!).to_string()\n    return casted_result\n}"@,
        },
        Option::None => ") {\n\n    "@ + spec_wrapped_call(f.args_wrappers, spec_call_core(f))
            + "\n}"@,
    }
}

/// The whole consumer-language callable for a function schema.
pub open spec fn spec_gen_function_definition(f: FunctionWrapperView) -> Seq<char> {
    "@_exported import CFfiModule\n\npublic func "@ + f.name + "("@ + spec_swift_args(
        f.args_wrappers,
    ) + spec_swift_fn_tail(f)
}

/// Emits the reference-counted backend's source for a function schema.
pub fn gen_function_definition(f: &FunctionWrapper) -> (r: String)
    ensures
        r@ == spec_gen_function_definition(f@),
{
    let ghost dv = f.args_wrappers.deep_view();
    let mut sigs = String::new();
    let mut names = String::new();
    let mut i: usize = 0;
    while i < f.args_wrappers.len()
        invariant
            0 <= i <= f.args_wrappers.len(),
            dv == f.args_wrappers.deep_view(),
            dv.len() == f.args_wrappers.len(),
            sigs@ == spec_swift_args(dv.take(i as int)),
            names@ == spec_swift_call_names(dv.take(i as int)),
        decreases f.args_wrappers.len() - i,
    {
        let a = &f.args_wrappers[i];
        proof {
            assert(dv[i as int] == f.args_wrappers@[i as int]@);
            assert(dv.take(i + 1).drop_last() =~= dv.take(i as int));
            assert(dv.take(i + 1).last() == dv[i as int]);
        }
        if i > 0 {
            sigs.append(", ");
            names.append(", ");
        }
        let sig = match a.wrapper_type {
            FunctionArgWrapperType::Primitive => {
                let mut t = String::from_str("_ ");
                t.append(a.arg_name.as_str());
                t.append(": ");
                t.append(a.arg_type.as_str());
                t
            },
            FunctionArgWrapperType::String => {
                let mut t = String::from_str("_ ");
                t.append(a.arg_name.as_str());
                t.append(": String");
                t
            },
        };
        sigs.append(sig.as_str());
        let n = match a.wrapper_type {
            FunctionArgWrapperType::Primitive => a.arg_name.clone(),
            FunctionArgWrapperType::String => {
                let mut t = String::from_str("UnsafeMutableRawPointer(mutating: ");
                t.append(a.arg_name.as_str());
                t.append("_ptr.baseAddress!)");
                t
            },
        };
        names.append(n.as_str());
        i = i + 1;
    }
    proof {
        assert(dv.take(f.args_wrappers.len() as int) =~= dv);
    }
    let mut core = f.extern_function_name.clone();
    core.append("(");
    core.append(names.as_str());
    core.append(")");
    proof {
        assert(core@ == spec_call_core(f@));
    }
    let call = wrapped_call(&f.args_wrappers, &core);
    let mut r = String::from_str("@_exported import CFfiModule\n\npublic func ");
    r.append(f.name.as_str());
    r.append("(");
    r.append(sigs.as_str());
    match &f.return_wrapper {
        Option::Some(rw) => match rw.wrapper_type {
            FunctionReturnWrapperType::Primitive => {
                r.append(") -> ");
                r.append(rw.return_type.as_str());
                r.append(" {\n\n    return ");
                r.append(call.as_str());
                r.append("\n}");
            },
            FunctionReturnWrapperType::String => {
                r.append(") -> String {\n\n    let result = ");
                r.append(call.as_str());
                r.append(
                    "\n    let casted_result = RustString(result!).to_string()\n    return casted_result\n}",
                );
            },
        },
        Option::None => {
            r.append(") {\n\n    ");
            r.append(call.as_str());
            r.append("\n}");
        },
    }
    proof {
        assert(r@ =~= spec_gen_function_definition(f@));
    }
    r
}

} // verus!
