//! Builds a function schema from a function declaration.
//!
//! Parameters must be simple named identifiers of a primitive or text type:
//! receiver-style and destructured parameters are unsupported shapes, and
//! opaque types are rejected here (unlike in struct fields).  The return
//! type, when present, is restricted the same way.
use crate::decl::{FfiError, FnDecl, FnDeclView, ParamDecl, ParamDeclView, TypeExpr, TypeExprView};
use crate::naming::{fn_symbol, spec_fn_symbol};
use crate::session::{spec_claim_ok, Session};
use crate::translator::{classify, is_primitive_name, spec_classify, spec_is_primitive_name};
use crate::wrapper::function_wrapper::{
    FunctionArgWrapper, FunctionArgWrapperType, FunctionArgWrapperView, FunctionReturnWrapper,
    FunctionReturnWrapperType, FunctionReturnWrapperView, FunctionWrapper, FunctionWrapperView,
};
use crate::wrapper::struct_wrapper::FieldWrapperType;
use crate::wrapper::{ParsedWrapper, ParsedWrapperView, Wrapper, WrapperView};
use vstd::prelude::*;

verus! {

/// The failure a single parameter causes, if any.
pub open spec fn spec_param_error(p: ParamDeclView) -> Option<FfiError> {
    match p {
        ParamDeclView::Receiver => Option::Some(FfiError::UnsupportedShape),
        ParamDeclView::Destructured => Option::Some(FfiError::UnsupportedShape),
        ParamDeclView::Named { name: _, ty } => match ty {
            TypeExprView::Other => Option::Some(FfiError::UnsupportedType),
            TypeExprView::Name(n) => {
                if spec_classify(n) == FieldWrapperType::Custom {
                    Option::Some(FfiError::UnsupportedType)
                } else {
                    Option::None
                }
            },
        },
    }
}

/// The first failing parameter's error, in declaration order.
pub open spec fn spec_first_param_error(params: Seq<ParamDeclView>) -> Option<FfiError>
    decreases params.len(),
{
    if params.len() == 0 {
        Option::None
    } else {
        match spec_param_error(params.first()) {
            Option::Some(e) => Option::Some(e),
            Option::None => spec_first_param_error(params.drop_first()),
        }
    }
}

proof fn lemma_first_param_error_skip(params: Seq<ParamDeclView>, i: int)
    requires
        0 <= i <= params.len(),
        forall|k: int| 0 <= k < i ==> spec_param_error(params[k]) is None,
    ensures
        spec_first_param_error(params) == spec_first_param_error(params.skip(i)),
    decreases i,
{
    if i > 0 {
        assert(spec_param_error(params.first()) is None);
        assert forall|k: int|
            0 <= k < i - 1 implies spec_param_error(params.drop_first()[k]) is None by {
            assert(params.drop_first()[k] == params[k + 1]);
        }
        lemma_first_param_error_skip(params.drop_first(), i - 1);
        assert(params.drop_first().skip(i - 1) =~= params.skip(i));
    } else {
        assert(params.skip(0) =~= params);
    }
}

/// The failure the return type causes, if any.
pub open spec fn spec_return_error(ret: Option<TypeExprView>) -> Option<FfiError> {
    match ret {
        Option::None => Option::None,
        Option::Some(ty) => match ty {
            TypeExprView::Other => Option::Some(FfiError::UnsupportedType),
            TypeExprView::Name(n) => {
                if spec_classify(n) == FieldWrapperType::Custom {
                    Option::Some(FfiError::UnsupportedType)
                } else {
                    Option::None
                }
            },
        },
    }
}

/// The schema parameter a declaration parameter resolves to.
pub open spec fn spec_arg_wrapper(p: ParamDeclView) -> FunctionArgWrapperView {
    match p {
        ParamDeclView::Named { name, ty } => match ty {
            TypeExprView::Name(n) => FunctionArgWrapperView {
                wrapper_type: if spec_is_primitive_name(n) {
                    FunctionArgWrapperType::Primitive
                } else {
                    FunctionArgWrapperType::String
                },
                arg_name: name,
                arg_type: n,
            },
            TypeExprView::Other => FunctionArgWrapperView {
                wrapper_type: FunctionArgWrapperType::Primitive,
                arg_name: name,
                arg_type: Seq::<char>::empty(),
            },
        },
        _ => FunctionArgWrapperView {
            wrapper_type: FunctionArgWrapperType::Primitive,
            arg_name: Seq::<char>::empty(),
            arg_type: Seq::<char>::empty(),
        },
    }
}

/// All schema parameters, in declaration order.
pub open spec fn spec_args_wrappers(params: Seq<ParamDeclView>) -> Seq<FunctionArgWrapperView> {
    Seq::new(params.len(), |i: int| spec_arg_wrapper(params[i]))
}

/// The schema return a declaration return resolves to.
pub open spec fn spec_return_wrapper(ret: Option<TypeExprView>) -> Option<
    FunctionReturnWrapperView,
> {
    match ret {
        Option::None => Option::None,
        Option::Some(ty) => match ty {
            TypeExprView::Name(n) => Option::Some(
                FunctionReturnWrapperView {
                    wrapper_type: if spec_is_primitive_name(n) {
                        FunctionReturnWrapperType::Primitive
                    } else {
                        FunctionReturnWrapperType::String
                    },
                    return_type: n,
                },
            ),
            TypeExprView::Other => Option::None,
        },
    }
}

/// The schema a function declaration builds to.
pub open spec fn spec_function_wrapper(d: FnDeclView) -> FunctionWrapperView {
    FunctionWrapperView {
        name: d.name,
        extern_function_name: spec_fn_symbol(d.name),
        args_wrappers: spec_args_wrappers(d.params),
        return_wrapper: spec_return_wrapper(d.ret),
    }
}

/// The whole wrapper a function declaration builds to.
pub open spec fn spec_translate_function(d: FnDeclView) -> WrapperView {
    WrapperView {
        original_definition: d.original_definition,
        parsed: ParsedWrapperView::Function(spec_function_wrapper(d)),
    }
}

/// Whether building succeeds: every parameter and the return are valid, and
/// the single entry-point name is free.
pub open spec fn spec_function_ok(d: FnDeclView, table: Seq<Seq<char>>) -> bool {
    spec_first_param_error(d.params) is None && spec_return_error(d.ret) is None
        && spec_claim_ok(table, seq![spec_fn_symbol(d.name)])
}

/// The error a failing build reports: the first failing parameter's, else
/// the return's, else the collision.
pub open spec fn spec_function_error(d: FnDeclView) -> FfiError {
    match spec_first_param_error(d.params) {
        Option::Some(e) => e,
        Option::None => match spec_return_error(d.ret) {
            Option::Some(e) => e,
            Option::None => FfiError::NameCollision,
        },
    }
}

fn map_arg(p: &ParamDecl) -> (r: Result<FunctionArgWrapper, FfiError>)
    ensures
        r is Ok <==> spec_param_error(p@) is None,
        match r {
            Result::Ok(a) => a@ == spec_arg_wrapper(p@),
            Result::Err(e) => Option::Some(e) == spec_param_error(p@),
        },
{
    match p {
        ParamDecl::Receiver => Result::Err(FfiError::UnsupportedShape),
        ParamDecl::Destructured => Result::Err(FfiError::UnsupportedShape),
        ParamDecl::Named { name, ty } => match ty {
            TypeExpr::Other => Result::Err(FfiError::UnsupportedType),
            TypeExpr::Name(n) => {
                if is_primitive_name(n.as_str()) {
                    Result::Ok(
                        FunctionArgWrapper {
                            wrapper_type: FunctionArgWrapperType::Primitive,
                            arg_name: name.clone(),
                            arg_type: n.clone(),
                        },
                    )
                } else if crate::naming::str_eq(n.as_str(), "String") {
                    Result::Ok(
                        FunctionArgWrapper {
                            wrapper_type: FunctionArgWrapperType::String,
                            arg_name: name.clone(),
                            arg_type: n.clone(),
                        },
                    )
                } else {
                    Result::Err(FfiError::UnsupportedType)
                }
            },
        },
    }
}

fn return_wrapper(ret: &Option<TypeExpr>) -> (r: Result<Option<FunctionReturnWrapper>, FfiError>)
    ensures
        r is Ok <==> spec_return_error(ret.deep_view()) is None,
        match r {
            Result::Ok(rw) => rw.deep_view() == spec_return_wrapper(ret.deep_view()),
            Result::Err(e) => Option::Some(e) == spec_return_error(ret.deep_view()),
        },
{
    match ret {
        Option::None => Result::Ok(Option::None),
        Option::Some(ty) => match ty {
            TypeExpr::Other => Result::Err(FfiError::UnsupportedType),
            TypeExpr::Name(n) => {
                if is_primitive_name(n.as_str()) {
                    Result::Ok(
                        Option::Some(
                            FunctionReturnWrapper {
                                wrapper_type: FunctionReturnWrapperType::Primitive,
                                return_type: n.clone(),
                            },
                        ),
                    )
                } else if crate::naming::str_eq(n.as_str(), "String") {
                    Result::Ok(
                        Option::Some(
                            FunctionReturnWrapper {
                                wrapper_type: FunctionReturnWrapperType::String,
                                return_type: n.clone(),
                            },
                        ),
                    )
                } else {
                    Result::Err(FfiError::UnsupportedType)
                }
            },
        },
    }
}

/// Validates a function declaration into its schema, claiming its entry
/// point's name; fails closed with the session unchanged.
pub fn translate_function(d: &FnDecl, session: &mut Session) -> (r: Result<Wrapper, FfiError>)
    requires
        old(session).wf(),
    ensures
        final(session).wf(),
        final(session).rust_base_done() == old(session).rust_base_done(),
        final(session).swift_bootstrap_done() == old(session).swift_bootstrap_done(),
        final(session).appended() == old(session).appended(),
        final(session).package() == old(session).package(),
        final(session).declared() == old(session).declared(),
        r is Ok <==> spec_function_ok(d@, old(session).symbols()),
        match r {
            Result::Ok(w) => w@ == spec_translate_function(d@) && final(session).symbols() == old(session).symbols() + seq![spec_fn_symbol(d@.name)],
            Result::Err(e) => e == spec_function_error(d@) && final(session).symbols() == old(session).symbols(),
        },
{
    let ghost dv = d@;
    let mut args: Vec<FunctionArgWrapper> = Vec::new();
    let mut i: usize = 0;
    while i < d.params.len()
        invariant
            0 <= i <= d.params.len(),
            dv == d@,
            dv.params.len() == d.params.len(),
            *session == *old(session),
            old(session).wf(),
            forall|k: int| 0 <= k < i ==> spec_param_error(dv.params[k]) is None,
            args.deep_view().len() == i,
            forall|k: int|
                0 <= k < i ==> args.deep_view()[k] == spec_arg_wrapper(dv.params[k]),
        decreases d.params.len() - i,
    {
        proof {
            assert(dv.params[i as int] == d.params@[i as int]@);
        }
        match map_arg(&d.params[i]) {
            Result::Ok(a) => {
                let ghost pre = args.deep_view();
                args.push(a);
                proof {
                    assert(args.deep_view() =~= pre.push(spec_arg_wrapper(dv.params[i as int])));
                }
            },
            Result::Err(e) => {
                proof {
                    lemma_first_param_error_skip(dv.params, i as int);
                    assert(dv.params.skip(i as int).first() == dv.params[i as int]);
                    assert(spec_first_param_error(dv.params) == Option::Some(e));
                }
                return Result::Err(e);
            },
        }
        i = i + 1;
    }
    proof {
        lemma_first_param_error_skip(dv.params, dv.params.len() as int);
        assert(dv.params.skip(dv.params.len() as int) =~= Seq::<ParamDeclView>::empty());
        assert(spec_first_param_error(dv.params) is None);
        assert(args.deep_view() =~= spec_args_wrappers(dv.params));
    }
    let ret = match return_wrapper(&d.ret) {
        Result::Ok(rw) => rw,
        Result::Err(e) => {
            return Result::Err(e);
        },
    };
    let fw = FunctionWrapper {
        name: d.name.clone(),
        extern_function_name: fn_symbol(d.name.as_str()),
        args_wrappers: args,
        return_wrapper: ret,
    };
    proof {
        assert(fw@ == spec_function_wrapper(dv));
    }
    let mut syms: Vec<String> = Vec::new();
    syms.push(fw.extern_function_name.clone());
    proof {
        assert(syms.deep_view() =~= seq![spec_fn_symbol(dv.name)]);
    }
    if session.claim_symbols(&syms) {
        Result::Ok(
            Wrapper {
                original_definition: d.original_definition.clone(),
                parsed: ParsedWrapper::Function(fw),
            },
        )
    } else {
        Result::Err(FfiError::NameCollision)
    }
}

} // verus!
