//! The invokables that the methods of an implementation block give.

use vstd::prelude::*;
use crate::descriptor::{Invokable, InvokableView, Parameter, ParameterView};
use crate::error::{type_error, ErrorKind, ExtractError, TypeUse};
use crate::fold::{
    lemma_try_fold_all, lemma_try_fold_failed, lemma_try_fold_next, map_step, try_fold, try_map,
};
use crate::resolve::{extract_type_ident, resolve_type, ParameterType, ParameterTypeView};
use crate::syntax::{
    FnArg, FnArgView, ImplMember, ImplMemberView, Method, MethodView, Output, OutputView, Pattern,
    PatternView, TypedArg, TypedArgView,
};
use crate::views::{lemma_view_all_push, view_all, view_all_ok, view_ok, view_opt};

verus! {

/// The parameter that a typed argument gives. The argument must be bound by
/// a plain name, and its type must resolve; a failure points at the
/// argument.
pub open spec fn parameter_of(arg: TypedArgView) -> Result<ParameterView, ExtractError> {
    match arg.pattern {
        PatternView::Other => Err(
            ExtractError { kind: ErrorKind::InvalidParameterPattern, position: arg.position },
        ),
        PatternView::Ident(name) => match resolve_type(arg.ty) {
            Ok(type_ident) => Ok(ParameterView { ident: name, type_ident }),
            Err(cause) => Err(type_error(cause, TypeUse::Argument, arg.position)),
        },
    }
}

/// The parameters so far, with the one that `arg` gives. A receiver gives
/// none.
pub open spec fn with_parameter(parameters: Seq<ParameterView>, arg: FnArgView) -> Result<
    Seq<ParameterView>,
    ExtractError,
> {
    match arg {
        FnArgView::Receiver => Ok(parameters),
        FnArgView::Typed(typed) => match parameter_of(typed) {
            Ok(parameter) => Ok(parameters.push(parameter)),
            Err(e) => Err(e),
        },
    }
}

/// The parameters that the arguments of a method give: one for each typed
/// argument, in the order of declaration, or the failure of the first
/// argument that gives none.
pub open spec fn parameters_of(inputs: Seq<FnArgView>) -> Result<Seq<ParameterView>, ExtractError> {
    try_fold(inputs, Seq::empty(), parameter_step())
}

/// [`with_parameter`] as a step of a fold.
pub open spec fn parameter_step() -> spec_fn(Seq<ParameterView>, FnArgView) -> Result<
    Seq<ParameterView>,
    ExtractError,
> {
    |parameters: Seq<ParameterView>, arg: FnArgView| with_parameter(parameters, arg)
}

/// The return type of an invokable: none where the method has no arrow,
/// else what the written type resolves to; a failure points at the return
/// type.
pub open spec fn return_type_of(output: Option<OutputView>) -> Result<
    Option<ParameterTypeView>,
    ExtractError,
> {
    match output {
        None => Ok(None),
        Some(written) => match resolve_type(written.ty) {
            Ok(type_ident) => Ok(Some(type_ident)),
            Err(cause) => Err(type_error(cause, TypeUse::ReturnType, written.position)),
        },
    }
}

/// The invokable that a method gives: its name, its parameters, its return
/// type and its tree node. The arguments are looked at before the return
/// type.
pub open spec fn invokable_of(method: MethodView) -> Result<InvokableView, ExtractError> {
    match parameters_of(method.inputs) {
        Err(e) => Err(e),
        Ok(parameters) => match return_type_of(method.output) {
            Err(e) => Err(e),
            Ok(return_type) => Ok(
                InvokableView {
                    ident: method.ident,
                    parameters,
                    return_type,
                    original_method: method.handle,
                },
            ),
        },
    }
}

/// The invokable that a member of an inherent implementation block gives.
/// A member that is no method gives none, and the failure points at the
/// member.
pub open spec fn member_invokable(member: ImplMemberView) -> Result<InvokableView, ExtractError> {
    match member {
        ImplMemberView::Other(position) => Err(
            ExtractError { kind: ErrorKind::UnsupportedMember, position },
        ),
        ImplMemberView::Method(method) => invokable_of(method),
    }
}

/// [`member_invokable`] as a function value.
pub open spec fn member_invokable_fn() -> spec_fn(ImplMemberView) -> Result<
    InvokableView,
    ExtractError,
> {
    |member: ImplMemberView| member_invokable(member)
}

/// The invokables that the members of an inherent implementation block
/// give: one for each member, in order, or the failure of the first member
/// that gives none.
pub open spec fn invokables_of(members: Seq<ImplMemberView>) -> Result<
    Seq<InvokableView>,
    ExtractError,
> {
    try_map(members, member_invokable_fn())
}

fn extract_parameter(arg: &TypedArg) -> (r: Result<Parameter, ExtractError>)
    ensures
        view_ok(r) == parameter_of(arg@),
{
    match &arg.pattern {
        Pattern::Other => Err(
            ExtractError { kind: ErrorKind::InvalidParameterPattern, position: arg.position },
        ),
        Pattern::Ident(name) => match extract_type_ident(&arg.ty) {
            Ok(type_ident) => Ok(Parameter { ident: name.clone(), type_ident }),
            Err(cause) => Err(ExtractError::for_type(cause, TypeUse::Argument, arg.position)),
        },
    }
}

fn extract_parameters(inputs: &Vec<FnArg>) -> (r: Result<Vec<Parameter>, ExtractError>)
    ensures
        view_all_ok(r) == parameters_of(view_all(inputs@)),
{
    let ghost all = view_all(inputs@);
    let mut parameters: Vec<Parameter> = Vec::new();
    let mut i: usize = 0;
    assert(view_all(parameters@) =~= Seq::empty());
    while i < inputs.len()
        invariant
            i <= inputs.len(),
            all == view_all(inputs@),
            try_fold(all.take(i as int), Seq::empty(), parameter_step()) == Ok::<
                Seq<ParameterView>,
                ExtractError,
            >(view_all(parameters@)),
        decreases inputs.len() - i,
    {
        proof {
            lemma_try_fold_next(all, Seq::empty(), parameter_step(), i as int);
        }
        match &inputs[i] {
            FnArg::Receiver => {},
            FnArg::Typed(typed) => match extract_parameter(typed) {
                Ok(parameter) => {
                    proof {
                        lemma_view_all_push(parameters@, parameter);
                    }
                    parameters.push(parameter);
                },
                Err(e) => {
                    proof {
                        lemma_try_fold_failed(all, Seq::empty(), parameter_step(), i + 1);
                    }
                    return Err(e);
                },
            },
        }
        i += 1;
    }
    proof {
        lemma_try_fold_all(all, Seq::empty(), parameter_step());
    }
    Ok(parameters)
}

fn extract_return_type(output: &Option<Output>) -> (r: Result<Option<ParameterType>, ExtractError>)
    ensures
        match r {
            Ok(return_type) => return_type_of(view_opt(*output)) == Ok::<
                Option<ParameterTypeView>,
                ExtractError,
            >(view_opt(return_type)),
            Err(e) => return_type_of(view_opt(*output)) == Err::<
                Option<ParameterTypeView>,
                ExtractError,
            >(e),
        },
{
    match output {
        None => Ok(None),
        Some(written) => match extract_type_ident(&written.ty) {
            Ok(type_ident) => Ok(Some(type_ident)),
            Err(cause) => Err(ExtractError::for_type(cause, TypeUse::ReturnType, written.position)),
        },
    }
}

/// The invokable that one method gives, or the diagnostic of its first
/// argument or return type that is not supported.
pub fn extract_invokable(method: &Method) -> (r: Result<Invokable, ExtractError>)
    ensures
        view_ok(r) == invokable_of(method@),
{
    let parameters = match extract_parameters(&method.inputs) {
        Ok(parameters) => parameters,
        Err(e) => {
            return Err(e);
        },
    };
    let return_type = match extract_return_type(&method.output) {
        Ok(return_type) => return_type,
        Err(e) => {
            return Err(e);
        },
    };
    Ok(
        Invokable {
            ident: method.ident.clone(),
            parameters,
            return_type,
            original_method: method.handle,
        },
    )
}

/// Extracts the invokables of an inherent implementation block from its
/// members: one for each method, in order. The first member that is no
/// method, or whose arguments or return type are not supported, ends the
/// extraction with its diagnostic.
pub fn extract_invokables(items: &[ImplMember]) -> (r: Result<Vec<Invokable>, ExtractError>)
    ensures
        view_all_ok(r) == invokables_of(view_all(items@)),
{
    let ghost all = view_all(items@);
    let mut invokables: Vec<Invokable> = Vec::new();
    let mut i: usize = 0;
    assert(view_all(invokables@) =~= Seq::empty());
    while i < items.len()
        invariant
            i <= items.len(),
            all == view_all(items@),
            try_fold(all.take(i as int), Seq::empty(), map_step(member_invokable_fn())) == Ok::<
                Seq<InvokableView>,
                ExtractError,
            >(view_all(invokables@)),
        decreases items.len() - i,
    {
        proof {
            lemma_try_fold_next(all, Seq::empty(), map_step(member_invokable_fn()), i as int);
        }
        match &items[i] {
            ImplMember::Other(position) => {
                proof {
                    lemma_try_fold_failed(all, Seq::empty(), map_step(member_invokable_fn()), i + 1);
                }
                return Err(
                    ExtractError { kind: ErrorKind::UnsupportedMember, position: *position },
                );
            },
            ImplMember::Method(method) => match extract_invokable(method) {
                Ok(invokable) => {
                    proof {
                        lemma_view_all_push(invokables@, invokable);
                    }
                    invokables.push(invokable);
                },
                Err(e) => {
                    proof {
                        lemma_try_fold_failed(all, Seq::empty(), map_step(member_invokable_fn()), i + 1);
                    }
                    return Err(e);
                },
            },
        }
        i += 1;
    }
    proof {
        lemma_try_fold_all(all, Seq::empty(), map_step(member_invokable_fn()));
    }
    Ok(invokables)
}

} // verus!
