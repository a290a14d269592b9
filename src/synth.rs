use vstd::prelude::*;
use crate::model::{
    delegation_of, expected_count, forwarded_names, simple_name, AttrArg, CallModel,
    DelegateError, Delegation, DelegatedFn, ForwardCall, MethodDecl, Param,
};

verus! {

/// The bare name written as argument `idx` of the attribute, if it is one.
pub fn parse_args_ident(args: &Vec<AttrArg>, idx: usize) -> (r: Option<String>)
    requires
        idx < args@.len(),
    ensures
        r matches Some(n) ==> simple_name(args@[idx as int]) == Some(n@),
        r is None ==> simple_name(args@[idx as int]) is None,
{
    match &args[idx] {
        AttrArg::Path(segments) => {
            if segments.len() == 1 {
                Some(segments[0].clone())
            } else {
                None
            }
        },
        AttrArg::Other => None,
    }
}

/// The field that calls are forwarded to: the first argument.
pub fn parse_delegatee(args: &Vec<AttrArg>) -> (r: Option<String>)
    requires
        args@.len() >= 1,
    ensures
        r matches Some(n) ==> simple_name(args@[0]) == Some(n@),
        r is None ==> simple_name(args@[0]) is None,
{
    parse_args_ident(args, 0)
}

/// The method called on the field in the named-target form: the second
/// argument.
pub fn parse_delegation_call(args: &Vec<AttrArg>) -> (r: Option<String>)
    requires
        args@.len() >= 2,
    ensures
        r matches Some(n) ==> simple_name(args@[1]) == Some(n@),
        r is None ==> simple_name(args@[1]) is None,
{
    parse_args_ident(args, 1)
}

/// The method called on the field in the direct form: the annotated method's
/// own name.
pub fn parse_delegation<H>(method: &MethodDecl<H>) -> (r: String)
    ensures
        r@ == method.name@,
{
    method.name.clone()
}

/// The names handed on to the field's method, in declared order: every
/// parameter bound to a plain name, and no other.
pub fn parse_delegation_args<H>(method: &MethodDecl<H>) -> (r: Vec<String>)
    ensures
        r@.map_values(|a: String| a@) == forwarded_names(method.params@),
{
    let params = &method.params;
    let mut names: Vec<String> = Vec::new();
    let mut i: usize = 0;
    while i < params.len()
        invariant
            i <= params@.len(),
            names@.map_values(|a: String| a@) == forwarded_names(params@.take(i as int)),
        decreases params@.len() - i,
    {
        proof {
            assert(params@.take(i as int + 1).drop_last() =~= params@.take(i as int));
        }
        match &params[i] {
            Param::Named(n) => {
                names.push(n.clone());
                assert(names@.map_values(|a: String| a@) =~= forwarded_names(
                    params@.take(i as int),
                ).push(n@));
            },
            _ => {},
        }
        i = i + 1;
    }
    assert(params@.take(params@.len() as int) =~= params@);
    names
}

/// Delegates `method` under an attribute of form `mode` with arguments
/// `args`. On success the header is handed back unchanged beside the
/// forwarding call; on a malformed argument list nothing is produced.
pub fn delegate_impl<H>(args: &Vec<AttrArg>, method: MethodDecl<H>, mode: Delegation) -> (r: Result<
    DelegatedFn<H>,
    DelegateError,
>)
    ensures
        r matches Ok(d) ==> delegation_of(args@, method.name@, method.params@, mode) == Ok::<
            CallModel,
            DelegateError,
        >(d.call@) && d.header == method.header,
        r matches Err(e) ==> delegation_of(args@, method.name@, method.params@, mode) == Err::<
            CallModel,
            DelegateError,
        >(e),
{
    let expected: usize = match mode {
        Delegation::Direct => 1,
        Delegation::Called => 2,
    };
    if args.len() != expected {
        return Err(DelegateError::WrongArgumentCount { expected, found: args.len() });
    }
    let delegatee = match parse_delegatee(args) {
        Some(n) => n,
        None => {
            return Err(DelegateError::NotAName { index: 0 });
        },
    };
    let target = match mode {
        Delegation::Direct => parse_delegation(&method),
        Delegation::Called => match parse_delegation_call(args) {
            Some(n) => n,
            None => {
                return Err(DelegateError::NotAName { index: 1 });
            },
        },
    };
    let forwarded = parse_delegation_args(&method);
    let call = ForwardCall { delegatee, method: target, args: forwarded };
    Ok(DelegatedFn { header: method.header, call })
}

/// The direct form, `#[delegate(field)]`: the body becomes
/// `self.field.name(args..)`, where `name` is the method's own name.
pub fn delegate<H>(args: &Vec<AttrArg>, method: MethodDecl<H>) -> (r: Result<
    DelegatedFn<H>,
    DelegateError,
>)
    ensures
        r is Err <==> args@.len() != 1 || simple_name(args@[0]) is None,
        r matches Err(e) ==> (e == if args@.len() != 1 {
            DelegateError::WrongArgumentCount { expected: 1, found: args@.len() as usize }
        } else {
            DelegateError::NotAName { index: 0 }
        }),
        r matches Ok(d) ==> d.header == method.header && d.call@ == (CallModel {
            delegatee: simple_name(args@[0])->Some_0,
            method: method.name@,
            args: forwarded_names(method.params@),
        }),
{
    delegate_impl(args, method, Delegation::Direct)
}

/// The named-target form, `#[delegate_call(field, target)]`: the body
/// becomes `self.field.target(args..)`.
pub fn delegate_call<H>(args: &Vec<AttrArg>, method: MethodDecl<H>) -> (r: Result<
    DelegatedFn<H>,
    DelegateError,
>)
    ensures
        r is Err <==> args@.len() != 2 || simple_name(args@[0]) is None || simple_name(args@[1]) is None,
        r matches Err(e) ==> (e == if args@.len() != 2 {
            DelegateError::WrongArgumentCount { expected: 2, found: args@.len() as usize }
        } else if simple_name(args@[0]) is None {
            DelegateError::NotAName { index: 0 }
        } else {
            DelegateError::NotAName { index: 1 }
        }),
        r matches Ok(d) ==> d.header == method.header && d.call@ == (CallModel {
            delegatee: simple_name(args@[0])->Some_0,
            method: simple_name(args@[1])->Some_0,
            args: forwarded_names(method.params@),
        }),
{
    delegate_impl(args, method, Delegation::Called)
}

} // verus!
