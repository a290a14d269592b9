use delegate::{
    delegate, delegate_call, delegate_impl, parse_args_ident, parse_delegatee,
    parse_delegation, parse_delegation_args, parse_delegation_call, render_body, render_call,
    AttrArg, DelegateError, Delegation, DelegatedFn, ForwardCall, MethodDecl, Param,
};

fn name(s: &str) -> AttrArg {
    AttrArg::Path(vec![s.to_string()])
}

fn method(header: &str, fn_name: &str, params: Vec<Param>) -> MethodDecl<String> {
    MethodDecl { header: header.to_string(), name: fn_name.to_string(), params }
}

fn named(s: &str) -> Param {
    Param::Named(s.to_string())
}

fn expect_ok(r: Result<DelegatedFn<String>, DelegateError>) -> DelegatedFn<String> {
    match r {
        Ok(d) => d,
        Err(e) => panic!("unexpected error {:?}", e),
    }
}

fn expect_err(r: Result<DelegatedFn<String>, DelegateError>) -> DelegateError {
    match r {
        Ok(d) => panic!("unexpected body {}", render_body(&d.call)),
        Err(e) => e,
    }
}

#[test]
fn direct_no_arg_method_calls_same_name() {
    let m = method("pub", "is_empty", vec![Param::Receiver]);
    let d = expect_ok(delegate(&vec![name("inner")], m));
    assert_eq!(d.call.delegatee, "inner");
    assert_eq!(d.call.method, "is_empty");
    assert!(d.call.args.is_empty());
    assert_eq!(render_body(&d.call), "{ self.inner.is_empty() }");
}

#[test]
fn named_target_calls_target_not_own_name() {
    let m = method("pub", "empty", vec![Param::Receiver]);
    let d = expect_ok(delegate_call(&vec![name("inner"), name("is_empty")], m));
    assert_eq!(d.call.method, "is_empty");
    assert_eq!(render_body(&d.call), "{ self.inner.is_empty() }");
}

#[test]
fn single_parameter_forwarded() {
    let m = method("pub", "push", vec![Param::Receiver, named("value")]);
    let d = expect_ok(delegate(&vec![name("inner")], m));
    assert_eq!(d.call.args, vec!["value".to_string()]);
    assert_eq!(render_body(&d.call), "{ self.inner.push(value) }");
}

#[test]
fn two_parameters_forwarded_in_order() {
    let m = method("", "method", vec![Param::Receiver, named("a"), named("b")]);
    let d = expect_ok(delegate(&vec![name("inner")], m));
    assert_eq!(d.call.args, vec!["a".to_string(), "b".to_string()]);
    assert_eq!(render_call(&d.call), "self.inner.method(a, b)");
}

#[test]
fn three_parameters_keep_declared_order() {
    let m = method("", "put", vec![Param::Receiver, named("z"), named("a"), named("m")]);
    let d = expect_ok(delegate(&vec![name("map")], m));
    assert_eq!(render_body(&d.call), "{ self.map.put(z, a, m) }");
}

#[test]
fn body_is_the_bare_call_for_value_and_unit() {
    let pop = expect_ok(delegate(&vec![name("inner")], method("pub", "pop", vec![Param::Receiver])));
    assert_eq!(render_body(&pop.call), "{ self.inner.pop() }");
    let push = method("pub", "push", vec![Param::Receiver, named("value")]);
    let push = expect_ok(delegate(&vec![name("inner")], push));
    let body = render_body(&push.call);
    assert!(!body.contains("return"));
    assert!(!body.contains(';'));
}

#[test]
fn header_passed_through_unchanged() {
    let header = "#[inline] #[must_use] pub(crate) fn len(&self) -> usize";
    let d = expect_ok(delegate(&vec![name("inner")], method(header, "len", vec![Param::Receiver])));
    assert_eq!(d.header, header);
    let d = expect_ok(delegate_call(
        &vec![name("inner"), name("is_empty")],
        method(header, "empty", vec![Param::Receiver]),
    ));
    assert_eq!(d.header, header);
}

#[test]
fn zero_arguments_rejected() {
    let e = expect_err(delegate(&vec![], method("", "len", vec![Param::Receiver])));
    assert_eq!(e, DelegateError::WrongArgumentCount { expected: 1, found: 0 });
}

#[test]
fn literal_first_argument_rejected() {
    let e = expect_err(delegate(&vec![AttrArg::Other], method("", "len", vec![Param::Receiver])));
    assert_eq!(e, DelegateError::NotAName { index: 0 });
}

#[test]
fn qualified_path_argument_rejected() {
    let path = AttrArg::Path(vec!["a".to_string(), "b".to_string()]);
    let e = expect_err(delegate(&vec![path], method("", "len", vec![Param::Receiver])));
    assert_eq!(e, DelegateError::NotAName { index: 0 });
    let e = expect_err(delegate(&vec![AttrArg::Path(vec![])], method("", "len", vec![])));
    assert_eq!(e, DelegateError::NotAName { index: 0 });
}

#[test]
fn extra_argument_rejected_in_direct_form() {
    let e = expect_err(delegate(&vec![name("inner"), name("len")], method("", "len", vec![])));
    assert_eq!(e, DelegateError::WrongArgumentCount { expected: 1, found: 2 });
}

#[test]
fn named_target_needs_two_names() {
    let e = expect_err(delegate_call(&vec![name("inner")], method("", "empty", vec![])));
    assert_eq!(e, DelegateError::WrongArgumentCount { expected: 2, found: 1 });
    let e = expect_err(delegate_call(&vec![AttrArg::Other, name("x")], method("", "empty", vec![])));
    assert_eq!(e, DelegateError::NotAName { index: 0 });
    let e = expect_err(delegate_call(&vec![name("inner"), AttrArg::Other], method("", "empty", vec![])));
    assert_eq!(e, DelegateError::NotAName { index: 1 });
    let three = vec![name("a"), name("b"), name("c")];
    let e = expect_err(delegate_call(&three, method("", "empty", vec![])));
    assert_eq!(e, DelegateError::WrongArgumentCount { expected: 2, found: 3 });
}

#[test]
fn destructured_parameter_dropped() {
    let params = vec![Param::Receiver, named("a"), Param::Pattern, named("c")];
    let d = expect_ok(delegate(&vec![name("inner")], method("", "set", params)));
    assert_eq!(d.call.args, vec!["a".to_string(), "c".to_string()]);
    assert_eq!(render_body(&d.call), "{ self.inner.set(a, c) }");
}

#[test]
fn only_patterns_forward_nothing() {
    let params = vec![Param::Receiver, Param::Pattern];
    let d = expect_ok(delegate(&vec![name("inner")], method("", "set", params)));
    assert_eq!(render_call(&d.call), "self.inner.set()");
}

#[test]
fn argument_helpers_pick_by_position() {
    let args = vec![name("inner"), AttrArg::Other];
    assert_eq!(parse_args_ident(&args, 0), Some("inner".to_string()));
    assert_eq!(parse_args_ident(&args, 1), None);
    assert_eq!(parse_delegatee(&args), Some("inner".to_string()));
    assert_eq!(parse_delegation_call(&args), None);
    let args = vec![name("inner"), name("is_empty")];
    assert_eq!(parse_delegation_call(&args), Some("is_empty".to_string()));
}

#[test]
fn declaration_helpers_read_the_signature() {
    let m = method("", "push", vec![Param::Receiver, named("x"), Param::Pattern, named("y")]);
    assert_eq!(parse_delegation(&m), "push");
    assert_eq!(parse_delegation_args(&m), vec!["x".to_string(), "y".to_string()]);
}

#[test]
fn impl_dispatches_on_form() {
    let args = vec![name("inner"), name("is_empty")];
    let d = expect_ok(delegate_impl(&args, method("", "empty", vec![]), Delegation::Called));
    assert_eq!(d.call.method, "is_empty");
    let e = expect_err(delegate_impl(&args, method("", "empty", vec![]), Delegation::Direct));
    assert_eq!(e, DelegateError::WrongArgumentCount { expected: 1, found: 2 });
}

#[test]
fn render_of_hand_built_call() {
    let call = ForwardCall {
        delegatee: "v".to_string(),
        method: "insert".to_string(),
        args: vec!["i".to_string(), "x".to_string()],
    };
    assert_eq!(render_call(&call), "self.v.insert(i, x)");
    assert_eq!(render_body(&call), "{ self.v.insert(i, x) }");
}
