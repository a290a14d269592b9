use vstd::prelude::*;

verus! {

/// One argument of the attribute, as written between its parentheses.
pub enum AttrArg {
    /// A path such as `inner` or `a::b`, by the names of its segments.
    Path(Vec<String>),
    /// Anything else: a literal, `key = value`, a nested list.
    Other,
}

/// One parameter of the annotated method.
pub enum Param {
    /// The receiver: `self`, `&self`, `&mut self`.
    Receiver,
    /// A parameter bound to a plain name, as in `value: T`.
    Named(String),
    /// A parameter bound by any other pattern, as in `(a, b): (u8, u8)`.
    Pattern,
}

/// The two forms of the attribute.
#[derive(Clone, Copy, PartialEq, Eq, Structural, Debug)]
pub enum Delegation {
    /// `#[delegate(field)]`: call the method of the same name on `field`.
    Direct,
    /// `#[delegate_call(field, target)]`: call `target` on `field`.
    Called,
}

/// Why an attribute's argument list was refused.
#[derive(Clone, Copy, PartialEq, Eq, Structural, Debug)]
pub enum DelegateError {
    /// The form takes `expected` arguments and `found` were given.
    WrongArgumentCount { expected: usize, found: usize },
    /// The argument at `index` is not a bare name.
    NotAName { index: usize },
}

/// The annotated method: the part of its signature that the body depends on,
/// and a header (visibility, attributes, full signature) that is carried over
/// as it is.
pub struct MethodDecl<H> {
    pub header: H,
    pub name: String,
    pub params: Vec<Param>,
}

/// The call that the synthesized body makes: `self.delegatee.method(args..)`.
pub struct ForwardCall {
    pub delegatee: String,
    pub method: String,
    pub args: Vec<String>,
}

/// A forwarding call as mathematical text values.
pub ghost struct CallModel {
    pub delegatee: Seq<char>,
    pub method: Seq<char>,
    pub args: Seq<Seq<char>>,
}

impl View for ForwardCall {
    type V = CallModel;

    open spec fn view(&self) -> CallModel {
        CallModel {
            delegatee: self.delegatee@,
            method: self.method@,
            args: self.args@.map_values(|a: String| a@),
        }
    }
}

/// The synthesized method: the declaration's header, unchanged, with the
/// forwarding call as its body.
pub struct DelegatedFn<H> {
    pub header: H,
    pub call: ForwardCall,
}

/// The name an attribute argument stands for, if it is a bare name: a path
/// of exactly one segment.
pub open spec fn simple_name(arg: AttrArg) -> Option<Seq<char>> {
    match arg {
        AttrArg::Path(segments) => if segments@.len() == 1 {
            Some(segments@[0]@)
        } else {
            None
        },
        AttrArg::Other => None,
    }
}

/// The names that are forwarded, in declared order: those of the parameters
/// bound to a plain name. The receiver and parameters bound by other patterns
/// contribute nothing.
pub open spec fn forwarded_names(params: Seq<Param>) -> Seq<Seq<char>>
    decreases params.len(),
{
    if params.len() == 0 {
        Seq::empty()
    } else {
        let rest = forwarded_names(params.drop_last());
        match params.last() {
            Param::Named(n) => rest.push(n@),
            _ => rest,
        }
    }
}

/// How many arguments each form of the attribute takes.
pub open spec fn expected_count(mode: Delegation) -> nat {
    match mode {
        Delegation::Direct => 1,
        Delegation::Called => 2,
    }
}

/// The outcome of delegating a method named `name` with parameters `params`,
/// under an attribute of form `mode` with arguments `args`.
pub open spec fn delegation_of(
    args: Seq<AttrArg>,
    name: Seq<char>,
    params: Seq<Param>,
    mode: Delegation,
) -> Result<CallModel, DelegateError> {
    if args.len() != expected_count(mode) {
        Err(DelegateError::WrongArgumentCount { expected: expected_count(mode) as usize, found: args.len() as usize })
    } else if simple_name(args[0]) is None {
        Err(DelegateError::NotAName { index: 0 })
    } else if mode == Delegation::Called && simple_name(args[1]) is None {
        Err(DelegateError::NotAName { index: 1 })
    } else {
        Ok(
            CallModel {
                delegatee: simple_name(args[0])->Some_0,
                method: if mode == Delegation::Direct {
                    name
                } else {
                    simple_name(args[1])->Some_0
                },
                args: forwarded_names(params),
            },
        )
    }
}

} // verus!
