use vstd::prelude::*;
use crate::model::{CallModel, ForwardCall};

verus! {

/// The names separated by `", "`.
pub open spec fn join_args(args: Seq<Seq<char>>) -> Seq<char>
    decreases args.len(),
{
    if args.len() == 0 {
        Seq::empty()
    } else if args.len() == 1 {
        args[0]
    } else {
        join_args(args.drop_last()) + seq![',', ' '] + args.last()
    }
}

/// The call expression: `self.<delegatee>.<method>(<args>)`.
pub open spec fn call_text(c: CallModel) -> Seq<char> {
    seq!['s', 'e', 'l', 'f', '.'] + c.delegatee + seq!['.'] + c.method + seq!['('] + join_args(
        c.args,
    ) + seq![')']
}

/// The method body: a block whose only content is the call, with no
/// semicolon, so that the call's value is the method's value.
pub open spec fn body_text(c: CallModel) -> Seq<char> {
    seq!['{', ' '] + call_text(c) + seq![' ', '}']
}

/// Writes out the forwarding call as an expression.
pub fn render_call(call: &ForwardCall) -> (r: String)
    ensures
        r@ == call_text(call@),
{
    let mut out = "self.".to_owned();
    out.append(call.delegatee.as_str());
    out.append(".");
    out.append(call.method.as_str());
    out.append("(");
    proof {
        reveal_strlit("self.");
        reveal_strlit(".");
        reveal_strlit("(");
        reveal_strlit(", ");
        reveal_strlit(")");
    }
    let ghost head = out@;
    let args = &call.args;
    let ghost names = args@.map_values(|a: String| a@);
    let mut i: usize = 0;
    while i < args.len()
        invariant
            i <= args@.len(),
            names == args@.map_values(|a: String| a@),
            out@ == head + join_args(names.take(i as int)),
        decreases args@.len() - i,
    {
        assert(names.take(i as int + 1).drop_last() =~= names.take(i as int));
        if i > 0 {
            out.append(", ");
        }
        out.append(args[i].as_str());
        proof {
            reveal_strlit(", ");
            let next = names.take(i as int + 1);
            assert(next.last() == names[i as int]);
            if i == 0 {
                assert(join_args(next) == names[0]);
                assert(out@ =~= head + join_args(next));
            } else {
                assert(join_args(next) == join_args(names.take(i as int)) + seq![',', ' ']
                    + names[i as int]);
                assert(out@ =~= head + join_args(next));
            }
        }
        i = i + 1;
    }
    assert(names.take(args@.len() as int) =~= names);
    out.append(")");
    out
}

/// Writes out the method body: `{ <call> }`.
pub fn render_body(call: &ForwardCall) -> (r: String)
    ensures
        r@ == body_text(call@),
{
    let mut out = "{ ".to_owned();
    let text = render_call(call);
    out.append(text.as_str());
    out.append(" }");
    proof {
        reveal_strlit("{ ");
        reveal_strlit(" }");
    }
    out
}

} // verus!
