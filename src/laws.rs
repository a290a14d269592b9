use vstd::prelude::*;
use crate::model::{forwarded_names, Param};

verus! {

/// Forwarding respects any split of the parameter list: the names forwarded
/// for `a` followed by `b` are those of `a`, then those of `b`. Nothing is
/// reordered, dropped or repeated across the split.
pub proof fn lemma_forwarded_names_concat(a: Seq<Param>, b: Seq<Param>)
    ensures
        forwarded_names(a + b) == forwarded_names(a) + forwarded_names(b),
    decreases b.len(),
{
    if b.len() == 0 {
        assert(a + b =~= a);
        assert(forwarded_names(a) + forwarded_names(b) =~= forwarded_names(a));
    } else {
        assert((a + b).drop_last() =~= a + b.drop_last());
        assert((a + b).last() == b.last());
        lemma_forwarded_names_concat(a, b.drop_last());
        match b.last() {
            Param::Named(n) => {
                assert(forwarded_names(a) + forwarded_names(b) =~= (forwarded_names(a)
                    + forwarded_names(b.drop_last())).push(n@));
            },
            _ => {},
        }
    }
}

/// When every parameter is bound to a plain name, each one is forwarded,
/// under its own name, at its own position, and no other name is.
pub proof fn lemma_plain_names_all_forwarded(params: Seq<Param>)
    requires
        forall|i: int| 0 <= i < params.len() ==> #[trigger] params[i] is Named,
    ensures
        forwarded_names(params).len() == params.len(),
        forall|i: int|
            0 <= i < params.len() ==> forwarded_names(params)[i] == (#[trigger] params[i])->Named_0@,
    decreases params.len(),
{
    if params.len() > 0 {
        let rest = params.drop_last();
        assert forall|i: int| 0 <= i < rest.len() implies #[trigger] rest[i] is Named by {
            assert(rest[i] == params[i]);
        }
        lemma_plain_names_all_forwarded(rest);
        assert(params.last() is Named);
        assert forall|i: int| 0 <= i < params.len() implies forwarded_names(params)[i] == (
        #[trigger] params[i])->Named_0@ by {
            if i < rest.len() {
                assert(rest[i] == params[i]);
            }
        }
    }
}

/// The receiver is never forwarded.
pub proof fn lemma_receiver_not_forwarded(params: Seq<Param>)
    ensures
        forwarded_names(seq![Param::Receiver] + params) == forwarded_names(params),
{
    lemma_forwarded_names_concat(seq![Param::Receiver], params);
    assert(seq![Param::Receiver].drop_last() =~= Seq::<Param>::empty());
    assert(seq![Param::Receiver].last() == Param::Receiver);
    assert(forwarded_names(Seq::<Param>::empty()) =~= Seq::<Seq<char>>::empty());
    assert(forwarded_names(seq![Param::Receiver]) =~= Seq::<Seq<char>>::empty());
    assert(Seq::<Seq<char>>::empty() + forwarded_names(params) =~= forwarded_names(params));
}

/// A parameter bound by a pattern other than a plain name is left out of the
/// call, wherever it stands: the call is the one made without it.
pub proof fn lemma_pattern_param_dropped(before: Seq<Param>, after: Seq<Param>)
    ensures
        forwarded_names(before + seq![Param::Pattern] + after) == forwarded_names(before + after),
{
    lemma_forwarded_names_concat(before, seq![Param::Pattern]);
    lemma_forwarded_names_concat(before + seq![Param::Pattern], after);
    lemma_forwarded_names_concat(before, after);
    assert((before + seq![Param::Pattern]).drop_last() =~= before);
    assert(forwarded_names(before) + forwarded_names(seq![Param::Pattern]) == forwarded_names(
        before + seq![Param::Pattern],
    ));
    assert(seq![Param::Pattern].drop_last() =~= Seq::<Param>::empty());
    assert(forwarded_names(seq![Param::Pattern]) =~= Seq::<Seq<char>>::empty());
    assert(forwarded_names(before) + Seq::<Seq<char>>::empty() =~= forwarded_names(before));
}

} // verus!
