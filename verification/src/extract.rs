//! The arguments of a function that a trace line shows.

use vstd::prelude::*;
use crate::args::{takes_part, Args, AttrApplied, FilterView};
use crate::syntax::{
    first_unsupported, inputs_names, pat_names, pat_supported, pats_names, pats_supported, FnArg,
    Pat, Signature,
};
use crate::text::texts;

verus! {

/// A parameter whose pattern is neither a plain name nor a tuple of such.
#[derive(Clone, Copy, Debug, PartialEq, Eq, Structural)]
pub struct UnsupportedPattern {
    /// The index of the parameter among the function's parameters.
    pub input: usize,
}

/// The test that a name passes iff it takes part under `filter`.
pub open spec fn shown(filter: FilterView, applied: AttrApplied) -> spec_fn(Seq<char>) -> bool {
    |name: Seq<char>| takes_part(filter, applied, name)
}

/// The names that a trace line of function `sig` shows: all names that its
/// parameters bind, from left to right, that take part under `filter`; or
/// the index of the first parameter that cannot be traced.
pub open spec fn spec_arg_idents(filter: FilterView, applied: AttrApplied, sig: Signature)
    -> Result<Seq<Seq<char>>, int> {
    match first_unsupported(sig.inputs@, sig.inputs@.len()) {
        Some(k) => Err(k),
        None => Ok(inputs_names(sig.inputs@, sig.inputs@.len()).filter(shown(filter, applied))),
    }
}

proof fn lemma_filter_one(name: Seq<char>, pred: spec_fn(Seq<char>) -> bool)
    ensures
        seq![name].filter(pred) == if pred(name) {
            seq![name]
        } else {
            Seq::<Seq<char>>::empty()
        },
{
    reveal_with_fuel(Seq::filter, 2);
    assert(seq![name].drop_last() == Seq::<Seq<char>>::empty());
    assert(Seq::<Seq<char>>::empty().push(name) == seq![name]);
}

proof fn lemma_unsupported_pattern(ps: Seq<Pat>, n: nat, k: int)
    requires
        0 <= k < n <= ps.len(),
        !pat_supported(ps[k]),
    ensures
        !pats_supported(ps, n),
    decreases n,
{
    if k < n - 1 {
        lemma_unsupported_pattern(ps, (n - 1) as nat, k);
    }
}

/// Appends to `arg_idents` the names that `pat` binds and that take part,
/// from left to right, and tells whether `pat` can be traced.
pub fn process_pat(
    args: &Args,
    attr_applied: AttrApplied,
    pat: &Pat,
    arg_idents: &mut Vec<String>,
) -> (supported: bool)
    ensures
        supported == pat_supported(*pat),
        supported ==> texts(final(arg_idents)@) == texts(old(arg_idents)@) + pat_names(
            *pat,
        ).filter(shown(args@.filter, attr_applied)),
    decreases pat,
{
    let ghost pred = shown(args@.filter, attr_applied);
    match pat {
        Pat::Ident(ident) => {
            proof {
                lemma_filter_one(ident@, pred);
            }
            let keep = match attr_applied {
                AttrApplied::Directly => args.filter.admits(ident),
                AttrApplied::Indirectly => true,
            };
            if keep {
                arg_idents.push(ident.clone());
                assert(texts(arg_idents@) == texts(old(arg_idents)@) + seq![ident@]);
            } else {
                assert(texts(arg_idents@) == texts(old(arg_idents)@) + Seq::<Seq<char>>::empty());
            }
            true
        },
        Pat::Tuple(elems) => {
            let mut i: usize = 0;
            assert(texts(arg_idents@) == texts(old(arg_idents)@) + Seq::<Seq<char>>::empty().filter(
                pred,
            )) by {
                reveal_with_fuel(Seq::filter, 1);
            }
            while i < elems.len()
                invariant
                    i <= elems.len(),
                    *pat == Pat::Tuple(*elems),
                    pred == shown(args@.filter, attr_applied),
                    pats_supported(elems@, i as nat),
                    texts(arg_idents@) == texts(old(arg_idents)@) + pats_names(
                        elems@,
                        i as nat,
                    ).filter(pred),
                decreases elems.len() - i,
            {
                proof {
                    assert(pat->Tuple_0 == *elems);
                    assert(decreases_to!(*pat => pat->Tuple_0));
                    assert(decreases_to!(*elems => elems[i as int]));
                }
                if !process_pat(args, attr_applied, &elems[i], arg_idents) {
                    proof {
                        lemma_unsupported_pattern(elems@, elems@.len(), i as int);
                    }
                    return false;
                }
                proof {
                    Seq::filter_distributes_over_add(
                        pats_names(elems@, i as nat),
                        pat_names(elems@[i as int]),
                        pred,
                    );
                    assert(texts(arg_idents@) == texts(old(arg_idents)@) + pats_names(
                        elems@,
                        (i + 1) as nat,
                    ).filter(pred));
                }
                i += 1;
            }
            true
        },
        Pat::Other => false,
    }
}

/// The names that a trace line of function `sig` shows.
///
/// These are the names that the parameters bind, tuples read from left to
/// right, without the receiver. Where the request stands directly on the
/// function, its enable or disable list chooses among them. A parameter with
/// any other pattern is an error, which names the first such parameter.
pub fn extract_arg_idents(args: &Args, attr_applied: AttrApplied, sig: &Signature) -> (r: Result<
    Vec<String>,
    UnsupportedPattern,
>)
    ensures
        match spec_arg_idents(args@.filter, attr_applied, *sig) {
            Ok(names) => r is Ok && texts(r->Ok_0@) == names,
            Err(k) => r is Err && r->Err_0.input == k,
        },
{
    let ghost pred = shown(args@.filter, attr_applied);
    let mut arg_idents: Vec<String> = Vec::new();
    let mut i: usize = 0;
    assert(texts(arg_idents@) == Seq::<Seq<char>>::empty().filter(pred)) by {
        reveal_with_fuel(Seq::filter, 1);
    }
    while i < sig.inputs.len()
        invariant
            i <= sig.inputs.len(),
            pred == shown(args@.filter, attr_applied),
            first_unsupported(sig.inputs@, i as nat) is None,
            texts(arg_idents@) == inputs_names(sig.inputs@, i as nat).filter(pred),
        decreases sig.inputs.len() - i,
    {
        match &sig.inputs[i] {
            FnArg::Receiver => {
                assert(inputs_names(sig.inputs@, (i + 1) as nat) == inputs_names(
                    sig.inputs@,
                    i as nat,
                ));
            },
            FnArg::Typed(pat) => {
                if !process_pat(args, attr_applied, pat, &mut arg_idents) {
                    proof {
                        lemma_first_unsupported_stays(sig.inputs@, (i + 1) as nat, sig.inputs@.len());
                    }
                    return Err(UnsupportedPattern { input: i });
                }
                proof {
                    Seq::filter_distributes_over_add(
                        inputs_names(sig.inputs@, i as nat),
                        pat_names(*pat),
                        pred,
                    );
                }
            },
        }
        i += 1;
    }
    Ok(arg_idents)
}

proof fn lemma_first_unsupported_stays(inputs: Seq<FnArg>, n: nat, m: nat)
    requires
        n <= m <= inputs.len(),
        first_unsupported(inputs, n) is Some,
    ensures
        first_unsupported(inputs, m) == first_unsupported(inputs, n),
    decreases m,
{
    if n < m {
        lemma_first_unsupported_stays(inputs, n, (m - 1) as nat);
    }
}

proof fn lemma_filter_keeps_all(s: Seq<Seq<char>>, pred: spec_fn(Seq<char>) -> bool)
    requires
        forall|i: int| 0 <= i < s.len() ==> pred(#[trigger] s[i]),
    ensures
        s.filter(pred) == s,
    decreases s.len(),
{
    reveal_with_fuel(Seq::filter, 1);
    if s.len() > 0 {
        assert forall|i: int| 0 <= i < s.drop_last().len() implies pred(
            #[trigger] s.drop_last()[i],
        ) by {
            assert(s.drop_last()[i] == s[i]);
        }
        lemma_filter_keeps_all(s.drop_last(), pred);
        assert(pred(s[s.len() - 1]));
        assert(s.drop_last().push(s.last()) == s);
    }
}

/// Without an enable or a disable list, and wherever the request does not
/// stand directly on the function, every name that the parameters bind is
/// shown, in the order in which the parameters bind them.
pub proof fn unfiltered_arguments_are_all_shown(
    filter: FilterView,
    applied: AttrApplied,
    sig: Signature,
)
    requires
        filter is All || applied is Indirectly,
        first_unsupported(sig.inputs@, sig.inputs@.len()) is None,
    ensures
        spec_arg_idents(filter, applied, sig) == Ok::<Seq<Seq<char>>, int>(
            inputs_names(sig.inputs@, sig.inputs@.len()),
        ),
{
    lemma_filter_keeps_all(inputs_names(sig.inputs@, sig.inputs@.len()), shown(filter, applied));
}

/// Whether `arg` is a parameter with a plain name.
pub open spec fn is_plain(arg: FnArg) -> bool {
    arg matches FnArg::Typed(pat) && pat is Ident
}

/// The name of a parameter with a plain name.
pub open spec fn plain_name(arg: FnArg) -> Seq<char> {
    arg->Typed_0->Ident_0@
}

proof fn lemma_plain_inputs(inputs: Seq<FnArg>, n: nat)
    requires
        n <= inputs.len(),
        forall|i: int| 0 <= i < n ==> is_plain(#[trigger] inputs[i]),
    ensures
        first_unsupported(inputs, n) is None,
        inputs_names(inputs, n) == Seq::new(n, |i: int| plain_name(inputs[i])),
    decreases n,
{
    if n > 0 {
        lemma_plain_inputs(inputs, (n - 1) as nat);
        assert(is_plain(inputs[n - 1]));
        assert(inputs_names(inputs, n) == Seq::new(n, |i: int| plain_name(inputs[i])));
    }
}

/// A function of N parameters with plain names, traced without an enable
/// or a disable list, shows exactly those N names, in the order of the parameters.
pub proof fn plain_parameters_are_all_shown(applied: AttrApplied, sig: Signature)
    requires
        forall|i: int| 0 <= i < sig.inputs@.len() ==> is_plain(#[trigger] sig.inputs@[i]),
    ensures
        spec_arg_idents(FilterView::All, applied, sig) == Ok::<Seq<Seq<char>>, int>(
            Seq::new(sig.inputs@.len(), |i: int| plain_name(sig.inputs@[i])),
        ),
{
    lemma_plain_inputs(sig.inputs@, sig.inputs@.len());
    unfiltered_arguments_are_all_shown(FilterView::All, applied, sig);
}

/// A tuple pattern binds the names of its first element, then those of its
/// second, and so on: the names of a tuple of plain names are those names in
/// the tuple's order.
pub proof fn tuple_of_plain_names(elems: Seq<Pat>, n: nat)
    requires
        n <= elems.len(),
        forall|i: int| 0 <= i < n ==> #[trigger] elems[i] is Ident,
    ensures
        pats_supported(elems, n),
        pats_names(elems, n) == Seq::new(n, |i: int| elems[i]->Ident_0@),
    decreases n,
{
    reveal_with_fuel(pats_names, 2);
    reveal_with_fuel(pats_supported, 2);
    if n > 0 {
        tuple_of_plain_names(elems, (n - 1) as nat);
        assert(elems[n - 1] is Ident);
        assert(pats_names(elems, n) == Seq::new(n, |i: int| elems[i]->Ident_0@));
    }
}

} // verus!
