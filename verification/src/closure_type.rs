//! The `FnMut` type of the closure that stands for a method.

use vstd::prelude::*;

use crate::brackets::{balanced, lemma_balanced_add, lemma_balanced_group, lemma_balanced_join, lemma_plain_balanced};
use crate::closure_expr::{
    arg_balanced, bare_type, lemma_bare_type_balanced, lemma_static_output_balanced,
    method_balanced, push_bare_type, push_joined, push_static_output, static_output, tvs,
    closure_params, state_param, typed_params,
};
use crate::syntax::{receiver_of, FnArg, ImplItemFn, Receiver, Signature};
use crate::tokens::{extend, group, ident, join, p, push_close, push_ident, push_open, push_punct, tv, Delim, Spacing, Tok, TokV};

verus! {

/// The type of the state parameter: `& mut target`, the `&` and `mut` where
/// the receiver has them.
pub open spec fn state_type(r: Receiver, target: Seq<TokV>) -> Seq<TokV> {
    (if r.reference {
        seq![p('&')]
    } else {
        seq![]
    }) + (if r.mutability {
        seq![ident("mut"@)]
    } else {
        seq![]
    }) + target
}

/// The types of the typed arguments, lifetimes and `mut` of references
/// dropped; receivers are skipped.
pub open spec fn typed_types(inputs: Seq<FnArg>) -> Seq<Seq<TokV>>
    decreases inputs.len(),
{
    if inputs.len() == 0 {
        seq![]
    } else {
        typed_types(inputs.drop_last()) + match inputs.last() {
            FnArg::Typed { ty, .. } => seq![bare_type(ty)],
            FnArg::Receiver(_) => seq![],
        }
    }
}

/// The parameter types of the closure: the state's type first, where the
/// method has a receiver, then the types of its typed arguments.
pub open spec fn closure_param_types(target: Seq<TokV>, sig: Signature) -> Seq<Seq<TokV>> {
    (match receiver_of(sig) {
        Some(r) => seq![state_type(r, target)],
        None => seq![],
    }) + typed_types(sig.inputs@)
}

/// `FnMut(types) output` for a method.
pub open spec fn closure_type_tokens(target: Seq<TokV>, m: ImplItemFn) -> Seq<TokV> {
    seq![ident("FnMut"@)] + group(Delim::Paren, join(closure_param_types(target, m.sig), seq![p(',')]))
        + static_output(m.sig.output)
}

/// The types of the typed arguments of a signature, receivers skipped.
fn typed_types_of(inputs: &Vec<FnArg>) -> (out: Vec<Vec<Tok>>)
    ensures
        tvs(out@) == typed_types(inputs@),
{
    let mut out: Vec<Vec<Tok>> = Vec::new();
    let mut i: usize = 0;
    while i < inputs.len()
        invariant
            i <= inputs.len(),
            tvs(out@) == typed_types(inputs@.take(i as int)),
        decreases inputs.len() - i,
    {
        proof {
            assert(inputs@.take(i + 1).drop_last() =~= inputs@.take(i as int));
            assert(inputs@.take(i + 1).last() == inputs@[i as int]);
        }
        match &inputs[i] {
            FnArg::Typed { ty, .. } => {
                let mut a: Vec<Tok> = Vec::new();
                push_bare_type(&mut a, ty);
                let ghost before = out@;
                let ghost t = tv(a@);
                assert(t =~= bare_type(*ty));
                out.push(a);
                assert(tvs(out@) =~= tvs(before).push(t));
                assert(typed_types(inputs@.take(i + 1)) == typed_types(inputs@.take(i as int)) + seq![t]);
                assert(tvs(out@) =~= typed_types(inputs@.take(i + 1)));
            },
            FnArg::Receiver(_) => {
                assert(tvs(out@) =~= typed_types(inputs@.take(i + 1)));
            },
        }
        i = i + 1;
    }
    assert(inputs@.take(inputs@.len() as int) =~= inputs@);
    out
}

/// The type of the closure that stands for a method: `FnMut` of the state's
/// type (where the method has a receiver) and of its argument types, the
/// lifetimes of reference types dropped, returning what the method returns,
/// a reference return type made `&'static`.
pub fn generate(target: &Vec<Tok>, method: &ImplItemFn) -> (out: Vec<Tok>)
    ensures
        tv(out@) == closure_type_tokens(tv(target@), *method),
{
    let mut params: Vec<Vec<Tok>> = Vec::new();
    if let Some(receiver) = method.sig.receiver() {
        let mut a: Vec<Tok> = Vec::new();
        if receiver.reference {
            push_punct(&mut a, '&', Spacing::Alone);
        }
        if receiver.mutability {
            push_ident(&mut a, "mut");
        }
        extend(&mut a, target);
        assert(tv(a@) =~= state_type(receiver, tv(target@)));
        params.push(a);
    }
    let ghost recv_part = tvs(params@);
    let mut typed = typed_types_of(&method.sig.inputs);
    let ghost typed_part = tvs(typed@);
    params.append(&mut typed);
    assert(tvs(params@) =~= recv_part + typed_part);
    assert(tvs(params@) =~= closure_param_types(tv(target@), method.sig));
    let mut out: Vec<Tok> = Vec::new();
    push_ident(&mut out, "FnMut");
    push_open(&mut out, Delim::Paren);
    push_joined(&mut out, &params, ',');
    push_close(&mut out, Delim::Paren);
    push_static_output(&mut out, &method.sig.output);
    assert(tv(out@) =~= closure_type_tokens(tv(target@), *method));
    out
}

} // verus!

verus! {

/// Every argument type of balanced arguments is balanced.
pub proof fn lemma_typed_types_balanced(inputs: Seq<FnArg>)
    requires
        forall|i: int| 0 <= i < inputs.len() ==> arg_balanced(#[trigger] inputs[i]),
    ensures
        forall|i: int|
            0 <= i < typed_types(inputs).len() ==> balanced(#[trigger] typed_types(inputs)[i]),
    decreases inputs.len(),
{
    if inputs.len() > 0 {
        lemma_typed_types_balanced(inputs.drop_last());
        let prev = typed_types(inputs.drop_last());
        assert(arg_balanced(inputs[inputs.len() - 1]));
        match inputs.last() {
            FnArg::Typed { ty, .. } => {
                lemma_bare_type_balanced(ty);
                assert forall|i: int|
                    0 <= i < typed_types(inputs).len() implies balanced(
                    #[trigger] typed_types(inputs)[i],
                ) by {
                    if i < prev.len() {
                        assert(typed_types(inputs)[i] == prev[i]);
                    } else {
                        assert(typed_types(inputs)[i] == bare_type(ty));
                    }
                }
            },
            FnArg::Receiver(_) => {
                assert(typed_types(inputs) =~= prev);
            },
        }
    }
}

/// The closure type made of a method is well bracketed whenever the method
/// and the target type are.
pub proof fn lemma_closure_type_balanced(target: Seq<TokV>, m: ImplItemFn)
    requires
        balanced(target),
        method_balanced(m),
    ensures
        balanced(closure_type_tokens(target, m)),
{
    let params = closure_param_types(target, m.sig);
    let typed = typed_types(m.sig.inputs@);
    lemma_typed_types_balanced(m.sig.inputs@);
    match receiver_of(m.sig) {
        Some(r) => {
            let head = (if r.reference {
                seq![p('&')]
            } else {
                seq![]
            }) + (if r.mutability {
                seq![ident("mut"@)]
            } else {
                seq![]
            });
            lemma_plain_balanced(head);
            lemma_balanced_add(head, target);
            assert(state_type(r, target) == head + target);
            assert forall|i: int| 0 <= i < params.len() implies balanced(#[trigger] params[i]) by {
                if i > 0 {
                    assert(params[i] == typed[i - 1]);
                }
            }
        },
        None => {
            assert(params =~= typed);
        },
    }
    lemma_plain_balanced(seq![p(',')]);
    lemma_balanced_join(params, seq![p(',')]);
    lemma_balanced_group(Delim::Paren, join(params, seq![p(',')]));
    lemma_static_output_balanced(m.sig.output);
    lemma_plain_balanced(seq![ident("FnMut"@)]);
    lemma_balanced_add(seq![ident("FnMut"@)], group(Delim::Paren, join(params, seq![p(',')])));
    lemma_balanced_add(
        seq![ident("FnMut"@)] + group(Delim::Paren, join(params, seq![p(',')])),
        static_output(m.sig.output),
    );
}

} // verus!

verus! {

/// Each parameter `pattern: T` of the closure expression ends with its
/// `:` and its type `T`.
pub open spec fn param_has_type(param: Seq<TokV>, t: Seq<TokV>) -> bool {
    &&& param.len() > t.len()
    &&& param[param.len() - t.len() - 1] == p(':')
    &&& param.skip(param.len() - t.len()) == t
}

proof fn lemma_typed_params_have_types(inputs: Seq<FnArg>)
    ensures
        typed_params(inputs).len() == typed_types(inputs).len(),
        forall|i: int|
            0 <= i < typed_params(inputs).len() ==> param_has_type(
                #[trigger] typed_params(inputs)[i],
                typed_types(inputs)[i],
            ),
    decreases inputs.len(),
{
    if inputs.len() > 0 {
        let prev = inputs.drop_last();
        lemma_typed_params_have_types(prev);
        match inputs.last() {
            FnArg::Typed { pat, ty } => {
                let c = tv(pat@) + seq![p(':')] + bare_type(ty);
                let t = bare_type(ty);
                assert(c[c.len() - t.len() - 1] == p(':'));
                assert(c.skip(c.len() - t.len()) =~= t);
                assert forall|i: int| 0 <= i < typed_params(inputs).len() implies param_has_type(
                    #[trigger] typed_params(inputs)[i],
                    typed_types(inputs)[i],
                ) by {
                    if i < typed_params(prev).len() {
                        assert(typed_params(inputs)[i] == typed_params(prev)[i]);
                        assert(typed_types(inputs)[i] == typed_types(prev)[i]);
                    } else {
                        assert(typed_params(inputs)[i] == c);
                        assert(typed_types(inputs)[i] == t);
                    }
                }
            },
            FnArg::Receiver(_) => {
                assert(typed_params(inputs) =~= typed_params(prev));
                assert(typed_types(inputs) =~= typed_types(prev));
            },
        }
    }
}

/// The `FnMut` type of a method's closure agrees with the closure itself:
/// it has one parameter type per parameter of the closure, and each is the
/// type that parameter is declared with. So a method that takes `self` by
/// value gives a closure type that takes the state by value (`FnMut(Cat)`
/// for `|state: Cat|`), one that takes `&self` takes `&Cat`, and one that
/// takes `&mut self` takes `&mut Cat`.
pub proof fn law_closure_type_matches_closure(state: Seq<char>, target: Seq<TokV>, sig: Signature)
    ensures
        closure_params(state, target, sig).len() == closure_param_types(target, sig).len(),
        forall|i: int|
            0 <= i < closure_params(state, target, sig).len() ==> param_has_type(
                #[trigger] closure_params(state, target, sig)[i],
                closure_param_types(target, sig)[i],
            ),
        forall|r: Receiver|
            !r.reference && !r.mutability ==> #[trigger] state_type(r, target) == target,
{
    lemma_typed_params_have_types(sig.inputs@);
    let cp = closure_params(state, target, sig);
    let ct = closure_param_types(target, sig);
    assert forall|r: Receiver| !r.reference && !r.mutability implies #[trigger] state_type(r, target)
        == target by {
        assert(state_type(r, target) =~= target);
    }
    match receiver_of(sig) {
        Some(r) => {
            let c = state_param(state, r, target);
            let t = state_type(r, target);
            assert(c =~= seq![ident(state), p(':')] + t);
            assert(c[c.len() - t.len() - 1] == p(':'));
            assert(c.skip(c.len() - t.len()) =~= t);
            assert forall|i: int| 0 <= i < cp.len() implies param_has_type(
                #[trigger] closure_params(state, target, sig)[i],
                closure_param_types(target, sig)[i],
            ) by {
                if i == 0 {
                    assert(cp[0] == c);
                    assert(ct[0] == t);
                } else {
                    assert(cp[i] == typed_params(sig.inputs@)[i - 1]);
                    assert(ct[i] == typed_types(sig.inputs@)[i - 1]);
                }
            }
        },
        None => {
            assert(cp =~= typed_params(sig.inputs@));
            assert(ct =~= typed_types(sig.inputs@));
        },
    }
}

} // verus!
