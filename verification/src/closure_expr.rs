//! Turns a method of an `impl` block into a closure expression that takes
//! the object's state in place of `self`.

use vstd::prelude::*;

use crate::brackets::{
    balanced, is_plain, lemma_balanced_add, lemma_balanced_group, lemma_balanced_join,
    lemma_balanced_same_shape, lemma_plain_balanced,
};
use crate::syntax::{receiver_of, FnArg, ImplItemFn, PathSegment, Receiver, ReturnType, Signature, Ty};
use crate::tokens::{
    copy_all, extend, group, ident, join, lifetime, p, push_close, push_ident, push_lifetime,
    push_open, push_punct, push_rarrow, rarrow, tv, Delim, Spacing, Tok, TokV,
};

verus! {

/// The name the state takes in the closures built by `generate`.
pub open spec fn narrative_state() -> Seq<char> {
    "__narrative_state"@
}

/// The parameter that stands for the receiver: `state: & mut target`, the
/// `&` and `mut` where the receiver has them; its lifetime is left out.
pub open spec fn state_param(state: Seq<char>, r: Receiver, target: Seq<TokV>) -> Seq<TokV> {
    seq![ident(state), p(':')] + (if r.reference {
        seq![p('&')]
    } else {
        seq![]
    }) + (if r.mutability {
        seq![ident("mut"@)]
    } else {
        seq![]
    }) + target
}

/// A type with the lifetime and `mut` of a reference dropped: `&elem` for a
/// reference type, the type's own tokens otherwise.
pub open spec fn bare_type(t: Ty) -> Seq<TokV> {
    match t {
        Ty::Reference { elem, .. } => seq![p('&')] + tv(elem@),
        Ty::Other(ts) => tv(ts@),
    }
}

/// `pat: type` for each typed argument, in order; receivers are skipped.
pub open spec fn typed_params(inputs: Seq<FnArg>) -> Seq<Seq<TokV>>
    decreases inputs.len(),
{
    if inputs.len() == 0 {
        seq![]
    } else {
        typed_params(inputs.drop_last()) + match inputs.last() {
            FnArg::Typed { pat, ty } => seq![tv(pat@) + seq![p(':')] + bare_type(ty)],
            FnArg::Receiver(_) => seq![],
        }
    }
}

/// The parameters of the closure: the state first, where the method has a
/// receiver, then its typed arguments.
pub open spec fn closure_params(state: Seq<char>, target: Seq<TokV>, sig: Signature) -> Seq<
    Seq<TokV>,
> {
    (match receiver_of(sig) {
        Some(r) => seq![state_param(state, r, target)],
        None => seq![],
    }) + typed_params(sig.inputs@)
}

/// The return type of the closure: none where the method has none; for a
/// reference type `-> &'static elem`; any other type unchanged.
pub open spec fn static_output(output: ReturnType) -> Seq<TokV> {
    match output {
        ReturnType::Default => seq![],
        ReturnType::Type(Ty::Reference { elem, .. }) => rarrow() + seq![p('&')] + lifetime(
            "static"@,
        ) + tv(elem@),
        ReturnType::Type(Ty::Other(ts)) => rarrow() + tv(ts@),
    }
}

/// A token with the path segment `self` renamed to `state`.
pub open spec fn rename_self_tok(t: TokV, state: Seq<char>) -> TokV {
    match t {
        TokV::Segment(n) => if n == "self"@ {
            TokV::Segment(state)
        } else {
            t
        },
        _ => t,
    }
}

/// The tokens with every path segment `self` renamed to `state`.
pub open spec fn rename_self(block: Seq<TokV>, state: Seq<char>) -> Seq<TokV> {
    Seq::new(block.len(), |i: int| rename_self_tok(block[i], state))
}

/// The closure for a method: `|params| output { body }`, its body the
/// method's body with `self` renamed to the state.
pub open spec fn closure_tokens(state: Seq<char>, target: Seq<TokV>, m: ImplItemFn) -> Seq<TokV> {
    seq![p('|')] + join(closure_params(state, target, m.sig), seq![p(',')]) + seq![p('|')]
        + static_output(m.sig.output) + group(Delim::Brace, rename_self(tv(m.block@), state))
}

/// The token sequences of a list of token vectors.
pub open spec fn tvs(parts: Seq<Vec<Tok>>) -> Seq<Seq<TokV>> {
    Seq::new(parts.len(), |i: int| tv(parts[i]@))
}

/// Appends the parts, with `sep` between each two of them.
pub fn push_joined(out: &mut Vec<Tok>, parts: &Vec<Vec<Tok>>, sep: char)
    ensures
        tv(final(out)@) == tv(old(out)@) + join(tvs(parts@), seq![p(sep)]),
{
    let ghost start = tv(out@);
    let mut i: usize = 0;
    while i < parts.len()
        invariant
            i <= parts.len(),
            tv(out@) == start + join(tvs(parts@).take(i as int), seq![p(sep)]),
        decreases parts.len() - i,
    {
        if i > 0 {
            push_punct(out, sep, Spacing::Alone);
        }
        extend(out, &parts[i]);
        proof {
            let s = tvs(parts@);
            assert(s.take(i + 1).drop_last() =~= s.take(i as int));
            assert(s.take(i + 1).last() == s[i as int]);
            if i == 0 {
                assert(join(s.take(1), seq![p(sep)]) == s[0]);
                assert(tv(out@) =~= start + join(s.take(i + 1), seq![p(sep)]));
            } else {
                assert(tv(out@) =~= start + join(s.take(i + 1), seq![p(sep)]));
            }
        }
        i = i + 1;
    }
    assert(tvs(parts@).take(parts@.len() as int) =~= tvs(parts@));
}

/// Appends a type with the lifetime and `mut` of a reference dropped.
pub fn push_bare_type(out: &mut Vec<Tok>, t: &Ty)
    ensures
        tv(final(out)@) == tv(old(out)@) + bare_type(*t),
{
    match t {
        Ty::Reference { elem, .. } => {
            push_punct(out, '&', Spacing::Alone);
            extend(out, elem);
            assert(tv(out@) =~= tv(old(out)@) + bare_type(*t));
        },
        Ty::Other(ts) => {
            extend(out, ts);
        },
    }
}

/// Appends the return type of a closure built from a method.
pub fn push_static_output(out: &mut Vec<Tok>, output: &ReturnType)
    ensures
        tv(final(out)@) == tv(old(out)@) + static_output(*output),
{
    match output {
        ReturnType::Default => {
            assert(tv(out@) =~= tv(old(out)@) + static_output(*output));
        },
        ReturnType::Type(Ty::Reference { elem, .. }) => {
            push_rarrow(out);
            push_punct(out, '&', Spacing::Alone);
            push_lifetime(out, "static");
            extend(out, elem);
            assert(tv(out@) =~= tv(old(out)@) + static_output(*output));
        },
        ReturnType::Type(Ty::Other(ts)) => {
            push_rarrow(out);
            extend(out, ts);
            assert(tv(out@) =~= tv(old(out)@) + static_output(*output));
        },
    }
}

/// The typed arguments of a signature as `pat: type`, receivers skipped.
pub fn typed_params_of(inputs: &Vec<FnArg>) -> (out: Vec<Vec<Tok>>)
    ensures
        tvs(out@) == typed_params(inputs@),
{
    let mut out: Vec<Vec<Tok>> = Vec::new();
    let mut i: usize = 0;
    while i < inputs.len()
        invariant
            i <= inputs.len(),
            tvs(out@) == typed_params(inputs@.take(i as int)),
        decreases inputs.len() - i,
    {
        proof {
            assert(inputs@.take(i + 1).drop_last() =~= inputs@.take(i as int));
            assert(inputs@.take(i + 1).last() == inputs@[i as int]);
        }
        match &inputs[i] {
            FnArg::Typed { pat, ty } => {
                let mut a = copy_all(pat);
                push_punct(&mut a, ':', Spacing::Alone);
                push_bare_type(&mut a, ty);
                let ghost before = out@;
                let ghost param = tv(a@);
                assert(param == tv(pat@) + seq![p(':')] + bare_type(*ty));
                out.push(a);
                assert(tvs(out@) =~= tvs(before).push(param));
                assert(typed_params(inputs@.take(i + 1)) == typed_params(inputs@.take(i as int))
                    + seq![param]);
                assert(tvs(out@) =~= typed_params(inputs@.take(i + 1)));
            },
            FnArg::Receiver(_) => {
                assert(tvs(out@) =~= typed_params(inputs@.take(i + 1)));
            },
        }
        i = i + 1;
    }
    assert(inputs@.take(inputs@.len() as int) =~= inputs@);
    out
}

/// Renames every path segment `self` in the tokens to `state`.
pub fn replace_self_segments(block: &mut Vec<Tok>, state: &str)
    ensures
        tv(final(block)@) == rename_self(tv(old(block)@), state@),
{
    let self_name = String::from_str("self");
    let ghost orig = block@;
    let mut i: usize = 0;
    while i < block.len()
        invariant
            i <= block.len(),
            block@.len() == orig.len(),
            self_name@ == "self"@,
            forall|j: int| 0 <= j < i ==> #[trigger] block@[j]@ == rename_self_tok(orig[j]@, state@),
            forall|j: int| i <= j < block@.len() ==> #[trigger] block@[j] == orig[j],
        decreases block.len() - i,
    {
        let is_self = match &block[i] {
            Tok::Segment(n) => *n == self_name,
            _ => false,
        };
        if is_self {
            block.set(i, Tok::Segment(String::from_str(state)));
        }
        i = i + 1;
    }
    assert(tv(block@) =~= rename_self(tv(orig), state@));
}

/// The closure for a method, with its state named `state`.
pub fn generate_with_state(target: &Vec<Tok>, input: &ImplItemFn, state: &str) -> (out: Vec<Tok>)
    ensures
        tv(out@) == closure_tokens(state@, tv(target@), *input),
{
    let mut args: Vec<Vec<Tok>> = Vec::new();
    if let Some(receiver) = input.sig.receiver() {
        let mut a: Vec<Tok> = Vec::new();
        push_ident(&mut a, state);
        push_punct(&mut a, ':', Spacing::Alone);
        if receiver.reference {
            push_punct(&mut a, '&', Spacing::Alone);
        }
        if receiver.mutability {
            push_ident(&mut a, "mut");
        }
        extend(&mut a, target);
        assert(tv(a@) =~= state_param(state@, receiver, tv(target@)));
        args.push(a);
    }
    let ghost recv_part = tvs(args@);
    let mut typed = typed_params_of(&input.sig.inputs);
    let ghost typed_part = tvs(typed@);
    args.append(&mut typed);
    assert(tvs(args@) =~= recv_part + typed_part);
    assert(tvs(args@) =~= closure_params(state@, tv(target@), input.sig));
    let mut out: Vec<Tok> = Vec::new();
    push_punct(&mut out, '|', Spacing::Alone);
    push_joined(&mut out, &args, ',');
    push_punct(&mut out, '|', Spacing::Alone);
    push_static_output(&mut out, &input.sig.output);
    let mut block = copy_all(&input.block);
    replace_self_segments(&mut block, state);
    push_open(&mut out, Delim::Brace);
    extend(&mut out, &block);
    push_close(&mut out, Delim::Brace);
    assert(tv(out@) =~= closure_tokens(state@, tv(target@), *input));
    out
}

/// The closure for a method: its parameters are the state `__narrative_state`
/// (typed `&target`, `&mut target` or `target` as the receiver is written,
/// where the method has one) and its typed arguments, with the lifetimes of
/// reference types dropped; a reference return type becomes `&'static`; the
/// body is the method's body with `self` renamed to the state.
pub fn generate(target: &Vec<Tok>, input: &ImplItemFn) -> (out: Vec<Tok>)
    ensures
        tv(out@) == closure_tokens(narrative_state(), tv(target@), *input),
{
    generate_with_state(target, input, "__narrative_state")
}

/// Renames the path segment `self` in a method's body.
pub struct SelfReplacer;

impl SelfReplacer {
    /// Renames the segment to `__narrative_state` if it is `self`, keeping
    /// its arguments.
    pub fn visit_path_segment_mut(&mut self, i: &mut PathSegment)
        ensures
            final(i).arguments == old(i).arguments,
            final(i).ident@ == (if old(i).ident@ == "self"@ {
                narrative_state()
            } else {
                old(i).ident@
            }),
    {
        let self_name = String::from_str("self");
        if i.ident == self_name {
            i.ident = String::from_str("__narrative_state");
        }
    }

    /// Renames every path segment `self` in the body to `__narrative_state`.
    pub fn visit_block_mut(&mut self, block: &mut Vec<Tok>)
        ensures
            tv(final(block)@) == rename_self(tv(old(block)@), narrative_state()),
    {
        replace_self_segments(block, "__narrative_state");
    }
}

} // verus!

verus! {

/// Every token sequence a type holds is balanced.
pub open spec fn ty_balanced(t: Ty) -> bool {
    match t {
        Ty::Reference { elem, .. } => balanced(tv(elem@)),
        Ty::Other(ts) => balanced(tv(ts@)),
    }
}

/// Every token sequence an argument holds is balanced.
pub open spec fn arg_balanced(a: FnArg) -> bool {
    match a {
        FnArg::Receiver(_) => true,
        FnArg::Typed { pat, ty } => balanced(tv(pat@)) && ty_balanced(ty),
    }
}

/// Every token sequence a method holds is balanced: its argument patterns
/// and types, its return type and its body.
pub open spec fn method_balanced(m: ImplItemFn) -> bool {
    &&& forall|i: int| 0 <= i < m.sig.inputs@.len() ==> arg_balanced(#[trigger] m.sig.inputs@[i])
    &&& (m.sig.output matches ReturnType::Type(t) ==> ty_balanced(t))
    &&& balanced(tv(m.block@))
}

/// A type written without lifetime and `mut` keeps its brackets.
pub proof fn lemma_bare_type_balanced(t: Ty)
    requires
        ty_balanced(t),
    ensures
        balanced(bare_type(t)),
{
    match t {
        Ty::Reference { elem, .. } => {
            lemma_plain_balanced(seq![p('&')]);
            lemma_balanced_add(seq![p('&')], tv(elem@));
        },
        Ty::Other(ts) => {},
    }
}

/// Every `pat: type` parameter of balanced arguments is balanced.
pub proof fn lemma_typed_params_balanced(inputs: Seq<FnArg>)
    requires
        forall|i: int| 0 <= i < inputs.len() ==> arg_balanced(#[trigger] inputs[i]),
    ensures
        forall|i: int|
            0 <= i < typed_params(inputs).len() ==> balanced(#[trigger] typed_params(inputs)[i]),
    decreases inputs.len(),
{
    if inputs.len() > 0 {
        lemma_typed_params_balanced(inputs.drop_last());
        let prev = typed_params(inputs.drop_last());
        assert(arg_balanced(inputs[inputs.len() - 1]));
        match inputs.last() {
            FnArg::Typed { pat, ty } => {
                lemma_plain_balanced(seq![p(':')]);
                lemma_bare_type_balanced(ty);
                lemma_balanced_add(tv(pat@), seq![p(':')]);
                lemma_balanced_add(tv(pat@) + seq![p(':')], bare_type(ty));
                let last = tv(pat@) + seq![p(':')] + bare_type(ty);
                assert forall|i: int|
                    0 <= i < typed_params(inputs).len() implies balanced(
                    #[trigger] typed_params(inputs)[i],
                ) by {
                    if i < prev.len() {
                        assert(typed_params(inputs)[i] == prev[i]);
                    } else {
                        assert(typed_params(inputs)[i] == last);
                    }
                }
            },
            FnArg::Receiver(_) => {
                assert(typed_params(inputs) =~= prev);
            },
        }
    }
}

/// The return type of the closure is balanced when the method's is.
pub proof fn lemma_static_output_balanced(output: ReturnType)
    requires
        output matches ReturnType::Type(t) ==> ty_balanced(t),
    ensures
        balanced(static_output(output)),
{
    match output {
        ReturnType::Default => {
            lemma_plain_balanced(seq![]);
        },
        ReturnType::Type(Ty::Reference { elem, .. }) => {
            let head = rarrow() + seq![p('&')] + lifetime("static"@);
            lemma_plain_balanced(head);
            lemma_balanced_add(head, tv(elem@));
        },
        ReturnType::Type(Ty::Other(ts)) => {
            lemma_plain_balanced(rarrow());
            lemma_balanced_add(rarrow(), tv(ts@));
        },
    }
}

/// Renaming `self` keeps the brackets of a body.
pub proof fn lemma_rename_self_balanced(block: Seq<TokV>, state: Seq<char>)
    requires
        balanced(block),
    ensures
        balanced(rename_self(block, state)),
{
    let r = rename_self(block, state);
    assert forall|i: int| 0 <= i < block.len() implies (#[trigger] block[i] == r[i] || (is_plain(
        block[i],
    ) && is_plain(r[i]))) by {}
    lemma_balanced_same_shape(block, r, seq![]);
}

/// The closure made of a method is well bracketed whenever the method and
/// the target type are: every group it opens it closes, in order.
pub proof fn law_closure_balanced(state: Seq<char>, target: Seq<TokV>, m: ImplItemFn)
    requires
        balanced(target),
        method_balanced(m),
    ensures
        balanced(closure_tokens(state, target, m)),
{
    let params = closure_params(state, target, m.sig);
    let typed = typed_params(m.sig.inputs@);
    lemma_typed_params_balanced(m.sig.inputs@);
    match receiver_of(m.sig) {
        Some(r) => {
            let head = seq![ident(state), p(':')] + (if r.reference {
                seq![p('&')]
            } else {
                seq![]
            }) + (if r.mutability {
                seq![ident("mut"@)]
            } else {
                seq![]
            });
            lemma_plain_balanced(head);
            lemma_balanced_add(head, target);
            assert(state_param(state, r, target) == head + target);
            assert forall|i: int| 0 <= i < params.len() implies balanced(#[trigger] params[i]) by {
                if i > 0 {
                    assert(params[i] == typed[i - 1]);
                }
            }
        },
        None => {
            assert(params =~= typed);
        },
    }
    lemma_plain_balanced(seq![p(',')]);
    lemma_balanced_join(params, seq![p(',')]);
    lemma_plain_balanced(seq![p('|')]);
    lemma_static_output_balanced(m.sig.output);
    lemma_rename_self_balanced(tv(m.block@), state);
    lemma_balanced_group(Delim::Brace, rename_self(tv(m.block@), state));
    let j = join(params, seq![p(',')]);
    lemma_balanced_add(seq![p('|')], j);
    lemma_balanced_add(seq![p('|')] + j, seq![p('|')]);
    lemma_balanced_add(seq![p('|')] + j + seq![p('|')], static_output(m.sig.output));
    lemma_balanced_add(
        seq![p('|')] + j + seq![p('|')] + static_output(m.sig.output),
        group(Delim::Brace, rename_self(tv(m.block@), state)),
    );
}

/// In the body of the closure made of a method, no path segment is `self`
/// any more: each one the method's body had is the state's name, and every
/// other token is as it was.
pub proof fn law_body_without_self(state: Seq<char>, block: Seq<TokV>)
    requires
        state != "self"@,
    ensures
        rename_self(block, state).len() == block.len(),
        forall|i: int|
            0 <= i < block.len() ==> #[trigger] rename_self(block, state)[i] != TokV::Segment(
                "self"@,
            ),
        forall|i: int|
            0 <= i < block.len() && block[i] == TokV::Segment("self"@) ==> #[trigger] rename_self(
                block,
                state,
            )[i] == TokV::Segment(state),
        forall|i: int|
            0 <= i < block.len() && block[i] != TokV::Segment("self"@) ==> #[trigger] rename_self(
                block,
                state,
            )[i] == block[i],
{
}

/// Renaming `self` a second time changes nothing.
pub proof fn law_rename_idempotent(state: Seq<char>, block: Seq<TokV>)
    requires
        state != "self"@,
    ensures
        rename_self(rename_self(block, state), state) == rename_self(block, state),
{
    assert(rename_self(rename_self(block, state), state) =~= rename_self(block, state));
}

} // verus!
