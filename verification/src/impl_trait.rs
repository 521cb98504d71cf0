//! The implementation of the trait for the mock struct: each method calls
//! the closure that stands for it.

use vstd::prelude::*;

use crate::attr_syntax::LetMock;
use crate::brackets::{
    balanced, lemma_balanced_add, lemma_balanced_add3, lemma_balanced_flatten,
    lemma_balanced_group, lemma_balanced_join, lemma_plain_balanced,
};
use crate::closure_expr::{method_balanced, narrative_state};
use crate::closure_type::{closure_type_tokens, generate as closure_type, lemma_closure_type_balanced};
use crate::impl_syntax::{derefs, fn_items, ImplMock};
use crate::mock_struct::mock_struct_name;
use crate::syntax::{path_tokens, segments_tokens, ImplItemFn, Path};
use crate::tokens::{
    colon2, extend, flatten, group, ident, join, lemma_flatten_take, lifetime, p, push_close,
    push_colon2, push_ident, push_ident_string, push_lifetime, push_open, push_punct, rarrow, tv,
    Delim, Spacing, Tok, TokV,
};

verus! {

/// `name: FnMut(..) -> ..,` for a method.
pub open spec fn generic_param(target: Seq<TokV>, m: ImplItemFn) -> Seq<TokV> {
    seq![ident(m.sig.ident@), p(':')] + closure_type_tokens(target, m) + seq![p(',')]
}

/// `, name` for a method.
pub open spec fn struct_generic(m: ImplItemFn) -> Seq<TokV> {
    seq![p(','), ident(m.sig.ident@)]
}

/// `fn name(&self) -> String { self.name.lock().unwrap()(self.__narrative_state) }`
pub open spec fn forward_method(m: ImplItemFn) -> Seq<TokV> {
    seq![ident("fn"@), ident(m.sig.ident@)] + group(Delim::Paren, seq![p('&'), ident("self"@)])
        + rarrow() + seq![ident("String"@)] + group(
        Delim::Brace,
        seq![ident("self"@), p('.'), ident(m.sig.ident@), p('.'), ident("lock"@)] + group(
            Delim::Paren,
            seq![],
        ) + seq![p('.'), ident("unwrap"@)] + group(Delim::Paren, seq![]) + group(
            Delim::Paren,
            seq![ident("self"@), p('.'), ident(narrative_state())],
        ),
    )
}

/// The type parameter of each method.
pub open spec fn generic_params(target: Seq<TokV>, ms: Seq<ImplItemFn>) -> Seq<Seq<TokV>> {
    Seq::new(ms.len(), |i: int| generic_param(target, ms[i]))
}

/// The argument of the mock struct for each method.
pub open spec fn struct_generics(ms: Seq<ImplItemFn>) -> Seq<Seq<TokV>> {
    Seq::new(ms.len(), |i: int| struct_generic(ms[i]))
}

/// The trait method of each method.
pub open spec fn forward_methods(ms: Seq<ImplItemFn>) -> Seq<Seq<TokV>> {
    Seq::new(ms.len(), |i: int| forward_method(ms[i]))
}

/// The implementation of the trait `trait_` for the mock struct `name`,
/// with one closure type parameter per method of `ms`.
pub open spec fn impl_trait_tokens(
    name: Seq<char>,
    trait_: Path,
    target: Seq<TokV>,
    ms: Seq<ImplItemFn>,
) -> Seq<TokV> {
    seq![ident("impl"@), p('<')] + lifetime(narrative_state()) + seq![p(',')] + flatten(
        generic_params(target, ms),
    ) + seq![p('>')] + path_tokens(trait_) + seq![ident("for"@), ident(name), p('<')] + lifetime(
        narrative_state(),
    ) + flatten(struct_generics(ms)) + seq![p('>')] + group(
        Delim::Brace,
        flatten(forward_methods(ms)),
    )
}

/// Appends the tokens of a path.
pub fn push_path(out: &mut Vec<Tok>, path: &Path)
    ensures
        tv(final(out)@) == tv(old(out)@) + path_tokens(*path),
{
    if path.leading_colon {
        push_colon2(out);
    }
    let ghost start = tv(out@);
    let ghost segs = segments_tokens(path.segments@);
    let mut i: usize = 0;
    while i < path.segments.len()
        invariant
            i <= path.segments.len(),
            segs == segments_tokens(path.segments@),
            tv(out@) == start + join(segs.take(i as int), colon2()),
        decreases path.segments.len() - i,
    {
        if i > 0 {
            push_colon2(out);
        }
        push_ident_string(out, path.segments[i].ident.clone());
        extend(out, &path.segments[i].arguments);
        proof {
            assert(segs.take(i + 1).drop_last() =~= segs.take(i as int));
            assert(segs.take(i + 1).last() == segs[i as int]);
            if i == 0 {
                assert(join(segs.take(1), colon2()) == segs[0]);
            }
            assert(tv(out@) =~= start + join(segs.take(i + 1), colon2()));
        }
        i = i + 1;
    }
    assert(segs.take(segs.len() as int) =~= segs);
    assert(tv(out@) =~= tv(old(out)@) + path_tokens(*path));
}

fn push_generic_param(out: &mut Vec<Tok>, target: &Vec<Tok>, m: &ImplItemFn)
    ensures
        tv(final(out)@) == tv(old(out)@) + generic_param(tv(target@), *m),
{
    push_ident_string(out, m.sig.ident.clone());
    push_punct(out, ':', Spacing::Alone);
    let ty = closure_type(target, m);
    extend(out, &ty);
    push_punct(out, ',', Spacing::Alone);
    assert(tv(out@) =~= tv(old(out)@) + generic_param(tv(target@), *m));
}

fn push_forward_method(out: &mut Vec<Tok>, m: &ImplItemFn)
    ensures
        tv(final(out)@) == tv(old(out)@) + forward_method(*m),
{
    push_ident(out, "fn");
    push_ident_string(out, m.sig.ident.clone());
    push_open(out, Delim::Paren);
    push_punct(out, '&', Spacing::Alone);
    push_ident(out, "self");
    push_close(out, Delim::Paren);
    push_punct(out, '-', Spacing::Joint);
    push_punct(out, '>', Spacing::Alone);
    push_ident(out, "String");
    push_open(out, Delim::Brace);
    push_ident(out, "self");
    push_punct(out, '.', Spacing::Alone);
    push_ident_string(out, m.sig.ident.clone());
    push_punct(out, '.', Spacing::Alone);
    push_ident(out, "lock");
    push_open(out, Delim::Paren);
    push_close(out, Delim::Paren);
    push_punct(out, '.', Spacing::Alone);
    push_ident(out, "unwrap");
    push_open(out, Delim::Paren);
    push_close(out, Delim::Paren);
    push_open(out, Delim::Paren);
    push_ident(out, "self");
    push_punct(out, '.', Spacing::Alone);
    push_ident(out, "__narrative_state");
    push_close(out, Delim::Paren);
    push_close(out, Delim::Brace);
    assert(tv(out@) =~= tv(old(out)@) + forward_method(*m));
}

/// Implements the trait for the mock struct: one type parameter per method,
/// bound by the `FnMut` type of its closure, and one method per method,
/// which calls that closure on the state.
#[verifier::spinoff_prover]
#[verifier::rlimit(30)]
pub fn generate(attr: &LetMock, mock: &ImplMock) -> (out: Vec<Tok>)
    requires
        mock.trait_.segments@.len() > 0,
    ensures
        tv(out@) == impl_trait_tokens(
            mock_struct_name(*attr, *mock),
            mock.trait_,
            tv(mock.item_impl.self_ty@),
            fn_items(mock.item_impl.items@),
        ),
{
    let methods = mock.methods();
    let ghost ms = derefs(methods@);
    let target = mock.target();
    let ghost tgt = tv(target@);
    let struct_name = mock.struct_name(attr);
    let ghost name = struct_name@;
    let mut out: Vec<Tok> = Vec::new();
    push_ident(&mut out, "impl");
    push_punct(&mut out, '<', Spacing::Alone);
    push_lifetime(&mut out, "__narrative_state");
    push_punct(&mut out, ',', Spacing::Alone);
    let ghost s1 = tv(out@);
    let mut i: usize = 0;
    while i < methods.len()
        invariant
            i <= methods.len(),
            ms == derefs(methods@),
            tgt == tv(target@),
            tv(out@) == s1 + flatten(generic_params(tgt, ms).take(i as int)),
        decreases methods.len() - i,
    {
        push_generic_param(&mut out, target, methods[i]);
        proof {
            lemma_flatten_take(generic_params(tgt, ms), i as int);
        }
        i = i + 1;
    }
    assert(generic_params(tgt, ms).take(methods.len() as int) =~= generic_params(tgt, ms));
    push_punct(&mut out, '>', Spacing::Alone);
    push_path(&mut out, &mock.trait_);
    push_ident(&mut out, "for");
    push_ident_string(&mut out, struct_name);
    push_punct(&mut out, '<', Spacing::Alone);
    push_lifetime(&mut out, "__narrative_state");
    let ghost s2 = tv(out@);
    let mut i: usize = 0;
    while i < methods.len()
        invariant
            i <= methods.len(),
            ms == derefs(methods@),
            tv(out@) == s2 + flatten(struct_generics(ms).take(i as int)),
        decreases methods.len() - i,
    {
        push_punct(&mut out, ',', Spacing::Alone);
        push_ident_string(&mut out, methods[i].sig.ident.clone());
        proof {
            lemma_flatten_take(struct_generics(ms), i as int);
        }
        i = i + 1;
    }
    assert(struct_generics(ms).take(methods.len() as int) =~= struct_generics(ms));
    push_punct(&mut out, '>', Spacing::Alone);
    push_open(&mut out, Delim::Brace);
    let ghost s3 = tv(out@);
    let mut i: usize = 0;
    while i < methods.len()
        invariant
            i <= methods.len(),
            ms == derefs(methods@),
            tv(out@) == s3 + flatten(forward_methods(ms).take(i as int)),
        decreases methods.len() - i,
    {
        push_forward_method(&mut out, methods[i]);
        proof {
            lemma_flatten_take(forward_methods(ms), i as int);
        }
        i = i + 1;
    }
    assert(forward_methods(ms).take(methods.len() as int) =~= forward_methods(ms));
    push_close(&mut out, Delim::Brace);
    assert(tv(out@) =~= impl_trait_tokens(name, mock.trait_, tgt, ms));
    out
}

} // verus!

verus! {

/// The generic arguments of every segment of the path are balanced.
pub open spec fn path_balanced(path: Path) -> bool {
    forall|i: int|
        0 <= i < path.segments@.len() ==> balanced(#[trigger] tv(path.segments@[i].arguments@))
}

/// A path whose generic arguments are balanced is balanced.
pub proof fn lemma_path_balanced(path: Path)
    requires
        path_balanced(path),
    ensures
        balanced(path_tokens(path)),
{
    let segs = segments_tokens(path.segments@);
    assert forall|i: int| 0 <= i < segs.len() implies balanced(#[trigger] segs[i]) by {
        assert(balanced(tv(path.segments@[i].arguments@)));
        lemma_plain_balanced(seq![ident(path.segments@[i].ident@)]);
        lemma_balanced_add(seq![ident(path.segments@[i].ident@)], tv(path.segments@[i].arguments@));
    }
    lemma_plain_balanced(colon2());
    lemma_balanced_join(segs, colon2());
    lemma_plain_balanced(seq![]);
    if path.leading_colon {
        lemma_balanced_add(colon2(), join(segs, colon2()));
    } else {
        lemma_balanced_add(seq![], join(segs, colon2()));
    }
}

/// A method that forwards to its closure is balanced.
pub proof fn lemma_forward_method_balanced(m: ImplItemFn)
    ensures
        balanced(forward_method(m)),
{
    let empty = Seq::<TokV>::empty();
    lemma_plain_balanced(empty);
    lemma_balanced_group(Delim::Paren, empty);
    let unit = group(Delim::Paren, empty);
    let a = seq![ident("self"@), p('.'), ident(m.sig.ident@), p('.'), ident("lock"@)];
    let b = seq![p('.'), ident("unwrap"@)];
    let c = seq![ident("self"@), p('.'), ident(narrative_state())];
    lemma_plain_balanced(a);
    lemma_plain_balanced(b);
    lemma_plain_balanced(c);
    lemma_balanced_group(Delim::Paren, c);
    lemma_balanced_add3(a, unit, b);
    lemma_balanced_add3(a + unit + b, unit, group(Delim::Paren, c));
    let body = a + unit + b + unit + group(Delim::Paren, c);
    lemma_balanced_group(Delim::Brace, body);
    let recv = seq![p('&'), ident("self"@)];
    lemma_plain_balanced(recv);
    lemma_balanced_group(Delim::Paren, recv);
    let head = seq![ident("fn"@), ident(m.sig.ident@)];
    let mid = rarrow() + seq![ident("String"@)];
    lemma_plain_balanced(head);
    lemma_plain_balanced(mid);
    lemma_balanced_add3(head, group(Delim::Paren, recv), mid);
    lemma_balanced_add(head + group(Delim::Paren, recv) + mid, group(Delim::Brace, body));
    assert(forward_method(m) =~= head + group(Delim::Paren, recv) + mid + group(Delim::Brace, body));
}

/// The implementation of the trait for the mock struct is well bracketed
/// whenever the trait's path, the target type and the methods are.
pub proof fn lemma_impl_trait_balanced(name: Seq<char>, trait_: Path, target: Seq<TokV>, ms: Seq<ImplItemFn>)
    requires
        path_balanced(trait_),
        balanced(target),
        forall|i: int| 0 <= i < ms.len() ==> method_balanced(#[trigger] ms[i]),
    ensures
        balanced(impl_trait_tokens(name, trait_, target, ms)),
{
    let gps = generic_params(target, ms);
    assert forall|i: int| 0 <= i < gps.len() implies balanced(#[trigger] gps[i]) by {
        let m = ms[i];
        assert(method_balanced(m));
        lemma_closure_type_balanced(target, m);
        lemma_plain_balanced(seq![ident(m.sig.ident@), p(':')]);
        lemma_plain_balanced(seq![p(',')]);
        lemma_balanced_add3(seq![ident(m.sig.ident@), p(':')], closure_type_tokens(target, m), seq![p(',')]);
    }
    lemma_balanced_flatten(gps);
    let sgs = struct_generics(ms);
    assert forall|i: int| 0 <= i < sgs.len() implies balanced(#[trigger] sgs[i]) by {
        lemma_plain_balanced(struct_generic(ms[i]));
    }
    lemma_balanced_flatten(sgs);
    let fms = forward_methods(ms);
    assert forall|i: int| 0 <= i < fms.len() implies balanced(#[trigger] fms[i]) by {
        lemma_forward_method_balanced(ms[i]);
    }
    lemma_balanced_flatten(fms);
    lemma_balanced_group(Delim::Brace, flatten(fms));
    lemma_path_balanced(trait_);
    let h1 = seq![ident("impl"@), p('<')] + lifetime(narrative_state()) + seq![p(',')];
    let h2 = seq![p('>')];
    let h3 = seq![ident("for"@), ident(name), p('<')] + lifetime(narrative_state());
    lemma_plain_balanced(h1);
    lemma_plain_balanced(h2);
    lemma_plain_balanced(h3);
    lemma_balanced_add3(h1, flatten(gps), h2);
    lemma_balanced_add3(h1 + flatten(gps) + h2, path_tokens(trait_), h3);
    lemma_balanced_add3(h1 + flatten(gps) + h2 + path_tokens(trait_) + h3, flatten(sgs), h2);
    lemma_balanced_add(
        h1 + flatten(gps) + h2 + path_tokens(trait_) + h3 + flatten(sgs) + h2,
        group(Delim::Brace, flatten(fms)),
    );
    assert(impl_trait_tokens(name, trait_, target, ms) =~= h1 + flatten(gps) + h2 + path_tokens(
        trait_,
    ) + h3 + flatten(sgs) + h2 + group(Delim::Brace, flatten(fms)));
}

} // verus!
