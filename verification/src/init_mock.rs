//! The statements that build the mock object: the state, one closure per
//! method, and the mock struct holding them.

use vstd::prelude::*;

use crate::attr_syntax::LetMock;
use crate::brackets::{
    balanced, lemma_balanced_add, lemma_balanced_add3, lemma_balanced_flatten,
    lemma_balanced_group, lemma_plain_balanced,
};
use crate::closure_expr::{closure_tokens, generate_with_state, law_closure_balanced, method_balanced};
use crate::impl_syntax::{derefs, fn_items, ImplMock};
use crate::mock_struct::{
    allow_attr, lemma_allow_attr_balanced, mock_struct_name, push_allow_end, push_allow_start,
};
use crate::syntax::{pat_ident_tokens, ImplItemFn, PatIdent};
use crate::tokens::{
    colon2, extend, flatten, group, ident, lemma_flatten_take, p, push_close, push_colon2,
    push_ident, push_ident_string, push_open, push_punct, tv, Delim, Spacing, Tok, TokV,
};

verus! {

/// The name of the state in the statements that build the mock.
pub open spec fn nostrumock_state() -> Seq<char> {
    "__nostrumock_state"@
}

/// The name of the variable that holds the closure of a method.
pub open spec fn closure_var(m: ImplItemFn) -> Seq<char> {
    "__nostrumock__"@ + m.sig.ident@
}

/// `#[allow(non_snake_case)] let mut __nostrumock__name = closure;`
pub open spec fn let_closure(target: Seq<TokV>, m: ImplItemFn) -> Seq<TokV> {
    allow_attr(seq![ident("non_snake_case"@)]) + seq![
        ident("let"@),
        ident("mut"@),
        ident(closure_var(m)),
        p('='),
    ] + closure_tokens(nostrumock_state(), target, m) + seq![p(';')]
}

/// `name: std::sync::Mutex::new(&mut __nostrumock__name),`
pub open spec fn field_init(m: ImplItemFn) -> Seq<TokV> {
    seq![ident(m.sig.ident@), p(':'), ident("std"@)] + colon2() + seq![ident("sync"@)] + colon2()
        + seq![ident("Mutex"@)] + colon2() + seq![ident("new"@)] + group(
        Delim::Paren,
        seq![p('&'), ident("mut"@), ident(closure_var(m))],
    ) + seq![p(',')]
}

/// The closure statement of each method.
pub open spec fn let_closures(target: Seq<TokV>, ms: Seq<ImplItemFn>) -> Seq<Seq<TokV>> {
    Seq::new(ms.len(), |i: int| let_closure(target, ms[i]))
}

/// The field of the mock struct for each method.
pub open spec fn field_inits(ms: Seq<ImplItemFn>) -> Seq<Seq<TokV>> {
    Seq::new(ms.len(), |i: int| field_init(ms[i]))
}

/// The statements that build the mock `name` bound by `pat`, its state
/// starting as `expr`.
pub open spec fn init_mock_tokens(
    pat: PatIdent,
    expr: Seq<TokV>,
    name: Seq<char>,
    target: Seq<TokV>,
    ms: Seq<ImplItemFn>,
) -> Seq<TokV> {
    seq![ident("let"@), ident("mut"@), ident(nostrumock_state()), p('=')] + expr + seq![p(';')]
        + flatten(let_closures(target, ms)) + seq![ident("let"@)] + pat_ident_tokens(pat) + seq![
        p('='),
        ident(name),
    ] + group(
        Delim::Brace,
        seq![
            ident(nostrumock_state()),
            p(':'),
            p('&'),
            ident("mut"@),
            ident(nostrumock_state()),
            p(','),
        ] + flatten(field_inits(ms)),
    ) + seq![p(';')]
}

fn push_pat_ident(out: &mut Vec<Tok>, pat: &PatIdent)
    ensures
        tv(final(out)@) == tv(old(out)@) + pat_ident_tokens(*pat),
{
    if pat.by_ref {
        push_ident(out, "ref");
    }
    if pat.mutability {
        push_ident(out, "mut");
    }
    push_ident_string(out, pat.ident.clone());
    assert(tv(out@) =~= tv(old(out)@) + pat_ident_tokens(*pat));
}

fn closure_var_name(m: &ImplItemFn) -> (name: String)
    ensures
        name@ == closure_var(*m),
{
    let mut name = String::from_str("__nostrumock__");
    name.append(m.sig.ident.as_str());
    name
}

fn push_let_closure(out: &mut Vec<Tok>, target: &Vec<Tok>, m: &ImplItemFn)
    ensures
        tv(final(out)@) == tv(old(out)@) + let_closure(tv(target@), *m),
{
    push_allow_start(out);
    push_ident(out, "non_snake_case");
    push_allow_end(out);
    push_ident(out, "let");
    push_ident(out, "mut");
    push_ident_string(out, closure_var_name(m));
    push_punct(out, '=', Spacing::Alone);
    let closure = generate_with_state(target, m, "__nostrumock_state");
    extend(out, &closure);
    push_punct(out, ';', Spacing::Alone);
    assert(tv(out@) =~= tv(old(out)@) + let_closure(tv(target@), *m));
}

fn push_field_init(out: &mut Vec<Tok>, m: &ImplItemFn)
    ensures
        tv(final(out)@) == tv(old(out)@) + field_init(*m),
{
    push_ident_string(out, m.sig.ident.clone());
    push_punct(out, ':', Spacing::Alone);
    push_ident(out, "std");
    push_colon2(out);
    push_ident(out, "sync");
    push_colon2(out);
    push_ident(out, "Mutex");
    push_colon2(out);
    push_ident(out, "new");
    push_open(out, Delim::Paren);
    push_punct(out, '&', Spacing::Alone);
    push_ident(out, "mut");
    push_ident_string(out, closure_var_name(m));
    push_close(out, Delim::Paren);
    push_punct(out, ',', Spacing::Alone);
    assert(tv(out@) =~= tv(old(out)@) + field_init(*m));
}

/// `let mut __nostrumock_state = expr;`
pub open spec fn state_init(expr: Seq<TokV>) -> Seq<TokV> {
    seq![ident("let"@), ident("mut"@), ident(nostrumock_state()), p('=')] + expr + seq![p(';')]
}

/// `let pat = name { __nostrumock_state: &mut __nostrumock_state,`
pub open spec fn binding_start(pat: PatIdent, name: Seq<char>) -> Seq<TokV> {
    seq![ident("let"@)] + pat_ident_tokens(pat) + seq![p('='), ident(name)] + seq![
        TokV::Open(Delim::Brace),
        ident(nostrumock_state()),
        p(':'),
        p('&'),
        ident("mut"@),
        ident(nostrumock_state()),
        p(','),
    ]
}

fn push_state_init(out: &mut Vec<Tok>, expr: &Vec<Tok>)
    ensures
        tv(final(out)@) == tv(old(out)@) + state_init(tv(expr@)),
{
    push_ident(out, "let");
    push_ident(out, "mut");
    push_ident(out, "__nostrumock_state");
    push_punct(out, '=', Spacing::Alone);
    extend(out, expr);
    push_punct(out, ';', Spacing::Alone);
    assert(tv(out@) =~= tv(old(out)@) + state_init(tv(expr@)));
}

fn push_binding_start(out: &mut Vec<Tok>, pat: &PatIdent, name: String)
    ensures
        tv(final(out)@) == tv(old(out)@) + binding_start(*pat, name@),
{
    let ghost n = name@;
    push_ident(out, "let");
    push_pat_ident(out, pat);
    push_punct(out, '=', Spacing::Alone);
    push_ident_string(out, name);
    push_open(out, Delim::Brace);
    push_ident(out, "__nostrumock_state");
    push_punct(out, ':', Spacing::Alone);
    push_punct(out, '&', Spacing::Alone);
    push_ident(out, "mut");
    push_ident(out, "__nostrumock_state");
    push_punct(out, ',', Spacing::Alone);
    assert(tv(out@) =~= tv(old(out)@) + binding_start(*pat, n));
}

proof fn lemma_init_mock_shape(
    pat: PatIdent,
    expr: Seq<TokV>,
    name: Seq<char>,
    target: Seq<TokV>,
    ms: Seq<ImplItemFn>,
)
    ensures
        init_mock_tokens(pat, expr, name, target, ms) == state_init(expr) + flatten(
            let_closures(target, ms),
        ) + binding_start(pat, name) + flatten(field_inits(ms)) + seq![
            TokV::Close(Delim::Brace),
            p(';'),
        ],
{
    assert(init_mock_tokens(pat, expr, name, target, ms) =~= state_init(expr) + flatten(
        let_closures(target, ms),
    ) + binding_start(pat, name) + flatten(field_inits(ms)) + seq![
        TokV::Close(Delim::Brace),
        p(';'),
    ]);
}

/// Builds the mock object: a mutable state set to the attribute's
/// expression, one closure per method (its state parameter named
/// `__nostrumock_state`), and the binding of the attribute set to the mock
/// struct that holds the state and each closure in a `Mutex`.
pub fn generate(attr: &LetMock, input: &ImplMock) -> (out: Vec<Tok>)
    requires
        input.trait_.segments@.len() > 0,
    ensures
        tv(out@) == init_mock_tokens(
            attr.pat_ident,
            tv(attr.expr@),
            mock_struct_name(*attr, *input),
            tv(input.item_impl.self_ty@),
            fn_items(input.item_impl.items@),
        ),
{
    let methods = input.methods();
    let ghost ms = derefs(methods@);
    let target = input.target();
    let ghost tgt = tv(target@);
    let struct_name = input.struct_name(attr);
    let ghost name = struct_name@;
    let mut out: Vec<Tok> = Vec::new();
    push_state_init(&mut out, &attr.expr);
    let ghost s1 = tv(out@);
    let mut i: usize = 0;
    while i < methods.len()
        invariant
            i <= methods.len(),
            ms == derefs(methods@),
            tgt == tv(target@),
            tv(out@) == s1 + flatten(let_closures(tgt, ms).take(i as int)),
        decreases methods.len() - i,
    {
        push_let_closure(&mut out, target, methods[i]);
        proof {
            lemma_flatten_take(let_closures(tgt, ms), i as int);
        }
        i = i + 1;
    }
    assert(let_closures(tgt, ms).take(methods.len() as int) =~= let_closures(tgt, ms));
    let ghost a1 = tv(out@);
    push_binding_start(&mut out, &attr.pat_ident, struct_name);
    let ghost s2 = tv(out@);
    let mut i: usize = 0;
    while i < methods.len()
        invariant
            i <= methods.len(),
            ms == derefs(methods@),
            tv(out@) == s2 + flatten(field_inits(ms).take(i as int)),
        decreases methods.len() - i,
    {
        push_field_init(&mut out, methods[i]);
        proof {
            lemma_flatten_take(field_inits(ms), i as int);
        }
        i = i + 1;
    }
    assert(field_inits(ms).take(methods.len() as int) =~= field_inits(ms));
    let ghost a2 = tv(out@);
    push_close(&mut out, Delim::Brace);
    push_punct(&mut out, ';', Spacing::Alone);
    proof {
        lemma_init_mock_shape(attr.pat_ident, tv(attr.expr@), name, tgt, ms);
        assert(s1 == state_init(tv(attr.expr@)));
        assert(a1 == s1 + flatten(let_closures(tgt, ms)));
        assert(s2 == a1 + binding_start(attr.pat_ident, name));
        assert(a2 == s2 + flatten(field_inits(ms)));
        assert(tv(out@) =~= a2 + seq![TokV::Close(Delim::Brace), p(';')]);
    }
    out
}

} // verus!

verus! {

/// The statements that build the mock are well bracketed whenever the
/// initial state, the target type and the methods are.
pub proof fn lemma_init_mock_balanced(
    pat: PatIdent,
    expr: Seq<TokV>,
    name: Seq<char>,
    target: Seq<TokV>,
    ms: Seq<ImplItemFn>,
)
    requires
        balanced(expr),
        balanced(target),
        forall|i: int| 0 <= i < ms.len() ==> method_balanced(#[trigger] ms[i]),
    ensures
        balanced(init_mock_tokens(pat, expr, name, target, ms)),
{
    let lcs = let_closures(target, ms);
    assert forall|i: int| 0 <= i < lcs.len() implies balanced(#[trigger] lcs[i]) by {
        let m = ms[i];
        assert(method_balanced(m));
        law_closure_balanced(nostrumock_state(), target, m);
        let lints = seq![ident("non_snake_case"@)];
        lemma_plain_balanced(lints);
        lemma_allow_attr_balanced(lints);
        let head = seq![ident("let"@), ident("mut"@), ident(closure_var(m)), p('=')];
        lemma_plain_balanced(head);
        lemma_plain_balanced(seq![p(';')]);
        lemma_balanced_add3(allow_attr(lints), head, closure_tokens(nostrumock_state(), target, m));
        lemma_balanced_add(
            allow_attr(lints) + head + closure_tokens(nostrumock_state(), target, m),
            seq![p(';')],
        );
    }
    lemma_balanced_flatten(lcs);
    let fis = field_inits(ms);
    assert forall|i: int| 0 <= i < fis.len() implies balanced(#[trigger] fis[i]) by {
        let m = ms[i];
        let head = seq![ident(m.sig.ident@), p(':'), ident("std"@)] + colon2() + seq![ident("sync"@)]
            + colon2() + seq![ident("Mutex"@)] + colon2() + seq![ident("new"@)];
        let arg = seq![p('&'), ident("mut"@), ident(closure_var(m))];
        lemma_plain_balanced(head);
        lemma_plain_balanced(arg);
        lemma_plain_balanced(seq![p(',')]);
        lemma_balanced_group(Delim::Paren, arg);
        lemma_balanced_add3(head, group(Delim::Paren, arg), seq![p(',')]);
    }
    lemma_balanced_flatten(fis);
    let fields_head = seq![
        ident(nostrumock_state()),
        p(':'),
        p('&'),
        ident("mut"@),
        ident(nostrumock_state()),
        p(','),
    ];
    lemma_plain_balanced(fields_head);
    lemma_balanced_add(fields_head, flatten(fis));
    lemma_balanced_group(Delim::Brace, fields_head + flatten(fis));
    let h1 = seq![ident("let"@), ident("mut"@), ident(nostrumock_state()), p('=')];
    let semi = seq![p(';')];
    let h2 = seq![ident("let"@)] + pat_ident_tokens(pat) + seq![p('='), ident(name)];
    lemma_plain_balanced(h1);
    lemma_plain_balanced(semi);
    lemma_plain_balanced(h2);
    lemma_balanced_add3(h1, expr, semi);
    lemma_balanced_add3(h1 + expr + semi, flatten(lcs), h2);
    lemma_balanced_add3(h1 + expr + semi + flatten(lcs) + h2, group(Delim::Brace, fields_head + flatten(fis)), semi);
    assert(init_mock_tokens(pat, expr, name, target, ms) =~= h1 + expr + semi + flatten(lcs) + h2
        + group(Delim::Brace, fields_head + flatten(fis)) + semi);
}

} // verus!
