//! The struct that holds a mock object.

use vstd::prelude::*;

use crate::attr_syntax::LetMock;
use crate::brackets::{balanced, lemma_balanced_add, lemma_balanced_add3, lemma_balanced_group, lemma_plain_balanced};
use crate::impl_syntax::ImplMock;
use crate::tokens::{
    colon2, group, ident, lifetime, p, push_close, push_colon2, push_ident, push_ident_string,
    push_lifetime, push_open, push_punct, tv, Delim, Spacing, Tok, TokV,
};

verus! {

/// `#[allow(lints)]`
pub open spec fn allow_attr(lints: Seq<TokV>) -> Seq<TokV> {
    seq![p('#')] + group(Delim::Bracket, seq![ident("allow"@)] + group(Delim::Paren, lints))
}

/// Appends `#[allow(` ; the caller appends the lints and then
/// `push_allow_end`.
pub fn push_allow_start(out: &mut Vec<Tok>)
    ensures
        tv(final(out)@) == tv(old(out)@) + seq![p('#'), TokV::Open(Delim::Bracket), ident("allow"@), TokV::Open(Delim::Paren)],
{
    push_punct(out, '#', Spacing::Alone);
    push_open(out, Delim::Bracket);
    push_ident(out, "allow");
    push_open(out, Delim::Paren);
    assert(tv(out@) =~= tv(old(out)@) + seq![p('#'), TokV::Open(Delim::Bracket), ident("allow"@), TokV::Open(Delim::Paren)]);
}

/// Appends the `)]` that closes an allow attribute.
pub fn push_allow_end(out: &mut Vec<Tok>)
    ensures
        tv(final(out)@) == tv(old(out)@) + seq![TokV::Close(Delim::Paren), TokV::Close(Delim::Bracket)],
{
    push_close(out, Delim::Paren);
    push_close(out, Delim::Bracket);
    assert(tv(out@) =~= tv(old(out)@) + seq![TokV::Close(Delim::Paren), TokV::Close(Delim::Bracket)]);
}

/// The name of the mock struct for a binding and a trait.
pub open spec fn mock_struct_name(attr: LetMock, input: ImplMock) -> Seq<char> {
    attr.pat_ident.ident@ + "__"@ + input.trait_.segments@.last().ident@
}

/// The declaration of the mock struct named `name`.
pub open spec fn mock_struct_tokens(name: Seq<char>) -> Seq<TokV> {
    allow_attr(seq![ident("non_camel_case_types"@)]) + allow_attr(
        seq![ident("clippy"@)] + colon2() + seq![ident("extra_unused_lifetimes"@)],
    ) + seq![ident("struct"@), ident(name), p('<')] + lifetime("a"@) + seq![p('>')] + group(
        Delim::Brace,
        seq![],
    )
}

/// Declares the mock struct: `struct name<'a> {}`, with the lints it
/// triggers allowed, its name the binding's name and the trait's name
/// joined by `__`.
pub fn generate(attr: &LetMock, input: &ImplMock) -> (out: Vec<Tok>)
    requires
        input.trait_.segments@.len() > 0,
    ensures
        tv(out@) == mock_struct_tokens(mock_struct_name(*attr, *input)),
{
    let name = input.struct_name(attr);
    let ghost n = name@;
    let mut out: Vec<Tok> = Vec::new();
    push_allow_start(&mut out);
    push_ident(&mut out, "non_camel_case_types");
    push_allow_end(&mut out);
    push_allow_start(&mut out);
    push_ident(&mut out, "clippy");
    push_colon2(&mut out);
    push_ident(&mut out, "extra_unused_lifetimes");
    push_allow_end(&mut out);
    push_ident(&mut out, "struct");
    push_ident_string(&mut out, name);
    push_punct(&mut out, '<', Spacing::Alone);
    push_lifetime(&mut out, "a");
    push_punct(&mut out, '>', Spacing::Alone);
    push_open(&mut out, Delim::Brace);
    push_close(&mut out, Delim::Brace);
    assert(tv(out@) =~= mock_struct_tokens(n));
    out
}

} // verus!

verus! {

/// An allow attribute around balanced lints is balanced.
pub proof fn lemma_allow_attr_balanced(lints: Seq<TokV>)
    requires
        balanced(lints),
    ensures
        balanced(allow_attr(lints)),
{
    lemma_balanced_group(Delim::Paren, lints);
    lemma_plain_balanced(seq![ident("allow"@)]);
    lemma_balanced_add(seq![ident("allow"@)], group(Delim::Paren, lints));
    lemma_balanced_group(Delim::Bracket, seq![ident("allow"@)] + group(Delim::Paren, lints));
    lemma_plain_balanced(seq![p('#')]);
    lemma_balanced_add(
        seq![p('#')],
        group(Delim::Bracket, seq![ident("allow"@)] + group(Delim::Paren, lints)),
    );
}

/// The declaration of the mock struct is well bracketed.
pub proof fn lemma_mock_struct_balanced(name: Seq<char>)
    ensures
        balanced(mock_struct_tokens(name)),
{
    let l1 = seq![ident("non_camel_case_types"@)];
    let l2 = seq![ident("clippy"@)] + colon2() + seq![ident("extra_unused_lifetimes"@)];
    lemma_plain_balanced(l1);
    lemma_plain_balanced(l2);
    lemma_allow_attr_balanced(l1);
    lemma_allow_attr_balanced(l2);
    let mid = seq![ident("struct"@), ident(name), p('<')] + lifetime("a"@) + seq![p('>')];
    lemma_plain_balanced(mid);
    lemma_plain_balanced(seq![]);
    lemma_balanced_group(Delim::Brace, seq![]);
    lemma_balanced_add3(allow_attr(l1), allow_attr(l2), mid);
    lemma_balanced_add(allow_attr(l1) + allow_attr(l2) + mid, group(Delim::Brace, seq![]));
    assert(mock_struct_tokens(name) =~= allow_attr(l1) + allow_attr(l2) + mid + group(
        Delim::Brace,
        seq![],
    ));
}

} // verus!
