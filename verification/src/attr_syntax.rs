//! The small grammars of the attributes themselves: the argument of the
//! mock attribute, `let name = initial_state`, and the attribute
//! `#[nostrum(default = expr)]` that gives a method of an object trait a
//! default body.

use vstd::prelude::*;

use crate::syntax::{pat_ident_tokens, PatIdent};
use crate::tokens::{ident, lemma_tv_push, p, tv, Delim, Spacing, Tok, TokV};

verus! {

/// What the object attributes refuse.
#[derive(Clone, Copy, PartialEq, Eq, Structural, Debug)]
pub enum NostrumError {
    /// A `#[nostrum(..)]` attribute that is not `#[nostrum(default = expr)]`
    /// ("expected `default`").
    ExpectedDefault,
    /// The argument of `use_obj` is not the name of a type.
    ExpectedTypeName,
    /// The item `use_obj` is put on is not a function.
    ExpectedFn,
}

/// `let pat_ident = expr`: the binding that receives the mock object and the
/// expression that gives the initial value of its state.
#[derive(Debug, PartialEq, Eq)]
pub struct LetMock {
    pub pat_ident: PatIdent,
    pub expr: Vec<Tok>,
}

/// A name that a `let` can bind: an identifier other than `_` and the
/// keywords of a binding pattern.
pub open spec fn binding_name(n: Seq<char>) -> bool {
    n != "_"@ && n != "ref"@ && n != "mut"@
}

/// The tokens `let` `ref`? `mut`? `name` `=` `expr`, with `expr` not empty,
/// read as `(ref?, mut?, name, expr)`; `None` for any other tokens.
pub open spec fn let_mock_of(s: Seq<TokV>) -> Option<(bool, bool, Seq<char>, Seq<TokV>)> {
    if s.len() > 0 && s[0] == ident("let"@) {
        let r: int = if s.len() > 1 && s[1] == ident("ref"@) {
            1
        } else {
            0
        };
        let m: int = if s.len() > 1 + r && s[1 + r] == ident("mut"@) {
            1
        } else {
            0
        };
        let k = 1 + r + m;
        if s.len() > k + 2 && s[k + 1] == p('=') {
            match s[k] {
                TokV::Ident(n) => if binding_name(n) {
                    Some((r == 1, m == 1, n, s.skip(k + 2)))
                } else {
                    None
                },
                _ => None,
            }
        } else {
            None
        }
    } else {
        None
    }
}

/// The token is the identifier `name`.
pub fn is_ident(t: &Tok, name: &str) -> (b: bool)
    ensures
        b == (t@ == ident(name@)),
{
    let n = String::from_str(name);
    match t {
        Tok::Ident(s) => *s == n,
        _ => false,
    }
}

/// The token is the punctuation `c`, standing alone.
pub fn is_punct(t: &Tok, c: char) -> (b: bool)
    ensures
        b == (t@ == p(c)),
{
    match t {
        Tok::Punct(d, Spacing::Alone) => *d == c,
        _ => false,
    }
}

/// The tokens from index `from` on.
pub fn tokens_from(s: &Vec<Tok>, from: usize) -> (out: Vec<Tok>)
    requires
        from <= s@.len(),
    ensures
        tv(out@) == tv(s@).skip(from as int),
{
    let mut out: Vec<Tok> = Vec::new();
    let mut i: usize = from;
    while i < s.len()
        invariant
            from <= i <= s@.len(),
            tv(out@) == tv(s@).subrange(from as int, i as int),
        decreases s.len() - i,
    {
        let t = s[i].copy();
        proof {
            lemma_tv_push(out@, t);
        }
        out.push(t);
        assert(tv(out@) =~= tv(s@).subrange(from as int, i + 1));
        i = i + 1;
    }
    assert(tv(s@).subrange(from as int, i as int) =~= tv(s@).skip(from as int));
    out
}

/// Reads the argument of the mock attribute, `let name = expr`; `None`
/// where the tokens are not of that form.
pub fn parse_let_mock(attr: &Vec<Tok>) -> (r: Option<LetMock>)
    ensures
        r is Some <==> let_mock_of(tv(attr@)) is Some,
        r matches Some(m) ==> let_mock_of(tv(attr@)) == Some(
            (m.pat_ident.by_ref, m.pat_ident.mutability, m.pat_ident.ident@, tv(m.expr@)),
        ),
{
    let ghost s = tv(attr@);
    let n = attr.len();
    if n == 0 || !is_ident(&attr[0], "let") {
        return None;
    }
    let by_ref = n > 1 && is_ident(&attr[1], "ref");
    let r: usize = if by_ref { 1 } else { 0 };
    let mutability = n > 1 + r && is_ident(&attr[1 + r], "mut");
    let k: usize = if mutability { 2 + r } else { 1 + r };
    if n <= k + 2 || !is_punct(&attr[k + 1], '=') {
        return None;
    }
    let name = match &attr[k] {
        Tok::Ident(name) => name,
        _ => {
            return None;
        },
    };
    let under = String::from_str("_");
    let ref_kw = String::from_str("ref");
    let mut_kw = String::from_str("mut");
    if *name == under || *name == ref_kw || *name == mut_kw {
        return None;
    }
    let expr = tokens_from(attr, k + 2);
    Some(LetMock { pat_ident: PatIdent { by_ref, mutability, ident: name.clone() }, expr })
}

/// The tokens of each attribute.
pub open spec fn attrs_tv(attrs: Seq<Vec<Tok>>) -> Seq<Seq<TokV>> {
    Seq::new(attrs.len(), |i: int| tv(attrs[i]@))
}

/// The attribute is a `#[nostrum ..]` attribute: `#`, then a bracketed
/// group that starts with the identifier `nostrum`, not followed by `::`.
pub open spec fn is_nostrum_attr(a: Seq<TokV>) -> bool {
    &&& a.len() >= 4
    &&& a[0] matches TokV::Punct(c, _) && c == '#'
    &&& a[1] == TokV::Open(Delim::Bracket)
    &&& a[2] == ident("nostrum"@)
    &&& a[3] != TokV::Punct(':', Spacing::Joint)
}

/// The attribute is `#[nostrum(default = expr)]` with `expr` not empty.
pub open spec fn is_default_attr(a: Seq<TokV>) -> bool {
    &&& is_nostrum_attr(a)
    &&& a.len() >= 9
    &&& a[3] == TokV::Open(Delim::Paren)
    &&& a[4] == ident("default"@)
    &&& a[5] == p('=')
    &&& a[a.len() - 2] == TokV::Close(Delim::Paren)
    &&& a[a.len() - 1] == TokV::Close(Delim::Bracket)
}

/// What one attribute says of a default body: `Some(expr)` for
/// `#[nostrum(default = expr)]`, nothing for an attribute that is not a
/// `#[nostrum ..]` one, and an error for any other `#[nostrum ..]` one.
pub open spec fn attr_default(a: Seq<TokV>) -> Result<Option<Seq<TokV>>, NostrumError> {
    if !is_nostrum_attr(a) {
        Ok(None)
    } else if is_default_attr(a) {
        Ok(Some(a.subrange(6, a.len() - 2)))
    } else {
        Err(NostrumError::ExpectedDefault)
    }
}

/// What a list of attributes says of a default body: the last default
/// given, or the first error.
pub open spec fn attrs_default(attrs: Seq<Seq<TokV>>) -> Result<Option<Seq<TokV>>, NostrumError>
    decreases attrs.len(),
{
    if attrs.len() == 0 {
        Ok(None)
    } else {
        match attrs_default(attrs.drop_last()) {
            Err(e) => Err(e),
            Ok(before) => match attr_default(attrs.last()) {
                Err(e) => Err(e),
                Ok(Some(e)) => Ok(Some(e)),
                Ok(None) => Ok(before),
            },
        }
    }
}

/// The only error in reading attributes is `ExpectedDefault`.
pub proof fn lemma_attrs_default_error(attrs: Seq<Seq<TokV>>)
    ensures
        attrs_default(attrs) matches Err(e) ==> e == NostrumError::ExpectedDefault,
    decreases attrs.len(),
{
    if attrs.len() > 0 {
        lemma_attrs_default_error(attrs.drop_last());
    }
}

/// Once an error is met, reading more attributes keeps it.
pub proof fn lemma_attrs_default_error_stays(attrs: Seq<Seq<TokV>>, k: int)
    requires
        0 <= k <= attrs.len(),
        attrs_default(attrs.take(k)) is Err,
    ensures
        attrs_default(attrs) == attrs_default(attrs.take(k)),
    decreases attrs.len() - k,
{
    if k < attrs.len() {
        assert(attrs.take(k + 1).drop_last() =~= attrs.take(k));
        lemma_attrs_default_error_stays(attrs, k + 1);
    } else {
        assert(attrs.take(k) =~= attrs);
    }
}

/// A read default by the views of its tokens.
pub open spec fn default_view(r: Result<Option<Vec<Tok>>, NostrumError>) -> Result<
    Option<Seq<TokV>>,
    NostrumError,
> {
    match r {
        Ok(Some(e)) => Ok(Some(tv(e@))),
        Ok(None) => Ok(None),
        Err(e) => Err(e),
    }
}

/// Reads one attribute: the expression of `#[nostrum(default = expr)]`,
/// nothing for another attribute, an error for another `#[nostrum ..]`.
pub fn parse_default_attr(a: &Vec<Tok>) -> (r: Result<Option<Vec<Tok>>, NostrumError>)
    ensures
        default_view(r) == attr_default(tv(a@)),
{
    let ghost s = tv(a@);
    let n = a.len();
    let pound = n >= 4 && match &a[0] {
        Tok::Punct(c, _) => *c == '#',
        _ => false,
    };
    let nostrum = pound && match &a[1] {
        Tok::Open(Delim::Bracket) => true,
        _ => false,
    } && is_ident(&a[2], "nostrum") && match &a[3] {
        Tok::Punct(':', Spacing::Joint) => false,
        _ => true,
    };
    if !nostrum {
        assert(!is_nostrum_attr(s));
        return Ok(None);
    }
    let default = n >= 9 && match &a[3] {
        Tok::Open(Delim::Paren) => true,
        _ => false,
    } && is_ident(&a[4], "default") && is_punct(&a[5], '=') && match &a[n - 2] {
        Tok::Close(Delim::Paren) => true,
        _ => false,
    } && match &a[n - 1] {
        Tok::Close(Delim::Bracket) => true,
        _ => false,
    };
    if !default {
        return Err(NostrumError::ExpectedDefault);
    }
    let mut e: Vec<Tok> = Vec::new();
    let mut i: usize = 6;
    while i < n - 2
        invariant
            6 <= i <= n - 2,
            n == a@.len(),
            n >= 9,
            tv(e@) == s.subrange(6, i as int),
            s == tv(a@),
        decreases n - 2 - i,
    {
        let t = a[i].copy();
        proof {
            lemma_tv_push(e@, t);
        }
        e.push(t);
        assert(tv(e@) =~= s.subrange(6, i + 1));
        i = i + 1;
    }
    Ok(Some(e))
}

/// Reads the attributes of a method or a block: the last default that one
/// of them gives, or the first error.
pub fn default_of_attrs(attrs: &Vec<Vec<Tok>>) -> (r: Result<Option<Vec<Tok>>, NostrumError>)
    ensures
        default_view(r) == attrs_default(attrs_tv(attrs@)),
{
    let mut found: Option<Vec<Tok>> = None;
    let mut i: usize = 0;
    while i < attrs.len()
        invariant
            i <= attrs@.len(),
            default_view(Ok(found)) == attrs_default(attrs_tv(attrs@.take(i as int))),
        decreases attrs.len() - i,
    {
        proof {
            assert(attrs_tv(attrs@.take(i + 1)).drop_last() =~= attrs_tv(attrs@.take(i as int)));
            assert(attrs_tv(attrs@.take(i + 1)).last() == tv(attrs@[i as int]@));
        }
        match parse_default_attr(&attrs[i]) {
            Err(e) => {
                proof {
                    assert(attrs_tv(attrs@).take(i + 1) =~= attrs_tv(attrs@.take(i + 1)));
                    lemma_attrs_default_error_stays(attrs_tv(attrs@), i + 1);
                    assert(attrs_tv(attrs@) =~= attrs_tv(attrs@.take(attrs@.len() as int))) by {
                        assert(attrs@.take(attrs@.len() as int) =~= attrs@);
                    }
                }
                return Err(e);
            },
            Ok(Some(e)) => {
                found = Some(e);
            },
            Ok(None) => {},
        }
        i = i + 1;
    }
    assert(attrs@.take(attrs@.len() as int) =~= attrs@);
    Ok(found)
}

} // verus!

verus! {

/// The argument of the mock attribute reads back as what it was written
/// with: `let`, a binding pattern, `=` and a state expression give that
/// binding and that expression.
pub proof fn law_let_mock_reads_back(pat: PatIdent, expr: Seq<TokV>)
    requires
        binding_name(pat.ident@),
        expr.len() > 0,
    ensures
        let_mock_of(seq![ident("let"@)] + pat_ident_tokens(pat) + seq![p('=')] + expr) == Some(
            (pat.by_ref, pat.mutability, pat.ident@, expr),
        ),
{
    reveal_strlit("mut");
    reveal_strlit("ref");
    let pt = pat_ident_tokens(pat);
    let s = seq![ident("let"@)] + pt + seq![p('=')] + expr;
    let k = pt.len() as int;
    let n = ident(pat.ident@);
    if pat.by_ref && pat.mutability {
        assert(pt =~= seq![ident("ref"@), ident("mut"@), n]);
    } else if pat.by_ref {
        assert(pt =~= seq![ident("ref"@), n]);
    } else if pat.mutability {
        assert(pt =~= seq![ident("mut"@), n]);
    } else {
        assert(pt =~= seq![n]);
    }
    assert(s[0] == ident("let"@));
    assert(s[k] == n);
    assert(s[k + 1] == p('='));
    assert(s.skip(k + 2) =~= expr);
    assert(forall|j: int| 1 <= j <= k ==> s[j] == pt[j - 1]);
    assert(s.len() > k + 2);
    assert("ref"@ != "mut"@) by {
        assert("ref"@[0] == 'r');
        assert("mut"@[0] == 'm');
    }
    if pat.by_ref && pat.mutability {
        assert(s[1] == ident("ref"@) && s[2] == ident("mut"@));
    } else if pat.by_ref {
        assert(s[1] == ident("ref"@) && s[2] == n && s[2] != ident("mut"@));
    } else if pat.mutability {
        assert(s[1] == ident("mut"@) && s[1] != ident("ref"@));
    } else {
        assert(s[1] == n && s[1] != ident("ref"@) && s[1] != ident("mut"@));
    }
}

} // verus!

verus! {

/// The attribute `#[nostrum(default = e)]`, token by token.
pub open spec fn nostrum_default_attr(e: Seq<TokV>) -> Seq<TokV> {
    seq![
        p('#'),
        TokV::Open(Delim::Bracket),
        ident("nostrum"@),
        TokV::Open(Delim::Paren),
        ident("default"@),
        p('='),
    ] + e + seq![TokV::Close(Delim::Paren), TokV::Close(Delim::Bracket)]
}

/// How the attributes of a method or a block give its default body: an
/// attribute that is not a `#[nostrum ..]` one, wherever it stands, changes
/// nothing; `#[nostrum(default = e)]` gives the default `e`, whatever came
/// before it without error.
pub proof fn law_default_of_attributes(attrs: Seq<Seq<TokV>>, a: Seq<TokV>, e: Seq<TokV>)
    ensures
        (a.len() < 3 || a[2] != ident("nostrum"@)) ==> attrs_default(attrs.push(a))
            == attrs_default(attrs),
        (attrs_default(attrs) is Ok && e.len() > 0) ==> attrs_default(
            attrs.push(nostrum_default_attr(e)),
        ) == Ok::<Option<Seq<TokV>>, NostrumError>(Some(e)),
{
    assert(attrs.push(a).drop_last() =~= attrs);
    assert(attrs.push(a).last() == a);
    let d = nostrum_default_attr(e);
    assert(attrs.push(d).drop_last() =~= attrs);
    assert(attrs.push(d).last() == d);
    if e.len() > 0 {
        assert(d.len() == e.len() + 8);
        assert(d[0] == p('#'));
        assert(d[1] == TokV::Open(Delim::Bracket));
        assert(d[2] == ident("nostrum"@));
        assert(d[3] == TokV::Open(Delim::Paren));
        assert(d[4] == ident("default"@));
        assert(d[5] == p('='));
        assert(d[d.len() - 2] == TokV::Close(Delim::Paren));
        assert(d[d.len() - 1] == TokV::Close(Delim::Bracket));
        assert(is_nostrum_attr(d));
        assert(is_default_attr(d));
        assert(d.subrange(6, d.len() - 2) =~= e);
    }
}

} // verus!
