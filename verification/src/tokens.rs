//! Plain token trees, written out flat: a group is its opening delimiter,
//! its tokens, and its closing delimiter.

use vstd::prelude::*;

verus! {

/// How a group is delimited.
#[derive(Clone, Copy, PartialEq, Eq, Structural, Debug)]
pub enum Delim {
    Paren,
    Brace,
    Bracket,
    Invisible,
}

/// Whether a punctuation character is glued to the one that follows it.
#[derive(Clone, Copy, PartialEq, Eq, Structural, Debug)]
pub enum Spacing {
    Alone,
    Joint,
}

/// One token.
#[derive(Debug, PartialEq, Eq)]
pub enum Tok {
    /// An identifier or keyword.
    Ident(String),
    /// An identifier that names a path segment, such as `self` in
    /// `self.name` or `call` in `call(x)`.
    Segment(String),
    /// A punctuation character.
    Punct(char, Spacing),
    /// A literal, as written.
    Literal(String),
    /// The start of a group.
    Open(Delim),
    /// The end of a group.
    Close(Delim),
}

/// A token with its text as a sequence of characters.
pub enum TokV {
    Ident(Seq<char>),
    Segment(Seq<char>),
    Punct(char, Spacing),
    Literal(Seq<char>),
    Open(Delim),
    Close(Delim),
}

impl View for Tok {
    type V = TokV;

    open spec fn view(&self) -> TokV {
        match self {
            Tok::Ident(s) => TokV::Ident(s@),
            Tok::Segment(s) => TokV::Segment(s@),
            Tok::Punct(c, sp) => TokV::Punct(*c, *sp),
            Tok::Literal(s) => TokV::Literal(s@),
            Tok::Open(d) => TokV::Open(*d),
            Tok::Close(d) => TokV::Close(*d),
        }
    }
}

/// The tokens of a sequence, each by its view.
pub open spec fn tv(s: Seq<Tok>) -> Seq<TokV> {
    Seq::new(s.len(), |i: int| s[i]@)
}

/// An identifier token.
pub open spec fn ident(s: Seq<char>) -> TokV {
    TokV::Ident(s)
}

/// A punctuation token that stands alone.
pub open spec fn p(c: char) -> TokV {
    TokV::Punct(c, Spacing::Alone)
}

/// A punctuation token glued to the next one.
pub open spec fn pj(c: char) -> TokV {
    TokV::Punct(c, Spacing::Joint)
}

/// `->`
pub open spec fn rarrow() -> Seq<TokV> {
    seq![pj('-'), p('>')]
}

/// `::`
pub open spec fn colon2() -> Seq<TokV> {
    seq![pj(':'), p(':')]
}

/// A lifetime `'name`.
pub open spec fn lifetime(name: Seq<char>) -> Seq<TokV> {
    seq![pj('\''), ident(name)]
}

/// A group with the given delimiter around `inner`.
pub open spec fn group(d: Delim, inner: Seq<TokV>) -> Seq<TokV> {
    seq![TokV::Open(d)] + inner + seq![TokV::Close(d)]
}

/// The concatenation of a sequence of token sequences.
pub open spec fn flatten(parts: Seq<Seq<TokV>>) -> Seq<TokV>
    decreases parts.len(),
{
    if parts.len() == 0 {
        seq![]
    } else {
        flatten(parts.drop_last()) + parts.last()
    }
}

/// The token sequences joined by `sep`.
pub open spec fn join(parts: Seq<Seq<TokV>>, sep: Seq<TokV>) -> Seq<TokV>
    decreases parts.len(),
{
    if parts.len() == 0 {
        seq![]
    } else if parts.len() == 1 {
        parts[0]
    } else {
        join(parts.drop_last(), sep) + sep + parts.last()
    }
}

/// Taking one more part adds that part at the end.
pub proof fn lemma_flatten_take(parts: Seq<Seq<TokV>>, i: int)
    requires
        0 <= i < parts.len(),
    ensures
        flatten(parts.take(i + 1)) == flatten(parts.take(i)) + parts[i],
{
    assert(parts.take(i + 1).drop_last() =~= parts.take(i));
}

/// The view of a pushed sequence is the view pushed.
pub proof fn lemma_tv_push(s: Seq<Tok>, t: Tok)
    ensures
        tv(s.push(t)) == tv(s).push(t@),
{
    assert(tv(s.push(t)) =~= tv(s).push(t@));
}

impl Tok {
    /// A copy of the token.
    pub fn copy(&self) -> (out: Tok)
        ensures
            out@ == self@,
    {
        match self {
            Tok::Ident(s) => Tok::Ident(s.clone()),
            Tok::Segment(s) => Tok::Segment(s.clone()),
            Tok::Punct(c, sp) => Tok::Punct(*c, *sp),
            Tok::Literal(s) => Tok::Literal(s.clone()),
            Tok::Open(d) => Tok::Open(*d),
            Tok::Close(d) => Tok::Close(*d),
        }
    }
}

/// Appends an identifier.
pub fn push_ident(out: &mut Vec<Tok>, name: &str)
    ensures
        tv(final(out)@) == tv(old(out)@).push(ident(name@)),
{
    let t = Tok::Ident(String::from_str(name));
    proof {
        lemma_tv_push(out@, t);
    }
    out.push(t);
}

/// Appends an identifier given as a `String`.
pub fn push_ident_string(out: &mut Vec<Tok>, name: String)
    ensures
        tv(final(out)@) == tv(old(out)@).push(ident(name@)),
{
    let t = Tok::Ident(name);
    proof {
        lemma_tv_push(out@, t);
    }
    out.push(t);
}

/// Appends a punctuation character.
pub fn push_punct(out: &mut Vec<Tok>, c: char, spacing: Spacing)
    ensures
        tv(final(out)@) == tv(old(out)@).push(TokV::Punct(c, spacing)),
{
    let t = Tok::Punct(c, spacing);
    proof {
        lemma_tv_push(out@, t);
    }
    out.push(t);
}

/// Appends the start of a group.
pub fn push_open(out: &mut Vec<Tok>, d: Delim)
    ensures
        tv(final(out)@) == tv(old(out)@).push(TokV::Open(d)),
{
    let t = Tok::Open(d);
    proof {
        lemma_tv_push(out@, t);
    }
    out.push(t);
}

/// Appends the end of a group.
pub fn push_close(out: &mut Vec<Tok>, d: Delim)
    ensures
        tv(final(out)@) == tv(old(out)@).push(TokV::Close(d)),
{
    let t = Tok::Close(d);
    proof {
        lemma_tv_push(out@, t);
    }
    out.push(t);
}

/// Appends copies of all tokens of `src`.
pub fn extend(out: &mut Vec<Tok>, src: &Vec<Tok>)
    ensures
        tv(final(out)@) == tv(old(out)@) + tv(src@),
{
    let ghost start = tv(out@);
    let mut i: usize = 0;
    while i < src.len()
        invariant
            i <= src.len(),
            tv(out@) == start + tv(src@.take(i as int)),
        decreases src.len() - i,
    {
        let t = src[i].copy();
        proof {
            lemma_tv_push(out@, t);
            assert(tv(src@.take(i + 1)) =~= tv(src@.take(i as int)).push(t@));
        }
        out.push(t);
        i = i + 1;
    }
    assert(src@.take(i as int) =~= src@);
}

/// Appends `->`.
pub fn push_rarrow(out: &mut Vec<Tok>)
    ensures
        tv(final(out)@) == tv(old(out)@) + rarrow(),
{
    push_punct(out, '-', Spacing::Joint);
    push_punct(out, '>', Spacing::Alone);
    assert(tv(out@) =~= tv(old(out)@) + rarrow());
}

/// Appends `::`.
pub fn push_colon2(out: &mut Vec<Tok>)
    ensures
        tv(final(out)@) == tv(old(out)@) + colon2(),
{
    push_punct(out, ':', Spacing::Joint);
    push_punct(out, ':', Spacing::Alone);
    assert(tv(out@) =~= tv(old(out)@) + colon2());
}

/// Appends the lifetime `'name`.
pub fn push_lifetime(out: &mut Vec<Tok>, name: &str)
    ensures
        tv(final(out)@) == tv(old(out)@) + lifetime(name@),
{
    push_punct(out, '\'', Spacing::Joint);
    push_ident(out, name);
    assert(tv(out@) =~= tv(old(out)@) + lifetime(name@));
}

/// Copies of all tokens of `src`.
pub fn copy_all(src: &Vec<Tok>) -> (out: Vec<Tok>)
    ensures
        tv(out@) == tv(src@),
{
    let mut out: Vec<Tok> = Vec::new();
    extend(&mut out, src);
    assert(tv(out@) =~= tv(src@));
    out
}

} // verus!
