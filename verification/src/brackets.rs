//! Well-bracketed token sequences: every group that is opened is closed,
//! by the same delimiter, in the order of nesting.

use vstd::prelude::*;

use crate::tokens::{flatten, group, join, Delim, TokV};

verus! {

/// The stack of open groups after one more token, or `None` where the token
/// closes a group that is not the innermost open one.
pub open spec fn step(stack: Seq<Delim>, t: TokV) -> Option<Seq<Delim>> {
    match t {
        TokV::Open(d) => Some(stack.push(d)),
        TokV::Close(d) => if stack.len() > 0 && stack.last() == d {
            Some(stack.drop_last())
        } else {
            None
        },
        _ => Some(stack),
    }
}

/// The stack of open groups after the tokens, starting from `stack`, or
/// `None` where a group is closed wrongly.
pub open spec fn scan(s: Seq<TokV>, stack: Seq<Delim>) -> Option<Seq<Delim>>
    decreases s.len(),
{
    if s.len() == 0 {
        Some(stack)
    } else {
        match scan(s.drop_last(), stack) {
            Some(st) => step(st, s.last()),
            None => None,
        }
    }
}

/// Every group in the tokens is opened and closed in order.
pub open spec fn balanced(s: Seq<TokV>) -> bool {
    scan(s, seq![]) == Some(Seq::<Delim>::empty())
}

/// The token is neither the start nor the end of a group.
pub open spec fn is_plain(t: TokV) -> bool {
    !(t is Open) && !(t is Close)
}

/// Scanning a concatenation scans its parts in turn.
pub proof fn lemma_scan_append(a: Seq<TokV>, b: Seq<TokV>, stack: Seq<Delim>)
    ensures
        scan(a + b, stack) == match scan(a, stack) {
            Some(st) => scan(b, st),
            None => None,
        },
    decreases b.len(),
{
    if b.len() == 0 {
        assert(a + b =~= a);
    } else {
        lemma_scan_append(a, b.drop_last(), stack);
        assert((a + b).drop_last() =~= a + b.drop_last());
        assert((a + b).last() == b.last());
    }
}

/// Scanning from a larger stack only adds that stack below.
pub proof fn lemma_scan_frame(s: Seq<TokV>, base: Seq<Delim>, stack: Seq<Delim>)
    ensures
        scan(s, stack) matches Some(r) ==> scan(s, base + stack) == Some(base + r),
    decreases s.len(),
{
    if s.len() > 0 {
        lemma_scan_frame(s.drop_last(), base, stack);
        match scan(s.drop_last(), stack) {
            Some(st) => {
                assert(scan(s.drop_last(), base + stack) == Some(base + st));
                match s.last() {
                    TokV::Open(d) => {
                        assert((base + st).push(d) =~= base + st.push(d));
                    },
                    TokV::Close(d) => {
                        if st.len() > 0 && st.last() == d {
                            assert((base + st).drop_last() =~= base + st.drop_last());
                        }
                    },
                    _ => {},
                }
            },
            None => {},
        }
    }
}

/// A balanced sequence leaves any stack as it found it.
pub proof fn lemma_balanced_scan(s: Seq<TokV>, stack: Seq<Delim>)
    requires
        balanced(s),
    ensures
        scan(s, stack) == Some(stack),
{
    lemma_scan_frame(s, stack, seq![]);
    assert(stack + Seq::<Delim>::empty() =~= stack);
}

/// Tokens that open and close no group are balanced.
pub proof fn lemma_plain_balanced(s: Seq<TokV>)
    requires
        forall|i: int| 0 <= i < s.len() ==> is_plain(#[trigger] s[i]),
    ensures
        balanced(s),
    decreases s.len(),
{
    if s.len() > 0 {
        lemma_plain_balanced(s.drop_last());
        assert(is_plain(s[s.len() - 1]));
    }
}

/// The concatenation of balanced sequences is balanced.
pub proof fn lemma_balanced_add(a: Seq<TokV>, b: Seq<TokV>)
    requires
        balanced(a),
        balanced(b),
    ensures
        balanced(a + b),
{
    lemma_scan_append(a, b, seq![]);
}

/// The concatenation of three balanced sequences is balanced.
pub proof fn lemma_balanced_add3(a: Seq<TokV>, b: Seq<TokV>, c: Seq<TokV>)
    requires
        balanced(a),
        balanced(b),
        balanced(c),
    ensures
        balanced(a + b + c),
{
    lemma_balanced_add(a, b);
    lemma_balanced_add(a + b, c);
}

/// A group around a balanced sequence is balanced.
pub proof fn lemma_balanced_group(d: Delim, inner: Seq<TokV>)
    requires
        balanced(inner),
    ensures
        balanced(group(d, inner)),
{
    let open = seq![TokV::Open(d)];
    let close = seq![TokV::Close(d)];
    let empty = Seq::<Delim>::empty();
    assert(open.drop_last() =~= Seq::<TokV>::empty());
    assert(scan(Seq::<TokV>::empty(), empty) == Some(empty));
    assert(empty.push(d) =~= seq![d]);
    assert(scan(open, empty) == Some(seq![d]));
    lemma_scan_append(open, inner, empty);
    lemma_balanced_scan(inner, seq![d]);
    assert(scan(open + inner, empty) == Some(seq![d]));
    lemma_scan_append(open + inner, close, empty);
    assert(close.drop_last() =~= Seq::<TokV>::empty());
    assert(scan(Seq::<TokV>::empty(), seq![d]) == Some(seq![d]));
    assert(seq![d].drop_last() =~= empty);
    assert(scan(close, seq![d]) == Some(empty));
}

/// Balanced parts make a balanced concatenation.
pub proof fn lemma_balanced_flatten(parts: Seq<Seq<TokV>>)
    requires
        forall|i: int| 0 <= i < parts.len() ==> balanced(#[trigger] parts[i]),
    ensures
        balanced(flatten(parts)),
    decreases parts.len(),
{
    if parts.len() == 0 {
        lemma_plain_balanced(seq![]);
    } else {
        lemma_balanced_flatten(parts.drop_last());
        assert(balanced(parts[parts.len() - 1]));
        lemma_balanced_add(flatten(parts.drop_last()), parts.last());
    }
}

/// Balanced parts joined by a balanced separator are balanced.
pub proof fn lemma_balanced_join(parts: Seq<Seq<TokV>>, sep: Seq<TokV>)
    requires
        forall|i: int| 0 <= i < parts.len() ==> balanced(#[trigger] parts[i]),
        balanced(sep),
    ensures
        balanced(join(parts, sep)),
    decreases parts.len(),
{
    if parts.len() == 0 {
        lemma_plain_balanced(seq![]);
    } else if parts.len() == 1 {
        assert(balanced(parts[0]));
    } else {
        lemma_balanced_join(parts.drop_last(), sep);
        assert(balanced(parts[parts.len() - 1]));
        lemma_balanced_add(join(parts.drop_last(), sep), sep);
        lemma_balanced_add(join(parts.drop_last(), sep) + sep, parts.last());
    }
}

/// A map that keeps every start and end of a group keeps balance.
pub proof fn lemma_balanced_same_shape(a: Seq<TokV>, b: Seq<TokV>, stack: Seq<Delim>)
    requires
        a.len() == b.len(),
        forall|i: int|
            0 <= i < a.len() ==> (#[trigger] a[i] == b[i] || (is_plain(a[i]) && is_plain(b[i]))),
    ensures
        scan(a, stack) == scan(b, stack),
    decreases a.len(),
{
    if a.len() > 0 {
        lemma_balanced_same_shape(a.drop_last(), b.drop_last(), stack);
        assert(a[a.len() - 1] == b[b.len() - 1] || (is_plain(a[a.len() - 1]) && is_plain(
            b[b.len() - 1],
        )));
    }
}

} // verus!
