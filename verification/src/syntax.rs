//! Plain models of the pieces of Rust syntax that the generators read: an
//! `impl` block, its methods, their signatures and the paths and types in
//! them. Whatever the generators copy verbatim is held as tokens.

use vstd::prelude::*;

use crate::tokens::{colon2, ident, join, tv, Spacing, Tok, TokV};

verus! {

/// The `self` argument of a method: `self`, `&self`, `&mut self`,
/// `mut self`, or `self: Type`.
#[derive(Clone, Copy, PartialEq, Eq, Structural, Debug)]
pub struct Receiver {
    /// Written with `&`.
    pub reference: bool,
    /// Written with `mut`.
    pub mutability: bool,
}

/// A type: a reference type, whose parts are known, or any other type,
/// held as its tokens.
#[derive(Debug, PartialEq, Eq)]
pub enum Ty {
    Reference { lifetime: Option<String>, mutability: bool, elem: Vec<Tok> },
    Other(Vec<Tok>),
}

/// One argument in a signature.
#[derive(Debug, PartialEq, Eq)]
pub enum FnArg {
    Receiver(Receiver),
    Typed { pat: Vec<Tok>, ty: Ty },
}

/// The return type of a signature: none, or `-> ty`.
#[derive(Debug, PartialEq, Eq)]
pub enum ReturnType {
    Default,
    Type(Ty),
}

/// The signature of a method: its name, arguments and return type, and all
/// of it as written, from its qualifiers and `fn` to its `where` clause.
#[derive(Debug, PartialEq, Eq)]
pub struct Signature {
    pub ident: String,
    pub inputs: Vec<FnArg>,
    pub output: ReturnType,
    pub tokens: Vec<Tok>,
}

/// The `self` argument of a signature: its first argument, where that is
/// a receiver.
pub open spec fn receiver_of(sig: Signature) -> Option<Receiver> {
    if sig.inputs@.len() > 0 {
        match sig.inputs@[0] {
            FnArg::Receiver(r) => Some(r),
            FnArg::Typed { .. } => None,
        }
    } else {
        None
    }
}

impl Signature {
    /// The receiver of the method, if its first argument is one.
    pub fn receiver(&self) -> (r: Option<Receiver>)
        ensures
            r == receiver_of(*self),
    {
        if self.inputs.len() > 0 {
            match &self.inputs[0] {
                FnArg::Receiver(r) => Some(*r),
                FnArg::Typed { .. } => None,
            }
        } else {
            None
        }
    }
}

/// A method in an `impl` block; `attrs` holds the tokens of each of its
/// outer attributes (`#[..]`), `block` the tokens between the braces of its
/// body.
#[derive(Debug, PartialEq, Eq)]
pub struct ImplItemFn {
    pub attrs: Vec<Vec<Tok>>,
    pub sig: Signature,
    pub block: Vec<Tok>,
}

/// An item in an `impl` block: a method, or anything else, held as tokens.
#[derive(Debug, PartialEq, Eq)]
pub enum ImplItem {
    Fn(ImplItemFn),
    Other(Vec<Tok>),
}

/// One segment of a path: an identifier and its generic arguments.
#[derive(Debug, PartialEq, Eq)]
pub struct PathSegment {
    pub ident: String,
    pub arguments: Vec<Tok>,
}

/// A path such as `std::fmt::Debug`.
#[derive(Debug, PartialEq, Eq)]
pub struct Path {
    pub leading_colon: bool,
    pub segments: Vec<PathSegment>,
}

/// The tokens of a path segment.
pub open spec fn segment_tokens(s: PathSegment) -> Seq<TokV> {
    seq![ident(s.ident@)] + tv(s.arguments@)
}

/// The tokens of each segment of a path.
pub open spec fn segments_tokens(segs: Seq<PathSegment>) -> Seq<Seq<TokV>> {
    Seq::new(segs.len(), |i: int| segment_tokens(segs[i]))
}

/// The tokens of a path.
pub open spec fn path_tokens(path: Path) -> Seq<TokV> {
    (if path.leading_colon {
        colon2()
    } else {
        seq![]
    }) + join(segments_tokens(path.segments@), colon2())
}

/// An `impl` block: `impl Trait for Type { items }` or `impl Type { items }`.
/// `trait_` holds whether the trait is negated (`!Trait`) and its path;
/// `self_ty_name` the identifier of the last segment of the type, where
/// `attrs` the tokens of each outer attribute of the block.
#[derive(Debug, PartialEq, Eq)]
pub struct ItemImpl {
    pub attrs: Vec<Vec<Tok>>,
    pub trait_: Option<(bool, Path)>,
    pub self_ty: Vec<Tok>,
    pub items: Vec<ImplItem>,
}

/// Where a scan of a type's tokens stands: the depth of groups, the depth
/// of angle brackets outside groups, the last identifier seen outside both,
/// whether a `->` outside both has ended the path (what follows is the
/// output of parenthesized arguments, as in `Fn(u8) -> u8`), and whether a
/// `+` outside both made the type a sum of bounds.
pub type TyScan = (int, int, Option<Seq<char>>, bool, bool);

/// The scan after one more token `t`; `arrow` is whether the token before
/// `t` is a `-` glued to it.
pub open spec fn ty_step(st: TyScan, arrow: bool, t: TokV) -> TyScan {
    let (g, a, last, ended, plus) = st;
    if ended {
        st
    } else {
        match t {
            TokV::Open(_) => (g + 1, a, last, ended, plus),
            TokV::Close(_) => (g - 1, a, last, ended, plus),
            TokV::Punct(c, _) => if g != 0 {
                st
            } else if c == '<' {
                (g, a + 1, last, ended, plus)
            } else if c == '>' {
                if arrow {
                    if a == 0 {
                        (g, a, last, true, plus)
                    } else {
                        st
                    }
                } else {
                    (g, a - 1, last, ended, plus)
                }
            } else if c == '+' && a == 0 {
                (g, a, last, ended, true)
            } else {
                st
            },
            TokV::Ident(n) => if g == 0 && a == 0 {
                (g, a, Some(n), ended, plus)
            } else {
                st
            },
            _ => st,
        }
    }
}

/// The scan of the first `i` tokens of a type.
pub open spec fn ty_scan(s: Seq<TokV>, i: int) -> TyScan
    decreases i,
{
    if i <= 0 {
        (0, 0, None, false, false)
    } else {
        ty_step(ty_scan(s, i - 1), i >= 2 && s[i - 2] == TokV::Punct('-', Spacing::Joint), s[i - 1])
    }
}

/// A keyword that starts a type that is not a path: a trait object, an
/// `impl` type, a function pointer, or `_`.
pub open spec fn type_keyword(n: Seq<char>) -> bool {
    n == "dyn"@ || n == "impl"@ || n == "fn"@ || n == "unsafe"@ || n == "extern"@ || n == "for"@
        || n == "_"@
}

/// The token can start a path type: an identifier other than those
/// keywords, a leading `::`, or the `<` of a qualified path.
pub open spec fn starts_path(t: TokV) -> bool {
    match t {
        TokV::Ident(n) => !type_keyword(n),
        TokV::Punct(c, sp) => (c == ':' && sp == Spacing::Joint) || c == '<',
        _ => false,
    }
}

/// The name of a path type: the identifier of its last segment, outside
/// generic arguments and before the output of parenthesized arguments;
/// `None` for a type that is not a path.
pub open spec fn type_path_name_of(s: Seq<TokV>) -> Option<Seq<char>> {
    if s.len() > 0 && starts_path(s[0]) && !ty_scan(s, s.len() as int).4 {
        ty_scan(s, s.len() as int).2
    } else {
        None
    }
}

/// The name of the type that an `impl` block is for.
pub open spec fn self_ty_name(item: ItemImpl) -> Option<Seq<char>> {
    type_path_name_of(tv(item.self_ty@))
}

fn is_type_keyword(n: &String) -> (b: bool)
    ensures
        b == type_keyword(n@),
{
    *n == String::from_str("dyn") || *n == String::from_str("impl") || *n == String::from_str("fn")
        || *n == String::from_str("unsafe") || *n == String::from_str("extern")
        || *n == String::from_str("for") || *n == String::from_str("_")
}

/// The name of a path type, from its tokens: the identifier of its last
/// segment; `None` for a type that is not a path.
pub fn type_path_name(ty: &Vec<Tok>) -> (r: Option<String>)
    ensures
        match r {
            Some(n) => type_path_name_of(tv(ty@)) == Some(n@),
            None => type_path_name_of(tv(ty@)) is None,
        },
{
    let ghost s = tv(ty@);
    let n = ty.len();
    if n == 0 {
        return None;
    }
    let starts = match &ty[0] {
        Tok::Ident(name) => !is_type_keyword(name),
        Tok::Punct(c, sp) => (*c == ':' && *sp == Spacing::Joint) || *c == '<',
        _ => false,
    };
    if !starts {
        return None;
    }
    let mut opens: usize = 0;
    let mut closes: usize = 0;
    let mut lts: usize = 0;
    let mut gts: usize = 0;
    let mut last: Option<&String> = None;
    let mut ended = false;
    let mut plus = false;
    let mut i: usize = 0;
    while i < n
        invariant
            i <= n,
            n == ty@.len(),
            s == tv(ty@),
            opens <= i && closes <= i && lts <= i && gts <= i,
            ty_scan(s, i as int) == (
                opens - closes,
                lts - gts,
                match last {
                    Some(l) => Some(l@),
                    None => None::<Seq<char>>,
                },
                ended,
                plus,
            ),
        decreases n - i,
    {
        let arrow = i >= 1 && match &ty[i - 1] {
            Tok::Punct('-', Spacing::Joint) => true,
            _ => false,
        };
        assert(arrow == (i + 1 >= 2 && s[i + 1 - 2] == TokV::Punct('-', Spacing::Joint)));
        if !ended {
            match &ty[i] {
                Tok::Open(_) => {
                    opens = opens + 1;
                },
                Tok::Close(_) => {
                    closes = closes + 1;
                },
                Tok::Punct(c, _) => {
                    if opens == closes {
                        if *c == '<' {
                            lts = lts + 1;
                        } else if *c == '>' {
                            if arrow {
                                if lts == gts {
                                    ended = true;
                                }
                            } else {
                                gts = gts + 1;
                            }
                        } else if *c == '+' && lts == gts {
                            plus = true;
                        }
                    }
                },
                Tok::Ident(name) => {
                    if opens == closes && lts == gts {
                        last = Some(name);
                    }
                },
                _ => {},
            }
        }
        i = i + 1;
    }
    if plus {
        return None;
    }
    match last {
        Some(l) => Some(l.clone()),
        None => None,
    }
}

/// An identifier pattern: `ref`? `mut`? ident.
#[derive(Debug, PartialEq, Eq)]
pub struct PatIdent {
    pub by_ref: bool,
    pub mutability: bool,
    pub ident: String,
}

/// The tokens of an identifier pattern.
pub open spec fn pat_ident_tokens(p: PatIdent) -> Seq<TokV> {
    (if p.by_ref {
        seq![ident("ref"@)]
    } else {
        seq![]
    }) + (if p.mutability {
        seq![ident("mut"@)]
    } else {
        seq![]
    }) + seq![ident(p.ident@)]
}

} // verus!
