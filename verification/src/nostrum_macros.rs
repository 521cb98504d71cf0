//! The attributes that turn a struct's `impl` block into a trait object
//! (`object`) and that use such an object in place of the struct
//! (`use_obj`).
//!
//! `#[object]` on `impl Cat { .. }` produces what the object attribute
//! produces: the trait `CatObj` and its implementation for `Cat`.
//! `#[use_obj(Cat)]` on a function writes, in the function's signature,
//! every `Cat` as `impl CatObj`, so that the function takes any object of
//! `Cat`, not only a `Cat`: `fn call_name(cat: &Cat) -> &str { .. }` becomes
//! `fn call_name(cat: &impl CatObj) -> &str { .. }`. The signature is what
//! follows the function's name up to the first `{`, which starts its body.
//! Written without an argument, `#[use_obj]` takes the type of the
//! function's first parameter: on `fn call_name(cat: &Cat) -> &str`, `Cat`.

use vstd::prelude::*;

use crate::attr_syntax::{is_ident, NostrumError};
use crate::nostrum_attr::{defaults_ok, impl_tokens, obj_name, process, trait_tokens};
use crate::syntax::{type_path_name, type_path_name_of, ItemImpl};
use crate::tokens::{
    extend, flatten, ident, lemma_flatten_take, lemma_tv_push, p, push_ident, push_ident_string, tv,
    Delim, Spacing, Tok, TokV,
};

verus! {

/// Turns an `impl` block of a struct into a trait object: the object trait
/// of the block and its implementation for the struct.
pub fn object(_attr: &Vec<Tok>, item: &ItemImpl) -> (r: Result<Vec<Tok>, NostrumError>)
    ensures
        r is Ok <==> defaults_ok(*item),
        r matches Ok(out) ==> tv(out@) == trait_tokens(*item) + impl_tokens(*item),
        r matches Err(e) ==> e == NostrumError::ExpectedDefault,
{
    process(item)
}

/// The name of the type that the argument of `use_obj` gives: the argument
/// is that one identifier.
pub open spec fn type_name_of(attr: Seq<TokV>) -> Option<Seq<char>> {
    if attr.len() == 1 {
        match attr[0] {
            TokV::Ident(n) => Some(n),
            _ => None,
        }
    } else {
        None
    }
}

/// `impl TObj`: any object of the type named `name`.
pub open spec fn impl_obj(name: Seq<char>) -> Seq<TokV> {
    seq![ident("impl"@), ident(obj_name(name))]
}

/// A token of the signature as `use_obj` writes it: the type's name as
/// `impl TObj`, any other token as it is.
pub open spec fn use_obj_tok(t: TokV, name: Seq<char>) -> Seq<TokV> {
    if t == ident(name) {
        impl_obj(name)
    } else {
        seq![t]
    }
}

/// The tokens of `s` from `from` up to `to`, each as `use_obj` writes it.
pub open spec fn use_obj_range(s: Seq<TokV>, from: int, to: int, name: Seq<char>) -> Seq<TokV> {
    flatten(Seq::new((to - from) as nat, |k: int| use_obj_tok(s[from + k], name)))
}

/// At `i` stands `fn` followed by the function's name.
pub open spec fn fn_at(s: Seq<TokV>, i: int) -> bool {
    0 <= i && i + 1 < s.len() && s[i] == ident("fn"@) && s[i + 1] is Ident
}

/// The function named at `i` has its signature up to `b`: `b` is the first
/// `{` after its name, or the end of the tokens where there is none.
pub open spec fn signature_end(s: Seq<TokV>, i: int, b: int) -> bool {
    &&& i + 2 <= b <= s.len()
    &&& b < s.len() ==> s[b] == TokV::Open(Delim::Brace)
    &&& forall|j: int| i + 2 <= j < b ==> s[j] != TokV::Open(Delim::Brace)
}

/// The function item `s` whose name stands at `i + 1` and whose signature
/// ends at `b`, with every `name` in its signature written `impl TObj`.
pub open spec fn use_obj_tokens(s: Seq<TokV>, i: int, b: int, name: Seq<char>) -> Seq<TokV> {
    s.take(i + 2) + use_obj_range(s, i + 2, b, name) + s.skip(b)
}

/// `fn` and a name stand at `i`.
fn is_fn_at(s: &Vec<Tok>, i: usize) -> (b: bool)
    requires
        i + 1 < s.len(),
    ensures
        b == fn_at(tv(s@), i as int),
{
    if !is_ident(&s[i], "fn") {
        return false;
    }
    let next: usize = i + 1;
    match &s[next] {
        Tok::Ident(_) => true,
        _ => false,
    }
}

/// One more token as `use_obj` writes it.
proof fn lemma_use_obj_range_step(s: Seq<TokV>, from: int, to: int, name: Seq<char>)
    requires
        0 <= from <= to < s.len(),
    ensures
        use_obj_range(s, from, to + 1, name) == use_obj_range(s, from, to, name) + use_obj_tok(
            s[to],
            name,
        ),
{
    let parts = Seq::new((to + 1 - from) as nat, |k: int| use_obj_tok(s[from + k], name));
    lemma_flatten_take(parts, to - from);
    assert(parts.take(to - from + 1) =~= parts);
    assert(parts.take(to - from) =~= Seq::new((to - from) as nat, |k: int| use_obj_tok(s[from + k], name)));
}

/// The first index from `from` on where `t` stands, or the length of `s`
/// where it stands nowhere there.
pub open spec fn find_tok(s: Seq<TokV>, from: int, t: TokV) -> int
    decreases s.len() - from,
{
    if from < 0 || from >= s.len() {
        s.len() as int
    } else if s[from] == t {
        from
    } else {
        find_tok(s, from + 1, t)
    }
}

/// The index from `k` on past the `&`, lifetimes and `mut` that start a
/// reference type.
pub open spec fn skip_ref(s: Seq<TokV>, k: int) -> int
    decreases s.len() - k,
{
    if k < 0 || k >= s.len() {
        k
    } else if s[k] matches TokV::Punct(c, _) && c == '&' {
        skip_ref(s, k + 1)
    } else if s[k] == TokV::Punct('\'', Spacing::Joint) {
        skip_ref(
            s,
            if k + 2 <= s.len() {
                k + 2
            } else {
                s.len() as int
            },
        )
    } else if s[k] == ident("mut"@) {
        skip_ref(s, k + 1)
    } else {
        k
    }
}

/// The name of the type of the first parameter of the function named at
/// `i`: the parameters are the first `( .. )` after the name; the type of
/// the first one follows its `:` and runs to the next `,` or `)`; its name
/// is that of the path type, past `&`, lifetimes and `mut`.
pub open spec fn param_type_name(s: Seq<TokV>, i: int) -> Option<Seq<char>> {
    let q = find_tok(s, i + 2, TokV::Open(Delim::Paren));
    let c = find_tok(s, q + 1, p(':'));
    if c < s.len() {
        let k = skip_ref(s, c + 1);
        let e1 = find_tok(s, k, p(','));
        let e2 = find_tok(s, k, TokV::Close(Delim::Paren));
        let e = if e1 <= e2 {
            e1
        } else {
            e2
        };
        type_path_name_of(s.subrange(k, e))
    } else {
        None
    }
}

/// The type whose object `use_obj` puts in place of it, for the function
/// named at `i`: the one the argument names, or, where the attribute has no
/// argument, the type of the function's first parameter.
pub open spec fn use_obj_name(attr: Seq<TokV>, s: Seq<TokV>, i: int) -> Option<Seq<char>> {
    if attr.len() == 0 {
        param_type_name(s, i)
    } else {
        type_name_of(attr)
    }
}

/// At `i` stands the first `fn` followed by a name.
pub open spec fn first_fn_at(s: Seq<TokV>, i: int) -> bool {
    fn_at(s, i) && forall|j: int| 0 <= j < i ==> !fn_at(s, j)
}

/// The two tokens are the same.
fn tok_eq(a: &Tok, b: &Tok) -> (r: bool)
    ensures
        r == (a@ == b@),
{
    match (a, b) {
        (Tok::Ident(x), Tok::Ident(y)) => *x == *y,
        (Tok::Segment(x), Tok::Segment(y)) => *x == *y,
        (Tok::Punct(c, s1), Tok::Punct(d, s2)) => *c == *d && *s1 == *s2,
        (Tok::Literal(x), Tok::Literal(y)) => *x == *y,
        (Tok::Open(x), Tok::Open(y)) => *x == *y,
        (Tok::Close(x), Tok::Close(y)) => *x == *y,
        _ => false,
    }
}

/// The first index from `from` on where `t` stands, or the length.
fn find_tok_from(s: &Vec<Tok>, from: usize, t: &Tok) -> (r: usize)
    requires
        from <= s.len(),
    ensures
        r == find_tok(tv(s@), from as int, t@),
        from <= r <= s.len(),
{
    let mut j: usize = from;
    while j < s.len() && !tok_eq(&s[j], t)
        invariant
            from <= j <= s.len(),
            find_tok(tv(s@), from as int, t@) == find_tok(tv(s@), j as int, t@),
        decreases s.len() - j,
    {
        j = j + 1;
    }
    j
}

/// The index from `k` on past `&`, lifetimes and `mut`.
fn skip_ref_from(s: &Vec<Tok>, k: usize) -> (r: usize)
    requires
        k <= s.len(),
    ensures
        r == skip_ref(tv(s@), k as int),
        k <= r <= s.len(),
{
    let ghost sv = tv(s@);
    let n = s.len();
    let mut j: usize = k;
    loop
        invariant
            k <= j <= n,
            n == s@.len(),
            sv == tv(s@),
            skip_ref(sv, k as int) == skip_ref(sv, j as int),
        decreases n - j,
    {
        if j >= n {
            return j;
        }
        let amp = match &s[j] {
            Tok::Punct('&', _) => true,
            _ => false,
        };
        let tick = match &s[j] {
            Tok::Punct('\'', Spacing::Joint) => true,
            _ => false,
        };
        if amp || is_ident(&s[j], "mut") {
            j = j + 1;
        } else if tick {
            j = if j < n - 1 {
                j + 2
            } else {
                n
            };
        } else {
            return j;
        }
    }
}

/// The name of the type of the first parameter of the function named at
/// `i`, as `param_type_name` says.
fn param_type_name_of(s: &Vec<Tok>, i: usize) -> (r: Option<String>)
    requires
        i + 2 <= s.len(),
    ensures
        match r {
            Some(n) => param_type_name(tv(s@), i as int) == Some(n@),
            None => param_type_name(tv(s@), i as int) is None,
        },
{
    let ghost sv = tv(s@);
    let q = find_tok_from(s, i + 2, &Tok::Open(Delim::Paren));
    if q >= s.len() {
        assert(find_tok(sv, q + 1, p(':')) == sv.len());
        return None;
    }
    let c = find_tok_from(s, q + 1, &Tok::Punct(':', Spacing::Alone));
    if c >= s.len() {
        return None;
    }
    let k = skip_ref_from(s, c + 1);
    let e1 = find_tok_from(s, k, &Tok::Punct(',', Spacing::Alone));
    let e2 = find_tok_from(s, k, &Tok::Close(Delim::Paren));
    let e = if e1 <= e2 {
        e1
    } else {
        e2
    };
    let mut ty: Vec<Tok> = Vec::new();
    let mut j: usize = k;
    while j < e
        invariant
            k <= j <= e <= s@.len(),
            sv == tv(s@),
            tv(ty@) == sv.subrange(k as int, j as int),
        decreases e - j,
    {
        let t = s[j].copy();
        proof {
            lemma_tv_push(ty@, t);
        }
        ty.push(t);
        assert(tv(ty@) =~= sv.subrange(k as int, j + 1));
        j = j + 1;
    }
    type_path_name(&ty)
}

/// Uses the object of a type in place of the type: on a function, writes
/// every occurrence of the type's name in the function's signature as
/// `impl TObj`. The type is the one the argument names, or, for the
/// attribute written without an argument, the type of the function's first
/// parameter. Refused where the argument is not one identifier, where the
/// item has no `fn` followed by a name, and where the attribute has no
/// argument and the first parameter's type is not a path.
pub fn use_obj(attr: &Vec<Tok>, item: &Vec<Tok>) -> (r: Result<Vec<Tok>, NostrumError>)
    ensures
        r is Ok <==> exists|i: int|
            first_fn_at(tv(item@), i) && use_obj_name(tv(attr@), tv(item@), i) is Some,
        r matches Err(e) ==> e != NostrumError::ExpectedDefault,
        r matches Err(e) ==> (e == NostrumError::ExpectedFn <==> (attr@.len() == 0 || type_name_of(
            tv(attr@),
        ) is Some) && forall|i: int| !fn_at(tv(item@), i)),
        r matches Ok(out) ==> exists|i: int, b: int|
            {
                &&& first_fn_at(tv(item@), i)
                &&& signature_end(tv(item@), i, b)
                &&& tv(out@) == use_obj_tokens(
                    tv(item@),
                    i,
                    b,
                    use_obj_name(tv(attr@), tv(item@), i)->0,
                )
            },
{
    let ghost s = tv(item@);
    let ghost a = tv(attr@);
    let explicit: Option<&String> = if attr.len() == 0 {
        None
    } else if attr.len() == 1 {
        match &attr[0] {
            Tok::Ident(n) => Some(n),
            _ => {
                return Err(NostrumError::ExpectedTypeName);
            },
        }
    } else {
        return Err(NostrumError::ExpectedTypeName);
    };
    let n = item.len();
    if n < 2 {
        return Err(NostrumError::ExpectedFn);
    }
    let mut i: usize = 0;
    while i < n - 1 && !is_fn_at(item, i)
        invariant
            n == item@.len(),
            n >= 2,
            i <= n - 1,
            s == tv(item@),
            forall|j: int| 0 <= j < i ==> !fn_at(s, j),
        decreases n - i,
    {
        i = i + 1;
    }
    if i >= n - 1 {
        assert forall|j: int| !fn_at(s, j) by {
            if 0 <= j < i {
            }
        }
        return Err(NostrumError::ExpectedFn);
    }
    assert(first_fn_at(s, i as int));
    assert forall|j: int| first_fn_at(s, j) implies j == i by {
        if j < i {
        } else if j > i {
            assert(!fn_at(s, i as int));
        }
    }
    let name: String = match explicit {
        Some(nm) => nm.clone(),
        None => match param_type_name_of(item, i) {
            Some(nm) => nm,
            None => {
                return Err(NostrumError::ExpectedTypeName);
            },
        },
    };
    let ghost nm = name@;
    assert(use_obj_name(a, s, i as int) == Some(nm));
    let mut out: Vec<Tok> = Vec::new();
    let mut k: usize = 0;
    while k < i + 2
        invariant
            k <= i + 2 <= n,
            n == item@.len(),
            s == tv(item@),
            tv(out@) == s.take(k as int),
        decreases i + 2 - k,
    {
        let t = item[k].copy();
        proof {
            lemma_tv_push(out@, t);
        }
        out.push(t);
        assert(tv(out@) =~= s.take(k + 1));
        k = k + 1;
    }
    let mut obj = name.clone();
    obj.append("Obj");
    let mut b: usize = i + 2;
    assert(use_obj_range(s, i + 2, i + 2, nm) =~= Seq::<TokV>::empty());
    while b < n && !is_open_brace(&item[b])
        invariant
            i + 2 <= b <= n,
            n == item@.len(),
            s == tv(item@),
            name@ == nm,
            obj@ == obj_name(nm),
            forall|j: int| i + 2 <= j < b ==> s[j] != TokV::Open(Delim::Brace),
            tv(out@) == s.take(i + 2) + use_obj_range(s, i + 2, b as int, nm),
        decreases n - b,
    {
        proof {
            lemma_use_obj_range_step(s, i + 2, b as int, nm);
        }
        let ghost before = tv(out@);
        if is_ident(&item[b], name.as_str()) {
            push_ident(&mut out, "impl");
            push_ident_string(&mut out, obj.clone());
            assert(tv(out@) =~= before + impl_obj(nm));
        } else {
            let t = item[b].copy();
            proof {
                lemma_tv_push(out@, t);
            }
            out.push(t);
            assert(tv(out@) =~= before + seq![s[b as int]]);
        }
        assert(tv(out@) =~= s.take(i + 2) + use_obj_range(s, i + 2, b + 1, nm));
        b = b + 1;
    }
    let ghost sig_end = b as int;
    let ghost head = tv(out@);
    let mut rest: Vec<Tok> = Vec::new();
    let mut c: usize = b;
    while c < n
        invariant
            b <= c <= n,
            n == item@.len(),
            s == tv(item@),
            tv(rest@) == s.subrange(b as int, c as int),
        decreases n - c,
    {
        let t = item[c].copy();
        proof {
            lemma_tv_push(rest@, t);
        }
        rest.push(t);
        assert(tv(rest@) =~= s.subrange(b as int, c + 1));
        c = c + 1;
    }
    extend(&mut out, &rest);
    assert(s.subrange(b as int, n as int) =~= s.skip(b as int));
    assert(signature_end(s, i as int, sig_end));
    assert(tv(out@) == use_obj_tokens(s, i as int, sig_end, nm));
    Ok(out)
}

/// The token starts a `{ .. }` group.
fn is_open_brace(t: &Tok) -> (b: bool)
    ensures
        b == (t@ == TokV::Open(Delim::Brace)),
{
    match t {
        Tok::Open(Delim::Brace) => true,
        _ => false,
    }
}

} // verus!

verus! {

/// In the signature that `use_obj` writes, the type's name no longer stands
/// alone: each token that named the type now reads `impl TObj`.
pub proof fn law_use_obj_no_bare_type(s: Seq<TokV>, from: int, to: int, name: Seq<char>)
    requires
        0 <= from <= to <= s.len(),
        name != "impl"@,
    ensures
        forall|k: int|
            0 <= k < use_obj_range(s, from, to, name).len() ==> #[trigger] use_obj_range(
                s,
                from,
                to,
                name,
            )[k] != ident(name),
    decreases to - from,
{
    if to > from {
        law_use_obj_no_bare_type(s, from, to - 1, name);
        lemma_use_obj_range_step(s, from, to - 1, name);
        let before = use_obj_range(s, from, to - 1, name);
        let tok = use_obj_tok(s[to - 1], name);
        reveal_strlit("Obj");
        assert(obj_name(name).len() == name.len() + 3);
        assert(obj_name(name) != name);
        assert forall|k: int| 0 <= k < tok.len() implies tok[k] != ident(name) by {
            if s[to - 1] == ident(name) {
                assert(tok == impl_obj(name));
            }
        }
        assert forall|k: int|
            0 <= k < use_obj_range(s, from, to, name).len() implies #[trigger] use_obj_range(
            s,
            from,
            to,
            name,
        )[k] != ident(name) by {
            if k >= before.len() {
                assert(use_obj_range(s, from, to, name)[k] == tok[k - before.len()]);
            } else {
                assert(use_obj_range(s, from, to, name)[k] == before[k]);
            }
        }
    } else {
        assert(use_obj_range(s, from, to, name) =~= Seq::<TokV>::empty());
    }
}

} // verus!

verus! {

/// `use_obj` given a type's name as its argument replaces that type, and
/// no other, whatever the function's parameters are; only the attribute
/// written without an argument takes the type of the first parameter.
pub proof fn law_use_obj_replaces_named_type(n: Seq<char>, s: Seq<TokV>, i: int)
    ensures
        use_obj_name(seq![ident(n)], s, i) == Some(n),
        use_obj_name(Seq::<TokV>::empty(), s, i) == param_type_name(s, i),
{
    assert(seq![ident(n)][0] == ident(n));
}

} // verus!
