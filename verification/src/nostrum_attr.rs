//! The object attribute put on an inherent `impl` block of a type `T`: it
//! produces a trait `TObj` declaring the block's methods that take `self`,
//! and the implementation of that trait for `T` made of those methods. A
//! `#[nostrum(default = expr)]` attribute on a method, or on the whole
//! block, gives the method's declaration in the trait the body `{ expr }`;
//! the method's own attribute wins over the block's.

use vstd::prelude::*;

use crate::brackets::{balanced, lemma_balanced_add, lemma_balanced_flatten, lemma_balanced_group, lemma_plain_balanced};
use crate::attr_syntax::{
    attrs_default, attrs_tv, default_of_attrs, default_view, lemma_attrs_default_error, NostrumError,
};
use crate::syntax::{receiver_of, self_ty_name, type_path_name, ImplItem, ImplItemFn, ItemImpl};
use crate::tokens::{
    extend, flatten, group, ident, lemma_flatten_take, p, push_close, push_ident,
    push_ident_string, push_open, push_punct, tv, Delim, Spacing, Tok, TokV,
};

verus! {

/// The methods among the items that take `self`, in order.
pub open spec fn receiver_methods(items: Seq<ImplItem>) -> Seq<ImplItemFn>
    decreases items.len(),
{
    if items.len() == 0 {
        seq![]
    } else {
        receiver_methods(items.drop_last()) + match items.last() {
            ImplItem::Fn(f) => if receiver_of(f.sig) is Some {
                seq![f]
            } else {
                seq![]
            },
            ImplItem::Other(_) => seq![],
        }
    }
}

/// The name of the object trait of a type named `name`.
pub open spec fn obj_name(name: Seq<char>) -> Seq<char> {
    name + "Obj"@
}

/// What the attributes of a method say of its default body.
pub open spec fn own_default(m: ImplItemFn) -> Result<Option<Seq<TokV>>, NostrumError> {
    attrs_default(attrs_tv(m.attrs@))
}

/// What the attributes of the block say of the default body of its methods.
pub open spec fn block_default(item: ItemImpl) -> Result<Option<Seq<TokV>>, NostrumError> {
    attrs_default(attrs_tv(item.attrs@))
}

/// The attributes of the block, and those of each of its methods that take
/// `self`, are read without error.
pub open spec fn defaults_ok(item: ItemImpl) -> bool {
    &&& block_default(item) is Ok
    &&& forall|i: int|
        0 <= i < receiver_methods(item.items@).len() ==> own_default(
            #[trigger] receiver_methods(item.items@)[i],
        ) is Ok
}

/// The default body of a method of the block: its own, else the block's.
pub open spec fn default_of(m: ImplItemFn, item: ItemImpl) -> Option<Seq<TokV>> {
    match own_default(m) {
        Ok(Some(e)) => Some(e),
        _ => match block_default(item) {
            Ok(d) => d,
            Err(_) => None,
        },
    }
}

/// The declaration of a method in the trait: its signature, then `{ expr }`
/// where it has a default `expr`, else `;`.
pub open spec fn trait_decl(m: ImplItemFn, item: ItemImpl) -> Seq<TokV> {
    tv(m.sig.tokens@) + match default_of(m, item) {
        Some(e) => group(Delim::Brace, e),
        None => seq![p(';')],
    }
}

/// The method in the implementation: its signature and its body.
pub open spec fn impl_method(m: ImplItemFn) -> Seq<TokV> {
    tv(m.sig.tokens@) + group(Delim::Brace, tv(m.block@))
}

/// The declaration of each method.
pub open spec fn trait_decls(ms: Seq<ImplItemFn>, item: ItemImpl) -> Seq<Seq<TokV>> {
    Seq::new(ms.len(), |i: int| trait_decl(ms[i], item))
}

/// Each method in the implementation.
pub open spec fn impl_methods(ms: Seq<ImplItemFn>) -> Seq<Seq<TokV>> {
    Seq::new(ms.len(), |i: int| impl_method(ms[i]))
}

/// `pub trait TObj { decls }` for an `impl` block of a type named `T`;
/// nothing where the type has no name.
pub open spec fn trait_tokens(item: ItemImpl) -> Seq<TokV> {
    match self_ty_name(item) {
        Some(n) => seq![ident("pub"@), ident("trait"@), ident(obj_name(n))] + group(
            Delim::Brace,
            flatten(trait_decls(receiver_methods(item.items@), item)),
        ),
        None => seq![],
    }
}

/// `impl TObj for T { methods }` for an `impl` block of a type named `T`;
/// nothing where the type has no name.
pub open spec fn impl_tokens(item: ItemImpl) -> Seq<TokV> {
    match self_ty_name(item) {
        Some(n) => seq![ident("impl"@), ident(obj_name(n)), ident("for"@)] + tv(item.self_ty@)
            + group(Delim::Brace, flatten(impl_methods(receiver_methods(item.items@)))),
        None => seq![],
    }
}

/// The methods of the block that take `self`, in order.
fn receiver_methods_of(items: &Vec<ImplItem>) -> (out: Vec<&ImplItemFn>)
    ensures
        out@.len() == receiver_methods(items@).len(),
        forall|i: int| 0 <= i < out@.len() ==> *out@[i] == receiver_methods(items@)[i],
{
    let mut out: Vec<&ImplItemFn> = Vec::new();
    let mut i: usize = 0;
    while i < items.len()
        invariant
            i <= items.len(),
            out@.len() == receiver_methods(items@.take(i as int)).len(),
            forall|j: int|
                0 <= j < out@.len() ==> *out@[j] == receiver_methods(items@.take(i as int))[j],
        decreases items.len() - i,
    {
        proof {
            assert(items@.take(i + 1).drop_last() =~= items@.take(i as int));
        }
        let ghost before = receiver_methods(items@.take(i as int));
        match &items[i] {
            ImplItem::Fn(method) => {
                if method.sig.receiver().is_some() {
                    out.push(method);
                    assert(receiver_methods(items@.take(i + 1)) == before + seq![*method]);
                } else {
                    assert(receiver_methods(items@.take(i + 1)) =~= before);
                }
            },
            ImplItem::Other(_) => {
                assert(receiver_methods(items@.take(i + 1)) =~= before);
            },
        }
        i = i + 1;
    }
    assert(items@.take(items@.len() as int) =~= items@);
    out
}

fn obj_trait_name(name: &String) -> (out: String)
    ensures
        out@ == obj_name(name@),
{
    let mut out = name.clone();
    out.append("Obj");
    out
}

/// Appends the declaration of a method in the trait, given what its own
/// attributes and the block's say of its default body.
fn push_trait_decl(
    out: &mut Vec<Tok>,
    m: &ImplItemFn,
    own: &Option<Vec<Tok>>,
    block: &Option<Vec<Tok>>,
    Ghost(item): Ghost<ItemImpl>,
)
    requires
        default_view(Ok(*own)) == own_default(*m),
        default_view(Ok(*block)) == block_default(item),
    ensures
        tv(final(out)@) == tv(old(out)@) + trait_decl(*m, item),
{
    extend(out, &m.sig.tokens);
    let default = match own {
        Some(e) => Some(e),
        None => match block {
            Some(e) => Some(e),
            None => None,
        },
    };
    match default {
        Some(e) => {
            push_open(out, Delim::Brace);
            extend(out, e);
            push_close(out, Delim::Brace);
        },
        None => {
            push_punct(out, ';', Spacing::Alone);
        },
    }
    assert(tv(out@) =~= tv(old(out)@) + trait_decl(*m, item));
}

/// The trait declaration made for an `impl` block: `pub trait TObj` with the
/// signature of each method that takes `self`, in order, and the default
/// body that the attributes give it; an attribute `#[nostrum ..]` that is
/// not `#[nostrum(default = expr)]` is refused.
pub fn generate_trait(item: &ItemImpl) -> (r: Result<Vec<Tok>, NostrumError>)
    ensures
        r is Ok <==> defaults_ok(*item),
        r matches Ok(out) ==> tv(out@) == trait_tokens(*item),
        r matches Err(e) ==> e == NostrumError::ExpectedDefault,
{
    let block = match default_of_attrs(&item.attrs) {
        Ok(d) => d,
        Err(e) => {
            proof {
                lemma_attrs_default_error(attrs_tv(item.attrs@));
            }
            return Err(e);
        },
    };
    let methods = receiver_methods_of(&item.items);
    let ghost ms = receiver_methods(item.items@);
    let ghost parts = trait_decls(ms, *item);
    let tname = type_path_name(&item.self_ty);
    let named = tname.is_some();
    let mut out: Vec<Tok> = Vec::new();
    match &tname {
        Some(name) => {
            push_ident(&mut out, "pub");
            push_ident(&mut out, "trait");
            push_ident_string(&mut out, obj_trait_name(name));
            push_open(&mut out, Delim::Brace);
        },
        None => {},
    }
    let ghost start = tv(out@);
    let mut i: usize = 0;
    while i < methods.len()
        invariant
            i <= methods.len(),
            methods@.len() == ms.len(),
            ms == receiver_methods(item.items@),
            forall|j: int| 0 <= j < methods@.len() ==> *methods@[j] == ms[j],
            parts == trait_decls(ms, *item),
            default_view(Ok(block)) == block_default(*item),
            named == self_ty_name(*item) is Some,
            forall|j: int| 0 <= j < i ==> own_default(#[trigger] ms[j]) is Ok,
            named ==> tv(out@) == start + flatten(parts.take(i as int)),
            !named ==> out@.len() == 0,
        decreases methods.len() - i,
    {
        let own = match default_of_attrs(&methods[i].attrs) {
            Ok(d) => d,
            Err(e) => {
                proof {
                    lemma_attrs_default_error(attrs_tv(methods@[i as int].attrs@));
                    assert(own_default(ms[i as int]) is Err);
                }
                return Err(e);
            },
        };
        if named {
            push_trait_decl(&mut out, methods[i], &own, &block, Ghost(*item));
            proof {
                lemma_flatten_take(parts, i as int);
                assert(parts[i as int] == trait_decl(ms[i as int], *item));
                assert(tv(out@) =~= start + flatten(parts.take(i + 1)));
            }
        }
        i = i + 1;
    }
    assert(parts.take(methods.len() as int) =~= parts);
    if named {
        push_close(&mut out, Delim::Brace);
    }
    assert(tv(out@) =~= trait_tokens(*item));
    Ok(out)
}

/// The implementation of that trait: `impl TObj for T` with each method
/// that takes `self`, its signature and its body, in order.
pub fn generate_impl(item: &ItemImpl) -> (out: Vec<Tok>)
    ensures
        tv(out@) == impl_tokens(*item),
{
    let mut out: Vec<Tok> = Vec::new();
    match &type_path_name(&item.self_ty) {
        Some(name) => {
            let methods = receiver_methods_of(&item.items);
            let ghost ms = receiver_methods(item.items@);
            let ghost parts = impl_methods(ms);
            push_ident(&mut out, "impl");
            push_ident_string(&mut out, obj_trait_name(name));
            push_ident(&mut out, "for");
            extend(&mut out, &item.self_ty);
            push_open(&mut out, Delim::Brace);
            let ghost start = tv(out@);
            let mut i: usize = 0;
            while i < methods.len()
                invariant
                    i <= methods.len(),
                    methods@.len() == ms.len(),
                    forall|j: int| 0 <= j < methods@.len() ==> *methods@[j] == ms[j],
                    parts == impl_methods(ms),
                    tv(out@) == start + flatten(parts.take(i as int)),
                decreases methods.len() - i,
            {
                extend(&mut out, &methods[i].sig.tokens);
                push_open(&mut out, Delim::Brace);
                extend(&mut out, &methods[i].block);
                push_close(&mut out, Delim::Brace);
                proof {
                    lemma_flatten_take(parts, i as int);
                    assert(parts[i as int] == impl_method(ms[i as int]));
                    assert(tv(out@) =~= start + flatten(parts.take(i + 1)));
                }
                i = i + 1;
            }
            assert(parts.take(methods.len() as int) =~= parts);
            push_close(&mut out, Delim::Brace);
            assert(tv(out@) =~= impl_tokens(*item));
        },
        None => {
            assert(tv(out@) =~= impl_tokens(*item));
        },
    }
    out
}

/// The trait followed by its implementation; refused where an attribute
/// `#[nostrum ..]` is not `#[nostrum(default = expr)]`.
pub fn process(item: &ItemImpl) -> (r: Result<Vec<Tok>, NostrumError>)
    ensures
        r is Ok <==> defaults_ok(*item),
        r matches Ok(out) ==> tv(out@) == trait_tokens(*item) + impl_tokens(*item),
        r matches Err(e) ==> e == NostrumError::ExpectedDefault,
{
    let mut trait_ = match generate_trait(item) {
        Ok(t) => t,
        Err(e) => {
            return Err(e);
        },
    };
    let impl_ = generate_impl(item);
    extend(&mut trait_, &impl_);
    Ok(trait_)
}

/// The attribute on a parsed `impl` block: what `process` gives for it.
pub fn nostrum(_attr: &Vec<Tok>, item: &ItemImpl) -> (r: Result<Vec<Tok>, NostrumError>)
    ensures
        r is Ok <==> defaults_ok(*item),
        r matches Ok(out) ==> tv(out@) == trait_tokens(*item) + impl_tokens(*item),
        r matches Err(e) ==> e == NostrumError::ExpectedDefault,
{
    process(item)
}

} // verus!

verus! {

/// The default body that the attributes give each method of the block that
/// takes `self` is balanced.
pub open spec fn defaults_balanced(item: ItemImpl) -> bool {
    forall|i: int|
        0 <= i < receiver_methods(item.items@).len() ==> (default_of(
            #[trigger] receiver_methods(item.items@)[i],
            item,
        ) matches Some(e) ==> balanced(e))
}

/// The methods of the items that take `self` have balanced signatures and
/// bodies.
pub open spec fn receiver_methods_balanced(items: Seq<ImplItem>) -> bool {
    forall|i: int|
        0 <= i < items.len() ==> (#[trigger] items[i] matches ImplItem::Fn(f) ==> balanced(
            tv(f.sig.tokens@),
        ) && balanced(tv(f.block@)))
}

/// The methods that take `self` of balanced items are balanced.
pub proof fn lemma_receiver_methods_balanced(items: Seq<ImplItem>)
    requires
        receiver_methods_balanced(items),
    ensures
        forall|i: int|
            0 <= i < receiver_methods(items).len() ==> balanced(
                tv(#[trigger] receiver_methods(items)[i].sig.tokens@),
            ) && balanced(tv(receiver_methods(items)[i].block@)),
    decreases items.len(),
{
    if items.len() > 0 {
        let prev = items.drop_last();
        assert forall|i: int| 0 <= i < prev.len() implies (#[trigger] prev[i] matches ImplItem::Fn(f)
            ==> balanced(tv(f.sig.tokens@)) && balanced(tv(f.block@))) by {
            assert(prev[i] == items[i]);
        }
        lemma_receiver_methods_balanced(prev);
        let last = items[items.len() - 1];
        assert(items.last() == last);
        let rp = receiver_methods(prev);
        assert forall|i: int| 0 <= i < receiver_methods(items).len() implies balanced(
            tv(#[trigger] receiver_methods(items)[i].sig.tokens@),
        ) && balanced(tv(receiver_methods(items)[i].block@)) by {
            if i < rp.len() {
                assert(receiver_methods(items)[i] == rp[i]);
            }
        }
    }
}

/// What the object attribute produces is well bracketed whenever the type,
/// the default bodies and the signatures and bodies of its methods are.
pub proof fn law_object_balanced(item: ItemImpl)
    requires
        balanced(tv(item.self_ty@)),
        defaults_balanced(item),
        receiver_methods_balanced(item.items@),
    ensures
        balanced(trait_tokens(item) + impl_tokens(item)),
{
    let ms = receiver_methods(item.items@);
    lemma_receiver_methods_balanced(item.items@);
    lemma_plain_balanced(seq![]);
    match self_ty_name(item) {
        Some(n) => {
            let decls = trait_decls(ms, item);
            assert forall|i: int| 0 <= i < decls.len() implies balanced(#[trigger] decls[i]) by {
                assert(balanced(tv(ms[i].sig.tokens@)));
                lemma_plain_balanced(seq![p(';')]);
                match default_of(ms[i], item) {
                    Some(e) => {
                        lemma_balanced_group(Delim::Brace, e);
                        lemma_balanced_add(tv(ms[i].sig.tokens@), group(Delim::Brace, e));
                    },
                    None => {
                        lemma_balanced_add(tv(ms[i].sig.tokens@), seq![p(';')]);
                    },
                }
            }
            let meths = impl_methods(ms);
            assert forall|i: int| 0 <= i < meths.len() implies balanced(#[trigger] meths[i]) by {
                assert(balanced(tv(ms[i].sig.tokens@)));
                assert(balanced(tv(ms[i].block@)));
                lemma_balanced_group(Delim::Brace, tv(ms[i].block@));
                lemma_balanced_add(tv(ms[i].sig.tokens@), group(Delim::Brace, tv(ms[i].block@)));
            }
            lemma_balanced_flatten(decls);
            lemma_balanced_flatten(meths);
            lemma_balanced_group(Delim::Brace, flatten(decls));
            lemma_balanced_group(Delim::Brace, flatten(meths));
            let h1 = seq![ident("pub"@), ident("trait"@), ident(obj_name(n))];
            let h2 = seq![ident("impl"@), ident(obj_name(n)), ident("for"@)];
            lemma_plain_balanced(h1);
            lemma_plain_balanced(h2);
            lemma_balanced_add(h1, group(Delim::Brace, flatten(decls)));
            lemma_balanced_add(h2, tv(item.self_ty@));
            lemma_balanced_add(h2 + tv(item.self_ty@), group(Delim::Brace, flatten(meths)));
            lemma_balanced_add(trait_tokens(item), impl_tokens(item));
        },
        None => {
            assert(trait_tokens(item) + impl_tokens(item) =~= Seq::<TokV>::empty());
        },
    }
}

/// The trait and its implementation agree: the trait declares, in order,
/// exactly the methods of the block that take `self`, each with its
/// signature, and the implementation gives each of them with the same
/// signature and the method's own body.
pub proof fn law_trait_matches_impl(item: ItemImpl)
    ensures
        ({
            let ms = receiver_methods(item.items@);
            &&& trait_decls(ms, item).len() == impl_methods(ms).len()
            &&& forall|i: int|
                0 <= i < ms.len() ==> #[trigger] trait_decls(ms, item)[i].take(
                    ms[i].sig.tokens@.len() as int,
                ) == tv(ms[i].sig.tokens@) && impl_methods(ms)[i] == tv(ms[i].sig.tokens@)
                    + group(Delim::Brace, tv(ms[i].block@)) && receiver_of(ms[i].sig) is Some
        }),
{
    let ms = receiver_methods(item.items@);
    lemma_receiver_methods_take_self(item.items@);
    assert forall|i: int| 0 <= i < ms.len() implies #[trigger] trait_decls(ms, item)[i].take(
        ms[i].sig.tokens@.len() as int,
    ) == tv(ms[i].sig.tokens@) by {
        assert(trait_decls(ms, item)[i].take(ms[i].sig.tokens@.len() as int) =~= tv(
            ms[i].sig.tokens@,
        ));
    }
}

/// Every method kept takes `self`.
pub proof fn lemma_receiver_methods_take_self(items: Seq<ImplItem>)
    ensures
        forall|i: int|
            0 <= i < receiver_methods(items).len() ==> receiver_of(
                #[trigger] receiver_methods(items)[i].sig,
            ) is Some,
    decreases items.len(),
{
    if items.len() > 0 {
        lemma_receiver_methods_take_self(items.drop_last());
        let rp = receiver_methods(items.drop_last());
        assert forall|i: int| 0 <= i < receiver_methods(items).len() implies receiver_of(
            #[trigger] receiver_methods(items)[i].sig,
        ) is Some by {
            if i < rp.len() {
                assert(receiver_methods(items)[i] == rp[i]);
            }
        }
    }
}

} // verus!

verus! {

/// The methods that the object trait declares and implements are exactly
/// the methods of the block whose first argument is a receiver (`self`,
/// `&self`, `&mut self`, `mut self`), in the order of the block: the
/// selection goes item by item, keeps such a method, and drops a method
/// without a receiver and any other item.
pub proof fn law_receiver_methods_are_those_taking_self(
    a: Seq<ImplItem>,
    b: Seq<ImplItem>,
    f: ImplItemFn,
    t: Vec<Tok>,
)
    ensures
        receiver_methods(a + b) == receiver_methods(a) + receiver_methods(b),
        receiver_methods(seq![ImplItem::Fn(f)]) == (if f.sig.inputs@.len() > 0
            && f.sig.inputs@[0] is Receiver {
            seq![f]
        } else {
            Seq::<ImplItemFn>::empty()
        }),
        receiver_methods(seq![ImplItem::Other(t)]) == Seq::<ImplItemFn>::empty(),
    decreases b.len(),
{
    if b.len() == 0 {
        assert(a + b =~= a);
        assert(receiver_methods(a) + receiver_methods(b) =~= receiver_methods(a));
    } else {
        law_receiver_methods_are_those_taking_self(a, b.drop_last(), f, t);
        assert((a + b).drop_last() =~= a + b.drop_last());
        assert((a + b).last() == b.last());
        let bl = b.drop_last();
        let lp = match b.last() {
            ImplItem::Fn(g) => if receiver_of(g.sig) is Some {
                seq![g]
            } else {
                Seq::<ImplItemFn>::empty()
            },
            ImplItem::Other(_) => Seq::<ImplItemFn>::empty(),
        };
        assert(receiver_methods(b) == receiver_methods(bl) + lp);
        assert(receiver_methods(a + b) == receiver_methods(a + bl) + lp);
        assert(receiver_methods(a + b) =~= receiver_methods(a) + receiver_methods(b));
    }
    assert(seq![ImplItem::Fn(f)].drop_last() =~= Seq::<ImplItem>::empty());
    assert(seq![ImplItem::Other(t)].drop_last() =~= Seq::<ImplItem>::empty());
    assert(seq![ImplItem::Fn(f)].last() == ImplItem::Fn(f));
    assert(seq![ImplItem::Other(t)].last() == ImplItem::Other(t));
    assert(receiver_methods(Seq::<ImplItem>::empty()) =~= Seq::<ImplItemFn>::empty());
    assert(receiver_methods(seq![ImplItem::Fn(f)]) =~= (if f.sig.inputs@.len() > 0
        && f.sig.inputs@[0] is Receiver {
        seq![f]
    } else {
        Seq::<ImplItemFn>::empty()
    }));
}

} // verus!
