//! The mock attribute: `#[mock(let name = state)]` on an
//! `impl Trait for Type { .. }` block declares a mock struct, implements the
//! trait for it by closures made of the block's methods, and binds `name` to
//! a mock object whose state starts as `state`.

use vstd::prelude::*;

use crate::attr_syntax::{let_mock_of, parse_let_mock, LetMock};
use crate::brackets::{balanced, lemma_balanced_add3};
use crate::closure_expr::{method_balanced, narrative_state};
use crate::impl_syntax::{fn_items, path_view, ImplMock, MockError};
use crate::impl_trait::{
    generate as impl_trait, generic_params, impl_trait_tokens, lemma_impl_trait_balanced,
    path_balanced,
};
use crate::init_mock::{
    generate as init_mock, init_mock_tokens, lemma_init_mock_balanced, let_closures,
    nostrumock_state,
};
use crate::mock_struct::{
    allow_attr, generate as mock_struct, lemma_mock_struct_balanced, mock_struct_name, mock_struct_tokens,
};
use crate::syntax::{pat_ident_tokens, path_tokens, segments_tokens, ImplItem, ItemImpl, Path};
use crate::tokens::{colon2, extend, flatten, ident, lifetime, p, tv, Delim, Tok, TokV};

verus! {

/// Everything the attribute produces for a mock: the struct, the trait's
/// implementation and the statements that build the object.
pub open spec fn mock_tokens(attr: LetMock, input: ImplMock) -> Seq<TokV> {
    let name = mock_struct_name(attr, input);
    let target = tv(input.item_impl.self_ty@);
    let ms = fn_items(input.item_impl.items@);
    mock_struct_tokens(name) + impl_trait_tokens(name, input.trait_, target, ms) + init_mock_tokens(
        attr.pat_ident,
        tv(attr.expr@),
        name,
        target,
        ms,
    )
}

/// The mock that an `impl` block with a trait is read as.
pub open spec fn mock_of(item: ItemImpl) -> ImplMock {
    ImplMock { trait_: item.trait_.unwrap().1, item_impl: item }
}

/// Two paths with the same parts have the same tokens.
pub proof fn lemma_path_view_tokens(a: Path, b: Path)
    requires
        path_view(a) == path_view(b),
    ensures
        path_tokens(a) == path_tokens(b),
        a.segments@.len() == b.segments@.len(),
        a.segments@.len() > 0 ==> a.segments@.last().ident@ == b.segments@.last().ident@,
{
    assert(path_view(a).1.len() == a.segments@.len());
    assert(path_view(b).1.len() == b.segments@.len());
    assert forall|i: int| 0 <= i < a.segments@.len() implies #[trigger] a.segments@[i].ident@
        == b.segments@[i].ident@ && tv(a.segments@[i].arguments@) == tv(
        b.segments@[i].arguments@,
    ) by {
        assert(path_view(a).1[i] == path_view(b).1[i]);
    }
    assert(segments_tokens(a.segments@) =~= segments_tokens(b.segments@));
    if a.segments@.len() > 0 {
        assert(a.segments@.last() == a.segments@[a.segments@.len() - 1]);
    }
}

/// Produces the mock for an attribute and a parsed `impl Trait for Type`
/// block: the struct declaration, the trait's implementation and the
/// statements that build the object, in that order.
pub fn generate_mock(attr: &LetMock, input: &ImplMock) -> (out: Vec<Tok>)
    requires
        input.trait_.segments@.len() > 0,
    ensures
        tv(out@) == mock_tokens(*attr, *input),
{
    let mut out = mock_struct(attr, input);
    let it = impl_trait(attr, input);
    let im = init_mock(attr, input);
    extend(&mut out, &it);
    extend(&mut out, &im);
    out
}

/// The mock attribute: reads `item` as an `impl Trait for Type` block and
/// produces the mock; a block that implements no trait is refused.
pub fn mock(attr: &LetMock, item: ItemImpl) -> (r: Result<Vec<Tok>, MockError>)
    requires
        item.trait_ matches Some((_, path)) ==> path.segments@.len() > 0,
    ensures
        r is Ok <==> item.trait_ is Some,
        r matches Ok(out) ==> tv(out@) == mock_tokens(*attr, mock_of(item)),
        r matches Err(e) ==> e == MockError::ExpectedTrait,
{
    let ghost orig = item;
    match ImplMock::parse(item) {
        Ok(input) => {
            proof {
                lemma_path_view_tokens(input.trait_, orig.trait_.unwrap().1);
                assert(mock_struct_name(*attr, input) == mock_struct_name(*attr, mock_of(orig)));
            }
            Ok(generate_mock(attr, &input))
        },
        Err(e) => Err(e),
    }
}

/// The mock attribute on its raw argument: reads `let name = expr`, then
/// produces the mock for the `impl Trait for Type` block. An argument of
/// another form is refused first, then a block that implements no trait.
pub fn mock_macro(attr: &Vec<Tok>, item: ItemImpl) -> (r: Result<Vec<Tok>, MockError>)
    requires
        item.trait_ matches Some((_, path)) ==> path.segments@.len() > 0,
    ensures
        r is Ok <==> let_mock_of(tv(attr@)) is Some && item.trait_ is Some,
        r matches Err(e) ==> (e == MockError::ExpectedLet <==> let_mock_of(tv(attr@)) is None),
        r matches Ok(out) ==> exists|m: LetMock|
            {
                &&& let_mock_of(tv(attr@)) == Some(
                    (m.pat_ident.by_ref, m.pat_ident.mutability, m.pat_ident.ident@, tv(m.expr@)),
                )
                &&& tv(out@) == mock_tokens(m, mock_of(item))
            },
{
    match parse_let_mock(attr) {
        Some(m) => match mock(&m, item) {
            Ok(out) => Ok(out),
            Err(e) => Err(e),
        },
        None => Err(MockError::ExpectedLet),
    }
}

} // verus!

verus! {

/// Every method of the items has balanced tokens.
pub open spec fn items_balanced(items: Seq<ImplItem>) -> bool {
    forall|i: int|
        0 <= i < items.len() ==> (#[trigger] items[i] matches ImplItem::Fn(f) ==> method_balanced(f))
}

/// The methods of balanced items are balanced.
pub proof fn lemma_fn_items_balanced(items: Seq<ImplItem>)
    requires
        items_balanced(items),
    ensures
        forall|i: int|
            0 <= i < fn_items(items).len() ==> method_balanced(#[trigger] fn_items(items)[i]),
    decreases items.len(),
{
    if items.len() > 0 {
        let prev = items.drop_last();
        assert forall|i: int| 0 <= i < prev.len() implies (#[trigger] prev[i] matches ImplItem::Fn(f)
            ==> method_balanced(f)) by {
            assert(prev[i] == items[i]);
        }
        lemma_fn_items_balanced(prev);
        let last = items[items.len() - 1];
        assert(items.last() == last);
        match last {
            ImplItem::Fn(f) => {
                assert forall|i: int| 0 <= i < fn_items(items).len() implies method_balanced(
                    #[trigger] fn_items(items)[i],
                ) by {
                    if i < fn_items(prev).len() {
                        assert(fn_items(items)[i] == fn_items(prev)[i]);
                    } else {
                        assert(fn_items(items)[i] == f);
                    }
                }
            },
            ImplItem::Other(_) => {
                assert(fn_items(items) =~= fn_items(prev));
            },
        }
    }
}

/// Everything the mock attribute produces is well bracketed whenever what
/// it is given is: the attribute's initial state, and the trait's path, the
/// target type and the methods of the `impl` block.
pub proof fn law_mock_balanced(attr: LetMock, item: ItemImpl)
    requires
        item.trait_ matches Some((_, path)) && path_balanced(path),
        balanced(tv(item.self_ty@)),
        items_balanced(item.items@),
        balanced(tv(attr.expr@)),
    ensures
        balanced(mock_tokens(attr, mock_of(item))),
{
    let input = mock_of(item);
    let name = mock_struct_name(attr, input);
    let target = tv(item.self_ty@);
    let ms = fn_items(item.items@);
    lemma_fn_items_balanced(item.items@);
    lemma_mock_struct_balanced(name);
    lemma_impl_trait_balanced(name, input.trait_, target, ms);
    lemma_init_mock_balanced(attr.pat_ident, tv(attr.expr@), name, target, ms);
    lemma_balanced_add3(
        mock_struct_tokens(name),
        impl_trait_tokens(name, input.trait_, target, ms),
        init_mock_tokens(attr.pat_ident, tv(attr.expr@), name, target, ms),
    );
}

} // verus!

verus! {

/// The tokens `t` occur in `s`, one after the other.
pub open spec fn occurs(s: Seq<TokV>, t: Seq<TokV>) -> bool {
    exists|i: int| 0 <= i && i + t.len() <= s.len() && #[trigger] s.subrange(i, i + t.len()) == t
}

/// The three pieces of a mock speak of one struct: the struct that is
/// declared (`struct name`) is the one the trait is implemented for
/// (`for name`) and the one the binding is built as (`= name {`).
pub proof fn law_mock_names_one_struct(attr: LetMock, input: ImplMock)
    ensures
        ({
            let name = mock_struct_name(attr, input);
            let target = tv(input.item_impl.self_ty@);
            let ms = fn_items(input.item_impl.items@);
            &&& occurs(mock_struct_tokens(name), seq![ident("struct"@), ident(name)])
            &&& occurs(
                impl_trait_tokens(name, input.trait_, target, ms),
                seq![ident("for"@), ident(name)],
            )
            &&& occurs(
                init_mock_tokens(attr.pat_ident, tv(attr.expr@), name, target, ms),
                seq![p('='), ident(name), TokV::Open(Delim::Brace)],
            )
        }),
{
    let name = mock_struct_name(attr, input);
    let target = tv(input.item_impl.self_ty@);
    let ms = fn_items(input.item_impl.items@);
    let decl = mock_struct_tokens(name);
    let imp = impl_trait_tokens(name, input.trait_, target, ms);
    let init = init_mock_tokens(attr.pat_ident, tv(attr.expr@), name, target, ms);
    let h0 = allow_attr(seq![ident("non_camel_case_types"@)]) + allow_attr(
        seq![ident("clippy"@)] + colon2() + seq![ident("extra_unused_lifetimes"@)],
    );
    let k = h0.len() as int;
    assert(decl.subrange(k, k + 2) =~= seq![ident("struct"@), ident(name)]);
    let h1 = seq![ident("impl"@), p('<')] + lifetime(narrative_state()) + seq![p(',')] + flatten(
        generic_params(target, ms),
    ) + seq![p('>')] + path_tokens(input.trait_);
    let i = h1.len() as int;
    assert(imp.subrange(i, i + 2) =~= seq![ident("for"@), ident(name)]);
    let s1 = seq![ident("let"@), ident("mut"@), ident(nostrumock_state()), p('=')] + tv(attr.expr@)
        + seq![p(';')] + flatten(let_closures(target, ms)) + seq![ident("let"@)] + pat_ident_tokens(
        attr.pat_ident,
    );
    let j = s1.len() as int;
    assert(init.subrange(j, j + 3) =~= seq![p('='), ident(name), TokV::Open(Delim::Brace)]);
}

} // verus!
