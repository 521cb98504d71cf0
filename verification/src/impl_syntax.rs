//! The `impl Trait for Type { .. }` block that the mock attribute is put on.

use vstd::prelude::*;

use crate::attr_syntax::LetMock;
use crate::syntax::{ImplItem, ImplItemFn, ItemImpl, Path, PathSegment};
use crate::tokens::{copy_all, tv, Tok, TokV};

verus! {

/// What the mock attribute refuses.
#[derive(Clone, Copy, PartialEq, Eq, Structural, Debug)]
pub enum MockError {
    /// The block implements no trait ("expected trait").
    ExpectedTrait,
    /// The argument of the attribute is not `let name = expr`.
    ExpectedLet,
}

/// A path by its parts: whether it starts with `::`, and each segment's
/// identifier and argument tokens.
pub open spec fn path_view(path: Path) -> (bool, Seq<(Seq<char>, Seq<TokV>)>) {
    (
        path.leading_colon,
        Seq::new(
            path.segments@.len(),
            |i: int| (path.segments@[i].ident@, tv(path.segments@[i].arguments@)),
        ),
    )
}

impl PathSegment {
    /// A copy of the segment.
    pub fn copy(&self) -> (out: PathSegment)
        ensures
            out.ident@ == self.ident@,
            tv(out.arguments@) == tv(self.arguments@),
    {
        PathSegment { ident: self.ident.clone(), arguments: copy_all(&self.arguments) }
    }
}

impl Path {
    /// A copy of the path.
    pub fn copy(&self) -> (out: Path)
        ensures
            path_view(out) == path_view(*self),
    {
        let mut segments: Vec<PathSegment> = Vec::new();
        let mut i: usize = 0;
        while i < self.segments.len()
            invariant
                i <= self.segments.len(),
                segments@.len() == i,
                forall|j: int|
                    0 <= j < i ==> (#[trigger] segments@[j]).ident@ == self.segments@[j].ident@
                        && tv(segments@[j].arguments@) == tv(self.segments@[j].arguments@),
            decreases self.segments.len() - i,
        {
            segments.push(self.segments[i].copy());
            i = i + 1;
        }
        let out = Path { leading_colon: self.leading_colon, segments };
        assert(path_view(out).1 =~= path_view(*self).1);
        out
    }
}

/// The methods among the items, in order.
pub open spec fn fn_items(items: Seq<ImplItem>) -> Seq<ImplItemFn>
    decreases items.len(),
{
    if items.len() == 0 {
        seq![]
    } else {
        fn_items(items.drop_last()) + match items.last() {
            ImplItem::Fn(f) => seq![f],
            ImplItem::Other(_) => seq![],
        }
    }
}

/// The methods a sequence of references points to.
pub open spec fn derefs(s: Seq<&ImplItemFn>) -> Seq<ImplItemFn> {
    Seq::new(s.len(), |i: int| *s[i])
}

/// An `impl Trait for Type` block read as a mock of `Trait`.
#[derive(Debug, PartialEq, Eq)]
pub struct ImplMock {
    /// The trait that is implemented.
    pub trait_: Path,
    /// The whole block.
    pub item_impl: ItemImpl,
}

impl ImplMock {
    /// Reads an `impl` block as a mock; a block that implements no trait is
    /// refused.
    pub fn parse(item_impl: ItemImpl) -> (r: Result<ImplMock, MockError>)
        ensures
            r is Ok <==> item_impl.trait_ is Some,
            r matches Ok(m) ==> m.item_impl == item_impl && path_view(m.trait_) == path_view(
                item_impl.trait_.unwrap().1,
            ),
            r matches Err(e) ==> e == MockError::ExpectedTrait,
    {
        let trait_ = match &item_impl.trait_ {
            Some((_, path)) => path.copy(),
            None => {
                return Err(MockError::ExpectedTrait);
            },
        };
        Ok(ImplMock { trait_, item_impl })
    }

    /// The identifier of the last segment of the trait's path.
    pub fn trait_name(&self) -> (name: &String)
        requires
            self.trait_.segments@.len() > 0,
        ensures
            name@ == self.trait_.segments@.last().ident@,
    {
        &self.trait_.segments[self.trait_.segments.len() - 1].ident
    }

    /// The methods of the block, in order.
    pub fn methods(&self) -> (out: Vec<&ImplItemFn>)
        ensures
            derefs(out@) == fn_items(self.item_impl.items@),
    {
        let items = &self.item_impl.items;
        let mut out: Vec<&ImplItemFn> = Vec::new();
        let mut i: usize = 0;
        while i < items.len()
            invariant
                i <= items.len(),
                items == &self.item_impl.items,
                derefs(out@) == fn_items(items@.take(i as int)),
            decreases items.len() - i,
        {
            proof {
                assert(items@.take(i + 1).drop_last() =~= items@.take(i as int));
            }
            match &items[i] {
                ImplItem::Fn(method) => {
                    out.push(method);
                },
                ImplItem::Other(_) => {},
            }
            assert(derefs(out@) =~= fn_items(items@.take(i + 1)));
            i = i + 1;
        }
        assert(items@.take(items@.len() as int) =~= items@);
        out
    }

    /// The type the block implements the trait for.
    pub fn target(&self) -> (out: &Vec<Tok>)
        ensures
            out == &self.item_impl.self_ty,
    {
        &self.item_impl.self_ty
    }

    /// The name of the mock struct: the binding's name and the trait's name
    /// joined by `__`.
    pub fn struct_name(&self, attr: &LetMock) -> (name: String)
        requires
            self.trait_.segments@.len() > 0,
        ensures
            name@ == attr.pat_ident.ident@ + "__"@ + self.trait_.segments@.last().ident@,
    {
        let mut name = attr.pat_ident.ident.clone();
        name.append("__");
        name.append(self.trait_name().as_str());
        name
    }
}

} // verus!

verus! {

/// The mock's methods are all the methods of the block, in order, whether
/// or not they take `self`: the selection goes item by item, keeps every
/// method and drops any other item.
pub proof fn law_fn_items_are_all_methods(a: Seq<ImplItem>, b: Seq<ImplItem>, f: ImplItemFn, t: Vec<Tok>)
    ensures
        fn_items(a + b) == fn_items(a) + fn_items(b),
        fn_items(seq![ImplItem::Fn(f)]) == seq![f],
        fn_items(seq![ImplItem::Other(t)]) == Seq::<ImplItemFn>::empty(),
    decreases b.len(),
{
    if b.len() == 0 {
        assert(a + b =~= a);
        assert(fn_items(a) + fn_items(b) =~= fn_items(a));
    } else {
        law_fn_items_are_all_methods(a, b.drop_last(), f, t);
        assert((a + b).drop_last() =~= a + b.drop_last());
        assert((a + b).last() == b.last());
        let bl = b.drop_last();
        let lp = match b.last() {
            ImplItem::Fn(g) => seq![g],
            ImplItem::Other(_) => Seq::<ImplItemFn>::empty(),
        };
        assert(fn_items(b) == fn_items(bl) + lp);
        assert(fn_items(a + b) == fn_items(a + bl) + lp);
        assert(fn_items(a + b) =~= fn_items(a) + fn_items(b));
    }
    assert(seq![ImplItem::Fn(f)].drop_last() =~= Seq::<ImplItem>::empty());
    assert(seq![ImplItem::Other(t)].drop_last() =~= Seq::<ImplItem>::empty());
    assert(seq![ImplItem::Fn(f)].last() == ImplItem::Fn(f));
    assert(seq![ImplItem::Other(t)].last() == ImplItem::Other(t));
    assert(fn_items(Seq::<ImplItem>::empty()) =~= Seq::<ImplItemFn>::empty());
    assert(fn_items(seq![ImplItem::Fn(f)]) =~= seq![f]);
}

} // verus!
