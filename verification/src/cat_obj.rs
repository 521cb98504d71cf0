//! The shape of the code that the object attribute produces for a struct
//! `Cat`: a trait `CatObj` with one method per inherent method, an
//! implementation of it for `Cat`, and a placeholder implementation `Test`
//! whose methods, but `new`, are left unimplemented.

use vstd::prelude::*;

verus! {

/// The methods of `Cat` that an object can be asked for.
#[allow(non_camel_case_types)]
#[derive(Clone, Copy, PartialEq, Eq, Structural, Debug)]
pub enum Method {
    meow,
    name,
    change_name,
}

/// The arguments of `change_name`.
#[allow(non_camel_case_types)]
pub enum change_name {
    name(String),
}

/// The arguments of one call of a method.
#[allow(non_camel_case_types)]
pub enum Arg {
    change_name(change_name),
}

/// The value that one call of a method returns.
#[allow(non_camel_case_types)]
pub enum Ret<'a> {
    meow(String),
    name(&'a str),
    change_name(()),
}

/// `ret` is a value that `method` can return.
pub open spec fn returns_for(ret: Ret<'_>, method: Method) -> bool {
    match method {
        Method::meow => ret is meow,
        Method::name => ret is name,
        Method::change_name => ret is change_name,
    }
}

impl<'a> Ret<'a> {
    /// The string returned by `meow`; any other return value is refused.
    pub fn meow(self) -> (out: String)
        requires
            self is meow,
        ensures
            self == Ret::<'a>::meow(out),
    {
        match self {
            Ret::meow(meow) => meow,
            _ => unreached(),
        }
    }
}

/// A `Cat` seen as an object: what any implementation offers. `new` and
/// `meow` have default bodies: `meow` forwards to the unimplemented hook.
/// `name`, `change_name`, `aaaa` and the hook itself have none, so each
/// object writes them. An
/// implementation states which methods it answers and what they give; one
/// that states nothing is not known to answer any method, and any result is
/// possible for it.
pub trait CatObj {
    /// The object answers `method` itself (it is not left unimplemented).
    open spec fn answers(&self, method: Method) -> bool {
        false
    }

    /// The object answers `aaaa` itself.
    open spec fn answers_aaaa(&self) -> bool {
        false
    }

    /// The unimplemented hook answers calls for `method`.
    open spec fn answers_hook(&self, method: Method) -> bool {
        false
    }

    /// `out` is a possible result of `meow`; any result, unless the
    /// implementation says more.
    open spec fn meows(&self, out: Seq<char>) -> bool {
        true
    }

    /// `out` is a possible result of `name`; any result, unless the
    /// implementation says more.
    open spec fn names(&self, out: Seq<char>) -> bool {
        true
    }

    /// `after` is a possible state after `change_name(name)`; any state,
    /// unless the implementation says more.
    open spec fn renamed(&self, after: &Self, name: Seq<char>) -> bool {
        true
    }

    /// `out` is a possible result of `aaaa(a, b)`; any result, unless the
    /// implementation says more.
    open spec fn aaaa_gives(&self, a: Seq<char>, b: Seq<u8>, out: Seq<char>) -> bool {
        true
    }

    #[allow(clippy::new_ret_no_self)]
    fn new(name: String) -> (cat: Cat)
        ensures
            cat.name@ == name@,
    {
        Cat { name }
    }

    /// By default, what the unimplemented hook answers for `meow`. Since
    /// the default may stand in for it, `meow` is answered where the hook
    /// answers `meow`, also for an object that writes its own `meow`.
    fn meow(&self) -> (out: String)
        requires
            self.answers_hook(Method::meow),
        ensures
            self.meows(out@),
        default_ensures
            exists|args: &[Arg], r: Ret<'_>|
                {
                    &&& args@.len() == 0
                    &&& call_ensures(
                        <Self as CatObj>::__nostrum_unimplemented,
                        (self, Method::meow, args),
                        r,
                    )
                    &&& r == Ret::meow(out)
                },
    {
        self.__nostrum_unimplemented(Method::meow, &[]).meow()
    }

    fn name(&self) -> (out: &str)
        requires
            self.answers(Method::name),
        ensures
            self.names(out@),
    ;

    fn change_name(&mut self, name: String)
        requires
            old(self).answers(Method::change_name),
        ensures
            old(self).renamed(&*final(self), name@),
    ;

    fn aaaa<'a>(&self, a: &'a String, b: &[u8]) -> (out: &'a str)
        requires
            self.answers_aaaa(),
        ensures
            self.aaaa_gives(a@, b@, out@),
    ;

    /// The hook that answers the methods an object leaves unimplemented:
    /// it returns a value of `method`, and for `meow` one that `meow` can
    /// give.
    fn __nostrum_unimplemented(&self, method: Method, args: &[Arg]) -> (ret: Ret<'_>)
        requires
            self.answers_hook(method),
        ensures
            returns_for(ret, method),
            ret matches Ret::meow(s) ==> self.meows(s@),
    ;
}

/// A cat with a name.
pub struct Cat {
    pub name: String,
}

impl CatObj for Cat {
    open spec fn answers(&self, method: Method) -> bool {
        true
    }

    open spec fn answers_aaaa(&self) -> bool {
        false
    }

    open spec fn answers_hook(&self, method: Method) -> bool {
        method == Method::meow
    }

    open spec fn meows(&self, out: Seq<char>) -> bool {
        out == self.name@ + ": meow"@
    }

    open spec fn names(&self, out: Seq<char>) -> bool {
        out == self.name@
    }

    open spec fn renamed(&self, after: &Self, name: Seq<char>) -> bool {
        after.name@ == name
    }

    open spec fn aaaa_gives(&self, a: Seq<char>, b: Seq<u8>, out: Seq<char>) -> bool {
        true
    }

    fn meow(&self) -> (out: String) {
        let mut out = self.name.clone();
        out.append(": meow");
        out
    }

    fn name(&self) -> (out: &str) {
        self.name.as_str()
    }

    fn change_name(&mut self, name: String) {
        self.name = name;
    }

    fn aaaa<'a>(&self, a: &'a String, b: &[u8]) -> (out: &'a str) {
        unreached()
    }

    /// A cat answers `meow` through the hook with its own `meow`.
    fn __nostrum_unimplemented(&self, method: Method, _args: &[Arg]) -> (ret: Ret<'_>) {
        match method {
            Method::meow => Ret::meow(self.meow()),
            _ => unreached(),
        }
    }
}

/// Asks an object to meow.
pub fn call_meow<C: CatObj>(cat: &C) -> (out: String)
    requires
        cat.answers_hook(Method::meow),
    ensures
        cat.meows(out@),
        call_ensures(<C as CatObj>::meow, (cat,), out),
{
    cat.meow()
}

/// Asks an object for its name.
pub fn call_name<C: CatObj>(cat: &C) -> (out: &str)
    requires
        cat.answers(Method::name),
    ensures
        cat.names(out@),
        call_ensures(<C as CatObj>::name, (cat,), out),
{
    cat.name()
}

/// Asks an object for its name, the object given as `impl CatObj`.
pub fn call_name2(cat: &impl CatObj) -> (out: &str)
    requires
        cat.answers(Method::name),
    ensures
        cat.names(out@),
        call_ensures(CatObj::name, (cat,), out),
{
    cat.name()
}

/// Renames an object.
pub fn call_change_name<C: CatObj>(cat: &mut C, name: String)
    requires
        old(cat).answers(Method::change_name),
    ensures
        old(cat).renamed(&*final(cat), name@),
{
    cat.change_name(name)
}

/// Takes an object and drops it.
pub fn drop_cat<C: CatObj>(_cat: C) {
}

/// The placeholder object: it answers no method itself.
pub struct Test;

impl CatObj for Test {
    open spec fn answers(&self, method: Method) -> bool {
        false
    }

    open spec fn answers_aaaa(&self) -> bool {
        false
    }

    open spec fn answers_hook(&self, method: Method) -> bool {
        false
    }

    open spec fn meows(&self, out: Seq<char>) -> bool {
        false
    }

    open spec fn names(&self, out: Seq<char>) -> bool {
        false
    }

    open spec fn renamed(&self, after: &Self, name: Seq<char>) -> bool {
        false
    }

    open spec fn aaaa_gives(&self, a: Seq<char>, b: Seq<u8>, out: Seq<char>) -> bool {
        false
    }

    fn new(name: String) -> (cat: Cat) {
        Cat { name }
    }

    fn meow(&self) -> (out: String) {
        self.__nostrum_unimplemented(Method::meow, &[]).meow()
    }

    fn name(&self) -> (out: &str) {
        unreached()
    }

    fn change_name(&mut self, _name: String) {
        unreached()
    }

    fn aaaa<'a>(&self, a: &'a String, b: &[u8]) -> (out: &'a str) {
        unreached()
    }

    fn __nostrum_unimplemented(&self, _method: Method, _args: &[Arg]) -> (ret: Ret<'_>) {
        unreached()
    }
}

} // verus!

verus! {

/// After `change_name(n)`, a cat answers `name` with `n`.
pub proof fn law_name_after_change_name(before: Cat, after: Cat, n: Seq<char>, out: Seq<char>)
    requires
        before.renamed(&after, n),
        after.names(out),
    ensures
        out == n,
{
}

/// A cat made by `new(n)` answers `name` with `n` and `meow` with
/// `"n: meow"`.
pub proof fn law_new_cat(n: Seq<char>, cat: Cat, name_out: Seq<char>, meow_out: Seq<char>)
    requires
        cat.name@ == n,
        cat.names(name_out),
        cat.meows(meow_out),
    ensures
        name_out == n,
        meow_out == n + ": meow"@,
{
}

} // verus!
