//! The two concrete variants, the capabilities they share, and the tagged
//! discovery value.
use vstd::prelude::*;

verus! {

/// The line written by `A::print`.
pub open spec fn print_a_line() -> Seq<char> {
    "print A"@
}

/// The line written by `B::print`.
pub open spec fn print_b_line() -> Seq<char> {
    "print B"@
}

/// The line written by `A::only_a`.
pub open spec fn only_a_line() -> Seq<char> {
    "only A"@
}

/// The line written by `B::only_b`.
pub open spec fn only_b_line() -> Seq<char> {
    "only B"@
}

/// The first concrete variant: a marker with no data.
pub struct A {}

/// The second concrete variant: a marker with no data.
pub struct B {}

impl A {
    /// The operation that only `A` has; returns the line it writes.
    pub fn only_a(&self) -> (r: &'static str)
        ensures
            r@ == only_a_line(),
    {
        "only A"
    }
}

impl B {
    /// The operation that only `B` has; returns the line it writes.
    pub fn only_b(&self) -> (r: &'static str)
        ensures
            r@ == only_b_line(),
    {
        "only B"
    }
}

/// A value that can write one line identifying itself.
pub trait Printable {
    /// The line that `print` writes for this value.
    spec fn line(&self) -> Seq<char>;

    /// Returns the one line that printing this value writes.
    fn print(&self) -> (r: &'static str)
        ensures
            r@ == self.line(),
    ;
}

impl Printable for A {
    open spec fn line(&self) -> Seq<char> {
        print_a_line()
    }

    fn print(&self) -> (r: &'static str) {
        "print A"
    }
}

impl Printable for B {
    open spec fn line(&self) -> Seq<char> {
        print_b_line()
    }

    fn print(&self) -> (r: &'static str) {
        "print B"
    }
}

/// Which concrete variant a value is, with a reference back to it.
pub enum Discovery<'a> {
    IsA(&'a A),
    IsB(&'a B),
}

/// A value that can say which concrete variant it is.
pub trait Discoverable {
    /// The discovery value that `discover` returns for this value.
    spec fn discovered(&self) -> Discovery<'_>;

    /// Returns the variant tag of this value, referring back to it.
    fn discover(&self) -> (r: Discovery<'_>)
        ensures
            r == self.discovered(),
    ;
}

impl Discoverable for A {
    open spec fn discovered(&self) -> Discovery<'_> {
        Discovery::IsA(self)
    }

    fn discover(&self) -> (r: Discovery<'_>)
        ensures
            r == Discovery::IsA(self),
    {
        Discovery::IsA(self)
    }
}

impl Discoverable for B {
    open spec fn discovered(&self) -> Discovery<'_> {
        Discovery::IsB(self)
    }

    fn discover(&self) -> (r: Discovery<'_>)
        ensures
            r == Discovery::IsB(self),
    {
        Discovery::IsB(self)
    }
}

/// A discovery value is itself a reference that prints as the value it
/// refers to.
impl<'a> Printable for Discovery<'a> {
    open spec fn line(&self) -> Seq<char> {
        match *self {
            Discovery::IsA(a) => a.line(),
            Discovery::IsB(b) => b.line(),
        }
    }

    fn print(&self) -> (r: &'static str) {
        match *self {
            Discovery::IsA(a) => a.print(),
            Discovery::IsB(b) => b.print(),
        }
    }
}

/// A discovery value discovers as itself.
impl<'a> Discoverable for Discovery<'a> {
    open spec fn discovered(&self) -> Discovery<'_> {
        *self
    }

    fn discover(&self) -> (r: Discovery<'_>)
        ensures
            r == *self,
    {
        match *self {
            Discovery::IsA(a) => Discovery::IsA(a),
            Discovery::IsB(b) => Discovery::IsB(b),
        }
    }
}

/// Both capabilities at once; every type that has both has this one.
pub trait CombinedTrait: Printable + Discoverable {}

impl<T: Printable + Discoverable> CombinedTrait for T {}

} // verus!
