//! Routines that work on values through their capabilities.
use vstd::prelude::*;

use crate::kinds::{
    only_a_line, only_b_line, print_a_line, print_b_line, CombinedTrait, Discoverable, Discovery,
    Printable, A, B,
};

verus! {

/// The text of each line in `ls`.
pub open spec fn texts(ls: Seq<&str>) -> Seq<Seq<char>> {
    ls.map_values(|l: &str| l@)
}

/// The line written by the variant-specific operation that `d` leads to.
pub open spec fn branch_line(d: Discovery) -> Seq<char> {
    match d {
        Discovery::IsA(_) => only_a_line(),
        Discovery::IsB(_) => only_b_line(),
    }
}

/// Prints every item in order: the result holds one line per item.
pub fn print_list(items: &Vec<&dyn Printable>) -> (r: Vec<&'static str>)
    ensures
        r@.len() == items@.len(),
        forall|i: int| 0 <= i < items@.len() ==> r@[i]@ == items@[i].line(),
{
    let mut r: Vec<&'static str> = Vec::new();
    for k in 0..items.len()
        invariant
            r@.len() == k,
            forall|i: int| 0 <= i < k ==> r@[i]@ == items@[i].line(),
    {
        r.push(items[k].print());
    }
    r
}

/// Prints `x`, then discovers its variant and runs the operation that only
/// that variant has.
pub fn print_and_discover<T: CombinedTrait>(x: &T) -> (r: Vec<&'static str>)
    ensures
        r@.len() == 2,
        r@[0]@ == x.line(),
        r@[1]@ == branch_line(x.discovered()),
        r@[1]@ == only_a_line() <==> x.discovered() is IsA,
        r@[1]@ == only_b_line() <==> x.discovered() is IsB,
{
    let mut r: Vec<&'static str> = Vec::new();
    r.push(x.print());
    match x.discover() {
        Discovery::IsA(a) => r.push(a.only_a()),
        Discovery::IsB(b) => r.push(b.only_b()),
    }
    proof {
        reveal_strlit("only A");
        reveal_strlit("only B");
    }
    assert(only_a_line()[5] != only_b_line()[5]);
    r
}

/// Runs `print_and_discover` on every item in order: two lines per item.
pub fn print_and_discover_each(items: &Vec<Discovery>) -> (r: Vec<&'static str>)
    ensures
        r@.len() == 2 * items@.len(),
        forall|i: int|
            0 <= i < items@.len() ==> {
                &&& r@[2 * i]@ == items@[i].line()
                &&& r@[2 * i + 1]@ == branch_line(items@[i].discovered())
            },
{
    let mut r: Vec<&'static str> = Vec::new();
    for k in 0..items.len()
        invariant
            r@.len() == 2 * k,
            forall|i: int|
                0 <= i < k ==> {
                    &&& r@[2 * i]@ == items@[i].line()
                    &&& r@[2 * i + 1]@ == branch_line(items@[i].discovered())
                },
    {
        let mut pair = print_and_discover(&items[k]);
        let ghost prev = r@;
        r.append(&mut pair);
        assert forall|i: int| 0 <= i < k + 1 implies {
            &&& r@[2 * i]@ == items@[i].line()
            &&& r@[2 * i + 1]@ == branch_line(items@[i].discovered())
        } by {
            if i < k {
                assert(r@[2 * i] == prev[2 * i]);
                assert(r@[2 * i + 1] == prev[2 * i + 1]);
            }
        }
    }
    r
}

/// The heading written before the list of printable references.
pub open spec fn list_heading() -> Seq<char> {
    "-- different types in one list"@
}

/// The heading written before the variants are recovered one by one.
pub open spec fn recovery_heading() -> Seq<char> {
    "-- reconstruction of original type"@
}

/// The heading written before the list of combined references.
pub open spec fn combined_heading() -> Seq<char> {
    "-- combined trait in vector (commented out)"@
}

/// Prints `a` and `b` through one list of printable references, then
/// recovers the variant of each in turn.
pub fn list_and_recover(a: &A, b: &B) -> (r: Vec<&'static str>)
    ensures
        texts(r@) == seq![
            list_heading(),
            print_a_line(),
            print_b_line(),
            recovery_heading(),
            print_a_line(),
            only_a_line(),
            print_b_line(),
            only_b_line(),
        ],
{
    let mut r: Vec<&'static str> = Vec::new();
    r.push("-- different types in one list");
    let items: Vec<&dyn Printable> = vec![a, b];
    assert(items@[0].line() == print_a_line());
    assert(items@[1].line() == print_b_line());
    let mut listed = print_list(&items);
    r.append(&mut listed);
    r.push("-- reconstruction of original type");
    let mut first = print_and_discover(a);
    r.append(&mut first);
    let mut second = print_and_discover(b);
    r.append(&mut second);
    assert(texts(r@) =~= seq![
        list_heading(),
        print_a_line(),
        print_b_line(),
        recovery_heading(),
        print_a_line(),
        only_a_line(),
        print_b_line(),
        only_b_line(),
    ]);
    r
}

/// Puts `a` and `b` in one list of combined references and, for each in
/// order, prints it and recovers its variant.
pub fn combined_list(a: &A, b: &B) -> (r: Vec<&'static str>)
    ensures
        texts(r@) == seq![
            combined_heading(),
            print_a_line(),
            only_a_line(),
            print_b_line(),
            only_b_line(),
        ],
{
    let mut r: Vec<&'static str> = Vec::new();
    r.push("-- combined trait in vector (commented out)");
    let items: Vec<Discovery> = vec![Discovery::IsA(a), Discovery::IsB(b)];
    let mut lines = print_and_discover_each(&items);
    r.append(&mut lines);
    assert(texts(r@) =~= seq![
        combined_heading(),
        print_a_line(),
        only_a_line(),
        print_b_line(),
        only_b_line(),
    ]);
    r
}

/// Printing one value twice writes the same line both times, and
/// discovering it twice gives the same discovery both times.
pub proof fn lemma_repeated_calls_agree<T: CombinedTrait>(
    x: &T,
    p1: &'static str,
    p2: &'static str,
    d1: Discovery,
    d2: Discovery,
)
    requires
        call_ensures(<T as Printable>::print, (x,), p1),
        call_ensures(<T as Printable>::print, (x,), p2),
        call_ensures(<T as Discoverable>::discover, (x,), d1),
        call_ensures(<T as Discoverable>::discover, (x,), d2),
    ensures
        p1@ == p2@,
        d1 == d2,
{
}

} // verus!
