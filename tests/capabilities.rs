use type_discovery::dispatch::{
    combined_list, list_and_recover, print_and_discover, print_and_discover_each, print_list,
};
use type_discovery::kinds::{Discoverable, Discovery, Printable, A, B};

#[test]
fn each_variant_prints_its_own_line() {
    assert_eq!(A {}.print(), "print A");
    assert_eq!(B {}.print(), "print B");
}

#[test]
fn variant_specific_operations() {
    assert_eq!(A {}.only_a(), "only A");
    assert_eq!(B {}.only_b(), "only B");
}

#[test]
fn discover_tags_a_with_a_reference_to_itself() {
    let a = A {};
    match a.discover() {
        Discovery::IsA(r) => assert!(std::ptr::eq(r, &a)),
        Discovery::IsB(_) => panic!("an A was discovered as a B"),
    }
}

#[test]
fn discover_tags_b_with_a_reference_to_itself() {
    let b = B {};
    match b.discover() {
        Discovery::IsB(r) => assert!(std::ptr::eq(r, &b)),
        Discovery::IsA(_) => panic!("a B was discovered as an A"),
    }
}

#[test]
fn print_and_discover_on_a_takes_only_the_a_branch() {
    assert_eq!(print_and_discover(&A {}), vec!["print A", "only A"]);
}

#[test]
fn print_and_discover_on_b_takes_only_the_b_branch() {
    assert_eq!(print_and_discover(&B {}), vec!["print B", "only B"]);
}

#[test]
fn print_list_keeps_input_order() {
    let a = A {};
    let b = B {};
    let items: Vec<&dyn Printable> = vec![&b, &a, &a, &b];
    assert_eq!(print_list(&items), vec!["print B", "print A", "print A", "print B"]);
}

#[test]
fn print_list_of_nothing_prints_nothing() {
    let items: Vec<&dyn Printable> = Vec::new();
    assert!(print_list(&items).is_empty());
}

#[test]
fn list_then_recovery_scenario() {
    let a = A {};
    let b = B {};
    assert_eq!(
        list_and_recover(&a, &b),
        vec![
            "-- different types in one list",
            "print A",
            "print B",
            "-- reconstruction of original type",
            "print A",
            "only A",
            "print B",
            "only B",
        ]
    );
}

#[test]
fn repeated_calls_give_the_same_result() {
    let a = A {};
    let b = B {};
    assert_eq!(a.print(), a.print());
    assert_eq!(b.print(), b.print());
    assert!(matches!((a.discover(), a.discover()), (Discovery::IsA(x), Discovery::IsA(y)) if std::ptr::eq(x, y)));
    assert!(matches!((b.discover(), b.discover()), (Discovery::IsB(x), Discovery::IsB(y)) if std::ptr::eq(x, y)));
    assert_eq!(print_and_discover(&a), print_and_discover(&a));
}

#[test]
fn discovery_prints_and_discovers_as_its_referent() {
    let a = A {};
    let b = B {};
    let da = Discovery::IsA(&a);
    let db = Discovery::IsB(&b);
    assert_eq!(da.print(), "print A");
    assert_eq!(db.print(), "print B");
    assert!(matches!(da.discover(), Discovery::IsA(x) if std::ptr::eq(x, &a)));
    assert!(matches!(db.discover(), Discovery::IsB(x) if std::ptr::eq(x, &b)));
}

#[test]
fn print_and_discover_each_gives_two_lines_per_item() {
    let a = A {};
    let b = B {};
    let items = vec![Discovery::IsB(&b), Discovery::IsA(&a)];
    assert_eq!(print_and_discover_each(&items), vec!["print B", "only B", "print A", "only A"]);
    assert!(print_and_discover_each(&Vec::new()).is_empty());
}

#[test]
fn combined_list_scenario() {
    let a = A {};
    let b = B {};
    assert_eq!(
        combined_list(&a, &b),
        vec![
            "-- combined trait in vector (commented out)",
            "print A",
            "only A",
            "print B",
            "only B",
        ]
    );
}
