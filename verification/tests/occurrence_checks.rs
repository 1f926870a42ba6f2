//! Boundary tests of the occurrence constraint engine.

use rgb_ifaces::occurrence::{check, check_counts, count_items, Occurrence};

#[test]
fn once_boundaries() {
    assert!(!check(Occurrence::Once, 0));
    assert!(check(Occurrence::Once, 1));
    assert!(!check(Occurrence::Once, 2));
}

#[test]
fn once_or_more_boundaries() {
    assert!(!check(Occurrence::OnceOrMore, 0));
    assert!(check(Occurrence::OnceOrMore, 1));
    assert!(check(Occurrence::OnceOrMore, 2));
}

#[test]
fn zero_or_more_boundaries() {
    assert!(check(Occurrence::ZeroOrMore, 0));
    assert!(check(Occurrence::ZeroOrMore, 1));
    assert!(check(Occurrence::ZeroOrMore, 2));
}

#[test]
fn none_or_once_boundaries() {
    assert!(check(Occurrence::NoneOrOnce, 0));
    assert!(check(Occurrence::NoneOrOnce, 1));
    assert!(!check(Occurrence::NoneOrOnce, 2));
}

#[test]
fn count_items_counts_multiplicity() {
    let items: Vec<u16> = vec![7, 3, 7, 7, 9];
    assert_eq!(count_items(&items, 7), 3);
    assert_eq!(count_items(&items, 3), 1);
    assert_eq!(count_items(&items, 1), 0);
}

#[test]
fn check_counts_accepts_satisfied_constraints() {
    let constraints: Vec<(u16, Occurrence)> = vec![
        (1, Occurrence::Once),
        (2, Occurrence::OnceOrMore),
        (3, Occurrence::ZeroOrMore),
    ];
    let items: Vec<u16> = vec![1, 2, 2];
    assert!(check_counts(&constraints, &items));
}

#[test]
fn check_counts_rejects_missing_mandatory_item() {
    let constraints: Vec<(u16, Occurrence)> = vec![(1, Occurrence::Once)];
    let items: Vec<u16> = vec![];
    assert!(!check_counts(&constraints, &items));
}

#[test]
fn check_counts_rejects_undeclared_item() {
    let constraints: Vec<(u16, Occurrence)> = vec![(1, Occurrence::Once)];
    let items: Vec<u16> = vec![1, 9];
    assert!(!check_counts(&constraints, &items));
}
