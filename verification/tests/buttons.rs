//! Tests of the `PointerButtons` bit-set operations.

use pointer_events::PointerButton;
use pointer_events::PointerButtons;

const REAL_BUTTONS: [PointerButton; 5] = [
    PointerButton::Primary,
    PointerButton::Secondary,
    PointerButton::Auxiliary,
    PointerButton::X1,
    PointerButton::X2,
];

#[test]
fn empty_set_is_empty_and_contains_nothing() {
    let e = PointerButtons::empty();
    assert!(e.is_empty());
    assert!(!e.contains(PointerButton::NoButton));
    for b in REAL_BUTTONS {
        assert!(!e.contains(b));
    }
}

#[test]
fn with_real_button_contains_it_and_is_not_empty() {
    for b in REAL_BUTTONS {
        let s = PointerButtons::empty().with(b);
        assert!(s.contains(b));
        assert!(!s.is_empty());
    }
}

#[test]
fn insert_is_idempotent() {
    for b in REAL_BUTTONS {
        let mut once = PointerButtons::empty();
        once.insert(b);
        let mut twice = PointerButtons::empty();
        twice.insert(b);
        twice.insert(b);
        assert_eq!(once, twice);
    }
    let mut once = PointerButtons::empty().with(PointerButton::Secondary);
    once.insert(PointerButton::NoButton);
    let mut twice = PointerButtons::empty().with(PointerButton::Secondary);
    twice.insert(PointerButton::NoButton);
    twice.insert(PointerButton::NoButton);
    assert_eq!(once, twice);
}

#[test]
fn with_then_without_returns_empty() {
    let buttons = [
        PointerButton::NoButton,
        PointerButton::Primary,
        PointerButton::Secondary,
        PointerButton::Auxiliary,
        PointerButton::X1,
        PointerButton::X2,
    ];
    for b in buttons {
        let s = PointerButtons::empty().with(b).without(b);
        assert_eq!(s, PointerButtons::empty());
    }
}

#[test]
fn inserting_no_button_is_a_no_op() {
    let mut s = PointerButtons::empty();
    s.insert(PointerButton::NoButton);
    assert!(s.is_empty());
    assert_eq!(s, PointerButtons::empty());
    let held = PointerButtons::empty().with(PointerButton::X2);
    let mut t = held;
    t.insert(PointerButton::NoButton);
    assert_eq!(t, held);
    t.remove(PointerButton::NoButton);
    assert_eq!(t, held);
}

#[test]
fn superset_of_subset_built_by_removal() {
    let s = PointerButtons::empty()
        .with(PointerButton::Primary)
        .with(PointerButton::Auxiliary)
        .with(PointerButton::X1);
    let t = s.without(PointerButton::X1);
    assert!(s.is_superset(t));
    assert!(s.is_superset(s.without(PointerButton::Primary).without(PointerButton::Auxiliary)));
    assert!(s.is_superset(PointerButtons::empty()));
    let u = t.with(PointerButton::Secondary);
    assert!(!s.is_superset(u));
}

#[test]
fn union_is_commutative_and_idempotent() {
    let a = PointerButtons::empty().with(PointerButton::Primary).with(PointerButton::X1);
    let b = PointerButtons::empty().with(PointerButton::Secondary);
    assert_eq!(a.union(b), b.union(a));
    assert_eq!(a.union(a), a);
    assert_eq!(b.union(b), b);
    let joined = a.union(b);
    assert!(joined.has_primary());
    assert!(joined.has_secondary());
    assert!(joined.has_x1());
    assert!(!joined.has_x2());
}

#[test]
fn extend_adds_all_buttons() {
    let mut s = PointerButtons::empty().with(PointerButton::Primary);
    let other = PointerButtons::empty().with(PointerButton::X1).with(PointerButton::X2);
    s.extend(other);
    assert!(s.has_primary());
    assert!(s.has_x1());
    assert!(s.has_x2());
    assert!(!s.has_secondary());
    assert!(s.is_superset(other));
}

#[test]
fn clear_yields_the_empty_set() {
    let mut s = PointerButtons::empty()
        .with(PointerButton::Primary)
        .with(PointerButton::Secondary)
        .with(PointerButton::X2);
    s.clear();
    assert!(s.is_empty());
    assert_eq!(s, PointerButtons::empty());
    let mut e = PointerButtons::empty();
    e.clear();
    assert_eq!(e, PointerButtons::empty());
}

#[test]
fn has_accessors_match_contains() {
    let s = PointerButtons::empty()
        .with(PointerButton::Secondary)
        .with(PointerButton::Auxiliary);
    assert!(!s.has_primary());
    assert!(s.has_secondary());
    assert!(s.has_auxilary());
    assert!(!s.has_x1());
    assert!(!s.has_x2());
    assert_eq!(s.has_secondary(), s.contains(PointerButton::Secondary));
    assert_eq!(s.has_primary(), s.contains(PointerButton::Primary));
}

#[test]
fn gesture_scenario_insert_and_remove() {
    let mut s = PointerButtons::empty();
    s.insert(PointerButton::Primary);
    s.insert(PointerButton::Secondary);
    assert!(s.has_primary());
    assert!(s.has_secondary());
    assert!(!s.has_auxilary());
    assert!(!s.is_empty());
    s.remove(PointerButton::Primary);
    assert!(!s.has_primary());
    assert!(s.has_secondary());
}

#[test]
fn out_of_range_code_inserts_nothing() {
    let b = PointerButton::from(7isize);
    assert_eq!(b, PointerButton::NoButton);
    let mut s = PointerButtons::empty();
    s.insert(b);
    assert!(s.is_empty());
}

#[test]
fn from_bit_pattern_keeps_the_pattern() {
    let s = PointerButtons::from(0b0000_0110u8);
    assert!(s.has_primary());
    assert!(s.has_secondary());
    assert!(!s.has_auxilary());
    assert!(!s.is_empty());
    assert_eq!(PointerButtons::from(0u8), PointerButtons::empty());
    let just_x2 = PointerButtons::from(0b0010_0000u8);
    assert_eq!(just_x2, PointerButtons::empty().with(PointerButton::X2));
    let stray_low_bit = PointerButtons::from(0b0000_0001u8);
    assert!(!stray_low_bit.contains(PointerButton::NoButton));
    for b in REAL_BUTTONS {
        assert!(!stray_low_bit.contains(b));
    }
}

#[test]
fn default_is_the_empty_set() {
    let s = PointerButtons::default();
    assert_eq!(s, PointerButtons::empty());
    assert!(s.is_empty());
}
