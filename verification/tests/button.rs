//! Tests of the `PointerButton` conversion and predicates.

use pointer_events::PointerButton;
use pointer_events::PointerType;

#[test]
fn conversion_maps_each_code_to_its_variant() {
    assert_eq!(PointerButton::from(0isize), PointerButton::NoButton);
    assert_eq!(PointerButton::from(1isize), PointerButton::Primary);
    assert_eq!(PointerButton::from(2isize), PointerButton::Secondary);
    assert_eq!(PointerButton::from(3isize), PointerButton::Auxiliary);
    assert_eq!(PointerButton::from(4isize), PointerButton::X1);
    assert_eq!(PointerButton::from(5isize), PointerButton::X2);
}

#[test]
fn conversion_is_total_and_out_of_range_gives_no_button() {
    for code in [-1isize, -100, 6, 7, 8, 100, isize::MAX, isize::MIN] {
        assert_eq!(PointerButton::from(code), PointerButton::NoButton);
    }
}

#[test]
fn predicates_hold_exactly_on_their_own_variant() {
    assert!(PointerButton::Primary.is_primary());
    assert!(PointerButton::Secondary.is_secondary());
    assert!(PointerButton::Auxiliary.is_auxilary());
    assert!(PointerButton::X1.is_x1());
    assert!(PointerButton::X2.is_x2());

    assert!(!PointerButton::NoButton.is_primary());
    assert!(!PointerButton::NoButton.is_secondary());
    assert!(!PointerButton::NoButton.is_auxilary());
    assert!(!PointerButton::NoButton.is_x1());
    assert!(!PointerButton::NoButton.is_x2());

    assert!(!PointerButton::Secondary.is_primary());
    assert!(!PointerButton::Primary.is_secondary());
    assert!(!PointerButton::X1.is_auxilary());
    assert!(!PointerButton::X2.is_x1());
    assert!(!PointerButton::X1.is_x2());
}

#[test]
fn pointer_type_tags_are_distinct() {
    let kinds = [PointerType::Mouse, PointerType::Pen, PointerType::Touch];
    let mut seen_mouse = false;
    let mut seen_pen = false;
    let mut seen_touch = false;
    for kind in kinds {
        match kind {
            PointerType::Mouse => seen_mouse = true,
            PointerType::Pen => seen_pen = true,
            PointerType::Touch => seen_touch = true,
        }
    }
    assert!(seen_mouse && seen_pen && seen_touch);
}
