//! Laws of the button types, stated and proved once for all values: the
//! totality and round-trip of the integer conversion, and the algebra of the
//! bit-set operations over the model they are specified with.

use vstd::prelude::*;
use crate::button::button_from_code;
use crate::button::spec_code;
use crate::button::PointerButton;
use crate::buttons::button_mask;
use crate::buttons::buttons_in;
use crate::buttons::lemma_mask_values;
use crate::buttons::lemma_no_bits;
use crate::buttons::lemma_remove_bits;
use crate::buttons::PointerButtons;

verus! {

/// Every integer code outside 0..=5 converts to `NoButton`.
pub proof fn lemma_from_code_out_of_range(code: isize)
    requires
        !(0 <= code <= 5),
    ensures
        button_from_code(code) is NoButton,
{
}

/// Every code in 0..=5 converts to the button of that ordinal, whose ordinal
/// is the same code again.
pub proof fn lemma_from_code_round_trip(code: isize)
    requires
        0 <= code <= 5,
    ensures
        spec_code(button_from_code(code)) == code,
{
}

/// Every button converts back from its own ordinal.
pub proof fn lemma_code_round_trip(button: PointerButton)
    ensures
        button_from_code(spec_code(button) as isize) == button,
{
}

/// The empty bit pattern denotes the empty set, which contains no button.
pub proof fn lemma_empty_contains_nothing(button: PointerButton)
    ensures
        buttons_in(0) == Set::<PointerButton>::empty(),
        !buttons_in(0).contains(button),
{
    lemma_no_bits();
}

/// Adding a real button to the empty set yields a non-empty value that
/// contains that button.
pub proof fn lemma_with_contains(button: PointerButton)
    requires
        button !is NoButton,
    ensures
        buttons_in(0u8 | button_mask(button)).contains(button),
        (0u8 | button_mask(button)) != 0,
{
    lemma_mask_values(button);
    let m = button_mask(button);
    assert(m != 0 ==> ((0u8 | m) != 0 && ((0u8 | m) & m) != 0)) by (bit_vector);
}

/// Inserting a button twice leaves the very same value as inserting it once.
pub proof fn lemma_insert_idempotent(s: PointerButtons, button: PointerButton)
    ensures
        ((s.raw() | button_mask(button)) | button_mask(button)) == (s.raw() | button_mask(button)),
{
    let v = s.raw();
    let m = button_mask(button);
    assert(((v | m) | m) == (v | m)) by (bit_vector);
}

/// Adding a button to the empty set and then removing it again returns the
/// empty value, for every button including `NoButton`.
pub proof fn lemma_with_without_inverse(button: PointerButton)
    ensures
        ((0u8 | button_mask(button)) & !button_mask(button)) == 0,
{
    let m = button_mask(button);
    assert(((0u8 | m) & !m) == 0) by (bit_vector);
}

/// Removing a button yields a subset of the original set, and the original
/// passes the superset test against it.
pub proof fn lemma_without_is_subset(s: PointerButtons, button: PointerButton)
    ensures
        buttons_in(s.raw() & !button_mask(button)).subset_of(buttons_in(s.raw())),
        (s.raw() & (s.raw() & !button_mask(button))) == (s.raw() & !button_mask(button)),
{
    let v = s.raw();
    let m = button_mask(button);
    lemma_remove_bits(v, button);
    assert((v & (v & !m)) == (v & !m)) by (bit_vector);
}

/// A set holding a button that another set lacks never passes that other
/// set's superset test.
pub proof fn lemma_superset_needs_membership(s: PointerButtons, t: PointerButtons, button: PointerButton)
    requires
        buttons_in(t.raw()).contains(button),
        !buttons_in(s.raw()).contains(button),
    ensures
        (s.raw() & t.raw()) != t.raw(),
{
    let v1 = s.raw();
    let v2 = t.raw();
    let m = button_mask(button);
    assert(((v2 & m) != 0 && (v1 & m) == 0) ==> ((v1 & v2) != v2)) by (bit_vector);
}

/// Union gives the same value whichever way round its arguments come.
pub proof fn lemma_union_commutative(a: PointerButtons, b: PointerButtons)
    ensures
        (a.raw() | b.raw()) == (b.raw() | a.raw()),
{
    let x = a.raw();
    let y = b.raw();
    assert((x | y) == (y | x)) by (bit_vector);
}

/// The union of a set with itself is that same value.
pub proof fn lemma_union_idempotent(a: PointerButtons)
    ensures
        (a.raw() | a.raw()) == a.raw(),
{
    let x = a.raw();
    assert((x | x) == x) by (bit_vector);
}

} // verus!
