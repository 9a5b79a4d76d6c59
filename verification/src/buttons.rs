//! The `PointerButtons` bit-set: a fixed-width bit pattern tracking which
//! pointer buttons are held, with bit `n` standing for the button of ordinal
//! `n` and bit 0 kept clear so that `NoButton` is never a member.

use vstd::prelude::*;
use crate::button::PointerButton;

verus! {

/// The bit pattern that stands for a single button: bit `n` for the button
/// with ordinal `n`, and no bit at all for `NoButton`, so that inserting or
/// removing `NoButton` is a no-op.
pub open spec fn button_mask(button: PointerButton) -> u8 {
    match button {
        PointerButton::NoButton => 0,
        PointerButton::Primary => 2,
        PointerButton::Secondary => 4,
        PointerButton::Auxiliary => 8,
        PointerButton::X1 => 16,
        PointerButton::X2 => 32,
    }
}

/// The set of buttons whose bit is set in `bits`; `NoButton` is never a
/// member, whatever `bits` holds.
pub open spec fn buttons_in(bits: u8) -> Set<PointerButton> {
    Set::new(|b: PointerButton| b !is NoButton && bits & button_mask(b) != 0)
}

/// A set of pointer buttons held during a gesture, stored as one small bit
/// pattern. Only bits 1 through 5 are ever set by the set operations; bit 0
/// (the position `NoButton` would occupy) stays clear, so membership of
/// `NoButton` is false by construction.
#[derive(PartialEq, Eq, Structural, Clone, Copy, Debug)]
pub struct PointerButtons(u8);

/// The `PointerButtons` value holding exactly the given bit pattern.
pub closed spec fn buttons_from_bits(bits: u8) -> PointerButtons {
    PointerButtons(bits)
}

impl View for PointerButtons {
    type V = Set<PointerButton>;

    open spec fn view(&self) -> Set<PointerButton> {
        buttons_in(self.raw())
    }
}

impl PointerButtons {
    /// The underlying bit pattern.
    pub closed spec fn raw(self) -> u8 {
        self.0
    }

    /// Only button bits are set: bit 0 and the two bits above `X2` are clear.
    /// Every operation of this type preserves this, and `empty` establishes
    /// it; only conversion from an arbitrary bit pattern can break it.
    pub open spec fn wf(self) -> bool {
        self.raw() & 0xC1u8 == 0
    }

    /// Create a new empty set.
    pub fn empty() -> (r: PointerButtons)
        ensures
            r.raw() == 0,
            r@ == Set::<PointerButton>::empty(),
            r.wf(),
    {
        proof {
            lemma_no_bits();
            assert(0u8 & 0xC1u8 == 0) by (bit_vector);
        }
        PointerButtons(0)
    }

    /// Add the `button` to the set; adding `NoButton` changes nothing.
    pub fn insert(&mut self, button: PointerButton)
        ensures
            final(self).raw() == (old(self).raw() | button_mask(button)),
            final(self)@ == (if button is NoButton {
                old(self)@
            } else {
                old(self)@.insert(button)
            }),
            final(self).wf() == old(self).wf(),
    {
        proof {
            let v = old(self).raw();
            let m = button_mask(button);
            lemma_mask_values(button);
            lemma_insert_bits(v, button);
            assert((m == 0 || m == 2 || m == 4 || m == 8 || m == 16 || m == 32) ==> ((
            (v | m) & 0xC1u8 == 0) == (v & 0xC1u8 == 0))) by (bit_vector);
        }
        self.0 = self.0 | mask(button);
    }

    /// Remove the `button` from the set; removing `NoButton` changes nothing.
    pub fn remove(&mut self, button: PointerButton)
        ensures
            final(self).raw() == (old(self).raw() & !button_mask(button)),
            final(self)@ == old(self)@.remove(button),
            final(self).wf() == old(self).wf(),
    {
        proof {
            let v = old(self).raw();
            let m = button_mask(button);
            lemma_mask_values(button);
            lemma_remove_bits(v, button);
            assert((m == 0 || m == 2 || m == 4 || m == 8 || m == 16 || m == 32) ==> ((
            (v & !m) & 0xC1u8 == 0) == (v & 0xC1u8 == 0))) by (bit_vector);
        }
        let m = mask(button);
        self.0 = self.0 & !m;
    }

    /// Builder-style method for adding the `button` to the set.
    pub fn with(self, button: PointerButton) -> (r: PointerButtons)
        ensures
            r.raw() == (self.raw() | button_mask(button)),
            r@ == (if button is NoButton {
                self@
            } else {
                self@.insert(button)
            }),
            r.wf() == self.wf(),
    {
        let mut r = self;
        r.insert(button);
        r
    }

    /// Builder-style method for removing the `button` from the set.
    pub fn without(self, button: PointerButton) -> (r: PointerButtons)
        ensures
            r.raw() == (self.raw() & !button_mask(button)),
            r@ == self@.remove(button),
            r.wf() == self.wf(),
    {
        let mut r = self;
        r.remove(button);
        r
    }

    /// Returns `true` if the `button` is in the set; `NoButton` is never in
    /// the set.
    pub fn contains(self, button: PointerButton) -> (r: bool)
        ensures
            r == self@.contains(button),
    {
        proof {
            let v = self.raw();
            let m = button_mask(button);
            lemma_mask_values(button);
            assert(m == 0 ==> (v & m) == 0) by (bit_vector);
        }
        (self.0 & mask(button)) != 0
    }

    /// Returns `true` if the set is empty.
    pub fn is_empty(self) -> (r: bool)
        ensures
            r == (self.raw() == 0),
            self.wf() ==> r == (self@ == Set::<PointerButton>::empty()),
    {
        proof {
            if self.raw() == 0 {
                lemma_no_bits();
            } else if self.wf() {
                lemma_wf_nonempty(self.raw());
                let x = choose|x: PointerButton| buttons_in(self.raw()).contains(x);
                assert(!Set::<PointerButton>::empty().contains(x));
            }
        }
        self.0 == 0
    }

    /// Returns `true` if all the `buttons` are in the set.
    pub fn is_superset(self, buttons: PointerButtons) -> (r: bool)
        ensures
            r == ((self.raw() & buttons.raw()) == buttons.raw()),
            self.wf() && buttons.wf() ==> r == buttons@.subset_of(self@),
    {
        proof {
            let v1 = self.raw();
            let v2 = buttons.raw();
            if (v1 & v2) == v2 {
                assert forall|x: PointerButton| #[trigger]
                    buttons_in(v2).contains(x) implies buttons_in(v1).contains(x) by {
                    let mx = button_mask(x);
                    assert(((v1 & v2) == v2 && (v2 & mx) != 0) ==> (v1 & mx) != 0)
                        by (bit_vector);
                };
            } else if self.wf() && buttons.wf() && buttons@.subset_of(self@) {
                assert(buttons_in(v2).contains(PointerButton::Primary) ==> buttons_in(
                    v1,
                ).contains(PointerButton::Primary));
                assert(buttons_in(v2).contains(PointerButton::Secondary) ==> buttons_in(
                    v1,
                ).contains(PointerButton::Secondary));
                assert(buttons_in(v2).contains(PointerButton::Auxiliary) ==> buttons_in(
                    v1,
                ).contains(PointerButton::Auxiliary));
                assert(buttons_in(v2).contains(PointerButton::X1) ==> buttons_in(v1).contains(
                    PointerButton::X1,
                ));
                assert(buttons_in(v2).contains(PointerButton::X2) ==> buttons_in(v1).contains(
                    PointerButton::X2,
                ));
                assert(((v1 & 0xC1u8) == 0 && (v2 & 0xC1u8) == 0 && ((v2 & 2) != 0 ==> (v1 & 2)
                    != 0) && ((v2 & 4) != 0 ==> (v1 & 4) != 0) && ((v2 & 8) != 0 ==> (v1 & 8)
                    != 0) && ((v2 & 16) != 0 ==> (v1 & 16) != 0) && ((v2 & 32) != 0 ==> (v1
                    & 32) != 0)) ==> ((v1 & v2) == v2)) by (bit_vector);
            }
        }
        (self.0 & buttons.0) == buttons.0
    }

    /// Returns `true` if `PointerButton::Primary` is in the set.
    pub fn has_primary(self) -> (r: bool)
        ensures
            r == self@.contains(PointerButton::Primary),
    {
        self.contains(PointerButton::Primary)
    }

    /// Returns `true` if `PointerButton::Secondary` is in the set.
    pub fn has_secondary(self) -> (r: bool)
        ensures
            r == self@.contains(PointerButton::Secondary),
    {
        self.contains(PointerButton::Secondary)
    }

    /// Returns `true` if `PointerButton::Auxilary` is in the set.
    pub fn has_auxilary(self) -> (r: bool)
        ensures
            r == self@.contains(PointerButton::Auxiliary),
    {
        self.contains(PointerButton::Auxiliary)
    }

    /// Returns `true` if `PointerButton::X1` is in the set.
    pub fn has_x1(self) -> (r: bool)
        ensures
            r == self@.contains(PointerButton::X1),
    {
        self.contains(PointerButton::X1)
    }

    /// Returns `true` if `PointerButton::X2` is in the set.
    pub fn has_x2(self) -> (r: bool)
        ensures
            r == self@.contains(PointerButton::X2),
    {
        self.contains(PointerButton::X2)
    }

    /// Adds all the `buttons` to the set.
    pub fn extend(&mut self, buttons: PointerButtons)
        ensures
            final(self).raw() == (old(self).raw() | buttons.raw()),
            final(self)@ == old(self)@.union(buttons@),
            final(self).wf() == (old(self).wf() && buttons.wf()),
    {
        proof {
            let v1 = old(self).raw();
            let v2 = buttons.raw();
            lemma_union_bits(v1, v2);
            assert(((v1 | v2) & 0xC1u8 == 0) == ((v1 & 0xC1u8 == 0) && (v2 & 0xC1u8 == 0)))
                by (bit_vector);
        }
        self.0 = self.0 | buttons.0;
    }

    /// Returns a union of the values in `self` and `other`.
    pub fn union(self, other: PointerButtons) -> (r: PointerButtons)
        ensures
            r.raw() == (self.raw() | other.raw()),
            r@ == self@.union(other@),
            r.wf() == (self.wf() && other.wf()),
    {
        let mut r = self;
        r.extend(other);
        r
    }

    /// Clear the set; the result equals `empty()`.
    pub fn clear(&mut self)
        ensures
            final(self).raw() == 0,
            final(self)@ == Set::<PointerButton>::empty(),
            final(self).wf(),
    {
        proof {
            lemma_no_bits();
            assert(0u8 & 0xC1u8 == 0) by (bit_vector);
        }
        self.0 = 0;
    }
}

/// Two button sets are the same value exactly when their bit patterns agree.
pub proof fn lemma_raw_injective(a: PointerButtons, b: PointerButtons)
    ensures
        (a == b) == (a.raw() == b.raw()),
{
    assert(a == PointerButtons(a.0));
    assert(b == PointerButtons(b.0));
}

impl core::convert::From<u8> for PointerButtons {
    /// Builds the set holding exactly the given bit pattern, for interop
    /// with platform event payloads; see [`buttons_from_bits`].
    fn from(value: u8) -> (r: Self) {
        PointerButtons(value)
    }
}

impl vstd::std_specs::convert::FromSpecImpl<u8> for PointerButtons {
    open spec fn obeys_from_spec() -> bool {
        true
    }

    open spec fn from_spec(v: u8) -> Self {
        buttons_from_bits(v)
    }
}

/// What conversion from a raw bit pattern yields: the pattern is kept as it
/// is, so the resulting set holds exactly the buttons whose bit is set, and
/// it is well formed exactly when only button bits are set.
pub proof fn lemma_from_bits(bits: u8)
    ensures
        buttons_from_bits(bits).raw() == bits,
        buttons_from_bits(bits)@ == buttons_in(bits),
        buttons_from_bits(bits).wf() == (bits & 0xC1u8 == 0),
{
}

impl core::default::Default for PointerButtons {
    /// The default set is empty.
    fn default() -> (r: Self)
        ensures
            r.raw() == 0,
            r@ == Set::<PointerButton>::empty(),
            r.wf(),
    {
        PointerButtons::empty()
    }
}

/// The mask of the button, as an executable table.
fn mask(button: PointerButton) -> (m: u8)
    ensures
        m == button_mask(button),
{
    match button {
        PointerButton::NoButton => 0,
        PointerButton::Primary => 2,
        PointerButton::Secondary => 4,
        PointerButton::Auxiliary => 8,
        PointerButton::X1 => 16,
        PointerButton::X2 => 32,
    }
}

/// Each button mask is zero (for `NoButton` alone) or one of five fixed
/// powers of two.
pub(crate) proof fn lemma_mask_values(b: PointerButton)
    ensures
        button_mask(b) == 0 || button_mask(b) == 2 || button_mask(b) == 4 || button_mask(b) == 8
            || button_mask(b) == 16 || button_mask(b) == 32,
        (button_mask(b) == 0) == (b is NoButton),
{
}

/// Masks of distinct buttons share no bit.
pub(crate) proof fn lemma_mask_disjoint(b1: PointerButton, b2: PointerButton)
    ensures
        b1 != b2 ==> (button_mask(b1) & button_mask(b2)) == 0,
        (button_mask(b1) & button_mask(b1)) == button_mask(b1),
{
    let m1 = button_mask(b1);
    let m2 = button_mask(b2);
    lemma_mask_values(b1);
    lemma_mask_values(b2);
    assert(b1 != b2 ==> m1 != m2);
    assert(((m1 == 0 || m1 == 2 || m1 == 4 || m1 == 8 || m1 == 16 || m1 == 32) && (m2 == 0 || m2
        == 2 || m2 == 4 || m2 == 8 || m2 == 16 || m2 == 32) && m1 != m2) ==> (m1 & m2) == 0)
        by (bit_vector);
    assert((m1 & m1) == m1) by (bit_vector);
}

/// Setting a button's bit inserts exactly that button into the denoted set.
pub(crate) proof fn lemma_insert_bits(v: u8, b: PointerButton)
    ensures
        buttons_in(v | button_mask(b)) == (if b is NoButton {
            buttons_in(v)
        } else {
            buttons_in(v).insert(b)
        }),
{
    let m = button_mask(b);
    lemma_mask_values(b);
    assert forall|x: PointerButton|
        #[trigger] buttons_in(v | m).contains(x) == (buttons_in(v).contains(x) || (x == b
            && b !is NoButton)) by {
        let mx = button_mask(x);
        lemma_mask_disjoint(b, x);
        assert((((v | m) & mx) != 0) == (((v & mx) != 0) || ((m & mx) != 0))) by (bit_vector);
    };
    if b is NoButton {
        assert(buttons_in(v | m) =~= buttons_in(v));
    } else {
        assert(buttons_in(v | m) =~= buttons_in(v).insert(b));
    }
}

/// Clearing a button's bit removes exactly that button from the denoted set.
pub(crate) proof fn lemma_remove_bits(v: u8, b: PointerButton)
    ensures
        buttons_in(v & !button_mask(b)) == buttons_in(v).remove(b),
{
    let m = button_mask(b);
    lemma_mask_values(b);
    assert forall|x: PointerButton|
        #[trigger] buttons_in(v & !m).contains(x) == (buttons_in(v).contains(x) && x != b) by {
        let mx = button_mask(x);
        lemma_mask_disjoint(b, x);
        lemma_mask_values(x);
        if x == b {
            assert(((v & !m) & m) == 0) by (bit_vector);
        } else {
            assert(((m & mx) == 0) ==> (((v & !m) & mx) == (v & mx))) by (bit_vector);
        }
    };
    assert(buttons_in(v & !m) =~= buttons_in(v).remove(b));
}

/// Bitwise or of two patterns denotes the union of the denoted sets.
pub(crate) proof fn lemma_union_bits(v1: u8, v2: u8)
    ensures
        buttons_in(v1 | v2) == buttons_in(v1).union(buttons_in(v2)),
{
    assert forall|x: PointerButton|
        #[trigger] buttons_in(v1 | v2).contains(x) == (buttons_in(v1).contains(x) || buttons_in(
            v2,
        ).contains(x)) by {
        let mx = button_mask(x);
        assert((((v1 | v2) & mx) != 0) == (((v1 & mx) != 0) || ((v2 & mx) != 0))) by (bit_vector);
    };
    assert(buttons_in(v1 | v2) =~= buttons_in(v1).union(buttons_in(v2)));
}

/// The zero pattern denotes the empty set.
pub(crate) proof fn lemma_no_bits()
    ensures
        buttons_in(0) == Set::<PointerButton>::empty(),
{
    assert forall|x: PointerButton| !(#[trigger] buttons_in(0).contains(x)) by {
        let mx = button_mask(x);
        assert((0u8 & mx) == 0) by (bit_vector);
    };
    assert(buttons_in(0) =~= Set::<PointerButton>::empty());
}

/// A well-formed, non-zero pattern denotes a set with at least one button.
pub(crate) proof fn lemma_wf_nonempty(v: u8)
    requires
        v & 0xC1u8 == 0,
        v != 0,
    ensures
        exists|x: PointerButton| buttons_in(v).contains(x),
{
    assert((v & 2) != 0 || (v & 4) != 0 || (v & 8) != 0 || (v & 16) != 0 || (v & 32) != 0)
        by (bit_vector)
        requires
            v & 0xC1u8 == 0,
            v != 0,
    ;
    if v & 2 != 0 {
        assert(buttons_in(v).contains(PointerButton::Primary));
    } else if v & 4 != 0 {
        assert(buttons_in(v).contains(PointerButton::Secondary));
    } else if v & 8 != 0 {
        assert(buttons_in(v).contains(PointerButton::Auxiliary));
    } else if v & 16 != 0 {
        assert(buttons_in(v).contains(PointerButton::X1));
    } else {
        assert(buttons_in(v).contains(PointerButton::X2));
    }
}

} // verus!
