//! Pointer input data types: a button enumeration with a total integer
//! conversion, a compact bit-set over those buttons, and a device-kind tag.

mod button;
mod buttons;
mod laws;

pub use button::button_from_code;
pub use button::spec_code;
pub use button::PointerButton;
pub use button::PointerType;
pub use buttons::button_mask;
pub use buttons::buttons_from_bits;
pub use buttons::buttons_in;
pub use buttons::lemma_from_bits;
pub use buttons::lemma_raw_injective;
pub use buttons::PointerButtons;
pub use laws::lemma_code_round_trip;
pub use laws::lemma_empty_contains_nothing;
pub use laws::lemma_from_code_out_of_range;
pub use laws::lemma_from_code_round_trip;
pub use laws::lemma_insert_idempotent;
pub use laws::lemma_superset_needs_membership;
pub use laws::lemma_union_commutative;
pub use laws::lemma_union_idempotent;
pub use laws::lemma_with_contains;
pub use laws::lemma_with_without_inverse;
pub use laws::lemma_without_is_subset;
