//! The `PointerButton` enumeration, its total conversion from raw integer
//! codes, and the `PointerType` device-kind tag.

use vstd::prelude::*;

verus! {

/// A single pointer button, or `NoButton` for "no button".
///
/// The ordinal mapping is fixed: 0 = `NoButton`, 1 = `Primary`, 2 = `Secondary`,
/// 3 = `Auxiliary`, 4 = `X1`, 5 = `X2` (see [`spec_code`]).
#[derive(PartialEq, Eq, Structural, Clone, Copy, Debug)]
pub enum PointerButton {
    /// No button (the sentinel "no button" value).
    NoButton,

    /// The primary pointer button, usually the left mouse button.
    Primary,

    /// The secondary pointer button, usually the right mouse button.
    Secondary,

    /// The auxiliary pointer button, usually the wheel or middle mouse button.
    Auxiliary,

    /// The fourth button, usually the back button.
    X1,

    /// The fifth button, usually the forward button.
    X2,
}

/// The fixed ordinal of each button: 0 for `NoButton` through 5 for `X2`.
pub open spec fn spec_code(button: PointerButton) -> u8 {
    match button {
        PointerButton::NoButton => 0,
        PointerButton::Primary => 1,
        PointerButton::Secondary => 2,
        PointerButton::Auxiliary => 3,
        PointerButton::X1 => 4,
        PointerButton::X2 => 5,
    }
}

/// The button denoted by a raw integer code; every code outside 0..=5 is
/// normalized to `NoButton`, so the conversion is total.
pub open spec fn button_from_code(code: isize) -> PointerButton {
    if code == 1 {
        PointerButton::Primary
    } else if code == 2 {
        PointerButton::Secondary
    } else if code == 3 {
        PointerButton::Auxiliary
    } else if code == 4 {
        PointerButton::X1
    } else if code == 5 {
        PointerButton::X2
    } else {
        PointerButton::NoButton
    }
}

impl core::convert::From<isize> for PointerButton {
    /// Converts a raw platform button code; any unrecognized code yields
    /// `PointerButton::NoButton` rather than an error.
    fn from(value: isize) -> (r: Self) {
        match value {
            0 => PointerButton::NoButton,
            1 => PointerButton::Primary,
            2 => PointerButton::Secondary,
            3 => PointerButton::Auxiliary,
            4 => PointerButton::X1,
            5 => PointerButton::X2,
            _ => PointerButton::NoButton,
        }
    }
}

impl vstd::std_specs::convert::FromSpecImpl<isize> for PointerButton {
    open spec fn obeys_from_spec() -> bool {
        true
    }

    open spec fn from_spec(v: isize) -> Self {
        button_from_code(v)
    }
}

impl PointerButton {
    /// Returns `true` if this is `PointerButton::Primary`.
    pub fn is_primary(self) -> (r: bool)
        ensures
            r == (self is Primary),
    {
        self == PointerButton::Primary
    }

    /// Returns `true` if this is `PointerButton::Secondary`.
    pub fn is_secondary(self) -> (r: bool)
        ensures
            r == (self is Secondary),
    {
        self == PointerButton::Secondary
    }

    /// Returns `true` if this is `PointerButton::Auxilary`.
    pub fn is_auxilary(self) -> (r: bool)
        ensures
            r == (self is Auxiliary),
    {
        self == PointerButton::Auxiliary
    }

    /// Returns `true` if this is `PointerButton::X1`.
    pub fn is_x1(self) -> (r: bool)
        ensures
            r == (self is X1),
    {
        self == PointerButton::X1
    }

    /// Returns `true` if this is `PointerButton::X2`.
    pub fn is_x2(self) -> (r: bool)
        ensures
            r == (self is X2),
    {
        self == PointerButton::X2
    }
}

/// The kind of device that produced a pointer event.
#[derive(Debug, Clone, Copy)]
pub enum PointerType {
    Mouse,
    Pen,
    Touch,
}

} // verus!
