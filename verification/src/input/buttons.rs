//! Controller buttons as a bit set, in one layout for every controller kind.
use vstd::prelude::*;

verus! {

/// The masks of the single buttons are the associated constants.
#[derive(Clone, Copy, Debug, PartialEq, Eq, Structural)]
pub struct Buttons(pub u16);

/// Whether the two masks share a button.
pub open spec fn shares(a: u16, b: u16) -> bool {
    a & b != 0
}

impl Buttons {
    pub const EMPTY: u16 = 0;
    pub const DPAD_UP: u16 = 0x0001;
    pub const DPAD_DOWN: u16 = 0x0002;
    pub const DPAD_LEFT: u16 = 0x0004;
    pub const DPAD_RIGHT: u16 = 0x0008;
    pub const START: u16 = 0x0010;
    pub const BACK: u16 = 0x0020;
    pub const LEFT_THUMB: u16 = 0x0040;
    pub const RIGHT_THUMB: u16 = 0x0080;
    pub const LEFT_SHOULDER: u16 = 0x0100;
    pub const RIGHT_SHOULDER: u16 = 0x0200;
    pub const HOME: u16 = 0x0400;
    pub const A: u16 = 0x1000;
    pub const B: u16 = 0x2000;
    pub const X: u16 = 0x4000;
    pub const Y: u16 = 0x8000;

    pub fn is_empty(self) -> (r: bool)
        ensures
            r == (self.0 == 0),
    {
        self.0 == 0
    }

    /// Whether one of the buttons of `mask` is in the set.
    pub fn intersects(self, mask: u16) -> (r: bool)
        ensures
            r == shares(self.0, mask),
    {
        (self.0 & mask) != 0
    }

    /// The set with the buttons of `mask` added.
    pub fn with(self, mask: u16) -> (r: Buttons)
        ensures
            r.0 == self.0 | mask,
    {
        Buttons(self.0 | mask)
    }
}

} // verus!
