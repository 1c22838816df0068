//! XInput controllers: their button layout, and the guide button decisions
//! of the watcher that polls the four controller slots.
use vstd::prelude::*;

use super::buttons::Buttons;
use super::InputAggregateState;

verus! {

pub const XINPUT_SELECTION_RUMBLE_DURATION_MS: u64 = 40;

pub const XINPUT_SELECTION_RUMBLE_LEFT_STRENGTH: u16 = 0;

pub const XINPUT_SELECTION_RUMBLE_RIGHT_STRENGTH: u16 = 10_000;

/// Number of XInput controller slots.
pub const XINPUT_SLOTS: usize = 4;

/// A rumble: how long, and the strength of each motor.
#[derive(Clone, Copy, Debug, PartialEq, Eq, Structural)]
pub struct XInputRumbleSettings {
    pub duration_ms: u64,
    pub left_strength: u16,
    pub right_strength: u16,
}

/// The short rumble felt when the selection changes.
pub fn xinput_rumble_settings() -> (r: XInputRumbleSettings)
    ensures
        r == (XInputRumbleSettings {
            duration_ms: XINPUT_SELECTION_RUMBLE_DURATION_MS,
            left_strength: XINPUT_SELECTION_RUMBLE_LEFT_STRENGTH,
            right_strength: XINPUT_SELECTION_RUMBLE_RIGHT_STRENGTH,
        }),
{
    XInputRumbleSettings {
        duration_ms: XINPUT_SELECTION_RUMBLE_DURATION_MS,
        left_strength: XINPUT_SELECTION_RUMBLE_LEFT_STRENGTH,
        right_strength: XINPUT_SELECTION_RUMBLE_RIGHT_STRENGTH,
    }
}

/// The bits of an XInput button word that name a button; the guide
/// button is bit 0x0400, and 0x0800 names none.
pub open spec fn known_buttons(buttons: u16) -> u16 {
    buttons & 0xf7ffu16
}

/// The buttons of an XInput button word, in the common layout.
pub fn normalize_buttons(buttons: u16) -> (r: Buttons)
    ensures
        r.0 == known_buttons(buttons),
{
    let mut n: u16 = 0;
    n = n | copy_bit(buttons, 0x0001, Buttons::DPAD_UP);
    n = n | copy_bit(buttons, 0x0002, Buttons::DPAD_DOWN);
    n = n | copy_bit(buttons, 0x0004, Buttons::DPAD_LEFT);
    n = n | copy_bit(buttons, 0x0008, Buttons::DPAD_RIGHT);
    n = n | copy_bit(buttons, 0x0010, Buttons::START);
    n = n | copy_bit(buttons, 0x0020, Buttons::BACK);
    n = n | copy_bit(buttons, 0x0040, Buttons::LEFT_THUMB);
    n = n | copy_bit(buttons, 0x0080, Buttons::RIGHT_THUMB);
    n = n | copy_bit(buttons, 0x0100, Buttons::LEFT_SHOULDER);
    n = n | copy_bit(buttons, 0x0200, Buttons::RIGHT_SHOULDER);
    n = n | copy_bit(buttons, 0x0400, Buttons::HOME);
    n = n | copy_bit(buttons, 0x1000, Buttons::A);
    n = n | copy_bit(buttons, 0x2000, Buttons::B);
    n = n | copy_bit(buttons, 0x4000, Buttons::X);
    n = n | copy_bit(buttons, 0x8000, Buttons::Y);
    proof {
        lemma_normalize(buttons);
    }
    Buttons(n)
}

/// `mask` when `buttons` has the bit `bit`, else nothing.
pub open spec fn bit_copy(buttons: u16, bit: u16, mask: u16) -> u16 {
    if buttons & bit != 0 {
        mask
    } else {
        0u16
    }
}

fn copy_bit(buttons: u16, bit: u16, mask: u16) -> (r: u16)
    ensures
        r == bit_copy(buttons, bit, mask),
{
    if buttons & bit != 0 {
        mask
    } else {
        0
    }
}

/// The bit-by-bit copy in `normalize_buttons` keeps exactly the known bits.
proof fn lemma_normalize(buttons: u16)
    ensures
        (((((((((((((((0u16 | bit_copy(buttons, 0x0001u16, 0x0001u16)) | bit_copy(buttons, 0x0002u16, 0x0002u16)) | bit_copy(buttons, 0x0004u16, 0x0004u16)) | bit_copy(buttons, 0x0008u16, 0x0008u16)) | bit_copy(buttons, 0x0010u16, 0x0010u16)) | bit_copy(buttons, 0x0020u16, 0x0020u16)) | bit_copy(buttons, 0x0040u16, 0x0040u16)) | bit_copy(buttons, 0x0080u16, 0x0080u16)) | bit_copy(buttons, 0x0100u16, 0x0100u16)) | bit_copy(buttons, 0x0200u16, 0x0200u16)) | bit_copy(buttons, 0x0400u16, 0x0400u16)) | bit_copy(buttons, 0x1000u16, 0x1000u16)) | bit_copy(buttons, 0x2000u16, 0x2000u16)) | bit_copy(buttons, 0x4000u16, 0x4000u16)) | bit_copy(buttons, 0x8000u16, 0x8000u16)) == known_buttons(buttons),
{
    assert((((((((((((((((0u16 | bit_copy(buttons, 0x0001u16, 0x0001u16)) | bit_copy(buttons, 0x0002u16, 0x0002u16)) | bit_copy(buttons, 0x0004u16, 0x0004u16)) | bit_copy(buttons, 0x0008u16, 0x0008u16)) | bit_copy(buttons, 0x0010u16, 0x0010u16)) | bit_copy(buttons, 0x0020u16, 0x0020u16)) | bit_copy(buttons, 0x0040u16, 0x0040u16)) | bit_copy(buttons, 0x0080u16, 0x0080u16)) | bit_copy(buttons, 0x0100u16, 0x0100u16)) | bit_copy(buttons, 0x0200u16, 0x0200u16)) | bit_copy(buttons, 0x0400u16, 0x0400u16)) | bit_copy(buttons, 0x1000u16, 0x1000u16)) | bit_copy(buttons, 0x2000u16, 0x2000u16)) | bit_copy(buttons, 0x4000u16, 0x4000u16)) | bit_copy(buttons, 0x8000u16, 0x8000u16)) == known_buttons(buttons)) by (bit_vector);
}

/// The combined state of the connected controllers, when one is connected.
pub fn aggregate_state(states: &Vec<(u32, Buttons, i32, i32)>) -> (r: Option<InputAggregateState>)
    ensures
        r is Some <==> states@.len() > 0,
        r matches Some(s) ==> s.buttons.0 == super::buttons_union(states@, states@.len() as int),
        r matches Some(s) ==> s.up == exists|i: int|
            0 <= i < states@.len() && (#[trigger] states@[i]).2 > super::STICK_THRESHOLD,
        r matches Some(s) ==> s.down == exists|i: int|
            0 <= i < states@.len() && (#[trigger] states@[i]).2 < -super::STICK_THRESHOLD,
        r matches Some(s) ==> s.right == exists|i: int|
            0 <= i < states@.len() && (#[trigger] states@[i]).3 > super::STICK_THRESHOLD,
        r matches Some(s) ==> s.left == exists|i: int|
            0 <= i < states@.len() && (#[trigger] states@[i]).3 < -super::STICK_THRESHOLD,
{
    if states.len() == 0 {
        None
    } else {
        Some(InputAggregateState::from_states(states))
    }
}

/// What the guide button watcher does after polling the slots.
#[derive(Clone, Copy, Debug, PartialEq, Eq, Structural)]
pub struct GuideWatchEvents {
    /// A guide press woke the launcher from the background.
    pub request_wake: bool,
    /// A guide press asks for a new frame.
    pub request_repaint: bool,
    /// The guide button is held on some controller.
    pub any_held: bool,
}

/// Whether slot `i` shows a fresh guide press.
pub open spec fn fresh_press(prev: Seq<bool>, pressed: Seq<Option<bool>>, i: int) -> bool {
    pressed[i] == Some(true) && !prev[i]
}

/// The guide state of each slot after a poll: pressed or not where a
/// controller answered, released where none did.
pub open spec fn guide_after(pressed: Seq<Option<bool>>) -> Seq<bool> {
    Seq::new(pressed.len(), |i: int| pressed[i] == Some(true))
}

/// One poll of the guide buttons. `pressed[i]` is the guide state of slot
/// `i`, or `None` where no controller answered. A fresh press asks for a
/// frame, and in the background wakes the launcher when waking is enabled;
/// a held guide button in the foreground asks for a frame too.
pub fn guide_watch_step(
    prev: &[bool; 4],
    pressed: &[Option<bool>; 4],
    app_is_background: bool,
    wake_enabled: bool,
) -> (r: ([bool; 4], GuideWatchEvents))
    ensures
        r.0@ == guide_after(pressed@),
        r.1.any_held == exists|i: int| 0 <= i < 4 && pressed@[i] == Some(true),
        r.1.request_wake == (app_is_background && wake_enabled && exists|i: int|
            0 <= i < 4 && fresh_press(prev@, pressed@, i)),
        r.1.request_repaint == ((exists|i: int| 0 <= i < 4 && fresh_press(prev@, pressed@, i)) || (
        !app_is_background && exists|i: int| 0 <= i < 4 && pressed@[i] == Some(true))),
{
    let mut next: [bool; 4] = [false; 4];
    let mut any_held = false;
    let mut any_fresh = false;
    let mut i: usize = 0;
    while i < XINPUT_SLOTS
        invariant
            i <= 4,
            next@.len() == 4,
            prev@.len() == 4,
            pressed@.len() == 4,
            forall|j: int| 0 <= j < i ==> next@[j] == (pressed@[j] == Some(true)),
            any_held == exists|j: int| 0 <= j < i && pressed@[j] == Some(true),
            any_fresh == exists|j: int| 0 <= j < i && fresh_press(prev@, pressed@, j),
        decreases 4 - i,
    {
        let is_pressed = match pressed[i] {
            Some(p) => p,
            None => false,
        };
        if is_pressed {
            any_held = true;
            if !prev[i] {
                any_fresh = true;
                assert(fresh_press(prev@, pressed@, i as int));
            }
        }
        assert(fresh_press(prev@, pressed@, i as int) ==> any_fresh);
        assert(pressed@[i as int] == Some(true) ==> any_held);
        next[i] = is_pressed;
        i = i + 1;
    }
    assert(next@ =~= guide_after(pressed@));
    let events = GuideWatchEvents {
        request_wake: app_is_background && wake_enabled && any_fresh,
        request_repaint: any_fresh || (!app_is_background && any_held),
        any_held,
    };
    (next, events)
}

} // verus!
