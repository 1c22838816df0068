//! Controller input: actions, held buttons, repeat timing while a button is
//! held, and the mapping of buttons to actions.
//!
//! Times are milliseconds on one monotonic clock, chosen by the caller.
use vstd::prelude::*;

pub mod buttons;
pub mod dualsense;
pub mod xinput;

use self::buttons::Buttons;
use crate::config::PromptIconTheme;

verus! {

/// The brand of controller whose button prompts are shown.
#[derive(Clone, Copy, Debug, PartialEq, Eq, Structural)]
pub enum ControllerBrand {
    Xbox,
    PlayStation,
}

/// The settings value written for a controller brand.
pub open spec fn controller_brand_ini_value(brand: ControllerBrand) -> Seq<char> {
    match brand {
        ControllerBrand::Xbox => "xbox"@,
        ControllerBrand::PlayStation => "playstation"@,
    }
}

/// The controller brand named by a settings value, trimmed and without
/// case: `xbox`, or `playstation` and its short names.
pub open spec fn controller_brand_from_ini(value: Seq<char>) -> Option<ControllerBrand> {
    let v = crate::text::lower_seq(crate::text::trim(value));
    if v == "xbox"@ {
        Some(ControllerBrand::Xbox)
    } else if v == "playstation"@ || v == "ps"@ || v == "ps5"@ || v == "dualsense"@ || v
        == "dualsence"@ {
        Some(ControllerBrand::PlayStation)
    } else {
        None
    }
}

impl ControllerBrand {
    pub fn as_ini_value(self) -> (r: &'static str)
        ensures
            r@ == controller_brand_ini_value(self),
    {
        match self {
            ControllerBrand::Xbox => "xbox",
            ControllerBrand::PlayStation => "playstation",
        }
    }

    pub fn from_ini_value(value: &str) -> (r: Option<Self>)
        ensures
            r == controller_brand_from_ini(value@),
    {
        let v = crate::text::to_ascii_lowercase(&crate::text::trim_chars(&crate::text::chars_of(value)));
        if crate::text::eq_str(&v, "xbox") {
            Some(ControllerBrand::Xbox)
        } else if crate::text::eq_str(&v, "playstation") || crate::text::eq_str(&v, "ps")
            || crate::text::eq_str(&v, "ps5") || crate::text::eq_str(&v, "dualsense")
            || crate::text::eq_str(&v, "dualsence") {
            Some(ControllerBrand::PlayStation)
        } else {
            None
        }
    }
}

/// A held direction fires again after this long.
pub const NAV_INITIAL_DELAY_MS: u64 = 350;

/// The repeat interval of a held button.
pub const NAV_REPEAT_INTERVAL_MS: u64 = 120;

/// A direction held this long repeats faster.
pub const NAV_REPEAT_ACCEL_STAGE1_AFTER_MS: u64 = 500;

/// A direction held this long repeats fastest.
pub const NAV_REPEAT_ACCEL_STAGE2_AFTER_MS: u64 = 1300;

pub const NAV_REPEAT_INTERVAL_STAGE1_MS: u64 = 80;

pub const NAV_REPEAT_INTERVAL_STAGE2_MS: u64 = 45;

/// A stick counts as pushed beyond this deflection.
pub const STICK_THRESHOLD: i32 = 16000;

/// A navigation command produced by the controller.
#[derive(Clone, Copy, Debug, PartialEq, Eq, Structural)]
pub enum ControllerAction {
    Up,
    Down,
    Left,
    Right,
    Launch,
    Refresh,
    Settings,
    Quit,
    Menu,
}

/// The command named by a mapping value: `up`, `down`, `left`, `right`,
/// `launch` or `quit`, exactly.
pub open spec fn controller_action_named(value: Seq<char>) -> Option<ControllerAction> {
    if value == "up"@ {
        Some(ControllerAction::Up)
    } else if value == "down"@ {
        Some(ControllerAction::Down)
    } else if value == "left"@ {
        Some(ControllerAction::Left)
    } else if value == "right"@ {
        Some(ControllerAction::Right)
    } else if value == "launch"@ {
        Some(ControllerAction::Launch)
    } else if value == "quit"@ {
        Some(ControllerAction::Quit)
    } else {
        None
    }
}

impl ControllerAction {
    pub fn from_str(value: &str) -> (r: Option<ControllerAction>)
        ensures
            r == controller_action_named(value@),
    {
        let v = crate::text::chars_of(value);
        if crate::text::eq_str(&v, "up") {
            Some(ControllerAction::Up)
        } else if crate::text::eq_str(&v, "down") {
            Some(ControllerAction::Down)
        } else if crate::text::eq_str(&v, "left") {
            Some(ControllerAction::Left)
        } else if crate::text::eq_str(&v, "right") {
            Some(ControllerAction::Right)
        } else if crate::text::eq_str(&v, "launch") {
            Some(ControllerAction::Launch)
        } else if crate::text::eq_str(&v, "quit") {
            Some(ControllerAction::Quit)
        } else {
            None
        }
    }
}

/// What a held button stands for, before repeat timing.
#[derive(Clone, Copy, Debug, PartialEq, Eq, Structural)]
pub enum InputAction {
    Up,
    Down,
    Left,
    Right,
    Launch,
    Refresh,
    Settings,
    Quit,
    ForceClose,
}

/// Number of input actions.
pub const INPUT_ACTION_COUNT: usize = 9;

pub open spec fn action_index(a: InputAction) -> int {
    match a {
        InputAction::Up => 0,
        InputAction::Down => 1,
        InputAction::Left => 2,
        InputAction::Right => 3,
        InputAction::Launch => 4,
        InputAction::Refresh => 5,
        InputAction::Settings => 6,
        InputAction::Quit => 7,
        InputAction::ForceClose => 8,
    }
}

pub open spec fn action_at(i: int) -> InputAction {
    if i == 0 {
        InputAction::Up
    } else if i == 1 {
        InputAction::Down
    } else if i == 2 {
        InputAction::Left
    } else if i == 3 {
        InputAction::Right
    } else if i == 4 {
        InputAction::Launch
    } else if i == 5 {
        InputAction::Refresh
    } else if i == 6 {
        InputAction::Settings
    } else if i == 7 {
        InputAction::Quit
    } else {
        InputAction::ForceClose
    }
}

/// The bit of an action in a held-action set.
pub open spec fn action_bit(a: InputAction) -> u16 {
    match a {
        InputAction::Up => 0x0001,
        InputAction::Down => 0x0002,
        InputAction::Left => 0x0004,
        InputAction::Right => 0x0008,
        InputAction::Launch => 0x0010,
        InputAction::Refresh => 0x0020,
        InputAction::Settings => 0x0040,
        InputAction::Quit => 0x0080,
        InputAction::ForceClose => 0x0100,
    }
}

/// The actions that a held button fires again after a while: all but
/// refresh and settings.
pub open spec fn action_repeats(a: InputAction) -> bool {
    !(a == InputAction::Refresh || a == InputAction::Settings)
}

pub open spec fn controller_action_of(a: InputAction) -> Option<ControllerAction> {
    match a {
        InputAction::Up => Some(ControllerAction::Up),
        InputAction::Down => Some(ControllerAction::Down),
        InputAction::Left => Some(ControllerAction::Left),
        InputAction::Right => Some(ControllerAction::Right),
        InputAction::Launch => Some(ControllerAction::Launch),
        InputAction::Refresh => Some(ControllerAction::Refresh),
        InputAction::Settings => Some(ControllerAction::Settings),
        InputAction::Quit => Some(ControllerAction::Quit),
        InputAction::ForceClose => None,
    }
}

/// The action named by a mapping key.
pub open spec fn action_of_mapping_key(key: Seq<char>) -> Option<InputAction> {
    if key == "up"@ {
        Some(InputAction::Up)
    } else if key == "down"@ {
        Some(InputAction::Down)
    } else if key == "left"@ {
        Some(InputAction::Left)
    } else if key == "right"@ {
        Some(InputAction::Right)
    } else if key == "launch"@ {
        Some(InputAction::Launch)
    } else if key == "refresh"@ {
        Some(InputAction::Refresh)
    } else if key == "settings"@ {
        Some(InputAction::Settings)
    } else if key == "quit"@ {
        Some(InputAction::Quit)
    } else if key == "force_close"@ {
        Some(InputAction::ForceClose)
    } else {
        None
    }
}

/// The action named by a mapping key of a stick direction: only up and down.
pub open spec fn action_of_vertical_mapping_key(key: Seq<char>) -> Option<InputAction> {
    if key == "up"@ {
        Some(InputAction::Up)
    } else if key == "down"@ {
        Some(InputAction::Down)
    } else {
        None
    }
}

/// The actions polled in a frame, in the order in which they fire: the
/// directions, launch, refresh, settings, and quit where it is taken.
pub open spec fn poll_order(include_quit_action: bool) -> Seq<InputAction> {
    if include_quit_action {
        seq![
            InputAction::Up,
            InputAction::Down,
            InputAction::Left,
            InputAction::Right,
            InputAction::Launch,
            InputAction::Refresh,
            InputAction::Settings,
            InputAction::Quit,
        ]
    } else {
        seq![
            InputAction::Up,
            InputAction::Down,
            InputAction::Left,
            InputAction::Right,
            InputAction::Launch,
            InputAction::Refresh,
            InputAction::Settings,
        ]
    }
}

pub open spec fn is_polled(a: InputAction, include_quit_action: bool) -> bool {
    a != InputAction::ForceClose && (a != InputAction::Quit || include_quit_action)
}

impl InputAction {
    pub fn index(self) -> (r: usize)
        ensures
            r == action_index(self),
    {
        match self {
            InputAction::Up => 0,
            InputAction::Down => 1,
            InputAction::Left => 2,
            InputAction::Right => 3,
            InputAction::Launch => 4,
            InputAction::Refresh => 5,
            InputAction::Settings => 6,
            InputAction::Quit => 7,
            InputAction::ForceClose => 8,
        }
    }

    pub fn at(i: usize) -> (r: InputAction)
        requires
            i < INPUT_ACTION_COUNT,
        ensures
            r == action_at(i as int),
            action_index(r) == i,
    {
        if i == 0 {
            InputAction::Up
        } else if i == 1 {
            InputAction::Down
        } else if i == 2 {
            InputAction::Left
        } else if i == 3 {
            InputAction::Right
        } else if i == 4 {
            InputAction::Launch
        } else if i == 5 {
            InputAction::Refresh
        } else if i == 6 {
            InputAction::Settings
        } else if i == 7 {
            InputAction::Quit
        } else {
            InputAction::ForceClose
        }
    }

    pub fn bit(self) -> (r: u16)
        ensures
            r == action_bit(self),
    {
        match self {
            InputAction::Up => 0x0001,
            InputAction::Down => 0x0002,
            InputAction::Left => 0x0004,
            InputAction::Right => 0x0008,
            InputAction::Launch => 0x0010,
            InputAction::Refresh => 0x0020,
            InputAction::Settings => 0x0040,
            InputAction::Quit => 0x0080,
            InputAction::ForceClose => 0x0100,
        }
    }

    pub fn from_mapping_key(value: &str) -> (r: Option<InputAction>)
        ensures
            r == action_of_mapping_key(value@),
    {
        let v = crate::text::chars_of(value);
        if crate::text::eq_str(&v, "up") {
            Some(InputAction::Up)
        } else if crate::text::eq_str(&v, "down") {
            Some(InputAction::Down)
        } else if crate::text::eq_str(&v, "left") {
            Some(InputAction::Left)
        } else if crate::text::eq_str(&v, "right") {
            Some(InputAction::Right)
        } else if crate::text::eq_str(&v, "launch") {
            Some(InputAction::Launch)
        } else if crate::text::eq_str(&v, "refresh") {
            Some(InputAction::Refresh)
        } else if crate::text::eq_str(&v, "settings") {
            Some(InputAction::Settings)
        } else if crate::text::eq_str(&v, "quit") {
            Some(InputAction::Quit)
        } else if crate::text::eq_str(&v, "force_close") {
            Some(InputAction::ForceClose)
        } else {
            None
        }
    }

    pub fn from_vertical_mapping_key(value: &str) -> (r: Option<InputAction>)
        ensures
            r == action_of_vertical_mapping_key(value@),
    {
        let v = crate::text::chars_of(value);
        if crate::text::eq_str(&v, "up") {
            Some(InputAction::Up)
        } else if crate::text::eq_str(&v, "down") {
            Some(InputAction::Down)
        } else {
            None
        }
    }

    pub fn to_controller_action(self) -> (r: Option<ControllerAction>)
        ensures
            r == controller_action_of(self),
    {
        match self {
            InputAction::Up => Some(ControllerAction::Up),
            InputAction::Down => Some(ControllerAction::Down),
            InputAction::Left => Some(ControllerAction::Left),
            InputAction::Right => Some(ControllerAction::Right),
            InputAction::Launch => Some(ControllerAction::Launch),
            InputAction::Refresh => Some(ControllerAction::Refresh),
            InputAction::Settings => Some(ControllerAction::Settings),
            InputAction::Quit => Some(ControllerAction::Quit),
            InputAction::ForceClose => None,
        }
    }

    pub fn repeats(self) -> (r: bool)
        ensures
            r == action_repeats(self),
    {
        match self {
            InputAction::Refresh | InputAction::Settings => false,
            _ => true,
        }
    }

    /// The actions polled in a frame, in firing order.
    pub fn pollable_actions(include_quit_action: bool) -> (r: Vec<InputAction>)
        ensures
            r@ == poll_order(include_quit_action),
    {
        let mut v: Vec<InputAction> = Vec::new();
        v.push(InputAction::Up);
        v.push(InputAction::Down);
        v.push(InputAction::Left);
        v.push(InputAction::Right);
        v.push(InputAction::Launch);
        v.push(InputAction::Refresh);
        v.push(InputAction::Settings);
        if include_quit_action {
            v.push(InputAction::Quit);
        }
        assert(v@ =~= poll_order(include_quit_action));
        v
    }
}

/// The set of actions whose buttons are held, one bit per action.
#[derive(Clone, Copy, Debug, PartialEq, Eq, Structural)]
pub struct RawHeldState(pub u16);

pub open spec fn raw_contains(bits: u16, a: InputAction) -> bool {
    bits & action_bit(a) != 0
}

impl RawHeldState {
    pub fn new() -> (r: Self)
        ensures
            r.0 == 0,
    {
        RawHeldState(0)
    }

    pub fn insert(&mut self, action: InputAction)
        ensures
            final(self).0 == old(self).0 | action_bit(action),
    {
        self.0 = self.0 | action.bit();
    }

    pub fn contains(&self, action: InputAction) -> (r: bool)
        ensures
            r == raw_contains(self.0, action),
    {
        (self.0 & action.bit()) != 0
    }
}

/// A set with one more action holds that action and the ones it held.
pub proof fn lemma_insert_contains(bits: u16, a: InputAction, b: InputAction)
    ensures
        raw_contains(bits | action_bit(a), b) == (raw_contains(bits, b) || a == b),
{
    let x = action_bit(a);
    let y = action_bit(b);
    assert((bits | x) & y != 0 <==> (bits & y != 0 || x & y != 0)) by (bit_vector);
    assert(x & y != 0 <==> a == b) by {
        assert(0x0001u16 & 0x0002u16 == 0) by (bit_vector);
        assert(forall|p: u16, q: u16|
            #![auto]
            (p == 0x0001u16 || p == 0x0002u16 || p == 0x0004u16 || p == 0x0008u16 || p == 0x0010u16
                || p == 0x0020u16 || p == 0x0040u16 || p == 0x0080u16 || p == 0x0100u16) && (q
                == 0x0001u16 || q == 0x0002u16 || q == 0x0004u16 || q == 0x0008u16 || q
                == 0x0010u16 || q == 0x0020u16 || q == 0x0040u16 || q == 0x0080u16 || q
                == 0x0100u16) ==> (p & q != 0 <==> p == q)) by (bit_vector);
    }
}

/// The combined state of the connected controllers.
#[derive(Clone, Copy, Debug, PartialEq, Eq, Structural)]
pub struct InputAggregateState {
    pub buttons: Buttons,
    pub up: bool,
    pub down: bool,
    pub left: bool,
    pub right: bool,
}

/// The actions that the buttons and stick of a controller state hold.
pub open spec fn held_mask(s: InputAggregateState) -> u16 {
    let b = s.buttons.0;
    let m0: u16 = 0;
    let m1 = if b & Buttons::DPAD_UP != 0 || s.up {
        m0 | 0x0001u16
    } else {
        m0
    };
    let m2 = if b & Buttons::DPAD_DOWN != 0 || s.down {
        m1 | 0x0002u16
    } else {
        m1
    };
    let m3 = if b & Buttons::DPAD_LEFT != 0 || s.left {
        m2 | 0x0004u16
    } else {
        m2
    };
    let m4 = if b & Buttons::DPAD_RIGHT != 0 || s.right {
        m3 | 0x0008u16
    } else {
        m3
    };
    let m5 = if b & Buttons::A != 0 {
        m4 | 0x0010u16
    } else {
        m4
    };
    let m6 = if b & Buttons::B != 0 {
        m5 | 0x0080u16
    } else {
        m5
    };
    let m7 = if b & Buttons::X != 0 {
        (m6 | 0x0020u16) | 0x0100u16
    } else {
        m6
    };
    if b & Buttons::Y != 0 {
        m7 | 0x0040u16
    } else {
        m7
    }
}

proof fn lemma_held_chain_bits(
    b: u16,
    up: bool,
    down: bool,
    left: bool,
    right: bool,
    m1: u16,
    m2: u16,
    m3: u16,
    m4: u16,
    m5: u16,
    m6: u16,
    m7: u16,
    m8: u16,
)
    by (bit_vector)
    requires
        m1 == (if b & 0x0001u16 != 0 || up { 0u16 | 0x0001u16 } else { 0u16 }),
        m2 == (if b & 0x0002u16 != 0 || down { m1 | 0x0002u16 } else { m1 }),
        m3 == (if b & 0x0004u16 != 0 || left { m2 | 0x0004u16 } else { m2 }),
        m4 == (if b & 0x0008u16 != 0 || right { m3 | 0x0008u16 } else { m3 }),
        m5 == (if b & 0x1000u16 != 0 { m4 | 0x0010u16 } else { m4 }),
        m6 == (if b & 0x2000u16 != 0 { m5 | 0x0080u16 } else { m5 }),
        m7 == (if b & 0x4000u16 != 0 { (m6 | 0x0020u16) | 0x0100u16 } else { m6 }),
        m8 == (if b & 0x8000u16 != 0 { m7 | 0x0040u16 } else { m7 }),
    ensures
        (m8 & 0x0001u16 != 0) == (b & 0x0001u16 != 0 || up),
        (m8 & 0x0002u16 != 0) == (b & 0x0002u16 != 0 || down),
        (m8 & 0x0004u16 != 0) == (b & 0x0004u16 != 0 || left),
        (m8 & 0x0008u16 != 0) == (b & 0x0008u16 != 0 || right),
        (m8 & 0x0010u16 != 0) == (b & 0x1000u16 != 0),
        (m8 & 0x0080u16 != 0) == (b & 0x2000u16 != 0),
        (m8 & 0x0020u16 != 0) == (b & 0x4000u16 != 0),
        (m8 & 0x0100u16 != 0) == (b & 0x4000u16 != 0),
        (m8 & 0x0040u16 != 0) == (b & 0x8000u16 != 0),
{
}

/// Each action is held by its own buttons: a direction by its D-pad button
/// or the left stick, launch by A, quit by B, refresh and force close by X,
/// settings by Y.
pub proof fn lemma_held_actions_by_button(s: InputAggregateState)
    ensures
        raw_contains(held_mask(s), InputAction::Up) == (s.buttons.0 & Buttons::DPAD_UP != 0 || s.up),
        raw_contains(held_mask(s), InputAction::Down) == (s.buttons.0 & Buttons::DPAD_DOWN != 0
            || s.down),
        raw_contains(held_mask(s), InputAction::Left) == (s.buttons.0 & Buttons::DPAD_LEFT != 0
            || s.left),
        raw_contains(held_mask(s), InputAction::Right) == (s.buttons.0 & Buttons::DPAD_RIGHT != 0
            || s.right),
        raw_contains(held_mask(s), InputAction::Launch) == (s.buttons.0 & Buttons::A != 0),
        raw_contains(held_mask(s), InputAction::Quit) == (s.buttons.0 & Buttons::B != 0),
        raw_contains(held_mask(s), InputAction::Refresh) == (s.buttons.0 & Buttons::X != 0),
        raw_contains(held_mask(s), InputAction::ForceClose) == (s.buttons.0 & Buttons::X != 0),
        raw_contains(held_mask(s), InputAction::Settings) == (s.buttons.0 & Buttons::Y != 0),
{
    let b = s.buttons.0;
    let m1: u16 = if b & 0x0001u16 != 0 || s.up { 0u16 | 0x0001u16 } else { 0u16 };
    let m2: u16 = if b & 0x0002u16 != 0 || s.down { m1 | 0x0002u16 } else { m1 };
    let m3: u16 = if b & 0x0004u16 != 0 || s.left { m2 | 0x0004u16 } else { m2 };
    let m4: u16 = if b & 0x0008u16 != 0 || s.right { m3 | 0x0008u16 } else { m3 };
    let m5: u16 = if b & 0x1000u16 != 0 { m4 | 0x0010u16 } else { m4 };
    let m6: u16 = if b & 0x2000u16 != 0 { m5 | 0x0080u16 } else { m5 };
    let m7: u16 = if b & 0x4000u16 != 0 { (m6 | 0x0020u16) | 0x0100u16 } else { m6 };
    let m8: u16 = if b & 0x8000u16 != 0 { m7 | 0x0040u16 } else { m7 };
    lemma_held_chain_bits(b, s.up, s.down, s.left, s.right, m1, m2, m3, m4, m5, m6, m7, m8);
    assert(held_mask(s) == m8);
}

impl InputAggregateState {
    /// The state of one controller: buttons and left stick.
    pub fn from_state(buttons: Buttons, ly: i32, lx: i32) -> (r: Self)
        ensures
            r == (InputAggregateState {
                buttons,
                up: ly > STICK_THRESHOLD,
                down: ly < -STICK_THRESHOLD,
                left: lx < -STICK_THRESHOLD,
                right: lx > STICK_THRESHOLD,
            }),
    {
        InputAggregateState {
            buttons,
            up: ly > STICK_THRESHOLD,
            down: ly < -STICK_THRESHOLD,
            left: lx < -STICK_THRESHOLD,
            right: lx > STICK_THRESHOLD,
        }
    }

    /// The union of several controller states: a button or direction is
    /// held when some controller holds it.
    pub fn from_states(states: &Vec<(u32, Buttons, i32, i32)>) -> (r: Self)
        ensures
            forall|i: int|
                0 <= i < states@.len() ==> (r.buttons.0 | (#[trigger] states@[i]).1.0) == r.buttons.0,
            r.up == exists|i: int| 0 <= i < states@.len() && (#[trigger] states@[i]).2 > STICK_THRESHOLD,
            r.down == exists|i: int|
                0 <= i < states@.len() && (#[trigger] states@[i]).2 < -STICK_THRESHOLD,
            r.right == exists|i: int|
                0 <= i < states@.len() && (#[trigger] states@[i]).3 > STICK_THRESHOLD,
            r.left == exists|i: int|
                0 <= i < states@.len() && (#[trigger] states@[i]).3 < -STICK_THRESHOLD,
            r.buttons.0 == buttons_union(states@, states@.len() as int),
    {
        let mut aggregate = InputAggregateState {
            buttons: Buttons(0),
            up: false,
            down: false,
            left: false,
            right: false,
        };
        let mut i: usize = 0;
        while i < states.len()
            invariant
                i <= states@.len(),
                aggregate.buttons.0 == buttons_union(states@, i as int),
                forall|j: int|
                    0 <= j < i ==> (aggregate.buttons.0 | (#[trigger] states@[j]).1.0)
                        == aggregate.buttons.0,
                aggregate.up == exists|j: int| 0 <= j < i && (#[trigger] states@[j]).2 > STICK_THRESHOLD,
                aggregate.down == exists|j: int|
                    0 <= j < i && (#[trigger] states@[j]).2 < -STICK_THRESHOLD,
                aggregate.right == exists|j: int|
                    0 <= j < i && (#[trigger] states@[j]).3 > STICK_THRESHOLD,
                aggregate.left == exists|j: int|
                    0 <= j < i && (#[trigger] states@[j]).3 < -STICK_THRESHOLD,
            decreases states.len() - i,
        {
            let (_, buttons, ly, lx) = states[i];
            let old_bits = aggregate.buttons.0;
            aggregate.buttons = Buttons(old_bits | buttons.0);
            proof {
                lemma_union_absorbs(old_bits, buttons.0);
                assert forall|j: int| 0 <= j < i + 1 implies (aggregate.buttons.0 | (
                #[trigger] states@[j]).1.0) == aggregate.buttons.0 by {
                    if j < i {
                        lemma_union_keeps_absorbed(old_bits, states@[j].1.0, buttons.0);
                    }
                }
            }
            aggregate.up = aggregate.up || ly > STICK_THRESHOLD;
            aggregate.down = aggregate.down || ly < -STICK_THRESHOLD;
            aggregate.right = aggregate.right || lx > STICK_THRESHOLD;
            aggregate.left = aggregate.left || lx < -STICK_THRESHOLD;
            i = i + 1;
        }
        aggregate
    }

    /// Adds the actions that this state holds.
    pub fn populate_raw_held(&self, raw_held: &mut RawHeldState)
        ensures
            final(raw_held).0 == old(raw_held).0 | held_mask(*self),
    {
        let b = self.buttons.0;
        let mut m: u16 = 0;
        if b & Buttons::DPAD_UP != 0 || self.up {
            m = m | 0x0001;
        }
        if b & Buttons::DPAD_DOWN != 0 || self.down {
            m = m | 0x0002;
        }
        if b & Buttons::DPAD_LEFT != 0 || self.left {
            m = m | 0x0004;
        }
        if b & Buttons::DPAD_RIGHT != 0 || self.right {
            m = m | 0x0008;
        }
        if b & Buttons::A != 0 {
            m = m | 0x0010;
        }
        if b & Buttons::B != 0 {
            m = m | 0x0080;
        }
        if b & Buttons::X != 0 {
            m = (m | 0x0020) | 0x0100;
        }
        if b & Buttons::Y != 0 {
            m = m | 0x0040;
        }
        raw_held.0 = raw_held.0 | m;
    }

    /// Whether the state asks for a new frame: a button or a pushed stick.
    pub fn has_repaint_activity(&self) -> (r: bool)
        ensures
            r == (self.buttons.0 != 0 || self.up || self.down || self.left || self.right),
    {
        !self.buttons.is_empty() || self.up || self.down || self.left || self.right
    }
}

/// The buttons of the first `n` controller states together.
pub open spec fn buttons_union(states: Seq<(u32, Buttons, i32, i32)>, n: int) -> u16
    decreases n,
{
    if n <= 0 {
        0
    } else {
        buttons_union(states, n - 1) | states[n - 1].1.0
    }
}

proof fn lemma_union_absorbs(a: u16, b: u16)
    ensures
        ((a | b) | b) == (a | b),
{
    assert(((a | b) | b) == (a | b)) by (bit_vector);
}

proof fn lemma_union_keeps_absorbed(a: u16, c: u16, b: u16)
    requires
        (a | c) == a,
    ensures
        ((a | b) | c) == (a | b),
{
    assert((a | c) == a ==> ((a | b) | c) == (a | b)) by (bit_vector);
}

/// A stick direction that a mapping can stand for.
#[derive(Clone, Copy, Debug, PartialEq, Eq, Structural)]
pub enum VerticalAxisDirection {
    Negative,
    Positive,
}

impl VerticalAxisDirection {
    /// The direction of the left stick, when pushed far enough.
    pub fn from_thumb_ly(ly: i32) -> (r: Option<Self>)
        ensures
            r == (if ly < -STICK_THRESHOLD {
                Some(VerticalAxisDirection::Negative)
            } else if ly > STICK_THRESHOLD {
                Some(VerticalAxisDirection::Positive)
            } else {
                None
            }),
    {
        if ly < -STICK_THRESHOLD {
            Some(VerticalAxisDirection::Negative)
        } else if ly > STICK_THRESHOLD {
            Some(VerticalAxisDirection::Positive)
        } else {
            None
        }
    }

    pub fn is_active(self, aggregate: &InputAggregateState) -> (r: bool)
        ensures
            r == match self {
                VerticalAxisDirection::Negative => aggregate.down,
                VerticalAxisDirection::Positive => aggregate.up,
            },
    {
        match self {
            VerticalAxisDirection::Negative => aggregate.down,
            VerticalAxisDirection::Positive => aggregate.up,
        }
    }
}

/// What a mapping entry listens to.
#[derive(Clone, Copy, Debug, PartialEq, Eq, Structural)]
pub enum InputToken {
    Unmapped,
    Button(Buttons),
    VerticalAxis(VerticalAxisDirection),
}

pub open spec fn token_active(t: InputToken, s: InputAggregateState) -> bool {
    match t {
        InputToken::Button(mask) => s.buttons.0 & mask.0 != 0,
        InputToken::VerticalAxis(VerticalAxisDirection::Negative) => s.down,
        InputToken::VerticalAxis(VerticalAxisDirection::Positive) => s.up,
        InputToken::Unmapped => false,
    }
}

impl InputToken {
    /// The input of a controller to remap to: its buttons when one is
    /// held, else the direction of its stick.
    pub fn detect_input(buttons: Buttons, ly: i32) -> (r: Option<Self>)
        ensures
            r == (if buttons.0 != 0 {
                Some(InputToken::Button(buttons))
            } else if ly < -STICK_THRESHOLD {
                Some(InputToken::VerticalAxis(VerticalAxisDirection::Negative))
            } else if ly > STICK_THRESHOLD {
                Some(InputToken::VerticalAxis(VerticalAxisDirection::Positive))
            } else {
                None
            }),
    {
        if !buttons.is_empty() {
            Some(InputToken::Button(buttons))
        } else {
            match VerticalAxisDirection::from_thumb_ly(ly) {
                Some(d) => Some(InputToken::VerticalAxis(d)),
                None => None,
            }
        }
    }

    pub fn is_active(&self, aggregate: &InputAggregateState) -> (r: bool)
        ensures
            r == token_active(*self, *aggregate),
    {
        match self {
            InputToken::Button(mask) => aggregate.buttons.intersects(mask.0),
            InputToken::VerticalAxis(direction) => direction.is_active(aggregate),
            InputToken::Unmapped => false,
        }
    }
}

/// The repeat timing of a held button.
#[derive(Clone, Copy, Debug, PartialEq, Eq, Structural)]
pub struct NavState {
    pub since: u64,
    pub last_fire: u64,
    pub past_initial: bool,
}

/// The time from `earlier` to `later`, zero when `later` comes first.
pub open spec fn since_ms(earlier: u64, later: u64) -> u64 {
    if later >= earlier {
        (later - earlier) as u64
    } else {
        0
    }
}

/// The repeat interval of an action held for `held_ms`: directions
/// speed up in two stages, the other actions keep the base interval.
pub open spec fn nav_repeat_interval(action: InputAction, held_ms: u64) -> u64 {
    match action {
        InputAction::Up | InputAction::Down | InputAction::Left | InputAction::Right => {
            if held_ms >= NAV_REPEAT_ACCEL_STAGE2_AFTER_MS {
                NAV_REPEAT_INTERVAL_STAGE2_MS
            } else if held_ms >= NAV_REPEAT_ACCEL_STAGE1_AFTER_MS {
                NAV_REPEAT_INTERVAL_STAGE1_MS
            } else {
                NAV_REPEAT_INTERVAL_MS
            }
        },
        _ => NAV_REPEAT_INTERVAL_MS,
    }
}

/// A held direction repeats faster the longer it is held: the repeat
/// interval never grows with the time held.
pub proof fn lemma_repeat_interval_shrinks(action: InputAction, held_ms: u64, later_ms: u64)
    requires
        held_ms <= later_ms,
    ensures
        nav_repeat_interval(action, later_ms) <= nav_repeat_interval(action, held_ms),
{
}

/// A button that starts being held fires at once; held on, it fires again
/// no sooner than the initial delay.
pub proof fn lemma_press_fires_then_waits(a: InputAction, now: u64, later: u64)
    requires
        now <= later,
        later < now + NAV_INITIAL_DELAY_MS,
    ensures
        nav_fire_step(a, None, now).1,
        !nav_fire_step(a, nav_fire_step(a, None, now).0, later).1,
{
}

pub fn nav_repeat_interval_ms(action: InputAction, held_ms: u64) -> (r: u64)
    ensures
        r == nav_repeat_interval(action, held_ms),
{
    match action {
        InputAction::Up | InputAction::Down | InputAction::Left | InputAction::Right => {
            if held_ms >= NAV_REPEAT_ACCEL_STAGE2_AFTER_MS {
                NAV_REPEAT_INTERVAL_STAGE2_MS
            } else if held_ms >= NAV_REPEAT_ACCEL_STAGE1_AFTER_MS {
                NAV_REPEAT_INTERVAL_STAGE1_MS
            } else {
                NAV_REPEAT_INTERVAL_MS
            }
        },
        _ => NAV_REPEAT_INTERVAL_MS,
    }
}

/// The repeat state and firing of a polled action whose button is held at
/// `now`: a fresh press fires at once; a held one fires again after the
/// initial delay, then at its repeat interval; refresh and settings fire
/// only once per press.
pub open spec fn nav_fire_step(a: InputAction, s: Option<NavState>, now: u64) -> (
    Option<NavState>,
    bool,
) {
    match s {
        None => (Some(NavState { since: now, last_fire: now, past_initial: false }), true),
        Some(st) => if !action_repeats(a) {
            (s, false)
        } else if !st.past_initial {
            if since_ms(st.since, now) >= NAV_INITIAL_DELAY_MS {
                (Some(NavState { past_initial: true, last_fire: now, ..st }), true)
            } else {
                (s, false)
            }
        } else if since_ms(st.last_fire, now) >= nav_repeat_interval(a, since_ms(st.since, now)) {
            (Some(NavState { last_fire: now, ..st }), true)
        } else {
            (s, false)
        },
    }
}

/// The repeat state of an action after a poll.
pub open spec fn nav_state_after(
    held: Seq<Option<NavState>>,
    raw: u16,
    process_input: bool,
    include_quit_action: bool,
    now: u64,
    a: InputAction,
) -> Option<NavState> {
    if !process_input || !raw_contains(raw, a) {
        None
    } else if is_polled(a, include_quit_action) {
        nav_fire_step(a, held[action_index(a)], now).0
    } else {
        held[action_index(a)]
    }
}

/// Whether an action fires in a poll.
pub open spec fn fires(
    held: Seq<Option<NavState>>,
    raw: u16,
    process_input: bool,
    include_quit_action: bool,
    now: u64,
    a: InputAction,
) -> bool {
    process_input && raw_contains(raw, a) && is_polled(a, include_quit_action) && nav_fire_step(
        a,
        held[action_index(a)],
        now,
    ).1
}

/// The commands fired by the first `n` polled actions, in order.
pub open spec fn fired_prefix(
    held: Seq<Option<NavState>>,
    raw: u16,
    process_input: bool,
    include_quit_action: bool,
    now: u64,
    n: int,
) -> Seq<ControllerAction>
    decreases n,
{
    if n <= 0 {
        Seq::empty()
    } else {
        let a = poll_order(include_quit_action)[n - 1];
        let before = fired_prefix(held, raw, process_input, include_quit_action, now, n - 1);
        if fires(held, raw, process_input, include_quit_action, now, a) {
            before.push(controller_action_of(a).unwrap())
        } else {
            before
        }
    }
}

pub open spec fn fired_actions(
    held: Seq<Option<NavState>>,
    raw: u16,
    process_input: bool,
    include_quit_action: bool,
    now: u64,
) -> Seq<ControllerAction> {
    fired_prefix(
        held,
        raw,
        process_input,
        include_quit_action,
        now,
        poll_order(include_quit_action).len() as int,
    )
}

/// The outcome of one input poll.
pub struct InputFrame {
    pub actions: Vec<ControllerAction>,
    pub launch_held: bool,
    pub force_close_held: bool,
    pub has_controller_activity: bool,
    pub prompt_icon_theme: Option<PromptIconTheme>,
}

fn nav_fire(a: InputAction, s: Option<NavState>, now: u64) -> (r: (Option<NavState>, bool))
    ensures
        r == nav_fire_step(a, s, now),
{
    match s {
        None => (Some(NavState { since: now, last_fire: now, past_initial: false }), true),
        Some(st) => {
            if !a.repeats() {
                (s, false)
            } else if !st.past_initial {
                let held = if now >= st.since {
                    now - st.since
                } else {
                    0
                };
                if held >= NAV_INITIAL_DELAY_MS {
                    (Some(NavState { since: st.since, last_fire: now, past_initial: true }), true)
                } else {
                    (s, false)
                }
            } else {
                let held = if now >= st.since {
                    now - st.since
                } else {
                    0
                };
                let since_fire = if now >= st.last_fire {
                    now - st.last_fire
                } else {
                    0
                };
                if since_fire >= nav_repeat_interval_ms(a, held) {
                    (Some(NavState { since: st.since, last_fire: now, past_initial: true }), true)
                } else {
                    (s, false)
                }
            }
        },
    }
}

/// The controller state that the launcher keeps between frames: the repeat
/// timing of each held action, the mapping of extra buttons, and the
/// prompt theme and selection feedback of the last controller used.
pub struct InputController {
    current_prompt_icon_theme: Option<PromptIconTheme>,
    current_rumble_prompt_icon_theme: Option<PromptIconTheme>,
    selection_vibration_enabled: bool,
    mapping: Mapping,
    remap_target: Option<String>,
    nav_held: [Option<NavState>; 9],
}

impl InputController {
    pub closed spec fn nav_held(&self) -> Seq<Option<NavState>> {
        self.nav_held@
    }

    pub closed spec fn selection_vibration(&self) -> bool {
        self.selection_vibration_enabled
    }

    pub closed spec fn mapping_entries(&self) -> Seq<(String, InputToken)> {
        self.mapping.entries@
    }

    pub closed spec fn remap_target_spec(&self) -> Option<String> {
        self.remap_target
    }

    /// No button held, no mapping, selection feedback off.
    pub fn new() -> (r: Self)
        ensures
            r.nav_held() == Seq::new(INPUT_ACTION_COUNT as nat, |i: int| None::<NavState>),
            !r.selection_vibration(),
            r.mapping_entries().len() == 0,
            r.remap_target_spec() is None,
    {
        let nav_held: [Option<NavState>; 9] = [None; 9];
        assert(nav_held@ =~= Seq::new(INPUT_ACTION_COUNT as nat, |i: int| None::<NavState>));
        InputController {
            current_prompt_icon_theme: None,
            current_rumble_prompt_icon_theme: None,
            selection_vibration_enabled: false,
            mapping: Mapping { entries: Vec::new() },
            remap_target: None,
            nav_held,
        }
    }

    pub fn set_selection_vibration_enabled(&mut self, enabled: bool)
        ensures
            final(self).selection_vibration() == enabled,
            final(self).nav_held() == old(self).nav_held(),
            final(self).mapping_entries() == old(self).mapping_entries(),
            final(self).remap_target_spec() == old(self).remap_target_spec(),
    {
        self.selection_vibration_enabled = enabled;
    }

    /// Whether a change of selection is felt on the controller.
    pub fn pulse_selection_change(&self) -> (r: bool)
        ensures
            r == self.selection_vibration(),
    {
        self.selection_vibration_enabled
    }

    /// Forgets every held button: the next press fires at once.
    pub fn clear_held(&mut self)
        ensures
            final(self).nav_held() == Seq::new(INPUT_ACTION_COUNT as nat, |i: int| None::<NavState>),
            final(self).selection_vibration() == old(self).selection_vibration(),
            final(self).mapping_entries() == old(self).mapping_entries(),
            final(self).remap_target_spec() == old(self).remap_target_spec(),
    {
        let mut i: usize = 0;
        while i < INPUT_ACTION_COUNT
            invariant
                i <= INPUT_ACTION_COUNT,
                self.nav_held@.len() == INPUT_ACTION_COUNT,
                forall|j: int| 0 <= j < i ==> self.nav_held@[j] is None,
                self.selection_vibration_enabled == old(self).selection_vibration_enabled,
                self.mapping == old(self).mapping,
                self.remap_target == old(self).remap_target,
            decreases INPUT_ACTION_COUNT - i,
        {
            self.nav_held[i] = None;
            i = i + 1;
        }
        assert(self.nav_held@ =~= Seq::new(INPUT_ACTION_COUNT as nat, |j: int| None::<NavState>));
    }

    /// One poll of held actions at `now`: fires the actions that are due,
    /// in poll order, and keeps the repeat timing of the held ones.
    pub fn poll_with_raw_held(
        &mut self,
        raw_held: RawHeldState,
        process_input: bool,
        include_quit_action: bool,
        has_controller_activity: bool,
        prompt_icon_theme: Option<PromptIconTheme>,
        now: u64,
    ) -> (r: InputFrame)
        ensures
            r.actions@ == fired_actions(
                old(self).nav_held(),
                raw_held.0,
                process_input,
                include_quit_action,
                now,
            ),
            forall|i: int|
                0 <= i < INPUT_ACTION_COUNT ==> #[trigger] final(self).nav_held()[i]
                    == nav_state_after(
                    old(self).nav_held(),
                    raw_held.0,
                    process_input,
                    include_quit_action,
                    now,
                    action_at(i),
                ),
            final(self).nav_held().len() == INPUT_ACTION_COUNT,
            final(self).selection_vibration() == old(self).selection_vibration(),
            r.launch_held == raw_contains(raw_held.0, InputAction::Launch),
            r.force_close_held == raw_contains(raw_held.0, InputAction::ForceClose),
            r.has_controller_activity == has_controller_activity,
            r.prompt_icon_theme == prompt_icon_theme,
    {
        let ghost held0 = self.nav_held@;
        let mut actions: Vec<ControllerAction> = Vec::new();
        // Releases and the repeat state of actions that are not polled.
        let mut i: usize = 0;
        while i < INPUT_ACTION_COUNT
            invariant
                i <= INPUT_ACTION_COUNT,
                self.nav_held@.len() == INPUT_ACTION_COUNT,
                held0.len() == INPUT_ACTION_COUNT,
                forall|j: int|
                    0 <= j < i ==> #[trigger] self.nav_held@[j] == if !process_input || !raw_contains(
                        raw_held.0,
                        action_at(j),
                    ) {
                        None
                    } else {
                        held0[j]
                    },
                forall|j: int| i <= j < INPUT_ACTION_COUNT ==> #[trigger] self.nav_held@[j] == held0[j],
                self.selection_vibration_enabled == old(self).selection_vibration_enabled,
                self.mapping == old(self).mapping,
                self.remap_target == old(self).remap_target,
            decreases INPUT_ACTION_COUNT - i,
        {
            let a = InputAction::at(i);
            if !process_input || !raw_held.contains(a) {
                self.nav_held[i] = None;
            }
            i = i + 1;
        }
        // The polled actions, in order.
        let order = InputAction::pollable_actions(include_quit_action);
        let mut k: usize = 0;
        while k < order.len()
            invariant
                k <= order@.len(),
                order@ == poll_order(include_quit_action),
                self.nav_held@.len() == INPUT_ACTION_COUNT,
                held0.len() == INPUT_ACTION_COUNT,
                actions@ == fired_prefix(
                    held0,
                    raw_held.0,
                    process_input,
                    include_quit_action,
                    now,
                    k as int,
                ),
                forall|j: int|
                    #![trigger self.nav_held@[j]]
                    0 <= j < INPUT_ACTION_COUNT ==> {
                        let a = action_at(j);
                        let done = exists|q: int| 0 <= q < k && order@[q] == a;
                        self.nav_held@[j] == if done {
                            nav_state_after(
                                held0,
                                raw_held.0,
                                process_input,
                                include_quit_action,
                                now,
                                a,
                            )
                        } else if !process_input || !raw_contains(raw_held.0, a) {
                            None
                        } else {
                            held0[j]
                        }
                    },
                self.selection_vibration_enabled == old(self).selection_vibration_enabled,
            decreases order@.len() - k,
        {
            let a = order[k];
            let idx = a.index();
            proof {
                lemma_poll_order_distinct(include_quit_action);
                assert(action_at(idx as int) == a);
            }
            if process_input && raw_held.contains(a) {
                let (next, fire) = nav_fire(a, self.nav_held[idx], now);
                self.nav_held[idx] = next;
                if fire {
                    match a.to_controller_action() {
                        Some(c) => {
                            actions.push(c);
                        },
                        None => {},
                    }
                }
            }
            proof {
                assert forall|j: int|
                    #![trigger self.nav_held@[j]]
                    0 <= j < INPUT_ACTION_COUNT implies {
                    let b = action_at(j);
                    let done = exists|q: int| 0 <= q < k + 1 && order@[q] == b;
                    self.nav_held@[j] == if done {
                        nav_state_after(held0, raw_held.0, process_input, include_quit_action, now, b)
                    } else if !process_input || !raw_contains(raw_held.0, b) {
                        None
                    } else {
                        held0[j]
                    }
                } by {
                    let b = action_at(j);
                    lemma_action_at_index(j);
                    if j == idx as int {
                        assert(order@[k as int] == b);
                        assert(is_polled(b, include_quit_action));
                    } else {
                        assert(b != a);
                        if exists|q: int| 0 <= q < k + 1 && order@[q] == b {
                            let q = choose|q: int| 0 <= q < k + 1 && order@[q] == b;
                            assert(q != k);
                        }
                    }
                }
            }
            k = k + 1;
        }
        proof {
            assert forall|i: int|
                0 <= i < INPUT_ACTION_COUNT implies #[trigger] self.nav_held@[i] == nav_state_after(
                held0,
                raw_held.0,
                process_input,
                include_quit_action,
                now,
                action_at(i),
            ) by {
                let b = action_at(i);
                lemma_action_at_index(i);
                lemma_polled_in_order(b, include_quit_action);
            }
        }
        InputFrame {
            actions,
            launch_held: raw_held.contains(InputAction::Launch),
            force_close_held: raw_held.contains(InputAction::ForceClose),
            has_controller_activity,
            prompt_icon_theme,
        }
    }
}

proof fn lemma_action_at_index(i: int)
    requires
        0 <= i < INPUT_ACTION_COUNT,
    ensures
        action_index(action_at(i)) == i,
{
}

proof fn lemma_poll_order_distinct(include_quit_action: bool)
    ensures
        forall|q: int|
            0 <= q < poll_order(include_quit_action).len() ==> is_polled(
                #[trigger] poll_order(include_quit_action)[q],
                include_quit_action,
            ),
{
}

/// An action is polled exactly when it is in the poll order.
proof fn lemma_polled_in_order(a: InputAction, include_quit_action: bool)
    ensures
        is_polled(a, include_quit_action) <==> exists|q: int|
            0 <= q < poll_order(include_quit_action).len() && poll_order(include_quit_action)[q]
                == a,
{
    let o = poll_order(include_quit_action);
    if is_polled(a, include_quit_action) {
        let q = action_index(a);
        assert(o[q] == a);
    } else {
        assert forall|q: int| 0 <= q < o.len() implies o[q] != a by {
        }
    }
}

/// Buttons mapped to actions by name; a name stands at most once.
pub struct Mapping {
    pub entries: Vec<(String, InputToken)>,
}

/// The action that an active mapping entry holds: a stick direction may
/// only stand for up or down.
pub open spec fn mapped_action(key: Seq<char>, token: InputToken) -> Option<InputAction> {
    match token {
        InputToken::VerticalAxis(_) => action_of_vertical_mapping_key(key),
        _ => action_of_mapping_key(key),
    }
}

/// The actions held through the first `n` mapping entries.
pub open spec fn mapped_mask(entries: Seq<(String, InputToken)>, s: InputAggregateState, n: int) -> u16
    decreases n,
{
    if n <= 0 {
        0
    } else {
        let before = mapped_mask(entries, s, n - 1);
        let key = entries[n - 1].0@;
        let token = entries[n - 1].1;
        if token_active(token, s) {
            match mapped_action(key, token) {
                Some(a) => before | action_bit(a),
                None => before,
            }
        } else {
            before
        }
    }
}

/// The entries after mapping `key` to `token`: an entry of that name is
/// replaced, else the entry is added at the end.
pub open spec fn mapping_insert(entries: Seq<(String, InputToken)>, key: Seq<char>, token: InputToken) -> Seq<
    (Seq<char>, InputToken),
> {
    let names = entries.map_values(|e: (String, InputToken)| (e.0@, e.1));
    if exists|i: int| 0 <= i < names.len() && names[i].0 == key {
        let i = choose|i: int| 0 <= i < names.len() && names[i].0 == key;
        names.update(i, (key, token))
    } else {
        names.push((key, token))
    }
}

proof fn lemma_or_assoc(a: u16, b: u16, c: u16)
    ensures
        ((a | b) | c) == (a | (b | c)),
{
    assert(((a | b) | c) == (a | (b | c))) by (bit_vector);
}

impl Mapping {
    /// The position of the entry named `key`.
    fn find(&self, key: &Vec<char>) -> (r: Option<usize>)
        ensures
            match r {
                Some(i) => i < self.entries@.len() && self.entries@[i as int].0@ == key@,
                None => forall|i: int|
                    0 <= i < self.entries@.len() ==> (#[trigger] self.entries@[i]).0@ != key@,
            },
    {
        let mut i: usize = 0;
        while i < self.entries.len()
            invariant
                i <= self.entries@.len(),
                forall|j: int| 0 <= j < i ==> (#[trigger] self.entries@[j]).0@ != key@,
            decreases self.entries.len() - i,
        {
            let name = crate::text::chars_of(self.entries[i].0.as_str());
            if crate::text::eq_chars(&name, key) {
                return Some(i);
            }
            i = i + 1;
        }
        None
    }

    /// Maps `key` to `token`, replacing an entry of that name.
    pub fn insert(&mut self, key: String, token: InputToken)
        ensures
            final(self).entries@.len() == if exists|i: int|
                0 <= i < old(self).entries@.len() && (#[trigger] old(self).entries@[i]).0@ == key@ {
                old(self).entries@.len()
            } else {
                old(self).entries@.len() + 1
            },
            exists|i: int|
                0 <= i < final(self).entries@.len() && (#[trigger] final(self).entries@[i]).0@
                    == key@ && final(self).entries@[i].1 == token,
            forall|i: int|
                0 <= i < old(self).entries@.len() && (#[trigger] old(self).entries@[i]).0@ != key@
                    ==> final(self).entries@[i] == old(self).entries@[i],
    {
        let k = crate::text::chars_of(key.as_str());
        match self.find(&k) {
            Some(i) => {
                self.entries.set(i, (key, token));
                assert(self.entries@[i as int].0@ == k@);
            },
            None => {
                let ghost n = self.entries@.len();
                self.entries.push((key, token));
                assert(self.entries@[n as int].0@ == k@);
            },
        }
    }
}

impl InputController {
    /// The entries of the mapping, for the settings of a remap.
    pub fn mapping(&self) -> (r: &Mapping)
        ensures
            r.entries@ == self.mapping_entries(),
    {
        &self.mapping
    }

    /// Waits for the next controller input and maps `target` to it.
    pub fn begin_remap(&mut self, target: String)
        ensures
            final(self).remap_target_spec() == Some(target),
            final(self).mapping_entries() == old(self).mapping_entries(),
            final(self).nav_held() == old(self).nav_held(),
    {
        self.remap_target = Some(target);
    }

    /// While a remap waits for input, the controller state goes to the
    /// remap: its input, if any, becomes the token of the waiting name.
    /// Returns whether the state was taken by a remap.
    pub fn try_remap_input_state(&mut self, state: Option<(Buttons, i32)>) -> (r: bool)
        ensures
            r == old(self).remap_target_spec() is Some,
            final(self).nav_held() == old(self).nav_held(),
            match (old(self).remap_target_spec(), state) {
                (Some(target), Some((buttons, ly))) => match InputToken::detect_input_spec(buttons, ly) {
                    Some(token) => {
                        &&& final(self).remap_target_spec() is None
                        &&& final(self).mapping_entries().len() == if exists|i: int|
                            0 <= i < old(self).mapping_entries().len()
                                && (#[trigger] old(self).mapping_entries()[i]).0@ == target@ {
                            old(self).mapping_entries().len()
                        } else {
                            old(self).mapping_entries().len() + 1
                        }
                        &&& forall|i: int|
                            0 <= i < old(self).mapping_entries().len()
                                && (#[trigger] old(self).mapping_entries()[i]).0@ != target@
                                ==> final(self).mapping_entries()[i] == old(self).mapping_entries()[i]
                        &&& exists|i: int|
                            0 <= i < final(self).mapping_entries().len()
                                && (#[trigger] final(self).mapping_entries()[i]).0@ == target@
                                && final(self).mapping_entries()[i].1 == token
                    },
                    None => final(self).remap_target_spec() == old(self).remap_target_spec()
                        && final(self).mapping_entries() == old(self).mapping_entries(),
                },
                _ => final(self).remap_target_spec() == old(self).remap_target_spec()
                    && final(self).mapping_entries() == old(self).mapping_entries(),
            },
    {
        if self.remap_target.is_none() {
            return false;
        }
        let (buttons, ly) = match state {
            Some(s) => s,
            None => {
                return true;
            },
        };
        match InputToken::detect_input(buttons, ly) {
            Some(token) => {
                let mut target: Option<String> = None;
                std::mem::swap(&mut target, &mut self.remap_target);
                match target {
                    Some(t) => {
                        let ghost key = t@;
                        self.mapping.insert(t, token);
                        proof {
                            let i = choose|i: int|
                                0 <= i < self.mapping.entries@.len() && (
                                #[trigger] self.mapping.entries@[i]).0@ == key
                                    && self.mapping.entries@[i].1 == token;
                            assert(self.mapping_entries()[i].0@ == key);
                        }
                    },
                    None => {},
                }
                true
            },
            None => true,
        }
    }

    /// Adds the actions held through the mapping.
    pub fn apply_mapping(&self, raw_held: &mut RawHeldState, aggregate: &InputAggregateState)
        ensures
            final(raw_held).0 == old(raw_held).0 | mapped_mask(
                self.mapping_entries(),
                *aggregate,
                self.mapping_entries().len() as int,
            ),
    {
        let entries = &self.mapping.entries;
        let ghost start = raw_held.0;
        proof {
            assert((start | 0u16) == start) by (bit_vector);
        }
        let mut i: usize = 0;
        while i < entries.len()
            invariant
                i <= entries@.len(),
                entries@ == self.mapping_entries(),
                raw_held.0 == start | mapped_mask(entries@, *aggregate, i as int),
            decreases entries.len() - i,
        {
            let token = entries[i].1;
            if token.is_active(aggregate) {
                let action = match token {
                    InputToken::VerticalAxis(_) => InputAction::from_vertical_mapping_key(
                        entries[i].0.as_str(),
                    ),
                    _ => InputAction::from_mapping_key(entries[i].0.as_str()),
                };
                match action {
                    Some(a) => {
                        proof {
                            lemma_or_assoc(
                                start,
                                mapped_mask(entries@, *aggregate, i as int),
                                action_bit(a),
                            );
                        }
                        raw_held.insert(a);
                    },
                    None => {},
                }
            }
            i = i + 1;
        }
    }
}

impl InputToken {
    pub open spec fn detect_input_spec(buttons: Buttons, ly: i32) -> Option<InputToken> {
        if buttons.0 != 0 {
            Some(InputToken::Button(buttons))
        } else if ly < -STICK_THRESHOLD {
            Some(InputToken::VerticalAxis(VerticalAxisDirection::Negative))
        } else if ly > STICK_THRESHOLD {
            Some(InputToken::VerticalAxis(VerticalAxisDirection::Positive))
        } else {
            None
        }
    }
}

} // verus!
