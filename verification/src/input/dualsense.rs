//! DualSense controller reports: reading the buttons and left stick of an
//! input report, building the rumble output reports, and the home button
//! decisions of the watcher.
use vstd::prelude::*;

use super::buttons::Buttons;
use super::InputAggregateState;
use crate::config::BackgroundHomeWakeMode;

verus! {

/// A stick counts as pushed beyond this deflection.
pub const STICK_ACTIVITY_THRESHOLD: i32 = 16_000;

/// A held home button wakes the launcher after this long (long-press mode).
pub const HOME_WAKE_LONG_PRESS_DURATION_MS: u64 = 1000;

pub const USB_OUTPUT_REPORT_SIZE: usize = 48;

pub const BLUETOOTH_OUTPUT_REPORT_SIZE: usize = 78;

pub const DUALSENSE_SELECTION_RUMBLE_DURATION_MS: u64 = 30;

pub const DUALSENSE_SELECTION_RUMBLE_WEAK: u8 = 1;

pub const DUALSENSE_SELECTION_RUMBLE_STRONG: u8 = 0;

/// The controller state read from one report.
#[derive(Clone, Copy, Debug, PartialEq, Eq, Structural)]
pub struct DualSenseSnapshot {
    pub buttons: Buttons,
    pub left_stick_x: i32,
    pub left_stick_y: i32,
    pub has_input_activity: bool,
}

/// How the controller is connected.
#[derive(Clone, Copy, Debug, PartialEq, Eq, Structural)]
pub enum DualSenseTransport {
    Usb,
    Bluetooth,
}

/// A rumble: how long, and the strength of each motor.
#[derive(Clone, Copy, Debug, PartialEq, Eq, Structural)]
pub struct RumbleSettings {
    pub duration_ms: u64,
    pub weak_motor: u8,
    pub strong_motor: u8,
}

/// The short rumble felt when the selection changes.
pub fn selection_rumble_settings() -> (r: RumbleSettings)
    ensures
        r == (RumbleSettings {
            duration_ms: DUALSENSE_SELECTION_RUMBLE_DURATION_MS,
            weak_motor: DUALSENSE_SELECTION_RUMBLE_WEAK,
            strong_motor: DUALSENSE_SELECTION_RUMBLE_STRONG,
        }),
{
    RumbleSettings {
        duration_ms: DUALSENSE_SELECTION_RUMBLE_DURATION_MS,
        weak_motor: DUALSENSE_SELECTION_RUMBLE_WEAK,
        strong_motor: DUALSENSE_SELECTION_RUMBLE_STRONG,
    }
}

/// The directions of the d-pad hat value: 0 is up, then clockwise in
/// eighths; 8 and above is released.
pub open spec fn dpad_mask(direction: u8) -> u16 {
    if direction == 0 {
        0x0001u16
    } else if direction == 1 {
        0x0009u16
    } else if direction == 2 {
        0x0008u16
    } else if direction == 3 {
        0x000au16
    } else if direction == 4 {
        0x0002u16
    } else if direction == 5 {
        0x0006u16
    } else if direction == 6 {
        0x0004u16
    } else if direction == 7 {
        0x0005u16
    } else {
        0u16
    }
}

pub open spec fn flag(on: bool, mask: u16) -> u16 {
    if on {
        mask
    } else {
        0u16
    }
}

/// The buttons of a report: the d-pad and face buttons from `face`, the
/// shoulders, option buttons and stick clicks from `misc`, and the home
/// button from the `home_bit` of `special`.
pub open spec fn report_buttons(face: u8, misc: u8, special: u8, home_bit: u8) -> u16 {
    dpad_mask(face & 0x0f) | flag(face & 0x10 != 0, 0x4000u16) | flag(face & 0x20 != 0, 0x1000u16)
        | flag(face & 0x40 != 0, 0x2000u16) | flag(face & 0x80 != 0, 0x8000u16) | flag(
        misc & 0x01 != 0,
        0x0100u16,
    ) | flag(misc & 0x02 != 0, 0x0200u16) | flag(misc & 0x10 != 0, 0x0020u16) | flag(
        misc & 0x20 != 0,
        0x0010u16,
    ) | flag(misc & 0x40 != 0, 0x0040u16) | flag(misc & 0x80 != 0, 0x0080u16) | flag(
        special & home_bit != 0,
        0x0400u16,
    )
}

/// Division rounding toward zero.
pub open spec fn trunc_div(a: int, b: int) -> int {
    if a >= 0 {
        a / b
    } else {
        -((-a) / b)
    }
}

pub open spec fn clamp_axis(v: int) -> int {
    if v < -32767 {
        -32767
    } else if v > 32767 {
        32767
    } else {
        v
    }
}

/// A stick byte (128 at rest) scaled to ±32767.
pub open spec fn stick_axis(value: u8) -> int {
    clamp_axis(trunc_div((value as int - 128) * 32767, 127))
}

/// A stick byte that grows downward, scaled to ±32767 growing upward.
pub open spec fn inverted_stick_axis(value: u8) -> int {
    clamp_axis(trunc_div((127 - value as int) * 32767, 127))
}

pub open spec fn snapshot_of(buttons: u16, x: int, y: int) -> DualSenseSnapshot {
    DualSenseSnapshot {
        buttons: Buttons(buttons),
        left_stick_x: x as i32,
        left_stick_y: y as i32,
        has_input_activity: buttons != 0 || x > 16000 || x < -16000 || y > 16000 || y < -16000,
    }
}

/// The full input state: sticks at 0 and 1, buttons at 7, 8 and 9.
pub open spec fn full_state(data: Seq<u8>) -> Option<DualSenseSnapshot> {
    if data.len() < 10 {
        None
    } else {
        Some(
            snapshot_of(
                report_buttons(data[7], data[8], data[9], 0x01),
                stick_axis(data[0]),
                inverted_stick_axis(data[1]),
            ),
        )
    }
}

/// The short Bluetooth input state: sticks at 0 and 1, buttons at 4, 5 and 6.
pub open spec fn simple_bluetooth_state(data: Seq<u8>) -> Option<DualSenseSnapshot> {
    if data.len() < 9 {
        None
    } else {
        Some(
            snapshot_of(
                report_buttons(data[4], data[5], data[6], 0x02),
                stick_axis(data[0]),
                inverted_stick_axis(data[1]),
            ),
        )
    }
}

pub open spec fn with_transport(s: Option<DualSenseSnapshot>, t: DualSenseTransport) -> Option<
    (DualSenseSnapshot, DualSenseTransport),
> {
    match s {
        Some(snapshot) => Some((snapshot, t)),
        None => None,
    }
}

/// A report by its id: a full USB report (id 1, 64 bytes), a full
/// Bluetooth report (id 0x31, 65 bytes), or a short Bluetooth report
/// (id 1, 10 bytes).
pub open spec fn input_report(report: Seq<u8>) -> Option<(DualSenseSnapshot, DualSenseTransport)> {
    if report.len() == 0 {
        None
    } else if report[0] == 0x01 && report.len() >= 64 {
        with_transport(full_state(report.subrange(1, 64)), DualSenseTransport::Usb)
    } else if report[0] == 0x31 && report.len() >= 65 {
        with_transport(full_state(report.subrange(2, 65)), DualSenseTransport::Bluetooth)
    } else if report[0] == 0x01 && report.len() >= 10 {
        with_transport(
            simple_bluetooth_state(report.subrange(1, 10)),
            DualSenseTransport::Bluetooth,
        )
    } else {
        None
    }
}

fn flag_exec(on: bool, mask: u16) -> (r: u16)
    ensures
        r == flag(on, mask),
{
    if on {
        mask
    } else {
        0
    }
}

/// The d-pad buttons of a hat value.
pub fn apply_dpad_bits(direction: u8, buttons: &mut Buttons)
    ensures
        final(buttons).0 == old(buttons).0 | dpad_mask(direction),
{
    let mask: u16 = if direction == 0 {
        0x0001
    } else if direction == 1 {
        0x0009
    } else if direction == 2 {
        0x0008
    } else if direction == 3 {
        0x000a
    } else if direction == 4 {
        0x0002
    } else if direction == 5 {
        0x0006
    } else if direction == 6 {
        0x0004
    } else if direction == 7 {
        0x0005
    } else {
        0
    };
    buttons.0 = buttons.0 | mask;
}

fn report_buttons_exec(face: u8, misc: u8, special: u8, home_bit: u8) -> (r: u16)
    ensures
        r == report_buttons(face, misc, special, home_bit),
{
    let mut b = Buttons(0);
    apply_dpad_bits(face & 0x0f, &mut b);
    proof {
        let d = dpad_mask(face & 0x0f);
        assert((0u16 | d) == d) by (bit_vector);
    }
    let mut m = b.0;
    m = m | flag_exec(face & 0x10 != 0, Buttons::X);
    m = m | flag_exec(face & 0x20 != 0, Buttons::A);
    m = m | flag_exec(face & 0x40 != 0, Buttons::B);
    m = m | flag_exec(face & 0x80 != 0, Buttons::Y);
    m = m | flag_exec(misc & 0x01 != 0, Buttons::LEFT_SHOULDER);
    m = m | flag_exec(misc & 0x02 != 0, Buttons::RIGHT_SHOULDER);
    m = m | flag_exec(misc & 0x10 != 0, Buttons::BACK);
    m = m | flag_exec(misc & 0x20 != 0, Buttons::START);
    m = m | flag_exec(misc & 0x40 != 0, Buttons::LEFT_THUMB);
    m = m | flag_exec(misc & 0x80 != 0, Buttons::RIGHT_THUMB);
    m = m | flag_exec(special & home_bit != 0, Buttons::HOME);
    m
}

pub fn scale_stick_axis(value: u8) -> (r: i32)
    ensures
        r as int == stick_axis(value),
{
    let v = value as i32;
    let raw: i32 = if v >= 128 {
        ((v - 128) * 32767) / 127
    } else {
        -(((128 - v) * 32767) / 127)
    };
    if raw < -32767 {
        -32767
    } else if raw > 32767 {
        32767
    } else {
        raw
    }
}

pub fn scale_inverted_stick_axis(value: u8) -> (r: i32)
    ensures
        r as int == inverted_stick_axis(value),
{
    let v = value as i32;
    let raw: i32 = if v <= 127 {
        ((127 - v) * 32767) / 127
    } else {
        -(((v - 127) * 32767) / 127)
    };
    if raw < -32767 {
        -32767
    } else if raw > 32767 {
        32767
    } else {
        raw
    }
}

/// A snapshot; it shows activity when a button is held or a stick pushed.
pub fn build_snapshot(buttons: Buttons, left_stick_x: i32, left_stick_y: i32) -> (r: DualSenseSnapshot)
    ensures
        r == snapshot_of(buttons.0, left_stick_x as int, left_stick_y as int),
{
    let has_input_activity = !buttons.is_empty() || left_stick_x > STICK_ACTIVITY_THRESHOLD
        || left_stick_x < -STICK_ACTIVITY_THRESHOLD || left_stick_y > STICK_ACTIVITY_THRESHOLD
        || left_stick_y < -STICK_ACTIVITY_THRESHOLD;
    DualSenseSnapshot { buttons, left_stick_x, left_stick_y, has_input_activity }
}

pub fn parse_full_state(data: &[u8]) -> (r: Option<DualSenseSnapshot>)
    ensures
        r == full_state(data@),
{
    if data.len() < 10 {
        return None;
    }
    let buttons = report_buttons_exec(data[7], data[8], data[9], 0x01);
    Some(build_snapshot(Buttons(buttons), scale_stick_axis(data[0]), scale_inverted_stick_axis(data[1])))
}

pub fn parse_simple_bluetooth_state(data: &[u8]) -> (r: Option<DualSenseSnapshot>)
    ensures
        r == simple_bluetooth_state(data@),
{
    if data.len() < 9 {
        return None;
    }
    let buttons = report_buttons_exec(data[4], data[5], data[6], 0x02);
    Some(build_snapshot(Buttons(buttons), scale_stick_axis(data[0]), scale_inverted_stick_axis(data[1])))
}

fn tag(s: Option<DualSenseSnapshot>, t: DualSenseTransport) -> (r: Option<
    (DualSenseSnapshot, DualSenseTransport),
>)
    ensures
        r == with_transport(s, t),
{
    match s {
        Some(snapshot) => Some((snapshot, t)),
        None => None,
    }
}

/// Reads an input report, and the transport that its layout shows.
pub fn parse_input_report(report: &[u8]) -> (r: Option<(DualSenseSnapshot, DualSenseTransport)>)
    ensures
        r == input_report(report@),
{
    if report.len() == 0 {
        return None;
    }
    let report_id = report[0];
    if report_id == 0x01 && report.len() >= 64 {
        tag(
            parse_full_state(vstd::slice::slice_subrange(report, 1, 64)),
            DualSenseTransport::Usb,
        )
    } else if report_id == 0x31 && report.len() >= 65 {
        tag(
            parse_full_state(vstd::slice::slice_subrange(report, 2, 65)),
            DualSenseTransport::Bluetooth,
        )
    } else if report_id == 0x01 && report.len() >= 10 {
        tag(
            parse_simple_bluetooth_state(vstd::slice::slice_subrange(report, 1, 10)),
            DualSenseTransport::Bluetooth,
        )
    } else {
        None
    }
}

/// The byte at `i` of the effect block: rumble emulation with audio
/// haptics off, the two motors, and improved rumble.
pub open spec fn effect_byte(i: int, weak_motor: u8, strong_motor: u8) -> u8 {
    if i == 0 {
        0x03u8
    } else if i == 2 {
        strong_motor
    } else if i == 3 {
        weak_motor
    } else if i == 38 {
        0x04u8
    } else {
        0u8
    }
}

/// The USB output report: id 2, then the effect block.
pub open spec fn usb_output_report(weak_motor: u8, strong_motor: u8) -> Seq<u8> {
    Seq::new(
        48,
        |i: int|
            if i == 0 {
                0x02u8
            } else {
                effect_byte(i - 1, weak_motor, strong_motor)
            },
    )
}

/// The Bluetooth output report without its checksum: id 0x31, tag 2, the
/// sequence number in the high nibble, then the effect block.
pub open spec fn bluetooth_report_body(weak_motor: u8, strong_motor: u8, sequence: u8) -> Seq<u8> {
    Seq::new(
        74,
        |i: int|
            if i == 0 {
                0x31u8
            } else if i == 1 {
                0x02u8
            } else if i == 2 {
                ((sequence % 16) * 16) as u8
            } else {
                effect_byte(i - 3, weak_motor, strong_motor)
            },
    )
}

/// The four bytes of a number, least significant first.
pub open spec fn le_bytes(x: u32) -> Seq<u8> {
    seq![
        (x % 256) as u8,
        ((x / 256) % 256) as u8,
        ((x / 65536) % 256) as u8,
        (x / 16777216) as u8,
    ]
}

/// One bit step of the reflected CRC-32 (IEEE) register.
pub open spec fn crc32_shift(c: u32) -> u32 {
    if c & 1 == 1 {
        (c >> 1u32) ^ 0xEDB8_8320u32
    } else {
        c >> 1u32
    }
}

pub open spec fn crc32_shifts(c: u32, n: nat) -> u32
    decreases n,
{
    if n == 0 {
        c
    } else {
        crc32_shifts(crc32_shift(c), (n - 1) as nat)
    }
}

/// The CRC-32 register after `data`: it starts all ones, and each byte is
/// xored into its low bits and shifted through eight bit steps.
pub open spec fn crc32_register(data: Seq<u8>) -> u32
    decreases data.len(),
{
    if data.len() == 0 {
        0xFFFF_FFFFu32
    } else {
        crc32_shifts(crc32_register(data.drop_last()) ^ (data.last() as u32), 8)
    }
}

/// The CRC-32 (IEEE) of a byte sequence: the reflected form of polynomial
/// 0x04C11DB7, its register started all ones and inverted at the end.
pub open spec fn crc32_of(data: Seq<u8>) -> u32 {
    crc32_register(data) ^ 0xFFFF_FFFFu32
}

/// `crc32fast::hash`: the CRC-32 (IEEE) checksum of `data`, as the crate
/// documents it.
#[verifier::external_body]
fn crc32(data: &[u8]) -> (r: u32)
    ensures
        r == crc32_of(data@),
{
    crc32fast::hash(data)
}

/// The checksum of a Bluetooth output report: the CRC-32 of the byte 0xA2
/// followed by the report.
pub fn dualsense_bluetooth_crc(report: &[u8]) -> (r: u32)
    ensures
        r == crc32_of(seq![0xA2u8] + report@),
{
    let mut data: Vec<u8> = Vec::new();
    data.push(0xA2);
    let mut i: usize = 0;
    while i < report.len()
        invariant
            i <= report@.len(),
            data@ == seq![0xA2u8] + report@.subrange(0, i as int),
        decreases report.len() - i,
    {
        data.push(report[i]);
        i = i + 1;
        assert(data@ =~= seq![0xA2u8] + report@.subrange(0, i as int));
    }
    assert(report@.subrange(0, report@.len() as int) =~= report@);
    crc32(data.as_slice())
}

fn zeros(n: usize) -> (r: Vec<u8>)
    ensures
        r@ == Seq::new(n as nat, |i: int| 0u8),
{
    let mut v: Vec<u8> = Vec::new();
    let mut i: usize = 0;
    while i < n
        invariant
            i <= n,
            v@ == Seq::new(i as nat, |j: int| 0u8),
        decreases n - i,
    {
        v.push(0);
        i = i + 1;
        assert(v@ =~= Seq::new(i as nat, |j: int| 0u8));
    }
    v
}

/// Writes the effect block at `offset`.
fn populate_effect_state(report: &mut Vec<u8>, offset: usize, weak_motor: u8, strong_motor: u8)
    requires
        offset + 39 <= old(report)@.len(),
        forall|i: int| offset <= i < old(report)@.len() ==> old(report)@[i] == 0,
    ensures
        final(report)@.len() == old(report)@.len(),
        forall|i: int|
            0 <= i < old(report)@.len() ==> #[trigger] final(report)@[i] == if i < offset {
                old(report)@[i]
            } else {
                effect_byte(i - offset, weak_motor, strong_motor)
            },
{
    let n = report.len();
    assert(offset + 39 <= n);
    report.set(offset, 0x03);
    report.set(offset + 2, strong_motor);
    report.set(offset + 3, weak_motor);
    report.set(offset + 38, 0x04);
}

pub fn build_usb_output_report(weak_motor: u8, strong_motor: u8) -> (r: Vec<u8>)
    ensures
        r@ == usb_output_report(weak_motor, strong_motor),
{
    let mut report = zeros(USB_OUTPUT_REPORT_SIZE);
    report.set(0, 0x02);
    populate_effect_state(&mut report, 1, weak_motor, strong_motor);
    assert(report@ =~= usb_output_report(weak_motor, strong_motor));
    report
}

pub fn build_bluetooth_output_report(weak_motor: u8, strong_motor: u8, sequence: u8) -> (r: Vec<u8>)
    ensures
        r@ == bluetooth_report_body(weak_motor, strong_motor, sequence) + le_bytes(
            crc32_of(seq![0xA2u8] + bluetooth_report_body(weak_motor, strong_motor, sequence)),
        ),
{
    let mut report = zeros(BLUETOOTH_OUTPUT_REPORT_SIZE - 4);
    report.set(0, 0x31);
    report.set(1, 0x02);
    report.set(2, (sequence % 16) * 16);
    populate_effect_state(&mut report, 3, weak_motor, strong_motor);
    let ghost body = report@;
    assert(body =~= bluetooth_report_body(weak_motor, strong_motor, sequence));
    let crc = dualsense_bluetooth_crc(report.as_slice());
    report.push((crc % 256) as u8);
    report.push(((crc / 256) % 256) as u8);
    report.push(((crc / 65536) % 256) as u8);
    report.push((crc / 16777216) as u8);
    assert(report@ =~= body + le_bytes(crc));
    report
}

/// The state of the controller for the input poll, when it shows activity.
pub fn aggregate_state(snapshot: DualSenseSnapshot) -> (r: Option<InputAggregateState>)
    ensures
        r == (if snapshot.has_input_activity {
            Some(
                InputAggregateState {
                    buttons: snapshot.buttons,
                    up: snapshot.left_stick_y > 16000,
                    down: snapshot.left_stick_y < -16000,
                    left: snapshot.left_stick_x < -16000,
                    right: snapshot.left_stick_x > 16000,
                },
            )
        } else {
            None
        }),
{
    if !snapshot.has_input_activity {
        None
    } else {
        Some(
            InputAggregateState::from_state(
                snapshot.buttons,
                snapshot.left_stick_y,
                snapshot.left_stick_x,
            ),
        )
    }
}

/// The buttons and vertical stick for a remap, when the controller shows activity.
pub fn remap_state(snapshot: DualSenseSnapshot) -> (r: Option<(Buttons, i32)>)
    ensures
        r == (if snapshot.has_input_activity {
            Some((snapshot.buttons, snapshot.left_stick_y))
        } else {
            None
        }),
{
    if !snapshot.has_input_activity {
        None
    } else {
        Some((snapshot.buttons, snapshot.left_stick_y))
    }
}

pub fn home_held(snapshot: DualSenseSnapshot) -> (r: bool)
    ensures
        r == (snapshot.buttons.0 & Buttons::HOME != 0),
{
    snapshot.buttons.intersects(Buttons::HOME)
}

/// The home button as the watcher last saw it.
#[derive(Clone, Copy, Debug, PartialEq, Eq, Structural)]
pub struct HomeWakeTracker {
    pub home_was_held: bool,
    pub pressed_at: Option<u64>,
    pub long_press_triggered: bool,
}

/// What the watcher does after a report.
#[derive(Clone, Copy, Debug, PartialEq, Eq, Structural)]
pub struct HomeWakeEvents {
    pub request_wake: bool,
    pub request_repaint: bool,
}

pub open spec fn held_long_enough(pressed_at: Option<u64>, now: u64) -> bool {
    match pressed_at {
        Some(t) => now >= t && now - t >= HOME_WAKE_LONG_PRESS_DURATION_MS,
        None => false,
    }
}

/// The home button decisions after a report: a fresh press in the
/// background wakes the launcher in short-press mode; holding it for the
/// long-press duration wakes it once in long-press mode; a release forgets
/// the press. Input in the foreground asks for a frame.
pub open spec fn home_wake_step(
    t: HomeWakeTracker,
    home_held: bool,
    has_input_activity: bool,
    app_is_background: bool,
    wake_mode: BackgroundHomeWakeMode,
    now: u64,
) -> (HomeWakeTracker, HomeWakeEvents) {
    let pressed_now = home_held && !t.home_was_held;
    let released_now = !home_held && t.home_was_held;
    let foreground_input = has_input_activity && !app_is_background;
    if pressed_now {
        let wake = app_is_background && wake_mode == BackgroundHomeWakeMode::ShortPress;
        (
            HomeWakeTracker { home_was_held: true, pressed_at: Some(now), long_press_triggered: false },
            HomeWakeEvents { request_wake: wake, request_repaint: true },
        )
    } else if released_now {
        (
            HomeWakeTracker { home_was_held: false, pressed_at: None, long_press_triggered: false },
            HomeWakeEvents { request_wake: false, request_repaint: foreground_input },
        )
    } else if home_held && app_is_background && wake_mode == BackgroundHomeWakeMode::LongPress
        && !t.long_press_triggered && held_long_enough(t.pressed_at, now) {
        (
            HomeWakeTracker { home_was_held: home_held, long_press_triggered: true, ..t },
            HomeWakeEvents { request_wake: true, request_repaint: true },
        )
    } else {
        (
            HomeWakeTracker { home_was_held: home_held, ..t },
            HomeWakeEvents { request_wake: false, request_repaint: foreground_input },
        )
    }
}

impl HomeWakeTracker {
    /// No press seen.
    pub fn new() -> (r: Self)
        ensures
            r == (HomeWakeTracker { home_was_held: false, pressed_at: None, long_press_triggered: false }),
    {
        HomeWakeTracker { home_was_held: false, pressed_at: None, long_press_triggered: false }
    }

    pub fn step(
        &mut self,
        snapshot: DualSenseSnapshot,
        app_is_background: bool,
        wake_mode: BackgroundHomeWakeMode,
        now: u64,
    ) -> (r: HomeWakeEvents)
        ensures
            (*final(self), r) == home_wake_step(
                *old(self),
                snapshot.buttons.0 & Buttons::HOME != 0,
                snapshot.has_input_activity,
                app_is_background,
                wake_mode,
                now,
            ),
    {
        let home = home_held(snapshot);
        let pressed_now = home && !self.home_was_held;
        let released_now = !home && self.home_was_held;
        let foreground_input = snapshot.has_input_activity && !app_is_background;
        self.home_was_held = home;
        if pressed_now {
            self.pressed_at = Some(now);
            self.long_press_triggered = false;
            let wake = app_is_background && wake_mode == BackgroundHomeWakeMode::ShortPress;
            HomeWakeEvents { request_wake: wake, request_repaint: true }
        } else if released_now {
            self.pressed_at = None;
            self.long_press_triggered = false;
            HomeWakeEvents { request_wake: false, request_repaint: foreground_input }
        } else {
            let long_enough = match self.pressed_at {
                Some(t) => now >= t && now - t >= HOME_WAKE_LONG_PRESS_DURATION_MS,
                None => false,
            };
            if home && app_is_background && wake_mode == BackgroundHomeWakeMode::LongPress
                && !self.long_press_triggered && long_enough {
                self.long_press_triggered = true;
                HomeWakeEvents { request_wake: true, request_repaint: true }
            } else {
                HomeWakeEvents { request_wake: false, request_repaint: foreground_input }
            }
        }
    }
}

/// A report reads the face buttons, options, shoulders and home button
/// from their bits, and the d-pad hat as the directions it points to.
pub proof fn lemma_report_buttons(face: u8, misc: u8, special: u8, home_bit: u8)
    ensures
        ({
            let b = report_buttons(face, misc, special, home_bit);
            let d = face & 0x0f;
            &&& (b & 0x4000u16 != 0) == (face & 0x10 != 0)
            &&& (b & 0x1000u16 != 0) == (face & 0x20 != 0)
            &&& (b & 0x2000u16 != 0) == (face & 0x40 != 0)
            &&& (b & 0x8000u16 != 0) == (face & 0x80 != 0)
            &&& (b & 0x0100u16 != 0) == (misc & 0x01 != 0)
            &&& (b & 0x0200u16 != 0) == (misc & 0x02 != 0)
            &&& (b & 0x0020u16 != 0) == (misc & 0x10 != 0)
            &&& (b & 0x0010u16 != 0) == (misc & 0x20 != 0)
            &&& (b & 0x0040u16 != 0) == (misc & 0x40 != 0)
            &&& (b & 0x0080u16 != 0) == (misc & 0x80 != 0)
            &&& (b & 0x0400u16 != 0) == (special & home_bit != 0)
            &&& (b & 0x0001u16 != 0) == (d == 0 || d == 1 || d == 7)
            &&& (b & 0x0008u16 != 0) == (d == 1 || d == 2 || d == 3)
            &&& (b & 0x0002u16 != 0) == (d == 3 || d == 4 || d == 5)
            &&& (b & 0x0004u16 != 0) == (d == 5 || d == 6 || d == 7)
        }),
{
    let b = report_buttons(face, misc, special, home_bit);
    assert({
        let d = face & 0x0f;
        &&& (b & 0x4000u16 != 0) == (face & 0x10 != 0)
        &&& (b & 0x1000u16 != 0) == (face & 0x20 != 0)
        &&& (b & 0x2000u16 != 0) == (face & 0x40 != 0)
        &&& (b & 0x8000u16 != 0) == (face & 0x80 != 0)
        &&& (b & 0x0100u16 != 0) == (misc & 0x01 != 0)
        &&& (b & 0x0200u16 != 0) == (misc & 0x02 != 0)
        &&& (b & 0x0020u16 != 0) == (misc & 0x10 != 0)
        &&& (b & 0x0010u16 != 0) == (misc & 0x20 != 0)
        &&& (b & 0x0040u16 != 0) == (misc & 0x40 != 0)
        &&& (b & 0x0080u16 != 0) == (misc & 0x80 != 0)
        &&& (b & 0x0400u16 != 0) == (special & home_bit != 0)
        &&& (b & 0x0001u16 != 0) == (d == 0 || d == 1 || d == 7)
        &&& (b & 0x0008u16 != 0) == (d == 1 || d == 2 || d == 3)
        &&& (b & 0x0002u16 != 0) == (d == 3 || d == 4 || d == 5)
        &&& (b & 0x0004u16 != 0) == (d == 5 || d == 6 || d == 7)
    }) by (bit_vector)
        requires
            b == report_buttons(face, misc, special, home_bit),
    ;
}

/// A stick at rest reads as zero; fully pushed it reads as ±32767, the
/// upward direction positive on the vertical axis.
pub proof fn lemma_stick_axis_range(value: u8)
    ensures
        -32767 <= stick_axis(value) <= 32767,
        -32767 <= inverted_stick_axis(value) <= 32767,
        stick_axis(128) == 0,
        inverted_stick_axis(127) == 0,
        stick_axis(255) == 32767,
        stick_axis(0) == -32767,
        inverted_stick_axis(0) == 32767,
        inverted_stick_axis(255) == -32767,
        value > 128 ==> stick_axis(value) > 0,
        value < 128 ==> stick_axis(value) < 0,
        value < 127 ==> inverted_stick_axis(value) > 0,
        value > 127 ==> inverted_stick_axis(value) < 0,
{
}

} // verus!
