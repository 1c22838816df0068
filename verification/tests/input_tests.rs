use big_screen_launcher::config::BackgroundHomeWakeMode;
use big_screen_launcher::input::buttons::Buttons;
use big_screen_launcher::input::dualsense::{
    build_bluetooth_output_report, build_usb_output_report, dualsense_bluetooth_crc,
    parse_full_state, parse_input_report, parse_simple_bluetooth_state, scale_inverted_stick_axis,
    scale_stick_axis, DualSenseSnapshot, DualSenseTransport, HomeWakeTracker,
};
use big_screen_launcher::input::xinput::{guide_watch_step, normalize_buttons};
use big_screen_launcher::input::{
    nav_repeat_interval_ms, ControllerAction, InputAction, InputAggregateState, InputController,
    InputToken, Mapping, RawHeldState, VerticalAxisDirection, NAV_INITIAL_DELAY_MS,
    NAV_REPEAT_ACCEL_STAGE1_AFTER_MS, NAV_REPEAT_INTERVAL_MS,
};

fn raw_held(actions: &[InputAction]) -> RawHeldState {
    let mut held = RawHeldState::new();
    for action in actions {
        held.insert(*action);
    }
    held
}

const START: u64 = 10_000;

#[test]
fn first_press_fires_immediately() {
    let mut input = InputController::new();
    let now = START;

    let frame =
        input.poll_with_raw_held(raw_held(&[InputAction::Down]), true, false, false, None, now);

    assert!(matches!(frame.actions.as_slice(), [ControllerAction::Down]));
}

#[test]
fn held_navigation_waits_for_initial_delay_before_repeating() {
    let mut input = InputController::new();
    let now = START;

    let first =
        input.poll_with_raw_held(raw_held(&[InputAction::Right]), true, false, false, None, now);
    let before_delay = input.poll_with_raw_held(
        raw_held(&[InputAction::Right]),
        true,
        false,
        false,
        None,
        now + (NAV_INITIAL_DELAY_MS - 1),
    );
    let after_delay = input.poll_with_raw_held(
        raw_held(&[InputAction::Right]),
        true,
        false,
        false,
        None,
        now + (NAV_INITIAL_DELAY_MS + 1),
    );
    let before_repeat = input.poll_with_raw_held(
        raw_held(&[InputAction::Right]),
        true,
        false,
        false,
        None,
        now + (NAV_INITIAL_DELAY_MS + NAV_REPEAT_INTERVAL_MS - 1),
    );
    let after_repeat = input.poll_with_raw_held(
        raw_held(&[InputAction::Right]),
        true,
        false,
        false,
        None,
        now + (NAV_INITIAL_DELAY_MS + NAV_REPEAT_INTERVAL_MS + 1),
    );

    assert!(matches!(first.actions.as_slice(), [ControllerAction::Right]));
    assert!(before_delay.actions.is_empty());
    assert!(matches!(after_delay.actions.as_slice(), [ControllerAction::Right]));
    assert!(before_repeat.actions.is_empty());
    assert!(matches!(after_repeat.actions.as_slice(), [ControllerAction::Right]));
}

#[test]
fn refresh_does_not_repeat_while_held() {
    let mut input = InputController::new();
    let now = START;
    let held_until = now + (NAV_REPEAT_ACCEL_STAGE1_AFTER_MS + 250);

    let first =
        input.poll_with_raw_held(raw_held(&[InputAction::Refresh]), true, false, false, None, now);
    let held = input.poll_with_raw_held(
        raw_held(&[InputAction::Refresh]),
        true,
        false,
        false,
        None,
        held_until,
    );

    assert!(matches!(first.actions.as_slice(), [ControllerAction::Refresh]));
    assert!(held.actions.is_empty());
}

#[test]
fn settings_does_not_repeat_while_held() {
    let mut input = InputController::new();
    let now = START;
    let held_until = now + (NAV_REPEAT_ACCEL_STAGE1_AFTER_MS + 250);

    let first =
        input.poll_with_raw_held(raw_held(&[InputAction::Settings]), true, false, false, None, now);
    let held = input.poll_with_raw_held(
        raw_held(&[InputAction::Settings]),
        true,
        false,
        false,
        None,
        held_until,
    );

    assert!(matches!(first.actions.as_slice(), [ControllerAction::Settings]));
    assert!(held.actions.is_empty());
}

#[test]
fn quit_is_only_emitted_when_enabled() {
    let mut input = InputController::new();
    let now = START;

    let blocked =
        input.poll_with_raw_held(raw_held(&[InputAction::Quit]), true, false, false, None, now);
    let allowed =
        input.poll_with_raw_held(raw_held(&[InputAction::Quit]), true, true, false, None, now + 1);

    assert!(blocked.actions.is_empty());
    assert!(matches!(allowed.actions.as_slice(), [ControllerAction::Quit]));
}

#[test]
fn clear_held_resets_repeat_state() {
    let mut input = InputController::new();
    let now = START;

    let _ = input.poll_with_raw_held(raw_held(&[InputAction::Up]), true, false, false, None, now);
    input.clear_held();
    let frame = input.poll_with_raw_held(
        raw_held(&[InputAction::Up]),
        true,
        false,
        false,
        None,
        now + NAV_INITIAL_DELAY_MS / 2,
    );

    assert!(matches!(frame.actions.as_slice(), [ControllerAction::Up]));
}

#[test]
fn held_directions_accelerate_in_two_stages() {
    assert_eq!(nav_repeat_interval_ms(InputAction::Left, 0), 120);
    assert_eq!(nav_repeat_interval_ms(InputAction::Left, 500), 80);
    assert_eq!(nav_repeat_interval_ms(InputAction::Left, 1300), 45);
    assert_eq!(nav_repeat_interval_ms(InputAction::Launch, 5000), 120);
}

#[test]
fn several_held_actions_fire_in_poll_order_and_input_off_clears() {
    let mut input = InputController::new();
    let frame = input.poll_with_raw_held(
        raw_held(&[InputAction::Launch, InputAction::Up, InputAction::ForceClose]),
        true,
        false,
        true,
        None,
        START,
    );
    assert!(matches!(frame.actions.as_slice(), [ControllerAction::Up, ControllerAction::Launch]));
    assert!(frame.launch_held);
    assert!(frame.force_close_held);
    assert!(frame.has_controller_activity);
    let ignored =
        input.poll_with_raw_held(raw_held(&[InputAction::Up]), false, false, false, None, START + 1);
    assert!(ignored.actions.is_empty());
    let again =
        input.poll_with_raw_held(raw_held(&[InputAction::Up]), true, false, false, None, START + 2);
    assert!(matches!(again.actions.as_slice(), [ControllerAction::Up]));
}

#[test]
fn x_button_holds_refresh_and_force_close() {
    let state = InputAggregateState::from_state(Buttons(Buttons::X), 0, 0);
    let mut held = RawHeldState::new();
    state.populate_raw_held(&mut held);
    assert!(held.contains(InputAction::Refresh));
    assert!(held.contains(InputAction::ForceClose));
    assert!(!held.contains(InputAction::Launch));
    let stick = InputAggregateState::from_state(Buttons(0), 20_000, -20_000);
    let mut held = RawHeldState::new();
    stick.populate_raw_held(&mut held);
    assert!(held.contains(InputAction::Up));
    assert!(held.contains(InputAction::Left));
    assert!(!held.contains(InputAction::Down));
    assert!(stick.has_repaint_activity());
}

#[test]
fn aggregate_of_two_controllers_joins_their_buttons() {
    let states = vec![
        (0u32, Buttons(Buttons::A), 0, 0),
        (1u32, Buttons(Buttons::DPAD_UP), -17_000, 0),
    ];
    let aggregate = InputAggregateState::from_states(&states);
    assert!(aggregate.buttons.intersects(Buttons::A));
    assert!(aggregate.buttons.intersects(Buttons::DPAD_UP));
    assert!(aggregate.down);
    assert!(!aggregate.up);
}

#[test]
fn mapping_keys_and_remap() {
    assert_eq!(InputAction::from_mapping_key("force_close"), Some(InputAction::ForceClose));
    assert_eq!(InputAction::from_mapping_key("menu"), None);
    assert_eq!(InputAction::from_vertical_mapping_key("left"), None);
    assert_eq!(
        InputToken::detect_input(Buttons(0), -20_000),
        Some(InputToken::VerticalAxis(VerticalAxisDirection::Negative))
    );
    assert_eq!(InputToken::detect_input(Buttons(0), 0), None);

    let mut input = InputController::new();
    assert!(!input.try_remap_input_state(Some((Buttons(Buttons::Y), 0))));
    input.begin_remap(String::from("launch"));
    assert!(input.try_remap_input_state(None));
    assert!(input.try_remap_input_state(Some((Buttons(Buttons::LEFT_SHOULDER), 0))));
    let state = InputAggregateState::from_state(Buttons(Buttons::LEFT_SHOULDER), 0, 0);
    let mut held = RawHeldState::new();
    input.apply_mapping(&mut held, &state);
    assert!(held.contains(InputAction::Launch));

    let mut mapping = Mapping { entries: Vec::new() };
    mapping.insert(String::from("up"), InputToken::Button(Buttons(Buttons::A)));
    mapping.insert(String::from("up"), InputToken::Button(Buttons(Buttons::B)));
    assert_eq!(mapping.entries.len(), 1);
    assert_eq!(mapping.entries[0].1, InputToken::Button(Buttons(Buttons::B)));
}

#[test]
fn parses_full_dualsense_usb_layout() {
    let mut data = [0u8; 63];
    data[0] = 255;
    data[1] = 0;
    data[7] = 0x10 | 0x01;
    data[8] = 0x10 | 0x20;
    data[9] = 0x01;

    let snapshot = parse_full_state(&data).unwrap();

    assert!(snapshot.buttons.intersects(Buttons::X));
    assert!(snapshot.buttons.intersects(Buttons::DPAD_UP));
    assert!(snapshot.buttons.intersects(Buttons::DPAD_RIGHT));
    assert!(snapshot.buttons.intersects(Buttons::BACK));
    assert!(snapshot.buttons.intersects(Buttons::START));
    assert!(snapshot.buttons.intersects(Buttons::HOME));
    assert!(snapshot.left_stick_x > 0);
    assert!(snapshot.left_stick_y > 0);
}

#[test]
fn parses_simple_bluetooth_layout() {
    let mut data = [0u8; 9];
    data[0] = 0;
    data[1] = 255;
    data[4] = 0x20 | 0x06;
    data[5] = 0x10;
    data[6] = 0x02;

    let snapshot = parse_simple_bluetooth_state(&data).unwrap();

    assert!(snapshot.buttons.intersects(Buttons::A));
    assert!(snapshot.buttons.intersects(Buttons::DPAD_LEFT));
    assert!(snapshot.buttons.intersects(Buttons::BACK));
    assert!(snapshot.buttons.intersects(Buttons::HOME));
    assert!(snapshot.left_stick_x < 0);
    assert!(snapshot.left_stick_y < 0);
}

#[test]
fn builds_usb_rumble_report() {
    let report = build_usb_output_report(1, 0);

    assert_eq!(report[0], 0x02);
    assert_eq!(report[1], 0x03);
    assert_eq!(report[3], 0);
    assert_eq!(report[4], 1);
    assert_eq!(report[39], 0x04);
}

#[test]
fn builds_bluetooth_rumble_report_with_crc() {
    let report = build_bluetooth_output_report(1, 0, 1);
    let expected_crc = dualsense_bluetooth_crc(&report[..report.len() - 4]);

    assert_eq!(report[0], 0x31);
    assert_eq!(report[1], 0x02);
    assert_eq!(report[2], 0x10);
    assert_eq!(report[3], 0x03);
    assert_eq!(report[5], 0);
    assert_eq!(report[6], 1);
    assert_eq!(report[41], 0x04);
    assert_eq!(
        u32::from_le_bytes(report[report.len() - 4..].try_into().unwrap()),
        expected_crc,
    );
}

fn reference_crc32(data: &[u8]) -> u32 {
    let mut crc: u32 = 0xFFFF_FFFF;
    for byte in data {
        crc ^= *byte as u32;
        for _ in 0..8 {
            if crc & 1 != 0 {
                crc = (crc >> 1) ^ 0xEDB8_8320;
            } else {
                crc >>= 1;
            }
        }
    }
    !crc
}

#[test]
fn usb_and_bluetooth_reports_have_their_sizes_and_a_real_checksum() {
    assert_eq!(reference_crc32(b"123456789"), 0xCBF4_3926);
    assert_eq!(build_usb_output_report(0, 0).len(), 48);
    let report = build_bluetooth_output_report(0, 0, 0x13);
    assert_eq!(report.len(), 78);
    assert_eq!(report[2], 0x30);
    let body = &report[..74];
    let mut prefixed = vec![0xA2u8];
    prefixed.extend_from_slice(body);
    let crc = dualsense_bluetooth_crc(body);
    assert_eq!(crc, reference_crc32(&prefixed));
    assert_eq!(&report[74..], &crc.to_le_bytes());
}

#[test]
fn stick_axes_scale_to_full_range() {
    assert_eq!(scale_stick_axis(128), 0);
    assert_eq!(scale_stick_axis(255), 32767);
    assert_eq!(scale_stick_axis(0), -32767);
    assert_eq!(scale_stick_axis(64), -16512);
    assert_eq!(scale_inverted_stick_axis(127), 0);
    assert_eq!(scale_inverted_stick_axis(0), 32767);
    assert_eq!(scale_inverted_stick_axis(255), -32767);
}

#[test]
fn input_reports_are_told_apart_by_id_and_length() {
    let mut usb = vec![0u8; 64];
    usb[0] = 0x01;
    usb[1] = 128;
    usb[2] = 127;
    usb[8] = 0x08;
    let (snapshot, transport) = parse_input_report(&usb).unwrap();
    assert_eq!(transport, DualSenseTransport::Usb);
    assert!(!snapshot.has_input_activity);
    let mut short = vec![0u8; 10];
    short[0] = 0x01;
    short[1] = 128;
    short[2] = 127;
    short[5] = 0x20;
    let (snapshot, transport) = parse_input_report(&short).unwrap();
    assert_eq!(transport, DualSenseTransport::Bluetooth);
    assert!(snapshot.buttons.intersects(Buttons::A));
    let mut bt = vec![0u8; 65];
    bt[0] = 0x31;
    let (_, transport) = parse_input_report(&bt).unwrap();
    assert_eq!(transport, DualSenseTransport::Bluetooth);
    assert!(parse_input_report(&[0x05, 1, 2]).is_none());
    assert!(parse_input_report(&[]).is_none());
}

fn snapshot_with(buttons: u16) -> DualSenseSnapshot {
    DualSenseSnapshot {
        buttons: Buttons(buttons),
        left_stick_x: 0,
        left_stick_y: 0,
        has_input_activity: buttons != 0,
    }
}

#[test]
fn home_press_wakes_by_mode() {
    let mut tracker = HomeWakeTracker::new();
    let press = tracker.step(snapshot_with(Buttons::HOME), true, BackgroundHomeWakeMode::ShortPress, 0);
    assert!(press.request_wake);
    let mut tracker = HomeWakeTracker::new();
    let press = tracker.step(snapshot_with(Buttons::HOME), true, BackgroundHomeWakeMode::LongPress, 0);
    assert!(!press.request_wake);
    let early = tracker.step(snapshot_with(Buttons::HOME), true, BackgroundHomeWakeMode::LongPress, 999);
    assert!(!early.request_wake);
    let long = tracker.step(snapshot_with(Buttons::HOME), true, BackgroundHomeWakeMode::LongPress, 1000);
    assert!(long.request_wake);
    let again = tracker.step(snapshot_with(Buttons::HOME), true, BackgroundHomeWakeMode::LongPress, 3000);
    assert!(!again.request_wake);
    let _ = tracker.step(snapshot_with(0), true, BackgroundHomeWakeMode::LongPress, 3100);
    assert_eq!(tracker, HomeWakeTracker::new());
}

#[test]
fn xinput_buttons_keep_known_bits() {
    assert_eq!(normalize_buttons(0xFFFF).0, 0xF7FF);
    assert_eq!(normalize_buttons(0x0400).0, Buttons::HOME);
    assert_eq!(normalize_buttons(0x0800).0, 0);
}

#[test]
fn guide_press_wakes_only_from_background() {
    let prev = [false; 4];
    let pressed = [None, Some(true), Some(false), None];
    let (next, events) = guide_watch_step(&prev, &pressed, true, true);
    assert_eq!(next, [false, true, false, false]);
    assert!(events.request_wake && events.request_repaint && events.any_held);
    let (_, held) = guide_watch_step(&next, &pressed, true, true);
    assert!(!held.request_wake && !held.request_repaint && held.any_held);
    let (_, fg) = guide_watch_step(&prev, &pressed, false, true);
    assert!(!fg.request_wake && fg.request_repaint);
    let (_, off) = guide_watch_step(&prev, &pressed, true, false);
    assert!(!off.request_wake);
}
