use big_screen_launcher::runtime::{
    controller_idle_active, scheduled_repaint_delay, RuntimeState, PASSIVE_REPAINT_INTERVAL_MS,
};

#[test]
fn focused_input_activity_keeps_immediate_repaint() {
    assert_eq!(scheduled_repaint_delay(true, true, true, false), None);
    assert_eq!(scheduled_repaint_delay(true, true, false, false), None);
}

#[test]
fn focused_idle_repaint_respects_setting() {
    assert_eq!(
        scheduled_repaint_delay(true, false, true, false),
        Some(PASSIVE_REPAINT_INTERVAL_MS)
    );
    assert_eq!(scheduled_repaint_delay(true, false, false, false), None);
}

#[test]
fn unfocused_repaint_also_respects_setting() {
    assert_eq!(
        scheduled_repaint_delay(false, false, true, false),
        Some(PASSIVE_REPAINT_INTERVAL_MS)
    );
    assert_eq!(scheduled_repaint_delay(false, false, false, false), None);
}

#[test]
fn unfocused_foreground_game_forces_low_frequency_repaint() {
    assert_eq!(
        scheduled_repaint_delay(false, false, false, true),
        Some(PASSIVE_REPAINT_INTERVAL_MS)
    );
    assert_eq!(
        scheduled_repaint_delay(false, true, false, true),
        Some(PASSIVE_REPAINT_INTERVAL_MS)
    );
}

#[test]
fn passive_repaint_interval_is_one_second() {
    assert_eq!(PASSIVE_REPAINT_INTERVAL_MS, 1000);
}

#[test]
fn home_button_press_is_suppressed_until_release() {
    let mut runtime = RuntimeState::new();

    runtime.update_home_button(true, false, true);
    assert!(runtime.suppress_home_press_until_release());

    runtime.update_home_button(true, false, true);
    assert!(runtime.suppress_home_press_until_release());

    runtime.update_home_button(true, false, false);
    assert!(!runtime.suppress_home_press_until_release());
}

#[test]
fn home_press_with_power_menu_open_is_not_suppressed() {
    let mut runtime = RuntimeState::new();
    runtime.update_home_button(true, true, true);
    assert!(!runtime.suppress_home_press_until_release());
    runtime.suppress_home_hold_until_release();
    assert!(runtime.suppress_home_press_until_release());
}

#[test]
fn focus_update_reports_focus_loss_once() {
    let mut runtime = RuntimeState::new();
    let start: u64 = 0;

    let lost = runtime.update_focus(false, start);
    assert!(lost.did_lose_focus);
    assert!(lost.should_clear_input);
    assert!(!lost.did_gain_focus);

    let still_unfocused = runtime.update_focus(false, start + 16);
    assert!(!still_unfocused.did_lose_focus);
    assert!(still_unfocused.should_clear_input);
}

#[test]
fn regained_focus_holds_input_back_for_the_cooldown() {
    let mut runtime = RuntimeState::new();
    runtime.update_focus(false, 1_000);
    let gained = runtime.update_focus(true, 2_000);
    assert!(gained.did_gain_focus);
    assert!(gained.in_cooldown);
    assert!(gained.should_clear_input);
    let during = runtime.update_focus(true, 2_099);
    assert!(during.in_cooldown);
    assert!(!during.should_clear_input);
    let after = runtime.update_focus(true, 2_100);
    assert!(!after.in_cooldown);
}

#[test]
fn controller_idles_after_five_minutes() {
    assert!(!controller_idle_active(1_000, 300_999));
    assert!(controller_idle_active(1_000, 301_000));
    assert!(!controller_idle_active(5_000, 1_000));
}
