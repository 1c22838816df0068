//! Window focus, home button and repaint decisions of the launcher loop.
//!
//! Times are milliseconds on one monotonic clock, chosen by the caller.
use vstd::prelude::*;

verus! {

/// After the window regains focus, controller input is ignored this long.
pub const FOCUS_COOLDOWN_MS: u64 = 100;

/// The repaint interval while nothing needs a prompt frame.
pub const PASSIVE_REPAINT_INTERVAL_MS: u64 = 1000;

/// The controller counts as idle after this long without activity.
pub const CONTROLLER_IDLE_TIMEOUT_MS: u64 = 300_000;

/// When the next frame is due: `None` for at once, `Some(ms)` for after a
/// delay. An unfocused launcher under a game in the foreground repaints
/// slowly; a focused launcher with input repaints at once; otherwise the
/// idle frame rate setting decides.
pub open spec fn repaint_delay_spec(
    has_focus: bool,
    has_input_activity: bool,
    idle_frame_rate_reduction_enabled: bool,
    running_game_in_foreground: bool,
) -> Option<u64> {
    if !has_focus && running_game_in_foreground {
        Some(PASSIVE_REPAINT_INTERVAL_MS)
    } else if has_focus && has_input_activity {
        None
    } else if idle_frame_rate_reduction_enabled {
        Some(PASSIVE_REPAINT_INTERVAL_MS)
    } else {
        None
    }
}

pub fn scheduled_repaint_delay(
    has_focus: bool,
    has_input_activity: bool,
    idle_frame_rate_reduction_enabled: bool,
    running_game_in_foreground: bool,
) -> (r: Option<u64>)
    ensures
        r == repaint_delay_spec(
            has_focus,
            has_input_activity,
            idle_frame_rate_reduction_enabled,
            running_game_in_foreground,
        ),
{
    if !has_focus && running_game_in_foreground {
        return Some(PASSIVE_REPAINT_INTERVAL_MS);
    }
    if has_focus && has_input_activity {
        return None;
    }
    if idle_frame_rate_reduction_enabled {
        Some(PASSIVE_REPAINT_INTERVAL_MS)
    } else {
        None
    }
}

/// The time from `earlier` to `later`, zero when `later` comes first.
pub open spec fn elapsed_ms(earlier: u64, later: u64) -> u64 {
    if later >= earlier {
        (later - earlier) as u64
    } else {
        0
    }
}

/// Whether the controller has been idle for the idle timeout.
pub fn controller_idle_active(last_activity_ms: u64, now_ms: u64) -> (r: bool)
    ensures
        r == (elapsed_ms(last_activity_ms, now_ms) >= CONTROLLER_IDLE_TIMEOUT_MS),
{
    let elapsed = if now_ms >= last_activity_ms {
        now_ms - last_activity_ms
    } else {
        0
    };
    elapsed >= CONTROLLER_IDLE_TIMEOUT_MS
}

/// What a focus change means for this frame.
#[derive(Clone, Copy, Debug, PartialEq, Eq, Structural)]
pub struct FocusUpdate {
    pub should_clear_input: bool,
    pub in_cooldown: bool,
    pub did_gain_focus: bool,
    pub did_lose_focus: bool,
}

#[derive(Clone, Copy, Debug, PartialEq, Eq, Structural)]
pub struct RuntimeState {
    had_focus: bool,
    focus_cooldown_until: Option<u64>,
    home_button_was_held: bool,
    suppress_home_press_until_release: bool,
}

/// The abstract runtime state: whether the window had focus, since when
/// input has been held back after regaining it, whether the home button
/// was held, and whether a home press is swallowed until release.
pub struct RuntimeModel {
    pub had_focus: bool,
    pub focus_cooldown_since: Option<u64>,
    pub home_button_was_held: bool,
    pub suppress_home_press_until_release: bool,
}

/// The mouse cursor hides this long after the pointer last moved.
pub const CURSOR_HIDE_AFTER_MS: u64 = 1000;

/// Whether the mouse cursor shows, and when to look again: it shows for a
/// while after the pointer last moved, and the window is drawn again when
/// that time is up.
pub open spec fn cursor_visibility_spec(last_pointer_activity_ms: Option<u64>, now_ms: u64) -> (bool, Option<u64>) {
    match last_pointer_activity_ms {
        Some(t) => if elapsed_ms(t, now_ms) < CURSOR_HIDE_AFTER_MS {
            (true, Some((CURSOR_HIDE_AFTER_MS - elapsed_ms(t, now_ms)) as u64))
        } else {
            (false, None)
        },
        None => (false, None),
    }
}

pub fn cursor_visibility(last_pointer_activity_ms: Option<u64>, now_ms: u64) -> (r: (bool, Option<u64>))
    ensures
        r == cursor_visibility_spec(last_pointer_activity_ms, now_ms),
{
    match last_pointer_activity_ms {
        Some(t) => {
            let elapsed = if now_ms >= t {
                now_ms - t
            } else {
                0
            };
            if elapsed < CURSOR_HIDE_AFTER_MS {
                (true, Some(CURSOR_HIDE_AFTER_MS - elapsed))
            } else {
                (false, None)
            }
        },
        None => (false, None),
    }
}


/// The state and report after a frame with focus `has_focus` at `now`.
pub open spec fn focus_step(m: RuntimeModel, has_focus: bool, now: u64) -> (RuntimeModel, FocusUpdate) {
    let gained = has_focus && !m.had_focus;
    let lost = !has_focus && m.had_focus;
    let since = if gained {
        Some(now)
    } else {
        m.focus_cooldown_since
    };
    let (since2, in_cooldown) = match since {
        Some(t) => if elapsed_ms(t, now) < FOCUS_COOLDOWN_MS {
            (since, true)
        } else {
            (None, false)
        },
        None => (None, false),
    };
    (
        RuntimeModel { had_focus: has_focus, focus_cooldown_since: since2, ..m },
        FocusUpdate {
            should_clear_input: !has_focus || gained,
            in_cooldown,
            did_gain_focus: gained,
            did_lose_focus: lost,
        },
    )
}

/// The state after a frame where the home button is `guide_held`: a fresh
/// press while input is processed and the power menu is closed is
/// swallowed until the button is released.
pub open spec fn home_button_step(
    m: RuntimeModel,
    process_input: bool,
    power_menu_open: bool,
    guide_held: bool,
) -> RuntimeModel {
    let just_pressed = guide_held && !m.home_button_was_held;
    let m1 = RuntimeModel { home_button_was_held: guide_held, ..m };
    if m.suppress_home_press_until_release {
        if !guide_held {
            RuntimeModel { suppress_home_press_until_release: false, ..m1 }
        } else {
            m1
        }
    } else if process_input && !power_menu_open && just_pressed {
        RuntimeModel { suppress_home_press_until_release: true, ..m1 }
    } else {
        m1
    }
}

impl View for RuntimeState {
    type V = RuntimeModel;

    closed spec fn view(&self) -> RuntimeModel {
        RuntimeModel {
            had_focus: self.had_focus,
            focus_cooldown_since: self.focus_cooldown_until,
            home_button_was_held: self.home_button_was_held,
            suppress_home_press_until_release: self.suppress_home_press_until_release,
        }
    }
}

impl RuntimeState {
    /// A focused window, no cooldown, the home button released.
    pub fn new() -> (r: Self)
        ensures
            r@ == (RuntimeModel {
                had_focus: true,
                focus_cooldown_since: None,
                home_button_was_held: false,
                suppress_home_press_until_release: false,
            }),
    {
        RuntimeState {
            had_focus: true,
            focus_cooldown_until: None,
            home_button_was_held: false,
            suppress_home_press_until_release: false,
        }
    }

    pub fn suppress_home_press_until_release(&self) -> (r: bool)
        ensures
            r == self@.suppress_home_press_until_release,
    {
        self.suppress_home_press_until_release
    }

    pub fn update_focus(&mut self, has_focus: bool, now_ms: u64) -> (r: FocusUpdate)
        ensures
            (final(self)@, r) == focus_step(old(self)@, has_focus, now_ms),
    {
        let mut should_clear_input = false;
        let did_gain_focus = has_focus && !self.had_focus;
        let did_lose_focus = !has_focus && self.had_focus;
        if has_focus {
            if !self.had_focus {
                self.focus_cooldown_until = Some(now_ms);
                should_clear_input = true;
            }
        } else {
            should_clear_input = true;
        }
        self.had_focus = has_focus;
        let in_cooldown = match self.focus_cooldown_until {
            Some(timestamp) => {
                let elapsed = if now_ms >= timestamp {
                    now_ms - timestamp
                } else {
                    0
                };
                if elapsed < FOCUS_COOLDOWN_MS {
                    true
                } else {
                    self.focus_cooldown_until = None;
                    false
                }
            },
            None => false,
        };
        FocusUpdate { should_clear_input, in_cooldown, did_gain_focus, did_lose_focus }
    }

    pub fn update_home_button(&mut self, process_input: bool, power_menu_open: bool, guide_held: bool)
        ensures
            final(self)@ == home_button_step(old(self)@, process_input, power_menu_open, guide_held),
    {
        let just_pressed = guide_held && !self.home_button_was_held;
        self.home_button_was_held = guide_held;
        if self.suppress_home_press_until_release {
            if !guide_held {
                self.suppress_home_press_until_release = false;
            }
            return;
        }
        if process_input && !power_menu_open && just_pressed {
            self.suppress_home_press_until_release = true;
        }
    }

    pub fn suppress_home_hold_until_release(&mut self)
        ensures
            final(self)@ == (RuntimeModel {
                suppress_home_press_until_release: true,
                ..old(self)@
            }),
    {
        self.suppress_home_press_until_release = true;
    }
}

/// A lost focus is reported once: the frame after reports it no more, and
/// input stays cleared while the window is unfocused.
pub proof fn lemma_focus_loss_reported_once(m: RuntimeModel, t1: u64, t2: u64)
    requires
        m.had_focus,
    ensures
        focus_step(m, false, t1).1.did_lose_focus,
        !focus_step(focus_step(m, false, t1).0, false, t2).1.did_lose_focus,
        focus_step(focus_step(m, false, t1).0, false, t2).1.should_clear_input,
{
}

/// A home press swallowed by the launcher stays swallowed while the button
/// is held, and is released with the button.
pub proof fn lemma_home_press_suppressed_until_release(
    m: RuntimeModel,
    process_input: bool,
    power_menu_open: bool,
)
    requires
        m.suppress_home_press_until_release,
    ensures
        home_button_step(m, process_input, power_menu_open, true).suppress_home_press_until_release,
        !home_button_step(m, process_input, power_menu_open, false).suppress_home_press_until_release,
{
}

/// Regaining focus holds input back for the cooldown and not after it.
pub proof fn lemma_focus_gain_starts_cooldown(m: RuntimeModel, now: u64, later: u64)
    requires
        !m.had_focus,
        now <= later,
    ensures
        focus_step(m, true, now).1.in_cooldown,
        focus_step(m, true, now).1.should_clear_input,
        focus_step(focus_step(m, true, now).0, true, later).1.in_cooldown == (later - now
            < FOCUS_COOLDOWN_MS),
{
}

} // verus!
