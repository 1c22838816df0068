//! The decisions a frame of controller input makes around the page step:
//! when revealed hidden achievements are hidden again, how a launch press
//! is answered, and when the launcher goes to the background.
use vstd::prelude::*;

verus! {

/// The selection inside the achievement panel moved: the panel was open
/// before the step and still is, and another achievement is selected.
pub open spec fn achievement_selection_moved_spec(
    panel_was_open: bool,
    panel_is_open: bool,
    previous_achievement: usize,
    current_achievement: usize,
) -> bool {
    panel_was_open && panel_is_open && previous_achievement != current_achievement
}

pub fn achievement_selection_moved(
    panel_was_open: bool,
    panel_is_open: bool,
    previous_achievement: usize,
    current_achievement: usize,
) -> (r: bool)
    ensures
        r == achievement_selection_moved_spec(
            panel_was_open,
            panel_is_open,
            previous_achievement,
            current_achievement,
        ),
{
    panel_was_open && panel_is_open && previous_achievement != current_achievement
}

/// The hidden achievement descriptions revealed for the previously selected
/// game are hidden again when the game selection changes, the panel opens
/// or closes, a refresh of the details is made, or the selection inside the
/// panel moves.
pub open spec fn clears_revealed_hidden_spec(
    selected_changed: bool,
    open_achievement_panel: bool,
    refresh_requested: bool,
    panel_was_open: bool,
    panel_is_open: bool,
    previous_achievement: usize,
    current_achievement: usize,
) -> bool {
    ||| selected_changed
    ||| open_achievement_panel
    ||| refresh_requested
    ||| achievement_selection_moved_spec(
        panel_was_open,
        panel_is_open,
        previous_achievement,
        current_achievement,
    )
    ||| (panel_was_open && !panel_is_open)
}

pub fn clears_revealed_hidden(
    selected_changed: bool,
    open_achievement_panel: bool,
    refresh_requested: bool,
    panel_was_open: bool,
    panel_is_open: bool,
    previous_achievement: usize,
    current_achievement: usize,
) -> (r: bool)
    ensures
        r == clears_revealed_hidden_spec(
            selected_changed,
            open_achievement_panel,
            refresh_requested,
            panel_was_open,
            panel_is_open,
            previous_achievement,
            current_achievement,
        ),
{
    selected_changed || open_achievement_panel || refresh_requested || achievement_selection_moved(
        panel_was_open,
        panel_is_open,
        previous_achievement,
        current_achievement,
    ) || (panel_was_open && !panel_is_open)
}

/// The answer to a press of the launch button.
#[derive(Clone, Copy, Debug, PartialEq, Eq, Structural)]
pub enum LaunchPressAction {
    /// Nothing happens.
    Ignore,
    /// The selected game's launch is already under way: its feedback shows.
    ShowPendingFeedback,
    /// The launch waits until its feedback has shown.
    QueueLaunch,
    /// The selected game launches now.
    LaunchNow,
}

/// A launch press does nothing unless the page asked for a launch and no
/// press feedback shows; where the selected game's launch is under way its
/// feedback shows; otherwise, with no launch request waiting, the launch
/// is queued behind its feedback or made at once.
pub open spec fn launch_press_action_spec(
    launch_selected: bool,
    press_feedback_showing: bool,
    selected_launch_pending: bool,
    launch_request_waiting: bool,
    queue_feedback: bool,
) -> LaunchPressAction {
    if !launch_selected || press_feedback_showing {
        LaunchPressAction::Ignore
    } else if selected_launch_pending {
        LaunchPressAction::ShowPendingFeedback
    } else if launch_request_waiting {
        LaunchPressAction::Ignore
    } else if queue_feedback {
        LaunchPressAction::QueueLaunch
    } else {
        LaunchPressAction::LaunchNow
    }
}

pub fn launch_press_action(
    launch_selected: bool,
    press_feedback_showing: bool,
    selected_launch_pending: bool,
    launch_request_waiting: bool,
    queue_feedback: bool,
) -> (r: LaunchPressAction)
    ensures
        r == launch_press_action_spec(
            launch_selected,
            press_feedback_showing,
            selected_launch_pending,
            launch_request_waiting,
            queue_feedback,
        ),
{
    if !launch_selected || press_feedback_showing {
        LaunchPressAction::Ignore
    } else if selected_launch_pending {
        LaunchPressAction::ShowPendingFeedback
    } else if launch_request_waiting {
        LaunchPressAction::Ignore
    } else if queue_feedback {
        LaunchPressAction::QueueLaunch
    } else {
        LaunchPressAction::LaunchNow
    }
}

/// Where a requested move to the background stands in a frame.
#[derive(Clone, Copy, Debug, PartialEq, Eq, Structural)]
pub enum BackgroundSendStep {
    /// No move to the background was requested.
    Idle,
    /// The launch button is still held: the move waits for its release.
    WaitForRelease,
    /// The button was released: held input is cleared, the wake animation
    /// prepared, and the launcher goes to the background after this frame.
    SendAfterFrame,
}

pub open spec fn background_send_step_spec(pending: bool, launch_held: bool) -> BackgroundSendStep {
    if !pending {
        BackgroundSendStep::Idle
    } else if launch_held {
        BackgroundSendStep::WaitForRelease
    } else {
        BackgroundSendStep::SendAfterFrame
    }
}

/// The step of a requested move to the background, and whether it stays
/// requested after this frame.
pub fn background_send_step(pending: bool, launch_held: bool) -> (r: (BackgroundSendStep, bool))
    ensures
        r.0 == background_send_step_spec(pending, launch_held),
        r.1 == (r.0 == BackgroundSendStep::WaitForRelease),
{
    if !pending {
        (BackgroundSendStep::Idle, false)
    } else if launch_held {
        (BackgroundSendStep::WaitForRelease, true)
    } else {
        (BackgroundSendStep::SendAfterFrame, false)
    }
}

} // verus!
