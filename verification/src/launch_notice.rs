//! The notice shown while a Steam game waits for the Steam client: it
//! slides in, stays, and slides out, and may hand over to the next notice
//! or to the launch of the game. Times are milliseconds.
use vstd::prelude::*;

verus! {

/// How long a notice takes to slide in or out.
pub const STEAM_NOTICE_ANIMATION_MS: u64 = 300;

/// How long the prompt to start Steam stays.
pub const STEAM_PROMPT_VISIBLE_MS: u64 = 5000;

/// How long the note that Steam started stays.
pub const STEAM_READY_VISIBLE_MS: u64 = 1000;

/// How often the Steam client is asked for its state while it starts.
pub const STEAM_STATUS_POLL_INTERVAL_MS: u64 = 1000;

/// How long a launch press is shown before a queued launch runs.
pub const LAUNCH_PRESS_FEEDBACK_MS: u64 = 200;

#[derive(Clone, Copy, Debug, PartialEq, Eq, Structural)]
pub enum LaunchNoticeKind {
    PromptStartSteam,
    SteamStarting,
    SteamStarted,
}

#[derive(Clone, Copy, Debug, PartialEq, Eq, Structural)]
pub enum LaunchNoticeStage {
    Entering,
    Visible,
    Exiting,
}

#[derive(Clone, Copy, Debug, PartialEq, Eq, Structural)]
pub struct LaunchNotice {
    pub game_index: usize,
    pub kind: LaunchNoticeKind,
    pub stage: LaunchNoticeStage,
    pub stage_started_at_ms: u64,
    pub last_state_check_at_ms: Option<u64>,
    pub queued_kind: Option<LaunchNoticeKind>,
    pub launch_game_after_exit: bool,
}

/// What the launcher does after a notice update.
#[derive(Clone, Copy, Debug, PartialEq, Eq, Structural)]
pub enum NoticeOutcome {
    /// The notice stays; the window is drawn again at once, or after the
    /// given time.
    Keep { repaint_after_ms: Option<u64> },
    /// The notice is gone and the next one comes for the game.
    ShowNext { game_index: usize, kind: LaunchNoticeKind },
    /// The notice is gone; the game is launched where one is given.
    Clear { launch_game_index: Option<usize> },
}

/// A notice that starts sliding in at `now_ms`.
pub open spec fn fresh_notice(game_index: usize, kind: LaunchNoticeKind, now_ms: u64) -> LaunchNotice {
    LaunchNotice {
        game_index,
        kind,
        stage: LaunchNoticeStage::Entering,
        stage_started_at_ms: now_ms,
        last_state_check_at_ms: None,
        queued_kind: None,
        launch_game_after_exit: false,
    }
}

pub fn new_launch_notice(game_index: usize, kind: LaunchNoticeKind, now_ms: u64) -> (r: LaunchNotice)
    ensures
        r == fresh_notice(game_index, kind, now_ms),
{
    LaunchNotice {
        game_index,
        kind,
        stage: LaunchNoticeStage::Entering,
        stage_started_at_ms: now_ms,
        last_state_check_at_ms: None,
        queued_kind: None,
        launch_game_after_exit: false,
    }
}

/// How long a notice stays once it slid in; the notice that Steam is
/// starting stays until Steam is ready.
pub open spec fn visible_duration(kind: LaunchNoticeKind) -> Option<u64> {
    match kind {
        LaunchNoticeKind::PromptStartSteam => Some(STEAM_PROMPT_VISIBLE_MS),
        LaunchNoticeKind::SteamStarting => None,
        LaunchNoticeKind::SteamStarted => Some(STEAM_READY_VISIBLE_MS),
    }
}

pub fn launch_notice_visible_duration_ms(kind: LaunchNoticeKind) -> (r: Option<u64>)
    ensures
        r == visible_duration(kind),
{
    match kind {
        LaunchNoticeKind::PromptStartSteam => Some(STEAM_PROMPT_VISIBLE_MS),
        LaunchNoticeKind::SteamStarting => None,
        LaunchNoticeKind::SteamStarted => Some(STEAM_READY_VISIBLE_MS),
    }
}

/// Time since `since`, zero when `now` is earlier.
pub open spec fn since_ms(since: u64, now: u64) -> u64 {
    if now >= since {
        (now - since) as u64
    } else {
        0
    }
}

/// The notice once the Steam client reported ready: the notice that Steam
/// is starting slides out, to be followed by the note that it started.
pub open spec fn after_steam_state(n: LaunchNotice, steam_ready: bool, now_ms: u64) -> LaunchNotice {
    if n.kind == LaunchNoticeKind::SteamStarting && n.stage != LaunchNoticeStage::Exiting
        && steam_ready {
        LaunchNotice {
            stage: LaunchNoticeStage::Exiting,
            stage_started_at_ms: now_ms,
            queued_kind: Some(LaunchNoticeKind::SteamStarted),
            launch_game_after_exit: false,
            ..n
        }
    } else {
        n
    }
}

/// The notice after time passed to `now_ms`, and what follows: sliding in
/// ends after the animation time; a timed notice slides out when its time
/// is up (the note that Steam started then launches the game); sliding out
/// ends with the queued notice, or with the notice gone.
pub open spec fn notice_step(n0: LaunchNotice, steam_ready: bool, now_ms: u64) -> (LaunchNotice, NoticeOutcome) {
    let n = after_steam_state(n0, steam_ready, now_ms);
    let elapsed = since_ms(n.stage_started_at_ms, now_ms);
    match n.stage {
        LaunchNoticeStage::Entering => if elapsed >= STEAM_NOTICE_ANIMATION_MS {
            (
                LaunchNotice { stage: LaunchNoticeStage::Visible, stage_started_at_ms: now_ms, ..n },
                NoticeOutcome::Keep { repaint_after_ms: None },
            )
        } else {
            (n, NoticeOutcome::Keep { repaint_after_ms: None })
        },
        LaunchNoticeStage::Visible => match visible_duration(n.kind) {
            Some(d) => if elapsed >= d {
                (
                    LaunchNotice {
                        stage: LaunchNoticeStage::Exiting,
                        stage_started_at_ms: now_ms,
                        launch_game_after_exit: n.kind == LaunchNoticeKind::SteamStarted,
                        ..n
                    },
                    NoticeOutcome::Keep { repaint_after_ms: None },
                )
            } else {
                (n, NoticeOutcome::Keep { repaint_after_ms: Some((d - elapsed) as u64) })
            },
            None => (n, NoticeOutcome::Keep { repaint_after_ms: Some(STEAM_STATUS_POLL_INTERVAL_MS) }),
        },
        LaunchNoticeStage::Exiting => if elapsed >= STEAM_NOTICE_ANIMATION_MS {
            match n.queued_kind {
                Some(k) => (
                    LaunchNotice { queued_kind: None, ..n },
                    NoticeOutcome::ShowNext { game_index: n.game_index, kind: k },
                ),
                None => (
                    n,
                    NoticeOutcome::Clear {
                        launch_game_index: if n.launch_game_after_exit {
                            Some(n.game_index)
                        } else {
                            None
                        },
                    },
                ),
            }
        } else {
            (n, NoticeOutcome::Keep { repaint_after_ms: None })
        },
    }
}

/// Moves a notice on to `now_ms`, given whether the Steam client is known
/// to be ready.
pub fn update_launch_notice(notice: &mut LaunchNotice, steam_ready: bool, now_ms: u64) -> (r: NoticeOutcome)
    ensures
        (*final(notice), r) == notice_step(*old(notice), steam_ready, now_ms),
{
    if notice.kind == LaunchNoticeKind::SteamStarting && notice.stage != LaunchNoticeStage::Exiting
        && steam_ready {
        notice.stage = LaunchNoticeStage::Exiting;
        notice.stage_started_at_ms = now_ms;
        notice.queued_kind = Some(LaunchNoticeKind::SteamStarted);
        notice.launch_game_after_exit = false;
    }
    let elapsed = if now_ms >= notice.stage_started_at_ms {
        now_ms - notice.stage_started_at_ms
    } else {
        0
    };
    match notice.stage {
        LaunchNoticeStage::Entering => {
            if elapsed >= STEAM_NOTICE_ANIMATION_MS {
                notice.stage = LaunchNoticeStage::Visible;
                notice.stage_started_at_ms = now_ms;
            }
            NoticeOutcome::Keep { repaint_after_ms: None }
        },
        LaunchNoticeStage::Visible => match launch_notice_visible_duration_ms(notice.kind) {
            Some(d) => {
                if elapsed >= d {
                    notice.stage = LaunchNoticeStage::Exiting;
                    notice.stage_started_at_ms = now_ms;
                    notice.launch_game_after_exit = notice.kind == LaunchNoticeKind::SteamStarted;
                    NoticeOutcome::Keep { repaint_after_ms: None }
                } else {
                    NoticeOutcome::Keep { repaint_after_ms: Some(d - elapsed) }
                }
            },
            None => NoticeOutcome::Keep { repaint_after_ms: Some(STEAM_STATUS_POLL_INTERVAL_MS) },
        },
        LaunchNoticeStage::Exiting => {
            if elapsed >= STEAM_NOTICE_ANIMATION_MS {
                match notice.queued_kind {
                    Some(k) => {
                        notice.queued_kind = None;
                        NoticeOutcome::ShowNext { game_index: notice.game_index, kind: k }
                    },
                    None => NoticeOutcome::Clear {
                        launch_game_index: if notice.launch_game_after_exit {
                            Some(notice.game_index)
                        } else {
                            None
                        },
                    },
                }
            } else {
                NoticeOutcome::Keep { repaint_after_ms: None }
            }
        },
    }
}

/// Whether the Steam client is due to be asked for its state again: never
/// asked, or last asked a poll interval ago.
pub fn steam_state_poll_due(last_state_check_at_ms: Option<u64>, now_ms: u64) -> (r: bool)
    ensures
        r == match last_state_check_at_ms {
            Some(t) => since_ms(t, now_ms) >= STEAM_STATUS_POLL_INTERVAL_MS,
            None => true,
        },
{
    match last_state_check_at_ms {
        Some(t) => {
            let elapsed = if now_ms >= t {
                now_ms - t
            } else {
                0
            };
            elapsed >= STEAM_STATUS_POLL_INTERVAL_MS
        },
        None => true,
    }
}

/// A launch press on a Steam game while a notice is up goes to the notice:
/// it follows the selected game, and the prompt to start Steam, while it
/// does not slide out, asks to start the Steam client. The result says
/// whether the press was taken and whether Steam must be started.
pub open spec fn notice_press(n: LaunchNotice, selected: usize) -> (LaunchNotice, bool) {
    let m = LaunchNotice { game_index: selected, ..n };
    (m, m.kind == LaunchNoticeKind::PromptStartSteam && m.stage != LaunchNoticeStage::Exiting)
}

pub fn press_on_launch_notice(notice: &mut LaunchNotice, selected: usize) -> (start_steam: bool)
    ensures
        (*final(notice), start_steam) == notice_press(*old(notice), selected),
{
    notice.game_index = selected;
    notice.kind == LaunchNoticeKind::PromptStartSteam && notice.stage != LaunchNoticeStage::Exiting
}

/// The Steam client was started from the prompt: the prompt slides out,
/// to be followed by the notice that Steam is starting.
pub fn steam_start_requested(notice: &mut LaunchNotice, now_ms: u64)
    ensures
        *final(notice) == (LaunchNotice {
            stage: LaunchNoticeStage::Exiting,
            stage_started_at_ms: now_ms,
            queued_kind: Some(LaunchNoticeKind::SteamStarting),
            launch_game_after_exit: false,
            ..*old(notice)
        }),
{
    notice.stage = LaunchNoticeStage::Exiting;
    notice.stage_started_at_ms = now_ms;
    notice.queued_kind = Some(LaunchNoticeKind::SteamStarting);
    notice.launch_game_after_exit = false;
}

/// A launch press shows its feedback before the launch runs, unless a
/// notice of another game is up for a Steam game.
pub fn should_queue_launch_feedback(game_is_steam: bool, notice_game_index: Option<usize>, game_index: usize) -> (r: bool)
    ensures
        r == (!game_is_steam || match notice_game_index {
            Some(i) => i == game_index,
            None => true,
        }),
{
    if !game_is_steam {
        return true;
    }
    match notice_game_index {
        Some(i) => i == game_index,
        None => true,
    }
}

/// A queued launch waits while the press feedback of its game runs:
/// the time left to wait, or none when the launch runs now.
pub fn queued_launch_wait_ms(feedback: Option<(usize, u64)>, request_game_index: usize, now_ms: u64) -> (r: Option<u64>)
    ensures
        r == match feedback {
            Some((i, started)) => if i == request_game_index && since_ms(started, now_ms)
                < LAUNCH_PRESS_FEEDBACK_MS {
                Some((LAUNCH_PRESS_FEEDBACK_MS - since_ms(started, now_ms)) as u64)
            } else {
                None
            },
            None => None,
        },
{
    match feedback {
        Some((i, started)) => {
            let elapsed = if now_ms >= started {
                now_ms - started
            } else {
                0
            };
            if i == request_game_index && elapsed < LAUNCH_PRESS_FEEDBACK_MS {
                Some(LAUNCH_PRESS_FEEDBACK_MS - elapsed)
            } else {
                None
            }
        },
        None => None,
    }
}

/// A notice that slides out ends, at the latest, an animation time after
/// it began to: an update then either shows the queued notice or clears
/// it.
pub proof fn lemma_exiting_notice_ends(n: LaunchNotice, steam_ready: bool, now_ms: u64)
    requires
        n.stage == LaunchNoticeStage::Exiting,
        now_ms >= n.stage_started_at_ms + STEAM_NOTICE_ANIMATION_MS,
    ensures
        !(notice_step(n, steam_ready, now_ms).1 is Keep),
{
}

/// The note that Steam started launches its game when it has slid out.
pub proof fn lemma_steam_started_notice_launches(n: LaunchNotice, ready: bool, t1: u64, t2: u64)
    requires
        n.kind == LaunchNoticeKind::SteamStarted,
        n.stage == LaunchNoticeStage::Visible,
        n.queued_kind is None,
        t1 >= n.stage_started_at_ms + STEAM_READY_VISIBLE_MS,
        t2 >= t1 + STEAM_NOTICE_ANIMATION_MS,
    ensures
        notice_step(notice_step(n, ready, t1).0, ready, t2).1 == (NoticeOutcome::Clear {
            launch_game_index: Some(n.game_index),
        }),
{
}

} // verus!
