//! Starting games: which way a game is started, the launch URIs, and the
//! progress of a launch until the game shows or the launch times out.
//!
//! Times are milliseconds on one monotonic clock, chosen by the caller.
use vstd::prelude::*;

use crate::game::{Game, GameSource};
use crate::text::{chars_of, extend_str, string_of};

verus! {

/// A launch that shows no game window within this long has timed out.
pub const LAUNCH_TIMEOUT_MS: u64 = 5000;

/// A launch under way.
pub struct LaunchState {
    pub game_index: usize,
    pub game_name: String,
    pub started_at_ms: u64,
    pub launch_steam_app_id: Option<u32>,
    pub awaiting_launch_release: bool,
}

/// A game that is running.
pub struct RunningGameState {
    pub game_index: usize,
    pub steam_app_id: Option<u32>,
    pub game_name: String,
}

pub enum LaunchTickResult {
    Pending,
    Ready(RunningGameState),
    TimedOut,
}

#[derive(Clone, Copy, Debug, PartialEq, Eq, Structural)]
pub enum LaunchBlockedReason {
    SteamClientNotRunning,
    SteamClientLoading,
}

#[derive(Clone, Copy, Debug, PartialEq, Eq, Structural)]
pub enum SteamClientState {
    Ready,
    Loading,
    NotRunning,
}

pub enum LaunchAttemptResult {
    Started(LaunchState),
    Blocked(LaunchBlockedReason),
    Failed,
}

/// How a game is started.
pub enum LaunchPlan {
    /// Through the Steam client, by app id.
    SteamApp(u32),
    /// By running a program, from the install directory.
    Direct { program: String, install_dir: String },
    /// Through the Epic launcher, by the URI of the install directory.
    Epic { install_dir: String, uri: String },
}

/// The program to run for a Steam game without an app id: its launch
/// target, else its install path.
pub open spec fn direct_program(g: Game) -> Seq<char> {
    match g.launch_target {
        Some(t) => t@,
        None => g.path@,
    }
}

/// A byte kept as it is in a URI path: ASCII letters, digits, `-_.~`.
pub open spec fn uri_unreserved(b: u8) -> bool {
    (0x41 <= b <= 0x5a) || (0x61 <= b <= 0x7a) || (0x30 <= b <= 0x39) || b == 0x2d || b == 0x5f || b
        == 0x2e || b == 0x7e
}

pub open spec fn hex_digit(d: int) -> char {
    if d < 10 {
        (('0' as int) + d) as char
    } else {
        (('A' as int) + d - 10) as char
    }
}

/// One byte of a percent-encoded path.
pub open spec fn encode_byte(b: u8) -> Seq<char> {
    if uri_unreserved(b) {
        seq![b as char]
    } else {
        seq!['%', hex_digit(b as int / 16), hex_digit(b as int % 16)]
    }
}

/// The percent encoding of the UTF-8 bytes of a path: unreserved bytes as
/// they are, every other byte as `%` and two upper-case hex digits.
pub open spec fn percent_encoded(bytes: Seq<u8>) -> Seq<char>
    decreases bytes.len(),
{
    if bytes.len() == 0 {
        Seq::empty()
    } else {
        percent_encoded(bytes.drop_last()) + encode_byte(bytes.last())
    }
}

fn hex_digit_exec(d: u8) -> (c: char)
    requires
        d < 16,
    ensures
        c == hex_digit(d as int),
{
    if d < 10 {
        proof {
            assert(('0' as int) + d < 0xD800) by {}
        }
        ((0x30u8 + d) as char)
    } else {
        ((0x41u8 + d - 10) as char)
    }
}

/// The percent encoding of a path, for a launcher URI.
pub fn percent_encode_uri_path(path: &str) -> (r: String)
    ensures
        r@ == percent_encoded(vstd::utf8::encode_utf8(path@)),
{
    let bytes = path.as_bytes();
    let mut v: Vec<char> = Vec::new();
    let mut i: usize = 0;
    while i < bytes.len()
        invariant
            i <= bytes@.len(),
            v@ == percent_encoded(bytes@.subrange(0, i as int)),
        decreases bytes.len() - i,
    {
        let b = bytes[i];
        let ghost before = v@;
        if (0x41 <= b && b <= 0x5a) || (0x61 <= b && b <= 0x7a) || (0x30 <= b && b <= 0x39) || b
            == 0x2d || b == 0x5f || b == 0x2e || b == 0x7e {
            v.push(b as char);
        } else {
            v.push('%');
            v.push(hex_digit_exec(b / 16));
            v.push(hex_digit_exec(b % 16));
        }
        proof {
            let s = bytes@.subrange(0, i + 1);
            assert(s.drop_last() =~= bytes@.subrange(0, i as int));
            assert(s.last() == b);
            assert(v@ =~= before + encode_byte(b));
        }
        i = i + 1;
    }
    assert(bytes@.subrange(0, bytes@.len() as int) =~= bytes@);
    string_of(&v)
}

/// The Epic launcher URI that starts the game installed at a directory.
pub open spec fn epic_launch_uri_spec(install_dir: Seq<char>) -> Seq<char> {
    "com.epicgames.launcher://apps/"@ + percent_encoded(vstd::utf8::encode_utf8(install_dir))
        + "?action=launch&silent=true"@
}

pub fn epic_launch_uri(install_dir: &str) -> (r: String)
    ensures
        r@ == epic_launch_uri_spec(install_dir@),
{
    let encoded = percent_encode_uri_path(install_dir);
    let mut v: Vec<char> = Vec::new();
    extend_str(&mut v, "com.epicgames.launcher://apps/");
    crate::text::extend_chars(&mut v, &chars_of(encoded.as_str()));
    extend_str(&mut v, "?action=launch&silent=true");
    string_of(&v)
}

/// The shell target that starts an Xbox app: the apps folder, the package
/// family name, `!` and the application id.
pub open spec fn xbox_apps_folder_target_spec(family_name: Seq<char>, application_id: Seq<char>) -> Seq<
    char,
> {
    "shell:AppsFolder\\"@ + family_name + "!"@ + application_id
}

pub fn xbox_apps_folder_target(family_name: &str, application_id: &str) -> (r: String)
    ensures
        r@ == xbox_apps_folder_target_spec(family_name@, application_id@),
{
    let mut v: Vec<char> = Vec::new();
    extend_str(&mut v, "shell:AppsFolder\\");
    extend_str(&mut v, family_name);
    extend_str(&mut v, "!");
    extend_str(&mut v, application_id);
    string_of(&v)
}

/// How a game is started: Steam games with an app id through the Steam
/// client, other Steam games by running their launch target (else their
/// install path), Epic games through the Epic launcher.
pub fn launch_plan(game: &Game) -> (r: LaunchPlan)
    ensures
        match game.source {
            GameSource::Steam => match game.app_id {
                Some(id) => r == LaunchPlan::SteamApp(id),
                None => (r matches LaunchPlan::Direct { program, install_dir } && program@
                    == direct_program(*game) && install_dir@ == game.path@),
            },
            GameSource::Epic => (r matches LaunchPlan::Epic { install_dir, uri } && install_dir@
                == game.path@ && uri@ == epic_launch_uri_spec(game.path@)),
        },
{
    match game.source {
        GameSource::Steam => match game.app_id {
            Some(id) => LaunchPlan::SteamApp(id),
            None => {
                let program = match &game.launch_target {
                    Some(t) => t.clone(),
                    None => game.path.clone(),
                };
                LaunchPlan::Direct { program, install_dir: game.path.clone() }
            },
        },
        GameSource::Epic => LaunchPlan::Epic {
            install_dir: game.path.clone(),
            uri: epic_launch_uri(game.path.as_str()),
        },
    }
}

/// The outcome of a launch attempt: started when the plan ran, else
/// blocked for the reason given, else failed.
pub fn begin_launch(
    game_index: usize,
    game: &Game,
    launched: bool,
    blocked_reason: Option<LaunchBlockedReason>,
    now_ms: u64,
) -> (r: LaunchAttemptResult)
    ensures
        launched ==> (r matches LaunchAttemptResult::Started(state) && state.game_index == game_index
            && state.game_name@ == game.name@ && state.started_at_ms == now_ms
            && state.launch_steam_app_id == game.app_id && !state.awaiting_launch_release),
        !launched ==> match blocked_reason {
            Some(reason) => r == LaunchAttemptResult::Blocked(reason),
            None => r is Failed,
        },
{
    if !launched {
        return match blocked_reason {
            Some(reason) => LaunchAttemptResult::Blocked(reason),
            None => LaunchAttemptResult::Failed,
        };
    }
    LaunchAttemptResult::Started(
        LaunchState {
            game_index,
            game_name: game.name.clone(),
            started_at_ms: now_ms,
            launch_steam_app_id: game.app_id,
            awaiting_launch_release: false,
        },
    )
}

/// The launch timeout starts again from `now_ms`.
pub fn restart_launch_timeout(state: &mut LaunchState, now_ms: u64)
    ensures
        final(state).started_at_ms == now_ms,
        final(state).game_index == old(state).game_index,
        final(state).game_name == old(state).game_name,
        final(state).launch_steam_app_id == old(state).launch_steam_app_id,
        final(state).awaiting_launch_release == old(state).awaiting_launch_release,
{
    state.started_at_ms = now_ms;
}

/// Whether a launch started at `started` has timed out at `now`.
pub open spec fn launch_timed_out(started: u64, now: u64) -> bool {
    now >= started && now - started >= LAUNCH_TIMEOUT_MS
}

/// The progress of a launch where no game window can be watched: pending
/// until the timeout, then timed out.
pub fn tick_launch_progress(state: &LaunchState, launch_held: bool, now_ms: u64) -> (r: LaunchTickResult)
    ensures
        r is TimedOut <==> launch_timed_out(state.started_at_ms, now_ms),
        r is Pending <==> !launch_timed_out(state.started_at_ms, now_ms),
{
    if now_ms >= state.started_at_ms && now_ms - state.started_at_ms >= LAUNCH_TIMEOUT_MS {
        LaunchTickResult::TimedOut
    } else {
        LaunchTickResult::Pending
    }
}

pub open spec fn steam_state_name(state: SteamClientState) -> Seq<char> {
    match state {
        SteamClientState::Ready => "Ready"@,
        SteamClientState::Loading => "Loading"@,
        SteamClientState::NotRunning => "NotRunning"@,
    }
}

/// The log line of a Steam client state query.
pub open spec fn steam_client_state_log_line_spec(state: SteamClientState, elapsed_ms: u64) -> Seq<
    char,
> {
    "[steam_client_state] state="@ + steam_state_name(state) + " elapsed_ms="@
        + crate::text::decimal(elapsed_ms as nat) + "\n"@
}

pub fn steam_client_state_log_line(state: SteamClientState, elapsed_ms: u64) -> (r: String)
    ensures
        r@ == steam_client_state_log_line_spec(state, elapsed_ms),
{
    let mut v: Vec<char> = Vec::new();
    extend_str(&mut v, "[steam_client_state] state=");
    extend_str(
        &mut v,
        match state {
            SteamClientState::Ready => "Ready",
            SteamClientState::Loading => "Loading",
            SteamClientState::NotRunning => "NotRunning",
        },
    );
    extend_str(&mut v, " elapsed_ms=");
    crate::text::push_decimal(&mut v, elapsed_ms);
    extend_str(&mut v, "\n");
    string_of(&v)
}

} // verus!
