//! User settings: their values, the `settings.ini` text format, and the
//! reads and updates that the rest of the launcher makes.
//!
//! The settings file is read and written by the caller; the functions here
//! turn its text into an [`AppConfig`] and back.
use vstd::prelude::*;

use crate::display_mode::{
    display_mode_config_value, display_mode_from_config, DisplayModeSetting,
};
use crate::game::{default_scan_options, GameScanOptions};
use crate::i18n::{
    language_setting_config_value, language_setting_from_config, pick, AppLanguage,
    AppLanguageSetting,
};
use crate::text::{
    all_digits, chars_of, decimal, digits_value, eq_ic, eq_ic_str, eq_str, extend_chars,
    extend_str, find_char, is_digit, push_decimal, slice_chars, string_of, trim, trim_chars,
};

verus! {

pub const HOME_GAME_LIMIT_MIN: usize = 5;

pub const HOME_GAME_LIMIT_MAX: usize = 20;

/// Number of entries of the home game limit list: every limit, then "unlimited".
pub const HOME_GAME_LIMIT_OPTION_COUNT: usize = 17;

#[derive(Clone, Copy, Debug, PartialEq, Eq, Structural)]
pub enum BackgroundHomeWakeMode {
    Off,
    ShortPress,
    LongPress,
}

#[derive(Clone, Copy, Debug, PartialEq, Eq, Structural)]
pub enum PromptIconTheme {
    Xbox,
    PlayStation,
}

#[derive(Clone, Copy, Debug, PartialEq, Eq, Structural)]
pub enum HomeGameLimit {
    Limited(usize),
    Unlimited,
}

pub open spec fn home_wake_config_value(mode: BackgroundHomeWakeMode) -> Seq<char> {
    match mode {
        BackgroundHomeWakeMode::Off => "off"@,
        BackgroundHomeWakeMode::ShortPress => "short_press"@,
        BackgroundHomeWakeMode::LongPress => "long_press"@,
    }
}

/// Unknown values turn the wake-up off; the older `true` means a short press.
pub open spec fn home_wake_from_config(v: Seq<char>) -> BackgroundHomeWakeMode {
    if eq_ic(v, "short_press"@) || eq_ic(v, "true"@) {
        BackgroundHomeWakeMode::ShortPress
    } else if eq_ic(v, "long_press"@) {
        BackgroundHomeWakeMode::LongPress
    } else {
        BackgroundHomeWakeMode::Off
    }
}

pub open spec fn home_wake_code(mode: BackgroundHomeWakeMode) -> u8 {
    match mode {
        BackgroundHomeWakeMode::Off => 0,
        BackgroundHomeWakeMode::ShortPress => 1,
        BackgroundHomeWakeMode::LongPress => 2,
    }
}

impl BackgroundHomeWakeMode {
    pub fn as_config_value(self) -> (r: &'static str)
        ensures
            r@ == home_wake_config_value(self),
    {
        match self {
            BackgroundHomeWakeMode::Off => "off",
            BackgroundHomeWakeMode::ShortPress => "short_press",
            BackgroundHomeWakeMode::LongPress => "long_press",
        }
    }

    pub fn from_config_value(value: &str) -> (r: Self)
        ensures
            r == home_wake_from_config(value@),
    {
        let v = chars_of(value);
        Self::from_config_chars(&v)
    }

    pub fn from_config_chars(v: &Vec<char>) -> (r: Self)
        ensures
            r == home_wake_from_config(v@),
    {
        if eq_ic_str(v, "short_press") || eq_ic_str(v, "true") {
            BackgroundHomeWakeMode::ShortPress
        } else if eq_ic_str(v, "long_press") {
            BackgroundHomeWakeMode::LongPress
        } else {
            BackgroundHomeWakeMode::Off
        }
    }

    /// The mode stored under a numeric code; codes above 2 name no mode.
    pub fn from_atomic_u8(value: u8) -> (r: Option<Self>)
        ensures
            value <= 2 ==> (r matches Some(m) && home_wake_code(m) == value),
            value > 2 ==> r is None,
    {
        match value {
            0 => Some(BackgroundHomeWakeMode::Off),
            1 => Some(BackgroundHomeWakeMode::ShortPress),
            2 => Some(BackgroundHomeWakeMode::LongPress),
            _ => None,
        }
    }

    /// The numeric code of a mode, as stored for the input watchers.
    pub fn as_atomic_u8(self) -> (r: u8)
        ensures
            r == home_wake_code(self),
    {
        match self {
            BackgroundHomeWakeMode::Off => 0,
            BackgroundHomeWakeMode::ShortPress => 1,
            BackgroundHomeWakeMode::LongPress => 2,
        }
    }

    /// The next mode in the cycle Off, ShortPress, LongPress.
    pub fn next(self) -> (r: Self)
        ensures
            home_wake_code(r) as int == (home_wake_code(self) + 1) % 3,
    {
        match self {
            BackgroundHomeWakeMode::Off => BackgroundHomeWakeMode::ShortPress,
            BackgroundHomeWakeMode::ShortPress => BackgroundHomeWakeMode::LongPress,
            BackgroundHomeWakeMode::LongPress => BackgroundHomeWakeMode::Off,
        }
    }

    pub fn display_text(self, language: AppLanguage) -> (r: &'static str)
        ensures
            r@ == match self {
                BackgroundHomeWakeMode::Off => pick(language, "Off"@, "关闭"@),
                BackgroundHomeWakeMode::ShortPress => pick(language, "Short Press"@, "短按"@),
                BackgroundHomeWakeMode::LongPress => pick(language, "Long Press"@, "长按"@),
            },
    {
        match self {
            BackgroundHomeWakeMode::Off => language.disabled_text(),
            BackgroundHomeWakeMode::ShortPress => language.short_press_text(),
            BackgroundHomeWakeMode::LongPress => language.long_press_text(),
        }
    }
}

impl Default for BackgroundHomeWakeMode {
    fn default() -> (r: Self)
        ensures
            r == BackgroundHomeWakeMode::ShortPress,
    {
        BackgroundHomeWakeMode::ShortPress
    }
}

impl Default for PromptIconTheme {
    fn default() -> (r: Self)
        ensures
            r == PromptIconTheme::Xbox,
    {
        PromptIconTheme::Xbox
    }
}

pub open spec fn prompt_theme_config_value(theme: PromptIconTheme) -> Seq<char> {
    match theme {
        PromptIconTheme::Xbox => "xbox"@,
        PromptIconTheme::PlayStation => "playstation"@,
    }
}

pub open spec fn prompt_theme_from_config(v: Seq<char>) -> Option<PromptIconTheme> {
    if eq_ic(v, "xbox"@) {
        Some(PromptIconTheme::Xbox)
    } else if eq_ic(v, "playstation"@) {
        Some(PromptIconTheme::PlayStation)
    } else {
        None
    }
}

impl PromptIconTheme {
    pub fn as_config_value(self) -> (r: &'static str)
        ensures
            r@ == prompt_theme_config_value(self),
    {
        match self {
            PromptIconTheme::Xbox => "xbox",
            PromptIconTheme::PlayStation => "playstation",
        }
    }

    pub fn from_config_value(value: &str) -> (r: Option<Self>)
        ensures
            r == prompt_theme_from_config(value@),
    {
        let v = chars_of(value);
        Self::from_config_chars(&v)
    }

    pub fn from_config_chars(v: &Vec<char>) -> (r: Option<Self>)
        ensures
            r == prompt_theme_from_config(v@),
    {
        if eq_ic_str(v, "xbox") {
            Some(PromptIconTheme::Xbox)
        } else if eq_ic_str(v, "playstation") {
            Some(PromptIconTheme::PlayStation)
        } else {
            None
        }
    }
}

/// A limit clamped into the offered range.
pub open spec fn clamp_limit(limit: int) -> int {
    if limit < 5 {
        5
    } else if limit > 20 {
        20
    } else {
        limit
    }
}

pub open spec fn home_game_limit_option_index(limit: HomeGameLimit) -> int {
    match limit {
        HomeGameLimit::Limited(l) => clamp_limit(l as int) - 5,
        HomeGameLimit::Unlimited => 16,
    }
}

pub open spec fn home_game_limit_from_option_index(index: int) -> HomeGameLimit {
    if index < 16 {
        HomeGameLimit::Limited((5 + index) as usize)
    } else {
        HomeGameLimit::Unlimited
    }
}

pub open spec fn home_game_limit_config_value(limit: HomeGameLimit) -> Seq<char> {
    match limit {
        HomeGameLimit::Limited(l) => decimal(clamp_limit(l as int) as nat),
        HomeGameLimit::Unlimited => "unlimited"@,
    }
}

/// The digits of an unsigned number with an optional leading `+`.
pub open spec fn unsigned_digits(v: Seq<char>) -> Seq<char> {
    if v.len() > 0 && v[0] == '+' {
        v.drop_first()
    } else {
        v
    }
}

/// The value of `str::parse::<usize>`: an optional `+` and at least one
/// decimal digit, within the range of `usize`.
pub open spec fn parse_usize(v: Seq<char>) -> Option<nat> {
    let d = unsigned_digits(v);
    if d.len() > 0 && all_digits(d) && digits_value(d) <= usize::MAX {
        Some(digits_value(d))
    } else {
        None
    }
}

pub open spec fn home_game_limit_from_config(v: Seq<char>) -> Option<HomeGameLimit> {
    if eq_ic(v, "unlimited"@) || eq_ic(v, "none"@) || eq_ic(v, "no_limit"@) || v == "0"@ {
        Some(HomeGameLimit::Unlimited)
    } else {
        match parse_usize(v) {
            Some(n) => if 5 <= n <= 20 {
                Some(HomeGameLimit::Limited(n as usize))
            } else {
                None
            },
            None => None,
        }
    }
}

pub fn clamp_limit_exec(limit: usize) -> (r: usize)
    ensures
        r == clamp_limit(limit as int),
{
    if limit < HOME_GAME_LIMIT_MIN {
        HOME_GAME_LIMIT_MIN
    } else if limit > HOME_GAME_LIMIT_MAX {
        HOME_GAME_LIMIT_MAX
    } else {
        limit
    }
}

/// Whether every character is a decimal digit.
fn all_digits_exec(d: &Vec<char>) -> (r: bool)
    ensures
        r == all_digits(d@),
{
    let mut i: usize = 0;
    while i < d.len()
        invariant
            i <= d.len(),
            forall|j: int| 0 <= j < i ==> is_digit(#[trigger] d@[j]),
        decreases d.len() - i,
    {
        if !('0' <= d[i] && d[i] <= '9') {
            assert(!is_digit(d@[i as int]));
            return false;
        }
        i = i + 1;
    }
    true
}

/// Value of a digit run, capped at 21 (every larger value is treated alike).
fn capped_digits_value(d: &Vec<char>) -> (r: usize)
    requires
        all_digits(d@),
    ensures
        r as int == if digits_value(d@) < 21 {
            digits_value(d@) as int
        } else {
            21
        },
{
    let mut acc: usize = 0;
    let mut i: usize = 0;
    while i < d.len()
        invariant
            i <= d.len(),
            all_digits(d@),
            acc as int == if digits_value(d@.subrange(0, i as int)) < 21 {
                digits_value(d@.subrange(0, i as int)) as int
            } else {
                21
            },
        decreases d.len() - i,
    {
        let c = d[i];
        assert(is_digit(d@[i as int]));
        let digit = (c as u32 - 48) as usize;
        let ghost prev = d@.subrange(0, i as int);
        let ghost next = d@.subrange(0, i + 1);
        assert(next.drop_last() =~= prev);
        assert(next.last() == c);
        if acc >= 21 {
            acc = 21;
        } else {
            acc = acc * 10 + digit;
            if acc > 21 {
                acc = 21;
            }
        }
        i = i + 1;
    }
    assert(d@.subrange(0, d@.len() as int) =~= d@);
    acc
}

impl HomeGameLimit {
    /// The limit at a position of the settings list.
    pub fn from_option_index(index: usize) -> (r: Self)
        ensures
            r == home_game_limit_from_option_index(index as int),
    {
        if index < HOME_GAME_LIMIT_MAX - HOME_GAME_LIMIT_MIN + 1 {
            HomeGameLimit::Limited(HOME_GAME_LIMIT_MIN + index)
        } else {
            HomeGameLimit::Unlimited
        }
    }

    /// The position of the limit in the settings list.
    pub fn option_index(self) -> (r: usize)
        ensures
            r as int == home_game_limit_option_index(self),
            r < HOME_GAME_LIMIT_OPTION_COUNT,
    {
        match self {
            HomeGameLimit::Limited(limit) => clamp_limit_exec(limit) - HOME_GAME_LIMIT_MIN,
            HomeGameLimit::Unlimited => HOME_GAME_LIMIT_MAX - HOME_GAME_LIMIT_MIN + 1,
        }
    }

    pub fn as_config_value(self) -> (r: String)
        ensures
            r@ == home_game_limit_config_value(self),
    {
        match self {
            HomeGameLimit::Limited(limit) => {
                let mut v: Vec<char> = Vec::new();
                push_decimal(&mut v, clamp_limit_exec(limit) as u64);
                assert(v@ =~= home_game_limit_config_value(self));
                string_of(&v)
            },
            HomeGameLimit::Unlimited => String::from_str("unlimited"),
        }
    }

    pub fn from_config_value(value: &str) -> (r: Option<Self>)
        ensures
            r == home_game_limit_from_config(value@),
    {
        let v = chars_of(value);
        Self::from_config_chars(&v)
    }

    pub fn from_config_chars(v: &Vec<char>) -> (r: Option<Self>)
        ensures
            r == home_game_limit_from_config(v@),
    {
        if eq_ic_str(v, "unlimited") || eq_ic_str(v, "none") || eq_ic_str(v, "no_limit") || eq_str(
            v,
            "0",
        ) {
            return Some(HomeGameLimit::Unlimited);
        }
        let start: usize = if v.len() > 0 && v[0] == '+' {
            1
        } else {
            0
        };
        let d = slice_chars(v, start, v.len());
        assert(d@ =~= unsigned_digits(v@));
        if d.len() == 0 {
            return None;
        }
        if !all_digits_exec(&d) {
            return None;
        }
        assert(all_digits(d@));
        let n = capped_digits_value(&d);
        if HOME_GAME_LIMIT_MIN <= n && n <= HOME_GAME_LIMIT_MAX {
            Some(HomeGameLimit::Limited(n))
        } else {
            None
        }
    }

    pub fn display_text(self, language: AppLanguage) -> (r: String)
        ensures
            r@ == match self {
                HomeGameLimit::Limited(l) => decimal(clamp_limit(l as int) as nat),
                HomeGameLimit::Unlimited => pick(language, "Unlimited"@, "不限"@),
            },
    {
        match self {
            HomeGameLimit::Limited(limit) => {
                let mut v: Vec<char> = Vec::new();
                push_decimal(&mut v, clamp_limit_exec(limit) as u64);
                assert(v@ =~= decimal(clamp_limit(limit as int) as nat));
                string_of(&v)
            },
            HomeGameLimit::Unlimited => String::from_str(language.unlimited_text()),
        }
    }
}

impl Default for HomeGameLimit {
    fn default() -> (r: Self)
        ensures
            r == HomeGameLimit::Limited(9),
    {
        HomeGameLimit::Limited(9)
    }
}

/// The boolean named by a settings value: `true`/`yes`/`on`/`1` and
/// `false`/`no`/`off`/`0`, without case; anything else names none.
pub open spec fn parse_bool_spec(v: Seq<char>) -> Option<bool> {
    if eq_ic(v, "true"@) || eq_ic(v, "yes"@) || eq_ic(v, "on"@) || v == "1"@ {
        Some(true)
    } else if eq_ic(v, "false"@) || eq_ic(v, "no"@) || eq_ic(v, "off"@) || v == "0"@ {
        Some(false)
    } else {
        None
    }
}

pub fn parse_bool_config_value(value: &str) -> (r: Option<bool>)
    ensures
        r == parse_bool_spec(value@),
{
    let v = chars_of(value);
    parse_bool_chars(&v)
}

pub fn parse_bool_chars(v: &Vec<char>) -> (r: Option<bool>)
    ensures
        r == parse_bool_spec(v@),
{
    if eq_ic_str(v, "true") || eq_ic_str(v, "yes") || eq_ic_str(v, "on") || eq_str(v, "1") {
        Some(true)
    } else if eq_ic_str(v, "false") || eq_ic_str(v, "no") || eq_ic_str(v, "off") || eq_str(
        v,
        "0",
    ) {
        Some(false)
    } else {
        None
    }
}

/// Every persisted setting of the launcher.
#[derive(Clone, Copy, Debug, PartialEq, Eq, Structural)]
pub struct AppConfig {
    pub hint_icon_theme: PromptIconTheme,
    pub language: AppLanguageSetting,
    pub display_mode_setting: DisplayModeSetting,
    pub home_game_limit: HomeGameLimit,
    pub idle_frame_rate_reduction_enabled: bool,
    pub background_home_wake_mode: BackgroundHomeWakeMode,
    pub controller_vibration_enabled: bool,
    pub game_scan_options: GameScanOptions,
    pub steam_client_state_logging_enabled: bool,
}

pub open spec fn default_config() -> AppConfig {
    AppConfig {
        hint_icon_theme: PromptIconTheme::Xbox,
        language: AppLanguageSetting::Auto,
        display_mode_setting: DisplayModeSetting::Fullscreen,
        home_game_limit: HomeGameLimit::Limited(9),
        idle_frame_rate_reduction_enabled: true,
        background_home_wake_mode: BackgroundHomeWakeMode::ShortPress,
        controller_vibration_enabled: false,
        game_scan_options: default_scan_options(),
        steam_client_state_logging_enabled: false,
    }
}

impl Default for AppConfig {
    fn default() -> (r: Self)
        ensures
            r == default_config(),
    {
        AppConfig {
            hint_icon_theme: PromptIconTheme::Xbox,
            language: AppLanguageSetting::Auto,
            display_mode_setting: DisplayModeSetting::Fullscreen,
            home_game_limit: HomeGameLimit::Limited(9),
            idle_frame_rate_reduction_enabled: true,
            background_home_wake_mode: BackgroundHomeWakeMode::ShortPress,
            controller_vibration_enabled: false,
            game_scan_options: GameScanOptions::default(),
            steam_client_state_logging_enabled: false,
        }
    }
}

pub open spec fn bool_or(v: Option<bool>, d: bool) -> bool {
    match v {
        Some(b) => b,
        None => d,
    }
}

/// The effect of one `key=value` entry of a section on the settings.
/// Unknown sections and keys change nothing; values that name nothing
/// fall back to the default of their setting.
/// The effect of a `key=value` entry of the `[ui]` section.
pub open spec fn apply_ui_setting(c: AppConfig, key: Seq<char>, value: Seq<char>) -> AppConfig {
    if eq_ic(key, "hint_icon_theme"@) {
        AppConfig {
            hint_icon_theme: match prompt_theme_from_config(value) {
                Some(t) => t,
                None => PromptIconTheme::Xbox,
            },
            ..c
        }
    } else if eq_ic(key, "language"@) {
        AppConfig {
            language: match language_setting_from_config(value) {
                Some(l) => l,
                None => AppLanguageSetting::Auto,
            },
            ..c
        }
    } else if eq_ic(key, "display_mode"@) {
        AppConfig {
            display_mode_setting: match display_mode_from_config(value) {
                Some(m) => m,
                None => DisplayModeSetting::Fullscreen,
            },
            ..c
        }
    } else if eq_ic(key, "home_game_limit"@) {
        AppConfig {
            home_game_limit: match home_game_limit_from_config(value) {
                Some(l) => l,
                None => HomeGameLimit::Limited(9),
            },
            ..c
        }
    } else if eq_ic(key, "idle_frame_rate_reduction_enabled"@) {
        AppConfig {
            idle_frame_rate_reduction_enabled: bool_or(parse_bool_spec(value), true),
            ..c
        }
    } else if eq_ic(key, "background_home_wake_enabled"@) {
        AppConfig { background_home_wake_mode: home_wake_from_config(value), ..c }
    } else if eq_ic(key, "controller_vibration_enabled"@) {
        AppConfig {
            controller_vibration_enabled: bool_or(parse_bool_spec(value), false),
            ..c
        }
    } else {
        c
    }
}

/// The effect of a `key=value` entry of the `[games]` section.
pub open spec fn apply_games_setting(c: AppConfig, key: Seq<char>, value: Seq<char>) -> AppConfig {
    if eq_ic(key, "detect_steam_games"@) {
        AppConfig {
            game_scan_options: GameScanOptions {
                detect_steam_games: bool_or(parse_bool_spec(value), true),
                ..c.game_scan_options
            },
            ..c
        }
    } else if eq_ic(key, "detect_epic_games"@) {
        AppConfig {
            game_scan_options: GameScanOptions {
                detect_epic_games: bool_or(parse_bool_spec(value), true),
                ..c.game_scan_options
            },
            ..c
        }
    } else if eq_ic(key, "detect_xbox_games"@) {
        AppConfig {
            game_scan_options: GameScanOptions {
                detect_xbox_games: bool_or(parse_bool_spec(value), true),
                ..c.game_scan_options
            },
            ..c
        }
    } else {
        c
    }
}

/// The effect of a `key=value` entry of the `[debug]` section.
pub open spec fn apply_debug_setting(c: AppConfig, key: Seq<char>, value: Seq<char>) -> AppConfig {
    if eq_ic(key, "steam_client_state_logging_enabled"@) {
        AppConfig {
            steam_client_state_logging_enabled: bool_or(parse_bool_spec(value), false),
            ..c
        }
    } else {
        c
    }
}

/// The effect of one `key=value` entry of a section on the settings.
/// Unknown sections and keys change nothing; values that name nothing
/// fall back to the default of their setting.
pub open spec fn apply_setting(
    c: AppConfig,
    section: Seq<char>,
    key: Seq<char>,
    value: Seq<char>,
) -> AppConfig {
    if eq_ic(section, "ui"@) {
        apply_ui_setting(c, key, value)
    } else if eq_ic(section, "games"@) {
        apply_games_setting(c, key, value)
    } else if eq_ic(section, "debug"@) {
        apply_debug_setting(c, key, value)
    } else {
        c
    }
}

/// Index of the first occurrence of `c` in `s`.
pub open spec fn first_index_of(s: Seq<char>, c: char) -> Option<nat>
    decreases s.len(),
{
    if s.len() == 0 {
        None
    } else if s[0] == c {
        Some(0)
    } else {
        match first_index_of(s.drop_first(), c) {
            Some(i) => Some(i + 1),
            None => None,
        }
    }
}

pub proof fn lemma_first_index_of(s: Seq<char>, c: char, i: int)
    requires
        0 <= i < s.len(),
        s[i] == c,
        forall|j: int| 0 <= j < i ==> s[j] != c,
    ensures
        first_index_of(s, c) == Some(i as nat),
    decreases s.len(),
{
    if i > 0 {
        let t = s.drop_first();
        assert forall|j: int| 0 <= j < i - 1 implies t[j] != c by {
            assert(t[j] == s[j + 1]);
        }
        lemma_first_index_of(t, c, i - 1);
    }
}

pub proof fn lemma_first_index_of_none(s: Seq<char>, c: char)
    requires
        forall|j: int| 0 <= j < s.len() ==> s[j] != c,
    ensures
        first_index_of(s, c) is None,
    decreases s.len(),
{
    if s.len() > 0 {
        let t = s.drop_first();
        assert forall|j: int| 0 <= j < t.len() implies t[j] != c by {
            assert(t[j] == s[j + 1]);
        }
        lemma_first_index_of_none(t, c);
    }
}

/// The effect of one line of the settings text, given the settings and
/// the current section before it. Blank lines and `;`/`#` comments are
/// skipped, `[name]` opens a section, and `key=value` sets a value.
pub open spec fn config_line_step(st: (AppConfig, Seq<char>), raw: Seq<char>) -> (
    AppConfig,
    Seq<char>,
) {
    let line = trim(raw);
    if line.len() == 0 || line[0] == ';' || line[0] == '#' {
        st
    } else if line.len() >= 2 && line[0] == '[' && line.last() == ']' {
        (st.0, trim(line.subrange(1, line.len() - 1)))
    } else {
        match first_index_of(line, '=') {
            Some(i) => (
                apply_setting(
                    st.0,
                    st.1,
                    trim(line.subrange(0, i as int)),
                    trim(line.subrange(i + 1 as int, line.len() as int)),
                ),
                st.1,
            ),
            None => st,
        }
    }
}

/// The lines of a text, separated by `\n`.
pub open spec fn split_lines(s: Seq<char>) -> Seq<Seq<char>>
    decreases s.len(),
{
    if s.len() == 0 {
        seq![Seq::<char>::empty()]
    } else {
        let prev = split_lines(s.drop_last());
        if s.last() == '\n' {
            prev.push(Seq::<char>::empty())
        } else {
            prev.update(prev.len() - 1, prev.last().push(s.last()))
        }
    }
}

pub proof fn lemma_split_lines_nonempty(s: Seq<char>)
    ensures
        split_lines(s).len() >= 1,
    decreases s.len(),
{
    if s.len() > 0 {
        lemma_split_lines_nonempty(s.drop_last());
    }
}

/// The settings and section after reading the given lines in order.
pub open spec fn config_from_lines(lines: Seq<Seq<char>>) -> (AppConfig, Seq<char>)
    decreases lines.len(),
{
    if lines.len() == 0 {
        (default_config(), Seq::<char>::empty())
    } else {
        config_line_step(config_from_lines(lines.drop_last()), lines.last())
    }
}

/// The settings that a settings text describes.
pub open spec fn parse_config_spec(contents: Seq<char>) -> AppConfig {
    config_from_lines(split_lines(contents)).0
}

pub open spec fn bool_text(b: bool) -> Seq<char> {
    if b {
        "true"@
    } else {
        "false"@
    }
}

/// The text of lines, each ended by a line break.
pub open spec fn lines_text(ls: Seq<Seq<char>>) -> Seq<char>
    decreases ls.len(),
{
    if ls.len() == 0 {
        Seq::empty()
    } else {
        lines_text(ls.drop_last()) + ls.last() + seq!['\n']
    }
}

/// A `key=value` line.
pub open spec fn setting_line(key: Seq<char>, value: Seq<char>) -> Seq<char> {
    key + seq!['='] + value
}

/// A `[name]` line.
pub open spec fn section_line(name: Seq<char>) -> Seq<char> {
    seq!['['] + name + seq![']']
}

/// The lines of the settings text written for a configuration: the `[ui]`
/// section, the `[games]` section and the `[debug]` section, with an empty
/// line between sections.
pub open spec fn settings_lines(c: AppConfig) -> Seq<Seq<char>> {
    seq![
        section_line("ui"@),
        setting_line("hint_icon_theme"@, prompt_theme_config_value(c.hint_icon_theme)),
        setting_line("language"@, language_setting_config_value(c.language)),
        setting_line("display_mode"@, display_mode_config_value(c.display_mode_setting)),
        setting_line("home_game_limit"@, home_game_limit_config_value(c.home_game_limit)),
        setting_line(
            "idle_frame_rate_reduction_enabled"@,
            bool_text(c.idle_frame_rate_reduction_enabled),
        ),
        setting_line(
            "background_home_wake_enabled"@,
            home_wake_config_value(c.background_home_wake_mode),
        ),
        setting_line("controller_vibration_enabled"@, bool_text(c.controller_vibration_enabled)),
        Seq::<char>::empty(),
        section_line("games"@),
        setting_line("detect_steam_games"@, bool_text(c.game_scan_options.detect_steam_games)),
        setting_line("detect_epic_games"@, bool_text(c.game_scan_options.detect_epic_games)),
        setting_line("detect_xbox_games"@, bool_text(c.game_scan_options.detect_xbox_games)),
        Seq::<char>::empty(),
        section_line("debug"@),
        setting_line(
            "steam_client_state_logging_enabled"@,
            bool_text(c.steam_client_state_logging_enabled),
        ),
    ]
}

/// The settings text written for a configuration.
pub open spec fn serialized_config(c: AppConfig) -> Seq<char> {
    lines_text(settings_lines(c))
}

proof fn lemma_lines_text_prefix(ls: Seq<Seq<char>>, k: int)
    requires
        0 < k <= ls.len(),
    ensures
        lines_text(ls.subrange(0, k)) == lines_text(ls.subrange(0, k - 1)) + ls[k - 1] + seq![
            '\n',
        ],
{
    assert(ls.subrange(0, k).drop_last() =~= ls.subrange(0, k - 1));
}

fn apply_ui_setting_exec(c: &mut AppConfig, key: &Vec<char>, value: &Vec<char>)
    ensures
        *final(c) == apply_ui_setting(*old(c), key@, value@),
{
    if eq_ic_str(key, "hint_icon_theme") {
        c.hint_icon_theme = match PromptIconTheme::from_config_chars(value) {
            Some(t) => t,
            None => PromptIconTheme::Xbox,
        };
    } else if eq_ic_str(key, "language") {
        c.language = match AppLanguageSetting::from_config_chars(value) {
            Some(l) => l,
            None => AppLanguageSetting::Auto,
        };
    } else if eq_ic_str(key, "display_mode") {
        c.display_mode_setting = match DisplayModeSetting::from_config_chars(value) {
            Some(m) => m,
            None => DisplayModeSetting::Fullscreen,
        };
    } else if eq_ic_str(key, "home_game_limit") {
        c.home_game_limit = match HomeGameLimit::from_config_chars(value) {
            Some(l) => l,
            None => HomeGameLimit::Limited(9),
        };
    } else if eq_ic_str(key, "idle_frame_rate_reduction_enabled") {
        c.idle_frame_rate_reduction_enabled = match parse_bool_chars(value) {
            Some(b) => b,
            None => true,
        };
    } else if eq_ic_str(key, "background_home_wake_enabled") {
        c.background_home_wake_mode = BackgroundHomeWakeMode::from_config_chars(value);
    } else if eq_ic_str(key, "controller_vibration_enabled") {
        c.controller_vibration_enabled = match parse_bool_chars(value) {
            Some(b) => b,
            None => false,
        };
    }
}

fn apply_games_setting_exec(c: &mut AppConfig, key: &Vec<char>, value: &Vec<char>)
    ensures
        *final(c) == apply_games_setting(*old(c), key@, value@),
{
    if eq_ic_str(key, "detect_steam_games") {
        c.game_scan_options.detect_steam_games = match parse_bool_chars(value) {
            Some(b) => b,
            None => true,
        };
    } else if eq_ic_str(key, "detect_epic_games") {
        c.game_scan_options.detect_epic_games = match parse_bool_chars(value) {
            Some(b) => b,
            None => true,
        };
    } else if eq_ic_str(key, "detect_xbox_games") {
        c.game_scan_options.detect_xbox_games = match parse_bool_chars(value) {
            Some(b) => b,
            None => true,
        };
    }
}

fn apply_debug_setting_exec(c: &mut AppConfig, key: &Vec<char>, value: &Vec<char>)
    ensures
        *final(c) == apply_debug_setting(*old(c), key@, value@),
{
    if eq_ic_str(key, "steam_client_state_logging_enabled") {
        c.steam_client_state_logging_enabled = match parse_bool_chars(value) {
            Some(b) => b,
            None => false,
        };
    }
}

/// Sets the value of one `key=value` entry.
fn apply_setting_exec(c: &mut AppConfig, section: &Vec<char>, key: &Vec<char>, value: &Vec<char>)
    ensures
        *final(c) == apply_setting(*old(c), section@, key@, value@),
{
    if eq_ic_str(section, "ui") {
        apply_ui_setting_exec(c, key, value);
    } else if eq_ic_str(section, "games") {
        apply_games_setting_exec(c, key, value);
    } else if eq_ic_str(section, "debug") {
        apply_debug_setting_exec(c, key, value);
    }
}

/// Reads one line of the settings text.
fn apply_config_line(c: &mut AppConfig, section: &mut Vec<char>, raw: &Vec<char>)
    ensures
        (*final(c), final(section)@) == config_line_step((*old(c), old(section)@), raw@),
{
    let line = trim_chars(raw);
    let n = line.len();
    if n == 0 || line[0] == ';' || line[0] == '#' {
        return;
    }
    if n >= 2 && line[0] == '[' && line[n - 1] == ']' {
        let inner = slice_chars(&line, 1, n - 1);
        *section = trim_chars(&inner);
        return;
    }
    match find_char(&line, '=') {
        Some(i) => {
            proof {
                lemma_first_index_of(line@, '=', i as int);
            }
            let key_raw = slice_chars(&line, 0, i);
            let value_raw = slice_chars(&line, i + 1, n);
            let key = trim_chars(&key_raw);
            let value = trim_chars(&value_raw);
            apply_setting_exec(c, section, &key, &value);
        },
        None => {
            proof {
                lemma_first_index_of_none(line@, '=');
            }
        },
    }
}

/// Reads a settings text (`settings.ini`).
pub fn parse_config(contents: &str) -> (r: AppConfig)
    ensures
        r == parse_config_spec(contents@),
{
    let text = chars_of(contents);
    let mut config = AppConfig::default();
    let mut section: Vec<char> = Vec::new();
    let mut line: Vec<char> = Vec::new();
    let mut i: usize = 0;
    proof {
        assert(text@.subrange(0, 0) =~= Seq::<char>::empty());
        assert(split_lines(Seq::<char>::empty()).drop_last() =~= Seq::<Seq<char>>::empty());
    }
    while i < text.len()
        invariant
            text@ == contents@,
            i <= text.len(),
            split_lines(text@.subrange(0, i as int)).len() >= 1,
            (config, section@) == config_from_lines(
                split_lines(text@.subrange(0, i as int)).drop_last(),
            ),
            line@ == split_lines(text@.subrange(0, i as int)).last(),
        decreases text.len() - i,
    {
        let c = text[i];
        let ghost pre = text@.subrange(0, i as int);
        let ghost next = text@.subrange(0, i + 1);
        let ghost lines = split_lines(pre);
        proof {
            assert(next.drop_last() =~= pre);
            assert(next.last() == c);
        }
        if c == '\n' {
            apply_config_line(&mut config, &mut section, &line);
            line = Vec::new();
            proof {
                assert(split_lines(next) == lines.push(Seq::<char>::empty()));
                assert(split_lines(next).drop_last() =~= lines);
                assert(lines =~= lines.drop_last().push(lines.last()));
            }
        } else {
            line.push(c);
            proof {
                assert(split_lines(next) == lines.update(lines.len() - 1, lines.last().push(c)));
                assert(split_lines(next).drop_last() =~= lines.drop_last());
            }
        }
        i = i + 1;
    }
    apply_config_line(&mut config, &mut section, &line);
    proof {
        let lines = split_lines(text@.subrange(0, i as int));
        assert(text@.subrange(0, i as int) =~= contents@);
        assert(lines =~= lines.drop_last().push(lines.last()));
    }
    config
}

fn bool_str(b: bool) -> (r: &'static str)
    ensures
        r@ == bool_text(b),
{
    if b {
        "true"
    } else {
        "false"
    }
}

/// Appends the next line of the settings text and its line break.
fn push_line(v: &mut Vec<char>, ls: Ghost<Seq<Seq<char>>>, k: Ghost<int>, key: &str, sep: char, value: &str)
    requires
        0 <= k@ < ls@.len(),
        old(v)@ == lines_text(ls@.subrange(0, k@)),
        ls@[k@] == key@ + seq![sep] + value@,
    ensures
        final(v)@ == lines_text(ls@.subrange(0, k@ + 1)),
{
    extend_str(v, key);
    v.push(sep);
    extend_str(v, value);
    v.push('\n');
    proof {
        lemma_lines_text_prefix(ls@, k@ + 1);
    }
}

/// Writes the settings text for a configuration.
pub fn serialize_config(config: AppConfig) -> (r: String)
    ensures
        r@ == serialized_config(config),
{
    let ghost ls = settings_lines(config);
    let mut v: Vec<char> = Vec::new();
    assert(ls.subrange(0, 0) =~= Seq::<Seq<char>>::empty());
    proof {
        reveal_strlit("");
        reveal_strlit("ui]");
        reveal_strlit("games]");
        reveal_strlit("debug]");
        reveal_strlit("ui");
        reveal_strlit("games");
        reveal_strlit("debug");
    }
    assert(ls[0] =~= ""@ + seq!['['] + "ui]"@);
    push_line(&mut v, Ghost(ls), Ghost(0), "", '[', "ui]");
    push_line(&mut v, Ghost(ls), Ghost(1), "hint_icon_theme", '=', config.hint_icon_theme.as_config_value());
    push_line(&mut v, Ghost(ls), Ghost(2), "language", '=', config.language.as_config_value());
    push_line(&mut v, Ghost(ls), Ghost(3), "display_mode", '=', config.display_mode_setting.as_config_value());
    let limit = config.home_game_limit.as_config_value();
    push_line(&mut v, Ghost(ls), Ghost(4), "home_game_limit", '=', limit.as_str());
    push_line(&mut v, Ghost(ls), Ghost(5), "idle_frame_rate_reduction_enabled", '=', bool_str(config.idle_frame_rate_reduction_enabled));
    push_line(&mut v, Ghost(ls), Ghost(6), "background_home_wake_enabled", '=', config.background_home_wake_mode.as_config_value());
    push_line(&mut v, Ghost(ls), Ghost(7), "controller_vibration_enabled", '=', bool_str(config.controller_vibration_enabled));
    v.push('\n');
    proof {
        lemma_lines_text_prefix(ls, 9);
        assert(lines_text(ls.subrange(0, 9)) =~= lines_text(ls.subrange(0, 8)) + seq!['\n']);
    }
    assert(ls[9] =~= ""@ + seq!['['] + "games]"@);
    push_line(&mut v, Ghost(ls), Ghost(9), "", '[', "games]");
    push_line(&mut v, Ghost(ls), Ghost(10), "detect_steam_games", '=', bool_str(config.game_scan_options.detect_steam_games));
    push_line(&mut v, Ghost(ls), Ghost(11), "detect_epic_games", '=', bool_str(config.game_scan_options.detect_epic_games));
    push_line(&mut v, Ghost(ls), Ghost(12), "detect_xbox_games", '=', bool_str(config.game_scan_options.detect_xbox_games));
    v.push('\n');
    proof {
        lemma_lines_text_prefix(ls, 14);
        assert(lines_text(ls.subrange(0, 14)) =~= lines_text(ls.subrange(0, 13)) + seq!['\n']);
    }
    assert(ls[14] =~= ""@ + seq!['['] + "debug]"@);
    push_line(&mut v, Ghost(ls), Ghost(14), "", '[', "debug]");
    push_line(&mut v, Ghost(ls), Ghost(15), "steam_client_state_logging_enabled", '=', bool_str(config.steam_client_state_logging_enabled));
    assert(ls.subrange(0, 16) =~= ls);
    string_of(&v)
}

/// The settings held in memory at start-up: those of the settings text
/// when it could be read, the defaults otherwise.
pub fn initialize(contents: Option<&str>) -> (r: AppConfig)
    ensures
        r == match contents {
            Some(text) => parse_config_spec(text@),
            None => default_config(),
        },
{
    match contents {
        Some(text) => parse_config(text),
        None => AppConfig::default(),
    }
}

pub fn load_hint_icon_theme(config: &AppConfig) -> (r: PromptIconTheme)
    ensures
        r == config.hint_icon_theme,
{
    config.hint_icon_theme
}

/// Changes one setting and returns the settings text to write back.
pub fn store_hint_icon_theme(config: &mut AppConfig, theme: PromptIconTheme) -> (contents: String)
    ensures
        *final(config) == (AppConfig { hint_icon_theme: theme, ..*old(config) }),
        contents@ == serialized_config(*final(config)),
{
    config.hint_icon_theme = theme;
    serialize_config(*config)
}

pub fn load_app_language_setting(config: &AppConfig) -> (r: AppLanguageSetting)
    ensures
        r == config.language,
{
    config.language
}

/// Changes one setting and returns the settings text to write back.
pub fn store_app_language_setting(config: &mut AppConfig, language: AppLanguageSetting) -> (contents: String)
    ensures
        *final(config) == (AppConfig { language: language, ..*old(config) }),
        contents@ == serialized_config(*final(config)),
{
    config.language = language;
    serialize_config(*config)
}

pub fn load_display_mode_setting(config: &AppConfig) -> (r: DisplayModeSetting)
    ensures
        r == config.display_mode_setting,
{
    config.display_mode_setting
}

/// Changes one setting and returns the settings text to write back.
pub fn store_display_mode_setting(config: &mut AppConfig, display_mode_setting: DisplayModeSetting) -> (contents: String)
    ensures
        *final(config) == (AppConfig { display_mode_setting: display_mode_setting, ..*old(config) }),
        contents@ == serialized_config(*final(config)),
{
    config.display_mode_setting = display_mode_setting;
    serialize_config(*config)
}

pub fn load_home_game_limit(config: &AppConfig) -> (r: HomeGameLimit)
    ensures
        r == config.home_game_limit,
{
    config.home_game_limit
}

/// Changes one setting and returns the settings text to write back.
pub fn store_home_game_limit(config: &mut AppConfig, home_game_limit: HomeGameLimit) -> (contents: String)
    ensures
        *final(config) == (AppConfig { home_game_limit: home_game_limit, ..*old(config) }),
        contents@ == serialized_config(*final(config)),
{
    config.home_game_limit = home_game_limit;
    serialize_config(*config)
}

pub fn load_idle_frame_rate_reduction_enabled(config: &AppConfig) -> (r: bool)
    ensures
        r == config.idle_frame_rate_reduction_enabled,
{
    config.idle_frame_rate_reduction_enabled
}

/// Changes one setting and returns the settings text to write back.
pub fn store_idle_frame_rate_reduction_enabled(config: &mut AppConfig, enabled: bool) -> (contents: String)
    ensures
        *final(config) == (AppConfig { idle_frame_rate_reduction_enabled: enabled, ..*old(config) }),
        contents@ == serialized_config(*final(config)),
{
    config.idle_frame_rate_reduction_enabled = enabled;
    serialize_config(*config)
}

pub fn load_controller_vibration_enabled(config: &AppConfig) -> (r: bool)
    ensures
        r == config.controller_vibration_enabled,
{
    config.controller_vibration_enabled
}

/// Changes one setting and returns the settings text to write back.
pub fn store_controller_vibration_enabled(config: &mut AppConfig, enabled: bool) -> (contents: String)
    ensures
        *final(config) == (AppConfig { controller_vibration_enabled: enabled, ..*old(config) }),
        contents@ == serialized_config(*final(config)),
{
    config.controller_vibration_enabled = enabled;
    serialize_config(*config)
}

pub fn load_background_home_wake_mode(config: &AppConfig) -> (r: BackgroundHomeWakeMode)
    ensures
        r == config.background_home_wake_mode,
{
    config.background_home_wake_mode
}

/// Changes one setting and returns the settings text to write back.
pub fn store_background_home_wake_mode(config: &mut AppConfig, mode: BackgroundHomeWakeMode) -> (contents: String)
    ensures
        *final(config) == (AppConfig { background_home_wake_mode: mode, ..*old(config) }),
        contents@ == serialized_config(*final(config)),
{
    config.background_home_wake_mode = mode;
    serialize_config(*config)
}

pub fn load_game_scan_options(config: &AppConfig) -> (r: GameScanOptions)
    ensures
        r == config.game_scan_options,
{
    config.game_scan_options
}

/// Changes one setting and returns the settings text to write back.
pub fn store_game_scan_options(config: &mut AppConfig, options: GameScanOptions) -> (contents: String)
    ensures
        *final(config) == (AppConfig { game_scan_options: options, ..*old(config) }),
        contents@ == serialized_config(*final(config)),
{
    config.game_scan_options = options;
    serialize_config(*config)
}

pub fn load_steam_client_state_logging_enabled(config: &AppConfig) -> (r: bool)
    ensures
        r == config.steam_client_state_logging_enabled,
{
    config.steam_client_state_logging_enabled
}

} // verus!
