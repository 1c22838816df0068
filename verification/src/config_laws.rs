//! What reading the settings text gives back of what was written.
use vstd::prelude::*;

use crate::config::{
    home_game_limit_config_value, home_game_limit_from_config, home_wake_config_value,
    home_wake_from_config, prompt_theme_config_value, prompt_theme_from_config,
    BackgroundHomeWakeMode, HomeGameLimit, PromptIconTheme,
};
use crate::display_mode::{display_mode_config_value, display_mode_from_config, DisplayModeSetting};
use crate::i18n::{language_setting_config_value, language_setting_from_config, AppLanguageSetting};
use crate::config::clamp_limit;
use crate::game::GameScanOptions;
use crate::config::{lines_text, setting_line, section_line, settings_lines, serialized_config, config_from_lines, parse_config_spec, default_config, split_lines, lemma_split_lines_nonempty, config_line_step, first_index_of, lemma_first_index_of, apply_setting, parse_bool_spec, bool_text, AppConfig};
use crate::text::{decimal, eq_ic, is_ws, lower_seq, trim, ws_prefix_len, ws_suffix_len};

verus! {

/// Texts of different lengths differ, whatever their case.
proof fn lemma_eq_ic_len(a: Seq<char>, b: Seq<char>)
    requires
        a.len() != b.len(),
    ensures
        !eq_ic(a, b),
{
    assert(lower_seq(a).len() != lower_seq(b).len());
}

/// Texts that differ at a place where neither holds a letter differ,
/// whatever their case.
proof fn lemma_eq_ic_at(a: Seq<char>, b: Seq<char>, i: int)
    requires
        0 <= i < a.len(),
        i < b.len(),
        a[i] != b[i],
        a[i] < 'A' || 'Z' < a[i],
        b[i] < 'A' || 'Z' < b[i],
    ensures
        !eq_ic(a, b),
{
    assert(lower_seq(a)[i] != lower_seq(b)[i]);
}

/// The value written for a prompt theme reads back as that theme.
pub proof fn lemma_prompt_theme_round_trip(theme: PromptIconTheme)
    ensures
        prompt_theme_from_config(prompt_theme_config_value(theme)) == Some(theme),
{
    reveal_strlit("xbox");
    reveal_strlit("playstation");
    if theme == PromptIconTheme::PlayStation {
        lemma_eq_ic_len("playstation"@, "xbox"@);
    }
}

/// The value written for a display mode reads back as that mode.
pub proof fn lemma_display_mode_round_trip(mode: DisplayModeSetting)
    ensures
        display_mode_from_config(display_mode_config_value(mode)) == Some(mode),
{
    reveal_strlit("fullscreen");
    reveal_strlit("windowed");
    if mode == DisplayModeSetting::Windowed {
        lemma_eq_ic_len("windowed"@, "fullscreen"@);
    }
}

/// The value written for a language setting reads back as that setting.
pub proof fn lemma_language_setting_round_trip(setting: AppLanguageSetting)
    ensures
        language_setting_from_config(language_setting_config_value(setting)) == Some(setting),
{
    reveal_strlit("auto");
    reveal_strlit("english");
    reveal_strlit("en");
    reveal_strlit("simplified_chinese");
    match setting {
        AppLanguageSetting::Auto => {},
        AppLanguageSetting::English => {
            lemma_eq_ic_len("english"@, "auto"@);
        },
        AppLanguageSetting::SimplifiedChinese => {
            lemma_eq_ic_len("simplified_chinese"@, "auto"@);
            lemma_eq_ic_len("simplified_chinese"@, "english"@);
            lemma_eq_ic_len("simplified_chinese"@, "en"@);
        },
    }
}

/// The other names a language setting is read from, in any ASCII case,
/// and a name that is none of them.
pub proof fn lemma_language_setting_aliases()
    ensures
        language_setting_from_config("EN"@) == Some(AppLanguageSetting::English),
        language_setting_from_config("zh-CN"@) == Some(AppLanguageSetting::SimplifiedChinese),
        language_setting_from_config("schinese"@) == Some(AppLanguageSetting::SimplifiedChinese),
        language_setting_from_config("Simplified-Chinese"@) == Some(
            AppLanguageSetting::SimplifiedChinese,
        ),
        language_setting_from_config("fr"@) is None,
{
    reveal_strlit("auto");
    reveal_strlit("english");
    reveal_strlit("en");
    reveal_strlit("simplified_chinese");
    reveal_strlit("simplified-chinese");
    reveal_strlit("zh-cn");
    reveal_strlit("schinese");
    reveal_strlit("EN");
    reveal_strlit("zh-CN");
    reveal_strlit("Simplified-Chinese");
    reveal_strlit("fr");
    lemma_eq_ic_len("EN"@, "auto"@);
    lemma_eq_ic_len("EN"@, "english"@);
    assert(lower_seq("EN"@) =~= lower_seq("en"@));
    lemma_eq_ic_len("zh-CN"@, "auto"@);
    lemma_eq_ic_len("zh-CN"@, "english"@);
    lemma_eq_ic_len("zh-CN"@, "en"@);
    lemma_eq_ic_len("zh-CN"@, "simplified_chinese"@);
    lemma_eq_ic_len("zh-CN"@, "simplified-chinese"@);
    assert(lower_seq("zh-CN"@) =~= lower_seq("zh-cn"@));
    lemma_eq_ic_len("schinese"@, "auto"@);
    lemma_eq_ic_len("schinese"@, "english"@);
    lemma_eq_ic_len("schinese"@, "en"@);
    lemma_eq_ic_len("schinese"@, "simplified_chinese"@);
    lemma_eq_ic_len("schinese"@, "simplified-chinese"@);
    lemma_eq_ic_len("schinese"@, "zh-cn"@);
    assert(lower_seq("schinese"@) =~= lower_seq("schinese"@));
    lemma_eq_ic_len("Simplified-Chinese"@, "auto"@);
    lemma_eq_ic_len("Simplified-Chinese"@, "english"@);
    lemma_eq_ic_len("Simplified-Chinese"@, "en"@);
    lemma_eq_ic_at("Simplified-Chinese"@, "simplified_chinese"@, 10);
    assert(lower_seq("Simplified-Chinese"@) =~= lower_seq("simplified-chinese"@));
    lemma_eq_ic_len("fr"@, "auto"@);
    lemma_eq_ic_len("fr"@, "english"@);
    lemma_eq_ic_at("fr"@, "en"@, 0);
    lemma_eq_ic_len("fr"@, "simplified_chinese"@);
    lemma_eq_ic_len("fr"@, "simplified-chinese"@);
    lemma_eq_ic_len("fr"@, "zh-cn"@);
    lemma_eq_ic_len("fr"@, "schinese"@);
}

/// The value written for a wake-up mode reads back as that mode.
pub proof fn lemma_home_wake_round_trip(mode: BackgroundHomeWakeMode)
    ensures
        home_wake_from_config(home_wake_config_value(mode)) == mode,
{
    reveal_strlit("off");
    reveal_strlit("short_press");
    reveal_strlit("long_press");
    reveal_strlit("true");
    match mode {
        BackgroundHomeWakeMode::Off => {
            lemma_eq_ic_len("off"@, "short_press"@);
            lemma_eq_ic_len("off"@, "true"@);
            lemma_eq_ic_len("off"@, "long_press"@);
        },
        BackgroundHomeWakeMode::ShortPress => {},
        BackgroundHomeWakeMode::LongPress => {
            lemma_eq_ic_len("long_press"@, "short_press"@);
            lemma_eq_ic_len("long_press"@, "true"@);
        },
    }
}

/// A limit as it is stored: a limited count clamped into the offered range.
pub open spec fn stored_home_game_limit(limit: HomeGameLimit) -> HomeGameLimit {
    match limit {
        HomeGameLimit::Limited(l) => HomeGameLimit::Limited(clamp_limit(l as int) as usize),
        HomeGameLimit::Unlimited => HomeGameLimit::Unlimited,
    }
}

/// The value written for a home game limit reads back as that limit,
/// clamped into the offered range.
pub proof fn lemma_home_game_limit_round_trip(limit: HomeGameLimit)
    ensures
        home_game_limit_from_config(home_game_limit_config_value(limit)) == Some(
            stored_home_game_limit(limit),
        ),
{
    reveal_strlit("unlimited");
    reveal_strlit("none");
    reveal_strlit("no_limit");
    reveal_strlit("0");
    match limit {
        HomeGameLimit::Limited(l) => {
            let n = clamp_limit(l as int) as nat;
            let v = decimal(n);
            crate::text::lemma_decimal_digits(n);
            crate::text::lemma_decimal_len(n);
            crate::text::lemma_decimal_len(n / 10);
            assert(v.len() <= 2);
            lemma_eq_ic_len(v, "unlimited"@);
            lemma_eq_ic_len(v, "no_limit"@);
            lemma_eq_ic_len(v, "none"@);
            if n < 10 {
                assert(v[0] != '0');
            } else {
                assert(v.len() == 2);
            }
            assert(v != "0"@);
            assert(crate::config::unsigned_digits(v) == v);
        },
        HomeGameLimit::Unlimited => {},
    }
}

/// Letters, digits and `_`: the characters of names and values in the
/// settings text.
pub open spec fn is_word_char(c: char) -> bool {
    ('a' <= c && c <= 'z') || ('0' <= c && c <= '9') || c == '_'
}

pub open spec fn word_chars(s: Seq<char>) -> bool
    decreases s.len(),
{
    s.len() == 0 || (is_word_char(s[0]) && word_chars(s.drop_first()))
}

proof fn lemma_word_chars_index(s: Seq<char>, j: int)
    requires
        word_chars(s),
        0 <= j < s.len(),
    ensures
        is_word_char(s[j]),
    decreases s.len(),
{
    if j > 0 {
        lemma_word_chars_index(s.drop_first(), j - 1);
    }
}

proof fn lemma_word_char_plain(c: char)
    requires
        is_word_char(c),
    ensures
        !is_ws(c),
        c != '=',
        c != '\n',
        c != '[',
        c != ']',
        c != ';',
        c != '#',
        c < 'A' || 'Z' < c,
{
}

/// A text with no white space at either end is its own trim.
proof fn lemma_trim_plain(s: Seq<char>)
    requires
        s.len() > 0,
        !is_ws(s[0]),
        !is_ws(s.last()),
    ensures
        trim(s) == s,
{
    assert(ws_prefix_len(s) == 0);
    let t = crate::text::trim_start(s);
    assert(t =~= s);
    assert(ws_suffix_len(t) == 0);
    assert(crate::text::trim_end(t) =~= t);
}

proof fn lemma_trim_word(s: Seq<char>)
    requires
        s.len() > 0,
        word_chars(s),
    ensures
        trim(s) == s,
{
    lemma_word_chars_index(s, 0);
    lemma_word_chars_index(s, s.len() - 1);
    lemma_word_char_plain(s[0]);
    lemma_word_char_plain(s.last());
    lemma_trim_plain(s);
}

/// A text without line breaks.
pub open spec fn no_break(s: Seq<char>) -> bool {
    forall|i: int| 0 <= i < s.len() ==> s[i] != '\n'
}

/// Appending text without line breaks extends the last line.
proof fn lemma_split_append(s: Seq<char>, t: Seq<char>)
    requires
        forall|i: int| 0 <= i < t.len() ==> t[i] != '\n',
    ensures
        split_lines(s + t) == split_lines(s).update(
            split_lines(s).len() - 1,
            split_lines(s).last() + t,
        ),
    decreases t.len(),
{
    lemma_split_lines_nonempty(s);
    let ss = split_lines(s);
    if t.len() == 0 {
        assert(s + t =~= s);
        assert(ss.last() + t =~= ss.last());
        assert(ss.update(ss.len() - 1, ss.last()) =~= ss);
    } else {
        let t0 = t.drop_last();
        lemma_split_append(s, t0);
        assert((s + t).drop_last() =~= s + t0);
        assert((s + t).last() == t.last());
        let prev = split_lines(s + t0);
        assert(prev.last() =~= ss.last() + t0);
        assert(prev.last().push(t.last()) =~= ss.last() + t);
        assert(prev.update(prev.len() - 1, prev.last().push(t.last())) =~= ss.update(
            ss.len() - 1,
            ss.last() + t,
        ));
    }
}

/// The lines of a text of lines ended by line breaks: those lines, then
/// an empty one.
pub proof fn lemma_split_lines_text(ls: Seq<Seq<char>>)
    requires
        forall|k: int| 0 <= k < ls.len() ==> no_break(#[trigger] ls[k]),
    ensures
        split_lines(lines_text(ls)) == ls.push(Seq::<char>::empty()),
    decreases ls.len(),
{
    if ls.len() == 0 {
        assert(split_lines(Seq::<char>::empty()) =~= seq![Seq::<char>::empty()]);
        assert(ls.push(Seq::<char>::empty()) =~= seq![Seq::<char>::empty()]);
    } else {
        let front = ls.drop_last();
        assert forall|k: int| 0 <= k < front.len() implies no_break(#[trigger] front[k]) by {
            assert(front[k] == ls[k]);
        }
        lemma_split_lines_text(front);
        assert(no_break(ls[ls.len() - 1]));
        let t = lines_text(front);
        lemma_split_append(t, ls.last());
        let u = t + ls.last();
        let full = u + seq!['\n'];
        assert(lines_text(ls) == full);
        assert(full.drop_last() =~= u);
        let su = split_lines(u);
        assert(su =~= front.push(ls.last()));
        assert(split_lines(full) == su.push(Seq::<char>::empty()));
        assert(front.push(ls.last()) =~= ls);
    }
}

/// A `key=value` line sets that value in the current section.
proof fn lemma_setting_line_step(st: (AppConfig, Seq<char>), key: Seq<char>, value: Seq<char>)
    requires
        key.len() > 0,
        value.len() > 0,
        word_chars(key),
        word_chars(value),
    ensures
        config_line_step(st, setting_line(key, value)) == (
            apply_setting(st.0, st.1, key, value),
            st.1,
        ),
{
    let line = setting_line(key, value);
    lemma_word_chars_index(key, 0);
    lemma_word_char_plain(key[0]);
    lemma_word_chars_index(value, value.len() - 1);
    lemma_word_char_plain(value.last());
    assert(line[0] == key[0]);
    assert(line.last() == value.last());
    lemma_trim_plain(line);
    assert forall|j: int| 0 <= j < key.len() implies line[j] != '=' by {
        lemma_word_chars_index(key, j);
        lemma_word_char_plain(key[j]);
    }
    lemma_first_index_of(line, '=', key.len() as int);
    assert(line.subrange(0, key.len() as int) =~= key);
    assert(line.subrange(key.len() + 1int, line.len() as int) =~= value);
    lemma_trim_word(key);
    lemma_trim_word(value);
}

/// A `[name]` line opens that section and changes no setting.
proof fn lemma_section_line_step(st: (AppConfig, Seq<char>), name: Seq<char>)
    requires
        name.len() > 0,
        word_chars(name),
    ensures
        config_line_step(st, section_line(name)) == (st.0, name),
{
    let line = section_line(name);
    assert(line[0] == '[');
    assert(line.last() == ']');
    lemma_trim_plain(line);
    assert(line.subrange(1, line.len() - 1) =~= name);
    lemma_trim_word(name);
}

/// An empty line changes nothing.
proof fn lemma_blank_line_step(st: (AppConfig, Seq<char>))
    ensures
        config_line_step(st, Seq::<char>::empty()) == st,
{
    assert(trim(Seq::<char>::empty()).len() == 0);
}

/// The value written for a switch reads back as that switch.
pub proof fn lemma_bool_round_trip(b: bool)
    ensures
        parse_bool_spec(bool_text(b)) == Some(b),
{
    reveal_strlit("true");
    reveal_strlit("yes");
    reveal_strlit("on");
    reveal_strlit("1");
    reveal_strlit("false");
    if !b {
        lemma_eq_ic_len("false"@, "true"@);
        lemma_eq_ic_len("false"@, "yes"@);
        lemma_eq_ic_len("false"@, "on"@);
    }
}

/// Digits are word characters.
proof fn lemma_digits_words(s: Seq<char>)
    requires
        crate::text::all_digits(s),
    ensures
        word_chars(s),
    decreases s.len(),
{
    if s.len() > 0 {
        assert(crate::text::is_digit(s[0]));
        let t = s.drop_first();
        assert forall|i: int| 0 <= i < t.len() implies crate::text::is_digit(#[trigger] t[i]) by {
            assert(t[i] == s[i + 1]);
        }
        lemma_digits_words(t);
    }
}

/// The names and the fixed values of the settings text are non-empty runs
/// of word characters.
proof fn lemma_literal_words()
    ensures
        word_chars("hint_icon_theme"@),
        "hint_icon_theme"@.len() > 0,
        word_chars("language"@),
        "language"@.len() > 0,
        word_chars("display_mode"@),
        "display_mode"@.len() > 0,
        word_chars("home_game_limit"@),
        "home_game_limit"@.len() > 0,
        word_chars("idle_frame_rate_reduction_enabled"@),
        "idle_frame_rate_reduction_enabled"@.len() > 0,
        word_chars("background_home_wake_enabled"@),
        "background_home_wake_enabled"@.len() > 0,
        word_chars("controller_vibration_enabled"@),
        "controller_vibration_enabled"@.len() > 0,
        word_chars("detect_steam_games"@),
        "detect_steam_games"@.len() > 0,
        word_chars("detect_epic_games"@),
        "detect_epic_games"@.len() > 0,
        word_chars("detect_xbox_games"@),
        "detect_xbox_games"@.len() > 0,
        word_chars("steam_client_state_logging_enabled"@),
        "steam_client_state_logging_enabled"@.len() > 0,
        word_chars("ui"@),
        "ui"@.len() > 0,
        word_chars("games"@),
        "games"@.len() > 0,
        word_chars("debug"@),
        "debug"@.len() > 0,
        word_chars("xbox"@),
        "xbox"@.len() > 0,
        word_chars("playstation"@),
        "playstation"@.len() > 0,
        word_chars("auto"@),
        "auto"@.len() > 0,
        word_chars("english"@),
        "english"@.len() > 0,
        word_chars("simplified_chinese"@),
        "simplified_chinese"@.len() > 0,
        word_chars("fullscreen"@),
        "fullscreen"@.len() > 0,
        word_chars("windowed"@),
        "windowed"@.len() > 0,
        word_chars("unlimited"@),
        "unlimited"@.len() > 0,
        word_chars("true"@),
        "true"@.len() > 0,
        word_chars("false"@),
        "false"@.len() > 0,
        word_chars("off"@),
        "off"@.len() > 0,
        word_chars("short_press"@),
        "short_press"@.len() > 0,
        word_chars("long_press"@),
        "long_press"@.len() > 0,
{
    reveal_strlit("hint_icon_theme");
    reveal_strlit("language");
    reveal_strlit("display_mode");
    reveal_strlit("home_game_limit");
    reveal_strlit("idle_frame_rate_reduction_enabled");
    reveal_strlit("background_home_wake_enabled");
    reveal_strlit("controller_vibration_enabled");
    reveal_strlit("detect_steam_games");
    reveal_strlit("detect_epic_games");
    reveal_strlit("detect_xbox_games");
    reveal_strlit("steam_client_state_logging_enabled");
    reveal_strlit("ui");
    reveal_strlit("games");
    reveal_strlit("debug");
    reveal_strlit("xbox");
    reveal_strlit("playstation");
    reveal_strlit("auto");
    reveal_strlit("english");
    reveal_strlit("simplified_chinese");
    reveal_strlit("fullscreen");
    reveal_strlit("windowed");
    reveal_strlit("unlimited");
    reveal_strlit("true");
    reveal_strlit("false");
    reveal_strlit("off");
    reveal_strlit("short_press");
    reveal_strlit("long_press");
    reveal_with_fuel(word_chars, 36);
    assert(word_chars("hint_icon_theme"@) && "hint_icon_theme"@.len() > 0);
    assert(word_chars("language"@) && "language"@.len() > 0);
    assert(word_chars("display_mode"@) && "display_mode"@.len() > 0);
    assert(word_chars("home_game_limit"@) && "home_game_limit"@.len() > 0);
    assert(word_chars("idle_frame_rate_reduction_enabled"@) && "idle_frame_rate_reduction_enabled"@.len() > 0);
    assert(word_chars("background_home_wake_enabled"@) && "background_home_wake_enabled"@.len() > 0);
    assert(word_chars("controller_vibration_enabled"@) && "controller_vibration_enabled"@.len() > 0);
    assert(word_chars("detect_steam_games"@) && "detect_steam_games"@.len() > 0);
    assert(word_chars("detect_epic_games"@) && "detect_epic_games"@.len() > 0);
    assert(word_chars("detect_xbox_games"@) && "detect_xbox_games"@.len() > 0);
    assert(word_chars("steam_client_state_logging_enabled"@) && "steam_client_state_logging_enabled"@.len() > 0);
    assert(word_chars("ui"@) && "ui"@.len() > 0);
    assert(word_chars("games"@) && "games"@.len() > 0);
    assert(word_chars("debug"@) && "debug"@.len() > 0);
    assert(word_chars("xbox"@) && "xbox"@.len() > 0);
    assert(word_chars("playstation"@) && "playstation"@.len() > 0);
    assert(word_chars("auto"@) && "auto"@.len() > 0);
    assert(word_chars("english"@) && "english"@.len() > 0);
    assert(word_chars("simplified_chinese"@) && "simplified_chinese"@.len() > 0);
    assert(word_chars("fullscreen"@) && "fullscreen"@.len() > 0);
    assert(word_chars("windowed"@) && "windowed"@.len() > 0);
    assert(word_chars("unlimited"@) && "unlimited"@.len() > 0);
    assert(word_chars("true"@) && "true"@.len() > 0);
    assert(word_chars("false"@) && "false"@.len() > 0);
    assert(word_chars("off"@) && "off"@.len() > 0);
    assert(word_chars("short_press"@) && "short_press"@.len() > 0);
    assert(word_chars("long_press"@) && "long_press"@.len() > 0);
}

/// Every value written for a configuration is a non-empty run of word
/// characters.
proof fn lemma_value_words(c: AppConfig)
    ensures
        word_chars(prompt_theme_config_value(c.hint_icon_theme)),
        prompt_theme_config_value(c.hint_icon_theme).len() > 0,
        word_chars(language_setting_config_value(c.language)),
        language_setting_config_value(c.language).len() > 0,
        word_chars(display_mode_config_value(c.display_mode_setting)),
        display_mode_config_value(c.display_mode_setting).len() > 0,
        word_chars(home_game_limit_config_value(c.home_game_limit)),
        home_game_limit_config_value(c.home_game_limit).len() > 0,
        word_chars(home_wake_config_value(c.background_home_wake_mode)),
        home_wake_config_value(c.background_home_wake_mode).len() > 0,
        forall|b: bool| #[trigger] word_chars(bool_text(b)) && bool_text(b).len() > 0,
{
    lemma_literal_words();
    match c.home_game_limit {
        HomeGameLimit::Limited(l) => {
            crate::text::lemma_decimal_digits(clamp_limit(l as int) as nat);
            lemma_digits_words(decimal(clamp_limit(l as int) as nat));
        },
        HomeGameLimit::Unlimited => {},
    }
}

/// A configuration as it is stored: its home game limit clamped into the
/// offered range, everything else as it is.
pub open spec fn stored_config(c: AppConfig) -> AppConfig {
    AppConfig { home_game_limit: stored_home_game_limit(c.home_game_limit), ..c }
}

proof fn lemma_setting_line_no_break(key: Seq<char>, value: Seq<char>)
    requires
        word_chars(key),
        word_chars(value),
    ensures
        no_break(setting_line(key, value)),
{
    let line = setting_line(key, value);
    assert forall|i: int| 0 <= i < line.len() implies line[i] != '\n' by {
        if i < key.len() {
            lemma_word_chars_index(key, i);
        } else if i > key.len() {
            lemma_word_chars_index(value, i - key.len() - 1);
        }
    }
}

proof fn lemma_section_line_no_break(name: Seq<char>)
    requires
        word_chars(name),
    ensures
        no_break(section_line(name)),
{
    let line = section_line(name);
    assert forall|i: int| 0 <= i < line.len() implies line[i] != '\n' by {
        if 0 < i < line.len() - 1 {
            lemma_word_chars_index(name, i - 1);
        }
    }
}

proof fn lemma_from_lines_prefix(ls: Seq<Seq<char>>, k: int)
    requires
        0 <= k < ls.len(),
    ensures
        config_from_lines(ls.subrange(0, k + 1)) == config_line_step(
            config_from_lines(ls.subrange(0, k)),
            ls[k],
        ),
{
    assert(ls.subrange(0, k + 1).drop_last() =~= ls.subrange(0, k));
}

proof fn lemma_apply_hint_icon_theme(x: AppConfig, c: AppConfig)
    ensures
        apply_setting(x, "ui"@, "hint_icon_theme"@, prompt_theme_config_value(c.hint_icon_theme)) == (AppConfig { hint_icon_theme: c.hint_icon_theme, ..x }),
{
    reveal_strlit("hint_icon_theme");
    reveal_strlit("ui");
    lemma_prompt_theme_round_trip(c.hint_icon_theme);
}

proof fn lemma_apply_language(x: AppConfig, c: AppConfig)
    ensures
        apply_setting(x, "ui"@, "language"@, language_setting_config_value(c.language)) == (AppConfig { language: c.language, ..x }),
{
    reveal_strlit("hint_icon_theme");
    reveal_strlit("language");
    reveal_strlit("ui");
    lemma_eq_ic_len("language"@, "hint_icon_theme"@);
    lemma_language_setting_round_trip(c.language);
}

proof fn lemma_apply_display_mode(x: AppConfig, c: AppConfig)
    ensures
        apply_setting(x, "ui"@, "display_mode"@, display_mode_config_value(c.display_mode_setting)) == (AppConfig { display_mode_setting: c.display_mode_setting, ..x }),
{
    reveal_strlit("display_mode");
    reveal_strlit("hint_icon_theme");
    reveal_strlit("language");
    reveal_strlit("ui");
    lemma_eq_ic_len("display_mode"@, "hint_icon_theme"@);
    lemma_eq_ic_len("display_mode"@, "language"@);
    lemma_display_mode_round_trip(c.display_mode_setting);
}

proof fn lemma_apply_home_game_limit(x: AppConfig, c: AppConfig)
    ensures
        apply_setting(x, "ui"@, "home_game_limit"@, home_game_limit_config_value(c.home_game_limit)) == (AppConfig { home_game_limit: stored_home_game_limit(c.home_game_limit), ..x }),
{
    reveal_strlit("display_mode");
    reveal_strlit("hint_icon_theme");
    reveal_strlit("home_game_limit");
    reveal_strlit("language");
    reveal_strlit("ui");
    lemma_eq_ic_at("home_game_limit"@, "hint_icon_theme"@, 1);
    lemma_eq_ic_len("home_game_limit"@, "language"@);
    lemma_eq_ic_len("home_game_limit"@, "display_mode"@);
    lemma_home_game_limit_round_trip(c.home_game_limit);
}

proof fn lemma_apply_idle_frame_rate_reduction_enabled(x: AppConfig, c: AppConfig)
    ensures
        apply_setting(x, "ui"@, "idle_frame_rate_reduction_enabled"@, bool_text(c.idle_frame_rate_reduction_enabled)) == (AppConfig { idle_frame_rate_reduction_enabled: c.idle_frame_rate_reduction_enabled, ..x }),
{
    reveal_strlit("display_mode");
    reveal_strlit("hint_icon_theme");
    reveal_strlit("home_game_limit");
    reveal_strlit("idle_frame_rate_reduction_enabled");
    reveal_strlit("language");
    reveal_strlit("ui");
    lemma_eq_ic_len("idle_frame_rate_reduction_enabled"@, "hint_icon_theme"@);
    lemma_eq_ic_len("idle_frame_rate_reduction_enabled"@, "language"@);
    lemma_eq_ic_len("idle_frame_rate_reduction_enabled"@, "display_mode"@);
    lemma_eq_ic_len("idle_frame_rate_reduction_enabled"@, "home_game_limit"@);
    lemma_bool_round_trip(c.idle_frame_rate_reduction_enabled);
}

proof fn lemma_apply_background_home_wake_enabled(x: AppConfig, c: AppConfig)
    ensures
        apply_setting(x, "ui"@, "background_home_wake_enabled"@, home_wake_config_value(c.background_home_wake_mode)) == (AppConfig { background_home_wake_mode: c.background_home_wake_mode, ..x }),
{
    reveal_strlit("background_home_wake_enabled");
    reveal_strlit("display_mode");
    reveal_strlit("hint_icon_theme");
    reveal_strlit("home_game_limit");
    reveal_strlit("idle_frame_rate_reduction_enabled");
    reveal_strlit("language");
    reveal_strlit("ui");
    lemma_eq_ic_len("background_home_wake_enabled"@, "hint_icon_theme"@);
    lemma_eq_ic_len("background_home_wake_enabled"@, "language"@);
    lemma_eq_ic_len("background_home_wake_enabled"@, "display_mode"@);
    lemma_eq_ic_len("background_home_wake_enabled"@, "home_game_limit"@);
    lemma_eq_ic_len("background_home_wake_enabled"@, "idle_frame_rate_reduction_enabled"@);
    lemma_home_wake_round_trip(c.background_home_wake_mode);
}

proof fn lemma_apply_controller_vibration_enabled(x: AppConfig, c: AppConfig)
    ensures
        apply_setting(x, "ui"@, "controller_vibration_enabled"@, bool_text(c.controller_vibration_enabled)) == (AppConfig { controller_vibration_enabled: c.controller_vibration_enabled, ..x }),
{
    reveal_strlit("background_home_wake_enabled");
    reveal_strlit("controller_vibration_enabled");
    reveal_strlit("display_mode");
    reveal_strlit("hint_icon_theme");
    reveal_strlit("home_game_limit");
    reveal_strlit("idle_frame_rate_reduction_enabled");
    reveal_strlit("language");
    reveal_strlit("ui");
    lemma_eq_ic_len("controller_vibration_enabled"@, "hint_icon_theme"@);
    lemma_eq_ic_len("controller_vibration_enabled"@, "language"@);
    lemma_eq_ic_len("controller_vibration_enabled"@, "display_mode"@);
    lemma_eq_ic_len("controller_vibration_enabled"@, "home_game_limit"@);
    lemma_eq_ic_len("controller_vibration_enabled"@, "idle_frame_rate_reduction_enabled"@);
    lemma_eq_ic_at("controller_vibration_enabled"@, "background_home_wake_enabled"@, 0);
    lemma_bool_round_trip(c.controller_vibration_enabled);
}

proof fn lemma_apply_detect_steam_games(x: AppConfig, c: AppConfig)
    ensures
        apply_setting(x, "games"@, "detect_steam_games"@, bool_text(c.game_scan_options.detect_steam_games)) == (AppConfig { game_scan_options: GameScanOptions { detect_steam_games: c.game_scan_options.detect_steam_games, ..x.game_scan_options }, ..x }),
{
    reveal_strlit("detect_steam_games");
    reveal_strlit("games");
    reveal_strlit("ui");
    lemma_eq_ic_len("games"@, "ui"@);
    lemma_bool_round_trip(c.game_scan_options.detect_steam_games);
}

proof fn lemma_apply_detect_epic_games(x: AppConfig, c: AppConfig)
    ensures
        apply_setting(x, "games"@, "detect_epic_games"@, bool_text(c.game_scan_options.detect_epic_games)) == (AppConfig { game_scan_options: GameScanOptions { detect_epic_games: c.game_scan_options.detect_epic_games, ..x.game_scan_options }, ..x }),
{
    reveal_strlit("detect_epic_games");
    reveal_strlit("detect_steam_games");
    reveal_strlit("games");
    reveal_strlit("ui");
    lemma_eq_ic_len("games"@, "ui"@);
    lemma_eq_ic_len("detect_epic_games"@, "detect_steam_games"@);
    lemma_bool_round_trip(c.game_scan_options.detect_epic_games);
}

proof fn lemma_apply_detect_xbox_games(x: AppConfig, c: AppConfig)
    ensures
        apply_setting(x, "games"@, "detect_xbox_games"@, bool_text(c.game_scan_options.detect_xbox_games)) == (AppConfig { game_scan_options: GameScanOptions { detect_xbox_games: c.game_scan_options.detect_xbox_games, ..x.game_scan_options }, ..x }),
{
    reveal_strlit("detect_epic_games");
    reveal_strlit("detect_steam_games");
    reveal_strlit("detect_xbox_games");
    reveal_strlit("games");
    reveal_strlit("ui");
    lemma_eq_ic_len("games"@, "ui"@);
    lemma_eq_ic_len("detect_xbox_games"@, "detect_steam_games"@);
    lemma_eq_ic_at("detect_xbox_games"@, "detect_epic_games"@, 7);
    lemma_bool_round_trip(c.game_scan_options.detect_xbox_games);
}

proof fn lemma_apply_steam_client_state_logging_enabled(x: AppConfig, c: AppConfig)
    ensures
        apply_setting(x, "debug"@, "steam_client_state_logging_enabled"@, bool_text(c.steam_client_state_logging_enabled)) == (AppConfig { steam_client_state_logging_enabled: c.steam_client_state_logging_enabled, ..x }),
{
    reveal_strlit("debug");
    reveal_strlit("games");
    reveal_strlit("steam_client_state_logging_enabled");
    reveal_strlit("ui");
    lemma_eq_ic_len("debug"@, "ui"@);
    lemma_eq_ic_at("debug"@, "games"@, 0);
    lemma_bool_round_trip(c.steam_client_state_logging_enabled);
}

/// The settings read back from the `[ui]` section of the text written for `c`.
pub open spec fn read_ui_section(c: AppConfig) -> AppConfig {
    AppConfig {
        hint_icon_theme: c.hint_icon_theme,
        language: c.language,
        display_mode_setting: c.display_mode_setting,
        home_game_limit: stored_home_game_limit(c.home_game_limit),
        idle_frame_rate_reduction_enabled: c.idle_frame_rate_reduction_enabled,
        background_home_wake_mode: c.background_home_wake_mode,
        controller_vibration_enabled: c.controller_vibration_enabled,
        ..default_config()
    }
}

/// The settings read back once the `[games]` section is read too.
pub open spec fn read_games_section(c: AppConfig) -> AppConfig {
    AppConfig { game_scan_options: c.game_scan_options, ..read_ui_section(c) }
}

proof fn lemma_settings_text_lines(c: AppConfig)
    ensures
        split_lines(serialized_config(c)) == settings_lines(c).push(Seq::<char>::empty()),
{
    let ls = settings_lines(c);
    lemma_literal_words();
    lemma_value_words(c);
    lemma_section_line_no_break("ui"@);
    lemma_section_line_no_break("games"@);
    lemma_section_line_no_break("debug"@);
    lemma_setting_line_no_break("hint_icon_theme"@, prompt_theme_config_value(c.hint_icon_theme));
    lemma_setting_line_no_break("language"@, language_setting_config_value(c.language));
    lemma_setting_line_no_break("display_mode"@, display_mode_config_value(c.display_mode_setting));
    lemma_setting_line_no_break("home_game_limit"@, home_game_limit_config_value(c.home_game_limit));
    lemma_setting_line_no_break(
        "idle_frame_rate_reduction_enabled"@,
        bool_text(c.idle_frame_rate_reduction_enabled),
    );
    lemma_setting_line_no_break(
        "background_home_wake_enabled"@,
        home_wake_config_value(c.background_home_wake_mode),
    );
    lemma_setting_line_no_break("controller_vibration_enabled"@, bool_text(c.controller_vibration_enabled));
    lemma_setting_line_no_break("detect_steam_games"@, bool_text(c.game_scan_options.detect_steam_games));
    lemma_setting_line_no_break("detect_epic_games"@, bool_text(c.game_scan_options.detect_epic_games));
    lemma_setting_line_no_break("detect_xbox_games"@, bool_text(c.game_scan_options.detect_xbox_games));
    lemma_setting_line_no_break(
        "steam_client_state_logging_enabled"@,
        bool_text(c.steam_client_state_logging_enabled),
    );
    assert(no_break(Seq::<char>::empty()));
    assert forall|k: int| 0 <= k < ls.len() implies no_break(#[trigger] ls[k]) by {
        if k == 0 {} else if k == 1 {} else if k == 2 {} else if k == 3 {} else if k == 4 {}
        else if k == 5 {} else if k == 6 {} else if k == 7 {} else if k == 8 {}
        else if k == 9 {} else if k == 10 {} else if k == 11 {} else if k == 12 {}
        else if k == 13 {} else if k == 14 {} else {}
    }
    lemma_split_lines_text(ls);
}

#[verifier::spinoff_prover]
#[verifier::rlimit(60)]
proof fn lemma_read_ui_section(c: AppConfig)
    ensures
        config_from_lines(settings_lines(c).push(Seq::<char>::empty()).subrange(0, 9)) == (
            read_ui_section(c),
            "ui"@,
        ),
{
    let lines = settings_lines(c).push(Seq::<char>::empty());
    lemma_literal_words();
    lemma_value_words(c);
    assert(lines.subrange(0, 0) =~= Seq::<Seq<char>>::empty());
    let st0 = config_from_lines(lines.subrange(0, 0));
    let x0 = default_config();
    lemma_from_lines_prefix(lines, 0);
    lemma_section_line_step(st0, "ui"@);
    let st1 = (x0, "ui"@);
    lemma_from_lines_prefix(lines, 1);
    lemma_setting_line_step(st1, "hint_icon_theme"@, prompt_theme_config_value(c.hint_icon_theme));
    lemma_apply_hint_icon_theme(x0, c);
    let x2 = AppConfig { hint_icon_theme: c.hint_icon_theme, ..x0 };
    lemma_from_lines_prefix(lines, 2);
    lemma_setting_line_step((x2, "ui"@), "language"@, language_setting_config_value(c.language));
    lemma_apply_language(x2, c);
    let x3 = AppConfig { language: c.language, ..x2 };
    lemma_from_lines_prefix(lines, 3);
    lemma_setting_line_step((x3, "ui"@), "display_mode"@, display_mode_config_value(c.display_mode_setting));
    lemma_apply_display_mode(x3, c);
    let x4 = AppConfig { display_mode_setting: c.display_mode_setting, ..x3 };
    lemma_from_lines_prefix(lines, 4);
    lemma_setting_line_step((x4, "ui"@), "home_game_limit"@, home_game_limit_config_value(c.home_game_limit));
    lemma_apply_home_game_limit(x4, c);
    let x5 = AppConfig { home_game_limit: stored_home_game_limit(c.home_game_limit), ..x4 };
    lemma_from_lines_prefix(lines, 5);
    lemma_setting_line_step(
        (x5, "ui"@),
        "idle_frame_rate_reduction_enabled"@,
        bool_text(c.idle_frame_rate_reduction_enabled),
    );
    lemma_apply_idle_frame_rate_reduction_enabled(x5, c);
    let x6 = AppConfig { idle_frame_rate_reduction_enabled: c.idle_frame_rate_reduction_enabled, ..x5 };
    lemma_from_lines_prefix(lines, 6);
    lemma_setting_line_step(
        (x6, "ui"@),
        "background_home_wake_enabled"@,
        home_wake_config_value(c.background_home_wake_mode),
    );
    lemma_apply_background_home_wake_enabled(x6, c);
    let x7 = AppConfig { background_home_wake_mode: c.background_home_wake_mode, ..x6 };
    lemma_from_lines_prefix(lines, 7);
    lemma_setting_line_step(
        (x7, "ui"@),
        "controller_vibration_enabled"@,
        bool_text(c.controller_vibration_enabled),
    );
    lemma_apply_controller_vibration_enabled(x7, c);
    let x8 = AppConfig { controller_vibration_enabled: c.controller_vibration_enabled, ..x7 };
    lemma_from_lines_prefix(lines, 8);
    lemma_blank_line_step((x8, "ui"@));
    assert(x8 == read_ui_section(c));
}

#[verifier::spinoff_prover]
proof fn lemma_read_games_section(c: AppConfig)
    ensures
        config_from_lines(settings_lines(c).push(Seq::<char>::empty()).subrange(0, 14)) == (
            read_games_section(c),
            "games"@,
        ),
{
    let lines = settings_lines(c).push(Seq::<char>::empty());
    lemma_literal_words();
    lemma_value_words(c);
    lemma_read_ui_section(c);
    let x8 = read_ui_section(c);
    lemma_from_lines_prefix(lines, 9);
    lemma_section_line_step((x8, "ui"@), "games"@);
    lemma_from_lines_prefix(lines, 10);
    lemma_setting_line_step(
        (x8, "games"@),
        "detect_steam_games"@,
        bool_text(c.game_scan_options.detect_steam_games),
    );
    lemma_apply_detect_steam_games(x8, c);
    let x11 = AppConfig {
        game_scan_options: GameScanOptions {
            detect_steam_games: c.game_scan_options.detect_steam_games,
            ..x8.game_scan_options
        },
        ..x8
    };
    lemma_from_lines_prefix(lines, 11);
    lemma_setting_line_step(
        (x11, "games"@),
        "detect_epic_games"@,
        bool_text(c.game_scan_options.detect_epic_games),
    );
    lemma_apply_detect_epic_games(x11, c);
    let x12 = AppConfig {
        game_scan_options: GameScanOptions {
            detect_epic_games: c.game_scan_options.detect_epic_games,
            ..x11.game_scan_options
        },
        ..x11
    };
    lemma_from_lines_prefix(lines, 12);
    lemma_setting_line_step(
        (x12, "games"@),
        "detect_xbox_games"@,
        bool_text(c.game_scan_options.detect_xbox_games),
    );
    lemma_apply_detect_xbox_games(x12, c);
    let x13 = AppConfig {
        game_scan_options: GameScanOptions {
            detect_xbox_games: c.game_scan_options.detect_xbox_games,
            ..x12.game_scan_options
        },
        ..x12
    };
    lemma_from_lines_prefix(lines, 13);
    lemma_blank_line_step((x13, "games"@));
    assert(x13 == read_games_section(c));
}

/// Reading back the settings text written for a configuration gives that
/// configuration, with its home game limit clamped into the offered range
/// (every other setting exactly as it was).
#[verifier::spinoff_prover]
pub proof fn lemma_settings_text_round_trip(c: AppConfig)
    ensures
        parse_config_spec(serialized_config(c)) == stored_config(c),
{
    let lines = settings_lines(c).push(Seq::<char>::empty());
    lemma_settings_text_lines(c);
    lemma_literal_words();
    lemma_value_words(c);
    lemma_read_games_section(c);
    let x13 = read_games_section(c);
    lemma_from_lines_prefix(lines, 14);
    lemma_section_line_step((x13, "games"@), "debug"@);
    lemma_from_lines_prefix(lines, 15);
    lemma_setting_line_step(
        (x13, "debug"@),
        "steam_client_state_logging_enabled"@,
        bool_text(c.steam_client_state_logging_enabled),
    );
    lemma_apply_steam_client_state_logging_enabled(x13, c);
    let x16 = AppConfig { steam_client_state_logging_enabled: c.steam_client_state_logging_enabled, ..x13 };
    lemma_from_lines_prefix(lines, 16);
    lemma_blank_line_step((x16, "debug"@));
    assert(lines.subrange(0, 17) =~= lines);
    assert(x16 == stored_config(c));
}

/// Word characters are kept by lower-casing.
proof fn lemma_lower_word(s: Seq<char>)
    requires
        word_chars(s),
    ensures
        lower_seq(s) == s,
{
    assert forall|i: int| 0 <= i < s.len() implies lower_seq(s)[i] == s[i] by {
        lemma_word_chars_index(s, i);
    }
    assert(lower_seq(s) =~= s);
}

/// The settings value written for a controller brand reads back as that
/// brand.
pub proof fn lemma_controller_brand_round_trip(brand: crate::input::ControllerBrand)
    ensures
        crate::input::controller_brand_from_ini(crate::input::controller_brand_ini_value(brand))
            == Some(brand),
{
    lemma_literal_words();
    let v = crate::input::controller_brand_ini_value(brand);
    lemma_trim_word(v);
    lemma_lower_word(v);
    reveal_strlit("xbox");
    reveal_strlit("playstation");
    reveal_strlit("ps");
    reveal_strlit("ps5");
    reveal_strlit("dualsense");
    reveal_strlit("dualsence");
    if brand == crate::input::ControllerBrand::PlayStation {
        assert(v.len() != "xbox"@.len());
    }
}

/// A home game limit is found again at its position of the settings list,
/// clamped into the offered range.
pub proof fn lemma_home_game_limit_option_round_trip(limit: HomeGameLimit)
    ensures
        crate::config::home_game_limit_from_option_index(
            crate::config::home_game_limit_option_index(limit),
        ) == stored_home_game_limit(limit),
{
}

/// Every position of the settings list names a limit that lies at that
/// position.
pub proof fn lemma_home_game_limit_index_round_trip(index: int)
    requires
        0 <= index < crate::config::HOME_GAME_LIMIT_OPTION_COUNT,
    ensures
        crate::config::home_game_limit_option_index(
            crate::config::home_game_limit_from_option_index(index),
        ) == index,
{
}

/// Three steps of the wake-up mode cycle come back to the start, and no
/// fewer do.
pub proof fn lemma_home_wake_cycle(
    m0: BackgroundHomeWakeMode,
    m1: BackgroundHomeWakeMode,
    m2: BackgroundHomeWakeMode,
    m3: BackgroundHomeWakeMode,
)
    requires
        crate::config::home_wake_code(m1) as int == (crate::config::home_wake_code(m0) + 1) % 3,
        crate::config::home_wake_code(m2) as int == (crate::config::home_wake_code(m1) + 1) % 3,
        crate::config::home_wake_code(m3) as int == (crate::config::home_wake_code(m2) + 1) % 3,
    ensures
        m3 == m0,
        m1 != m0,
        m2 != m0,
{
}

/// The numeric code of a wake-up mode names that mode again.
pub proof fn lemma_home_wake_code_round_trip(m: BackgroundHomeWakeMode, back: BackgroundHomeWakeMode)
    requires
        crate::config::home_wake_code(back) == crate::config::home_wake_code(m),
    ensures
        back == m,
{
}

} // verus!
