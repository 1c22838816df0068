//! Interface languages and their texts.
use vstd::prelude::*;

use crate::text::{
    chars_of, decimal, eq_str, extend_chars, extend_str, lower_seq, push_decimal, starts_with,
    starts_with_str, string_of, to_ascii_lowercase,
};

verus! {

#[derive(Clone, Copy, Debug, PartialEq, Eq, Structural)]
pub enum AppLanguage {
    English,
    SimplifiedChinese,
}

#[derive(Clone, Copy, Debug, PartialEq, Eq, Structural)]
pub enum AppLanguageSetting {
    Auto,
    English,
    SimplifiedChinese,
}

/// The text of `language` among an English and a Simplified Chinese text.
pub open spec fn pick(language: AppLanguage, en: Seq<char>, zh: Seq<char>) -> Seq<char> {
    match language {
        AppLanguage::English => en,
        AppLanguage::SimplifiedChinese => zh,
    }
}

/// A locale tag with `_` replaced by `-`, lower-cased.
pub open spec fn normalize_locale(locale: Seq<char>) -> Seq<char> {
    lower_seq(locale.map_values(|c: char| if c == '_' { '-' } else { c }))
}

/// The interface language chosen for a system locale tag.
pub open spec fn language_for_locale(locale: Seq<char>) -> AppLanguage {
    let n = normalize_locale(locale);
    if starts_with(n, "zh-cn"@) || starts_with(n, "zh-sg"@) || n == "zh-hans"@ || starts_with(
        n,
        "zh-hans-"@,
    ) || n == "zh"@ {
        AppLanguage::SimplifiedChinese
    } else {
        AppLanguage::English
    }
}

/// A character that is `lower` or its ASCII upper-case form.
pub open spec fn is_letter_ic(c: char, lower: char) -> bool {
    c == lower || (c as int) + 32 == lower as int
}

/// A locale tag that starts with `zh`, a `-` or `_`, then `cn`, in any
/// ASCII case.
pub open spec fn names_mainland_chinese(locale: Seq<char>) -> bool {
    &&& locale.len() >= 5
    &&& is_letter_ic(locale[0], 'z')
    &&& is_letter_ic(locale[1], 'h')
    &&& (locale[2] == '-' || locale[2] == '_')
    &&& is_letter_ic(locale[3], 'c')
    &&& is_letter_ic(locale[4], 'n')
}

proof fn lemma_lower_letter(c: char, lower: char)
    requires
        is_letter_ic(c, lower),
        'a' <= lower <= 'z',
    ensures
        crate::text::lower_char(c) == lower,
{
}

/// Every locale tag for mainland China (`zh-CN`, `zh_CN`, `ZH-cn-x`, ...)
/// gives Simplified Chinese, and a tag that does not start with `z` in
/// either case gives English.
pub proof fn lemma_locale_language(locale: Seq<char>)
    ensures
        names_mainland_chinese(locale) ==> language_for_locale(locale)
            == AppLanguage::SimplifiedChinese,
        locale.len() == 0 || (locale[0] != 'z' && locale[0] != 'Z') ==> language_for_locale(locale)
            == AppLanguage::English,
{
    reveal_strlit("zh-cn");
    reveal_strlit("zh-sg");
    reveal_strlit("zh-hans");
    reveal_strlit("zh-hans-");
    reveal_strlit("zh");
    let m = locale.map_values(|c: char| if c == '_' { '-' } else { c });
    let n = normalize_locale(locale);
    assert(n.len() == locale.len());
    if names_mainland_chinese(locale) {
        lemma_lower_letter(locale[0], 'z');
        lemma_lower_letter(locale[1], 'h');
        lemma_lower_letter(locale[3], 'c');
        lemma_lower_letter(locale[4], 'n');
        assert(m[0] == locale[0]);
        assert(m[1] == locale[1]);
        assert(m[2] == '-');
        assert(m[3] == locale[3]);
        assert(m[4] == locale[4]);
        assert(n[0] == 'z');
        assert(n[1] == 'h');
        assert(n[2] == '-');
        assert(n[3] == 'c');
        assert(n[4] == 'n');
        assert(n.subrange(0, 5) =~= "zh-cn"@);
    }
    if locale.len() > 0 && locale[0] != 'z' && locale[0] != 'Z' {
        assert(m[0] == locale[0] || m[0] == '-');
        assert(n[0] == crate::text::lower_char(m[0]));
        assert(n[0] != 'z');
        assert(n != "zh"@) by {
            if n.len() == 2 {
                assert(n[0] != "zh"@[0]);
            }
        }
        assert(n != "zh-hans"@) by {
            if n.len() == 7 {
                assert(n[0] != "zh-hans"@[0]);
            }
        }
        assert(!starts_with(n, "zh-cn"@)) by {
            if n.len() >= 5 {
                assert(n.subrange(0, 5)[0] == n[0]);
            }
        }
        assert(!starts_with(n, "zh-sg"@)) by {
            if n.len() >= 5 {
                assert(n.subrange(0, 5)[0] == n[0]);
            }
        }
        assert(!starts_with(n, "zh-hans-"@)) by {
            if n.len() >= 8 {
                assert(n.subrange(0, 8)[0] == n[0]);
            }
        }
    }
}

/// A character of a locale tag that matches `q` of a lower-case pattern:
/// the letter in either ASCII case, and `-` or `_` for `-`.
pub open spec fn tag_char_matches(c: char, q: char) -> bool {
    if q == '-' {
        c == '-' || c == '_'
    } else {
        is_letter_ic(c, q)
    }
}

/// A locale tag that starts with the lower-case pattern `p`, up to ASCII
/// case and with `_` for `-`.
pub open spec fn tag_starts_with(locale: Seq<char>, p: Seq<char>) -> bool {
    p.len() <= locale.len() && forall|i: int| 0 <= i < p.len() ==> tag_char_matches(#[trigger] locale[i], p[i])
}

/// The locale tags of Simplified Chinese: `zh-cn...`, `zh-sg...`,
/// `zh-hans`, `zh-hans-...` and `zh`, up to ASCII case and with `_` for `-`.
pub open spec fn is_simplified_chinese_tag(locale: Seq<char>) -> bool {
    ||| tag_starts_with(locale, "zh-cn"@)
    ||| tag_starts_with(locale, "zh-sg"@)
    ||| (locale.len() == 7 && tag_starts_with(locale, "zh-hans"@))
    ||| tag_starts_with(locale, "zh-hans-"@)
    ||| (locale.len() == 2 && tag_starts_with(locale, "zh"@))
}

pub open spec fn is_pattern_char(q: char) -> bool {
    ('a' <= q && q <= 'z') || q == '-'
}

proof fn lemma_tag_char(c: char, q: char)
    requires
        is_pattern_char(q),
    ensures
        (crate::text::lower_char(if c == '_' { '-' } else { c }) == q) == tag_char_matches(c, q),
{
}

proof fn lemma_tag_prefix(locale: Seq<char>, p: Seq<char>)
    requires
        forall|i: int| 0 <= i < p.len() ==> is_pattern_char(#[trigger] p[i]),
    ensures
        starts_with(normalize_locale(locale), p) == tag_starts_with(locale, p),
{
    let n = normalize_locale(locale);
    let m = locale.map_values(|c: char| if c == '_' { '-' } else { c });
    assert(n.len() == locale.len());
    assert forall|i: int| 0 <= i < p.len() && i < locale.len() implies (n[i] == p[i]) == tag_char_matches(
        #[trigger] locale[i],
        p[i],
    ) by {
        assert(m[i] == (if locale[i] == '_' { '-' } else { locale[i] }));
        assert(n[i] == crate::text::lower_char(m[i]));
        lemma_tag_char(locale[i], p[i]);
    }
    if p.len() <= n.len() {
        if tag_starts_with(locale, p) {
            assert forall|i: int| 0 <= i < p.len() implies n.subrange(0, p.len() as int)[i] == p[i] by {
                assert(tag_char_matches(locale[i], p[i]));
            }
            assert(n.subrange(0, p.len() as int) =~= p);
        } else {
            let i = choose|i: int| 0 <= i < p.len() && !tag_char_matches(#[trigger] locale[i], p[i]);
            assert(n.subrange(0, p.len() as int)[i] != p[i]);
        }
    }
}

/// The interface language of a locale tag is Simplified Chinese exactly
/// for the Simplified Chinese tags, and English for every other tag.
pub proof fn lemma_locale_language_exact(locale: Seq<char>)
    ensures
        (language_for_locale(locale) == AppLanguage::SimplifiedChinese) == is_simplified_chinese_tag(
            locale,
        ),
        !is_simplified_chinese_tag(locale) ==> language_for_locale(locale) == AppLanguage::English,
{
    reveal_strlit("zh-cn");
    reveal_strlit("zh-sg");
    reveal_strlit("zh-hans");
    reveal_strlit("zh-hans-");
    reveal_strlit("zh");
    let n = normalize_locale(locale);
    assert(n.len() == locale.len());
    lemma_tag_prefix(locale, "zh-cn"@);
    lemma_tag_prefix(locale, "zh-sg"@);
    lemma_tag_prefix(locale, "zh-hans"@);
    lemma_tag_prefix(locale, "zh-hans-"@);
    lemma_tag_prefix(locale, "zh"@);
    assert((n == "zh-hans"@) == (locale.len() == 7 && starts_with(n, "zh-hans"@))) by {
        if locale.len() == 7 && starts_with(n, "zh-hans"@) {
            assert(n =~= n.subrange(0, 7));
        }
    }
    assert((n == "zh"@) == (locale.len() == 2 && starts_with(n, "zh"@))) by {
        if locale.len() == 2 && starts_with(n, "zh"@) {
            assert(n =~= n.subrange(0, 2));
        }
    }
}

/// The achievement progress line, e.g. `3/10 achievements`.
pub open spec fn achievement_progress_text(
    language: AppLanguage,
    unlocked: Option<u32>,
    total: u32,
) -> Seq<char> {
    let count = match unlocked {
        Some(u) => decimal(u as nat),
        None => "--"@,
    };
    count + "/"@ + decimal(total as nat) + pick(language, " achievements"@, " 个成就"@)
}

/// The locale reported by the operating system.
///
/// Calls `sys_locale::get_locale`. Nothing is stated of the result: it
/// depends on the environment of the running process.
#[verifier::external_body]
fn system_locale() -> Option<String> {
    sys_locale::get_locale()
}

impl AppLanguageSetting {
    /// The concrete language; `Auto` follows the system locale.
    pub fn resolve(self) -> (r: AppLanguage)
        ensures
            self == AppLanguageSetting::English ==> r == AppLanguage::English,
            self == AppLanguageSetting::SimplifiedChinese ==> r == AppLanguage::SimplifiedChinese,
    {
        match self {
            AppLanguageSetting::Auto => AppLanguage::detect_system(),
            AppLanguageSetting::English => AppLanguage::English,
            AppLanguageSetting::SimplifiedChinese => AppLanguage::SimplifiedChinese,
        }
    }

    /// The next setting in the cycle Auto, English, Simplified Chinese.
    pub fn next(self) -> (r: Self)
        ensures
            r == match self {
                AppLanguageSetting::Auto => AppLanguageSetting::English,
                AppLanguageSetting::English => AppLanguageSetting::SimplifiedChinese,
                AppLanguageSetting::SimplifiedChinese => AppLanguageSetting::Auto,
            },
    {
        match self {
            AppLanguageSetting::Auto => AppLanguageSetting::English,
            AppLanguageSetting::English => AppLanguageSetting::SimplifiedChinese,
            AppLanguageSetting::SimplifiedChinese => AppLanguageSetting::Auto,
        }
    }

    pub fn as_config_value(self) -> (r: &'static str)
        ensures
            r@ == language_setting_config_value(self),
    {
        match self {
            AppLanguageSetting::Auto => "auto",
            AppLanguageSetting::English => "english",
            AppLanguageSetting::SimplifiedChinese => "simplified_chinese",
        }
    }

    pub fn from_config_value(value: &str) -> (r: Option<Self>)
        ensures
            r == language_setting_from_config(value@),
    {
        let v = chars_of(value);
        Self::from_config_chars(&v)
    }

    pub fn from_config_chars(v: &Vec<char>) -> (r: Option<Self>)
        ensures
            r == language_setting_from_config(v@),
    {
        if crate::text::eq_ic_str(v, "auto") {
            Some(AppLanguageSetting::Auto)
        } else if crate::text::eq_ic_str(v, "english") || crate::text::eq_ic_str(v, "en") {
            Some(AppLanguageSetting::English)
        } else if crate::text::eq_ic_str(v, "simplified_chinese") || crate::text::eq_ic_str(
            v,
            "simplified-chinese",
        ) || crate::text::eq_ic_str(v, "zh-cn") || crate::text::eq_ic_str(v, "schinese") {
            Some(AppLanguageSetting::SimplifiedChinese)
        } else {
            None
        }
    }

    pub fn display_text(self, language: AppLanguage) -> (r: &'static str)
        ensures
            r@ == match self {
                AppLanguageSetting::Auto => pick(language, "Auto"@, "自动"@),
                AppLanguageSetting::English => pick(language, "English"@, "英文"@),
                AppLanguageSetting::SimplifiedChinese => pick(
                    language,
                    "Simplified Chinese"@,
                    "简体中文"@,
                ),
            },
    {
        match self {
            AppLanguageSetting::Auto => language.auto_text(),
            AppLanguageSetting::English => language.english_text(),
            AppLanguageSetting::SimplifiedChinese => language.simplified_chinese_text(),
        }
    }
}

/// The value written to the settings file for a language setting.
pub open spec fn language_setting_config_value(setting: AppLanguageSetting) -> Seq<char> {
    match setting {
        AppLanguageSetting::Auto => "auto"@,
        AppLanguageSetting::English => "english"@,
        AppLanguageSetting::SimplifiedChinese => "simplified_chinese"@,
    }
}

/// The language setting named by a settings-file value, compared without case.
pub open spec fn language_setting_from_config(v: Seq<char>) -> Option<AppLanguageSetting> {
    if crate::text::eq_ic(v, "auto"@) {
        Some(AppLanguageSetting::Auto)
    } else if crate::text::eq_ic(v, "english"@) || crate::text::eq_ic(v, "en"@) {
        Some(AppLanguageSetting::English)
    } else if crate::text::eq_ic(v, "simplified_chinese"@) || crate::text::eq_ic(
        v,
        "simplified-chinese"@,
    ) || crate::text::eq_ic(v, "zh-cn"@) || crate::text::eq_ic(v, "schinese"@) {
        Some(AppLanguageSetting::SimplifiedChinese)
    } else {
        None
    }
}

impl AppLanguage {
    /// The language of the system locale, English when there is none.
    pub fn detect_system() -> (r: AppLanguage)
        ensures
            r == AppLanguage::English || r == AppLanguage::SimplifiedChinese,
    {
        match system_locale() {
            Some(locale) => Self::from_system_locale(locale.as_str()),
            None => AppLanguage::English,
        }
    }

    /// The language for a locale tag such as `zh_CN` or `en-US`.
    pub fn from_system_locale(locale: &str) -> (r: AppLanguage)
        ensures
            r == language_for_locale(locale@),
    {
        let raw = chars_of(locale);
        let mut dashed: Vec<char> = Vec::new();
        let mut i: usize = 0;
        while i < raw.len()
            invariant
                i <= raw.len(),
                dashed@ =~= raw@.subrange(0, i as int).map_values(
                    |c: char|
                        if c == '_' {
                            '-'
                        } else {
                            c
                        },
                ),
            decreases raw.len() - i,
        {
            let c = raw[i];
            dashed.push(if c == '_' { '-' } else { c });
            i = i + 1;
            assert(dashed@ =~= raw@.subrange(0, i as int).map_values(
                |c: char|
                    if c == '_' {
                        '-'
                    } else {
                        c
                    },
            ));
        }
        assert(raw@.subrange(0, raw@.len() as int) =~= raw@);
        let n = to_ascii_lowercase(&dashed);
        assert(n@ == normalize_locale(locale@));
        if starts_with_str(&n, "zh-cn") || starts_with_str(&n, "zh-sg") || eq_str(&n, "zh-hans")
            || starts_with_str(&n, "zh-hans-") || eq_str(&n, "zh") {
            AppLanguage::SimplifiedChinese
        } else {
            AppLanguage::English
        }
    }

    /// The progress text of an achievement list.
    pub fn format_achievement_progress(self, unlocked: Option<u32>, total: u32) -> (r: String)
        ensures
            r@ == achievement_progress_text(self, unlocked, total),
    {
        let mut v: Vec<char> = Vec::new();
        match unlocked {
            Some(u) => push_decimal(&mut v, u as u64),
            None => extend_str(&mut v, "--"),
        }
        extend_str(&mut v, "/");
        push_decimal(&mut v, total as u64);
        match self {
            AppLanguage::English => extend_str(&mut v, " achievements"),
            AppLanguage::SimplifiedChinese => extend_str(&mut v, " 个成就"),
        }
        assert(v@ =~= achievement_progress_text(self, unlocked, total));
        string_of(&v)
    }

    pub fn steam_language_key(self) -> (r: &'static str)
        ensures
            r@ == pick(self, "english"@, "schinese"@),
    {
        match self {
            AppLanguage::English => "english",
            AppLanguage::SimplifiedChinese => "schinese",
        }
    }

    pub fn achievement_empty_text(self) -> (r: &'static str)
        ensures
            r@ == pick(self, "No achievements"@, "暂无成就"@),
    {
        match self {
            AppLanguage::English => "No achievements",
            AppLanguage::SimplifiedChinese => "暂无成就",
        }
    }

    pub fn no_description_text(self) -> (r: &'static str)
        ensures
            r@ == pick(self, "No description"@, "暂无描述"@),
    {
        match self {
            AppLanguage::English => "No description",
            AppLanguage::SimplifiedChinese => "暂无描述",
        }
    }

    pub fn back_text(self) -> (r: &'static str)
        ensures
            r@ == pick(self, "Back"@, "返回"@),
    {
        match self {
            AppLanguage::English => "Back",
            AppLanguage::SimplifiedChinese => "返回",
        }
    }

    pub fn close_app_text(self) -> (r: &'static str)
        ensures
            r@ == pick(self, "Close App"@, "关闭应用"@),
    {
        match self {
            AppLanguage::English => "Close App",
            AppLanguage::SimplifiedChinese => "关闭应用",
        }
    }

    pub fn apps_text(self) -> (r: &'static str)
        ensures
            r@ == pick(self, "Apps"@, "应用"@),
    {
        match self {
            AppLanguage::English => "Apps",
            AppLanguage::SimplifiedChinese => "应用",
        }
    }

    pub fn system_text(self) -> (r: &'static str)
        ensures
            r@ == pick(self, "System"@, "系统"@),
    {
        match self {
            AppLanguage::English => "System",
            AppLanguage::SimplifiedChinese => "系统",
        }
    }

    pub fn screen_text(self) -> (r: &'static str)
        ensures
            r@ == pick(self, "Screen"@, "屏幕"@),
    {
        match self {
            AppLanguage::English => "Screen",
            AppLanguage::SimplifiedChinese => "屏幕",
        }
    }

    pub fn sleep_text(self) -> (r: &'static str)
        ensures
            r@ == pick(self, "Sleep"@, "睡眠"@),
    {
        match self {
            AppLanguage::English => "Sleep",
            AppLanguage::SimplifiedChinese => "睡眠",
        }
    }

    pub fn reboot_text(self) -> (r: &'static str)
        ensures
            r@ == pick(self, "Restart"@, "重启"@),
    {
        match self {
            AppLanguage::English => "Restart",
            AppLanguage::SimplifiedChinese => "重启",
        }
    }

    pub fn shutdown_text(self) -> (r: &'static str)
        ensures
            r@ == pick(self, "Shut Down"@, "关机"@),
    {
        match self {
            AppLanguage::English => "Shut Down",
            AppLanguage::SimplifiedChinese => "关机",
        }
    }

    pub fn current_display_mode_text(self) -> (r: &'static str)
        ensures
            r@ == pick(self, "Current"@, "当前"@),
    {
        match self {
            AppLanguage::English => "Current",
            AppLanguage::SimplifiedChinese => "当前",
        }
    }

    pub fn launch_on_startup_text(self) -> (r: &'static str)
        ensures
            r@ == pick(self, "Launch on Startup"@, "开机自启"@),
    {
        match self {
            AppLanguage::English => "Launch on Startup",
            AppLanguage::SimplifiedChinese => "开机自启",
        }
    }

    pub fn background_home_wake_prefix_text(self) -> (r: &'static str)
        ensures
            r@ == pick(self, "Wake App via"@, "通过"@),
    {
        match self {
            AppLanguage::English => "Wake App via",
            AppLanguage::SimplifiedChinese => "通过",
        }
    }

    pub fn background_home_wake_suffix_text(self) -> (r: &'static str)
        ensures
            r@ == pick(self, "buttons"@, "键唤醒应用"@),
    {
        match self {
            AppLanguage::English => "buttons",
            AppLanguage::SimplifiedChinese => "键唤醒应用",
        }
    }

    pub fn controller_vibration_feedback_text(self) -> (r: &'static str)
        ensures
            r@ == pick(self, "Controller Vibration Feedback"@, "应用内手柄震动反馈"@),
    {
        match self {
            AppLanguage::English => "Controller Vibration Feedback",
            AppLanguage::SimplifiedChinese => "应用内手柄震动反馈",
        }
    }

    pub fn language_setting_text(self) -> (r: &'static str)
        ensures
            r@ == pick(self, "Language"@, "语言"@),
    {
        match self {
            AppLanguage::English => "Language",
            AppLanguage::SimplifiedChinese => "语言",
        }
    }

    pub fn client_games_detection_text(self) -> (r: &'static str)
        ensures
            r@ == pick(self, "Games Detection"@, "游戏识别"@),
    {
        match self {
            AppLanguage::English => "Games Detection",
            AppLanguage::SimplifiedChinese => "游戏识别",
        }
    }

    pub fn settings_text(self) -> (r: &'static str)
        ensures
            r@ == pick(self, "Settings"@, "设置"@),
    {
        match self {
            AppLanguage::English => "Settings",
            AppLanguage::SimplifiedChinese => "设置",
        }
    }

    pub fn resolution_settings_text(self) -> (r: &'static str)
        ensures
            r@ == pick(self, "Resolution Settings"@, "分辨率设置"@),
    {
        match self {
            AppLanguage::English => "Resolution Settings",
            AppLanguage::SimplifiedChinese => "分辨率设置",
        }
    }

    pub fn resolution_text(self) -> (r: &'static str)
        ensures
            r@ == pick(self, "Resolution"@, "分辨率"@),
    {
        match self {
            AppLanguage::English => "Resolution",
            AppLanguage::SimplifiedChinese => "分辨率",
        }
    }

    pub fn refresh_rate_text(self) -> (r: &'static str)
        ensures
            r@ == pick(self, "Frame Rate"@, "帧率"@),
    {
        match self {
            AppLanguage::English => "Frame Rate",
            AppLanguage::SimplifiedChinese => "帧率",
        }
    }

    pub fn dlss_swapper_text(self) -> (r: &'static str)
        ensures
            r@ == pick(self, "DLSS Swapper"@, "DLSS Swapper"@),
    {
        match self {
            AppLanguage::English => "DLSS Swapper",
            AppLanguage::SimplifiedChinese => "DLSS Swapper",
        }
    }

    pub fn nvidia_app_text(self) -> (r: &'static str)
        ensures
            r@ == pick(self, "NVIDIA App"@, "NVIDIA App"@),
    {
        match self {
            AppLanguage::English => "NVIDIA App",
            AppLanguage::SimplifiedChinese => "NVIDIA App",
        }
    }

    pub fn enabled_text(self) -> (r: &'static str)
        ensures
            r@ == pick(self, "On"@, "开启"@),
    {
        match self {
            AppLanguage::English => "On",
            AppLanguage::SimplifiedChinese => "开启",
        }
    }

    pub fn disabled_text(self) -> (r: &'static str)
        ensures
            r@ == pick(self, "Off"@, "关闭"@),
    {
        match self {
            AppLanguage::English => "Off",
            AppLanguage::SimplifiedChinese => "关闭",
        }
    }

    pub fn short_press_text(self) -> (r: &'static str)
        ensures
            r@ == pick(self, "Short Press"@, "短按"@),
    {
        match self {
            AppLanguage::English => "Short Press",
            AppLanguage::SimplifiedChinese => "短按",
        }
    }

    pub fn long_press_text(self) -> (r: &'static str)
        ensures
            r@ == pick(self, "Long Press"@, "长按"@),
    {
        match self {
            AppLanguage::English => "Long Press",
            AppLanguage::SimplifiedChinese => "长按",
        }
    }

    pub fn unlimited_text(self) -> (r: &'static str)
        ensures
            r@ == pick(self, "Unlimited"@, "不限"@),
    {
        match self {
            AppLanguage::English => "Unlimited",
            AppLanguage::SimplifiedChinese => "不限",
        }
    }

    pub fn auto_text(self) -> (r: &'static str)
        ensures
            r@ == pick(self, "Auto"@, "自动"@),
    {
        match self {
            AppLanguage::English => "Auto",
            AppLanguage::SimplifiedChinese => "自动",
        }
    }

    pub fn english_text(self) -> (r: &'static str)
        ensures
            r@ == pick(self, "English"@, "英文"@),
    {
        match self {
            AppLanguage::English => "English",
            AppLanguage::SimplifiedChinese => "英文",
        }
    }

    pub fn simplified_chinese_text(self) -> (r: &'static str)
        ensures
            r@ == pick(self, "Simplified Chinese"@, "简体中文"@),
    {
        match self {
            AppLanguage::English => "Simplified Chinese",
            AppLanguage::SimplifiedChinese => "简体中文",
        }
    }

    pub fn confirm_text(self) -> (r: &'static str)
        ensures
            r@ == pick(self, "Confirm"@, "确认"@),
    {
        match self {
            AppLanguage::English => "Confirm",
            AppLanguage::SimplifiedChinese => "确认",
        }
    }

    pub fn installed_app_options_text(self) -> (r: &'static str)
        ensures
            r@ == pick(self, "Installed Apps"@, "已安装的应用"@),
    {
        match self {
            AppLanguage::English => "Installed Apps",
            AppLanguage::SimplifiedChinese => "已安装的应用",
        }
    }

    pub fn hold_close_game_text(self) -> (r: &'static str)
        ensures
            r@ == pick(self, "Force Exit"@, "强制退出"@),
    {
        match self {
            AppLanguage::English => "Force Exit",
            AppLanguage::SimplifiedChinese => "强制退出",
        }
    }

    pub fn refresh_text(self) -> (r: &'static str)
        ensures
            r@ == pick(self, "Refresh"@, "刷新"@),
    {
        match self {
            AppLanguage::English => "Refresh",
            AppLanguage::SimplifiedChinese => "刷新",
        }
    }

    pub fn start_text(self) -> (r: &'static str)
        ensures
            r@ == pick(self, "Launch"@, "启动"@),
    {
        match self {
            AppLanguage::English => "Launch",
            AppLanguage::SimplifiedChinese => "启动",
        }
    }

    pub fn steam_start_action_text(self) -> (r: &'static str)
        ensures
            r@ == pick(self, "Start Steam"@, "启动 Steam"@),
    {
        match self {
            AppLanguage::English => "Start Steam",
            AppLanguage::SimplifiedChinese => "启动 Steam",
        }
    }

    pub fn steam_starting_text(self) -> (r: &'static str)
        ensures
            r@ == pick(self, "Steam starting"@, "Steam 启动中"@),
    {
        match self {
            AppLanguage::English => "Steam starting",
            AppLanguage::SimplifiedChinese => "Steam 启动中",
        }
    }

    pub fn steam_started_text(self) -> (r: &'static str)
        ensures
            r@ == pick(self, "Steam started"@, "Steam 启动完成"@),
    {
        match self {
            AppLanguage::English => "Steam started",
            AppLanguage::SimplifiedChinese => "Steam 启动完成",
        }
    }

    pub fn achievement_hidden_text(self) -> (r: &'static str)
        ensures
            r@ == pick(self, "Show hidden achievement"@, "显示隐藏成就"@),
    {
        match self {
            AppLanguage::English => "Show hidden achievement",
            AppLanguage::SimplifiedChinese => "显示隐藏成就",
        }
    }

    pub fn window_title(self) -> (r: &'static str)
        ensures
            r@ == pick(self, "Big Screen Launcher"@, "Big Screen Launcher"@),
    {
        match self {
            AppLanguage::English => "Big Screen Launcher",
            AppLanguage::SimplifiedChinese => "Big Screen Launcher",
        }
    }
}

} // verus!
