//! The window mode setting of the launcher.
use vstd::prelude::*;

use crate::text::{chars_of, eq_ic, eq_ic_str};

verus! {

#[derive(Clone, Copy, Debug, PartialEq, Eq, Structural)]
pub enum DisplayModeSetting {
    Fullscreen,
    Windowed,
}

pub open spec fn display_mode_config_value(mode: DisplayModeSetting) -> Seq<char> {
    match mode {
        DisplayModeSetting::Fullscreen => "fullscreen"@,
        DisplayModeSetting::Windowed => "windowed"@,
    }
}

pub open spec fn display_mode_from_config(v: Seq<char>) -> Option<DisplayModeSetting> {
    if eq_ic(v, "fullscreen"@) {
        Some(DisplayModeSetting::Fullscreen)
    } else if eq_ic(v, "windowed"@) {
        Some(DisplayModeSetting::Windowed)
    } else {
        None
    }
}

impl DisplayModeSetting {
    pub fn as_config_value(self) -> (r: &'static str)
        ensures
            r@ == display_mode_config_value(self),
    {
        match self {
            DisplayModeSetting::Fullscreen => "fullscreen",
            DisplayModeSetting::Windowed => "windowed",
        }
    }

    pub fn from_config_value(value: &str) -> (r: Option<Self>)
        ensures
            r == display_mode_from_config(value@),
    {
        let v = chars_of(value);
        Self::from_config_chars(&v)
    }

    pub fn from_config_chars(v: &Vec<char>) -> (r: Option<Self>)
        ensures
            r == display_mode_from_config(v@),
    {
        if eq_ic_str(v, "fullscreen") {
            Some(DisplayModeSetting::Fullscreen)
        } else if eq_ic_str(v, "windowed") {
            Some(DisplayModeSetting::Windowed)
        } else {
            None
        }
    }

    /// The other window mode.
    pub fn next(self) -> (r: Self)
        ensures
            r != self,
    {
        match self {
            DisplayModeSetting::Fullscreen => DisplayModeSetting::Windowed,
            DisplayModeSetting::Windowed => DisplayModeSetting::Fullscreen,
        }
    }
}

} // verus!
