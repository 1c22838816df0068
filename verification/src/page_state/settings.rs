//! The settings page: its sections, lists and dropdowns.
use vstd::prelude::*;

use super::{
    empty_result, min_usize, saturating_pred, PageActionResult, ScreenDropdown, ScreenSettingsAction,
    ScreenSettingsNav, SettingsNav, SettingsSection, SystemDropdown, SystemSettingsNav,
};
use crate::config::{HomeGameLimit, HOME_GAME_LIMIT_OPTION_COUNT};
use crate::external_apps::ExternalAppKind;
use crate::input::ControllerAction;

verus! {

/// One step down a list, stopping at `max`.
pub open spec fn step_down(value: usize, max: usize) -> usize {
    if value + 1 < max {
        (value + 1) as usize
    } else {
        max
    }
}

/// One step up a list, stopping at the first entry.
pub open spec fn step_up(value: usize) -> usize {
    if value > 0 {
        (value - 1) as usize
    } else {
        0
    }
}

pub open spec fn list_step(value: usize, max: usize, down: bool) -> usize {
    if down {
        step_down(value, max)
    } else {
        step_up(value)
    }
}

/// The last index of a list of `n` entries (0 for an empty list).
pub open spec fn last_index(n: usize) -> usize {
    if n > 0 {
        (n - 1) as usize
    } else {
        0
    }
}

pub open spec fn min_spec(value: usize, max: usize) -> usize {
    if value < max {
        value
    } else {
        max
    }
}

/// The largest index of the open screen dropdown list.
pub open spec fn screen_dropdown_max(s: ScreenSettingsNav) -> usize {
    match s.dropdown {
        Some(ScreenDropdown::Resolution) => last_index(s.resolution_count),
        Some(ScreenDropdown::RefreshRate) => last_index(s.refresh_count),
        Some(ScreenDropdown::Scale) => last_index(s.scale_count),
        None => 0,
    }
}

/// A move inside the settings submenu: in an open dropdown, or between items.
pub open spec fn settings_submenu_move(s: SettingsNav, down: bool) -> SettingsNav {
    if s.section == SettingsSection::System && s.system.dropdown is Some {
        SettingsNav {
            system: SystemSettingsNav {
                limit_selected: list_step(
                    s.system.limit_selected,
                    (HOME_GAME_LIMIT_OPTION_COUNT - 1) as usize,
                    down,
                ),
                ..s.system
            },
            ..s
        }
    } else if s.section == SettingsSection::Screen && s.screen.dropdown is Some {
        SettingsNav {
            screen: ScreenSettingsNav {
                dropdown_selected: list_step(
                    s.screen.dropdown_selected,
                    screen_dropdown_max(s.screen),
                    down,
                ),
                ..s.screen
            },
            ..s
        }
    } else {
        match s.section {
            SettingsSection::System => SettingsNav {
                system: SystemSettingsNav {
                    selected: list_step(s.system.selected, 9, down),
                    ..s.system
                },
                ..s
            },
            SettingsSection::Screen => SettingsNav {
                screen: ScreenSettingsNav {
                    selected: list_step(s.screen.selected, 2, down),
                    ..s.screen
                },
                ..s
            },
            SettingsSection::Apps => SettingsNav {
                apps_selected: list_step(s.apps_selected, 1, down),
                ..s
            },
            SettingsSection::CloseApp => s,
        }
    }
}

/// Launch on the system settings list: the game detections of Steam,
/// Epic and Xbox, waking from the background, controller vibration, the
/// idle frame rate, the display mode, the language and launch on startup
/// are toggled or cycled; the last entry is the home game limit dropdown,
/// which opens at the current limit or picks the highlighted one.
pub open spec fn system_launch(s: SettingsNav) -> (SettingsNav, PageActionResult) {
    let r = super::no_result();
    let i = s.system.selected;
    if i == 0 {
        (s, PageActionResult { toggle_detect_steam_games: true, ..r })
    } else if i == 1 {
        (s, PageActionResult { toggle_detect_epic_games: true, ..r })
    } else if i == 2 {
        (s, PageActionResult { toggle_detect_xbox_games: true, ..r })
    } else if i == 3 {
        (s, PageActionResult { toggle_background_home_wake: true, ..r })
    } else if i == 4 {
        (s, PageActionResult { toggle_controller_vibration_feedback: true, ..r })
    } else if i == 5 {
        (s, PageActionResult { toggle_idle_frame_rate_reduction: true, ..r })
    } else if i == 6 {
        (s, PageActionResult { cycle_display_mode_setting: true, ..r })
    } else if i == 7 {
        (s, PageActionResult { cycle_language_setting: true, ..r })
    } else if i == 8 {
        (s, PageActionResult { toggle_launch_on_startup: true, ..r })
    } else if s.system.dropdown is Some {
        (
            SettingsNav { system: SystemSettingsNav { dropdown: None, ..s.system }, ..s },
            PageActionResult {
                select_home_game_limit: Some(
                    crate::config::home_game_limit_from_option_index(s.system.limit_selected as int),
                ),
                ..r
            },
        )
    } else {
        (
            SettingsNav {
                system: SystemSettingsNav {
                    limit_selected: s.system.limit_current,
                    dropdown: Some(SystemDropdown::HomeGameLimit),
                    ..s.system
                },
                ..s
            },
            r,
        )
    }
}

/// Launch on the screen settings list: opens a dropdown at the current
/// value, or picks the highlighted value of the open one.
pub open spec fn screen_launch(s: ScreenSettingsNav) -> (ScreenSettingsNav, PageActionResult) {
    let sel = s.dropdown_selected;
    match s.dropdown {
        Some(d) => (
            ScreenSettingsNav { dropdown: None, ..s },
            PageActionResult {
                screen_settings_action: Some(
                    match d {
                        ScreenDropdown::Resolution => ScreenSettingsAction::SelectResolution(sel),
                        ScreenDropdown::RefreshRate => ScreenSettingsAction::SelectRefreshRate(sel),
                        ScreenDropdown::Scale => ScreenSettingsAction::SelectScale(sel),
                    },
                ),
                ..super::no_result()
            },
        ),
        None => if s.selected == 0 {
            (
                ScreenSettingsNav {
                    dropdown: Some(ScreenDropdown::Resolution),
                    dropdown_selected: s.current_resolution,
                    ..s
                },
                super::no_result(),
            )
        } else if s.selected == 1 {
            (
                ScreenSettingsNav {
                    dropdown: Some(ScreenDropdown::RefreshRate),
                    dropdown_selected: s.current_refresh,
                    ..s
                },
                super::no_result(),
            )
        } else {
            (
                ScreenSettingsNav {
                    dropdown: Some(ScreenDropdown::Scale),
                    dropdown_selected: s.current_scale,
                    ..s
                },
                super::no_result(),
            )
        },
    }
}

pub open spec fn close_settings_nav(s: SettingsNav) -> SettingsNav {
    SettingsNav {
        show: false,
        in_submenu: false,
        system: SystemSettingsNav { dropdown: None, ..s.system },
        screen: ScreenSettingsNav { dropdown: None, ..s.screen },
        ..s
    }
}

/// Back to the first section and the first entry of each list, with the
/// home game limit list at the current limit and no dropdown open.
pub open spec fn reset_settings_navigation(s: SettingsNav) -> SettingsNav {
    SettingsNav {
        section: SettingsSection::System,
        in_submenu: false,
        system: SystemSettingsNav {
            selected: 0,
            dropdown: None,
            limit_selected: s.system.limit_current,
            limit_current: s.system.limit_current,
        },
        screen: ScreenSettingsNav { selected: 0, dropdown: None, dropdown_selected: 0, ..s.screen },
        apps_selected: 0,
        ..s
    }
}

pub open spec fn open_settings_nav(s: SettingsNav) -> SettingsNav {
    SettingsNav { show: true, ..reset_settings_navigation(s) }
}

pub open spec fn settings_step(s: SettingsNav, a: ControllerAction) -> (SettingsNav, PageActionResult) {
    let none = super::no_result();
    match a {
        ControllerAction::Up => if s.in_submenu {
            (settings_submenu_move(s, false), none)
        } else {
            (
                SettingsNav {
                    section: match s.section {
                        SettingsSection::System => SettingsSection::System,
                        SettingsSection::Screen => SettingsSection::System,
                        SettingsSection::Apps => SettingsSection::Screen,
                        SettingsSection::CloseApp => SettingsSection::Apps,
                    },
                    ..s
                },
                none,
            )
        },
        ControllerAction::Down => if s.in_submenu {
            (settings_submenu_move(s, true), none)
        } else {
            (
                SettingsNav {
                    section: match s.section {
                        SettingsSection::System => SettingsSection::Screen,
                        SettingsSection::Screen => SettingsSection::Apps,
                        SettingsSection::Apps => SettingsSection::CloseApp,
                        SettingsSection::CloseApp => SettingsSection::CloseApp,
                    },
                    ..s
                },
                none,
            )
        },
        ControllerAction::Launch => if s.in_submenu {
            match s.section {
                SettingsSection::System => system_launch(s),
                SettingsSection::Screen => {
                    let (screen, r) = screen_launch(s.screen);
                    (SettingsNav { screen, ..s }, r)
                },
                SettingsSection::Apps => (
                    s,
                    PageActionResult {
                        launch_external_app: Some(
                            if s.apps_selected == 0 {
                                ExternalAppKind::DlssSwapper
                            } else {
                                ExternalAppKind::NvidiaApp
                            },
                        ),
                        ..none
                    },
                ),
                SettingsSection::CloseApp => (s, none),
            }
        } else {
            match s.section {
                SettingsSection::CloseApp => (
                    close_settings_nav(s),
                    PageActionResult { close_frame: true, ..none },
                ),
                _ => (SettingsNav { in_submenu: true, ..s }, none),
            }
        },
        ControllerAction::Quit => if s.in_submenu {
            if s.section == SettingsSection::System && s.system.dropdown is Some {
                (SettingsNav { system: SystemSettingsNav { dropdown: None, ..s.system }, ..s }, none)
            } else if s.section == SettingsSection::Screen && s.screen.dropdown is Some {
                (SettingsNav { screen: ScreenSettingsNav { dropdown: None, ..s.screen }, ..s }, none)
            } else {
                (SettingsNav { in_submenu: false, ..s }, none)
            }
        } else {
            (close_settings_nav(s), none)
        },
        _ => (s, none),
    }
}

/// `base` plus the index, in 16-bit arithmetic.
pub open spec fn key16(base: int, x: usize) -> u16 {
    ((base + x as int % 65536) % 65536) as u16
}

/// The focus key of the settings page: which entry (or dropdown entry) is
/// highlighted.
pub open spec fn settings_selection_key_spec(s: SettingsNav) -> u16 {
    if s.in_submenu {
        match s.section {
            SettingsSection::System => if s.system.dropdown is Some {
                key16(900, s.system.limit_selected)
            } else {
                key16(10, s.system.selected)
            },
            SettingsSection::Screen => match s.screen.dropdown {
                Some(ScreenDropdown::Resolution) => key16(100, s.screen.dropdown_selected),
                Some(ScreenDropdown::RefreshRate) => key16(300, s.screen.dropdown_selected),
                Some(ScreenDropdown::Scale) => key16(500, s.screen.dropdown_selected),
                None => key16(20, s.screen.selected),
            },
            SettingsSection::Apps => key16(700, s.apps_selected),
            SettingsSection::CloseApp => 800,
        }
    } else {
        super::section_index(s.section) as u16
    }
}

/// The settings after the current home game limit changed: an open list
/// keeps its highlight inside the list.
pub open spec fn sync_home_game_limit_spec(s: SettingsNav, limit: HomeGameLimit) -> SettingsNav {
    SettingsNav {
        system: SystemSettingsNav {
            limit_current: crate::config::home_game_limit_option_index(limit) as usize,
            limit_selected: if s.system.dropdown is Some {
                min_spec(s.system.limit_selected, (HOME_GAME_LIMIT_OPTION_COUNT - 1) as usize)
            } else {
                s.system.limit_selected
            },
            ..s.system
        },
        ..s
    }
}

/// The screen lists after their entry counts and current entries changed:
/// each count is at least one, each current entry and an open list's
/// highlight lie inside their list.
pub open spec fn sync_screen_spec(
    s: ScreenSettingsNav,
    resolution_count: usize,
    resolution: usize,
    refresh_count: usize,
    refresh: usize,
    scale_count: usize,
    scale: usize,
) -> ScreenSettingsNav {
    let rc = if resolution_count > 0 {
        resolution_count
    } else {
        1
    };
    let fc = if refresh_count > 0 {
        refresh_count
    } else {
        1
    };
    let sc = if scale_count > 0 {
        scale_count
    } else {
        1
    };
    let s1 = ScreenSettingsNav {
        resolution_count: rc,
        refresh_count: fc,
        scale_count: sc,
        current_resolution: min_spec(resolution, last_index(rc)),
        current_refresh: min_spec(refresh, last_index(fc)),
        current_scale: min_spec(scale, last_index(sc)),
        ..s
    };
    if s1.dropdown is Some {
        ScreenSettingsNav {
            dropdown_selected: min_spec(s1.dropdown_selected, screen_dropdown_max(s1)),
            ..s1
        }
    } else {
        s1
    }
}

fn key16_exec(base: u16, x: usize) -> (r: u16)
    requires
        base < 1000,
    ensures
        r == key16(base as int, x),
{
    let low = (x % 65536) as u32;
    (((base as u32) + low) % 65536) as u16
}

fn move_in_list(value: usize, max: usize, down: bool) -> (r: usize)
    ensures
        r == list_step(value, max, down),
{
    if down {
        if value < max {
            value + 1
        } else {
            max
        }
    } else {
        if value > 0 {
            value - 1
        } else {
            0
        }
    }
}

impl ScreenSettingsNav {
    fn dropdown_max(&self) -> (r: usize)
        ensures
            r == screen_dropdown_max(*self),
    {
        match self.dropdown {
            Some(ScreenDropdown::Resolution) => saturating_pred(self.resolution_count),
            Some(ScreenDropdown::RefreshRate) => saturating_pred(self.refresh_count),
            Some(ScreenDropdown::Scale) => saturating_pred(self.scale_count),
            None => 0,
        }
    }

    fn launch(&mut self) -> (r: PageActionResult)
        ensures
            (*final(self), r) == screen_launch(*old(self)),
    {
        let mut result = empty_result();
        let sel = self.dropdown_selected;
        match self.dropdown {
            Some(ScreenDropdown::Resolution) => {
                result.screen_settings_action = Some(ScreenSettingsAction::SelectResolution(sel));
                self.dropdown = None;
            },
            Some(ScreenDropdown::RefreshRate) => {
                result.screen_settings_action = Some(ScreenSettingsAction::SelectRefreshRate(sel));
                self.dropdown = None;
            },
            Some(ScreenDropdown::Scale) => {
                result.screen_settings_action = Some(ScreenSettingsAction::SelectScale(sel));
                self.dropdown = None;
            },
            None => {
                if self.selected == 0 {
                    self.dropdown_selected = self.current_resolution;
                    self.dropdown = Some(ScreenDropdown::Resolution);
                } else if self.selected == 1 {
                    self.dropdown_selected = self.current_refresh;
                    self.dropdown = Some(ScreenDropdown::RefreshRate);
                } else {
                    self.dropdown_selected = self.current_scale;
                    self.dropdown = Some(ScreenDropdown::Scale);
                }
            },
        }
        result
    }

    pub(crate) fn sync(
        &mut self,
        resolution_count: usize,
        resolution: usize,
        refresh_count: usize,
        refresh: usize,
        scale_count: usize,
        scale: usize,
    )
        ensures
            *final(self) == sync_screen_spec(
                *old(self),
                resolution_count,
                resolution,
                refresh_count,
                refresh,
                scale_count,
                scale,
            ),
    {
        self.resolution_count = if resolution_count > 0 {
            resolution_count
        } else {
            1
        };
        self.refresh_count = if refresh_count > 0 {
            refresh_count
        } else {
            1
        };
        self.scale_count = if scale_count > 0 {
            scale_count
        } else {
            1
        };
        self.current_resolution = min_usize(resolution, self.resolution_count - 1);
        self.current_refresh = min_usize(refresh, self.refresh_count - 1);
        self.current_scale = min_usize(scale, self.scale_count - 1);
        if self.dropdown.is_some() {
            let max = self.dropdown_max();
            self.dropdown_selected = min_usize(self.dropdown_selected, max);
        }
    }
}

impl SettingsNav {
    fn submenu_move(&mut self, down: bool)
        ensures
            *final(self) == settings_submenu_move(*old(self), down),
    {
        if self.section == SettingsSection::System && self.system.dropdown.is_some() {
            self.system.limit_selected = move_in_list(
                self.system.limit_selected,
                HOME_GAME_LIMIT_OPTION_COUNT - 1,
                down,
            );
        } else if self.section == SettingsSection::Screen && self.screen.dropdown.is_some() {
            let max = self.screen.dropdown_max();
            self.screen.dropdown_selected = move_in_list(self.screen.dropdown_selected, max, down);
        } else {
            match self.section {
                SettingsSection::System => {
                    self.system.selected = move_in_list(self.system.selected, 9, down);
                },
                SettingsSection::Screen => {
                    self.screen.selected = move_in_list(self.screen.selected, 2, down);
                },
                SettingsSection::Apps => {
                    self.apps_selected = move_in_list(self.apps_selected, 1, down);
                },
                SettingsSection::CloseApp => {},
            }
        }
    }

    fn system_launch(&mut self) -> (r: PageActionResult)
        ensures
            (*final(self), r) == system_launch(*old(self)),
    {
        let mut result = empty_result();
        let i = self.system.selected;
        if i == 0 {
            result.toggle_detect_steam_games = true;
        } else if i == 1 {
            result.toggle_detect_epic_games = true;
        } else if i == 2 {
            result.toggle_detect_xbox_games = true;
        } else if i == 3 {
            result.toggle_background_home_wake = true;
        } else if i == 4 {
            result.toggle_controller_vibration_feedback = true;
        } else if i == 5 {
            result.toggle_idle_frame_rate_reduction = true;
        } else if i == 6 {
            result.cycle_display_mode_setting = true;
        } else if i == 7 {
            result.cycle_language_setting = true;
        } else if i == 8 {
            result.toggle_launch_on_startup = true;
        } else if self.system.dropdown.is_some() {
            result.select_home_game_limit = Some(
                HomeGameLimit::from_option_index(self.system.limit_selected),
            );
            self.system.dropdown = None;
        } else {
            self.system.limit_selected = self.system.limit_current;
            self.system.dropdown = Some(SystemDropdown::HomeGameLimit);
        }
        result
    }

    pub(crate) fn close(&mut self)
        ensures
            *final(self) == close_settings_nav(*old(self)),
    {
        self.show = false;
        self.in_submenu = false;
        self.system.dropdown = None;
        self.screen.dropdown = None;
    }

    pub(crate) fn open(&mut self)
        ensures
            *final(self) == open_settings_nav(*old(self)),
    {
        self.show = true;
        self.section = SettingsSection::System;
        self.in_submenu = false;
        self.system.selected = 0;
        self.system.dropdown = None;
        self.system.limit_selected = self.system.limit_current;
        self.screen.selected = 0;
        self.screen.dropdown = None;
        self.screen.dropdown_selected = 0;
        self.apps_selected = 0;
    }

    pub(crate) fn step(&mut self, a: ControllerAction) -> (r: PageActionResult)
        ensures
            (*final(self), r) == settings_step(*old(self), a),
    {
        let mut result = empty_result();
        match a {
            ControllerAction::Up => {
                if self.in_submenu {
                    self.submenu_move(false);
                } else {
                    self.section = self.section.previous();
                }
            },
            ControllerAction::Down => {
                if self.in_submenu {
                    self.submenu_move(true);
                } else {
                    self.section = self.section.next();
                }
            },
            ControllerAction::Launch => {
                if self.in_submenu {
                    match self.section {
                        SettingsSection::System => {
                            result = self.system_launch();
                        },
                        SettingsSection::Screen => {
                            result = self.screen.launch();
                        },
                        SettingsSection::Apps => {
                            result.launch_external_app = Some(
                                if self.apps_selected == 0 {
                                    ExternalAppKind::DlssSwapper
                                } else {
                                    ExternalAppKind::NvidiaApp
                                },
                            );
                        },
                        SettingsSection::CloseApp => {},
                    }
                } else {
                    match self.section {
                        SettingsSection::CloseApp => {
                            self.close();
                            result.close_frame = true;
                        },
                        _ => {
                            self.in_submenu = true;
                        },
                    }
                }
            },
            ControllerAction::Quit => {
                if self.in_submenu {
                    if self.section == SettingsSection::System && self.system.dropdown.is_some() {
                        self.system.dropdown = None;
                    } else if self.section == SettingsSection::Screen
                        && self.screen.dropdown.is_some() {
                        self.screen.dropdown = None;
                    } else {
                        self.in_submenu = false;
                    }
                } else {
                    self.close();
                }
            },
            _ => {},
        }
        result
    }

    pub(crate) fn selection_key(&self) -> (r: u16)
        ensures
            r == settings_selection_key_spec(*self),
    {
        if self.in_submenu {
            match self.section {
                SettingsSection::System => {
                    if self.system.dropdown.is_some() {
                        key16_exec(900, self.system.limit_selected)
                    } else {
                        key16_exec(10, self.system.selected)
                    }
                },
                SettingsSection::Screen => match self.screen.dropdown {
                    Some(ScreenDropdown::Resolution) => key16_exec(
                        100,
                        self.screen.dropdown_selected,
                    ),
                    Some(ScreenDropdown::RefreshRate) => key16_exec(
                        300,
                        self.screen.dropdown_selected,
                    ),
                    Some(ScreenDropdown::Scale) => key16_exec(500, self.screen.dropdown_selected),
                    None => key16_exec(20, self.screen.selected),
                },
                SettingsSection::Apps => key16_exec(700, self.apps_selected),
                SettingsSection::CloseApp => 800,
            }
        } else {
            self.section.index() as u16
        }
    }

    pub(crate) fn sync_home_game_limit(&mut self, limit: HomeGameLimit)
        ensures
            *final(self) == sync_home_game_limit_spec(*old(self), limit),
    {
        self.system.limit_current = limit.option_index();
        if self.system.dropdown.is_some() {
            self.system.limit_selected = min_usize(
                self.system.limit_selected,
                HOME_GAME_LIMIT_OPTION_COUNT - 1,
            );
        }
    }
}

} // verus!
