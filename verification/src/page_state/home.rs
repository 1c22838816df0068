//! The home list, its two top buttons, the achievement page and the game
//! library page.
use vstd::prelude::*;

use super::{
    empty_result, AchievementNav, ActionContext, AnimationResets, GameMenuNav, HomeNav, LibraryNav,
    PageActionResult, PageModel, PowerMenuNav, GAME_LIBRARY_COLUMNS,
};
use crate::input::ControllerAction;

verus! {

/// The achievement list goes back to its first entry.
pub open spec fn reset_achievement_selection_m(m: PageModel) -> PageModel {
    PageModel {
        achievement: AchievementNav { selected: 0, ..m.achievement },
        resets: AnimationResets { achievement_selection: true, ..m.resets },
        ..m
    }
}

pub open spec fn close_achievement_panel_m(m: PageModel) -> PageModel {
    reset_achievement_selection_m(
        PageModel { achievement: AchievementNav { show: false, ..m.achievement }, ..m },
    )
}

/// Neither top button is selected: the focus is on the home list.
pub open spec fn clear_top(h: HomeNav) -> HomeNav {
    HomeNav { settings_selected: false, power_selected: false, ..h }
}

pub open spec fn select_top_settings(h: HomeNav) -> HomeNav {
    HomeNav { settings_selected: true, power_selected: false, ..h }
}

pub open spec fn select_top_power(h: HomeNav) -> HomeNav {
    HomeNav { settings_selected: false, power_selected: true, ..h }
}

/// The game library page opens at a game, above everything else but the
/// settings page.
pub open spec fn open_game_library_m(m: PageModel, index: usize) -> PageModel {
    let m1 = close_achievement_panel_m(m);
    PageModel {
        home: clear_top(m1.home),
        power: PowerMenuNav { show: false, ..m1.power },
        game_menu: GameMenuNav { show: false, ..m1.game_menu },
        library: LibraryNav { show: true, selected: index },
        resets: AnimationResets { game_library_page: true, ..m1.resets },
        ..m1
    }
}

/// The settings page opens at its first entry, with every other page and
/// menu closed and the settings button selected.
pub open spec fn open_settings_m(m: PageModel) -> PageModel {
    let m1 = close_achievement_panel_m(m);
    PageModel {
        home: select_top_settings(m1.home),
        power: PowerMenuNav { show: false, ..m1.power },
        game_menu: GameMenuNav { show: false, ..m1.game_menu },
        library: LibraryNav { show: false, ..m1.library },
        settings: super::settings::open_settings_nav(m1.settings),
        resets: AnimationResets { settings_page: true, ..m1.resets },
        ..m1
    }
}

/// An action on the achievement page: up and down move through the list
/// (up from the first entry leaves a page opened from the home list), quit
/// closes the page, launch reveals a hidden achievement, refresh reloads.
pub open spec fn achievement_step(m: PageModel, a: ControllerAction, achievement_len: usize) -> (
    PageModel,
    PageActionResult,
) {
    let ach = m.achievement;
    let none = super::no_result();
    match a {
        ControllerAction::Up => if ach.selected > 0 {
            (
                PageModel {
                    achievement: AchievementNav { selected: (ach.selected - 1) as usize, ..ach },
                    ..m
                },
                none,
            )
        } else if !ach.from_game_library {
            (close_achievement_panel_m(m), none)
        } else {
            (m, none)
        },
        ControllerAction::Down => if ach.selected + 1 < achievement_len {
            (
                PageModel {
                    achievement: AchievementNav { selected: (ach.selected + 1) as usize, ..ach },
                    ..m
                },
                none,
            )
        } else {
            (m, none)
        },
        ControllerAction::Quit => (close_achievement_panel_m(m), none),
        ControllerAction::Launch => (m, PageActionResult { reveal_hidden_achievement: true, ..none }),
        ControllerAction::Refresh => (m, PageActionResult { refresh_achievements: true, ..none }),
        _ => (m, none),
    }
}

/// An action on the game library page: the arrows move through the grid of
/// `GAME_LIBRARY_COLUMNS` columns, launch and menu act on the selected game
/// when there is one, quit closes the page.
pub open spec fn library_step(l: LibraryNav, a: ControllerAction, games_len: usize) -> (
    LibraryNav,
    PageActionResult,
) {
    let sel = l.selected;
    let none = super::no_result();
    let changed = PageActionResult { selected_changed: true, ..none };
    let cols = GAME_LIBRARY_COLUMNS;
    match a {
        ControllerAction::Left => if sel > 0 {
            (LibraryNav { selected: (sel - 1) as usize, ..l }, changed)
        } else {
            (l, none)
        },
        ControllerAction::Right => if sel + 1 < games_len {
            (LibraryNav { selected: (sel + 1) as usize, ..l }, changed)
        } else {
            (l, none)
        },
        ControllerAction::Up => if sel >= cols {
            (LibraryNav { selected: (sel - cols) as usize, ..l }, changed)
        } else {
            (l, none)
        },
        ControllerAction::Down => if sel + cols < games_len {
            (LibraryNav { selected: (sel + cols) as usize, ..l }, changed)
        } else {
            (l, none)
        },
        ControllerAction::Launch => (l, PageActionResult { launch_selected: games_len > 0, ..none }),
        ControllerAction::Menu => (l, PageActionResult { open_game_menu: games_len > 0, ..none }),
        ControllerAction::Quit => (LibraryNav { show: false, ..l }, none),
        _ => (l, none),
    }
}

/// An action while the power button above the home list is selected.
pub open spec fn home_power_step(h: HomeNav, a: ControllerAction) -> (HomeNav, PageActionResult) {
    let none = super::no_result();
    match a {
        ControllerAction::Launch => (h, PageActionResult { open_power_menu: true, ..none }),
        ControllerAction::Left | ControllerAction::Down | ControllerAction::Quit => (
            clear_top(h),
            none,
        ),
        ControllerAction::Right | ControllerAction::Settings => (select_top_settings(h), none),
        _ => (h, none),
    }
}

/// An action while the settings button above the home list is selected.
pub open spec fn home_settings_step(m: PageModel, a: ControllerAction) -> (
    PageModel,
    PageActionResult,
) {
    let none = super::no_result();
    match a {
        ControllerAction::Left => (PageModel { home: select_top_power(m.home), ..m }, none),
        ControllerAction::Down | ControllerAction::Quit => (
            PageModel { home: clear_top(m.home), ..m },
            none,
        ),
        ControllerAction::Launch => (open_settings_m(m), none),
        _ => (m, none),
    }
}

/// An action on the home list.
pub open spec fn main_step(m: PageModel, a: ControllerAction, ctx: ActionContext) -> (
    PageModel,
    PageActionResult,
) {
    let h = m.home;
    let none = super::no_result();
    let changed = PageActionResult { selected_changed: true, ..none };
    match a {
        ControllerAction::Left => if h.selected > 0 {
            (
                reset_achievement_selection_m(
                    PageModel {
                        home: HomeNav { selected: (h.selected - 1) as usize, cover_nav_dir: -1i8, ..h },
                        ..m
                    },
                ),
                changed,
            )
        } else {
            (m, none)
        },
        ControllerAction::Right => if h.selected + 1 < ctx.home_items_len {
            (
                reset_achievement_selection_m(
                    PageModel {
                        home: HomeNav { selected: (h.selected + 1) as usize, cover_nav_dir: 1i8, ..h },
                        ..m
                    },
                ),
                changed,
            )
        } else {
            (m, none)
        },
        ControllerAction::Down => if ctx.can_open_achievement_panel {
            (
                reset_achievement_selection_m(
                    PageModel {
                        achievement: AchievementNav {
                            show: true,
                            from_game_library: false,
                            ..m.achievement
                        },
                        ..m
                    },
                ),
                PageActionResult { open_achievement_panel: true, ..none },
            )
        } else {
            (m, none)
        },
        ControllerAction::Launch => if ctx.selected_home_item_is_library {
            (
                open_game_library_m(
                    m,
                    match ctx.selected_game_index {
                        Some(i) => i,
                        None => 0,
                    },
                ),
                none,
            )
        } else {
            (m, PageActionResult { launch_selected: true, ..none })
        },
        ControllerAction::Menu => (
            m,
            PageActionResult {
                open_game_menu: !ctx.selected_home_item_is_library
                    && ctx.selected_game_index is Some,
                ..none
            },
        ),
        ControllerAction::Refresh => (m, none),
        ControllerAction::Settings => (PageModel { home: select_top_settings(h), ..m }, none),
        ControllerAction::Quit => if h.selected > 0 {
            (
                reset_achievement_selection_m(
                    PageModel { home: HomeNav { selected: 0, cover_nav_dir: -1i8, ..h }, ..m },
                ),
                changed,
            )
        } else {
            (m, none)
        },
        ControllerAction::Up => (PageModel { home: select_top_power(h), ..m }, none),
    }
}

impl HomeNav {
    pub(crate) fn clear_top(&mut self)
        ensures
            *final(self) == clear_top(*old(self)),
    {
        self.settings_selected = false;
        self.power_selected = false;
    }

    pub(crate) fn select_settings(&mut self)
        ensures
            *final(self) == select_top_settings(*old(self)),
    {
        self.settings_selected = true;
        self.power_selected = false;
    }

    pub(crate) fn select_power(&mut self)
        ensures
            *final(self) == select_top_power(*old(self)),
    {
        self.settings_selected = false;
        self.power_selected = true;
    }

    pub(crate) fn power_step(&mut self, a: ControllerAction) -> (r: PageActionResult)
        ensures
            (*final(self), r) == home_power_step(*old(self), a),
    {
        let mut result = empty_result();
        match a {
            ControllerAction::Launch => {
                result.open_power_menu = true;
            },
            ControllerAction::Left | ControllerAction::Down | ControllerAction::Quit => {
                self.clear_top();
            },
            ControllerAction::Right | ControllerAction::Settings => {
                self.select_settings();
            },
            _ => {},
        }
        result
    }
}

impl LibraryNav {
    pub(crate) fn step(&mut self, a: ControllerAction, games_len: usize) -> (r: PageActionResult)
        ensures
            (*final(self), r) == library_step(*old(self), a, games_len),
    {
        let mut result = empty_result();
        let sel = self.selected;
        match a {
            ControllerAction::Left => {
                if sel > 0 {
                    self.selected = sel - 1;
                    result.selected_changed = true;
                }
            },
            ControllerAction::Right => {
                if sel < games_len && sel + 1 < games_len {
                    self.selected = sel + 1;
                    result.selected_changed = true;
                }
            },
            ControllerAction::Up => {
                if sel >= GAME_LIBRARY_COLUMNS {
                    self.selected = sel - GAME_LIBRARY_COLUMNS;
                    result.selected_changed = true;
                }
            },
            ControllerAction::Down => {
                if sel < games_len && games_len - sel > GAME_LIBRARY_COLUMNS {
                    self.selected = sel + GAME_LIBRARY_COLUMNS;
                    result.selected_changed = true;
                }
            },
            ControllerAction::Launch => {
                result.launch_selected = games_len > 0;
            },
            ControllerAction::Menu => {
                result.open_game_menu = games_len > 0;
            },
            ControllerAction::Quit => {
                self.show = false;
            },
            _ => {},
        }
        result
    }
}

} // verus!
