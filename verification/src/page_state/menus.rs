//! The power menu and the game menu.
use vstd::prelude::*;

use super::{
    empty_result, AchievementNav, AnimationResets, GameMenuNav, PageActionResult, PageModel,
    PowerAction, PowerMenuNav,
};
use crate::game_menu::GameMenuOption;
use crate::input::ControllerAction;
use crate::power_menu::PowerMenuOption;

verus! {

pub open spec fn power_action_of(o: PowerMenuOption) -> PowerAction {
    match o {
        PowerMenuOption::Sleep => PowerAction::Sleep,
        PowerMenuOption::Reboot => PowerAction::Reboot,
        PowerMenuOption::Shutdown => PowerAction::Shutdown,
    }
}

/// An action in the open power menu: up and down move the selection,
/// launch picks the selected option and closes the menu, quit closes it.
pub open spec fn power_menu_step(p: PowerMenuNav, a: ControllerAction) -> (
    PowerMenuNav,
    PageActionResult,
) {
    let len = p.layout@.len() as int;
    match a {
        ControllerAction::Up => (
            PowerMenuNav {
                selected: crate::power_menu::power_menu_move_up_spec(len, p.selected as int) as usize,
                ..p
            },
            super::no_result(),
        ),
        ControllerAction::Down => (
            PowerMenuNav {
                selected: crate::power_menu::power_menu_move_down_spec(
                    len,
                    p.selected as int,
                ) as usize,
                ..p
            },
            super::no_result(),
        ),
        ControllerAction::Launch => if p.selected < len {
            (
                PowerMenuNav { show: false, ..p },
                PageActionResult {
                    power_action: Some(power_action_of(p.layout@[p.selected as int])),
                    ..super::no_result()
                },
            )
        } else {
            (p, super::no_result())
        },
        ControllerAction::Quit => (PowerMenuNav { show: false, ..p }, super::no_result()),
        _ => (p, super::no_result()),
    }
}

/// The achievement page opened from the game menu: over the game library
/// when that is open.
pub open spec fn open_details_m(m: PageModel) -> PageModel {
    let from_library = m.library.show;
    super::home::reset_achievement_selection_m(
        PageModel {
            achievement: AchievementNav {
                show: true,
                from_game_library: from_library,
                ..m.achievement
            },
            resets: AnimationResets {
                achievement_panel_over_library: from_library
                    || m.resets.achievement_panel_over_library,
                ..m.resets
            },
            ..m
        },
    )
}

/// An action in the open game menu: up and down move the selection, launch
/// carries out the selected option for the menu's game and closes the
/// menu, quit and menu close it.
pub open spec fn game_menu_step(m: PageModel, a: ControllerAction) -> (PageModel, PageActionResult) {
    let g = m.game_menu;
    let len = g.layout@.len() as int;
    let closed = PageModel { game_menu: GameMenuNav { show: false, ..g }, ..m };
    let none = super::no_result();
    match a {
        ControllerAction::Up => (
            PageModel {
                game_menu: GameMenuNav {
                    selected: crate::game_menu::game_menu_move_up_spec(
                        len,
                        g.selected as int,
                    ) as usize,
                    ..g
                },
                ..m
            },
            none,
        ),
        ControllerAction::Down => (
            PageModel {
                game_menu: GameMenuNav {
                    selected: crate::game_menu::game_menu_move_down_spec(
                        len,
                        g.selected as int,
                    ) as usize,
                    ..g
                },
                ..m
            },
            none,
        ),
        ControllerAction::Launch => match g.game_index {
            None => (closed, none),
            Some(game_index) => if g.selected < len {
                match g.layout@[g.selected as int] {
                    GameMenuOption::Details => (
                        open_details_m(closed),
                        PageActionResult { open_achievement_panel: true, ..none },
                    ),
                    GameMenuOption::ForceClose => (
                        closed,
                        PageActionResult { force_close_game_index: Some(game_index), ..none },
                    ),
                    GameMenuOption::ToggleHomeVisibility => if g.home_hidden {
                        (closed, PageActionResult { show_game_on_home: Some(game_index), ..none })
                    } else {
                        (closed, PageActionResult { hide_game_from_home: Some(game_index), ..none })
                    },
                }
            } else {
                (m, none)
            },
        },
        ControllerAction::Quit | ControllerAction::Menu => (closed, none),
        _ => (m, none),
    }
}

impl PowerMenuNav {
    pub(crate) fn step(&mut self, a: ControllerAction) -> (r: PageActionResult)
        ensures
            (*final(self), r) == power_menu_step(*old(self), a),
    {
        let mut result = empty_result();
        match a {
            ControllerAction::Up => {
                self.selected = self.layout.move_up(self.selected);
            },
            ControllerAction::Down => {
                self.selected = self.layout.move_down(self.selected);
            },
            ControllerAction::Launch => {
                match self.layout.option_at(self.selected) {
                    Some(PowerMenuOption::Sleep) => {
                        self.show = false;
                        result.power_action = Some(PowerAction::Sleep);
                    },
                    Some(PowerMenuOption::Reboot) => {
                        self.show = false;
                        result.power_action = Some(PowerAction::Reboot);
                    },
                    Some(PowerMenuOption::Shutdown) => {
                        self.show = false;
                        result.power_action = Some(PowerAction::Shutdown);
                    },
                    None => {},
                }
            },
            ControllerAction::Quit => {
                self.show = false;
            },
            _ => {},
        }
        result
    }
}

impl GameMenuNav {
    /// Moves the selection up or down the menu.
    pub(crate) fn move_selection(&mut self, down: bool)
        ensures
            *final(self) == (GameMenuNav {
                selected: if down {
                    crate::game_menu::game_menu_move_down_spec(
                        old(self).layout@.len() as int,
                        old(self).selected as int,
                    ) as usize
                } else {
                    crate::game_menu::game_menu_move_up_spec(
                        old(self).layout@.len() as int,
                        old(self).selected as int,
                    ) as usize
                },
                ..*old(self)
            }),
    {
        if down {
            self.selected = self.layout.move_down(self.selected);
        } else {
            self.selected = self.layout.move_up(self.selected);
        }
    }
}

} // verus!
