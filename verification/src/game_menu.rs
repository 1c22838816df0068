//! The options of the per-game menu.
use vstd::prelude::*;

verus! {

#[derive(Clone, Copy, Debug, PartialEq, Eq, Structural)]
pub enum GameMenuOption {
    Details,
    ForceClose,
    ToggleHomeVisibility,
}

#[derive(Clone, Debug)]
pub struct GameMenuLayout {
    options: Vec<GameMenuOption>,
}

/// The selection after moving up: one entry up, stopping at the first.
pub open spec fn game_menu_move_up_spec(len: int, selected: int) -> int {
    let sel = crate::home_menu::clamp_index(len, selected);
    if sel > 0 {
        sel - 1
    } else {
        0
    }
}

/// The selection after moving down: one entry down, stopping at the last.
pub open spec fn game_menu_move_down_spec(len: int, selected: int) -> int {
    let sel = crate::home_menu::clamp_index(len, selected);
    let last = if len > 0 {
        len - 1
    } else {
        0
    };
    if sel + 1 < last {
        sel + 1
    } else {
        last
    }
}

/// Details first when offered, then force close when offered, then the
/// home visibility toggle, which is always there.
pub open spec fn game_menu_options(show_force_close: bool, show_details: bool) -> Seq<GameMenuOption> {
    (if show_details {
        seq![GameMenuOption::Details]
    } else {
        Seq::empty()
    }) + (if show_force_close {
        seq![GameMenuOption::ForceClose]
    } else {
        Seq::empty()
    }) + seq![GameMenuOption::ToggleHomeVisibility]
}

impl View for GameMenuLayout {
    type V = Seq<GameMenuOption>;

    closed spec fn view(&self) -> Seq<GameMenuOption> {
        self.options@
    }
}

impl GameMenuLayout {

    pub fn new(show_force_close: bool, show_details: bool) -> (r: Self)
        ensures
            r.view() == game_menu_options(show_force_close, show_details),
    {
        let mut options: Vec<GameMenuOption> = Vec::new();
        if show_details {
            options.push(GameMenuOption::Details);
        }
        if show_force_close {
            options.push(GameMenuOption::ForceClose);
        }
        options.push(GameMenuOption::ToggleHomeVisibility);
        let r = GameMenuLayout { options };
        assert(r.view() =~= game_menu_options(show_force_close, show_details));
        r
    }

    /// The layout without options.
    pub fn empty() -> (r: Self)
        ensures
            r.view() == Seq::<GameMenuOption>::empty(),
    {
        GameMenuLayout { options: Vec::new() }
    }

    pub fn options(&self) -> (r: &[GameMenuOption])
        ensures
            r@ == self.view(),
    {
        self.options.as_slice()
    }

    pub fn is_empty(&self) -> (r: bool)
        ensures
            r == (self.view().len() == 0),
    {
        self.options.len() == 0
    }

    /// The selection moved onto the last option when it lies past it.
    pub fn clamp_selected(&self, selected: usize) -> (r: usize)
        ensures
            r == crate::home_menu::clamp_index(self.view().len() as int, selected as int),
    {
        let last = if self.options.len() > 0 {
            self.options.len() - 1
        } else {
            0
        };
        if selected < last {
            selected
        } else {
            last
        }
    }

    /// The first option.
    pub fn default_selected(&self) -> (r: usize)
        ensures
            r == 0,
    {
        0
    }

    pub fn option_at(&self, index: usize) -> (r: Option<GameMenuOption>)
        ensures
            r == (if index < self.view().len() {
                Some(self.view()[index as int])
            } else {
                None
            }),
    {
        if index < self.options.len() {
            Some(self.options[index])
        } else {
            None
        }
    }

    pub fn move_up(&self, selected: usize) -> (r: usize)
        ensures
            r == game_menu_move_up_spec(self.view().len() as int, selected as int),
    {
        let sel = self.clamp_selected(selected);
        if sel > 0 {
            sel - 1
        } else {
            0
        }
    }

    pub fn move_down(&self, selected: usize) -> (r: usize)
        ensures
            r == game_menu_move_down_spec(self.view().len() as int, selected as int),
    {
        let sel = self.clamp_selected(selected);
        let last = if self.options.len() > 0 {
            self.options.len() - 1
        } else {
            0
        };
        if sel < last {
            sel + 1
        } else {
            last
        }
    }
}

} // verus!
