//! The options of the power menu.
use vstd::prelude::*;

verus! {

#[derive(Clone, Copy, Debug, PartialEq, Eq, Structural)]
pub enum PowerMenuOption {
    Sleep,
    Shutdown,
    Reboot,
}

#[derive(Clone, Debug)]
pub struct PowerMenuLayout {
    options: Vec<PowerMenuOption>,
}

/// The selection after moving up: one entry up, stopping at the first.
pub open spec fn power_menu_move_up_spec(len: int, selected: int) -> int {
    let sel = crate::home_menu::clamp_index(len, selected);
    if sel > 0 {
        sel - 1
    } else {
        0
    }
}

/// The selection after moving down: one entry down, stopping at the last.
pub open spec fn power_menu_move_down_spec(len: int, selected: int) -> int {
    let sel = crate::home_menu::clamp_index(len, selected);
    let last = if len > 0 {
        len - 1
    } else {
        0
    };
    if sel + 1 < last {
        sel + 1
    } else {
        last
    }
}

/// Sleep, shut down and restart when power options are offered; none otherwise.
pub open spec fn power_menu_options(show_power_options: bool) -> Seq<PowerMenuOption> {
    if show_power_options {
        seq![PowerMenuOption::Sleep, PowerMenuOption::Shutdown, PowerMenuOption::Reboot]
    } else {
        Seq::empty()
    }
}

impl View for PowerMenuLayout {
    type V = Seq<PowerMenuOption>;

    closed spec fn view(&self) -> Seq<PowerMenuOption> {
        self.options@
    }
}

impl PowerMenuLayout {

    pub fn new(show_power_options: bool) -> (r: Self)
        ensures
            r.view() == power_menu_options(show_power_options),
    {
        let mut options: Vec<PowerMenuOption> = Vec::new();
        if show_power_options {
            options.push(PowerMenuOption::Sleep);
            options.push(PowerMenuOption::Shutdown);
            options.push(PowerMenuOption::Reboot);
        }
        let r = PowerMenuLayout { options };
        assert(r.view() =~= power_menu_options(show_power_options));
        r
    }

    /// The layout without options.
    pub fn empty() -> (r: Self)
        ensures
            r.view() == Seq::<PowerMenuOption>::empty(),
    {
        PowerMenuLayout { options: Vec::new() }
    }

    pub fn options(&self) -> (r: &[PowerMenuOption])
        ensures
            r@ == self.view(),
    {
        self.options.as_slice()
    }

    pub fn is_empty(&self) -> (r: bool)
        ensures
            r == (self.view().len() == 0),
    {
        self.options.len() == 0
    }

    /// The selection moved onto the last option when it lies past it.
    pub fn clamp_selected(&self, selected: usize) -> (r: usize)
        ensures
            r == crate::home_menu::clamp_index(self.view().len() as int, selected as int),
    {
        let last = if self.options.len() > 0 {
            self.options.len() - 1
        } else {
            0
        };
        if selected < last {
            selected
        } else {
            last
        }
    }

    /// The first option (sleep when offered).
    pub fn default_selected(&self) -> (r: usize)
        ensures
            r == 0,
    {
        0
    }

    pub fn option_at(&self, index: usize) -> (r: Option<PowerMenuOption>)
        ensures
            r == (if index < self.view().len() {
                Some(self.view()[index as int])
            } else {
                None
            }),
    {
        if index < self.options.len() {
            Some(self.options[index])
        } else {
            None
        }
    }

    pub fn move_up(&self, selected: usize) -> (r: usize)
        ensures
            r == power_menu_move_up_spec(self.view().len() as int, selected as int),
    {
        let sel = self.clamp_selected(selected);
        if sel > 0 {
            sel - 1
        } else {
            0
        }
    }

    pub fn move_down(&self, selected: usize) -> (r: usize)
        ensures
            r == power_menu_move_down_spec(self.view().len() as int, selected as int),
    {
        let sel = self.clamp_selected(selected);
        let last = if self.options.len() > 0 {
            self.options.len() - 1
        } else {
            0
        };
        if sel < last {
            sel + 1
        } else {
            last
        }
    }
}

} // verus!
