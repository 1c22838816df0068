//! Which page, menu and entry of the launcher is selected, and how each
//! controller action changes that.
//!
//! The state is kept in one record per page or menu. Animations are kept by
//! the caller: the state records which of them restart (see
//! [`AnimationResets`]), and the caller takes those records after each change.
use vstd::prelude::*;

use crate::config::HomeGameLimit;
use crate::external_apps::ExternalAppKind;
use crate::game_menu::{GameMenuLayout, GameMenuOption};
use crate::power_menu::PowerMenuOption;
use crate::input::ControllerAction;
use crate::power_menu::PowerMenuLayout;

pub mod home;
pub mod menus;
pub mod settings;

verus! {

/// Columns of the game library grid.
pub const GAME_LIBRARY_COLUMNS: usize = 7;

#[derive(Clone, Copy, Debug, PartialEq, Eq, Structural)]
pub enum ScreenSettingsAction {
    SelectResolution(usize),
    SelectRefreshRate(usize),
    SelectScale(usize),
}

#[derive(Clone, Copy, Debug, PartialEq, Eq, Structural)]
pub enum PowerAction {
    Sleep,
    Reboot,
    Shutdown,
}

#[derive(Clone, Copy, Debug, PartialEq, Eq, Structural)]
pub enum SettingsSection {
    System,
    Screen,
    Apps,
    CloseApp,
}

#[derive(Clone, Copy, Debug, PartialEq, Eq, Structural)]
pub enum ScreenDropdown {
    Resolution,
    RefreshRate,
    Scale,
}

#[derive(Clone, Copy, Debug, PartialEq, Eq, Structural)]
pub enum SystemDropdown {
    HomeGameLimit,
}

pub open spec fn section_index(s: SettingsSection) -> int {
    match s {
        SettingsSection::System => 0,
        SettingsSection::Screen => 1,
        SettingsSection::Apps => 2,
        SettingsSection::CloseApp => 3,
    }
}

impl SettingsSection {
    pub fn index(self) -> (r: usize)
        ensures
            r == section_index(self),
    {
        match self {
            SettingsSection::System => 0,
            SettingsSection::Screen => 1,
            SettingsSection::Apps => 2,
            SettingsSection::CloseApp => 3,
        }
    }

    /// The section above, stopping at the first.
    pub fn previous(self) -> (r: Self)
        ensures
            section_index(r) == if section_index(self) > 0 {
                section_index(self) - 1
            } else {
                0
            },
    {
        match self {
            SettingsSection::System => SettingsSection::System,
            SettingsSection::Screen => SettingsSection::System,
            SettingsSection::Apps => SettingsSection::Screen,
            SettingsSection::CloseApp => SettingsSection::Apps,
        }
    }

    /// The section below, stopping at the last.
    pub fn next(self) -> (r: Self)
        ensures
            section_index(r) == if section_index(self) < 3 {
                section_index(self) + 1
            } else {
                3
            },
    {
        match self {
            SettingsSection::System => SettingsSection::Screen,
            SettingsSection::Screen => SettingsSection::Apps,
            SettingsSection::Apps => SettingsSection::CloseApp,
            SettingsSection::CloseApp => SettingsSection::CloseApp,
        }
    }
}

/// What the launcher does after an action besides the page change.
#[derive(Clone, Copy, Debug, PartialEq, Eq, Structural)]
pub struct PageActionResult {
    pub open_achievement_panel: bool,
    pub open_power_menu: bool,
    pub reveal_hidden_achievement: bool,
    pub refresh_achievements: bool,
    pub cycle_display_mode_setting: bool,
    pub cycle_language_setting: bool,
    pub toggle_launch_on_startup: bool,
    pub toggle_background_home_wake: bool,
    pub toggle_controller_vibration_feedback: bool,
    pub toggle_idle_frame_rate_reduction: bool,
    pub toggle_detect_steam_games: bool,
    pub toggle_detect_epic_games: bool,
    pub toggle_detect_xbox_games: bool,
    pub select_home_game_limit: Option<HomeGameLimit>,
    pub launch_selected: bool,
    pub open_game_menu: bool,
    pub force_close_game_index: Option<usize>,
    pub hide_game_from_home: Option<usize>,
    pub show_game_on_home: Option<usize>,
    pub launch_external_app: Option<ExternalAppKind>,
    pub selected_changed: bool,
    pub close_frame: bool,
    pub send_app_to_background: bool,
    pub screen_settings_action: Option<ScreenSettingsAction>,
    pub power_action: Option<PowerAction>,
}

/// Animations that restart because of a change of the page state.
#[derive(Clone, Copy, Debug, PartialEq, Eq, Structural)]
pub struct AnimationResets {
    /// The home selection jumped: its highlight and scroll restart at the new entry.
    pub home_selection: bool,
    /// The home scroll eases to the (clamped) selection.
    pub home_scroll: bool,
    /// The home list was reordered: the scroll jumps to the selection and
    /// its highlight keeps running.
    pub home_relocation: bool,
    /// The achievement list went back to its first entry.
    pub achievement_selection: bool,
    /// The achievement page opened above the game library.
    pub achievement_panel_over_library: bool,
    /// The game library page opened.
    pub game_library_page: bool,
    /// The game library selection moved without animation.
    pub game_library_selection: bool,
    /// The settings page opened.
    pub settings_page: bool,
    /// The power menu opened.
    pub power_menu: bool,
    /// The game menu opened.
    pub game_menu: bool,
}

pub open spec fn no_resets() -> AnimationResets {
    AnimationResets {
        home_selection: false,
        home_scroll: false,
        home_relocation: false,
        achievement_selection: false,
        achievement_panel_over_library: false,
        game_library_page: false,
        game_library_selection: false,
        settings_page: false,
        power_menu: false,
        game_menu: false,
    }
}

pub open spec fn no_result() -> PageActionResult {
    PageActionResult {
        open_achievement_panel: false,
        open_power_menu: false,
        reveal_hidden_achievement: false,
        refresh_achievements: false,
        cycle_display_mode_setting: false,
        cycle_language_setting: false,
        toggle_launch_on_startup: false,
        toggle_background_home_wake: false,
        toggle_controller_vibration_feedback: false,
        toggle_idle_frame_rate_reduction: false,
        toggle_detect_steam_games: false,
        toggle_detect_epic_games: false,
        toggle_detect_xbox_games: false,
        select_home_game_limit: None,
        launch_selected: false,
        open_game_menu: false,
        force_close_game_index: None,
        hide_game_from_home: None,
        show_game_on_home: None,
        launch_external_app: None,
        selected_changed: false,
        close_frame: false,
        send_app_to_background: false,
        screen_settings_action: None,
        power_action: None,
    }
}

/// The home list and the two buttons above it.
#[derive(Clone, Copy, Debug, PartialEq, Eq, Structural)]
pub struct HomeNav {
    pub selected: usize,
    pub settings_selected: bool,
    pub power_selected: bool,
    /// The direction of the last cover move: -1 left, 1 right, 0 none yet.
    pub cover_nav_dir: i8,
}

pub struct PowerMenuNav {
    pub show: bool,
    pub selected: usize,
    pub layout: PowerMenuLayout,
}

pub struct GameMenuNav {
    pub show: bool,
    pub selected: usize,
    pub layout: GameMenuLayout,
    pub game_index: Option<usize>,
    pub home_hidden: bool,
}

/// The system list of the settings page and its home game limit dropdown.
#[derive(Clone, Copy, Debug, PartialEq, Eq, Structural)]
pub struct SystemSettingsNav {
    pub selected: usize,
    pub dropdown: Option<SystemDropdown>,
    pub limit_selected: usize,
    pub limit_current: usize,
}

/// The screen list of the settings page, its dropdowns, and the number of
/// entries and current entry of each.
#[derive(Clone, Copy, Debug, PartialEq, Eq, Structural)]
pub struct ScreenSettingsNav {
    pub selected: usize,
    pub dropdown: Option<ScreenDropdown>,
    pub dropdown_selected: usize,
    pub resolution_count: usize,
    pub refresh_count: usize,
    pub scale_count: usize,
    pub current_resolution: usize,
    pub current_refresh: usize,
    pub current_scale: usize,
}

#[derive(Clone, Copy, Debug, PartialEq, Eq, Structural)]
pub struct SettingsNav {
    pub show: bool,
    pub section: SettingsSection,
    pub in_submenu: bool,
    pub system: SystemSettingsNav,
    pub screen: ScreenSettingsNav,
    pub apps_selected: usize,
}

#[derive(Clone, Copy, Debug, PartialEq, Eq, Structural)]
pub struct AchievementNav {
    pub show: bool,
    pub from_game_library: bool,
    pub selected: usize,
}

#[derive(Clone, Copy, Debug, PartialEq, Eq, Structural)]
pub struct LibraryNav {
    pub show: bool,
    pub selected: usize,
}

/// The navigation state of the launcher pages.
pub struct PageModel {
    pub home: HomeNav,
    pub power: PowerMenuNav,
    pub game_menu: GameMenuNav,
    pub settings: SettingsNav,
    pub achievement: AchievementNav,
    pub library: LibraryNav,
    pub resets: AnimationResets,
}

/// What the launcher shows around the pages when an action comes.
pub struct ActionContext {
    pub home_items_len: usize,
    pub selected_home_item_is_library: bool,
    pub selected_game_index: Option<usize>,
    pub games_len: usize,
    pub can_open_achievement_panel: bool,
    pub achievement_len: usize,
}

pub open spec fn initial_settings() -> SettingsNav {
    SettingsNav {
        show: false,
        section: SettingsSection::System,
        in_submenu: false,
        system: SystemSettingsNav {
            selected: 0,
            dropdown: None,
            limit_selected: 4,
            limit_current: 4,
        },
        screen: ScreenSettingsNav {
            selected: 0,
            dropdown: None,
            dropdown_selected: 0,
            resolution_count: 1,
            refresh_count: 1,
            scale_count: 1,
            current_resolution: 0,
            current_refresh: 0,
            current_scale: 0,
        },
        apps_selected: 0,
    }
}

/// The page state and outcome after a controller action. The first open
/// layer takes the action: the power menu, the game menu, the settings
/// page, the achievement panel, the game library, the selected top
/// buttons, and finally the home list.
pub open spec fn page_step(m: PageModel, a: ControllerAction, ctx: ActionContext) -> (
    PageModel,
    PageActionResult,
) {
    if m.power.show {
        let (p, r) = menus::power_menu_step(m.power, a);
        (PageModel { power: p, ..m }, r)
    } else if m.game_menu.show {
        menus::game_menu_step(m, a)
    } else if m.settings.show {
        let (s, r) = settings::settings_step(m.settings, a);
        (PageModel { settings: s, ..m }, r)
    } else if m.achievement.show {
        home::achievement_step(m, a, ctx.achievement_len)
    } else if m.library.show {
        let (l, r) = home::library_step(m.library, a, ctx.games_len);
        (PageModel { library: l, ..m }, r)
    } else if m.home.power_selected {
        let (h, r) = home::home_power_step(m.home, a);
        (PageModel { home: h, ..m }, r)
    } else if m.home.settings_selected {
        home::home_settings_step(m, a)
    } else {
        home::main_step(m, a, ctx)
    }
}

/// The home selection stays on the list: an action never moves it past
/// the last entry of a non-empty home list.
pub proof fn lemma_home_selection_stays_on_list(m: PageModel, a: ControllerAction, ctx: ActionContext)
    requires
        m.home.selected < ctx.home_items_len,
    ensures
        page_step(m, a, ctx).0.home.selected < ctx.home_items_len,
{
}

/// The game library selection stays on the library: an action never moves
/// it past the last game, when the game selected on the home list is one
/// of the library.
pub proof fn lemma_library_selection_stays_on_library(m: PageModel, a: ControllerAction, ctx: ActionContext)
    requires
        m.library.selected < ctx.games_len,
        ctx.selected_game_index matches Some(i) ==> i < ctx.games_len,
    ensures
        page_step(m, a, ctx).0.library.selected < ctx.games_len,
{
}

/// On the game library page, when it is the page that takes the action,
/// the arrows move the selection through the grid of games: Left one game
/// back, Right one game on, Up one row back and Down one row on, each where
/// that game exists; otherwise the selection stays.
pub proof fn lemma_library_arrows_move_selection(m: PageModel, ctx: ActionContext)
    requires
        !m.power.show,
        !m.game_menu.show,
        !m.settings.show,
        !m.achievement.show,
        m.library.show,
    ensures
        m.library.selected > 0 ==> page_step(m, ControllerAction::Left, ctx).0.library.selected
            == m.library.selected - 1 && page_step(m, ControllerAction::Left, ctx).1.selected_changed,
        m.library.selected == 0 ==> page_step(m, ControllerAction::Left, ctx).0.library.selected
            == 0 && !page_step(m, ControllerAction::Left, ctx).1.selected_changed,
        m.library.selected + 1 < ctx.games_len ==> page_step(
            m,
            ControllerAction::Right,
            ctx,
        ).0.library.selected == m.library.selected + 1 && page_step(
            m,
            ControllerAction::Right,
            ctx,
        ).1.selected_changed,
        m.library.selected + 1 >= ctx.games_len ==> page_step(
            m,
            ControllerAction::Right,
            ctx,
        ).0.library.selected == m.library.selected,
        m.library.selected >= GAME_LIBRARY_COLUMNS ==> page_step(
            m,
            ControllerAction::Up,
            ctx,
        ).0.library.selected == m.library.selected - GAME_LIBRARY_COLUMNS,
        m.library.selected < GAME_LIBRARY_COLUMNS ==> page_step(
            m,
            ControllerAction::Up,
            ctx,
        ).0.library.selected == m.library.selected,
        m.library.selected + GAME_LIBRARY_COLUMNS < ctx.games_len ==> page_step(
            m,
            ControllerAction::Down,
            ctx,
        ).0.library.selected == m.library.selected + GAME_LIBRARY_COLUMNS,
        m.library.selected + GAME_LIBRARY_COLUMNS >= ctx.games_len ==> page_step(
            m,
            ControllerAction::Down,
            ctx,
        ).0.library.selected == m.library.selected,
        page_step(m, ControllerAction::Left, ctx).0.library.show,
        page_step(m, ControllerAction::Right, ctx).0.library.show,
        page_step(m, ControllerAction::Up, ctx).0.library.show,
        page_step(m, ControllerAction::Down, ctx).0.library.show,
        page_step(m, ControllerAction::Launch, ctx).1.launch_selected == (ctx.games_len > 0),
        page_step(m, ControllerAction::Launch, ctx).0.library == m.library,
        page_step(m, ControllerAction::Menu, ctx).1.open_game_menu == (ctx.games_len > 0),
        !page_step(m, ControllerAction::Quit, ctx).0.library.show,
        page_step(m, ControllerAction::Quit, ctx).0.library.selected == m.library.selected,
{
}

/// The achievement selection stays on the list of achievements.
pub proof fn lemma_achievement_selection_stays_on_list(m: PageModel, a: ControllerAction, ctx: ActionContext)
    requires
        m.achievement.selected < ctx.achievement_len,
    ensures
        page_step(m, a, ctx).0.achievement.selected < ctx.achievement_len,
{
}

/// The power menu selection stays on the menu while it is open.
pub proof fn lemma_power_menu_selection_stays_on_menu(m: PageModel, a: ControllerAction, ctx: ActionContext)
    requires
        m.power.show,
        m.power.selected < m.power.layout@.len(),
    ensures
        page_step(m, a, ctx).0.power.show ==> page_step(m, a, ctx).0.power.selected
            < page_step(m, a, ctx).0.power.layout@.len(),
{
}

/// The game menu selection stays on the menu while it is open.
pub proof fn lemma_game_menu_selection_stays_on_menu(m: PageModel, a: ControllerAction, ctx: ActionContext)
    requires
        m.game_menu.show,
        m.game_menu.selected < m.game_menu.layout@.len(),
    ensures
        page_step(m, a, ctx).0.game_menu.show ==> page_step(m, a, ctx).0.game_menu.selected
            < page_step(m, a, ctx).0.game_menu.layout@.len(),
{
}

pub(crate) fn empty_result() -> (r: PageActionResult)
    ensures
        r == no_result(),
{
    PageActionResult {
        open_achievement_panel: false,
        open_power_menu: false,
        reveal_hidden_achievement: false,
        refresh_achievements: false,
        cycle_display_mode_setting: false,
        cycle_language_setting: false,
        toggle_launch_on_startup: false,
        toggle_background_home_wake: false,
        toggle_controller_vibration_feedback: false,
        toggle_idle_frame_rate_reduction: false,
        toggle_detect_steam_games: false,
        toggle_detect_epic_games: false,
        toggle_detect_xbox_games: false,
        select_home_game_limit: None,
        launch_selected: false,
        open_game_menu: false,
        force_close_game_index: None,
        hide_game_from_home: None,
        show_game_on_home: None,
        launch_external_app: None,
        selected_changed: false,
        close_frame: false,
        send_app_to_background: false,
        screen_settings_action: None,
        power_action: None,
    }
}

fn no_animation_resets() -> (r: AnimationResets)
    ensures
        r == no_resets(),
{
    AnimationResets {
        home_selection: false,
        home_scroll: false,
        home_relocation: false,
        achievement_selection: false,
        achievement_panel_over_library: false,
        game_library_page: false,
        game_library_selection: false,
        settings_page: false,
        power_menu: false,
        game_menu: false,
    }
}

pub(crate) fn saturating_pred(n: usize) -> (r: usize)
    ensures
        r == if n > 0 {
            (n - 1) as usize
        } else {
            0usize
        },
{
    if n > 0 {
        n - 1
    } else {
        0
    }
}

pub(crate) fn min_usize(value: usize, max: usize) -> (r: usize)
    ensures
        r == if value < max {
            value
        } else {
            max
        },
{
    if value < max {
        value
    } else {
        max
    }
}

pub struct PageState {
    home: HomeNav,
    power: PowerMenuNav,
    game_menu: GameMenuNav,
    settings: SettingsNav,
    achievement: AchievementNav,
    library: LibraryNav,
    resets: AnimationResets,
}

impl View for PageState {
    type V = PageModel;

    closed spec fn view(&self) -> PageModel {
        PageModel {
            home: self.home,
            power: self.power,
            game_menu: self.game_menu,
            settings: self.settings,
            achievement: self.achievement,
            library: self.library,
            resets: self.resets,
        }
    }
}

impl PageState {
    pub fn new() -> (r: Self)
        ensures
            r@.home == (HomeNav {
                selected: 0,
                settings_selected: false,
                power_selected: false,
                cover_nav_dir: 0,
            }),
            !r@.power.show,
            r@.power.selected == 0,
            r@.power.layout@.len() == 0,
            !r@.game_menu.show,
            r@.game_menu.selected == 0,
            r@.game_menu.layout@.len() == 0,
            r@.game_menu.game_index is None,
            !r@.game_menu.home_hidden,
            r@.settings == initial_settings(),
            r@.achievement == (AchievementNav { show: false, from_game_library: false, selected: 0 }),
            r@.library == (LibraryNav { show: false, selected: 0 }),
            r@.resets == no_resets(),
    {
        let limit = HomeGameLimit::Limited(9).option_index();
        PageState {
            home: HomeNav {
                selected: 0,
                settings_selected: false,
                power_selected: false,
                cover_nav_dir: 0,
            },
            power: PowerMenuNav { show: false, selected: 0, layout: PowerMenuLayout::empty() },
            game_menu: GameMenuNav {
                show: false,
                selected: 0,
                layout: GameMenuLayout::empty(),
                game_index: None,
                home_hidden: false,
            },
            settings: SettingsNav {
                show: false,
                section: SettingsSection::System,
                in_submenu: false,
                system: SystemSettingsNav {
                    selected: 0,
                    dropdown: None,
                    limit_selected: limit,
                    limit_current: limit,
                },
                screen: ScreenSettingsNav {
                    selected: 0,
                    dropdown: None,
                    dropdown_selected: 0,
                    resolution_count: 1,
                    refresh_count: 1,
                    scale_count: 1,
                    current_resolution: 0,
                    current_refresh: 0,
                    current_scale: 0,
                },
                apps_selected: 0,
            },
            achievement: AchievementNav { show: false, from_game_library: false, selected: 0 },
            library: LibraryNav { show: false, selected: 0 },
            resets: no_animation_resets(),
        }
    }

    // -----------------------------------------------------------------------
    // Reads.
    // -----------------------------------------------------------------------
    pub fn selected(&self) -> (r: usize)
        ensures
            r == self@.home.selected,
    {
        self.home.selected
    }

    pub fn home_settings_selected(&self) -> (r: bool)
        ensures
            r == self@.home.settings_selected,
    {
        self.home.settings_selected
    }

    pub fn home_power_selected(&self) -> (r: bool)
        ensures
            r == self@.home.power_selected,
    {
        self.home.power_selected
    }

    pub fn home_top_button_selected(&self) -> (r: bool)
        ensures
            r == (self@.home.settings_selected || self@.home.power_selected),
    {
        self.home.settings_selected || self.home.power_selected
    }

    /// The direction of the last move along the home list: -1 left, 1 right.
    pub fn cover_nav_dir(&self) -> (r: i8)
        ensures
            r == self@.home.cover_nav_dir,
    {
        self.home.cover_nav_dir
    }

    pub fn show_achievement_panel(&self) -> (r: bool)
        ensures
            r == self@.achievement.show,
    {
        self.achievement.show
    }

    pub fn achievement_from_game_library(&self) -> (r: bool)
        ensures
            r == self@.achievement.from_game_library,
    {
        self.achievement.from_game_library
    }

    pub fn achievement_selected(&self) -> (r: usize)
        ensures
            r == self@.achievement.selected,
    {
        self.achievement.selected
    }

    pub fn show_power_menu(&self) -> (r: bool)
        ensures
            r == self@.power.show,
    {
        self.power.show
    }

    pub fn power_menu_selected(&self) -> (r: usize)
        ensures
            r == self@.power.selected,
    {
        self.power.selected
    }

    pub fn power_menu_layout(&self) -> (r: &PowerMenuLayout)
        ensures
            *r == self@.power.layout,
    {
        &self.power.layout
    }

    pub fn show_game_menu(&self) -> (r: bool)
        ensures
            r == self@.game_menu.show,
    {
        self.game_menu.show
    }

    pub fn game_menu_selected(&self) -> (r: usize)
        ensures
            r == self@.game_menu.selected,
    {
        self.game_menu.selected
    }

    pub fn game_menu_layout(&self) -> (r: &GameMenuLayout)
        ensures
            *r == self@.game_menu.layout,
    {
        &self.game_menu.layout
    }

    pub fn game_menu_game_index(&self) -> (r: Option<usize>)
        ensures
            r == self@.game_menu.game_index,
    {
        self.game_menu.game_index
    }

    pub fn game_menu_home_hidden(&self) -> (r: bool)
        ensures
            r == self@.game_menu.home_hidden,
    {
        self.game_menu.home_hidden
    }

    pub fn show_game_library_page(&self) -> (r: bool)
        ensures
            r == self@.library.show,
    {
        self.library.show
    }

    pub fn game_library_selected(&self) -> (r: usize)
        ensures
            r == self@.library.selected,
    {
        self.library.selected
    }

    pub fn show_settings_page(&self) -> (r: bool)
        ensures
            r == self@.settings.show,
    {
        self.settings.show
    }

    /// The highlighted entry of the settings page while it is shown.
    pub fn settings_focus_key(&self) -> (r: Option<u16>)
        ensures
            r == (if self@.settings.show {
                Some(settings::settings_selection_key_spec(self@.settings))
            } else {
                None
            }),
    {
        if self.settings.show {
            Some(self.settings.selection_key())
        } else {
            None
        }
    }

    pub fn settings_section_index(&self) -> (r: usize)
        ensures
            r == section_index(self@.settings.section),
    {
        self.settings.section.index()
    }

    pub fn settings_in_submenu(&self) -> (r: bool)
        ensures
            r == self@.settings.in_submenu,
    {
        self.settings.in_submenu
    }

    pub fn settings_selected_item_index(&self) -> (r: usize)
        ensures
            r == match self@.settings.section {
                SettingsSection::System => self@.settings.system.selected,
                SettingsSection::Screen => self@.settings.screen.selected,
                SettingsSection::Apps => self@.settings.apps_selected,
                SettingsSection::CloseApp => 0,
            },
    {
        match self.settings.section {
            SettingsSection::System => self.settings.system.selected,
            SettingsSection::Screen => self.settings.screen.selected,
            SettingsSection::Apps => self.settings.apps_selected,
            SettingsSection::CloseApp => 0,
        }
    }

    pub fn settings_screen_resolution_dropdown_open(&self) -> (r: bool)
        ensures
            r == (self@.settings.screen.dropdown == Some(ScreenDropdown::Resolution)),
    {
        match self.settings.screen.dropdown {
            Some(ScreenDropdown::Resolution) => true,
            _ => false,
        }
    }

    pub fn settings_screen_refresh_dropdown_open(&self) -> (r: bool)
        ensures
            r == (self@.settings.screen.dropdown == Some(ScreenDropdown::RefreshRate)),
    {
        match self.settings.screen.dropdown {
            Some(ScreenDropdown::RefreshRate) => true,
            _ => false,
        }
    }

    pub fn settings_screen_scale_dropdown_open(&self) -> (r: bool)
        ensures
            r == (self@.settings.screen.dropdown == Some(ScreenDropdown::Scale)),
    {
        match self.settings.screen.dropdown {
            Some(ScreenDropdown::Scale) => true,
            _ => false,
        }
    }

    pub fn settings_home_game_limit_dropdown_open(&self) -> (r: bool)
        ensures
            r == (self@.settings.system.dropdown is Some),
    {
        self.settings.system.dropdown.is_some()
    }

    pub fn settings_screen_dropdown_selected_index(&self) -> (r: usize)
        ensures
            r == self@.settings.screen.dropdown_selected,
    {
        self.settings.screen.dropdown_selected
    }

    pub fn settings_home_game_limit_dropdown_selected_index(&self) -> (r: usize)
        ensures
            r == self@.settings.system.limit_selected,
    {
        self.settings.system.limit_selected
    }

    /// The animation restarts recorded since the last call; the record is cleared.
    pub fn take_animation_resets(&mut self) -> (r: AnimationResets)
        ensures
            r == old(self)@.resets,
            final(self)@ == (PageModel { resets: no_resets(), ..old(self)@ }),
    {
        let r = self.resets;
        self.resets = no_animation_resets();
        r
    }

    // -----------------------------------------------------------------------
    // Updates from the rest of the launcher.
    // -----------------------------------------------------------------------
    /// Selects a home entry at once, without animation.
    pub fn force_select(&mut self, selected: usize)
        ensures
            final(self)@ == home::reset_achievement_selection_m(
                PageModel {
                    home: HomeNav { selected, ..old(self)@.home },
                    resets: AnimationResets { home_selection: true, ..old(self)@.resets },
                    ..old(self)@
                },
            ),
    {
        self.home.selected = selected;
        self.resets.home_selection = true;
        self.reset_achievement_selection();
    }

    /// Takes the current home game limit from the configuration.
    pub fn sync_home_game_limit(&mut self, home_game_limit: HomeGameLimit)
        ensures
            final(self)@ == (PageModel {
                settings: settings::sync_home_game_limit_spec(old(self)@.settings, home_game_limit),
                ..old(self)@
            }),
    {
        self.settings.sync_home_game_limit(home_game_limit);
    }

    /// Takes the entry counts and current values of the screen settings.
    pub fn sync_screen_settings(
        &mut self,
        resolution_count: usize,
        selected_resolution_index: usize,
        refresh_count: usize,
        selected_refresh_index: usize,
        scale_count: usize,
        selected_scale_index: usize,
    )
        ensures
            final(self)@ == (PageModel {
                settings: SettingsNav {
                    screen: settings::sync_screen_spec(
                        old(self)@.settings.screen,
                        resolution_count,
                        selected_resolution_index,
                        refresh_count,
                        selected_refresh_index,
                        scale_count,
                        selected_scale_index,
                    ),
                    ..old(self)@.settings
                },
                ..old(self)@
            }),
    {
        self.settings.screen.sync(
            resolution_count,
            selected_resolution_index,
            refresh_count,
            selected_refresh_index,
            scale_count,
            selected_scale_index,
        );
    }

    /// Moves the home selection to a new index after the list was reordered,
    /// without restarting its animation.
    pub fn relocate_selection(&mut self, selected: usize)
        ensures
            final(self)@ == (PageModel {
                home: HomeNav { selected, ..old(self)@.home },
                resets: AnimationResets { home_relocation: true, ..old(self)@.resets },
                ..old(self)@
            }),
    {
        self.home.selected = selected;
        self.resets.home_relocation = true;
    }

    /// Moves the library selection to a new index after the list was reordered.
    pub fn relocate_library_selection(&mut self, selected: usize)
        ensures
            final(self)@ == (PageModel {
                library: LibraryNav { selected, ..old(self)@.library },
                resets: AnimationResets { game_library_selection: true, ..old(self)@.resets },
                ..old(self)@
            }),
    {
        self.library.selected = selected;
        self.resets.game_library_selection = true;
    }

    /// Keeps the home selection inside a list of `home_items_len` entries.
    pub fn clamp_home_selection(&mut self, home_items_len: usize)
        ensures
            final(self)@ == (PageModel {
                home: HomeNav {
                    selected: crate::home_menu::clamp_index(home_items_len as int, old(self)@.home.selected as int) as usize,
                    ..old(self)@.home
                },
                resets: AnimationResets { home_scroll: true, ..old(self)@.resets },
                ..old(self)@
            }),
    {
        let last = saturating_pred(home_items_len);
        self.home.selected = min_usize(self.home.selected, last);
        self.resets.home_scroll = true;
    }

    /// Keeps the library selection inside a list of `games_len` games.
    pub fn clamp_library_selection(&mut self, games_len: usize)
        ensures
            final(self)@ == (PageModel {
                library: LibraryNav {
                    selected: crate::home_menu::clamp_index(games_len as int, old(self)@.library.selected as int) as usize,
                    ..old(self)@.library
                },
                ..old(self)@
            }),
    {
        let last = saturating_pred(games_len);
        self.library.selected = min_usize(self.library.selected, last);
    }

    /// Opens the power menu with its options, at the first one.
    pub fn open_power_menu(&mut self, layout: PowerMenuLayout)
        ensures
            final(self)@ == (PageModel {
                power: PowerMenuNav { show: true, selected: 0, layout },
                resets: AnimationResets { power_menu: true, ..old(self)@.resets },
                ..old(self)@
            }),
    {
        let default_selected = layout.default_selected();
        self.power = PowerMenuNav { show: true, selected: default_selected, layout };
        self.resets.power_menu = true;
    }

    /// Opens the menu of a game at its first option, and closes the power menu.
    pub fn open_game_menu(
        &mut self,
        game_index: usize,
        show_force_close: bool,
        home_hidden: bool,
        show_details: bool,
    )
        ensures
            final(self)@.game_menu.show,
            final(self)@.game_menu.selected == 0,
            final(self)@.game_menu.layout@ == crate::game_menu::game_menu_options(
                show_force_close,
                show_details,
            ),
            final(self)@.game_menu.game_index == Some(game_index),
            final(self)@.game_menu.home_hidden == home_hidden,
            final(self)@.power == (PowerMenuNav { show: false, ..old(self)@.power }),
            final(self)@.resets == (AnimationResets { game_menu: true, ..old(self)@.resets }),
            final(self)@.home == old(self)@.home,
            final(self)@.settings == old(self)@.settings,
            final(self)@.achievement == old(self)@.achievement,
            final(self)@.library == old(self)@.library,
    {
        let layout = GameMenuLayout::new(show_force_close, show_details);
        let default_selected = layout.default_selected();
        self.game_menu = GameMenuNav {
            show: true,
            selected: default_selected,
            layout,
            game_index: Some(game_index),
            home_hidden,
        };
        self.resets.game_menu = true;
        self.power.show = false;
    }

    /// Opens the game library page at a game.
    pub fn open_game_library_page(&mut self, selected_game_index: usize)
        ensures
            final(self)@ == home::open_game_library_m(old(self)@, selected_game_index),
    {
        self.power.show = false;
        self.game_menu.show = false;
        self.close_achievement_panel();
        self.home.clear_top();
        self.library = LibraryNav { show: true, selected: selected_game_index };
        self.resets.game_library_page = true;
    }

    /// The achievement page finished closing: it no longer stands over the library.
    pub fn on_achievement_panel_hidden(&mut self)
        ensures
            final(self)@ == (if !old(self)@.achievement.show {
                PageModel {
                    achievement: AchievementNav { from_game_library: false, ..old(self)@.achievement },
                    ..old(self)@
                }
            } else {
                old(self)@
            }),
    {
        if !self.achievement.show {
            self.achievement.from_game_library = false;
        }
    }

    /// The power menu finished closing: its selection returns to the first entry.
    pub fn on_power_menu_hidden(&mut self)
        ensures
            final(self)@ == (if !old(self)@.power.show {
                PageModel { power: PowerMenuNav { selected: 0, ..old(self)@.power }, ..old(self)@ }
            } else {
                old(self)@
            }),
    {
        if !self.power.show {
            self.power.selected = 0;
        }
    }

    /// The game menu finished closing: it forgets its game and selection.
    pub fn on_game_menu_hidden(&mut self)
        ensures
            final(self)@ == (if !old(self)@.game_menu.show {
                PageModel {
                    game_menu: GameMenuNav { selected: 0, game_index: None, ..old(self)@.game_menu },
                    ..old(self)@
                }
            } else {
                old(self)@
            }),
    {
        if !self.game_menu.show {
            self.game_menu.selected = 0;
            self.game_menu.game_index = None;
        }
    }

    // -----------------------------------------------------------------------
    // Actions.
    // -----------------------------------------------------------------------
    /// An action on the home list where the selected entry is a game.
    pub fn handle_action(
        &mut self,
        action: &ControllerAction,
        games_len: usize,
        can_open_achievement_panel: bool,
        achievement_len: usize,
    ) -> (r: PageActionResult)
        ensures
            (final(self)@, r) == page_step(
                old(self)@,
                *action,
                ActionContext {
                    home_items_len: games_len,
                    selected_home_item_is_library: false,
                    selected_game_index: Some(old(self)@.home.selected),
                    games_len,
                    can_open_achievement_panel,
                    achievement_len,
                },
            ),
    {
        let selected = self.home.selected;
        self.handle_action_with_context(
            action,
            games_len,
            false,
            Some(selected),
            games_len,
            can_open_achievement_panel,
            achievement_len,
        )
    }

    /// An action, with what the launcher shows around the pages.
    pub fn handle_action_with_context(
        &mut self,
        action: &ControllerAction,
        home_items_len: usize,
        selected_home_item_is_library: bool,
        selected_game_index: Option<usize>,
        games_len: usize,
        can_open_achievement_panel: bool,
        achievement_len: usize,
    ) -> (r: PageActionResult)
        ensures
            (final(self)@, r) == page_step(
                old(self)@,
                *action,
                ActionContext {
                    home_items_len,
                    selected_home_item_is_library,
                    selected_game_index,
                    games_len,
                    can_open_achievement_panel,
                    achievement_len,
                },
            ),
    {
        let a = *action;
        if self.power.show {
            self.power.step(a)
        } else if self.game_menu.show {
            self.game_menu_action(a)
        } else if self.settings.show {
            self.settings.step(a)
        } else if self.achievement.show {
            self.achievement_action(a, achievement_len)
        } else if self.library.show {
            self.library.step(a, games_len)
        } else if self.home.power_selected {
            self.home.power_step(a)
        } else if self.home.settings_selected {
            self.home_settings_action(a)
        } else {
            self.main_action(
                a,
                home_items_len,
                selected_home_item_is_library,
                selected_game_index,
                can_open_achievement_panel,
            )
        }
    }

    fn game_menu_action(&mut self, a: ControllerAction) -> (r: PageActionResult)
        ensures
            (final(self)@, r) == menus::game_menu_step(old(self)@, a),
    {
        let mut result = empty_result();
        match a {
            ControllerAction::Up => {
                self.game_menu.move_selection(false);
            },
            ControllerAction::Down => {
                self.game_menu.move_selection(true);
            },
            ControllerAction::Launch => {
                let game_index = match self.game_menu.game_index {
                    Some(i) => i,
                    None => {
                        self.game_menu.show = false;
                        return result;
                    },
                };
                match self.game_menu.layout.option_at(self.game_menu.selected) {
                    Some(GameMenuOption::Details) => {
                        self.show_details_from_game_menu();
                        result.open_achievement_panel = true;
                    },
                    Some(GameMenuOption::ForceClose) => {
                        self.game_menu.show = false;
                        result.force_close_game_index = Some(game_index);
                    },
                    Some(GameMenuOption::ToggleHomeVisibility) => {
                        self.game_menu.show = false;
                        if self.game_menu.home_hidden {
                            result.show_game_on_home = Some(game_index);
                        } else {
                            result.hide_game_from_home = Some(game_index);
                        }
                    },
                    None => {},
                }
            },
            ControllerAction::Quit | ControllerAction::Menu => {
                self.game_menu.show = false;
            },
            _ => {},
        }
        result
    }

    fn achievement_action(&mut self, a: ControllerAction, achievement_len: usize) -> (r:
        PageActionResult)
        ensures
            (final(self)@, r) == home::achievement_step(old(self)@, a, achievement_len),
    {
        let mut result = empty_result();
        match a {
            ControllerAction::Up => {
                if self.achievement.selected > 0 {
                    self.achievement.selected = self.achievement.selected - 1;
                } else if !self.achievement.from_game_library {
                    self.close_achievement_panel();
                }
            },
            ControllerAction::Down => {
                if self.achievement.selected < achievement_len && self.achievement.selected + 1
                    < achievement_len {
                    self.achievement.selected = self.achievement.selected + 1;
                }
            },
            ControllerAction::Quit => {
                self.close_achievement_panel();
            },
            ControllerAction::Launch => {
                result.reveal_hidden_achievement = true;
            },
            ControllerAction::Refresh => {
                result.refresh_achievements = true;
            },
            _ => {},
        }
        result
    }

    fn home_settings_action(&mut self, a: ControllerAction) -> (r: PageActionResult)
        ensures
            (final(self)@, r) == home::home_settings_step(old(self)@, a),
    {
        let result = empty_result();
        match a {
            ControllerAction::Left => {
                self.home.select_power();
            },
            ControllerAction::Down | ControllerAction::Quit => {
                self.home.clear_top();
            },
            ControllerAction::Launch => {
                self.open_settings_page();
            },
            _ => {},
        }
        result
    }

    fn main_action(
        &mut self,
        a: ControllerAction,
        home_items_len: usize,
        selected_home_item_is_library: bool,
        selected_game_index: Option<usize>,
        can_open_achievement_panel: bool,
    ) -> (r: PageActionResult)
        ensures
            (final(self)@, r) == home::main_step(
                old(self)@,
                a,
                ActionContext {
                    home_items_len,
                    selected_home_item_is_library,
                    selected_game_index,
                    games_len: 0,
                    can_open_achievement_panel,
                    achievement_len: 0,
                },
            ),
    {
        let mut result = empty_result();
        match a {
            ControllerAction::Left => {
                if self.home.selected > 0 {
                    self.move_home_selection(self.home.selected - 1, -1);
                    result.selected_changed = true;
                }
            },
            ControllerAction::Right => {
                if self.home.selected < home_items_len && self.home.selected + 1 < home_items_len {
                    self.move_home_selection(self.home.selected + 1, 1);
                    result.selected_changed = true;
                }
            },
            ControllerAction::Down => {
                if can_open_achievement_panel {
                    self.open_achievements_from_home();
                    result.open_achievement_panel = true;
                }
            },
            ControllerAction::Launch => {
                if selected_home_item_is_library {
                    let index = match selected_game_index {
                        Some(i) => i,
                        None => 0,
                    };
                    self.open_game_library_page(index);
                } else {
                    result.launch_selected = true;
                }
            },
            ControllerAction::Menu => {
                result.open_game_menu = !selected_home_item_is_library
                    && selected_game_index.is_some();
            },
            ControllerAction::Refresh => {},
            ControllerAction::Settings => {
                self.home.select_settings();
            },
            ControllerAction::Quit => {
                if self.home.selected > 0 {
                    self.move_home_selection(0, -1);
                    result.selected_changed = true;
                }
            },
            ControllerAction::Up => {
                self.home.select_power();
            },
        }
        result
    }

    // -----------------------------------------------------------------------
    // Shared changes.
    // -----------------------------------------------------------------------
    fn show_details_from_game_menu(&mut self)
        ensures
            final(self)@ == menus::open_details_m(
                PageModel {
                    game_menu: GameMenuNav { show: false, ..old(self)@.game_menu },
                    ..old(self)@
                },
            ),
    {
        self.game_menu.show = false;
        let from_library = self.library.show;
        self.achievement.from_game_library = from_library;
        self.achievement.show = true;
        if from_library {
            self.resets.achievement_panel_over_library = true;
        }
        self.reset_achievement_selection();
    }

    /// The home selection moves to `selected`, in direction `dir`.
    fn move_home_selection(&mut self, selected: usize, dir: i8)
        ensures
            final(self)@ == home::reset_achievement_selection_m(
                PageModel {
                    home: HomeNav { selected, cover_nav_dir: dir, ..old(self)@.home },
                    ..old(self)@
                },
            ),
    {
        self.home.selected = selected;
        self.home.cover_nav_dir = dir;
        self.reset_achievement_selection();
    }

    fn open_achievements_from_home(&mut self)
        ensures
            final(self)@ == home::reset_achievement_selection_m(
                PageModel {
                    achievement: AchievementNav {
                        show: true,
                        from_game_library: false,
                        ..old(self)@.achievement
                    },
                    ..old(self)@
                },
            ),
    {
        self.achievement.from_game_library = false;
        self.achievement.show = true;
        self.reset_achievement_selection();
    }

    fn reset_achievement_selection(&mut self)
        ensures
            final(self)@ == home::reset_achievement_selection_m(old(self)@),
    {
        self.achievement.selected = 0;
        self.resets.achievement_selection = true;
    }

    fn close_achievement_panel(&mut self)
        ensures
            final(self)@ == home::close_achievement_panel_m(old(self)@),
    {
        self.achievement.show = false;
        self.reset_achievement_selection();
    }

    fn open_settings_page(&mut self)
        ensures
            final(self)@ == home::open_settings_m(old(self)@),
    {
        self.power.show = false;
        self.game_menu.show = false;
        self.close_achievement_panel();
        self.library.show = false;
        self.home.select_settings();
        self.settings.open();
        self.resets.settings_page = true;
    }
}

} // verus!
