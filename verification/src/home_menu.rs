//! The grid of the home (guide button) menu and moves inside it.
use vstd::prelude::*;

use crate::external_apps::ExternalAppKind;

verus! {

/// Columns of the home menu grid; the start-up toggle stands right of them.
pub const HOME_MENU_COLUMNS: usize = 2;

#[derive(Clone, Copy, Debug, PartialEq, Eq, Structural)]
pub enum HomeMenuMove {
    Left,
    Right,
    Up,
    Down,
}

#[derive(Clone, Copy, Debug, PartialEq, Eq, Structural)]
pub enum HomeMenuOption {
    ExternalApp(ExternalAppKind),
    MinimizeApp,
    CloseApp,
    Sleep,
    Shutdown,
    HalfMaxRefresh,
    MaxRefresh,
    LaunchOnStartup,
}

#[derive(Clone, Copy, Debug, PartialEq, Eq, Structural)]
pub struct HomeMenuEntry {
    pub option: HomeMenuOption,
    pub row: usize,
    pub column: usize,
    pub wide: bool,
}

#[derive(Debug)]
pub struct HomeMenuLayout {
    entries: Vec<HomeMenuEntry>,
}

/// Entries stand in the small grid that `HomeMenuLayout::new` builds.
pub open spec fn entries_in_grid(e: Seq<HomeMenuEntry>) -> bool {
    forall|i: int| 0 <= i < e.len() ==> (#[trigger] e[i]).row <= 4 && e[i].column <= HOME_MENU_COLUMNS
}

pub open spec fn entry(option: HomeMenuOption, row: int, column: int) -> HomeMenuEntry {
    HomeMenuEntry { option, row: row as usize, column: column as usize, wide: false }
}

/// The entries of the external applications row, one per column.
pub open spec fn app_entries(apps: Seq<ExternalAppKind>, row: int) -> Seq<HomeMenuEntry> {
    let n = if apps.len() < 2 {
        apps.len() as int
    } else {
        2
    };
    Seq::new(n as nat, |i: int| entry(HomeMenuOption::ExternalApp(apps[i]), row, i))
}

/// The rows of the home menu: minimize and close, then sleep and shut down
/// when power options are offered, then the two refresh rate choices, then
/// up to two external applications, and the start-up toggle to the right of
/// the last row.
pub open spec fn home_menu_entries(
    apps: Seq<ExternalAppKind>,
    show_power_options: bool,
    show_launch_on_startup: bool,
) -> Seq<HomeMenuEntry> {
    let first = seq![
        entry(HomeMenuOption::MinimizeApp, 0, 0),
        entry(HomeMenuOption::CloseApp, 0, 1),
    ];
    let power = if show_power_options {
        seq![entry(HomeMenuOption::Sleep, 1, 0), entry(HomeMenuOption::Shutdown, 1, 1)]
    } else {
        Seq::empty()
    };
    let refresh_row: int = if show_power_options {
        2
    } else {
        1
    };
    let refresh = seq![
        entry(HomeMenuOption::HalfMaxRefresh, refresh_row, 0),
        entry(HomeMenuOption::MaxRefresh, refresh_row, 1),
    ];
    let app_row = refresh_row + 1;
    let apps_part = if apps.len() > 0 {
        app_entries(apps, app_row)
    } else {
        Seq::empty()
    };
    let next_row = if apps.len() > 0 {
        app_row + 1
    } else {
        app_row
    };
    let startup = if show_launch_on_startup {
        seq![entry(HomeMenuOption::LaunchOnStartup, next_row - 1, 2)]
    } else {
        Seq::empty()
    };
    first + power + refresh + apps_part + startup
}

/// Index of the first entry for which `p` holds.
pub open spec fn first_match(e: Seq<HomeMenuEntry>, p: spec_fn(HomeMenuEntry) -> bool) -> Option<
    int,
>
    decreases e.len(),
{
    if e.len() == 0 {
        None
    } else if p(e[0]) {
        Some(0)
    } else {
        match first_match(e.drop_first(), p) {
            Some(i) => Some(i + 1),
            None => None,
        }
    }
}

pub proof fn lemma_first_match_found(e: Seq<HomeMenuEntry>, p: spec_fn(HomeMenuEntry) -> bool, i: int)
    requires
        0 <= i < e.len(),
        p(e[i]),
        forall|j: int| 0 <= j < i ==> !p(#[trigger] e[j]),
    ensures
        first_match(e, p) == Some(i),
    decreases e.len(),
{
    if i > 0 {
        let t = e.drop_first();
        assert forall|j: int| 0 <= j < i - 1 implies !p(#[trigger] t[j]) by {
            assert(t[j] == e[j + 1]);
        }
        lemma_first_match_found(t, p, i - 1);
    }
}

pub proof fn lemma_first_match_none(e: Seq<HomeMenuEntry>, p: spec_fn(HomeMenuEntry) -> bool)
    requires
        forall|j: int| 0 <= j < e.len() ==> !p(#[trigger] e[j]),
    ensures
        first_match(e, p) is None,
    decreases e.len(),
{
    if e.len() > 0 {
        let t = e.drop_first();
        assert forall|j: int| 0 <= j < t.len() implies !p(#[trigger] t[j]) by {
            assert(t[j] == e[j + 1]);
        }
        lemma_first_match_none(t, p);
    }
}

pub proof fn lemma_first_match_bounds(e: Seq<HomeMenuEntry>, p: spec_fn(HomeMenuEntry) -> bool)
    ensures
        first_match(e, p) matches Some(i) ==> 0 <= i < e.len() && p(e[i]),
    decreases e.len(),
{
    if e.len() > 0 && !p(e[0]) {
        lemma_first_match_bounds(e.drop_first(), p);
    }
}

/// An entry found in a row at a column: a wide entry covers both columns.
pub open spec fn in_row_at(row: int, column: int) -> spec_fn(HomeMenuEntry) -> bool {
    |en: HomeMenuEntry|
        en.row == row && (en.wide && column < HOME_MENU_COLUMNS || en.column == column)
}

/// An entry found one row up or down from a column.
pub open spec fn in_row_below(row: int, column: int) -> spec_fn(HomeMenuEntry) -> bool {
    |en: HomeMenuEntry| en.row == row && (en.wide || en.column == column)
}

pub open spec fn is_option(option: HomeMenuOption) -> spec_fn(HomeMenuEntry) -> bool {
    |en: HomeMenuEntry| en.option == option
}

pub open spec fn default_selected_spec(e: Seq<HomeMenuEntry>) -> int {
    match first_match(e, is_option(HomeMenuOption::MinimizeApp)) {
        Some(i) => i,
        None => match first_match(e, |en: HomeMenuEntry| en.option is ExternalApp) {
            Some(i) => i,
            None => 0,
        },
    }
}

/// The largest row among the first `n` entries.
pub open spec fn max_row(e: Seq<HomeMenuEntry>, n: int) -> int
    decreases n,
{
    if n <= 0 {
        0
    } else {
        let m = max_row(e, n - 1);
        if e[n - 1].row > m {
            e[n - 1].row as int
        } else {
            m
        }
    }
}

/// Among the first `n` entries, the last one of `row` with the largest column.
pub open spec fn rightmost_in_row(e: Seq<HomeMenuEntry>, row: int, n: int) -> Option<int>
    decreases n,
{
    if n <= 0 {
        None
    } else {
        let prev = rightmost_in_row(e, row, n - 1);
        if e[n - 1].row == row && (match prev {
            Some(p) => e[n - 1].column >= e[p].column,
            None => true,
        }) {
            Some(n - 1)
        } else {
            prev
        }
    }
}

/// The entry reached by stepping rows up or down from `row` on: the first
/// entry of the row in the column (or a wide one), and for an entry right
/// of the grid the rightmost entry of the row.
pub open spec fn vertical_scan(e: Seq<HomeMenuEntry>, column: int, row: int, down: bool) -> Option<
    int,
>
    decreases (if down {
        max_row(e, e.len() as int) + 1 - row
    } else {
        row + 1
    }),
{
    if !(0 <= row <= max_row(e, e.len() as int)) {
        None
    } else {
        match first_match(e, in_row_below(row, column)) {
            Some(i) => Some(i),
            None => {
                if column >= HOME_MENU_COLUMNS && rightmost_in_row(e, row, e.len() as int) is Some {
                    rightmost_in_row(e, row, e.len() as int)
                } else {
                    vertical_scan(
                        e,
                        column,
                        if down {
                            row + 1
                        } else {
                            row - 1
                        },
                        down,
                    )
                }
            },
        }
    }
}

/// An executable index result agrees with an index of the model.
pub open spec fn opt_index(r: Option<usize>, s: Option<int>) -> bool {
    match r {
        Some(i) => s == Some(i as int),
        None => s is None,
    }
}

pub proof fn lemma_max_row_bound(e: Seq<HomeMenuEntry>, n: int)
    requires
        entries_in_grid(e),
        n <= e.len(),
    ensures
        0 <= max_row(e, n) <= 4,
    decreases n,
{
    if n > 0 {
        lemma_max_row_bound(e, n - 1);
    }
}

pub proof fn lemma_rightmost_bounds(e: Seq<HomeMenuEntry>, row: int, n: int)
    requires
        n <= e.len(),
    ensures
        rightmost_in_row(e, row, n) matches Some(k) ==> 0 <= k < n && e[k].row == row,
    decreases n,
{
    if n > 0 {
        lemma_rightmost_bounds(e, row, n - 1);
    }
}

pub open spec fn clamp_index(len: int, selected: int) -> int {
    let last = if len > 0 {
        len - 1
    } else {
        0
    };
    if selected < last {
        selected
    } else {
        last
    }
}

/// The entry selected after a move; a move with no target keeps the
/// (clamped) selection.
pub open spec fn move_selection_spec(e: Seq<HomeMenuEntry>, selected: int, dir: HomeMenuMove) -> int {
    let sel = clamp_index(e.len() as int, selected);
    if e.len() == 0 {
        0
    } else {
        let cur = e[sel];
        let next = match dir {
            HomeMenuMove::Left => if cur.column == 0 {
                None
            } else {
                first_match(e, in_row_at(cur.row as int, cur.column - 1))
            },
            HomeMenuMove::Right => if cur.wide {
                None
            } else {
                match first_match(e, in_row_at(cur.row as int, cur.column + 1)) {
                    Some(i) => Some(i),
                    None => if cur.column == HOME_MENU_COLUMNS - 1 && cur.option
                        != HomeMenuOption::LaunchOnStartup {
                        first_match(e, is_option(HomeMenuOption::LaunchOnStartup))
                    } else {
                        None
                    },
                }
            },
            HomeMenuMove::Up => vertical_scan(e, cur.column as int, cur.row - 1, false),
            HomeMenuMove::Down => vertical_scan(e, cur.column as int, cur.row + 1, true),
        };
        match next {
            Some(i) => i,
            None => sel,
        }
    }
}

proof fn lemma_first_match_first(e: Seq<HomeMenuEntry>, p: spec_fn(HomeMenuEntry) -> bool)
    ensures
        first_match(e, p) matches Some(i) ==> forall|j: int| 0 <= j < i ==> !p(#[trigger] e[j]),
    decreases e.len(),
{
    if e.len() > 0 && !p(e[0]) {
        lemma_first_match_first(e.drop_first(), p);
        lemma_first_match_bounds(e, p);
        if let Some(i) = first_match(e, p) {
            assert forall|j: int| 0 <= j < i implies !p(#[trigger] e[j]) by {
                if j > 0 {
                    assert(e[j] == e.drop_first()[j - 1]);
                }
            }
        }
    }
}

proof fn lemma_first_match_some(e: Seq<HomeMenuEntry>, p: spec_fn(HomeMenuEntry) -> bool, k: int)
    requires
        0 <= k < e.len(),
        p(e[k]),
    ensures
        first_match(e, p) is Some,
    decreases e.len(),
{
    if !p(e[0]) {
        assert(e.drop_first()[k - 1] == e[k]);
        lemma_first_match_some(e.drop_first(), p, k - 1);
    }
}

/// The entry at a place of the grid.
pub open spec fn stands_at(en: HomeMenuEntry, row: int, column: int) -> bool {
    en.row == row && en.column == column
}

/// In a menu without wide entries, Left moves the selection to the entry
/// just left of it in its row, and Right to the entry just right of it,
/// where there is such an entry (the first one at that place); so Left and
/// Right undo each other within a row.
pub proof fn lemma_home_menu_left_right(e: Seq<HomeMenuEntry>, s: int)
    requires
        0 <= s < e.len(),
        forall|i: int| 0 <= i < e.len() ==> !(#[trigger] e[i]).wide,
    ensures
        (exists|k: int| 0 <= k < e.len() && stands_at(#[trigger] e[k], e[s].row as int, e[s].column - 1))
            ==> {
            let r = move_selection_spec(e, s, HomeMenuMove::Left);
            &&& 0 <= r < e.len()
            &&& stands_at(e[r], e[s].row as int, e[s].column - 1)
            &&& forall|j: int| 0 <= j < r ==> !stands_at(#[trigger] e[j], e[s].row as int, e[s].column - 1)
        },
        (exists|k: int| 0 <= k < e.len() && stands_at(#[trigger] e[k], e[s].row as int, e[s].column + 1))
            ==> {
            let r = move_selection_spec(e, s, HomeMenuMove::Right);
            &&& 0 <= r < e.len()
            &&& stands_at(e[r], e[s].row as int, e[s].column + 1)
            &&& forall|j: int| 0 <= j < r ==> !stands_at(#[trigger] e[j], e[s].row as int, e[s].column + 1)
        },
        e[s].column == 0 ==> move_selection_spec(e, s, HomeMenuMove::Left) == s,
{
    let row = e[s].row as int;
    let col = e[s].column as int;
    assert(clamp_index(e.len() as int, s) == s);
    if exists|k: int| 0 <= k < e.len() && stands_at(#[trigger] e[k], row, col - 1) {
        let k = choose|k: int| 0 <= k < e.len() && stands_at(#[trigger] e[k], row, col - 1);
        let p = in_row_at(row, col - 1);
        assert(p(e[k]));
        lemma_first_match_some(e, p, k);
        lemma_first_match_bounds(e, p);
        lemma_first_match_first(e, p);
        let r = first_match(e, p)->0;
        assert forall|j: int| 0 <= j < r implies !stands_at(#[trigger] e[j], row, col - 1) by {
            assert(!p(e[j]));
        }
    }
    if exists|k: int| 0 <= k < e.len() && stands_at(#[trigger] e[k], row, col + 1) {
        let k = choose|k: int| 0 <= k < e.len() && stands_at(#[trigger] e[k], row, col + 1);
        let p = in_row_at(row, col + 1);
        assert(p(e[k]));
        lemma_first_match_some(e, p, k);
        lemma_first_match_bounds(e, p);
        lemma_first_match_first(e, p);
        let r = first_match(e, p)->0;
        assert forall|j: int| 0 <= j < r implies !stands_at(#[trigger] e[j], row, col + 1) by {
            assert(!p(e[j]));
        }
    }
}

proof fn lemma_max_row_covers(e: Seq<HomeMenuEntry>, n: int, k: int)
    requires
        0 <= k < n <= e.len(),
    ensures
        e[k].row <= max_row(e, n),
    decreases n,
{
    if k < n - 1 {
        lemma_max_row_covers(e, n - 1, k);
    }
}

/// In a menu without wide entries, Up moves the selection to the entry
/// just above it in its column, and Down to the entry just below it, where
/// there is such an entry (the first one at that place).
pub proof fn lemma_home_menu_up_down(e: Seq<HomeMenuEntry>, s: int)
    requires
        0 <= s < e.len(),
        forall|i: int| 0 <= i < e.len() ==> !(#[trigger] e[i]).wide,
    ensures
        (exists|k: int| 0 <= k < e.len() && stands_at(#[trigger] e[k], e[s].row - 1, e[s].column as int))
            ==> {
            let r = move_selection_spec(e, s, HomeMenuMove::Up);
            &&& 0 <= r < e.len()
            &&& stands_at(e[r], e[s].row - 1, e[s].column as int)
            &&& forall|j: int| 0 <= j < r ==> !stands_at(#[trigger] e[j], e[s].row - 1, e[s].column as int)
        },
        (exists|k: int| 0 <= k < e.len() && stands_at(#[trigger] e[k], e[s].row + 1, e[s].column as int))
            ==> {
            let r = move_selection_spec(e, s, HomeMenuMove::Down);
            &&& 0 <= r < e.len()
            &&& stands_at(e[r], e[s].row + 1, e[s].column as int)
            &&& forall|j: int| 0 <= j < r ==> !stands_at(#[trigger] e[j], e[s].row + 1, e[s].column as int)
        },
{
    let row = e[s].row as int;
    let col = e[s].column as int;
    assert(clamp_index(e.len() as int, s) == s);
    if exists|k: int| 0 <= k < e.len() && stands_at(#[trigger] e[k], row - 1, col) {
        let k = choose|k: int| 0 <= k < e.len() && stands_at(#[trigger] e[k], row - 1, col);
        lemma_max_row_covers(e, e.len() as int, s);
        let p = in_row_below(row - 1, col);
        assert(p(e[k]));
        lemma_first_match_some(e, p, k);
        lemma_first_match_bounds(e, p);
        lemma_first_match_first(e, p);
        let r = first_match(e, p)->0;
        assert(vertical_scan(e, col, row - 1, false) == Some(r));
        assert forall|j: int| 0 <= j < r implies !stands_at(#[trigger] e[j], row - 1, col) by {
            assert(!p(e[j]));
        }
    }
    if exists|k: int| 0 <= k < e.len() && stands_at(#[trigger] e[k], row + 1, col) {
        let k = choose|k: int| 0 <= k < e.len() && stands_at(#[trigger] e[k], row + 1, col);
        lemma_max_row_covers(e, e.len() as int, k);
        let p = in_row_below(row + 1, col);
        assert(p(e[k]));
        lemma_first_match_some(e, p, k);
        lemma_first_match_bounds(e, p);
        lemma_first_match_first(e, p);
        let r = first_match(e, p)->0;
        assert(vertical_scan(e, col, row + 1, true) == Some(r));
        assert forall|j: int| 0 <= j < r implies !stands_at(#[trigger] e[j], row + 1, col) by {
            assert(!p(e[j]));
        }
    }
}

/// From the right column of the grid, Right with no entry further right in
/// the row goes to the start-up toggle, where the menu has one.
pub proof fn lemma_home_menu_right_to_startup(e: Seq<HomeMenuEntry>, s: int, t: int)
    requires
        0 <= s < e.len(),
        0 <= t < e.len(),
        forall|i: int| 0 <= i < e.len() ==> !(#[trigger] e[i]).wide,
        e[s].column == HOME_MENU_COLUMNS - 1,
        e[s].option != HomeMenuOption::LaunchOnStartup,
        forall|i: int| 0 <= i < e.len() ==> !stands_at(#[trigger] e[i], e[s].row as int, HOME_MENU_COLUMNS as int),
        e[t].option == HomeMenuOption::LaunchOnStartup,
        forall|i: int| 0 <= i < t ==> (#[trigger] e[i]).option != HomeMenuOption::LaunchOnStartup,
    ensures
        move_selection_spec(e, s, HomeMenuMove::Right) == t,
{
    assert(clamp_index(e.len() as int, s) == s);
    let p = in_row_at(e[s].row as int, e[s].column + 1);
    assert forall|i: int| 0 <= i < e.len() implies !p(#[trigger] e[i]) by {
        assert(!stands_at(e[i], e[s].row as int, HOME_MENU_COLUMNS as int));
    }
    lemma_first_match_none(e, p);
    lemma_first_match_found(e, is_option(HomeMenuOption::LaunchOnStartup), t);
}

/// The menus that `HomeMenuLayout::new` builds have no wide entries.
pub proof fn lemma_home_menu_entries_not_wide(
    apps: Seq<ExternalAppKind>,
    show_power_options: bool,
    show_launch_on_startup: bool,
)
    ensures
        forall|i: int|
            0 <= i < home_menu_entries(apps, show_power_options, show_launch_on_startup).len()
                ==> !(#[trigger] home_menu_entries(apps, show_power_options, show_launch_on_startup)[i]).wide,
{
    let e = home_menu_entries(apps, show_power_options, show_launch_on_startup);
    assert forall|i: int| 0 <= i < e.len() implies !(#[trigger] e[i]).wide by {
        let refresh_row: int = if show_power_options { 2 } else { 1 };
        let app_row = refresh_row + 1;
        if apps.len() > 0 {
            let a = app_entries(apps, app_row);
            assert forall|j: int| 0 <= j < a.len() implies !(#[trigger] a[j]).wide by {}
        }
    }
}

impl View for HomeMenuLayout {
    type V = Seq<HomeMenuEntry>;

    closed spec fn view(&self) -> Seq<HomeMenuEntry> {
        self.entries@
    }
}

impl HomeMenuLayout {

    #[verifier::type_invariant]
    closed spec fn grid_invariant(&self) -> bool {
        entries_in_grid(self.entries@)
    }

    /// The layout without entries.
    pub fn empty() -> (r: Self)
        ensures
            r.view() == Seq::<HomeMenuEntry>::empty(),
    {
        HomeMenuLayout { entries: Vec::new() }
    }

    pub fn new(external_apps: &[ExternalAppKind], show_power_options: bool, show_launch_on_startup: bool) -> (r: Self)
        ensures
            r.view() == home_menu_entries(external_apps@, show_power_options, show_launch_on_startup),
            entries_in_grid(r.view()),
    {
        let mut entries: Vec<HomeMenuEntry> = Vec::new();
        let mut row: usize = 0;
        entries.push(HomeMenuEntry { option: HomeMenuOption::MinimizeApp, row, column: 0, wide: false });
        entries.push(HomeMenuEntry { option: HomeMenuOption::CloseApp, row, column: 1, wide: false });
        row = row + 1;
        if show_power_options {
            entries.push(HomeMenuEntry { option: HomeMenuOption::Sleep, row, column: 0, wide: false });
            entries.push(HomeMenuEntry { option: HomeMenuOption::Shutdown, row, column: 1, wide: false });
            row = row + 1;
        }
        entries.push(HomeMenuEntry { option: HomeMenuOption::HalfMaxRefresh, row, column: 0, wide: false });
        entries.push(HomeMenuEntry { option: HomeMenuOption::MaxRefresh, row, column: 1, wide: false });
        row = row + 1;
        let ghost before_apps = entries@;
        if external_apps.len() > 0 {
            let n: usize = if external_apps.len() < HOME_MENU_COLUMNS {
                external_apps.len()
            } else {
                HOME_MENU_COLUMNS
            };
            let mut column: usize = 0;
            while column < n
                invariant
                    n <= external_apps@.len(),
                    n == (if external_apps@.len() < 2 { external_apps@.len() as int } else { 2 }),
                    column <= n,
                    row <= 3,
                    entries@ == before_apps + app_entries(external_apps@, row as int).subrange(
                        0,
                        column as int,
                    ),
                decreases n - column,
            {
                entries.push(
                    HomeMenuEntry {
                        option: HomeMenuOption::ExternalApp(external_apps[column]),
                        row,
                        column,
                        wide: false,
                    },
                );
                column = column + 1;
                assert(entries@ =~= before_apps + app_entries(external_apps@, row as int).subrange(
                    0,
                    column as int,
                ));
            }
            assert(app_entries(external_apps@, row as int).subrange(0, n as int) =~= app_entries(
                external_apps@,
                row as int,
            ));
            row = row + 1;
        }
        if show_launch_on_startup {
            entries.push(
                HomeMenuEntry {
                    option: HomeMenuOption::LaunchOnStartup,
                    row: row - 1,
                    column: HOME_MENU_COLUMNS,
                    wide: false,
                },
            );
        }
        assert(entries@ =~= home_menu_entries(
            external_apps@,
            show_power_options,
            show_launch_on_startup,
        ));
        let r = HomeMenuLayout { entries };
        assert(r.view() =~= home_menu_entries(
            external_apps@,
            show_power_options,
            show_launch_on_startup,
        ));
        r
    }

    pub fn entries(&self) -> (r: &[HomeMenuEntry])
        ensures
            r@ == self.view(),
    {
        self.entries.as_slice()
    }

    pub fn is_empty(&self) -> (r: bool)
        ensures
            r == (self.view().len() == 0),
    {
        self.entries.len() == 0
    }

    /// The selection moved onto the last entry when it lies past it.
    pub fn clamp_selected(&self, selected: usize) -> (r: usize)
        ensures
            r == clamp_index(self.view().len() as int, selected as int),
    {
        let last = if self.entries.len() > 0 {
            self.entries.len() - 1
        } else {
            0
        };
        if selected < last {
            selected
        } else {
            last
        }
    }

    /// The minimize entry, else the first external application, else the first entry.
    pub fn default_selected(&self) -> (r: usize)
        ensures
            r == default_selected_spec(self.view()),
    {
        match self.find_option(HomeMenuOption::MinimizeApp) {
            Some(i) => i,
            None => {
                let mut i: usize = 0;
                while i < self.entries.len()
                    invariant
                        i <= self.entries@.len(),
                        first_match(self.view(), is_option(HomeMenuOption::MinimizeApp)) is None,
                        forall|j: int|
                            0 <= j < i ==> (#[trigger] self.entries@[j]).option !is ExternalApp,
                    decreases self.entries.len() - i,
                {
                    if let HomeMenuOption::ExternalApp(_) = self.entries[i].option {
                        proof {
                            lemma_first_match_found(
                                self.view(),
                                |en: HomeMenuEntry| en.option is ExternalApp,
                                i as int,
                            );
                        }
                        return i;
                    }
                    i = i + 1;
                }
                proof {
                    lemma_first_match_none(self.view(), |en: HomeMenuEntry| en.option is ExternalApp);
                }
                0
            },
        }
    }

    pub fn option_at(&self, index: usize) -> (r: Option<HomeMenuOption>)
        ensures
            r == (if index < self.view().len() {
                Some(self.view()[index as int].option)
            } else {
                None
            }),
    {
        if index < self.entries.len() {
            Some(self.entries[index].option)
        } else {
            None
        }
    }

    pub fn is_shutdown_selected(&self, index: usize) -> (r: bool)
        ensures
            r == (index < self.view().len() && self.view()[index as int].option
                == HomeMenuOption::Shutdown),
    {
        match self.option_at(index) {
            Some(HomeMenuOption::Shutdown) => true,
            _ => false,
        }
    }

    /// The first entry of a row at a column (a wide entry covers the grid).
    fn find_in_row(&self, row: usize, column: usize) -> (r: Option<usize>)
        ensures
            opt_index(r, first_match(self.view(), in_row_at(row as int, column as int))),
            r matches Some(i) ==> i < self.view().len(),
    {
        let mut i: usize = 0;
        while i < self.entries.len()
            invariant
                i <= self.entries@.len(),
                forall|j: int|
                    0 <= j < i ==> !(in_row_at(row as int, column as int))(
                        #[trigger] self.entries@[j],
                    ),
            decreases self.entries.len() - i,
        {
            let en = self.entries[i];
            if en.row == row && (en.wide && column < HOME_MENU_COLUMNS || en.column == column) {
                proof {
                    lemma_first_match_found(self.view(), in_row_at(row as int, column as int), i as int);
                }
                return Some(i);
            }
            i = i + 1;
        }
        proof {
            lemma_first_match_none(self.view(), in_row_at(row as int, column as int));
        }
        None
    }

    /// The first entry holding an option.
    fn find_option(&self, option: HomeMenuOption) -> (r: Option<usize>)
        ensures
            opt_index(r, first_match(self.view(), is_option(option))),
            r matches Some(i) ==> i < self.view().len(),
    {
        let mut i: usize = 0;
        while i < self.entries.len()
            invariant
                i <= self.entries@.len(),
                forall|j: int| 0 <= j < i ==> !(is_option(option))(#[trigger] self.entries@[j]),
            decreases self.entries.len() - i,
        {
            if self.entries[i].option == option {
                proof {
                    lemma_first_match_found(self.view(), is_option(option), i as int);
                }
                return Some(i);
            }
            i = i + 1;
        }
        proof {
            lemma_first_match_none(self.view(), is_option(option));
        }
        None
    }

    /// The first entry of a row in a column, or a wide one.
    fn find_in_row_below(&self, row: usize, column: usize) -> (r: Option<usize>)
        ensures
            opt_index(r, first_match(self.view(), in_row_below(row as int, column as int))),
            r matches Some(i) ==> i < self.view().len(),
    {
        let mut i: usize = 0;
        while i < self.entries.len()
            invariant
                i <= self.entries@.len(),
                forall|j: int|
                    0 <= j < i ==> !(in_row_below(row as int, column as int))(
                        #[trigger] self.entries@[j],
                    ),
            decreases self.entries.len() - i,
        {
            let en = self.entries[i];
            if en.row == row && (en.wide || en.column == column) {
                proof {
                    lemma_first_match_found(
                        self.view(),
                        in_row_below(row as int, column as int),
                        i as int,
                    );
                }
                return Some(i);
            }
            i = i + 1;
        }
        proof {
            lemma_first_match_none(self.view(), in_row_below(row as int, column as int));
        }
        None
    }

    /// The last entry of a row with the largest column.
    fn rightmost_in_row_exec(&self, row: usize) -> (r: Option<usize>)
        ensures
            opt_index(r, rightmost_in_row(self.view(), row as int, self.view().len() as int)),
    {
        let mut best: Option<usize> = None;
        let mut i: usize = 0;
        while i < self.entries.len()
            invariant
                i <= self.entries@.len(),
                opt_index(best, rightmost_in_row(self.view(), row as int, i as int)),
                best matches Some(k) ==> k < i,
            decreases self.entries.len() - i,
        {
            proof {
                lemma_rightmost_bounds(self.view(), row as int, i as int);
            }
            let en = self.entries[i];
            let take = match best {
                Some(b) => en.row == row && en.column >= self.entries[b].column,
                None => en.row == row,
            };
            if take {
                best = Some(i);
            }
            i = i + 1;
        }
        best
    }

    fn max_row_exec(&self) -> (r: usize)
        ensures
            r == max_row(self.view(), self.view().len() as int),
    {
        let mut m: usize = 0;
        let mut i: usize = 0;
        while i < self.entries.len()
            invariant
                i <= self.entries@.len(),
                m == max_row(self.view(), i as int),
            decreases self.entries.len() - i,
        {
            if self.entries[i].row > m {
                m = self.entries[i].row;
            }
            i = i + 1;
        }
        m
    }

    /// The neighbour of an entry one or more rows up or down.
    fn find_vertical_neighbor(&self, current: HomeMenuEntry, down: bool) -> (r: Option<usize>)
        ensures
            down ==> opt_index(r, vertical_scan(self.view(), current.column as int, current.row + 1, true)),
            !down ==> opt_index(r, vertical_scan(self.view(), current.column as int, current.row - 1, false)),
    {
        proof {
            use_type_invariant(self);
        }
        let top = self.max_row_exec();
        proof {
            lemma_max_row_bound(self.view(), self.view().len() as int);
        }
        let ghost e = self.view();
        let ghost column = current.column as int;
        if down {
            if current.row >= top {
                return None;
            }
            let mut row: usize = current.row + 1;
            while row <= top
                invariant
                    down,
                    top == max_row(e, e.len() as int),
                    top <= 4,
                    e == self.view(),
                    column == current.column,
                    current.row + 1 <= row,
                    vertical_scan(e, column, current.row + 1, true) == vertical_scan(
                        e,
                        column,
                        row as int,
                        true,
                    ),
                decreases top + 1 - row,
            {
                let found = self.find_in_row_below(row, current.column);
                proof {
                    assert(0 <= row <= max_row(e, e.len() as int));
                    assert(vertical_scan(e, column, row as int, true) == match first_match(
                        e,
                        in_row_below(row as int, column),
                    ) {
                        Some(i) => Some(i),
                        None => {
                            if column >= HOME_MENU_COLUMNS && rightmost_in_row(
                                e,
                                row as int,
                                e.len() as int,
                            ) is Some {
                                rightmost_in_row(e, row as int, e.len() as int)
                            } else {
                                vertical_scan(e, column, row + 1, true)
                            }
                        },
                    });
                }
                match found {
                    Some(i) => {
                        return Some(i);
                    },
                    None => {},
                }
                if current.column >= HOME_MENU_COLUMNS {
                    let right = self.rightmost_in_row_exec(row);
                    if right.is_some() {
                        return right;
                    }
                }
                row = row + 1;
            }
            None
        } else {
            if current.row == 0 {
                return None;
            }
            if current.row - 1 > top {
                return None;
            }
            let mut row: usize = current.row - 1;
            loop
                invariant
                    !down,
                    top == max_row(e, e.len() as int),
                    e == self.view(),
                    column == current.column,
                    row <= top,
                    vertical_scan(e, column, current.row - 1, false) == vertical_scan(
                        e,
                        column,
                        row as int,
                        false,
                    ),
                decreases row,
            {
                let found = self.find_in_row_below(row, current.column);
                proof {
                    assert(0 <= row <= max_row(e, e.len() as int));
                    assert(vertical_scan(e, column, row as int, false) == match first_match(
                        e,
                        in_row_below(row as int, column),
                    ) {
                        Some(i) => Some(i),
                        None => {
                            if column >= HOME_MENU_COLUMNS && rightmost_in_row(
                                e,
                                row as int,
                                e.len() as int,
                            ) is Some {
                                rightmost_in_row(e, row as int, e.len() as int)
                            } else {
                                vertical_scan(e, column, row - 1, false)
                            }
                        },
                    });
                }
                match found {
                    Some(i) => {
                        return Some(i);
                    },
                    None => {},
                }
                if current.column >= HOME_MENU_COLUMNS {
                    let right = self.rightmost_in_row_exec(row);
                    if right.is_some() {
                        return right;
                    }
                }
                if row == 0 {
                    assert(vertical_scan(e, column, -1, false) is None);
                    return None;
                }
                row = row - 1;
            }
        }
    }

    /// The entry selected after moving the selection in a direction.
    pub fn move_selection(&self, selected: usize, direction: HomeMenuMove) -> (r: usize)
        ensures
            r == move_selection_spec(self.view(), selected as int, direction),
    {
        proof {
            use_type_invariant(self);
        }
        let selected = self.clamp_selected(selected);
        if selected >= self.entries.len() {
            return 0;
        }
        let current = self.entries[selected];
        let next = match direction {
            HomeMenuMove::Left => {
                if current.column == 0 {
                    None
                } else {
                    self.find_in_row(current.row, current.column - 1)
                }
            },
            HomeMenuMove::Right => {
                if current.wide {
                    None
                } else {
                    match self.find_in_row(current.row, current.column + 1) {
                        Some(i) => Some(i),
                        None => {
                            if current.column == HOME_MENU_COLUMNS - 1 && current.option
                                != HomeMenuOption::LaunchOnStartup {
                                self.find_option(HomeMenuOption::LaunchOnStartup)
                            } else {
                                None
                            }
                        },
                    }
                }
            },
            HomeMenuMove::Up => self.find_vertical_neighbor(current, false),
            HomeMenuMove::Down => self.find_vertical_neighbor(current, true),
        };
        match next {
            Some(i) => i,
            None => selected,
        }
    }
}

} // verus!
