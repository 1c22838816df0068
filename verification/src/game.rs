//! Installed games: their identity keys, the merge of stored last-played
//! times, and the order of the game list.
use vstd::prelude::*;

use crate::text::{
    chars_of, eq_chars, extend_chars, extend_str, push_decimal, string_of,
    to_ascii_lowercase, trim_chars,
};

verus! {

/// Which store libraries are scanned for games.
#[derive(Clone, Copy, Debug, PartialEq, Eq, Structural)]
pub struct GameScanOptions {
    pub detect_steam_games: bool,
    pub detect_epic_games: bool,
    pub detect_xbox_games: bool,
}

/// Every store is scanned unless the user turns it off.
pub open spec fn default_scan_options() -> GameScanOptions {
    GameScanOptions { detect_steam_games: true, detect_epic_games: true, detect_xbox_games: true }
}

impl Default for GameScanOptions {
    fn default() -> (r: Self)
        ensures
            r == default_scan_options(),
    {
        GameScanOptions { detect_steam_games: true, detect_epic_games: true, detect_xbox_games: true }
    }
}

/// The store a game comes from.
#[derive(Clone, Copy, Debug, PartialEq, Eq, Structural)]
pub enum GameSource {
    Steam,
    Epic,
}

impl Default for GameSource {
    fn default() -> (r: Self)
        ensures
            r == GameSource::Steam,
    {
        GameSource::Steam
    }
}

pub open spec fn badge_label_spec(source: GameSource) -> Seq<char> {
    match source {
        GameSource::Steam => "STEAM"@,
        GameSource::Epic => "EPIC"@,
    }
}

pub open spec fn source_key(source: GameSource) -> Seq<char> {
    match source {
        GameSource::Steam => "steam"@,
        GameSource::Epic => "epic"@,
    }
}

impl GameSource {
    /// The store's name on the game badge.
    pub fn badge_label(self) -> (r: &'static str)
        ensures
            r@ == badge_label_spec(self),
    {
        match self {
            GameSource::Steam => "STEAM",
            GameSource::Epic => "EPIC",
        }
    }

    fn key(self) -> (r: &'static str)
        ensures
            r@ == source_key(self),
    {
        match self {
            GameSource::Steam => "steam",
            GameSource::Epic => "epic",
        }
    }
}

/// What a game's icon is found by: its Steam app id, else its install path.
#[derive(Clone, Debug, PartialEq, Eq)]
pub enum GameIconKey {
    AppId(u32),
    InstallPath(String),
}

/// What an icon key names: an app id, or an install path as text.
pub enum IconKeyModel {
    AppId(u32),
    InstallPath(Seq<char>),
}

impl View for GameIconKey {
    type V = IconKeyModel;

    open spec fn view(&self) -> IconKeyModel {
        match self {
            GameIconKey::AppId(id) => IconKeyModel::AppId(*id),
            GameIconKey::InstallPath(p) => IconKeyModel::InstallPath(p@),
        }
    }
}

/// The icon key of a game: its Steam app id, else its install path.
pub open spec fn icon_key_of(g: Game) -> IconKeyModel {
    match g.app_id {
        Some(id) => IconKeyModel::AppId(id),
        None => IconKeyModel::InstallPath(g.path@),
    }
}

impl GameIconKey {
    /// A copy of the key.
    pub fn clone_key(&self) -> (r: GameIconKey)
        ensures
            r@ == self@,
    {
        match self {
            GameIconKey::AppId(id) => GameIconKey::AppId(*id),
            GameIconKey::InstallPath(p) => GameIconKey::InstallPath(p.clone()),
        }
    }
}

/// Whether two icon keys name the same thing.
pub fn same_icon_key(a: &GameIconKey, b: &GameIconKey) -> (r: bool)
    ensures
        r == (a@ == b@),
{
    match (a, b) {
        (GameIconKey::AppId(x), GameIconKey::AppId(y)) => *x == *y,
        (GameIconKey::InstallPath(p), GameIconKey::InstallPath(q)) => eq_chars(
            &chars_of(p.as_str()),
            &chars_of(q.as_str()),
        ),
        _ => false,
    }
}

/// An installed game. Paths are kept as text.
pub struct Game {
    pub source: GameSource,
    pub name: String,
    pub path: String,
    pub launch_target: Option<String>,
    pub app_id: Option<u32>,
    pub persistent_id: Option<String>,
    pub last_played: u64,
    pub playtime_minutes: u32,
    pub installed_size_bytes: Option<u64>,
    pub dlss_version: Option<String>,
}

/// Every `\` of a path written as `/`.
pub open spec fn forward_slashes(s: Seq<char>) -> Seq<char> {
    s.map_values(|c: char| if c == '\\' { '/' } else { c })
}

/// The key under which a game's settings are stored: its store, then its
/// app id, else its store identifier (trimmed, lower case), else its
/// install path (with `/`, lower case).
pub open spec fn persistent_key_spec(g: Game) -> Seq<char> {
    match g.app_id {
        Some(id) => source_key(g.source) + ":app:"@ + crate::text::decimal(id as nat),
        None => match g.persistent_id {
            Some(pid) => source_key(g.source) + ":id:"@ + crate::text::lower_seq(
                crate::text::trim(pid@),
            ),
            None => source_key(g.source) + ":path:"@ + crate::text::lower_seq(
                forward_slashes(g.path@),
            ),
        },
    }
}

fn forward_slashes_exec(s: &Vec<char>) -> (r: Vec<char>)
    ensures
        r@ == forward_slashes(s@),
{
    let mut r: Vec<char> = Vec::new();
    let mut i: usize = 0;
    while i < s.len()
        invariant
            i <= s@.len(),
            r@ == forward_slashes(s@.subrange(0, i as int)),
        decreases s.len() - i,
    {
        let c = s[i];
        r.push(if c == '\\' { '/' } else { c });
        i = i + 1;
        assert(r@ =~= forward_slashes(s@.subrange(0, i as int)));
    }
    assert(s@.subrange(0, s@.len() as int) =~= s@);
    r
}

impl Game {
    pub fn icon_key(&self) -> (r: GameIconKey)
        ensures
            r == match self.app_id {
                Some(id) => GameIconKey::AppId(id),
                None => GameIconKey::InstallPath(r->InstallPath_0),
            },
            self.app_id is None ==> r->InstallPath_0@ == self.path@,
            r@ == icon_key_of(*self),
    {
        match self.app_id {
            Some(id) => GameIconKey::AppId(id),
            None => GameIconKey::InstallPath(self.path.clone()),
        }
    }

    pub fn persistent_key(&self) -> (r: String)
        ensures
            r@ == persistent_key_spec(*self),
    {
        let mut v: Vec<char> = Vec::new();
        extend_str(&mut v, self.source.key());
        match self.app_id {
            Some(id) => {
                extend_str(&mut v, ":app:");
                push_decimal(&mut v, id as u64);
            },
            None => match &self.persistent_id {
                Some(pid) => {
                    extend_str(&mut v, ":id:");
                    let t = trim_chars(&chars_of(pid.as_str()));
                    extend_chars(&mut v, &to_ascii_lowercase(&t));
                },
                None => {
                    extend_str(&mut v, ":path:");
                    let p = forward_slashes_exec(&chars_of(self.path.as_str()));
                    extend_chars(&mut v, &to_ascii_lowercase(&p));
                },
            },
        }
        string_of(&v)
    }
}

// ---------------------------------------------------------------------------
// Last-played times.
// ---------------------------------------------------------------------------
pub open spec fn distance(a: u64, b: u64) -> int {
    if a >= b {
        a - b
    } else {
        b - a
    }
}

/// Of the scanned and the stored last-played time, the one closer to
/// `now`; a zero time is unknown and gives way to the other; at equal
/// distance the later one.
pub open spec fn closest_to_now(now: u64, scanned: u64, stored: u64) -> u64 {
    if scanned == 0 {
        stored
    } else if stored == 0 {
        scanned
    } else if distance(now, scanned) < distance(now, stored) {
        scanned
    } else if distance(now, scanned) > distance(now, stored) {
        stored
    } else if scanned >= stored {
        scanned
    } else {
        stored
    }
}

pub fn select_closest_to_now(now: u64, scanned: u64, stored: u64) -> (r: u64)
    ensures
        r == closest_to_now(now, scanned, stored),
{
    if scanned == 0 {
        return stored;
    }
    if stored == 0 {
        return scanned;
    }
    let left_distance = if now >= scanned {
        now - scanned
    } else {
        scanned - now
    };
    let right_distance = if now >= stored {
        now - stored
    } else {
        stored - now
    };
    if left_distance < right_distance {
        scanned
    } else if left_distance > right_distance {
        stored
    } else if scanned >= stored {
        scanned
    } else {
        stored
    }
}

/// The stored time of a key, the first entry of that key.
pub open spec fn stored_time(entries: Seq<(String, u64)>, key: Seq<char>) -> Option<u64>
    decreases entries.len(),
{
    if entries.len() == 0 {
        None
    } else if entries[0].0@ == key {
        Some(entries[0].1)
    } else {
        stored_time(entries.drop_first(), key)
    }
}

pub(crate) fn lookup_time(entries: &Vec<(String, u64)>, key: &Vec<char>) -> (r: Option<u64>)
    ensures
        r == stored_time(entries@, key@),
{
    let mut i: usize = 0;
    assert(entries@.subrange(0, entries@.len() as int) =~= entries@);
    while i < entries.len()
        invariant
            i <= entries@.len(),
            stored_time(entries@, key@) == stored_time(entries@.subrange(i as int, entries@.len() as int), key@),
        decreases entries.len() - i,
    {
        let name = chars_of(entries[i].0.as_str());
        proof {
            let rest = entries@.subrange(i as int, entries@.len() as int);
            assert(rest.drop_first() =~= entries@.subrange(i + 1, entries@.len() as int));
        }
        if eq_chars(&name, key) {
            return Some(entries[i].1);
        }
        i = i + 1;
    }
    None
}

/// A game after taking its stored last-played time: the one closer to
/// `now` of that and its scanned time, when its key has a stored time.
pub open spec fn merged_game(g: Game, entries: Seq<(String, u64)>, now: u64) -> Game {
    Game {
        last_played: match stored_time(entries, persistent_key_spec(g)) {
            Some(t) => closest_to_now(now, g.last_played, t),
            None => g.last_played,
        },
        ..g
    }
}

/// Takes the stored last-played times: each game whose key has a stored
/// time keeps the one closer to `now` of that and its scanned time.
pub fn merge_into_games(games: &mut Vec<Game>, entries: &Vec<(String, u64)>, now: u64)
    ensures
        final(games)@.len() == old(games)@.len(),
        forall|i: int|
            0 <= i < old(games)@.len() ==> final(games)@[i] == merged_game(
                #[trigger] old(games)@[i],
                entries@,
                now,
            ),
{
    let n = games.len();
    let mut i: usize = 0;
    while i < n
        invariant
            n == old(games)@.len(),
            games@.len() == n,
            i <= n,
            forall|j: int| i <= j < n ==> #[trigger] games@[j] == old(games)@[j],
            forall|j: int|
                0 <= j < i ==> games@[j] == merged_game(#[trigger] old(games)@[j], entries@, now),
        decreases n - i,
    {
        let key = games[i].persistent_key();
        let k = chars_of(key.as_str());
        match lookup_time(entries, &k) {
            Some(stored) => {
                let scanned = games[i].last_played;
                let t = select_closest_to_now(now, scanned, stored);
                let mut g = games.remove(i);
                g.last_played = t;
                games.insert(i, g);
            },
            None => {},
        }
        i = i + 1;
    }
}

/// The index of the first entry of a key.
pub open spec fn is_first_entry(entries: Seq<(String, u64)>, key: Seq<char>, i: int) -> bool {
    &&& 0 <= i < entries.len()
    &&& entries[i].0@ == key
    &&& forall|j: int| 0 <= j < i ==> (#[trigger] entries[j]).0@ != key
}

/// The stored times after recording `time` for `key`: the first entry of
/// the key takes it, or a new entry at the end holds it.
pub open spec fn with_recorded_time(entries: Seq<(String, u64)>, key: Seq<char>, time: u64) -> Seq<
    (Seq<char>, u64),
> {
    let views = crate::epic::entry_views(entries);
    if exists|i: int| is_first_entry(entries, key, i) {
        let i = choose|i: int| is_first_entry(entries, key, i);
        views.update(i, (key, time))
    } else {
        views.push((key, time))
    }
}

proof fn lemma_stored_time_first(entries: Seq<(String, u64)>, key: Seq<char>, i: int)
    requires
        is_first_entry(entries, key, i),
    ensures
        stored_time(entries, key) == Some(entries[i].1),
    decreases entries.len(),
{
    if i > 0 {
        let t = entries.drop_first();
        assert(entries[0].0@ != key);
        assert forall|j: int| 0 <= j < i - 1 implies (#[trigger] t[j]).0@ != key by {
            assert(t[j] == entries[j + 1]);
        }
        lemma_stored_time_first(t, key, i - 1);
    }
}

proof fn lemma_stored_time_absent(entries: Seq<(String, u64)>, key: Seq<char>)
    requires
        forall|j: int| 0 <= j < entries.len() ==> (#[trigger] entries[j]).0@ != key,
    ensures
        stored_time(entries, key) is None,
    decreases entries.len(),
{
    if entries.len() > 0 {
        let t = entries.drop_first();
        assert forall|j: int| 0 <= j < t.len() implies (#[trigger] t[j]).0@ != key by {
            assert(t[j] == entries[j + 1]);
        }
        lemma_stored_time_absent(t, key);
    }
}

proof fn lemma_stored_time_update(entries: Seq<(String, u64)>, i: int, e: (String, u64), key: Seq<char>)
    requires
        0 <= i < entries.len(),
        entries[i].0@ != key,
        e.0@ != key,
    ensures
        stored_time(entries.update(i, e), key) == stored_time(entries, key),
    decreases entries.len(),
{
    let u = entries.update(i, e);
    if i == 0 {
        assert(u.drop_first() =~= entries.drop_first());
    } else {
        assert(u.drop_first() =~= entries.drop_first().update(i - 1, e));
        lemma_stored_time_update(entries.drop_first(), i - 1, e, key);
    }
}

proof fn lemma_stored_time_push(entries: Seq<(String, u64)>, e: (String, u64), key: Seq<char>)
    requires
        e.0@ != key,
    ensures
        stored_time(entries.push(e), key) == stored_time(entries, key),
    decreases entries.len(),
{
    let u = entries.push(e);
    if entries.len() == 0 {
        assert(u.drop_first() =~= Seq::<(String, u64)>::empty());
        assert(stored_time(u.drop_first(), key) is None);
    } else {
        assert(u.drop_first() =~= entries.drop_first().push(e));
        lemma_stored_time_push(entries.drop_first(), e, key);
    }
}

/// Records the last-played time of a game under its key.
pub fn record_for_game(entries: &mut Vec<(String, u64)>, game_key: &str, timestamp: u64)
    ensures
        crate::epic::entry_views(final(entries)@) == with_recorded_time(
            old(entries)@,
            game_key@,
            timestamp,
        ),
        stored_time(final(entries)@, game_key@) == Some(timestamp),
        forall|k: Seq<char>|
            k != game_key@ ==> #[trigger] stored_time(final(entries)@, k) == stored_time(
                old(entries)@,
                k,
            ),
{
    let k = chars_of(game_key);
    let ghost old_entries = entries@;
    let ghost views = crate::epic::entry_views(old_entries);
    let mut i: usize = 0;
    while i < entries.len()
        invariant
            i <= entries@.len(),
            entries@ == old_entries,
            old_entries == old(entries)@,
            views == crate::epic::entry_views(old_entries),
            k@ == game_key@,
            forall|j: int| 0 <= j < i ==> (#[trigger] old_entries[j]).0@ != game_key@,
        decreases entries.len() - i,
    {
        let name = chars_of(entries[i].0.as_str());
        if eq_chars(&name, &k) {
            proof {
                assert(is_first_entry(old_entries, game_key@, i as int));
                let c = choose|c: int| is_first_entry(old_entries, game_key@, c);
                if c < i {
                    assert(old_entries[c].0@ != game_key@);
                } else if c > i {
                    assert(old_entries[i as int].0@ != game_key@);
                }
                assert(c == i);
            }
            let ghost before_set = entries@;
            entries.set(i, (game_key.to_string(), timestamp));
            proof {
                assert forall|k: Seq<char>| k != game_key@ implies #[trigger] stored_time(entries@, k)
                    == stored_time(old_entries, k) by {
                    assert(entries@ == before_set.update(i as int, entries@[i as int]));
                    lemma_stored_time_update(before_set, i as int, entries@[i as int], k);
                }
                let fv = crate::epic::entry_views(entries@);
                assert(fv =~= views.update(i as int, (game_key@, timestamp)));
                assert(is_first_entry(entries@, game_key@, i as int));
                lemma_stored_time_first(entries@, game_key@, i as int);
            }
            return;
        }
        i = i + 1;
    }
    proof {
        assert(!exists|c: int| is_first_entry(old_entries, game_key@, c));
    }
    let ghost before_push = entries@;
    entries.push((game_key.to_string(), timestamp));
    proof {
        assert forall|k: Seq<char>| k != game_key@ implies #[trigger] stored_time(entries@, k)
            == stored_time(old_entries, k) by {
            lemma_stored_time_push(before_push, entries@.last(), k);
            assert(entries@ =~= before_push.push(entries@.last()));
        }
        let fv = crate::epic::entry_views(entries@);
        assert(fv =~= views.push((game_key@, timestamp)));
        assert(is_first_entry(entries@, game_key@, old_entries.len() as int));
        lemma_stored_time_first(entries@, game_key@, old_entries.len() as int);
    }
}

/// A recorded last-played time is what the next merge of the game list
/// offers that game: it gets the one closer to `now` of its scanned time
/// and the recorded one.
pub proof fn lemma_recorded_time_merged(
    entries: Seq<(String, u64)>,
    g: Game,
    timestamp: u64,
    now: u64,
)
    requires
        stored_time(entries, persistent_key_spec(g)) == Some(timestamp),
    ensures
        merged_game(g, entries, now).last_played == closest_to_now(now, g.last_played, timestamp),
{
}

/// Recording a time for one key leaves what the next merge gives every
/// game of another key as it was.
pub proof fn lemma_record_keeps_other_games(
    before: Seq<(String, u64)>,
    after: Seq<(String, u64)>,
    key: Seq<char>,
    g: Game,
    now: u64,
)
    requires
        forall|k: Seq<char>| k != key ==> #[trigger] stored_time(after, k) == stored_time(before, k),
        persistent_key_spec(g) != key,
    ensures
        merged_game(g, after, now) == merged_game(g, before, now),
{
    assert(stored_time(after, persistent_key_spec(g)) == stored_time(before, persistent_key_spec(g)));
}

// ---------------------------------------------------------------------------
// Order of the game list.
// ---------------------------------------------------------------------------
/// The lower-case form of a text by Unicode's rules.
pub uninterp spec fn unicode_lowercase(s: Seq<char>) -> Seq<char>;

/// `str::to_lowercase`: the lower-case form of a text by Unicode's rules;
/// the contract names the result and says nothing more of it.
#[verifier::external_body]
fn to_lowercase(s: &str) -> (r: String)
    ensures
        r@ == unicode_lowercase(s@),
{
    s.to_lowercase()
}

/// Lexicographic order of texts by code point.
pub open spec fn chars_lt(a: Seq<char>, b: Seq<char>) -> bool
    decreases a.len(),
{
    if a.len() == 0 {
        b.len() > 0
    } else if b.len() == 0 {
        false
    } else if a[0] != b[0] {
        a[0] < b[0]
    } else {
        chars_lt(a.drop_first(), b.drop_first())
    }
}

/// Whether game `a` may come before game `b`: the later played first, and
/// at equal times by lower-case name.
pub open spec fn game_le(a: Game, b: Game) -> bool {
    a.last_played > b.last_played || (a.last_played == b.last_played && !chars_lt(
        unicode_lowercase(b.name@),
        unicode_lowercase(a.name@),
    ))
}

pub open spec fn sorted_by_last_played(s: Seq<Game>) -> bool {
    forall|i: int, j: int| 0 <= i < j < s.len() ==> game_le(#[trigger] s[i], #[trigger] s[j])
}

proof fn lemma_chars_lt_irreflexive(a: Seq<char>)
    ensures
        !chars_lt(a, a),
    decreases a.len(),
{
    if a.len() > 0 {
        lemma_chars_lt_irreflexive(a.drop_first());
    }
}

proof fn lemma_chars_lt_transitive(a: Seq<char>, b: Seq<char>, c: Seq<char>)
    requires
        chars_lt(a, b),
        chars_lt(b, c),
    ensures
        chars_lt(a, c),
    decreases a.len(),
{
    if a.len() > 0 && b.len() > 0 && c.len() > 0 && a[0] == b[0] && b[0] == c[0] {
        lemma_chars_lt_transitive(a.drop_first(), b.drop_first(), c.drop_first());
    }
}

proof fn lemma_chars_lt_total(a: Seq<char>, b: Seq<char>)
    ensures
        a =~= b || chars_lt(a, b) || chars_lt(b, a),
    decreases a.len(),
{
    if a.len() > 0 && b.len() > 0 && a[0] == b[0] {
        lemma_chars_lt_total(a.drop_first(), b.drop_first());
        if a.drop_first() =~= b.drop_first() {
            assert(a =~= seq![a[0]] + a.drop_first());
            assert(b =~= seq![b[0]] + b.drop_first());
        }
    }
}

proof fn lemma_chars_lt_asymmetric(a: Seq<char>, b: Seq<char>)
    ensures
        !(chars_lt(a, b) && chars_lt(b, a)),
{
    if chars_lt(a, b) && chars_lt(b, a) {
        lemma_chars_lt_transitive(a, b, a);
        lemma_chars_lt_irreflexive(a);
    }
}

proof fn lemma_game_le_total(a: Game, b: Game)
    ensures
        game_le(a, b) || game_le(b, a),
{
    lemma_chars_lt_total(unicode_lowercase(a.name@), unicode_lowercase(b.name@));
    lemma_chars_lt_irreflexive(unicode_lowercase(a.name@));
    lemma_chars_lt_asymmetric(unicode_lowercase(a.name@), unicode_lowercase(b.name@));
}

proof fn lemma_game_le_transitive(a: Game, b: Game, c: Game)
    requires
        game_le(a, b),
        game_le(b, c),
    ensures
        game_le(a, c),
{
    let la = unicode_lowercase(a.name@);
    let lb = unicode_lowercase(b.name@);
    let lc = unicode_lowercase(c.name@);
    if a.last_played == b.last_played && b.last_played == c.last_played {
        if chars_lt(lc, la) {
            lemma_chars_lt_total(lb, lc);
            if chars_lt(lb, lc) {
                lemma_chars_lt_transitive(lb, lc, la);
            } else if lb =~= lc {
            }
        }
    }
}

/// Two games of equal rank: the same last-played time and the same
/// lower-case name.
pub open spec fn same_rank(a: Game, b: Game) -> bool {
    a.last_played == b.last_played && unicode_lowercase(a.name@) == unicode_lowercase(b.name@)
}

pub open spec fn rank_pred(c: Game) -> spec_fn(Game) -> bool {
    |h: Game| same_rank(h, c)
}

/// The games of `s` that rank equal to `c`, in their order in `s`.
pub open spec fn rank_class(s: Seq<Game>, c: Game) -> Seq<Game> {
    s.filter(rank_pred(c))
}

/// Game `a` comes strictly before game `b`.
pub open spec fn ranks_before(a: Game, b: Game) -> bool {
    a.last_played > b.last_played || (a.last_played == b.last_played && chars_lt(
        unicode_lowercase(a.name@),
        unicode_lowercase(b.name@),
    ))
}

proof fn lemma_filter_none(s: Seq<Game>, p: spec_fn(Game) -> bool)
    requires
        forall|i: int| 0 <= i < s.len() ==> !p(#[trigger] s[i]),
    ensures
        s.filter(p) =~= Seq::<Game>::empty(),
    decreases s.len(),
{
    reveal(Seq::filter);
    if s.len() > 0 {
        assert forall|i: int| 0 <= i < s.drop_last().len() implies !p(#[trigger] s.drop_last()[i]) by {
            assert(s.drop_last()[i] == s[i]);
        }
        lemma_filter_none(s.drop_last(), p);
    }
}

proof fn lemma_filter_single(g: Game, p: spec_fn(Game) -> bool)
    ensures
        seq![g].filter(p) =~= if p(g) {
            seq![g]
        } else {
            Seq::<Game>::empty()
        },
{
    reveal(Seq::filter);
    assert(seq![g].drop_last() =~= Seq::<Game>::empty());
    lemma_filter_none(Seq::<Game>::empty(), p);
}

/// Putting `g` into a sorted list just before the first game that it ranks
/// before adds it at the end of its rank class.
proof fn lemma_rank_class_insert(before: Seq<Game>, j: int, g: Game, c: Game)
    requires
        0 <= j <= before.len(),
        sorted_by_last_played(before),
        j < before.len() ==> ranks_before(g, before[j]),
    ensures
        rank_class(before.insert(j, g), c) == if same_rank(g, c) {
            rank_class(before, c).push(g)
        } else {
            rank_class(before, c)
        },
{
    let p = rank_pred(c);
    let a = before.subrange(0, j);
    let b = before.subrange(j, before.len() as int);
    assert(before =~= a + b);
    assert(before.insert(j, g) =~= (a + seq![g]) + b);
    Seq::filter_distributes_over_add(a, b, p);
    Seq::filter_distributes_over_add(a + seq![g], b, p);
    Seq::filter_distributes_over_add(a, seq![g], p);
    lemma_filter_single(g, p);
    if same_rank(g, c) {
        assert forall|k: int| 0 <= k < b.len() implies !p(#[trigger] b[k]) by {
            assert(b[k] == before[j + k]);
            if same_rank(before[j + k], c) {
                if k == 0 {
                    lemma_chars_lt_irreflexive(unicode_lowercase(g.name@));
                } else {
                    assert(game_le(before[j], before[j + k]));
                }
            }
        }
        lemma_filter_none(b, p);
        assert(a.filter(p) + Seq::<Game>::empty() =~= a.filter(p));
        assert(a.filter(p) + seq![g] =~= a.filter(p).push(g));
    } else {
        assert(a.filter(p) + Seq::<Game>::empty() =~= a.filter(p));
    }
}

/// Taking the first game off a list takes it off the front of its rank
/// class.
proof fn lemma_rank_class_take_first(s: Seq<Game>, c: Game)
    requires
        s.len() > 0,
    ensures
        rank_class(s, c) == if same_rank(s[0], c) {
            seq![s[0]] + rank_class(s.drop_first(), c)
        } else {
            rank_class(s.drop_first(), c)
        },
{
    let p = rank_pred(c);
    assert(s =~= seq![s[0]] + s.drop_first());
    Seq::filter_distributes_over_add(seq![s[0]], s.drop_first(), p);
    lemma_filter_single(s[0], p);
    assert(Seq::<Game>::empty() + s.drop_first().filter(p) =~= s.drop_first().filter(p));
}

fn chars_less(a: &Vec<char>, b: &Vec<char>) -> (r: bool)
    ensures
        r == chars_lt(a@, b@),
{
    let mut i: usize = 0;
    assert(a@.subrange(0, a@.len() as int) =~= a@);
    assert(b@.subrange(0, b@.len() as int) =~= b@);
    while i < a.len() && i < b.len()
        invariant
            i <= a@.len(),
            i <= b@.len(),
            a@.subrange(0, i as int) =~= b@.subrange(0, i as int),
            chars_lt(a@, b@) == chars_lt(a@.subrange(i as int, a@.len() as int), b@.subrange(i as int, b@.len() as int)),
        decreases a.len() - i,
    {
        proof {
            let ra = a@.subrange(i as int, a@.len() as int);
            let rb = b@.subrange(i as int, b@.len() as int);
            assert(ra.drop_first() =~= a@.subrange(i + 1, a@.len() as int));
            assert(rb.drop_first() =~= b@.subrange(i + 1, b@.len() as int));
        }
        if a[i] != b[i] {
            return a[i] < b[i];
        }
        i = i + 1;
        assert(a@.subrange(0, i as int) =~= b@.subrange(0, i as int));
    }
    i == a.len() && i < b.len()
}

/// Whether `g`, with lower-case name `gl`, comes strictly before `h`.
fn strictly_before(g_played: u64, gl: &Vec<char>, h: &Game) -> (r: bool)
    ensures
        r == (g_played > h.last_played || (g_played == h.last_played && chars_lt(
            gl@,
            unicode_lowercase(h.name@),
        ))),
{
    if g_played > h.last_played {
        return true;
    }
    if g_played < h.last_played {
        return false;
    }
    let hl = chars_of(to_lowercase(h.name.as_str()).as_str());
    chars_less(gl, &hl)
}

/// Orders the games by last-played time, latest first, and at equal times
/// by lower-case name. Games of equal rank keep their order.
pub fn sort_games_by_last_played(games: &mut Vec<Game>)
    ensures
        sorted_by_last_played(final(games)@),
        final(games)@.to_multiset() =~= old(games)@.to_multiset(),
        forall|c: Game| #[trigger] rank_class(final(games)@, c) == rank_class(old(games)@, c),
{
    broadcast use vstd::seq_lib::group_to_multiset_ensures;

    let mut input: Vec<Game> = Vec::new();
    std::mem::swap(&mut input, games);
    let ghost orig = input@;
    let mut result: Vec<Game> = Vec::new();
    proof {
        assert(result@.to_multiset().add(input@.to_multiset()) =~= orig.to_multiset());
        assert forall|c: Game| #[trigger] rank_class(orig, c) == rank_class(result@, c) + rank_class(input@, c) by {
            lemma_filter_none(result@, rank_pred(c));
            assert(Seq::<Game>::empty() + rank_class(input@, c) =~= rank_class(input@, c));
        }
    }
    while input.len() > 0
        invariant
            sorted_by_last_played(result@),
            result@.to_multiset().add(input@.to_multiset()) =~= orig.to_multiset(),
            forall|c: Game| #[trigger] rank_class(orig, c) == rank_class(result@, c) + rank_class(input@, c),
        decreases input.len(),
    {
        let ghost before_input = input@;
        let g = input.remove(0);
        proof {
            assert(before_input.remove(0) =~= input@);
        }
        let gl = chars_of(to_lowercase(g.name.as_str()).as_str());
        let mut j: usize = 0;
        while j < result.len() && !strictly_before(g.last_played, &gl, &result[j])
            invariant
                j <= result@.len(),
                gl@ == unicode_lowercase(g.name@),
                forall|k: int| 0 <= k < j ==> game_le(#[trigger] result@[k], g),
            decreases result.len() - j,
        {
            proof {
                lemma_game_le_total(result@[j as int], g);
            }
            j = j + 1;
        }
        let ghost before = result@;
        proof {
            if j < before.len() {
                lemma_chars_lt_asymmetric(unicode_lowercase(g.name@), unicode_lowercase(before[j as int].name@));
                assert(game_le(g, before[j as int]));
            }
        }
        result.insert(j, g);
        proof {
            assert(result@ =~= before.insert(j as int, g));
            assert forall|p: int, q: int| 0 <= p < q < result@.len() implies game_le(
                #[trigger] result@[p],
                #[trigger] result@[q],
            ) by {
                if q == j {
                } else if p == j {
                    if q - 1 != j {
                        lemma_game_le_transitive(g, before[j as int], before[q - 1]);
                    }
                } else if p < j && q > j {
                } else {
                }
            }
            vstd::seq_lib::to_multiset_insert(before, j as int, g);
            assert(before_input =~= input@.insert(0, g));
            vstd::seq_lib::to_multiset_insert(input@, 0, g);
            if j < before.len() {
                assert(ranks_before(g, before[j as int]));
            }
            assert forall|c: Game| #[trigger] rank_class(orig, c) == rank_class(result@, c) + rank_class(input@, c) by {
                lemma_rank_class_insert(before, j as int, g, c);
                lemma_rank_class_take_first(before_input, c);
                assert(before_input[0] == g);
                assert(before_input.drop_first() =~= input@);
                assert(rank_class(orig, c) == rank_class(before, c) + rank_class(before_input, c));
                if same_rank(g, c) {
                    assert(rank_class(before, c) + (seq![g] + rank_class(input@, c)) =~= rank_class(before, c).push(g) + rank_class(input@, c));
                }
            }
        }
    }
    proof {
        assert forall|c: Game| #[trigger] rank_class(orig, c) == rank_class(result@, c) by {
            lemma_filter_none(input@, rank_pred(c));
            assert(rank_class(result@, c) + Seq::<Game>::empty() =~= rank_class(result@, c));
        }
    }
    std::mem::swap(&mut result, games);
}

} // verus!
