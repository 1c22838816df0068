//! The games shown on the home screen: those not hidden from it, up to the
//! home game limit, and which game a selection stands for.
use vstd::prelude::*;

use crate::config::HomeGameLimit;
use crate::game::{
    persistent_key_spec, record_for_game, sort_games_by_last_played, sorted_by_last_played,
    stored_time, with_recorded_time, Game, GameSource,
};
use crate::text::{chars_of, eq_chars};
use crate::xbox::string_views;

verus! {

/// The indices of the first `n` games that are not hidden from home.
pub open spec fn visible_indices(games: Seq<Game>, hidden: Seq<Seq<char>>, n: int) -> Seq<usize>
    decreases n,
{
    if n <= 0 {
        Seq::empty()
    } else {
        let prev = visible_indices(games, hidden, n - 1);
        if hidden.contains(persistent_key_spec(games[n - 1])) {
            prev
        } else {
            prev.push((n - 1) as usize)
        }
    }
}

/// The games on the home screen, in list order: those not hidden, at most
/// `limit` of them where the limit is set.
pub open spec fn home_indices(games: Seq<Game>, hidden: Seq<Seq<char>>, limit: HomeGameLimit) -> Seq<usize> {
    let all = visible_indices(games, hidden, games.len() as int);
    match limit {
        HomeGameLimit::Limited(l) => if l < all.len() {
            all.take(l as int)
        } else {
            all
        },
        HomeGameLimit::Unlimited => all,
    }
}

proof fn lemma_visible_indices_bounded(games: Seq<Game>, hidden: Seq<Seq<char>>, n: int)
    requires
        0 <= n,
    ensures
        visible_indices(games, hidden, n).len() <= n,
        forall|k: int|
            0 <= k < visible_indices(games, hidden, n).len() ==> #[trigger] visible_indices(
                games,
                hidden,
                n,
            )[k] < n,
    decreases n,
{
    if n > 0 {
        lemma_visible_indices_bounded(games, hidden, n - 1);
    }
}

/// Whether a key is among the hidden keys.
fn key_hidden(hidden: &Vec<String>, key: &Vec<char>) -> (r: bool)
    ensures
        r == string_views(hidden@).contains(key@),
{
    let mut i: usize = 0;
    while i < hidden.len()
        invariant
            i <= hidden@.len(),
            forall|j: int| 0 <= j < i ==> hidden@[j]@ != key@,
        decreases hidden.len() - i,
    {
        if eq_chars(&chars_of(hidden[i].as_str()), key) {
            assert(string_views(hidden@)[i as int] == key@);
            return true;
        }
        i = i + 1;
    }
    assert(!string_views(hidden@).contains(key@)) by {
        if string_views(hidden@).contains(key@) {
            let j = choose|j: int| 0 <= j < hidden@.len() && string_views(hidden@)[j] == key@;
            assert(hidden@[j]@ == key@);
        }
    }
    false
}

/// The indices of the games shown on the home screen.
pub fn home_game_indices(games: &Vec<Game>, hidden_keys: &Vec<String>, limit: HomeGameLimit) -> (r: Vec<usize>)
    ensures
        r@ == home_indices(games@, string_views(hidden_keys@), limit),
{
    let ghost hidden = string_views(hidden_keys@);
    let mut all: Vec<usize> = Vec::new();
    let mut i: usize = 0;
    while i < games.len()
        invariant
            i <= games@.len(),
            hidden == string_views(hidden_keys@),
            all@ == visible_indices(games@, hidden, i as int),
        decreases games.len() - i,
    {
        let key = chars_of(games[i].persistent_key().as_str());
        if !key_hidden(hidden_keys, &key) {
            all.push(i);
        }
        i = i + 1;
    }
    match limit {
        HomeGameLimit::Limited(l) => {
            if l < all.len() {
                let mut taken: Vec<usize> = Vec::new();
                let mut k: usize = 0;
                while k < l
                    invariant
                        k <= l,
                        l < all@.len(),
                        taken@ == all@.take(k as int),
                    decreases l - k,
                {
                    taken.push(all[k]);
                    k = k + 1;
                    assert(taken@ =~= all@.take(k as int));
                }
                taken
            } else {
                all
            }
        },
        HomeGameLimit::Unlimited => all,
    }
}

/// The number of home entries: the games shown, then the library entry.
pub fn home_items_len(home_indices: &Vec<usize>) -> (r: usize)
    requires
        home_indices@.len() < usize::MAX,
    ensures
        r == home_indices@.len() + 1,
{
    home_indices.len() + 1
}

/// The game a home selection stands for; none for the library entry.
pub fn selected_home_game_index(home_indices: &Vec<usize>, selected: usize) -> (r: Option<usize>)
    ensures
        r == if selected < home_indices@.len() {
            Some(home_indices@[selected as int])
        } else {
            None
        },
{
    if selected < home_indices.len() {
        Some(home_indices[selected])
    } else {
        None
    }
}

/// The game the selection stands for: the selected game of the library
/// page while it is open, else the game of the home selection.
pub fn selected_game_index(
    show_game_library_page: bool,
    games_len: usize,
    game_library_selected: usize,
    home_indices: &Vec<usize>,
    home_selected: usize,
) -> (r: Option<usize>)
    ensures
        r == if show_game_library_page {
            if games_len > 0 {
                Some(game_library_selected)
            } else {
                None
            }
        } else if home_selected < home_indices@.len() {
            Some(home_indices@[home_selected as int])
        } else {
            None
        },
{
    if show_game_library_page {
        if games_len > 0 {
            Some(game_library_selected)
        } else {
            None
        }
    } else {
        selected_home_game_index(home_indices, home_selected)
    }
}

/// Whether a game of the list is hidden from home.
pub fn game_hidden_from_home(games: &Vec<Game>, hidden_keys: &Vec<String>, game_index: usize) -> (r: bool)
    ensures
        r == (game_index < games@.len() && string_views(hidden_keys@).contains(
            persistent_key_spec(games@[game_index as int]),
        )),
{
    if game_index >= games.len() {
        return false;
    }
    let key = chars_of(games[game_index].persistent_key().as_str());
    key_hidden(hidden_keys, &key)
}

/// Hides a key from home or shows it again; true when the set of hidden
/// keys changed (and must be stored).
pub fn set_home_hidden(hidden_keys: &mut Vec<String>, key: &str, hidden: bool) -> (changed: bool)
    ensures
        changed == (hidden != string_views(old(hidden_keys)@).contains(key@)),
        forall|k: Seq<char>|
            #[trigger] string_views(final(hidden_keys)@).contains(k) == if k == key@ {
                hidden
            } else {
                string_views(old(hidden_keys)@).contains(k)
            },
{
    let kc = chars_of(key);
    let present = key_hidden(hidden_keys, &kc);
    let ghost before = string_views(hidden_keys@);
    if hidden {
        if present {
            return false;
        }
        hidden_keys.push(key.to_string());
        assert(string_views(hidden_keys@) =~= before.push(key@));
        assert forall|k: Seq<char>| #[trigger] string_views(hidden_keys@).contains(k) == if k == key@ {
            hidden
        } else {
            before.contains(k)
        } by {
            if string_views(hidden_keys@).contains(k) && k != key@ {
                let j = choose|j: int| 0 <= j < string_views(hidden_keys@).len() && string_views(hidden_keys@)[j] == k;
                assert(before[j] == k);
            }
            if before.contains(k) {
                let j = choose|j: int| 0 <= j < before.len() && before[j] == k;
                assert(string_views(hidden_keys@)[j] == k);
            }
            if k == key@ {
                assert(string_views(hidden_keys@)[before.len() as int] == k);
            }
        }
        true
    } else {
        if !present {
            return false;
        }
        let mut out: Vec<String> = Vec::new();
        let mut i: usize = 0;
        while i < hidden_keys.len()
            invariant
                i <= hidden_keys@.len(),
                before == string_views(hidden_keys@),
                kc@ == key@,
                forall|k: Seq<char>| #[trigger] string_views(out@).contains(k) <==> (k != key@
                    && string_views(hidden_keys@).subrange(0, i as int).contains(k)),
            decreases hidden_keys.len() - i,
        {
            let ghost pre = before.subrange(0, i as int);
            let ghost post = before.subrange(0, i + 1);
            let ghost ob = string_views(out@);
            assert forall|y: Seq<char>| #[trigger] post.contains(y) <==> (pre.contains(y) || y
                == before[i as int]) by {
                if post.contains(y) {
                    let q = choose|q: int| 0 <= q < post.len() && post[q] == y;
                    if q < i {
                        assert(pre[q] == y);
                    }
                }
                if pre.contains(y) {
                    let q = choose|q: int| 0 <= q < pre.len() && pre[q] == y;
                    assert(post[q] == y);
                }
                if y == before[i as int] {
                    assert(post[i as int] == y);
                }
            }
            if !eq_chars(&chars_of(hidden_keys[i].as_str()), &kc) {
                out.push(hidden_keys[i].clone());
                assert(string_views(out@) =~= ob.push(before[i as int]));
                assert forall|y: Seq<char>| #[trigger] string_views(out@).contains(y) <==> (ob.contains(y)
                    || y == before[i as int]) by {
                    if string_views(out@).contains(y) {
                        let q = choose|q: int| 0 <= q < string_views(out@).len() && string_views(out@)[q] == y;
                        if q < ob.len() {
                            assert(ob[q] == y);
                        }
                    }
                    if ob.contains(y) {
                        let q = choose|q: int| 0 <= q < ob.len() && ob[q] == y;
                        assert(string_views(out@)[q] == y);
                    }
                    if y == before[i as int] {
                        assert(string_views(out@)[ob.len() as int] == y);
                    }
                }
            }
            i = i + 1;
        }
        assert(before.subrange(0, before.len() as int) =~= before);
        *hidden_keys = out;
        true
    }
}

/// Achievements are offered for Steam games only.
pub fn can_open_achievement_panel(selected_game: Option<&Game>) -> (r: bool)
    ensures
        r == match selected_game {
            Some(g) => g.source == GameSource::Steam,
            None => false,
        },
{
    match selected_game {
        Some(g) => match g.source {
            GameSource::Steam => true,
            GameSource::Epic => false,
        },
        None => false,
    }
}

/// The last position of a key in a list of keys.
pub open spec fn last_position(keys: Seq<Seq<char>>, key: Seq<char>) -> Option<int> {
    if exists|i: int| 0 <= i < keys.len() && keys[i] == key {
        Some(
            choose|i: int|
                0 <= i < keys.len() && keys[i] == key && forall|j: int|
                    i < j < keys.len() ==> keys[j] != key,
        )
    } else {
        None
    }
}

/// Where a game of the list before a reorder stands after it: the game at
/// `old_index` of the old order of keys, found at its (last) position in
/// the new order; none when the index or the key is gone.
pub open spec fn remapped_index(old_order: Seq<Seq<char>>, new_order: Seq<Seq<char>>, old_index: int) -> Option<int> {
    if 0 <= old_index < old_order.len() {
        last_position(new_order, old_order[old_index])
    } else {
        None
    }
}

pub fn remap_game_index(old_order: &Vec<String>, new_order: &Vec<String>, old_index: usize) -> (r: Option<usize>)
    ensures
        match r {
            Some(i) => remapped_index(string_views(old_order@), string_views(new_order@), old_index as int)
                == Some(i as int),
            None => remapped_index(string_views(old_order@), string_views(new_order@), old_index as int) is None,
        },
{
    if old_index >= old_order.len() {
        return None;
    }
    let key = chars_of(old_order[old_index].as_str());
    let ghost nv = string_views(new_order@);
    let mut i: usize = new_order.len();
    while i > 0
        invariant
            i <= new_order@.len(),
            old_index < old_order@.len(),
            nv == string_views(new_order@),
            key@ == string_views(old_order@)[old_index as int],
            forall|j: int| i <= j < new_order@.len() ==> nv[j] != key@,
        decreases i,
    {
        if eq_chars(&chars_of(new_order[i - 1].as_str()), &key) {
            proof {
                let p = (i - 1) as int;
                assert(nv[p] == key@);
                let c = choose|c: int|
                    0 <= c < nv.len() && nv[c] == key@ && forall|j: int| c < j < nv.len() ==> nv[j] != key@;
                assert(0 <= p < nv.len() && nv[p] == key@ && forall|j: int| p < j < nv.len() ==> nv[j] != key@);
                assert(exists|c2: int|
                    0 <= c2 < nv.len() && nv[c2] == key@ && forall|j: int| c2 < j < nv.len() ==> nv[j] != key@);
                assert(exists|c3: int| 0 <= c3 < nv.len() && nv[c3] == key@);
                if c < p {
                    assert(nv[p] != key@);
                } else if c > p {
                    assert(nv[c] != key@);
                }
            }
            return Some(i - 1);
        }
        i = i - 1;
    }
    None
}


/// The first game of the list with a key.
pub open spec fn is_first_with_key(games: Seq<Game>, key: Seq<char>, j: int) -> bool {
    &&& 0 <= j < games.len()
    &&& persistent_key_spec(games[j]) == key
    &&& forall|k: int| 0 <= k < j ==> persistent_key_spec(#[trigger] games[k]) != key
}

/// A game that was just launched moves up the list: it takes `now` as its
/// last-played time, the time is recorded under its key, the list is
/// sorted again, and the result is where the first game of its key now
/// stands.
#[verifier::loop_isolation(false)]
pub fn promote_game_to_front(
    games: &mut Vec<Game>,
    entries: &mut Vec<(String, u64)>,
    game_index: usize,
    now: u64,
) -> (r: Option<usize>)
    ensures
        game_index >= old(games)@.len() ==> r is None && final(games)@ == old(games)@
            && final(entries)@ == old(entries)@,
        game_index < old(games)@.len() ==> {
            let key = persistent_key_spec(old(games)@[game_index as int]);
            let played = old(games)@.update(
                game_index as int,
                Game { last_played: now, ..old(games)@[game_index as int] },
            );
            &&& crate::epic::entry_views(final(entries)@) == with_recorded_time(old(entries)@, key, now)
            &&& stored_time(final(entries)@, key) == Some(now)
            &&& sorted_by_last_played(final(games)@)
            &&& final(games)@.to_multiset() == played.to_multiset()
            &&& r matches Some(j) && is_first_with_key(final(games)@, key, j as int)
        },
{
    broadcast use vstd::seq_lib::group_to_multiset_ensures;

    if game_index >= games.len() {
        return None;
    }
    let key = games[game_index].persistent_key();
    let ghost k = key@;
    let ghost orig = games@;
    let mut g = games.remove(game_index);
    g.last_played = now;
    games.insert(game_index, g);
    let ghost played = games@;
    assert(played =~= orig.update(game_index as int, Game { last_played: now, ..orig[game_index as int] }));
    record_for_game(entries, key.as_str(), now);
    sort_games_by_last_played(games);
    proof {
        assert(persistent_key_spec(played[game_index as int]) == k);
        assert(played.to_multiset().contains(played[game_index as int]));
        assert(games@.to_multiset().contains(played[game_index as int]));
        assert(games@.contains(played[game_index as int]));
    }
    let kc = chars_of(key.as_str());
    let mut j: usize = 0;
    while j < games.len()
        invariant
            j <= games@.len(),
            kc@ == k,
            games@.contains(played[game_index as int]),
            persistent_key_spec(played[game_index as int]) == k,
            forall|q: int| 0 <= q < j ==> persistent_key_spec(#[trigger] games@[q]) != k,
        decreases games.len() - j,
    {
        if eq_chars(&chars_of(games[j].persistent_key().as_str()), &kc) {
            return Some(j);
        }
        j = j + 1;
    }
    proof {
        let q = choose|q: int| 0 <= q < games@.len() && games@[q] == played[game_index as int];
        assert(persistent_key_spec(games@[q]) == k);
    }
    None
}

} // verus!
