//! Bookkeeping of the game details that are looked up in the background:
//! play time, install size, DLSS version and Steam update progress.
//!
//! Each state decides whether a lookup is started for the selected game and
//! takes in the results that finished lookups hand back; the caller runs
//! the lookups themselves.
use vstd::prelude::*;

use crate::game::{icon_key_of, same_icon_key, Game, GameIconKey, IconKeyModel};

verus! {

// ---------------------------------------------------------------------------
// Sets of app ids and of icon keys, held in vectors.
// ---------------------------------------------------------------------------
/// The app ids a vector holds.
pub open spec fn id_set(v: Seq<u32>) -> Set<u32> {
    Set::new(|x: u32| v.contains(x))
}

/// What the icon keys of a vector name.
pub open spec fn key_set(v: Seq<GameIconKey>) -> Set<IconKeyModel> {
    Set::new(|m: IconKeyModel| exists|i: int| 0 <= i < v.len() && (#[trigger] v[i])@ == m)
}

fn contains_id(v: &Vec<u32>, id: u32) -> (r: bool)
    ensures
        r == id_set(v@).contains(id),
{
    let mut i: usize = 0;
    while i < v.len()
        invariant
            i <= v@.len(),
            forall|j: int| 0 <= j < i ==> v@[j] != id,
        decreases v.len() - i,
    {
        if v[i] == id {
            assert(v@.contains(id));
            return true;
        }
        i = i + 1;
    }
    false
}

fn insert_id(v: &mut Vec<u32>, id: u32)
    ensures
        id_set(final(v)@) == id_set(old(v)@).insert(id),
{
    if !contains_id(v, id) {
        let ghost before = v@;
        v.push(id);
        assert forall|x: u32| #[trigger] v@.contains(x) <==> (before.contains(x) || x == id) by {
            if v@.contains(x) {
                let k = choose|k: int| 0 <= k < v@.len() && v@[k] == x;
                if k < before.len() {
                    assert(before[k] == x);
                }
            }
            if before.contains(x) {
                let k = choose|k: int| 0 <= k < before.len() && before[k] == x;
                assert(v@[k] == x);
            }
            if x == id {
                assert(v@[before.len() as int] == id);
            }
        }
    }
    assert(id_set(v@) =~= id_set(old(v)@).insert(id));
}

fn remove_id(v: &mut Vec<u32>, id: u32)
    ensures
        id_set(final(v)@) == id_set(old(v)@).remove(id),
{
    let mut out: Vec<u32> = Vec::new();
    let mut i: usize = 0;
    while i < v.len()
        invariant
            i <= v@.len(),
            forall|x: u32|
                #[trigger] out@.contains(x) <==> (x != id && v@.subrange(0, i as int).contains(x)),
        decreases v.len() - i,
    {
        let x = v[i];
        let ghost before = out@;
        let ghost pre = v@.subrange(0, i as int);
        let ghost post = v@.subrange(0, i + 1);
        assert forall|y: u32| #[trigger] post.contains(y) <==> (pre.contains(y) || y == x) by {
            if post.contains(y) {
                let k = choose|k: int| 0 <= k < post.len() && post[k] == y;
                if k < i {
                    assert(pre[k] == y);
                }
            }
            if pre.contains(y) {
                let k = choose|k: int| 0 <= k < pre.len() && pre[k] == y;
                assert(post[k] == y);
            }
            if y == x {
                assert(post[i as int] == x);
            }
        }
        if x != id {
            out.push(x);
            assert forall|y: u32| #[trigger] out@.contains(y) <==> (before.contains(y) || y == x) by {
                if out@.contains(y) {
                    let k = choose|k: int| 0 <= k < out@.len() && out@[k] == y;
                    if k < before.len() {
                        assert(before[k] == y);
                    }
                }
                if before.contains(y) {
                    let k = choose|k: int| 0 <= k < before.len() && before[k] == y;
                    assert(out@[k] == y);
                }
                if y == x {
                    assert(out@[before.len() as int] == x);
                }
            }
        }
        i = i + 1;
    }
    assert(v@.subrange(0, v@.len() as int) =~= v@);
    *v = out;
    assert(id_set(v@) =~= id_set(old(v)@).remove(id));
}

fn contains_key(v: &Vec<GameIconKey>, key: &GameIconKey) -> (r: bool)
    ensures
        r == key_set(v@).contains(key@),
{
    let mut i: usize = 0;
    while i < v.len()
        invariant
            i <= v@.len(),
            forall|j: int| 0 <= j < i ==> (#[trigger] v@[j])@ != key@,
        decreases v.len() - i,
    {
        if same_icon_key(&v[i], key) {
            assert(v@[i as int]@ == key@);
            return true;
        }
        i = i + 1;
    }
    false
}

fn insert_key(v: &mut Vec<GameIconKey>, key: GameIconKey)
    ensures
        key_set(final(v)@) == key_set(old(v)@).insert(key@),
{
    if !contains_key(v, &key) {
        let ghost before = v@;
        let ghost m = key@;
        v.push(key);
        assert forall|x: IconKeyModel| #[trigger] key_set(v@).contains(x) <==> (key_set(
            before,
        ).contains(x) || x == m) by {
            if key_set(v@).contains(x) {
                let k = choose|k: int| 0 <= k < v@.len() && (#[trigger] v@[k])@ == x;
                if k < before.len() {
                    assert(before[k] == v@[k]);
                }
            }
            if key_set(before).contains(x) {
                let k = choose|k: int| 0 <= k < before.len() && (#[trigger] before[k])@ == x;
                assert(v@[k] == before[k]);
            }
            if x == m {
                assert(v@[before.len() as int]@ == m);
            }
        }
    }
    assert(key_set(v@) =~= key_set(old(v)@).insert(key@));
}

fn remove_key(v: &mut Vec<GameIconKey>, key: &GameIconKey)
    ensures
        key_set(final(v)@) == key_set(old(v)@).remove(key@),
{
    let mut i: usize = 0;
    let ghost orig = v@;
    while i < v.len()
        invariant
            i <= v@.len(),
            orig == old(v)@,
            forall|j: int| 0 <= j < i ==> (#[trigger] v@[j])@ != key@,
            forall|x: IconKeyModel|
                x != key@ ==> (#[trigger] key_set(v@).contains(x) <==> key_set(orig).contains(x)),
            forall|j: int| 0 <= j < v@.len() ==> key_set(orig).contains(#[trigger] v@[j]@),
        decreases v.len() - i,
    {
        if same_icon_key(&v[i], key) {
            let ghost before = v@;
            v.remove(i);
            assert forall|x: IconKeyModel| x != key@ implies (#[trigger] key_set(v@).contains(x)
                <==> key_set(before).contains(x)) by {
                if key_set(v@).contains(x) {
                    let k = choose|k: int| 0 <= k < v@.len() && (#[trigger] v@[k])@ == x;
                    if k < i {
                        assert(v@[k] == before[k]);
                    } else {
                        assert(v@[k] == before[k + 1]);
                    }
                }
                if key_set(before).contains(x) {
                    let k = choose|k: int| 0 <= k < before.len() && (#[trigger] before[k])@ == x;
                    if k < i {
                        assert(v@[k] == before[k]);
                    } else if k > i {
                        assert(v@[k - 1] == before[k]);
                    }
                }
            }
            assert forall|j: int| 0 <= j < v@.len() implies key_set(orig).contains(
                #[trigger] v@[j]@,
            ) by {
                if j < i {
                    assert(v@[j] == before[j]);
                } else {
                    assert(v@[j] == before[j + 1]);
                }
            }
        } else {
            i = i + 1;
        }
    }
    assert forall|x: IconKeyModel| #[trigger] key_set(v@).contains(x) <==> key_set(
        orig,
    ).remove(key@).contains(x) by {
        if x == key@ && key_set(v@).contains(x) {
            let k = choose|k: int| 0 <= k < v@.len() && (#[trigger] v@[k])@ == x;
        }
    }
    assert(key_set(v@) =~= key_set(old(v)@).remove(key@));
}

// ---------------------------------------------------------------------------
// Values by app id, held in vectors: the first entry of an id counts.
// ---------------------------------------------------------------------------
/// The value of the first entry of an app id.
pub open spec fn lookup<V>(s: Seq<(u32, V)>, id: u32) -> Option<V>
    decreases s.len(),
{
    if s.len() == 0 {
        None
    } else if s[0].0 == id {
        Some(s[0].1)
    } else {
        lookup(s.drop_first(), id)
    }
}

proof fn lemma_lookup_first<V>(s: Seq<(u32, V)>, id: u32, i: int)
    requires
        0 <= i < s.len(),
        s[i].0 == id,
        forall|j: int| 0 <= j < i ==> (#[trigger] s[j]).0 != id,
    ensures
        lookup(s, id) == Some(s[i].1),
    decreases s.len(),
{
    if i > 0 {
        let t = s.drop_first();
        assert forall|j: int| 0 <= j < i - 1 implies (#[trigger] t[j]).0 != id by {
            assert(t[j] == s[j + 1]);
        }
        lemma_lookup_first(t, id, i - 1);
    }
}

proof fn lemma_lookup_absent<V>(s: Seq<(u32, V)>, id: u32)
    requires
        forall|j: int| 0 <= j < s.len() ==> (#[trigger] s[j]).0 != id,
    ensures
        lookup(s, id) is None,
    decreases s.len(),
{
    if s.len() > 0 {
        let t = s.drop_first();
        assert forall|j: int| 0 <= j < t.len() implies (#[trigger] t[j]).0 != id by {
            assert(t[j] == s[j + 1]);
        }
        lemma_lookup_absent(t, id);
    }
}

/// Changing an entry whose id is not `other`, or adding one at the end,
/// leaves the value of `other` as it was, when its id is kept.
proof fn lemma_lookup_update_other<V>(s: Seq<(u32, V)>, i: int, e: (u32, V), other: u32)
    requires
        0 <= i < s.len(),
        s[i].0 != other,
        e.0 != other,
    ensures
        lookup(s.update(i, e), other) == lookup(s, other),
    decreases s.len(),
{
    if i > 0 && s[0].0 != other {
        assert(s.update(i, e).drop_first() =~= s.drop_first().update(i - 1, e));
        lemma_lookup_update_other(s.drop_first(), i - 1, e, other);
    } else if i == 0 {
        assert(s.update(i, e).drop_first() =~= s.drop_first());
    }
}

proof fn lemma_lookup_push_other<V>(s: Seq<(u32, V)>, e: (u32, V), other: u32)
    requires
        e.0 != other,
    ensures
        lookup(s.push(e), other) == lookup(s, other),
    decreases s.len(),
{
    if s.len() == 0 {
        assert(s.push(e).drop_first() =~= Seq::<(u32, V)>::empty());
        assert(lookup(s.push(e).drop_first(), other) == lookup(s, other));
    } else if s[0].0 != other {
        assert(s.push(e).drop_first() =~= s.drop_first().push(e));
        lemma_lookup_push_other(s.drop_first(), e, other);
    }
}

proof fn lemma_lookup_remove_other<V>(s: Seq<(u32, V)>, i: int, other: u32)
    requires
        0 <= i < s.len(),
        s[i].0 != other,
    ensures
        lookup(s.remove(i), other) == lookup(s, other),
    decreases s.len(),
{
    if i == 0 {
        assert(s.remove(0) =~= s.drop_first());
    } else if s[0].0 != other {
        assert(s.remove(i).drop_first() =~= s.drop_first().remove(i - 1));
        lemma_lookup_remove_other(s.drop_first(), i - 1, other);
    } else {
        assert(s.remove(i)[0] == s[0]);
    }
}

/// Sets the value of an app id.
fn put_value<V>(s: &mut Vec<(u32, V)>, id: u32, value: V)
    ensures
        lookup(final(s)@, id) == Some(value),
        forall|other: u32| other != id ==> lookup(final(s)@, other) == lookup(old(s)@, other),
{
    let mut i: usize = 0;
    while i < s.len()
        invariant
            i <= s@.len(),
            s@ == old(s)@,
            forall|j: int| 0 <= j < i ==> (#[trigger] s@[j]).0 != id,
        decreases s.len() - i,
    {
        if s[i].0 == id {
            let ghost before = s@;
            s.set(i, (id, value));
            proof {
                lemma_lookup_first(s@, id, i as int);
                assert forall|other: u32| other != id implies lookup(s@, other) == lookup(
                    before,
                    other,
                ) by {
                    lemma_lookup_update_other(before, i as int, (id, value), other);
                }
            }
            return;
        }
        i = i + 1;
    }
    let ghost before = s@;
    s.push((id, value));
    proof {
        lemma_lookup_first(s@, id, before.len() as int);
        assert forall|other: u32| other != id implies lookup(s@, other) == lookup(before, other) by {
            lemma_lookup_push_other(before, (id, value), other);
        }
    }
}

/// Removes every entry of an app id.
fn drop_value<V>(s: &mut Vec<(u32, V)>, id: u32)
    ensures
        lookup(final(s)@, id) is None,
        forall|other: u32| other != id ==> lookup(final(s)@, other) == lookup(old(s)@, other),
{
    let mut i: usize = 0;
    while i < s.len()
        invariant
            i <= s@.len(),
            forall|j: int| 0 <= j < i ==> (#[trigger] s@[j]).0 != id,
            forall|other: u32| other != id ==> lookup(s@, other) == lookup(old(s)@, other),
        decreases s.len() - i,
    {
        if s[i].0 == id {
            let ghost before = s@;
            s.remove(i);
            proof {
                assert forall|other: u32| other != id implies lookup(s@, other) == lookup(
                    before,
                    other,
                ) by {
                    lemma_lookup_remove_other(before, i as int, other);
                }
                assert forall|j: int| 0 <= j < i implies (#[trigger] s@[j]).0 != id by {
                    assert(s@[j] == before[j]);
                }
            }
        } else {
            i = i + 1;
        }
    }
    proof {
        lemma_lookup_absent(s@, id);
    }
}

/// The value of an app id.
fn get_value<V>(s: &Vec<(u32, V)>, id: u32) -> (r: Option<&V>)
    ensures
        match r {
            Some(v) => lookup(s@, id) == Some(*v),
            None => lookup(s@, id) is None,
        },
{
    let mut i: usize = 0;
    while i < s.len()
        invariant
            i <= s@.len(),
            forall|j: int| 0 <= j < i ==> (#[trigger] s@[j]).0 != id,
        decreases s.len() - i,
    {
        if s[i].0 == id {
            proof {
                lemma_lookup_first(s@, id, i as int);
            }
            return Some(&s[i].1);
        }
        i = i + 1;
    }
    proof {
        lemma_lookup_absent(s@, id);
    }
    None
}

// ---------------------------------------------------------------------------
// The game a result is for.
// ---------------------------------------------------------------------------
/// Game `i` is the first of the list with this app id.
pub open spec fn is_first_with_app_id(games: Seq<Game>, id: u32, i: int) -> bool {
    &&& 0 <= i < games.len()
    &&& games[i].app_id == Some(id)
    &&& forall|j: int| 0 <= j < i ==> (#[trigger] games[j]).app_id != Some(id)
}

/// Game `i` is the first of the list with this icon key.
pub open spec fn is_first_with_key(games: Seq<Game>, key: IconKeyModel, i: int) -> bool {
    &&& 0 <= i < games.len()
    &&& icon_key_of(games[i]) == key
    &&& forall|j: int| 0 <= j < i ==> icon_key_of(#[trigger] games[j]) != key
}

fn find_app_id(games: &Vec<Game>, id: u32) -> (r: Option<usize>)
    ensures
        match r {
            Some(i) => is_first_with_app_id(games@, id, i as int),
            None => forall|j: int| 0 <= j < games@.len() ==> (#[trigger] games@[j]).app_id != Some(id),
        },
{
    let mut i: usize = 0;
    while i < games.len()
        invariant
            i <= games@.len(),
            forall|j: int| 0 <= j < i ==> (#[trigger] games@[j]).app_id != Some(id),
        decreases games.len() - i,
    {
        if games[i].app_id == Some(id) {
            return Some(i);
        }
        i = i + 1;
    }
    None
}

fn find_icon_key(games: &Vec<Game>, key: &GameIconKey) -> (r: Option<usize>)
    ensures
        match r {
            Some(i) => is_first_with_key(games@, key@, i as int),
            None => forall|j: int| 0 <= j < games@.len() ==> icon_key_of(#[trigger] games@[j]) != key@,
        },
{
    let mut i: usize = 0;
    while i < games.len()
        invariant
            i <= games@.len(),
            forall|j: int| 0 <= j < i ==> icon_key_of(#[trigger] games@[j]) != key@,
        decreases games.len() - i,
    {
        let k = games[i].icon_key();
        if same_icon_key(&k, key) {
            return Some(i);
        }
        i = i + 1;
    }
    None
}

/// The app ids of a list of results.
pub open spec fn result_ids<T>(results: Seq<(u32, T)>) -> Set<u32> {
    Set::new(|x: u32| exists|k: int| 0 <= k < results.len() && (#[trigger] results[k]).0 == x)
}

/// The icon keys of a list of results.
pub open spec fn result_keys<T>(results: Seq<(GameIconKey, T)>) -> Set<IconKeyModel> {
    Set::new(
        |m: IconKeyModel| exists|k: int| 0 <= k < results.len() && (#[trigger] results[k]).0@ == m,
    )
}

proof fn lemma_result_ids_push<T>(results: Seq<(u32, T)>, k: int)
    requires
        0 <= k < results.len(),
    ensures
        result_ids(results.subrange(0, k + 1)) == result_ids(results.subrange(0, k)).insert(
            results[k].0,
        ),
{
    let a = results.subrange(0, k + 1);
    let b = results.subrange(0, k);
    assert forall|x: u32| #[trigger] result_ids(a).contains(x) <==> result_ids(b).insert(
        results[k].0,
    ).contains(x) by {
        if result_ids(a).contains(x) {
            let j = choose|j: int| 0 <= j < a.len() && (#[trigger] a[j]).0 == x;
            if j < k {
                assert(b[j] == a[j]);
            }
        }
        if result_ids(b).contains(x) {
            let j = choose|j: int| 0 <= j < b.len() && (#[trigger] b[j]).0 == x;
            assert(a[j] == b[j]);
        }
        if x == results[k].0 {
            assert(a[k] == results[k]);
        }
    }
    assert(result_ids(a) =~= result_ids(b).insert(results[k].0));
}

proof fn lemma_result_keys_push<T>(results: Seq<(GameIconKey, T)>, k: int)
    requires
        0 <= k < results.len(),
    ensures
        result_keys(results.subrange(0, k + 1)) == result_keys(results.subrange(0, k)).insert(
            results[k].0@,
        ),
{
    let a = results.subrange(0, k + 1);
    let b = results.subrange(0, k);
    assert forall|x: IconKeyModel| #[trigger] result_keys(a).contains(x) <==> result_keys(
        b,
    ).insert(results[k].0@).contains(x) by {
        if result_keys(a).contains(x) {
            let j = choose|j: int| 0 <= j < a.len() && (#[trigger] a[j]).0@ == x;
            if j < k {
                assert(b[j] == a[j]);
            }
        }
        if result_keys(b).contains(x) {
            let j = choose|j: int| 0 <= j < b.len() && (#[trigger] b[j]).0@ == x;
            assert(a[j] == b[j]);
        }
        if x == results[k].0@ {
            assert(a[k] == results[k]);
        }
    }
    assert(result_keys(a) =~= result_keys(b).insert(results[k].0@));
}

// ---------------------------------------------------------------------------
// Play time.
// ---------------------------------------------------------------------------
/// The play time of game `i` after taking in the results in order: the
/// last result that holds a time for the game's app id, where the game is
/// the first of the list with that id.
pub open spec fn playtime_after(games: Seq<Game>, results: Seq<(u32, Option<u32>)>, i: int) -> u32
    decreases results.len(),
{
    if results.len() == 0 {
        games[i].playtime_minutes
    } else {
        let last = results.last();
        match last.1 {
            Some(m) => if is_first_with_app_id(games, last.0, i) {
                m
            } else {
                playtime_after(games, results.drop_last(), i)
            },
            None => playtime_after(games, results.drop_last(), i),
        }
    }
}

/// The play-time lookups that are running, by Steam app id.
pub struct PlaytimeState {
    loading: Vec<u32>,
}

impl PlaytimeState {
    /// The app ids whose play time is being looked up.
    pub closed spec fn loading(&self) -> Set<u32> {
        id_set(self.loading@)
    }

    pub fn new() -> (r: Self)
        ensures
            r.loading() == Set::<u32>::empty(),
    {
        let r = PlaytimeState { loading: Vec::new() };
        assert(r.loading() =~= Set::<u32>::empty());
        r
    }

    /// Whether to look up the play time of the selected game: it returns
    /// the app id to look up when the game has one and no lookup of it
    /// runs, and marks that lookup as running.
    pub fn refresh_for_selected(&mut self, selected_game: Option<&Game>) -> (start: Option<u32>)
        ensures
            match selected_game {
                Some(g) => match g.app_id {
                    Some(id) => if old(self).loading().contains(id) {
                        start is None && final(self).loading() == old(self).loading()
                    } else {
                        start == Some(id) && final(self).loading() == old(self).loading().insert(id)
                    },
                    None => start is None && final(self).loading() == old(self).loading(),
                },
                None => start is None && final(self).loading() == old(self).loading(),
            },
    {
        let app_id = match selected_game {
            Some(g) => g.app_id,
            None => None,
        };
        match app_id {
            Some(id) => {
                if contains_id(&self.loading, id) {
                    None
                } else {
                    insert_id(&mut self.loading, id);
                    Some(id)
                }
            },
            None => None,
        }
    }

    /// Takes in finished lookups, in the order they finished: each lookup
    /// stops running, and a time that was found becomes the play time of
    /// the first game with that app id.
    pub fn drain_results(&mut self, games: &mut Vec<Game>, results: Vec<(u32, Option<u32>)>)
        ensures
            final(self).loading() == old(self).loading().difference(result_ids(results@)),
            final(games)@.len() == old(games)@.len(),
            forall|i: int|
                0 <= i < old(games)@.len() ==> final(games)@[i] == (Game {
                    playtime_minutes: playtime_after(old(games)@, results@, i),
                    ..old(games)@[i]
                }),
    {
        let ghost og = games@;
        let ghost start = self.loading();
        let n = games.len();
        let mut k: usize = 0;
        assert(results@.subrange(0, 0) =~= Seq::<(u32, Option<u32>)>::empty());
        assert(result_ids(results@.subrange(0, 0)) =~= Set::<u32>::empty());
        assert(start.difference(Set::<u32>::empty()) =~= start);
        while k < results.len()
            invariant
                k <= results@.len(),
                og == old(games)@,
                start == old(self).loading(),
                games@.len() == n,
                n == og.len(),
                self.loading() == start.difference(result_ids(results@.subrange(0, k as int))),
                forall|i: int|
                    0 <= i < n ==> games@[i] == (Game {
                        playtime_minutes: playtime_after(og, results@.subrange(0, k as int), i),
                        ..og[i]
                    }),
            decreases results.len() - k,
        {
            let id = results[k].0;
            let value = results[k].1;
            proof {
                lemma_result_ids_push(results@, k as int);
                let a = results@.subrange(0, k + 1);
                assert(a.drop_last() =~= results@.subrange(0, k as int));
                assert(a.last() == results@[k as int]);
            }
            remove_id(&mut self.loading, id);
            assert(self.loading() =~= start.difference(result_ids(results@.subrange(0, k + 1))));
            let found = find_app_id(games, id);
            proof {
                assert forall|j: int| 0 <= j < n implies (#[trigger] games@[j]).app_id == og[j].app_id by {}
                assert forall|j: int| 0 <= j < n implies is_first_with_app_id(games@, id, j)
                    == is_first_with_app_id(og, id, j) by {
                    if is_first_with_app_id(og, id, j) {
                        assert forall|q: int| 0 <= q < j implies (#[trigger] games@[q]).app_id != Some(id) by {
                            assert(games@[q].app_id == og[q].app_id);
                        }
                    }
                    if is_first_with_app_id(games@, id, j) {
                        assert forall|q: int| 0 <= q < j implies (#[trigger] og[q]).app_id != Some(id) by {
                            assert(games@[q].app_id == og[q].app_id);
                        }
                    }
                }
            }
            match (found, value) {
                (Some(f), Some(m)) => {
                    let ghost before = games@;
                    let mut g = games.remove(f);
                    g.playtime_minutes = m;
                    games.insert(f, g);
                    proof {
                        assert forall|i: int| 0 <= i < n implies games@[i] == (Game {
                            playtime_minutes: playtime_after(og, results@.subrange(0, k + 1), i),
                            ..og[i]
                        }) by {
                            if i != f {
                                assert(games@[i] == before[i]);
                                if is_first_with_app_id(og, id, i) {
                                    assert(is_first_with_app_id(games@, id, f as int));
                                    if i < f {
                                        assert(og[i].app_id == Some(id));
                                    } else {
                                        assert(og[f as int].app_id == Some(id));
                                    }
                                }
                            }
                        }
                    }
                },
                _ => {
                    proof {
                        assert forall|i: int| 0 <= i < n implies games@[i] == (Game {
                            playtime_minutes: playtime_after(og, results@.subrange(0, k + 1), i),
                            ..og[i]
                        }) by {
                            if value is Some && is_first_with_app_id(og, id, i) {
                                assert(found is Some);
                            }
                        }
                    }
                },
            }
            k = k + 1;
        }
        assert(results@.subrange(0, results@.len() as int) =~= results@);
    }
}

// ---------------------------------------------------------------------------
// Install size and DLSS version: lookups by icon key, made once per game.
// ---------------------------------------------------------------------------
struct LookupKeys {
    loading: Vec<GameIconKey>,
    checked: Vec<GameIconKey>,
}

impl LookupKeys {
    closed spec fn loading(&self) -> Set<IconKeyModel> {
        key_set(self.loading@)
    }

    closed spec fn checked(&self) -> Set<IconKeyModel> {
        key_set(self.checked@)
    }

    fn new() -> (r: Self)
        ensures
            r.loading() == Set::<IconKeyModel>::empty(),
            r.checked() == Set::<IconKeyModel>::empty(),
    {
        let r = LookupKeys { loading: Vec::new(), checked: Vec::new() };
        assert(r.loading() =~= Set::<IconKeyModel>::empty());
        assert(r.checked() =~= Set::<IconKeyModel>::empty());
        r
    }

    /// Starts a lookup unless one runs or was made for the key.
    fn begin(&mut self, key: &GameIconKey) -> (started: bool)
        ensures
            started == (!old(self).loading().contains(key@) && !old(self).checked().contains(key@)),
            started ==> final(self).loading() == old(self).loading().insert(key@)
                && final(self).checked() == old(self).checked().insert(key@),
            !started ==> final(self).loading() == old(self).loading() && final(self).checked()
                == old(self).checked(),
    {
        if contains_key(&self.loading, key) || contains_key(&self.checked, key) {
            return false;
        }
        insert_key(&mut self.loading, key.clone_key());
        insert_key(&mut self.checked, key.clone_key());
        true
    }

    fn finish(&mut self, key: &GameIconKey)
        ensures
            final(self).loading() == old(self).loading().remove(key@),
            final(self).checked() == old(self).checked(),
    {
        remove_key(&mut self.loading, key);
    }
}

/// The install size of game `i` after taking in the results in order: the last
/// result for the game's icon key, where the game is the first of the
/// list with that key.
pub open spec fn installed_size_after(games: Seq<Game>, results: Seq<(GameIconKey, Option<u64>)>, i: int) -> Option<u64>
    decreases results.len(),
{
    if results.len() == 0 {
        games[i].installed_size_bytes
    } else if is_first_with_key(games, results.last().0@, i) {
        results.last().1
    } else {
        installed_size_after(games, results.drop_last(), i)
    }
}

/// The install size lookups: those that run and those already made, by icon key.
pub struct InstallSizeState {
    keys: LookupKeys,
}

impl InstallSizeState {
    /// The games whose install size is being looked up.
    pub closed spec fn loading(&self) -> Set<IconKeyModel> {
        self.keys.loading()
    }

    /// The games whose install size was looked up already.
    pub closed spec fn checked(&self) -> Set<IconKeyModel> {
        self.keys.checked()
    }

    pub fn new() -> (r: Self)
        ensures
            r.loading() == Set::<IconKeyModel>::empty(),
            r.checked() == Set::<IconKeyModel>::empty(),
    {
        InstallSizeState { keys: LookupKeys::new() }
    }

    /// Whether to look up the install size of the selected game: it returns the
    /// game's icon key when its install size is unknown and it was never looked
    /// up, and marks that lookup as running and made.
    pub fn refresh_for_selected(&mut self, selected_game: Option<&Game>) -> (start: Option<GameIconKey>)
        ensures
            match selected_game {
                Some(g) => if g.installed_size_bytes is None && !old(self).loading().contains(icon_key_of(*g))
                    && !old(self).checked().contains(icon_key_of(*g)) {
                    &&& start matches Some(k) && k@ == icon_key_of(*g)
                    &&& final(self).loading() == old(self).loading().insert(icon_key_of(*g))
                    &&& final(self).checked() == old(self).checked().insert(icon_key_of(*g))
                } else {
                    &&& start is None
                    &&& final(self).loading() == old(self).loading()
                    &&& final(self).checked() == old(self).checked()
                },
                None => {
                    &&& start is None
                    &&& final(self).loading() == old(self).loading()
                    &&& final(self).checked() == old(self).checked()
                },
            },
    {
        match selected_game {
            Some(g) => {
                if g.installed_size_bytes.is_some() {
                    return None;
                }
                let key = g.icon_key();
                if self.keys.begin(&key) {
                    Some(key)
                } else {
                    None
                }
            },
            None => None,
        }
    }

    /// Takes in finished lookups, in the order they finished: each lookup
    /// stops running, and its result becomes the install size of the first game
    /// with that icon key.
    pub fn drain_results(&mut self, games: &mut Vec<Game>, results: Vec<(GameIconKey, Option<u64>)>)
        ensures
            final(self).loading() == old(self).loading().difference(result_keys(results@)),
            final(self).checked() == old(self).checked(),
            final(games)@.len() == old(games)@.len(),
            forall|i: int|
                0 <= i < old(games)@.len() ==> final(games)@[i] == (Game {
                    installed_size_bytes: installed_size_after(old(games)@, results@, i),
                    ..old(games)@[i]
                }),
    {
        let ghost og = games@;
        let ghost all = results@;
        let ghost start = self.loading();
        let n = games.len();
        let total = results.len();
        let mut results = results;
        let mut k: usize = 0;
        assert(all.subrange(0, 0) =~= Seq::<(GameIconKey, Option<u64>)>::empty());
        assert(result_keys(all.subrange(0, 0)) =~= Set::<IconKeyModel>::empty());
        assert(start.difference(Set::<IconKeyModel>::empty()) =~= start);
        assert(all.subrange(0, all.len() as int) =~= all);
        while results.len() > 0
            invariant
                k <= all.len(),
                all.len() == total,
                results@ == all.subrange(k as int, all.len() as int),
                og == old(games)@,
                start == old(self).loading(),
                self.checked() == old(self).checked(),
                games@.len() == n,
                n == og.len(),
                self.loading() == start.difference(result_keys(all.subrange(0, k as int))),
                forall|i: int|
                    0 <= i < n ==> games@[i] == (Game {
                        installed_size_bytes: installed_size_after(og, all.subrange(0, k as int), i),
                        ..og[i]
                    }),
            decreases results.len(),
        {
            let (key, value) = results.remove(0);
            proof {
                assert(all[k as int] == (key, value));
                lemma_result_keys_push(all, k as int);
                let a = all.subrange(0, k + 1);
                assert(a.drop_last() =~= all.subrange(0, k as int));
                assert(a.last() == all[k as int]);
                assert(results@ =~= all.subrange(k + 1, all.len() as int));
            }
            self.keys.finish(&key);
            assert(self.loading() =~= start.difference(result_keys(all.subrange(0, k + 1))));
            let found = find_icon_key(games, &key);
            proof {
                assert forall|j: int| 0 <= j < n implies icon_key_of(#[trigger] games@[j]) == icon_key_of(og[j]) by {}
                assert forall|j: int| 0 <= j < n implies is_first_with_key(games@, key@, j)
                    == is_first_with_key(og, key@, j) by {
                    if is_first_with_key(og, key@, j) {
                        assert forall|q: int| 0 <= q < j implies icon_key_of(#[trigger] games@[q]) != key@ by {
                            assert(icon_key_of(games@[q]) == icon_key_of(og[q]));
                        }
                    }
                    if is_first_with_key(games@, key@, j) {
                        assert forall|q: int| 0 <= q < j implies icon_key_of(#[trigger] og[q]) != key@ by {
                            assert(icon_key_of(games@[q]) == icon_key_of(og[q]));
                        }
                    }
                }
            }
            match found {
                Some(f) => {
                    let ghost before = games@;
                    let mut g = games.remove(f);
                    g.installed_size_bytes = value;
                    games.insert(f, g);
                    proof {
                        assert forall|i: int| 0 <= i < n implies games@[i] == (Game {
                            installed_size_bytes: installed_size_after(og, all.subrange(0, k + 1), i),
                            ..og[i]
                        }) by {
                            if i != f {
                                assert(games@[i] == before[i]);
                                if is_first_with_key(og, key@, i) {
                                    assert(is_first_with_key(games@, key@, f as int));
                                    if i < f {
                                        assert(icon_key_of(og[i]) == key@);
                                    } else {
                                        assert(icon_key_of(og[f as int]) == key@);
                                    }
                                }
                            }
                        }
                    }
                },
                None => {
                    proof {
                        assert forall|i: int| 0 <= i < n implies games@[i] == (Game {
                            installed_size_bytes: installed_size_after(og, all.subrange(0, k + 1), i),
                            ..og[i]
                        }) by {
                            if is_first_with_key(og, key@, i) {
                                assert(is_first_with_key(games@, key@, i));
                            }
                        }
                    }
                },
            }
            k = k + 1;
        }
        assert(all.subrange(0, k as int) =~= all);
    }
}

/// The DLSS version of game `i` after taking in the results in order: the last
/// result for the game's icon key, where the game is the first of the
/// list with that key.
pub open spec fn dlss_version_after(games: Seq<Game>, results: Seq<(GameIconKey, Option<String>)>, i: int) -> Option<String>
    decreases results.len(),
{
    if results.len() == 0 {
        games[i].dlss_version
    } else if is_first_with_key(games, results.last().0@, i) {
        results.last().1
    } else {
        dlss_version_after(games, results.drop_last(), i)
    }
}

/// The DLSS version lookups: those that run and those already made, by icon key.
pub struct DlssState {
    keys: LookupKeys,
}

impl DlssState {
    /// The games whose DLSS version is being looked up.
    pub closed spec fn loading(&self) -> Set<IconKeyModel> {
        self.keys.loading()
    }

    /// The games whose DLSS version was looked up already.
    pub closed spec fn checked(&self) -> Set<IconKeyModel> {
        self.keys.checked()
    }

    pub fn new() -> (r: Self)
        ensures
            r.loading() == Set::<IconKeyModel>::empty(),
            r.checked() == Set::<IconKeyModel>::empty(),
    {
        DlssState { keys: LookupKeys::new() }
    }

    /// Whether to look up the DLSS version of the selected game: it returns the
    /// game's icon key when its DLSS version is unknown and it was never looked
    /// up, and marks that lookup as running and made.
    pub fn refresh_for_selected(&mut self, selected_game: Option<&Game>) -> (start: Option<GameIconKey>)
        ensures
            match selected_game {
                Some(g) => if g.dlss_version is None && !old(self).loading().contains(icon_key_of(*g))
                    && !old(self).checked().contains(icon_key_of(*g)) {
                    &&& start matches Some(k) && k@ == icon_key_of(*g)
                    &&& final(self).loading() == old(self).loading().insert(icon_key_of(*g))
                    &&& final(self).checked() == old(self).checked().insert(icon_key_of(*g))
                } else {
                    &&& start is None
                    &&& final(self).loading() == old(self).loading()
                    &&& final(self).checked() == old(self).checked()
                },
                None => {
                    &&& start is None
                    &&& final(self).loading() == old(self).loading()
                    &&& final(self).checked() == old(self).checked()
                },
            },
    {
        match selected_game {
            Some(g) => {
                if g.dlss_version.is_some() {
                    return None;
                }
                let key = g.icon_key();
                if self.keys.begin(&key) {
                    Some(key)
                } else {
                    None
                }
            },
            None => None,
        }
    }

    /// Takes in finished lookups, in the order they finished: each lookup
    /// stops running, and its result becomes the DLSS version of the first game
    /// with that icon key.
    pub fn drain_results(&mut self, games: &mut Vec<Game>, results: Vec<(GameIconKey, Option<String>)>)
        ensures
            final(self).loading() == old(self).loading().difference(result_keys(results@)),
            final(self).checked() == old(self).checked(),
            final(games)@.len() == old(games)@.len(),
            forall|i: int|
                0 <= i < old(games)@.len() ==> final(games)@[i] == (Game {
                    dlss_version: dlss_version_after(old(games)@, results@, i),
                    ..old(games)@[i]
                }),
    {
        let ghost og = games@;
        let ghost all = results@;
        let ghost start = self.loading();
        let n = games.len();
        let total = results.len();
        let mut results = results;
        let mut k: usize = 0;
        assert(all.subrange(0, 0) =~= Seq::<(GameIconKey, Option<String>)>::empty());
        assert(result_keys(all.subrange(0, 0)) =~= Set::<IconKeyModel>::empty());
        assert(start.difference(Set::<IconKeyModel>::empty()) =~= start);
        assert(all.subrange(0, all.len() as int) =~= all);
        while results.len() > 0
            invariant
                k <= all.len(),
                all.len() == total,
                results@ == all.subrange(k as int, all.len() as int),
                og == old(games)@,
                start == old(self).loading(),
                self.checked() == old(self).checked(),
                games@.len() == n,
                n == og.len(),
                self.loading() == start.difference(result_keys(all.subrange(0, k as int))),
                forall|i: int|
                    0 <= i < n ==> games@[i] == (Game {
                        dlss_version: dlss_version_after(og, all.subrange(0, k as int), i),
                        ..og[i]
                    }),
            decreases results.len(),
        {
            let (key, value) = results.remove(0);
            proof {
                assert(all[k as int] == (key, value));
                lemma_result_keys_push(all, k as int);
                let a = all.subrange(0, k + 1);
                assert(a.drop_last() =~= all.subrange(0, k as int));
                assert(a.last() == all[k as int]);
                assert(results@ =~= all.subrange(k + 1, all.len() as int));
            }
            self.keys.finish(&key);
            assert(self.loading() =~= start.difference(result_keys(all.subrange(0, k + 1))));
            let found = find_icon_key(games, &key);
            proof {
                assert forall|j: int| 0 <= j < n implies icon_key_of(#[trigger] games@[j]) == icon_key_of(og[j]) by {}
                assert forall|j: int| 0 <= j < n implies is_first_with_key(games@, key@, j)
                    == is_first_with_key(og, key@, j) by {
                    if is_first_with_key(og, key@, j) {
                        assert forall|q: int| 0 <= q < j implies icon_key_of(#[trigger] games@[q]) != key@ by {
                            assert(icon_key_of(games@[q]) == icon_key_of(og[q]));
                        }
                    }
                    if is_first_with_key(games@, key@, j) {
                        assert forall|q: int| 0 <= q < j implies icon_key_of(#[trigger] og[q]) != key@ by {
                            assert(icon_key_of(games@[q]) == icon_key_of(og[q]));
                        }
                    }
                }
            }
            match found {
                Some(f) => {
                    let ghost before = games@;
                    let mut g = games.remove(f);
                    g.dlss_version = value;
                    games.insert(f, g);
                    proof {
                        assert forall|i: int| 0 <= i < n implies games@[i] == (Game {
                            dlss_version: dlss_version_after(og, all.subrange(0, k + 1), i),
                            ..og[i]
                        }) by {
                            if i != f {
                                assert(games@[i] == before[i]);
                                if is_first_with_key(og, key@, i) {
                                    assert(is_first_with_key(games@, key@, f as int));
                                    if i < f {
                                        assert(icon_key_of(og[i]) == key@);
                                    } else {
                                        assert(icon_key_of(og[f as int]) == key@);
                                    }
                                }
                            }
                        }
                    }
                },
                None => {
                    proof {
                        assert forall|i: int| 0 <= i < n implies games@[i] == (Game {
                            dlss_version: dlss_version_after(og, all.subrange(0, k + 1), i),
                            ..og[i]
                        }) by {
                            if is_first_with_key(og, key@, i) {
                                assert(is_first_with_key(games@, key@, i));
                            }
                        }
                    }
                },
            }
            k = k + 1;
        }
        assert(all.subrange(0, k as int) =~= all);
    }
}
// ---------------------------------------------------------------------------
// Steam update progress: polled at most once a second per game.
// ---------------------------------------------------------------------------
/// The least time between two polls of the update progress of a game.
pub const STEAM_UPDATE_POLL_INTERVAL_MS: u64 = 1000;

/// The time from `since` to `now`, zero when `now` is earlier.
pub open spec fn elapsed_ms(since: u64, now: u64) -> int {
    if now >= since {
        now - since
    } else {
        0
    }
}

/// A game was polled less than the poll interval ago.
pub open spec fn polled_recently(last: Option<u64>, now: u64) -> bool {
    match last {
        Some(t) => elapsed_ms(t, now) < STEAM_UPDATE_POLL_INTERVAL_MS,
        None => false,
    }
}

/// The update progress known of a game after taking in the results in
/// order: the last result for it, a result without progress clearing it.
pub open spec fn status_after<P>(previous: Option<P>, results: Seq<(u32, Option<P>)>, id: u32) -> Option<P>
    decreases results.len(),
{
    if results.len() == 0 {
        previous
    } else if results.last().0 == id {
        results.last().1
    } else {
        status_after(previous, results.drop_last(), id)
    }
}

/// The polls of Steam update progress: those that run, the latest
/// progress of each game, and when each game was last polled. `P` is the
/// progress that a poll reports.
pub struct SteamUpdateState<P> {
    loading: Vec<u32>,
    latest: Vec<(u32, P)>,
    last_polled_at: Vec<(u32, u64)>,
}

impl<P> SteamUpdateState<P> {
    /// The app ids being polled.
    pub closed spec fn loading(&self) -> Set<u32> {
        id_set(self.loading@)
    }

    /// The latest progress known of a game.
    pub closed spec fn status(&self, id: u32) -> Option<P> {
        lookup(self.latest@, id)
    }

    /// When a game was last polled, in milliseconds.
    pub closed spec fn last_polled(&self, id: u32) -> Option<u64> {
        lookup(self.last_polled_at@, id)
    }

    pub fn new() -> (r: Self)
        ensures
            r.loading() == Set::<u32>::empty(),
            forall|id: u32| r.status(id) is None && r.last_polled(id) is None,
    {
        let r = SteamUpdateState { loading: Vec::new(), latest: Vec::new(), last_polled_at: Vec::new() };
        assert(r.loading() =~= Set::<u32>::empty());
        r
    }

    /// Whether to poll the update progress of a game at `now_ms`: it
    /// returns the app id to poll when the game has one, no poll of it
    /// runs and it was not polled within the poll interval, and then marks
    /// the poll as running and made at `now_ms`.
    pub fn refresh_for_steam_app_id(&mut self, steam_app_id: Option<u32>, now_ms: u64) -> (start: Option<u32>)
        ensures
            forall|x: u32| #[trigger] final(self).status(x) == old(self).status(x),
            match steam_app_id {
                Some(id) => if !old(self).loading().contains(id) && !polled_recently(
                    old(self).last_polled(id),
                    now_ms,
                ) {
                    &&& start == Some(id)
                    &&& final(self).loading() == old(self).loading().insert(id)
                    &&& final(self).last_polled(id) == Some(now_ms)
                    &&& forall|x: u32| x != id ==> #[trigger] final(self).last_polled(x) == old(
                        self,
                    ).last_polled(x)
                } else {
                    &&& start is None
                    &&& final(self).loading() == old(self).loading()
                    &&& forall|x: u32| #[trigger] final(self).last_polled(x) == old(self).last_polled(x)
                },
                None => {
                    &&& start is None
                    &&& final(self).loading() == old(self).loading()
                    &&& forall|x: u32| #[trigger] final(self).last_polled(x) == old(self).last_polled(x)
                },
            },
    {
        let id = match steam_app_id {
            Some(id) => id,
            None => return None,
        };
        if contains_id(&self.loading, id) {
            return None;
        }
        match get_value(&self.last_polled_at, id) {
            Some(last) => {
                let elapsed = if now_ms >= *last {
                    now_ms - *last
                } else {
                    0
                };
                if elapsed < STEAM_UPDATE_POLL_INTERVAL_MS {
                    return None;
                }
            },
            None => {},
        }
        insert_id(&mut self.loading, id);
        put_value(&mut self.last_polled_at, id, now_ms);
        Some(id)
    }

    /// Takes in finished polls, in the order they finished: each poll stops
    /// running, and its progress becomes the latest of its game, or clears
    /// it when the poll found none.
    pub fn drain_results(&mut self, results: Vec<(u32, Option<P>)>)
        ensures
            final(self).loading() == old(self).loading().difference(result_ids(results@)),
            forall|x: u32| #[trigger] final(self).status(x) == status_after(old(self).status(x), results@, x),
            forall|x: u32| #[trigger] final(self).last_polled(x) == old(self).last_polled(x),
    {
        let ghost all = results@;
        let ghost start = self.loading();
        let total = results.len();
        let mut results = results;
        let mut k: usize = 0;
        assert(all.subrange(0, 0) =~= Seq::<(u32, Option<P>)>::empty());
        assert(result_ids(all.subrange(0, 0)) =~= Set::<u32>::empty());
        assert(start.difference(Set::<u32>::empty()) =~= start);
        assert(all.subrange(0, all.len() as int) =~= all);
        while results.len() > 0
            invariant
                k <= all.len(),
                all.len() == total,
                results@ == all.subrange(k as int, all.len() as int),
                start == old(self).loading(),
                self.loading() == start.difference(result_ids(all.subrange(0, k as int))),
                forall|x: u32| #[trigger] self.status(x) == status_after(
                    old(self).status(x),
                    all.subrange(0, k as int),
                    x,
                ),
                forall|x: u32| #[trigger] self.last_polled(x) == old(self).last_polled(x),
            decreases results.len(),
        {
            let ghost head = *self;
            let (id, progress) = results.remove(0);
            proof {
                assert(all[k as int] == (id, progress));
                lemma_result_ids_push(all, k as int);
                let a = all.subrange(0, k + 1);
                assert(a.drop_last() =~= all.subrange(0, k as int));
                assert(a.last() == all[k as int]);
                assert(results@ =~= all.subrange(k + 1, all.len() as int));
            }
            remove_id(&mut self.loading, id);
            assert(self.loading() =~= start.difference(result_ids(all.subrange(0, k + 1))));
            let ghost before_latest = self.latest@;
            let ghost polled = self.last_polled_at@;
            match progress {
                Some(p) => {
                    put_value(&mut self.latest, id, p);
                },
                None => {
                    drop_value(&mut self.latest, id);
                },
            }
            proof {
                let a = all.subrange(0, k + 1);
                assert forall|x: u32| #[trigger] self.status(x) == status_after(
                    old(self).status(x),
                    a,
                    x,
                ) by {
                    assert(status_after(old(self).status(x), a, x) == if x == id {
                        progress
                    } else {
                        status_after(old(self).status(x), all.subrange(0, k as int), x)
                    });
                    assert(head.status(x) == status_after(
                        old(self).status(x),
                        all.subrange(0, k as int),
                        x,
                    ));
                    if x != id {
                        assert(lookup(self.latest@, x) == lookup(before_latest, x));
                    }
                }
                assert forall|x: u32| #[trigger] self.last_polled(x) == old(self).last_polled(x) by {
                    assert(self.last_polled_at@ == polled);
                    assert(head.last_polled(x) == old(self).last_polled(x));
                }
            }
            k = k + 1;
        }
        assert(all.subrange(0, k as int) =~= all);
    }

    /// The latest progress known of a game, if it has an app id.
    pub fn status_for_steam_app_id(&self, steam_app_id: Option<u32>) -> (r: Option<&P>)
        ensures
            match steam_app_id {
                Some(id) => match r {
                    Some(p) => self.status(id) == Some(*p),
                    None => self.status(id) is None,
                },
                None => r is None,
            },
    {
        match steam_app_id {
            Some(id) => get_value(&self.latest, id),
            None => None,
        }
    }
}

/// The games whose update progress is polled, in order: the selected
/// game, the game being launched when it differs, and the game whose
/// launch waits for an update when it differs from both.
pub open spec fn update_poll_targets_spec(selected: Option<u32>, launching: Option<u32>, requested: Option<u32>) -> Seq<
    Option<u32>,
> {
    let first = seq![selected];
    let second = if launching != selected {
        first.push(launching)
    } else {
        first
    };
    if requested != selected && requested != launching {
        second.push(requested)
    } else {
        second
    }
}

pub fn update_poll_targets(selected: Option<u32>, launching: Option<u32>, requested: Option<u32>) -> (r: Vec<
    Option<u32>,
>)
    ensures
        r@ == update_poll_targets_spec(selected, launching, requested),
{
    let mut r: Vec<Option<u32>> = Vec::new();
    r.push(selected);
    if launching != selected {
        r.push(launching);
    }
    if requested != selected && requested != launching {
        r.push(requested);
    }
    assert(r@ =~= update_poll_targets_spec(selected, launching, requested));
    r
}

/// The game whose launch waits for its update, after the latest progress:
/// a launching game that needs an update starts to wait when none waits;
/// the waiting game stops waiting once it needs no update, and then its
/// launch timeout starts again when it is the game being launched. The
/// second value says whether to restart that timeout.
pub open spec fn requested_update_after(
    requested: Option<u32>,
    launching: Option<u32>,
    launching_needs_update: bool,
    requested_needs_update: bool,
) -> (Option<u32>, bool) {
    let waiting = if requested is None && launching_needs_update {
        launching
    } else {
        requested
    };
    let pending = if requested is None {
        launching_needs_update
    } else {
        requested_needs_update
    };
    match waiting {
        Some(id) => if pending {
            (waiting, false)
        } else {
            (None, launching == Some(id))
        },
        None => (None, false),
    }
}

pub fn update_requested_launch(
    requested: Option<u32>,
    launching: Option<u32>,
    launching_needs_update: bool,
    requested_needs_update: bool,
) -> (r: (Option<u32>, bool))
    ensures
        r == requested_update_after(requested, launching, launching_needs_update, requested_needs_update),
{
    let waiting = if requested.is_none() && launching_needs_update {
        launching
    } else {
        requested
    };
    let pending = if requested.is_none() {
        launching_needs_update
    } else {
        requested_needs_update
    };
    match waiting {
        Some(id) => {
            if pending {
                (waiting, false)
            } else {
                (None, launching == Some(id))
            }
        },
        None => (None, false),
    }
}

} // verus!
