//! Epic Games Launcher libraries: which files are install manifests, the
//! fields a manifest must have, and the last-played times that the
//! launcher writes into its user settings.
use vstd::prelude::*;

use crate::xbox::string_views;

use chrono::TimeZone;

use crate::game::{stored_time, Game, GameSource};
use crate::text::{
    chars_of, ends_with, eq_chars, extend_chars, extend_str, slice_chars, starts_with,
    starts_with_str, string_of, to_ascii_lowercase, trim, trim_chars,
};

verus! {

/// Index of the last occurrence of `c` in `s`.
pub open spec fn last_index_of(s: Seq<char>, c: char) -> Option<nat>
    decreases s.len(),
{
    if s.len() == 0 {
        None
    } else if s.last() == c {
        Some((s.len() - 1) as nat)
    } else {
        last_index_of(s.drop_last(), c)
    }
}

proof fn lemma_last_index_of_bound(s: Seq<char>, c: char)
    ensures
        last_index_of(s, c) matches Some(i) ==> i < s.len() && s[i as int] == c,
    decreases s.len(),
{
    if s.len() > 0 && s.last() != c {
        lemma_last_index_of_bound(s.drop_last(), c);
    }
}

pub(crate) fn find_last_char(s: &Vec<char>, c: char) -> (r: Option<usize>)
    ensures
        match r {
            Some(i) => last_index_of(s@, c) == Some(i as nat),
            None => last_index_of(s@, c) is None,
        },
        r matches Some(i) ==> i < s@.len() && s@[i as int] == c,
{
    proof {
        lemma_last_index_of_bound(s@, c);
    }
    let mut i: usize = s.len();
    assert(s@.subrange(0, s@.len() as int) =~= s@);
    while i > 0
        invariant
            i <= s@.len(),
            last_index_of(s@, c) == last_index_of(s@.subrange(0, i as int), c),
        decreases i,
    {
        proof {
            let t = s@.subrange(0, i as int);
            assert(t.drop_last() =~= s@.subrange(0, i - 1));
        }
        if s[i - 1] == c {
            return Some(i - 1);
        }
        i = i - 1;
    }
    None
}

/// The file name of a path: the text after its last `\` or `/`.
pub open spec fn file_name(path: Seq<char>) -> Seq<char> {
    let back = last_index_of(path, '\\');
    let fwd = last_index_of(path, '/');
    let start: int = match (back, fwd) {
        (Some(a), Some(b)) => if a > b {
            a + 1int
        } else {
            b + 1int
        },
        (Some(a), None) => a + 1int,
        (None, Some(b)) => b + 1int,
        (None, None) => 0int,
    };
    path.subrange(start, path.len() as int)
}

/// The extension of a file name: the text after its last `.`, unless the
/// name has no `.` or its only `.` is its first character.
pub open spec fn extension(name: Seq<char>) -> Option<Seq<char>> {
    match last_index_of(name, '.') {
        Some(i) => if i == 0 {
            None
        } else {
            Some(name.subrange(i + 1int, name.len() as int))
        },
        None => None,
    }
}

/// The file name of a path, as computed.
pub(crate) fn file_name_exec(p: &Vec<char>) -> (r: Vec<char>)
    ensures
        r@ == file_name(p@),
{
    let n = p.len();
    let back = find_last_char(p, '\\');
    let fwd = find_last_char(p, '/');
    let start: usize = match (back, fwd) {
        (Some(a), Some(b)) => if a > b {
            a + 1
        } else {
            b + 1
        },
        (Some(a), None) => a + 1,
        (None, Some(b)) => b + 1,
        (None, None) => 0,
    };
    slice_chars(p, start, n)
}

/// A manifest of an installed game: a file ending in `.item` or `.manifest`.
pub open spec fn is_manifest_file_spec(path: Seq<char>) -> bool {
    extension(file_name(path)) == Some("item"@) || extension(file_name(path)) == Some("manifest"@)
}

pub fn is_manifest_file(path: &str) -> (r: bool)
    ensures
        r == is_manifest_file_spec(path@),
{
    let name = file_name_exec(&chars_of(path));
    match find_last_char(&name, '.') {
        Some(i) => {
            if i == 0 {
                false
            } else {
                let nl = name.len();
                let ext = slice_chars(&name, i + 1, nl);
                crate::text::eq_str(&ext, "item") || crate::text::eq_str(&ext, "manifest")
            }
        },
        None => false,
    }
}

/// The key of a game's last-played time: catalog item id, `:`, app name.
pub open spec fn last_played_key_spec(catalog_item_id: Seq<char>, app_name: Seq<char>) -> Seq<char> {
    catalog_item_id + ":"@ + app_name
}

pub fn last_played_key(catalog_item_id: &str, app_name: &str) -> (r: String)
    ensures
        r@ == last_played_key_spec(catalog_item_id@, app_name@),
{
    let mut v: Vec<char> = Vec::new();
    extend_str(&mut v, catalog_item_id);
    extend_str(&mut v, ":");
    extend_str(&mut v, app_name);
    string_of(&v)
}

/// A last-played line of the user settings,
/// `LastPlayedGame=<...>:<catalog item id>:<app name>,<time>`: the key of
/// the game and the text of the time. The app name is the part after the
/// last `:` of the game id, the catalog item id the part before it back
/// to the previous `:`; both are trimmed and must not be empty.
pub open spec fn last_played_entry(line: Seq<char>) -> Option<(Seq<char>, Seq<char>)> {
    let prefix = "LastPlayedGame="@;
    if !starts_with(line, prefix) {
        None
    } else {
        let value = line.subrange(prefix.len() as int, line.len() as int);
        match last_index_of(value, ',') {
            None => None,
            Some(p) => {
                let game_id = value.subrange(0, p as int);
                let time = value.subrange(p + 1int, value.len() as int);
                match last_index_of(game_id, ':') {
                    None => None,
                    Some(q) => {
                        let app = trim(game_id.subrange(q + 1int, game_id.len() as int));
                        let rest = game_id.subrange(0, q as int);
                        let catalog = trim(
                            match last_index_of(rest, ':') {
                                Some(r) => rest.subrange(r + 1int, rest.len() as int),
                                None => rest,
                            },
                        );
                        if app.len() == 0 || catalog.len() == 0 {
                            None
                        } else {
                            Some((last_played_key_spec(catalog, app), time))
                        }
                    },
                }
            },
        }
    }
}

pub fn parse_last_played_entry(line: &Vec<char>) -> (r: Option<(String, String)>)
    ensures
        match r {
            Some((key, time)) => last_played_entry(line@) == Some((key@, time@)),
            None => last_played_entry(line@) is None,
        },
{
    if !starts_with_str(line, "LastPlayedGame=") {
        return None;
    }
    proof {
        reveal_strlit("LastPlayedGame=");
    }
    let value = slice_chars(line, 15, line.len());
    let p = match find_last_char(&value, ',') {
        Some(p) => p,
        None => {
            return None;
        },
    };
    let game_id = slice_chars(&value, 0, p);
    let time = slice_chars(&value, p + 1, value.len());
    let q = match find_last_char(&game_id, ':') {
        Some(q) => q,
        None => {
            return None;
        },
    };
    let app = trim_chars(&slice_chars(&game_id, q + 1, game_id.len()));
    let rest = slice_chars(&game_id, 0, q);
    let catalog_part = match find_last_char(&rest, ':') {
        Some(r) => slice_chars(&rest, r + 1, rest.len()),
        None => rest,
    };
    let catalog = trim_chars(&catalog_part);
    if app.len() == 0 || catalog.len() == 0 {
        return None;
    }
    let mut key: Vec<char> = Vec::new();
    extend_chars(&mut key, &catalog);
    extend_str(&mut key, ":");
    extend_chars(&mut key, &app);
    Some((string_of(&key), string_of(&time)))
}

/// The times after recording `time` for `key`: the later of it and the
/// time already recorded, a new entry at the end for a new key.
pub open spec fn record_time(entries: Seq<(Seq<char>, u64)>, key: Seq<char>, time: u64) -> Seq<
    (Seq<char>, u64),
> {
    if exists|i: int| 0 <= i < entries.len() && entries[i].0 == key {
        let i = choose|i: int| 0 <= i < entries.len() && entries[i].0 == key;
        if time > entries[i].1 {
            entries.update(i, (key, time))
        } else {
            entries
        }
    } else {
        entries.push((key, time))
    }
}

pub open spec fn entry_views(entries: Seq<(String, u64)>) -> Seq<(Seq<char>, u64)> {
    entries.map_values(|e: (String, u64)| (e.0@, e.1))
}

pub open spec fn keys_unique(entries: Seq<(Seq<char>, u64)>) -> bool {
    forall|i: int, j: int|
        0 <= i < j < entries.len() ==> (#[trigger] entries[i]).0 != (#[trigger] entries[j]).0
}

/// The time recorded for `key`: that of its first entry.
pub open spec fn time_recorded(entries: Seq<(Seq<char>, u64)>, key: Seq<char>) -> Option<u64>
    decreases entries.len(),
{
    if entries.len() == 0 {
        None
    } else if entries[0].0 == key {
        Some(entries[0].1)
    } else {
        time_recorded(entries.drop_first(), key)
    }
}

proof fn lemma_time_recorded_at(entries: Seq<(Seq<char>, u64)>, key: Seq<char>, i: int)
    requires
        0 <= i < entries.len(),
        entries[i].0 == key,
        forall|j: int| 0 <= j < i ==> (#[trigger] entries[j]).0 != key,
    ensures
        time_recorded(entries, key) == Some(entries[i].1),
    decreases entries.len(),
{
    if i > 0 {
        let t = entries.drop_first();
        assert forall|j: int| 0 <= j < i - 1 implies (#[trigger] t[j]).0 != key by {
            assert(t[j] == entries[j + 1]);
        }
        lemma_time_recorded_at(t, key, i - 1);
    }
}

proof fn lemma_time_recorded_absent(entries: Seq<(Seq<char>, u64)>, key: Seq<char>)
    requires
        forall|j: int| 0 <= j < entries.len() ==> (#[trigger] entries[j]).0 != key,
    ensures
        time_recorded(entries, key) is None,
    decreases entries.len(),
{
    if entries.len() > 0 {
        let t = entries.drop_first();
        assert forall|j: int| 0 <= j < t.len() implies (#[trigger] t[j]).0 != key by {
            assert(t[j] == entries[j + 1]);
        }
        lemma_time_recorded_absent(t, key);
    }
}

/// Two lists with the same keys in the same places, and the same times at
/// the places of `key`, record the same time for `key`.
proof fn lemma_time_recorded_same(a: Seq<(Seq<char>, u64)>, b: Seq<(Seq<char>, u64)>, key: Seq<char>)
    requires
        a.len() == b.len(),
        forall|j: int| 0 <= j < a.len() ==> (#[trigger] a[j]).0 == b[j].0,
        forall|j: int| 0 <= j < a.len() && (#[trigger] a[j]).0 == key ==> a[j].1 == b[j].1,
    ensures
        time_recorded(a, key) == time_recorded(b, key),
    decreases a.len(),
{
    if a.len() > 0 {
        let ta = a.drop_first();
        let tb = b.drop_first();
        assert forall|j: int| 0 <= j < ta.len() implies (#[trigger] ta[j]).0 == tb[j].0 by {
            assert(ta[j] == a[j + 1]);
            assert(tb[j] == b[j + 1]);
        }
        assert forall|j: int| 0 <= j < ta.len() && (#[trigger] ta[j]).0 == key implies ta[j].1
            == tb[j].1 by {
            assert(ta[j] == a[j + 1]);
            assert(tb[j] == b[j + 1]);
        }
        lemma_time_recorded_same(ta, tb, key);
        assert(a[0].0 == b[0].0);
    }
}

proof fn lemma_time_recorded_push(entries: Seq<(Seq<char>, u64)>, e: (Seq<char>, u64), key: Seq<char>)
    requires
        e.0 != key,
    ensures
        time_recorded(entries.push(e), key) == time_recorded(entries, key),
    decreases entries.len(),
{
    let u = entries.push(e);
    if entries.len() == 0 {
        assert(u.drop_first() =~= Seq::<(Seq<char>, u64)>::empty());
        assert(time_recorded(u.drop_first(), key) is None);
    } else {
        assert(u.drop_first() =~= entries.drop_first().push(e));
        lemma_time_recorded_push(entries.drop_first(), e, key);
    }
}

/// Recording a time for a key keeps the later of it and the time recorded
/// before, records it for a new key, leaves every other key's time as it
/// was, and keeps each key at most once.
pub proof fn lemma_record_time_keeps_latest(entries: Seq<(Seq<char>, u64)>, key: Seq<char>, time: u64)
    requires
        keys_unique(entries),
    ensures
        time_recorded(record_time(entries, key, time), key) == Some(
            match time_recorded(entries, key) {
                Some(before) => if before >= time {
                    before
                } else {
                    time
                },
                None => time,
            },
        ),
        forall|k: Seq<char>|
            k != key ==> #[trigger] time_recorded(record_time(entries, key, time), k)
                == time_recorded(entries, k),
        keys_unique(record_time(entries, key, time)),
{
    let r = record_time(entries, key, time);
    if exists|i: int| 0 <= i < entries.len() && entries[i].0 == key {
        let i = choose|i: int| 0 <= i < entries.len() && entries[i].0 == key;
        assert forall|j: int| 0 <= j < entries.len() && j != i implies (#[trigger] entries[j]).0 != key by {
            if j < i {
                assert(entries[j].0 != entries[i].0);
            } else {
                assert(entries[i].0 != entries[j].0);
            }
        }
        lemma_time_recorded_at(entries, key, i);
        assert(r.len() == entries.len());
        assert forall|j: int| 0 <= j < r.len() implies (#[trigger] r[j]).0 == entries[j].0 by {}
        assert forall|j: int| 0 <= j < i implies (#[trigger] r[j]).0 != key by {}
        lemma_time_recorded_at(r, key, i);
        assert forall|k: Seq<char>| k != key implies #[trigger] time_recorded(r, k) == time_recorded(entries, k) by {
            lemma_time_recorded_same(r, entries, k);
        }
        assert forall|a: int, b: int| 0 <= a < b < r.len() implies (#[trigger] r[a]).0 != (#[trigger] r[b]).0 by {
            assert(entries[a].0 != entries[b].0);
        }
    } else {
        assert(r == entries.push((key, time)));
        lemma_time_recorded_absent(entries, key);
        assert forall|j: int| 0 <= j < entries.len() implies (#[trigger] r[j]).0 != key by {
            assert(r[j] == entries[j]);
        }
        lemma_time_recorded_at(r, key, entries.len() as int);
        assert forall|k: Seq<char>| k != key implies #[trigger] time_recorded(r, k) == time_recorded(entries, k) by {
            lemma_time_recorded_push(entries, (key, time), k);
        }
        assert forall|a: int, b: int| 0 <= a < b < r.len() implies (#[trigger] r[a]).0 != (#[trigger] r[b]).0 by {
            if b < entries.len() {
                assert(entries[a].0 != entries[b].0);
            } else {
                assert(r[a] == entries[a]);
            }
        }
    }
}

/// Records a last-played time: the latest time of each game is kept.
pub fn record_last_played(entries: &mut Vec<(String, u64)>, key: String, time: u64)
    requires
        keys_unique(entry_views(old(entries)@)),
    ensures
        keys_unique(entry_views(final(entries)@)),
        entry_views(final(entries)@) == record_time(entry_views(old(entries)@), key@, time),
{
    let k = chars_of(key.as_str());
    let ghost views = entry_views(entries@);
    let mut i: usize = 0;
    while i < entries.len()
        invariant
            i <= entries@.len(),
            views == entry_views(entries@),
            views == entry_views(old(entries)@),
            keys_unique(views),
            k@ == key@,
            forall|j: int| 0 <= j < i ==> (#[trigger] views[j]).0 != k@,
        decreases entries.len() - i,
    {
        let name = chars_of(entries[i].0.as_str());
        assert(views[i as int] == (entries@[i as int].0@, entries@[i as int].1));
        if eq_chars(&name, &k) {
            proof {
                assert(views[i as int] == (entries@[i as int].0@, entries@[i as int].1));
                assert(views[i as int].0 == key@);
                let c = choose|c: int| 0 <= c < views.len() && views[c].0 == key@;
                assert(c == i as int);
                assert(record_time(views, key@, time) == if time > views[i as int].1 {
                    views.update(i as int, (key@, time))
                } else {
                    views
                });
            }
            if time > entries[i].1 {
                entries.set(i, (key, time));
                proof {
                    assert(entry_views(entries@) =~= views.update(i as int, (k@, time)));
                }
            }
            return;
        }
        i = i + 1;
    }
    entries.push((key, time));
    proof {
        assert(entry_views(entries@) =~= views.push((k@, time)));
    }
}

/// The key and time text of every last-played line, in order.
pub open spec fn last_played_candidates_spec(lines: Seq<Seq<char>>) -> Seq<(Seq<char>, Seq<char>)>
    decreases lines.len(),
{
    if lines.len() == 0 {
        Seq::empty()
    } else {
        let prev = last_played_candidates_spec(lines.drop_last());
        match last_played_entry(lines.last()) {
            Some(e) => prev.push(e),
            None => prev,
        }
    }
}

pub open spec fn candidate_views(c: Seq<(String, String)>) -> Seq<(Seq<char>, Seq<char>)> {
    c.map_values(|e: (String, String)| (e.0@, e.1@))
}

fn take_candidate(out: &mut Vec<(String, String)>, line: &Vec<char>)
    ensures
        candidate_views(final(out)@) == match last_played_entry(line@) {
            Some(e) => candidate_views(old(out)@).push(e),
            None => candidate_views(old(out)@),
        },
{
    match parse_last_played_entry(line) {
        Some(e) => {
            let ghost before = candidate_views(out@);
            out.push(e);
            assert(candidate_views(out@) =~= before.push((e.0@, e.1@)));
        },
        None => {},
    }
}

/// The last-played lines of the launcher's user settings: the game key
/// and time text of each, in order.
pub fn last_played_candidates(content: &str) -> (r: Vec<(String, String)>)
    ensures
        candidate_views(r@) == last_played_candidates_spec(
            crate::config::split_lines(content@),
        ),
{
    let text = chars_of(content);
    let mut out: Vec<(String, String)> = Vec::new();
    let mut line: Vec<char> = Vec::new();
    let mut i: usize = 0;
    proof {
        assert(text@.subrange(0, 0) =~= Seq::<char>::empty());
        assert(crate::config::split_lines(Seq::<char>::empty()).drop_last() =~= Seq::<
            Seq<char>,
        >::empty());
        assert(candidate_views(out@) =~= Seq::<(Seq<char>, Seq<char>)>::empty());
    }
    while i < text.len()
        invariant
            text@ == content@,
            i <= text.len(),
            crate::config::split_lines(text@.subrange(0, i as int)).len() >= 1,
            candidate_views(out@) == last_played_candidates_spec(
                crate::config::split_lines(text@.subrange(0, i as int)).drop_last(),
            ),
            line@ == crate::config::split_lines(text@.subrange(0, i as int)).last(),
        decreases text.len() - i,
    {
        let c = text[i];
        let ghost pre = text@.subrange(0, i as int);
        let ghost next = text@.subrange(0, i + 1);
        let ghost lines = crate::config::split_lines(pre);
        proof {
            assert(next.drop_last() =~= pre);
            assert(next.last() == c);
        }
        if c == '\n' {
            take_candidate(&mut out, &line);
            line = Vec::new();
            proof {
                assert(crate::config::split_lines(next) == lines.push(Seq::<char>::empty()));
                assert(crate::config::split_lines(next).drop_last() =~= lines);
                assert(lines =~= lines.drop_last().push(lines.last()));
            }
        } else {
            line.push(c);
            proof {
                assert(crate::config::split_lines(next) == lines.update(
                    lines.len() - 1,
                    lines.last().push(c),
                ));
                assert(crate::config::split_lines(next).drop_last() =~= lines.drop_last());
            }
        }
        i = i + 1;
    }
    take_candidate(&mut out, &line);
    proof {
        let lines = crate::config::split_lines(text@.subrange(0, i as int));
        assert(text@.subrange(0, i as int) =~= content@);
        assert(lines =~= lines.drop_last().push(lines.last()));
    }
    out
}

/// Whether `text` is a date and time in RFC 3339 form, as
/// `chrono::DateTime::parse_from_rfc3339` reads it.
pub uninterp spec fn rfc3339_parses(text: Seq<char>) -> bool;

/// `chrono::DateTime::parse_from_rfc3339`, then its wall-clock time read in
/// the machine's time zone (`chrono::Local::from_local_datetime`, the
/// earlier reading where there are two) as Unix seconds. A result comes
/// only from text that parses; which time it is depends on the time zone,
/// and no clause states it.
#[verifier::external_body]
fn local_unix_seconds_of_rfc3339(value: &str) -> (r: Option<i64>)
    ensures
        r is Some ==> rfc3339_parses(value@),
{
    let naive = chrono::DateTime::parse_from_rfc3339(value).ok()?.naive_local();
    chrono::Local.from_local_datetime(&naive).earliest().map(|t| t.timestamp())
}

/// Unix seconds at or after the epoch; none before it.
pub open spec fn nonnegative_seconds_spec(t: Option<i64>) -> Option<u64> {
    match t {
        Some(s) => if s >= 0 {
            Some(s as u64)
        } else {
            None
        },
        None => None,
    }
}

/// Keeps a time in Unix seconds when it is at or after the epoch.
pub fn nonnegative_seconds(t: Option<i64>) -> (r: Option<u64>)
    ensures
        r == nonnegative_seconds_spec(t),
{
    match t {
        Some(s) => if s >= 0 {
            Some(s as u64)
        } else {
            None
        },
        None => None,
    }
}

/// The time of a last-played line as Unix seconds, when it is a valid
/// RFC 3339 time at or after the epoch in the machine's time zone. Text
/// that is not such a time, once trimmed, gives none.
pub fn parse_last_played_timestamp(value: &str) -> (r: Option<u64>)
    ensures
        exists|s: Option<i64>|
            (s is Some ==> rfc3339_parses(trim(value@))) && r == #[trigger] nonnegative_seconds_spec(s),
        !rfc3339_parses(trim(value@)) ==> r is None,
{
    let trimmed = string_of(&trim_chars(&chars_of(value)));
    let seconds = local_unix_seconds_of_rfc3339(trimmed.as_str());
    let r = nonnegative_seconds(seconds);
    assert(nonnegative_seconds_spec(seconds) == r);
    r
}

/// The times recorded from timed candidates, skipping those without a time.
pub open spec fn collected_times(timed: Seq<(Seq<char>, Option<u64>)>) -> Seq<(Seq<char>, u64)>
    decreases timed.len(),
{
    if timed.len() == 0 {
        Seq::empty()
    } else {
        let prev = collected_times(timed.drop_last());
        match timed.last().1 {
            Some(t) => record_time(prev, timed.last().0, t),
            None => prev,
        }
    }
}

/// The latest of the times given for `key` among timed candidates.
pub open spec fn latest_time(timed: Seq<(Seq<char>, Option<u64>)>, key: Seq<char>) -> Option<u64>
    decreases timed.len(),
{
    if timed.len() == 0 {
        None
    } else {
        let prev = latest_time(timed.drop_last(), key);
        match timed.last().1 {
            Some(t) => if timed.last().0 == key {
                match prev {
                    Some(p) => if p >= t {
                        Some(p)
                    } else {
                        Some(t)
                    },
                    None => Some(t),
                }
            } else {
                prev
            },
            None => prev,
        }
    }
}

/// Collecting the timed candidates gives each key once, with the latest
/// of the times given for it.
pub proof fn lemma_collected_times_latest(timed: Seq<(Seq<char>, Option<u64>)>)
    ensures
        keys_unique(collected_times(timed)),
        forall|k: Seq<char>| #[trigger] time_recorded(collected_times(timed), k) == latest_time(timed, k),
    decreases timed.len(),
{
    if timed.len() == 0 {
        assert forall|k: Seq<char>| #[trigger] time_recorded(collected_times(timed), k) == latest_time(timed, k) by {
            lemma_time_recorded_absent(collected_times(timed), k);
        }
    } else {
        let prev = timed.drop_last();
        lemma_collected_times_latest(prev);
        match timed.last().1 {
            Some(t) => {
                lemma_record_time_keeps_latest(collected_times(prev), timed.last().0, t);
                assert forall|k: Seq<char>| #[trigger] time_recorded(collected_times(timed), k) == latest_time(timed, k) by {
                    if k != timed.last().0 {
                        assert(time_recorded(collected_times(timed), k) == time_recorded(collected_times(prev), k));
                    }
                }
            },
            None => {
                assert forall|k: Seq<char>| #[trigger] time_recorded(collected_times(timed), k) == latest_time(timed, k) by {
                    assert(time_recorded(collected_times(prev), k) == latest_time(prev, k));
                }
            },
        }
    }
}

pub open spec fn timed_views(timed: Seq<(String, Option<u64>)>) -> Seq<(Seq<char>, Option<u64>)> {
    timed.map_values(|e: (String, Option<u64>)| (e.0@, e.1))
}

/// The latest time of each game, in the order the games first appear.
pub fn collect_last_played(timed: &Vec<(String, Option<u64>)>) -> (r: Vec<(String, u64)>)
    ensures
        entry_views(r@) == collected_times(timed_views(timed@)),
        keys_unique(entry_views(r@)),
{
    let mut out: Vec<(String, u64)> = Vec::new();
    let mut i: usize = 0;
    assert(entry_views(out@) =~= Seq::<(Seq<char>, u64)>::empty());
    while i < timed.len()
        invariant
            i <= timed@.len(),
            entry_views(out@) == collected_times(timed_views(timed@).subrange(0, i as int)),
            keys_unique(entry_views(out@)),
        decreases timed.len() - i,
    {
        proof {
            let t = timed_views(timed@).subrange(0, i + 1);
            assert(t.drop_last() =~= timed_views(timed@).subrange(0, i as int));
            assert(t.last() == (timed@[i as int].0@, timed@[i as int].1));
        }
        match timed[i].1 {
            Some(t) => {
                record_last_played(&mut out, timed[i].0.clone(), t);
            },
            None => {},
        }
        i = i + 1;
    }
    assert(timed_views(timed@).subrange(0, timed@.len() as int) =~= timed_views(timed@));
    out
}

/// What holds of the time read from a last-played value, whatever the
/// time zone: a time comes only from a value that, trimmed, is an RFC 3339
/// time, and it fits in `i64`.
pub open spec fn time_read_from(value: Seq<char>, t: Option<u64>) -> bool {
    &&& (t is Some ==> rfc3339_parses(trim(value)))
    &&& (t matches Some(x) ==> x <= i64::MAX)
}

/// The last-played times written in the launcher's user settings: the
/// latest valid time of each game key found on a last-played line.
pub fn load_last_played_map(content: &str) -> (r: Vec<(String, u64)>)
    ensures
        keys_unique(entry_views(r@)),
        exists|times: Seq<Option<u64>>|
            #![trigger times.len()]
            times.len() == last_played_candidates_spec(crate::config::split_lines(content@)).len()
                && (forall|i: int|
                0 <= i < times.len() ==> time_read_from(
                    last_played_candidates_spec(crate::config::split_lines(content@))[i].1,
                    #[trigger] times[i],
                )) && entry_views(r@) == collected_times(
                Seq::new(
                    times.len(),
                    |i: int|
                        (
                            last_played_candidates_spec(crate::config::split_lines(content@))[i].0,
                            times[i],
                        ),
                ),
            ),
{
    let candidates = last_played_candidates(content);
    let ghost cands = candidate_views(candidates@);
    let mut timed: Vec<(String, Option<u64>)> = Vec::new();
    let mut i: usize = 0;
    while i < candidates.len()
        invariant
            i <= candidates@.len(),
            cands == candidate_views(candidates@),
            timed@.len() == i,
            forall|j: int| 0 <= j < i ==> (#[trigger] timed@[j]).0@ == cands[j].0,
            forall|j: int| 0 <= j < i ==> time_read_from(cands[j].1, (#[trigger] timed@[j]).1),
        decreases candidates.len() - i,
    {
        let t = parse_last_played_timestamp(candidates[i].1.as_str());
        proof {
            assert(cands[i as int].1 == candidates@[i as int].1@);
            let s = choose|s: Option<i64>|
                (s is Some ==> rfc3339_parses(trim(candidates@[i as int].1@))) && t
                    == #[trigger] nonnegative_seconds_spec(s);
            assert(time_read_from(cands[i as int].1, t));
        }
        timed.push((candidates[i].0.clone(), t));
        i = i + 1;
    }
    let out = collect_last_played(&timed);
    proof {
        let times = Seq::new(timed@.len() as nat, |i: int| timed@[i].1);
        assert(timed_views(timed@) =~= Seq::new(
            times.len(),
            |i: int| (cands[i].0, times[i]),
        ));
        assert(times.len() == cands.len());
        assert forall|i: int| 0 <= i < times.len() implies time_read_from(cands[i].1, #[trigger] times[i]) by {
            assert(times[i] == timed@[i].1);
        }
    }
    out
}

/// The fields of an Epic install manifest that name a game.
pub struct EpicManifest {
    pub display_name: Option<String>,
    pub install_location: Option<String>,
    pub launch_executable: Option<String>,
    pub app_name: Option<String>,
    pub catalog_item_id: Option<String>,
}

/// A field that is present and not blank, trimmed.
pub open spec fn present(v: Option<String>) -> Option<Seq<char>> {
    match v {
        Some(s) => if trim(s@).len() > 0 {
            Some(trim(s@))
        } else {
            None
        },
        None => None,
    }
}

fn present_exec(v: &Option<String>) -> (r: Option<String>)
    ensures
        match r {
            Some(s) => present(*v) == Some(s@),
            None => present(*v) is None,
        },
{
    match v {
        Some(s) => {
            let t = trim_chars(&chars_of(s.as_str()));
            if t.len() > 0 {
                Some(string_of(&t))
            } else {
                None
            }
        },
        None => None,
    }
}

/// A manifest names a game when it has a display name, an install
/// location and a launch executable (names trimmed and not blank).
pub open spec fn manifest_names_game(m: EpicManifest) -> bool {
    present(m.display_name) is Some && m.install_location is Some && present(
        m.launch_executable,
    ) is Some
}

/// The key of a manifest's last-played time, when it has both ids.
pub open spec fn manifest_last_played_key(m: EpicManifest) -> Option<Seq<char>> {
    match (present(m.catalog_item_id), present(m.app_name)) {
        (Some(c), Some(a)) => Some(last_played_key_spec(c, a)),
        _ => None,
    }
}

/// The game of a manifest whose install directory and launch target
/// exist: its trimmed name, its install location and launch target, its
/// app name as identifier, and its last-played time (0 when none is known).
pub fn game_from_manifest(
    manifest: &EpicManifest,
    launch_target: String,
    last_played: &Vec<(String, u64)>,
    dlss_version: Option<String>,
) -> (r: Option<Game>)
    ensures
        r is Some <==> manifest_names_game(*manifest),
        r matches Some(g) ==> {
            &&& g.source == GameSource::Epic
            &&& Some(g.name@) == present(manifest.display_name)
            &&& Some(g.path) == manifest.install_location
            &&& g.launch_target == Some(launch_target)
            &&& g.app_id is None
            &&& match g.persistent_id {
                Some(id) => present(manifest.app_name) == Some(id@),
                None => present(manifest.app_name) is None,
            }
            &&& g.last_played == match manifest_last_played_key(*manifest) {
                Some(k) => match stored_time(last_played@, k) {
                    Some(t) => t,
                    None => 0,
                },
                None => 0,
            }
            &&& g.playtime_minutes == 0
            &&& g.installed_size_bytes is None
            &&& g.dlss_version == dlss_version
        },
{
    let name = match present_exec(&manifest.display_name) {
        Some(n) => n,
        None => {
            return None;
        },
    };
    let install_dir = match &manifest.install_location {
        Some(p) => p.clone(),
        None => {
            return None;
        },
    };
    match present_exec(&manifest.launch_executable) {
        Some(_) => {},
        None => {
            return None;
        },
    }
    let app_name = present_exec(&manifest.app_name);
    let catalog = present_exec(&manifest.catalog_item_id);
    let time = match (&catalog, &app_name) {
        (Some(c), Some(a)) => {
            let key = last_played_key(c.as_str(), a.as_str());
            match crate::game::lookup_time(last_played, &chars_of(key.as_str())) {
                Some(t) => t,
                None => 0,
            }
        },
        _ => 0,
    };
    Some(
        Game {
            source: GameSource::Epic,
            name,
            path: install_dir,
            launch_target: Some(launch_target),
            app_id: None,
            persistent_id: app_name,
            last_played: time,
            playtime_minutes: 0,
            installed_size_bytes: None,
            dlss_version,
        },
    )
}

/// The form of an install path that tells duplicates apart: `\` as the
/// separator, lower case.
pub open spec fn normalized_windows_path(path: Seq<char>) -> Seq<char> {
    crate::text::lower_seq(path.map_values(|c: char| if c == '/' { '\\' } else { c }))
}

pub fn normalize_windows_path(path: &str) -> (r: String)
    ensures
        r@ == normalized_windows_path(path@),
{
    let p = chars_of(path);
    let mut v: Vec<char> = Vec::new();
    let mut i: usize = 0;
    while i < p.len()
        invariant
            i <= p@.len(),
            v@ == p@.subrange(0, i as int).map_values(|c: char| if c == '/' { '\\' } else { c }),
        decreases p.len() - i,
    {
        let c = p[i];
        v.push(if c == '/' { '\\' } else { c });
        i = i + 1;
        assert(v@ =~= p@.subrange(0, i as int).map_values(
            |c: char| if c == '/' { '\\' } else { c },
        ));
    }
    assert(p@.subrange(0, p@.len() as int) =~= p@);
    string_of(&to_ascii_lowercase(&v))
}


/// Records the install directory of a scanned game, by its normalized
/// form: true when it was not seen before (the game is kept), false for a
/// duplicate (the game is skipped).
pub fn keep_new_install_dir(seen: &mut Vec<String>, install_dir: &str) -> (kept: bool)
    ensures
        kept == !string_views(old(seen)@).contains(normalized_windows_path(install_dir@)),
        kept ==> string_views(final(seen)@) == string_views(old(seen)@).push(
            normalized_windows_path(install_dir@),
        ),
        !kept ==> final(seen)@ == old(seen)@,
{
    let key = normalize_windows_path(install_dir);
    let k = chars_of(key.as_str());
    let mut i: usize = 0;
    while i < seen.len()
        invariant
            i <= seen@.len(),
            k@ == normalized_windows_path(install_dir@),
            forall|j: int| 0 <= j < i ==> seen@[j]@ != k@,
        decreases seen.len() - i,
    {
        if crate::text::eq_chars(&chars_of(seen[i].as_str()), &k) {
            assert(string_views(seen@)[i as int] == k@);
            return false;
        }
        i = i + 1;
    }
    assert(!string_views(seen@).contains(k@)) by {
        if string_views(seen@).contains(k@) {
            let j = choose|j: int| 0 <= j < seen@.len() && string_views(seen@)[j] == k@;
            assert(seen@[j]@ == k@);
        }
    }
    let ghost before = string_views(seen@);
    seen.push(key);
    assert(string_views(seen@) =~= before.push(k@));
    true
}

} // verus!
