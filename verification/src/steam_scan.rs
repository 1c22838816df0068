//! Steam games found on disk: the app manifests of a library folder and
//! the uninstall entries that Steam writes for its games.
use vstd::prelude::*;

use crate::text::{all_digits, chars_of, digits_value, ends_with, is_digit, starts_with, string_of};
use crate::analytics::{piece_views, split_on, split_pieces};
use crate::text::{eq_ic, eq_ic_str, is_ws, is_ws_exec};
use crate::xbox::{first_capture, opt_view, regex_first_capture};

verus! {

/// The state flag of an app that Steam has fully installed.
pub const STEAM_STATE_FLAG_FULLY_INSTALLED: u32 = 0x4;

/// An app manifest of a library folder: `appmanifest_<...>.acf`.
pub open spec fn is_app_manifest_file_name_spec(name: Seq<char>) -> bool {
    starts_with(name, "appmanifest_"@) && ends_with(name, ".acf"@)
}

pub fn is_app_manifest_file_name(name: &str) -> (r: bool)
    ensures
        r == is_app_manifest_file_name_spec(name@),
{
    let n = chars_of(name);
    crate::text::starts_with_str(&n, "appmanifest_") && crate::text::ends_with_str(&n, ".acf")
}

/// Whitespace only.
pub open spec fn all_ws(s: Seq<char>) -> bool {
    forall|i: int| 0 <= i < s.len() ==> is_ws(#[trigger] s[i])
}

fn all_ws_exec(s: &Vec<char>) -> (r: bool)
    ensures
        r == all_ws(s@),
{
    let mut i: usize = 0;
    while i < s.len()
        invariant
            i <= s@.len(),
            forall|j: int| 0 <= j < i ==> is_ws(#[trigger] s@[j]),
        decreases s.len() - i,
    {
        if !is_ws_exec(s[i]) {
            return false;
        }
        i = i + 1;
    }
    true
}

/// The key and value of an app manifest line `"key" "value"`, with only
/// whitespace around and between the quoted texts.
pub open spec fn acf_pair(line: Seq<char>) -> Option<(Seq<char>, Seq<char>)> {
    let p = split_on(line, '"');
    if p.len() == 5 && all_ws(p[0]) && all_ws(p[2]) && all_ws(p[4]) {
        Some((p[1], p[3]))
    } else {
        None
    }
}

/// The value of the first of `lines` that pairs `key` (in any ASCII case)
/// with a value.
pub open spec fn acf_value_in(lines: Seq<Seq<char>>, key: Seq<char>) -> Option<Seq<char>>
    decreases lines.len(),
{
    if lines.len() == 0 {
        None
    } else {
        match acf_pair(lines[0]) {
            Some(kv) => if eq_ic(kv.0, key) {
                Some(kv.1)
            } else {
                acf_value_in(lines.drop_first(), key)
            },
            None => acf_value_in(lines.drop_first(), key),
        }
    }
}

/// The value of `key` in the text of an app manifest: the first line
/// `"key" "value"` whose key is `key` in any ASCII case.
pub fn acf_value(content: &str, key: &str) -> (r: Option<String>)
    ensures
        opt_view(r) == acf_value_in(split_on(content@, '\n'), key@),
{
    let lines = split_pieces(&chars_of(content), '\n');
    let ghost lv = piece_views(lines@);
    let mut i: usize = 0;
    assert(lv.subrange(0, lv.len() as int) =~= lv);
    while i < lines.len()
        invariant
            i <= lines@.len(),
            lv == piece_views(lines@),
            lv == split_on(content@, '\n'),
            acf_value_in(lv, key@) == acf_value_in(lv.subrange(i as int, lv.len() as int), key@),
        decreases lines.len() - i,
    {
        proof {
            let rest = lv.subrange(i as int, lv.len() as int);
            assert(rest[0] == lines@[i as int]@);
            assert(rest.drop_first() =~= lv.subrange(i + 1, lv.len() as int));
        }
        let parts = split_pieces(&lines[i], '"');
        if parts.len() == 5 && all_ws_exec(&parts[0]) && all_ws_exec(&parts[2]) && all_ws_exec(
            &parts[4],
        ) {
            proof {
                assert(piece_views(parts@)[1] == parts@[1]@);
                assert(piece_views(parts@)[3] == parts@[3]@);
                assert(piece_views(parts@)[0] == parts@[0]@);
                assert(piece_views(parts@)[2] == parts@[2]@);
                assert(piece_views(parts@)[4] == parts@[4]@);
                assert(lv[i as int] == lines@[i as int]@);
                assert(acf_pair(lv[i as int]) == Some((parts@[1]@, parts@[3]@)));
            }
            if eq_ic_str(&parts[1], key) {
                proof {
                    let rest = lv.subrange(i as int, lv.len() as int);
                    assert(rest[0] == lv[i as int]);
                    assert(acf_value_in(rest, key@) == Some(parts@[3]@));
                }
                let v = string_of(&parts[3]);
                assert(opt_view(Some(v)) == Some(parts@[3]@));
                return Some(v);
            }
        } else {
            proof {
                if parts@.len() == 5 {
                    assert(piece_views(parts@)[0] == parts@[0]@);
                    assert(piece_views(parts@)[2] == parts@[2]@);
                    assert(piece_views(parts@)[4] == parts@[4]@);
                }
                assert(lv[i as int] == lines@[i as int]@);
                assert(acf_pair(lv[i as int]) is None);
            }
        }
        i = i + 1;
    }
    proof {
        assert(lv.subrange(i as int, lv.len() as int) =~= Seq::<Seq<char>>::empty());
    }
    None
}

/// The value of `str::parse::<u32>`: an optional `+` and at least one
/// decimal digit, within the range of `u32`.
pub open spec fn parse_u32_spec(v: Seq<char>) -> Option<u32> {
    let d = crate::config::unsigned_digits(v);
    if d.len() > 0 && all_digits(d) && digits_value(d) <= u32::MAX {
        Some(digits_value(d) as u32)
    } else {
        None
    }
}

proof fn lemma_digits_value_grows(s: Seq<char>, c: char)
    requires
        is_digit(c),
    ensures
        digits_value(s.push(c)) >= digits_value(s),
{
    assert(s.push(c).drop_last() =~= s);
}

/// The value of a run of digits, capped just above the range of `u32`.
fn capped_digits_u64(d: &Vec<char>) -> (r: u64)
    requires
        all_digits(d@),
    ensures
        r as int == if digits_value(d@) <= u32::MAX {
            digits_value(d@) as int
        } else {
            u32::MAX + 1
        },
{
    let cap: u64 = 0x1_0000_0000;
    let mut acc: u64 = 0;
    let mut i: usize = 0;
    assert(d@.subrange(0, 0) =~= Seq::<char>::empty());
    while i < d.len()
        invariant
            i <= d.len(),
            all_digits(d@),
            cap == u32::MAX + 1,
            acc as int == if digits_value(d@.subrange(0, i as int)) <= u32::MAX {
                digits_value(d@.subrange(0, i as int)) as int
            } else {
                u32::MAX + 1
            },
        decreases d.len() - i,
    {
        let c = d[i];
        assert(is_digit(d@[i as int]));
        let digit = (c as u32 - 48) as u64;
        let ghost prev = d@.subrange(0, i as int);
        let ghost next = d@.subrange(0, i + 1);
        assert(next.drop_last() =~= prev);
        assert(next.last() == c);
        assert(next =~= prev.push(c));
        proof {
            lemma_digits_value_grows(prev, c);
        }
        if acc < cap {
            acc = acc * 10 + digit;
            if acc > cap {
                acc = cap;
            }
        }
        i = i + 1;
    }
    assert(d@.subrange(0, d@.len() as int) =~= d@);
    acc
}

pub fn parse_u32(v: &str) -> (r: Option<u32>)
    ensures
        r == parse_u32_spec(v@),
{
    let chars = chars_of(v);
    let d = if chars.len() > 0 && chars[0] == '+' {
        crate::text::slice_chars(&chars, 1, chars.len())
    } else {
        chars
    };
    proof {
        if v@.len() > 0 && v@[0] == '+' {
            assert(v@.drop_first() =~= v@.subrange(1, v@.len() as int));
        }
        assert(d@ == crate::config::unsigned_digits(v@));
    }
    if d.len() == 0 {
        return None;
    }
    let mut i: usize = 0;
    while i < d.len()
        invariant
            i <= d.len(),
            d@ == crate::config::unsigned_digits(v@),
            forall|j: int| 0 <= j < i ==> is_digit(#[trigger] d@[j]),
        decreases d.len() - i,
    {
        if !('0' <= d[i] && d[i] <= '9') {
            assert(!is_digit(d@[i as int]));
            return None;
        }
        i = i + 1;
    }
    let value = capped_digits_u64(&d);
    if value <= 0xffff_ffff {
        Some(value as u32)
    } else {
        None
    }
}

/// An installed Steam app of a manifest: its app id and name, when the
/// manifest names it, gives a valid app id and marks it fully installed
/// (a state that does not parse counts as none).
pub open spec fn installed_app_spec(
    app_id: Option<Seq<char>>,
    name: Option<Seq<char>>,
    state_flags: Option<Seq<char>>,
) -> Option<(u32, Seq<char>)> {
    let flags: u32 = match state_flags {
        Some(f) => match parse_u32_spec(f) {
            Some(x) => x,
            None => 0,
        },
        None => 0,
    };
    let n = match name {
        Some(n) => n,
        None => Seq::<char>::empty(),
    };
    if flags & STEAM_STATE_FLAG_FULLY_INSTALLED == 0 || n.len() == 0 {
        None
    } else {
        match app_id {
            Some(a) => match parse_u32_spec(a) {
                Some(id) => Some((id, n)),
                None => None,
            },
            None => None,
        }
    }
}

pub fn installed_app(app_id: Option<&str>, name: Option<&str>, state_flags: Option<&str>) -> (r:
    Option<(u32, String)>)
    ensures
        match r {
            Some((id, n)) => installed_app_spec(
                match app_id {
                    Some(a) => Some(a@),
                    None => None,
                },
                match name {
                    Some(x) => Some(x@),
                    None => None,
                },
                match state_flags {
                    Some(f) => Some(f@),
                    None => None,
                },
            ) == Some((id, n@)),
            None => installed_app_spec(
                match app_id {
                    Some(a) => Some(a@),
                    None => None,
                },
                match name {
                    Some(x) => Some(x@),
                    None => None,
                },
                match state_flags {
                    Some(f) => Some(f@),
                    None => None,
                },
            ) is None,
        },
{
    let flags: u32 = match state_flags {
        Some(f) => match parse_u32(f) {
            Some(x) => x,
            None => 0,
        },
        None => 0,
    };
    let n = match name {
        Some(x) => chars_of(x),
        None => Vec::new(),
    };
    if flags & STEAM_STATE_FLAG_FULLY_INSTALLED == 0 || n.len() == 0 {
        return None;
    }
    match app_id {
        Some(a) => match parse_u32(a) {
            Some(id) => Some((id, string_of(&n))),
            None => None,
        },
        None => None,
    }
}

/// The app id of an uninstall entry named `Steam App <id>`.
pub open spec fn uninstall_key_app_id_spec(subkey_name: Seq<char>) -> Option<u32> {
    match regex_first_capture("^Steam App (\\d+)$"@, subkey_name) {
        Some(digits) => parse_u32_spec(digits),
        None => None,
    }
}

pub fn uninstall_key_app_id(subkey_name: &str) -> (r: Option<u32>)
    ensures
        r == uninstall_key_app_id_spec(subkey_name@),
{
    match first_capture("^Steam App (\\d+)$", subkey_name) {
        Some(digits) => parse_u32(digits.as_str()),
        None => None,
    }
}

/// Records the app id of a found game: true when it was not found before
/// (the game is kept), false for a duplicate.
pub fn keep_new_app_id(seen: &mut Vec<u32>, app_id: u32) -> (kept: bool)
    ensures
        kept == !old(seen)@.contains(app_id),
        kept ==> final(seen)@ == old(seen)@.push(app_id),
        !kept ==> final(seen)@ == old(seen)@,
{
    let mut i: usize = 0;
    while i < seen.len()
        invariant
            i <= seen@.len(),
            forall|j: int| 0 <= j < i ==> seen@[j] != app_id,
        decreases seen.len() - i,
    {
        if seen[i] == app_id {
            assert(seen@.contains(app_id));
            return false;
        }
        i = i + 1;
    }
    seen.push(app_id);
    true
}

} // verus!
