//! Settings of the usage analytics: switches read from text, the request
//! endpoint, and the proxy taken from the Windows Internet settings.
use vstd::prelude::*;

use crate::config::first_index_of;
use crate::text::{
    chars_of, eq_ic, eq_ic_str, eq_str, extend_chars, extend_str, slice_chars, starts_with,
    starts_with_str, string_of, to_ascii_lowercase, trim, trim_chars,
};

verus! {

/// A switch value: `1`, `true`, `yes`, `on` or `0`, `false`, `no`, `off`,
/// in any ASCII case and with surrounding white space.
pub open spec fn switch_value(value: Seq<char>) -> Option<bool> {
    let v = crate::text::lower_seq(trim(value));
    if v == "1"@ || v == "true"@ || v == "yes"@ || v == "on"@ {
        Some(true)
    } else if v == "0"@ || v == "false"@ || v == "no"@ || v == "off"@ {
        Some(false)
    } else {
        None
    }
}

pub fn parse_bool(value: &str) -> (r: Option<bool>)
    ensures
        r == switch_value(value@),
{
    let v = to_ascii_lowercase(&trim_chars(&chars_of(value)));
    if eq_str(&v, "1") || eq_str(&v, "true") || eq_str(&v, "yes") || eq_str(&v, "on") {
        Some(true)
    } else if eq_str(&v, "0") || eq_str(&v, "false") || eq_str(&v, "no") || eq_str(&v, "off") {
        Some(false)
    } else {
        None
    }
}

/// A proxy address that names its scheme.
pub open spec fn has_proxy_scheme_spec(value: Seq<char>) -> bool {
    starts_with(value, "http://"@) || starts_with(value, "https://"@) || starts_with(
        value,
        "socks4://"@,
    ) || starts_with(value, "socks4a://"@) || starts_with(value, "socks5://"@) || starts_with(
        value,
        "socks://"@,
    )
}

pub fn has_proxy_scheme(value: &str) -> (r: bool)
    ensures
        r == has_proxy_scheme_spec(value@),
{
    let v = chars_of(value);
    starts_with_str(&v, "http://") || starts_with_str(&v, "https://") || starts_with_str(
        &v,
        "socks4://",
    ) || starts_with_str(&v, "socks4a://") || starts_with_str(&v, "socks5://") || starts_with_str(
        &v,
        "socks://",
    )
}

/// A proxy address with a scheme: `http://` is added where none is named.
pub open spec fn with_scheme(target: Seq<char>) -> Seq<char> {
    if has_proxy_scheme_spec(target) {
        target
    } else {
        "http://"@ + target
    }
}

fn with_scheme_exec(target: &Vec<char>) -> (r: String)
    ensures
        r@ == with_scheme(target@),
{
    let t = string_of(target);
    if has_proxy_scheme(t.as_str()) {
        t
    } else {
        let mut v: Vec<char> = Vec::new();
        extend_str(&mut v, "http://");
        extend_chars(&mut v, target);
        string_of(&v)
    }
}

/// The pieces of a text between the separators `sep`.
pub open spec fn split_on(s: Seq<char>, sep: char) -> Seq<Seq<char>>
    decreases s.len(),
{
    if s.len() == 0 {
        seq![Seq::<char>::empty()]
    } else {
        let prev = split_on(s.drop_last(), sep);
        if s.last() == sep {
            prev.push(Seq::<char>::empty())
        } else {
            prev.update(prev.len() - 1, prev.last().push(s.last()))
        }
    }
}

pub proof fn lemma_split_on_nonempty(s: Seq<char>, sep: char)
    ensures
        split_on(s, sep).len() >= 1,
    decreases s.len(),
{
    if s.len() > 0 {
        lemma_split_on_nonempty(s.drop_last(), sep);
    }
}

pub open spec fn piece_views(v: Seq<Vec<char>>) -> Seq<Seq<char>> {
    v.map_values(|p: Vec<char>| p@)
}

/// The pieces of a text between the separators `sep`.
pub fn split_pieces(s: &Vec<char>, sep: char) -> (r: Vec<Vec<char>>)
    ensures
        piece_views(r@) == split_on(s@, sep),
{
    let mut pieces: Vec<Vec<char>> = Vec::new();
    let mut cur: Vec<char> = Vec::new();
    let mut i: usize = 0;
    assert(s@.subrange(0, 0) =~= Seq::<char>::empty());
    assert(piece_views(pieces@).push(cur@) =~= split_on(Seq::<char>::empty(), sep));
    while i < s.len()
        invariant
            i <= s@.len(),
            piece_views(pieces@).push(cur@) == split_on(s@.subrange(0, i as int), sep),
        decreases s.len() - i,
    {
        let c = s[i];
        let ghost pre = s@.subrange(0, i as int);
        let ghost next = s@.subrange(0, i + 1);
        proof {
            assert(next.drop_last() =~= pre);
            lemma_split_on_nonempty(pre, sep);
        }
        if c == sep {
            let ghost before = piece_views(pieces@);
            let done = cur;
            pieces.push(done);
            cur = Vec::new();
            assert(piece_views(pieces@) =~= before.push(done@));
            assert(piece_views(pieces@).push(cur@) =~= split_on(next, sep));
        } else {
            let ghost before = piece_views(pieces@);
            cur.push(c);
            assert(piece_views(pieces@).push(cur@) =~= split_on(next, sep));
        }
        i = i + 1;
    }
    assert(s@.subrange(0, s@.len() as int) =~= s@);
    let ghost before = piece_views(pieces@);
    pieces.push(cur);
    assert(piece_views(pieces@) =~= before.push(cur@));
    pieces
}

/// The proxy for `scheme` in a list like `http=host:80;https=host:443`:
/// the first entry of that name (in any ASCII case) gives its trimmed
/// address, with a scheme; none when that address is blank or an entry
/// before it has no `=`.
pub open spec fn named_proxy(entries: Seq<Seq<char>>, scheme: Seq<char>) -> Option<Seq<char>>
    decreases entries.len(),
{
    if entries.len() == 0 {
        None
    } else {
        let e = entries[0];
        match first_index_of(e, '=') {
            None => None,
            Some(i) => if !eq_ic(trim(e.subrange(0, i as int)), scheme) {
                named_proxy(entries.drop_first(), scheme)
            } else {
                let t = trim(e.subrange(i + 1int, e.len() as int));
                if t.len() == 0 {
                    None
                } else {
                    Some(with_scheme(t))
                }
            },
        }
    }
}

fn find_first(s: &Vec<char>, c: char) -> (r: Option<usize>)
    ensures
        match r {
            Some(i) => first_index_of(s@, c) == Some(i as nat) && i < s@.len(),
            None => first_index_of(s@, c) is None,
        },
{
    let mut i: usize = 0;
    while i < s.len()
        invariant
            i <= s@.len(),
            forall|j: int| 0 <= j < i ==> s@[j] != c,
        decreases s.len() - i,
    {
        if s[i] == c {
            proof {
                crate::config::lemma_first_index_of(s@, c, i as int);
            }
            return Some(i);
        }
        i = i + 1;
    }
    proof {
        crate::config::lemma_first_index_of_none(s@, c);
    }
    None
}

pub fn parse_named_proxy(value: &str, scheme: &str) -> (r: Option<String>)
    ensures
        match r {
            Some(p) => named_proxy(split_on(value@, ';'), scheme@) == Some(p@),
            None => named_proxy(split_on(value@, ';'), scheme@) is None,
        },
{
    let entries = split_pieces(&chars_of(value), ';');
    let ghost views = piece_views(entries@);
    let mut k: usize = 0;
    assert(views.subrange(0, views.len() as int) =~= views);
    while k < entries.len()
        invariant
            k <= entries@.len(),
            views == piece_views(entries@),
            views == split_on(value@, ';'),
            named_proxy(views, scheme@) == named_proxy(
                views.subrange(k as int, views.len() as int),
                scheme@,
            ),
        decreases entries.len() - k,
    {
        let e = &entries[k];
        proof {
            let rest = views.subrange(k as int, views.len() as int);
            assert(rest[0] == e@);
            assert(rest.drop_first() =~= views.subrange(k + 1, views.len() as int));
        }
        let i = match find_first(e, '=') {
            Some(i) => i,
            None => {
                return None;
            },
        };
        let name = trim_chars(&slice_chars(e, 0, i));
        if eq_ic_str(&name, scheme) {
            let target = trim_chars(&slice_chars(e, i + 1, e.len()));
            if target.len() == 0 {
                return None;
            }
            return Some(with_scheme_exec(&target));
        }
        k = k + 1;
    }
    None
}

/// The address of a proxy server setting: the `https` entry, else the
/// `http` entry, else the whole trimmed setting with a scheme; none for a
/// blank setting.
pub open spec fn windows_proxy_address_spec(value: Seq<char>) -> Option<Seq<char>> {
    let t = trim(value);
    if t.len() == 0 {
        None
    } else {
        match named_proxy(split_on(t, ';'), "https"@) {
            Some(p) => Some(p),
            None => match named_proxy(split_on(t, ';'), "http"@) {
                Some(p) => Some(p),
                None => Some(with_scheme(t)),
            },
        }
    }
}

pub fn windows_proxy_address(value: &str) -> (r: Option<String>)
    ensures
        match r {
            Some(p) => windows_proxy_address_spec(value@) == Some(p@),
            None => windows_proxy_address_spec(value@) is None,
        },
{
    let t = trim_chars(&chars_of(value));
    if t.len() == 0 {
        return None;
    }
    let ts = string_of(&t);
    match parse_named_proxy(ts.as_str(), "https") {
        Some(p) => {
            return Some(p);
        },
        None => {},
    }
    match parse_named_proxy(ts.as_str(), "http") {
        Some(p) => {
            return Some(p);
        },
        None => {},
    }
    Some(with_scheme_exec(&t))
}

/// The request address of the measurement protocol.
pub open spec fn ga4_endpoint_spec(measurement_id: Seq<char>, api_secret: Seq<char>) -> Seq<char> {
    "https://www.google-analytics.com/mp/collect"@ + "?measurement_id="@ + measurement_id
        + "&api_secret="@ + api_secret
}

pub fn ga4_endpoint(measurement_id: &str, api_secret: &str) -> (r: String)
    ensures
        r@ == ga4_endpoint_spec(measurement_id@, api_secret@),
{
    let mut v: Vec<char> = Vec::new();
    extend_str(&mut v, "https://www.google-analytics.com/mp/collect");
    extend_str(&mut v, "?measurement_id=");
    extend_str(&mut v, measurement_id);
    extend_str(&mut v, "&api_secret=");
    extend_str(&mut v, api_secret);
    string_of(&v)
}

/// Analytics are on unless the build switch turns them off.
pub fn analytics_enabled(switch: Option<&str>) -> (r: bool)
    ensures
        r == match switch {
            Some(s) => match switch_value(s@) {
                Some(b) => b,
                None => true,
            },
            None => true,
        },
{
    match switch {
        Some(s) => match parse_bool(s) {
            Some(b) => b,
            None => true,
        },
        None => true,
    }
}

} // verus!
