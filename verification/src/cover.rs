//! Game artwork: which Steam library-cache files and download addresses
//! hold a game's cover and logo, how a logo file is recognized, the alpha
//! channel of extracted icons, and which executable of a game has its icon.
use vstd::prelude::*;

use image::ImageEncoder;

use crate::analytics::{piece_views, split_on, split_pieces};
use crate::text::{
    chars_of, contains, contains_chars, contains_str, ends_with, ends_with_str, eq_chars,
    extend_chars, extend_str, push_decimal, string_of, to_ascii_lowercase,
};

verus! {

/// The signature at the start of every PNG file.
pub open spec fn png_signature() -> Seq<u8> {
    seq![0x89u8, 0x50u8, 0x4eu8, 0x47u8, 0x0du8, 0x0au8, 0x1au8, 0x0au8]
}

pub open spec fn is_png(bytes: Seq<u8>) -> bool {
    bytes.len() >= 8 && bytes.subrange(0, 8) == png_signature()
}

pub fn is_png_bytes(bytes: &[u8]) -> (r: bool)
    ensures
        r == is_png(bytes@),
{
    if bytes.len() < 8 {
        return false;
    }
    let sig: [u8; 8] = [0x89, 0x50, 0x4e, 0x47, 0x0d, 0x0a, 0x1a, 0x0a];
    let mut i: usize = 0;
    while i < 8
        invariant
            i <= 8,
            bytes@.len() >= 8,
            sig@ == png_signature(),
            forall|j: int| 0 <= j < i ==> bytes@[j] == png_signature()[j],
        decreases 8 - i,
    {
        if bytes[i] != sig[i] {
            assert(bytes@.subrange(0, 8)[i as int] != png_signature()[i as int]);
            return false;
        }
        i = i + 1;
    }
    assert(bytes@.subrange(0, 8) =~= png_signature());
    true
}

/// A library-cache file is taken when it has at least `min_size` bytes and,
/// where a PNG is required, is one.
pub open spec fn asset_acceptable(bytes: Seq<u8>, min_size: usize, require_png: bool) -> bool {
    bytes.len() >= min_size && (!require_png || is_png(bytes))
}

pub fn librarycache_asset_acceptable(bytes: &[u8], min_size: usize, require_png: bool) -> (r: bool)
    ensures
        r == asset_acceptable(bytes@, min_size, require_png),
{
    bytes.len() >= min_size && (!require_png || is_png_bytes(bytes))
}

/// A file of the library cache that holds a logo: its lower-case name
/// contains `logo` and ends in `.png`.
pub open spec fn is_logo_file_name_spec(name: Seq<char>) -> bool {
    let lower = crate::text::lower_seq(name);
    contains(lower, "logo"@) && ends_with(lower, ".png"@)
}

pub fn is_logo_file_name(name: &str) -> (r: bool)
    ensures
        r == is_logo_file_name_spec(name@),
{
    let lower = to_ascii_lowercase(&chars_of(name));
    contains_str(&lower, "logo") && ends_with_str(&lower, ".png")
}

/// The cache file of a game's cover (`<id>_hero.jpg`) or logo (`<id>_logo.png`).
pub open spec fn asset_cache_file_name_spec(app_id: u32, logo: bool) -> Seq<char> {
    crate::text::decimal(app_id as nat) + if logo {
        "_logo.png"@
    } else {
        "_hero.jpg"@
    }
}

pub fn asset_cache_file_name(app_id: u32, logo: bool) -> (r: String)
    ensures
        r@ == asset_cache_file_name_spec(app_id, logo),
{
    let mut v: Vec<char> = Vec::new();
    push_decimal(&mut v, app_id as u64);
    if logo {
        extend_str(&mut v, "_logo.png");
    } else {
        extend_str(&mut v, "_hero.jpg");
    }
    string_of(&v)
}

pub open spec fn steam_asset_url(host_path: Seq<char>, app_id: u32, file: Seq<char>) -> Seq<char> {
    host_path + crate::text::decimal(app_id as nat) + "/"@ + file
}

pub open spec fn store_assets_host() -> Seq<char> {
    "https://shared.akamai.steamstatic.com/store_item_assets/steam/apps/"@
}

pub open spec fn legacy_cdn_host() -> Seq<char> {
    "https://steamcdn-a.akamaihd.net/steam/apps/"@
}

fn asset_url(host_path: &str, app_id: u32, file: &str) -> (r: String)
    ensures
        r@ == steam_asset_url(host_path@, app_id, file@),
{
    let mut v: Vec<char> = Vec::new();
    extend_str(&mut v, host_path);
    push_decimal(&mut v, app_id as u64);
    extend_str(&mut v, "/");
    extend_str(&mut v, file);
    string_of(&v)
}

pub open spec fn url_views(v: Seq<String>) -> Seq<Seq<char>> {
    v.map_values(|s: String| s@)
}

/// The download addresses of a game's cover, in the order they are tried.
pub fn hero_urls(app_id: u32) -> (r: Vec<String>)
    ensures
        url_views(r@) == seq![
            steam_asset_url(store_assets_host(), app_id, "library_hero.jpg"@),
            steam_asset_url(legacy_cdn_host(), app_id, "library_hero.jpg"@),
        ],
{
    let mut v: Vec<String> = Vec::new();
    v.push(
        asset_url(
            "https://shared.akamai.steamstatic.com/store_item_assets/steam/apps/",
            app_id,
            "library_hero.jpg",
        ),
    );
    v.push(asset_url("https://steamcdn-a.akamaihd.net/steam/apps/", app_id, "library_hero.jpg"));
    assert(url_views(v@) =~= seq![
        steam_asset_url(store_assets_host(), app_id, "library_hero.jpg"@),
        steam_asset_url(legacy_cdn_host(), app_id, "library_hero.jpg"@),
    ]);
    v
}

/// The download addresses of a game's logo, in the order they are tried.
pub fn logo_urls(app_id: u32) -> (r: Vec<String>)
    ensures
        url_views(r@) == seq![
            steam_asset_url(store_assets_host(), app_id, "library_logo.png"@),
            steam_asset_url(store_assets_host(), app_id, "logo.png"@),
            steam_asset_url(legacy_cdn_host(), app_id, "library_logo.png"@),
            steam_asset_url(legacy_cdn_host(), app_id, "logo.png"@),
        ],
{
    let mut v: Vec<String> = Vec::new();
    v.push(
        asset_url(
            "https://shared.akamai.steamstatic.com/store_item_assets/steam/apps/",
            app_id,
            "library_logo.png",
        ),
    );
    v.push(
        asset_url(
            "https://shared.akamai.steamstatic.com/store_item_assets/steam/apps/",
            app_id,
            "logo.png",
        ),
    );
    v.push(asset_url("https://steamcdn-a.akamaihd.net/steam/apps/", app_id, "library_logo.png"));
    v.push(asset_url("https://steamcdn-a.akamaihd.net/steam/apps/", app_id, "logo.png"));
    assert(url_views(v@) =~= seq![
        steam_asset_url(store_assets_host(), app_id, "library_logo.png"@),
        steam_asset_url(store_assets_host(), app_id, "logo.png"@),
        steam_asset_url(legacy_cdn_host(), app_id, "library_logo.png"@),
        steam_asset_url(legacy_cdn_host(), app_id, "logo.png"@),
    ]);
    v
}

/// The alpha of icon pixel `p` taken from its mask pixel: transparent
/// where the brightest mask channel is above 127, opaque elsewhere.
pub open spec fn mask_alpha(mask: Seq<u8>, p: int) -> u8 {
    let m0 = mask[4 * p];
    let m1 = mask[4 * p + 1];
    let m2 = mask[4 * p + 2];
    if m0 > 127 || m1 > 127 || m2 > 127 {
        0
    } else {
        255
    }
}

/// The alpha byte of pixel `p`.
pub open spec fn alpha_at(rgba: Seq<u8>, p: int) -> u8 {
    rgba[4 * p + 3]
}

pub open spec fn has_alpha(rgba: Seq<u8>) -> bool {
    exists|p: int| 0 <= p < rgba.len() / 4 && #[trigger] alpha_at(rgba, p) != 0
}

/// An icon bitmap without any alpha takes its alpha from the icon mask:
/// each whole pixel of both gets the mask's alpha; the rest is kept.
pub fn merge_icon_mask_alpha(rgba: &mut Vec<u8>, mask_rgba: &Vec<u8>)
    ensures
        final(rgba)@.len() == old(rgba)@.len(),
        has_alpha(old(rgba)@) ==> final(rgba)@ == old(rgba)@,
        !has_alpha(old(rgba)@) ==> forall|i: int|
            0 <= i < old(rgba)@.len() ==> #[trigger] final(rgba)@[i] == if i % 4 == 3 && i / 4
                < mask_rgba@.len() / 4 {
                mask_alpha(mask_rgba@, i / 4)
            } else {
                old(rgba)@[i]
            },
{
    let pixels = rgba.len() / 4;
    let mut p: usize = 0;
    while p < pixels
        invariant
            pixels == rgba@.len() / 4,
            p <= pixels,
            forall|q: int| 0 <= q < p ==> #[trigger] alpha_at(rgba@, q) == 0,
        decreases pixels - p,
    {
        let len = rgba.len();
        assert(4 * p + 3 < len) by (nonlinear_arith)
            requires
                p < pixels,
                pixels == len / 4,
        ;
        if rgba[4 * p + 3] != 0 {
            assert(alpha_at(rgba@, p as int) != 0);
            return;
        }
        p = p + 1;
    }
    let mask_pixels = mask_rgba.len() / 4;
    let n = if pixels < mask_pixels {
        pixels
    } else {
        mask_pixels
    };
    let ghost orig = rgba@;
    let mut q: usize = 0;
    while q < n
        invariant
            n <= pixels,
            n <= mask_rgba@.len() / 4,
            n <= rgba@.len() / 4,
            n == if rgba@.len() / 4 < mask_rgba@.len() / 4 {
                rgba@.len() / 4
            } else {
                mask_rgba@.len() / 4
            },
            pixels == orig.len() / 4,
            rgba@.len() == orig.len(),
            q <= n,
            forall|i: int|
                0 <= i < orig.len() ==> #[trigger] rgba@[i] == if i % 4 == 3 && i / 4 < q {
                    mask_alpha(mask_rgba@, i / 4)
                } else {
                    orig[i]
                },
        decreases n - q,
    {
        let mlen = mask_rgba.len();
        let rlen = rgba.len();
        assert(4 * q + 3 < mlen && 4 * q + 3 < rlen) by (nonlinear_arith)
            requires
                q < n,
                n <= mlen / 4,
                n <= rlen / 4,
        ;
        let m0 = mask_rgba[4 * q];
        let m1 = mask_rgba[4 * q + 1];
        let m2 = mask_rgba[4 * q + 2];
        let alpha: u8 = if m0 > 127 || m1 > 127 || m2 > 127 {
            0
        } else {
            255
        };
        rgba.set(4 * q + 3, alpha);
        proof {
            assert forall|i: int| 0 <= i < orig.len() implies #[trigger] rgba@[i] == if i % 4 == 3
                && i / 4 < q + 1 {
                mask_alpha(mask_rgba@, i / 4)
            } else {
                orig[i]
            } by {
                if i == 4 * q + 3 {
                    assert(i % 4 == 3 && i / 4 == q);
                } else if i % 4 == 3 && i / 4 == q {
                    assert(i == 4 * q + 3);
                }
            }
        }
        q = q + 1;
    }
    proof {
        assert forall|i: int| 0 <= i < orig.len() implies #[trigger] rgba@[i] == if i % 4 == 3 && i
            / 4 < mask_rgba@.len() / 4 {
            mask_alpha(mask_rgba@, i / 4)
        } else {
            orig[i]
        } by {
            if i % 4 == 3 && i / 4 < mask_rgba@.len() / 4 {
                assert(i / 4 < orig.len() / 4);
            }
        }
        assert(!has_alpha(orig)) by {
            assert forall|p2: int| 0 <= p2 < orig.len() / 4 implies #[trigger] alpha_at(orig, p2) == 0 by {}
        }
    }
}

/// A character of a name as compared: ASCII letters and digits in lower
/// case, everything else a space.
pub open spec fn match_char(c: char) -> char {
    if ('0' <= c && c <= '9') || ('a' <= c && c <= 'z') || ('A' <= c && c <= 'Z') {
        crate::text::lower_char(c)
    } else {
        ' '
    }
}

/// The non-empty pieces, in order.
pub open spec fn nonempty_pieces(ps: Seq<Seq<char>>) -> Seq<Seq<char>>
    decreases ps.len(),
{
    if ps.len() == 0 {
        Seq::empty()
    } else {
        let prev = nonempty_pieces(ps.drop_last());
        if ps.last().len() > 0 {
            prev.push(ps.last())
        } else {
            prev
        }
    }
}

/// The words of a text of letters, digits and spaces.
pub open spec fn words_of(s: Seq<char>) -> Seq<Seq<char>> {
    nonempty_pieces(split_on(s, ' '))
}

pub open spec fn join_words(ws: Seq<Seq<char>>) -> Seq<char>
    decreases ws.len(),
{
    if ws.len() == 0 {
        Seq::empty()
    } else if ws.len() == 1 {
        ws[0]
    } else {
        join_words(ws.drop_last()) + " "@ + ws.last()
    }
}

/// A name as compared: its ASCII letters and digits in lower case, in
/// words separated by single spaces.
pub open spec fn normalized_name(s: Seq<char>) -> Seq<char> {
    join_words(words_of(s.map_values(|c: char| match_char(c))))
}

fn words_exec(s: &Vec<char>) -> (r: Vec<Vec<char>>)
    ensures
        piece_views(r@) == words_of(s@),
{
    let pieces = split_pieces(s, ' ');
    let ghost pv = piece_views(pieces@);
    let mut out: Vec<Vec<char>> = Vec::new();
    let mut i: usize = 0;
    assert(pv.subrange(0, 0) =~= Seq::<Seq<char>>::empty());
    assert(piece_views(out@) =~= Seq::<Seq<char>>::empty());
    while i < pieces.len()
        invariant
            i <= pieces@.len(),
            pv == piece_views(pieces@),
            pv == split_on(s@, ' '),
            piece_views(out@) == nonempty_pieces(pv.subrange(0, i as int)),
        decreases pieces.len() - i,
    {
        proof {
            let t = pv.subrange(0, i + 1);
            assert(t.drop_last() =~= pv.subrange(0, i as int));
            assert(t.last() == pieces@[i as int]@);
        }
        if pieces[i].len() > 0 {
            let ghost before = piece_views(out@);
            assert(pieces@[i as int]@.subrange(0, pieces@[i as int]@.len() as int) =~= pieces@[i as int]@);
            out.push(crate::text::slice_chars(&pieces[i], 0, pieces[i].len()));
            assert(piece_views(out@) =~= before.push(pieces@[i as int]@));
        }
        i = i + 1;
    }
    assert(pv.subrange(0, pv.len() as int) =~= pv);
    out
}

/// A text with each character as compared.
fn match_chars_exec(v: &Vec<char>) -> (r: Vec<char>)
    ensures
        r@ == v@.map_values(|c: char| match_char(c)),
{
    let mut mapped: Vec<char> = Vec::new();
    let mut i: usize = 0;
    while i < v.len()
        invariant
            i <= v@.len(),
            mapped@ == v@.subrange(0, i as int).map_values(|c: char| match_char(c)),
        decreases v.len() - i,
    {
        let c = v[i];
        let m = if ('0' <= c && c <= '9') || ('a' <= c && c <= 'z') || ('A' <= c && c <= 'Z') {
            crate::text::lower_char_exec(c)
        } else {
            ' '
        };
        mapped.push(m);
        i = i + 1;
        assert(mapped@ =~= v@.subrange(0, i as int).map_values(|c: char| match_char(c)));
    }
    assert(v@.subrange(0, v@.len() as int) =~= v@);
    mapped
}

pub fn normalize_name_for_match(value: &str) -> (r: String)
    ensures
        r@ == normalized_name(value@),
{
    let mapped = match_chars_exec(&chars_of(value));
    let words = words_exec(&mapped);
    let ghost wv = piece_views(words@);
    let mut out: Vec<char> = Vec::new();
    let mut k: usize = 0;
    assert(wv.subrange(0, 0) =~= Seq::<Seq<char>>::empty());
    while k < words.len()
        invariant
            k <= words@.len(),
            wv == piece_views(words@),
            wv == words_of(mapped@),
            out@ == join_words(wv.subrange(0, k as int)),
        decreases words.len() - k,
    {
        proof {
            let t = wv.subrange(0, k + 1);
            assert(t.drop_last() =~= wv.subrange(0, k as int));
            assert(t.last() == words@[k as int]@);
        }
        if k > 0 {
            extend_str(&mut out, " ");
        }
        extend_chars(&mut out, &words[k]);
        k = k + 1;
        proof {
            if k == 1 {
                assert(out@ =~= wv.subrange(0, 1)[0]);
            }
        }
    }
    assert(wv.subrange(0, wv.len() as int) =~= wv);
    string_of(&out)
}

/// The name of a file without its extension.
pub open spec fn file_stem(path: Seq<char>) -> Seq<char> {
    let name = crate::epic::file_name(path);
    match crate::epic::last_index_of(name, '.') {
        Some(i) => if i == 0 {
            name
        } else {
            name.subrange(0, i as int)
        },
        None => name,
    }
}

/// Words that mark helper programs rather than the game.
pub open spec fn negative_markers() -> Seq<Seq<char>> {
    seq![
        "unins"@,
        "crash"@,
        "report"@,
        "launcher"@,
        "setup"@,
        "install"@,
        "uninstall"@,
        "benchmark"@,
        "config"@,
        "updater"@,
        "redistributable"@,
        "redist"@,
        "eac"@,
        "anticheat"@,
    ]
}

/// The number of the first `n` words of at least three characters that
/// occur in `stem`.
pub open spec fn token_hits(words: Seq<Seq<char>>, stem: Seq<char>, n: int) -> int
    decreases n,
{
    if n <= 0 {
        0
    } else {
        token_hits(words, stem, n - 1) + if words[n - 1].len() >= 3 && contains(
            stem,
            words[n - 1],
        ) {
            1int
        } else {
            0int
        }
    }
}

/// The number of the first `n` markers that occur in `name`.
pub open spec fn marker_hits(name: Seq<char>, n: int) -> int
    decreases n,
{
    if n <= 0 {
        0
    } else {
        marker_hits(name, n - 1) + if contains(name, negative_markers()[n - 1]) {
            1int
        } else {
            0int
        }
    }
}

/// How likely an executable is the game's own: its name matches the
/// game's name (10000 when equal, 6000 when one holds the other), 700 for
/// each word of the game's name of three or more characters found in it,
/// 350 for each level it lies above depth 6 under the install directory,
/// 20 for each MiB of size up to 64, and 2500 off for each helper marker
/// in its name.
pub open spec fn exe_score(
    path: Seq<char>,
    game_name: Seq<char>,
    depth: Option<usize>,
    size_bytes: Option<u64>,
) -> int {
    let stem = file_stem(path);
    let ns = normalized_name(stem);
    let ng = normalized_name(game_name);
    let lower = crate::text::lower_seq(stem);
    let name_score = if ng.len() > 0 && ns == ng {
        10000int
    } else if ng.len() > 0 && (contains(ns, ng) || contains(ng, ns)) {
        6000int
    } else {
        0int
    };
    let words = words_of(game_name.map_values(|c: char| match_char(c)));
    let depth_score = match depth {
        Some(d) => if d < 6 {
            (6 - d) * 350
        } else {
            0
        },
        None => 0,
    };
    let size_score = match size_bytes {
        Some(b) => if b / 1048576 < 64 {
            (b / 1048576) * 20
        } else {
            64int * 20
        },
        None => 0,
    };
    name_score + 700 * token_hits(words, ns, words.len() as int) + depth_score + size_score - 2500
        * marker_hits(lower, 14)
}

proof fn lemma_token_hits_bound(words: Seq<Seq<char>>, stem: Seq<char>, n: int)
    requires
        0 <= n <= words.len(),
    ensures
        0 <= token_hits(words, stem, n) <= n,
    decreases n,
{
    if n > 0 {
        lemma_token_hits_bound(words, stem, n - 1);
    }
}

proof fn lemma_marker_hits_bound(name: Seq<char>, n: int)
    requires
        0 <= n <= 14,
    ensures
        0 <= marker_hits(name, n) <= n,
    decreases n,
{
    if n > 0 {
        lemma_marker_hits_bound(name, n - 1);
    }
}

proof fn lemma_split_on_len(s: Seq<char>, sep: char)
    ensures
        split_on(s, sep).len() <= s.len() + 1,
    decreases s.len(),
{
    if s.len() > 0 {
        lemma_split_on_len(s.drop_last(), sep);
        crate::analytics::lemma_split_on_nonempty(s.drop_last(), sep);
        let prev = split_on(s.drop_last(), sep);
        assert(prev.len() <= s.len());
        if s.last() == sep {
            assert(split_on(s, sep) == prev.push(Seq::<char>::empty()));
        } else {
            assert(split_on(s, sep).len() == prev.len());
        }
    }
}

proof fn lemma_words_len(s: Seq<Seq<char>>)
    ensures
        nonempty_pieces(s).len() <= s.len(),
    decreases s.len(),
{
    if s.len() > 0 {
        lemma_words_len(s.drop_last());
    }
}

fn marker_exec(k: usize) -> (r: &'static str)
    requires
        k < 14,
    ensures
        r@ == negative_markers()[k as int],
{
    if k == 0 {
        "unins"
    } else if k == 1 {
        "crash"
    } else if k == 2 {
        "report"
    } else if k == 3 {
        "launcher"
    } else if k == 4 {
        "setup"
    } else if k == 5 {
        "install"
    } else if k == 6 {
        "uninstall"
    } else if k == 7 {
        "benchmark"
    } else if k == 8 {
        "config"
    } else if k == 9 {
        "updater"
    } else if k == 10 {
        "redistributable"
    } else if k == 11 {
        "redist"
    } else if k == 12 {
        "eac"
    } else {
        "anticheat"
    }
}

fn file_stem_exec(path: &Vec<char>) -> (r: Vec<char>)
    ensures
        r@ == file_stem(path@),
{
    let name = crate::epic::file_name_exec(path);
    match crate::epic::find_last_char(&name, '.') {
        Some(i) => if i == 0 {
            name
        } else {
            crate::text::slice_chars(&name, 0, i)
        },
        None => name,
    }
}

/// The score of an executable of a game, found at `depth` below the
/// install directory and `size_bytes` large, where those are known.
pub fn exe_candidate_score(
    path: &str,
    game_name: &str,
    depth: Option<usize>,
    size_bytes: Option<u64>,
) -> (r: i128)
    ensures
        r as int == exe_score(path@, game_name@, depth, size_bytes),
{
    let stem = file_stem_exec(&chars_of(path));
    let ns = chars_of(normalize_name_for_match(string_of(&stem).as_str()).as_str());
    let ng = chars_of(normalize_name_for_match(game_name).as_str());
    let lower = to_ascii_lowercase(&stem);
    let mut score: i128 = 0;
    if ng.len() > 0 && eq_chars(&ns, &ng) {
        score = 10000;
    } else if ng.len() > 0 && (contains_chars(&ns, &ng) || contains_chars(&ng, &ns)) {
        score = 6000;
    }
    let gm = match_chars_exec(&chars_of(game_name));
    let gm_len = gm.len();
    let words = words_exec(&gm);
    let ghost wv = piece_views(words@);
    proof {
        lemma_words_len(split_on(gm@, ' '));
        lemma_split_on_len(gm@, ' ');
    }
    let ghost base = score as int;
    let mut k: usize = 0;
    while k < words.len()
        invariant
            k <= words@.len(),
            wv == piece_views(words@),
            wv == words_of(gm@),
            words@.len() <= gm_len + 1,
            gm_len <= usize::MAX,
            score as int == base + 700 * token_hits(wv, ns@, k as int),
            base <= 10000,
        decreases words.len() - k,
    {
        proof {
            lemma_token_hits_bound(wv, ns@, k as int);
            assert(wv[k as int] == words@[k as int]@);
        }
        if words[k].len() >= 3 && contains_chars(&ns, &words[k]) {
            score = score + 700;
        }
        k = k + 1;
    }
    proof {
        lemma_token_hits_bound(wv, ns@, wv.len() as int);
    }
    match depth {
        Some(d) => {
            if d < 6 {
                score = score + (6 - d as i128) * 350;
            }
        },
        None => {},
    }
    match size_bytes {
        Some(b) => {
            let mib = b / 1048576;
            score = score + if mib < 64 {
                (mib as i128) * 20
            } else {
                64 * 20
            };
        },
        None => {},
    }
    let ghost before_markers = score as int;
    let mut m: usize = 0;
    while m < 14
        invariant
            m <= 14,
            score as int == before_markers - 2500 * marker_hits(lower@, m as int),
            before_markers <= 10000 + 700 * (usize::MAX + 2) + 6 * 350 + 64 * 20,
            before_markers >= 0,
        decreases 14 - m,
    {
        proof {
            lemma_marker_hits_bound(lower@, m as int);
        }
        if contains_str(&lower, marker_exec(m)) {
            score = score - 2500;
        }
        m = m + 1;
    }
    score
}

/// The executable taken for a game's icon: the first of the highest score.
pub open spec fn best_score_index(scores: Seq<i128>, n: int) -> Option<int>
    decreases n,
{
    if n <= 0 {
        None
    } else {
        let prev = best_score_index(scores, n - 1);
        match prev {
            Some(b) => if scores[n - 1] > scores[b] {
                Some(n - 1)
            } else {
                prev
            },
            None => Some(n - 1),
        }
    }
}

pub fn best_scored(scores: &Vec<i128>) -> (r: Option<usize>)
    ensures
        match r {
            Some(i) => best_score_index(scores@, scores@.len() as int) == Some(i as int),
            None => best_score_index(scores@, scores@.len() as int) is None,
        },
{
    let mut best: Option<usize> = None;
    let mut i: usize = 0;
    while i < scores.len()
        invariant
            i <= scores@.len(),
            match best {
                Some(b) => best_score_index(scores@, i as int) == Some(b as int) && b < i,
                None => best_score_index(scores@, i as int) is None,
            },
        decreases scores.len() - i,
    {
        match best {
            Some(b) => {
                if scores[i] > scores[b] {
                    best = Some(i);
                }
            },
            None => {
                best = Some(i);
            },
        }
        i = i + 1;
    }
    best
}

/// A file that is a Windows program: its extension is `exe` in any case.
pub open spec fn is_exe_path(path: Seq<char>) -> bool {
    match crate::epic::extension(crate::epic::file_name(path)) {
        Some(e) => crate::text::eq_ic(e, "exe"@),
        None => false,
    }
}

pub fn is_exe_file(path: &str) -> (r: bool)
    ensures
        r == is_exe_path(path@),
{
    let name = crate::epic::file_name_exec(&chars_of(path));
    match crate::epic::find_last_char(&name, '.') {
        Some(i) => if i == 0 {
            false
        } else {
            let nl = name.len();
            crate::text::eq_ic_str(&crate::text::slice_chars(&name, i + 1, nl), "exe")
        },
        None => false,
    }
}


/// The small hashed icon of a game in Steam's library cache: a `.jpg`
/// file that is none of the known artwork files.
pub open spec fn is_library_icon_file_name_spec(name: Seq<char>) -> bool {
    ends_with(name, ".jpg"@) && name != "header.jpg"@ && name != "library_600x900.jpg"@ && name
        != "library_hero.jpg"@ && name != "library_hero_blur.jpg"@
}

pub fn is_library_icon_file_name(name: &str) -> (r: bool)
    ensures
        r == is_library_icon_file_name_spec(name@),
{
    let n = chars_of(name);
    ends_with_str(&n, ".jpg") && !crate::text::eq_str(&n, "header.jpg") && !crate::text::eq_str(
        &n,
        "library_600x900.jpg",
    ) && !crate::text::eq_str(&n, "library_hero.jpg") && !crate::text::eq_str(
        &n,
        "library_hero_blur.jpg",
    )
}


// ---------------------------------------------------------------------------
// Cached achievement icons, decoded and written by the `image` crate.
// ---------------------------------------------------------------------------
/// The 8-bit RGBA pixels of the image the bytes decode to, with its width
/// and height; none where `image::load_from_memory` does not decode them
/// (their format is guessed from their first bytes).
pub uninterp spec fn decoded_rgba8(bytes: Seq<u8>) -> Option<(u32, u32, Seq<u8>)>;

/// The PNG file that the `image` crate's encoder writes for 8-bit RGBA
/// pixels of a width and height.
pub uninterp spec fn png_encoding(width: u32, height: u32, rgba: Seq<u8>) -> Option<Seq<u8>>;

/// `image::load_from_memory(bytes)`, then `to_rgba8()`: the width, height
/// and pixels of the decoded image, four bytes a pixel (the conversion
/// makes a new buffer of exactly that size); none where decoding fails.
#[verifier::external_body]
fn decode_rgba8(bytes: &[u8]) -> (r: Option<(u32, u32, Vec<u8>)>)
    ensures
        match r {
            Some((w, h, px)) => decoded_rgba8(bytes@) == Some((w, h, px@)) && px@.len() == 4 * w * h,
            None => decoded_rgba8(bytes@) is None,
        },
{
    let rgba = image::load_from_memory(bytes).ok()?.to_rgba8();
    Some((rgba.width(), rgba.height(), rgba.into_raw()))
}

/// `image::codecs::png::PngEncoder::write_image` of 8-bit RGBA pixels into
/// a new buffer; none where encoding fails. The encoder panics unless the
/// pixels are exactly four bytes for each of `width * height` pixels.
#[verifier::external_body]
fn png_bytes_from_rgba(width: u32, height: u32, rgba: &[u8]) -> (r: Option<Vec<u8>>)
    requires
        rgba@.len() == 4 * width * height,
    ensures
        match r {
            Some(v) => png_encoding(width, height, rgba@) == Some(v@),
            None => png_encoding(width, height, rgba@) is None,
        },
{
    let mut bytes = Vec::new();
    image::codecs::png::PngEncoder::new(&mut bytes)
        .write_image(rgba, width, height, image::ColorType::Rgba8)
        .ok()?;
    Some(bytes)
}

/// What an achievement icon is cached as: the downloaded image decoded and
/// written again as an RGBA PNG.
pub open spec fn achievement_icon_cache_encoding(bytes: Seq<u8>) -> Option<Seq<u8>> {
    match decoded_rgba8(bytes) {
        Some((w, h, px)) => png_encoding(w, h, px),
        None => None,
    }
}

pub fn encode_achievement_icon_cache_bytes(bytes: &[u8]) -> (r: Option<Vec<u8>>)
    ensures
        match r {
            Some(v) => achievement_icon_cache_encoding(bytes@) == Some(v@),
            None => achievement_icon_cache_encoding(bytes@) is None,
        },
{
    let (width, height, rgba) = decode_rgba8(bytes)?;
    png_bytes_from_rgba(width, height, rgba.as_slice())
}

/// A cached achievement icon is used when it is a PNG that decodes.
pub fn achievement_icon_cache_bytes_are_valid(bytes: &[u8]) -> (r: bool)
    ensures
        r == (is_png(bytes@) && decoded_rgba8(bytes@) is Some),
{
    is_png_bytes(bytes) && decode_rgba8(bytes).is_some()
}

} // verus!
