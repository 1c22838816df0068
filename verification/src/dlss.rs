//! DLSS versions of installed games: which DLLs are DLSS, which one of
//! those found under a game directory is taken, and how a file version is
//! written.
use vstd::prelude::*;

use crate::text::{chars_of, eq_ic_str, extend_str, push_decimal, string_of};

verus! {

/// The four 16-bit parts of a file version: major and minor from the
/// high word, build and revision from the low word.
pub open spec fn version_parts(version_ms: u32, version_ls: u32) -> Seq<u32> {
    seq![
        (version_ms >> 16u32) & 0xffffu32,
        version_ms & 0xffffu32,
        (version_ls >> 16u32) & 0xffffu32,
        version_ls & 0xffffu32,
    ]
}

/// The parts without trailing zero parts beyond the first two.
pub open spec fn trimmed_parts(parts: Seq<u32>) -> Seq<u32>
    decreases parts.len(),
{
    if parts.len() > 2 && parts.last() == 0 {
        trimmed_parts(parts.drop_last())
    } else {
        parts
    }
}

/// Decimal parts joined by `.`.
pub open spec fn dotted(parts: Seq<u32>) -> Seq<char>
    decreases parts.len(),
{
    if parts.len() == 0 {
        Seq::empty()
    } else if parts.len() == 1 {
        crate::text::decimal(parts[0] as nat)
    } else {
        dotted(parts.drop_last()) + "."@ + crate::text::decimal(parts.last() as nat)
    }
}

/// A file version as text: its parts in decimal joined by `.`, trailing
/// zero parts after the second left out (3.7.10.0 is written `3.7.10`).
pub open spec fn file_version_text(version_ms: u32, version_ls: u32) -> Seq<char> {
    dotted(trimmed_parts(version_parts(version_ms, version_ls)))
}

pub fn format_file_version(version_ms: u32, version_ls: u32) -> (r: String)
    ensures
        r@ == file_version_text(version_ms, version_ls),
{
    let mut parts: Vec<u32> = Vec::new();
    parts.push((version_ms >> 16) & 0xffff);
    parts.push(version_ms & 0xffff);
    parts.push((version_ls >> 16) & 0xffff);
    parts.push(version_ls & 0xffff);
    assert(parts@ =~= version_parts(version_ms, version_ls));
    while parts.len() > 2 && parts[parts.len() - 1] == 0
        invariant
            trimmed_parts(parts@) == trimmed_parts(version_parts(version_ms, version_ls)),
            parts@.len() <= 4,
        decreases parts.len(),
    {
        let ghost before = parts@;
        parts.pop();
        assert(parts@ =~= before.drop_last());
    }
    let mut v: Vec<char> = Vec::new();
    let mut i: usize = 0;
    while i < parts.len()
        invariant
            i <= parts@.len(),
            parts@ == trimmed_parts(version_parts(version_ms, version_ls)),
            v@ == dotted(parts@.subrange(0, i as int)),
        decreases parts.len() - i,
    {
        proof {
            let s = parts@.subrange(0, i + 1);
            assert(s.drop_last() =~= parts@.subrange(0, i as int));
        }
        if i > 0 {
            extend_str(&mut v, ".");
        }
        push_decimal(&mut v, parts[i] as u64);
        i = i + 1;
    }
    assert(parts@.subrange(0, parts@.len() as int) =~= parts@);
    string_of(&v)
}

/// The DLL names of DLSS and its frame generation, in any ASCII case.
pub open spec fn is_dlss_dll_name_spec(name: Seq<char>) -> bool {
    crate::text::eq_ic(name, "nvngx_dlss.dll"@) || crate::text::eq_ic(name, "nvngx_dlssg.dll"@)
        || crate::text::eq_ic(name, "nvngx_dlssd.dll"@) || crate::text::eq_ic(name, "sl.dlss.dll"@)
        || crate::text::eq_ic(name, "sl.dlss_g.dll"@)
}

pub fn is_dlss_dll_name(name: &str) -> (r: bool)
    ensures
        r == is_dlss_dll_name_spec(name@),
{
    let n = chars_of(name);
    eq_ic_str(&n, "nvngx_dlss.dll") || eq_ic_str(&n, "nvngx_dlssg.dll") || eq_ic_str(
        &n,
        "nvngx_dlssd.dll",
    ) || eq_ic_str(&n, "sl.dlss.dll") || eq_ic_str(&n, "sl.dlss_g.dll")
}

/// A file found under a game directory.
pub struct WalkedFile {
    pub depth: usize,
    pub file_name: String,
    pub path: String,
    pub is_file: bool,
}

pub open spec fn is_candidate(f: WalkedFile) -> bool {
    f.is_file && is_dlss_dll_name_spec(f.file_name@)
}

/// The index of the DLSS DLL taken: the shallowest candidate, the first of
/// equally shallow ones.
pub open spec fn best_index(files: Seq<WalkedFile>, n: int) -> Option<int>
    decreases n,
{
    if n <= 0 {
        None
    } else {
        let prev = best_index(files, n - 1);
        if is_candidate(files[n - 1]) && match prev {
            Some(b) => files[n - 1].depth < files[b].depth,
            None => true,
        } {
            Some(n - 1)
        } else {
            prev
        }
    }
}

/// The DLSS DLL of a game, among the files walked under its directory.
pub fn best_dlss_match(files: &Vec<WalkedFile>) -> (r: Option<usize>)
    ensures
        match r {
            Some(i) => best_index(files@, files@.len() as int) == Some(i as int),
            None => best_index(files@, files@.len() as int) is None,
        },
{
    let mut best: Option<usize> = None;
    let mut i: usize = 0;
    while i < files.len()
        invariant
            i <= files@.len(),
            match best {
                Some(b) => best_index(files@, i as int) == Some(b as int) && b < i,
                None => best_index(files@, i as int) is None,
            },
        decreases files.len() - i,
    {
        if files[i].is_file && is_dlss_dll_name(files[i].file_name.as_str()) {
            match best {
                Some(b) => {
                    if files[i].depth < files[b].depth {
                        best = Some(i);
                    }
                },
                None => {
                    best = Some(i);
                },
            }
        }
        i = i + 1;
    }
    best
}

/// The name of the file that keeps the DLSS DLL found for a Steam app.
pub open spec fn dlss_cache_file_name_spec(app_id: u32) -> Seq<char> {
    crate::text::decimal(app_id as nat) + ".txt"@
}

pub fn dlss_cache_file_name(app_id: u32) -> (r: String)
    ensures
        r@ == dlss_cache_file_name_spec(app_id),
{
    let mut v: Vec<char> = Vec::new();
    push_decimal(&mut v, app_id as u64);
    extend_str(&mut v, ".txt");
    string_of(&v)
}

/// The signature of a fixed file version record.
pub const FIXED_FILE_INFO_SIGNATURE: u32 = 0xfeef04bd;

} // verus!
