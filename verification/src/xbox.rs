//! Xbox (Microsoft Store) games: reading the `.GamingRoot` file of a
//! drive, the identity of a game config, and the applications and display
//! name of a package manifest.
use vstd::prelude::*;

use crate::text::{
    chars_of, contains, contains_str, eq_ic, eq_ic_str, slice_chars, string_of, trim, trim_chars,
};

verus! {

/// The text of the first capture group of the first match of `pattern` in
/// `text`, where the pattern compiles and matches.
pub uninterp spec fn regex_first_capture(pattern: Seq<char>, text: Seq<char>) -> Option<Seq<char>>;

/// The texts of the successive non-overlapping matches of `pattern` in
/// `text`.
pub uninterp spec fn regex_match_texts(pattern: Seq<char>, text: Seq<char>) -> Seq<Seq<char>>;

/// `regex::Regex::new(pattern)`, then `captures(text)` and group 1 as a
/// string; `None` where the pattern does not compile, nothing matches or
/// group 1 takes no part in the first match. The contract names the result.
#[verifier::external_body]
pub(crate) fn first_capture(pattern: &str, text: &str) -> (r: Option<String>)
    ensures
        match r {
            Some(s) => regex_first_capture(pattern@, text@) == Some(s@),
            None => regex_first_capture(pattern@, text@) is None,
        },
{
    let re = regex::Regex::new(pattern).ok()?;
    re.captures(text).and_then(|c| c.get(1)).map(|m| m.as_str().to_owned())
}

pub open spec fn string_views(s: Seq<String>) -> Seq<Seq<char>> {
    s.map_values(|x: String| x@)
}

/// `regex::Regex::new(pattern)`, then `find_iter(text)`, each match as a
/// string; empty where the pattern does not compile. The contract names
/// the result.
#[verifier::external_body]
fn match_texts(pattern: &str, text: &str) -> (r: Vec<String>)
    ensures
        string_views(r@) == regex_match_texts(pattern@, text@),
{
    match regex::Regex::new(pattern) {
        Ok(re) => re.find_iter(text).map(|m| m.as_str().to_owned()).collect(),
        Err(_) => Vec::new(),
    }
}

pub open spec fn config_version_pattern() -> Seq<char> {
    "<Game\\b[^>]*\\bconfigVersion=\"([^\"]+)\""@
}

pub open spec fn identity_name_pattern() -> Seq<char> {
    "<Identity\\b[^>]*\\bName=\"([^\"]+)\""@
}

pub open spec fn application_tag_pattern() -> Seq<char> {
    "<Application\\b[^>]*>"@
}

pub open spec fn application_id_pattern() -> Seq<char> {
    "\\bId=\"([^\"]+)\""@
}

pub open spec fn application_executable_pattern() -> Seq<char> {
    "\\bExecutable=\"([^\"]+)\""@
}

pub open spec fn display_name_element_pattern() -> Seq<char> {
    "<DisplayName>([^<]+)</DisplayName>"@
}

pub open spec fn display_name_attribute_pattern() -> Seq<char> {
    "\\bDisplayName=\"([^\"]+)\""@
}

/// An optional text by its view.
pub open spec fn opt_view(o: Option<String>) -> Option<Seq<char>> {
    match o {
        Some(x) => Some(x@),
        None => None,
    }
}

/// A capture, trimmed, when not blank.
pub open spec fn trimmed_capture(c: Option<Seq<char>>) -> Option<Seq<char>> {
    match c {
        Some(s) => if trim(s).len() > 0 {
            Some(trim(s))
        } else {
            None
        },
        None => None,
    }
}

fn trimmed(c: Option<String>) -> (r: Option<String>)
    ensures
        match r {
            Some(s) => trimmed_capture(match c {
                Some(x) => Some(x@),
                None => None,
            }) == Some(s@),
            None => trimmed_capture(match c {
                Some(x) => Some(x@),
                None => None,
            }) is None,
        },
{
    match c {
        Some(s) => {
            let t = trim_chars(&chars_of(s.as_str()));
            if t.len() > 0 {
                Some(string_of(&t))
            } else {
                None
            }
        },
        None => None,
    }
}

/// Whether a manifest shows Xbox services: it names
/// `Microsoft.Xbox.Services` or an `ms-xbl-` protocol.
pub open spec fn has_xbox_game_hint(contents: Seq<char>) -> bool {
    contains(contents, "Microsoft.Xbox.Services"@) || contains(contents, "ms-xbl-"@)
}

pub fn manifest_has_xbox_game_hint(manifest_contents: &str) -> (r: bool)
    ensures
        r == has_xbox_game_hint(manifest_contents@),
{
    let c = chars_of(manifest_contents);
    contains_str(&c, "Microsoft.Xbox.Services") || contains_str(&c, "ms-xbl-")
}

/// A display name that refers to a string resource (`ms-resource:`, in any
/// ASCII case) instead of naming the game.
pub open spec fn is_resource_reference(value: Seq<char>) -> bool {
    value.len() >= 12 && eq_ic(value.subrange(0, 12), "ms-resource:"@)
}

pub fn is_manifest_resource_reference(value: &str) -> (r: bool)
    ensures
        r == is_resource_reference(value@),
{
    proof {
        reveal_strlit("ms-resource:");
    }
    let v = chars_of(value);
    if v.len() < 12 {
        return false;
    }
    let prefix = slice_chars(&v, 0, 12);
    eq_ic_str(&prefix, "ms-resource:")
}

/// The display name given by the captures of the `<DisplayName>` element
/// and of the `DisplayName` attribute: the element's, else the
/// attribute's, trimmed and not blank.
pub open spec fn display_name_of_captures(element: Option<Seq<char>>, attribute: Option<Seq<char>>) -> Option<Seq<char>> {
    match trimmed_capture(element) {
        Some(n) => Some(n),
        None => trimmed_capture(attribute),
    }
}

/// The display name of a manifest: the `<DisplayName>` element, else the
/// `DisplayName` attribute, trimmed and not blank.
pub open spec fn manifest_display_name(contents: Seq<char>) -> Option<Seq<char>> {
    display_name_of_captures(
        regex_first_capture(display_name_element_pattern(), contents),
        regex_first_capture(display_name_attribute_pattern(), contents),
    )
}

pub fn display_name_from_captures(element: Option<String>, attribute: Option<String>) -> (r: Option<String>)
    ensures
        opt_view(r) == display_name_of_captures(opt_view(element), opt_view(attribute)),
{
    match trimmed(element) {
        Some(n) => Some(n),
        None => trimmed(attribute),
    }
}

pub fn capture_manifest_display_name(manifest_contents: &str) -> (r: Option<String>)
    ensures
        opt_view(r) == manifest_display_name(manifest_contents@),
{
    let element = first_capture("<DisplayName>([^<]+)</DisplayName>", manifest_contents);
    let attribute = first_capture("\\bDisplayName=\"([^\"]+)\"", manifest_contents);
    display_name_from_captures(element, attribute)
}

/// The package name given by the captures of a game config's version and
/// `<Identity>` name: the name, trimmed and not blank, for version 0 or 1.
pub open spec fn identity_of_captures(version: Option<Seq<char>>, identity: Option<Seq<char>>) -> Option<Seq<char>> {
    match version {
        Some(v) => if v == "0"@ || v == "1"@ {
            trimmed_capture(identity)
        } else {
            None
        },
        None => None,
    }
}

/// The package name of a game config of version 0 or 1: its `<Identity>`
/// name, trimmed and not blank.
pub open spec fn config_identity_name(contents: Seq<char>) -> Option<Seq<char>> {
    identity_of_captures(
        regex_first_capture(config_version_pattern(), contents),
        regex_first_capture(identity_name_pattern(), contents),
    )
}

pub fn identity_name_from_captures(version: Option<String>, identity: Option<String>) -> (r: Option<String>)
    ensures
        opt_view(r) == identity_of_captures(opt_view(version), opt_view(identity)),
{
    let version = match version {
        Some(v) => v,
        None => {
            return None;
        },
    };
    let vv = chars_of(version.as_str());
    if !crate::text::eq_str(&vv, "0") && !crate::text::eq_str(&vv, "1") {
        return None;
    }
    trimmed(identity)
}

pub fn load_config_identity_name(contents: &str) -> (r: Option<String>)
    ensures
        opt_view(r) == config_identity_name(contents@),
{
    let version = first_capture("<Game\\b[^>]*\\bconfigVersion=\"([^\"]+)\"", contents);
    let identity = first_capture("<Identity\\b[^>]*\\bName=\"([^\"]+)\"", contents);
    identity_name_from_captures(version, identity)
}

/// The directory named by a drive's `.GamingRoot` file: the file starts
/// with `RGBX`, and from its sixth byte on holds the path below the drive
/// root, one byte per character, with zero bytes left out.
pub open spec fn gamingroot_suffix(bytes: Seq<u8>) -> Option<Seq<char>> {
    if bytes.len() <= 5 || bytes.subrange(0, 4) != seq![0x52u8, 0x47u8, 0x42u8, 0x58u8] {
        None
    } else {
        Some(nonzero_chars(bytes.subrange(5, bytes.len() as int)))
    }
}

/// The nonzero bytes, each as the character of that code.
pub open spec fn nonzero_chars(bytes: Seq<u8>) -> Seq<char>
    decreases bytes.len(),
{
    if bytes.len() == 0 {
        Seq::empty()
    } else {
        let prev = nonzero_chars(bytes.drop_last());
        if bytes.last() != 0 {
            prev.push(bytes.last() as char)
        } else {
            prev
        }
    }
}

/// The target directory of a `.GamingRoot` file on the drive `drive_root`.
pub fn gamingroot_target_dir(drive_root: &str, bytes: &[u8]) -> (r: Option<String>)
    ensures
        match r {
            Some(s) => gamingroot_suffix(bytes@) matches Some(suffix) && s@ == drive_root@ + suffix,
            None => gamingroot_suffix(bytes@) is None,
        },
{
    if bytes.len() <= 5 || bytes[0] != 0x52 || bytes[1] != 0x47 || bytes[2] != 0x42 || bytes[3]
        != 0x58 {
        proof {
            if bytes@.len() > 5 {
                assert(bytes@.subrange(0, 4)[0] == bytes@[0]);
                assert(bytes@.subrange(0, 4)[1] == bytes@[1]);
                assert(bytes@.subrange(0, 4)[2] == bytes@[2]);
                assert(bytes@.subrange(0, 4)[3] == bytes@[3]);
            }
        }
        return None;
    }
    assert(bytes@.subrange(0, 4) =~= seq![0x52u8, 0x47u8, 0x42u8, 0x58u8]);
    let mut v = chars_of(drive_root);
    let ghost root = v@;
    let mut i: usize = 5;
    assert(bytes@.subrange(5, 5) =~= Seq::<u8>::empty());
    while i < bytes.len()
        invariant
            5 <= i <= bytes@.len(),
            v@ == root + nonzero_chars(bytes@.subrange(5, i as int)),
        decreases bytes.len() - i,
    {
        let b = bytes[i];
        proof {
            assert(bytes@.subrange(5, i + 1).drop_last() =~= bytes@.subrange(5, i as int));
        }
        if b != 0 {
            v.push(b as char);
        }
        i = i + 1;
        assert(v@ =~= root + nonzero_chars(bytes@.subrange(5, i as int)));
    }
    Some(string_of(&v))
}

/// An application of a package manifest.
pub struct AppManifestApplication {
    pub display_name: String,
    pub id: String,
    pub executable: Option<String>,
}

/// The id and executable given by the captures of an `<Application>`
/// tag's `Id` and `Executable`, when it has an id; both trimmed.
pub open spec fn application_of_captures(id: Option<Seq<char>>, executable: Option<Seq<char>>) -> Option<(Seq<char>, Option<Seq<char>>)> {
    match id {
        Some(i) => Some(
            (
                trim(i),
                match executable {
                    Some(e) => Some(trim(e)),
                    None => None,
                },
            ),
        ),
        None => None,
    }
}

/// The id and executable of an `<Application>` tag, when it has an id.
pub open spec fn application_of_tag(tag: Seq<char>) -> Option<(Seq<char>, Option<Seq<char>>)> {
    application_of_captures(
        regex_first_capture(application_id_pattern(), tag),
        regex_first_capture(application_executable_pattern(), tag),
    )
}

pub open spec fn app_view(a: Option<(String, Option<String>)>) -> Option<(Seq<char>, Option<Seq<char>>)> {
    match a {
        Some((i, e)) => Some((i@, opt_view(e))),
        None => None,
    }
}

pub fn application_from_captures(id: Option<String>, executable: Option<String>) -> (r: Option<(String, Option<String>)>)
    ensures
        app_view(r) == application_of_captures(opt_view(id), opt_view(executable)),
{
    match id {
        Some(i) => {
            let id_trimmed = string_of(&trim_chars(&chars_of(i.as_str())));
            let exe = match executable {
                Some(e) => Some(string_of(&trim_chars(&chars_of(e.as_str())))),
                None => None,
            };
            Some((id_trimmed, exe))
        },
        None => None,
    }
}

/// The first tag, in order, that names an application.
pub open spec fn first_application(tags: Seq<Seq<char>>) -> Option<(Seq<char>, Option<Seq<char>>)>
    decreases tags.len(),
{
    if tags.len() == 0 {
        None
    } else {
        match application_of_tag(tags[0]) {
            Some(a) => Some(a),
            None => first_application(tags.drop_first()),
        }
    }
}

/// The application named by a manifest's display name and its first
/// application: none where the display name is a resource reference; the
/// display name, else `fallback_name`, names it.
pub open spec fn application_entry_spec(
    display_name: Option<Seq<char>>,
    application: Option<(Seq<char>, Option<Seq<char>>)>,
    fallback_name: Seq<char>,
) -> Option<(Seq<char>, Seq<char>, Option<Seq<char>>)> {
    match display_name {
        Some(n) if is_resource_reference(n) => None,
        name => match application {
            Some((id, exe)) => Some(
                (
                    match name {
                        Some(n) => n,
                        None => fallback_name,
                    },
                    id,
                    exe,
                ),
            ),
            None => None,
        },
    }
}

pub open spec fn entry_view(r: Option<AppManifestApplication>) -> Option<(Seq<char>, Seq<char>, Option<Seq<char>>)> {
    match r {
        Some(app) => Some((app.display_name@, app.id@, opt_view(app.executable))),
        None => None,
    }
}

pub fn application_entry(
    display_name: Option<String>,
    application: Option<(String, Option<String>)>,
    fallback_name: &str,
) -> (r: Option<AppManifestApplication>)
    ensures
        entry_view(r) == application_entry_spec(opt_view(display_name), app_view(application), fallback_name@),
{
    match &display_name {
        Some(n) => {
            if is_manifest_resource_reference(n.as_str()) {
                return None;
            }
        },
        None => {},
    }
    match application {
        Some((id, executable)) => {
            let name = match display_name {
                Some(n) => n,
                None => string_of(&chars_of(fallback_name)),
            };
            Some(AppManifestApplication { display_name: name, id, executable })
        },
        None => None,
    }
}

/// The first `<Application>` tag of a manifest that has an id.
pub fn first_manifest_application(manifest_contents: &str) -> (r: Option<(String, Option<String>)>)
    ensures
        app_view(r) == first_application(
            regex_match_texts(application_tag_pattern(), manifest_contents@),
        ),
{
    let tags = match_texts("<Application\\b[^>]*>", manifest_contents);
    let ghost tag_views = string_views(tags@);
    let mut i: usize = 0;
    proof {
        assert(tag_views.subrange(0, tag_views.len() as int) =~= tag_views);
    }
    while i < tags.len()
        invariant
            i <= tags@.len(),
            tag_views == string_views(tags@),
            tag_views == regex_match_texts(application_tag_pattern(), manifest_contents@),
            first_application(tag_views) == first_application(
                tag_views.subrange(i as int, tag_views.len() as int),
            ),
        decreases tags.len() - i,
    {
        proof {
            let rest = tag_views.subrange(i as int, tag_views.len() as int);
            assert(rest[0] == tags@[i as int]@);
            assert(rest.drop_first() =~= tag_views.subrange(i + 1, tag_views.len() as int));
        }
        let id = first_capture("\\bId=\"([^\"]+)\"", tags[i].as_str());
        let executable = first_capture("\\bExecutable=\"([^\"]+)\"", tags[i].as_str());
        let found = application_from_captures(id, executable);
        if found.is_some() {
            return found;
        }
        i = i + 1;
    }
    proof {
        assert(tag_views.subrange(i as int, tag_views.len() as int) =~= Seq::<Seq<char>>::empty());
    }
    None
}

/// The application of a package manifest: the first `<Application>` tag
/// with an id, named by the manifest's display name, else by the install
/// directory's name (`fallback_name`); none where the display name is a
/// resource reference.
pub fn load_application_entry(manifest_contents: &str, fallback_name: &str) -> (r: Option<
    AppManifestApplication,
>)
    ensures
        entry_view(r) == application_entry_spec(
            manifest_display_name(manifest_contents@),
            first_application(regex_match_texts(application_tag_pattern(), manifest_contents@)),
            fallback_name@,
        ),
{
    let display_name = capture_manifest_display_name(manifest_contents);
    let application = first_manifest_application(manifest_contents);
    application_entry(display_name, application, fallback_name)
}

/// An installed app package, as the system lists it.
pub struct AppxPackage {
    pub name: String,
    pub family_name: String,
    pub install_location: String,
    pub is_framework: bool,
    pub is_resource_package: bool,
}

/// Xbox games are looked for only where the Xbox app is installed.
pub open spec fn has_gaming_app_spec(packages: Seq<AppxPackage>) -> bool {
    exists|i: int| 0 <= i < packages.len() && (#[trigger] packages[i]).name@ == "Microsoft.GamingApp"@
}

pub fn has_gaming_app(packages: &Vec<AppxPackage>) -> (r: bool)
    ensures
        r == has_gaming_app_spec(packages@),
{
    let mut i: usize = 0;
    while i < packages.len()
        invariant
            i <= packages@.len(),
            forall|j: int| 0 <= j < i ==> (#[trigger] packages@[j]).name@ != "Microsoft.GamingApp"@,
        decreases packages.len() - i,
    {
        if crate::text::eq_str(&chars_of(packages[i].name.as_str()), "Microsoft.GamingApp") {
            return true;
        }
        i = i + 1;
    }
    false
}

/// A package that may hold a game: no framework or resource package.
pub open spec fn is_app_package(p: AppxPackage) -> bool {
    !p.is_framework && !p.is_resource_package
}

/// Package `i` is looked at: an app package, the first app package of its
/// family.
pub open spec fn is_candidate_package(packages: Seq<AppxPackage>, i: int) -> bool {
    &&& 0 <= i < packages.len()
    &&& is_app_package(packages[i])
    &&& forall|j: int|
        0 <= j < i && is_app_package(#[trigger] packages[j]) ==> packages[j].family_name@
            != packages[i].family_name@
}

/// The packages that are looked at for games, in order.
pub fn candidate_packages(packages: &Vec<AppxPackage>) -> (r: Vec<usize>)
    ensures
        forall|k: int| 0 <= k < r@.len() ==> is_candidate_package(packages@, #[trigger] r@[k] as int),
        forall|k1: int, k2: int| 0 <= k1 < k2 < r@.len() ==> r@[k1] < r@[k2],
        forall|i: int| is_candidate_package(packages@, i) ==> r@.contains(i as usize),
{
    let mut out: Vec<usize> = Vec::new();
    let mut families: Vec<String> = Vec::new();
    let mut i: usize = 0;
    while i < packages.len()
        invariant
            i <= packages@.len(),
            forall|k: int| 0 <= k < out@.len() ==> is_candidate_package(packages@, #[trigger] out@[k] as int),
            forall|k: int| 0 <= k < out@.len() ==> #[trigger] out@[k] < i,
            forall|k1: int, k2: int| 0 <= k1 < k2 < out@.len() ==> out@[k1] < out@[k2],
            forall|q: int| 0 <= q < i && is_candidate_package(packages@, q) ==> out@.contains(q as usize),
            forall|f: Seq<char>| string_views(families@).contains(f) <==> exists|j: int|
                0 <= j < i && is_app_package(#[trigger] packages@[j]) && packages@[j].family_name@ == f,
        decreases packages.len() - i,
    {
        let p = &packages[i];
        if !p.is_framework && !p.is_resource_package {
            let fam = chars_of(p.family_name.as_str());
            let mut seen = false;
            let mut j: usize = 0;
            while j < families.len()
                invariant
                    j <= families@.len(),
                    fam@ == packages@[i as int].family_name@,
                    !seen ==> forall|q: int| 0 <= q < j ==> families@[q]@ != fam@,
                    seen ==> string_views(families@).contains(fam@),
                decreases families.len() - j,
            {
                if crate::text::eq_chars(&chars_of(families[j].as_str()), &fam) {
                    assert(string_views(families@)[j as int] == fam@);
                    seen = true;
                }
                j = j + 1;
            }
            proof {
                if !seen {
                    assert(!string_views(families@).contains(fam@)) by {
                        if string_views(families@).contains(fam@) {
                            let q = choose|q: int| 0 <= q < families@.len() && string_views(families@)[q] == fam@;
                            assert(families@[q]@ == fam@);
                        }
                    }
                }
            }
            if !seen {
                proof {
                    assert(is_candidate_package(packages@, i as int)) by {
                        assert forall|j2: int| 0 <= j2 < i && is_app_package(#[trigger] packages@[j2])
                            implies packages@[j2].family_name@ != packages@[i as int].family_name@ by {
                            if packages@[j2].family_name@ == packages@[i as int].family_name@ {
                                assert(string_views(families@).contains(fam@));
                            }
                        }
                    }
                }
                let ghost fb = string_views(families@);
                families.push(p.family_name.clone());
                assert(string_views(families@) =~= fb.push(fam@));
                let ghost ob = out@;
                out.push(i);
                proof {
                    assert forall|q: int| 0 <= q < i + 1 && is_candidate_package(packages@, q) implies out@.contains(q as usize) by {
                        if q < i {
                            assert(ob.contains(q as usize));
                            let k = choose|k: int| 0 <= k < ob.len() && ob[k] == q as usize;
                            assert(out@[k] == q as usize);
                        } else {
                            assert(out@[ob.len() as int] == i);
                        }
                    }
                    assert forall|f: Seq<char>| string_views(families@).contains(f) <==> exists|j2: int|
                        0 <= j2 < i + 1 && is_app_package(#[trigger] packages@[j2]) && packages@[j2].family_name@ == f by {
                        if string_views(families@).contains(f) {
                            let q = choose|q: int| 0 <= q < families@.len() && string_views(families@)[q] == f;
                            if q < fb.len() {
                                assert(fb[q] == f);
                                assert(fb.contains(f));
                            } else {
                                assert(packages@[i as int].family_name@ == f);
                            }
                        }
                        if exists|j2: int| 0 <= j2 < i + 1 && is_app_package(#[trigger] packages@[j2]) && packages@[j2].family_name@ == f {
                            let j2 = choose|j2: int| 0 <= j2 < i + 1 && is_app_package(#[trigger] packages@[j2]) && packages@[j2].family_name@ == f;
                            if j2 < i {
                                assert(fb.contains(f));
                                let q = choose|q: int| 0 <= q < fb.len() && fb[q] == f;
                                assert(string_views(families@)[q] == f);
                            } else {
                                assert(string_views(families@)[fb.len() as int] == f);
                            }
                        }
                    }
                }
            } else {
                proof {
                    assert(!is_candidate_package(packages@, i as int)) by {
                        let j2 = choose|j2: int| 0 <= j2 < i && is_app_package(#[trigger] packages@[j2])
                            && packages@[j2].family_name@ == fam@;
                    }
                    assert forall|f: Seq<char>| string_views(families@).contains(f) <==> exists|j2: int|
                        0 <= j2 < i + 1 && is_app_package(#[trigger] packages@[j2]) && packages@[j2].family_name@ == f by {
                        if exists|j2: int| 0 <= j2 < i + 1 && is_app_package(#[trigger] packages@[j2]) && packages@[j2].family_name@ == f {
                            let j2 = choose|j2: int| 0 <= j2 < i + 1 && is_app_package(#[trigger] packages@[j2]) && packages@[j2].family_name@ == f;
                            if j2 == i {
                                assert(string_views(families@).contains(fam@));
                            }
                        }
                    }
                }
            }
        } else {
            proof {
                assert(!is_candidate_package(packages@, i as int));
                assert forall|f: Seq<char>| string_views(families@).contains(f) <==> exists|j2: int|
                    0 <= j2 < i + 1 && is_app_package(#[trigger] packages@[j2]) && packages@[j2].family_name@ == f by {
                    if exists|j2: int| 0 <= j2 < i + 1 && is_app_package(#[trigger] packages@[j2]) && packages@[j2].family_name@ == f {
                        let j2 = choose|j2: int| 0 <= j2 < i + 1 && is_app_package(#[trigger] packages@[j2]) && packages@[j2].family_name@ == f;
                        assert(j2 < i);
                    }
                }
            }
        }
        i = i + 1;
    }
    out
}

/// A package is taken as a game when the drive's game folder lists it or
/// its manifest shows Xbox services.
pub fn is_xbox_game_package(has_gamingroot_entry: bool, manifest_contents: &str) -> (r: bool)
    ensures
        r == (has_gamingroot_entry || has_xbox_game_hint(manifest_contents@)),
{
    has_gamingroot_entry || manifest_has_xbox_game_hint(manifest_contents)
}

} // verus!
