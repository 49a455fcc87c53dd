//! The required-file manifest and the per-version readiness check.
//!
//! A payload is ready when the five payload-scope manifest entries appear in
//! its resolved file set and the version-dependent loader files exist
//! directly in the game directory: `skse64_<label with '.' -> '_'>.dll`
//! always, and `skse64_steam_loader.dll` for the one legacy label that still
//! needs it. Every entry is evaluated independently; the report records all
//! results and never short-circuits.
use vstd::prelude::*;
use vstd::string::*;

use crate::fsmodel::{contains_path, RelPath};
use crate::text::push_char;

verus! {

/// Where a required entry must be found: directly in the live game
/// directory, or in the payload's resolved file set.
#[derive(Clone, Copy, Debug, PartialEq, Eq, Structural)]
pub enum Scope {
    GameDir,
    Payload,
}

/// The result of one required-entry test.
pub struct EntryCheck {
    pub scope: Scope,
    pub path: RelPath,
    pub found: bool,
}

/// A per-version readiness report: one entry per required file, plus the
/// overall verdict, which holds exactly when every entry was found.
pub struct VersionReport {
    pub label: String,
    pub checks: Vec<EntryCheck>,
    pub ready: bool,
}

/// The label with every `.` replaced by `_`.
pub open spec fn spec_underscored(label: Seq<char>) -> Seq<char> {
    label.map_values(|c: char| if c == '.' { '_' } else { c })
}

/// The loader DLL name a version requires in the game directory.
pub open spec fn spec_skse_dll(label: Seq<char>) -> Seq<char> {
    "skse64_"@ + spec_underscored(label) + ".dll"@
}

/// The one version label that additionally requires the steam loader DLL.
pub open spec fn legacy_label() -> Seq<char> {
    "1.5.97"@
}

/// The five payload-scope manifest entries, required of every version.
pub open spec fn spec_manifest() -> Seq<Seq<Seq<char>>> {
    seq![
        seq!["SkyrimSE.exe"@],
        seq!["skse64_loader.exe"@],
        seq!["steam_api64.dll"@],
        seq!["data"@, "ccBGSSSE001-Fish.esm"@],
        seq!["data"@, "_ResourcePack.esl"@],
    ]
}

/// The game-directory-scope file names a version requires.
pub open spec fn spec_gamedir_required(label: Seq<char>) -> Seq<Seq<char>> {
    if label == legacy_label() {
        seq![spec_skse_dll(label), "skse64_steam_loader.dll"@]
    } else {
        seq![spec_skse_dll(label)]
    }
}

/// What the report must say of game-directory-scope entry `j`: found exactly
/// when that file name exists among the game directory's files.
pub open spec fn gamedir_check_ok(
    c: EntryCheck,
    label: Seq<char>,
    j: int,
    names: Seq<Seq<char>>,
) -> bool {
    &&& c.scope == Scope::GameDir
    &&& c.path@ == seq![spec_gamedir_required(label)[j]]
    &&& c.found == names.contains(spec_gamedir_required(label)[j])
}

/// What the report must say of payload-scope entry `j`: found exactly when
/// that relative path is a member of the resolved file set.
pub open spec fn payload_check_ok(c: EntryCheck, j: int, resolved: Seq<Seq<Seq<char>>>) -> bool {
    &&& c.scope == Scope::Payload
    &&& c.path@ == spec_manifest()[j]
    &&& c.found == resolved.contains(spec_manifest()[j])
}

/// Builds the loader DLL name for a label: `skse64_`, the label with every
/// `.` replaced by `_`, then `.dll`.
pub fn skse_dll_name(label: &str) -> (r: String)
    ensures
        r@ == spec_skse_dll(label@),
{
    let mut s = String::from_str("skse64_");
    let n: usize = label.unicode_len();
    let mut i: usize = 0;
    while i < n
        invariant
            i <= n,
            n == label@.len(),
            s@ == "skse64_"@ + spec_underscored(label@.take(i as int)),
        decreases n - i,
    {
        let c = label.get_char(i);
        if c == '.' {
            push_char(&mut s, '_');
        } else {
            push_char(&mut s, c);
        }
        proof {
            let u = spec_underscored(label@.take(i as int));
            let c2 = if label@[i as int] == '.' {
                '_'
            } else {
                label@[i as int]
            };
            assert(spec_underscored(label@.take(i + 1)) =~= u.push(c2));
            assert(s@ =~= "skse64_"@ + spec_underscored(label@.take(i + 1)));
        }
        i += 1;
    }
    proof {
        assert(label@.take(n as int) =~= label@);
    }
    let r = s.concat(".dll");
    proof {
        assert(r@ =~= spec_skse_dll(label@));
    }
    r
}

/// Membership of a file name in a list of names.
pub fn contains_name(names: &Vec<String>, target: &String) -> (r: bool)
    ensures
        r == names.deep_view().contains(target@),
{
    let n: usize = names.len();
    let mut i: usize = 0;
    while i < n
        invariant
            i <= n,
            n == names.len(),
            forall|k: int| 0 <= k < i ==> names.deep_view()[k] != target@,
        decreases n - i,
    {
        if names[i].eq(target) {
            assert(names.deep_view()[i as int] == target@);
            return true;
        }
        assert(names.deep_view()[i as int] != target@);
        i += 1;
    }
    assert(forall|k: int| 0 <= k < names.deep_view().len() ==> names.deep_view()[k] != target@);
    false
}

/// The five payload-scope manifest entries as relative paths.
pub fn manifest_entries() -> (r: Vec<RelPath>)
    ensures
        r.deep_view() == spec_manifest(),
{
    let mut v: Vec<RelPath> = Vec::new();
    v.push(RelPath::single(&String::from_str("SkyrimSE.exe")));
    v.push(RelPath::single(&String::from_str("skse64_loader.exe")));
    v.push(RelPath::single(&String::from_str("steam_api64.dll")));
    let data = String::from_str("data");
    v.push(RelPath::prefixed(&data, &RelPath::single(&String::from_str("ccBGSSSE001-Fish.esm"))));
    v.push(RelPath::prefixed(&data, &RelPath::single(&String::from_str("_ResourcePack.esl"))));
    proof {
        assert(v.deep_view() =~~= spec_manifest());
    }
    v
}

/// Checks one version for readiness.
///
/// `resolved` is the payload's resolved file set; `gamedir_files` lists the
/// names of the files present directly in the live game directory. The
/// report holds one entry per required file — game-directory-scope entries
/// first — each marked found or missing independently, and is ready exactly
/// when nothing is missing.
pub fn check_version(label: &String, resolved: &Vec<RelPath>, gamedir_files: &Vec<String>) -> (r:
    VersionReport)
    ensures
        r.label@ == label@,
        r.checks@.len() == spec_gamedir_required(label@).len() + spec_manifest().len(),
        forall|j: int|
            0 <= j < spec_gamedir_required(label@).len() ==> gamedir_check_ok(
                #[trigger] r.checks@[j],
                label@,
                j,
                gamedir_files.deep_view(),
            ),
        forall|j: int|
            spec_gamedir_required(label@).len() <= j < r.checks@.len() ==> payload_check_ok(
                #[trigger] r.checks@[j],
                j - spec_gamedir_required(label@).len(),
                resolved.deep_view(),
            ),
        r.ready == (forall|j: int| 0 <= j < r.checks@.len() ==> (#[trigger] r.checks@[j]).found),
{
    let ghost gd = spec_gamedir_required(label@);
    let mut checks: Vec<EntryCheck> = Vec::new();

    let dll = skse_dll_name(label.as_str());
    let dll_found = contains_name(gamedir_files, &dll);
    checks.push(EntryCheck { scope: Scope::GameDir, path: RelPath::single(&dll), found: dll_found });

    let legacy = String::from_str("1.5.97");
    if label.eq(&legacy) {
        let loader = String::from_str("skse64_steam_loader.dll");
        let loader_found = contains_name(gamedir_files, &loader);
        checks.push(
            EntryCheck { scope: Scope::GameDir, path: RelPath::single(&loader), found: loader_found },
        );
    }
    let gl: usize = checks.len();
    proof {
        assert(gl == gd.len());
        assert(forall|j: int| 0 <= j < gl ==> gamedir_check_ok(
            #[trigger] checks@[j],
            label@,
            j,
            gamedir_files.deep_view(),
        ));
    }

    let manifest = manifest_entries();
    let mn: usize = manifest.len();
    let mut k: usize = 0;
    while k < mn
        invariant
            k <= mn,
            mn == manifest.len(),
            manifest.deep_view() == spec_manifest(),
            gd == spec_gamedir_required(label@),
            gl == gd.len(),
            checks@.len() == gl + k,
            forall|j: int|
                0 <= j < gl ==> gamedir_check_ok(
                    #[trigger] checks@[j],
                    label@,
                    j,
                    gamedir_files.deep_view(),
                ),
            forall|j: int|
                gl <= j < checks@.len() ==> payload_check_ok(
                    #[trigger] checks@[j],
                    j - gl,
                    resolved.deep_view(),
                ),
        decreases mn - k,
    {
        let entry_found = contains_path(resolved, &manifest[k]);
        proof {
            assert(manifest.deep_view()[k as int] == manifest@[k as int]@);
        }
        checks.push(
            EntryCheck { scope: Scope::Payload, path: manifest[k].duplicate(), found: entry_found },
        );
        k += 1;
    }

    let cn: usize = checks.len();
    let mut ready = true;
    let mut t: usize = 0;
    while t < cn
        invariant
            t <= cn,
            cn == checks@.len(),
            ready == (forall|j: int| 0 <= j < t ==> (#[trigger] checks@[j]).found),
        decreases cn - t,
    {
        let c = &checks[t];
        if !c.found {
            ready = false;
        }
        proof {
            if ready {
                assert forall|j: int| 0 <= j < t + 1 implies (#[trigger] checks@[j]).found by {}
            }
        }
        t += 1;
    }

    VersionReport { label: label.clone(), checks, ready }
}

} // verus!
