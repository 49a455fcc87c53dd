//! Naming rules of the version repository: payload directories live under a
//! `Versions` directory and are named `skyrim-` followed by the version
//! label; the label is recovered by stripping that prefix.
use vstd::prelude::*;
use vstd::string::*;

use crate::text::{spec_starts_with, str_starts_with};

verus! {

/// The version label encoded in a payload directory name, when the name
/// carries the required prefix.
pub open spec fn spec_version_label(name: Seq<char>) -> Option<Seq<char>> {
    if spec_starts_with(name, "skyrim-"@) {
        Some(name.skip("skyrim-"@.len() as int))
    } else {
        None
    }
}

/// Extracts the version label from a payload directory name: the name with
/// the `skyrim-` prefix removed, or nothing for a name without the prefix.
pub fn version_label(name: &str) -> (r: Option<String>)
    ensures
        match r {
            Some(l) => spec_version_label(name@) == Some(l@),
            None => spec_version_label(name@) is None,
        },
{
    if str_starts_with(name, "skyrim-") {
        proof {
            reveal_strlit("skyrim-");
        }
        let n: usize = name.unicode_len();
        let tail = name.substring_char(7, n);
        proof {
            assert(tail@ =~= name@.skip(7));
        }
        Some(tail.to_owned())
    } else {
        None
    }
}

/// One discovered payload: its directory name and the version label the
/// name encodes.
pub struct VersionEntry {
    pub dir_name: String,
    pub label: String,
}

impl View for VersionEntry {
    type V = (Seq<char>, Seq<char>);

    open spec fn view(&self) -> (Seq<char>, Seq<char>) {
        (self.dir_name@, self.label@)
    }
}

impl DeepView for VersionEntry {
    type V = (Seq<char>, Seq<char>);

    open spec fn deep_view(&self) -> (Seq<char>, Seq<char>) {
        self.view()
    }
}

/// The versions among a list of candidate directory names: the names that
/// carry the payload prefix, in order, each paired with its label.
pub open spec fn spec_discover(names: Seq<Seq<char>>) -> Seq<(Seq<char>, Seq<char>)>
    decreases names.len(),
{
    if names.len() == 0 {
        Seq::empty()
    } else {
        let rest = spec_discover(names.drop_first());
        match spec_version_label(names[0]) {
            Some(l) => seq![(names[0], l)] + rest,
            None => rest,
        }
    }
}

/// Discovers the available versions among a directory listing: every name
/// with the payload prefix becomes an entry with its label; other names are
/// silently skipped.
pub fn discover(names: &Vec<String>) -> (r: Vec<VersionEntry>)
    ensures
        r.deep_view() == spec_discover(names.deep_view()),
{
    let n: usize = names.len();
    let mut out: Vec<VersionEntry> = Vec::new();
    let mut i: usize = 0;
    proof {
        assert(out.deep_view() =~= Seq::<(Seq<char>, Seq<char>)>::empty());
        assert(names.deep_view().skip(0) =~= names.deep_view());
        assert(Seq::<(Seq<char>, Seq<char>)>::empty() + spec_discover(names.deep_view())
            =~= spec_discover(names.deep_view()));
    }
    while i < n
        invariant
            i <= n,
            n == names.len(),
            spec_discover(names.deep_view()) == out.deep_view() + spec_discover(
                names.deep_view().skip(i as int),
            ),
        decreases n - i,
    {
        proof {
            let nv = names.deep_view();
            assert(nv.len() == n);
            assert(nv.skip(i as int)[0] == nv[i as int]);
            assert(nv.skip(i as int).drop_first() =~= nv.skip(i + 1));
            assert(nv[i as int] == names@[i as int]@);
        }
        let ghost prev = out.deep_view();
        match version_label(names[i].as_str()) {
            Some(label) => {
                let entry = VersionEntry { dir_name: names[i].clone(), label };
                let ghost out0 = out;
                let ghost ev = entry@;
                out.push(entry);
                proof {
                    let nv = names.deep_view();
                    assert(ev == (nv[i as int], ev.1));
                    assert(spec_version_label(nv[i as int]) == Some(ev.1));
                    assert(spec_discover(nv.skip(i as int)) == seq![ev] + spec_discover(
                        nv.skip(i + 1),
                    ));
                    assert(out.deep_view() =~= out0.deep_view().push(ev));
                    assert(prev.push(ev) =~= prev + seq![ev]);
                    assert((prev + seq![ev]) + spec_discover(nv.skip(i + 1)) =~= prev + (
                    seq![ev] + spec_discover(nv.skip(i + 1))));
                }
            },
            None => {},
        }
        i += 1;
    }
    proof {
        assert(names.deep_view().skip(n as int) =~= Seq::<Seq<char>>::empty());
    }
    out
}

/// The name of the directory that holds the payloads.
pub fn versions_dir_name() -> (r: String)
    ensures
        r@ == "Versions"@,
{
    String::from_str("Versions")
}

/// The payload directory name for a version label: `skyrim-` plus the label.
pub fn payload_dir_name(label: &str) -> (r: String)
    ensures
        r@ == "skyrim-"@ + label@,
{
    String::from_str("skyrim-").concat(label)
}

} // verus!
