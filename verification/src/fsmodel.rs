//! Model of a payload directory tree and the file-set resolver that walks it.
//!
//! A payload is a read-only bundle of files. The resolver collects the files
//! to copy: regular files at the top level (minus the excluded names), plus —
//! when flattening is allowed — the files one level down inside a
//! subdirectory whose name case-insensitively equals `data`. The nested walk
//! runs with flattening disabled, so at most one level of flattening happens
//! per resolve.
use vstd::prelude::*;

use crate::text::{excluded, is_data_name, spec_excluded, spec_is_data_name};

verus! {

/// One entry of a directory listing: a regular file, or a subdirectory with
/// its own listing.
pub enum FsNode {
    File { name: String },
    Dir { name: String, entries: Vec<FsNode> },
}

/// A path relative to a root directory, as a sequence of name segments.
///
/// The resolver yields payload-relative paths; the destination of a copy is
/// the same path taken relative to the live game directory.
pub struct RelPath {
    pub segments: Vec<String>,
}

impl View for RelPath {
    type V = Seq<Seq<char>>;

    open spec fn view(&self) -> Seq<Seq<char>> {
        self.segments.deep_view()
    }
}

impl DeepView for RelPath {
    type V = Seq<Seq<char>>;

    open spec fn deep_view(&self) -> Seq<Seq<char>> {
        self.view()
    }
}

impl RelPath {
    /// A one-segment path.
    pub fn single(name: &String) -> (r: RelPath)
        ensures
            r@ == seq![name@],
    {
        let mut segments: Vec<String> = Vec::new();
        segments.push(name.clone());
        let r = RelPath { segments };
        assert(r@ =~= seq![name@]);
        r
    }

    /// The path `p` with `dir` prepended as its first segment.
    pub fn prefixed(dir: &String, p: &RelPath) -> (r: RelPath)
        ensures
            r@ == seq![dir@] + p@,
    {
        let mut segments: Vec<String> = Vec::new();
        segments.push(dir.clone());
        let n: usize = p.segments.len();
        let mut t: usize = 0;
        while t < n
            invariant
                t <= n,
                n == p.segments.len(),
                segments@.len() == 1 + t,
                segments@[0] == *dir,
                forall|k: int| 1 <= k <= t ==> segments@[k] == p.segments@[k - 1],
            decreases n - t,
        {
            segments.push(p.segments[t].clone());
            t += 1;
        }
        let r = RelPath { segments };
        assert(r@ =~= seq![dir@] + p@);
        r
    }

    /// A copy of this path.
    pub fn duplicate(&self) -> (r: RelPath)
        ensures
            r@ == self@,
    {
        let mut segments: Vec<String> = Vec::new();
        let n: usize = self.segments.len();
        let mut t: usize = 0;
        while t < n
            invariant
                t <= n,
                n == self.segments.len(),
                segments@.len() == t,
                forall|k: int| 0 <= k < t ==> segments@[k] == self.segments@[k],
            decreases n - t,
        {
            segments.push(self.segments[t].clone());
            t += 1;
        }
        let r = RelPath { segments };
        assert(r@ =~= self@);
        r
    }

    /// Segment-for-segment equality with another path.
    pub fn matches(&self, other: &RelPath) -> (r: bool)
        ensures
            r == (self@ == other@),
    {
        let n: usize = self.segments.len();
        if n != other.segments.len() {
            assert(self@.len() != other@.len());
            return false;
        }
        let mut t: usize = 0;
        while t < n
            invariant
                t <= n,
                n == self.segments.len(),
                n == other.segments.len(),
                forall|k: int| 0 <= k < t ==> self@[k] == other@[k],
            decreases n - t,
        {
            if !(self.segments[t] == other.segments[t]) {
                assert(self@[t as int] != other@[t as int]);
                return false;
            }
            t += 1;
        }
        assert(self@ =~= other@);
        true
    }
}

/// Membership of `p` in a list of resolved paths.
pub fn contains_path(paths: &Vec<RelPath>, p: &RelPath) -> (r: bool)
    ensures
        r == paths.deep_view().contains(p@),
{
    let n: usize = paths.len();
    let mut i: usize = 0;
    while i < n
        invariant
            i <= n,
            n == paths.len(),
            forall|k: int| 0 <= k < i ==> paths.deep_view()[k] != p@,
        decreases n - i,
    {
        if paths[i].matches(p) {
            assert(paths.deep_view()[i as int] == p@);
            return true;
        }
        i += 1;
    }
    assert(forall|k: int| 0 <= k < paths.deep_view().len() ==> paths.deep_view()[k] != p@);
    false
}

/// Every path of `paths`, with `dir` prepended as a first segment.
pub open spec fn prefix_paths(dir: Seq<char>, paths: Seq<Seq<Seq<char>>>) -> Seq<Seq<Seq<char>>> {
    paths.map_values(|p: Seq<Seq<char>>| seq![dir] + p)
}

/// What one directory entry contributes to the resolved file set: a regular
/// file contributes itself unless excluded; a subdirectory contributes
/// nothing, unless it is a `data` directory met with flattening allowed, in
/// which case it contributes its own resolution (flattening now spent),
/// prefixed with its name.
pub open spec fn node_contrib(node: FsNode, allow_flatten: bool) -> Seq<Seq<Seq<char>>>
    decreases (if allow_flatten { 1int } else { 0int }), 0int, 0int,
{
    match node {
        FsNode::File { name } => if spec_excluded(name@) {
            Seq::empty()
        } else {
            seq![seq![name@]]
        },
        FsNode::Dir { name, entries } => if allow_flatten && spec_is_data_name(name@) {
            prefix_paths(name@, resolve_spec(entries@, false))
        } else {
            Seq::empty()
        },
    }
}

/// The resolved file set of a directory listing, in listing order.
pub open spec fn resolve_spec(entries: Seq<FsNode>, allow_flatten: bool) -> Seq<Seq<Seq<char>>>
    decreases (if allow_flatten { 1int } else { 0int }), 1int, entries.len(),
{
    if entries.len() == 0 {
        Seq::empty()
    } else {
        node_contrib(entries[0], allow_flatten) + resolve_spec(entries.drop_first(), allow_flatten)
    }
}

/// Exclusion correctness: the resolver never includes a path whose file name
/// — its last segment — is excluded, whatever the directory tree.
pub proof fn lemma_resolve_excludes(entries: Seq<FsNode>, allow_flatten: bool)
    ensures
        forall|i: int| 0 <= i < resolve_spec(entries, allow_flatten).len() ==> {
            let p = #[trigger] resolve_spec(entries, allow_flatten)[i];
            p.len() > 0 && !spec_excluded(p[p.len() - 1])
        },
    decreases (if allow_flatten { 1int } else { 0int }), 1int, entries.len(),
{
    if entries.len() > 0 {
        let head = node_contrib(entries[0], allow_flatten);
        let rest = resolve_spec(entries.drop_first(), allow_flatten);
        lemma_resolve_excludes(entries.drop_first(), allow_flatten);
        match entries[0] {
            FsNode::File { name } => {},
            FsNode::Dir { name, entries: sub } => {
                if allow_flatten && spec_is_data_name(name@) {
                    lemma_resolve_excludes(sub@, false);
                    assert forall|j: int| 0 <= j < head.len() implies {
                        let p = #[trigger] head[j];
                        p.len() > 0 && !spec_excluded(p[p.len() - 1])
                    } by {
                        let sp = resolve_spec(sub@, false)[j];
                        assert(head[j] == seq![name@] + sp);
                        assert(head[j][head[j].len() - 1] == sp[sp.len() - 1]);
                    }
                }
            },
        }
        assert(resolve_spec(entries, allow_flatten) == head + rest);
    }
}

/// Bounded flattening: every resolved path has one segment, or two when it
/// came through a flattened `data` subdirectory — its first segment is then
/// a `data` name; with flattening disallowed, always exactly one segment.
/// Nothing deeper than one `data` level is ever reached.
pub proof fn lemma_resolve_bounded(entries: Seq<FsNode>, allow_flatten: bool)
    ensures
        forall|i: int| 0 <= i < resolve_spec(entries, allow_flatten).len() ==> {
            let p = #[trigger] resolve_spec(entries, allow_flatten)[i];
            &&& 1 <= p.len() <= 2
            &&& !allow_flatten ==> p.len() == 1
            &&& p.len() == 2 ==> spec_is_data_name(p[0])
        },
    decreases (if allow_flatten { 1int } else { 0int }), 1int, entries.len(),
{
    if entries.len() > 0 {
        let head = node_contrib(entries[0], allow_flatten);
        let rest = resolve_spec(entries.drop_first(), allow_flatten);
        lemma_resolve_bounded(entries.drop_first(), allow_flatten);
        match entries[0] {
            FsNode::File { name } => {},
            FsNode::Dir { name, entries: sub } => {
                if allow_flatten && spec_is_data_name(name@) {
                    lemma_resolve_bounded(sub@, false);
                    assert forall|j: int| 0 <= j < head.len() implies {
                        let p = #[trigger] head[j];
                        p.len() == 2 && spec_is_data_name(p[0])
                    } by {
                        let sp = resolve_spec(sub@, false)[j];
                        assert(head[j] == seq![name@] + sp);
                    }
                }
            },
        }
        assert(resolve_spec(entries, allow_flatten) == head + rest);
    }
}

/// Pushes every path of `subpaths`, prefixed with `dir`, onto `out`.
fn append_prefixed(out: &mut Vec<RelPath>, dir: &String, subpaths: &Vec<RelPath>)
    ensures
        final(out).deep_view() == old(out).deep_view() + prefix_paths(
            dir@,
            subpaths.deep_view(),
        ),
{
    let n: usize = subpaths.len();
    let mut k: usize = 0;
    while k < n
        invariant
            k <= n,
            n == subpaths.len(),
            out.deep_view() == old(out).deep_view() + prefix_paths(
                dir@,
                subpaths.deep_view(),
            ).take(k as int),
        decreases n - k,
    {
        let p = RelPath::prefixed(dir, &subpaths[k]);
        let ghost out0 = out;
        out.push(p);
        proof {
            let pp = prefix_paths(dir@, subpaths.deep_view());
            assert(pp.take(k + 1) =~= pp.take(k as int).push(pp[k as int]));
            assert(subpaths.deep_view()[k as int] == subpaths@[k as int]@);
            assert(pp[k as int] == seq![dir@] + subpaths.deep_view()[k as int]);
            assert(p@ == pp[k as int]);
            assert(out.deep_view() =~= out0.deep_view().push(p@));
            assert((old(out).deep_view() + pp.take(k as int)).push(p@) =~= old(
                out,
            ).deep_view() + pp.take(k + 1));
        }
        k += 1;
    }
    proof {
        let pp = prefix_paths(dir@, subpaths.deep_view());
        assert(pp.take(n as int) =~= pp);
    }
}

/// Resolves the file set of one directory listing.
///
/// Regular files are included unless excluded by name; a subdirectory is
/// skipped entirely unless its name case-insensitively equals `data` and
/// `allow_flatten` holds, in which case its own resolution — with flattening
/// spent — joins the set at the subdirectory's position in the listing.
pub fn resolve(entries: &Vec<FsNode>, allow_flatten: bool) -> (r: Vec<RelPath>)
    ensures
        r.deep_view() == resolve_spec(entries@, allow_flatten),
    decreases (if allow_flatten { 1int } else { 0int }),
{
    let n: usize = entries.len();
    let mut out: Vec<RelPath> = Vec::new();
    let mut i: usize = 0;
    proof {
        assert(out.deep_view() =~= Seq::<Seq<Seq<char>>>::empty());
        assert(entries@.skip(0) =~= entries@);
        assert(Seq::<Seq<Seq<char>>>::empty() + resolve_spec(entries@, allow_flatten)
            =~= resolve_spec(entries@, allow_flatten));
    }
    while i < n
        invariant
            i <= n,
            n == entries.len(),
            resolve_spec(entries@, allow_flatten) == out.deep_view() + resolve_spec(
                entries@.skip(i as int),
                allow_flatten,
            ),
        decreases n - i,
    {
        proof {
            let tail = entries@.skip(i as int);
            assert(tail.len() > 0);
            assert(tail[0] == entries@[i as int]);
            assert(tail.drop_first() =~= entries@.skip(i + 1));
        }
        let ghost prev = out.deep_view();
        let ghost head_part = node_contrib(entries@[i as int], allow_flatten);
        match &entries[i] {
            FsNode::File { name } => {
                if !excluded(name.as_str()) {
                    let p = RelPath::single(name);
                    out.push(p);
                    proof {
                        assert(head_part =~= seq![seq![name@]]);
                        assert(out.deep_view() =~= prev + head_part);
                    }
                } else {
                    proof {
                        assert(head_part =~= Seq::<Seq<Seq<char>>>::empty());
                        assert(out.deep_view() =~= prev + head_part);
                    }
                }
            },
            FsNode::Dir { name, entries: sub } => {
                if allow_flatten && is_data_name(name.as_str()) {
                    let subpaths = resolve(sub, false);
                    append_prefixed(&mut out, name, &subpaths);
                    proof {
                        assert(head_part == prefix_paths(name@, subpaths.deep_view()));
                    }
                } else {
                    proof {
                        assert(head_part =~= Seq::<Seq<Seq<char>>>::empty());
                        assert(out.deep_view() =~= prev + head_part);
                    }
                }
            },
        }
        proof {
            let rest = resolve_spec(entries@.skip(i + 1), allow_flatten);
            assert((prev + head_part) + rest =~= prev + (head_part + rest));
        }
        i += 1;
    }
    proof {
        assert(entries@.skip(n as int) =~= Seq::<FsNode>::empty());
    }
    out
}

} // verus!
