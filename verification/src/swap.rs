//! The swap engine: drives the checksum-verified copy of a payload's
//! resolved file set into the live game directory, in resolver order,
//! fail-fast.
//!
//! The engine owns the decisions; the caller performs the filesystem work.
//! For each file the engine names the payload-relative path to copy — the
//! destination is the same path under the game directory root — and the
//! caller reports what happened. A verified copy advances the swap; any
//! failure aborts it, and every later file is never attempted. Files copied
//! before a failure stay in place: there is no rollback.
use vstd::prelude::*;
use vstd::string::*;

use crate::fsmodel::{resolve, resolve_spec, FsNode, RelPath};
use crate::integrity::{crc32_of, verify_copy, CopyFailure};

verus! {

/// What the caller observed while copying the current file: the bytes read
/// from the origin together with the bytes read back from the freshly
/// written destination, or the step that failed.
pub enum CopyOutcome {
    Copied { origin: Vec<u8>, dest: Vec<u8> },
    ReadOriginFailed,
    WriteFailed,
    ReadBackFailed,
}

/// A swap that stopped: the file it stopped on, and why.
pub struct SwapError {
    pub path: RelPath,
    pub failure: CopyFailure,
}

/// One version swap in progress.
pub struct SwapEngine {
    plan: Vec<RelPath>,
    done: usize,
    aborted: bool,
}

impl SwapEngine {
    /// The resolved file set this swap copies, in order.
    pub closed spec fn plan_view(&self) -> Seq<Seq<Seq<char>>> {
        self.plan.deep_view()
    }

    /// How many files have been copied and verified so far.
    pub closed spec fn copied(&self) -> int {
        self.done as int
    }

    /// Whether the swap has aborted on a failure.
    pub closed spec fn failed(&self) -> bool {
        self.aborted
    }

    /// The engine's invariant: the copied files are a prefix of the plan,
    /// and an abort happened on a file still inside the plan.
    pub open spec fn wf(&self) -> bool {
        0 <= self.copied() <= self.plan_view().len() && (self.failed() ==> self.copied()
            < self.plan_view().len())
    }

    /// Starts a swap for a payload: the plan is the payload's resolved file
    /// set, with flattening enabled, and nothing is copied yet.
    pub fn new(payload_entries: &Vec<FsNode>) -> (s: SwapEngine)
        ensures
            s.wf(),
            s.plan_view() == resolve_spec(payload_entries@, true),
            s.copied() == 0,
            !s.failed(),
    {
        SwapEngine { plan: resolve(payload_entries, true), done: 0, aborted: false }
    }

    /// True when no copy remains: every file was copied, or the swap
    /// aborted.
    pub fn finished(&self) -> (r: bool)
        requires
            self.wf(),
        ensures
            r == (self.failed() || self.copied() == self.plan_view().len()),
    {
        self.aborted || self.done == self.plan.len()
    }

    /// The payload-relative path of the next file to copy.
    pub fn current(&self) -> (r: RelPath)
        requires
            self.wf(),
            !self.failed(),
            self.copied() < self.plan_view().len(),
        ensures
            r@ == self.plan_view()[self.copied()],
    {
        proof {
            assert(self.plan.deep_view()[self.done as int] == self.plan@[self.done as int]@);
        }
        self.plan[self.done].duplicate()
    }

    /// Records the outcome of copying the current file.
    ///
    /// A copy whose read-back bytes carry the origin's checksum advances the
    /// swap. Anything else — a failed read, write or read-back, or a
    /// checksum mismatch — aborts it on the spot: the error names the file
    /// and the failure, the count of copied files stays, and no further copy
    /// is offered.
    pub fn record(&mut self, outcome: CopyOutcome) -> (r: Result<(), SwapError>)
        requires
            old(self).wf(),
            !old(self).failed(),
            old(self).copied() < old(self).plan_view().len(),
        ensures
            final(self).wf(),
            final(self).plan_view() == old(self).plan_view(),
            match outcome {
                CopyOutcome::Copied { origin, dest } => {
                    if crc32_of(origin@) == crc32_of(dest@) {
                        &&& r is Ok
                        &&& !final(self).failed()
                        &&& final(self).copied() == old(self).copied() + 1
                    } else {
                        &&& (r matches Err(e) && e.path@ == old(self).plan_view()[old(
                            self,
                        ).copied()] && e.failure == (CopyFailure::Mismatch {
                            origin_crc: crc32_of(origin@),
                            dest_crc: crc32_of(dest@),
                        }))
                        &&& final(self).failed()
                        &&& final(self).copied() == old(self).copied()
                    }
                },
                CopyOutcome::ReadOriginFailed => {
                    &&& (r matches Err(e) && e.path@ == old(self).plan_view()[old(self).copied()]
                        && e.failure == CopyFailure::ReadOrigin)
                    &&& final(self).failed()
                    &&& final(self).copied() == old(self).copied()
                },
                CopyOutcome::WriteFailed => {
                    &&& (r matches Err(e) && e.path@ == old(self).plan_view()[old(self).copied()]
                        && e.failure == CopyFailure::Write)
                    &&& final(self).failed()
                    &&& final(self).copied() == old(self).copied()
                },
                CopyOutcome::ReadBackFailed => {
                    &&& (r matches Err(e) && e.path@ == old(self).plan_view()[old(self).copied()]
                        && e.failure == CopyFailure::ReadBack)
                    &&& final(self).failed()
                    &&& final(self).copied() == old(self).copied()
                },
            },
    {
        proof {
            assert(self.plan.deep_view()[self.done as int] == self.plan@[self.done as int]@);
        }
        let path = self.plan[self.done].duplicate();
        match outcome {
            CopyOutcome::Copied { origin, dest } => {
                match verify_copy(&origin, &dest) {
                    Ok(_) => {
                        let n: usize = self.plan.len();
                        proof {
                            assert(self.plan.deep_view().len() == n);
                        }
                        self.done = self.done + 1;
                        Ok(())
                    },
                    Err(failure) => {
                        self.aborted = true;
                        Err(SwapError { path, failure })
                    },
                }
            },
            CopyOutcome::ReadOriginFailed => {
                self.aborted = true;
                Err(SwapError { path, failure: CopyFailure::ReadOrigin })
            },
            CopyOutcome::WriteFailed => {
                self.aborted = true;
                Err(SwapError { path, failure: CopyFailure::Write })
            },
            CopyOutcome::ReadBackFailed => {
                self.aborted = true;
                Err(SwapError { path, failure: CopyFailure::ReadBack })
            },
        }
    }
}

/// A full run of one version: the copies of the payload's resolved file set,
/// then the executable to launch from the staged game directory.
pub struct RunPlan {
    pub copies: Vec<RelPath>,
    pub exe: String,
}

/// The executable launched in the game directory: the game's own binary when
/// the script extender is bypassed, the script-extender loader otherwise.
pub fn launch_exe(no_skse: bool) -> (r: String)
    ensures
        r@ == (if no_skse {
            "./SkyrimSE.exe"@
        } else {
            "./skse64_loader.exe"@
        }),
{
    if no_skse {
        String::from_str("./SkyrimSE.exe")
    } else {
        String::from_str("./skse64_loader.exe")
    }
}

/// Plans a run of one version: swap, then launch. The copies are the
/// payload's resolved file set in resolver order, executed fail-fast; the
/// launch follows only after every copy verified.
pub fn run_version(payload_entries: &Vec<FsNode>, no_skse: bool) -> (r: RunPlan)
    ensures
        r.copies.deep_view() == resolve_spec(payload_entries@, true),
        r.exe@ == (if no_skse {
            "./SkyrimSE.exe"@
        } else {
            "./skse64_loader.exe"@
        }),
{
    RunPlan { copies: resolve(payload_entries, true), exe: launch_exe(no_skse) }
}

} // verus!
