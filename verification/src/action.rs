//! Detection of an operation in progress from the marker files and
//! directories that it leaves in the repository's metadata directory.

use vstd::prelude::*;

verus! {

/// Name of a rebase that applies patches.
pub const ACTION_REBASE: &'static str = "rebase";

/// Name of a mailbox being applied.
pub const ACTION_AM: &'static str = "am";

/// Name of a rebase or mailbox that cannot be told apart.
pub const ACTION_AM_REBASE: &'static str = "am/rebase";

/// Name of an interactive rebase.
pub const ACTION_REBASE_I: &'static str = "rebase-i";

/// Name of a merging rebase.
pub const ACTION_REBASE_M: &'static str = "rebase-m";

/// Name of a merge.
pub const ACTION_MERGE: &'static str = "merge";

/// Name of a bisection.
pub const ACTION_BISECT: &'static str = "bisect";

/// Name of a cherry-pick within a sequence.
pub const ACTION_CHERRY_SEQ: &'static str = "cherry-seq";

/// Name of a single cherry-pick.
pub const ACTION_CHERRY: &'static str = "cherry";

/// Name of a sequence of cherry-picks or reverts between two steps.
pub const ACTION_CHERRY_OR_REVERT: &'static str = "cherry-or-revert";

/// A file or directory whose presence tells of an operation in progress.
#[derive(Clone, Copy, Debug, PartialEq, Eq, Structural)]
pub enum Marker {
    /// `rebase-apply/rebasing`
    RebaseApplyRebasing,
    /// `rebase-apply/applying`
    RebaseApplyApplying,
    /// `rebase-apply`
    RebaseApply,
    /// `rebase/rebasing`
    RebaseRebasing,
    /// `rebase/applying`
    RebaseApplying,
    /// `rebase`
    Rebase,
    /// `../.dotest/rebasing`
    DotestRebasing,
    /// `../.dotest/applying`
    DotestApplying,
    /// `../.dotest`
    Dotest,
    /// `rebase-merge/interactive`
    RebaseMergeInteractive,
    /// `.dotest-merge/interactive`
    DotestMergeInteractive,
    /// `rebase-merge`
    RebaseMerge,
    /// `.dotest-merge`
    DotestMerge,
    /// `MERGE_HEAD`
    MergeHead,
    /// `BISECT_LOG`
    BisectLog,
    /// `CHERRY_PICK_HEAD`
    CherryPickHead,
    /// `sequencer`
    Sequencer,
}

/// An operation that a repository can be in the middle of.
#[derive(Clone, Copy, Debug, PartialEq, Eq, Structural)]
pub enum Operation {
    /// A rebase that applies patches: `rebase`.
    Rebase,
    /// A mailbox being applied: `am`.
    Am,
    /// Either of the two, not told apart: `am/rebase`.
    AmRebase,
    /// An interactive rebase: `rebase-i`.
    RebaseInteractive,
    /// A merging rebase: `rebase-m`.
    RebaseMerge,
    /// A merge: `merge`.
    Merge,
    /// A bisection: `bisect`.
    Bisect,
    /// A cherry-pick within a sequence: `cherry-seq`.
    CherrySequence,
    /// A single cherry-pick: `cherry`.
    Cherry,
    /// A sequence of cherry-picks or reverts between two steps:
    /// `cherry-or-revert`.
    CherryOrRevert,
}

/// Every marker, in the order in which the rules look at them.
pub open spec fn spec_all_markers() -> Seq<Marker> {
    seq![
        Marker::RebaseApplyRebasing,
        Marker::RebaseApplyApplying,
        Marker::RebaseApply,
        Marker::RebaseRebasing,
        Marker::RebaseApplying,
        Marker::Rebase,
        Marker::DotestRebasing,
        Marker::DotestApplying,
        Marker::Dotest,
        Marker::RebaseMergeInteractive,
        Marker::DotestMergeInteractive,
        Marker::RebaseMerge,
        Marker::DotestMerge,
        Marker::MergeHead,
        Marker::BisectLog,
        Marker::CherryPickHead,
        Marker::Sequencer,
    ]
}

/// The operation that the markers in `found` tell of. The rules are tried
/// from the top and the first that matches decides; no match, no operation.
pub open spec fn spec_operation(found: Seq<Marker>) -> Option<Operation> {
    if found.contains(Marker::RebaseApplyRebasing) {
        Some(Operation::Rebase)
    } else if found.contains(Marker::RebaseApplyApplying) {
        Some(Operation::Am)
    } else if found.contains(Marker::RebaseApply) {
        Some(Operation::AmRebase)
    } else if found.contains(Marker::RebaseRebasing) {
        Some(Operation::Rebase)
    } else if found.contains(Marker::RebaseApplying) {
        Some(Operation::Am)
    } else if found.contains(Marker::Rebase) {
        Some(Operation::AmRebase)
    } else if found.contains(Marker::DotestRebasing) {
        Some(Operation::Rebase)
    } else if found.contains(Marker::DotestApplying) {
        Some(Operation::Am)
    } else if found.contains(Marker::Dotest) {
        Some(Operation::AmRebase)
    } else if found.contains(Marker::RebaseMergeInteractive) {
        Some(Operation::RebaseInteractive)
    } else if found.contains(Marker::DotestMergeInteractive) {
        Some(Operation::RebaseInteractive)
    } else if found.contains(Marker::RebaseMerge) {
        Some(Operation::RebaseMerge)
    } else if found.contains(Marker::DotestMerge) {
        Some(Operation::RebaseMerge)
    } else if found.contains(Marker::MergeHead) {
        Some(Operation::Merge)
    } else if found.contains(Marker::BisectLog) {
        Some(Operation::Bisect)
    } else if found.contains(Marker::CherryPickHead) && found.contains(Marker::Sequencer) {
        Some(Operation::CherrySequence)
    } else if found.contains(Marker::CherryPickHead) {
        Some(Operation::Cherry)
    } else if found.contains(Marker::Sequencer) {
        Some(Operation::CherryOrRevert)
    } else {
        None
    }
}

impl Marker {
    /// The marker's path below the metadata directory.
    pub open spec fn spec_path(self) -> Seq<char> {
        match self {
            Marker::RebaseApplyRebasing => "rebase-apply/rebasing"@,
            Marker::RebaseApplyApplying => "rebase-apply/applying"@,
            Marker::RebaseApply => "rebase-apply"@,
            Marker::RebaseRebasing => "rebase/rebasing"@,
            Marker::RebaseApplying => "rebase/applying"@,
            Marker::Rebase => "rebase"@,
            Marker::DotestRebasing => "../.dotest/rebasing"@,
            Marker::DotestApplying => "../.dotest/applying"@,
            Marker::Dotest => "../.dotest"@,
            Marker::RebaseMergeInteractive => "rebase-merge/interactive"@,
            Marker::DotestMergeInteractive => ".dotest-merge/interactive"@,
            Marker::RebaseMerge => "rebase-merge"@,
            Marker::DotestMerge => ".dotest-merge"@,
            Marker::MergeHead => "MERGE_HEAD"@,
            Marker::BisectLog => "BISECT_LOG"@,
            Marker::CherryPickHead => "CHERRY_PICK_HEAD"@,
            Marker::Sequencer => "sequencer"@,
        }
    }

    /// The marker's path below the metadata directory.
    pub fn path(self) -> (path: &'static str)
        ensures
            path@ == self.spec_path(),
    {
        match self {
            Marker::RebaseApplyRebasing => "rebase-apply/rebasing",
            Marker::RebaseApplyApplying => "rebase-apply/applying",
            Marker::RebaseApply => "rebase-apply",
            Marker::RebaseRebasing => "rebase/rebasing",
            Marker::RebaseApplying => "rebase/applying",
            Marker::Rebase => "rebase",
            Marker::DotestRebasing => "../.dotest/rebasing",
            Marker::DotestApplying => "../.dotest/applying",
            Marker::Dotest => "../.dotest",
            Marker::RebaseMergeInteractive => "rebase-merge/interactive",
            Marker::DotestMergeInteractive => ".dotest-merge/interactive",
            Marker::RebaseMerge => "rebase-merge",
            Marker::DotestMerge => ".dotest-merge",
            Marker::MergeHead => "MERGE_HEAD",
            Marker::BisectLog => "BISECT_LOG",
            Marker::CherryPickHead => "CHERRY_PICK_HEAD",
            Marker::Sequencer => "sequencer",
        }
    }

    /// Every marker, in the order in which the rules look at them.
    pub fn all() -> (markers: Vec<Marker>)
        ensures
            markers@ == spec_all_markers(),
    {
        let markers = vec![
            Marker::RebaseApplyRebasing,
            Marker::RebaseApplyApplying,
            Marker::RebaseApply,
            Marker::RebaseRebasing,
            Marker::RebaseApplying,
            Marker::Rebase,
            Marker::DotestRebasing,
            Marker::DotestApplying,
            Marker::Dotest,
            Marker::RebaseMergeInteractive,
            Marker::DotestMergeInteractive,
            Marker::RebaseMerge,
            Marker::DotestMerge,
            Marker::MergeHead,
            Marker::BisectLog,
            Marker::CherryPickHead,
            Marker::Sequencer,
        ];
        markers
    }
}

impl Operation {
    /// The name under which the operation is shown.
    pub open spec fn spec_label(self) -> Seq<char> {
        match self {
            Operation::Rebase => ACTION_REBASE@,
            Operation::Am => ACTION_AM@,
            Operation::AmRebase => ACTION_AM_REBASE@,
            Operation::RebaseInteractive => ACTION_REBASE_I@,
            Operation::RebaseMerge => ACTION_REBASE_M@,
            Operation::Merge => ACTION_MERGE@,
            Operation::Bisect => ACTION_BISECT@,
            Operation::CherrySequence => ACTION_CHERRY_SEQ@,
            Operation::Cherry => ACTION_CHERRY@,
            Operation::CherryOrRevert => ACTION_CHERRY_OR_REVERT@,
        }
    }

    /// The name under which the operation is shown.
    pub fn label(self) -> (label: &'static str)
        ensures
            label@ == self.spec_label(),
    {
        match self {
            Operation::Rebase => ACTION_REBASE,
            Operation::Am => ACTION_AM,
            Operation::AmRebase => ACTION_AM_REBASE,
            Operation::RebaseInteractive => ACTION_REBASE_I,
            Operation::RebaseMerge => ACTION_REBASE_M,
            Operation::Merge => ACTION_MERGE,
            Operation::Bisect => ACTION_BISECT,
            Operation::CherrySequence => ACTION_CHERRY_SEQ,
            Operation::Cherry => ACTION_CHERRY,
            Operation::CherryOrRevert => ACTION_CHERRY_OR_REVERT,
        }
    }
}

/// Whether `found` holds `marker`.
pub fn has_marker(found: &Vec<Marker>, marker: Marker) -> (present: bool)
    ensures
        present == found@.contains(marker),
{
    let mut i: usize = 0;
    while i < found.len()
        invariant
            i <= found@.len(),
            forall|j: int| 0 <= j < i ==> found@[j] != marker,
        decreases found@.len() - i,
    {
        if found[i] == marker {
            return true;
        }
        i = i + 1;
    }
    false
}

/// What a patch directory tells: a rebase where it holds `rebasing`, a
/// mailbox where it holds `applying`, one of the two where it merely exists.
fn patch_directory(found: &Vec<Marker>, rebasing: Marker, applying: Marker, dir: Marker) -> (op:
    Option<Operation>)
    ensures
        op == if found@.contains(rebasing) {
            Some(Operation::Rebase)
        } else if found@.contains(applying) {
            Some(Operation::Am)
        } else if found@.contains(dir) {
            Some(Operation::AmRebase)
        } else {
            None
        },
{
    if has_marker(found, rebasing) {
        Some(Operation::Rebase)
    } else if has_marker(found, applying) {
        Some(Operation::Am)
    } else if has_marker(found, dir) {
        Some(Operation::AmRebase)
    } else {
        None
    }
}

/// Finds the operation in progress from the markers that were found.
pub fn detect(found: &Vec<Marker>) -> (op: Option<Operation>)
    ensures
        op == spec_operation(found@),
{
    let apply = patch_directory(
        found,
        Marker::RebaseApplyRebasing,
        Marker::RebaseApplyApplying,
        Marker::RebaseApply,
    );
    if apply.is_some() {
        return apply;
    }
    let rebase = patch_directory(
        found,
        Marker::RebaseRebasing,
        Marker::RebaseApplying,
        Marker::Rebase,
    );
    if rebase.is_some() {
        return rebase;
    }
    let dotest = patch_directory(
        found,
        Marker::DotestRebasing,
        Marker::DotestApplying,
        Marker::Dotest,
    );
    if dotest.is_some() {
        return dotest;
    }
    if has_marker(found, Marker::RebaseMergeInteractive) || has_marker(
        found,
        Marker::DotestMergeInteractive,
    ) {
        return Some(Operation::RebaseInteractive);
    }
    if has_marker(found, Marker::RebaseMerge) || has_marker(found, Marker::DotestMerge) {
        return Some(Operation::RebaseMerge);
    }
    if has_marker(found, Marker::MergeHead) {
        return Some(Operation::Merge);
    }
    if has_marker(found, Marker::BisectLog) {
        return Some(Operation::Bisect);
    }
    let sequencer = has_marker(found, Marker::Sequencer);
    if has_marker(found, Marker::CherryPickHead) {
        if sequencer {
            return Some(Operation::CherrySequence);
        }
        return Some(Operation::Cherry);
    }
    if sequencer {
        return Some(Operation::CherryOrRevert);
    }
    None
}

/// An operation is reported exactly when some marker was found: each marker
/// meets a rule, and without a marker no rule is met.
pub proof fn lemma_operation_iff_marker(found: Seq<Marker>)
    ensures
        spec_operation(found).is_some() == (found.len() > 0),
{
    if found.len() > 0 {
        assert(found.contains(found[0]));
    }
}

} // verus!
