//! Per-path status flags and the small vocabulary of codes they fold into.

use crate::text::spec_decimal;
use vstd::prelude::*;

verus! {

/// The path is new in the index.
pub const INDEX_NEW: u32 = 0x1;

/// The path is modified in the index.
pub const INDEX_MODIFIED: u32 = 0x2;

/// The path is deleted from the index.
pub const INDEX_DELETED: u32 = 0x4;

/// The path is renamed in the index.
pub const INDEX_RENAMED: u32 = 0x8;

/// The path changed its type in the index.
pub const INDEX_TYPECHANGE: u32 = 0x10;

/// The path is new in the working tree.
pub const WT_NEW: u32 = 0x80;

/// The path is modified in the working tree.
pub const WT_MODIFIED: u32 = 0x100;

/// The path is deleted from the working tree.
pub const WT_DELETED: u32 = 0x200;

/// The path changed its type in the working tree.
pub const WT_TYPECHANGE: u32 = 0x400;

/// The path is renamed in the working tree.
pub const WT_RENAMED: u32 = 0x800;

/// The path is ignored.
pub const IGNORED: u32 = 0x4000;

/// The path is in conflict.
pub const CONFLICTED: u32 = 0x8000;

/// How many codes the vocabulary has.
pub const CODE_COUNT: usize = 11;

/// The class that a changed path is counted under.
#[derive(Clone, Copy, Debug, PartialEq, Eq, Structural)]
pub enum StatusCode {
    /// New in the index and modified in the working tree: `AM`.
    AddedModified,
    /// Modified in the index and in the working tree: `MM`.
    ModifiedTwice,
    /// Modified in the index or in the working tree: `M`.
    Modified,
    /// Deleted on either side: `D`.
    Deleted,
    /// Renamed on either side: `R`.
    Renamed,
    /// Type changed on either side: `T`.
    TypeChanged,
    /// New in the index only: `A`.
    Added,
    /// New in the working tree only: `??`.
    Untracked,
    /// In conflict: `UU`.
    Conflicted,
    /// Ignored: `!`.
    Ignored,
    /// None of the above: `X`.
    Other,
}

/// Whether `flags` has every bit of `flag`.
pub open spec fn spec_has(flags: u32, flag: u32) -> bool {
    flags & flag == flag
}

/// The code of a path with the given flags: the first class in the order of
/// the vocabulary that the flags meet.
pub open spec fn spec_status_code(flags: u32) -> StatusCode {
    if spec_has(flags, INDEX_NEW) && spec_has(flags, WT_MODIFIED) {
        StatusCode::AddedModified
    } else if spec_has(flags, INDEX_MODIFIED) && spec_has(flags, WT_MODIFIED) {
        StatusCode::ModifiedTwice
    } else if spec_has(flags, INDEX_MODIFIED) || spec_has(flags, WT_MODIFIED) {
        StatusCode::Modified
    } else if spec_has(flags, INDEX_DELETED) || spec_has(flags, WT_DELETED) {
        StatusCode::Deleted
    } else if spec_has(flags, INDEX_RENAMED) || spec_has(flags, WT_RENAMED) {
        StatusCode::Renamed
    } else if spec_has(flags, INDEX_TYPECHANGE) || spec_has(flags, WT_TYPECHANGE) {
        StatusCode::TypeChanged
    } else if spec_has(flags, INDEX_NEW) {
        StatusCode::Added
    } else if spec_has(flags, WT_NEW) {
        StatusCode::Untracked
    } else if spec_has(flags, CONFLICTED) {
        StatusCode::Conflicted
    } else if spec_has(flags, IGNORED) {
        StatusCode::Ignored
    } else {
        StatusCode::Other
    }
}

/// The code at place `k` of the vocabulary.
pub open spec fn spec_code_at(k: int) -> StatusCode {
    if k == 0 {
        StatusCode::AddedModified
    } else if k == 1 {
        StatusCode::ModifiedTwice
    } else if k == 2 {
        StatusCode::Modified
    } else if k == 3 {
        StatusCode::Deleted
    } else if k == 4 {
        StatusCode::Renamed
    } else if k == 5 {
        StatusCode::TypeChanged
    } else if k == 6 {
        StatusCode::Added
    } else if k == 7 {
        StatusCode::Untracked
    } else if k == 8 {
        StatusCode::Conflicted
    } else if k == 9 {
        StatusCode::Ignored
    } else {
        StatusCode::Other
    }
}

/// How many of `entries` fold into `code`.
pub open spec fn spec_count(entries: Seq<u32>, code: StatusCode) -> nat
    decreases entries.len(),
{
    if entries.len() == 0 {
        0
    } else {
        spec_count(entries.drop_last(), code) + if spec_status_code(entries.last()) == code {
            1nat
        } else {
            0nat
        }
    }
}

/// The token that reports `count` paths of class `code`: the code's label, a
/// space, the count in decimal.
pub open spec fn spec_token(code: StatusCode, count: nat) -> Seq<char> {
    code.spec_label() + seq![' '] + spec_decimal(count)
}

/// The tokens for the first `k` codes of the vocabulary, in its order: one
/// for each code that some entry folds into.
pub open spec fn spec_tokens(entries: Seq<u32>, k: int) -> Seq<Seq<char>>
    decreases k,
{
    if k <= 0 {
        Seq::empty()
    } else {
        let code = spec_code_at(k - 1);
        let count = spec_count(entries, code);
        if count > 0 {
            spec_tokens(entries, k - 1).push(spec_token(code, count))
        } else {
            spec_tokens(entries, k - 1)
        }
    }
}

impl StatusCode {
    /// The text that stands for the code.
    pub open spec fn spec_label(self) -> Seq<char> {
        match self {
            StatusCode::AddedModified => "AM"@,
            StatusCode::ModifiedTwice => "MM"@,
            StatusCode::Modified => "M"@,
            StatusCode::Deleted => "D"@,
            StatusCode::Renamed => "R"@,
            StatusCode::TypeChanged => "T"@,
            StatusCode::Added => "A"@,
            StatusCode::Untracked => "??"@,
            StatusCode::Conflicted => "UU"@,
            StatusCode::Ignored => "!"@,
            StatusCode::Other => "X"@,
        }
    }

    /// The text that stands for the code.
    pub fn label(self) -> (text: &'static str)
        ensures
            text@ == self.spec_label(),
    {
        match self {
            StatusCode::AddedModified => "AM",
            StatusCode::ModifiedTwice => "MM",
            StatusCode::Modified => "M",
            StatusCode::Deleted => "D",
            StatusCode::Renamed => "R",
            StatusCode::TypeChanged => "T",
            StatusCode::Added => "A",
            StatusCode::Untracked => "??",
            StatusCode::Conflicted => "UU",
            StatusCode::Ignored => "!",
            StatusCode::Other => "X",
        }
    }

    /// The code at place `k` of the vocabulary.
    pub fn at(k: usize) -> (code: StatusCode)
        ensures
            code == spec_code_at(k as int),
    {
        if k == 0 {
            StatusCode::AddedModified
        } else if k == 1 {
            StatusCode::ModifiedTwice
        } else if k == 2 {
            StatusCode::Modified
        } else if k == 3 {
            StatusCode::Deleted
        } else if k == 4 {
            StatusCode::Renamed
        } else if k == 5 {
            StatusCode::TypeChanged
        } else if k == 6 {
            StatusCode::Added
        } else if k == 7 {
            StatusCode::Untracked
        } else if k == 8 {
            StatusCode::Conflicted
        } else if k == 9 {
            StatusCode::Ignored
        } else {
            StatusCode::Other
        }
    }

    /// Folds the flags of one path into its code.
    pub fn of(flags: u32) -> (code: StatusCode)
        ensures
            code == spec_status_code(flags),
    {
        let index_new = flags & INDEX_NEW == INDEX_NEW;
        let index_modified = flags & INDEX_MODIFIED == INDEX_MODIFIED;
        let wt_modified = flags & WT_MODIFIED == WT_MODIFIED;
        if index_new && wt_modified {
            StatusCode::AddedModified
        } else if index_modified && wt_modified {
            StatusCode::ModifiedTwice
        } else if index_modified || wt_modified {
            StatusCode::Modified
        } else if flags & INDEX_DELETED == INDEX_DELETED || flags & WT_DELETED == WT_DELETED {
            StatusCode::Deleted
        } else if flags & INDEX_RENAMED == INDEX_RENAMED || flags & WT_RENAMED == WT_RENAMED {
            StatusCode::Renamed
        } else if flags & INDEX_TYPECHANGE == INDEX_TYPECHANGE || flags & WT_TYPECHANGE
            == WT_TYPECHANGE {
            StatusCode::TypeChanged
        } else if index_new {
            StatusCode::Added
        } else if flags & WT_NEW == WT_NEW {
            StatusCode::Untracked
        } else if flags & CONFLICTED == CONFLICTED {
            StatusCode::Conflicted
        } else if flags & IGNORED == IGNORED {
            StatusCode::Ignored
        } else {
            StatusCode::Other
        }
    }
}

/// Counts the entries that fold into `code`.
pub fn count_code(entries: &Vec<u32>, code: StatusCode) -> (count: usize)
    ensures
        count == spec_count(entries@, code),
{
    let mut count: usize = 0;
    let mut i: usize = 0;
    while i < entries.len()
        invariant
            i <= entries@.len(),
            count == spec_count(entries@.take(i as int), code),
            count <= i,
        decreases entries@.len() - i,
    {
        assert(entries@.take(i + 1).drop_last() == entries@.take(i as int));
        if StatusCode::of(entries[i]) == code {
            count = count + 1;
        }
        i = i + 1;
    }
    assert(entries@.take(entries@.len() as int) == entries@);
    count
}

/// How many of `entries` fold into one of the first `k` codes.
pub open spec fn spec_count_upto(entries: Seq<u32>, k: int) -> nat
    decreases k,
{
    if k <= 0 {
        0
    } else {
        spec_count_upto(entries, k - 1) + spec_count(entries, spec_code_at(k - 1))
    }
}

/// Every changed path is counted under exactly one code: the counts of all
/// the codes add up to the number of paths.
pub proof fn lemma_every_path_counted_once(entries: Seq<u32>)
    ensures
        spec_count_upto(entries, CODE_COUNT as int) == entries.len(),
    decreases entries.len(),
{
    reveal_with_fuel(spec_count_upto, 12);
    if entries.len() > 0 {
        lemma_every_path_counted_once(entries.drop_last());
    }
}

/// There is a token exactly where some path is counted, and no token is
/// empty.
pub proof fn lemma_tokens_follow_counts(entries: Seq<u32>, k: int)
    ensures
        (spec_tokens(entries, k).len() == 0) == (spec_count_upto(entries, k) == 0),
        forall|i: int|
            0 <= i < spec_tokens(entries, k).len() ==> (#[trigger] spec_tokens(entries, k)[i]).len()
                > 0,
    decreases k,
{
    if k > 0 {
        lemma_tokens_follow_counts(entries, k - 1);
    }
}

} // verus!
