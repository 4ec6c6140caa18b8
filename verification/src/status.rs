//! Change records and their classification into a two-character flag pair
//! and a color verdict.

use vstd::prelude::*;

verus! {

/// Index differs from HEAD: the path is new in the index.
pub const INDEX_NEW: u32 = 0x0001;

/// Index differs from HEAD: the path is modified in the index.
pub const INDEX_MODIFIED: u32 = 0x0002;

/// Index differs from HEAD: the path is deleted from the index.
pub const INDEX_DELETED: u32 = 0x0004;

/// Index differs from HEAD: the path is renamed in the index.
pub const INDEX_RENAMED: u32 = 0x0008;

/// Index differs from HEAD: the path changed its type in the index.
pub const INDEX_TYPECHANGE: u32 = 0x0010;

/// Working tree differs from the index: the path is new.
pub const WT_NEW: u32 = 0x0080;

/// Working tree differs from the index: the path is modified.
pub const WT_MODIFIED: u32 = 0x0100;

/// Working tree differs from the index: the path is deleted.
pub const WT_DELETED: u32 = 0x0200;

/// Working tree differs from the index: the path changed its type.
pub const WT_TYPECHANGE: u32 = 0x0400;

/// Working tree differs from the index: the path is renamed.
pub const WT_RENAMED: u32 = 0x0800;

/// The path is ignored.
pub const IGNORED: u32 = 0x4000;

/// The path is in conflict.
pub const CONFLICTED: u32 = 0x8000;

/// The index-side states that count as a change:
/// new, modified, deleted, renamed.
pub const INDEX_CHANGE: u32 = 0x000f;

/// The worktree-side states that count as a change:
/// new, modified, deleted, type-changed, renamed.
pub const WORKTREE_CHANGE: u32 = 0x0f80;

/// The color a status line is printed in.
#[derive(Clone, Copy, Debug, PartialEq, Eq, Structural)]
pub enum Verdict {
    /// Every change of the path is staged.
    Green,
    /// Some change of the path is not staged.
    Red,
}

/// The set of states of one path, one bit per state, laid out as libgit2
/// lays out its status flags.
#[derive(Clone, Copy, Debug, PartialEq, Eq, Structural)]
pub struct Status {
    pub bits: u32,
}

/// What the classifier derives from a `Status`: one character per side, and
/// whether the working tree holds no change of the path.
#[derive(Clone, Copy, Debug, PartialEq, Eq, Structural)]
pub struct StatusFlag {
    pub index: char,
    pub worktree: char,
    pub worktree_clean: bool,
}

impl Status {
    /// Every flag in `flags` is set.
    pub open spec fn spec_contains(&self, flags: u32) -> bool {
        self.bits & flags == flags
    }

    /// At least one flag in `flags` is set.
    pub open spec fn spec_intersects(&self, flags: u32) -> bool {
        self.bits & flags != 0
    }

    /// The index-side character: the first state that is set, in the order
    /// new, modified, deleted, renamed; `-` where none is.
    pub open spec fn index_char(&self) -> char {
        if self.spec_contains(INDEX_NEW) {
            'A'
        } else if self.spec_contains(INDEX_MODIFIED) {
            'M'
        } else if self.spec_contains(INDEX_DELETED) {
            'D'
        } else if self.spec_contains(INDEX_RENAMED) {
            'R'
        } else {
            '-'
        }
    }

    /// The worktree-side character: the first state that is set, in the order
    /// new, modified, deleted, type-changed, renamed; `-` where none is.
    pub open spec fn worktree_char(&self) -> char {
        if self.spec_contains(WT_NEW) {
            'a'
        } else if self.spec_contains(WT_MODIFIED) {
            'm'
        } else if self.spec_contains(WT_DELETED) {
            'd'
        } else if self.spec_contains(WT_TYPECHANGE) {
            't'
        } else if self.spec_contains(WT_RENAMED) {
            'r'
        } else {
            '-'
        }
    }

    /// The path belongs in a report: it is changed on at least one side.
    pub open spec fn included(&self) -> bool {
        self.spec_intersects(INDEX_CHANGE) || self.spec_intersects(WORKTREE_CHANGE)
    }

    /// Green where the index holds a change and the working tree holds none.
    pub open spec fn spec_verdict(&self) -> Verdict {
        if self.spec_intersects(INDEX_CHANGE) && !self.spec_intersects(WORKTREE_CHANGE) {
            Verdict::Green
        } else {
            Verdict::Red
        }
    }

    /// What `classify` returns.
    pub open spec fn spec_classify(&self) -> StatusFlag {
        StatusFlag {
            index: self.index_char(),
            worktree: self.worktree_char(),
            worktree_clean: !self.spec_intersects(WORKTREE_CHANGE),
        }
    }

    pub fn from_bits(bits: u32) -> (status: Status)
        ensures
            status.bits == bits,
    {
        Status { bits }
    }

    pub fn empty() -> (status: Status)
        ensures
            status.bits == 0,
    {
        Status { bits: 0 }
    }

    pub fn bits(&self) -> (bits: u32)
        ensures
            bits == self.bits,
    {
        self.bits
    }

    /// The states of `self` together with those of `other`.
    pub fn union(self, other: Status) -> (both: Status)
        ensures
            both.bits == self.bits | other.bits,
    {
        Status { bits: self.bits | other.bits }
    }

    #[verifier::when_used_as_spec(spec_contains)]
    pub fn contains(&self, flags: u32) -> (all: bool)
        ensures
            all == self.spec_contains(flags),
    {
        self.bits & flags == flags
    }

    #[verifier::when_used_as_spec(spec_intersects)]
    pub fn intersects(&self, flags: u32) -> (any: bool)
        ensures
            any == self.spec_intersects(flags),
    {
        self.bits & flags != 0
    }

    pub fn index_flag(&self) -> (flag: char)
        ensures
            flag == self.index_char(),
    {
        if self.contains(INDEX_NEW) {
            'A'
        } else if self.contains(INDEX_MODIFIED) {
            'M'
        } else if self.contains(INDEX_DELETED) {
            'D'
        } else if self.contains(INDEX_RENAMED) {
            'R'
        } else {
            '-'
        }
    }

    pub fn worktree_flag(&self) -> (flag: char)
        ensures
            flag == self.worktree_char(),
    {
        if self.contains(WT_NEW) {
            'a'
        } else if self.contains(WT_MODIFIED) {
            'm'
        } else if self.contains(WT_DELETED) {
            'd'
        } else if self.contains(WT_TYPECHANGE) {
            't'
        } else if self.contains(WT_RENAMED) {
            'r'
        } else {
            '-'
        }
    }

    pub fn is_included(&self) -> (shown: bool)
        ensures
            shown == self.included(),
    {
        self.intersects(INDEX_CHANGE) || self.intersects(WORKTREE_CHANGE)
    }

    #[verifier::when_used_as_spec(spec_verdict)]
    pub fn verdict(&self) -> (color: Verdict)
        ensures
            color == self.spec_verdict(),
    {
        if self.intersects(INDEX_CHANGE) && !self.intersects(WORKTREE_CHANGE) {
            Verdict::Green
        } else {
            Verdict::Red
        }
    }

    #[verifier::when_used_as_spec(spec_classify)]
    pub fn classify(&self) -> (flag: StatusFlag)
        ensures
            flag == self.spec_classify(),
    {
        StatusFlag {
            index: self.index_flag(),
            worktree: self.worktree_flag(),
            worktree_clean: !self.intersects(WORKTREE_CHANGE),
        }
    }
}

/// A side's character is `-` exactly when no state of that side's change
/// category is set. So a record that is changed on the index side only gets the
/// worktree character `-`, and one changed on the worktree side only gets
/// the index character `-`.
pub proof fn blank_side_has_no_change(status: Status)
    ensures
        status.index_char() == '-' <==> !status.spec_intersects(INDEX_CHANGE),
        status.worktree_char() == '-' <==> !status.spec_intersects(WORKTREE_CHANGE),
{
    let b = status.bits;
    assert((b & 0x000f != 0) <==> (b & 0x0001 == 0x0001 || b & 0x0002 == 0x0002 || b & 0x0004
        == 0x0004 || b & 0x0008 == 0x0008)) by (bit_vector);
    assert((b & 0x0f80 != 0) <==> (b & 0x0080 == 0x0080 || b & 0x0100 == 0x0100 || b & 0x0200
        == 0x0200 || b & 0x0400 == 0x0400 || b & 0x0800 == 0x0800)) by (bit_vector);
}

/// On the index side an earlier state hides every later one, in the order
/// new, modified, deleted, renamed: each character is emitted exactly when its
/// state is set and no earlier one is.
pub proof fn index_precedence(status: Status)
    ensures
        status.index_char() == 'A' <==> status.spec_contains(INDEX_NEW),
        status.index_char() == 'M' <==> !status.spec_contains(INDEX_NEW) && status.spec_contains(
            INDEX_MODIFIED,
        ),
        status.index_char() == 'D' <==> !status.spec_contains(INDEX_NEW) && !status.spec_contains(
            INDEX_MODIFIED,
        ) && status.spec_contains(INDEX_DELETED),
        status.index_char() == 'R' <==> !status.spec_contains(INDEX_NEW) && !status.spec_contains(
            INDEX_MODIFIED,
        ) && !status.spec_contains(INDEX_DELETED) && status.spec_contains(INDEX_RENAMED),
{
}

/// On the worktree side an earlier state hides every later one, in the order
/// new, modified, deleted, type-changed, renamed: each character is emitted
/// exactly when its state is set and no earlier one is.
pub proof fn worktree_precedence(status: Status)
    ensures
        status.worktree_char() == 'a' <==> status.spec_contains(WT_NEW),
        status.worktree_char() == 'm' <==> !status.spec_contains(WT_NEW) && status.spec_contains(
            WT_MODIFIED,
        ),
        status.worktree_char() == 'd' <==> !status.spec_contains(WT_NEW) && !status.spec_contains(
            WT_MODIFIED,
        ) && status.spec_contains(WT_DELETED),
        status.worktree_char() == 't' <==> !status.spec_contains(WT_NEW) && !status.spec_contains(
            WT_MODIFIED,
        ) && !status.spec_contains(WT_DELETED) && status.spec_contains(WT_TYPECHANGE),
        status.worktree_char() == 'r' <==> !status.spec_contains(WT_NEW) && !status.spec_contains(
            WT_MODIFIED,
        ) && !status.spec_contains(WT_DELETED) && !status.spec_contains(WT_TYPECHANGE)
            && status.spec_contains(WT_RENAMED),
{
}

/// States outside a side's change category never show in that side's
/// character: adding or removing them leaves the flag pair as it was.
pub proof fn other_states_do_not_show(status: Status, other: u32)
    requires
        other & (INDEX_CHANGE | WORKTREE_CHANGE) == 0,
    ensures
        (Status { bits: status.bits | other }).spec_classify() == status.spec_classify(),
        (Status { bits: status.bits | other }).spec_verdict() == status.spec_verdict(),
        (Status { bits: status.bits | other }).included() == status.included(),
{
    let b = status.bits;
    assert(other & (0x000fu32 | 0x0f80u32) == 0 ==> ((b | other) & 0x0001 == b & 0x0001 && (b
        | other) & 0x0002 == b & 0x0002 && (b | other) & 0x0004 == b & 0x0004 && (b | other)
        & 0x0008 == b & 0x0008 && (b | other) & 0x000f == b & 0x000f)) by (bit_vector);
    assert(other & (0x000fu32 | 0x0f80u32) == 0 ==> ((b | other) & 0x0080 == b & 0x0080 && (b
        | other) & 0x0100 == b & 0x0100 && (b | other) & 0x0200 == b & 0x0200 && (b | other)
        & 0x0400 == b & 0x0400 && (b | other) & 0x0800 == b & 0x0800 && (b | other) & 0x0f80 == b
        & 0x0f80)) by (bit_vector);
}

/// A record is left out of a report exactly when its flag pair is `--`.
pub proof fn included_iff_flagged(status: Status)
    ensures
        status.included() <==> !(status.index_char() == '-' && status.worktree_char() == '-'),
{
    blank_side_has_no_change(status);
}

/// The verdict is green exactly when the index side shows a change and the
/// worktree side shows none; every other included record is red.
pub proof fn verdict_by_flags(status: Status)
    ensures
        status.spec_verdict() == Verdict::Green <==> status.index_char() != '-'
            && status.worktree_char() == '-',
        status.included() ==> (status.spec_verdict() == Verdict::Green
            <==> status.spec_classify().worktree_clean),
        status.included() && status.spec_verdict() != Verdict::Green ==> status.spec_verdict()
            == Verdict::Red && status.worktree_char() != '-',
{
    blank_side_has_no_change(status);
}

} // verus!
