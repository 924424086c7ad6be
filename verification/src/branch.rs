//! The branch record and the user-facing action vocabulary of the triage
//! workflow: what a branch is, the two branch kinds, the keep/delete/quit
//! actions, and the error taxonomy that every fatal outcome falls under.
use vstd::prelude::*;

verus! {

/// Whether a branch lives in the working repository or mirrors a remote one.
#[derive(Clone, Copy, Debug, PartialEq, Eq, Structural)]
pub enum BranchKind {
    Local,
    Remote,
}

/// One discovered branch, normalized to plain values: the tip commit's
/// full hex id, the branch name, author and summary of the tip commit
/// (with sentinels where the repository reports none), the branch kind,
/// the commit time in the commit's own timezone frame (seconds since the
/// epoch plus the recorded offset), and whether this branch is checked out.
#[derive(Clone, Debug)]
pub struct BranchInfo {
    pub id: String,
    pub name: String,
    pub commit_author: String,
    pub commit_summary: String,
    pub kind: BranchKind,
    pub commit_time: i64,
    pub is_head: bool,
}

/// What one keystroke resolves to for the branch under review.
#[derive(Clone, Copy, Debug, PartialEq, Eq, Structural)]
pub enum BranchAction {
    Keep,
    Delete,
    Quit,
}

/// Every failure the triage workflow can surface; all of them are fatal
/// to the whole run.
#[derive(Debug)]
pub enum TriageError {
    /// A branch name was not valid UTF-8.
    InvalidEncoding,
    /// A keystroke outside the recognized set.
    InvalidInput(char),
    /// A commit time that cannot be normalized within a 64-bit second count.
    TimeOutOfRange,
    /// Any failure reported by the repository library.
    Repository(git2::Error),
}

/// The display label of a branch kind.
pub open spec fn kind_label(kind: BranchKind) -> Seq<char> {
    match kind {
        BranchKind::Local => "local"@,
        BranchKind::Remote => "remote"@,
    }
}

/// Maps a branch kind to the label shown in prompts: `Local` is shown as
/// `"local"` and `Remote` as `"remote"`, and nothing else ever comes out.
pub fn branch_type_to_str(branch_type: BranchKind) -> (r: &'static str)
    ensures
        r@ == kind_label(branch_type),
{
    match branch_type {
        BranchKind::Local => "local",
        BranchKind::Remote => "remote",
    }
}

impl BranchAction {
    /// Maps one keystroke to an action: `k` keeps, `d` deletes, `q` quits,
    /// and every other character is rejected as invalid input naming that
    /// character.
    pub fn try_from(value: char) -> (r: Result<BranchAction, TriageError>)
        ensures
            value == 'k' ==> r == Ok::<BranchAction, TriageError>(BranchAction::Keep),
            value == 'd' ==> r == Ok::<BranchAction, TriageError>(BranchAction::Delete),
            value == 'q' ==> r == Ok::<BranchAction, TriageError>(BranchAction::Quit),
            value != 'k' && value != 'd' && value != 'q' ==> (r matches Err(e) && e matches
                TriageError::InvalidInput(c) && c == value),
    {
        match value {
            'k' => Ok(BranchAction::Keep),
            'd' => Ok(BranchAction::Delete),
            'q' => Ok(BranchAction::Quit),
            _ => Err(TriageError::InvalidInput(value)),
        }
    }
}

} // verus!
