//! The interactive decision engine: a state machine over the sorted triage
//! list that says, for each position, whether the caller must show the
//! skip notice for the checked-out branch, prompt for one keystroke, or
//! stop, and that resolves each keystroke into the action to perform.
use vstd::prelude::*;

use crate::branch::BranchAction;
use crate::branch::BranchInfo;
use crate::branch::BranchKind;
use crate::branch::TriageError;

verus! {

/// What the engine asks of its caller at the current position.
#[derive(Clone, Copy, Debug, PartialEq, Eq, Structural)]
pub enum TriageStep {
    /// The branch under review is checked out: show the skip notice and
    /// move on without prompting.
    SkipHead,
    /// Render the branch and block for one keystroke.
    Prompt,
    /// Nothing is left to review.
    Done,
}

/// What one resolved keystroke obliges the caller to do.
#[derive(Clone, Copy, Debug, PartialEq, Eq, Structural)]
pub enum InputAction {
    /// Print the help menu and prompt the same branch again.
    ShowHelp,
    /// Keep the branch; nothing to do.
    Kept,
    /// Delete the local branch under review and print the restoration hint.
    DeleteLocal,
    /// The branch is remote: print the refusal and mutate nothing.
    RefuseRemote,
    /// Stop the whole review, leaving every remaining branch untouched.
    Quit,
}

/// The engine's position in the sorted triage list.
#[derive(Clone, Copy, Debug, PartialEq, Eq, Structural)]
pub struct Triage {
    pub idx: usize,
    pub finished: bool,
}

impl Triage {
    /// What the engine asks for at this position: done past the end or
    /// after a quit, a skip notice for the checked-out branch, and a
    /// prompt for every other branch.
    pub open spec fn step_spec(self, branches: Seq<BranchInfo>) -> TriageStep {
        if self.finished || self.idx >= branches.len() {
            TriageStep::Done
        } else if branches[self.idx as int].is_head {
            TriageStep::SkipHead
        } else {
            TriageStep::Prompt
        }
    }

    /// A fresh engine, standing before the first branch.
    pub fn new() -> (t: Triage)
        ensures
            t.idx == 0 && !t.finished,
    {
        Triage { idx: 0, finished: false }
    }

    /// The step the caller must take at the current position.
    pub fn step(&self, branches: &Vec<BranchInfo>) -> (s: TriageStep)
        ensures
            s == self.step_spec(branches@),
    {
        if self.finished || self.idx >= branches.len() {
            TriageStep::Done
        } else if branches[self.idx].is_head {
            TriageStep::SkipHead
        } else {
            TriageStep::Prompt
        }
    }

    /// The branch under review.
    pub fn current<'a>(&self, branches: &'a Vec<BranchInfo>) -> (b: &'a BranchInfo)
        requires
            self.idx < branches@.len(),
        ensures
            *b == branches@[self.idx as int],
    {
        &branches[self.idx]
    }

    /// Acknowledges the skip notice for the checked-out branch and moves
    /// past it; the branch is kept without ever being prompted.
    pub fn skip_head(&mut self, branches: &Vec<BranchInfo>)
        requires
            old(self).step_spec(branches@) == TriageStep::SkipHead,
        ensures
            final(self).idx == old(self).idx + 1,
            final(self).finished == old(self).finished,
    {
        let n = branches.len();
        assert(self.idx < n);
        self.idx = self.idx + 1;
    }

    /// Resolves one keystroke for the branch under review: `?` asks for
    /// the help menu and leaves the position unchanged, `k` keeps and
    /// advances, `d` advances and asks for deletion of a local branch or
    /// for the refusal on a remote one, `q` finishes the review on the
    /// spot, and any other keystroke is an invalid-input error that leaves
    /// the engine unchanged.
    pub fn process_user_request(&mut self, branches: &Vec<BranchInfo>, byte: u8) -> (r: Result<
        InputAction,
        TriageError,
    >)
        requires
            old(self).step_spec(branches@) == TriageStep::Prompt,
        ensures
            ({
                let c = byte as char;
                let b = branches@[old(self).idx as int];
                let same = *final(self) == *old(self);
                let advanced = final(self).idx == old(self).idx + 1 && !final(self).finished;
                &&& c == '?' ==> r == Ok::<InputAction, TriageError>(InputAction::ShowHelp) && same
                &&& c == 'k' ==> r == Ok::<InputAction, TriageError>(InputAction::Kept) && advanced
                &&& c == 'd' && b.kind == BranchKind::Local ==> r == Ok::<InputAction, TriageError>(
                    InputAction::DeleteLocal,
                ) && advanced
                &&& c == 'd' && b.kind == BranchKind::Remote ==> r == Ok::<
                    InputAction,
                    TriageError,
                >(InputAction::RefuseRemote) && advanced
                &&& c == 'q' ==> r == Ok::<InputAction, TriageError>(InputAction::Quit)
                    && final(self).finished && final(self).idx == old(self).idx
                &&& c != '?' && c != 'k' && c != 'd' && c != 'q' ==> (r matches Err(e) && e matches
                    TriageError::InvalidInput(cc) && cc == c) && same
            }),
    {
        let c = byte as char;
        if c == '?' {
            return Ok(InputAction::ShowHelp);
        }
        let n = branches.len();
        assert(self.idx < n);
        match BranchAction::try_from(c) {
            Err(e) => Err(e),
            Ok(BranchAction::Keep) => {
                self.idx = self.idx + 1;
                Ok(InputAction::Kept)
            },
            Ok(BranchAction::Delete) => {
                let kind = branches[self.idx].kind;
                self.idx = self.idx + 1;
                match kind {
                    BranchKind::Local => Ok(InputAction::DeleteLocal),
                    BranchKind::Remote => Ok(InputAction::RefuseRemote),
                }
            },
            Ok(BranchAction::Quit) => {
                self.finished = true;
                Ok(InputAction::Quit)
            },
        }
    }
}

/// The checked-out branch is never put to a prompt: wherever the engine
/// asks for a keystroke, the branch under review is not the head.
pub proof fn lemma_head_never_prompted(t: Triage, branches: Seq<BranchInfo>)
    requires
        t.step_spec(branches) == TriageStep::Prompt,
    ensures
        t.idx < branches.len(),
        !branches[t.idx as int].is_head,
{
}

/// Once the review is finished — by quitting or by walking past the last
/// branch — the engine never asks for anything again, so the branches it
/// never reached stay untouched.
pub proof fn lemma_finished_stays_done(t: Triage, branches: Seq<BranchInfo>)
    requires
        t.finished,
    ensures
        t.step_spec(branches) == TriageStep::Done,
{
}

} // verus!
