//! The presenter's content: every line the triage workflow prints, built
//! as an exact character sequence, and the advisory color that precedes
//! each category of message. Writing, flushing and color switching stay
//! with the caller; this module only says what the text is.
use vstd::prelude::*;

use crate::branch::BranchInfo;
use crate::branch::BranchKind;
use crate::branch::TriageError;
use crate::branch::branch_type_to_str;
use crate::branch::kind_label;
use crate::git::git_error_text;
use crate::text::char_text;
use crate::text::dec_of;
use crate::text::usize_text;

verus! {

/// The advisory foreground color preceding a category of message.
#[derive(Clone, Copy, Debug, PartialEq, Eq, Structural)]
pub enum ColorHint {
    /// Summary and informational lines.
    Yellow,
    /// The prompt for a local branch.
    Green,
    /// The prompt for a remote branch.
    Cyan,
    /// The action prompt itself.
    Blue,
    /// Deletion and refusal notices.
    Red,
    /// The restoration hint.
    White,
}

/// The prompt color of a branch kind: green for local, cyan for remote.
pub fn prompt_color(kind: BranchKind) -> (c: ColorHint)
    ensures
        kind == BranchKind::Local ==> c == ColorHint::Green,
        kind == BranchKind::Remote ==> c == ColorHint::Cyan,
{
    match kind {
        BranchKind::Local => ColorHint::Green,
        BranchKind::Remote => ColorHint::Cyan,
    }
}

/// The timestamp text chrono renders for the given seconds value.
pub uninterp spec fn time_text_of(seconds: i64) -> Seq<char>;

/// Relies on chrono::DateTime::from_timestamp and the Display of
/// chrono::NaiveDateTime: the text depends on the seconds value alone, and
/// a value is returned for every timestamp within chrono's representable
/// range, which reaches beyond 250,000 years either side of the epoch.
#[verifier::external_body]
fn chrono_time_text(seconds: i64) -> (r: Option<String>)
    ensures
        r matches Some(s) ==> s@ == time_text_of(seconds),
        -8_000_000_000_000 <= seconds <= 8_000_000_000_000 ==> r is Some,
{
    match chrono::DateTime::from_timestamp(seconds, 0) {
        Some(t) => Some(format!("{}", t.naive_utc())),
        None => None,
    }
}

/// The least commit time whose prompt the presenter renders.
pub open spec fn min_render_time() -> int {
    -8_000_000_000_000
}

/// The greatest commit time whose prompt the presenter renders.
pub open spec fn max_render_time() -> int {
    8_000_000_000_000
}

/// The first ten characters of the commit id after the leading one,
/// matching the established display convention.
pub fn short_commit_id(b: &BranchInfo) -> (r: String)
    requires
        b.id@.len() >= 11,
    ensures
        r@ == b.id@.subrange(1, 11),
{
    String::from_str(b.id.as_str().substring_char(1, 11))
}

/// The full prompt rendered for one branch: its kind and name, the commit
/// time in the commit's own timezone frame, the shortened commit id, and
/// the commit's author and summary.
pub open spec fn prompt_text_spec(b: BranchInfo) -> Seq<char> {
    "\n\r'"@ + kind_label(b.kind) + "' ("@ + b.name@ + ")\n\r\tlast commit as "@ + time_text_of(
        b.commit_time,
    ) + "\n\r\tlast commit id: "@ + b.id@.subrange(1, 11) + " \n\r\tcommit author: "@
        + b.commit_author@ + " \n\r\tcommit summary: "@ + b.commit_summary@ + "\n\r"@
}

/// Builds the prompt text for the branch under review.
pub fn branch_prompt_text(b: &BranchInfo) -> (r: String)
    requires
        b.id@.len() >= 11,
        min_render_time() <= b.commit_time <= max_render_time(),
    ensures
        r@ == prompt_text_spec(*b),
{
    let mut s = String::new();
    s.append("\n\r'");
    s.append(branch_type_to_str(b.kind));
    s.append("' (");
    s.append(b.name.as_str());
    s.append(")\n\r\tlast commit as ");
    let t = match chrono_time_text(b.commit_time) {
        Some(t) => t,
        None => {
            proof {
                assert(false);
            }
            String::new()
        },
    };
    s.append(t.as_str());
    s.append("\n\r\tlast commit id: ");
    let sid = short_commit_id(b);
    s.append(sid.as_str());
    s.append(" \n\r\tcommit author: ");
    s.append(b.commit_author.as_str());
    s.append(" \n\r\tcommit summary: ");
    s.append(b.commit_summary.as_str());
    s.append("\n\r");
    proof {
        assert(s@ =~= prompt_text_spec(*b));
    }
    s
}

/// The action prompt shown after a branch, before blocking for one key.
pub fn action_prompt_text() -> (r: String)
    ensures
        r@ == "(k/d/q/?) > "@,
{
    String::from_str("(k/d/q/?) > ")
}

/// The help menu printed when the user presses `?`.
pub fn help_text() -> (r: String)
    ensures
        r@
            == "select from the following:\r\n\tk - Keep the branch\r\n\td - Delete the branch\r\n\tq - Quit\r\n\t? - Help\r\n"@,
{
    String::from_str(
        "select from the following:\r\n\tk - Keep the branch\r\n\td - Delete the branch\r\n\tq - Quit\r\n\t? - Help\r\n",
    )
}

/// The notice shown instead of a prompt when the branch under review is
/// the checked-out one.
pub fn skip_notice_text(b: &BranchInfo) -> (r: String)
    ensures
        r@ == "Ignoring current branch: '"@ + b.name@ + "'\r\n"@,
{
    let mut s = String::from_str("Ignoring current branch: '");
    s.append(b.name.as_str());
    s.append("'\r\n");
    proof {
        assert(s@ =~= "Ignoring current branch: '"@ + b.name@ + "'\r\n"@);
    }
    s
}

/// The confirmation printed after a local branch was deleted.
pub fn deleted_notice_text(b: &BranchInfo) -> (r: String)
    ensures
        r@ == "'"@ + b.name@ + "' was deleted.\r\n "@,
{
    let mut s = String::from_str("'");
    s.append(b.name.as_str());
    s.append("' was deleted.\r\n ");
    proof {
        assert(s@ =~= "'"@ + b.name@ + "' was deleted.\r\n "@);
    }
    s
}

/// The restoration hint printed after a deletion: the command the user
/// could run to recreate the branch at the same commit, holding the
/// branch's original name and its original commit id.
pub fn undo_hint_text(b: &BranchInfo) -> (r: String)
    ensures
        r@ == "to undo, run:\r\n \tgit branch "@ + b.name@ + " "@ + b.id@ + "\r\n\n"@,
{
    let mut s = String::from_str("to undo, run:\r\n \tgit branch ");
    s.append(b.name.as_str());
    s.append(" ");
    s.append(b.id.as_str());
    s.append("\r\n\n");
    proof {
        assert(s@ =~= "to undo, run:\r\n \tgit branch "@ + b.name@ + " "@ + b.id@ + "\r\n\n"@);
    }
    s
}

/// The fixed refusal printed when deletion of a remote branch is asked
/// for; the repository is never touched in that case.
pub fn refusal_text() -> (r: String)
    ensures
        r@
            == "\tI don't want to be responsible for deleting remote branches. \n\r\tgithub.com has a great interface for such endeavours.\r\n"@,
{
    String::from_str(
        "\tI don't want to be responsible for deleting remote branches. \n\r\tgithub.com has a great interface for such endeavours.\r\n",
    )
}

/// The summary header: how many branches were found, split by kind.
pub fn summary_header_text(total: usize, local: usize, remote: usize) -> (r: String)
    ensures
        r@ == dec_of(total as nat) + " Total Branches Found ("@ + dec_of(local as nat)
            + " Local and "@ + dec_of(remote as nat) + " Remote)\n\r"@,
{
    let mut s = usize_text(total);
    s.append(" Total Branches Found (");
    let l = usize_text(local);
    s.append(l.as_str());
    s.append(" Local and ");
    let m = usize_text(remote);
    s.append(m.as_str());
    s.append(" Remote)\n\r");
    proof {
        assert(s@ =~= dec_of(total as nat) + " Total Branches Found ("@ + dec_of(local as nat)
            + " Local and "@ + dec_of(remote as nat) + " Remote)\n\r"@);
    }
    s
}

/// The notice shown when no branch survives the filter, naming the
/// protected set.
pub fn empty_notice_text() -> (r: String)
    ensures
        r@
            == "No branches found. Ignoring: {\"origin/main\", \"main\", \"origin/master\", \"master\", \"origin/default\", \"origin/HEAD\", \"default\"}\r\n"@,
{
    String::from_str(
        "No branches found. Ignoring: {\"origin/main\", \"main\", \"origin/master\", \"master\", \"origin/default\", \"origin/HEAD\", \"default\"}\r\n",
    )
}

/// The message of an error, as the diagnostic stream shows it.
pub fn error_text(e: &TriageError) -> (r: String)
    ensures
        e matches TriageError::InvalidInput(c) ==> r@ == "Invalid input, dont know '"@
            + seq![*c] + "'"@,
        e matches TriageError::InvalidEncoding ==> r@ == "invalid utf-8 sequence in branch name"@,
        e matches TriageError::TimeOutOfRange ==> r@ == "commit time out of range"@,
{
    match e {
        TriageError::InvalidInput(c) => {
            let mut s = String::from_str("Invalid input, dont know '");
            let t = char_text(*c);
            s.append(t.as_str());
            s.append("'");
            proof {
                assert(s@ =~= "Invalid input, dont know '"@ + seq![*c] + "'"@);
            }
            s
        },
        TriageError::InvalidEncoding => String::from_str("invalid utf-8 sequence in branch name"),
        TriageError::TimeOutOfRange => String::from_str("commit time out of range"),
        TriageError::Repository(ge) => git_error_text(ge),
    }
}

} // verus!
