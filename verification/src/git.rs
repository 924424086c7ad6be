//! The trusted boundary to the repository library: type declarations for
//! the handles the workflow carries, and one small wrapper per library
//! call that the collector and the deletion path rely on.
use vstd::prelude::*;

use crate::branch::BranchKind;
use crate::branch::TriageError;

verus! {

#[verifier::external_type_specification]
#[verifier::external_body]
pub struct ExRepository(git2::Repository);

#[verifier::external_type_specification]
#[verifier::external_body]
pub struct ExGitBranch<'repo>(git2::Branch<'repo>);

#[verifier::external_type_specification]
#[verifier::external_body]
pub struct ExBranchType(git2::BranchType);

#[verifier::external_type_specification]
#[verifier::external_body]
pub struct ExCommit<'repo>(git2::Commit<'repo>);

#[verifier::external_type_specification]
#[verifier::external_body]
pub struct ExGitError(git2::Error);

/// Relies on git2::Repository::branches and the Iterator impl of
/// git2::Branches: yields every branch reference of the repository, or
/// only the local ones when `local_only` is set, each with its kind.
#[verifier::external_body]
pub(crate) fn branches_of<'repo>(repo: &'repo git2::Repository, local_only: bool) -> (r: Result<
    Vec<(git2::Branch<'repo>, git2::BranchType)>,
    git2::Error,
>)
{
    let filter = if local_only {
        Some(git2::BranchType::Local)
    } else {
        None
    };
    repo.branches(filter)?.collect()
}

/// Relies on git2::BranchType having exactly the two variants Local and
/// Remote; this maps each to the library's own kind.
#[verifier::external_body]
pub(crate) fn branch_kind_of(t: &git2::BranchType) -> BranchKind {
    match t {
        git2::BranchType::Local => BranchKind::Local,
        git2::BranchType::Remote => BranchKind::Remote,
    }
}

/// Relies on git2::Branch::name_bytes: the branch's short name as raw bytes.
#[verifier::external_body]
pub(crate) fn branch_name_bytes(b: &git2::Branch<'_>) -> Result<Vec<u8>, git2::Error> {
    Ok(b.name_bytes()?.to_vec())
}

/// Relies on git2::Branch::is_head: whether HEAD points at this branch.
#[verifier::external_body]
pub(crate) fn branch_is_head(b: &git2::Branch<'_>) -> bool {
    b.is_head()
}

/// Relies on git2::Branch::get and git2::Reference::peel_to_commit: the
/// commit this branch reference resolves to.
#[verifier::external_body]
pub(crate) fn branch_tip_commit<'repo>(b: &git2::Branch<'repo>) -> Result<git2::Commit<'repo>, git2::Error> {
    b.get().peel_to_commit()
}

/// Relies on git2::Commit::time and git2::Time::seconds /
/// git2::Time::offset_minutes: the commit's recorded seconds since the
/// epoch and its recorded UTC offset in minutes.
#[verifier::external_body]
pub(crate) fn commit_time_parts(c: &git2::Commit<'_>) -> (i64, i32) {
    let t = c.time();
    (t.seconds(), t.offset_minutes())
}

/// Relies on git2::Commit::author and git2::Signature::name: the author
/// name of the commit, or None where the repository records none that
/// decodes as UTF-8.
#[verifier::external_body]
pub(crate) fn commit_author_name(c: &git2::Commit<'_>) -> Option<String> {
    match c.author().name() {
        Ok(s) => Some(s.to_owned()),
        Err(_) => None,
    }
}

/// Relies on git2::Commit::summary: the first line of the commit message,
/// or None where there is none that decodes as UTF-8.
#[verifier::external_body]
pub(crate) fn commit_summary_text(c: &git2::Commit<'_>) -> Option<String> {
    match c.summary() {
        Ok(Some(s)) => Some(s.to_owned()),
        _ => None,
    }
}

/// Relies on git2::Commit::id and the Display impl of git2::Oid, which
/// hex-encodes the 20-byte object id into exactly 40 characters.
#[verifier::external_body]
pub(crate) fn commit_id_hex(c: &git2::Commit<'_>) -> (r: String)
    ensures
        r@.len() == 40,
{
    format!("{}", c.id())
}

/// Relies on git2::Repository::find_branch and git2::Branch::delete:
/// looks the named local branch up and deletes exactly that reference.
#[verifier::external_body]
pub(crate) fn delete_found_branch(repo: &git2::Repository, name: &str) -> Result<(), git2::Error> {
    repo.find_branch(name, git2::BranchType::Local)?.delete()
}

/// Relies on git2::Error::message: the human-readable text of the error.
#[verifier::external_body]
pub(crate) fn git_error_text(e: &git2::Error) -> String {
    e.message().to_owned()
}

/// Deletes the named local branch reference from the repository, mapping
/// any repository failure into the library's error type.
pub fn delete_branch(repo: &git2::Repository, name: &str) -> (r: Result<(), TriageError>)
    ensures
        r matches Err(e) ==> e matches TriageError::Repository(_),
{
    match delete_found_branch(repo, name) {
        Ok(()) => Ok(()),
        Err(e) => Err(TriageError::Repository(e)),
    }
}

} // verus!
