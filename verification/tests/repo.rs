//! Integration tests running the collector and the deletion path against a
//! real repository on disk.
use branch_triage::branch::BranchKind;
use branch_triage::collect::get_branches;
use branch_triage::engine::Triage;
use branch_triage::engine::TriageStep;
use branch_triage::git::delete_branch;

/// Creates a repository with an initial commit on `master` and one commit
/// per entry of `branches`, each with the given committer timestamp.
fn repo_with_branches(dir: &std::path::Path, branches: &[(&str, i64)]) -> git2::Repository {
    let repo = git2::Repository::init(dir).unwrap();
    {
        let sig = git2::Signature::new(
            "Ann Author",
            "ann@example.com",
            &git2::Time::new(100, 0),
        )
        .unwrap();
        let tree_id = {
            let mut index = repo.index().unwrap();
            index.write_tree().unwrap()
        };
        let tree = repo.find_tree(tree_id).unwrap();
        repo.commit(Some("HEAD"), &sig, &sig, "initial", &tree, &[])
            .unwrap();
        let head = repo.head().unwrap().peel_to_commit().unwrap();
        for (name, time) in branches {
            let sig = git2::Signature::new(
                "Ann Author",
                "ann@example.com",
                &git2::Time::new(*time, 0),
            )
            .unwrap();
            let tree = head.tree().unwrap();
            let oid = repo
                .commit(None, &sig, &sig, &format!("work on {}", name), &tree, &[&head])
                .unwrap();
            let commit = repo.find_commit(oid).unwrap();
            repo.branch(name, &commit, true).unwrap();
        }
    }
    repo
}

#[test]
fn collects_sorted_unprotected_branches() {
    let dir = tempfile::tempdir().unwrap();
    let repo = repo_with_branches(dir.path(), &[("feature-y", 2000), ("feature-x", 1000)]);
    let out = get_branches(&repo, None, false).unwrap();
    let names: Vec<&str> = out.iter().map(|b| b.name.as_str()).collect();
    assert_eq!(names, vec!["feature-x", "feature-y"]);
    assert_eq!(out[0].commit_time, 1000);
    assert_eq!(out[1].commit_time, 2000);
    assert_eq!(out[0].kind, BranchKind::Local);
    assert_eq!(out[0].commit_author, "Ann Author");
    assert_eq!(out[0].commit_summary, "work on feature-x");
    assert_eq!(out[0].id.len(), 40);
    assert!(!out[0].is_head);
}

#[test]
fn filter_restricts_collection() {
    let dir = tempfile::tempdir().unwrap();
    let repo = repo_with_branches(dir.path(), &[("feature-x", 1000), ("bugfix", 2000)]);
    let out = get_branches(&repo, Some(&String::from("FEAT")), false).unwrap();
    let names: Vec<&str> = out.iter().map(|b| b.name.as_str()).collect();
    assert_eq!(names, vec!["feature-x"]);
}

#[test]
fn remote_tracking_branches_are_seen_and_local_only_hides_them() {
    let dir = tempfile::tempdir().unwrap();
    let repo = repo_with_branches(dir.path(), &[("feature-x", 1000)]);
    let oid = repo
        .find_branch("feature-x", git2::BranchType::Local)
        .unwrap()
        .get()
        .peel_to_commit()
        .unwrap()
        .id();
    repo.reference("refs/remotes/origin/feature-r", oid, true, "test")
        .unwrap();
    let all = get_branches(&repo, None, false).unwrap();
    let kinds: Vec<(String, BranchKind)> = all
        .iter()
        .map(|b| (b.name.clone(), b.kind))
        .collect();
    assert!(kinds.contains(&(String::from("origin/feature-r"), BranchKind::Remote)));
    let local = get_branches(&repo, None, true).unwrap();
    assert!(local.iter().all(|b| b.kind == BranchKind::Local));
    assert!(local.iter().any(|b| b.name == "feature-x"));
}

#[test]
fn head_branch_is_flagged_and_skipped() {
    let dir = tempfile::tempdir().unwrap();
    let repo = repo_with_branches(dir.path(), &[("feature-x", 1000), ("feature-y", 2000)]);
    repo.set_head("refs/heads/feature-x").unwrap();
    let out = get_branches(&repo, None, false).unwrap();
    assert_eq!(out[0].name, "feature-x");
    assert!(out[0].is_head);
    assert!(!out[1].is_head);
    let t = Triage::new();
    assert_eq!(t.step(&out), TriageStep::SkipHead);
}

#[test]
fn deleting_a_local_branch_removes_exactly_that_reference() {
    let dir = tempfile::tempdir().unwrap();
    let repo = repo_with_branches(dir.path(), &[("feature-x", 1000), ("feature-y", 2000)]);
    delete_branch(&repo, "feature-x").unwrap();
    assert!(repo
        .find_branch("feature-x", git2::BranchType::Local)
        .is_err());
    assert!(repo
        .find_branch("feature-y", git2::BranchType::Local)
        .is_ok());
    assert!(repo.find_branch("master", git2::BranchType::Local).is_ok());
}

#[test]
fn deleting_a_missing_branch_reports_a_repository_error() {
    let dir = tempfile::tempdir().unwrap();
    let repo = repo_with_branches(dir.path(), &[]);
    let r = delete_branch(&repo, "no-such-branch");
    assert!(matches!(
        r,
        Err(branch_triage::branch::TriageError::Repository(_))
    ));
}
