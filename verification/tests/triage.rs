//! Unit tests for the branch record, the collector's pure pipeline, the
//! decision engine and the presenter text.
use branch_triage::branch::BranchAction;
use branch_triage::branch::BranchInfo;
use branch_triage::branch::BranchKind;
use branch_triage::branch::TriageError;
use branch_triage::branch::branch_type_to_str;
use branch_triage::collect::RawBranchData;
use branch_triage::collect::extract;
use branch_triage::collect::filter_and_sort;
use branch_triage::collect::is_protected;
use branch_triage::collect::keeps_branch;
use branch_triage::collect::count_kind;
use branch_triage::engine::InputAction;
use branch_triage::engine::Triage;
use branch_triage::engine::TriageStep;
use branch_triage::render::ColorHint;
use branch_triage::render::action_prompt_text;
use branch_triage::render::branch_prompt_text;
use branch_triage::render::deleted_notice_text;
use branch_triage::render::error_text;
use branch_triage::render::help_text;
use branch_triage::render::prompt_color;
use branch_triage::render::refusal_text;
use branch_triage::render::short_commit_id;
use branch_triage::render::skip_notice_text;
use branch_triage::render::summary_header_text;
use branch_triage::render::undo_hint_text;
use branch_triage::text::contains_sub;
use branch_triage::text::usize_text;

const ID_A: &str = "a0123456789bcdef0123456789abcdef01234567";
const ID_B: &str = "b111111111111111111111111111111111111111";

fn mk(name: &str, kind: BranchKind, time: i64, head: bool) -> BranchInfo {
    BranchInfo {
        id: String::from(ID_A),
        name: String::from(name),
        commit_author: String::from("Ann Author"),
        commit_summary: String::from("a change"),
        kind,
        commit_time: time,
        is_head: head,
    }
}

#[test]
fn test_branch_type_to_str_a() {
    let result = branch_type_to_str(BranchKind::Local);
    assert!("remote" != result);
    assert!("local" == result);
}

#[test]
fn test_branch_type_to_str_b() {
    let result = branch_type_to_str(BranchKind::Remote);
    assert!("remote" == result);
    assert!("local" != result);
}

#[test]
fn action_mapping() {
    assert!(matches!(BranchAction::try_from('k'), Ok(BranchAction::Keep)));
    assert!(matches!(BranchAction::try_from('d'), Ok(BranchAction::Delete)));
    assert!(matches!(BranchAction::try_from('q'), Ok(BranchAction::Quit)));
    assert!(matches!(
        BranchAction::try_from('x'),
        Err(TriageError::InvalidInput('x'))
    ));
}

#[test]
fn extract_normalizes_the_record() {
    let raw = RawBranchData {
        name_bytes: b"feature-x".to_vec(),
        id_hex: String::from(ID_A),
        seconds: 1000,
        offset_minutes: 2,
        author: Some(String::from("Ann Author")),
        summary: None,
        is_head: false,
        kind: BranchKind::Local,
    };
    let b = extract(raw).unwrap();
    assert_eq!(b.name, "feature-x");
    assert_eq!(b.id, ID_A);
    assert_eq!(b.commit_time, 1120);
    assert_eq!(b.commit_author, "Ann Author");
    assert_eq!(b.commit_summary, "no summary");
    assert_eq!(b.kind, BranchKind::Local);
    assert!(!b.is_head);
}

#[test]
fn extract_applies_author_sentinel() {
    let raw = RawBranchData {
        name_bytes: b"x".to_vec(),
        id_hex: String::from(ID_A),
        seconds: -300,
        offset_minutes: -1,
        author: None,
        summary: Some(String::from("did things")),
        is_head: true,
        kind: BranchKind::Remote,
    };
    let b = extract(raw).unwrap();
    assert_eq!(b.commit_author, "no author");
    assert_eq!(b.commit_summary, "did things");
    assert_eq!(b.commit_time, -360);
    assert!(b.is_head);
}

#[test]
fn extract_rejects_invalid_utf8() {
    let raw = RawBranchData {
        name_bytes: vec![0xff, 0xfe, 0x61],
        id_hex: String::from(ID_A),
        seconds: 0,
        offset_minutes: 0,
        author: None,
        summary: None,
        is_head: false,
        kind: BranchKind::Local,
    };
    assert!(matches!(extract(raw), Err(TriageError::InvalidEncoding)));
}

#[test]
fn extract_rejects_time_overflow() {
    let raw = RawBranchData {
        name_bytes: b"x".to_vec(),
        id_hex: String::from(ID_A),
        seconds: i64::MAX,
        offset_minutes: 1,
        author: None,
        summary: None,
        is_head: false,
        kind: BranchKind::Local,
    };
    assert!(matches!(extract(raw), Err(TriageError::TimeOutOfRange)));
}

#[test]
fn protected_names_are_fixed() {
    for name in [
        "main",
        "origin/main",
        "master",
        "origin/master",
        "default",
        "origin/default",
        "origin/HEAD",
    ] {
        assert!(is_protected(&String::from(name)));
    }
    assert!(!is_protected(&String::from("feature-x")));
    assert!(!is_protected(&String::from("Main")));
}

#[test]
fn collected_list_excludes_protected_names() {
    let v = vec![
        mk("main", BranchKind::Local, 10, true),
        mk("feature-x", BranchKind::Local, 5, false),
        mk("origin/HEAD", BranchKind::Remote, 1, false),
    ];
    let out = filter_and_sort(v, None);
    let names: Vec<&str> = out.iter().map(|b| b.name.as_str()).collect();
    assert_eq!(names, vec!["feature-x"]);
}

#[test]
fn filter_matches_case_insensitively() {
    let b = mk("Feature-X", BranchKind::Local, 5, false);
    assert!(keeps_branch(&b, Some(&String::from("fEAture"))));
    assert!(keeps_branch(&b, Some(&String::from(""))));
    assert!(!keeps_branch(&b, Some(&String::from("zzz"))));
    assert!(keeps_branch(&b, None));
}

#[test]
fn filtered_list_honours_the_substring() {
    let v = vec![
        mk("Feature-X", BranchKind::Local, 5, false),
        mk("bugfix", BranchKind::Local, 3, false),
    ];
    let out = filter_and_sort(v, Some(&String::from("FEA")));
    let names: Vec<&str> = out.iter().map(|b| b.name.as_str()).collect();
    assert_eq!(names, vec!["Feature-X"]);
}

#[test]
fn list_is_sorted_by_commit_time_ascending() {
    let v = vec![
        mk("c", BranchKind::Local, 30, false),
        mk("a", BranchKind::Local, 10, false),
        mk("b", BranchKind::Local, 20, false),
    ];
    let out = filter_and_sort(v, None);
    let names: Vec<&str> = out.iter().map(|b| b.name.as_str()).collect();
    assert_eq!(names, vec!["a", "b", "c"]);
}

#[test]
fn sort_is_stable_for_equal_times() {
    let v = vec![
        mk("late", BranchKind::Local, 20, false),
        mk("first", BranchKind::Local, 10, false),
        mk("second", BranchKind::Local, 10, false),
        mk("third", BranchKind::Local, 10, false),
    ];
    let out = filter_and_sort(v, None);
    let names: Vec<&str> = out.iter().map(|b| b.name.as_str()).collect();
    assert_eq!(names, vec!["first", "second", "third", "late"]);
}

#[test]
fn triage_list_scenario() {
    // main is excluded as protected; the two feature branches come out
    // ordered by commit time.
    let v = vec![
        mk("main", BranchKind::Local, 500, true),
        mk("feature-y", BranchKind::Local, 200, false),
        mk("feature-x", BranchKind::Local, 100, false),
    ];
    let out = filter_and_sort(v, None);
    let names: Vec<&str> = out.iter().map(|b| b.name.as_str()).collect();
    assert_eq!(names, vec!["feature-x", "feature-y"]);
}

#[test]
fn counts_by_kind() {
    let v = vec![
        mk("a", BranchKind::Local, 1, false),
        mk("b", BranchKind::Remote, 2, false),
        mk("c", BranchKind::Local, 3, false),
    ];
    assert_eq!(count_kind(&v, BranchKind::Local), 2);
    assert_eq!(count_kind(&v, BranchKind::Remote), 1);
}

#[test]
fn head_branch_is_skipped_not_prompted() {
    let v = vec![
        mk("checked-out", BranchKind::Local, 1, true),
        mk("other", BranchKind::Local, 2, false),
    ];
    let mut t = Triage::new();
    assert_eq!(t.step(&v), TriageStep::SkipHead);
    t.skip_head(&v);
    assert_eq!(t.step(&v), TriageStep::Prompt);
}

#[test]
fn help_then_delete_on_local_branch() {
    // A '?' shows the help once and leaves the engine on the same branch;
    // the following 'd' deletes it.
    let v = vec![mk("feature", BranchKind::Local, 1, false)];
    let mut t = Triage::new();
    assert_eq!(t.step(&v), TriageStep::Prompt);
    let first = t.process_user_request(&v, b'?').unwrap();
    assert_eq!(first, InputAction::ShowHelp);
    assert_eq!(t.step(&v), TriageStep::Prompt);
    let second = t.process_user_request(&v, b'd').unwrap();
    assert_eq!(second, InputAction::DeleteLocal);
    assert_eq!(t.step(&v), TriageStep::Done);
}

#[test]
fn deleting_a_remote_branch_is_refused() {
    let v = vec![mk("origin/feature", BranchKind::Remote, 1, false)];
    let mut t = Triage::new();
    let r = t.process_user_request(&v, b'd').unwrap();
    assert_eq!(r, InputAction::RefuseRemote);
    assert_eq!(
        refusal_text(),
        "\tI don't want to be responsible for deleting remote branches. \n\r\tgithub.com has a great interface for such endeavours.\r\n"
    );
}

#[test]
fn invalid_keystroke_names_the_character() {
    let v = vec![mk("feature", BranchKind::Local, 1, false)];
    let mut t = Triage::new();
    let r = t.process_user_request(&v, b'x');
    match r {
        Err(e) => {
            assert!(matches!(e, TriageError::InvalidInput('x')));
            assert_eq!(error_text(&e), "Invalid input, dont know 'x'");
        }
        Ok(_) => panic!("an unknown keystroke must be rejected"),
    }
    // the engine did not move on
    assert_eq!(t.step(&v), TriageStep::Prompt);
}

#[test]
fn quit_leaves_the_rest_untouched() {
    let v = vec![
        mk("a", BranchKind::Local, 1, false),
        mk("b", BranchKind::Local, 2, false),
        mk("c", BranchKind::Local, 3, false),
    ];
    let mut t = Triage::new();
    let kept = t.process_user_request(&v, b'k').unwrap();
    assert_eq!(kept, InputAction::Kept);
    let quit = t.process_user_request(&v, b'q').unwrap();
    assert_eq!(quit, InputAction::Quit);
    assert_eq!(t.step(&v), TriageStep::Done);
    assert_eq!(t.idx, 1);
}

#[test]
fn prompt_text_is_exact() {
    let b = BranchInfo {
        id: String::from(ID_A),
        name: String::from("feature-x"),
        commit_author: String::from("Ann Author"),
        commit_summary: String::from("a change"),
        kind: BranchKind::Local,
        commit_time: 0,
        is_head: false,
    };
    let expected = "\n\r'local' (feature-x)\n\r\tlast commit as 1970-01-01 00:00:00\n\r\tlast commit id: 0123456789 \n\r\tcommit author: Ann Author \n\r\tcommit summary: a change\n\r";
    assert_eq!(branch_prompt_text(&b), expected);
}

#[test]
fn short_id_skips_the_first_character() {
    let b = mk("x", BranchKind::Local, 0, false);
    assert_eq!(short_commit_id(&b), "0123456789");
}

#[test]
fn undo_hint_holds_name_and_id() {
    let mut b = mk("feature-x", BranchKind::Local, 0, false);
    b.id = String::from(ID_B);
    let hint = undo_hint_text(&b);
    assert_eq!(
        hint,
        format!("to undo, run:\r\n \tgit branch feature-x {}\r\n\n", ID_B)
    );
    assert!(hint.contains("feature-x"));
    assert!(hint.contains(ID_B));
}

#[test]
fn notices_are_exact() {
    let b = mk("feature-x", BranchKind::Local, 0, false);
    assert_eq!(
        skip_notice_text(&b),
        "Ignoring current branch: 'feature-x'\r\n"
    );
    assert_eq!(deleted_notice_text(&b), "'feature-x' was deleted.\r\n ");
    assert_eq!(
        help_text(),
        "select from the following:\r\n\tk - Keep the branch\r\n\td - Delete the branch\r\n\tq - Quit\r\n\t? - Help\r\n"
    );
    assert_eq!(action_prompt_text(), "(k/d/q/?) > ");
}

#[test]
fn summary_header_renders_counts() {
    assert_eq!(
        summary_header_text(12, 10, 2),
        "12 Total Branches Found (10 Local and 2 Remote)\n\r"
    );
    assert_eq!(usize_text(0), "0");
    assert_eq!(usize_text(907), "907");
}

#[test]
fn empty_notice_names_the_protected_set() {
    let text = branch_triage::render::empty_notice_text();
    assert!(text.starts_with("No branches found. Ignoring: "));
    for name in ["main", "master", "default", "origin/HEAD"] {
        assert!(text.contains(name));
    }
}

#[test]
fn prompt_colors_follow_the_kind() {
    assert_eq!(prompt_color(BranchKind::Local), ColorHint::Green);
    assert_eq!(prompt_color(BranchKind::Remote), ColorHint::Cyan);
}

#[test]
fn substring_search_by_characters() {
    assert!(contains_sub("feature-x", "ture"));
    assert!(contains_sub("feature-x", ""));
    assert!(contains_sub("feature-x", "feature-x"));
    assert!(!contains_sub("feat", "feature"));
    assert!(!contains_sub("feature", "trx"));
}
