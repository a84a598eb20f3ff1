use simple_git::safety::{
    assess_begin, assess_commits, classify_subject, default_vocabulary, AssessStart, CommitOrigin,
    MarkerRule,
};

fn subjects(lines: &[&str]) -> Vec<String> {
    lines.iter().map(|s| s.to_string()).collect()
}

fn assess(count: usize, lines: &[&str], engine: &str) -> simple_git::safety::ResetSafetyInfo {
    assess_commits(count, subjects(lines), engine, &default_vocabulary())
}

fn classify(subject: &str, engine: &str) -> CommitOrigin {
    classify_subject(subject, engine, &default_vocabulary())
}

#[test]
fn target_equal_to_head_is_safe() {
    match assess_begin("abc123", "abc123") {
        AssessStart::AlreadyAtTarget(info) => {
            assert_eq!(info.commits_to_lose, 0);
            assert!(!info.has_other_engine_commits);
            assert!(!info.has_user_commits);
            assert!(info.commits_summary.is_empty());
            assert!(info.safe_to_proceed);
            assert!(info.warning.is_none());
        },
        AssessStart::NeedHistory => panic!("no history is needed when the target is the head"),
    }
}

#[test]
fn different_target_needs_history() {
    assert!(matches!(assess_begin("abc123", "def456"), AssessStart::NeedHistory));
}

#[test]
fn three_current_engine_commits_are_safe() {
    let info = assess(
        3,
        &["[Nova] fix tests", "[Nova Workbench] checkpoint", "[Nova] edit main"],
        "nova",
    );
    assert_eq!(info.commits_to_lose, 3);
    assert!(!info.has_other_engine_commits);
    assert!(!info.has_user_commits);
    assert!(info.safe_to_proceed);
    assert!(info.warning.is_none());
    assert_eq!(info.commits_summary.len(), 3);
}

#[test]
fn unmarked_commit_counts_as_user() {
    let info = assess(3, &["[Nova] fix tests", "refactor parser", "[Nova] edit main"], "nova");
    assert!(info.has_user_commits);
    assert!(!info.has_other_engine_commits);
    assert!(!info.safe_to_proceed);
    assert_eq!(info.warning.as_deref(), Some("1 manual user commits would be lost"));
}

#[test]
fn five_same_engine_commits_pass_the_threshold() {
    let info = assess(
        5,
        &["[Nova] a", "[Nova] b", "[Nova] c", "[Nova] d", "[Nova] e"],
        "nova",
    );
    assert!(info.safe_to_proceed);
    assert!(info.warning.is_none());
}

#[test]
fn six_same_engine_commits_fail_the_threshold() {
    let info = assess(
        6,
        &["[Nova] a", "[Nova] b", "[Nova] c", "[Nova] d", "[Nova] e", "[Nova] f"],
        "nova",
    );
    assert!(!info.safe_to_proceed);
    assert_eq!(
        info.warning.as_deref(),
        Some("Losing 6 commits may roll back a large amount of code changes"),
    );
}

#[test]
fn other_engine_commit_blocks_the_reset() {
    let info = assess(2, &["[Codex] rewrite", "[Nova] fix"], "nova");
    assert!(info.has_other_engine_commits);
    assert!(!info.has_user_commits);
    assert!(!info.safe_to_proceed);
    assert_eq!(info.warning.as_deref(), Some("1 commits from another engine would be lost"));
}

#[test]
fn both_warnings_are_joined_in_order() {
    let info = assess(2, &["[Gemini] rewrite", "hand edit"], "nova");
    assert!(info.has_other_engine_commits);
    assert!(info.has_user_commits);
    assert_eq!(
        info.warning.as_deref(),
        Some("1 commits from another engine would be lost; 1 manual user commits would be lost"),
    );
}

#[test]
fn merge_commit_is_neither_user_nor_engine() {
    let info = assess(1, &["Merge branch 'main' into feature"], "nova");
    assert!(!info.has_user_commits);
    assert!(!info.has_other_engine_commits);
    assert!(info.safe_to_proceed);
}

#[test]
fn adding_a_commit_never_makes_an_unsafe_reset_safe() {
    let mut lines = vec![
        "[Nova] a".to_string(),
        "[Nova] b".to_string(),
        "[Nova] c".to_string(),
        "[Nova] d".to_string(),
        "[Nova] e".to_string(),
        "[Nova] f".to_string(),
    ];
    let before = assess_commits(6, lines.clone(), "nova", &default_vocabulary());
    assert!(!before.safe_to_proceed);
    lines.push("hand edit".to_string());
    let after = assess_commits(7, lines, "nova", &default_vocabulary());
    assert!(!after.safe_to_proceed);
}

#[test]
fn summary_is_truncated_for_display() {
    let lines: Vec<String> = (0..12).map(|i| format!("[Nova] change {}", i)).collect();
    let info = assess_commits(12, lines, "nova", &default_vocabulary());
    assert_eq!(info.commits_summary.len(), 10);
    assert_eq!(info.commits_summary[0], "[Nova] change 0");
    assert_eq!(info.commits_summary[9], "[Nova] change 9");
}

#[test]
fn classify_current_engine_markers() {
    assert_eq!(classify("[Nova] fix", "nova"), CommitOrigin::CurrentEngine);
    assert_eq!(classify("[Nova Workbench] init", "nova"), CommitOrigin::CurrentEngine);
    assert_eq!(classify("[Codex] fix", "codex"), CommitOrigin::CurrentEngine);
    assert_eq!(classify("[Gemini] fix", "gemini"), CommitOrigin::CurrentEngine);
}

#[test]
fn classify_other_engine_markers() {
    assert_eq!(classify("[Codex] fix", "nova"), CommitOrigin::OtherEngine);
    assert_eq!(classify("[Nova] fix", "codex"), CommitOrigin::OtherEngine);
    assert_eq!(classify("[Gemini] fix", "codex"), CommitOrigin::OtherEngine);
}

#[test]
fn unknown_engine_owns_no_marker() {
    assert_eq!(classify("[Nova] fix", "other"), CommitOrigin::OtherEngine);
    assert_eq!(classify("plain edit", "other"), CommitOrigin::User);
}

#[test]
fn classify_merge_is_case_insensitive() {
    assert_eq!(classify("Merge branch 'x'", "nova"), CommitOrigin::Merge);
    assert_eq!(classify("MERGE remote", "nova"), CommitOrigin::Merge);
    assert_eq!(classify("automerge of queue", "nova"), CommitOrigin::Merge);
}

#[test]
fn classify_plain_subject_as_user() {
    assert_eq!(classify("fix typo in readme", "nova"), CommitOrigin::User);
}

#[test]
fn vocabulary_is_configuration_not_law() {
    let deployment = vec![
        MarkerRule { marker: "[Falcon".to_string(), engine_id: "falcon".to_string() },
        MarkerRule { marker: "[Falcon Workbench]".to_string(), engine_id: "falcon".to_string() },
        MarkerRule { marker: "[Kestrel]".to_string(), engine_id: "kestrel".to_string() },
    ];
    assert_eq!(
        classify_subject("[Falcon] fix", "falcon", &deployment),
        CommitOrigin::CurrentEngine,
    );
    assert_eq!(
        classify_subject("[Falcon Workbench] bootstrap", "falcon", &deployment),
        CommitOrigin::CurrentEngine,
    );
    assert_eq!(
        classify_subject("[Kestrel] rewrite", "falcon", &deployment),
        CommitOrigin::OtherEngine,
    );
    // A tag outside this deployment's vocabulary is not recognized at all.
    assert_eq!(classify_subject("[Nova] fix", "falcon", &deployment), CommitOrigin::User);
    let info = assess_commits(
        2,
        vec!["[Kestrel] rewrite".to_string(), "[Falcon] fix".to_string()],
        "falcon",
        &deployment,
    );
    assert!(info.has_other_engine_commits);
    assert!(!info.safe_to_proceed);
}
