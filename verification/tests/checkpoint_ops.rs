use simple_git::checkpoint::{
    default_bootstrap_commit_message, default_bootstrap_identity_email, default_bootstrap_identity_name, commit_begin,
    commit_resume, ensure_begin, ensure_resume, reset_outcome, stash_begin, stash_resume,
    CommitPhase, CommitStep, EnsurePhase, EnsureStep, StashPhase, StashStep,
};
use simple_git::command::{range_argument, CmdOutcome, GitAction};
use simple_git::inspect::{parse_count, parse_head, parse_log};

fn run_result(exit_success: bool, stdout: &str, stderr: &str) -> CmdOutcome {
    CmdOutcome { exit_success, stdout: stdout.to_string(), stderr: stderr.to_string() }
}

#[test]
fn commit_all_starts_with_the_status() {
    assert!(matches!(
        commit_begin(),
        CommitStep::Run(CommitPhase::CheckingStatus, GitAction::QueryStatus)
    ));
}

#[test]
fn commit_all_on_clean_tree_commits_nothing() {
    let step = commit_resume(CommitPhase::CheckingStatus, &run_result(true, "  \n", ""));
    match step {
        CommitStep::Done(committed) => assert!(!committed),
        _ => panic!("a clean tree is a normal outcome, not a failure"),
    }
}

#[test]
fn commit_all_stages_then_commits() {
    let step = commit_resume(CommitPhase::CheckingStatus, &run_result(true, "M  a.rs\n", ""));
    assert!(matches!(step, CommitStep::Run(CommitPhase::Staging, GitAction::StageAll)));
    let step = commit_resume(CommitPhase::Staging, &run_result(true, "", ""));
    assert!(matches!(step, CommitStep::Run(CommitPhase::Committing, GitAction::CommitStaged)));
    let step = commit_resume(CommitPhase::Committing, &run_result(true, "", ""));
    match step {
        CommitStep::Done(committed) => assert!(committed),
        _ => panic!("the commit was created"),
    }
}

#[test]
fn commit_all_propagates_status_failure() {
    let step = commit_resume(CommitPhase::CheckingStatus, &run_result(false, "", "boom"));
    match step {
        CommitStep::Fatal(e) => assert_eq!(e, "Git status failed: boom"),
        _ => panic!("a failed status is environmental"),
    }
}

#[test]
fn commit_all_propagates_staging_failure() {
    let step = commit_resume(CommitPhase::Staging, &run_result(false, "", "disk full"));
    match step {
        CommitStep::Fatal(e) => assert_eq!(e, "Git add failed: disk full"),
        _ => panic!("a failed staging is environmental"),
    }
}

#[test]
fn commit_all_propagates_commit_failure() {
    let step = commit_resume(CommitPhase::Committing, &run_result(false, "", "no identity"));
    match step {
        CommitStep::Fatal(e) => assert_eq!(e, "Git commit failed: no identity"),
        _ => panic!("a failed commit is environmental"),
    }
}

#[test]
fn ensure_leaves_a_repository_with_history_untouched() {
    let step = ensure_begin(true);
    assert!(matches!(step, EnsureStep::Run(EnsurePhase::ProbingHead, GitAction::ResolveHead)));
    let step = ensure_resume(EnsurePhase::ProbingHead, &run_result(true, "abc123\n", ""));
    match step {
        EnsureStep::Done(initialized) => assert!(!initialized),
        _ => panic!("a repository with history needs no bootstrap"),
    }
}

#[test]
fn ensure_bootstraps_a_missing_repository() {
    let step = ensure_begin(false);
    assert!(matches!(step, EnsureStep::Run(EnsurePhase::Initializing, GitAction::Init)));
    let step = ensure_resume(EnsurePhase::Initializing, &run_result(true, "", ""));
    assert!(matches!(step, EnsureStep::Run(EnsurePhase::ConfiguringName, GitAction::ConfigName)));
    let step = ensure_resume(EnsurePhase::ConfiguringName, &run_result(false, "", "ignored"));
    assert!(matches!(step, EnsureStep::Run(EnsurePhase::ConfiguringEmail, GitAction::ConfigEmail)));
    let step = ensure_resume(EnsurePhase::ConfiguringEmail, &run_result(true, "", ""));
    assert!(matches!(step, EnsureStep::Run(EnsurePhase::StagingAll, GitAction::StageAll)));
    let step = ensure_resume(EnsurePhase::StagingAll, &run_result(false, "", "nothing to add"));
    assert!(matches!(
        step,
        EnsureStep::Run(EnsurePhase::CommittingInitial, GitAction::CommitInitial)
    ));
    let step = ensure_resume(EnsurePhase::CommittingInitial, &run_result(true, "", ""));
    match step {
        EnsureStep::Done(initialized) => assert!(initialized),
        _ => panic!("the bootstrap ends with the initial commit"),
    }
}

#[test]
fn ensure_skips_init_when_the_directory_exists_without_commits() {
    let step = ensure_resume(EnsurePhase::ProbingHead, &run_result(false, "", "no commits yet"));
    assert!(matches!(step, EnsureStep::Run(EnsurePhase::ConfiguringName, GitAction::ConfigName)));
}

#[test]
fn ensure_propagates_init_failure() {
    let step = ensure_resume(EnsurePhase::Initializing, &run_result(false, "", "denied"));
    match step {
        EnsureStep::Fatal(e) => assert_eq!(e, "Git init failed: denied"),
        _ => panic!("a failed init is environmental"),
    }
}

#[test]
fn ensure_propagates_initial_commit_failure() {
    let step = ensure_resume(EnsurePhase::CommittingInitial, &run_result(false, "", "broken"));
    match step {
        EnsureStep::Fatal(e) => assert_eq!(e, "Failed to create initial commit: broken"),
        _ => panic!("a failed initial commit is environmental"),
    }
}

#[test]
fn stash_with_nothing_to_shelve_is_a_noop() {
    assert!(matches!(
        stash_begin(),
        StashStep::Run(StashPhase::CheckingStatus, GitAction::QueryStatus)
    ));
    let step = stash_resume(StashPhase::CheckingStatus, &run_result(true, "", ""));
    assert!(matches!(step, StashStep::Done));
}

#[test]
fn stash_shelves_and_swallows_failures() {
    let step = stash_resume(StashPhase::CheckingStatus, &run_result(true, "M  a.rs\n", ""));
    assert!(matches!(step, StashStep::Run(StashPhase::Saving, GitAction::StashSave)));
    let step = stash_resume(StashPhase::Saving, &run_result(false, "", "stash failed"));
    assert!(matches!(step, StashStep::Done));
}

#[test]
fn reset_outcome_reports_success_and_failure() {
    assert!(reset_outcome(&run_result(true, "", "")).is_ok());
    let e = reset_outcome(&run_result(false, "", "bad target")).unwrap_err();
    assert_eq!(e, "Git reset failed: bad target");
}

#[test]
fn head_is_trimmed_from_stdout() {
    let r = parse_head(&run_result(true, "  deadbeef\n", ""));
    assert_eq!(r.unwrap(), "deadbeef");
}

#[test]
fn head_failure_is_reported() {
    let e = parse_head(&run_result(false, "", "not a repository")).unwrap_err();
    assert_eq!(e, "Git rev-parse failed: not a repository");
}

#[test]
fn count_is_parsed_from_stdout() {
    assert_eq!(parse_count(&run_result(true, "42\n", "")).unwrap(), 42);
}

#[test]
fn count_failure_and_garbage_are_reported() {
    let e = parse_count(&run_result(false, "", "bad range")).unwrap_err();
    assert_eq!(e, "Git rev-list failed: bad range");
    let e = parse_count(&run_result(true, "many\n", "")).unwrap_err();
    assert_eq!(e, "Failed to parse commit count");
}

#[test]
fn log_keeps_only_nonblank_lines_verbatim() {
    let r = parse_log(&run_result(true, "[Nova] a\nsecond line\n\n  \n spaced \n", ""));
    assert_eq!(r.unwrap(), vec!["[Nova] a", "second line", " spaced "]);
}

#[test]
fn log_failure_is_reported() {
    let e = parse_log(&run_result(false, "", "unknown revision")).unwrap_err();
    assert_eq!(e, "Git log failed: unknown revision");
}

#[test]
fn range_argument_joins_the_two_ends() {
    assert_eq!(range_argument("abc", "def"), "abc..def");
}

#[test]
fn bootstrap_constants_carry_the_workbench_identity() {
    assert_eq!(default_bootstrap_identity_name(), "Nova Workbench");
    assert_eq!(default_bootstrap_identity_email(), "ai@nova.workbench");
    assert_eq!(
        default_bootstrap_commit_message(),
        "[Nova Workbench] Initial commit - preserving existing code"
    );
}
