use simple_git::command::{CmdOutcome, GitAction};
use simple_git::revert::{revert_begin, revert_message, revert_resume, RevertPhase, RevertStep};

fn outcome(exit_success: bool, stdout: &str, stderr: &str) -> CmdOutcome {
    CmdOutcome { exit_success, stdout: stdout.to_string(), stderr: stderr.to_string() }
}

#[test]
fn empty_range_returns_immediate_success() {
    match revert_begin("abc123", "abc123") {
        RevertStep::Done(r) => {
            assert!(r.success);
            assert_eq!(r.commits_reverted, 0);
            assert!(r.new_commit.is_none());
            assert!(!r.has_conflicts);
            assert_eq!(r.message, "No code changes to revert");
        },
        _ => panic!("an empty range must finish at once"),
    }
}

#[test]
fn distinct_range_counts_first() {
    match revert_begin("abc123", "def456") {
        RevertStep::Run(RevertPhase::Counting, action) => {
            assert_eq!(action, GitAction::CountRange);
        },
        _ => panic!("a non-empty range must be counted first"),
    }
}

#[test]
fn count_read_from_stdout() {
    let step = revert_resume(RevertPhase::Counting, &outcome(true, "3\n", ""));
    match step {
        RevertStep::Run(RevertPhase::Reverting(count), action) => {
            assert_eq!(count, 3);
            assert_eq!(action, GitAction::RevertNoCommit);
        },
        _ => panic!("counting must lead to the staged revert"),
    }
}

#[test]
fn count_failure_falls_back_to_one() {
    let step = revert_resume(RevertPhase::Counting, &outcome(false, "", "fatal: bad revision"));
    match step {
        RevertStep::Run(RevertPhase::Reverting(count), action) => {
            assert_eq!(count, 1);
            assert_eq!(action, GitAction::RevertNoCommit);
        },
        _ => panic!("a failed count is informational and must not abort"),
    }
}

#[test]
fn successful_staged_revert_checks_status() {
    let step = revert_resume(RevertPhase::Reverting(2), &outcome(true, "", ""));
    match step {
        RevertStep::Run(RevertPhase::CheckingStatus(count), action) => {
            assert_eq!(count, 2);
            assert_eq!(action, GitAction::QueryStatus);
        },
        _ => panic!("a successful staged revert must query the status"),
    }
}

#[test]
fn conflict_is_aborted_then_reported() {
    let stderr = "error: could not revert abc123\nCONFLICT (content): conflict in src/lib.rs\nhint: resolve the conflicts\nhint: and commit";
    let step = revert_resume(RevertPhase::Reverting(2), &outcome(false, "", stderr));
    let report = match step {
        RevertStep::Run(RevertPhase::Aborting(report), action) => {
            assert_eq!(action, GitAction::AbortRevert);
            report
        },
        _ => panic!("a conflict must lead to the abort"),
    };
    assert!(!report.success);
    assert!(report.has_conflicts);
    assert!(report.new_commit.is_none());
    assert!(report.message.contains("Details: error: could not revert abc123\nCONFLICT (content): conflict in src/lib.rs\nhint: resolve the conflicts"));
    assert!(!report.message.contains("and commit"));
    let after_abort = revert_resume(RevertPhase::Aborting(report), &outcome(true, "", ""));
    match after_abort {
        RevertStep::Done(r) => {
            assert!(!r.success);
            assert!(r.has_conflicts);
        },
        _ => panic!("the step after the abort must finish"),
    }
}

#[test]
fn lowercase_conflict_text_is_recognized() {
    let step = revert_resume(RevertPhase::Reverting(1), &outcome(false, "", "merge conflict in a.txt"));
    assert!(matches!(step, RevertStep::Run(RevertPhase::Aborting(_), GitAction::AbortRevert)));
}

#[test]
fn other_revert_failure_is_fatal() {
    let step = revert_resume(RevertPhase::Reverting(1), &outcome(false, "", "fatal: bad object"));
    match step {
        RevertStep::Fatal(e) => assert_eq!(e, "Git revert failed: fatal: bad object"),
        _ => panic!("a non-conflict failure must be fatal"),
    }
}

#[test]
fn clean_tree_after_revert_is_a_noop() {
    let step = revert_resume(RevertPhase::CheckingStatus(4), &outcome(true, "  \n", ""));
    match step {
        RevertStep::Done(r) => {
            assert!(r.success);
            assert_eq!(r.commits_reverted, 4);
            assert!(r.new_commit.is_none());
            assert!(!r.has_conflicts);
            assert_eq!(r.message, "The code already matches the target state; nothing to change");
        },
        _ => panic!("a clean tree means the range was already undone"),
    }
}

#[test]
fn staged_changes_are_committed() {
    let step = revert_resume(RevertPhase::CheckingStatus(2), &outcome(true, "M  src/lib.rs\n", ""));
    match step {
        RevertStep::Run(RevertPhase::Committing(count), action) => {
            assert_eq!(count, 2);
            assert_eq!(action, GitAction::CommitStaged);
        },
        _ => panic!("staged changes must be committed"),
    }
}

#[test]
fn commit_failure_is_fatal() {
    let step = revert_resume(RevertPhase::Committing(2), &outcome(false, "", "nothing to commit"));
    match step {
        RevertStep::Fatal(e) => assert_eq!(e, "Failed to commit revert: nothing to commit"),
        _ => panic!("a failed consolidating commit must be fatal"),
    }
}

#[test]
fn commit_success_resolves_new_head() {
    let step = revert_resume(RevertPhase::Committing(2), &outcome(true, "", ""));
    match step {
        RevertStep::Run(RevertPhase::ResolvingHead(count), action) => {
            assert_eq!(count, 2);
            assert_eq!(action, GitAction::ResolveHead);
        },
        _ => panic!("after the commit the new head is resolved"),
    }
}

#[test]
fn finished_revert_reports_count_and_head() {
    let step = revert_resume(RevertPhase::ResolvingHead(2), &outcome(true, "deadbeef\n", ""));
    match step {
        RevertStep::Done(r) => {
            assert!(r.success);
            assert_eq!(r.commits_reverted, 2);
            assert_eq!(r.new_commit.as_deref(), Some("deadbeef"));
            assert!(!r.has_conflicts);
            assert_eq!(r.message, "Reverted code changes from 2 commits");
        },
        _ => panic!("head resolution is the last step"),
    }
}

#[test]
fn unresolved_head_still_succeeds() {
    let step = revert_resume(RevertPhase::ResolvingHead(1), &outcome(false, "", "boom"));
    match step {
        RevertStep::Done(r) => {
            assert!(r.success);
            assert!(r.new_commit.is_none());
        },
        _ => panic!("a failed head resolution must not fail the revert"),
    }
}

#[test]
fn revert_message_names_prompt_and_range() {
    let m = revert_message(3, "0123456789abcdef", "fedcba9876543210");
    assert_eq!(m, "[Revert] Undo code changes of prompt #3 (01234567..fedcba98)");
}

#[test]
fn revert_message_keeps_short_references_whole() {
    let m = revert_message(12, "abc", "de");
    assert_eq!(m, "[Revert] Undo code changes of prompt #12 (abc..de)");
}
