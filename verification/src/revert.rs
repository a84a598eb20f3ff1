//! The commit-range revert engine.
//!
//! Given a half-open range `from..to` of two historical references, the
//! engine produces a single new commit that undoes exactly the net effect of
//! that range while preserving every commit made afterwards, and detects and
//! gracefully aborts on conflicts.
//!
//! The engine is a step machine: [`revert_begin`] looks at the range and
//! either finishes at once or names the first command to run;
//! [`revert_resume`] takes the phase reached and the outcome of the command
//! just run, and decides the next command, the final report, or a fatal
//! error. A driver performs the commands. Both steps are verified against
//! the transition functions [`revert_start`] and [`revert_transition`],
//! which pin every field of every report.

use vstd::prelude::*;

use crate::command::{CmdOutcome, GitAction, OutcomeView};
use crate::inspect::{count_of, parse_count, working_tree_clean};
use crate::text::{
    concat_str, contains_str, dec_of, is_blank, join_nl, join_prefix_lines, lines_of, prefix_of,
    seq_contains, str_eq, str_prefix, trim, trim_of, usize_to_string,
};

verus! {

/// Terminal report of one revert invocation; never mutated after return.
#[derive(Debug, Clone)]
pub struct RevertResult {
    /// Whether the revert was carried out (or there was nothing to do).
    pub success: bool,
    /// Number of commits in the reverted range, for reporting.
    pub commits_reverted: usize,
    /// The new head reference, when a revert commit was created.
    pub new_commit: Option<String>,
    /// Human-readable account of what happened.
    pub message: String,
    /// Whether a content conflict stopped the revert.
    pub has_conflicts: bool,
}

/// Mathematical image of a [`RevertResult`].
#[verifier::ext_equal]
pub struct RevertReport {
    pub success: bool,
    pub commits_reverted: int,
    pub new_commit: Option<Seq<char>>,
    pub message: Seq<char>,
    pub has_conflicts: bool,
}

impl View for RevertResult {
    type V = RevertReport;

    open spec fn view(&self) -> RevertReport {
        RevertReport {
            success: self.success,
            commits_reverted: self.commits_reverted as int,
            new_commit: match self.new_commit {
                Some(c) => Some(c@),
                None => None,
            },
            message: self.message@,
            has_conflicts: self.has_conflicts,
        }
    }
}

/// Where a revert in progress stands, between two commands.
pub enum RevertPhase {
    /// Counting the commits in the range, for reporting.
    Counting,
    /// The staged range revert is running; the count is carried along.
    Reverting(usize),
    /// A conflict was found; the abort is running and this report follows it.
    Aborting(RevertResult),
    /// The staged revert succeeded; asking whether anything changed.
    CheckingStatus(usize),
    /// Changes are staged; committing them under the caller's message.
    Committing(usize),
    /// The commit was created; resolving the new head reference.
    ResolvingHead(usize),
}

/// Mathematical image of a [`RevertPhase`].
#[verifier::ext_equal]
pub enum RevertPhaseView {
    Counting,
    Reverting(int),
    Aborting(RevertReport),
    CheckingStatus(int),
    Committing(int),
    ResolvingHead(int),
}

impl View for RevertPhase {
    type V = RevertPhaseView;

    open spec fn view(&self) -> RevertPhaseView {
        match self {
            RevertPhase::Counting => RevertPhaseView::Counting,
            RevertPhase::Reverting(c) => RevertPhaseView::Reverting(*c as int),
            RevertPhase::Aborting(r) => RevertPhaseView::Aborting(r@),
            RevertPhase::CheckingStatus(c) => RevertPhaseView::CheckingStatus(*c as int),
            RevertPhase::Committing(c) => RevertPhaseView::Committing(*c as int),
            RevertPhase::ResolvingHead(c) => RevertPhaseView::ResolvingHead(*c as int),
        }
    }
}

/// One step of the engine: run a command and come back, or finish with a
/// report, or stop on an environmental error.
pub enum RevertStep {
    /// Run the command, then call [`revert_resume`] with the phase and the
    /// outcome.
    Run(RevertPhase, GitAction),
    /// The revert is over; hand the report to the caller.
    Done(RevertResult),
    /// An environmental failure: propagate this error, the repository needs
    /// attention.
    Fatal(String),
}

/// Mathematical image of a [`RevertStep`].
#[verifier::ext_equal]
pub enum RevertStepView {
    Run(RevertPhaseView, GitAction),
    Done(RevertReport),
    Fatal(Seq<char>),
}

impl View for RevertStep {
    type V = RevertStepView;

    open spec fn view(&self) -> RevertStepView {
        match self {
            RevertStep::Run(p, a) => RevertStepView::Run(p@, *a),
            RevertStep::Done(r) => RevertStepView::Done(r@),
            RevertStep::Fatal(e) => RevertStepView::Fatal(e@),
        }
    }
}

/// The failure text of the staged revert names a content conflict.
pub open spec fn is_conflict_error(err: Seq<char>) -> bool {
    seq_contains(err, "conflict"@) || seq_contains(err, "CONFLICT"@)
}

pub open spec fn empty_range_message() -> Seq<char> {
    "No code changes to revert"@
}

pub open spec fn noop_message() -> Seq<char> {
    "The code already matches the target state; nothing to change"@
}

pub open spec fn success_message(count: int) -> Seq<char> {
    "Reverted code changes from "@ + dec_of(count as nat) + " commits"@
}

pub open spec fn conflict_message(err: Seq<char>) -> Seq<char> {
    "Conflicts occurred during the revert; it cannot be completed automatically. Resolve them manually, or fall back to deleting only the conversation.\nDetails: "@
        + join_nl(prefix_of(lines_of(err), 3))
}

/// Report for a range with identical endpoints: nothing to undo.
pub open spec fn empty_range_report() -> RevertReport {
    RevertReport {
        success: true,
        commits_reverted: 0,
        new_commit: None,
        message: empty_range_message(),
        has_conflicts: false,
    }
}

/// Report for a conflicting revert, returned after the abort.
pub open spec fn conflict_report(err: Seq<char>) -> RevertReport {
    RevertReport {
        success: false,
        commits_reverted: 0,
        new_commit: None,
        message: conflict_message(err),
        has_conflicts: true,
    }
}

/// Report for a range whose net effect was already absent: not an error.
pub open spec fn noop_report(count: int) -> RevertReport {
    RevertReport {
        success: true,
        commits_reverted: count,
        new_commit: None,
        message: noop_message(),
        has_conflicts: false,
    }
}

/// Report for a completed revert commit.
pub open spec fn success_report(count: int, head: Option<Seq<char>>) -> RevertReport {
    RevertReport {
        success: true,
        commits_reverted: count,
        new_commit: head,
        message: success_message(count),
        has_conflicts: false,
    }
}

/// The engine's first step, from the two ends of the range alone.
pub open spec fn revert_start(before: Seq<char>, after: Seq<char>) -> RevertStepView {
    if before == after {
        RevertStepView::Done(empty_range_report())
    } else {
        RevertStepView::Run(RevertPhaseView::Counting, GitAction::CountRange)
    }
}

/// The engine's next step, from the phase reached and the outcome of the
/// command just run.
pub open spec fn revert_transition(phase: RevertPhaseView, o: OutcomeView) -> RevertStepView {
    match phase {
        RevertPhaseView::Counting => {
            let count = match count_of(o) {
                Ok(n) => n,
                Err(_) => 1,
            };
            RevertStepView::Run(RevertPhaseView::Reverting(count), GitAction::RevertNoCommit)
        },
        RevertPhaseView::Reverting(count) => {
            if o.ok {
                RevertStepView::Run(RevertPhaseView::CheckingStatus(count), GitAction::QueryStatus)
            } else if is_conflict_error(o.err) {
                RevertStepView::Run(
                    RevertPhaseView::Aborting(conflict_report(o.err)),
                    GitAction::AbortRevert,
                )
            } else {
                RevertStepView::Fatal("Git revert failed: "@ + o.err)
            }
        },
        RevertPhaseView::Aborting(report) => RevertStepView::Done(report),
        RevertPhaseView::CheckingStatus(count) => {
            if is_blank(o.out) {
                RevertStepView::Done(noop_report(count))
            } else {
                RevertStepView::Run(RevertPhaseView::Committing(count), GitAction::CommitStaged)
            }
        },
        RevertPhaseView::Committing(count) => {
            if o.ok {
                RevertStepView::Run(RevertPhaseView::ResolvingHead(count), GitAction::ResolveHead)
            } else {
                RevertStepView::Fatal("Failed to commit revert: "@ + o.err)
            }
        },
        RevertPhaseView::ResolvingHead(count) => {
            RevertStepView::Done(
                success_report(
                    count,
                    if o.ok {
                        Some(trim_of(o.out))
                    } else {
                        None
                    },
                ),
            )
        },
    }
}

/// Begin a revert of the half-open range `commit_before..commit_after`,
/// exactly as [`revert_start`] describes: an identical pair finishes at once
/// with success and nothing to undo; otherwise the count query comes first.
pub fn revert_begin(commit_before: &str, commit_after: &str) -> (step: RevertStep)
    ensures
        step@ == revert_start(commit_before@, commit_after@),
{
    if str_eq(commit_before, commit_after) {
        let step = RevertStep::Done(
            RevertResult {
                success: true,
                commits_reverted: 0,
                new_commit: None,
                message: "No code changes to revert".to_owned(),
                has_conflicts: false,
            },
        );
        proof {
            assert(step@ =~= revert_start(commit_before@, commit_after@));
        }
        step
    } else {
        RevertStep::Run(RevertPhase::Counting, GitAction::CountRange)
    }
}

/// Continue a revert after one command, exactly as [`revert_transition`]
/// describes: a failed count falls back to reporting one commit; a failed
/// staged revert distinguishes a content conflict, which is aborted and
/// reported, from an environmental error, which is fatal; a clean tree
/// after the staged revert means the range was already undone; otherwise a
/// single commit consolidates the revert and the new head is resolved.
pub fn revert_resume(phase: RevertPhase, outcome: &CmdOutcome) -> (step: RevertStep)
    ensures
        step@ == revert_transition(phase@, outcome@),
{
    match phase {
        RevertPhase::Counting => {
            let count: usize = match parse_count(outcome) {
                Ok(n) => n,
                Err(_) => 1,
            };
            RevertStep::Run(RevertPhase::Reverting(count), GitAction::RevertNoCommit)
        },
        RevertPhase::Reverting(count) => {
            if outcome.exit_success {
                RevertStep::Run(RevertPhase::CheckingStatus(count), GitAction::QueryStatus)
            } else if contains_str(outcome.stderr.as_str(), "conflict") || contains_str(
                outcome.stderr.as_str(),
                "CONFLICT",
            ) {
                let details = join_prefix_lines(outcome.stderr.as_str(), 3);
                let message = concat_str(
                    "Conflicts occurred during the revert; it cannot be completed automatically. Resolve them manually, or fall back to deleting only the conversation.\nDetails: ",
                    details.as_str(),
                );
                let report = RevertResult {
                    success: false,
                    commits_reverted: 0,
                    new_commit: None,
                    message,
                    has_conflicts: true,
                };
                let step = RevertStep::Run(RevertPhase::Aborting(report), GitAction::AbortRevert);
                proof {
                    assert(step@ =~= revert_transition(phase@, outcome@));
                }
                step
            } else {
                RevertStep::Fatal(concat_str("Git revert failed: ", outcome.stderr.as_str()))
            }
        },
        RevertPhase::Aborting(report) => RevertStep::Done(report),
        RevertPhase::CheckingStatus(count) => {
            if working_tree_clean(outcome) {
                let step = RevertStep::Done(
                    RevertResult {
                        success: true,
                        commits_reverted: count,
                        new_commit: None,
                        message: "The code already matches the target state; nothing to change"
                            .to_owned(),
                        has_conflicts: false,
                    },
                );
                proof {
                    assert(step@ =~= revert_transition(phase@, outcome@));
                }
                step
            } else {
                RevertStep::Run(RevertPhase::Committing(count), GitAction::CommitStaged)
            }
        },
        RevertPhase::Committing(count) => {
            if outcome.exit_success {
                RevertStep::Run(RevertPhase::ResolvingHead(count), GitAction::ResolveHead)
            } else {
                RevertStep::Fatal(concat_str("Failed to commit revert: ", outcome.stderr.as_str()))
            }
        },
        RevertPhase::ResolvingHead(count) => {
            let new_commit: Option<String> = if outcome.exit_success {
                Some(trim(outcome.stdout.as_str()).to_owned())
            } else {
                None
            };
            let mut message = "Reverted code changes from ".to_owned();
            message.append(usize_to_string(count).as_str());
            message.append(" commits");
            let step = RevertStep::Done(
                RevertResult {
                    success: true,
                    commits_reverted: count,
                    new_commit,
                    message,
                    has_conflicts: false,
                },
            );
            proof {
                assert(step@ =~= revert_transition(phase@, outcome@));
            }
            step
        },
    }
}

/// The message a revert request carries: the prompt's number and the
/// shortened ends of the range being undone.
pub open spec fn revert_request_message(
    prompt_index: int,
    before: Seq<char>,
    after: Seq<char>,
) -> Seq<char> {
    "[Revert] Undo code changes of prompt #"@ + dec_of(prompt_index as nat) + " ("@ + prefix_of(
        before,
        8,
    ) + ".."@ + prefix_of(after, 8) + ")"@
}

/// Build the commit message for reverting the range a prompt produced,
/// exactly as [`revert_request_message`] describes.
pub fn revert_message(prompt_index: usize, commit_before: &str, commit_after: &str) -> (m: String)
    ensures
        m@ == revert_request_message(prompt_index as int, commit_before@, commit_after@),
{
    let mut m = "[Revert] Undo code changes of prompt #".to_owned();
    m.append(usize_to_string(prompt_index).as_str());
    m.append(" (");
    m.append(str_prefix(commit_before, 8));
    m.append("..");
    m.append(str_prefix(commit_after, 8));
    m.append(")");
    m
}

/// Law: reverting an empty range is idempotent. Whatever the repository
/// holds, a range whose two ends are the same reference finishes at once
/// with success, zero commits reverted, and no new commit.
pub proof fn lemma_empty_range_idempotent(reference: Seq<char>)
    ensures
        revert_start(reference, reference) matches RevertStepView::Done(r) && r.success
            && r.commits_reverted == 0 && r.new_commit is None && !r.has_conflicts,
{
}

/// Law: a range whose net effect is already absent from the working tree is
/// detected, not an error. When the status query after the staged revert
/// shows a clean tree, the engine finishes with success, the counted range
/// size, and no new commit.
pub proof fn lemma_noop_detected(count: int, o: OutcomeView)
    requires
        is_blank(o.out),
    ensures
        revert_transition(RevertPhaseView::CheckingStatus(count), o)
            matches RevertStepView::Done(r) && r.success && r.commits_reverted == count
            && r.new_commit is None && !r.has_conflicts,
{
}

/// Law: a conflicting revert is aborted before the engine finishes. A failed
/// staged revert whose error names a conflict leads to the abort command and
/// to nothing else; the step after the abort reports the conflict — no
/// success, no new commit — without running any further command.
pub proof fn lemma_conflict_aborts_cleanly(count: int, o: OutcomeView, abort_outcome: OutcomeView)
    requires
        !o.ok,
        is_conflict_error(o.err),
    ensures
        revert_transition(RevertPhaseView::Reverting(count), o) matches RevertStepView::Run(p, a)
            && a == GitAction::AbortRevert && p == RevertPhaseView::Aborting(conflict_report(o.err)),
        revert_transition(RevertPhaseView::Aborting(conflict_report(o.err)), abort_outcome)
            == RevertStepView::Done(conflict_report(o.err)),
        !conflict_report(o.err).success && conflict_report(o.err).has_conflicts && conflict_report(
            o.err,
        ).new_commit is None,
{
}

/// How many more commands a revert can possibly run from this phase.
pub open spec fn revert_phase_rank(phase: RevertPhaseView) -> nat {
    match phase {
        RevertPhaseView::Counting => 5,
        RevertPhaseView::Reverting(_) => 4,
        RevertPhaseView::CheckingStatus(_) => 3,
        RevertPhaseView::Committing(_) => 2,
        RevertPhaseView::ResolvingHead(_) => 1,
        RevertPhaseView::Aborting(_) => 1,
    }
}

/// Law: a revert always terminates. Every step strictly lowers the phase's
/// rank, so a driver that performs each requested command finishes after at
/// most as many commands as the starting rank, whatever the commands return.
pub proof fn lemma_revert_terminates(phase: RevertPhaseView, o: OutcomeView)
    ensures
        revert_transition(phase, o) matches RevertStepView::Run(next, a) ==> revert_phase_rank(
            next,
        ) < revert_phase_rank(phase),
{
}

/// Law: the engine preserves later history. No step it can take asks for the
/// history-discarding hard reset: starting a revert runs at most the range
/// count, and every later step runs only the staged range revert, its abort,
/// the status query, the single consolidating commit, or the head
/// resolution — commands that at most append one new commit on top of the
/// existing history.
pub proof fn lemma_revert_preserves_history(
    before: Seq<char>,
    after: Seq<char>,
    phase: RevertPhaseView,
    o: OutcomeView,
)
    ensures
        revert_start(before, after) matches RevertStepView::Run(p, a) ==> a
            == GitAction::CountRange,
        revert_transition(phase, o) matches RevertStepView::Run(p, a) ==> (a
            == GitAction::RevertNoCommit || a == GitAction::AbortRevert || a
            == GitAction::QueryStatus || a == GitAction::CommitStaged || a
            == GitAction::ResolveHead),
{
}

} // verus!
