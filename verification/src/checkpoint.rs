//! The checkpoint committer: committing every working-tree change under a
//! message, shelving uncommitted changes, bootstrapping a repository that
//! has no history yet, and the hard reset's outcome reading.
//!
//! Each multi-command operation is a step machine in the style of the
//! [revert engine](crate::revert): the library decides, a driver runs the
//! commands.

use vstd::prelude::*;

use crate::command::{CmdOutcome, GitAction, OutcomeView};
use crate::inspect::working_tree_clean;
use crate::safety::{default_vocabulary_view, is_engine_marked, rule_matches};
use crate::text::{concat_str, contains_at, is_blank};

verus! {

/// Where a commit-all operation stands, between two commands.
#[derive(Clone, Copy, Debug, PartialEq, Eq, Structural)]
pub enum CommitPhase {
    /// Asking whether there is anything to commit.
    CheckingStatus,
    /// There is; staging every change.
    Staging,
    /// Everything is staged; committing under the caller's message.
    Committing,
}

/// One step of a commit-all operation.
pub enum CommitStep {
    /// Run the command, then call [`commit_resume`] with the outcome.
    Run(CommitPhase, GitAction),
    /// Finished: `true` when a commit was created, `false` when the tree
    /// was already clean — a normal outcome, not a failure.
    Done(bool),
    /// An environmental failure: propagate this error.
    Fatal(String),
}

/// Mathematical image of a [`CommitStep`].
#[verifier::ext_equal]
pub enum CommitStepView {
    Run(CommitPhase, GitAction),
    Done(bool),
    Fatal(Seq<char>),
}

impl View for CommitStep {
    type V = CommitStepView;

    open spec fn view(&self) -> CommitStepView {
        match self {
            CommitStep::Run(p, a) => CommitStepView::Run(*p, *a),
            CommitStep::Done(committed) => CommitStepView::Done(*committed),
            CommitStep::Fatal(e) => CommitStepView::Fatal(e@),
        }
    }
}

/// A commit-all operation always begins by asking for the tree's status.
pub open spec fn commit_start() -> CommitStepView {
    CommitStepView::Run(CommitPhase::CheckingStatus, GitAction::QueryStatus)
}

/// The next step of a commit-all operation: a clean tree finishes with
/// nothing committed; otherwise every change is staged and committed, and
/// any failing command is fatal.
pub open spec fn commit_transition(phase: CommitPhase, o: OutcomeView) -> CommitStepView {
    match phase {
        CommitPhase::CheckingStatus => {
            if !o.ok {
                CommitStepView::Fatal("Git status failed: "@ + o.err)
            } else if is_blank(o.out) {
                CommitStepView::Done(false)
            } else {
                CommitStepView::Run(CommitPhase::Staging, GitAction::StageAll)
            }
        },
        CommitPhase::Staging => {
            if o.ok {
                CommitStepView::Run(CommitPhase::Committing, GitAction::CommitStaged)
            } else {
                CommitStepView::Fatal("Git add failed: "@ + o.err)
            }
        },
        CommitPhase::Committing => {
            if o.ok {
                CommitStepView::Done(true)
            } else {
                CommitStepView::Fatal("Git commit failed: "@ + o.err)
            }
        },
    }
}

/// Begin committing all working-tree changes, as [`commit_start`] describes.
pub fn commit_begin() -> (step: CommitStep)
    ensures
        step@ == commit_start(),
{
    CommitStep::Run(CommitPhase::CheckingStatus, GitAction::QueryStatus)
}

/// Continue a commit-all operation after one command, exactly as
/// [`commit_transition`] describes.
pub fn commit_resume(phase: CommitPhase, outcome: &CmdOutcome) -> (step: CommitStep)
    ensures
        step@ == commit_transition(phase, outcome@),
{
    match phase {
        CommitPhase::CheckingStatus => {
            if !outcome.exit_success {
                CommitStep::Fatal(concat_str("Git status failed: ", outcome.stderr.as_str()))
            } else if working_tree_clean(outcome) {
                CommitStep::Done(false)
            } else {
                CommitStep::Run(CommitPhase::Staging, GitAction::StageAll)
            }
        },
        CommitPhase::Staging => {
            if outcome.exit_success {
                CommitStep::Run(CommitPhase::Committing, GitAction::CommitStaged)
            } else {
                CommitStep::Fatal(concat_str("Git add failed: ", outcome.stderr.as_str()))
            }
        },
        CommitPhase::Committing => {
            if outcome.exit_success {
                CommitStep::Done(true)
            } else {
                CommitStep::Fatal(concat_str("Git commit failed: ", outcome.stderr.as_str()))
            }
        },
    }
}

/// Where a repository bootstrap stands, between two commands.
#[derive(Clone, Copy, Debug, PartialEq, Eq, Structural)]
pub enum EnsurePhase {
    /// The `.git` directory exists; asking whether any commit does.
    ProbingHead,
    /// No `.git` directory; creating the repository.
    Initializing,
    /// Setting the commit identity's name (best effort).
    ConfiguringName,
    /// Setting the commit identity's address (best effort).
    ConfiguringEmail,
    /// Staging every pre-existing file, so bootstrap never discards them.
    StagingAll,
    /// Creating the initial commit over whatever was staged.
    CommittingInitial,
}

/// One step of a repository bootstrap.
pub enum EnsureStep {
    /// Run the command, then call [`ensure_resume`] with the outcome.
    Run(EnsurePhase, GitAction),
    /// Finished: `true` when an initial commit was created, `false` when
    /// the repository already had history and nothing was done.
    Done(bool),
    /// An environmental failure: propagate this error.
    Fatal(String),
}

/// Mathematical image of an [`EnsureStep`].
#[verifier::ext_equal]
pub enum EnsureStepView {
    Run(EnsurePhase, GitAction),
    Done(bool),
    Fatal(Seq<char>),
}

impl View for EnsureStep {
    type V = EnsureStepView;

    open spec fn view(&self) -> EnsureStepView {
        match self {
            EnsureStep::Run(p, a) => EnsureStepView::Run(*p, *a),
            EnsureStep::Done(initialized) => EnsureStepView::Done(*initialized),
            EnsureStep::Fatal(e) => EnsureStepView::Fatal(e@),
        }
    }
}

/// A bootstrap's first step, from whether a `.git` directory exists: probe
/// for history when it does, create the repository when it does not.
pub open spec fn ensure_start(has_git_dir: bool) -> EnsureStepView {
    if has_git_dir {
        EnsureStepView::Run(EnsurePhase::ProbingHead, GitAction::ResolveHead)
    } else {
        EnsureStepView::Run(EnsurePhase::Initializing, GitAction::Init)
    }
}

/// The next step of a bootstrap. A resolvable head means the repository is
/// ready and untouched. Identity configuration is best effort, and a failed
/// staging is tolerated — there may simply be nothing to add — but a failed
/// `init` or initial commit is fatal.
pub open spec fn ensure_transition(phase: EnsurePhase, o: OutcomeView) -> EnsureStepView {
    match phase {
        EnsurePhase::ProbingHead => {
            if o.ok {
                EnsureStepView::Done(false)
            } else {
                EnsureStepView::Run(EnsurePhase::ConfiguringName, GitAction::ConfigName)
            }
        },
        EnsurePhase::Initializing => {
            if o.ok {
                EnsureStepView::Run(EnsurePhase::ConfiguringName, GitAction::ConfigName)
            } else {
                EnsureStepView::Fatal("Git init failed: "@ + o.err)
            }
        },
        EnsurePhase::ConfiguringName => EnsureStepView::Run(
            EnsurePhase::ConfiguringEmail,
            GitAction::ConfigEmail,
        ),
        EnsurePhase::ConfiguringEmail => EnsureStepView::Run(
            EnsurePhase::StagingAll,
            GitAction::StageAll,
        ),
        EnsurePhase::StagingAll => EnsureStepView::Run(
            EnsurePhase::CommittingInitial,
            GitAction::CommitInitial,
        ),
        EnsurePhase::CommittingInitial => {
            if o.ok {
                EnsureStepView::Done(true)
            } else {
                EnsureStepView::Fatal("Failed to create initial commit: "@ + o.err)
            }
        },
    }
}

/// Begin ensuring the repository exists and has a first commit, exactly as
/// [`ensure_start`] describes. Idempotent: a repository that already has
/// history is left untouched.
pub fn ensure_begin(has_git_dir: bool) -> (step: EnsureStep)
    ensures
        step@ == ensure_start(has_git_dir),
{
    if has_git_dir {
        EnsureStep::Run(EnsurePhase::ProbingHead, GitAction::ResolveHead)
    } else {
        EnsureStep::Run(EnsurePhase::Initializing, GitAction::Init)
    }
}

/// Continue a bootstrap after one command, exactly as [`ensure_transition`]
/// describes.
pub fn ensure_resume(phase: EnsurePhase, outcome: &CmdOutcome) -> (step: EnsureStep)
    ensures
        step@ == ensure_transition(phase, outcome@),
{
    match phase {
        EnsurePhase::ProbingHead => {
            if outcome.exit_success {
                EnsureStep::Done(false)
            } else {
                EnsureStep::Run(EnsurePhase::ConfiguringName, GitAction::ConfigName)
            }
        },
        EnsurePhase::Initializing => {
            if outcome.exit_success {
                EnsureStep::Run(EnsurePhase::ConfiguringName, GitAction::ConfigName)
            } else {
                EnsureStep::Fatal(concat_str("Git init failed: ", outcome.stderr.as_str()))
            }
        },
        EnsurePhase::ConfiguringName => EnsureStep::Run(
            EnsurePhase::ConfiguringEmail,
            GitAction::ConfigEmail,
        ),
        EnsurePhase::ConfiguringEmail => EnsureStep::Run(
            EnsurePhase::StagingAll,
            GitAction::StageAll,
        ),
        EnsurePhase::StagingAll => EnsureStep::Run(
            EnsurePhase::CommittingInitial,
            GitAction::CommitInitial,
        ),
        EnsurePhase::CommittingInitial => {
            if outcome.exit_success {
                EnsureStep::Done(true)
            } else {
                EnsureStep::Fatal(
                    concat_str("Failed to create initial commit: ", outcome.stderr.as_str()),
                )
            }
        },
    }
}

/// Where a shelving operation stands.
#[derive(Clone, Copy, Debug, PartialEq, Eq, Structural)]
pub enum StashPhase {
    /// Asking whether there is anything to shelve.
    CheckingStatus,
    /// There is; shelving it (best effort).
    Saving,
}

/// One step of a shelving operation. Shelving is a defensive auxiliary
/// step: it has no failure outcome of its own, a failed save is logged by
/// the driver and swallowed.
pub enum StashStep {
    /// Run the command, then call [`stash_resume`] with the outcome.
    Run(StashPhase, GitAction),
    /// Finished, whether or not anything was shelved.
    Done,
}

/// Mathematical image of a [`StashStep`].
#[verifier::ext_equal]
pub enum StashStepView {
    Run(StashPhase, GitAction),
    Done,
}

impl View for StashStep {
    type V = StashStepView;

    open spec fn view(&self) -> StashStepView {
        match self {
            StashStep::Run(p, a) => StashStepView::Run(*p, *a),
            StashStep::Done => StashStepView::Done,
        }
    }
}

/// A shelving operation always begins by asking for the tree's status.
pub open spec fn stash_start() -> StashStepView {
    StashStepView::Run(StashPhase::CheckingStatus, GitAction::QueryStatus)
}

/// The next step of a shelving operation: a status with no output at all
/// means nothing to shelve; otherwise the save runs and its outcome is not
/// allowed to fail the operation.
pub open spec fn stash_transition(phase: StashPhase, o: OutcomeView) -> StashStepView {
    match phase {
        StashPhase::CheckingStatus => {
            if o.out.len() == 0 {
                StashStepView::Done
            } else {
                StashStepView::Run(StashPhase::Saving, GitAction::StashSave)
            }
        },
        StashPhase::Saving => StashStepView::Done,
    }
}

/// Begin shelving uncommitted changes, as [`stash_start`] describes.
pub fn stash_begin() -> (step: StashStep)
    ensures
        step@ == stash_start(),
{
    StashStep::Run(StashPhase::CheckingStatus, GitAction::QueryStatus)
}

/// Continue a shelving operation after one command, exactly as
/// [`stash_transition`] describes.
pub fn stash_resume(phase: StashPhase, outcome: &CmdOutcome) -> (step: StashStep)
    ensures
        step@ == stash_transition(phase, outcome@),
{
    match phase {
        StashPhase::CheckingStatus => {
            if outcome.stdout.unicode_len() == 0 {
                proof {
                    assert(outcome@.out.len() == 0);
                }
                StashStep::Done
            } else {
                StashStep::Run(StashPhase::Saving, GitAction::StashSave)
            }
        },
        StashPhase::Saving => StashStep::Done,
    }
}

/// What a hard reset to a target reference returns, read from the outcome
/// of [`GitAction::ResetHard`]: plain success, or the failure text.
pub open spec fn reset_of(o: OutcomeView) -> Result<(), Seq<char>> {
    if o.ok {
        Ok(())
    } else {
        Err("Git reset failed: "@ + o.err)
    }
}

/// Read a hard reset's outcome, exactly as [`reset_of`] describes. The
/// reset itself discards every commit after the target; callers are meant
/// to consult the [safety classifier](crate::safety) first.
pub fn reset_outcome(outcome: &CmdOutcome) -> (r: Result<(), String>)
    ensures
        r matches Ok(u) ==> reset_of(outcome@) == Ok::<(), Seq<char>>(()),
        r matches Err(e) ==> reset_of(outcome@) == Err::<(), Seq<char>>(e@),
{
    if outcome.exit_success {
        Ok(())
    } else {
        Err(concat_str("Git reset failed: ", outcome.stderr.as_str()))
    }
}

/// The commit identity configured during bootstrap, under the default
/// vocabulary. Like the marker vocabulary itself, the identity is
/// configuration: a deployment passes its own to the configuration
/// commands.
pub fn default_bootstrap_identity_name() -> (r: &'static str)
    ensures
        r@ == "Nova Workbench"@,
{
    "Nova Workbench"
}

/// The commit identity's address configured during bootstrap, under the
/// default vocabulary.
pub fn default_bootstrap_identity_email() -> (r: &'static str)
    ensures
        r@ == "ai@nova.workbench"@,
{
    "ai@nova.workbench"
}

/// The initial commit's message under the default vocabulary. It carries
/// the workbench tag, so the safety classifier counts the bootstrap commit
/// as engine-authored; a deployment with its own vocabulary words its
/// bootstrap subject with one of its own tags the same way.
pub fn default_bootstrap_commit_message() -> (r: &'static str)
    ensures
        r@ == "[Nova Workbench] Initial commit - preserving existing code"@,
{
    "[Nova Workbench] Initial commit - preserving existing code"
}

/// Law: the default bootstrap commit carries a tag of the default
/// vocabulary, so the safety classifier never mistakes a bootstrap commit
/// for a user's work.
pub proof fn lemma_bootstrap_commit_is_engine_marked()
    ensures
        is_engine_marked(
            "[Nova Workbench] Initial commit - preserving existing code"@,
            default_vocabulary_view(),
        ),
{
    reveal_strlit("[Nova Workbench] Initial commit - preserving existing code");
    reveal_strlit("[Nova Workbench]");
    let whole = "[Nova Workbench] Initial commit - preserving existing code"@;
    let marker = "[Nova Workbench]"@;
    assert(whole.subrange(0, 16) =~= marker);
    assert(contains_at(whole, marker, 0));
    assert(rule_matches(whole, default_vocabulary_view()[3]));
}

/// How many more commands a commit-all operation can run from this phase.
pub open spec fn commit_phase_rank(phase: CommitPhase) -> nat {
    match phase {
        CommitPhase::CheckingStatus => 3,
        CommitPhase::Staging => 2,
        CommitPhase::Committing => 1,
    }
}

/// How many more commands a bootstrap can run from this phase.
pub open spec fn ensure_phase_rank(phase: EnsurePhase) -> nat {
    match phase {
        EnsurePhase::ProbingHead => 6,
        EnsurePhase::Initializing => 5,
        EnsurePhase::ConfiguringName => 4,
        EnsurePhase::ConfiguringEmail => 3,
        EnsurePhase::StagingAll => 2,
        EnsurePhase::CommittingInitial => 1,
    }
}

/// How many more commands a shelving operation can run from this phase.
pub open spec fn stash_phase_rank(phase: StashPhase) -> nat {
    match phase {
        StashPhase::CheckingStatus => 2,
        StashPhase::Saving => 1,
    }
}

/// Law: every checkpoint operation terminates. Each step of each machine
/// strictly lowers its phase's rank, whatever the commands return, so a
/// driver that performs each requested command always finishes.
pub proof fn lemma_checkpoint_machines_terminate(
    commit_phase: CommitPhase,
    ensure_phase: EnsurePhase,
    stash_phase: StashPhase,
    o: OutcomeView,
)
    ensures
        commit_transition(commit_phase, o) matches CommitStepView::Run(next, a)
            ==> commit_phase_rank(next) < commit_phase_rank(commit_phase),
        ensure_transition(ensure_phase, o) matches EnsureStepView::Run(next, a)
            ==> ensure_phase_rank(next) < ensure_phase_rank(ensure_phase),
        stash_transition(stash_phase, o) matches StashStepView::Run(next, a)
            ==> stash_phase_rank(next) < stash_phase_rank(stash_phase),
{
}

} // verus!
