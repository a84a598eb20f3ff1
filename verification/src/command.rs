//! The interface between the decision logic and the version-control engine:
//! the commands the logic can ask for and the observed outcome of one run.

use vstd::prelude::*;

verus! {

/// One version-control command for a driver to run against the working tree.
///
/// The driver supplies the repository path and, where a command needs them,
/// the range, target or message of the operation it is driving.
#[derive(Clone, Copy, Debug, PartialEq, Eq, Structural)]
pub enum GitAction {
    /// `rev-parse HEAD`: resolve the current head reference.
    ResolveHead,
    /// `rev-list --count <from>..<to>`: count commits in the half-open range.
    CountRange,
    /// `log --format=%s <from>..<to>`: subject lines in the range, newest first.
    LogRange,
    /// `status --porcelain`: one line per working-tree change.
    QueryStatus,
    /// `add -A`: stage every change.
    StageAll,
    /// `commit -m <message>`: commit what is staged.
    CommitStaged,
    /// `revert --no-commit <from>..<to>`: stage the inverse of the range.
    RevertNoCommit,
    /// `revert --abort`: return the tree to its state before the revert.
    AbortRevert,
    /// `reset --hard <target>`: move head to the target, discarding history.
    ResetHard,
    /// `stash save -u <message>`: shelve uncommitted changes.
    StashSave,
    /// `init`: create an empty repository.
    Init,
    /// `config user.name <name>`: set the commit identity's name.
    ConfigName,
    /// `config user.email <address>`: set the commit identity's address.
    ConfigEmail,
    /// `commit --allow-empty -m <bootstrap message>`: the first commit.
    CommitInitial,
}

/// The textual form of a half-open range, as the range-taking commands
/// expect it on their command line.
pub fn range_argument(from: &str, to: &str) -> (r: String)
    ensures
        r@ == from@ + ".."@ + to@,
{
    let mut s = from.to_owned();
    s.append("..");
    s.append(to);
    s
}

/// Outcome of one version-control command, as the driver observed it:
/// whether the process exited with status zero, and its two streams as text.
pub struct CmdOutcome {
    pub exit_success: bool,
    pub stdout: String,
    pub stderr: String,
}

/// Mathematical image of a command outcome.
#[verifier::ext_equal]
pub struct OutcomeView {
    pub ok: bool,
    pub out: Seq<char>,
    pub err: Seq<char>,
}

impl View for CmdOutcome {
    type V = OutcomeView;

    open spec fn view(&self) -> OutcomeView {
        OutcomeView { ok: self.exit_success, out: self.stdout@, err: self.stderr@ }
    }
}

} // verus!
