//! The destructive-operation safety classifier.
//!
//! Before a hard reset, the commits between the target and the current head
//! are classified by origin — current automation engine, a different
//! automation engine, a human, or a merge — from the textual markers of
//! their subject lines, and a go/no-go recommendation is rendered with a
//! human-readable rationale. Origin is a convention read from subject lines,
//! not a guarantee, so it is recomputed from current history on every call.
//!
//! The marker vocabulary is configuration, not law: classification takes an
//! ordered list of [`MarkerRule`]s, each tying one bracketed tag to the
//! engine that owns it, so a deployment recognizes exactly the tags its own
//! engines write. [`default_vocabulary`] ships the usual shape: a prefix
//! tag and a legacy workbench tag for the resident engine, and one closed
//! tag for each of the two foreign engines.

use vstd::prelude::*;

use crate::text::{
    contains_ci, contains_str, contains_str_ci, dec_of, prefix_of, seq_contains, str_eq,
    usize_to_string, views,
};

verus! {

/// No more commits than this may be reset away silently, even when every
/// one of them came from the current engine.
pub const SAFE_RESET_LIMIT: usize = 5;

/// At most this many subject lines are returned for display.
pub const SUMMARY_DISPLAY_LIMIT: usize = 10;

/// One rule of the marker vocabulary: a subject containing `marker` was
/// written by the engine named `engine_id`. An engine may own several rules
/// (a current tag and a legacy one).
#[derive(Debug, Clone)]
pub struct MarkerRule {
    /// The textual tag looked for in a subject line.
    pub marker: String,
    /// The engine identifier that owns the tag.
    pub engine_id: String,
}

/// Mathematical image of a [`MarkerRule`].
#[verifier::ext_equal]
pub struct MarkerRuleView {
    pub marker: Seq<char>,
    pub engine_id: Seq<char>,
}

impl View for MarkerRule {
    type V = MarkerRuleView;

    open spec fn view(&self) -> MarkerRuleView {
        MarkerRuleView { marker: self.marker@, engine_id: self.engine_id@ }
    }
}

/// The views of a vocabulary's rules.
pub open spec fn rule_views(rules: Seq<MarkerRule>) -> Seq<MarkerRuleView> {
    rules.map_values(|r: MarkerRule| r@)
}

/// Recommendation produced for a requested hard reset; never mutated after
/// return.
#[derive(Debug, Clone)]
pub struct ResetSafetyInfo {
    /// Number of commits a reset to the target would discard.
    pub commits_to_lose: usize,
    /// Whether any of them carries another engine's marker.
    pub has_other_engine_commits: bool,
    /// Whether any of them looks like a manual user commit.
    pub has_user_commits: bool,
    /// Subject lines of the commits at risk, truncated for display.
    pub commits_summary: Vec<String>,
    /// Whether the reset may proceed without a warning.
    pub safe_to_proceed: bool,
    /// The rationale, when it may not.
    pub warning: Option<String>,
}

/// Mathematical image of a [`ResetSafetyInfo`].
#[verifier::ext_equal]
pub struct SafetyView {
    pub commits_to_lose: int,
    pub has_other_engine_commits: bool,
    pub has_user_commits: bool,
    pub commits_summary: Seq<Seq<char>>,
    pub safe_to_proceed: bool,
    pub warning: Option<Seq<char>>,
}

impl View for ResetSafetyInfo {
    type V = SafetyView;

    open spec fn view(&self) -> SafetyView {
        SafetyView {
            commits_to_lose: self.commits_to_lose as int,
            has_other_engine_commits: self.has_other_engine_commits,
            has_user_commits: self.has_user_commits,
            commits_summary: views(self.commits_summary@),
            safe_to_proceed: self.safe_to_proceed,
            warning: match self.warning {
                Some(w) => Some(w@),
                None => None,
            },
        }
    }
}

/// Inferred authorship of one commit, read from its subject line.
#[derive(Clone, Copy, Debug, PartialEq, Eq, Structural)]
pub enum CommitOrigin {
    /// Carries a marker that the calling engine owns.
    CurrentEngine,
    /// Carries a marker a different engine owns.
    OtherEngine,
    /// Carries no marker of the vocabulary and is not a merge message.
    User,
    /// Carries no marker of the vocabulary but mentions a merge.
    Merge,
}

/// The subject contains the rule's tag.
pub open spec fn rule_matches(s: Seq<char>, rule: MarkerRuleView) -> bool {
    seq_contains(s, rule.marker)
}

/// The subject carries some tag of the vocabulary.
pub open spec fn is_engine_marked(s: Seq<char>, vocabulary: Seq<MarkerRuleView>) -> bool {
    exists|k: int| 0 <= k < vocabulary.len() && rule_matches(s, #[trigger] vocabulary[k])
}

/// The subject carries a tag that the calling engine owns.
pub open spec fn is_current_engine_commit(
    s: Seq<char>,
    vocabulary: Seq<MarkerRuleView>,
    engine: Seq<char>,
) -> bool {
    exists|k: int|
        0 <= k < vocabulary.len() && (#[trigger] vocabulary[k]).engine_id == engine
            && rule_matches(s, vocabulary[k])
}

/// The subject carries a tag, but none that the calling engine owns.
pub open spec fn is_other_engine_commit(
    s: Seq<char>,
    vocabulary: Seq<MarkerRuleView>,
    engine: Seq<char>,
) -> bool {
    is_engine_marked(s, vocabulary) && !is_current_engine_commit(s, vocabulary, engine)
}

/// The subject reads like a merge commit's message.
pub open spec fn is_merge_like(s: Seq<char>) -> bool {
    contains_ci(s, "merge"@)
}

/// The subject carries no tag and is no merge: a manual user commit.
pub open spec fn is_user_commit(s: Seq<char>, vocabulary: Seq<MarkerRuleView>) -> bool {
    !is_engine_marked(s, vocabulary) && !is_merge_like(s)
}

/// The origin a subject line is classified as, under a vocabulary, for the
/// given engine.
pub open spec fn classify(
    s: Seq<char>,
    vocabulary: Seq<MarkerRuleView>,
    engine: Seq<char>,
) -> CommitOrigin {
    if is_engine_marked(s, vocabulary) {
        if is_current_engine_commit(s, vocabulary, engine) {
            CommitOrigin::CurrentEngine
        } else {
            CommitOrigin::OtherEngine
        }
    } else if is_merge_like(s) {
        CommitOrigin::Merge
    } else {
        CommitOrigin::User
    }
}

/// Classify one subject line, exactly as [`classify`] describes.
pub fn classify_subject(
    subject: &str,
    current_engine: &str,
    vocabulary: &Vec<MarkerRule>,
) -> (origin: CommitOrigin)
    ensures
        origin == classify(subject@, rule_views(vocabulary@), current_engine@),
{
    let ghost vspec = rule_views(vocabulary@);
    let mut marked = false;
    let mut current = false;
    let mut k: usize = 0;
    while k < vocabulary.len()
        invariant
            vspec == rule_views(vocabulary@),
            k <= vocabulary@.len(),
            marked == (exists|j: int|
                0 <= j < k && rule_matches(subject@, #[trigger] vspec[j])),
            current == (exists|j: int|
                0 <= j < k && (#[trigger] vspec[j]).engine_id == current_engine@
                    && rule_matches(subject@, vspec[j])),
        decreases vocabulary@.len() - k,
    {
        proof {
            assert(vspec[k as int] == vocabulary@[k as int]@);
        }
        if contains_str(subject, vocabulary[k].marker.as_str()) {
            marked = true;
            if str_eq(vocabulary[k].engine_id.as_str(), current_engine) {
                current = true;
            }
        }
        k = k + 1;
    }
    if marked {
        if current {
            CommitOrigin::CurrentEngine
        } else {
            CommitOrigin::OtherEngine
        }
    } else if contains_str_ci(subject, "merge") {
        CommitOrigin::Merge
    } else {
        CommitOrigin::User
    }
}

/// How many of the subjects carry a tag of another engine.
pub open spec fn other_engine_count(
    subjects: Seq<Seq<char>>,
    vocabulary: Seq<MarkerRuleView>,
    engine: Seq<char>,
) -> nat
    decreases subjects.len(),
{
    if subjects.len() == 0 {
        0
    } else {
        other_engine_count(subjects.drop_last(), vocabulary, engine)
            + if is_other_engine_commit(subjects.last(), vocabulary, engine) {
            1nat
        } else {
            0nat
        }
    }
}

/// How many of the subjects look like manual user commits.
pub open spec fn user_commit_count(
    subjects: Seq<Seq<char>>,
    vocabulary: Seq<MarkerRuleView>,
) -> nat
    decreases subjects.len(),
{
    if subjects.len() == 0 {
        0
    } else {
        user_commit_count(subjects.drop_last(), vocabulary) + if is_user_commit(
            subjects.last(),
            vocabulary,
        ) {
            1nat
        } else {
            0nat
        }
    }
}

pub open spec fn other_engine_warning(n: int) -> Seq<char> {
    dec_of(n as nat) + " commits from another engine would be lost"@
}

pub open spec fn user_commit_warning(n: int) -> Seq<char> {
    dec_of(n as nat) + " manual user commits would be lost"@
}

pub open spec fn large_rollback_warning(count: int) -> Seq<char> {
    "Losing "@ + dec_of(count as nat) + " commits may roll back a large amount of code changes"@
}

/// The rationale rendered when the reset is not safe: the counts of
/// other-engine and user commits at risk, in that order, joined with a
/// semicolon; or, when neither triggered, the large-rollback warning.
pub open spec fn warning_text(count: int, oc: int, uc: int) -> Seq<char> {
    if oc > 0 && uc > 0 {
        other_engine_warning(oc) + "; "@ + user_commit_warning(uc)
    } else if oc > 0 {
        other_engine_warning(oc)
    } else if uc > 0 {
        user_commit_warning(uc)
    } else {
        large_rollback_warning(count)
    }
}

/// The full recommendation for a reset that would lose `count` commits with
/// the given subject lines: safe exactly when no other-engine commit, no
/// user commit, and no more than [`SAFE_RESET_LIMIT`] commits are at risk.
pub open spec fn assess_model(
    count: int,
    subjects: Seq<Seq<char>>,
    engine: Seq<char>,
    vocabulary: Seq<MarkerRuleView>,
) -> SafetyView {
    let oc = other_engine_count(subjects, vocabulary, engine);
    let uc = user_commit_count(subjects, vocabulary);
    let safe = oc == 0 && uc == 0 && count <= SAFE_RESET_LIMIT as int;
    SafetyView {
        commits_to_lose: count,
        has_other_engine_commits: oc > 0,
        has_user_commits: uc > 0,
        commits_summary: prefix_of(subjects, SUMMARY_DISPLAY_LIMIT as int),
        safe_to_proceed: safe,
        warning: if safe {
            None
        } else {
            Some(warning_text(count, oc as int, uc as int))
        },
    }
}

/// The recommendation when the target is already the current head: nothing
/// would be lost, the reset is safe, and there is nothing to warn about.
pub open spec fn trivial_safety_view() -> SafetyView {
    SafetyView {
        commits_to_lose: 0,
        has_other_engine_commits: false,
        has_user_commits: false,
        commits_summary: Seq::empty(),
        safe_to_proceed: true,
        warning: None,
    }
}

/// First step of a safety check: either the target is the current head and
/// the answer is immediate, or the range's count and subjects are needed.
pub enum AssessStart {
    /// The target equals the head: this recommendation is final.
    AlreadyAtTarget(ResetSafetyInfo),
    /// Count the range and list its subjects, then call [`assess_commits`].
    NeedHistory,
}

/// Decide whether a reset needs a look at history at all: a target equal to
/// the current head is safe with nothing lost, anything else requires the
/// commits between target and head.
pub fn assess_begin(current_head: &str, target_commit: &str) -> (start: AssessStart)
    ensures
        current_head@ == target_commit@ ==> (start matches AssessStart::AlreadyAtTarget(info)
            && info@ == trivial_safety_view()),
        current_head@ != target_commit@ ==> start is NeedHistory,
{
    if str_eq(current_head, target_commit) {
        let info = ResetSafetyInfo {
            commits_to_lose: 0,
            has_other_engine_commits: false,
            has_user_commits: false,
            commits_summary: Vec::new(),
            safe_to_proceed: true,
            warning: None,
        };
        proof {
            assert(info@ =~= trivial_safety_view());
        }
        AssessStart::AlreadyAtTarget(info)
    } else {
        AssessStart::NeedHistory
    }
}

/// Render the recommendation for a reset that would lose the given commits,
/// exactly as [`assess_model`] describes.
pub fn assess_commits(
    commits_to_lose: usize,
    commits_summary: Vec<String>,
    current_engine: &str,
    vocabulary: &Vec<MarkerRule>,
) -> (info: ResetSafetyInfo)
    ensures
        info@ == assess_model(
            commits_to_lose as int,
            views(commits_summary@),
            current_engine@,
            rule_views(vocabulary@),
        ),
{
    let ghost subjects = views(commits_summary@);
    let ghost vspec = rule_views(vocabulary@);
    let mut other_count: usize = 0;
    let mut user_count: usize = 0;
    let mut i: usize = 0;
    while i < commits_summary.len()
        invariant
            subjects == views(commits_summary@),
            vspec == rule_views(vocabulary@),
            i <= commits_summary@.len(),
            other_count <= i,
            user_count <= i,
            other_count as int == other_engine_count(
                subjects.take(i as int),
                vspec,
                current_engine@,
            ),
            user_count as int == user_commit_count(subjects.take(i as int), vspec),
        decreases commits_summary@.len() - i,
    {
        proof {
            assert(subjects.take(i + 1).drop_last() =~= subjects.take(i as int));
            assert(subjects.take(i + 1).last() == subjects[i as int]);
        }
        let origin = classify_subject(commits_summary[i].as_str(), current_engine, vocabulary);
        if matches!(origin, CommitOrigin::OtherEngine) {
            other_count = other_count + 1;
        }
        if matches!(origin, CommitOrigin::User) {
            user_count = user_count + 1;
        }
        i = i + 1;
    }
    proof {
        assert(subjects.take(subjects.len() as int) =~= subjects);
    }
    let safe = other_count == 0 && user_count == 0 && commits_to_lose <= SAFE_RESET_LIMIT;
    let warning: Option<String> = if safe {
        None
    } else if other_count > 0 && user_count > 0 {
        let mut w = usize_to_string(other_count);
        w.append(" commits from another engine would be lost");
        w.append("; ");
        w.append(usize_to_string(user_count).as_str());
        w.append(" manual user commits would be lost");
        Some(w)
    } else if other_count > 0 {
        let mut w = usize_to_string(other_count);
        w.append(" commits from another engine would be lost");
        Some(w)
    } else if user_count > 0 {
        let mut w = usize_to_string(user_count);
        w.append(" manual user commits would be lost");
        Some(w)
    } else {
        let mut w = "Losing ".to_owned();
        w.append(usize_to_string(commits_to_lose).as_str());
        w.append(" commits may roll back a large amount of code changes");
        Some(w)
    };
    let mut truncated = commits_summary;
    truncated.truncate(SUMMARY_DISPLAY_LIMIT);
    proof {
        if subjects.len() <= SUMMARY_DISPLAY_LIMIT as int {
            assert(views(truncated@) =~= prefix_of(subjects, SUMMARY_DISPLAY_LIMIT as int));
        } else {
            assert(views(truncated@) =~= subjects.take(SUMMARY_DISPLAY_LIMIT as int));
        }
    }
    let info = ResetSafetyInfo {
        commits_to_lose,
        has_other_engine_commits: other_count > 0,
        has_user_commits: user_count > 0,
        commits_summary: truncated,
        safe_to_proceed: safe,
        warning,
    };
    proof {
        assert(info@ =~= assess_model(
            commits_to_lose as int,
            views(commits_summary@),
            current_engine@,
            rule_views(vocabulary@),
        ));
    }
    info
}

/// The vocabulary's default shape: a prefix tag and a legacy workbench tag
/// for the resident engine, and one closed tag for each foreign engine. A
/// deployment whose engines write other tags passes its own rules instead.
pub open spec fn default_vocabulary_view() -> Seq<MarkerRuleView> {
    seq![
        MarkerRuleView { marker: "[Nova"@, engine_id: "nova"@ },
        MarkerRuleView { marker: "[Codex]"@, engine_id: "codex"@ },
        MarkerRuleView { marker: "[Gemini]"@, engine_id: "gemini"@ },
        MarkerRuleView { marker: "[Nova Workbench]"@, engine_id: "nova"@ },
    ]
}

/// Build the default vocabulary, exactly as [`default_vocabulary_view`]
/// describes.
pub fn default_vocabulary() -> (v: Vec<MarkerRule>)
    ensures
        rule_views(v@) == default_vocabulary_view(),
{
    let mut v: Vec<MarkerRule> = Vec::new();
    v.push(MarkerRule { marker: "[Nova".to_owned(), engine_id: "nova".to_owned() });
    v.push(MarkerRule { marker: "[Codex]".to_owned(), engine_id: "codex".to_owned() });
    v.push(MarkerRule { marker: "[Gemini]".to_owned(), engine_id: "gemini".to_owned() });
    v.push(
        MarkerRule { marker: "[Nova Workbench]".to_owned(), engine_id: "nova".to_owned() },
    );
    proof {
        assert(rule_views(v@) =~= default_vocabulary_view());
    }
    v
}

/// Law: safety is monotone in the commits at risk. For a fixed target, one
/// more intervening commit — whatever its origin — never flips the
/// recommendation from unsafe to safe.
pub proof fn lemma_safety_monotone(
    count: int,
    subjects: Seq<Seq<char>>,
    extra: Seq<char>,
    engine: Seq<char>,
    vocabulary: Seq<MarkerRuleView>,
)
    requires
        !assess_model(count, subjects, engine, vocabulary).safe_to_proceed,
    ensures
        !assess_model(count + 1, subjects.push(extra), engine, vocabulary).safe_to_proceed,
{
    assert(subjects.push(extra).drop_last() =~= subjects);
    assert(subjects.push(extra).last() == extra);
    assert(other_engine_count(subjects.push(extra), vocabulary, engine) >= other_engine_count(
        subjects,
        vocabulary,
        engine,
    ));
    assert(user_commit_count(subjects.push(extra), vocabulary) >= user_commit_count(
        subjects,
        vocabulary,
    ));
}

/// Law: the threshold is exact. With no other-engine and no user commits at
/// risk, the recommendation is safe exactly when the count stays within
/// [`SAFE_RESET_LIMIT`]: five such commits pass, six do not.
pub proof fn lemma_threshold_boundary(
    count: int,
    subjects: Seq<Seq<char>>,
    engine: Seq<char>,
    vocabulary: Seq<MarkerRuleView>,
)
    requires
        other_engine_count(subjects, vocabulary, engine) == 0,
        user_commit_count(subjects, vocabulary) == 0,
    ensures
        assess_model(count, subjects, engine, vocabulary).safe_to_proceed == (count
            <= SAFE_RESET_LIMIT as int),
{
}

} // verus!
