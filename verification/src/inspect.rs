//! Repository inspector: read-only queries about the repository, split into
//! the probe a driver runs and the verified reading of what it returned.

use vstd::prelude::*;

use crate::command::{CmdOutcome, OutcomeView};
use crate::text::{
    concat_str, dec_value, is_blank, keep_nonblank, lines_of, nonblank_lines, parse_usize,
    parse_usize_body, parses_as_usize, trim, trim_of, views,
};

verus! {

/// Relies on `std::path::Path::join` and `Path::exists`: reports whether the
/// directory holds an entry of the given name, as the disk stands at the
/// moment of the call.
#[verifier::external_body]
fn dir_entry_exists(dir: &str, name: &str) -> bool {
    std::path::Path::new(dir).join(name).exists()
}

/// Whether the directory is a repository, judged by its `.git` entry.
///
/// The answer reflects the file system at the moment of the call, so nothing
/// more can be promised of it.
pub fn is_git_repo(project_path: &str) -> bool {
    dir_entry_exists(project_path, ".git")
}

/// What resolving the head reference returns, read from the outcome of
/// [`GitAction::ResolveHead`](crate::command::GitAction::ResolveHead):
/// the trimmed standard output on success, an error otherwise.
pub open spec fn head_of(o: OutcomeView) -> Result<Seq<char>, Seq<char>> {
    if o.ok {
        Ok(trim_of(o.out))
    } else {
        Err("Git rev-parse failed: "@ + o.err)
    }
}

/// Reads the current head reference from the outcome of resolving it,
/// exactly as [`head_of`] describes.
pub fn parse_head(outcome: &CmdOutcome) -> (r: Result<String, String>)
    ensures
        r matches Ok(h) ==> head_of(outcome@) == Ok::<Seq<char>, Seq<char>>(h@),
        r matches Err(e) ==> head_of(outcome@) == Err::<Seq<char>, Seq<char>>(e@),
{
    if outcome.exit_success {
        Ok(trim(outcome.stdout.as_str()).to_owned())
    } else {
        Err(concat_str("Git rev-parse failed: ", outcome.stderr.as_str()))
    }
}

/// What counting a commit range returns, read from the outcome of
/// [`GitAction::CountRange`](crate::command::GitAction::CountRange): the
/// number on its trimmed standard output, or an error when the command
/// failed or printed no number.
pub open spec fn count_of(o: OutcomeView) -> Result<int, Seq<char>> {
    if !o.ok {
        Err("Git rev-list failed: "@ + o.err)
    } else if parses_as_usize(trim_of(o.out)) {
        Ok(dec_value(parse_usize_body(trim_of(o.out))) as int)
    } else {
        Err("Failed to parse commit count"@)
    }
}

/// Reads the commit count from the outcome of counting a range, exactly as
/// [`count_of`] describes.
pub fn parse_count(outcome: &CmdOutcome) -> (r: Result<usize, String>)
    ensures
        r matches Ok(n) ==> count_of(outcome@) == Ok::<int, Seq<char>>(n as int),
        r matches Err(e) ==> count_of(outcome@) == Err::<int, Seq<char>>(e@),
{
    if !outcome.exit_success {
        return Err(concat_str("Git rev-list failed: ", outcome.stderr.as_str()));
    }
    let trimmed = trim(outcome.stdout.as_str());
    match parse_usize(trimmed) {
        Some(n) => Ok(n),
        None => Err("Failed to parse commit count".to_owned()),
    }
}

/// What listing a range's subjects returns, read from the outcome of
/// [`GitAction::LogRange`](crate::command::GitAction::LogRange): the
/// non-blank lines of standard output, one subject each, or an error.
pub open spec fn log_of(o: OutcomeView) -> Result<Seq<Seq<char>>, Seq<char>> {
    if o.ok {
        Ok(keep_nonblank(lines_of(o.out)))
    } else {
        Err("Git log failed: "@ + o.err)
    }
}

/// Reads the subject lines from the outcome of listing a range, exactly as
/// [`log_of`] describes.
pub fn parse_log(outcome: &CmdOutcome) -> (r: Result<Vec<String>, String>)
    ensures
        r matches Ok(v) ==> log_of(outcome@) == Ok::<Seq<Seq<char>>, Seq<char>>(views(v@)),
        r matches Err(e) ==> log_of(outcome@) == Err::<Seq<Seq<char>>, Seq<char>>(e@),
{
    if outcome.exit_success {
        Ok(nonblank_lines(outcome.stdout.as_str()))
    } else {
        Err(concat_str("Git log failed: ", outcome.stderr.as_str()))
    }
}

/// Whether a [`GitAction::QueryStatus`](crate::command::GitAction::QueryStatus)
/// outcome shows a clean working tree: no line of output survives trimming.
pub fn working_tree_clean(outcome: &CmdOutcome) -> (r: bool)
    ensures
        r == is_blank(outcome@.out),
{
    let t = trim(outcome.stdout.as_str());
    t.unicode_len() == 0
}

} // verus!
