//! The version-control adapter: which `git` invocations the tool makes, and
//! what their outcomes mean. Running them is left to the caller.

use crate::text::trim;
use crate::text::trimmed;
use vstd::prelude::*;
use vstd::string::StringExecFns;
use vstd::utf8::decode_utf8;
use vstd::utf8::valid_utf8;

verus! {

/// An invocation of the version-control tool.
#[derive(Clone, Debug, PartialEq, Eq)]
pub struct GitCommand {
    pub program: String,
    pub args: Vec<String>,
}

/// The mathematical value of a `GitCommand`.
pub struct GitCommandView {
    pub program: Seq<char>,
    pub args: Seq<Seq<char>>,
}

impl View for GitCommand {
    type V = GitCommandView;

    open spec fn view(&self) -> GitCommandView {
        GitCommandView { program: self.program@, args: self.args.deep_view() }
    }
}

/// How an invocation ended: whether its exit status was zero, and what it
/// wrote to its standard output.
#[derive(Clone, Debug, PartialEq, Eq)]
pub struct GitOutput {
    pub success: bool,
    pub stdout: Vec<u8>,
}

/// The mathematical value of a `GitOutput`.
pub struct GitOutputView {
    pub success: bool,
    pub stdout: Seq<u8>,
}

impl View for GitOutput {
    type V = GitOutputView;

    open spec fn view(&self) -> GitOutputView {
        GitOutputView { success: self.success, stdout: self.stdout@ }
    }
}

/// Why an outcome holds no answer.
#[derive(Clone, Copy, Debug, PartialEq, Eq, Structural)]
pub enum GitError {
    /// The tool reported that the working directory is in no repository.
    NotARepository,
    /// The tool could not produce the diff.
    DiffFailed,
    /// The tool's output is not UTF-8.
    InvalidOutput,
}

/// Which entries a status query covers.
#[derive(Clone, Copy, Debug, PartialEq, Eq, Structural)]
pub struct StatusScope {
    pub include_untracked: bool,
    pub include_ignored: bool,
    pub include_unmodified: bool,
}

/// The name of the version-control tool.
pub open spec fn git_program() -> Seq<char> {
    "git"@
}

/// The arguments that ask for the top-level directory of the repository.
pub open spec fn repo_path_args() -> Seq<Seq<char>> {
    seq!["rev-parse"@, "--show-toplevel"@]
}

/// The arguments that ask for the changes of the working tree, staged or
/// not, against the last commit.
pub open spec fn diff_args() -> Seq<Seq<char>> {
    seq!["diff"@, "HEAD"@]
}

/// The arguments that commit under a summary and, where there is one, a
/// description: each is handed over as a message segment of its own, which
/// the tool separates by a blank line.
pub open spec fn commit_args(summary: Seq<char>, description: Option<Seq<char>>) -> Seq<Seq<char>> {
    match description {
        Some(text) => seq!["commit"@, "-m"@, summary, "-m"@, text],
        None => seq!["commit"@, "-m"@, summary],
    }
}

/// The repository root that an outcome of the root query reports: its
/// output, decoded, without the white space around it.
pub open spec fn repo_path_of(output: GitOutputView) -> Result<Seq<char>, GitError> {
    if !output.success {
        Err(GitError::NotARepository)
    } else if !valid_utf8(output.stdout) {
        Err(GitError::InvalidOutput)
    } else {
        Ok(trimmed(decode_utf8(output.stdout)))
    }
}

/// The diff that an outcome of the diff query reports: its output, decoded
/// and otherwise untouched. It is empty where nothing has changed.
pub open spec fn diff_of(output: GitOutputView) -> Result<Seq<char>, GitError> {
    if !output.success {
        Err(GitError::DiffFailed)
    } else if !valid_utf8(output.stdout) {
        Err(GitError::InvalidOutput)
    } else {
        Ok(decode_utf8(output.stdout))
    }
}

/// `String::from_utf8`: the text that `bytes` encode. There is one exactly
/// when the bytes are valid UTF-8, and it is then their decoding.
#[verifier::external_body]
fn string_from_utf8(bytes: Vec<u8>) -> (r: Option<String>)
    ensures
        r is Some <==> valid_utf8(bytes@),
        r matches Some(s) ==> s@ == decode_utf8(bytes@),
{
    match String::from_utf8(bytes) {
        Ok(s) => Some(s),
        Err(_) => None,
    }
}

fn git_with(args: Vec<String>) -> (r: GitCommand)
    ensures
        r@.program == git_program(),
        r.args == args,
{
    GitCommand { program: String::from_str("git"), args }
}

/// The invocation that asks for the top-level directory of the repository.
pub fn repo_path_command() -> (r: GitCommand)
    ensures
        r@ == (GitCommandView { program: git_program(), args: repo_path_args() }),
{
    let mut args: Vec<String> = Vec::new();
    args.push(String::from_str("rev-parse"));
    args.push(String::from_str("--show-toplevel"));
    assert(args.deep_view() =~= repo_path_args());
    git_with(args)
}

/// The invocation that asks for the uncommitted changes.
pub fn diff_command() -> (r: GitCommand)
    ensures
        r@ == (GitCommandView { program: git_program(), args: diff_args() }),
{
    let mut args: Vec<String> = Vec::new();
    args.push(String::from_str("diff"));
    args.push(String::from_str("HEAD"));
    assert(args.deep_view() =~= diff_args());
    git_with(args)
}

/// The invocation that commits under `summary` and, where given,
/// `description`.
pub fn commit_command(summary: &str, description: Option<&str>) -> (r: GitCommand)
    ensures
        r@ == (GitCommandView {
            program: git_program(),
            args: commit_args(
                summary@,
                match description {
                    Some(text) => Some(text@),
                    None => None,
                },
            ),
        }),
{
    let mut args: Vec<String> = Vec::new();
    args.push(String::from_str("commit"));
    args.push(String::from_str("-m"));
    args.push(String::from_str(summary));
    match description {
        Some(text) => {
            args.push(String::from_str("-m"));
            args.push(String::from_str(text));
            assert(args.deep_view() =~= commit_args(summary@, Some(text@)));
        },
        None => {
            assert(args.deep_view() =~= commit_args(summary@, None));
        },
    }
    git_with(args)
}

/// Reads the repository root out of the outcome of `repo_path_command`.
/// Fails with `NotARepository` exactly when the tool exited with a status
/// other than zero.
pub fn get_git_repo_path(output: GitOutput) -> (r: Result<String, GitError>)
    ensures
        match r {
            Ok(path) => repo_path_of(output@) == Ok::<Seq<char>, GitError>(path@),
            Err(e) => repo_path_of(output@) == Err::<Seq<char>, GitError>(e),
        },
{
    if !output.success {
        return Err(GitError::NotARepository);
    }
    match string_from_utf8(output.stdout) {
        Some(text) => Ok(trim(text.as_str())),
        None => Err(GitError::InvalidOutput),
    }
}

/// Reads the diff out of the outcome of `diff_command`. An empty diff is no
/// error: it says that there is nothing to commit.
pub fn get_uncommitted_diff(output: GitOutput) -> (r: Result<String, GitError>)
    ensures
        match r {
            Ok(diff) => diff_of(output@) == Ok::<Seq<char>, GitError>(diff@),
            Err(e) => diff_of(output@) == Err::<Seq<char>, GitError>(e),
        },
{
    if !output.success {
        return Err(GitError::DiffFailed);
    }
    match string_from_utf8(output.stdout) {
        Some(text) => Ok(text),
        None => Err(GitError::InvalidOutput),
    }
}

/// The entries that count as uncommitted changes: untracked files do,
/// ignored and unmodified ones do not.
pub fn status_scope() -> (r: StatusScope)
    ensures
        r == (StatusScope {
            include_untracked: true,
            include_ignored: false,
            include_unmodified: false,
        }),
{
    StatusScope { include_untracked: true, include_ignored: false, include_unmodified: false }
}

/// Whether a status query over `status_scope` that found `status_entries`
/// entries shows uncommitted changes: it does unless it found none.
pub fn has_uncommitted_changes(status_entries: usize) -> (r: bool)
    ensures
        r == (status_entries != 0),
{
    status_entries != 0
}

} // verus!
