//! The command line: which command the first argument names.

use vstd::prelude::*;
use vstd::string::*;
use crate::text::same_text;

verus! {

/// What the program was asked to do.
#[derive(Clone, Copy, Debug, PartialEq, Eq, Structural)]
pub enum Invocation {
    /// Update the tool itself.
    Update,
    /// Create a branch for an issue.
    Issue,
    /// Make a conventional commit.
    Commit,
    /// List the open merge requests.
    Mrs,
    /// Print the help text.
    Help,
    /// Print the version.
    Version,
    /// Hand every argument to git as it is.
    Git,
}

/// The command that a first argument names. Every word that is not one of
/// the tool's own goes to git.
pub open spec fn invocation_of(word: Seq<char>) -> Invocation {
    if word == "update"@ {
        Invocation::Update
    } else if word == "issue"@ {
        Invocation::Issue
    } else if word == "commit"@ {
        Invocation::Commit
    } else if word == "mrs"@ {
        Invocation::Mrs
    } else if word == "--help"@ || word == "--fgit-help"@ {
        Invocation::Help
    } else if word == "--version"@ {
        Invocation::Version
    } else {
        Invocation::Git
    }
}

/// The version of the tool.
pub open spec fn version() -> Seq<char> {
    "1.1.1"@
}

/// Reads the command from the arguments that follow the program's name.
/// Without any argument there is no command.
pub fn dispatch(args: &[String]) -> (invocation: Option<Invocation>)
    ensures
        args.len() == 0 ==> invocation is None,
        args.len() > 0 ==> invocation == Some(invocation_of(args[0]@)),
{
    if args.len() == 0 {
        return None;
    }
    let word = args[0].as_str();
    if same_text(word, "update") {
        Some(Invocation::Update)
    } else if same_text(word, "issue") {
        Some(Invocation::Issue)
    } else if same_text(word, "commit") {
        Some(Invocation::Commit)
    } else if same_text(word, "mrs") {
        Some(Invocation::Mrs)
    } else if same_text(word, "--help") || same_text(word, "--fgit-help") {
        Some(Invocation::Help)
    } else if same_text(word, "--version") {
        Some(Invocation::Version)
    } else {
        Some(Invocation::Git)
    }
}

/// What is said when no argument was given.
pub fn no_command_message() -> (text: &'static str)
    ensures
        text@ == "No git command provided"@,
{
    "No git command provided"
}

/// The line that `--version` prints.
pub fn version_line() -> (line: String)
    ensures
        line@ == "fgit version "@ + version(),
{
    let mut line = String::from_str("fgit version ");
    line.append("1.1.1");
    line
}

/// The text that `--help` prints.
pub fn help_text() -> (text: &'static str)
    ensures
        text@ == "Usage: fgit [command]

fgit is a command-line tool that wraps around Git and provides a simpler way to create conventional commits and other niceties. Conventional commits follow a standardized format for commit messages, making it easier to understand the purpose of a change.

Commands:
    commit <type> <scope> <description>
    issue <issue-key>-<issue-number> [suffix]
    update
    --help     Show help information
    --version  Show version information"@,
{
    "Usage: fgit [command]

fgit is a command-line tool that wraps around Git and provides a simpler way to create conventional commits and other niceties. Conventional commits follow a standardized format for commit messages, making it easier to understand the purpose of a change.

Commands:
    commit <type> <scope> <description>
    issue <issue-key>-<issue-number> [suffix]
    update
    --help     Show help information
    --version  Show version information"
}

} // verus!
