use fgit::cli::{dispatch, help_text, no_command_message, version_line, Invocation};

fn invoked(words: &[&str]) -> Option<Invocation> {
    let args: Vec<String> = words.iter().map(|w| w.to_string()).collect();
    dispatch(&args)
}

#[test]
fn no_argument_is_no_command() {
    assert_eq!(invoked(&[]), None);
    assert_eq!(no_command_message(), "No git command provided");
}

#[test]
fn own_commands_are_recognized() {
    assert_eq!(invoked(&["update"]), Some(Invocation::Update));
    assert_eq!(invoked(&["issue", "ABC-1"]), Some(Invocation::Issue));
    assert_eq!(invoked(&["commit", "fix", "x", "y"]), Some(Invocation::Commit));
    assert_eq!(invoked(&["mrs"]), Some(Invocation::Mrs));
    assert_eq!(invoked(&["--help"]), Some(Invocation::Help));
    assert_eq!(invoked(&["--fgit-help"]), Some(Invocation::Help));
    assert_eq!(invoked(&["--version"]), Some(Invocation::Version));
}

#[test]
fn everything_else_goes_to_git() {
    for word in ["status", "log", "", "Commit", "COMMIT", "commit ", "-h", "help", "version", "--Help"] {
        assert_eq!(invoked(&[word, "commit"]), Some(Invocation::Git), "{:?}", word);
    }
}

#[test]
fn version_line_names_the_version() {
    assert_eq!(version_line(), "fgit version 1.1.1");
}

#[test]
fn help_text_lists_the_commands() {
    let text = help_text();
    assert!(text.starts_with("Usage: fgit [command]\n\nfgit is a command-line tool"));
    assert!(text.contains("\n    commit <type> <scope> <description>\n"));
    assert!(text.contains("\n    issue <issue-key>-<issue-number> [suffix]\n"));
    assert!(text.ends_with("    --version  Show version information"));
    assert_eq!(text.lines().count(), 10);
}
