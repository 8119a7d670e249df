use fgit::commit::{
    all_types, commit_message, compose_message, render_message, CommitError, CommitRequest,
    CommitType,
};
use fgit::tag::IssueTag;

fn args(words: &[&str]) -> Vec<String> {
    words.iter().map(|w| w.to_string()).collect()
}

#[test]
fn message_with_issue_tag() {
    let message =
        commit_message(&args(&["commit", "fix", "parser", "null", "deref"]), "issue/ABC-42-retry");
    assert_eq!(message.unwrap(), "fix(parser): null deref [ABC-42]");
}

#[test]
fn message_without_issue_tag() {
    let message = commit_message(&args(&["commit", "chore", "deps", "bump"]), "main");
    assert_eq!(message.unwrap(), "chore(deps): bump");
}

#[test]
fn case_of_type_and_scope_is_normalized() {
    let upper_type = commit_message(&args(&["commit", "FEAT", "api", "add x"]), "main").unwrap();
    let upper_scope = commit_message(&args(&["commit", "feat", "API", "add x"]), "main").unwrap();
    assert_eq!(upper_type, "feat(api): add x");
    assert_eq!(upper_scope, "feat(api): add x");
    assert_eq!(upper_type, upper_scope);
}

#[test]
fn description_keeps_its_case() {
    let message = compose_message("Docs", "ReadMe", "Explain THE Flags", None).unwrap();
    assert_eq!(message, "docs(readme): Explain THE Flags");
}

#[test]
fn no_description_gives_empty_body() {
    let message = commit_message(&args(&["commit", "feat", "api"]), "main").unwrap();
    assert_eq!(message, "feat(api): ");
}

#[test]
fn no_description_on_issue_branch() {
    let message = commit_message(&args(&["commit", "feat", "api"]), "issue/XY-7").unwrap();
    assert_eq!(message, "feat(api):  [XY-7]");
}

#[test]
fn invalid_type_is_rejected() {
    let error = commit_message(&args(&["commit", "feature", "api", "x"]), "main").unwrap_err();
    match &error {
        CommitError::InvalidType { value } => assert_eq!(value, "feature"),
        other => panic!("unexpected error {:?}", other),
    }
    assert_eq!(
        error.message(),
        "Invalid commit type 'feature'.\nValid types are feat, fix, build, chore, ci, docs, style, refactor, perf, test"
    );
}

#[test]
fn invalid_type_is_reported_in_lower_case() {
    let error = compose_message("FEATURE", "api", "x", None).unwrap_err();
    match error {
        CommitError::InvalidType { value } => assert_eq!(value, "feature"),
        other => panic!("unexpected error {:?}", other),
    }
}

#[test]
fn empty_type_is_rejected() {
    assert!(matches!(
        compose_message("", "api", "x", None),
        Err(CommitError::InvalidType { .. })
    ));
}

#[test]
fn too_few_arguments_is_a_usage_error() {
    for words in [&["commit"][..], &["commit", "feat"][..], &[][..]] {
        let error = commit_message(&args(words), "main").unwrap_err();
        assert!(matches!(error, CommitError::Usage));
        assert_eq!(error.message(), "Usage: fgit commit <type> <scope> <description>");
    }
}

#[test]
fn usage_is_checked_before_the_type() {
    let error = CommitRequest::from_args(&args(&["commit", "feature"])).unwrap_err();
    assert!(matches!(error, CommitError::Usage));
}

#[test]
fn description_words_are_joined_by_single_spaces() {
    let request =
        CommitRequest::from_args(&args(&["commit", "fix", "core", "a", "", "b c", "d"])).unwrap();
    assert_eq!(request.description(), "a  b c d");
    assert_eq!(request.scope(), "core");
    assert_eq!(request.commit_type(), CommitType::Fix);
}

#[test]
fn composing_twice_gives_the_same_message() {
    let words = args(&["commit", "Perf", "IO", "read", "less"]);
    let first = commit_message(&words, "issue/IO-9-buffers\n").unwrap();
    let second = commit_message(&words, "issue/IO-9-buffers\n").unwrap();
    assert_eq!(first, second);
    assert_eq!(first, "perf(io): read less [IO-9]");
}

#[test]
fn branch_output_is_trimmed() {
    let request = CommitRequest::new("fix", "parser", "null deref").unwrap();
    assert_eq!(request.message_on_branch("  issue/ABC-42 \n"), "fix(parser): null deref [ABC-42]");
    assert_eq!(request.message_on_branch("main\n"), "fix(parser): null deref");
    assert_eq!(request.message_on_branch(""), "fix(parser): null deref");
}

#[test]
fn message_appends_a_given_tag() {
    let request = CommitRequest::new("ci", "runner", "pin image").unwrap();
    let tag = IssueTag { key: "OPS".to_string(), number: "311".to_string() };
    assert_eq!(request.message(Some(&tag)), "ci(runner): pin image [OPS-311]");
    assert_eq!(request.message(None), "ci(runner): pin image");
}

#[test]
fn render_takes_its_parts_as_they_are() {
    let tag = IssueTag { key: "k".to_string(), number: String::new() };
    assert_eq!(
        render_message(CommitType::Style, "UI", "Align", Some(&tag)),
        "style(UI): Align [k-]"
    );
    assert_eq!(render_message(CommitType::Test, "", "", None), "test(): ");
}

#[test]
fn every_type_has_its_word() {
    let words: Vec<&str> = all_types().iter().map(|t| t.name()).collect();
    assert_eq!(
        words,
        ["feat", "fix", "build", "chore", "ci", "docs", "style", "refactor", "perf", "test"]
    );
    for commit_type in all_types() {
        assert_eq!(CommitType::from_name(commit_type.name()), Some(commit_type));
    }
}

#[test]
fn type_words_are_matched_as_they_are() {
    assert_eq!(CommitType::from_name("feat"), Some(CommitType::Feat));
    assert_eq!(CommitType::from_name("FEAT"), None);
    assert_eq!(CommitType::from_name("feat "), None);
    assert_eq!(CommitType::from_name("feature"), None);
    assert_eq!(CommitType::from_name(""), None);
}

#[test]
fn every_type_is_accepted_in_any_case() {
    for commit_type in all_types() {
        let upper = commit_type.name().to_uppercase();
        let message = compose_message(&upper, "X", "y", None).unwrap();
        assert_eq!(message, format!("{}(x): y", commit_type.name()));
    }
}
