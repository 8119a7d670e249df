use fgit::issue::{
    compose_branch_name, propose_branch_name, start, step, IssueAction, IssueError, IssueEvent,
    IssueState,
};

fn argv(words: &[&str]) -> Vec<String> {
    words.iter().map(|w| w.to_string()).collect()
}

fn candidate(state: &IssueState) -> &str {
    match state {
        IssueState::Checking { candidate, .. } => candidate,
        other => panic!("not checking: {:?}", describe_state(other)),
    }
}

fn describe_state(state: &IssueState) -> String {
    match state {
        IssueState::Checking { key_number, candidate } => {
            format!("checking {} {}", key_number, candidate)
        }
        IssueState::Prompting { key_number, taken } => format!("prompting {} {}", key_number, taken),
        IssueState::Created { name } => format!("created {}", name),
    }
}

fn describe_action(action: &IssueAction) -> String {
    match action {
        IssueAction::CheckBranch { reference } => format!("check {}", reference),
        IssueAction::AskSuffix { message } => format!("ask {}", message),
        IssueAction::CreateBranch { name } => format!("create {}", name),
        IssueAction::Nothing => "nothing".to_string(),
    }
}

#[test]
fn branch_name_without_suffix() {
    assert_eq!(compose_branch_name("ABC-1", None), "issue/ABC-1");
    assert_eq!(propose_branch_name("ABC-1", ""), "issue/ABC-1");
    assert_eq!(propose_branch_name("ABC-1", "  \t"), "issue/ABC-1");
}

#[test]
fn branch_name_with_suffix() {
    assert_eq!(compose_branch_name("ABC-1", Some("fix")), "issue/ABC-1-fix");
    assert_eq!(compose_branch_name("ABC-1", Some("")), "issue/ABC-1-");
    assert_eq!(propose_branch_name("ABC-1", "fix"), "issue/ABC-1-fix");
    assert_eq!(propose_branch_name("", "fix"), "issue/-fix");
}

#[test]
fn a_suffix_from_the_command_line_is_not_trimmed() {
    assert_eq!(propose_branch_name("ABC-1", " x "), "issue/ABC-1- x ");
}

#[test]
fn start_needs_one_or_two_arguments() {
    for words in [&[][..], &["issue"][..], &["issue", "ABC-1", "a", "b"][..]] {
        let error = start(&argv(words)).err().unwrap();
        assert!(matches!(error, IssueError::Usage));
        assert_eq!(error.message(), "Usage: fgit issue <issue-key>-<issue-number> [suffix]");
    }
}

#[test]
fn start_proposes_the_plain_name() {
    let (state, action) = start(&argv(&["issue", "ABC-1"])).ok().unwrap();
    assert_eq!(describe_state(&state), "checking ABC-1 issue/ABC-1");
    assert_eq!(describe_action(&action), "check refs/heads/issue/ABC-1");
    assert!(!state.is_finished());
}

#[test]
fn start_proposes_the_name_with_suffix() {
    let (state, action) = start(&argv(&["issue", "ABC-1", "retry"])).ok().unwrap();
    assert_eq!(candidate(&state), "issue/ABC-1-retry");
    assert_eq!(describe_action(&action), "check refs/heads/issue/ABC-1-retry");
    let (state, _) = start(&argv(&["issue", "ABC-1", " "])).ok().unwrap();
    assert_eq!(candidate(&state), "issue/ABC-1");
}

#[test]
fn an_absent_candidate_is_created() {
    let (state, _) = start(&argv(&["issue", "ABC-1"])).ok().unwrap();
    let (state, action) = step(state, IssueEvent::BranchChecked { exists: false });
    assert_eq!(describe_state(&state), "created issue/ABC-1");
    assert_eq!(describe_action(&action), "create issue/ABC-1");
    assert!(state.is_finished());
}

#[test]
fn an_existing_candidate_is_never_created() {
    let (state, _) = start(&argv(&["issue", "ABC-1"])).ok().unwrap();
    let (state, action) = step(state, IssueEvent::BranchChecked { exists: true });
    assert_eq!(describe_state(&state), "prompting ABC-1 issue/ABC-1");
    assert_eq!(
        describe_action(&action),
        "ask A branch named 'issue/ABC-1' already exists. Please enter a new suffix:"
    );
    assert!(!state.is_finished());

    let (state, action) = step(state, IssueEvent::SuffixEntered { line: "second\n".to_string() });
    assert_eq!(describe_state(&state), "checking ABC-1 issue/ABC-1-second");
    assert_eq!(describe_action(&action), "check refs/heads/issue/ABC-1-second");

    let (state, action) = step(state, IssueEvent::BranchChecked { exists: true });
    assert_eq!(describe_state(&state), "prompting ABC-1 issue/ABC-1-second");
    assert!(matches!(action, IssueAction::AskSuffix { .. }));

    let (state, _) = step(state, IssueEvent::SuffixEntered { line: "  third \r\n".to_string() });
    assert_eq!(candidate(&state), "issue/ABC-1-third");

    let (state, action) = step(state, IssueEvent::BranchChecked { exists: false });
    assert_eq!(describe_state(&state), "created issue/ABC-1-third");
    assert_eq!(describe_action(&action), "create issue/ABC-1-third");
}

#[test]
fn a_blank_answer_proposes_the_plain_name() {
    let (state, _) = start(&argv(&["issue", "ABC-1", "x"])).ok().unwrap();
    let (state, _) = step(state, IssueEvent::BranchChecked { exists: true });
    let (state, action) = step(state, IssueEvent::SuffixEntered { line: " \n".to_string() });
    assert_eq!(candidate(&state), "issue/ABC-1");
    assert_eq!(describe_action(&action), "check refs/heads/issue/ABC-1");
}

#[test]
fn an_unexpected_event_changes_nothing() {
    let (state, _) = start(&argv(&["issue", "ABC-1"])).ok().unwrap();
    let (state, action) = step(state, IssueEvent::SuffixEntered { line: "x".to_string() });
    assert_eq!(describe_state(&state), "checking ABC-1 issue/ABC-1");
    assert_eq!(describe_action(&action), "check refs/heads/issue/ABC-1");

    let (state, _) = step(state, IssueEvent::BranchChecked { exists: true });
    let (state, action) = step(state, IssueEvent::BranchChecked { exists: false });
    assert_eq!(describe_state(&state), "prompting ABC-1 issue/ABC-1");
    assert!(matches!(action, IssueAction::AskSuffix { .. }));
}

#[test]
fn a_created_branch_ends_the_flow() {
    let state = IssueState::Created { name: "issue/ABC-1".to_string() };
    assert_eq!(describe_action(&state.pending_action()), "nothing");
    let (state, action) = step(state, IssueEvent::BranchChecked { exists: false });
    assert_eq!(describe_state(&state), "created issue/ABC-1");
    assert_eq!(describe_action(&action), "nothing");
    let (state, action) = step(state, IssueEvent::SuffixEntered { line: "x".to_string() });
    assert_eq!(describe_state(&state), "created issue/ABC-1");
    assert_eq!(describe_action(&action), "nothing");
}
