use fgit::update::{is_affirmative, is_yes, step, UpdateAction, UpdateEvent, UpdateState};

fn describe(action: &UpdateAction) -> String {
    match action {
        UpdateAction::Fetch => "fetch".to_string(),
        UpdateAction::Ask { question } => format!("ask {}", question),
        UpdateAction::Pull => "pull".to_string(),
        UpdateAction::Build => "build".to_string(),
        UpdateAction::Report { text } => format!("report {}", text),
        UpdateAction::Fail { text } => format!("fail {}", text),
        UpdateAction::Nothing => "nothing".to_string(),
    }
}

fn fetched(output: &[u8]) -> UpdateEvent {
    UpdateEvent::Fetched { output: output.to_vec() }
}

fn answered(line: &str) -> UpdateEvent {
    UpdateEvent::Answered { line: line.to_string() }
}

#[test]
fn yes_is_the_letter_y() {
    assert!(is_yes("y"));
    assert!(!is_yes("Y"));
    assert!(!is_yes("yes"));
    assert!(!is_yes(""));
    assert!(!is_yes(" y"));
}

#[test]
fn answers_are_trimmed_and_lowered() {
    for line in ["y", "Y", "y\n", "  Y \r\n", "\ty"] {
        assert!(is_affirmative(line), "{:?}", line);
    }
    for line in ["", "\n", "n", "N", "yes", "y y", "yy", "no"] {
        assert!(!is_affirmative(line), "{:?}", line);
    }
}

#[test]
fn update_starts_with_a_fetch() {
    let state = UpdateState::new();
    assert_eq!(state, UpdateState::Fetching);
    assert_eq!(describe(&state.pending_action()), "fetch");
    assert!(!state.is_finished());
}

#[test]
fn nothing_fetched_means_up_to_date() {
    let (state, action) = step(UpdateState::new(), fetched(b""));
    assert_eq!(state, UpdateState::Done { succeeded: true });
    assert_eq!(describe(&action), "report fgit is up to date");
    assert!(state.is_finished());
    assert_eq!(state.exit_status(), 0);
}

#[test]
fn something_fetched_asks_the_user() {
    let (state, action) = step(UpdateState::new(), fetched(b"From origin\n"));
    assert_eq!(state, UpdateState::Asking);
    assert_eq!(
        describe(&action),
        "ask New version of fgit is available. Do you want to update? (y/n)"
    );
}

#[test]
fn declining_ends_the_update() {
    let (state, action) = step(UpdateState::Asking, answered("n\n"));
    assert_eq!(state, UpdateState::Done { succeeded: true });
    assert_eq!(describe(&action), "nothing");
    assert_eq!(state.exit_status(), 0);
}

#[test]
fn agreeing_pulls_and_builds() {
    let (state, action) = step(UpdateState::Asking, answered(" Y\n"));
    assert_eq!(state, UpdateState::Pulling);
    assert_eq!(describe(&action), "pull");
    let (state, action) = step(state, UpdateEvent::Pulled);
    assert_eq!(state, UpdateState::Building);
    assert_eq!(describe(&action), "build");
    let (state, action) =
        step(state, UpdateEvent::Built { succeeded: true, errors: "warning: x".to_string() });
    assert_eq!(state, UpdateState::Done { succeeded: true });
    assert_eq!(describe(&action), "report Project built successfully");
    assert_eq!(state.exit_status(), 0);
}

#[test]
fn a_failed_build_fails_the_update() {
    let (state, action) = step(
        UpdateState::Building,
        UpdateEvent::Built { succeeded: false, errors: "error[E0308]: mismatched types\n".to_string() },
    );
    assert_eq!(state, UpdateState::Done { succeeded: false });
    assert_eq!(describe(&action), "fail Build failed:\nerror[E0308]: mismatched types\n");
    assert!(state.is_finished());
    assert_eq!(state.exit_status(), 1);
}

#[test]
fn unexpected_events_change_nothing() {
    let (state, action) = step(UpdateState::Fetching, UpdateEvent::Pulled);
    assert_eq!(state, UpdateState::Fetching);
    assert_eq!(describe(&action), "fetch");
    let (state, action) = step(UpdateState::Asking, fetched(b""));
    assert_eq!(state, UpdateState::Asking);
    assert!(matches!(action, UpdateAction::Ask { .. }));
    let (state, action) = step(UpdateState::Pulling, answered("y"));
    assert_eq!(state, UpdateState::Pulling);
    assert_eq!(describe(&action), "pull");
    let (state, action) = step(UpdateState::Building, UpdateEvent::Pulled);
    assert_eq!(state, UpdateState::Building);
    assert_eq!(describe(&action), "build");
    let done = UpdateState::Done { succeeded: false };
    let (state, action) = step(done, answered("y"));
    assert_eq!(state, done);
    assert_eq!(describe(&action), "nothing");
}
