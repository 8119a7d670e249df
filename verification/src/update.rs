//! Self-update: look for a newer revision upstream, ask the user, pull and
//! rebuild.
//!
//! The flow is a state machine. The caller performs each [`UpdateAction`] and
//! reports what came of it as an [`UpdateEvent`].

use vstd::prelude::*;
use vstd::string::*;
use crate::text::{lowercase, same_text, trimmed};

verus! {

/// Whether the user's answer is a yes: the letter y, in either case, with
/// white space around it ignored.
pub open spec fn affirmative(line: Seq<char>) -> bool {
    lowercase(trimmed(line)) == "y"@
}

/// Whether an answer that was trimmed and put in lower case is a yes.
pub fn is_yes(normalized: &str) -> (yes: bool)
    ensures
        yes == (normalized@ == "y"@),
{
    same_text(normalized, "y")
}

/// Whether the user's answer is a yes.
pub fn is_affirmative(line: &str) -> (yes: bool)
    ensures
        yes == affirmative(line@),
{
    let normalized = line.trim().to_lowercase();
    is_yes(normalized.as_str())
}

/// Where the update stands.
#[derive(Clone, Copy, Debug, PartialEq, Eq, Structural)]
pub enum UpdateState {
    /// The caller is fetching from upstream without applying anything.
    Fetching,
    /// Upstream is ahead; the caller is asking the user whether to update.
    Asking,
    /// The user agreed; the caller is pulling.
    Pulling,
    /// The new revision is here; the caller is building it.
    Building,
    /// The update is over; `succeeded` is false where the build failed.
    Done { succeeded: bool },
}

/// What the caller reports back.
#[derive(Clone, Debug, PartialEq, Eq)]
pub enum UpdateEvent {
    /// What the dry-run fetch wrote to its standard output.
    Fetched { output: Vec<u8> },
    /// The line that the user entered.
    Answered { line: String },
    /// The pull has run.
    Pulled,
    /// The build has run; `errors` is what it wrote to its standard error.
    Built { succeeded: bool, errors: String },
}

/// What the caller has to do next.
#[derive(Clone, Debug, PartialEq, Eq)]
pub enum UpdateAction {
    /// Fetch from upstream in dry-run mode; answer with `Fetched`.
    Fetch,
    /// Print the question and read a line; answer with `Answered`.
    Ask { question: String },
    /// Pull from upstream; answer with `Pulled`.
    Pull,
    /// Build the tool; answer with `Built`.
    Build,
    /// Print the text to standard output; the update is over.
    Report { text: String },
    /// Print the text to standard error and leave with status 1.
    Fail { text: String },
    /// The update is over and nothing is left to do.
    Nothing,
}

/// What an [`UpdateEvent`] holds, as sequences.
pub enum UpdateEventView {
    Fetched { output: Seq<u8> },
    Answered { line: Seq<char> },
    Pulled,
    Built { succeeded: bool, errors: Seq<char> },
}

/// What an [`UpdateAction`] holds, as sequences of characters.
pub enum UpdateActionView {
    Fetch,
    Ask { question: Seq<char> },
    Pull,
    Build,
    Report { text: Seq<char> },
    Fail { text: Seq<char> },
    Nothing,
}

impl View for UpdateEvent {
    type V = UpdateEventView;

    open spec fn view(&self) -> UpdateEventView {
        match self {
            UpdateEvent::Fetched { output } => UpdateEventView::Fetched { output: output@ },
            UpdateEvent::Answered { line } => UpdateEventView::Answered { line: line@ },
            UpdateEvent::Pulled => UpdateEventView::Pulled,
            UpdateEvent::Built { succeeded, errors } => UpdateEventView::Built {
                succeeded: *succeeded,
                errors: errors@,
            },
        }
    }
}

impl View for UpdateAction {
    type V = UpdateActionView;

    open spec fn view(&self) -> UpdateActionView {
        match self {
            UpdateAction::Fetch => UpdateActionView::Fetch,
            UpdateAction::Ask { question } => UpdateActionView::Ask { question: question@ },
            UpdateAction::Pull => UpdateActionView::Pull,
            UpdateAction::Build => UpdateActionView::Build,
            UpdateAction::Report { text } => UpdateActionView::Report { text: text@ },
            UpdateAction::Fail { text } => UpdateActionView::Fail { text: text@ },
            UpdateAction::Nothing => UpdateActionView::Nothing,
        }
    }
}

/// The question put to the user when upstream is ahead.
pub open spec fn update_question() -> Seq<char> {
    "New version of fgit is available. Do you want to update? (y/n)"@
}

/// The action that a state waits on.
pub open spec fn pending(state: UpdateState) -> UpdateActionView {
    match state {
        UpdateState::Fetching => UpdateActionView::Fetch,
        UpdateState::Asking => UpdateActionView::Ask { question: update_question() },
        UpdateState::Pulling => UpdateActionView::Pull,
        UpdateState::Building => UpdateActionView::Build,
        UpdateState::Done { .. } => UpdateActionView::Nothing,
    }
}

/// The state after `event` arrives in `state`.
///
/// A fetch that printed nothing means there is nothing to do. Otherwise the
/// user is asked, and only a yes leads to the pull, which the build follows.
/// An event that the state is not waiting for changes nothing.
pub open spec fn next_state(state: UpdateState, event: UpdateEventView) -> UpdateState {
    match (state, event) {
        (UpdateState::Fetching, UpdateEventView::Fetched { output }) => if output.len() == 0 {
            UpdateState::Done { succeeded: true }
        } else {
            UpdateState::Asking
        },
        (UpdateState::Asking, UpdateEventView::Answered { line }) => if affirmative(line) {
            UpdateState::Pulling
        } else {
            UpdateState::Done { succeeded: true }
        },
        (UpdateState::Pulling, UpdateEventView::Pulled) => UpdateState::Building,
        (UpdateState::Building, UpdateEventView::Built { succeeded, .. }) => UpdateState::Done {
            succeeded,
        },
        _ => state,
    }
}

/// The action that the caller is handed when `event` arrives in `state`: a
/// closing message where the update ends with one, and otherwise what the next
/// state waits on.
pub open spec fn next_action(state: UpdateState, event: UpdateEventView) -> UpdateActionView {
    match (state, event) {
        (UpdateState::Fetching, UpdateEventView::Fetched { output }) if output.len() == 0 => {
            UpdateActionView::Report { text: "fgit is up to date"@ }
        },
        (UpdateState::Building, UpdateEventView::Built { succeeded, errors }) => if succeeded {
            UpdateActionView::Report { text: "Project built successfully"@ }
        } else {
            UpdateActionView::Fail { text: "Build failed:\n"@ + errors }
        },
        _ => pending(next_state(state, event)),
    }
}

/// Nothing is pulled without the user's yes: a pull is asked for when the
/// answer to the question is affirmative, and otherwise only asked for again
/// while one is under way.
pub proof fn lemma_pull_needs_yes(state: UpdateState, event: UpdateEventView)
    ensures
        next_action(state, event) is Pull ==> {
            ||| state == UpdateState::Asking && event is Answered && affirmative(event->line)
            ||| state == UpdateState::Pulling && !(event is Pulled)
        },
        state == UpdateState::Asking && event is Answered && !affirmative(event->line)
            ==> next_state(state, event) == (UpdateState::Done { succeeded: true })
            && next_action(state, event) == UpdateActionView::Nothing,
{
}

/// An update fails in one way only: the build, once run, reports failure,
/// and its errors are what the user is shown.
pub proof fn lemma_failure_is_a_failed_build(state: UpdateState, event: UpdateEventView)
    ensures
        next_action(state, event) is Fail <==> state == UpdateState::Building && event is Built
            && !event->succeeded,
        next_action(state, event) is Fail ==> next_state(state, event) == (UpdateState::Done {
            succeeded: false,
        }) && next_action(state, event)->Fail_text == "Build failed:\n"@ + event->errors,
        !(state is Done) && next_state(state, event) == (UpdateState::Done { succeeded: false })
            ==> next_action(state, event) is Fail,
{
}

/// With nothing fetched the tool is up to date, and no question is asked.
pub proof fn lemma_empty_fetch_ends(output: Seq<u8>)
    ensures
        output.len() == 0 ==> next_state(
            UpdateState::Fetching,
            UpdateEventView::Fetched { output },
        ) == (UpdateState::Done { succeeded: true }) && next_action(
            UpdateState::Fetching,
            UpdateEventView::Fetched { output },
        ) == (UpdateActionView::Report { text: "fgit is up to date"@ }),
        output.len() > 0 ==> next_state(UpdateState::Fetching, UpdateEventView::Fetched { output })
            == UpdateState::Asking && next_action(
            UpdateState::Fetching,
            UpdateEventView::Fetched { output },
        ) == (UpdateActionView::Ask { question: update_question() }),
{
}

impl UpdateState {
    /// The state in which an update starts.
    pub fn new() -> (state: UpdateState)
        ensures
            state == UpdateState::Fetching,
    {
        UpdateState::Fetching
    }

    /// Whether the update is over.
    pub fn is_finished(&self) -> (done: bool)
        ensures
            done == (*self is Done),
    {
        match self {
            UpdateState::Done { .. } => true,
            _ => false,
        }
    }

    /// The status with which the process leaves once the update is over: 1
    /// after a failed build, 0 otherwise.
    pub fn exit_status(&self) -> (status: u8)
        ensures
            status == (if *self == (UpdateState::Done { succeeded: false }) {
                1u8
            } else {
                0u8
            }),
    {
        match self {
            UpdateState::Done { succeeded: false } => 1,
            _ => 0,
        }
    }

    /// The action that this state waits on.
    pub fn pending_action(&self) -> (action: UpdateAction)
        ensures
            action@ == pending(*self),
    {
        match self {
            UpdateState::Fetching => UpdateAction::Fetch,
            UpdateState::Asking => UpdateAction::Ask {
                question: String::from_str(
                    "New version of fgit is available. Do you want to update? (y/n)",
                ),
            },
            UpdateState::Pulling => UpdateAction::Pull,
            UpdateState::Building => UpdateAction::Build,
            UpdateState::Done { .. } => UpdateAction::Nothing,
        }
    }
}

/// Takes the update one step on: the state after `event`, and what the caller
/// has to do next.
pub fn step(state: UpdateState, event: UpdateEvent) -> (r: (UpdateState, UpdateAction))
    ensures
        r.0 == next_state(state, event@),
        r.1@ == next_action(state, event@),
{
    match (state, event) {
        (UpdateState::Fetching, UpdateEvent::Fetched { output }) => {
            if output.len() == 0 {
                (
                    UpdateState::Done { succeeded: true },
                    UpdateAction::Report { text: String::from_str("fgit is up to date") },
                )
            } else {
                (UpdateState::Asking, UpdateState::Asking.pending_action())
            }
        },
        (UpdateState::Asking, UpdateEvent::Answered { line }) => {
            if is_affirmative(line.as_str()) {
                (UpdateState::Pulling, UpdateAction::Pull)
            } else {
                (UpdateState::Done { succeeded: true }, UpdateAction::Nothing)
            }
        },
        (UpdateState::Pulling, UpdateEvent::Pulled) => (UpdateState::Building, UpdateAction::Build),
        (UpdateState::Building, UpdateEvent::Built { succeeded, errors }) => {
            if succeeded {
                (
                    UpdateState::Done { succeeded: true },
                    UpdateAction::Report { text: String::from_str("Project built successfully") },
                )
            } else {
                let mut text = String::from_str("Build failed:\n");
                text.append(errors.as_str());
                (UpdateState::Done { succeeded: false }, UpdateAction::Fail { text })
            }
        },
        (state, _) => (state, state.pending_action()),
    }
}

} // verus!
