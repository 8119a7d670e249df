//! Creation of an issue branch: propose a name, ask whether a branch of that
//! name exists, and either create it or ask the user for another suffix.
//!
//! The flow is a state machine. The caller performs each [`IssueAction`] and
//! reports what came of it as an [`IssueEvent`].

use vstd::prelude::*;
use vstd::string::*;
use crate::tag::{is_digit, issue_tag_of, lemma_tag_of_issue_branch, IssueTagView};
use crate::text::{is_blank, lemma_trimmed_idempotent, trimmed};

verus! {

/// The name proposed for the branch of `key_number`: `issue/<key_number>`,
/// followed by `-<suffix>` unless the suffix is blank.
pub open spec fn branch_name(key_number: Seq<char>, suffix: Seq<char>) -> Seq<char> {
    plain_branch_name(
        key_number,
        if trimmed(suffix).len() == 0 {
            None
        } else {
            Some(suffix)
        },
    )
}

/// The branch name made of a key and number and, where there is one, a suffix.
pub open spec fn plain_branch_name(key_number: Seq<char>, suffix: Option<Seq<char>>) -> Seq<char> {
    match suffix {
        Some(suffix) => "issue/"@ + key_number + "-"@ + suffix,
        None => "issue/"@ + key_number,
    }
}

/// The reference under which git keeps the local branch `name`.
pub open spec fn branch_reference(name: Seq<char>) -> Seq<char> {
    "refs/heads/"@ + name
}

/// What the user is told when the branch `name` exists already.
pub open spec fn taken_message(name: Seq<char>) -> Seq<char> {
    "A branch named '"@ + name + "' already exists. Please enter a new suffix:"@
}

/// A branch made for `<key>-<digits>` refers to that very issue, with any
/// suffix or none: creating branches and reading them agree on the name.
pub proof fn lemma_branch_names_its_issue(
    key: Seq<char>,
    digits: Seq<char>,
    suffix: Option<Seq<char>>,
)
    requires
        forall|i: int| 0 <= i < key.len() ==> key[i] != '-',
        forall|i: int| 0 <= i < digits.len() ==> is_digit(digits[i]),
    ensures
        issue_tag_of(plain_branch_name(key + "-"@ + digits, suffix)) == Some(
            IssueTagView { key, number: digits },
        ),
{
    reveal_strlit("-");
    let rest = match suffix {
        Some(suffix) => "-"@ + suffix,
        None => Seq::empty(),
    };
    lemma_tag_of_issue_branch(key, digits, rest);
    assert(plain_branch_name(key + "-"@ + digits, suffix) =~= "issue/"@ + key + "-"@ + digits
        + rest);
}

/// Builds `issue/<key_number>` or, with a suffix, `issue/<key_number>-<suffix>`.
pub fn compose_branch_name(key_number: &str, suffix: Option<&str>) -> (name: String)
    ensures
        name@ == plain_branch_name(
            key_number@,
            match suffix {
                Some(s) => Some(s@),
                None => None,
            },
        ),
{
    let mut name = String::from_str("issue/");
    name.append(key_number);
    match suffix {
        Some(s) => {
            name.append("-");
            name.append(s);
        },
        None => {},
    }
    name
}

/// Proposes the branch name for `key_number` and a suffix that may be blank.
pub fn propose_branch_name(key_number: &str, suffix: &str) -> (name: String)
    ensures
        name@ == branch_name(key_number@, suffix@),
{
    if is_blank(suffix) {
        compose_branch_name(key_number, None)
    } else {
        compose_branch_name(key_number, Some(suffix))
    }
}

/// Where the flow stands.
#[derive(Clone, Debug, PartialEq, Eq)]
pub enum IssueState {
    /// The caller is finding out whether `candidate` exists as a local branch.
    Checking { key_number: String, candidate: String },
    /// `taken` exists; the caller is asking the user for another suffix.
    Prompting { key_number: String, taken: String },
    /// The branch `name` was handed to the caller to create. Terminal.
    Created { name: String },
}

/// What the caller reports back.
#[derive(Clone, Debug, PartialEq, Eq)]
pub enum IssueEvent {
    /// The answer to a [`IssueAction::CheckBranch`].
    BranchChecked { exists: bool },
    /// The line read after a [`IssueAction::AskSuffix`].
    SuffixEntered { line: String },
}

/// What the caller has to do next.
#[derive(Clone, Debug, PartialEq, Eq)]
pub enum IssueAction {
    /// Ask git whether the reference exists; answer with `BranchChecked`.
    CheckBranch { reference: String },
    /// Print the message and read a line; answer with `SuffixEntered`.
    AskSuffix { message: String },
    /// Create the branch and check it out; the flow is over.
    CreateBranch { name: String },
    /// The flow is over and nothing is left to do.
    Nothing,
}

/// What an [`IssueState`] holds, as sequences of characters.
pub enum IssueStateView {
    Checking { key_number: Seq<char>, candidate: Seq<char> },
    Prompting { key_number: Seq<char>, taken: Seq<char> },
    Created { name: Seq<char> },
}

/// What an [`IssueEvent`] holds, as sequences of characters.
pub enum IssueEventView {
    BranchChecked { exists: bool },
    SuffixEntered { line: Seq<char> },
}

/// What an [`IssueAction`] holds, as sequences of characters.
pub enum IssueActionView {
    CheckBranch { reference: Seq<char> },
    AskSuffix { message: Seq<char> },
    CreateBranch { name: Seq<char> },
    Nothing,
}

impl View for IssueState {
    type V = IssueStateView;

    open spec fn view(&self) -> IssueStateView {
        match self {
            IssueState::Checking { key_number, candidate } => IssueStateView::Checking {
                key_number: key_number@,
                candidate: candidate@,
            },
            IssueState::Prompting { key_number, taken } => IssueStateView::Prompting {
                key_number: key_number@,
                taken: taken@,
            },
            IssueState::Created { name } => IssueStateView::Created { name: name@ },
        }
    }
}

impl View for IssueEvent {
    type V = IssueEventView;

    open spec fn view(&self) -> IssueEventView {
        match self {
            IssueEvent::BranchChecked { exists } => IssueEventView::BranchChecked {
                exists: *exists,
            },
            IssueEvent::SuffixEntered { line } => IssueEventView::SuffixEntered { line: line@ },
        }
    }
}

impl View for IssueAction {
    type V = IssueActionView;

    open spec fn view(&self) -> IssueActionView {
        match self {
            IssueAction::CheckBranch { reference } => IssueActionView::CheckBranch {
                reference: reference@,
            },
            IssueAction::AskSuffix { message } => IssueActionView::AskSuffix { message: message@ },
            IssueAction::CreateBranch { name } => IssueActionView::CreateBranch { name: name@ },
            IssueAction::Nothing => IssueActionView::Nothing,
        }
    }
}

/// The action that a state is waiting on.
pub open spec fn pending(state: IssueStateView) -> IssueActionView {
    match state {
        IssueStateView::Checking { candidate, .. } => IssueActionView::CheckBranch {
            reference: branch_reference(candidate),
        },
        IssueStateView::Prompting { taken, .. } => IssueActionView::AskSuffix {
            message: taken_message(taken),
        },
        IssueStateView::Created { .. } => IssueActionView::Nothing,
    }
}

/// The state in which the flow starts, for a key and number and a first suffix.
pub open spec fn initial(key_number: Seq<char>, suffix: Seq<char>) -> IssueStateView {
    IssueStateView::Checking { key_number, candidate: branch_name(key_number, suffix) }
}

/// The state after `event` arrives in `state`.
///
/// A candidate that does not exist is created; one that exists sends the flow
/// to the user for a new suffix, which is trimmed and makes the next
/// candidate. An event that the state is not waiting for changes nothing.
pub open spec fn next_state(state: IssueStateView, event: IssueEventView) -> IssueStateView {
    match (state, event) {
        (
            IssueStateView::Checking { key_number, candidate },
            IssueEventView::BranchChecked { exists },
        ) => if exists {
            IssueStateView::Prompting { key_number, taken: candidate }
        } else {
            IssueStateView::Created { name: candidate }
        },
        (
            IssueStateView::Prompting { key_number, .. },
            IssueEventView::SuffixEntered { line },
        ) => initial(key_number, trimmed(line)),
        _ => state,
    }
}

/// The action that the caller is handed when `event` arrives in `state`: the
/// creation of the candidate at the moment it is found absent, and otherwise
/// what the next state waits on.
pub open spec fn next_action(state: IssueStateView, event: IssueEventView) -> IssueActionView {
    match (state, event) {
        (
            IssueStateView::Checking { candidate, .. },
            IssueEventView::BranchChecked { exists: false },
        ) => IssueActionView::CreateBranch { name: candidate },
        _ => pending(next_state(state, event)),
    }
}

/// The state that a flow started in `state` reaches through `events`.
pub open spec fn run(state: IssueStateView, events: Seq<IssueEventView>) -> IssueStateView
    decreases events.len(),
{
    if events.len() == 0 {
        state
    } else {
        next_state(run(state, events.drop_last()), events.last())
    }
}

/// Whether event `i` of a run is the report that the candidate `name`, then
/// under examination, does not exist.
pub open spec fn found_absent(
    state: IssueStateView,
    events: Seq<IssueEventView>,
    i: int,
    name: Seq<char>,
) -> bool {
    &&& 0 <= i < events.len()
    &&& events[i] == IssueEventView::BranchChecked { exists: false }
    &&& run(state, events.take(i)) matches IssueStateView::Checking { candidate, .. }
    &&& candidate == name
}

/// A candidate that exists is never created: the report that it exists draws
/// a request for another suffix, and the flow goes on.
pub proof fn lemma_existing_name_is_not_created(state: IssueStateView, event: IssueEventView)
    requires
        state is Checking,
        event == (IssueEventView::BranchChecked { exists: true }),
    ensures
        !(next_action(state, event) is CreateBranch),
        next_action(state, event) == (IssueActionView::AskSuffix {
            message: taken_message(state->candidate),
        }),
        next_state(state, event) == (IssueStateView::Prompting {
            key_number: state->Checking_key_number,
            taken: state->candidate,
        }),
{
}

/// The creation of a branch is asked for at one moment only: when the
/// candidate under examination is reported absent, and under its name.
pub proof fn lemma_creation_follows_absence(state: IssueStateView, event: IssueEventView)
    ensures
        next_action(state, event) matches IssueActionView::CreateBranch { name } ==> {
            &&& state matches IssueStateView::Checking { candidate, .. }
            &&& candidate == name
            &&& event == IssueEventView::BranchChecked { exists: false }
        },
        (next_state(state, event) is Created && !(state is Created)) ==> next_action(state, event)
            == (IssueActionView::CreateBranch { name: next_state(state, event)->name }),
{
}

/// However the events fall, a flow that has not ended yet ends only in the
/// creation of a branch whose existence check came back negative.
pub proof fn lemma_run_ends_on_absent_name(state: IssueStateView, events: Seq<IssueEventView>)
    requires
        !(state is Created),
    ensures
        run(state, events) matches IssueStateView::Created { name } ==> exists|i: int|
            found_absent(state, events, i, name),
    decreases events.len(),
{
    if events.len() > 0 {
        let before = events.drop_last();
        let reached = run(state, before);
        lemma_run_ends_on_absent_name(state, before);
        if let IssueStateView::Created { name } = run(state, events) {
            if reached is Created {
                let i = choose|i: int| found_absent(state, before, i, name);
                assert(before.take(i) =~= events.take(i));
                assert(found_absent(state, events, i, name));
            } else {
                let i = events.len() - 1;
                assert(events.take(i) =~= before);
                assert(found_absent(state, events, i, name));
            }
        }
    }
}

/// The candidate that follows the user's answer is made of the answer without
/// the white space around it: `issue/<key_number>` for a blank answer, and
/// `issue/<key_number>-<answer>` for any other.
pub proof fn lemma_candidate_after_answer(
    key_number: Seq<char>,
    taken: Seq<char>,
    line: Seq<char>,
)
    ensures
        next_state(
            IssueStateView::Prompting { key_number, taken },
            IssueEventView::SuffixEntered { line },
        ) == (IssueStateView::Checking {
            key_number,
            candidate: plain_branch_name(
                key_number,
                if trimmed(line).len() == 0 {
                    None
                } else {
                    Some(trimmed(line))
                },
            ),
        }),
{
    lemma_trimmed_idempotent(line);
}

/// Once a branch was created the flow stays where it is and asks for nothing.
pub proof fn lemma_created_is_final(state: IssueStateView, event: IssueEventView)
    requires
        state is Created,
    ensures
        next_state(state, event) == state,
        next_action(state, event) == IssueActionView::Nothing,
{
}

/// Why the flow could not start.
#[derive(Clone, Debug, PartialEq, Eq)]
pub enum IssueError {
    /// The command was not given one key and number and at most one suffix.
    Usage,
}

impl IssueError {
    /// The line shown to the user.
    pub fn message(&self) -> (text: String)
        ensures
            text@ == "Usage: fgit issue <issue-key>-<issue-number> [suffix]"@,
    {
        String::from_str("Usage: fgit issue <issue-key>-<issue-number> [suffix]")
    }
}

impl IssueState {
    /// Whether the flow is over.
    pub fn is_finished(&self) -> (done: bool)
        ensures
            done == (self@ is Created),
    {
        match self {
            IssueState::Created { .. } => true,
            _ => false,
        }
    }

    /// The action that this state waits on.
    pub fn pending_action(&self) -> (action: IssueAction)
        ensures
            action@ == pending(self@),
    {
        match self {
            IssueState::Checking { candidate, .. } => {
                let mut reference = String::from_str("refs/heads/");
                reference.append(candidate.as_str());
                IssueAction::CheckBranch { reference }
            },
            IssueState::Prompting { taken, .. } => {
                let mut message = String::from_str("A branch named '");
                message.append(taken.as_str());
                message.append("' already exists. Please enter a new suffix:");
                IssueAction::AskSuffix { message }
            },
            IssueState::Created { .. } => IssueAction::Nothing,
        }
    }
}

/// Starts the flow from the command's arguments: the command word, the key
/// and number, and an optional suffix.
pub fn start(args: &[String]) -> (r: Result<(IssueState, IssueAction), IssueError>)
    ensures
        (args.len() < 2 || args.len() > 3) ==> r is Err,
        args.len() == 2 ==> r is Ok && r->Ok_0.0@ == initial(args[1]@, Seq::empty()),
        args.len() == 3 ==> r is Ok && r->Ok_0.0@ == initial(args[1]@, args[2]@),
        r matches Ok((state, action)) ==> action@ == pending(state@),
{
    if args.len() < 2 || args.len() > 3 {
        return Err(IssueError::Usage);
    }
    let suffix = if args.len() == 3 {
        args[2].as_str()
    } else {
        ""
    };
    proof {
        reveal_strlit("");
        assert(""@ =~= Seq::<char>::empty());
    }
    let key_number = args[1].clone();
    let candidate = propose_branch_name(key_number.as_str(), suffix);
    let state = IssueState::Checking { key_number, candidate };
    let action = state.pending_action();
    Ok((state, action))
}

/// Takes the flow one step on: the state after `event`, and what the caller
/// has to do next.
pub fn step(state: IssueState, event: IssueEvent) -> (r: (IssueState, IssueAction))
    ensures
        r.0@ == next_state(state@, event@),
        r.1@ == next_action(state@, event@),
{
    match (state, event) {
        (IssueState::Checking { key_number, candidate }, IssueEvent::BranchChecked { exists }) => {
            if exists {
                let next = IssueState::Prompting { key_number, taken: candidate };
                let action = next.pending_action();
                (next, action)
            } else {
                let name = candidate.clone();
                (IssueState::Created { name: candidate }, IssueAction::CreateBranch { name })
            }
        },
        (IssueState::Prompting { key_number, taken }, IssueEvent::SuffixEntered { line }) => {
            let candidate = propose_branch_name(key_number.as_str(), line.as_str().trim());
            let next = IssueState::Checking { key_number, candidate };
            let action = next.pending_action();
            (next, action)
        },
        (state, _) => {
            let action = state.pending_action();
            (state, action)
        },
    }
}

} // verus!
