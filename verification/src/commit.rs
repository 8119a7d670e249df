//! Conventional commit messages: `type(scope): description`, with the issue
//! that the current branch names appended as ` [KEY-NUMBER]`.

use vstd::prelude::*;
use vstd::string::*;
use crate::tag::{extract_issue_tag, issue_tag_of, IssueTag, IssueTagView};
use crate::text::{join_from, joined, lowercase, same_text, texts, trimmed};

verus! {

/// The kinds of change that a commit can announce.
#[derive(Clone, Copy, Debug, PartialEq, Eq, Structural)]
pub enum CommitType {
    Feat,
    Fix,
    Build,
    Chore,
    Ci,
    Docs,
    Style,
    Refactor,
    Perf,
    Test,
}

/// The word that stands for a commit type in a message.
pub open spec fn type_word(commit_type: CommitType) -> Seq<char> {
    match commit_type {
        CommitType::Feat => "feat"@,
        CommitType::Fix => "fix"@,
        CommitType::Build => "build"@,
        CommitType::Chore => "chore"@,
        CommitType::Ci => "ci"@,
        CommitType::Docs => "docs"@,
        CommitType::Style => "style"@,
        CommitType::Refactor => "refactor"@,
        CommitType::Perf => "perf"@,
        CommitType::Test => "test"@,
    }
}

/// The commit type that `word` stands for, if it is one of the ten words.
pub open spec fn type_for_word(word: Seq<char>) -> Option<CommitType> {
    if word == "feat"@ {
        Some(CommitType::Feat)
    } else if word == "fix"@ {
        Some(CommitType::Fix)
    } else if word == "build"@ {
        Some(CommitType::Build)
    } else if word == "chore"@ {
        Some(CommitType::Chore)
    } else if word == "ci"@ {
        Some(CommitType::Ci)
    } else if word == "docs"@ {
        Some(CommitType::Docs)
    } else if word == "style"@ {
        Some(CommitType::Style)
    } else if word == "refactor"@ {
        Some(CommitType::Refactor)
    } else if word == "perf"@ {
        Some(CommitType::Perf)
    } else if word == "test"@ {
        Some(CommitType::Test)
    } else {
        None
    }
}

/// The ten words are distinct, so each names its own type and no other.
pub proof fn lemma_type_words_distinct(commit_type: CommitType)
    ensures
        type_for_word(type_word(commit_type)) == Some(commit_type),
{
    reveal_strlit("feat");
    reveal_strlit("fix");
    reveal_strlit("build");
    reveal_strlit("chore");
    reveal_strlit("ci");
    reveal_strlit("docs");
    reveal_strlit("style");
    reveal_strlit("refactor");
    reveal_strlit("perf");
    reveal_strlit("test");
    // Words of one length differ in their first letter.
    assert("fix"@.len() == 3 && "ci"@.len() == 2 && "refactor"@.len() == 8);
    assert("feat"@.len() == 4 && "feat"@[0] == 'f');
    assert("docs"@.len() == 4 && "docs"@[0] == 'd');
    assert("perf"@.len() == 4 && "perf"@[0] == 'p');
    assert("test"@.len() == 4 && "test"@[0] == 't');
    assert("build"@.len() == 5 && "build"@[0] == 'b');
    assert("chore"@.len() == 5 && "chore"@[0] == 'c');
    assert("style"@.len() == 5 && "style"@[0] == 's');
}

/// A word that names a type is that type's own word.
pub proof fn lemma_word_of_type_for_word(word: Seq<char>)
    ensures
        type_for_word(word) matches Some(commit_type) ==> type_word(commit_type) == word,
{
}

impl CommitType {
    /// The word that stands for this type in a message.
    pub fn name(&self) -> (word: &'static str)
        ensures
            word@ == type_word(*self),
    {
        match self {
            CommitType::Feat => "feat",
            CommitType::Fix => "fix",
            CommitType::Build => "build",
            CommitType::Chore => "chore",
            CommitType::Ci => "ci",
            CommitType::Docs => "docs",
            CommitType::Style => "style",
            CommitType::Refactor => "refactor",
            CommitType::Perf => "perf",
            CommitType::Test => "test",
        }
    }

    /// The type that `word` stands for. The word is taken as it is: a word in
    /// upper case names no type.
    pub fn from_name(word: &str) -> (found: Option<CommitType>)
        ensures
            found == type_for_word(word@),
    {
        if same_text(word, "feat") {
            Some(CommitType::Feat)
        } else if same_text(word, "fix") {
            Some(CommitType::Fix)
        } else if same_text(word, "build") {
            Some(CommitType::Build)
        } else if same_text(word, "chore") {
            Some(CommitType::Chore)
        } else if same_text(word, "ci") {
            Some(CommitType::Ci)
        } else if same_text(word, "docs") {
            Some(CommitType::Docs)
        } else if same_text(word, "style") {
            Some(CommitType::Style)
        } else if same_text(word, "refactor") {
            Some(CommitType::Refactor)
        } else if same_text(word, "perf") {
            Some(CommitType::Perf)
        } else if same_text(word, "test") {
            Some(CommitType::Test)
        } else {
            None
        }
    }
}

/// What is appended to a message for the issue of the current branch.
pub open spec fn tag_suffix(tag: Option<IssueTagView>) -> Seq<char> {
    match tag {
        Some(t) => " ["@ + t.key + "-"@ + t.number + "]"@,
        None => Seq::empty(),
    }
}

/// The commit message: `type(scope): description`, then the issue tag.
pub open spec fn rendered(
    commit_type: CommitType,
    scope: Seq<char>,
    description: Seq<char>,
    tag: Option<IssueTagView>,
) -> Seq<char> {
    type_word(commit_type) + "("@ + scope + "): "@ + description + tag_suffix(tag)
}

/// Renders a commit message from parts that are taken as they are.
pub fn render_message(
    commit_type: CommitType,
    scope: &str,
    description: &str,
    tag: Option<&IssueTag>,
) -> (message: String)
    ensures
        message@ == rendered(
            commit_type,
            scope@,
            description@,
            match tag {
                Some(t) => Some(t@),
                None => None,
            },
        ),
{
    let mut message = String::from_str(commit_type.name());
    message.append("(");
    message.append(scope);
    message.append("): ");
    message.append(description);
    match tag {
        Some(t) => {
            let ghost body = message@;
            message.append(" [");
            message.append(t.key.as_str());
            message.append("-");
            message.append(t.number.as_str());
            message.append("]");
            assert(message@ =~= body + (" ["@ + t.key@ + "-"@ + t.number@ + "]"@));
        },
        None => {
            assert(message@ =~= message@ + Seq::<char>::empty());
        },
    }
    message
}

/// Why no commit message was made.
#[derive(Clone, Debug, PartialEq, Eq)]
pub enum CommitError {
    /// Fewer arguments than a type and a scope.
    Usage,
    /// The type, here in lower case, is none of the ten.
    InvalidType { value: String },
}

/// What a [`CommitError`] holds, as sequences of characters.
pub enum CommitErrorView {
    Usage,
    InvalidType { value: Seq<char> },
}

impl View for CommitError {
    type V = CommitErrorView;

    open spec fn view(&self) -> CommitErrorView {
        match self {
            CommitError::Usage => CommitErrorView::Usage,
            CommitError::InvalidType { value } => CommitErrorView::InvalidType { value: value@ },
        }
    }
}

/// The words of the ten commit types in the order in which they are listed.
pub open spec fn allowed_words() -> Seq<Seq<char>> {
    seq![
        type_word(CommitType::Feat),
        type_word(CommitType::Fix),
        type_word(CommitType::Build),
        type_word(CommitType::Chore),
        type_word(CommitType::Ci),
        type_word(CommitType::Docs),
        type_word(CommitType::Style),
        type_word(CommitType::Refactor),
        type_word(CommitType::Perf),
        type_word(CommitType::Test),
    ]
}

/// A word names a commit type exactly if it is in the list of allowed words.
pub proof fn lemma_allowed_words_are_the_types(word: Seq<char>)
    ensures
        type_for_word(word) is Some <==> allowed_words().contains(word),
{
    let words = allowed_words();
    if let Some(commit_type) = type_for_word(word) {
        let i: int = match commit_type {
            CommitType::Feat => 0,
            CommitType::Fix => 1,
            CommitType::Build => 2,
            CommitType::Chore => 3,
            CommitType::Ci => 4,
            CommitType::Docs => 5,
            CommitType::Style => 6,
            CommitType::Refactor => 7,
            CommitType::Perf => 8,
            CommitType::Test => 9,
        };
        assert(words[i] == word);
    }
    if words.contains(word) {
        let i = choose|i: int| 0 <= i < words.len() && words[i] == word;
        assert(words[i] == word);
    }
}

/// What the user is shown for an error.
pub open spec fn error_text(error: CommitErrorView) -> Seq<char> {
    match error {
        CommitErrorView::Usage => "Usage: fgit commit <type> <scope> <description>"@,
        CommitErrorView::InvalidType { value } => "Invalid commit type '"@ + value
            + "'.\nValid types are "@ + joined(allowed_words(), ", "@),
    }
}

/// The ten commit types in the order in which they are listed.
pub fn all_types() -> (types: Vec<CommitType>)
    ensures
        types@ == seq![
            CommitType::Feat,
            CommitType::Fix,
            CommitType::Build,
            CommitType::Chore,
            CommitType::Ci,
            CommitType::Docs,
            CommitType::Style,
            CommitType::Refactor,
            CommitType::Perf,
            CommitType::Test,
        ],
{
    vec![
        CommitType::Feat,
        CommitType::Fix,
        CommitType::Build,
        CommitType::Chore,
        CommitType::Ci,
        CommitType::Docs,
        CommitType::Style,
        CommitType::Refactor,
        CommitType::Perf,
        CommitType::Test,
    ]
}

impl CommitError {
    /// The text shown to the user: the usage line, or the rejected type with
    /// the list of the types that are accepted.
    pub fn message(&self) -> (text: String)
        ensures
            text@ == error_text(self@),
    {
        match self {
            CommitError::Usage => String::from_str(
                "Usage: fgit commit <type> <scope> <description>",
            ),
            CommitError::InvalidType { value } => {
                let types = all_types();
                let mut words: Vec<String> = Vec::new();
                let mut i: usize = 0;
                while i < types.len()
                    invariant
                        i <= types.len(),
                        types.len() == 10,
                        words.len() == i,
                        forall|j: int| 0 <= j < i ==> words[j]@ == type_word(#[trigger] types[j]),
                    decreases types.len() - i,
                {
                    words.push(String::from_str(types[i].name()));
                    i = i + 1;
                }
                assert(texts(words@) =~= allowed_words());
                assert(texts(words@).skip(0) =~= texts(words@));
                let list = join_from(words.as_slice(), 0, ", ");
                let mut text = String::from_str("Invalid commit type '");
                text.append(value.as_str());
                text.append("'.\nValid types are ");
                text.append(list.as_str());
                text
            },
        }
    }
}

/// A commit that was asked for and found valid.
#[derive(Clone, Debug, PartialEq, Eq)]
pub struct CommitRequest {
    commit_type: CommitType,
    scope: String,
    description: String,
}

/// What a [`CommitRequest`] holds, as sequences of characters.
pub struct CommitRequestView {
    pub commit_type: CommitType,
    pub scope: Seq<char>,
    pub description: Seq<char>,
}

impl View for CommitRequest {
    type V = CommitRequestView;

    closed spec fn view(&self) -> CommitRequestView {
        CommitRequestView {
            commit_type: self.commit_type,
            scope: self.scope@,
            description: self.description@,
        }
    }
}

/// The request that a type, a scope and a description stand for: the type
/// and the scope are put in lower case, and the type has to be one of the ten.
pub open spec fn request_for(
    commit_type: Seq<char>,
    scope: Seq<char>,
    description: Seq<char>,
) -> Result<CommitRequestView, CommitErrorView> {
    match type_for_word(lowercase(commit_type)) {
        Some(t) => Ok(CommitRequestView { commit_type: t, scope: lowercase(scope), description }),
        None => Err(CommitErrorView::InvalidType { value: lowercase(commit_type) }),
    }
}

/// The request that the arguments of the command stand for: the command
/// word, the type, the scope, and the words of the description.
pub open spec fn request_of_args(args: Seq<Seq<char>>) -> Result<
    CommitRequestView,
    CommitErrorView,
> {
    if args.len() < 3 {
        Err(CommitErrorView::Usage)
    } else {
        request_for(args[1], args[2], joined(args.skip(3), " "@))
    }
}

/// The message of a request, on a branch that refers to `tag`.
pub open spec fn message_of(request: CommitRequestView, tag: Option<IssueTagView>) -> Seq<char> {
    rendered(request.commit_type, request.scope, request.description, tag)
}

/// The issue named by what git printed as the current branch.
pub open spec fn tag_of_output(branch_output: Seq<char>) -> Option<IssueTagView> {
    issue_tag_of(trimmed(branch_output))
}

/// The message composed from a type, a scope, a description and a tag, or the
/// reason why there is none.
pub open spec fn composed(
    commit_type: Seq<char>,
    scope: Seq<char>,
    description: Seq<char>,
    tag: Option<IssueTagView>,
) -> Result<Seq<char>, CommitErrorView> {
    match request_for(commit_type, scope, description) {
        Ok(request) => Ok(message_of(request, tag)),
        Err(error) => Err(error),
    }
}

/// The message for the arguments of the command, given what git printed as
/// the current branch.
pub open spec fn commit_message_of(args: Seq<Seq<char>>, branch_output: Seq<char>) -> Result<
    Seq<char>,
    CommitErrorView,
> {
    match request_of_args(args) {
        Ok(request) => Ok(message_of(request, tag_of_output(branch_output))),
        Err(error) => Err(error),
    }
}

/// Composing is a function of its inputs: the same arguments on the same
/// branch give the same message, or the same error, every time.
pub proof fn lemma_same_inputs_same_message(
    first_args: Seq<Seq<char>>,
    first_branch: Seq<char>,
    second_args: Seq<Seq<char>>,
    second_branch: Seq<char>,
)
    requires
        first_args == second_args,
        first_branch == second_branch,
    ensures
        commit_message_of(first_args, first_branch) == commit_message_of(
            second_args,
            second_branch,
        ),
{
}

/// The case of type and scope does not matter: inputs that agree once they
/// are put in lower case give the same message.
pub proof fn lemma_case_is_ignored(
    first_type: Seq<char>,
    first_scope: Seq<char>,
    second_type: Seq<char>,
    second_scope: Seq<char>,
    description: Seq<char>,
    tag: Option<IssueTagView>,
)
    requires
        lowercase(first_type) == lowercase(second_type),
        lowercase(first_scope) == lowercase(second_scope),
    ensures
        composed(first_type, first_scope, description, tag) == composed(
            second_type,
            second_scope,
            description,
            tag,
        ),
{
}

/// With no word of description the message has an empty body: it is
/// `type(scope): ` and then the issue tag, if the branch gives one.
pub proof fn lemma_no_description_empty_body(args: Seq<Seq<char>>, branch_output: Seq<char>)
    requires
        args.len() == 3,
    ensures
        match type_for_word(lowercase(args[1])) {
            Some(commit_type) => commit_message_of(args, branch_output) == Ok::<
                Seq<char>,
                CommitErrorView,
            >(
                type_word(commit_type) + "("@ + lowercase(args[2]) + "): "@ + tag_suffix(
                    tag_of_output(branch_output),
                ),
            ),
            None => commit_message_of(args, branch_output) is Err,
        },
{
    assert(args.skip(3) =~= Seq::<Seq<char>>::empty());
    if let Some(commit_type) = type_for_word(lowercase(args[1])) {
        let head = type_word(commit_type) + "("@ + lowercase(args[2]) + "): "@;
        assert(head + Seq::<char>::empty() =~= head);
    }
}

/// A message is made exactly for the arguments that hold a type and a scope
/// with a type that is, in lower case, one of the ten; any other input gives
/// an error and no message.
pub proof fn lemma_message_only_for_valid_type(args: Seq<Seq<char>>, branch_output: Seq<char>)
    ensures
        commit_message_of(args, branch_output) is Ok <==> args.len() >= 3 && type_for_word(
            lowercase(args[1]),
        ) is Some,
        args.len() >= 3 && type_for_word(lowercase(args[1])) is None ==> commit_message_of(
            args,
            branch_output,
        ) == Err::<Seq<char>, CommitErrorView>(
            CommitErrorView::InvalidType { value: lowercase(args[1]) },
        ),
{
}

/// The view of a request or of the error in its place.
pub open spec fn request_outcome(r: Result<CommitRequest, CommitError>) -> Result<
    CommitRequestView,
    CommitErrorView,
> {
    match r {
        Ok(request) => Ok(request@),
        Err(error) => Err(error@),
    }
}

/// The view of a message or of the error in its place.
pub open spec fn message_outcome(r: Result<String, CommitError>) -> Result<
    Seq<char>,
    CommitErrorView,
> {
    match r {
        Ok(message) => Ok(message@),
        Err(error) => Err(error@),
    }
}

impl CommitRequest {
    /// Whether the scope is the lower-case form of some text, as it is for
    /// every request that this module hands out.
    pub closed spec fn well_formed(&self) -> bool {
        exists|raw: Seq<char>| self.scope@ == lowercase(raw)
    }

    /// Validates a type, a scope and a description that is already joined.
    pub fn new(commit_type: &str, scope: &str, description: &str) -> (r: Result<
        CommitRequest,
        CommitError,
    >)
        ensures
            request_outcome(r) == request_for(commit_type@, scope@, description@),
            r matches Ok(request) ==> request.well_formed(),
    {
        let word = commit_type.to_lowercase();
        match CommitType::from_name(word.as_str()) {
            Some(t) => {
                let request = CommitRequest {
                    commit_type: t,
                    scope: scope.to_lowercase(),
                    description: String::from_str(description),
                };
                assert(request.scope@ == lowercase(scope@));
                Ok(request)
            },
            None => Err(CommitError::InvalidType { value: word }),
        }
    }

    /// Validates the arguments of the command: the command word, the type,
    /// the scope, and the words of the description, which are joined by single
    /// spaces. No word of description gives an empty description.
    pub fn from_args(args: &[String]) -> (r: Result<CommitRequest, CommitError>)
        ensures
            request_outcome(r) == request_of_args(texts(args@)),
            r is Err <==> args.len() < 3 || type_for_word(lowercase(args[1]@)) is None,
            r matches Ok(request) ==> request.well_formed(),
    {
        if args.len() < 3 {
            return Err(CommitError::Usage);
        }
        let description = join_from(args, 3, " ");
        CommitRequest::new(args[1].as_str(), args[2].as_str(), description.as_str())
    }

    /// The kind of change.
    pub fn commit_type(&self) -> (commit_type: CommitType)
        ensures
            commit_type == self@.commit_type,
    {
        self.commit_type
    }

    /// The scope, in lower case.
    pub fn scope(&self) -> (scope: &str)
        ensures
            scope@ == self@.scope,
    {
        self.scope.as_str()
    }

    /// The description, as it was given.
    pub fn description(&self) -> (description: &str)
        ensures
            description@ == self@.description,
    {
        self.description.as_str()
    }

    /// The commit message, with `tag` appended where there is one.
    pub fn message(&self, tag: Option<&IssueTag>) -> (message: String)
        ensures
            message@ == message_of(
                self@,
                match tag {
                    Some(t) => Some(t@),
                    None => None,
                },
            ),
    {
        render_message(self.commit_type, self.scope.as_str(), self.description.as_str(), tag)
    }

    /// The commit message on the current branch, which is given as git
    /// printed it: white space around the name is dropped, and the issue that
    /// the name refers to is appended.
    pub fn message_on_branch(&self, branch_output: &str) -> (message: String)
        ensures
            message@ == message_of(self@, tag_of_output(branch_output@)),
    {
        let tag = extract_issue_tag(branch_output.trim());
        self.message(tag.as_ref())
    }
}

/// Composes a commit message: validates the type, puts type and scope in
/// lower case, and appends the tag where there is one.
pub fn compose_message(
    commit_type: &str,
    scope: &str,
    description: &str,
    tag: Option<&IssueTag>,
) -> (r: Result<String, CommitError>)
    ensures
        message_outcome(r) == composed(
            commit_type@,
            scope@,
            description@,
            match tag {
                Some(t) => Some(t@),
                None => None,
            },
        ),
        r is Ok <==> type_for_word(lowercase(commit_type@)) is Some,
{
    match CommitRequest::new(commit_type, scope, description) {
        Ok(request) => Ok(request.message(tag)),
        Err(error) => Err(error),
    }
}

/// The commit message for the arguments of the command, on the branch that
/// git printed as the current one.
pub fn commit_message(args: &[String], branch_output: &str) -> (r: Result<String, CommitError>)
    ensures
        message_outcome(r) == commit_message_of(texts(args@), branch_output@),
        r is Err <==> args.len() < 3 || type_for_word(lowercase(args[1]@)) is None,
{
    match CommitRequest::from_args(args) {
        Ok(request) => Ok(request.message_on_branch(branch_output)),
        Err(error) => Err(error),
    }
}

} // verus!
