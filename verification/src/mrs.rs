//! The list of a project's merge requests, as the remote API gives it: what
//! to ask for, and what to make of the answer.

use vstd::prelude::*;
use vstd::string::*;
use crate::http::{
    header_char, header_safe, header_value_accepts, is_success, status_is_success, status_line,
    status_text,
};
use crate::json::{
    describe, error_line, member, member_of, parse_array, parsed_array, string_of, text,
};

verus! {

/// A field that every merge request has to come with.
#[derive(Clone, Copy, Debug, PartialEq, Eq, Structural)]
pub enum Field {
    Title,
    AuthorName,
    WebUrl,
}

/// Why the merge requests could not be listed.
#[derive(Clone, Debug, PartialEq, Eq)]
pub enum MrsError {
    /// No access token was found in the environment.
    MissingToken,
    /// No project was named, neither as an argument nor in the environment.
    MissingProjectId,
    /// The token holds a character that no header can carry.
    InvalidToken,
    /// The request could not be sent; `detail` says why.
    Send { detail: String },
    /// The API answered with a status other than success.
    Status { status: String },
    /// The answer is not a JSON array; `detail` says where it goes wrong.
    Parse { detail: String },
    /// A merge request came without one of its fields.
    MissingField { field: Field },
}

/// What an [`MrsError`] holds, as sequences of characters.
pub enum MrsErrorView {
    MissingToken,
    MissingProjectId,
    InvalidToken,
    Send { detail: Seq<char> },
    Status { status: Seq<char> },
    Parse { detail: Seq<char> },
    MissingField { field: Field },
}

impl View for MrsError {
    type V = MrsErrorView;

    open spec fn view(&self) -> MrsErrorView {
        match self {
            MrsError::MissingToken => MrsErrorView::MissingToken,
            MrsError::MissingProjectId => MrsErrorView::MissingProjectId,
            MrsError::InvalidToken => MrsErrorView::InvalidToken,
            MrsError::Send { detail } => MrsErrorView::Send { detail: detail@ },
            MrsError::Status { status } => MrsErrorView::Status { status: status@ },
            MrsError::Parse { detail } => MrsErrorView::Parse { detail: detail@ },
            MrsError::MissingField { field } => MrsErrorView::MissingField { field: *field },
        }
    }
}

/// What an error says.
pub open spec fn error_text(error: MrsErrorView) -> Seq<char> {
    match error {
        MrsErrorView::MissingToken => "Missing GITLAB_TOKEN environment variable"@,
        MrsErrorView::MissingProjectId =>
            "Missing project-id argument, or try adding a GITLAB_PROJECT_ID environment variable"@,
        MrsErrorView::InvalidToken => "Failed to create authorization header"@,
        MrsErrorView::Send { detail } => "Failed to send HTTP request: "@ + detail,
        MrsErrorView::Status { status } => "Failed to list merge requests: "@ + status,
        MrsErrorView::Parse { detail } => "Failed to parse response JSON: "@ + detail,
        MrsErrorView::MissingField { field } => match field {
            Field::Title => "Missing merge request title"@,
            Field::AuthorName => "Missing merge request author name"@,
            Field::WebUrl => "Missing merge request web URL"@,
        },
    }
}

impl MrsError {
    /// What the error says.
    pub fn message(&self) -> (text: String)
        ensures
            text@ == error_text(self@),
    {
        match self {
            MrsError::MissingToken => String::from_str("Missing GITLAB_TOKEN environment variable"),
            MrsError::MissingProjectId => String::from_str(
                "Missing project-id argument, or try adding a GITLAB_PROJECT_ID environment variable",
            ),
            MrsError::InvalidToken => String::from_str("Failed to create authorization header"),
            MrsError::Send { detail } => {
                let mut text = String::from_str("Failed to send HTTP request: ");
                text.append(detail.as_str());
                text
            },
            MrsError::Status { status } => {
                let mut text = String::from_str("Failed to list merge requests: ");
                text.append(status.as_str());
                text
            },
            MrsError::Parse { detail } => {
                let mut text = String::from_str("Failed to parse response JSON: ");
                text.append(detail.as_str());
                text
            },
            MrsError::MissingField { field } => match field {
                Field::Title => String::from_str("Missing merge request title"),
                Field::AuthorName => String::from_str("Missing merge request author name"),
                Field::WebUrl => String::from_str("Missing merge request web URL"),
            },
        }
    }

    /// The line printed for the error: its message after `Error: `.
    pub fn report(&self) -> (line: String)
        ensures
            line@ == "Error: "@ + error_text(self@),
    {
        let mut line = String::from_str("Error: ");
        line.append(self.message().as_str());
        line
    }
}

/// The request to send: one GET with two headers.
#[derive(Clone, Debug, PartialEq, Eq)]
pub struct ListRequest {
    pub url: String,
    /// The value of the `Accept` header.
    pub accept: String,
    /// The value of the `Authorization` header.
    pub authorization: String,
}

/// What a [`ListRequest`] holds, as sequences of characters.
pub struct ListRequestView {
    pub url: Seq<char>,
    pub accept: Seq<char>,
    pub authorization: Seq<char>,
}

impl View for ListRequest {
    type V = ListRequestView;

    open spec fn view(&self) -> ListRequestView {
        ListRequestView { url: self.url@, accept: self.accept@, authorization: self.authorization@ }
    }
}

/// The text of an optional string.
pub open spec fn text_of(s: Option<String>) -> Option<Seq<char>> {
    match s {
        Some(s) => Some(s@),
        None => None,
    }
}

/// The address of the merge requests of a project.
pub open spec fn list_url(project_id: Seq<char>) -> Seq<char> {
    "https://gitlab.com/api/v4/projects/"@ + project_id + "/merge_requests"@
}

/// The request for the merge requests of `project_id`, made with `token`.
pub open spec fn request_for(token: Seq<char>, project_id: Seq<char>) -> ListRequestView {
    ListRequestView {
        url: list_url(project_id),
        accept: "application/json"@,
        authorization: "Bearer "@ + token,
    }
}

/// The value of the `Accept` header can be sent as it is, and so can that of
/// the `Authorization` header if the token can.
pub proof fn lemma_request_headers(token: Seq<char>, project_id: Seq<char>)
    ensures
        header_safe(request_for(token, project_id).accept),
        header_safe(token) <==> header_safe(request_for(token, project_id).authorization),
{
    reveal_strlit("application/json");
    reveal_strlit("Bearer ");
    let authorization = "Bearer "@ + token;
    if header_safe(token) {
        assert forall|i: int| 0 <= i < authorization.len() implies header_char(
            #[trigger] authorization[i],
        ) by {
            if i >= 7 {
                assert(authorization[i] == token[i - 7]);
            }
        }
    }
    if header_safe(authorization) {
        assert forall|i: int| 0 <= i < token.len() implies header_char(#[trigger] token[i]) by {
            assert(token[i] == authorization[i + 7]);
        }
    }
}

/// The project to list: the first argument after the command word, or else
/// what the environment names.
pub open spec fn project_of(args: Seq<String>, from_env: Option<Seq<char>>) -> Option<Seq<char>> {
    if args.len() > 1 {
        Some(args[1]@)
    } else {
        from_env
    }
}

/// What is to be sent, or why nothing is: the token is looked for first,
/// then the project, and at last the token has to fit into a header.
pub open spec fn planned(
    args: Seq<String>,
    token: Option<Seq<char>>,
    project_from_env: Option<Seq<char>>,
) -> Result<ListRequestView, MrsErrorView> {
    match (token, project_of(args, project_from_env)) {
        (None, _) => Err(MrsErrorView::MissingToken),
        (Some(_), None) => Err(MrsErrorView::MissingProjectId),
        (Some(token), Some(project_id)) => if header_safe(token) {
            Ok(request_for(token, project_id))
        } else {
            Err(MrsErrorView::InvalidToken)
        },
    }
}

/// The access token, which has to be in the environment.
pub fn gitlab_token(from_env: Option<String>) -> (r: Result<String, MrsError>)
    ensures
        match from_env {
            Some(token) => r == Ok::<String, MrsError>(token),
            None => r matches Err(MrsError::MissingToken),
        },
{
    match from_env {
        Some(token) => Ok(token),
        None => Err(MrsError::MissingToken),
    }
}

/// The project to list: the first argument after the command word, or else
/// what the environment names.
pub fn gitlab_project_id(args: &[String], from_env: Option<String>) -> (r: Result<String, MrsError>)
    ensures
        match project_of(args@, text_of(from_env)) {
            Some(project_id) => r matches Ok(id) && id@ == project_id,
            None => r matches Err(MrsError::MissingProjectId),
        },
{
    if args.len() > 1 {
        Ok(args[1].clone())
    } else {
        match from_env {
            Some(project_id) => Ok(project_id),
            None => Err(MrsError::MissingProjectId),
        }
    }
}

/// Builds the request for the merge requests of `project_id`.
pub fn list_request(token: &str, project_id: &str) -> (request: ListRequest)
    ensures
        request@ == request_for(token@, project_id@),
{
    let mut url = String::from_str("https://gitlab.com/api/v4/projects/");
    url.append(project_id);
    url.append("/merge_requests");
    let mut authorization = String::from_str("Bearer ");
    authorization.append(token);
    ListRequest { url, accept: String::from_str("application/json"), authorization }
}

/// Decides what to send from the arguments of the command and the two
/// environment variables. Without a token nothing is sent.
pub fn plan_request(
    args: &[String],
    token: Option<String>,
    project_from_env: Option<String>,
) -> (r: Result<ListRequest, MrsError>)
    ensures
        match planned(args@, text_of(token), text_of(project_from_env)) {
            Ok(request) => r matches Ok(made) && made@ == request,
            Err(error) => r matches Err(found) && found@ == error,
        },
        token is None ==> r matches Err(MrsError::MissingToken),
        r matches Ok(made) ==> header_safe(made.accept@) && header_safe(made.authorization@),
{
    let token = match gitlab_token(token) {
        Ok(token) => token,
        Err(error) => {
            return Err(error);
        },
    };
    let project_id = match gitlab_project_id(args, project_from_env) {
        Ok(project_id) => project_id,
        Err(error) => {
            return Err(error);
        },
    };
    let request = list_request(token.as_str(), project_id.as_str());
    proof {
        lemma_request_headers(token@, project_id@);
    }
    if header_value_accepts(request.authorization.as_str()) {
        Ok(request)
    } else {
        Err(MrsError::InvalidToken)
    }
}

/// Accepts an answer by its status: any status from 200 to 299, and no other.
/// The error holds the status as it is shown to the user.
pub fn check_status(code: u16) -> (r: Result<(), MrsError>)
    ensures
        is_success(code) ==> r is Ok,
        !is_success(code) ==> (r matches Err(error) && error@ == (MrsErrorView::Status {
            status: status_text(code),
        })),
{
    if status_is_success(code) {
        Ok(())
    } else {
        Err(MrsError::Status { status: status_line(code) })
    }
}

/// What is read of a merge request: each field is there or missing.
#[derive(Clone, Debug, PartialEq, Eq)]
pub struct MergeRequest {
    pub title: Option<String>,
    pub author_name: Option<String>,
    pub web_url: Option<String>,
}

/// What a [`MergeRequest`] holds, as sequences of characters.
pub struct MergeRequestView {
    pub title: Option<Seq<char>>,
    pub author_name: Option<Seq<char>>,
    pub web_url: Option<Seq<char>>,
}

impl View for MergeRequest {
    type V = MergeRequestView;

    open spec fn view(&self) -> MergeRequestView {
        MergeRequestView {
            title: text_of(self.title),
            author_name: text_of(self.author_name),
            web_url: text_of(self.web_url),
        }
    }
}

/// The first field that a merge request lacks, in the order title, author
/// name, web URL.
pub open spec fn missing_field(request: MergeRequestView) -> Option<Field> {
    if request.title is None {
        Some(Field::Title)
    } else if request.author_name is None {
        Some(Field::AuthorName)
    } else if request.web_url is None {
        Some(Field::WebUrl)
    } else {
        None
    }
}

/// The line printed for a merge request that lacks nothing.
pub open spec fn line_of(request: MergeRequestView) -> Seq<char> {
    request.title->0 + " by "@ + request.author_name->0 + " ("@ + request.web_url->0 + ")"@
}

/// How many merge requests at the head of `requests` lack nothing.
pub open spec fn complete_len(requests: Seq<MergeRequestView>) -> nat
    decreases requests.len(),
{
    if requests.len() > 0 && missing_field(requests.first()) is None {
        1 + complete_len(requests.drop_first())
    } else {
        0
    }
}

/// What is printed for a list of merge requests.
#[derive(Clone, Debug, PartialEq, Eq)]
pub struct Listing {
    /// One line for each merge request up to the first that lacks a field.
    pub lines: Vec<String>,
    /// The field that the first incomplete merge request lacks.
    pub missing: Option<Field>,
}

/// What a [`Listing`] holds, as sequences of characters.
pub struct ListingView {
    pub lines: Seq<Seq<char>>,
    pub missing: Option<Field>,
}

impl View for Listing {
    type V = ListingView;

    open spec fn view(&self) -> ListingView {
        ListingView {
            lines: Seq::new(self.lines.len() as nat, |i: int| self.lines[i]@),
            missing: self.missing,
        }
    }
}

/// The listing of `requests`: the lines of those that come before the first
/// incomplete one, and the field which that one lacks.
pub open spec fn listing_of(requests: Seq<MergeRequestView>) -> ListingView {
    let n = complete_len(requests);
    ListingView {
        lines: Seq::new(n, |i: int| line_of(requests[i])),
        missing: if n < requests.len() {
            missing_field(requests[n as int])
        } else {
            None
        },
    }
}

/// The views of a sequence of merge requests.
pub open spec fn views(requests: Seq<MergeRequest>) -> Seq<MergeRequestView> {
    Seq::new(requests.len(), |i: int| requests[i]@)
}

proof fn lemma_complete_len_is(requests: Seq<MergeRequestView>, n: int)
    requires
        0 <= n <= requests.len(),
        forall|i: int| 0 <= i < n ==> missing_field(#[trigger] requests[i]) is None,
        n < requests.len() ==> missing_field(requests[n]) is Some,
    ensures
        complete_len(requests) == n,
    decreases requests.len(),
{
    if n > 0 {
        let tail = requests.drop_first();
        assert forall|i: int| 0 <= i < n - 1 implies missing_field(#[trigger] tail[i]) is None by {
            assert(tail[i] == requests[i + 1]);
        }
        lemma_complete_len_is(tail, n - 1);
    }
}

/// Every line of a listing stands for a complete merge request, and a listing
/// reports a missing field exactly if it stops before the end.
pub proof fn lemma_listing_shape(requests: Seq<MergeRequestView>)
    ensures
        listing_of(requests).lines.len() <= requests.len(),
        forall|i: int|
            0 <= i < listing_of(requests).lines.len() ==> missing_field(#[trigger] requests[i])
                is None,
        listing_of(requests).missing is Some <==> listing_of(requests).lines.len()
            < requests.len(),
        listing_of(requests).missing is None <==> forall|i: int|
            0 <= i < requests.len() ==> missing_field(#[trigger] requests[i]) is None,
    decreases requests.len(),
{
    if requests.len() > 0 && missing_field(requests.first()) is None {
        let tail = requests.drop_first();
        lemma_listing_shape(tail);
        assert forall|i: int| 0 <= i < complete_len(requests) implies missing_field(
            #[trigger] requests[i],
        ) is None by {
            if i > 0 {
                assert(requests[i] == tail[i - 1]);
            }
        }
        if complete_len(requests) < requests.len() {
            assert(requests[complete_len(requests) as int] == tail[complete_len(tail) as int]);
        } else {
            assert forall|i: int| 0 <= i < requests.len() implies missing_field(
                #[trigger] requests[i],
            ) is None by {}
        }
    }
}

impl MergeRequest {
    /// The first field that is missing, if any is.
    pub fn missing(&self) -> (field: Option<Field>)
        ensures
            field == missing_field(self@),
    {
        if self.title.is_none() {
            Some(Field::Title)
        } else if self.author_name.is_none() {
            Some(Field::AuthorName)
        } else if self.web_url.is_none() {
            Some(Field::WebUrl)
        } else {
            None
        }
    }

    /// The line `<title> by <author> (<web URL>)`, or the field that is
    /// missing.
    pub fn line(&self) -> (r: Result<String, MrsError>)
        ensures
            match missing_field(self@) {
                None => r matches Ok(line) && line@ == line_of(self@),
                Some(field) => r matches Err(error) && error@ == (MrsErrorView::MissingField {
                    field,
                }),
            },
    {
        match (&self.title, &self.author_name, &self.web_url) {
            (Some(title), Some(author_name), Some(web_url)) => {
                let mut line = String::from_str(title.as_str());
                line.append(" by ");
                line.append(author_name.as_str());
                line.append(" (");
                line.append(web_url.as_str());
                line.append(")");
                Ok(line)
            },
            (None, _, _) => Err(MrsError::MissingField { field: Field::Title }),
            (_, None, _) => Err(MrsError::MissingField { field: Field::AuthorName }),
            (_, _, None) => Err(MrsError::MissingField { field: Field::WebUrl }),
        }
    }
}

/// Lists merge requests, one line each, up to the first that lacks a field.
pub fn list(requests: &[MergeRequest]) -> (listing: Listing)
    ensures
        listing@ == listing_of(views(requests@)),
{
    let mut lines: Vec<String> = Vec::new();
    let mut i: usize = 0;
    while i < requests.len()
        invariant
            i <= requests.len(),
            lines.len() == i,
            forall|j: int| 0 <= j < i ==> missing_field(#[trigger] views(requests@)[j]) is None,
            forall|j: int| 0 <= j < i ==> lines[j]@ == line_of(#[trigger] views(requests@)[j]),
        decreases requests.len() - i,
    {
        match requests[i].line() {
            Ok(line) => {
                lines.push(line);
            },
            Err(_) => {
                let listing = Listing { lines, missing: requests[i].missing() };
                proof {
                    assert(views(requests@)[i as int] == requests[i as int]@);
                    lemma_complete_len_is(views(requests@), i as int);
                    assert(listing@.lines =~= listing_of(views(requests@)).lines);
                }
                return listing;
            },
        }
        i = i + 1;
    }
    let listing = Listing { lines, missing: None };
    proof {
        lemma_complete_len_is(views(requests@), i as int);
        assert(listing@.lines =~= listing_of(views(requests@)).lines);
    }
    listing
}

/// What is read of a merge request in a JSON value: the strings under
/// `title`, under `name` inside `author`, and under `web_url`. A field that is
/// not there, or is no string, counts as missing.
pub open spec fn merge_request_in(value: serde_json::Value) -> MergeRequestView {
    MergeRequestView {
        title: string_of(member_of(value, "title"@)),
        author_name: string_of(member_of(member_of(value, "author"@), "name"@)),
        web_url: string_of(member_of(value, "web_url"@)),
    }
}

/// What the body of an answer holds: the merge requests of a JSON array, or
/// the reason why it cannot be read as one.
pub open spec fn parsed_requests(body: Seq<u8>) -> Result<Seq<MergeRequestView>, MrsErrorView> {
    match parsed_array(body) {
        Ok(values) => Ok(Seq::new(values.len(), |i: int| merge_request_in(values[i]))),
        Err(error) => Err(MrsErrorView::Parse { detail: error_line(error) }),
    }
}

fn owned(s: Option<&str>) -> (r: Option<String>)
    ensures
        match s {
            Some(s) => r matches Some(made) && made@ == s@,
            None => r is None,
        },
{
    match s {
        Some(s) => Some(String::from_str(s)),
        None => None,
    }
}

/// Reads a merge request from a JSON value.
pub fn read_merge_request(value: &serde_json::Value) -> (request: MergeRequest)
    ensures
        request@ == merge_request_in(*value),
{
    MergeRequest {
        title: owned(text(member(value, "title"))),
        author_name: owned(text(member(member(value, "author"), "name"))),
        web_url: owned(text(member(value, "web_url"))),
    }
}

/// Reads the merge requests in the body of an answer, which has to be a JSON
/// array.
pub fn parse_merge_requests(body: &[u8]) -> (r: Result<Vec<MergeRequest>, MrsError>)
    ensures
        match parsed_requests(body@) {
            Ok(requests) => r matches Ok(found) && views(found@) == requests,
            Err(error) => r matches Err(found) && found@ == error,
        },
{
    match parse_array(body) {
        Ok(values) => {
            let mut requests: Vec<MergeRequest> = Vec::new();
            let mut i: usize = 0;
            while i < values.len()
                invariant
                    i <= values.len(),
                    requests.len() == i,
                    forall|j: int|
                        0 <= j < i ==> (#[trigger] requests[j])@ == merge_request_in(values[j]),
                decreases values.len() - i,
            {
                requests.push(read_merge_request(&values[i]));
                i = i + 1;
            }
            assert(views(requests@) =~= parsed_requests(body@)->Ok_0);
            Ok(requests)
        },
        Err(error) => Err(MrsError::Parse { detail: describe(&error) }),
    }
}

/// Makes the listing of the body of an answer.
pub fn read_listing(body: &[u8]) -> (r: Result<Listing, MrsError>)
    ensures
        match parsed_requests(body@) {
            Ok(requests) => r matches Ok(listing) && listing@ == listing_of(requests),
            Err(error) => r matches Err(found) && found@ == error,
        },
{
    match parse_merge_requests(body) {
        Ok(requests) => Ok(list(requests.as_slice())),
        Err(error) => Err(error),
    }
}

} // verus!
