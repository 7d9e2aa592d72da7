//! The command-line client's logic: its saved configuration, the request each
//! command sends, how it reads the server's status codes, how it reads the
//! text a user types, and the messages it prints on success.
use vstd::prelude::*;
use crate::text::{
    int_decimal, law_decimal_round_trip, is_empty_text, join2, owned, parse_i64, i64_of_text, push_int, trim, trimmed,
    before_first, prefix_before, after_first, suffix_after,
};

verus! {

/// The client's saved configuration (`~/.config/qa/config.yml`).
#[derive(Debug, Clone, PartialEq, Eq)]
pub struct ClientConfig {
    pub endpoint: String,
    pub api_key: Option<String>,
    pub username: Option<String>,
}

/// Why a command failed, in terms the user is shown.
#[derive(Debug, Clone, PartialEq, Eq)]
pub enum ClientError {
    /// No configuration file at the given path.
    ConfigNotFound(String),
    /// The configuration holds no API key.
    NoApiKey,
    /// The server answered with an error status; its body text.
    ServerError(String),
    /// The server did not return the `x-api-key` header.
    MissingApiKeyHeader,
    /// The question text had no title line.
    NoQuestionInput,
    /// The answer text was blank.
    EmptyAnswer,
    /// The server's reply to a new question was not an id.
    BadQuestionId,
    /// The server's reply to a new answer was not an id.
    BadAnswerId,
    /// The question does not exist.
    QuestionNotFound(i64),
    /// The answer does not exist under the question.
    AnswerNotFound { question_id: i64, answer_id: i64 },
    /// Only the asker may mark a question solved or unsolved.
    NotAsker,
    /// Only the asker may delete a question.
    NotOwnQuestion,
    /// Only the author may delete an answer.
    NotOwnAnswer,
}

/// The text shown for each error.
pub open spec fn error_text(e: ClientError) -> Seq<char> {
    match e {
        ClientError::ConfigNotFound(path) => "Config not found at "@ + path@
            + ". Run `qa create-account` first."@,
        ClientError::NoApiKey => "No API key found. Run `qa create-account` first."@,
        ClientError::ServerError(body) => "Server error: "@ + body@,
        ClientError::MissingApiKeyHeader => "Server did not return x-api-key header"@,
        ClientError::NoQuestionInput => "No input provided. Expected title on first line, then content."@,
        ClientError::EmptyAnswer => "Answer content cannot be empty"@,
        ClientError::BadQuestionId => "Failed to parse question ID"@,
        ClientError::BadAnswerId => "Failed to parse answer ID"@,
        ClientError::QuestionNotFound(id) => "Question #"@ + int_decimal(id as int) + " not found"@,
        ClientError::AnswerNotFound { question_id, answer_id } => "Answer #"@ + int_decimal(
            answer_id as int,
        ) + " not found for question #"@ + int_decimal(question_id as int),
        ClientError::NotAsker => "Only the person who asked the question can mark it as solved/unsolved"@,
        ClientError::NotOwnQuestion => "You can only delete your own questions"@,
        ClientError::NotOwnAnswer => "You can only delete your own answers"@,
    }
}

fn text_int_text(a: &str, i: i64, b: &str) -> (r: String)
    ensures
        r@ == a@ + int_decimal(i as int) + b@,
{
    let mut r = owned(a);
    push_int(&mut r, i);
    r.append(b);
    r
}

impl ClientError {
    /// The text shown for this error.
    pub fn message(&self) -> (r: String)
        ensures
            r@ == error_text(*self),
    {
        match self {
            ClientError::ConfigNotFound(path) => {
                let mut r = join2("Config not found at ", path.as_str());
                r.append(". Run `qa create-account` first.");
                r
            },
            ClientError::NoApiKey => owned("No API key found. Run `qa create-account` first."),
            ClientError::ServerError(body) => join2("Server error: ", body.as_str()),
            ClientError::MissingApiKeyHeader => owned("Server did not return x-api-key header"),
            ClientError::NoQuestionInput => owned(
                "No input provided. Expected title on first line, then content.",
            ),
            ClientError::EmptyAnswer => owned("Answer content cannot be empty"),
            ClientError::BadQuestionId => owned("Failed to parse question ID"),
            ClientError::BadAnswerId => owned("Failed to parse answer ID"),
            ClientError::QuestionNotFound(id) => text_int_text("Question #", *id, " not found"),
            ClientError::AnswerNotFound { question_id, answer_id } => {
                let mut r = text_int_text("Answer #", *answer_id, " not found for question #");
                push_int(&mut r, *question_id);
                r
            },
            ClientError::NotAsker => owned(
                "Only the person who asked the question can mark it as solved/unsolved",
            ),
            ClientError::NotOwnQuestion => owned("You can only delete your own questions"),
            ClientError::NotOwnAnswer => owned("You can only delete your own answers"),
        }
    }
}

impl ClientConfig {
    /// The saved API key, which every authenticated command needs.
    pub fn current_api_key(&self) -> (r: Result<&str, ClientError>)
        ensures
            match self.api_key {
                Some(k) => r matches Ok(s) && s@ == k@,
                None => r == Err::<&str, ClientError>(ClientError::NoApiKey),
            },
    {
        match &self.api_key {
            Some(k) => Ok(k.as_str()),
            None => Err(ClientError::NoApiKey),
        }
    }

    /// The configuration after a key change: the new key replaces the old one.
    pub fn with_api_key(self, api_key: String) -> (r: ClientConfig)
        ensures
            r.endpoint == self.endpoint,
            r.username == self.username,
            r.api_key == Some(api_key),
    {
        ClientConfig { endpoint: self.endpoint, api_key: Some(api_key), username: self.username }
    }
}

/// The configuration saved after an account is created.
pub fn account_config(endpoint: String, username: String, api_key: String) -> (r: ClientConfig)
    ensures
        r.endpoint == endpoint,
        r.api_key == Some(api_key),
        r.username == Some(username),
{
    ClientConfig { endpoint, api_key: Some(api_key), username: Some(username) }
}

/// The loaded configuration, shared by the commands.
#[derive(Debug, Clone, PartialEq, Eq)]
pub struct App {
    pub config: ClientConfig,
}

impl App {
    /// The application state for a loaded configuration; a failure to load
    /// it is passed on.
    pub fn load(loaded: Result<ClientConfig, ClientError>) -> (r: Result<App, ClientError>)
        ensures
            match loaded {
                Ok(c) => r == Ok::<App, ClientError>(App { config: c }),
                Err(e) => r == Err::<App, ClientError>(e),
            },
    {
        match loaded {
            Ok(config) => Ok(App { config }),
            Err(e) => Err(e),
        }
    }

    /// The API key of the configuration, or the "no API key" error.
    pub fn api_key(&self) -> (r: Result<&str, ClientError>)
        ensures
            match self.config.api_key {
                Some(k) => r matches Ok(s) && s@ == k@,
                None => r == Err::<&str, ClientError>(ClientError::NoApiKey),
            },
    {
        self.config.current_api_key()
    }

    /// The full URL of an API path on the configured server.
    pub fn url(&self, path: &str) -> (r: String)
        ensures
            r@ == self.config.endpoint@ + path@,
    {
        join2(self.config.endpoint.as_str(), path)
    }
}

/// The endpoint offered when creating an account: the saved one, or
/// `http://localhost:7879` when there is none.
pub open spec fn default_endpoint(saved: Option<Seq<char>>) -> Seq<char> {
    match saved {
        Some(e) => e,
        None => "http://localhost:7879"@,
    }
}

/// The endpoint offered when creating an account.
pub fn endpoint_default(saved: Option<&str>) -> (r: String)
    ensures
        r@ == default_endpoint(
            match saved {
                Some(e) => Some(e@),
                None => None,
            },
        ),
{
    match saved {
        Some(e) => owned(e),
        None => owned("http://localhost:7879"),
    }
}

/// The question asked for the endpoint: `Server endpoint [<default>]: `.
pub fn endpoint_prompt(default: &str) -> (r: String)
    ensures
        r@ == "Server endpoint ["@ + default@ + "]: "@,
{
    let mut r = join2("Server endpoint [", default);
    r.append("]: ");
    r
}

/// The text a user typed at a prompt, without surrounding whitespace.
pub fn prompt_answer(line: &str) -> (r: String)
    ensures
        r@ == trimmed(line@),
{
    owned(trim(line))
}

/// The endpoint to use: the one the user typed, or the default when the
/// answer was empty.
pub fn prompt_endpoint(default: &str, answer: &str) -> (r: String)
    ensures
        answer@.len() == 0 ==> r@ == default@,
        answer@.len() != 0 ==> r@ == answer@,
{
    if is_empty_text(answer) {
        owned(default)
    } else {
        owned(answer)
    }
}

// ---------------------------------------------------------------------------
// Commands and requests
// ---------------------------------------------------------------------------

/// A command of the client that talks to the server.
#[derive(Debug, Clone, PartialEq, Eq)]
pub enum Command {
    CreateAccount,
    ChangeApiKey,
    Ask,
    Unsolved { page: i64, limit: i64 },
    Starred { page: i64, limit: i64 },
    Get { id: i64 },
    Answer { id: i64 },
    Solve { id: i64, unsolved: bool },
    Star { id: i64 },
    Unstar { id: i64 },
    RmQuestion { id: i64 },
    RmAnswer { question_id: i64, answer_id: i64 },
}

/// The HTTP method of a request.
#[derive(Debug, Clone, PartialEq, Eq)]
pub enum HttpMethod {
    Get,
    Post,
    Delete,
}

/// The method each command uses.
pub open spec fn method_of(c: Command) -> HttpMethod {
    match c {
        Command::Unsolved { .. } | Command::Starred { .. } | Command::Get { .. } => HttpMethod::Get,
        Command::Unstar { .. } | Command::RmQuestion { .. } | Command::RmAnswer { .. } => {
            HttpMethod::Delete
        },
        _ => HttpMethod::Post,
    }
}

/// The path (below the endpoint) each command requests.
pub open spec fn path_of(c: Command) -> Seq<char> {
    match c {
        Command::CreateAccount => "/register"@,
        Command::ChangeApiKey => "/change-api-key"@,
        Command::Ask => "/questions"@,
        Command::Unsolved { page, limit } => "/questions/unsolved?page="@ + int_decimal(page as int)
            + "&limit="@ + int_decimal(limit as int),
        Command::Starred { page, limit } => "/questions/starred?page="@ + int_decimal(page as int)
            + "&limit="@ + int_decimal(limit as int),
        Command::Get { id } => "/questions/"@ + int_decimal(id as int),
        Command::Answer { id } => "/questions/"@ + int_decimal(id as int) + "/answers"@,
        Command::Solve { id, unsolved } => "/questions/"@ + int_decimal(id as int)
            + "/solved?unsolved="@ + if unsolved {
            "true"@
        } else {
            "false"@
        },
        Command::Star { id } => "/questions/"@ + int_decimal(id as int) + "/star"@,
        Command::Unstar { id } => "/questions/"@ + int_decimal(id as int) + "/star"@,
        Command::RmQuestion { id } => "/questions/"@ + int_decimal(id as int),
        Command::RmAnswer { question_id, answer_id } => "/questions/"@ + int_decimal(
            question_id as int,
        ) + "/answers/"@ + int_decimal(answer_id as int),
    }
}

/// The HTTP method of the request a command sends.
pub fn request_method(cmd: &Command) -> (r: HttpMethod)
    ensures
        r == method_of(*cmd),
{
    match cmd {
        Command::Unsolved { .. } | Command::Starred { .. } | Command::Get { .. } => HttpMethod::Get,
        Command::Unstar { .. } | Command::RmQuestion { .. } | Command::RmAnswer { .. } => {
            HttpMethod::Delete
        },
        _ => HttpMethod::Post,
    }
}

fn page_path(prefix: &str, page: i64, limit: i64) -> (r: String)
    ensures
        r@ == prefix@ + int_decimal(page as int) + "&limit="@ + int_decimal(limit as int),
{
    let mut r = text_int_text(prefix, page, "&limit=");
    push_int(&mut r, limit);
    r
}

/// The path (below the endpoint) of the request a command sends.
pub fn request_path(cmd: &Command) -> (r: String)
    ensures
        r@ == path_of(*cmd),
        *cmd matches Command::Unsolved { page, limit } ==> carries_page(
            r@,
            "/questions/unsolved"@,
            page,
            limit,
        ),
        *cmd matches Command::Starred { page, limit } ==> carries_page(
            r@,
            "/questions/starred"@,
            page,
            limit,
        ),
{
    proof {
        match *cmd {
            Command::Unsolved { page, limit } => law_list_paths_carry_page(page, limit),
            Command::Starred { page, limit } => law_list_paths_carry_page(page, limit),
            _ => {},
        }
    }
    match cmd {
        Command::CreateAccount => owned("/register"),
        Command::ChangeApiKey => owned("/change-api-key"),
        Command::Ask => owned("/questions"),
        Command::Unsolved { page, limit } => page_path("/questions/unsolved?page=", *page, *limit),
        Command::Starred { page, limit } => page_path("/questions/starred?page=", *page, *limit),
        Command::Get { id } => {
            let mut r = owned("/questions/");
            push_int(&mut r, *id);
            r
        },
        Command::Answer { id } => text_int_text("/questions/", *id, "/answers"),
        Command::Solve { id, unsolved } => {
            let mut r = text_int_text("/questions/", *id, "/solved?unsolved=");
            if *unsolved {
                r.append("true");
            } else {
                r.append("false");
            }
            r
        },
        Command::Star { id } => text_int_text("/questions/", *id, "/star"),
        Command::Unstar { id } => text_int_text("/questions/", *id, "/star"),
        Command::RmQuestion { id } => {
            let mut r = owned("/questions/");
            push_int(&mut r, *id);
            r
        },
        Command::RmAnswer { question_id, answer_id } => {
            let mut r = text_int_text("/questions/", *question_id, "/answers/");
            push_int(&mut r, *answer_id);
            r
        },
    }
}

/// How the client reads the status code of the server's reply.
#[derive(Debug, Clone, PartialEq, Eq)]
pub enum StatusVerdict {
    /// A success status: carry on.
    Proceed,
    /// A status the command has a message of its own for.
    Fail(ClientError),
    /// Another error status: report the reply's body as a server error.
    ServerError,
}

/// A 2xx status.
pub open spec fn is_success(status: u16) -> bool {
    200 <= status <= 299
}

/// The verdict on a status: the statuses with a message of their own first
/// (404 for `get`; 403 for `solve`; 403 and 404 for the two deletions), then
/// any other non-2xx status as a server error.
pub open spec fn verdict_of(c: Command, status: u16) -> StatusVerdict {
    match c {
        Command::Get { id } => if status == 404 {
            StatusVerdict::Fail(ClientError::QuestionNotFound(id))
        } else if is_success(status) {
            StatusVerdict::Proceed
        } else {
            StatusVerdict::ServerError
        },
        Command::Solve { .. } => if status == 403 {
            StatusVerdict::Fail(ClientError::NotAsker)
        } else if is_success(status) {
            StatusVerdict::Proceed
        } else {
            StatusVerdict::ServerError
        },
        Command::RmQuestion { id } => if status == 403 {
            StatusVerdict::Fail(ClientError::NotOwnQuestion)
        } else if status == 404 {
            StatusVerdict::Fail(ClientError::QuestionNotFound(id))
        } else if is_success(status) {
            StatusVerdict::Proceed
        } else {
            StatusVerdict::ServerError
        },
        Command::RmAnswer { question_id, answer_id } => if status == 403 {
            StatusVerdict::Fail(ClientError::NotOwnAnswer)
        } else if status == 404 {
            StatusVerdict::Fail(ClientError::AnswerNotFound { question_id, answer_id })
        } else if is_success(status) {
            StatusVerdict::Proceed
        } else {
            StatusVerdict::ServerError
        },
        _ => if is_success(status) {
            StatusVerdict::Proceed
        } else {
            StatusVerdict::ServerError
        },
    }
}

/// Reads the status code of the reply to a command.
pub fn check_status(cmd: &Command, status: u16) -> (r: StatusVerdict)
    ensures
        r == verdict_of(*cmd, status),
        (r == StatusVerdict::Proceed) <==> (200 <= status && status <= 299),
{
    let ok = 200 <= status && status <= 299;
    match cmd {
        Command::Get { id } => {
            if status == 404 {
                StatusVerdict::Fail(ClientError::QuestionNotFound(*id))
            } else if ok {
                StatusVerdict::Proceed
            } else {
                StatusVerdict::ServerError
            }
        },
        Command::Solve { .. } => {
            if status == 403 {
                StatusVerdict::Fail(ClientError::NotAsker)
            } else if ok {
                StatusVerdict::Proceed
            } else {
                StatusVerdict::ServerError
            }
        },
        Command::RmQuestion { id } => {
            if status == 403 {
                StatusVerdict::Fail(ClientError::NotOwnQuestion)
            } else if status == 404 {
                StatusVerdict::Fail(ClientError::QuestionNotFound(*id))
            } else if ok {
                StatusVerdict::Proceed
            } else {
                StatusVerdict::ServerError
            }
        },
        Command::RmAnswer { question_id, answer_id } => {
            if status == 403 {
                StatusVerdict::Fail(ClientError::NotOwnAnswer)
            } else if status == 404 {
                StatusVerdict::Fail(
                    ClientError::AnswerNotFound { question_id: *question_id, answer_id: *answer_id },
                )
            } else if ok {
                StatusVerdict::Proceed
            } else {
                StatusVerdict::ServerError
            }
        },
        _ => {
            if ok {
                StatusVerdict::Proceed
            } else {
                StatusVerdict::ServerError
            }
        },
    }
}

/// A command goes on exactly when the server answered with a 2xx status.
pub proof fn law_proceed_iff_success(c: Command, status: u16)
    ensures
        (verdict_of(c, status) == StatusVerdict::Proceed) <==> (200 <= status && status <= 299),
        verdict_of(c, 200) == StatusVerdict::Proceed,
        verdict_of(c, 204) == StatusVerdict::Proceed,
{
}

/// The query of a list request carries the requested page and limit: the
/// path is the list's base, `?page=`, a text that reads back as the page,
/// `&limit=`, and a text that reads back as the limit.
pub open spec fn carries_page(path: Seq<char>, base: Seq<char>, page: i64, limit: i64) -> bool {
    exists|pt: Seq<char>, lt: Seq<char>|
        #![trigger i64_of_text(pt), i64_of_text(lt)]
        path == base + "?page="@ + pt + "&limit="@ + lt && i64_of_text(pt) == Some(page as int)
            && i64_of_text(lt) == Some(limit as int)
}

/// The two list commands ask for exactly the page and page size given.
pub proof fn law_list_paths_carry_page(page: i64, limit: i64)
    ensures
        carries_page(path_of(Command::Unsolved { page, limit }), "/questions/unsolved"@, page, limit),
        carries_page(path_of(Command::Starred { page, limit }), "/questions/starred"@, page, limit),
{
    law_decimal_round_trip(page);
    law_decimal_round_trip(limit);
    let pt = int_decimal(page as int);
    let lt = int_decimal(limit as int);
    reveal_strlit("/questions/unsolved?page=");
    reveal_strlit("/questions/unsolved");
    reveal_strlit("/questions/starred?page=");
    reveal_strlit("/questions/starred");
    reveal_strlit("?page=");
    assert("/questions/unsolved?page="@ =~= "/questions/unsolved"@ + "?page="@);
    assert("/questions/starred?page="@ =~= "/questions/starred"@ + "?page="@);
    assert(path_of(Command::Unsolved { page, limit }) == "/questions/unsolved"@ + "?page="@ + pt
        + "&limit="@ + lt);
    assert(path_of(Command::Starred { page, limit }) == "/questions/starred"@ + "?page="@ + pt
        + "&limit="@ + lt);
}

// ---------------------------------------------------------------------------
// What the user types and what the server returns
// ---------------------------------------------------------------------------

/// The title of a question text: its first line, trimmed.
pub open spec fn title_of(input: Seq<char>) -> Seq<char> {
    trimmed(before_first(input, '\n'))
}

/// The content of a question text: the lines after the first, trimmed
/// (nothing when there is a single line).
pub open spec fn content_of(input: Seq<char>) -> Seq<char> {
    trimmed(after_first(input, '\n'))
}

/// Splits the text of a new question: the first line (trimmed) is the title,
/// and the rest (trimmed) is the content. A blank first line is an error.
pub fn parse_question_input(input: &str) -> (r: Result<(String, String), ClientError>)
    ensures
        title_of(input@).len() == 0 ==> r == Err::<(String, String), ClientError>(
            ClientError::NoQuestionInput,
        ),
        title_of(input@).len() != 0 ==> (r matches Ok((t, c)) && t@ == title_of(input@) && c@
            == content_of(input@)),
{
    let first = prefix_before(input, '\n');
    let title = trim(first);
    if is_empty_text(title) {
        Err(ClientError::NoQuestionInput)
    } else {
        let rest = suffix_after(input, '\n');
        Ok((owned(title), owned(trim(rest))))
    }
}

/// The text of a new answer, trimmed; a blank answer is an error.
pub fn answer_content(input: &str) -> (r: Result<String, ClientError>)
    ensures
        trimmed(input@).len() == 0 ==> r == Err::<String, ClientError>(ClientError::EmptyAnswer),
        trimmed(input@).len() != 0 ==> (r matches Ok(c) && c@ == trimmed(input@)),
{
    let c = trim(input);
    if is_empty_text(c) {
        Err(ClientError::EmptyAnswer)
    } else {
        Ok(owned(c))
    }
}

/// The id the server returned for a new question.
pub fn parse_question_id(body: &str) -> (r: Result<i64, ClientError>)
    ensures
        match i64_of_text(body@) {
            Some(v) => r == Ok::<i64, ClientError>(v as i64),
            None => r == Err::<i64, ClientError>(ClientError::BadQuestionId),
        },
{
    match parse_i64(body) {
        Some(v) => Ok(v),
        None => Err(ClientError::BadQuestionId),
    }
}

/// The id the server returned for a new answer.
pub fn parse_answer_id(body: &str) -> (r: Result<i64, ClientError>)
    ensures
        match i64_of_text(body@) {
            Some(v) => r == Ok::<i64, ClientError>(v as i64),
            None => r == Err::<i64, ClientError>(ClientError::BadAnswerId),
        },
{
    match parse_i64(body) {
        Some(v) => Ok(v),
        None => Err(ClientError::BadAnswerId),
    }
}

/// The API key the server returned in its `x-api-key` header, which must be there.
pub fn returned_api_key(header: Option<String>) -> (r: Result<String, ClientError>)
    ensures
        match header {
            Some(k) => r == Ok::<String, ClientError>(k),
            None => r == Err::<String, ClientError>(ClientError::MissingApiKeyHeader),
        },
{
    match header {
        Some(k) => Ok(k),
        None => Err(ClientError::MissingApiKeyHeader),
    }
}

/// The name reported for a new account: the one in the server's reply when
/// it could be read, else the one the user typed.
pub fn account_name(reply_username: Option<String>, typed: String) -> (r: String)
    ensures
        match reply_username {
            Some(n) => r == n,
            None => r == typed,
        },
{
    match reply_username {
        Some(n) => n,
        None => typed,
    }
}

} // verus!
