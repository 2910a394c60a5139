//! The four tools of the MCP server: what each one asks of the Devin API,
//! and the text (or error) that it answers with.
//!
//! Each tool is split at its one API call: a `*_request` function builds the
//! request from the tool's parameters, and a `*_reply` function turns the
//! call's outcome into the tool's answer.
use vstd::prelude::*;

use crate::devin_client::{
    api_error_text, is_create_session_request, is_get_session_request, is_list_sessions_request,
    is_send_message_request, ApiError, ApiRequest, CreateSessionRequest, DevinClient, PullRequest,
    Session, SessionList, SessionMessage,
};
use crate::text::{
    char_digit, contains, decimal, decimal_string, join, join_strings, lemma_contains_middle,
    lemma_contains_within, lemma_decimal_round_trip, lemma_join_contains_item, lemma_join_push,
    numeral_value,
};

verus! {

/// Parameters of the `create_session` tool.
pub struct CreateSessionParams {
    /// What Devin should work on.
    pub prompt: String,
    /// Tags for the session.
    pub tags: Option<Vec<String>>,
    /// A cap on the ACUs the session may spend.
    pub max_acu_limit: Option<u32>,
    /// The playbook to follow.
    pub playbook_id: Option<String>,
}

/// Parameters of the `get_session` tool.
pub struct GetSessionParams {
    pub session_id: String,
}

/// Parameters of the `list_sessions` tool.
pub struct ListSessionsParams {
    /// How many sessions to list (10 where it is not given).
    pub limit: u32,
    /// How many sessions to skip (0 where it is not given).
    pub offset: u32,
}

/// Parameters of the `send_message` tool.
pub struct SendMessageParams {
    pub session_id: String,
    pub message: String,
}

/// How many sessions `list_sessions` lists where no limit is given.
pub fn default_limit() -> (res: u32)
    ensures
        res == 10,
{
    10
}

/// A tool call that failed inside the server (an MCP internal error).
pub struct ToolError {
    pub message: String,
}

/// An internal error with the given message.
pub fn internal_error(msg: String) -> (res: ToolError)
    ensures
        res.message@ == msg@,
{
    ToolError { message: msg }
}

/// The page of the Devin web app that shows a session.
pub open spec fn app_session_url(session_id: Seq<char>) -> Seq<char> {
    "https://app.devin.ai/sessions/"@ + session_id
}

/// A session's title, or `default` where it has none.
pub open spec fn title_or(title: Option<String>, default: Seq<char>) -> Seq<char> {
    match title {
        Some(t) => t@,
        None => default,
    }
}

/// What `create_session` answers once the session exists.
pub open spec fn created_text(s: Session) -> Seq<char> {
    "Devin session created.\n- Session: "@ + app_session_url(s.session_id@) + "\n- ID: "@
        + s.session_id@ + "\n- Title: "@ + title_or(s.title, ""@) + "\n- Status: "@ + s.status@
        + "\n\nDevin is working on it. A PR will be created when done."@
}

/// The pull request line of `get_session`, empty where there is none.
pub open spec fn pr_info(pr: Option<PullRequest>) -> Seq<char> {
    match pr {
        Some(p) => "\n- PR: "@ + p.url@,
        None => Seq::empty(),
    }
}

/// A message's text, or `(no text)` where it has none.
pub open spec fn message_text_or(message: Option<String>) -> Seq<char> {
    match message {
        Some(m) => m@,
        None => "(no text)"@,
    }
}

/// The line that `get_session` shows for one message: its kind, then its text.
pub open spec fn message_line(m: SessionMessage) -> Seq<char> {
    "\n  - ["@ + m.msg_type@ + "] "@ + message_text_or(m.message)
}

/// The lines of a session's messages, in order.
pub open spec fn message_lines(messages: Seq<SessionMessage>) -> Seq<Seq<char>> {
    messages.map_values(|m: SessionMessage| message_line(m))
}

/// The messages part of `get_session`: a heading and one line per message,
/// empty where the session has no messages.
pub open spec fn messages_info(messages: Seq<SessionMessage>) -> Seq<char> {
    if messages.len() == 0 {
        Seq::empty()
    } else {
        "\n- Messages:"@ + join(message_lines(messages), ""@)
    }
}

/// What `get_session` answers: the session's page, ID, status, title, its
/// messages and its pull request.
pub open spec fn session_text(s: Session) -> Seq<char> {
    "Session: "@ + app_session_url(s.session_id@) + "\n- ID: "@ + s.session_id@ + "\n- Status: "@
        + s.status@ + "\n- Title: "@ + title_or(s.title, "(untitled)"@) + messages_info(s.messages@)
        + pr_info(s.pull_request)
}

/// The line that `list_sessions` shows for one session.
pub open spec fn session_line(s: Session) -> Seq<char> {
    "- ["@ + s.status@ + "] "@ + title_or(s.title, "(untitled)"@) + " — "@ + app_session_url(
        s.session_id@,
    )
}

/// The lines of a list of sessions, in order.
pub open spec fn session_lines(sessions: Seq<Session>) -> Seq<Seq<char>> {
    sessions.map_values(|s: Session| session_line(s))
}

/// What `list_sessions` answers: a count, then one line per session.
pub open spec fn list_text(sessions: Seq<Session>) -> Seq<char> {
    "Sessions ("@ + decimal(sessions.len()) + " total):\n"@ + join(session_lines(sessions), "\n"@)
}

/// What `send_message` answers.
pub open spec fn sent_text(s: Session) -> Seq<char> {
    "Message sent to session.\n- Session: "@ + app_session_url(s.session_id@) + "\n- Status: "@
        + s.status@
}

/// The error message of a tool whose API call failed.
pub open spec fn failure_text(action: Seq<char>, e: ApiError) -> Seq<char> {
    "Failed to "@ + action + ": "@ + api_error_text(e)
}

/// The page of the Devin web app that shows the session `session_id`.
pub fn session_url(session_id: &str) -> (res: String)
    ensures
        res@ == app_session_url(session_id@),
{
    let mut res = String::from_str("https://app.devin.ai/sessions/");
    res.append(session_id);
    res
}

fn title_text<'a>(title: &'a Option<String>, default: &'a str) -> (res: &'a str)
    ensures
        res@ == title_or(*title, default@),
{
    match title {
        Some(t) => t.as_str(),
        None => default,
    }
}

fn failure(action: &str, e: &ApiError) -> (res: ToolError)
    ensures
        res.message@ == failure_text(action@, *e),
{
    let mut msg = String::from_str("Failed to ");
    msg.append(action);
    msg.append(": ");
    let detail = e.describe();
    msg.append(detail.as_str());
    internal_error(msg)
}

/// The text `create_session` answers with for a new session.
pub fn created_message(s: &Session) -> (res: String)
    ensures
        res@ == created_text(*s),
{
    let url = session_url(s.session_id.as_str());
    let mut res = String::from_str("Devin session created.\n- Session: ");
    res.append(url.as_str());
    res.append("\n- ID: ");
    res.append(s.session_id.as_str());
    res.append("\n- Title: ");
    res.append(title_text(&s.title, ""));
    res.append("\n- Status: ");
    res.append(s.status.as_str());
    res.append("\n\nDevin is working on it. A PR will be created when done.");
    res
}

/// The line `get_session` shows for a message.
pub fn message_list_line(m: &SessionMessage) -> (res: String)
    ensures
        res@ == message_line(*m),
{
    let mut res = String::from_str("\n  - [");
    res.append(m.msg_type.as_str());
    res.append("] ");
    match &m.message {
        Some(text) => res.append(text.as_str()),
        None => res.append("(no text)"),
    }
    res
}

/// The messages part that `get_session` shows.
pub fn messages_part(messages: &Vec<SessionMessage>) -> (res: String)
    ensures
        res@ == messages_info(messages@),
{
    let n = messages.len();
    if n == 0 {
        return String::new();
    }
    let mut lines: Vec<String> = Vec::new();
    for i in 0..n
        invariant
            n == messages@.len(),
            lines.deep_view() =~= message_lines(messages@.take(i as int)),
    {
        let ghost before = lines.deep_view();
        let line = message_list_line(&messages[i]);
        lines.push(line);
        assert(lines.deep_view() =~= before.push(message_line(messages@[i as int])));
        assert(messages@.take(i + 1) =~= messages@.take(i as int).push(messages@[i as int]));
        assert(message_lines(messages@.take(i + 1)) =~= message_lines(messages@.take(i as int)).push(
            message_line(messages@[i as int]),
        ));
    }
    assert(messages@.take(n as int) =~= messages@);
    let joined = join_strings(&lines, "");
    let mut res = String::from_str("\n- Messages:");
    res.append(joined.as_str());
    res
}

/// The text `get_session` answers with for a session.
pub fn session_message(s: &Session) -> (res: String)
    ensures
        res@ == session_text(*s),
{
    let url = session_url(s.session_id.as_str());
    let mut res = String::from_str("Session: ");
    res.append(url.as_str());
    res.append("\n- ID: ");
    res.append(s.session_id.as_str());
    res.append("\n- Status: ");
    res.append(s.status.as_str());
    res.append("\n- Title: ");
    res.append(title_text(&s.title, "(untitled)"));
    let messages = messages_part(&s.messages);
    res.append(messages.as_str());
    match &s.pull_request {
        Some(pr) => {
            res.append("\n- PR: ");
            res.append(pr.url.as_str());
        },
        None => {},
    }
    res
}

/// The line `list_sessions` shows for a session.
pub fn session_list_line(s: &Session) -> (res: String)
    ensures
        res@ == session_line(*s),
{
    let url = session_url(s.session_id.as_str());
    let mut res = String::from_str("- [");
    res.append(s.status.as_str());
    res.append("] ");
    res.append(title_text(&s.title, "(untitled)"));
    res.append(" — ");
    res.append(url.as_str());
    res
}

/// The text `list_sessions` answers with for a page of sessions.
pub fn list_message(list: &SessionList) -> (res: String)
    ensures
        res@ == list_text(list.sessions@),
{
    let n = list.sessions.len();
    let mut lines: Vec<String> = Vec::new();
    for i in 0..n
        invariant
            n == list.sessions@.len(),
            lines.deep_view() =~= session_lines(list.sessions@.take(i as int)),
    {
        let ghost before = lines.deep_view();
        let line = session_list_line(&list.sessions[i]);
        lines.push(line);
        assert(lines.deep_view() =~= before.push(session_line(list.sessions@[i as int])));
        assert(list.sessions@.take(i + 1) =~= list.sessions@.take(i as int).push(
            list.sessions@[i as int],
        ));
        assert(session_lines(list.sessions@.take(i + 1)) =~= session_lines(
            list.sessions@.take(i as int),
        ).push(session_line(list.sessions@[i as int])));
    }
    assert(list.sessions@.take(n as int) =~= list.sessions@);
    let joined = join_strings(&lines, "\n");
    let mut res = String::from_str("Sessions (");
    let count = decimal_string(n as u64);
    res.append(count.as_str());
    res.append(" total):\n");
    res.append(joined.as_str());
    res
}

/// The text `send_message` answers with once the message is sent.
pub fn sent_message(s: &Session) -> (res: String)
    ensures
        res@ == sent_text(*s),
{
    let url = session_url(s.session_id.as_str());
    let mut res = String::from_str("Message sent to session.\n- Session: ");
    res.append(url.as_str());
    res.append("\n- Status: ");
    res.append(s.status.as_str());
    res
}

/// The instructions the server gives to MCP clients.
pub open spec fn instructions_text() -> Seq<char> {
    "Devin AI session manager. Tools:\n- create_session: Create a new Devin task (returns URL, fire-and-forget)\n- get_session: Check status of an existing session\n- list_sessions: Browse recent sessions\n- send_message: Send follow-up instructions to a session"@
}

/// The MCP server: a Devin API client behind four tools.
pub struct DevinMcpServer {
    pub client: DevinClient,
}

impl DevinMcpServer {
    /// A server whose client uses `api_key` against the public Devin API.
    pub fn new(api_key: String) -> (res: Self)
        ensures
            res.client.key() == api_key@,
            res.client.base() == crate::devin_client::default_base_url(),
    {
        DevinMcpServer { client: DevinClient::new(api_key) }
    }

    /// The instructions the server gives to MCP clients.
    pub fn instructions() -> (res: String)
        ensures
            res@ == instructions_text(),
    {
        String::from_str(
            "Devin AI session manager. Tools:\n- create_session: Create a new Devin task (returns URL, fire-and-forget)\n- get_session: Check status of an existing session\n- list_sessions: Browse recent sessions\n- send_message: Send follow-up instructions to a session",
        )
    }

    /// The API request of `create_session`: the parameters, unchanged, as a
    /// create-session request.
    pub fn create_session_request(&self, params: CreateSessionParams) -> (res: ApiRequest)
        ensures
            is_create_session_request(self.client, request_of(params), res),
    {
        let req = params.into_request();
        self.client.create_session(req)
    }

    /// The answer of `create_session`: the new session's page and details,
    /// or an internal error naming the failed call.
    pub fn create_session_reply(outcome: Result<Session, ApiError>) -> (res: Result<String, ToolError>)
        ensures
            match outcome {
                Ok(s) => res matches Ok(t) && t@ == created_text(s),
                Err(e) => res matches Err(err) && err.message@ == failure_text("create session"@, e),
            },
    {
        match outcome {
            Ok(s) => Ok(created_message(&s)),
            Err(e) => Err(failure("create session", &e)),
        }
    }

    /// The API request of `get_session`.
    pub fn get_session_request(&self, params: &GetSessionParams) -> (res: ApiRequest)
        ensures
            is_get_session_request(self.client, params.session_id@, res),
    {
        self.client.get_session(params.session_id.as_str())
    }

    /// The answer of `get_session`: the session's page, ID, status, title,
    /// every message (kind and text) and pull request, or an internal error
    /// naming the failed call.
    pub fn get_session_reply(outcome: Result<Session, ApiError>) -> (res: Result<String, ToolError>)
        ensures
            match outcome {
                Ok(s) => res matches Ok(t) && t@ == session_text(s),
                Err(e) => res matches Err(err) && err.message@ == failure_text("get session"@, e),
            },
            outcome matches Ok(s) ==> res matches Ok(t) && forall|k: int|
                0 <= k < s.messages@.len() ==> {
                    &&& contains(t@, s.messages@[k].msg_type@)
                    &&& contains(t@, message_text_or(#[trigger] s.messages@[k].message))
                },
    {
        match outcome {
            Ok(s) => {
                let text = session_message(&s);
                proof {
                    assert forall|k: int| 0 <= k < s.messages@.len() implies {
                        &&& contains(text@, s.messages@[k].msg_type@)
                        &&& contains(text@, message_text_or(#[trigger] s.messages@[k].message))
                    } by {
                        lemma_answer_shows_messages(s, k);
                    }
                }
                Ok(text)
            },
            Err(e) => Err(failure("get session", &e)),
        }
    }

    /// The API request of `list_sessions`.
    pub fn list_sessions_request(&self, params: &ListSessionsParams) -> (res: ApiRequest)
        ensures
            is_list_sessions_request(self.client, params.limit, params.offset, res),
    {
        self.client.list_sessions(params.limit, params.offset)
    }

    /// The answer of `list_sessions`: the count and one line per session, or
    /// an internal error naming the failed call.
    pub fn list_sessions_reply(outcome: Result<SessionList, ApiError>) -> (res: Result<String, ToolError>)
        ensures
            match outcome {
                Ok(l) => res matches Ok(t) && t@ == list_text(l.sessions@),
                Err(e) => res matches Err(err) && err.message@ == failure_text("list sessions"@, e),
            },
    {
        match outcome {
            Ok(l) => Ok(list_message(&l)),
            Err(e) => Err(failure("list sessions", &e)),
        }
    }

    /// The API request of `send_message`.
    pub fn send_message_request(&self, params: &SendMessageParams) -> (res: ApiRequest)
        ensures
            is_send_message_request(self.client, params.session_id@, params.message@, res),
    {
        self.client.send_message(params.session_id.as_str(), params.message.as_str())
    }

    /// The answer of `send_message`: the session's page and status, or an
    /// internal error naming the failed call.
    pub fn send_message_reply(outcome: Result<Session, ApiError>) -> (res: Result<String, ToolError>)
        ensures
            match outcome {
                Ok(s) => res matches Ok(t) && t@ == sent_text(s),
                Err(e) => res matches Err(err) && err.message@ == failure_text("send message"@, e),
            },
    {
        match outcome {
            Ok(s) => Ok(sent_message(&s)),
            Err(e) => Err(failure("send message", &e)),
        }
    }
}

/// The create-session request that carries the tool's parameters.
pub open spec fn request_of(params: CreateSessionParams) -> CreateSessionRequest {
    CreateSessionRequest {
        prompt: params.prompt,
        tags: params.tags,
        max_acu_limit: params.max_acu_limit,
        playbook_id: params.playbook_id,
    }
}

impl CreateSessionParams {
    /// The create-session request that carries these parameters.
    pub fn into_request(self) -> (res: CreateSessionRequest)
        ensures
            res == request_of(self),
    {
        CreateSessionRequest {
            prompt: self.prompt,
            tags: self.tags,
            max_acu_limit: self.max_acu_limit,
            playbook_id: self.playbook_id,
        }
    }
}

/// Every answer about a session shows the page of that session in the Devin
/// web app, and its status.
pub proof fn lemma_answers_show_session(s: Session)
    ensures
        contains(created_text(s), app_session_url(s.session_id@)),
        contains(created_text(s), s.status@),
        contains(session_text(s), app_session_url(s.session_id@)),
        contains(session_text(s), s.status@),
        contains(sent_text(s), app_session_url(s.session_id@)),
        contains(sent_text(s), s.status@),
{
    let url = app_session_url(s.session_id@);
    let id = s.session_id@;
    let st = s.status@;
    let tail = "\n\nDevin is working on it. A PR will be created when done."@;
    let c1 = "\n- ID: "@ + id + "\n- Title: "@ + title_or(s.title, ""@) + "\n- Status: "@ + st + tail;
    assert(created_text(s) =~= "Devin session created.\n- Session: "@ + url + c1);
    lemma_contains_middle("Devin session created.\n- Session: "@, url, c1);
    let a2 = "Devin session created.\n- Session: "@ + url + "\n- ID: "@ + id + "\n- Title: "@
        + title_or(s.title, ""@) + "\n- Status: "@;
    assert(created_text(s) =~= a2 + st + tail);
    lemma_contains_middle(a2, st, tail);

    let g1 = "\n- ID: "@ + id + "\n- Status: "@ + st + "\n- Title: "@ + title_or(s.title, "(untitled)"@)
        + messages_info(s.messages@) + pr_info(s.pull_request);
    assert(session_text(s) =~= "Session: "@ + url + g1);
    lemma_contains_middle("Session: "@, url, g1);
    let a3 = "Session: "@ + url + "\n- ID: "@ + id + "\n- Status: "@;
    let c3 = "\n- Title: "@ + title_or(s.title, "(untitled)"@) + messages_info(s.messages@) + pr_info(
        s.pull_request,
    );
    assert(session_text(s) =~= a3 + st + c3);
    lemma_contains_middle(a3, st, c3);

    let s1 = "\n- Status: "@ + st;
    assert(sent_text(s) =~= "Message sent to session.\n- Session: "@ + url + s1);
    lemma_contains_middle("Message sent to session.\n- Session: "@, url, s1);
    let a4 = "Message sent to session.\n- Session: "@ + url + "\n- Status: "@;
    assert(sent_text(s) =~= a4 + st + Seq::<char>::empty());
    lemma_contains_middle(a4, st, Seq::empty());
}

/// The answer of `get_session` shows every message of the session: its kind
/// and its text.
pub proof fn lemma_answer_shows_messages(s: Session, k: int)
    requires
        0 <= k < s.messages@.len(),
    ensures
        contains(session_text(s), message_line(s.messages@[k])),
        contains(session_text(s), s.messages@[k].msg_type@),
        contains(session_text(s), message_text_or(s.messages@[k].message)),
{
    let m = s.messages@[k];
    let line = message_line(m);
    let lines = message_lines(s.messages@);
    let joined = join(lines, ""@);
    assert(lines[k] == line);
    lemma_join_contains_item(lines, ""@, k);
    let a = "Session: "@ + app_session_url(s.session_id@) + "\n- ID: "@ + s.session_id@ + "\n- Status: "@
        + s.status@ + "\n- Title: "@ + title_or(s.title, "(untitled)"@) + "\n- Messages:"@;
    assert(session_text(s) =~= a + joined + pr_info(s.pull_request));
    lemma_contains_within(a, joined, pr_info(s.pull_request), line);
    let b = "\n  - ["@ + m.msg_type@ + "] "@;
    assert(line =~= b + message_text_or(m.message) + Seq::<char>::empty());
    lemma_contains_middle(b, message_text_or(m.message), Seq::empty());
    let c = "] "@ + message_text_or(m.message);
    assert(line =~= "\n  - ["@ + m.msg_type@ + c);
    lemma_contains_middle("\n  - ["@, m.msg_type@, c);
    lemma_contains_transitive(session_text(s), line, m.msg_type@);
    lemma_contains_transitive(session_text(s), line, message_text_or(m.message));
}

/// A session's line in the list shows the session's page and status.
pub proof fn lemma_line_shows_session(s: Session)
    ensures
        contains(session_line(s), app_session_url(s.session_id@)),
        contains(session_line(s), s.status@),
{
    let line = session_line(s);
    let url = app_session_url(s.session_id@);
    let a = "- ["@ + s.status@ + "] "@ + title_or(s.title, "(untitled)"@) + " — "@;
    assert(line =~= a + url + Seq::<char>::empty());
    lemma_contains_middle(a, url, Seq::empty());
    let c = "] "@ + title_or(s.title, "(untitled)"@) + " — "@ + url;
    assert(line =~= "- ["@ + s.status@ + c);
    lemma_contains_middle("- ["@, s.status@, c);
}

/// What occurs in a text occurs in every text that the first occurs in.
pub proof fn lemma_contains_transitive(hay: Seq<char>, mid: Seq<char>, needle: Seq<char>)
    requires
        contains(hay, mid),
        contains(mid, needle),
    ensures
        contains(hay, needle),
{
    let i = choose|i: int| 0 <= i && i + mid.len() <= hay.len()
        && #[trigger] hay.subrange(i, i + mid.len()) == mid;
    let pre = hay.subrange(0, i);
    let post = hay.subrange(i + mid.len(), hay.len() as int);
    assert(hay =~= pre + mid + post);
    lemma_contains_within(pre, mid, post, needle);
}

/// The list of sessions shows every listed session: its line, and in it the
/// session's page and status.
pub proof fn lemma_list_shows_every_session(sessions: Seq<Session>, k: int)
    requires
        0 <= k < sessions.len(),
    ensures
        contains(list_text(sessions), session_line(sessions[k])),
        contains(list_text(sessions), app_session_url(sessions[k].session_id@)),
        contains(list_text(sessions), sessions[k].status@),
{
    let s = sessions[k];
    let line = session_line(s);
    let lines = session_lines(sessions);
    let joined = join(lines, "\n"@);
    let head = "Sessions ("@ + decimal(sessions.len()) + " total):\n"@;
    assert(list_text(sessions) =~= head + joined + Seq::<char>::empty());
    assert(lines[k] == line);
    lemma_join_contains_item(lines, "\n"@, k);
    lemma_contains_within(head, joined, Seq::empty(), line);
    lemma_line_shows_session(s);
    lemma_contains_transitive(list_text(sessions), line, app_session_url(s.session_id@));
    lemma_contains_transitive(list_text(sessions), line, s.status@);
}

proof fn lemma_page_literals()
    ensures
        "Devin session created.\n- Session: https://app.devin.ai/sessions/"@
            =~= "Devin session created.\n- Session: "@ + "https://app.devin.ai/sessions/"@,
        "Message sent to session.\n- Session: https://app.devin.ai/sessions/"@
            =~= "Message sent to session.\n- Session: "@ + "https://app.devin.ai/sessions/"@,
        "Session: https://app.devin.ai/sessions/"@ =~= "Session: "@ + "https://app.devin.ai/sessions/"@,
        " — https://app.devin.ai/sessions/"@ =~= " — "@ + "https://app.devin.ai/sessions/"@,
        ""@ =~= Seq::<char>::empty(),
{
    reveal_strlit("");
    reveal_strlit("Devin session created.\n- Session: https://app.devin.ai/sessions/");
    reveal_strlit("Devin session created.\n- Session: ");
    reveal_strlit("https://app.devin.ai/sessions/");
    reveal_strlit("Message sent to session.\n- Session: https://app.devin.ai/sessions/");
    reveal_strlit("Message sent to session.\n- Session: ");
    reveal_strlit("Session: https://app.devin.ai/sessions/");
    reveal_strlit("Session: ");
    reveal_strlit(" — https://app.devin.ai/sessions/");
    reveal_strlit(" — ");
}

/// A text made of three parts starts with the first, has the second right
/// after it, ends with the third, and is exactly as long as the three.
pub proof fn lemma_three_parts(t: Seq<char>, a: Seq<char>, b: Seq<char>, c: Seq<char>)
    requires
        t == a + b + c,
    ensures
        t.len() == a.len() + b.len() + c.len(),
        t.subrange(0, a.len() as int) == a,
        t.subrange(a.len() as int, (a.len() + b.len()) as int) == b,
        t.subrange(t.len() - c.len(), t.len() as int) == c,
{
    assert(t.subrange(0, a.len() as int) =~= a);
    assert(t.subrange(a.len() as int, (a.len() + b.len()) as int) =~= b);
    assert(t.subrange(t.len() - c.len(), t.len() as int) =~= c);
}

/// The answer of `create_session`: it opens with the session's page and its
/// ID, then gives the title (nothing where there is none), and closes with the
/// status and the note that Devin works on it; nothing else is in it.
pub proof fn lemma_created_answer(s: Session)
    ensures ({
        let t = created_text(s);
        let head = "Devin session created.\n- Session: https://app.devin.ai/sessions/"@ + s.session_id@
            + "\n- ID: "@ + s.session_id@ + "\n- Title: "@;
        let title = match s.title {
            Some(x) => x@,
            None => Seq::<char>::empty(),
        };
        let tail = "\n- Status: "@ + s.status@
            + "\n\nDevin is working on it. A PR will be created when done."@;
        &&& t.len() == head.len() + title.len() + tail.len()
        &&& t.subrange(0, head.len() as int) == head
        &&& t.subrange(head.len() as int, (head.len() + title.len()) as int) == title
        &&& t.subrange(t.len() - tail.len(), t.len() as int) == tail
    }),
{
    let head = "Devin session created.\n- Session: https://app.devin.ai/sessions/"@ + s.session_id@
        + "\n- ID: "@ + s.session_id@ + "\n- Title: "@;
    let title = match s.title {
        Some(x) => x@,
        None => Seq::<char>::empty(),
    };
    let tail = "\n- Status: "@ + s.status@ + "\n\nDevin is working on it. A PR will be created when done."@;
    lemma_page_literals();
    assert(title_or(s.title, ""@) == title);
    assert(created_text(s) =~= head + title + tail);
    lemma_three_parts(created_text(s), head, title, tail);
}

/// The answer of `send_message`: the session's page, then its status, and
/// nothing else.
pub proof fn lemma_sent_answer(s: Session)
    ensures ({
        let t = sent_text(s);
        let head = "Message sent to session.\n- Session: https://app.devin.ai/sessions/"@ + s.session_id@;
        let tail = "\n- Status: "@ + s.status@;
        &&& t.len() == head.len() + tail.len()
        &&& t.subrange(0, head.len() as int) == head
        &&& t.subrange(t.len() - tail.len(), t.len() as int) == tail
    }),
{
    let head = "Message sent to session.\n- Session: https://app.devin.ai/sessions/"@ + s.session_id@;
    let tail = "\n- Status: "@ + s.status@;
    lemma_page_literals();
    assert(sent_text(s) =~= head + Seq::<char>::empty() + tail);
    lemma_three_parts(sent_text(s), head, Seq::empty(), tail);
}

/// The error of a failed tool names the action, then gives the error's text,
/// and nothing else.
pub proof fn lemma_failure_answer(action: Seq<char>, e: ApiError)
    ensures ({
        let t = failure_text(action, e);
        let head = "Failed to "@ + action + ": "@;
        &&& t.len() == head.len() + api_error_text(e).len()
        &&& t.subrange(0, head.len() as int) == head
        &&& t.subrange(head.len() as int, t.len() as int) == api_error_text(e)
    }),
{
    let head = "Failed to "@ + action + ": "@;
    assert(failure_text(action, e) =~= head + api_error_text(e) + Seq::<char>::empty());
    lemma_three_parts(failure_text(action, e), head, api_error_text(e), Seq::empty());
}

/// The opening of the `get_session` answer: page, ID, status and title
/// (`(untitled)` where there is none).
pub open spec fn session_head(s: Session) -> Seq<char> {
    "Session: https://app.devin.ai/sessions/"@ + s.session_id@ + "\n- ID: "@ + s.session_id@
        + "\n- Status: "@ + s.status@ + "\n- Title: "@ + match s.title {
        Some(x) => x@,
        None => "(untitled)"@,
    }
}

/// The `get_session` answer opens with the session's page, ID, status and
/// title; a session with no messages and no pull request shows nothing more.
pub proof fn lemma_session_answer_head(s: Session)
    ensures
        session_text(s).len() >= session_head(s).len(),
        session_text(s).subrange(0, session_head(s).len() as int) == session_head(s),
        s.messages@.len() == 0 && s.pull_request is None ==> session_text(s) == session_head(s),
{
    lemma_page_literals();
    let rest = messages_info(s.messages@) + pr_info(s.pull_request);
    assert(session_text(s) =~= session_head(s) + rest + Seq::<char>::empty());
    lemma_three_parts(session_text(s), session_head(s), rest, Seq::empty());
    if s.messages@.len() == 0 && s.pull_request is None {
        assert(rest =~= Seq::<char>::empty());
        assert(session_text(s) =~= session_head(s));
    }
}

/// Whenever a session has a pull request, the `get_session` answer is the
/// answer for the same session without it, followed by the line
/// `- PR: <url>`, whatever its messages.
pub proof fn lemma_session_answer_pr(with: Session, without: Session, p: PullRequest)
    requires
        with.session_id@ == without.session_id@,
        with.status@ == without.status@,
        with.title == without.title,
        with.messages@ == without.messages@,
        with.pull_request == Some(p),
        without.pull_request is None,
    ensures
        session_text(with) == session_text(without) + "\n- PR: "@ + p.url@,
{
    lemma_page_literals();
    assert(session_text(without) =~= session_head(without) + messages_info(without.messages@));
    assert(session_text(with) =~= session_head(without) + messages_info(without.messages@) + "\n- PR: "@
        + p.url@);
}

/// One more message at the end of a session (with no pull request) adds
/// exactly one line at the end of the `get_session` answer, `  - [<kind>]
/// <text>` (`(no text)` where it has none), after the heading `- Messages:`
/// where it is the first message.
pub proof fn lemma_session_answer_adds_message(before: Session, after: Session, m: SessionMessage)
    requires
        after.session_id@ == before.session_id@,
        after.status@ == before.status@,
        after.title == before.title,
        after.messages@ == before.messages@.push(m),
        before.pull_request is None,
        after.pull_request is None,
    ensures
        session_text(after) == session_text(before) + (if before.messages@.len() == 0 {
            "\n- Messages:"@
        } else {
            Seq::<char>::empty()
        }) + "\n  - ["@ + m.msg_type@ + "] "@ + match m.message {
            Some(x) => x@,
            None => "(no text)"@,
        },
{
    let ms = before.messages@;
    let line = message_line(m);
    let head = session_head(before);
    lemma_page_literals();
    assert(message_lines(ms.push(m)) =~= message_lines(ms).push(line));
    lemma_join_push(message_lines(ms), ""@, line);
    assert(session_head(after) == head);
    assert(session_text(before) == head + messages_info(ms) + Seq::<char>::empty());
    assert(session_text(after) == head + messages_info(ms.push(m)) + Seq::<char>::empty());
    if ms.len() == 0 {
        assert(messages_info(ms) =~= Seq::<char>::empty());
        assert(messages_info(ms.push(m)) =~= "\n- Messages:"@ + line);
    } else {
        assert(messages_info(ms.push(m)) =~= messages_info(ms) + line);
    }
}

/// The opening line of the `list_sessions` answer for `n` sessions.
pub open spec fn list_head(n: nat) -> Seq<char> {
    "Sessions ("@ + decimal(n) + " total):\n"@
}

/// The count that the `list_sessions` answer opens with is the number of
/// sessions listed: the answer starts with `Sessions (`, a numeral made of
/// digits that denotes that number, and ` total):`.
pub proof fn lemma_list_count(sessions: Seq<Session>)
    ensures
        exists|d: Seq<char>, rest: Seq<char>| {
            &&& #[trigger] list_text(sessions) == "Sessions ("@ + d + " total):\n"@ + rest
            &&& d.len() >= 1
            &&& forall|i: int| 0 <= i < d.len() ==> char_digit(#[trigger] d[i]) < 10
            &&& numeral_value(d) == sessions.len()
        },
{
    let d = decimal(sessions.len());
    let rest = join(session_lines(sessions), "\n"@);
    lemma_decimal_round_trip(sessions.len());
    assert(list_text(sessions) == "Sessions ("@ + d + " total):\n"@ + rest);
}

/// An empty list is answered with its count alone.
pub proof fn lemma_list_empty(sessions: Seq<Session>)
    requires
        sessions.len() == 0,
    ensures
        list_text(sessions) == "Sessions (0 total):\n"@,
{
    assert(session_lines(sessions) =~= Seq::<Seq<char>>::empty());
    assert(decimal(0) == seq!['0']);
    assert(list_text(sessions) =~= "Sessions ("@ + seq!['0'] + " total):\n"@);
    assert("Sessions (0 total):\n"@ =~= "Sessions ("@ + seq!['0'] + " total):\n"@) by {
        reveal_strlit("Sessions (0 total):\n");
        reveal_strlit("Sessions (");
        reveal_strlit(" total):\n");
    }
}

/// One more session at the end of a page adds exactly one line at the end of
/// the `list_sessions` answer, `- [<status>] <title> — <page>`, after the
/// lines of the others, and the count grows by one.
pub proof fn lemma_list_adds_session(sessions: Seq<Session>, s: Session)
    ensures ({
        let line = "- ["@ + s.status@ + "] "@ + match s.title {
            Some(x) => x@,
            None => "(untitled)"@,
        } + " — https://app.devin.ai/sessions/"@ + s.session_id@;
        let after = list_text(sessions.push(s));
        let before = list_text(sessions);
        let n = sessions.len();
        &&& after == list_head(n + 1) + before.subrange(list_head(n).len() as int, before.len() as int)
            + (if n == 0 { Seq::<char>::empty() } else { "\n"@ }) + line
        &&& before.subrange(0, list_head(n).len() as int) == list_head(n)
    }),
{
    let n = sessions.len();
    let line = "- ["@ + s.status@ + "] "@ + match s.title {
        Some(x) => x@,
        None => "(untitled)"@,
    } + " — https://app.devin.ai/sessions/"@ + s.session_id@;
    lemma_page_literals();
    assert(session_line(s) =~= line);
    let lines = session_lines(sessions);
    assert(session_lines(sessions.push(s)) =~= lines.push(session_line(s)));
    let before = list_text(sessions);
    let j = join(lines, "\n"@);
    assert(before =~= list_head(n) + j);
    assert(before.subrange(0, list_head(n).len() as int) =~= list_head(n));
    assert(before.subrange(list_head(n).len() as int, before.len() as int) =~= j);
    if n == 0 {
        assert(lines.push(session_line(s)) =~= seq![session_line(s)]);
        assert(j =~= Seq::<char>::empty());
        assert(list_text(sessions.push(s)) =~= list_head(n + 1) + j + Seq::<char>::empty() + line);
    } else {
        assert(lines.push(session_line(s)).drop_last() =~= lines);
        assert(list_text(sessions.push(s)) =~= list_head(n + 1) + j + "\n"@ + line);
    }
}

} // verus!
