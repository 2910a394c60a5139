//! The Devin REST API (v1): the records it exchanges, the requests that the
//! client sends for each operation, and how a reply's status is judged.
//!
//! Sending a request and reading its reply are left to the caller, which
//! hands the outcome back as plain values.
use vstd::prelude::*;

use crate::json::{
    json_member, json_object, json_string, json_string_array, json_string_text, json_string_value,
    lemma_json_string_round_trip, member, object, string_array,
};
use crate::text::{
    contains, decimal, decimal_string, escape_bytes, escaped_bytes, join, lemma_join_contains_item,
    numeral_value,
};

verus! {

/// Where the Devin API is served.
pub open spec fn default_base_url() -> Seq<char> {
    "https://api.devin.ai/v1"@
}

/// What is sent to create a session. Absent options are left out of the
/// request body.
pub struct CreateSessionRequest {
    pub prompt: String,
    pub tags: Option<Vec<String>>,
    pub max_acu_limit: Option<u32>,
    pub playbook_id: Option<String>,
}

/// A session as the API describes it.
pub struct Session {
    pub session_id: String,
    pub status: String,
    pub title: Option<String>,
    pub created_at: String,
    pub updated_at: String,
    pub messages: Vec<SessionMessage>,
    pub pull_request: Option<PullRequest>,
}

/// One message of a session; its kind is the API's `type` field.
pub struct SessionMessage {
    pub msg_type: String,
    pub message: Option<String>,
}

/// The pull request that a session opened.
pub struct PullRequest {
    pub url: String,
}

/// One page of sessions.
pub struct SessionList {
    pub sessions: Vec<Session>,
}

/// The HTTP method of a request.
#[derive(PartialEq, Eq, Structural, Clone, Copy, Debug)]
pub enum HttpMethod {
    Get,
    Post,
}

/// A request to the API, ready to be sent: authenticated with `bearer_token`,
/// with the `query` pairs appended to `url`, and a JSON `body` where it has one.
pub struct ApiRequest {
    pub method: HttpMethod,
    pub url: String,
    pub bearer_token: String,
    pub query: Vec<(String, String)>,
    pub body: Option<String>,
}

/// Why an API call gave no usable reply.
pub enum ApiError {
    /// The request could not be sent or its reply not be read; the text says why.
    Transport(String),
    /// The API answered with a client error (4xx) or server error (5xx)
    /// status: its code, the reason phrase that the reply gave where it was
    /// not the standard one, and the address that answered.
    Status { code: u16, reason: Option<Vec<u8>>, url: String },
    /// The reply's body was not the record that was expected; the text says why.
    Decode(String),
}

/// A status that the client takes as a failure: a client error (400 to 499)
/// or a server error (500 to 599).
pub open spec fn is_error_status(status: u16) -> bool {
    400 <= status < 600
}

/// The standard reason phrase of a status code (`Not Found` for 404), as
/// `reqwest::StatusCode::canonical_reason` gives it.
pub uninterp spec fn canonical_reason_text(code: u16) -> Option<Seq<char>>;

/// Calls `reqwest::StatusCode::from_u16` and, on the code it accepts,
/// `canonical_reason`. The contract claims the result is the named reason of
/// `code`: what the phrase of each code is is left to the name. `from_u16`
/// rejects codes outside 100 to 999; for those the result is `None`, which
/// the contract ties to the name too.
#[verifier::external_body]
fn canonical_reason(code: u16) -> (res: Option<&'static str>)
    ensures
        match res {
            Some(r) => canonical_reason_text(code) == Some(r@),
            None => canonical_reason_text(code) is None,
        },
{
    match reqwest::StatusCode::from_u16(code) {
        Ok(status) => status.canonical_reason(),
        Err(_) => None,
    }
}

/// The code and phrase of a status: the reply's own reason phrase (escaped)
/// where it gave one, else the standard phrase, else `<unknown status code>`.
pub open spec fn status_line_text(code: u16, reason: Option<Vec<u8>>) -> Seq<char> {
    decimal(code as nat) + " "@ + match reason {
        Some(r) => escaped_bytes(r@),
        None => match canonical_reason_text(code) {
            Some(t) => t,
            None => "<unknown status code>"@,
        },
    }
}

/// The text that describes an API error.
pub open spec fn api_error_text(e: ApiError) -> Seq<char> {
    match e {
        ApiError::Transport(d) => d@,
        ApiError::Decode(d) => d@,
        ApiError::Status { code, reason, url } => (if code < 500 {
            "HTTP status client error ("@
        } else {
            "HTTP status server error ("@
        }) + status_line_text(code, reason) + ") for url ("@ + url@ + ")"@,
    }
}

/// The code and phrase of a status, as `status_line_text` says.
fn status_line(code: u16, reason: &Option<Vec<u8>>) -> (res: String)
    ensures
        res@ == status_line_text(code, *reason),
{
    let mut res = decimal_string(code as u64);
    res.append(" ");
    match reason {
        Some(r) => {
            let escaped = escape_bytes(r.as_slice());
            res.append(escaped.as_str());
        },
        None => match canonical_reason(code) {
            Some(t) => res.append(t),
            None => res.append("<unknown status code>"),
        },
    }
    res
}

impl ApiError {
    /// The text that describes the error.
    pub fn describe(&self) -> (res: String)
        ensures
            res@ == api_error_text(*self),
    {
        match self {
            ApiError::Transport(d) => d.clone(),
            ApiError::Decode(d) => d.clone(),
            ApiError::Status { code, reason, url } => {
                let mut res = String::new();
                if *code < 500 {
                    res.append("HTTP status client error (");
                } else {
                    res.append("HTTP status server error (");
                }
                let line = status_line(*code, reason);
                res.append(line.as_str());
                res.append(") for url (");
                res.append(url.as_str());
                res.append(")");
                res
            },
        }
    }
}

/// Judges a reply by its status: a client or server error status makes the
/// call fail with that status, the reply's own reason phrase (where it gave
/// one) and the address that answered; any other status lets the body be
/// read.
pub fn check_status(status: u16, reason: Option<Vec<u8>>, url: String) -> (res: Result<(), ApiError>)
    ensures
        res is Err <==> 400 <= status < 600,
        res matches Err(e) ==> e == (ApiError::Status { code: status, reason, url }),
{
    if 400 <= status && status < 600 {
        Err(ApiError::Status { code: status, reason, url })
    } else {
        Ok(())
    }
}

/// The collection of sessions under an API root.
pub open spec fn sessions_endpoint(base: Seq<char>) -> Seq<char> {
    base + "/sessions"@
}

/// One session under an API root.
pub open spec fn session_endpoint(base: Seq<char>, session_id: Seq<char>) -> Seq<char> {
    base + "/sessions/"@ + session_id
}

/// The members of the body that creates a session, in order, each optional
/// one only where it is given.
pub open spec fn create_session_members(req: CreateSessionRequest) -> Seq<Seq<char>> {
    seq![json_member("prompt"@, json_string_text(req.prompt@))]
        + match req.tags {
            Some(tags) => seq![json_member("tags"@, json_string_array(tags.deep_view()))],
            None => Seq::empty(),
        }
        + match req.max_acu_limit {
            Some(limit) => seq![json_member("max_acu_limit"@, decimal(limit as nat))],
            None => Seq::empty(),
        }
        + match req.playbook_id {
            Some(id) => seq![json_member("playbook_id"@, json_string_text(id@))],
            None => Seq::empty(),
        }
}

/// The JSON body that creates a session.
pub open spec fn create_session_body(req: CreateSessionRequest) -> Seq<char> {
    json_object(create_session_members(req))
}

/// The JSON body that sends a message: `{"message":...}`.
pub open spec fn send_message_body(message: Seq<char>) -> Seq<char> {
    json_object(seq![json_member("message"@, json_string_text(message))])
}

/// The JSON text of a create-session request.
pub fn create_session_json(req: &CreateSessionRequest) -> (res: String)
    ensures
        res@ == create_session_body(*req),
{
    let mut members: Vec<String> = Vec::new();
    let prompt = json_string(req.prompt.as_str());
    members.push(member("prompt", prompt.as_str()));
    let ghost m0 = members.deep_view();
    assert(m0 =~= seq![json_member("prompt"@, json_string_text(req.prompt@))]);
    match &req.tags {
        Some(tags) => {
            let arr = string_array(tags);
            members.push(member("tags", arr.as_str()));
        },
        None => {},
    }
    let ghost m1 = members.deep_view();
    assert(m1 =~= m0 + match req.tags {
        Some(tags) => seq![json_member("tags"@, json_string_array(tags.deep_view()))],
        None => Seq::<Seq<char>>::empty(),
    });
    match req.max_acu_limit {
        Some(limit) => {
            let digits = decimal_string(limit as u64);
            members.push(member("max_acu_limit", digits.as_str()));
        },
        None => {},
    }
    let ghost m2 = members.deep_view();
    assert(m2 =~= m1 + match req.max_acu_limit {
        Some(limit) => seq![json_member("max_acu_limit"@, decimal(limit as nat))],
        None => Seq::<Seq<char>>::empty(),
    });
    match &req.playbook_id {
        Some(id) => {
            let quoted = json_string(id.as_str());
            members.push(member("playbook_id", quoted.as_str()));
        },
        None => {},
    }
    assert(members.deep_view() =~= m2 + match req.playbook_id {
        Some(id) => seq![json_member("playbook_id"@, json_string_text(id@))],
        None => Seq::<Seq<char>>::empty(),
    });
    assert(members.deep_view() =~= create_session_members(*req));
    object(&members)
}

/// The JSON text of a message sent to a session.
pub fn send_message_json(message: &str) -> (res: String)
    ensures
        res@ == send_message_body(message@),
{
    let quoted = json_string(message);
    let mut members: Vec<String> = Vec::new();
    members.push(member("message", quoted.as_str()));
    assert(members.deep_view() =~= seq![json_member("message"@, json_string_text(message@))]);
    object(&members)
}

/// `r` is the request that creates a session described by `req`:
/// `POST {base}/sessions` with the request's JSON body.
pub open spec fn is_create_session_request(client: DevinClient, req: CreateSessionRequest, r: ApiRequest) -> bool {
    &&& r.method == HttpMethod::Post
    &&& r.url@ == sessions_endpoint(client.base())
    &&& r.bearer_token@ == client.key()
    &&& r.query@.len() == 0
    &&& r.body matches Some(b) && b@ == create_session_body(req)
}

/// `r` is the request that reads a session: `GET {base}/sessions/{id}`.
pub open spec fn is_get_session_request(client: DevinClient, session_id: Seq<char>, r: ApiRequest) -> bool {
    &&& r.method == HttpMethod::Get
    &&& r.url@ == session_endpoint(client.base(), session_id)
    &&& r.bearer_token@ == client.key()
    &&& r.query@.len() == 0
    &&& r.body is None
}

/// `r` is the request that lists sessions: `GET {base}/sessions` with the
/// query `limit` and `offset`, in that order, as decimal numerals.
pub open spec fn is_list_sessions_request(client: DevinClient, limit: u32, offset: u32, r: ApiRequest) -> bool {
    &&& r.method == HttpMethod::Get
    &&& r.url@ == sessions_endpoint(client.base())
    &&& r.bearer_token@ == client.key()
    &&& r.query.deep_view() == seq![
        ("limit"@, decimal(limit as nat)),
        ("offset"@, decimal(offset as nat)),
    ]
    &&& r.body is None
}

/// `r` is the request that sends a message to a session:
/// `POST {base}/sessions/{id}` with the body `{"message":...}`.
pub open spec fn is_send_message_request(
    client: DevinClient,
    session_id: Seq<char>,
    message: Seq<char>,
    r: ApiRequest,
) -> bool {
    &&& r.method == HttpMethod::Post
    &&& r.url@ == session_endpoint(client.base(), session_id)
    &&& r.bearer_token@ == client.key()
    &&& r.query@.len() == 0
    &&& r.body matches Some(b) && b@ == send_message_body(message)
}

/// A thin client of the Devin API: an API key and the root of the API.
pub struct DevinClient {
    api_key: String,
    base_url: String,
}

impl DevinClient {
    /// The API key that authenticates every request.
    pub closed spec fn key(&self) -> Seq<char> {
        self.api_key@
    }

    /// The root under which the API's endpoints lie.
    pub closed spec fn base(&self) -> Seq<char> {
        self.base_url@
    }

    /// The root under which the API's endpoints lie.
    pub fn base_url(&self) -> (res: &str)
        ensures
            res@ == self.base(),
    {
        self.base_url.as_str()
    }

    /// Points the client at another root of the API, keeping its key.
    pub fn set_base_url(&mut self, base_url: String)
        ensures
            final(self).base() == base_url@,
            final(self).key() == old(self).key(),
    {
        self.base_url = base_url;
    }

    /// A client for the public Devin API.
    pub fn new(api_key: String) -> (res: Self)
        ensures
            res.key() == api_key@,
            res.base() == default_base_url(),
    {
        DevinClient { api_key, base_url: String::from_str("https://api.devin.ai/v1") }
    }

    /// The request that creates a session: `POST {base}/sessions` with the
    /// request's JSON body.
    pub fn create_session(&self, req: CreateSessionRequest) -> (res: ApiRequest)
        ensures
            is_create_session_request(*self, req, res),
    {
        let body = create_session_json(&req);
        let mut url = self.base_url.clone();
        url.append("/sessions");
        ApiRequest {
            method: HttpMethod::Post,
            url,
            bearer_token: self.api_key.clone(),
            query: Vec::new(),
            body: Some(body),
        }
    }

    /// The request that reads a session: `GET {base}/sessions/{id}`.
    pub fn get_session(&self, session_id: &str) -> (res: ApiRequest)
        ensures
            is_get_session_request(*self, session_id@, res),
    {
        let mut url = self.base_url.clone();
        url.append("/sessions/");
        url.append(session_id);
        ApiRequest {
            method: HttpMethod::Get,
            url,
            bearer_token: self.api_key.clone(),
            query: Vec::new(),
            body: None,
        }
    }

    /// The request that lists sessions: `GET {base}/sessions` with the query
    /// `limit` and `offset`, in that order, as decimal numerals.
    pub fn list_sessions(&self, limit: u32, offset: u32) -> (res: ApiRequest)
        ensures
            is_list_sessions_request(*self, limit, offset, res),
    {
        let mut url = self.base_url.clone();
        url.append("/sessions");
        let mut query: Vec<(String, String)> = Vec::new();
        query.push((String::from_str("limit"), decimal_string(limit as u64)));
        query.push((String::from_str("offset"), decimal_string(offset as u64)));
        assert(query.deep_view() =~= seq![
            ("limit"@, decimal(limit as nat)),
            ("offset"@, decimal(offset as nat)),
        ]);
        ApiRequest {
            method: HttpMethod::Get,
            url,
            bearer_token: self.api_key.clone(),
            query,
            body: None,
        }
    }

    /// The request that sends a message to a session:
    /// `POST {base}/sessions/{id}` with the body `{"message":...}`.
    pub fn send_message(&self, session_id: &str, message: &str) -> (res: ApiRequest)
        ensures
            is_send_message_request(*self, session_id@, message@, res),
    {
        let body = send_message_json(message);
        let mut url = self.base_url.clone();
        url.append("/sessions/");
        url.append(session_id);
        ApiRequest {
            method: HttpMethod::Post,
            url,
            bearer_token: self.api_key.clone(),
            query: Vec::new(),
            body: Some(body),
        }
    }
}

/// The four operations address the API consistently: reading a session and
/// sending it a message go to the same address, which is the collection's
/// address followed by `/` and the session's id; creating and listing go to
/// the collection; and every request carries the client's key.
pub proof fn lemma_endpoints_agree(
    client: DevinClient,
    session_id: Seq<char>,
    message: Seq<char>,
    req: CreateSessionRequest,
    limit: u32,
    offset: u32,
    get: ApiRequest,
    send: ApiRequest,
    create: ApiRequest,
    list: ApiRequest,
)
    requires
        is_get_session_request(client, session_id, get),
        is_send_message_request(client, session_id, message, send),
        is_create_session_request(client, req, create),
        is_list_sessions_request(client, limit, offset, list),
    ensures
        get.url@ == send.url@,
        create.url@ == list.url@,
        get.url@ == create.url@ + "/"@ + session_id,
        create.url@ == client.base() + "/sessions"@,
        get.url@ == client.base() + "/sessions/"@ + session_id,
        get.method == HttpMethod::Get && list.method == HttpMethod::Get,
        send.method == HttpMethod::Post && create.method == HttpMethod::Post,
        get.body is None && list.body is None,
        get.query@.len() == 0 && send.query@.len() == 0 && create.query@.len() == 0,
        list.query.deep_view().len() == 2,
        list.query.deep_view()[0].0 == "limit"@ && numeral_value(list.query.deep_view()[0].1) == limit,
        list.query.deep_view()[1].0 == "offset"@ && numeral_value(list.query.deep_view()[1].1) == offset,
        send.body matches Some(b) && b@ == "{"@ + json_string_text("message"@) + ":"@ + json_string_text(
            message,
        ) + "}"@,
        create.body matches Some(b) && b@ == create_session_body(req),
        get.bearer_token@ == client.key(),
        send.bearer_token@ == client.key(),
        create.bearer_token@ == client.key(),
        list.bearer_token@ == client.key(),
{
    assert("/sessions/"@ =~= "/sessions"@ + "/"@) by {
        reveal_strlit("/sessions/");
        reveal_strlit("/sessions");
        reveal_strlit("/");
    }
    assert(session_endpoint(client.base(), session_id) =~= sessions_endpoint(client.base()) + "/"@
        + session_id);
    crate::text::lemma_decimal_round_trip(limit as nat);
    crate::text::lemma_decimal_round_trip(offset as nat);
    lemma_message_body_carries_message(message);
}

/// The text of a status error names the class of the status (client error
/// below 500, server error from 500), then the code, a space and the phrase,
/// then the address that answered; nothing else is in it.
pub proof fn lemma_status_error_text(code: u16, reason: Option<Vec<u8>>, url: String)
    ensures ({
        let t = api_error_text(ApiError::Status { code, reason, url });
        let head = (if code < 500 { "HTTP status client error ("@ } else { "HTTP status server error ("@ })
            + decimal(code as nat) + " "@;
        let phrase = match reason {
            Some(r) => escaped_bytes(r@),
            None => match canonical_reason_text(code) {
                Some(p) => p,
                None => "<unknown status code>"@,
            },
        };
        let tail = ") for url ("@ + url@ + ")"@;
        &&& t.len() == head.len() + phrase.len() + tail.len()
        &&& t.subrange(0, head.len() as int) == head
        &&& t.subrange(head.len() as int, (head.len() + phrase.len()) as int) == phrase
        &&& t.subrange(t.len() - tail.len(), t.len() as int) == tail
    }),
{
    let t = api_error_text(ApiError::Status { code, reason, url });
    let head = (if code < 500 { "HTTP status client error ("@ } else { "HTTP status server error ("@ })
        + decimal(code as nat) + " "@;
    let phrase = match reason {
        Some(r) => escaped_bytes(r@),
        None => match canonical_reason_text(code) {
            Some(p) => p,
            None => "<unknown status code>"@,
        },
    };
    let tail = ") for url ("@ + url@ + ")"@;
    assert(t =~= head + phrase + tail);
    assert(t.subrange(0, head.len() as int) =~= head);
    assert(t.subrange(head.len() as int, (head.len() + phrase.len()) as int) =~= phrase);
    assert(t.subrange(t.len() - tail.len(), t.len() as int) =~= tail);
}

/// Exactly the statuses from 400 to 599 are failures.
pub proof fn lemma_error_statuses(status: u16)
    ensures
        is_error_status(status) <==> 400 <= status < 600,
{
}

/// One member more at the end of a request's members is one member more just
/// before the closing brace of its body.
proof fn lemma_members_push(req: CreateSessionRequest, m: Seq<char>, bigger: CreateSessionRequest)
    requires
        create_session_members(bigger) == create_session_members(req).push(m),
    ensures
        create_session_body(bigger) == create_session_body(req).drop_last() + ","@ + m + "}"@,
{
    let ms = create_session_members(req);
    assert(ms.len() >= 1);
    assert(ms.push(m).drop_last() =~= ms);
    assert(join(ms.push(m), ","@) == join(ms, ","@) + ","@ + m);
    reveal_strlit("}");
    let body = create_session_body(req);
    assert(body =~= "{"@ + join(ms, ","@) + "}"@);
    assert(body.drop_last() =~= "{"@ + join(ms, ","@));
}

/// Giving a playbook adds exactly one member, `"playbook_id":<id>`, at the
/// end of the body; nothing else in the body changes.
pub proof fn lemma_body_adds_playbook(req: CreateSessionRequest, with: CreateSessionRequest, id: String)
    requires
        req.playbook_id is None,
        with.prompt@ == req.prompt@,
        with.tags == req.tags,
        with.max_acu_limit == req.max_acu_limit,
        with.playbook_id == Some(id),
    ensures
        create_session_body(with) == create_session_body(req).drop_last() + ","@ + json_string_text(
            "playbook_id"@,
        ) + ":"@ + json_string_text(id@) + "}"@,
{
    let m = json_string_text("playbook_id"@) + ":"@ + json_string_text(id@);
    assert(create_session_members(with) =~= create_session_members(req).push(m));
    lemma_members_push(req, m, with);
}

/// With no playbook, giving an ACU limit adds exactly one member,
/// `"max_acu_limit":<n>`, at the end of the body.
pub proof fn lemma_body_adds_limit(req: CreateSessionRequest, with: CreateSessionRequest, n: u32)
    requires
        req.max_acu_limit is None,
        req.playbook_id is None,
        with.prompt@ == req.prompt@,
        with.tags == req.tags,
        with.max_acu_limit == Some(n),
        with.playbook_id is None,
    ensures
        create_session_body(with) == create_session_body(req).drop_last() + ","@ + json_string_text(
            "max_acu_limit"@,
        ) + ":"@ + decimal(n as nat) + "}"@,
{
    let m = json_string_text("max_acu_limit"@) + ":"@ + decimal(n as nat);
    assert(create_session_members(with) =~= create_session_members(req).push(m));
    lemma_members_push(req, m, with);
}

/// With no other option, giving tags adds exactly one member,
/// `"tags":[...]`, at the end of the body.
pub proof fn lemma_body_adds_tags(req: CreateSessionRequest, with: CreateSessionRequest, tags: Vec<String>)
    requires
        req.tags is None,
        req.max_acu_limit is None,
        req.playbook_id is None,
        with.prompt@ == req.prompt@,
        with.tags == Some(tags),
        with.max_acu_limit is None,
        with.playbook_id is None,
    ensures
        create_session_body(with) == create_session_body(req).drop_last() + ","@ + json_string_text(
            "tags"@,
        ) + ":"@ + json_string_array(tags.deep_view()) + "}"@,
{
    let m = json_string_text("tags"@) + ":"@ + json_string_array(tags.deep_view());
    assert(create_session_members(with) =~= create_session_members(req).push(m));
    lemma_members_push(req, m, with);
}

/// A request with no options has the prompt as its only member:
/// `{"prompt":...}`.
pub proof fn lemma_bare_request_body(req: CreateSessionRequest)
    requires
        req.tags is None,
        req.max_acu_limit is None,
        req.playbook_id is None,
    ensures
        create_session_body(req) == "{"@ + json_string_text("prompt"@) + ":"@ + json_string_text(req.prompt@)
            + "}"@,
{
    let members = create_session_members(req);
    assert(members =~= seq![json_member("prompt"@, json_string_text(req.prompt@))]);
    assert(join(members, ","@) == members[0]);
}

/// Every option that a request gives is sent: its member occurs in the body,
/// as does the prompt's.
pub proof fn lemma_given_options_are_sent(req: CreateSessionRequest)
    ensures
        contains(create_session_body(req), json_member("prompt"@, json_string_text(req.prompt@))),
        req.tags matches Some(tags) ==> contains(
            create_session_body(req),
            json_member("tags"@, json_string_array(tags.deep_view())),
        ),
        req.max_acu_limit matches Some(limit) ==> contains(
            create_session_body(req),
            json_member("max_acu_limit"@, decimal(limit as nat)),
        ),
        req.playbook_id matches Some(id) ==> contains(
            create_session_body(req),
            json_member("playbook_id"@, json_string_text(id@)),
        ),
{
    let members = create_session_members(req);
    let joined = join(members, ","@);
    assert(create_session_body(req) == "{"@ + joined + "}"@);
    assert forall|k: int| 0 <= k < members.len() implies contains(create_session_body(req), #[trigger] members[k]) by {
        lemma_join_contains_item(members, ","@, k);
        crate::text::lemma_contains_within("{"@, joined, "}"@, members[k]);
    }
    let n_tags: int = if req.tags is Some { 1 } else { 0 };
    let n_limit: int = if req.max_acu_limit is Some { 1 } else { 0 };
    assert(members[0] == json_member("prompt"@, json_string_text(req.prompt@)));
    if let Some(tags) = req.tags {
        assert(members[1] == json_member("tags"@, json_string_array(tags.deep_view())));
    }
    if let Some(limit) = req.max_acu_limit {
        assert(members[1 + n_tags] == json_member("max_acu_limit"@, decimal(limit as nat)));
    }
    if let Some(id) = req.playbook_id {
        assert(members[1 + n_tags + n_limit] == json_member("playbook_id"@, json_string_text(id@)));
    }
}

/// The body of a message carries the message exactly: it is the one member
/// `"message"`, whose literal reads back as the message.
pub proof fn lemma_message_body_carries_message(message: Seq<char>)
    ensures
        send_message_body(message) == "{"@ + json_string_text("message"@) + ":"@ + json_string_text(message)
            + "}"@,
        json_string_value(json_string_text(message)) == Some(message),
{
    let members = seq![json_member("message"@, json_string_text(message))];
    assert(join(members, ","@) == members[0]);
    lemma_json_string_round_trip(message);
}

} // verus!
