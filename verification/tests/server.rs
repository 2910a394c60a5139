use devin_mcp::devin_client::{ApiError, HttpMethod, PullRequest, Session, SessionList, SessionMessage};
use devin_mcp::server::{
    default_limit, internal_error, session_url, CreateSessionParams, DevinMcpServer,
    GetSessionParams, ListSessionsParams, SendMessageParams,
};

fn session(id: &str, status: &str, title: Option<&str>) -> Session {
    Session {
        session_id: id.to_string(),
        status: status.to_string(),
        title: title.map(|t| t.to_string()),
        created_at: "2025-01-01T00:00:00.000000+00:00".to_string(),
        updated_at: "2025-01-01T00:00:00.000000+00:00".to_string(),
        messages: vec![],
        pull_request: None,
    }
}

fn setup_server() -> DevinMcpServer {
    let mut server = DevinMcpServer::new("test-key".to_string());
    server.client.set_base_url("http://127.0.0.1:9999".to_string());
    server
}

#[test]
fn test_create_session_tool_returns_url() {
    let server = setup_server();
    let params = CreateSessionParams {
        prompt: "Write unit tests for auth module".to_string(),
        tags: Some(vec!["testing".to_string()]),
        max_acu_limit: Some(3),
        playbook_id: None,
    };
    let req = server.create_session_request(params);
    assert_eq!(req.method, HttpMethod::Post);
    assert_eq!(req.url, "http://127.0.0.1:9999/sessions");
    assert_eq!(req.bearer_token, "test-key");
    assert_eq!(
        req.body.as_deref(),
        Some(r#"{"prompt":"Write unit tests for auth module","tags":["testing"],"max_acu_limit":3}"#)
    );

    let result = DevinMcpServer::create_session_reply(Ok(session("devin-new123", "running", Some("Fix bug #42"))))
        .ok()
        .unwrap();
    assert!(result.contains("https://app.devin.ai/sessions/devin-new123"));
    assert!(result.contains("running"));
}

#[test]
fn test_create_session_tool_handles_api_failure() {
    let outcome = devin_mcp::devin_client::check_status(500, None, "http://127.0.0.1:9999/sessions".to_string())
        .map(|_| session("x", "y", None));
    let result = DevinMcpServer::create_session_reply(outcome);
    assert!(result.is_err());
}

#[test]
fn create_reply_exact_text() {
    let text = DevinMcpServer::create_session_reply(Ok(session("devin-abc123", "running", Some("Test session"))))
        .ok()
        .unwrap();
    assert_eq!(
        text,
        "Devin session created.\n- Session: https://app.devin.ai/sessions/devin-abc123\n- ID: devin-abc123\n- Title: Test session\n- Status: running\n\nDevin is working on it. A PR will be created when done."
    );
    let untitled = DevinMcpServer::create_session_reply(Ok(session("d", "blocked", None))).ok().unwrap();
    assert!(untitled.contains("\n- Title: \n- Status: blocked\n"));
}

#[test]
fn create_reply_failure_message() {
    let err = ApiError::Status { code: 401, reason: None, url: "http://h/sessions".to_string() };
    match DevinMcpServer::create_session_reply(Err(err)) {
        Err(e) => assert_eq!(
            e.message,
            "Failed to create session: HTTP status client error (401 Unauthorized) for url (http://h/sessions)"
        ),
        Ok(_) => panic!("must fail"),
    }
}

#[test]
fn get_session_request_and_reply() {
    let server = setup_server();
    let req = server.get_session_request(&GetSessionParams { session_id: "devin-abc123".to_string() });
    assert_eq!(req.method, HttpMethod::Get);
    assert_eq!(req.url, "http://127.0.0.1:9999/sessions/devin-abc123");

    let mut s = session("devin-abc123", "finished", Some("Test session"));
    s.messages.push(SessionMessage {
        msg_type: "initial_user_message".to_string(),
        message: Some("Fix bug #42".to_string()),
    });
    s.pull_request = Some(PullRequest { url: "https://github.com/org/repo/pull/99".to_string() });
    let text = DevinMcpServer::get_session_reply(Ok(s)).ok().unwrap();
    assert_eq!(
        text,
        "Session: https://app.devin.ai/sessions/devin-abc123\n- ID: devin-abc123\n- Status: finished\n- Title: Test session\n- Messages:\n  - [initial_user_message] Fix bug #42\n- PR: https://github.com/org/repo/pull/99"
    );
    let plain = DevinMcpServer::get_session_reply(Ok(session("d1", "running", None))).ok().unwrap();
    assert_eq!(plain, "Session: https://app.devin.ai/sessions/d1\n- ID: d1\n- Status: running\n- Title: (untitled)");
    match DevinMcpServer::get_session_reply(Err(ApiError::Transport("timed out".to_string()))) {
        Err(e) => assert_eq!(e.message, "Failed to get session: timed out"),
        Ok(_) => panic!("must fail"),
    }
}

#[test]
fn list_sessions_request_and_reply() {
    let server = setup_server();
    let req = server.list_sessions_request(&ListSessionsParams { limit: default_limit(), offset: 0 });
    assert_eq!(req.url, "http://127.0.0.1:9999/sessions");
    let q: Vec<(&str, &str)> = req.query.iter().map(|(k, v)| (k.as_str(), v.as_str())).collect();
    assert_eq!(q, vec![("limit", "10"), ("offset", "0")]);

    let list = SessionList {
        sessions: vec![session("devin-001", "finished", Some("Session 1")), session("devin-002", "running", None)],
    };
    let text = DevinMcpServer::list_sessions_reply(Ok(list)).ok().unwrap();
    assert_eq!(
        text,
        "Sessions (2 total):\n- [finished] Session 1 — https://app.devin.ai/sessions/devin-001\n- [running] (untitled) — https://app.devin.ai/sessions/devin-002"
    );
    let empty = DevinMcpServer::list_sessions_reply(Ok(SessionList { sessions: vec![] })).ok().unwrap();
    assert_eq!(empty, "Sessions (0 total):\n");
    let err = ApiError::Status { code: 503, reason: None, url: "http://h/sessions".to_string() };
    match DevinMcpServer::list_sessions_reply(Err(err)) {
        Err(e) => assert_eq!(
            e.message,
            "Failed to list sessions: HTTP status server error (503 Service Unavailable) for url (http://h/sessions)"
        ),
        Ok(_) => panic!("must fail"),
    }
}

#[test]
fn send_message_request_and_reply() {
    let server = setup_server();
    let req = server.send_message_request(&SendMessageParams {
        session_id: "devin-abc123".to_string(),
        message: "Also fix CSS".to_string(),
    });
    assert_eq!(req.method, HttpMethod::Post);
    assert_eq!(req.url, "http://127.0.0.1:9999/sessions/devin-abc123");
    assert_eq!(req.body.as_deref(), Some(r#"{"message":"Also fix CSS"}"#));
    let text = DevinMcpServer::send_message_reply(Ok(session("devin-abc123", "running", None))).ok().unwrap();
    assert_eq!(text, "Message sent to session.\n- Session: https://app.devin.ai/sessions/devin-abc123\n- Status: running");
    match DevinMcpServer::send_message_reply(Err(ApiError::Decode("bad json".to_string()))) {
        Err(e) => assert_eq!(e.message, "Failed to send message: bad json"),
        Ok(_) => panic!("must fail"),
    }
}

#[test]
fn server_defaults() {
    assert_eq!(default_limit(), 10);
    let server = DevinMcpServer::new("k".to_string());
    assert_eq!(server.client.base_url(), "https://api.devin.ai/v1");
    assert_eq!(session_url("devin-x"), "https://app.devin.ai/sessions/devin-x");
    assert_eq!(internal_error("boom".to_string()).message, "boom");
    let text = DevinMcpServer::instructions();
    for tool in ["create_session", "get_session", "list_sessions", "send_message"] {
        assert!(text.contains(tool));
    }
    assert!(text.starts_with("Devin AI session manager. Tools:\n"));
}

#[test]
fn params_become_request_unchanged() {
    let req = CreateSessionParams {
        prompt: "p".to_string(),
        tags: None,
        max_acu_limit: Some(2),
        playbook_id: Some("pb".to_string()),
    }
    .into_request();
    assert_eq!(req.prompt, "p");
    assert!(req.tags.is_none());
    assert_eq!(req.max_acu_limit, Some(2));
    assert_eq!(req.playbook_id.as_deref(), Some("pb"));
}

#[test]
fn get_session_shows_every_message() {
    let mut s = session("devin-m", "running", Some("T"));
    let long = "x".repeat(200);
    s.messages.push(SessionMessage { msg_type: "user_message".to_string(), message: Some(long.clone()) });
    s.messages.push(SessionMessage { msg_type: "devin_message".to_string(), message: None });
    s.messages.push(SessionMessage { msg_type: "devin_message".to_string(), message: Some("Done.".to_string()) });
    let text = DevinMcpServer::get_session_reply(Ok(s)).ok().unwrap();
    assert!(text.contains(&long));
    assert!(text.contains("Done."));
    assert_eq!(
        text,
        format!(
            "Session: https://app.devin.ai/sessions/devin-m\n- ID: devin-m\n- Status: running\n- Title: T\n- Messages:\n  - [user_message] {long}\n  - [devin_message] (no text)\n  - [devin_message] Done."
        )
    );
}
