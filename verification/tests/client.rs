use devin_mcp::devin_client::{
    check_status, create_session_json, send_message_json, ApiError, CreateSessionRequest,
    DevinClient, HttpMethod,
};
use devin_mcp::text::{decimal_string, join_strings};

fn setup() -> DevinClient {
    let mut client = DevinClient::new("test-api-key".to_string());
    client.set_base_url("http://127.0.0.1:9999".to_string());
    client
}

fn pairs(q: &[(String, String)]) -> Vec<(&str, &str)> {
    q.iter().map(|(k, v)| (k.as_str(), v.as_str())).collect()
}

#[test]
fn test_create_session() {
    let client = setup();
    let req = client.create_session(CreateSessionRequest {
        prompt: "Fix bug #42".to_string(),
        tags: Some(vec!["test".to_string()]),
        max_acu_limit: None,
        playbook_id: None,
    });
    assert_eq!(req.method, HttpMethod::Post);
    assert_eq!(req.url, "http://127.0.0.1:9999/sessions");
    assert_eq!(req.bearer_token, "test-api-key");
    assert!(req.query.is_empty());
    assert_eq!(req.body.as_deref(), Some(r#"{"prompt":"Fix bug #42","tags":["test"]}"#));
    assert!(check_status(200, None, "http://127.0.0.1:9999/sessions".to_string()).is_ok());
}

#[test]
fn test_get_session() {
    let client = setup();
    let req = client.get_session("devin-abc123");
    assert_eq!(req.method, HttpMethod::Get);
    assert_eq!(req.url, "http://127.0.0.1:9999/sessions/devin-abc123");
    assert_eq!(req.bearer_token, "test-api-key");
    assert!(req.query.is_empty());
    assert!(req.body.is_none());
}

#[test]
fn test_list_sessions() {
    let client = setup();
    let req = client.list_sessions(10, 0);
    assert_eq!(req.method, HttpMethod::Get);
    assert_eq!(req.url, "http://127.0.0.1:9999/sessions");
    assert_eq!(pairs(&req.query), vec![("limit", "10"), ("offset", "0")]);
    assert!(req.body.is_none());
}

#[test]
fn test_send_message() {
    let client = setup();
    let req = client.send_message("devin-abc123", "Also fix CSS");
    assert_eq!(req.method, HttpMethod::Post);
    assert_eq!(req.url, "http://127.0.0.1:9999/sessions/devin-abc123");
    assert_eq!(req.bearer_token, "test-api-key");
    assert_eq!(req.body.as_deref(), Some(r#"{"message":"Also fix CSS"}"#));
}

#[test]
fn test_create_session_api_error() {
    match check_status(401, None, "http://127.0.0.1:9999/sessions".to_string()) {
        Err(e) => {
            assert!(matches!(e, ApiError::Status { code: 401, reason: None, .. }));
            assert_eq!(
                e.describe(),
                "HTTP status client error (401 Unauthorized) for url (http://127.0.0.1:9999/sessions)"
            );
        }
        Ok(()) => panic!("401 must fail"),
    }
}

#[test]
fn new_client_targets_public_api() {
    let client = DevinClient::new("k".to_string());
    assert_eq!(client.base_url(), "https://api.devin.ai/v1");
    let req = client.get_session("devin-1");
    assert_eq!(req.url, "https://api.devin.ai/v1/sessions/devin-1");
    assert_eq!(req.bearer_token, "k");
}

#[test]
fn set_base_url_keeps_key() {
    let mut client = DevinClient::new("secret".to_string());
    client.set_base_url("http://localhost:1".to_string());
    let req = client.list_sessions(5, 20);
    assert_eq!(req.url, "http://localhost:1/sessions");
    assert_eq!(req.bearer_token, "secret");
    assert_eq!(pairs(&req.query), vec![("limit", "5"), ("offset", "20")]);
}

#[test]
fn status_classes() {
    for ok in [100u16, 200, 201, 204, 301, 304, 399, 600, 999] {
        assert!(check_status(ok, None, String::new()).is_ok(), "{ok} must pass");
    }
    for bad in [400u16, 401, 404, 429, 499, 500, 502, 599] {
        assert!(
            matches!(check_status(bad, None, String::new()), Err(ApiError::Status { code, .. }) if code == bad),
            "{bad} must fail"
        );
    }
}

#[test]
fn error_descriptions() {
    let url = "https://api.devin.ai/v1/sessions/x".to_string();
    let st = |code: u16, reason: Option<&[u8]>| ApiError::Status {
        code,
        reason: reason.map(|r| r.to_vec()),
        url: url.clone(),
    };
    assert_eq!(
        st(404, None).describe(),
        "HTTP status client error (404 Not Found) for url (https://api.devin.ai/v1/sessions/x)"
    );
    assert_eq!(
        st(503, None).describe(),
        "HTTP status server error (503 Service Unavailable) for url (https://api.devin.ai/v1/sessions/x)"
    );
    assert_eq!(
        st(499, None).describe(),
        "HTTP status client error (499 <unknown status code>) for url (https://api.devin.ai/v1/sessions/x)"
    );
    assert_eq!(
        st(418, Some(b"Nope \"x\"\t\xff")).describe(),
        "HTTP status client error (418 Nope \\\"x\\\"\\t\\xff) for url (https://api.devin.ai/v1/sessions/x)"
    );
    assert_eq!(ApiError::Transport("connection refused".to_string()).describe(), "connection refused");
    assert_eq!(ApiError::Decode("missing field `status`".to_string()).describe(), "missing field `status`");
}

#[test]
fn body_with_every_option() {
    let body = create_session_json(&CreateSessionRequest {
        prompt: "p".to_string(),
        tags: Some(vec!["a".to_string(), "b".to_string()]),
        max_acu_limit: Some(3),
        playbook_id: Some("pb-1".to_string()),
    });
    assert_eq!(body, r#"{"prompt":"p","tags":["a","b"],"max_acu_limit":3,"playbook_id":"pb-1"}"#);
}

#[test]
fn body_without_options() {
    let body = create_session_json(&CreateSessionRequest {
        prompt: "only".to_string(),
        tags: None,
        max_acu_limit: None,
        playbook_id: None,
    });
    assert_eq!(body, r#"{"prompt":"only"}"#);
}

#[test]
fn body_with_empty_tags_and_limit_only() {
    let body = create_session_json(&CreateSessionRequest {
        prompt: "x".to_string(),
        tags: Some(vec![]),
        max_acu_limit: Some(4294967295),
        playbook_id: None,
    });
    assert_eq!(body, r#"{"prompt":"x","tags":[],"max_acu_limit":4294967295}"#);
}

#[test]
fn body_escapes_strings() {
    let body = create_session_json(&CreateSessionRequest {
        prompt: "say \"hi\"\nthen \\ leave\t".to_string(),
        tags: Some(vec!["é→".to_string()]),
        max_acu_limit: None,
        playbook_id: None,
    });
    assert_eq!(body, "{\"prompt\":\"say \\\"hi\\\"\\nthen \\\\ leave\\t\",\"tags\":[\"é→\"]}");
    let msg = send_message_json("a\u{1}b");
    assert_eq!(msg, "{\"message\":\"a\\u0001b\"}");
}

#[test]
fn bodies_match_serde_json() {
    let prompt = "line1\nline2 \"q\" \\";
    let body = create_session_json(&CreateSessionRequest {
        prompt: prompt.to_string(),
        tags: Some(vec!["t1".to_string(), "t\"2".to_string()]),
        max_acu_limit: Some(7),
        playbook_id: Some("p".to_string()),
    });
    let v: serde_json::Value = serde_json::from_str(&body).unwrap();
    assert_eq!(v["prompt"], prompt);
    assert_eq!(v["tags"][1], "t\"2");
    assert_eq!(v["max_acu_limit"], 7);
    assert_eq!(v["playbook_id"], "p");
    let msg = send_message_json("Also fix CSS");
    let m: serde_json::Value = serde_json::from_str(&msg).unwrap();
    assert_eq!(m["message"], "Also fix CSS");
    assert_eq!(m.as_object().unwrap().len(), 1);
}

#[test]
fn decimal_numerals() {
    assert_eq!(decimal_string(0), "0");
    assert_eq!(decimal_string(7), "7");
    assert_eq!(decimal_string(10), "10");
    assert_eq!(decimal_string(1234567890), "1234567890");
    assert_eq!(decimal_string(u64::MAX), u64::MAX.to_string());
}

#[test]
fn joining() {
    let v: Vec<String> = vec![];
    assert_eq!(join_strings(&v, ", "), "");
    let v = vec!["a".to_string()];
    assert_eq!(join_strings(&v, ", "), "a");
    let v = vec!["a".to_string(), "".to_string(), "c".to_string()];
    assert_eq!(join_strings(&v, ", "), "a, , c");
}

#[test]
fn endpoints_agree() {
    let client = setup();
    let get = client.get_session("devin-7");
    let send = client.send_message("devin-7", "hi");
    let create = client.create_session(CreateSessionRequest {
        prompt: "p".to_string(),
        tags: None,
        max_acu_limit: None,
        playbook_id: None,
    });
    let list = client.list_sessions(1, 2);
    assert_eq!(get.url, send.url);
    assert_eq!(create.url, list.url);
    assert_eq!(get.url, format!("{}/devin-7", create.url));
    for r in [&get, &send, &create, &list] {
        assert_eq!(r.bearer_token, "test-api-key");
    }
}

#[test]
fn numerals_read_back() {
    for n in [0u64, 9, 10, 99, 100, 4096, 10_000_000_019, u64::MAX] {
        let s = decimal_string(n);
        assert!(s.chars().all(|c| c.is_ascii_digit()));
        assert_eq!(s.parse::<u64>().unwrap(), n);
    }
}
