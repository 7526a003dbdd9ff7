//! Tests of how the OpenCode API is addressed: base URL, credentials, the
//! path and body of each request, and the reading of replies.

use base64::engine::general_purpose::STANDARD;
use base64::Engine;
use opencode_voice::approval::types::PermissionReply;
use opencode_voice::bridge::client::create_session_request;
use opencode_voice::bridge::client::event_stream_auth_header;
use opencode_voice::bridge::client::friendly_connection_error;
use opencode_voice::bridge::client::health_from_json;
use opencode_voice::bridge::client::list_sessions_path;
use opencode_voice::bridge::client::session_info_from_json;
use opencode_voice::bridge::client::reject_question_request;
use opencode_voice::bridge::client::reply_permission_request;
use opencode_voice::bridge::client::reply_question_request;
use opencode_voice::bridge::client::send_message_request;
use opencode_voice::bridge::client::session_list_from_json;
use opencode_voice::bridge::client::OpenCodeBridge;
use opencode_voice::bridge::client::SessionInfo;
use opencode_voice::bridge::stream::SseBuffer;
use opencode_voice::json::Json;

/// JSON text as the library's JSON value.
fn parse(text: &str) -> Json {
    fn conv(v: &serde_json::Value) -> Json {
        match v {
            serde_json::Value::Null => Json::Null,
            serde_json::Value::Bool(b) => Json::Bool(*b),
            serde_json::Value::Number(n) => Json::Number(n.to_string()),
            serde_json::Value::String(s) => Json::Str(s.clone()),
            serde_json::Value::Array(a) => Json::Array(a.iter().map(conv).collect()),
            serde_json::Value::Object(m) => {
                Json::Object(m.iter().map(|(k, v)| (k.clone(), conv(v))).collect())
            }
        }
    }
    conv(&serde_json::from_str(text).unwrap())
}

fn s(t: &str) -> Json {
    Json::Str(t.to_string())
}

fn obj(entries: Vec<(&str, Json)>) -> Json {
    Json::Object(entries.into_iter().map(|(k, v)| (k.to_string(), v)).collect())
}

#[test]
fn test_get_base_url() {
    let bridge = OpenCodeBridge::new("http://localhost", 4096, None);
    assert_eq!(bridge.get_base_url(), "http://localhost:4096");
}

#[test]
fn test_get_base_url_trailing_slash_stripped() {
    let bridge = OpenCodeBridge::new("http://localhost/", 1234, None);
    assert_eq!(bridge.get_base_url(), "http://localhost:1234");
}

#[test]
fn test_get_base_url_many_trailing_slashes_stripped() {
    let bridge = OpenCodeBridge::new("http://host///", 80, None);
    assert_eq!(bridge.get_base_url(), "http://host:80");
    assert_eq!(bridge.url("/global/health"), "http://host:80/global/health");
}

#[test]
fn test_auth_header_sent_when_password_set() {
    // Expected: Basic base64("opencode:s3cr3t") — username is "opencode"
    let bridge = OpenCodeBridge::new("http://localhost", 4096, Some("s3cr3t".to_string()));
    let expected = format!("Basic {}", STANDARD.encode("opencode:s3cr3t"));
    assert_eq!(bridge.auth_header(), Some(expected));
    assert_eq!(bridge.auth_header().unwrap(), "Basic b3BlbmNvZGU6czNjcjN0");
}

#[test]
fn test_no_auth_header_when_no_password() {
    let bridge = OpenCodeBridge::new("http://localhost", 4096, None);
    assert_eq!(bridge.auth_header(), None);
}

#[test]
fn test_event_stream_auth_uses_opencode_user() {
    assert_eq!(event_stream_auth_header("pw"), format!("Basic {}", STANDARD.encode("opencode:pw")));
    assert_eq!(event_stream_auth_header("pw"), "Basic b3BlbmNvZGU6cHc=");
    let bridge = OpenCodeBridge::new("http://localhost", 4096, Some("pw".to_string()));
    assert_eq!(bridge.auth_header(), Some(event_stream_auth_header("pw")));
}

#[test]
fn test_reply_permission_sends_correct_request() {
    let req = reply_permission_request("perm-123", PermissionReply::Once, None);
    assert_eq!(req.path, "/permission/perm-123/reply");
    assert_eq!(req.body, obj(vec![("reply", s("once"))]));
}

#[test]
fn test_reply_permission_always_with_message() {
    let req = reply_permission_request("perm-789", PermissionReply::Always, Some("approved by voice"));
    assert_eq!(req.path, "/permission/perm-789/reply");
    assert_eq!(
        req.body,
        obj(vec![("reply", s("always")), ("message", s("approved by voice"))])
    );
}

#[test]
fn test_reject_question_sends_correct_request() {
    let req = reject_question_request("q-456");
    assert_eq!(req.path, "/question/q-456/reject", "Expected POST /question/q-456/reject");
    assert_eq!(req.body, Json::Object(vec![]));
}

#[test]
fn test_health_check_returns_true_when_healthy() {
    assert!(health_from_json(&parse(r#"{"healthy":true,"version":"1.0"}"#)));
}

#[test]
fn test_health_check_returns_false_on_server_error() {
    // an error reply's body does not say healthy
    assert!(!health_from_json(&parse("{}")));
}

#[test]
fn test_create_session_parses_reply() {
    let session = session_info_from_json(&parse(r#"{"id":"new_sess","title":"New Session"}"#))
        .expect("a session");
    assert_eq!(session.id, "new_sess");
    assert_eq!(session.title, "New Session");
}

#[test]
fn test_reply_question_and_reject_requests() {
    let answers = vec![vec!["A".to_string()], vec!["B".to_string(), "C".to_string()]];
    let req = reply_question_request("q1", &answers);
    assert_eq!(req.path, "/question/q1/reply");
    assert_eq!(
        req.body,
        obj(vec![(
            "answers",
            Json::Array(vec![Json::Array(vec![s("A")]), Json::Array(vec![s("B"), s("C")])]),
        )])
    );
    let req = reject_question_request("q1");
    assert_eq!(req.path, "/question/q1/reject");
    assert_eq!(req.body, Json::Object(vec![]));
}

#[test]
fn test_create_session_sends_empty_body() {
    let req = create_session_request();
    assert_eq!(req.path, "/session");
    assert_eq!(req.body, Json::Object(vec![]));
}

#[test]
fn test_send_message_sends_correct_request() {
    let req = send_message_request("sess_abc", "hello");
    assert_eq!(req.path, "/session/sess_abc/prompt_async");
    assert_eq!(
        req.body,
        obj(vec![("parts", Json::Array(vec![obj(vec![("type", s("text")), ("text", s("hello"))])]))])
    );
}

#[test]
fn test_health_from_json() {
    assert!(health_from_json(&obj(vec![("healthy", Json::Bool(true))])));
    assert!(!health_from_json(&obj(vec![("healthy", Json::Bool(false))])));
    assert!(!health_from_json(&obj(vec![("healthy", s("true"))])));
    assert!(!health_from_json(&Json::Null));
}

#[test]
fn test_list_sessions_parses_response() {
    assert_eq!(list_sessions_path(), "/session?limit=10&roots=true");
    let body = parse(r#"[{"id":"sess_1","title":"My Session","time_updated":1234567890}]"#);
    let sessions: Vec<SessionInfo> = session_list_from_json(&body).unwrap();
    assert_eq!(sessions.len(), 1);
    assert_eq!(sessions[0].id, "sess_1");
    assert_eq!(sessions[0].title, "My Session");
    let bad = Json::Array(vec![obj(vec![("id", s("x"))])]);
    assert!(session_list_from_json(&bad).is_none());
}

#[test]
fn test_friendly_connection_error() {
    assert_eq!(
        friendly_connection_error("http://localhost:4096"),
        "Cannot connect to OpenCode at http://localhost:4096. Make sure OpenCode is running with 'opencode web' or 'opencode --port <port>'"
    );
}

#[test]
fn test_sse_buffer_frames_blocks_across_chunks() {
    let mut buf = SseBuffer::new();
    assert!(buf.push_text("data: {\"a\":1}\n").is_empty());
    let blocks = buf.push_text("\ndata: 2\n\ndata: 3");
    assert_eq!(blocks, vec!["data: {\"a\":1}".to_string(), "data: 2".to_string()]);
    let blocks = buf.push_text("\n\n");
    assert_eq!(blocks, vec!["data: 3".to_string()]);
}

#[test]
fn test_sse_buffer_chunking_does_not_matter() {
    let text = "a\n\nb\n\n\nc\n\nd";
    let mut whole = SseBuffer::new();
    let all = whole.push_text(text);
    let mut pieces = SseBuffer::new();
    let mut got = Vec::new();
    for ch in text.chars() {
        got.extend(pieces.push_text(&ch.to_string()));
    }
    assert_eq!(all, got);
    assert_eq!(all, vec!["a".to_string(), "b".to_string(), "\nc".to_string()]);
}
