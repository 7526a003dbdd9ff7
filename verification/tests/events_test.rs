#![allow(unused_imports)]
use opencode_voice::bridge::events::next_reconnect_delay;
use opencode_voice::bridge::events::parse_sse_data;
use opencode_voice::bridge::events::parse_sse_block;
use opencode_voice::bridge::events::SseEvent;
use opencode_voice::json::Json;



#[test]
fn test_parse_connected() {
    let event = parse_sse_block(
        "data: {\"type\":\"server.connected\",\"properties\":{}}",
    );
    assert!(matches!(event, Some(SseEvent::Connected)));
}

#[test]
fn test_parse_heartbeat_ignored() {
    assert!(parse_sse_block(
        "data: {\"type\":\"server.heartbeat\",\"properties\":{}}"
    ).is_none());
}

#[test]
fn test_parse_malformed_json() {
    assert!(parse_sse_block("data: not-valid-json").is_none());
}

#[test]
fn test_parse_empty_data() {
    assert!(parse_sse_block("event: ping\n").is_none());
}

#[test]
fn test_parse_unknown_type() {
    assert!(parse_sse_block(
        "data: {\"type\":\"unknown.event\",\"properties\":{}}"
    ).is_none());
}

#[test]
fn test_parse_permission_asked() {
    let json = r#"data: {"type":"permission.asked","properties":{"id":"test-id","session_id":"sess","permission":"bash","patterns":[],"metadata":{},"always":[],"tool":null}}"#;
    let event = parse_sse_block(json).unwrap();
    assert!(matches!(event, SseEvent::PermissionAsked(ref req) if req.id == "test-id"));
}

#[test]
fn test_parse_question_asked() {
    let json = r#"data: {"type":"question.asked","properties":{"id":"q1","session_id":"s1","questions":[{"question":"What?","header":"H","options":[],"multiple":false,"custom":true}]}}"#;
    let event = parse_sse_block(json).unwrap();
    assert!(matches!(event, SseEvent::QuestionAsked(ref req) if req.id == "q1"));
}

#[test]
fn test_parse_permission_replied() {
    let json = r#"data: {"type":"permission.replied","properties":{"session_id":"s1","request_id":"r1","reply":"once"}}"#;
    let event = parse_sse_block(json).unwrap();
    assert!(
        matches!(event, SseEvent::PermissionReplied { ref session_id, ref request_id, ref reply }
            if session_id == "s1" && request_id == "r1" && reply == "once")
    );
}

#[test]
fn test_parse_question_replied() {
    let json = r#"data: {"type":"question.replied","properties":{"session_id":"s1","request_id":"r1","answers":[["yes","no"]]}}"#;
    let event = parse_sse_block(json).unwrap();
    assert!(
        matches!(event, SseEvent::QuestionReplied { ref session_id, ref request_id, ref answers }
            if session_id == "s1" && request_id == "r1" && answers == &vec![vec!["yes".to_string(), "no".to_string()]])
    );
}

#[test]
fn test_parse_question_rejected() {
    let json = r#"data: {"type":"question.rejected","properties":{"session_id":"s1","request_id":"r1"}}"#;
    let event = parse_sse_block(json).unwrap();
    assert!(
        matches!(event, SseEvent::QuestionRejected { ref session_id, ref request_id }
            if session_id == "s1" && request_id == "r1")
    );
}

#[test]
fn test_backoff_calculation() {
    let mut delay: u64 = 1;
    let sequence: Vec<u64> = (0..8)
        .map(|_| {
            let d = delay;
            delay = next_reconnect_delay(delay);
            d
        })
        .collect();
    assert_eq!(sequence, vec![1, 2, 4, 8, 16, 30, 30, 30]);
}

// ── session.status ────────────────────────────────────────────────

#[test]
fn test_parse_session_status_busy() {
    let json = r#"data: {"type":"session.status","properties":{"sessionID":"s1","status":{"type":"busy"}}}"#;
    let event = parse_sse_block(json).unwrap();
    assert!(
        matches!(event, SseEvent::SessionStatus { ref session_id, busy }
            if session_id == "s1" && busy)
    );
}

#[test]
fn test_parse_session_status_idle() {
    let json = r#"data: {"type":"session.status","properties":{"sessionID":"s1","status":{"type":"idle"}}}"#;
    let event = parse_sse_block(json).unwrap();
    assert!(
        matches!(event, SseEvent::SessionStatus { ref session_id, busy }
            if session_id == "s1" && !busy)
    );
}

#[test]
fn test_parse_session_status_retry() {
    // "retry" is neither "busy" — should parse as not busy.
    let json = r#"data: {"type":"session.status","properties":{"sessionID":"s1","status":{"type":"retry"}}}"#;
    let event = parse_sse_block(json).unwrap();
    assert!(
        matches!(event, SseEvent::SessionStatus { busy, .. } if !busy)
    );
}

#[test]
fn test_parse_session_status_missing_status_field() {
    // Missing status object → defaults to not busy.
    let json = r#"data: {"type":"session.status","properties":{"sessionID":"s1"}}"#;
    let event = parse_sse_block(json).unwrap();
    assert!(
        matches!(event, SseEvent::SessionStatus { busy, .. } if !busy)
    );
}

#[test]
fn test_parse_session_status_snake_case_session_id() {
    // Uses "session_id" instead of "sessionID" — both should be supported.
    let json = r#"data: {"type":"session.status","properties":{"session_id":"s2","status":{"type":"busy"}}}"#;
    let event = parse_sse_block(json).unwrap();
    assert!(
        matches!(event, SseEvent::SessionStatus { ref session_id, busy }
            if session_id == "s2" && busy)
    );
}

// ── session lifecycle events ──────────────────────────────────────

#[test]
fn test_parse_session_updated() {
    let json = r#"data: {"type":"session.updated","properties":{"info":{"id":"sess_1"}}}"#;
    let event = parse_sse_block(json).unwrap();
    assert!(
        matches!(event, SseEvent::SessionUpdated { ref session_id } if session_id == "sess_1"),
        "SessionUpdated session_id should be 'sess_1'"
    );
}

#[test]
fn test_parse_session_created() {
    let json = r#"data: {"type":"session.created","properties":{"info":{"id":"sess_2"}}}"#;
    let event = parse_sse_block(json).unwrap();
    assert!(
        matches!(event, SseEvent::SessionCreated { ref session_id } if session_id == "sess_2"),
        "SessionCreated session_id should be 'sess_2'"
    );
}

#[test]
fn test_parse_session_deleted() {
    let json = r#"data: {"type":"session.deleted","properties":{"info":{"id":"sess_3"}}}"#;
    let event = parse_sse_block(json).unwrap();
    assert!(
        matches!(event, SseEvent::SessionDeleted { ref session_id } if session_id == "sess_3"),
        "SessionDeleted session_id should be 'sess_3'"
    );
}

#[test]
fn test_parse_session_updated_direct_id() {
    // Some server versions may send id directly in properties rather than info.id
    let json = r#"data: {"type":"session.updated","properties":{"id":"sess_direct"}}"#;
    let event = parse_sse_block(json).unwrap();
    assert!(
        matches!(event, SseEvent::SessionUpdated { ref session_id } if session_id == "sess_direct"),
        "SessionUpdated should fall back to direct id field"
    );
}

// ── explicitly ignored events ─────────────────────────────────────

#[test]
fn test_parse_ignored_session_events_return_none() {
    for event_type in &[
        "session.diff",
        "session.error",
        "session.idle",
        "session.compacted",
    ] {
        let json = format!(
            r#"data: {{"type":"{}","properties":{{}}}}"#,
            event_type
        );
        assert!(
            parse_sse_block(&json).is_none(),
            "{} should be explicitly ignored",
            event_type
        );
    }
}

#[test]
fn test_parse_ignored_message_events_return_none() {
    for event_type in &[
        "message.updated",
        "message.removed",
        "message.part.updated",
        "message.part.delta",
        "message.part.removed",
    ] {
        let json = format!(
            r#"data: {{"type":"{}","properties":{{}}}}"#,
            event_type
        );
        assert!(
            parse_sse_block(&json).is_none(),
            "{} should be explicitly ignored",
            event_type
        );
    }
}

#[test]
fn test_parse_ignored_misc_events_return_none() {
    for event_type in &[
        "file.edited",
        "file.watcher.updated",
        "project.updated",
        "vcs.branch.updated",
        "todo.updated",
        "mcp.tools.changed",
        "lsp.updated",
        "pty.created",
        "pty.updated",
        "pty.exited",
        "pty.deleted",
        "permission.updated",
        "installation.updated",
        "installation.update-available",
    ] {
        let json = format!(
            r#"data: {{"type":"{}","properties":{{}}}}"#,
            event_type
        );
        assert!(
            parse_sse_block(&json).is_none(),
            "{} should be explicitly ignored",
            event_type
        );
    }
}

// ── truly unknown events ──────────────────────────────────────────

#[test]
fn test_parse_truly_unknown_event_returns_none() {
    // An event type not in the ignore list and not handled → still returns None.
    assert!(parse_sse_block(
        r#"data: {"type":"some.future.event","properties":{}}"#
    ).is_none());
}

#[test]
fn test_parse_no_type_field() {
    assert!(parse_sse_block("data: {\"properties\":{}}").is_none());
}

#[test]
fn test_parse_missing_properties() {
    let event = parse_sse_block("data: {\"type\":\"server.connected\"}");
    assert!(matches!(event, Some(SseEvent::Connected)));
}

#[test]
fn test_parse_permission_asked_fields() {
    let json = r#"data: {"type":"permission.asked","properties":{"id":"p9","permission":"edit","metadata":{"path":"/a"}}}"#;
    match parse_sse_block(json) {
        Some(SseEvent::PermissionAsked(req)) => {
            assert_eq!(req.id, "p9");
            assert_eq!(req.permission, "edit");
            assert_eq!(req.metadata, Json::Object(vec![("path".to_string(), Json::Str("/a".to_string()))]));
        }
        other => panic!("unexpected {:?}", other),
    }
}

#[test]
fn test_parse_permission_asked_without_metadata_is_null() {
    let json = r#"data: {"type":"permission.asked","properties":{"id":"p1","permission":"bash"}}"#;
    match parse_sse_block(json) {
        Some(SseEvent::PermissionAsked(req)) => assert_eq!(req.metadata, Json::Null),
        other => panic!("unexpected {:?}", other),
    }
}

#[test]
fn test_parse_permission_asked_missing_id_is_ignored() {
    let json = r#"data: {"type":"permission.asked","properties":{"permission":"bash"}}"#;
    assert!(parse_sse_block(json).is_none());
}

#[test]
fn test_parse_question_asked_defaults() {
    let json = r#"data: {"type":"question.asked","properties":{"id":"q1","questions":[{"question":"Go?"}]}}"#;
    match parse_sse_block(json) {
        Some(SseEvent::QuestionAsked(req)) => {
            assert_eq!(req.questions.len(), 1);
            assert!(req.questions[0].options.is_empty());
            assert!(req.questions[0].custom, "custom defaults to true");
        }
        other => panic!("unexpected {:?}", other),
    }
}

#[test]
fn test_parse_permission_replied_missing_fields_are_empty() {
    let json = r#"data: {"type":"permission.replied","properties":{}}"#;
    assert!(matches!(
        parse_sse_block(json),
        Some(SseEvent::PermissionReplied { ref session_id, ref request_id, ref reply })
            if session_id.is_empty() && request_id.is_empty() && reply.is_empty()
    ));
}

#[test]
fn test_parse_sse_data_first_data_line_trimmed() {
    assert_eq!(parse_sse_data("event: x\ndata:   {}  \ndata: 2").as_deref(), Some("{}"));
    assert_eq!(parse_sse_data("data:   "), None);
    assert_eq!(parse_sse_data("event: x"), None);
    assert_eq!(parse_sse_data("data:data: 1").as_deref(), Some("1"));
}

#[test]
fn test_backoff_from_zero_and_large() {
    assert_eq!(next_reconnect_delay(0), 0);
    assert_eq!(next_reconnect_delay(1_000_000), 30);
}

#[test]
fn test_backoff_of_huge_delay_is_capped() {
    assert_eq!(next_reconnect_delay(u64::MAX), 30);
    assert_eq!(next_reconnect_delay(15), 30);
    assert_eq!(next_reconnect_delay(14), 28);
}
