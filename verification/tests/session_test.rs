#![allow(unused_imports)]
use opencode_voice::approval::types::PermissionReply;
use opencode_voice::approval::types::PermissionRequest;
use opencode_voice::approval::types::QuestionInfo;
use opencode_voice::approval::types::QuestionOption;
use opencode_voice::approval::types::QuestionRequest;
use opencode_voice::bridge::client::create_session_request;
use opencode_voice::bridge::client::reject_question_request;
use opencode_voice::bridge::client::session_info_from_json;
use opencode_voice::bridge::client::reply_permission_request;
use opencode_voice::bridge::client::reply_question_request;
use opencode_voice::bridge::client::send_message_request;
use opencode_voice::bridge::events::SseEvent;
use opencode_voice::config::AppConfig;
use opencode_voice::config::ModelSize;
use opencode_voice::json::Json;
use opencode_voice::session::approval::handle_sse_event;
use opencode_voice::session::approval::handle_sse_permission_asked;
use opencode_voice::session::approval::handle_sse_permission_replied;
use opencode_voice::session::approval::handle_sse_question_asked;
use opencode_voice::session::approval::handle_sse_question_rejected;
use opencode_voice::session::approval::handle_sse_question_replied;
use opencode_voice::session::approval::handle_sse_session_status;
use opencode_voice::session::approval::refresh_approval_display;
use opencode_voice::session::recording::approval_reply_for;
use opencode_voice::session::recording::approval_reply_sent;
use opencode_voice::session::recording::begin_injection;
use opencode_voice::session::recording::failure_text;
use opencode_voice::session::recording::handle_failure;
use opencode_voice::session::recording::handle_toggle;
use opencode_voice::session::recording::may_start_recording_now;
use opencode_voice::session::recording::recording_started;
use opencode_voice::session::recording::recording_stopped;
use opencode_voice::session::recording::return_to_idle_or_approval;
use opencode_voice::session::recording::too_short_message;
use opencode_voice::session::recording::transcription_finished;
use opencode_voice::session::recording::ApprovalReply;
use opencode_voice::session::recording::Failure;
use opencode_voice::session::recording::TranscriptStep;
use opencode_voice::session::level_render_due;
use opencode_voice::session::InputAction;
use opencode_voice::session::VoiceApp;
use opencode_voice::state::InputEvent;
use opencode_voice::state::RecordingState;

fn test_config() -> AppConfig {
    AppConfig {
        whisper_model_path: "/nonexistent/model.bin".to_string(),
        opencode_port: 4096,
        toggle_key: ' ',
        model_size: ModelSize::TinyEn,
        auto_submit: true,
        server_password: None,
        data_dir: "/nonexistent/data".to_string(),
        audio_device: None,
        use_global_hotkey: false,
        global_hotkey: "right_option".to_string(),
        push_to_talk: true,
        handle_prompts: true,
        debug: false,
    }
}

/// The configuration of the recording tests: standard toggle mode.
fn toggle_config() -> AppConfig {
    AppConfig { push_to_talk: false, handle_prompts: false, ..test_config() }
}

fn make_permission(id: &str) -> PermissionRequest {
    PermissionRequest {
        id: id.to_string(),
        permission: "bash".to_string(),
        metadata: Json::Null,
    }
}

fn make_question(id: &str) -> QuestionRequest {
    QuestionRequest {
        id: id.to_string(),
        questions: vec![],
    }
}

fn pick_one(id: &str, labels: &[&str]) -> QuestionRequest {
    QuestionRequest {
        id: id.to_string(),
        questions: vec![QuestionInfo {
            question: "Pick one".to_string(),
            options: labels.iter().map(|l| QuestionOption { label: l.to_string() }).collect(),
            custom: false,
        }],
    }
}

#[test]
fn test_permission_asked_transitions_to_approval_pending() {
    let mut app = VoiceApp::new(test_config());
    assert_eq!(app.state, RecordingState::Idle);
    handle_sse_permission_asked(&mut app, make_permission("p1"));
    assert_eq!(app.state, RecordingState::ApprovalPending);
    assert!(app.approval_queue.has_pending());
}

#[test]
fn test_permission_replied_removes_from_queue_and_returns_to_idle() {
    let mut app = VoiceApp::new(test_config());
    handle_sse_permission_asked(&mut app, make_permission("p1"));
    assert_eq!(app.state, RecordingState::ApprovalPending);

    handle_sse_permission_replied(&mut app, "sess", "p1", "once");
    assert_eq!(app.state, RecordingState::Idle);
    assert!(!app.approval_queue.has_pending());
}

#[test]
fn test_question_asked_transitions_to_approval_pending() {
    let mut app = VoiceApp::new(test_config());
    handle_sse_question_asked(&mut app, make_question("q1"));
    assert_eq!(app.state, RecordingState::ApprovalPending);
}

#[test]
fn test_question_replied_removes_from_queue() {
    let mut app = VoiceApp::new(test_config());
    handle_sse_question_asked(&mut app, make_question("q1"));
    handle_sse_question_replied(&mut app, "sess", "q1", vec![]);
    assert_eq!(app.state, RecordingState::Idle);
    assert!(!app.approval_queue.has_pending());
}

#[test]
fn test_question_rejected_removes_from_queue() {
    let mut app = VoiceApp::new(test_config());
    handle_sse_question_asked(&mut app, make_question("q1"));
    handle_sse_question_rejected(&mut app, "sess", "q1");
    assert_eq!(app.state, RecordingState::Idle);
    assert!(!app.approval_queue.has_pending());
}

// ── handle_sse_session_status ──────────────────────────────────────

#[test]
fn test_session_busy_clears_pending_approvals() {
    let mut app = VoiceApp::new(test_config());
    handle_sse_permission_asked(&mut app, make_permission("p1"));
    handle_sse_question_asked(&mut app, make_question("q1"));
    assert_eq!(app.state, RecordingState::ApprovalPending);
    assert_eq!(app.approval_queue.len(), 2);

    // Session becomes busy → AI resumed → approvals were answered externally.
    handle_sse_session_status(&mut app, "sess", true);
    assert_eq!(app.state, RecordingState::Idle);
    assert!(!app.approval_queue.has_pending());
}

#[test]
fn test_session_idle_clears_stale_approvals() {
    let mut app = VoiceApp::new(test_config());
    handle_sse_permission_asked(&mut app, make_permission("p1"));
    assert_eq!(app.state, RecordingState::ApprovalPending);

    // Session went idle with approvals still in queue → stale.
    handle_sse_session_status(&mut app, "sess", false);
    assert_eq!(app.state, RecordingState::Idle);
    assert!(!app.approval_queue.has_pending());
}

#[test]
fn test_session_busy_no_op_without_pending() {
    let mut app = VoiceApp::new(test_config());
    assert_eq!(app.state, RecordingState::Idle);

    // No pending approvals → should be a no-op.
    handle_sse_session_status(&mut app, "sess", true);
    assert_eq!(app.state, RecordingState::Idle);
}

#[test]
fn test_session_busy_does_not_change_recording_state() {
    let mut app = VoiceApp::new(test_config());
    handle_sse_permission_asked(&mut app, make_permission("p1"));
    // Manually set to Recording (user started recording before session went busy).
    app.state = RecordingState::Recording;

    handle_sse_session_status(&mut app, "sess", true);
    // Queue should be cleared but state should stay Recording (not forced to Idle).
    assert!(!app.approval_queue.has_pending());
    assert_eq!(app.state, RecordingState::Recording);
}

#[test]
fn test_session_idle_no_op_without_pending() {
    let mut app = VoiceApp::new(test_config());
    assert_eq!(app.state, RecordingState::Idle);

    // No pending approvals → idle event should be a no-op.
    handle_sse_session_status(&mut app, "sess", false);
    assert_eq!(app.state, RecordingState::Idle);
    assert!(!app.approval_queue.has_pending());
}

#[test]
fn test_session_idle_does_not_change_transcribing_state() {
    let mut app = VoiceApp::new(test_config());
    handle_sse_permission_asked(&mut app, make_permission("p1"));
    // Manually set to Transcribing (user finished recording, transcription in progress).
    app.state = RecordingState::Transcribing;

    handle_sse_session_status(&mut app, "sess", false);
    // Queue should be cleared but state should stay Transcribing (not forced to Idle).
    assert!(!app.approval_queue.has_pending());
    assert_eq!(app.state, RecordingState::Transcribing);
}

#[test]
fn test_multiple_approvals_stay_pending_until_all_cleared() {
    let mut app = VoiceApp::new(test_config());
    handle_sse_permission_asked(&mut app, make_permission("p1"));
    handle_sse_question_asked(&mut app, make_question("q1"));
    assert_eq!(app.approval_queue.len(), 2);

    handle_sse_permission_replied(&mut app, "sess", "p1", "once");
    // Still one item left — should remain ApprovalPending.
    assert_eq!(app.state, RecordingState::ApprovalPending);

    handle_sse_question_rejected(&mut app, "sess", "q1");
    // Queue now empty — should return to Idle.
    assert_eq!(app.state, RecordingState::Idle);
}

#[test]
fn test_voice_app_new_initializes_idle_state() {
    let config = test_config();
    let app = VoiceApp::new(config);
    assert_eq!(app.state, RecordingState::Idle);
}

#[test]
fn test_voice_app_new_approval_queue_empty() {
    let config = test_config();
    let app = VoiceApp::new(config);
    assert!(!app.approval_queue.has_pending());
}

#[test]
fn test_voice_app_new_not_shutting_down() {
    let config = test_config();
    let app = VoiceApp::new(config);
    assert!(!app.is_shutting_down);
}

#[test]
fn test_voice_app_shutdown_sets_flag() {
    let config = test_config();
    let mut app = VoiceApp::new(config);
    app.shutdown();
    assert!(app.is_shutting_down);
}

#[test]
fn test_voice_app_shutdown_idempotent() {
    let config = test_config();
    let mut app = VoiceApp::new(config);
    app.shutdown();
    app.shutdown(); // Second call must not panic.
    assert!(app.is_shutting_down);
}

#[test]
fn test_voice_app_shutdown_cancels_token() {
    // The first shutdown asks the caller to cancel the background tasks;
    // later ones do not.
    let config = test_config();
    let mut app = VoiceApp::new(config);
    assert!(app.shutdown());
    assert!(!app.shutdown());
}

#[test]
fn test_handle_error_sets_error_state() {
    let config = test_config();
    let mut app = VoiceApp::new(config);
    app.handle_error("test error");
    assert_eq!(app.state, RecordingState::Error);
    assert_eq!(app.current_error.as_deref(), Some("test error"));
}

#[test]
fn test_recover_from_error_transitions_to_idle() {
    let config = test_config();
    let mut app = VoiceApp::new(config);
    app.state = RecordingState::Error;
    app.current_error = Some("some error".to_string());

    assert!(app.recover_from_error());

    assert_eq!(app.state, RecordingState::Idle);
    assert!(app.current_error.is_none());
}

#[test]
fn test_recover_from_error_ignores_other_states() {
    let mut app = VoiceApp::new(test_config());
    app.state = RecordingState::Recording;
    assert!(!app.recover_from_error());
    assert_eq!(app.state, RecordingState::Recording);
}

#[test]
fn test_quit_input_shuts_down_once() {
    let mut app = VoiceApp::new(test_config());
    assert_eq!(app.handle_input(InputEvent::Quit), InputAction::Shutdown);
    assert!(app.is_shutting_down);
    assert_eq!(app.handle_input(InputEvent::Quit), InputAction::Nothing);
}

#[test]
fn test_push_to_talk_ignores_toggle() {
    let mut app = VoiceApp::new(test_config());
    assert_eq!(app.handle_input(InputEvent::Toggle), InputAction::Nothing);
    assert_eq!(app.state, RecordingState::Idle);
    assert_eq!(app.handle_input(InputEvent::KeyDown), InputAction::StartRecording);
    recording_started(&mut app);
    assert_eq!(app.state, RecordingState::Recording);
    assert_eq!(app.handle_input(InputEvent::KeyUp), InputAction::StopRecording);
}

#[test]
fn test_toggle_mode_ignores_keys_and_toggles() {
    let mut app = VoiceApp::new(toggle_config());
    assert_eq!(app.handle_input(InputEvent::KeyDown), InputAction::Nothing);
    assert_eq!(app.handle_input(InputEvent::Toggle), InputAction::Render);
    assert_eq!(app.state, RecordingState::Recording);
    assert_eq!(app.handle_input(InputEvent::KeyUp), InputAction::Nothing);
    assert_eq!(app.handle_input(InputEvent::Toggle), InputAction::Render);
    assert_eq!(app.state, RecordingState::Transcribing);
    assert_eq!(app.handle_input(InputEvent::Toggle), InputAction::Nothing);
}

// ── handle_toggle ────────────────────────────────────────────────────────

#[test]
fn test_handle_toggle_idle_to_recording() {
    let mut app = VoiceApp::new(toggle_config());
    assert_eq!(app.state, RecordingState::Idle);
    handle_toggle(&mut app);
    assert_eq!(app.state, RecordingState::Recording);
}

#[test]
fn test_handle_toggle_recording_to_transcribing() {
    let mut app = VoiceApp::new(toggle_config());
    app.state = RecordingState::Recording;
    handle_toggle(&mut app);
    assert_eq!(app.state, RecordingState::Transcribing);
}

#[test]
fn test_handle_toggle_approval_pending_to_recording() {
    let mut app = VoiceApp::new(toggle_config());
    app.state = RecordingState::ApprovalPending;
    handle_toggle(&mut app);
    assert_eq!(app.state, RecordingState::Recording);
}

#[test]
fn test_handle_toggle_ignores_transcribing_state() {
    let mut app = VoiceApp::new(toggle_config());
    app.state = RecordingState::Transcribing;
    handle_toggle(&mut app);
    assert_eq!(app.state, RecordingState::Transcribing);
}

// ── push-to-talk start / stop ───────────────────────────────────────────

#[test]
fn test_handle_push_to_talk_start_ignores_transcribing() {
    let mut app = VoiceApp::new(test_config());
    app.state = RecordingState::Transcribing;
    assert!(!may_start_recording_now(&app));
    assert_eq!(app.handle_input(InputEvent::KeyDown), InputAction::Nothing);
    // Should remain Transcribing — PTT start is only allowed from Idle or ApprovalPending.
    assert_eq!(app.state, RecordingState::Transcribing);
}

#[test]
fn test_handle_push_to_talk_start_ignores_recording() {
    let mut app = VoiceApp::new(test_config());
    app.state = RecordingState::Recording;
    assert_eq!(app.handle_input(InputEvent::KeyDown), InputAction::Nothing);
    // Should remain Recording — PTT start is only allowed from Idle or ApprovalPending.
    assert_eq!(app.state, RecordingState::Recording);
}

#[test]
fn test_handle_push_to_talk_stop_ignores_idle() {
    let mut app = VoiceApp::new(test_config());
    // Calling stop when not recording should be a no-op.
    assert_eq!(app.handle_input(InputEvent::KeyUp), InputAction::Nothing);
    assert_eq!(app.state, RecordingState::Idle);
}

#[test]
fn test_handle_push_to_talk_stop_no_recorder_returns_to_idle() {
    let mut app = VoiceApp::new(test_config());
    // Manually set Recording state without a recorder.
    app.state = RecordingState::Recording;
    assert_eq!(app.handle_input(InputEvent::KeyUp), InputAction::StopRecording);
    // No recorder: the caller returns to rest.
    return_to_idle_or_approval(&mut app);
    assert_eq!(app.state, RecordingState::Idle);
}

#[test]
fn test_short_recording_is_discarded() {
    let mut app = VoiceApp::new(test_config());
    app.state = RecordingState::Recording;
    assert!(!recording_stopped(&mut app, 499, 20_000));
    assert_eq!(app.state, RecordingState::Idle);
    app.state = RecordingState::Recording;
    assert!(!recording_stopped(&mut app, 2_000, 7_999));
    assert_eq!(app.state, RecordingState::Idle);
    app.state = RecordingState::Recording;
    assert!(recording_stopped(&mut app, 500, 8_000));
    assert_eq!(app.state, RecordingState::Transcribing);
}

#[test]
fn test_too_short_message() {
    assert_eq!(
        too_short_message("0.32", 5120),
        "[voice] Recording too short (0.32s, 5120 samples) — discarded."
    );
}

// ── return_to_idle_or_approval ───────────────────────────────────────────

#[test]
fn test_return_to_idle_when_no_pending() {
    let mut app = VoiceApp::new(toggle_config());
    app.state = RecordingState::Injecting;
    return_to_idle_or_approval(&mut app);
    assert_eq!(app.state, RecordingState::Idle);
}

#[test]
fn test_return_to_approval_pending_when_queue_has_items() {
    let mut app = VoiceApp::new(toggle_config());
    app.state = RecordingState::Injecting;

    // Add a pending approval.
    app.approval_queue.add_permission(PermissionRequest {
        id: "p1".to_string(),
        permission: "bash".to_string(),
        metadata: Json::Null,
    });

    return_to_idle_or_approval(&mut app);
    assert_eq!(app.state, RecordingState::ApprovalPending);
}

// ── transcripts ─────────────────────────────────────────────────────────

#[test]
fn test_transcript_is_injected_when_nothing_pending() {
    let mut app = VoiceApp::new(toggle_config());
    app.state = RecordingState::Transcribing;
    let step = transcription_finished(&mut app, "  hello world \n");
    assert_eq!(step, TranscriptStep::Inject("hello world".to_string()));
    assert_eq!(app.state, RecordingState::Injecting);
    assert_eq!(app.last_transcript.as_deref(), Some("hello world"));
}

#[test]
fn test_empty_transcript_returns_to_rest() {
    let mut app = VoiceApp::new(toggle_config());
    app.state = RecordingState::Transcribing;
    assert_eq!(transcription_finished(&mut app, "   "), TranscriptStep::Done);
    assert_eq!(app.state, RecordingState::Idle);
    assert!(app.last_transcript.is_none());
}

#[test]
fn test_debug_transcript_is_only_shown() {
    let mut app = VoiceApp::new(AppConfig { debug: true, ..toggle_config() });
    app.state = RecordingState::Transcribing;
    assert_eq!(transcription_finished(&mut app, " hi "), TranscriptStep::Done);
    assert_eq!(app.state, RecordingState::Idle);
    assert_eq!(app.last_transcript.as_deref(), Some("hi"));
}

#[test]
fn test_transcript_answering_approval_becomes_reply() {
    let mut app = VoiceApp::new(toggle_config());
    app.approval_queue.add_permission(make_permission("p1"));
    app.state = RecordingState::Transcribing;
    let step = transcription_finished(&mut app, "Yes.");
    assert_eq!(
        step,
        TranscriptStep::Reply(ApprovalReply::Permission {
            id: "p1".to_string(),
            reply: PermissionReply::Once,
            message: None,
        })
    );
    assert_eq!(app.last_transcript.as_deref(), Some("Yes."));
}

// ── inject_text ─────────────────────────────────────────────────────────────

#[test]
fn test_inject_text_sends_message_to_active_session() {
    let mut app = VoiceApp::new(toggle_config());
    app.active_session = Some("sess_1".to_string());
    begin_injection(&mut app);
    assert_eq!(app.state, RecordingState::Injecting);
    let req = send_message_request(app.active_session.as_deref().unwrap(), "hello world");
    assert_eq!(req.path, "/session/sess_1/prompt_async");
    // the server accepted the prompt
    return_to_idle_or_approval(&mut app);
    assert_eq!(app.state, RecordingState::Idle);
}

#[test]
fn test_inject_text_creates_session_when_none() {
    let mut app = VoiceApp::new(toggle_config());
    assert!(app.active_session.is_none());
    begin_injection(&mut app);
    assert_eq!(create_session_request().path, "/session");
    let reply = Json::Object(vec![
        ("id".to_string(), Json::Str("new_sess".to_string())),
        ("title".to_string(), Json::Str("New".to_string())),
    ]);
    app.active_session = Some(session_info_from_json(&reply).unwrap().id);
    let req = send_message_request(app.active_session.as_deref().unwrap(), "test text");
    assert_eq!(req.path, "/session/new_sess/prompt_async");
    return_to_idle_or_approval(&mut app);
    assert_eq!(app.state, RecordingState::Idle);
    assert_eq!(app.active_session, Some("new_sess".to_string()));
}

#[test]
fn test_inject_text_handles_send_message_failure() {
    let mut app = VoiceApp::new(toggle_config());
    app.active_session = Some("sess_1".to_string());
    begin_injection(&mut app);
    handle_failure(&mut app, Failure::SendMessage, "500 Internal Server Error");
    assert_eq!(app.state, RecordingState::Error);
    assert_eq!(
        app.current_error.as_deref(),
        Some("Failed to send message: 500 Internal Server Error")
    );
}

// ── try_handle_approval ──────────────────────────────────────────────────

#[test]
fn test_try_handle_approval_empty_queue_returns_false() {
    let app = VoiceApp::new(toggle_config());
    // Queue is empty — any text is not a reply.
    assert!(approval_reply_for(&app, "yes").is_none());
}

#[test]
fn test_try_handle_approval_permission_no_match_returns_false() {
    let mut app = VoiceApp::new(toggle_config());
    app.approval_queue.add_permission(make_permission("p1"));

    // "hello world" does not match any permission command.
    assert!(approval_reply_for(&app, "hello world").is_none());
    // Item must still be in the queue.
    assert!(app.approval_queue.has_pending());
}

#[test]
fn test_try_handle_approval_question_no_match_returns_false() {
    let mut app = VoiceApp::new(toggle_config());
    app.approval_queue.add_question(pick_one("q1", &["Alpha", "Beta"]));

    // "gamma" is not an option and custom is disabled.
    assert!(approval_reply_for(&app, "gamma").is_none());
    assert!(app.approval_queue.has_pending());
}

#[test]
fn test_try_handle_approval_permission_match_removes_item_and_returns_true() {
    let mut app = VoiceApp::new(toggle_config());
    app.approval_queue.add_permission(make_permission("p1"));
    app.state = RecordingState::ApprovalPending;

    // "yes" matches the Once permission pattern.
    let reply = approval_reply_for(&app, "yes").expect("matched permission");
    let req = match &reply {
        ApprovalReply::Permission { id, reply, message } => {
            reply_permission_request(id, *reply, message.as_deref())
        }
        other => panic!("unexpected {:?}", other),
    };
    assert_eq!(req.path, "/permission/p1/reply");
    assert_eq!(
        req.body,
        Json::Object(vec![("reply".to_string(), Json::Str("once".to_string()))])
    );
    approval_reply_sent(&mut app, &reply, None);
    assert!(!app.approval_queue.has_pending(), "item should be removed from queue after match");
    assert_eq!(app.state, RecordingState::Idle);
}

#[test]
fn test_try_handle_approval_question_match_removes_item_and_returns_true() {
    let mut app = VoiceApp::new(toggle_config());
    app.approval_queue.add_question(pick_one("q1", &["Alpha", "Beta"]));
    app.state = RecordingState::ApprovalPending;

    // "alpha" matches the first option exactly.
    let reply = approval_reply_for(&app, "alpha").expect("matched answer");
    match &reply {
        ApprovalReply::Answer { id, answers } => {
            assert_eq!(id, "q1");
            assert_eq!(answers, &vec![vec!["Alpha".to_string()]]);
            assert_eq!(reply_question_request(id, answers).path, "/question/q1/reply");
        }
        other => panic!("unexpected {:?}", other),
    }
    approval_reply_sent(&mut app, &reply, None);
    assert!(!app.approval_queue.has_pending(), "item should be removed from queue after match");
}

#[test]
fn test_try_handle_approval_question_reject_removes_item_and_returns_true() {
    let mut app = VoiceApp::new(toggle_config());
    app.approval_queue.add_question(pick_one("q2", &["Yes"]));
    app.state = RecordingState::ApprovalPending;

    // "skip" is a question rejection phrase.
    let reply = approval_reply_for(&app, "skip").expect("rejection");
    assert_eq!(reply, ApprovalReply::Reject { id: "q2".to_string() });
    assert_eq!(reject_question_request("q2").path, "/question/q2/reject");
    approval_reply_sent(&mut app, &reply, None);
    assert!(!app.approval_queue.has_pending(), "item should be removed from queue after rejection");
}

#[test]
fn test_failed_reply_still_removes_item_and_shows_error() {
    let mut app = VoiceApp::new(toggle_config());
    app.approval_queue.add_permission(make_permission("p1"));
    app.approval_queue.add_permission(make_permission("p2"));
    app.state = RecordingState::ApprovalPending;
    let reply = approval_reply_for(&app, "reject").expect("reply");
    approval_reply_sent(&mut app, &reply, Some("connection refused"));
    assert_eq!(app.approval_queue.len(), 1);
    assert_eq!(app.approval_queue.peek().unwrap().id(), "p2");
    assert_eq!(app.state, RecordingState::Error);
    assert_eq!(
        app.current_error.as_deref(),
        Some("Failed to reply to permission: connection refused")
    );
}

#[test]
fn test_failure_messages() {
    assert_eq!(failure_text(Failure::OpenDevice, "no mic"), "Failed to open audio device: no mic");
    assert_eq!(
        failure_text(Failure::ModelNotLoaded, "ignored"),
        "Whisper model not loaded. Run 'opencode-voice setup'."
    );
    assert_eq!(failure_text(Failure::Transcription, "x"), "Transcription failed: x");
}

// ── the event stream ─────────────────────────────────────────────────────

#[test]
fn test_sse_events_drive_the_queue() {
    let mut app = VoiceApp::new(test_config());
    let out = handle_sse_event(&mut app, SseEvent::PermissionAsked(make_permission("p1")));
    assert!(out.render && out.log.is_none());
    assert_eq!(app.state, RecordingState::ApprovalPending);
    let out = handle_sse_event(
        &mut app,
        SseEvent::PermissionReplied {
            session_id: "s".to_string(),
            request_id: "p1".to_string(),
            reply: "once".to_string(),
        },
    );
    assert!(out.render);
    assert_eq!(app.state, RecordingState::Idle);
    let out = handle_sse_event(&mut app, SseEvent::Disconnected(Some("eof".to_string())));
    assert_eq!(out.log.as_deref(), Some("[voice] SSE disconnected: eof"));
    let out = handle_sse_event(&mut app, SseEvent::SessionCreated { session_id: "s".to_string() });
    assert!(!out.render);
}

#[test]
fn test_sse_session_status_logs_when_clearing() {
    let mut app = VoiceApp::new(test_config());
    handle_sse_question_asked(&mut app, make_question("q1"));
    let out = handle_sse_event(
        &mut app,
        SseEvent::SessionStatus { session_id: "s".to_string(), busy: true },
    );
    assert_eq!(
        out.log.as_deref(),
        Some("[voice] Session became busy — clearing pending approvals (answered externally).")
    );
    assert!(out.render);
    let out = handle_sse_event(
        &mut app,
        SseEvent::SessionStatus { session_id: "s".to_string(), busy: false },
    );
    assert!(out.log.is_none() && !out.render);
}

#[test]
fn test_display_meta_reflects_session() {
    let mut app = VoiceApp::new(AppConfig { use_global_hotkey: true, ..test_config() });
    handle_sse_permission_asked(&mut app, make_permission("p1"));
    handle_sse_question_asked(&mut app, make_question("q1"));
    let meta = app.display_meta("space", Some("1.2"), Some(3));
    assert_eq!(meta.approval_count, Some(2));
    assert_eq!(meta.approval.unwrap().id(), "p1");
    assert_eq!(meta.global_hotkey_name, Some("right_option"));
    assert_eq!(meta.toggle_key, Some("space"));
    assert!(meta.level.is_none(), "no reading yet");
    app.level_received();
    assert_eq!(app.display_meta("space", None, Some(3)).level, Some(3));
}

#[test]
fn test_level_render_throttle() {
    assert!(level_render_due(None));
    assert!(!level_render_due(Some(99)));
    assert!(level_render_due(Some(100)));
}
