#![allow(unused_imports)]
use opencode_voice::approval::types::PendingApproval;
use opencode_voice::approval::types::PermissionRequest;
use opencode_voice::approval::types::QuestionInfo;
use opencode_voice::approval::types::QuestionOption;
use opencode_voice::approval::types::QuestionRequest;
use opencode_voice::json::Json;
use opencode_voice::state::RecordingState;
use opencode_voice::ui::display::format_permission_detail;
use opencode_voice::ui::display::level_bar;
use opencode_voice::ui::display::spinner_frame;
use opencode_voice::ui::display::welcome_lines;
use opencode_voice::ui::display::Display;
use opencode_voice::ui::display::DisplayMeta;

fn obj(entries: &[(&str, &str)]) -> Json {
    Json::Object(
        entries
            .iter()
            .map(|(k, v)| (k.to_string(), Json::Str(v.to_string())))
            .collect(),
    )
}


#[test]
fn test_render_level_empty() {
    assert_eq!(level_bar(0, 8), "[        ]");
}

#[test]
fn test_render_level_full() {
    assert_eq!(level_bar(8, 8), "[||||||||]");
}

#[test]
fn test_render_level_half() {
    // 0.5 * 8 = 4.0 → 4 filled, 4 empty
    assert_eq!(level_bar(4, 8), "[||||    ]");
}

#[test]
fn test_render_level_clamps_above_one() {
    // a reading above the meter's width fills it
    let display = Display::new();
    let meta = DisplayMeta { level: Some(16), ..Default::default() };
    let lines = display.render_state(RecordingState::Recording, &meta);
    assert!(lines[0].contains("[||||||||]"));
}

#[test]
fn test_render_level_width_zero() {
    assert_eq!(level_bar(0, 0), "[]");
}

#[test]
fn test_format_permission_detail_bash() {
    let meta = obj(&[("command", "ls -la")]);
    assert_eq!(format_permission_detail("bash", &meta), "`ls -la`");
}

#[test]
fn test_format_permission_detail_edit() {
    let meta = obj(&[("path", "/tmp/foo.txt")]);
    assert_eq!(format_permission_detail("edit", &meta), "/tmp/foo.txt");
}

#[test]
fn test_format_permission_detail_write() {
    let meta = obj(&[("path", "/tmp/bar.txt")]);
    assert_eq!(format_permission_detail("write", &meta), "/tmp/bar.txt");
}

#[test]
fn test_format_permission_detail_read() {
    let meta = obj(&[("path", "/etc/hosts")]);
    assert_eq!(format_permission_detail("read", &meta), "/etc/hosts");
}

#[test]
fn test_format_permission_detail_unknown_fallback() {
    let meta = obj(&[("target", "some-value")]);
    assert_eq!(format_permission_detail("unknown", &meta), "some-value");
}

#[test]
fn test_format_permission_detail_empty_metadata() {
    let meta = Json::Object(vec![]);
    assert_eq!(format_permission_detail("bash", &meta), "");
}

#[test]
fn test_render_state_idle_no_transcript() {
    let display = Display::new();
    let meta = DisplayMeta {
        toggle_key: Some("space"),
        ..Default::default()
    };
    let lines = display.render_state(RecordingState::Idle, &meta);
    assert_eq!(lines.len(), 1);
    assert!(lines[0].contains("Ready"));
    assert!(lines[0].contains("[space]"));
    assert!(lines[0].contains("Press to speak"));
}

#[test]
fn test_render_state_idle_with_transcript() {
    let display = Display::new();
    let meta = DisplayMeta {
        transcript: Some("hello world"),
        ..Default::default()
    };
    let lines = display.render_state(RecordingState::Idle, &meta);
    assert_eq!(lines.len(), 2);
    assert!(lines[0].contains("Ready"));
    assert!(lines[1].contains("Sent: hello world"));
}

#[test]
fn test_render_state_idle_transcript_truncated() {
    let display = Display::new();
    let long_text = "a".repeat(80);
    let meta = DisplayMeta {
        transcript: Some(&long_text),
        ..Default::default()
    };
    let lines = display.render_state(RecordingState::Idle, &meta);
    assert_eq!(lines.len(), 2);
    assert!(lines[1].contains("..."));
}

#[test]
fn test_render_state_recording() {
    let display = Display::new();
    let meta = DisplayMeta {
        duration: Some("2.5"),
        // a reading of 0.5 fills four of the eight cells
        level: Some(4),
        ..Default::default()
    };
    let lines = display.render_state(RecordingState::Recording, &meta);
    assert_eq!(lines.len(), 1);
    assert!(lines[0].contains("REC"));
    assert!(lines[0].contains("2.5s"));
    assert!(lines[0].contains("[||||    ]"));
}

#[test]
fn test_render_state_recording_no_level() {
    let display = Display::new();
    let meta = DisplayMeta {
        duration: Some("1.0"),
        ..Default::default()
    };
    let lines = display.render_state(RecordingState::Recording, &meta);
    assert_eq!(lines.len(), 1);
    assert!(lines[0].contains("REC"));
    assert!(lines[0].contains("1.0s"));
}

#[test]
fn test_render_state_transcribing() {
    let display = Display::new();
    let meta = DisplayMeta::default();
    let lines = display.render_state(RecordingState::Transcribing, &meta);
    assert_eq!(lines.len(), 1);
    assert!(lines[0].contains("Transcribing"));
}

#[test]
fn test_render_state_injecting() {
    let display = Display::new();
    let meta = DisplayMeta::default();
    let lines = display.render_state(RecordingState::Injecting, &meta);
    assert_eq!(lines.len(), 1);
    assert!(lines[0].contains("Sending to OpenCode"));
}

#[test]
fn test_render_state_error() {
    let display = Display::new();
    let meta = DisplayMeta {
        error: Some("connection failed"),
        ..Default::default()
    };
    let lines = display.render_state(RecordingState::Error, &meta);
    assert_eq!(lines.len(), 2);
    assert!(lines[0].contains("Error: connection failed"));
    assert!(lines[1].contains("Recovering"));
}

#[test]
fn test_render_state_error_default_message() {
    let display = Display::new();
    let meta = DisplayMeta::default();
    let lines = display.render_state(RecordingState::Error, &meta);
    assert_eq!(lines.len(), 2);
    assert!(lines[0].contains("An error occurred"));
}

#[test]
fn test_render_state_approval_pending_no_approval() {
    let display = Display::new();
    let meta = DisplayMeta {
        approval_count: Some(1),
        ..Default::default()
    };
    let lines = display.render_state(RecordingState::ApprovalPending, &meta);
    assert_eq!(lines.len(), 1);
    assert!(lines[0].contains("Approval needed"));
}

#[test]
fn test_render_state_approval_pending_permission() {
    let display = Display::new();
    let req = PermissionRequest {
        id: "req-1".to_string(),
        permission: "bash".to_string(),
        metadata: obj(&[("command", "rm -rf /tmp/test")]),
    };
    let approval = PendingApproval::Permission(req);
    let meta = DisplayMeta {
        approval: Some(&approval),
        approval_count: Some(1),
        ..Default::default()
    };
    let lines = display.render_state(RecordingState::ApprovalPending, &meta);
    assert_eq!(lines.len(), 2);
    assert!(lines[0].contains("Approval needed"));
    assert!(lines[0].contains("bash"));
    assert!(lines[0].contains("`rm -rf /tmp/test`"));
    assert!(lines[1].contains("allow/always/reject"));
}

#[test]
fn test_render_state_approval_pending_multiple_count() {
    let display = Display::new();
    let req = PermissionRequest {
        id: "req-1".to_string(),
        permission: "edit".to_string(),
        metadata: obj(&[("path", "/tmp/file.txt")]),
    };
    let approval = PendingApproval::Permission(req);
    let meta = DisplayMeta {
        approval: Some(&approval),
        approval_count: Some(3),
        ..Default::default()
    };
    let lines = display.render_state(RecordingState::ApprovalPending, &meta);
    assert!(lines[0].contains("+2 more"));
}

#[test]
fn test_render_state_approval_pending_question() {
    let display = Display::new();
    let req = QuestionRequest {
        id: "q-1".to_string(),
        questions: vec![QuestionInfo {
            question: "Which approach?".to_string(),
            options: vec![
                QuestionOption {
                    label: "Option A".to_string(),
                },
                QuestionOption {
                    label: "Option B".to_string(),
                },
            ],
            custom: true,
        }],
    };
    let approval = PendingApproval::Question(req);
    let meta = DisplayMeta {
        approval: Some(&approval),
        approval_count: Some(1),
        ..Default::default()
    };
    let lines = display.render_state(RecordingState::ApprovalPending, &meta);
    assert!(lines[0].contains("Which approach?"));
    assert!(lines[1].contains("1. Option A"));
    assert!(lines[2].contains("2. Option B"));
    assert!(lines
        .last()
        .unwrap()
        .contains("Say the option name or number"));
}

#[test]
fn test_render_state_approval_pending_question_empty() {
    let display = Display::new();
    let req = QuestionRequest {
        id: "q-1".to_string(),
        questions: vec![],
    };
    let approval = PendingApproval::Question(req);
    let meta = DisplayMeta {
        approval: Some(&approval),
        approval_count: Some(1),
        ..Default::default()
    };
    let lines = display.render_state(RecordingState::ApprovalPending, &meta);
    assert_eq!(lines.len(), 1);
    assert!(lines[0].contains("Question pending"));
}

#[test]
fn test_display_new_initial_state() {
    let display = Display::new();
    assert_eq!(display.line_count, 0);
}

#[test]
fn test_display_default() {
    let display = Display::default();
    assert_eq!(display.line_count, 0);
}

#[test]
fn test_all_states_produce_output() {
    let display = Display::new();
    let meta = DisplayMeta::default();

    let states = [
        RecordingState::Idle,
        RecordingState::Recording,
        RecordingState::Transcribing,
        RecordingState::Injecting,
        RecordingState::ApprovalPending,
        RecordingState::Error,
    ];

    for state in states {
        let lines = display.render_state(state, &meta);
        assert!(!lines.is_empty(), "State {:?} produced no output", state);
    }
}

#[test]
fn test_all_states_produce_distinct_output() {
    let display = Display::new();
    let meta = DisplayMeta::default();

    let outputs: Vec<String> = [
        RecordingState::Idle,
        RecordingState::Recording,
        RecordingState::Transcribing,
        RecordingState::Injecting,
        RecordingState::ApprovalPending,
        RecordingState::Error,
    ]
    .iter()
    .map(|&s| display.render_state(s, &meta).join("|"))
    .collect();

    // Each state should produce unique output
    for i in 0..outputs.len() {
        for j in (i + 1)..outputs.len() {
            assert_ne!(
                outputs[i], outputs[j],
                "States {} and {} produce identical output",
                i, j
            );
        }
    }
}

#[test]
fn test_format_permission_detail_bash_truncates_to_sixty() {
    let long = "x".repeat(70);
    let meta = obj(&[("command", long.as_str())]);
    assert_eq!(format_permission_detail("bash", &meta), format!("`{}`", "x".repeat(60)));
}

#[test]
fn test_format_permission_detail_path_not_truncated() {
    let long = "p".repeat(70);
    let meta = obj(&[("path", long.as_str())]);
    assert_eq!(format_permission_detail("read", &meta), long);
}

#[test]
fn test_format_permission_detail_bash_without_command_falls_back() {
    let meta = obj(&[("description", "list files")]);
    assert_eq!(format_permission_detail("bash", &meta), "list files");
}

#[test]
fn test_format_permission_detail_skips_non_strings() {
    let meta = Json::Object(vec![
        ("count".to_string(), Json::Number("3".to_string())),
        ("name".to_string(), Json::Str("n".to_string())),
    ]);
    assert_eq!(format_permission_detail("webfetch", &meta), "n");
    assert_eq!(format_permission_detail("webfetch", &Json::Null), "");
}

#[test]
fn test_render_state_exact_lines() {
    let display = Display::new();
    let meta = DisplayMeta { toggle_key: Some("space"), ..Default::default() };
    assert_eq!(
        display.render_state(RecordingState::Idle, &meta),
        vec!["\x1b[32m● Ready [space] — Press to speak\x1b[0m".to_string()]
    );
    let meta = DisplayMeta { duration: Some("0.3"), level: Some(2), ..Default::default() };
    assert_eq!(
        display.render_state(RecordingState::Recording, &meta),
        vec!["\x1b[31m● REC [||      ] 0.3s\x1b[0m".to_string()]
    );
    let meta = DisplayMeta::default();
    assert_eq!(
        display.render_state(RecordingState::Recording, &meta),
        vec!["\x1b[31m● REC 0.0s\x1b[0m".to_string()]
    );
}

#[test]
fn test_render_state_hotkey_name_wins_over_toggle_key() {
    let display = Display::new();
    let meta = DisplayMeta {
        toggle_key: Some("space"),
        global_hotkey_name: Some("right_option"),
        ..Default::default()
    };
    let lines = display.render_state(RecordingState::Idle, &meta);
    assert!(lines[0].contains("[right_option]"));
    assert!(!lines[0].contains("[space]"));
}

#[test]
fn test_render_state_ellipsis_counts_bytes() {
    let display = Display::new();
    // 40 two-byte characters: 80 bytes, fewer than 60 characters
    let text = "é".repeat(40);
    let meta = DisplayMeta { transcript: Some(&text), ..Default::default() };
    let lines = display.render_state(RecordingState::Idle, &meta);
    assert_eq!(lines[1], format!("  Sent: {}...", text));
}

#[test]
fn test_render_state_question_shows_five_options() {
    let display = Display::new();
    let req = QuestionRequest {
        id: "q".to_string(),
        questions: vec![QuestionInfo {
            question: "Pick".to_string(),
            options: (1..=7)
                .map(|i| QuestionOption { label: format!("o{}", i) })
                .collect(),
            custom: true,
        }],
    };
    let approval = PendingApproval::Question(req);
    let meta = DisplayMeta { approval: Some(&approval), approval_count: Some(2), ..Default::default() };
    let lines = display.render_state(RecordingState::ApprovalPending, &meta);
    assert_eq!(lines.len(), 7);
    assert_eq!(lines[0], "\x1b[35m? Pick (+1 more)\x1b[0m");
    assert_eq!(lines[5], "  5. o5");
}

#[test]
fn test_spinner_frames_cycle() {
    assert_eq!(spinner_frame(0), "⠋");
    assert_eq!(spinner_frame(10), "⠋");
    assert_eq!(spinner_frame(9), "⠏");
}

#[test]
fn test_display_line_count_bookkeeping() {
    let mut d = Display::new();
    assert!(!d.has_drawn());
    assert_eq!(d.lines_above(), 0);
    d.drew(3);
    assert_eq!(d.line_count, 3);
    assert!(d.has_drawn());
    assert_eq!(d.lines_above(), 2);
    d.drew(1);
    assert_eq!(d.lines_above(), 0);
    d.cleared();
    assert_eq!(d.line_count, 0);
}

#[test]
fn test_welcome_lines() {
    let lines = welcome_lines("space", true, "right_option", true);
    assert_eq!(lines.len(), 5);
    assert_eq!(lines[1], "  Hold [right_option] to record (global hotkey)");
    assert_eq!(lines[2], "  Press [space] to toggle recording (terminal)");
    assert_eq!(lines[4], "");
    let lines = welcome_lines(" ", false, "right_option", true);
    assert_eq!(lines.len(), 4);
    assert_eq!(lines[1], "  Press [ ] to toggle recording");
    assert_eq!(lines[2], "  Press [q] or Ctrl+C to quit");
}
