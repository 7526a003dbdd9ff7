#![allow(unused_imports)]
use opencode_voice::transcribe::engine::model_not_found_message;
use opencode_voice::transcribe::engine::is_model_valid;
use opencode_voice::transcribe::engine::strip_hallucinations;
use opencode_voice::transcribe::engine::strip_timestamps;
use opencode_voice::transcribe::engine::transcript_from_segments;

#[test]
fn test_is_model_valid_nonexistent() {
    // "/nonexistent/path/model.bin" has no length: there is no such file.
    assert!(!is_model_valid(None));
}

#[test]
fn test_is_model_valid_small_file() {
    // a four-byte file
    assert!(!is_model_valid(Some(4)));
}

#[test]
fn test_is_model_valid_boundary() {
    assert!(!is_model_valid(Some(1_000_000)));
    assert!(is_model_valid(Some(1_000_001)));
}

#[test]
fn test_strip_timestamps_with_arrow() {
    let input = "[00:00:00.000 --> 00:00:05.000]  Hello world";
    let result = strip_timestamps(input);
    assert!(!result.contains("-->"));
    assert!(result.contains("Hello world"));
}

#[test]
fn test_strip_timestamps_no_timestamps() {
    let input = "Hello world";
    assert_eq!(strip_timestamps(input), "Hello world");
}

#[test]
fn test_strip_timestamps_preserves_non_timestamp_brackets() {
    let input = "Hello [world]";
    let result = strip_timestamps(input);
    assert!(result.contains("[world]")); // Non-timestamp bracket preserved
}

#[test]
fn test_strip_hallucinations_blank_audio() {
    assert_eq!(strip_hallucinations("[BLANK_AUDIO]").trim(), "");
}

#[test]
fn test_strip_hallucinations_case_insensitive() {
    assert_eq!(strip_hallucinations("[blank_audio]").trim(), "");
    assert_eq!(strip_hallucinations("[Blank_Audio]").trim(), "");
}

#[test]
fn test_strip_hallucinations_preserves_real_text() {
    assert_eq!(strip_hallucinations("hello world"), "hello world");
}

#[test]
fn test_strip_hallucinations_mixed() {
    let result = strip_hallucinations("[BLANK_AUDIO] hello [BLANK_AUDIO]");
    assert_eq!(result.trim(), "hello");
}

#[test]
fn test_strip_timestamps_removes_every_timestamp() {
    let input = "[00:00:00.000 --> 00:00:02.000] one [00:00:02.000 --> 00:00:04.000] two";
    let result = strip_timestamps(input);
    assert!(!result.contains("-->"));
    assert!(result.contains("one"));
    assert!(result.contains("two"));
}

#[test]
fn test_strip_hallucinations_all_phrases() {
    assert_eq!(strip_hallucinations("(blank audio) ok").trim(), "ok");
    assert_eq!(strip_hallucinations("hi [silence]").trim(), "hi");
}

#[test]
fn test_transcript_from_segments_joins_and_trims() {
    let segs = vec!["  Hello".to_string(), " world ".to_string()];
    let r = transcript_from_segments(&segs);
    assert_eq!(r.text, "Hello world");
}

#[test]
fn test_model_not_found_message() {
    assert_eq!(
        model_not_found_message("/m.bin"),
        "Whisper model not found at /m.bin. Run 'opencode-voice setup' to download it."
    );
}

#[test]
fn test_strip_timestamps_after_ordinary_bracket() {
    assert_eq!(strip_timestamps("[a] [0 --> 1] x"), "[a]  x");
    assert_eq!(strip_timestamps("[00:00:00.000 --> 00:00:05.000]  Hello world"), "  Hello world");
    assert_eq!(strip_timestamps("a [b] c [d"), "a [b] c [d");
}
