#![allow(unused_imports)]
use opencode_voice::config::ModelSize;
use opencode_voice::transcribe::setup::get_model_path;
use opencode_voice::transcribe::setup::get_model_tmp_path;
use opencode_voice::transcribe::setup::get_model_url;
use opencode_voice::transcribe::setup::invalid_download_message;
use opencode_voice::transcribe::setup::is_whisper_ready;
use opencode_voice::transcribe::setup::join_path;

#[test]
fn test_get_model_path() {
    let data_dir = "/tmp/opencode-voice";
    let path = get_model_path(data_dir, &ModelSize::TinyEn);
    assert_eq!(path, "/tmp/opencode-voice/models/ggml-tiny.en.bin");

    let path_base = get_model_path(data_dir, &ModelSize::BaseEn);
    assert_eq!(path_base, "/tmp/opencode-voice/models/ggml-base.en.bin");

    let path_small = get_model_path(data_dir, &ModelSize::SmallEn);
    assert_eq!(path_small, "/tmp/opencode-voice/models/ggml-small.en.bin");
}

#[test]
fn test_is_whisper_ready_missing_file() {
    // The model file does not exist.
    assert!(!is_whisper_ready(None));
}

#[test]
fn test_is_whisper_ready_small_file() {
    // "this is way too small" is 21 bytes long.
    assert!(!is_whisper_ready(Some(21)));
}

#[test]
fn test_is_whisper_ready_valid_file() {
    // 1MB + 1 byte is accepted.
    assert!(is_whisper_ready(Some(1_000_001)));
}

#[test]
fn test_get_model_path_contains_model_size() {
    let data_dir = "/data";
    for (size, expected_fragment) in [
        (ModelSize::TinyEn, "tiny.en"),
        (ModelSize::BaseEn, "base.en"),
        (ModelSize::SmallEn, "small.en"),
    ] {
        let path = get_model_path(data_dir, &size);
        let path_str = path.as_str();
        assert!(
            path_str.contains(expected_fragment),
            "Expected path to contain '{}', got '{}'",
            expected_fragment,
            path_str
        );
        assert!(
            path_str.ends_with(".bin"),
            "Expected path to end with '.bin', got '{}'",
            path_str
        );
    }
}

#[test]
fn test_get_model_url() {
    assert_eq!(
        get_model_url(&ModelSize::BaseEn),
        "https://huggingface.co/ggerganov/whisper.cpp/resolve/main/ggml-base.en.bin"
    );
    assert_eq!(
        get_model_url(&ModelSize::Tiny),
        "https://huggingface.co/ggerganov/whisper.cpp/resolve/main/ggml-tiny.bin"
    );
}

#[test]
fn test_get_model_tmp_path() {
    assert_eq!(
        get_model_tmp_path("/d", &ModelSize::SmallEn),
        "/d/models/ggml-small.en.bin.tmp"
    );
}

#[test]
fn test_join_path_like_path_join() {
    assert_eq!(join_path("/a", "b"), "/a/b");
    assert_eq!(join_path("/a/", "b"), "/a/b");
    assert_eq!(join_path("", "b"), "b");
    assert_eq!(join_path("/a", "/b"), "/b");
}

#[test]
fn test_get_model_path_trailing_slash_data_dir() {
    assert_eq!(get_model_path("/d/", &ModelSize::Base), "/d/models/ggml-base.bin");
}

#[test]
fn test_invalid_download_message() {
    assert_eq!(
        invalid_download_message("/x.bin"),
        "Downloaded model file is invalid or too small (< 1MB): /x.bin"
    );
}
