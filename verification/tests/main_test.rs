#![allow(unused_imports)]
use opencode_voice::cli::answer_is_yes;
use opencode_voice::cli::key_listing_line;
use opencode_voice::cli::model_choice;
use opencode_voice::config::ModelSize;

/// Verify that `format_key_name` produces the expected display string for
/// a few representative key names.
#[test]
fn test_format_key_name_via_main() {
    assert_eq!(
        opencode_voice::input::hotkey::format_key_name("right_option"),
        "Right Option"
    );
    assert_eq!(
        opencode_voice::input::hotkey::format_key_name("space"),
        "Space"
    );
    assert_eq!(
        opencode_voice::input::hotkey::format_key_name("f1"),
        "F1"
    );
}

/// Verify that `list_key_names` returns a non-empty sorted list.
#[test]
fn test_list_key_names_non_empty() {
    let names = opencode_voice::input::hotkey::list_key_names();
    assert!(!names.is_empty());
    // Sorted
    assert!(names.windows(2).all(|w| w[0] <= w[1]));
}

/// Verify that `ModelSize` variants display correctly — used in the setup
/// prompt output.
#[test]
fn test_model_size_display_in_main() {
    assert_eq!(ModelSize::TinyEn.to_string(), "tiny.en");
    assert_eq!(ModelSize::BaseEn.to_string(), "base.en");
    assert_eq!(ModelSize::SmallEn.to_string(), "small.en");
}

#[test]
fn test_model_choice_menu() {
    assert!(matches!(model_choice("1"), Some(ModelSize::TinyEn)));
    assert!(matches!(model_choice("2"), Some(ModelSize::BaseEn)));
    assert!(matches!(model_choice(""), Some(ModelSize::BaseEn)));
    assert!(matches!(model_choice("3"), Some(ModelSize::SmallEn)));
    assert!(model_choice("4").is_none());
    assert!(model_choice("12").is_none());
}

#[test]
fn test_answer_is_yes() {
    assert!(answer_is_yes("y"));
    assert!(answer_is_yes("Y"));
    assert!(answer_is_yes("yes"));
    assert!(answer_is_yes("YeS"));
    assert!(!answer_is_yes(""));
    assert!(!answer_is_yes("no"));
    assert!(!answer_is_yes("yess"));
}

#[test]
fn test_key_listing_line_pads_to_twenty() {
    assert_eq!(key_listing_line("f1", "F1"), format!("{:<20} {}", "f1", "F1"));
    let long = "a_very_long_key_name_here";
    assert_eq!(key_listing_line(long, "X"), format!("{:<20} {}", long, "X"));
}

#[test]
fn main_test_get_data_dir_contains_app_name() {
    let dir = opencode_voice::config::data_dir_for(Some("/data"), None);
    assert!(
        dir.contains("opencode-voice"),
        "data dir should contain 'opencode-voice': {}",
        dir
    );
}
