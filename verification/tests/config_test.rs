#![allow(unused_imports)]
use opencode_voice::config::data_dir_for;
use opencode_voice::config::AppConfig;
use opencode_voice::config::listens_for_prompts;
use opencode_voice::config::CliArgs;
use opencode_voice::config::EnvSettings;
use opencode_voice::config::ModelSize;

#[test]
fn test_model_size_display() {
    assert_eq!(ModelSize::TinyEn.to_string(), "tiny.en");
    assert_eq!(ModelSize::BaseEn.to_string(), "base.en");
    assert_eq!(ModelSize::SmallEn.to_string(), "small.en");
}

#[test]
fn test_model_size_from_str() {
    assert!(matches!(
        "tiny.en".parse::<ModelSize>().unwrap(),
        ModelSize::TinyEn
    ));
    assert!(matches!(
        "tiny".parse::<ModelSize>().unwrap(),
        ModelSize::Tiny
    ));
    assert!(matches!(
        "base.en".parse::<ModelSize>().unwrap(),
        ModelSize::BaseEn
    ));
    assert!(matches!(
        "base".parse::<ModelSize>().unwrap(),
        ModelSize::Base
    ));
    assert!(matches!(
        "small.en".parse::<ModelSize>().unwrap(),
        ModelSize::SmallEn
    ));
    assert!(matches!(
        "small".parse::<ModelSize>().unwrap(),
        ModelSize::Small
    ));
}

#[test]
fn test_model_size_from_str_invalid() {
    assert!("large".parse::<ModelSize>().is_err());
    assert!("medium.en".parse::<ModelSize>().is_err());
}

#[test]
fn test_model_size_default() {
    assert!(matches!(ModelSize::default(), ModelSize::BaseEn));
}

// --- Additional tests added to expand coverage ---

#[test]
fn test_model_size_display_tiny_en() {
    assert_eq!(ModelSize::TinyEn.to_string(), "tiny.en");
}

#[test]
fn test_model_size_display_base_en() {
    assert_eq!(ModelSize::BaseEn.to_string(), "base.en");
}

#[test]
fn test_model_size_display_small_en() {
    assert_eq!(ModelSize::SmallEn.to_string(), "small.en");
}

#[test]
fn test_model_size_fromstr_roundtrip_tiny() {
    let s = ModelSize::TinyEn.to_string();
    let parsed: ModelSize = s.parse().unwrap();
    assert!(matches!(parsed, ModelSize::TinyEn));
}

#[test]
fn test_model_size_fromstr_roundtrip_base() {
    let s = ModelSize::BaseEn.to_string();
    let parsed: ModelSize = s.parse().unwrap();
    assert!(matches!(parsed, ModelSize::BaseEn));
}

#[test]
fn test_model_size_fromstr_roundtrip_small() {
    let s = ModelSize::SmallEn.to_string();
    let parsed: ModelSize = s.parse().unwrap();
    assert!(matches!(parsed, ModelSize::SmallEn));
}

#[test]
fn test_model_size_fromstr_short_aliases_are_multilingual() {
    // "tiny", "base", "small" (without .en) map to multilingual variants
    assert!(matches!(
        "tiny".parse::<ModelSize>().unwrap(),
        ModelSize::Tiny
    ));
    assert!(matches!(
        "base".parse::<ModelSize>().unwrap(),
        ModelSize::Base
    ));
    assert!(matches!(
        "small".parse::<ModelSize>().unwrap(),
        ModelSize::Small
    ));
}

#[test]
fn test_model_size_is_multilingual() {
    assert!(!ModelSize::TinyEn.is_multilingual());
    assert!(!ModelSize::BaseEn.is_multilingual());
    assert!(!ModelSize::SmallEn.is_multilingual());
    assert!(ModelSize::Tiny.is_multilingual());
    assert!(ModelSize::Base.is_multilingual());
    assert!(ModelSize::Small.is_multilingual());
}

#[test]
fn test_model_size_fromstr_unknown_returns_error() {
    let result = "large.en".parse::<ModelSize>();
    assert!(result.is_err());
    let err_msg = result.unwrap_err().to_string();
    assert!(
        err_msg.contains("large.en"),
        "Error should mention the unknown value"
    );
}

/// Test AppConfig default field values by constructing a minimal struct literal.
/// This verifies the documented defaults: auto_submit=true, push_to_talk=true,
/// handle_prompts=true, use_global_hotkey=true.
#[test]
fn test_app_config_default_field_values() {
    let config = AppConfig {
        whisper_model_path: "/tmp/model.bin".to_string(),
        opencode_port: 3000,
        toggle_key: ' ',
        model_size: ModelSize::TinyEn,
        auto_submit: true,
        server_password: None,
        data_dir: "/tmp".to_string(),
        audio_device: None,
        use_global_hotkey: true,
        global_hotkey: "right_option".to_string(),
        push_to_talk: true,
        handle_prompts: true,
        debug: false,
    };

    assert!(config.auto_submit, "auto_submit default should be true");
    assert!(config.push_to_talk, "push_to_talk default should be true");
    assert!(
        config.handle_prompts,
        "handle_prompts default should be true"
    );
    assert!(
        config.use_global_hotkey,
        "use_global_hotkey default should be true"
    );
    assert_eq!(config.toggle_key, ' ', "toggle_key default should be space");
    assert_eq!(config.global_hotkey, "right_option");
    assert!(config.server_password.is_none());
    assert!(config.audio_device.is_none());
}

#[test]
fn test_app_config_opencode_port() {
    let config = AppConfig {
        whisper_model_path: "/tmp/model.bin".to_string(),
        opencode_port: 8080,
        toggle_key: ' ',
        model_size: ModelSize::BaseEn,
        auto_submit: true,
        server_password: None,
        data_dir: "/tmp".to_string(),
        audio_device: None,
        use_global_hotkey: true,
        global_hotkey: "right_option".to_string(),
        push_to_talk: true,
        handle_prompts: true,
        debug: false,
    };

    assert_eq!(config.opencode_port, 8080);
}

fn no_options() -> CliArgs {
    CliArgs {
        command: None,
        port: None,
        device: None,
        model: None,
        key: None,
        hotkey: None,
        no_global: false,
        no_auto_submit: false,
        push_to_talk: false,
        no_push_to_talk: false,
        handle_prompts: false,
        no_handle_prompts: false,
        debug: false,
    }
}

fn no_env() -> EnvSettings {
    EnvSettings { port: None, model: None, device: None, server_password: None }
}

#[test]
fn test_load_defaults() {
    let c = AppConfig::load(&no_options(), &no_env(), "/data/opencode-voice");
    assert_eq!(c.opencode_port, 4096);
    assert!(matches!(c.model_size, ModelSize::BaseEn));
    assert_eq!(c.toggle_key, ' ');
    assert!(c.auto_submit);
    assert!(c.push_to_talk);
    assert!(c.handle_prompts);
    assert!(c.use_global_hotkey);
    assert!(!c.debug);
    assert_eq!(c.global_hotkey, "right_option");
    assert!(c.server_password.is_none());
    assert!(c.audio_device.is_none());
    assert_eq!(c.data_dir, "/data/opencode-voice");
    assert_eq!(c.whisper_model_path, "/data/opencode-voice/models/ggml-base.en.bin");
}

#[test]
fn test_load_command_line_beats_environment() {
    let mut cli = no_options();
    cli.port = Some(5000);
    cli.model = Some(ModelSize::SmallEn);
    cli.device = Some("USB Mic".to_string());
    let env = EnvSettings {
        port: Some("6000".to_string()),
        model: Some("tiny".to_string()),
        device: Some("Other".to_string()),
        server_password: Some("pw".to_string()),
    };
    let c = AppConfig::load(&cli, &env, "/d");
    assert_eq!(c.opencode_port, 5000);
    assert!(matches!(c.model_size, ModelSize::SmallEn));
    assert_eq!(c.audio_device.as_deref(), Some("USB Mic"));
    assert_eq!(c.server_password.as_deref(), Some("pw"));
}

#[test]
fn test_load_environment_beats_defaults() {
    let env = EnvSettings {
        port: Some("6000".to_string()),
        model: Some("tiny".to_string()),
        device: Some("Other".to_string()),
        server_password: None,
    };
    let c = AppConfig::load(&no_options(), &env, "/d");
    assert_eq!(c.opencode_port, 6000);
    assert!(matches!(c.model_size, ModelSize::Tiny));
    assert_eq!(c.audio_device.as_deref(), Some("Other"));
}

#[test]
fn test_load_bad_environment_values_fall_back() {
    let env = EnvSettings {
        port: Some("not a port".to_string()),
        model: Some("huge".to_string()),
        device: None,
        server_password: None,
    };
    let c = AppConfig::load(&no_options(), &env, "/d");
    assert_eq!(c.opencode_port, 4096);
    assert!(matches!(c.model_size, ModelSize::BaseEn));
    let env = EnvSettings { port: Some("70000".to_string()), ..no_env() };
    assert_eq!(AppConfig::load(&no_options(), &env, "/d").opencode_port, 4096);
}

#[test]
fn test_load_flags_switch_features_off() {
    let mut cli = no_options();
    cli.no_push_to_talk = true;
    cli.no_global = true;
    cli.no_auto_submit = true;
    cli.no_handle_prompts = true;
    cli.debug = true;
    cli.key = Some('k');
    cli.hotkey = Some("f13".to_string());
    let c = AppConfig::load(&cli, &no_env(), "/d");
    assert!(!c.push_to_talk);
    assert!(!c.use_global_hotkey);
    assert!(!c.auto_submit);
    assert!(!c.handle_prompts);
    assert!(c.debug);
    assert_eq!(c.toggle_key, 'k');
    assert_eq!(c.global_hotkey, "f13");
}

#[test]
fn test_model_size_error_message() {
    let err = "large".parse::<ModelSize>().unwrap_err();
    assert_eq!(
        err.to_string(),
        "Unknown model size: large. Valid: tiny.en, tiny, base.en, base, small.en, small"
    );
}

#[test]
fn test_data_dir_for_linux() {
    assert_eq!(data_dir_for(Some("/x/data"), Some("/home/u")), "/x/data/opencode-voice");
    assert_eq!(data_dir_for(None, Some("/home/u")), "/home/u/.local/share/opencode-voice");
    assert_eq!(data_dir_for(None, None), "./.local/share/opencode-voice");
    assert_eq!(data_dir_for(Some(""), Some("/home/u")), "opencode-voice");
}

#[test]
fn config_test_get_data_dir_contains_app_name() {
    let dir = data_dir_for(None, Some("/home/user"));
    assert!(
        dir.contains("opencode-voice"),
        "data dir should contain 'opencode-voice': {}",
        dir
    );
}

#[test]
fn test_get_data_dir_is_absolute() {
    // with an absolute home directory, or an absolute $XDG_DATA_HOME
    assert!(data_dir_for(None, Some("/home/user")).starts_with('/'));
    assert!(data_dir_for(Some("/xdg"), None).starts_with('/'));
}

#[test]
fn test_get_data_dir_ends_with_opencode_voice() {
    let dir = data_dir_for(None, Some("/home/user"));
    assert_eq!(dir.rsplit('/').next().unwrap(), "opencode-voice");
}

#[test]
fn test_listens_for_prompts_follows_the_option() {
    let c = AppConfig::load(&no_options(), &no_env(), "/d");
    assert!(listens_for_prompts(&c));
    let mut cli = no_options();
    cli.no_handle_prompts = true;
    let c = AppConfig::load(&cli, &no_env(), "/d");
    assert!(!listens_for_prompts(&c));
}
