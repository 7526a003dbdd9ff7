use opencode_voice::audio::audio_config_for;
use opencode_voice::audio::default_audio_config;
use opencode_voice::audio::temp_wav_path;

#[test]
fn test_create_temp_wav_path_has_uuid() {
    let id = "550e8400-e29b-41d4-a716-446655440000";
    let path = temp_wav_path("/tmp", id);
    let filename = path.rsplit('/').next().unwrap();
    assert!(filename.starts_with("opencode-voice-"));
    assert!(filename.ends_with(".wav"));
    assert_eq!(path, format!("/tmp/opencode-voice-{}.wav", id));
}

#[test]
fn test_create_temp_wav_path_in_temp_dir() {
    assert!(temp_wav_path("/var/tmp/", "x").starts_with("/var/tmp/"));
    assert_eq!(temp_wav_path("/var/tmp/", "x"), "/var/tmp/opencode-voice-x.wav");
}

#[test]
fn test_default_audio_config_is_16khz_mono_16bit() {
    let c = default_audio_config();
    assert!(c.device.is_none());
    assert_eq!(c.sample_rate, 16_000);
    assert_eq!(c.channels, 1);
    assert_eq!(c.bit_depth, 16);
}

#[test]
fn test_audio_config_for_device() {
    let c = audio_config_for(Some("USB Mic".to_string()));
    assert_eq!(c.device.as_deref(), Some("USB Mic"));
    assert_eq!(c.sample_rate, 16_000);
    assert_eq!(c.channels, 1);
    assert_eq!(c.bit_depth, 16);
}
