//! Audio capture settings, and where a recording is written for
//! transcription.
use crate::config::opt_view;
use crate::transcribe::setup::join_path;
use crate::transcribe::setup::path_join;
use crate::text::push_str;
use vstd::prelude::*;

verus! {

broadcast use vstd::string::group_string_axioms;

/// Audio capture configuration.
#[derive(Debug, Clone)]
pub struct AudioConfig {
    pub device: Option<String>,
    pub sample_rate: u32,
    pub channels: u16,
    pub bit_depth: u16,
}

/// The default audio configuration: 16 kHz mono 16-bit PCM, which is what
/// whisper.cpp works best with.
pub fn default_audio_config() -> (c: AudioConfig)
    ensures
        c.device is None,
        c.sample_rate == 16_000,
        c.channels == 1,
        c.bit_depth == 16,
{
    AudioConfig { device: None, sample_rate: 16_000, channels: 1, bit_depth: 16 }
}

/// The default configuration, capturing from the named device (or the
/// system's default device).
pub fn audio_config_for(device: Option<String>) -> (c: AudioConfig)
    ensures
        opt_view(c.device) == opt_view(device),
        c.sample_rate == 16_000,
        c.channels == 1,
        c.bit_depth == 16,
{
    AudioConfig { device, ..default_audio_config() }
}

/// The name of the temporary WAV file for recording `id`:
/// `opencode-voice-{id}.wav`.
pub open spec fn temp_wav_name(id: Seq<char>) -> Seq<char> {
    "opencode-voice-"@ + id + ".wav"@
}

/// Where the temporary WAV file for recording `id` lives in directory
/// `temp_dir`.
pub fn temp_wav_path(temp_dir: &str, id: &str) -> (p: String)
    ensures
        p@ == path_join(temp_dir@, temp_wav_name(id@)),
{
    let mut name = "opencode-voice-".to_owned();
    push_str(&mut name, id);
    push_str(&mut name, ".wav");
    join_path(temp_dir, name.as_str())
}

} // verus!
