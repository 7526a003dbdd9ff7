//! Command-line options and the resolved application configuration.
use crate::text::chars_eq;
use crate::text::chars_of;
use crate::text::parse_unsigned;
use crate::text::parse_unsigned_exec;
use crate::text::push_str;
use crate::transcribe::setup::get_model_path;
use crate::transcribe::setup::join_path;
use crate::transcribe::setup::path_join;
use crate::transcribe::setup::model_path;
use vstd::prelude::*;

verus! {

broadcast use vstd::string::group_string_axioms;

/// Whisper model size selection.
///
/// English-only variants (`*.en`) are fine-tuned on English and slightly more
/// accurate for standard accents.  Multilingual variants are trained on 99
/// languages and handle accented English better because they've seen more
/// diverse phonetic patterns.
#[derive(Clone, Copy, Debug, PartialEq, Eq, Structural)]
pub enum ModelSize {
    TinyEn,
    BaseEn,
    SmallEn,
    Tiny,
    Base,
    Small,
}

/// The name of a model size, as the model files and the command line
/// spell it.
pub open spec fn model_name(m: ModelSize) -> Seq<char> {
    match m {
        ModelSize::TinyEn => "tiny.en"@,
        ModelSize::BaseEn => "base.en"@,
        ModelSize::SmallEn => "small.en"@,
        ModelSize::Tiny => "tiny"@,
        ModelSize::Base => "base"@,
        ModelSize::Small => "small"@,
    }
}

/// The model size a name stands for.
pub open spec fn model_of_name(s: Seq<char>) -> Option<ModelSize> {
    if s == "tiny.en"@ {
        Some(ModelSize::TinyEn)
    } else if s == "base.en"@ {
        Some(ModelSize::BaseEn)
    } else if s == "small.en"@ {
        Some(ModelSize::SmallEn)
    } else if s == "tiny"@ {
        Some(ModelSize::Tiny)
    } else if s == "base"@ {
        Some(ModelSize::Base)
    } else if s == "small"@ {
        Some(ModelSize::Small)
    } else {
        None
    }
}

/// The message of an unknown model name.
pub open spec fn unknown_model_message(s: Seq<char>) -> Seq<char> {
    "Unknown model size: "@ + s + ". Valid: tiny.en, tiny, base.en, base, small.en, small"@
}

/// The error of parsing an unknown model size name.
#[derive(Debug, Clone)]
pub struct ModelSizeError {
    /// The name that was given.
    pub value: String,
}

impl ModelSizeError {
    /// The error message, naming the unknown value and the valid ones.
    pub fn to_string(&self) -> (s: String)
        ensures
            s@ == unknown_model_message(self.value@),
    {
        let mut s = String::new();
        push_str(&mut s, "Unknown model size: ");
        push_str(&mut s, self.value.as_str());
        push_str(&mut s, ". Valid: tiny.en, tiny, base.en, base, small.en, small");
        s
    }
}

impl Default for ModelSize {
    fn default() -> (m: Self)
        ensures
            m == ModelSize::BaseEn,
    {
        ModelSize::BaseEn
    }
}

impl ModelSize {
    /// Returns `true` for multilingual models (without the `.en` suffix).
    pub fn is_multilingual(&self) -> (b: bool)
        ensures
            b == (*self == ModelSize::Tiny || *self == ModelSize::Base || *self
                == ModelSize::Small),
    {
        match self {
            ModelSize::Tiny | ModelSize::Base | ModelSize::Small => true,
            _ => false,
        }
    }

    /// The model's name (e.g. `"base.en"`).
    pub fn name(&self) -> (s: &'static str)
        ensures
            s@ == model_name(*self),
    {
        match self {
            ModelSize::TinyEn => "tiny.en",
            ModelSize::BaseEn => "base.en",
            ModelSize::SmallEn => "small.en",
            ModelSize::Tiny => "tiny",
            ModelSize::Base => "base",
            ModelSize::Small => "small",
        }
    }

    /// The model's name as an owned string.
    pub fn to_string(&self) -> (s: String)
        ensures
            s@ == model_name(*self),
    {
        self.name().to_owned()
    }
}

/// Parses a model size name.
pub fn parse_model_size(s: &str) -> (r: Result<ModelSize, ModelSizeError>)
    ensures
        match r {
            Ok(m) => model_of_name(s@) == Some(m),
            Err(e) => model_of_name(s@) is None && e.value@ == s@,
        },
{
    let c = chars_of(s);
    if chars_eq(&c, &chars_of("tiny.en")) {
        Ok(ModelSize::TinyEn)
    } else if chars_eq(&c, &chars_of("base.en")) {
        Ok(ModelSize::BaseEn)
    } else if chars_eq(&c, &chars_of("small.en")) {
        Ok(ModelSize::SmallEn)
    } else if chars_eq(&c, &chars_of("tiny")) {
        Ok(ModelSize::Tiny)
    } else if chars_eq(&c, &chars_of("base")) {
        Ok(ModelSize::Base)
    } else if chars_eq(&c, &chars_of("small")) {
        Ok(ModelSize::Small)
    } else {
        Err(ModelSizeError { value: s.to_owned() })
    }
}

impl std::str::FromStr for ModelSize {
    type Err = ModelSizeError;

    fn from_str(s: &str) -> (r: Result<ModelSize, ModelSizeError>)
        ensures
            match r {
                Ok(m) => model_of_name(s@) == Some(m),
                Err(e) => model_of_name(s@) is None && e.value@ == s@,
            },
    {
        parse_model_size(s)
    }
}

/// Subcommands of the command line.
#[derive(Debug, Clone)]
pub enum Commands {
    /// Run the voice mode (default)
    Run,
    /// Download and set up the whisper model
    Setup { model: Option<ModelSize> },
    /// List available audio input devices
    Devices,
    /// List available key names for hotkey configuration
    Keys,
}

/// The options given on the command line.
#[derive(Debug, Clone)]
pub struct CliArgs {
    pub command: Option<Commands>,
    /// OpenCode server port [default: 4096]
    pub port: Option<u16>,
    /// Audio device name
    pub device: Option<String>,
    /// Whisper model size
    pub model: Option<ModelSize>,
    /// Toggle key character (default: space)
    pub key: Option<char>,
    /// Global hotkey name (default: right_option)
    pub hotkey: Option<String>,
    /// Disable global hotkey, use terminal key only
    pub no_global: bool,
    /// Don't auto-submit; leave transcript in prompt for review
    pub no_auto_submit: bool,
    /// Enable push-to-talk mode (default: true)
    pub push_to_talk: bool,
    /// Disable push-to-talk mode
    pub no_push_to_talk: bool,
    /// Handle OpenCode permission and question prompts via voice (default: true)
    pub handle_prompts: bool,
    /// Disable voice handling of OpenCode prompts
    pub no_handle_prompts: bool,
    /// Debug mode: log key events, audio info, transcripts; skip OpenCode
    pub debug: bool,
}

/// The values of the environment variables the configuration reads.
#[derive(Debug, Clone)]
pub struct EnvSettings {
    /// `OPENCODE_VOICE_PORT`
    pub port: Option<String>,
    /// `OPENCODE_VOICE_MODEL`
    pub model: Option<String>,
    /// `OPENCODE_VOICE_DEVICE`
    pub device: Option<String>,
    /// `OPENCODE_SERVER_PASSWORD`
    pub server_password: Option<String>,
}

/// Resolved application configuration.
#[derive(Debug, Clone)]
pub struct AppConfig {
    pub whisper_model_path: String,
    pub opencode_port: u16,
    pub toggle_key: char,
    pub model_size: ModelSize,
    pub auto_submit: bool,
    pub server_password: Option<String>,
    pub data_dir: String,
    pub audio_device: Option<String>,
    pub use_global_hotkey: bool,
    pub global_hotkey: String,
    pub push_to_talk: bool,
    pub handle_prompts: bool,
    pub debug: bool,
}

pub open spec fn opt_view(o: Option<String>) -> Option<Seq<char>> {
    match o {
        Some(s) => Some(s@),
        None => None,
    }
}

/// The port: from the command line, else from the environment when it
/// parses as a port number, else 4096.
pub open spec fn resolved_port(cli: Option<u16>, env: Option<Seq<char>>) -> u16 {
    match cli {
        Some(p) => p,
        None => match env {
            Some(s) => match parse_unsigned(s, 10, 65535) {
                Some(v) => v as u16,
                None => 4096,
            },
            None => 4096,
        },
    }
}

/// The model: from the command line, else from the environment when it names
/// a model, else the default.
pub open spec fn resolved_model(cli: Option<ModelSize>, env: Option<Seq<char>>) -> ModelSize {
    match cli {
        Some(m) => m,
        None => match env {
            Some(s) => match model_of_name(s) {
                Some(m) => m,
                None => ModelSize::BaseEn,
            },
            None => ModelSize::BaseEn,
        },
    }
}

/// The configuration resolved from command-line options, environment
/// settings and the data directory. Precedence: command line, then
/// environment, then defaults.
pub open spec fn config_matches(
    c: AppConfig,
    cli: CliArgs,
    env: EnvSettings,
    data_dir: Seq<char>,
) -> bool {
    &&& c.opencode_port == resolved_port(cli.port, opt_view(env.port))
    &&& c.model_size == resolved_model(cli.model, opt_view(env.model))
    &&& opt_view(c.audio_device) == match cli.device {
        Some(d) => Some(d@),
        None => opt_view(env.device),
    }
    &&& opt_view(c.server_password) == opt_view(env.server_password)
    &&& c.push_to_talk == !cli.no_push_to_talk
    &&& c.use_global_hotkey == !cli.no_global
    &&& c.handle_prompts == !cli.no_handle_prompts
    &&& c.toggle_key == match cli.key {
        Some(k) => k,
        None => ' ',
    }
    &&& c.auto_submit == !cli.no_auto_submit
    &&& c.data_dir@ == data_dir
    &&& c.global_hotkey@ == match cli.hotkey {
        Some(h) => h@,
        None => "right_option"@,
    }
    &&& c.debug == cli.debug
    &&& c.whisper_model_path@ == model_path(data_dir, c.model_size)
}

fn clone_opt(o: &Option<String>) -> (r: Option<String>)
    ensures
        opt_view(r) == opt_view(*o),
{
    match o {
        Some(s) => Some(s.clone()),
        None => None,
    }
}

impl AppConfig {
    /// Resolves the configuration from command-line options, environment
    /// settings and the data directory.
    /// Precedence: command line, then environment, then defaults.
    pub fn load(cli: &CliArgs, env: &EnvSettings, data_dir: &str) -> (c: AppConfig)
        ensures
            config_matches(c, *cli, *env, data_dir@),
    {
        let port: u16 = match cli.port {
            Some(p) => p,
            None => match &env.port {
                Some(s) => match parse_unsigned_exec(&chars_of(s.as_str()), 10, 65535) {
                    Some(v) => v as u16,
                    None => 4096,
                },
                None => 4096,
            },
        };
        let model_size = match cli.model {
            Some(m) => m,
            None => match &env.model {
                Some(s) => match parse_model_size(s.as_str()) {
                    Ok(m) => m,
                    Err(_) => ModelSize::BaseEn,
                },
                None => ModelSize::BaseEn,
            },
        };
        let audio_device = match &cli.device {
            Some(d) => Some(d.clone()),
            None => clone_opt(&env.device),
        };
        let server_password = clone_opt(&env.server_password);
        // explicit overrides first, then the default (on)
        let push_to_talk = if cli.no_push_to_talk {
            false
        } else if cli.push_to_talk {
            true
        } else {
            true
        };
        let use_global_hotkey = !cli.no_global;
        let handle_prompts = if cli.no_handle_prompts {
            false
        } else if cli.handle_prompts {
            true
        } else {
            true
        };
        let whisper_model_path = get_model_path(data_dir, &model_size);
        let global_hotkey = match &cli.hotkey {
            Some(h) => h.clone(),
            None => "right_option".to_owned(),
        };
        AppConfig {
            opencode_port: port,
            toggle_key: match cli.key {
                Some(k) => k,
                None => ' ',
            },
            model_size,
            auto_submit: !cli.no_auto_submit,
            server_password,
            data_dir: data_dir.to_owned(),
            audio_device,
            use_global_hotkey,
            global_hotkey,
            push_to_talk,
            handle_prompts,
            debug: cli.debug,
            whisper_model_path,
        }
    }
}

/// Whether the app listens to the server's event stream for permission and
/// question prompts.
pub fn listens_for_prompts(c: &AppConfig) -> (b: bool)
    ensures
        b == c.handle_prompts,
{
    c.handle_prompts
}

/// A model name read back gives the model it was written from.
pub proof fn law_model_name_round_trip(m: ModelSize)
    ensures
        model_of_name(model_name(m)) == Some(m),
{
    reveal_strlit("tiny.en");
    reveal_strlit("base.en");
    reveal_strlit("small.en");
    reveal_strlit("tiny");
    reveal_strlit("base");
    reveal_strlit("small");
    let names = seq!["tiny.en"@, "base.en"@, "small.en"@, "tiny"@, "base"@, "small"@];
    assert forall|i: int, j: int| 0 <= i < j < 6 implies names[i] != names[j] by {
        if names[i].len() == names[j].len() {
            assert(names[i][0] != names[j][0]);
        }
    }
    assert(names[0] != names[1] && names[0] != names[2] && names[0] != names[3] && names[0]
        != names[4] && names[0] != names[5]);
    assert(names[1] != names[2] && names[1] != names[3] && names[1] != names[4] && names[1]
        != names[5]);
    assert(names[2] != names[3] && names[2] != names[4] && names[2] != names[5]);
    assert(names[3] != names[4] && names[3] != names[5] && names[4] != names[5]);
}

/// A name read as a model is that model's name: parsing accepts exactly the
/// six names that models are written as.
pub proof fn law_model_parse_gives_name(s: Seq<char>)
    ensures
        model_of_name(s) matches Some(m) ==> model_name(m) == s,
{
}

/// The data directory on Linux: `opencode-voice` in `$XDG_DATA_HOME` when it
/// is set, else in `~/.local/share` (`./.local/share` without a home
/// directory).
pub open spec fn linux_data_dir(xdg_data_home: Option<Seq<char>>, home: Option<Seq<char>>) -> Seq<
    char,
> {
    let base = match xdg_data_home {
        Some(x) => x,
        None => path_join(
            path_join(
                match home {
                    Some(h) => h,
                    None => "."@,
                },
                ".local"@,
            ),
            "share"@,
        ),
    };
    path_join(base, "opencode-voice"@)
}

/// The data directory on Linux, given `$XDG_DATA_HOME` and the home
/// directory.
pub fn data_dir_for(xdg_data_home: Option<&str>, home: Option<&str>) -> (d: String)
    ensures
        d@ == linux_data_dir(
            match xdg_data_home {
                Some(x) => Some(x@),
                None => None,
            },
            match home {
                Some(h) => Some(h@),
                None => None,
            },
        ),
{
    let base = match xdg_data_home {
        Some(x) => x.to_owned(),
        None => {
            let h = match home {
                Some(h) => h,
                None => ".",
            };
            let local = join_path(h, ".local");
            join_path(local.as_str(), "share")
        },
    };
    join_path(base.as_str(), "opencode-voice")
}

} // verus!
