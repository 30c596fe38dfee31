//! Daemon configuration: plain-value settings for audio capture,
//! transcription, output injection, notifications, the overlay, word
//! replacements, history and the grammar-correction service, with verified
//! validation. Reading and writing the configuration file is the surrounding
//! program's job; it hands the parsed values in and receives them back.

use vstd::prelude::*;
use vstd::string::StringExecFns;

use crate::error::TjvoxError;
use crate::strutil::{chars_of, contains_sub, contains_seq};

verus! {

#[derive(Debug, Clone)]
pub struct AudioConfig {
    pub sample_rate: u32,
    pub channels: u8,
    pub format: String,
    /// Directory for in-flight recordings; empty means the surrounding
    /// program fills in the platform temporary directory.
    pub temp_dir: String,
}

#[derive(Debug, Clone)]
pub struct TranscriptionConfig {
    pub model: String,
    /// Directory holding downloaded models; empty means the surrounding
    /// program fills in the platform data directory.
    pub models_dir: String,
    pub language: Option<String>,
    pub threads: Option<u32>,
    pub remove_filler_words: bool,
}

#[derive(Debug, Clone, Copy, PartialEq, Eq, Structural)]
pub enum WhisperMode {
    Hot,
    Cold,
}

impl WhisperMode {
    pub open spec fn name_spec(&self) -> Seq<char> {
        match self {
            WhisperMode::Hot => "hot"@,
            WhisperMode::Cold => "cold"@,
        }
    }

    /// The mode's name, as the configuration file and notifications write it.
    pub fn name(&self) -> (r: &'static str)
        ensures
            r@ == self.name_spec(),
    {
        match self {
            WhisperMode::Hot => "hot",
            WhisperMode::Cold => "cold",
        }
    }
}

impl Default for WhisperMode {
    fn default() -> (r: Self)
        ensures
            r == WhisperMode::Cold,
    {
        WhisperMode::Cold
    }
}

#[derive(Debug, Clone)]
pub struct WhisperConfig {
    pub mode: WhisperMode,
}

#[derive(Debug, Clone)]
pub struct OutputConfig {
    pub delay_ms: u64,
    pub paste_delay_ms: u64,
    pub append_trailing_space: bool,
    pub method: String,
}

#[derive(Debug, Clone)]
pub struct UiConfig {
    pub show_notifications: bool,
    pub notification_timeout_ms: u64,
}

impl Default for UiConfig {
    fn default() -> (r: Self)
        ensures
            r.show_notifications == false,
            r.notification_timeout_ms == 0,
    {
        UiConfig { show_notifications: false, notification_timeout_ms: 0 }
    }
}

#[derive(Debug, Clone)]
pub struct OverlayConfig {
    pub enabled: bool,
    pub width: i32,
    pub height: i32,
    pub position: String,
    /// Overlay opacity in thousandths, so 850 stands for an opacity of 0.85.
    pub opacity_permille: i32,
}

#[derive(Debug, Clone)]
pub struct ReplacementsConfig {
    pub enabled: bool,
    /// Path of the replacement-rules file; empty means the surrounding
    /// program fills in the platform configuration directory.
    pub file: String,
}

#[derive(Debug, Clone)]
pub struct HistoryConfig {
    pub enabled: bool,
    pub max_entries: u32,
}

#[derive(Debug, Clone)]
pub struct InputConfig {
    pub ptt_key: Option<String>,
}

impl Default for InputConfig {
    fn default() -> (r: Self)
        ensures
            r.ptt_key is None,
    {
        InputConfig { ptt_key: None }
    }
}

#[derive(Debug, Clone)]
pub struct LlmConfig {
    pub enabled: bool,
    pub endpoint: String,
    pub api_key: String,
    pub model: String,
    pub prompt: String,
    pub timeout_ms: u64,
}

pub fn default_paste_delay() -> (r: u64)
    ensures
        r == 50,
{
    50
}

pub fn default_output_method() -> (r: String)
    ensures
        r@ == "auto"@,
{
    String::from_str("auto")
}

pub fn default_true() -> (r: bool)
    ensures
        r == true,
{
    true
}

pub fn default_overlay_width() -> (r: i32)
    ensures
        r == 280,
{
    280
}

pub fn default_overlay_height() -> (r: i32)
    ensures
        r == 50,
{
    50
}

pub fn default_overlay_position() -> (r: String)
    ensures
        r@ == "bottom-center"@,
{
    String::from_str("bottom-center")
}

pub fn default_overlay_opacity_permille() -> (r: i32)
    ensures
        r == 850,
{
    850
}

pub fn default_max_entries() -> (r: u32)
    ensures
        r == 1000,
{
    1000
}

pub fn default_llm_endpoint() -> (r: String)
    ensures
        r@ == "http://localhost:11434/v1/chat/completions"@,
{
    String::from_str("http://localhost:11434/v1/chat/completions")
}

pub fn default_llm_model() -> (r: String)
    ensures
        r@ == "llama3"@,
{
    String::from_str("llama3")
}

pub fn default_llm_prompt() -> (r: String)
    ensures
        r@ == "Fix grammar and punctuation. Output only the corrected text."@,
{
    String::from_str("Fix grammar and punctuation. Output only the corrected text.")
}

pub fn default_llm_timeout_ms() -> (r: u64)
    ensures
        r == 5000,
{
    5000
}

impl Default for OverlayConfig {
    fn default() -> (r: Self)
        ensures
            r.enabled == true,
            r.width == 280,
            r.height == 50,
            r.position@ == "bottom-center"@,
            r.opacity_permille == 850,
    {
        OverlayConfig {
            enabled: default_true(),
            width: default_overlay_width(),
            height: default_overlay_height(),
            position: default_overlay_position(),
            opacity_permille: default_overlay_opacity_permille(),
        }
    }
}

impl Default for HistoryConfig {
    fn default() -> (r: Self)
        ensures
            r.enabled == true,
            r.max_entries == 1000,
    {
        HistoryConfig { enabled: default_true(), max_entries: default_max_entries() }
    }
}

impl Default for LlmConfig {
    fn default() -> (r: Self)
        ensures
            r.enabled == false,
            r.endpoint@ == "http://localhost:11434/v1/chat/completions"@,
            r.api_key@ == Seq::<char>::empty(),
            r.model@ == "llama3"@,
            r.prompt@ == "Fix grammar and punctuation. Output only the corrected text."@,
            r.timeout_ms == 5000,
    {
        LlmConfig {
            enabled: false,
            endpoint: default_llm_endpoint(),
            api_key: String::new(),
            model: default_llm_model(),
            prompt: default_llm_prompt(),
            timeout_ms: default_llm_timeout_ms(),
        }
    }
}

#[derive(Debug, Clone)]
pub struct Config {
    pub audio: AudioConfig,
    pub transcription: TranscriptionConfig,
    pub whisper: WhisperConfig,
    pub output: OutputConfig,
    pub ui: UiConfig,
    pub overlay: OverlayConfig,
    pub replacements: ReplacementsConfig,
    pub history: HistoryConfig,
    pub input: InputConfig,
    pub llm: LlmConfig,
}

impl Default for Config {
    /// The default configuration with the platform-dependent paths left
    /// empty, for the surrounding program to fill in.
    fn default() -> (r: Self)
        ensures
            r.audio.sample_rate == 16000,
            r.audio.channels == 1,
            r.audio.temp_dir@ == Seq::<char>::empty(),
            r.transcription.model@ == "base"@,
            r.transcription.models_dir@ == Seq::<char>::empty(),
            r.whisper.mode == WhisperMode::Cold,
            r.overlay.enabled == true,
            r.overlay.width == 280,
            r.llm.enabled == false,
            r.validate_error() is None,
    {
        let c = Config::default_with_dirs(String::new(), String::new(), String::new());
        proof {
            assert(!crate::strutil::contains_seq(c.audio.temp_dir@, ".."@)) by {
                if crate::strutil::contains_seq(c.audio.temp_dir@, ".."@) {
                    let i = choose|i: int| crate::strutil::occurs_at(c.audio.temp_dir@, ".."@, i);
                    reveal_strlit("..");
                    assert(false);
                }
            }
        }
        c
    }
}

impl Config {
    /// The default configuration, with the three platform-dependent paths
    /// supplied by the caller.
    pub fn default_with_dirs(temp_dir: String, models_dir: String, replacements_file: String) -> (
        r: Config)
        ensures
            r.audio.sample_rate == 16000,
            r.audio.channels == 1,
            r.audio.format@ == "wav"@,
            r.audio.temp_dir == temp_dir,
            r.transcription.model@ == "base"@,
            r.transcription.models_dir == models_dir,
            r.transcription.language matches Some(l) && l@ == "en"@,
            r.transcription.threads is None,
            r.transcription.remove_filler_words == false,
            r.whisper.mode == WhisperMode::Cold,
            r.output.delay_ms == 100,
            r.output.paste_delay_ms == 50,
            r.output.append_trailing_space == true,
            r.output.method@ == "auto"@,
            r.ui.show_notifications == true,
            r.ui.notification_timeout_ms == 3000,
            r.overlay.enabled == true,
            r.overlay.width == 280,
            r.overlay.height == 50,
            r.overlay.position@ == "bottom-center"@,
            r.overlay.opacity_permille == 850,
            r.replacements.enabled == true,
            r.replacements.file == replacements_file,
            r.history.enabled == true,
            r.history.max_entries == 1000,
            r.input.ptt_key is None,
            r.llm.enabled == false,
            r.llm.endpoint@ == "http://localhost:11434/v1/chat/completions"@,
            r.llm.model@ == "llama3"@,
            r.llm.timeout_ms == 5000,
            r.llm.api_key@ == Seq::<char>::empty(),
            r.llm.prompt@ == "Fix grammar and punctuation. Output only the corrected text."@,
    {
        Config {
            audio: AudioConfig {
                sample_rate: 16000,
                channels: 1,
                format: String::from_str("wav"),
                temp_dir,
            },
            transcription: TranscriptionConfig {
                model: String::from_str("base"),
                models_dir,
                language: Some(String::from_str("en")),
                threads: None,
                remove_filler_words: false,
            },
            whisper: WhisperConfig { mode: WhisperMode::Cold },
            output: OutputConfig {
                delay_ms: 100,
                paste_delay_ms: default_paste_delay(),
                append_trailing_space: true,
                method: default_output_method(),
            },
            ui: UiConfig { show_notifications: true, notification_timeout_ms: 3000 },
            overlay: OverlayConfig::default(),
            replacements: ReplacementsConfig {
                enabled: default_true(),
                file: replacements_file,
            },
            history: HistoryConfig::default(),
            input: InputConfig::default(),
            llm: LlmConfig::default(),
        }
    }

    /// The first rule the configuration breaks, if any, with its description.
    pub open spec fn validate_error(&self) -> Option<Seq<char>> {
        if self.audio.sample_rate == 0 {
            Some("sample_rate must be greater than 0"@)
        } else if self.audio.channels == 0 {
            Some("channels must be greater than 0"@)
        } else if contains_seq(self.audio.temp_dir@, ".."@) {
            Some("temp_dir cannot contain path traversal sequences"@)
        } else if self.output.paste_delay_ms > 10000 {
            Some("paste_delay_ms cannot exceed 10000ms"@)
        } else if self.overlay.width < 50 || self.overlay.width > 1000 {
            Some("overlay width must be between 50 and 1000"@)
        } else if self.overlay.height < 20 || self.overlay.height > 200 {
            Some("overlay height must be between 20 and 200"@)
        } else if self.overlay.opacity_permille < 0 || self.overlay.opacity_permille > 1000 {
            Some("overlay opacity must be between 0.0 and 1.0"@)
        } else if self.llm.enabled && self.llm.endpoint@.len() == 0 {
            Some("LLM endpoint cannot be empty when enabled"@)
        } else if self.llm.enabled && self.llm.model@.len() == 0 {
            Some("LLM model cannot be empty when enabled"@)
        } else if self.llm.enabled && (self.llm.timeout_ms < 1000 || self.llm.timeout_ms > 30000) {
            Some("LLM timeout_ms must be between 1000 and 30000"@)
        } else if self.history.max_entries == 0 {
            Some("max_entries must be greater than 0"@)
        } else if self.history.max_entries > 100000 {
            Some("max_entries cannot exceed 100000"@)
        } else {
            None
        }
    }

    /// Checks every configuration rule, in order, and reports the first one
    /// broken as a configuration error.
    pub fn validate(&self) -> (r: Result<(), TjvoxError>)
        ensures
            r is Ok <==> self.validate_error() is None,
            r matches Err(e) ==> e matches TjvoxError::Config(m) && m@
                == self.validate_error().unwrap(),
    {
        if self.audio.sample_rate == 0 {
            return Err(TjvoxError::Config(String::from_str("sample_rate must be greater than 0")));
        }
        if self.audio.channels == 0 {
            return Err(TjvoxError::Config(String::from_str("channels must be greater than 0")));
        }
        let temp_dir_chars = chars_of(self.audio.temp_dir.as_str());
        let dotdot = chars_of("..");
        if contains_sub(&temp_dir_chars, &dotdot) {
            return Err(TjvoxError::Config(String::from_str(
                "temp_dir cannot contain path traversal sequences",
            )));
        }
        if self.output.paste_delay_ms > 10000 {
            return Err(TjvoxError::Config(String::from_str("paste_delay_ms cannot exceed 10000ms")));
        }
        if self.overlay.width < 50 || self.overlay.width > 1000 {
            return Err(TjvoxError::Config(String::from_str(
                "overlay width must be between 50 and 1000",
            )));
        }
        if self.overlay.height < 20 || self.overlay.height > 200 {
            return Err(TjvoxError::Config(String::from_str(
                "overlay height must be between 20 and 200",
            )));
        }
        if self.overlay.opacity_permille < 0 || self.overlay.opacity_permille > 1000 {
            return Err(TjvoxError::Config(String::from_str(
                "overlay opacity must be between 0.0 and 1.0",
            )));
        }
        if self.llm.enabled {
            if self.llm.endpoint.as_str().unicode_len() == 0 {
                return Err(TjvoxError::Config(String::from_str(
                    "LLM endpoint cannot be empty when enabled",
                )));
            }
            if self.llm.model.as_str().unicode_len() == 0 {
                return Err(TjvoxError::Config(String::from_str(
                    "LLM model cannot be empty when enabled",
                )));
            }
            if self.llm.timeout_ms < 1000 || self.llm.timeout_ms > 30000 {
                return Err(TjvoxError::Config(String::from_str(
                    "LLM timeout_ms must be between 1000 and 30000",
                )));
            }
        }
        if self.history.max_entries == 0 {
            return Err(TjvoxError::Config(String::from_str("max_entries must be greater than 0")));
        }
        if self.history.max_entries > 100000 {
            return Err(TjvoxError::Config(String::from_str("max_entries cannot exceed 100000")));
        }
        Ok(())
    }

    /// Rejects a configuration-file path that climbs out of its directory.
    pub fn validate_config_path(path: &str) -> (r: Result<(), TjvoxError>)
        ensures
            r is Ok <==> !contains_seq(path@, ".."@),
            r matches Err(e) ==> e matches TjvoxError::Config(m) && m@
                == "Config path cannot contain path traversal sequences"@,
    {
        let path_chars = chars_of(path);
        let dotdot = chars_of("..");
        if contains_sub(&path_chars, &dotdot) {
            Err(TjvoxError::Config(String::from_str(
                "Config path cannot contain path traversal sequences",
            )))
        } else {
            Ok(())
        }
    }
}

} // verus!
