//! Application configuration and its defaults. Reading and writing the
//! configuration file is done by the application.
use vstd::prelude::*;

use crate::paths::{path_join, spec_path_join};
use crate::text::to_owned_string;
use crate::tts::config::TtsConfig;
use crate::types::F32Bits;

verus! {

/// Application configuration
#[derive(Debug)]
pub struct AppConfig {
    pub audio: AudioConfig,
    pub virtual_device: VirtualDeviceConfig,
    pub ui: UiConfig,
    pub logging: LoggingConfig,
    pub shortcuts: ShortcutConfig,
    pub tts: TtsConfig,
}

/// Audio engine configuration
#[derive(Debug)]
pub struct AudioConfig {
    /// Default sample rate
    pub default_sample_rate: u32,
    /// Default number of channels
    pub default_channels: u16,
    /// Buffer size in samples
    pub buffer_size: usize,
    /// Default playback speed (an `f32`)
    pub default_playback_speed: F32Bits,
    /// Default volume (an `f32`, 0.0-1.0)
    pub default_volume: F32Bits,
}

/// The bits of the `f32` value `1.0`.
pub const ONE_F32_BITS: u32 = 0x3f80_0000;

/// The bits of the `f32` value `0.8`.
pub const VOLUME_F32_BITS: u32 = 0x3f4c_cccd;

impl Default for AudioConfig {
    fn default() -> (r: Self)
        ensures
            r.default_sample_rate == 44100,
            r.default_channels == 1,
            r.buffer_size == 4096,
            r.default_playback_speed == F32Bits(ONE_F32_BITS),
            r.default_volume == F32Bits(VOLUME_F32_BITS),
    {
        AudioConfig {
            default_sample_rate: 44100,
            default_channels: 1,
            buffer_size: 4096,
            default_playback_speed: F32Bits(ONE_F32_BITS),
            default_volume: F32Bits(VOLUME_F32_BITS),
        }
    }
}

/// Virtual device configuration
#[derive(Debug)]
pub struct VirtualDeviceConfig {
    /// Virtual device name
    pub device_name: String,
    /// Auto-create on startup
    pub auto_create_on_startup: bool,
    /// Set as default input device
    pub set_as_default: bool,
    /// Cleanup device on exit
    pub cleanup_on_exit: bool,
}

impl Default for VirtualDeviceConfig {
    fn default() -> (r: Self)
        ensures
            r.device_name@ == "VoiceTestTool Virtual Mic"@,
            !r.auto_create_on_startup,
            !r.set_as_default,
            r.cleanup_on_exit,
    {
        VirtualDeviceConfig {
            device_name: to_owned_string("VoiceTestTool Virtual Mic"),
            auto_create_on_startup: false,
            set_as_default: false,
            cleanup_on_exit: true,
        }
    }
}

/// UI configuration
#[derive(Debug)]
pub struct UiConfig {
    /// Theme (light/dark/system)
    pub theme: String,
    /// Language
    pub language: String,
    /// Window width
    pub window_width: u32,
    /// Window height
    pub window_height: u32,
    /// Waveform display color
    pub waveform_color: String,
    /// Waveform progress color
    pub waveform_progress_color: String,
}

impl Default for UiConfig {
    fn default() -> (r: Self)
        ensures
            r.theme@ == "system"@,
            r.language@ == "ja"@,
            r.window_width == 1280,
            r.window_height == 800,
            r.waveform_color@ == "#4a9eff"@,
            r.waveform_progress_color@ == "#1a6dcc"@,
    {
        UiConfig {
            theme: to_owned_string("system"),
            language: to_owned_string("ja"),
            window_width: 1280,
            window_height: 800,
            waveform_color: to_owned_string("#4a9eff"),
            waveform_progress_color: to_owned_string("#1a6dcc"),
        }
    }
}

/// Logging configuration
#[derive(Debug)]
pub struct LoggingConfig {
    /// Log level
    pub level: String,
    /// Log output directory
    pub output_dir: String,
    /// Maximum number of sessions to retain
    pub max_sessions: usize,
}

/// The data directory of the application for the current user.
///
/// Trusted: calls `directories::ProjectDirs::from("com", "voice-test-tool",
/// "VoiceTestTool")` and takes its `data_dir`. The result depends on the
/// user's environment, so nothing is stated of it.
#[verifier::external_body]
fn project_data_dir() -> (r: Option<String>) {
    directories::ProjectDirs::from("com", "voice-test-tool", "VoiceTestTool").map(
        |d| d.data_dir().to_string_lossy().to_string(),
    )
}

/// The default log directory: `logs` under the application's data
/// directory, or `logs` where there is none.
pub open spec fn default_log_dir(data_dir: Option<Seq<char>>) -> Seq<char> {
    match data_dir {
        Some(d) => spec_path_join(d, "logs"@),
        None => "logs"@,
    }
}

impl LoggingConfig {
    /// The default logging configuration, with the data directory found
    /// (if any).
    pub fn with_data_dir(data_dir: Option<String>) -> (r: Self)
        ensures
            r.level@ == "info"@,
            r.output_dir@ == default_log_dir(crate::tts::types::opt_chars(data_dir)),
            r.max_sessions == 100,
    {
        let output_dir = match data_dir {
            Some(d) => path_join(d.as_str(), "logs"),
            None => to_owned_string("logs"),
        };
        LoggingConfig { level: to_owned_string("info"), output_dir, max_sessions: 100 }
    }
}

impl Default for LoggingConfig {
    fn default() -> (r: Self)
        ensures
            r.level@ == "info"@,
            exists|d: Option<Seq<char>>| r.output_dir@ == default_log_dir(d),
            r.max_sessions == 100,
    {
        let d = project_data_dir();
        LoggingConfig::with_data_dir(d)
    }
}

/// Keyboard shortcut configuration
#[derive(Debug)]
pub struct ShortcutConfig {
    pub play_pause: String,
    pub stop: String,
    pub next: String,
    pub previous: String,
    pub seek_forward: String,
    pub seek_backward: String,
}

impl Default for ShortcutConfig {
    fn default() -> (r: Self)
        ensures
            r.play_pause@ == "Space"@,
            r.stop@ == "Escape"@,
            r.next@ == "Ctrl+Right"@,
            r.previous@ == "Ctrl+Left"@,
            r.seek_forward@ == "Right"@,
            r.seek_backward@ == "Left"@,
    {
        ShortcutConfig {
            play_pause: to_owned_string("Space"),
            stop: to_owned_string("Escape"),
            next: to_owned_string("Ctrl+Right"),
            previous: to_owned_string("Ctrl+Left"),
            seek_forward: to_owned_string("Right"),
            seek_backward: to_owned_string("Left"),
        }
    }
}

impl Default for AppConfig {
    fn default() -> (r: Self)
        ensures
            r.audio.default_sample_rate == 44100,
            r.virtual_device.device_name@ == "VoiceTestTool Virtual Mic"@,
            r.ui.theme@ == "system"@,
            r.logging.level@ == "info"@,
            r.shortcuts.play_pause@ == "Space"@,
            r.tts.api_key is None,
    {
        AppConfig {
            audio: AudioConfig::default(),
            virtual_device: VirtualDeviceConfig::default(),
            ui: UiConfig::default(),
            logging: LoggingConfig::default(),
            shortcuts: ShortcutConfig::default(),
            tts: TtsConfig::default(),
        }
    }
}

/// The configuration file's path: `config.toml` under the application's
/// configuration directory, or `config.toml` where there is none.
pub open spec fn config_file_path(config_dir: Option<Seq<char>>) -> Seq<char> {
    match config_dir {
        Some(d) => spec_path_join(d, "config.toml"@),
        None => "config.toml"@,
    }
}

/// The configuration file's path, with the configuration directory found
/// (if any).
pub fn config_path_in(config_dir: Option<String>) -> (r: String)
    ensures
        r@ == config_file_path(crate::tts::types::opt_chars(config_dir)),
{
    match config_dir {
        Some(d) => path_join(d.as_str(), "config.toml"),
        None => to_owned_string("config.toml"),
    }
}

/// The configuration directory of the application for the current user.
///
/// Trusted: calls `directories::ProjectDirs::from("com", "voice-test-tool",
/// "VoiceTestTool")` and takes its `config_dir`. The result depends on the
/// user's environment, so nothing is stated of it.
#[verifier::external_body]
fn project_config_dir() -> (r: Option<String>) {
    directories::ProjectDirs::from("com", "voice-test-tool", "VoiceTestTool").map(
        |d| d.config_dir().to_string_lossy().to_string(),
    )
}

/// Get the path to the config file
pub fn config_path() -> (r: String)
    ensures
        exists|d: Option<Seq<char>>| r@ == config_file_path(d),
{
    let d = project_config_dir();
    config_path_in(d)
}

} // verus!
