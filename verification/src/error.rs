//! Error types of the library, each with its display message.
use vstd::prelude::*;

use crate::text::push_str;

verus! {

/// Audio-related errors
#[derive(Debug)]
pub enum AudioError {
    FileNotFound(String),
    UnsupportedFormat(String),
    PlaybackFailed(String),
    DecodeError(String),
}

/// Virtual device-related errors
#[derive(Debug)]
pub enum DeviceError {
    CreationFailed(String),
    NotFound(String),
    PlatformUnsupported(String),
}

/// Scenario-related errors
#[derive(Debug)]
pub enum ScenarioError {
    ParseError(String),
    ExecutionFailed(String),
    InvalidScenario(String),
}

/// Configuration-related errors
#[derive(Debug)]
pub enum ConfigError {
    LoadFailed(String),
    SaveFailed(String),
    ValidationError(String),
}

/// Top-level application error that wraps all domain errors
#[derive(Debug)]
pub enum AppError {
    Audio(AudioError),
    Device(DeviceError),
    Scenario(ScenarioError),
    Config(ConfigError),
    Internal(String),
}

/// Display message of an [`AudioError`].
pub open spec fn audio_error_message(e: AudioError) -> Seq<char> {
    match e {
        AudioError::FileNotFound(s) => "Audio file not found: "@ + s@,
        AudioError::UnsupportedFormat(s) => "Unsupported audio format: "@ + s@,
        AudioError::PlaybackFailed(s) => "Playback failed: "@ + s@,
        AudioError::DecodeError(s) => "Decode error: "@ + s@,
    }
}

/// Display message of a [`DeviceError`].
pub open spec fn device_error_message(e: DeviceError) -> Seq<char> {
    match e {
        DeviceError::CreationFailed(s) => "Device creation failed: "@ + s@,
        DeviceError::NotFound(s) => "Device not found: "@ + s@,
        DeviceError::PlatformUnsupported(s) => "Platform not supported: "@ + s@,
    }
}

/// Display message of a [`ScenarioError`].
pub open spec fn scenario_error_message(e: ScenarioError) -> Seq<char> {
    match e {
        ScenarioError::ParseError(s) => "Scenario parse error: "@ + s@,
        ScenarioError::ExecutionFailed(s) => "Scenario execution failed: "@ + s@,
        ScenarioError::InvalidScenario(s) => "Invalid scenario: "@ + s@,
    }
}

/// Display message of a [`ConfigError`].
pub open spec fn config_error_message(e: ConfigError) -> Seq<char> {
    match e {
        ConfigError::LoadFailed(s) => "Config load failed: "@ + s@,
        ConfigError::SaveFailed(s) => "Config save failed: "@ + s@,
        ConfigError::ValidationError(s) => "Config validation error: "@ + s@,
    }
}

/// Display message of an [`AppError`].
pub open spec fn app_error_message(e: AppError) -> Seq<char> {
    match e {
        AppError::Audio(a) => "Audio error: "@ + audio_error_message(a),
        AppError::Device(d) => "Device error: "@ + device_error_message(d),
        AppError::Scenario(s) => "Scenario error: "@ + scenario_error_message(s),
        AppError::Config(c) => "Config error: "@ + config_error_message(c),
        AppError::Internal(s) => "Internal error: "@ + s@,
    }
}

fn prefixed(prefix: &str, detail: &str) -> (r: String)
    ensures
        r@ == prefix@ + detail@,
{
    let mut r = String::new();
    push_str(&mut r, prefix);
    push_str(&mut r, detail);
    assert(r@ =~= prefix@ + detail@);
    r
}

impl AudioError {
    /// The error's display message.
    pub fn message(&self) -> (r: String)
        ensures
            r@ == audio_error_message(*self),
    {
        match self {
            AudioError::FileNotFound(s) => prefixed("Audio file not found: ", s.as_str()),
            AudioError::UnsupportedFormat(s) => prefixed("Unsupported audio format: ", s.as_str()),
            AudioError::PlaybackFailed(s) => prefixed("Playback failed: ", s.as_str()),
            AudioError::DecodeError(s) => prefixed("Decode error: ", s.as_str()),
        }
    }
}

impl DeviceError {
    /// The error's display message.
    pub fn message(&self) -> (r: String)
        ensures
            r@ == device_error_message(*self),
    {
        match self {
            DeviceError::CreationFailed(s) => prefixed("Device creation failed: ", s.as_str()),
            DeviceError::NotFound(s) => prefixed("Device not found: ", s.as_str()),
            DeviceError::PlatformUnsupported(s) => prefixed("Platform not supported: ", s.as_str()),
        }
    }
}

impl ScenarioError {
    /// The error's display message.
    pub fn message(&self) -> (r: String)
        ensures
            r@ == scenario_error_message(*self),
    {
        match self {
            ScenarioError::ParseError(s) => prefixed("Scenario parse error: ", s.as_str()),
            ScenarioError::ExecutionFailed(s) => prefixed("Scenario execution failed: ", s.as_str()),
            ScenarioError::InvalidScenario(s) => prefixed("Invalid scenario: ", s.as_str()),
        }
    }
}

impl ConfigError {
    /// The error's display message.
    pub fn message(&self) -> (r: String)
        ensures
            r@ == config_error_message(*self),
    {
        match self {
            ConfigError::LoadFailed(s) => prefixed("Config load failed: ", s.as_str()),
            ConfigError::SaveFailed(s) => prefixed("Config save failed: ", s.as_str()),
            ConfigError::ValidationError(s) => prefixed("Config validation error: ", s.as_str()),
        }
    }
}

impl AppError {
    /// The error's display message.
    pub fn message(&self) -> (r: String)
        ensures
            r@ == app_error_message(*self),
    {
        match self {
            AppError::Audio(a) => {
                let m = a.message();
                prefixed("Audio error: ", m.as_str())
            },
            AppError::Device(d) => {
                let m = d.message();
                prefixed("Device error: ", m.as_str())
            },
            AppError::Scenario(s) => {
                let m = s.message();
                prefixed("Scenario error: ", m.as_str())
            },
            AppError::Config(c) => {
                let m = c.message();
                prefixed("Config error: ", m.as_str())
            },
            AppError::Internal(s) => prefixed("Internal error: ", s.as_str()),
        }
    }
}

impl From<AudioError> for AppError {
    fn from(e: AudioError) -> (r: AppError) {
        AppError::Audio(e)
    }
}

impl vstd::std_specs::convert::FromSpecImpl<AudioError> for AppError {
    open spec fn obeys_from_spec() -> bool {
        true
    }

    open spec fn from_spec(e: AudioError) -> AppError {
        AppError::Audio(e)
    }
}

impl From<DeviceError> for AppError {
    fn from(e: DeviceError) -> (r: AppError) {
        AppError::Device(e)
    }
}

impl vstd::std_specs::convert::FromSpecImpl<DeviceError> for AppError {
    open spec fn obeys_from_spec() -> bool {
        true
    }

    open spec fn from_spec(e: DeviceError) -> AppError {
        AppError::Device(e)
    }
}

impl From<ScenarioError> for AppError {
    fn from(e: ScenarioError) -> (r: AppError) {
        AppError::Scenario(e)
    }
}

impl vstd::std_specs::convert::FromSpecImpl<ScenarioError> for AppError {
    open spec fn obeys_from_spec() -> bool {
        true
    }

    open spec fn from_spec(e: ScenarioError) -> AppError {
        AppError::Scenario(e)
    }
}

impl From<ConfigError> for AppError {
    fn from(e: ConfigError) -> (r: AppError) {
        AppError::Config(e)
    }
}

impl vstd::std_specs::convert::FromSpecImpl<ConfigError> for AppError {
    open spec fn obeys_from_spec() -> bool {
        true
    }

    open spec fn from_spec(e: ConfigError) -> AppError {
        AppError::Config(e)
    }
}

} // verus!
