//! Verified core of a voice-test automation tool.
pub mod audio;
pub mod config;
pub mod device;
pub mod error;
pub mod flow;
pub mod ids;
pub mod logging;
pub mod paths;
pub mod playback;
pub mod playlist;
pub mod scenario;
pub mod state;
pub mod text;
pub mod tts;
pub mod types;
