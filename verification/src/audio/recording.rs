//! Recording configuration for audio capture.
use vstd::prelude::*;

use crate::types::{clone_opt_string, F32Bits};

verus! {

/// Configuration for audio recording.
#[derive(Debug)]
pub struct RecordingConfig {
    /// Device name to record from (None = default device)
    pub device_name: Option<String>,
    /// Sample rate for recording
    pub sample_rate: u32,
    /// Number of channels
    pub channels: u16,
    /// Silence detection threshold in dB (negative value), as an `f32`
    pub silence_threshold_db: F32Bits,
    /// Duration of silence required to trigger detection (ms)
    pub silence_duration_ms: u64,
    /// Maximum recording duration (seconds)
    pub max_recording_sec: u64,
}

/// The bits of the `f32` value `-40.0`.
pub const DEFAULT_SILENCE_THRESHOLD_DB_BITS: u32 = 0xc220_0000;

impl Default for RecordingConfig {
    fn default() -> (r: Self)
        ensures
            r.device_name is None,
            r.sample_rate == 16000,
            r.channels == 1,
            r.silence_threshold_db == F32Bits(DEFAULT_SILENCE_THRESHOLD_DB_BITS),
            r.silence_duration_ms == 2000,
            r.max_recording_sec == 60,
    {
        RecordingConfig {
            device_name: None,
            sample_rate: 16000,
            channels: 1,
            silence_threshold_db: F32Bits(DEFAULT_SILENCE_THRESHOLD_DB_BITS),
            silence_duration_ms: 2000,
            max_recording_sec: 60,
        }
    }
}

impl Clone for RecordingConfig {
    fn clone(&self) -> (r: Self)
        ensures
            r == *self,
    {
        RecordingConfig {
            device_name: clone_opt_string(&self.device_name),
            sample_rate: self.sample_rate,
            channels: self.channels,
            silence_threshold_db: self.silence_threshold_db,
            silence_duration_ms: self.silence_duration_ms,
            max_recording_sec: self.max_recording_sec,
        }
    }
}

} // verus!
