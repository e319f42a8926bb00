//! Plain data types shared across the library.
//!
//! Floating-point quantities that the library only carries (durations,
//! delays, volumes) are held as their IEEE-754 bit patterns in [`F32Bits`]
//! and [`F64Bits`], so that they pass through unchanged.
use vstd::prelude::*;

verus! {

/// Bit pattern of an `f32` value, carried unchanged.
#[derive(Debug, Clone, Copy, PartialEq, Eq)]
pub struct F32Bits(pub u32);

/// Bit pattern of an `f64` value, carried unchanged.
#[derive(Debug, Clone, Copy, PartialEq, Eq)]
pub struct F64Bits(pub u64);

/// The float held by these bits is strictly greater than zero
/// (positive, non-zero, not NaN; `+inf` counts as positive).
pub open spec fn f64_bits_positive(b: F64Bits) -> bool {
    0 < b.0 && b.0 <= 0x7ff0_0000_0000_0000u64
}

/// The float held by these bits is strictly greater than zero.
pub open spec fn f32_bits_positive(b: F32Bits) -> bool {
    0 < b.0 && b.0 <= 0x7f80_0000u32
}

impl F64Bits {
    /// The bits of `0.0`.
    pub fn zero() -> (r: F64Bits)
        ensures
            r.0 == 0,
    {
        F64Bits(0)
    }

    /// Whether the float is strictly greater than zero (IEEE-754 `> 0.0`).
    pub fn is_positive(&self) -> (r: bool)
        ensures
            r == f64_bits_positive(*self),
    {
        0 < self.0 && self.0 <= 0x7ff0_0000_0000_0000u64
    }
}

impl F32Bits {
    /// Whether the float is strictly greater than zero (IEEE-754 `> 0.0`).
    pub fn is_positive(&self) -> (r: bool)
        ensures
            r == f32_bits_positive(*self),
    {
        0 < self.0 && self.0 <= 0x7f80_0000u32
    }
}

/// Structured details attached to a log entry, in the two JSON renderings
/// the reports use: compact (single line) and pretty (indented).
#[derive(Debug)]
pub struct EventDetails {
    pub compact: String,
    pub pretty: String,
}

impl Clone for EventDetails {
    fn clone(&self) -> (r: Self)
        ensures
            r == *self,
    {
        EventDetails { compact: self.compact.clone(), pretty: self.pretty.clone() }
    }
}

/// The abstract value of [`EventDetails`]: (compact, pretty).
pub open spec fn details_view(d: Option<EventDetails>) -> Option<(Seq<char>, Seq<char>)> {
    match d {
        Some(x) => Some((x.compact@, x.pretty@)),
        None => None,
    }
}

/// The abstract value of a [`LogEntry`].
pub struct LogEntryView {
    pub id: Seq<char>,
    pub session_id: Seq<char>,
    pub timestamp: Seq<char>,
    pub level: Seq<char>,
    pub message: Seq<char>,
    pub details: Option<(Seq<char>, Seq<char>)>,
}

impl View for LogEntry {
    type V = LogEntryView;

    open spec fn view(&self) -> LogEntryView {
        LogEntryView {
            id: self.id@,
            session_id: self.session_id@,
            timestamp: self.timestamp@,
            level: self.level@,
            message: self.message@,
            details: details_view(self.details),
        }
    }
}

/// The abstract values of a sequence of log entries.
pub open spec fn log_entries_view(s: Seq<LogEntry>) -> Seq<LogEntryView> {
    s.map_values(|e: LogEntry| e@)
}

/// A log entry for test sessions
#[derive(Debug)]
pub struct LogEntry {
    pub id: String,
    pub session_id: String,
    pub timestamp: String,
    pub level: String,
    pub message: String,
    pub details: Option<EventDetails>,
}

impl Clone for LogEntry {
    fn clone(&self) -> (r: Self)
        ensures
            r == *self,
    {
        let details = match &self.details {
            Some(d) => Some(d.clone()),
            None => None,
        };
        LogEntry {
            id: self.id.clone(),
            session_id: self.session_id.clone(),
            timestamp: self.timestamp.clone(),
            level: self.level.clone(),
            message: self.message.clone(),
            details,
        }
    }
}


/// Clones an optional string, keeping its value.
pub fn clone_opt_string(o: &Option<String>) -> (r: Option<String>)
    ensures
        r == *o,
{
    match o {
        Some(s) => Some(s.clone()),
        None => None,
    }
}

/// Status of the audio subsystem
#[derive(Debug)]
pub struct AudioSystemStatus {
    pub available: bool,
    pub error: Option<String>,
}

/// Information about a loaded audio file
#[derive(Debug)]
pub struct AudioFileInfo {
    pub id: String,
    pub name: String,
    pub path: String,
    pub sample_rate: u32,
    pub channels: u16,
    pub duration_sec: F64Bits,
    pub format: String,
}

impl Clone for AudioFileInfo {
    fn clone(&self) -> (r: Self)
        ensures
            r == *self,
    {
        AudioFileInfo {
            id: self.id.clone(),
            name: self.name.clone(),
            path: self.path.clone(),
            sample_rate: self.sample_rate,
            channels: self.channels,
            duration_sec: self.duration_sec,
            format: self.format.clone(),
        }
    }
}

/// Information about an audio device
#[derive(Debug)]
pub struct DeviceInfo {
    pub id: String,
    pub name: String,
    pub is_virtual: bool,
    pub is_default: bool,
    pub is_active: bool,
}

impl Clone for DeviceInfo {
    fn clone(&self) -> (r: Self)
        ensures
            r == *self,
    {
        DeviceInfo {
            id: self.id.clone(),
            name: self.name.clone(),
            is_virtual: self.is_virtual,
            is_default: self.is_default,
            is_active: self.is_active,
        }
    }
}

/// Current status of a device
#[derive(Debug)]
pub struct DeviceStatus {
    pub device_name: String,
    pub is_active: bool,
    pub is_default: bool,
    pub error: Option<String>,
}

/// Information about a playlist item
#[derive(Debug)]
pub struct PlaylistItemInfo {
    pub id: String,
    pub audio_file_id: String,
    pub audio_file_name: String,
    pub order_index: i32,
    pub pre_silence_sec: F32Bits,
    pub post_silence_sec: F32Bits,
}

impl Clone for PlaylistItemInfo {
    fn clone(&self) -> (r: Self)
        ensures
            r == *self,
    {
        PlaylistItemInfo {
            id: self.id.clone(),
            audio_file_id: self.audio_file_id.clone(),
            audio_file_name: self.audio_file_name.clone(),
            order_index: self.order_index,
            pre_silence_sec: self.pre_silence_sec,
            post_silence_sec: self.post_silence_sec,
        }
    }
}

/// Information about a playlist
#[derive(Debug)]
pub struct PlaylistInfo {
    pub id: String,
    pub name: String,
    pub items: Vec<PlaylistItemInfo>,
    pub created_at: String,
}

/// Copies a sequence of playlist items.
pub fn clone_items(items: &[PlaylistItemInfo]) -> (r: Vec<PlaylistItemInfo>)
    ensures
        r@ == items@,
{
    let mut r: Vec<PlaylistItemInfo> = Vec::new();
    let mut i: usize = 0;
    while i < items.len()
        invariant
            i <= items@.len(),
            r@ == items@.take(i as int),
        decreases items@.len() - i,
    {
        r.push(items[i].clone());
        i = i + 1;
        assert(r@ =~= items@.take(i as int));
    }
    assert(items@.take(items@.len() as int) =~= items@);
    r
}

impl Clone for PlaylistInfo {
    fn clone(&self) -> (r: Self)
        ensures
            r.id == self.id,
            r.name == self.name,
            r.items@ == self.items@,
            r.created_at == self.created_at,
    {
        PlaylistInfo {
            id: self.id.clone(),
            name: self.name.clone(),
            items: clone_items(self.items.as_slice()),
            created_at: self.created_at.clone(),
        }
    }
}

/// Serializable playlist playback status for the frontend
#[derive(Debug)]
pub struct PlaylistPlaybackInfo {
    pub playlist_id: String,
    pub current_item_index: usize,
    pub total_items: usize,
    pub current_file_name: String,
    pub is_playing: bool,
    pub loop_mode: bool,
}

/// Report export format
#[derive(Debug, Clone, Copy, PartialEq, Eq)]
pub enum ReportFormat {
    Html,
    Json,
    Csv,
}

/// Progress information for a running scenario execution
#[derive(Debug)]
pub struct ScenarioProgressInfo {
    pub session_id: String,
    pub scenario_id: String,
    pub current_turn: usize,
    pub total_turns: usize,
    pub status: String,
    pub current_file_name: Option<String>,
}


/// Information about a scenario turn
#[derive(Debug)]
pub struct ScenarioTurnInfo {
    pub id: String,
    pub audio_file: String,
    pub order_index: i32,
    pub delay_before_ms: F64Bits,
    pub delay_after_ms: F64Bits,
    pub expected_transcript: Option<String>,
    pub expected_response: Option<String>,
}

impl Clone for ScenarioTurnInfo {
    fn clone(&self) -> (r: Self)
        ensures
            r == *self,
    {
        ScenarioTurnInfo {
            id: self.id.clone(),
            audio_file: self.audio_file.clone(),
            order_index: self.order_index,
            delay_before_ms: self.delay_before_ms,
            delay_after_ms: self.delay_after_ms,
            expected_transcript: clone_opt_string(&self.expected_transcript),
            expected_response: clone_opt_string(&self.expected_response),
        }
    }
}

/// Information about a test scenario
#[derive(Debug)]
pub struct ScenarioInfo {
    pub id: String,
    pub name: String,
    pub description: String,
    pub turns: Vec<ScenarioTurnInfo>,
    pub created_at: String,
}

/// Copies a sequence of scenario turns.
pub fn clone_turns(turns: &[ScenarioTurnInfo]) -> (r: Vec<ScenarioTurnInfo>)
    ensures
        r@ == turns@,
{
    let mut r: Vec<ScenarioTurnInfo> = Vec::new();
    let mut i: usize = 0;
    while i < turns.len()
        invariant
            i <= turns@.len(),
            r@ == turns@.take(i as int),
        decreases turns@.len() - i,
    {
        r.push(turns[i].clone());
        i = i + 1;
        assert(r@ =~= turns@.take(i as int));
    }
    assert(turns@.take(turns@.len() as int) =~= turns@);
    r
}

impl Clone for ScenarioInfo {
    fn clone(&self) -> (r: Self)
        ensures
            r.id == self.id,
            r.name == self.name,
            r.description == self.description,
            r.turns@ == self.turns@,
            r.created_at == self.created_at,
    {
        ScenarioInfo {
            id: self.id.clone(),
            name: self.name.clone(),
            description: self.description.clone(),
            turns: clone_turns(self.turns.as_slice()),
            created_at: self.created_at.clone(),
        }
    }
}

/// Data for a scenario turn to be saved (without id)
#[derive(Debug)]
pub struct ScenarioTurnData {
    pub audio_file: String,
    pub order_index: i32,
    pub delay_before_ms: F64Bits,
    pub delay_after_ms: F64Bits,
    pub expected_transcript: Option<String>,
    pub expected_response: Option<String>,
}

/// Data for a scenario to be saved (without id and timestamps)
#[derive(Debug)]
pub struct ScenarioData {
    pub name: String,
    pub description: String,
    pub turns: Vec<ScenarioTurnData>,
}

} // verus!
