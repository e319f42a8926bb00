//! Records of TTS test sessions and their results.
use vstd::prelude::*;

use super::config::TtsConfig;
use super::csv_parser::{cases_view, TtsTestCase};
use crate::audio::recording::RecordingConfig;
use crate::types::{clone_opt_string, F64Bits};

verus! {

/// Status of a TTS test session.
#[derive(Debug)]
pub enum TtsTestStatus {
    /// Session is waiting to start
    Pending,
    /// Session is currently running; `current_index` is the case being executed
    Running { current_index: usize },
    /// Session is paused at `current_index`
    Paused { current_index: usize },
    /// Session completed successfully
    Completed,
    /// Session was manually aborted
    Aborted,
    /// Session failed with an error
    Failed { message: String },
}

/// The lower-case name of a status, as shown in logs.
pub open spec fn status_name(s: TtsTestStatus) -> Seq<char> {
    match s {
        TtsTestStatus::Pending => "pending"@,
        TtsTestStatus::Running { .. } => "running"@,
        TtsTestStatus::Paused { .. } => "paused"@,
        TtsTestStatus::Completed => "completed"@,
        TtsTestStatus::Aborted => "aborted"@,
        TtsTestStatus::Failed { .. } => "failed"@,
    }
}

impl Clone for TtsTestStatus {
    fn clone(&self) -> (r: Self)
        ensures
            r == *self,
    {
        match self {
            TtsTestStatus::Pending => TtsTestStatus::Pending,
            TtsTestStatus::Running { current_index } => TtsTestStatus::Running { current_index: *current_index },
            TtsTestStatus::Paused { current_index } => TtsTestStatus::Paused { current_index: *current_index },
            TtsTestStatus::Completed => TtsTestStatus::Completed,
            TtsTestStatus::Aborted => TtsTestStatus::Aborted,
            TtsTestStatus::Failed { message } => TtsTestStatus::Failed { message: message.clone() },
        }
    }
}

impl Default for TtsTestStatus {
    fn default() -> (r: Self)
        ensures
            r == TtsTestStatus::Pending,
    {
        TtsTestStatus::Pending
    }
}

impl TtsTestStatus {
    /// Convert status to a string representation for logging.
    pub fn as_str(&self) -> (r: &'static str)
        ensures
            r@ == status_name(*self),
    {
        match self {
            TtsTestStatus::Pending => "pending",
            TtsTestStatus::Running { .. } => "running",
            TtsTestStatus::Paused { .. } => "paused",
            TtsTestStatus::Completed => "completed",
            TtsTestStatus::Aborted => "aborted",
            TtsTestStatus::Failed { .. } => "failed",
        }
    }
}

/// Result of a single TTS test case execution.
#[derive(Debug)]
pub struct TtsTestResult {
    /// ID of the test case this result belongs to
    pub test_case_id: String,
    /// The input text that was converted to speech
    pub input_text: String,
    /// Duration of the generated TTS audio in seconds (an `f64`)
    pub tts_duration_sec: F64Bits,
    /// Duration of the recorded response in seconds (if any)
    pub response_duration_sec: Option<F64Bits>,
    /// When this test case started (RFC 3339)
    pub started_at: String,
    /// When this test case ended (RFC 3339)
    pub ended_at: String,
    /// Error message if this test case failed
    pub error: Option<String>,
    /// Generated TTS audio data
    pub tts_audio: Vec<u8>,
    /// Recorded response audio data (WAV format, if any)
    pub response_audio: Option<Vec<u8>>,
}

/// The abstract value of a [`TtsTestResult`].
pub struct TtsTestResultView {
    pub test_case_id: Seq<char>,
    pub input_text: Seq<char>,
    pub tts_duration_sec: F64Bits,
    pub response_duration_sec: Option<F64Bits>,
    pub started_at: Seq<char>,
    pub ended_at: Seq<char>,
    pub error: Option<Seq<char>>,
    pub tts_audio: Seq<u8>,
    pub response_audio: Option<Seq<u8>>,
}

/// The abstract value of an optional string.
pub open spec fn opt_chars(o: Option<String>) -> Option<Seq<char>> {
    match o {
        Some(s) => Some(s@),
        None => None,
    }
}

/// The abstract value of optional bytes.
pub open spec fn opt_bytes(o: Option<Vec<u8>>) -> Option<Seq<u8>> {
    match o {
        Some(b) => Some(b@),
        None => None,
    }
}

impl View for TtsTestResult {
    type V = TtsTestResultView;

    open spec fn view(&self) -> TtsTestResultView {
        TtsTestResultView {
            test_case_id: self.test_case_id@,
            input_text: self.input_text@,
            tts_duration_sec: self.tts_duration_sec,
            response_duration_sec: self.response_duration_sec,
            started_at: self.started_at@,
            ended_at: self.ended_at@,
            error: opt_chars(self.error),
            tts_audio: self.tts_audio@,
            response_audio: opt_bytes(self.response_audio),
        }
    }
}

fn clone_opt_bytes(o: &Option<Vec<u8>>) -> (r: Option<Vec<u8>>)
    ensures
        opt_bytes(r) == opt_bytes(*o),
{
    match o {
        Some(b) => Some(b.clone()),
        None => None,
    }
}

impl Clone for TtsTestResult {
    fn clone(&self) -> (r: Self)
        ensures
            r@ == self@,
    {
        TtsTestResult {
            test_case_id: self.test_case_id.clone(),
            input_text: self.input_text.clone(),
            tts_duration_sec: self.tts_duration_sec,
            response_duration_sec: self.response_duration_sec,
            started_at: self.started_at.clone(),
            ended_at: self.ended_at.clone(),
            error: clone_opt_string(&self.error),
            tts_audio: self.tts_audio.clone(),
            response_audio: clone_opt_bytes(&self.response_audio),
        }
    }
}

/// The abstract values of a list of results.
pub open spec fn results_view(s: Seq<TtsTestResult>) -> Seq<TtsTestResultView> {
    s.map_values(|r: TtsTestResult| r@)
}

/// Copies a list of results.
pub fn clone_results(rs: &[TtsTestResult]) -> (r: Vec<TtsTestResult>)
    ensures
        results_view(r@) == results_view(rs@),
{
    let mut r: Vec<TtsTestResult> = Vec::new();
    let mut i: usize = 0;
    while i < rs.len()
        invariant
            i <= rs@.len(),
            r@.len() == i,
            forall|j: int| 0 <= j < i ==> r@[j]@ == rs@[j]@,
        decreases rs@.len() - i,
    {
        r.push(rs[i].clone());
        i = i + 1;
    }
    assert(results_view(r@) =~= results_view(rs@));
    r
}

/// Copies a list of test cases.
pub fn clone_cases(cs: &[TtsTestCase]) -> (r: Vec<TtsTestCase>)
    ensures
        r@ == cs@,
{
    let mut r: Vec<TtsTestCase> = Vec::new();
    let mut i: usize = 0;
    while i < cs.len()
        invariant
            i <= cs@.len(),
            r@ == cs@.take(i as int),
        decreases cs@.len() - i,
    {
        r.push(cs[i].clone());
        i = i + 1;
        assert(r@ =~= cs@.take(i as int));
    }
    assert(cs@.take(cs@.len() as int) =~= cs@);
    r
}

/// A TTS test session containing all test cases and results.
#[derive(Debug)]
pub struct TtsTestSession {
    /// Unique identifier for this session
    pub id: String,
    /// Path to the source CSV file
    pub csv_path: String,
    /// List of test cases to execute
    pub test_cases: Vec<TtsTestCase>,
    /// Results for completed test cases
    pub results: Vec<TtsTestResult>,
    /// TTS configuration used for this session
    pub config: TtsConfig,
    /// Recording configuration used for this session
    pub recording_config: RecordingConfig,
    /// Current status of the session
    pub status: TtsTestStatus,
    /// When the session was started (RFC 3339)
    pub started_at: String,
    /// When the session ended (if completed/aborted/failed)
    pub ended_at: Option<String>,
}

impl Clone for TtsTestSession {
    fn clone(&self) -> (r: Self)
        ensures
            r.id == self.id,
            r.csv_path == self.csv_path,
            r.test_cases@ == self.test_cases@,
            results_view(r.results@) == results_view(self.results@),
            r.config == self.config,
            r.recording_config == self.recording_config,
            r.status == self.status,
            r.started_at == self.started_at,
            r.ended_at == self.ended_at,
    {
        TtsTestSession {
            id: self.id.clone(),
            csv_path: self.csv_path.clone(),
            test_cases: clone_cases(self.test_cases.as_slice()),
            results: clone_results(self.results.as_slice()),
            config: self.config.clone(),
            recording_config: self.recording_config.clone(),
            status: self.status.clone(),
            started_at: self.started_at.clone(),
            ended_at: clone_opt_string(&self.ended_at),
        }
    }
}

} // verus!
