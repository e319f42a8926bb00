//! TTS test execution.
//!
//! A session runs its test cases in order; a case generates speech for its
//! text, decodes it, starts recording the answer, plays the speech, waits
//! for playback to end, then waits until the recorder hears silence (or
//! gives up) and keeps what it recorded. Both are drivers in the manner of
//! [`crate::flow`]: the caller reports what it observed and performs the
//! actions the driver returns.
use std::sync::atomic::AtomicBool;
use std::sync::Arc;
use vstd::prelude::*;

use super::csv_parser::TtsTestCase;
use super::generator::{generator_error_message, TtsGeneratorError};
use super::types::{opt_bytes, results_view, TtsTestResult, TtsTestResultView, TtsTestSession, TtsTestStatus};
use crate::flow::{LoadOutcome, POLL_INTERVAL_MS};
use crate::ids::now_rfc3339;
use crate::state::share_flag;
use crate::text::{push_str, to_owned_string};
use crate::types::F64Bits;

verus! {

// ---------------------------------------------------------------------
// The runner
// ---------------------------------------------------------------------

/// TTS test runner that manages the execution of a test session.
pub struct TtsTestRunner {
    session: TtsTestSession,
    cancel_flag: Arc<AtomicBool>,
    pause_flag: Arc<AtomicBool>,
}

impl TtsTestRunner {
    /// The session being executed.
    pub closed spec fn session(&self) -> TtsTestSession {
        self.session
    }

    /// The flag that asks the execution to stop.
    pub closed spec fn spec_cancel_flag(&self) -> Arc<AtomicBool> {
        self.cancel_flag
    }

    /// The flag that asks the execution to pause.
    pub closed spec fn spec_pause_flag(&self) -> Arc<AtomicBool> {
        self.pause_flag
    }

    /// Create a runner for the session, with fresh control flags.
    pub fn new(session: TtsTestSession) -> (r: Self)
        ensures
            r.session() == session,
    {
        TtsTestRunner {
            session,
            cancel_flag: Arc::new(AtomicBool::new(false)),
            pause_flag: Arc::new(AtomicBool::new(false)),
        }
    }

    /// A handle on the cancel flag, for external control.
    pub fn cancel_flag(&self) -> (r: Arc<AtomicBool>)
        ensures
            r == self.spec_cancel_flag(),
    {
        share_flag(&self.cancel_flag)
    }

    /// A handle on the pause flag, for external control.
    pub fn pause_flag(&self) -> (r: Arc<AtomicBool>)
        ensures
            r == self.spec_pause_flag(),
    {
        share_flag(&self.pause_flag)
    }

    /// A snapshot of the current session state.
    pub fn get_session(&self) -> (r: TtsTestSession)
        ensures
            r.id == self.session().id,
            r.csv_path == self.session().csv_path,
            r.test_cases@ == self.session().test_cases@,
            results_view(r.results@) == results_view(self.session().results@),
            r.config == self.session().config,
            r.recording_config == self.session().recording_config,
            r.status == self.session().status,
            r.started_at == self.session().started_at,
            r.ended_at == self.session().ended_at,
    {
        self.session.clone()
    }

    /// The status of the session.
    pub fn status(&self) -> (r: TtsTestStatus)
        ensures
            r == self.session().status,
    {
        self.session.status.clone()
    }

    /// Update the session status; nothing else changes.
    pub fn update_status(&mut self, status: TtsTestStatus)
        ensures
            final(self).session() == (TtsTestSession { status, ..old(self).session() }),
            final(self).spec_cancel_flag() == old(self).spec_cancel_flag(),
            final(self).spec_pause_flag() == old(self).spec_pause_flag(),
    {
        self.session.status = status;
    }

    /// Add a result to the session; nothing else changes.
    pub fn add_result(&mut self, result: TtsTestResult)
        ensures
            final(self).session().results@ == old(self).session().results@.push(result),
            final(self).session() == (TtsTestSession {
                results: final(self).session().results,
                ..old(self).session()
            }),
            final(self).spec_cancel_flag() == old(self).spec_cancel_flag(),
            final(self).spec_pause_flag() == old(self).spec_pause_flag(),
    {
        self.session.results.push(result);
    }

    /// Record the end time of the session; nothing else changes.
    pub fn finalize_session_at(&mut self, now: String)
        ensures
            final(self).session() == (TtsTestSession { ended_at: Some(now), ..old(self).session() }),
            final(self).spec_cancel_flag() == old(self).spec_cancel_flag(),
            final(self).spec_pause_flag() == old(self).spec_pause_flag(),
    {
        self.session.ended_at = Some(now);
    }

    /// Finalize the session by setting the end time to now.
    pub fn finalize_session(&mut self)
        ensures
            final(self).session().ended_at is Some,
            final(self).session() == (TtsTestSession {
                ended_at: final(self).session().ended_at,
                ..old(self).session()
            }),
            final(self).spec_cancel_flag() == old(self).spec_cancel_flag(),
            final(self).spec_pause_flag() == old(self).spec_pause_flag(),
    {
        let now = now_rfc3339();
        self.finalize_session_at(now);
    }
}

/// A new session of test cases, pending, without results, started at
/// `started_at`.
pub fn new_session(
    id: String,
    csv_path: String,
    test_cases: Vec<TtsTestCase>,
    config: super::config::TtsConfig,
    recording_config: crate::audio::recording::RecordingConfig,
    started_at: String,
) -> (r: TtsTestSession)
    ensures
        r.id == id,
        r.csv_path == csv_path,
        r.test_cases == test_cases,
        r.results@.len() == 0,
        r.config == config,
        r.recording_config == recording_config,
        r.status == TtsTestStatus::Pending,
        r.started_at == started_at,
        r.ended_at is None,
{
    TtsTestSession {
        id,
        csv_path,
        test_cases,
        results: Vec::new(),
        config,
        recording_config,
        status: TtsTestStatus::Pending,
        started_at,
        ended_at: None,
    }
}

/// The message for an unknown TTS test session.
pub open spec fn tts_session_not_found(id: Seq<char>) -> Seq<char> {
    "TTS test session not found: "@ + id
}

/// The runner of the session with the given id among `runners` (the first
/// one), or the error that names the session as unknown.
pub fn find_runner(runners: &[TtsTestRunner], session_id: &str) -> (r: Result<usize, String>)
    ensures
        match r {
            Ok(i) => 0 <= i < runners@.len() && runners@[i as int].session().id@ == session_id@
                && forall|j: int| 0 <= j < i ==> runners@[j].session().id@ != session_id@,
            Err(e) => e@ == tts_session_not_found(session_id@) && forall|j: int|
                0 <= j < runners@.len() ==> runners@[j].session().id@ != session_id@,
        },
{
    let mut i: usize = 0;
    while i < runners.len()
        invariant
            i <= runners@.len(),
            forall|j: int| 0 <= j < i ==> runners@[j].session().id@ != session_id@,
        decreases runners@.len() - i,
    {
        if crate::text::str_eq(runners[i].session.id.as_str(), session_id) {
            return Ok(i);
        }
        i = i + 1;
    }
    let mut m = to_owned_string("TTS test session not found: ");
    push_str(&mut m, session_id);
    Err(m)
}

// ---------------------------------------------------------------------
// The session driver
// ---------------------------------------------------------------------

/// What the caller observed since the last step of a session.
#[derive(Debug)]
pub enum SessionEvent {
    /// The session begins.
    Begin,
    /// A reading of the cancel and pause flags.
    Flags { cancel: bool, pause: bool },
    /// The case that was running has finished.
    CaseDone,
}

/// One thing for the caller of a session driver to do.
#[derive(Debug)]
pub enum SessionAction {
    /// Set the status of the session ([`TtsTestRunner::update_status`]).
    SetStatus(TtsTestStatus),
    /// Record the end of the session ([`TtsTestRunner::finalize_session`]).
    Finalize,
    /// Publish the state of the session.
    Emit,
    /// Sleep this many milliseconds.
    Sleep(u64),
    /// Run the case of this index ([`case_step`]); answered by `CaseDone`.
    RunCase(usize),
    /// Add the result of the case that ran ([`TtsTestRunner::add_result`]).
    AddResult,
    /// The session is over.
    Finish,
}

/// Where a session stands.
#[derive(Debug, Clone, Copy, PartialEq, Eq)]
pub enum SessionPhase {
    Starting,
    /// About to run case `i`: reads the flags.
    CaseCheck(usize),
    /// Waiting for the pause flag to be lifted before case `i`.
    AwaitResume(usize),
    /// Case `i` is running.
    Running(usize),
    Finished,
}

/// The phase names an existing case, if it names one.
pub open spec fn session_phase_valid(p: SessionPhase, n: nat) -> bool {
    match p {
        SessionPhase::CaseCheck(i) => i < n,
        SessionPhase::AwaitResume(i) => i < n,
        SessionPhase::Running(i) => i < n,
        _ => true,
    }
}

/// What ends a session with a final status.
pub open spec fn session_end(status: TtsTestStatus) -> Seq<SessionAction> {
    seq![SessionAction::SetStatus(status), SessionAction::Finalize, SessionAction::Emit, SessionAction::Finish]
}

/// Moving on to case `i`; past the last case, the session completes.
pub open spec fn enter_case(n: nat, i: nat) -> (SessionPhase, Seq<SessionAction>) {
    if i < n {
        (SessionPhase::CaseCheck(i as usize), seq![])
    } else {
        (SessionPhase::Finished, session_end(TtsTestStatus::Completed))
    }
}

/// The next phase of a session of `n` cases and the actions to perform,
/// from its phase and what was observed. An event the phase does not wait
/// for changes nothing.
pub open spec fn session_next(n: nat, phase: SessionPhase, ev: SessionEvent) -> (SessionPhase, Seq<
    SessionAction,
>) {
    let unchanged = (phase, Seq::<SessionAction>::empty());
    match phase {
        SessionPhase::Starting => match ev {
            SessionEvent::Begin => {
                let (p, a) = enter_case(n, 0);
                (
                    p,
                    seq![
                        SessionAction::SetStatus(TtsTestStatus::Running { current_index: 0 }),
                        SessionAction::Emit,
                    ] + a,
                )
            },
            _ => unchanged,
        },
        SessionPhase::CaseCheck(i) => match ev {
            SessionEvent::Flags { cancel, pause } => if cancel {
                (SessionPhase::Finished, session_end(TtsTestStatus::Aborted))
            } else if pause {
                (
                    SessionPhase::AwaitResume(i),
                    seq![
                        SessionAction::SetStatus(TtsTestStatus::Paused { current_index: i }),
                        SessionAction::Emit,
                    ],
                )
            } else {
                (SessionPhase::AwaitResume(i), seq![])
            },
            _ => unchanged,
        },
        SessionPhase::AwaitResume(i) => match ev {
            SessionEvent::Flags { cancel, pause } => if !pause {
                (
                    SessionPhase::Running(i),
                    seq![
                        SessionAction::SetStatus(TtsTestStatus::Running { current_index: i }),
                        SessionAction::Emit,
                        SessionAction::RunCase(i),
                    ],
                )
            } else if cancel {
                (SessionPhase::Finished, session_end(TtsTestStatus::Aborted))
            } else {
                (phase, seq![SessionAction::Sleep(POLL_INTERVAL_MS)])
            },
            _ => unchanged,
        },
        SessionPhase::Running(i) => match ev {
            SessionEvent::CaseDone => {
                let (p, a) = enter_case(n, (i + 1) as nat);
                (p, seq![SessionAction::AddResult, SessionAction::Emit] + a)
            },
            _ => unchanged,
        },
        SessionPhase::Finished => unchanged,
    }
}

fn end_session(status: TtsTestStatus, a: &mut Vec<SessionAction>)
    ensures
        final(a)@ == old(a)@ + session_end(status),
{
    let ghost a0 = a@;
    a.push(SessionAction::SetStatus(status));
    a.push(SessionAction::Finalize);
    a.push(SessionAction::Emit);
    a.push(SessionAction::Finish);
    assert(a@ =~= a0 + session_end(status));
}

fn enter_case_exec(n: usize, i: usize, a: &mut Vec<SessionAction>) -> (r: SessionPhase)
    ensures
        r == enter_case(n as nat, i as nat).0,
        final(a)@ == old(a)@ + enter_case(n as nat, i as nat).1,
        session_phase_valid(r, n as nat),
{
    if i < n {
        assert(a@ =~= a@ + Seq::<SessionAction>::empty());
        SessionPhase::CaseCheck(i)
    } else {
        end_session(TtsTestStatus::Completed, a);
        SessionPhase::Finished
    }
}

/// One step of a session of `n` cases (see [`session_next`]): the next
/// phase and the actions to perform, in order.
pub fn session_step(n: usize, phase: SessionPhase, ev: &SessionEvent) -> (r: (SessionPhase, Vec<SessionAction>))
    requires
        session_phase_valid(phase, n as nat),
    ensures
        r.0 == session_next(n as nat, phase, *ev).0,
        r.1@ == session_next(n as nat, phase, *ev).1,
        session_phase_valid(r.0, n as nat),
{
    let mut a: Vec<SessionAction> = Vec::new();
    match phase {
        SessionPhase::Starting => match ev {
            SessionEvent::Begin => {
                a.push(SessionAction::SetStatus(TtsTestStatus::Running { current_index: 0 }));
                a.push(SessionAction::Emit);
                let p = enter_case_exec(n, 0, &mut a);
                (p, a)
            },
            _ => (phase, a),
        },
        SessionPhase::CaseCheck(i) => match ev {
            SessionEvent::Flags { cancel, pause } => {
                if *cancel {
                    end_session(TtsTestStatus::Aborted, &mut a);
                    (SessionPhase::Finished, a)
                } else if *pause {
                    a.push(SessionAction::SetStatus(TtsTestStatus::Paused { current_index: i }));
                    a.push(SessionAction::Emit);
                    (SessionPhase::AwaitResume(i), a)
                } else {
                    (SessionPhase::AwaitResume(i), a)
                }
            },
            _ => (phase, a),
        },
        SessionPhase::AwaitResume(i) => match ev {
            SessionEvent::Flags { cancel, pause } => {
                if !*pause {
                    a.push(SessionAction::SetStatus(TtsTestStatus::Running { current_index: i }));
                    a.push(SessionAction::Emit);
                    a.push(SessionAction::RunCase(i));
                    (SessionPhase::Running(i), a)
                } else if *cancel {
                    end_session(TtsTestStatus::Aborted, &mut a);
                    (SessionPhase::Finished, a)
                } else {
                    a.push(SessionAction::Sleep(POLL_INTERVAL_MS));
                    (phase, a)
                }
            },
            _ => (phase, a),
        },
        SessionPhase::Running(i) => match ev {
            SessionEvent::CaseDone => {
                a.push(SessionAction::AddResult);
                a.push(SessionAction::Emit);
                let p = enter_case_exec(n, i + 1, &mut a);
                (p, a)
            },
            _ => (phase, a),
        },
        SessionPhase::Finished => (phase, a),
    }
}

// ---------------------------------------------------------------------
// The case driver
// ---------------------------------------------------------------------

/// Milliseconds between two player queries while a case plays.
pub const PLAYBACK_POLL_MS: u64 = 50;

/// What the caller observed since the last step of a case.
#[derive(Debug)]
pub enum CaseEvent {
    /// The case begins.
    Begin,
    /// Speech generation finished with these audio bytes, or failed.
    Generated(Result<Vec<u8>, TtsGeneratorError>),
    /// Decoding the speech gave its duration in seconds (an `f64`), or
    /// failed with this message.
    Decoded(Result<F64Bits, String>),
    /// Whether recording could be started.
    RecordingStarted(bool),
    /// Loading the speech into the player.
    Loaded(LoadOutcome),
    /// A reading of the cancel and pause flags.
    Flags { cancel: bool, pause: bool },
    /// A player query: whether playback has finished.
    PlayerDone(bool),
    /// A reading while waiting for silence: the cancel flag, whether the
    /// recorder heard enough silence, and whether the longest recording
    /// time has passed since the wait began.
    SilenceCheck { cancel: bool, silence: bool, timed_out: bool },
    /// The recording was stopped: the seconds waited since the wait began
    /// (an `f64`) and the recorded answer as WAV bytes, if any.
    Collected { elapsed_sec: F64Bits, audio: Option<Vec<u8>> },
}

/// One thing for the caller of a case driver to do.
#[derive(Debug)]
pub enum CaseAction {
    /// Generate speech for the case's text; answered by `Generated`.
    Generate,
    /// Decode the generated speech; answered by `Decoded`.
    Decode,
    /// Start recording; answered by `RecordingStarted`.
    StartRecording,
    /// Load the decoded speech and start playing it; answered by `Loaded`.
    LoadAndPlay,
    StopPlayer,
    PausePlayer,
    ResumePlayer,
    /// Ask whether playback has finished; answered by `PlayerDone`.
    QueryPlayer,
    /// Sleep this many milliseconds.
    Sleep(u64),
    /// Begin waiting for silence: the wait is timed from now.
    BeginSilenceWait,
    /// Signal the recording to stop.
    StopRecording,
    /// Collect what was recorded; answered by `Collected`.
    CollectRecording,
    /// The case is over with this result.
    Finish(TtsTestResult),
}

/// The abstract value of a [`CaseAction`].
pub enum CaseActionView {
    Generate,
    Decode,
    StartRecording,
    LoadAndPlay,
    StopPlayer,
    PausePlayer,
    ResumePlayer,
    QueryPlayer,
    Sleep(u64),
    BeginSilenceWait,
    StopRecording,
    CollectRecording,
    Finish(TtsTestResultView),
}

impl View for CaseAction {
    type V = CaseActionView;

    open spec fn view(&self) -> CaseActionView {
        match self {
            CaseAction::Generate => CaseActionView::Generate,
            CaseAction::Decode => CaseActionView::Decode,
            CaseAction::StartRecording => CaseActionView::StartRecording,
            CaseAction::LoadAndPlay => CaseActionView::LoadAndPlay,
            CaseAction::StopPlayer => CaseActionView::StopPlayer,
            CaseAction::PausePlayer => CaseActionView::PausePlayer,
            CaseAction::ResumePlayer => CaseActionView::ResumePlayer,
            CaseAction::QueryPlayer => CaseActionView::QueryPlayer,
            CaseAction::Sleep(ms) => CaseActionView::Sleep(*ms),
            CaseAction::BeginSilenceWait => CaseActionView::BeginSilenceWait,
            CaseAction::StopRecording => CaseActionView::StopRecording,
            CaseAction::CollectRecording => CaseActionView::CollectRecording,
            CaseAction::Finish(r) => CaseActionView::Finish(r@),
        }
    }
}

/// The abstract values of a list of case actions.
pub open spec fn case_actions_view(s: Seq<CaseAction>) -> Seq<CaseActionView> {
    s.map_values(|a: CaseAction| a@)
}

/// Where a case stands.
#[derive(Debug, Clone, Copy, PartialEq, Eq)]
pub enum CasePhase {
    Starting,
    Generating,
    Decoding,
    StartingRecording,
    Loading,
    /// Playing: reads the flags.
    Playing,
    PlaybackPaused,
    AwaitPlayer,
    /// Waiting for the recorder to hear silence.
    AwaitSilence,
    Collecting,
    Finished,
}

/// The state of a case in progress.
#[derive(Debug)]
pub struct CaseRun {
    pub phase: CasePhase,
    /// When the case started (RFC 3339).
    pub started_at: String,
    /// The generated speech, once there is some.
    pub tts_audio: Vec<u8>,
    /// Its duration in seconds, once decoded.
    pub tts_duration_sec: F64Bits,
    /// Whether the answer is being recorded.
    pub recording: bool,
}

/// The abstract value of a [`CaseRun`].
pub struct CaseRunView {
    pub phase: CasePhase,
    pub started_at: Seq<char>,
    pub tts_audio: Seq<u8>,
    pub tts_duration_sec: F64Bits,
    pub recording: bool,
}

impl View for CaseRun {
    type V = CaseRunView;

    open spec fn view(&self) -> CaseRunView {
        CaseRunView {
            phase: self.phase,
            started_at: self.started_at@,
            tts_audio: self.tts_audio@,
            tts_duration_sec: self.tts_duration_sec,
            recording: self.recording,
        }
    }
}

/// A case that starts now.
pub fn case_start(started_at: String) -> (r: CaseRun)
    ensures
        r@ == (CaseRunView {
            phase: CasePhase::Starting,
            started_at: started_at@,
            tts_audio: Seq::empty(),
            tts_duration_sec: F64Bits(0),
            recording: false,
        }),
{
    CaseRun { phase: CasePhase::Starting, started_at, tts_audio: Vec::new(), tts_duration_sec: F64Bits(0), recording: false }
}

/// The result of a case.
pub open spec fn case_result(
    case: TtsTestCase,
    run: CaseRunView,
    ended_at: Seq<char>,
    tts_duration_sec: F64Bits,
    tts_audio: Seq<u8>,
    response_duration_sec: Option<F64Bits>,
    response_audio: Option<Seq<u8>>,
    error: Option<Seq<char>>,
) -> TtsTestResultView {
    TtsTestResultView {
        test_case_id: case.id@,
        input_text: case.text@,
        tts_duration_sec,
        response_duration_sec,
        started_at: run.started_at,
        ended_at,
        error,
        tts_audio,
        response_audio,
    }
}

/// The result of a case that failed after its speech was decoded.
pub open spec fn failed_result(case: TtsTestCase, run: CaseRunView, now: Seq<char>, error: Seq<char>) -> TtsTestResultView {
    case_result(case, run, now, run.tts_duration_sec, run.tts_audio, None, None, Some(error))
}

/// The end of a case that failed after its speech was decoded: the
/// recording, if any, is stopped first.
pub open spec fn fail_actions(case: TtsTestCase, run: CaseRunView, now: Seq<char>, stop_player: bool, error: Seq<char>) -> Seq<CaseActionView> {
    let head: Seq<CaseActionView> = if stop_player { seq![CaseActionView::StopPlayer] } else { seq![] };
    let rec: Seq<CaseActionView> = if run.recording { seq![CaseActionView::StopRecording] } else { seq![] };
    head + rec + seq![CaseActionView::Finish(failed_result(case, run, now, error))]
}

/// A case in phase `p`, otherwise unchanged.
pub open spec fn in_phase(run: CaseRunView, p: CasePhase) -> CaseRunView {
    CaseRunView { phase: p, ..run }
}

/// The next state of a case and the actions to perform, from its state,
/// what was observed and the time now (used as the end time of a result).
/// An event the phase does not wait for changes nothing.
pub open spec fn case_next(case: TtsTestCase, run: CaseRunView, ev: CaseEvent, now: Seq<char>) -> (
    CaseRunView,
    Seq<CaseActionView>,
) {
    let unchanged = (run, Seq::<CaseActionView>::empty());
    let done = in_phase(run, CasePhase::Finished);
    match run.phase {
        CasePhase::Starting => match ev {
            CaseEvent::Begin => (in_phase(run, CasePhase::Generating), seq![CaseActionView::Generate]),
            _ => unchanged,
        },
        CasePhase::Generating => match ev {
            CaseEvent::Generated(Ok(bytes)) => (
                CaseRunView { phase: CasePhase::Decoding, tts_audio: bytes@, ..run },
                seq![CaseActionView::Decode],
            ),
            CaseEvent::Generated(Err(e)) => (
                done,
                seq![
                    CaseActionView::Finish(
                        case_result(
                            case,
                            run,
                            now,
                            F64Bits(0),
                            Seq::empty(),
                            None,
                            None,
                            Some("TTS generation failed: "@ + generator_error_message(e)),
                        ),
                    ),
                ],
            ),
            _ => unchanged,
        },
        CasePhase::Decoding => match ev {
            CaseEvent::Decoded(Ok(d)) => (
                CaseRunView { phase: CasePhase::StartingRecording, tts_duration_sec: d, ..run },
                seq![CaseActionView::StartRecording],
            ),
            CaseEvent::Decoded(Err(e)) => (
                done,
                seq![
                    CaseActionView::Finish(
                        case_result(
                            case,
                            run,
                            now,
                            F64Bits(0),
                            run.tts_audio,
                            None,
                            None,
                            Some("Failed to decode TTS audio: "@ + e@),
                        ),
                    ),
                ],
            ),
            _ => unchanged,
        },
        CasePhase::StartingRecording => match ev {
            CaseEvent::RecordingStarted(ok) => (
                CaseRunView { phase: CasePhase::Loading, recording: ok, ..run },
                seq![CaseActionView::LoadAndPlay],
            ),
            _ => unchanged,
        },
        CasePhase::Loading => match ev {
            CaseEvent::Loaded(LoadOutcome::Started) => (in_phase(run, CasePhase::Playing), seq![]),
            CaseEvent::Loaded(LoadOutcome::NoPlayer) => (
                done,
                fail_actions(case, run, now, false, "Audio player not available"@),
            ),
            CaseEvent::Loaded(LoadOutcome::Failed(e)) => (
                done,
                fail_actions(case, run, now, false, "Failed to load audio: "@ + e@),
            ),
            _ => unchanged,
        },
        CasePhase::Playing => match ev {
            CaseEvent::Flags { cancel, pause } => if cancel {
                (done, fail_actions(case, run, now, true, "Cancelled"@))
            } else if pause {
                (in_phase(run, CasePhase::PlaybackPaused), seq![CaseActionView::PausePlayer])
            } else {
                (in_phase(run, CasePhase::AwaitPlayer), seq![CaseActionView::QueryPlayer])
            },
            _ => unchanged,
        },
        CasePhase::PlaybackPaused => match ev {
            CaseEvent::Flags { cancel, pause } => if !pause {
                (
                    in_phase(run, CasePhase::AwaitPlayer),
                    seq![CaseActionView::ResumePlayer, CaseActionView::QueryPlayer],
                )
            } else if cancel {
                (done, fail_actions(case, run, now, true, "Cancelled"@))
            } else {
                (run, seq![CaseActionView::Sleep(POLL_INTERVAL_MS)])
            },
            _ => unchanged,
        },
        CasePhase::AwaitPlayer => match ev {
            CaseEvent::PlayerDone(finished) => if !finished {
                (in_phase(run, CasePhase::Playing), seq![CaseActionView::Sleep(PLAYBACK_POLL_MS)])
            } else if run.recording {
                (in_phase(run, CasePhase::AwaitSilence), seq![CaseActionView::BeginSilenceWait])
            } else {
                (
                    done,
                    seq![
                        CaseActionView::Finish(
                            case_result(case, run, now, run.tts_duration_sec, run.tts_audio, None, None, None),
                        ),
                    ],
                )
            },
            _ => unchanged,
        },
        CasePhase::AwaitSilence => match ev {
            CaseEvent::SilenceCheck { cancel, silence, timed_out } => if cancel {
                (done, fail_actions(case, run, now, false, "Cancelled"@))
            } else if silence || timed_out {
                (
                    in_phase(run, CasePhase::Collecting),
                    seq![CaseActionView::StopRecording, CaseActionView::CollectRecording],
                )
            } else {
                (run, seq![CaseActionView::Sleep(POLL_INTERVAL_MS)])
            },
            _ => unchanged,
        },
        CasePhase::Collecting => match ev {
            CaseEvent::Collected { elapsed_sec, audio } => (
                done,
                seq![
                    CaseActionView::Finish(
                        case_result(
                            case,
                            run,
                            now,
                            run.tts_duration_sec,
                            run.tts_audio,
                            Some(elapsed_sec),
                            opt_bytes(audio),
                            None,
                        ),
                    ),
                ],
            ),
            _ => unchanged,
        },
        CasePhase::Finished => unchanged,
    }
}

fn result_of(
    case: &TtsTestCase,
    run: &CaseRun,
    now: String,
    tts_duration_sec: F64Bits,
    tts_audio: Vec<u8>,
    response_duration_sec: Option<F64Bits>,
    response_audio: Option<Vec<u8>>,
    error: Option<String>,
) -> (r: TtsTestResult)
    ensures
        r@ == case_result(
            *case,
            run@,
            now@,
            tts_duration_sec,
            tts_audio@,
            response_duration_sec,
            opt_bytes(response_audio),
            super::types::opt_chars(error),
        ),
{
    TtsTestResult {
        test_case_id: case.id.clone(),
        input_text: case.text.clone(),
        tts_duration_sec,
        response_duration_sec,
        started_at: run.started_at.clone(),
        ended_at: now,
        error,
        tts_audio,
        response_audio,
    }
}

fn fail_exec(case: &TtsTestCase, run: &CaseRun, now: String, stop_player: bool, error: String) -> (r: Vec<
    CaseAction,
>)
    ensures
        case_actions_view(r@) == fail_actions(*case, run@, now@, stop_player, error@),
{
    let mut a: Vec<CaseAction> = Vec::new();
    if stop_player {
        a.push(CaseAction::StopPlayer);
    }
    if run.recording {
        a.push(CaseAction::StopRecording);
    }
    let res = result_of(case, run, now, run.tts_duration_sec, run.tts_audio.clone(), None, None, Some(error));
    a.push(CaseAction::Finish(res));
    assert(case_actions_view(a@) =~= fail_actions(*case, run@, now@, stop_player, error@));
    a
}

/// One step of a case (see [`case_next`]), with `now` as the time it ends
/// at if it ends: updates the state and returns the actions to perform,
/// in order.
#[verifier::rlimit(50)]
pub fn case_step_at(case: &TtsTestCase, run: &mut CaseRun, ev: CaseEvent, now: String) -> (r: Vec<CaseAction>)
    ensures
        final(run)@ == case_next(*case, old(run)@, ev, now@).0,
        case_actions_view(r@) == case_next(*case, old(run)@, ev, now@).1,
{
    let ghost ev0 = ev;
    let mut a: Vec<CaseAction> = Vec::new();
    assert(case_actions_view(a@) =~= Seq::<CaseActionView>::empty());
    match run.phase {
        CasePhase::Starting => match ev {
            CaseEvent::Begin => {
                run.phase = CasePhase::Generating;
                a.push(CaseAction::Generate);
            },
            _ => {},
        },
        CasePhase::Generating => match ev {
            CaseEvent::Generated(Ok(bytes)) => {
                run.phase = CasePhase::Decoding;
                run.tts_audio = bytes;
                a.push(CaseAction::Decode);
            },
            CaseEvent::Generated(Err(e)) => {
                let mut m = to_owned_string("TTS generation failed: ");
                let em = e.message();
                push_str(&mut m, em.as_str());
                let res = result_of(case, run, now, F64Bits(0), Vec::new(), None, None, Some(m));
                run.phase = CasePhase::Finished;
                a.push(CaseAction::Finish(res));
            },
            _ => {},
        },
        CasePhase::Decoding => match ev {
            CaseEvent::Decoded(Ok(d)) => {
                run.phase = CasePhase::StartingRecording;
                run.tts_duration_sec = d;
                a.push(CaseAction::StartRecording);
            },
            CaseEvent::Decoded(Err(e)) => {
                let mut m = to_owned_string("Failed to decode TTS audio: ");
                push_str(&mut m, e.as_str());
                let res = result_of(case, run, now, F64Bits(0), run.tts_audio.clone(), None, None, Some(m));
                run.phase = CasePhase::Finished;
                a.push(CaseAction::Finish(res));
            },
            _ => {},
        },
        CasePhase::StartingRecording => match ev {
            CaseEvent::RecordingStarted(ok) => {
                run.phase = CasePhase::Loading;
                run.recording = ok;
                a.push(CaseAction::LoadAndPlay);
            },
            _ => {},
        },
        CasePhase::Loading => match ev {
            CaseEvent::Loaded(LoadOutcome::Started) => {
                run.phase = CasePhase::Playing;
            },
            CaseEvent::Loaded(LoadOutcome::NoPlayer) => {
                a = fail_exec(case, run, now, false, to_owned_string("Audio player not available"));
                run.phase = CasePhase::Finished;
            },
            CaseEvent::Loaded(LoadOutcome::Failed(e)) => {
                let mut m = to_owned_string("Failed to load audio: ");
                push_str(&mut m, e.as_str());
                a = fail_exec(case, run, now, false, m);
                run.phase = CasePhase::Finished;
            },
            _ => {},
        },
        CasePhase::Playing => match ev {
            CaseEvent::Flags { cancel, pause } => {
                if cancel {
                    a = fail_exec(case, run, now, true, to_owned_string("Cancelled"));
                    run.phase = CasePhase::Finished;
                } else if pause {
                    run.phase = CasePhase::PlaybackPaused;
                    a.push(CaseAction::PausePlayer);
                } else {
                    run.phase = CasePhase::AwaitPlayer;
                    a.push(CaseAction::QueryPlayer);
                }
            },
            _ => {},
        },
        CasePhase::PlaybackPaused => match ev {
            CaseEvent::Flags { cancel, pause } => {
                if !pause {
                    run.phase = CasePhase::AwaitPlayer;
                    a.push(CaseAction::ResumePlayer);
                    a.push(CaseAction::QueryPlayer);
                } else if cancel {
                    a = fail_exec(case, run, now, true, to_owned_string("Cancelled"));
                    run.phase = CasePhase::Finished;
                } else {
                    a.push(CaseAction::Sleep(POLL_INTERVAL_MS));
                }
            },
            _ => {},
        },
        CasePhase::AwaitPlayer => match ev {
            CaseEvent::PlayerDone(finished) => {
                if !finished {
                    run.phase = CasePhase::Playing;
                    a.push(CaseAction::Sleep(PLAYBACK_POLL_MS));
                } else if run.recording {
                    run.phase = CasePhase::AwaitSilence;
                    a.push(CaseAction::BeginSilenceWait);
                } else {
                    let res = result_of(
                        case,
                        run,
                        now,
                        run.tts_duration_sec,
                        run.tts_audio.clone(),
                        None,
                        None,
                        None,
                    );
                    run.phase = CasePhase::Finished;
                    a.push(CaseAction::Finish(res));
                }
            },
            _ => {},
        },
        CasePhase::AwaitSilence => match ev {
            CaseEvent::SilenceCheck { cancel, silence, timed_out } => {
                if cancel {
                    a = fail_exec(case, run, now, false, to_owned_string("Cancelled"));
                    run.phase = CasePhase::Finished;
                } else if silence || timed_out {
                    run.phase = CasePhase::Collecting;
                    a.push(CaseAction::StopRecording);
                    a.push(CaseAction::CollectRecording);
                } else {
                    a.push(CaseAction::Sleep(POLL_INTERVAL_MS));
                }
            },
            _ => {},
        },
        CasePhase::Collecting => match ev {
            CaseEvent::Collected { elapsed_sec, audio } => {
                let res = result_of(
                    case,
                    run,
                    now,
                    run.tts_duration_sec,
                    run.tts_audio.clone(),
                    Some(elapsed_sec),
                    audio,
                    None,
                );
                run.phase = CasePhase::Finished;
                a.push(CaseAction::Finish(res));
            },
            _ => {},
        },
        CasePhase::Finished => {},
    }
    assert(case_actions_view(a@) =~= case_next(*case, old(run)@, ev0, now@).1);
    a
}

/// One step of a case (see [`case_next`]); a result that ends now carries
/// the current time as its end time.
pub fn case_step(case: &TtsTestCase, run: &mut CaseRun, ev: CaseEvent) -> (r: Vec<CaseAction>)
    ensures
        exists|now: Seq<char>|
            final(run)@ == case_next(*case, old(run)@, ev, now).0 && case_actions_view(r@) == case_next(
                *case,
                old(run)@,
                ev,
                now,
            ).1,
{
    let now = now_rfc3339();
    case_step_at(case, run, ev, now)
}

// ---------------------------------------------------------------------
// Laws of the drivers
// ---------------------------------------------------------------------

/// Abort: a cancel the session sees (before a case, or while waiting out a
/// pause) ends it as aborted, recording its end.
pub proof fn law_session_cancel_aborts(n: nat, phase: SessionPhase, pause: bool)
    requires
        phase is CaseCheck || (phase is AwaitResume && pause),
    ensures
        session_next(n, phase, SessionEvent::Flags { cancel: true, pause }) == (
            SessionPhase::Finished,
            session_end(TtsTestStatus::Aborted),
        ),
{
}

/// Pause and resume: while the pause flag is set and no cancel is seen,
/// a session waiting before a case only waits one poll interval; once the
/// pause is lifted it runs that same case, marked running.
pub proof fn law_session_pause_holds(n: nat, i: usize)
    ensures
        session_next(n, SessionPhase::AwaitResume(i), SessionEvent::Flags { cancel: false, pause: true }) == (
            SessionPhase::AwaitResume(i),
            seq![SessionAction::Sleep(POLL_INTERVAL_MS)],
        ),
        forall|cancel: bool|
            #![trigger session_next(n, SessionPhase::AwaitResume(i), SessionEvent::Flags { cancel, pause: false })]
            session_next(n, SessionPhase::AwaitResume(i), SessionEvent::Flags { cancel, pause: false }) == (
                SessionPhase::Running(i),
                seq![
                    SessionAction::SetStatus(TtsTestStatus::Running { current_index: i }),
                    SessionAction::Emit,
                    SessionAction::RunCase(i),
                ],
            ),
{
}

/// Cases run in order, each once: a step stays with its case or moves on
/// to the next, and a case is started only by a step that leaves the
/// session running it.
pub proof fn law_cases_in_order(n: nat, phase: SessionPhase, ev: SessionEvent)
    requires
        session_phase_valid(phase, n),
        n <= usize::MAX,
    ensures
        session_phase_valid(session_next(n, phase, ev).0, n),
        forall|k: int|
            0 <= k < session_next(n, phase, ev).1.len() && (#[trigger] session_next(n, phase, ev).1[k]) is RunCase
                ==> session_next(n, phase, ev).0 == SessionPhase::Running(session_next(n, phase, ev).1[k]->RunCase_0),
        phase is Running && session_next(n, phase, ev).0 is CaseCheck ==> session_next(n, phase, ev).0->CaseCheck_0
            == phase->Running_0 + 1,
{
    match phase {
        SessionPhase::Running(i) => {
            if i + 1 < n {
                assert(((i + 1) as nat) as usize == i + 1);
            }
            match ev {
                SessionEvent::CaseDone => {
                    let a = session_next(n, phase, ev).1;
                    if i + 1 < n {
                        assert(a =~= seq![SessionAction::AddResult, SessionAction::Emit]);
                    } else {
                        assert(a =~= seq![
                            SessionAction::AddResult,
                            SessionAction::Emit,
                            SessionAction::SetStatus(TtsTestStatus::Completed),
                            SessionAction::Finalize,
                            SessionAction::Emit,
                            SessionAction::Finish,
                        ]);
                    }
                },
                _ => {},
            }
        },
        SessionPhase::Starting => {
            match ev {
                SessionEvent::Begin => {
                    let a = session_next(n, phase, ev).1;
                    if 0 < n {
                        assert(a =~= seq![
                            SessionAction::SetStatus(TtsTestStatus::Running { current_index: 0 }),
                            SessionAction::Emit,
                        ]);
                    } else {
                        assert(a =~= seq![
                            SessionAction::SetStatus(TtsTestStatus::Running { current_index: 0 }),
                            SessionAction::Emit,
                            SessionAction::SetStatus(TtsTestStatus::Completed),
                            SessionAction::Finalize,
                            SessionAction::Emit,
                            SessionAction::Finish,
                        ]);
                    }
                },
                _ => {},
            }
        },
        _ => {},
    }
}

/// The event is a cancel the case acts on: while it plays, while its
/// playback is paused, or while it waits for silence.
pub open spec fn case_cancel_seen(phase: CasePhase, ev: CaseEvent) -> bool {
    match ev {
        CaseEvent::Flags { cancel, pause } => cancel && (phase is Playing || (phase is PlaybackPaused && pause)),
        CaseEvent::SilenceCheck { cancel, .. } => cancel && phase is AwaitSilence,
        _ => false,
    }
}

/// A cancelled case ends with a result whose error is "Cancelled", and
/// keeps the speech generated for it.
pub proof fn law_case_cancel(case: TtsTestCase, run: CaseRunView, ev: CaseEvent, now: Seq<char>)
    requires
        case_cancel_seen(run.phase, ev),
    ensures
        ({
            let (next, a) = case_next(case, run, ev, now);
            &&& next.phase == CasePhase::Finished
            &&& a.len() > 0
            &&& a.last() matches CaseActionView::Finish(res) && res.error == Some("Cancelled"@)
                && res.tts_audio == run.tts_audio
        }),
{
}

/// Every result a case gives is the result of that case: it names the
/// case and its text, its start and the time it ended; and the case is
/// over once it has given one.
pub proof fn law_case_result_identifies_case(case: TtsTestCase, run: CaseRunView, ev: CaseEvent, now: Seq<char>)
    ensures
        ({
            let (next, a) = case_next(case, run, ev, now);
            forall|k: int|
                0 <= k < a.len() && (#[trigger] a[k]) is Finish ==> {
                    let res = a[k]->Finish_0;
                    &&& res.test_case_id == case.id@
                    &&& res.input_text == case.text@
                    &&& res.started_at == run.started_at
                    &&& res.ended_at == now
                    &&& next.phase == CasePhase::Finished
                    &&& k == a.len() - 1
                }
        }),
{
}


/// The wait for the answer ends on silence or on timeout alike: while a
/// case awaits silence, a check without cancel that saw silence, or found
/// the longest recording time reached, stops the recording and collects
/// it, the case otherwise unchanged; a check that saw neither keeps
/// waiting, one poll interval at a time.
pub proof fn law_recording_wait_ends(
    case: TtsTestCase,
    run: CaseRunView,
    silence: bool,
    timed_out: bool,
    now: Seq<char>,
)
    requires
        run.phase == CasePhase::AwaitSilence,
    ensures
        ({
            let (r, a) = case_next(case, run, CaseEvent::SilenceCheck { cancel: false, silence, timed_out }, now);
            &&& (silence || timed_out) ==> r == CaseRunView { phase: CasePhase::Collecting, ..run } && a == seq![
                CaseActionView::StopRecording,
                CaseActionView::CollectRecording,
            ]
            &&& !silence && !timed_out ==> r == run && a == seq![CaseActionView::Sleep(100)]
        }),
{
}

} // verus!
