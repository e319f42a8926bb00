//! Scenario execution: the status record of a running scenario, and the
//! driver that decides, turn by turn, what the execution does next.
//!
//! The driver plays every turn in order: it waits out a pause, applies the
//! delay before the turn, decodes and plays the turn's audio, waits for
//! playback to end (pausing and resuming the player with the pause flag),
//! applies the delay after the turn, and logs each step in the test
//! session. A cancel at any of these points aborts the execution.
use std::sync::atomic::AtomicBool;
use std::sync::Arc;
use vstd::prelude::*;

use crate::flow::{
    actions_view, log_action, DelayLength, LoadOutcome, RunAction, RunActionView, RunEvent,
    POLL_INTERVAL_MS,
};
use crate::paths::{path_file_name, spec_path_file_name};
use crate::text::{decimal, push_decimal, push_str, str_eq, to_owned_string};
use crate::types::{clone_opt_string, f64_bits_positive, ScenarioInfo, ScenarioProgressInfo};

verus! {

/// Current status of a scenario execution
#[derive(Debug)]
pub enum ScenarioExecStatus {
    Running,
    Paused,
    Completed,
    Failed(String),
    Aborted,
}

/// The abstract value of a [`ScenarioExecStatus`].
pub enum ScenarioExecStatusView {
    Running,
    Paused,
    Completed,
    Failed(Seq<char>),
    Aborted,
}

impl View for ScenarioExecStatus {
    type V = ScenarioExecStatusView;

    open spec fn view(&self) -> ScenarioExecStatusView {
        match self {
            ScenarioExecStatus::Running => ScenarioExecStatusView::Running,
            ScenarioExecStatus::Paused => ScenarioExecStatusView::Paused,
            ScenarioExecStatus::Completed => ScenarioExecStatusView::Completed,
            ScenarioExecStatus::Failed(m) => ScenarioExecStatusView::Failed(m@),
            ScenarioExecStatus::Aborted => ScenarioExecStatusView::Aborted,
        }
    }
}

impl Clone for ScenarioExecStatus {
    fn clone(&self) -> (r: Self)
        ensures
            r == *self,
    {
        match self {
            ScenarioExecStatus::Running => ScenarioExecStatus::Running,
            ScenarioExecStatus::Paused => ScenarioExecStatus::Paused,
            ScenarioExecStatus::Completed => ScenarioExecStatus::Completed,
            ScenarioExecStatus::Failed(m) => ScenarioExecStatus::Failed(m.clone()),
            ScenarioExecStatus::Aborted => ScenarioExecStatus::Aborted,
        }
    }
}

/// The lower-case name of an execution status.
pub open spec fn exec_status_name(s: ScenarioExecStatusView) -> Seq<char> {
    match s {
        ScenarioExecStatusView::Running => "running"@,
        ScenarioExecStatusView::Paused => "paused"@,
        ScenarioExecStatusView::Completed => "completed"@,
        ScenarioExecStatusView::Failed(_) => "failed"@,
        ScenarioExecStatusView::Aborted => "aborted"@,
    }
}

impl ScenarioExecStatus {
    /// Convert to a string representation for serialization
    pub fn as_str(&self) -> (r: &'static str)
        ensures
            r@ == exec_status_name(self@),
    {
        match self {
            ScenarioExecStatus::Running => "running",
            ScenarioExecStatus::Paused => "paused",
            ScenarioExecStatus::Completed => "completed",
            ScenarioExecStatus::Failed(_) => "failed",
            ScenarioExecStatus::Aborted => "aborted",
        }
    }
}

/// State tracking for a scenario execution
pub struct ScenarioExecutionState {
    pub session_id: String,
    pub scenario_id: String,
    pub current_turn: usize,
    pub total_turns: usize,
    pub status: ScenarioExecStatus,
    pub cancel: Arc<AtomicBool>,
    pub pause: Arc<AtomicBool>,
    pub current_file_name: Option<String>,
}

// ---------------------------------------------------------------------
// The registry of executions
// ---------------------------------------------------------------------

/// `i` is the first execution recorded for `session_id`.
pub open spec fn is_first_execution(execs: Seq<ScenarioExecutionState>, session_id: Seq<char>, i: int) -> bool {
    &&& 0 <= i < execs.len()
    &&& execs[i].session_id@ == session_id
    &&& forall|j: int| 0 <= j < i ==> execs[j].session_id@ != session_id
}

/// Some execution is recorded for `session_id`.
pub open spec fn has_execution(execs: Seq<ScenarioExecutionState>, session_id: Seq<char>) -> bool {
    exists|i: int| 0 <= i < execs.len() && execs[i].session_id@ == session_id
}

/// The message for an unknown execution.
pub open spec fn execution_not_found(session_id: Seq<char>) -> Seq<char> {
    "Execution not found: "@ + session_id
}

/// A fresh execution record: at turn 0, running, with no file yet.
pub fn new_execution_state(
    session_id: String,
    scenario_id: String,
    total_turns: usize,
    cancel: Arc<AtomicBool>,
    pause: Arc<AtomicBool>,
) -> (r: ScenarioExecutionState)
    ensures
        r.session_id == session_id,
        r.scenario_id == scenario_id,
        r.current_turn == 0,
        r.total_turns == total_turns,
        r.status@ == ScenarioExecStatusView::Running,
        r.cancel == cancel,
        r.pause == pause,
        r.current_file_name is None,
{
    ScenarioExecutionState {
        session_id,
        scenario_id,
        current_turn: 0,
        total_turns,
        status: ScenarioExecStatus::Running,
        cancel,
        pause,
        current_file_name: None,
    }
}

/// Finds the first execution recorded for a session.
pub fn find_execution(execs: &[ScenarioExecutionState], session_id: &str) -> (r: Option<usize>)
    ensures
        match r {
            Some(i) => is_first_execution(execs@, session_id@, i as int),
            None => !has_execution(execs@, session_id@),
        },
{
    let mut i: usize = 0;
    while i < execs.len()
        invariant
            i <= execs@.len(),
            forall|j: int| 0 <= j < i ==> execs@[j].session_id@ != session_id@,
        decreases execs@.len() - i,
    {
        if str_eq(execs[i].session_id.as_str(), session_id) {
            return Some(i);
        }
        i = i + 1;
    }
    None
}

/// The execution recorded for a session, or the error that names it as
/// unknown.
pub fn lookup_execution(execs: &[ScenarioExecutionState], session_id: &str) -> (r: Result<usize, String>)
    ensures
        match r {
            Ok(i) => is_first_execution(execs@, session_id@, i as int),
            Err(e) => !has_execution(execs@, session_id@) && e@ == execution_not_found(session_id@),
        },
{
    match find_execution(execs, session_id) {
        Some(i) => Ok(i),
        None => {
            let mut m = to_owned_string("Execution not found: ");
            push_str(&mut m, session_id);
            Err(m)
        },
    }
}

/// Sets the status of the execution recorded for a session; with none
/// recorded, nothing changes.
pub fn update_execution_status(
    execs: &mut Vec<ScenarioExecutionState>,
    session_id: &str,
    status: ScenarioExecStatus,
)
    ensures
        final(execs)@.len() == old(execs)@.len(),
        !has_execution(old(execs)@, session_id@) ==> final(execs)@ == old(execs)@,
        forall|i: int|
            is_first_execution(old(execs)@, session_id@, i) ==> {
                &&& forall|j: int| 0 <= j < old(execs)@.len() && j != i ==> final(execs)@[j] == old(execs)@[j]
                &&& final(execs)@[i].status == status
                &&& final(execs)@[i].session_id == old(execs)@[i].session_id
                &&& final(execs)@[i].scenario_id == old(execs)@[i].scenario_id
                &&& final(execs)@[i].current_turn == old(execs)@[i].current_turn
                &&& final(execs)@[i].total_turns == old(execs)@[i].total_turns
                &&& final(execs)@[i].cancel == old(execs)@[i].cancel
                &&& final(execs)@[i].pause == old(execs)@[i].pause
                &&& final(execs)@[i].current_file_name == old(execs)@[i].current_file_name
            },
{
    match find_execution(execs.as_slice(), session_id) {
        Some(i) => {
            execs[i].status = status;
        },
        None => {},
    }
}

/// Records the turn an execution is at and the name of its file; with no
/// execution recorded for the session, nothing changes.
pub fn set_current_turn(
    execs: &mut Vec<ScenarioExecutionState>,
    session_id: &str,
    index: usize,
    file_name: String,
)
    ensures
        final(execs)@.len() == old(execs)@.len(),
        !has_execution(old(execs)@, session_id@) ==> final(execs)@ == old(execs)@,
        forall|i: int|
            is_first_execution(old(execs)@, session_id@, i) ==> {
                &&& forall|j: int| 0 <= j < old(execs)@.len() && j != i ==> final(execs)@[j] == old(execs)@[j]
                &&& final(execs)@[i].current_turn == index
                &&& final(execs)@[i].current_file_name == Some(file_name)
                &&& final(execs)@[i].status == old(execs)@[i].status
                &&& final(execs)@[i].session_id == old(execs)@[i].session_id
                &&& final(execs)@[i].scenario_id == old(execs)@[i].scenario_id
                &&& final(execs)@[i].total_turns == old(execs)@[i].total_turns
                &&& final(execs)@[i].cancel == old(execs)@[i].cancel
                &&& final(execs)@[i].pause == old(execs)@[i].pause
            },
{
    match find_execution(execs.as_slice(), session_id) {
        Some(i) => {
            execs[i].current_turn = index;
            execs[i].current_file_name = Some(file_name);
        },
        None => {},
    }
}

/// The progress report of an execution.
pub fn execution_progress(exec: &ScenarioExecutionState) -> (r: ScenarioProgressInfo)
    ensures
        r.session_id@ == exec.session_id@,
        r.scenario_id@ == exec.scenario_id@,
        r.current_turn == exec.current_turn,
        r.total_turns == exec.total_turns,
        r.status@ == exec_status_name(exec.status@),
        r.current_file_name == exec.current_file_name,
{
    ScenarioProgressInfo {
        session_id: exec.session_id.clone(),
        scenario_id: exec.scenario_id.clone(),
        current_turn: exec.current_turn,
        total_turns: exec.total_turns,
        status: to_owned_string(exec.status.as_str()),
        current_file_name: clone_opt_string(&exec.current_file_name),
    }
}

/// The progress of the execution recorded for a session, if any.
pub fn get_scenario_execution_status(execs: &[ScenarioExecutionState], session_id: &str) -> (r: Option<
    ScenarioProgressInfo,
>)
    ensures
        r is None <==> !has_execution(execs@, session_id@),
        forall|i: int|
            is_first_execution(execs@, session_id@, i) ==> {
                let e = execs@[i];
                &&& r matches Some(p)
                &&& p.session_id@ == e.session_id@
                &&& p.scenario_id@ == e.scenario_id@
                &&& p.current_turn == e.current_turn
                &&& p.total_turns == e.total_turns
                &&& p.status@ == exec_status_name(e.status@)
                &&& p.current_file_name == e.current_file_name
            },
{
    match find_execution(execs, session_id) {
        Some(i) => Some(execution_progress(&execs[i])),
        None => None,
    }
}

// ---------------------------------------------------------------------
// Messages
// ---------------------------------------------------------------------

/// `"<prefix><name> (<n> turns)"`.
pub open spec fn summary_msg(prefix: Seq<char>, name: Seq<char>, n: nat) -> Seq<char> {
    prefix + name + " ("@ + decimal(n) + " turns)"@
}

/// `"<prefix><i+1>/<n><sep><file>"`.
pub open spec fn turn_msg(prefix: Seq<char>, i: nat, n: nat, sep: Seq<char>, file: Seq<char>) -> Seq<
    char,
> {
    prefix + decimal(i + 1) + "/"@ + decimal(n) + sep + file
}

/// The message of a turn whose audio could not be decoded.
pub open spec fn decode_failed_msg(path: Seq<char>, err: Seq<char>) -> Seq<char> {
    "Failed to decode audio file "@ + path + ": "@ + err
}

/// The name shown for a turn's audio file: the last component of its path,
/// or the whole path where it has none.
pub open spec fn turn_file_name(audio_file: Seq<char>) -> Seq<char> {
    match spec_path_file_name(audio_file) {
        Some(n) => n,
        None => audio_file,
    }
}

fn summary_message(prefix: &str, name: &str, n: usize) -> (r: String)
    ensures
        r@ == summary_msg(prefix@, name@, n as nat),
{
    let mut r = String::new();
    push_str(&mut r, prefix);
    push_str(&mut r, name);
    push_str(&mut r, " (");
    push_decimal(&mut r, n as u64);
    push_str(&mut r, " turns)");
    assert(r@ =~= summary_msg(prefix@, name@, n as nat));
    r
}

fn turn_message(prefix: &str, i: usize, n: usize, sep: &str, file: &str) -> (r: String)
    requires
        i < n,
    ensures
        r@ == turn_msg(prefix@, i as nat, n as nat, sep@, file@),
{
    let mut r = String::new();
    push_str(&mut r, prefix);
    push_decimal(&mut r, (i + 1) as u64);
    push_str(&mut r, "/");
    push_decimal(&mut r, n as u64);
    push_str(&mut r, sep);
    push_str(&mut r, file);
    assert(r@ =~= turn_msg(prefix@, i as nat, n as nat, sep@, file@));
    r
}

fn concat3(a: &str, b: &str, c: &str, d: &str) -> (r: String)
    ensures
        r@ == a@ + b@ + c@ + d@,
{
    let mut r = String::new();
    push_str(&mut r, a);
    push_str(&mut r, b);
    push_str(&mut r, c);
    push_str(&mut r, d);
    assert(r@ =~= a@ + b@ + c@ + d@);
    r
}

/// The name shown for a turn's audio file (see [`turn_file_name`]).
pub fn file_name_of(audio_file: &str) -> (r: String)
    ensures
        r@ == turn_file_name(audio_file@),
{
    match path_file_name(audio_file) {
        Some(n) => n,
        None => to_owned_string(audio_file),
    }
}

// ---------------------------------------------------------------------
// The driver
// ---------------------------------------------------------------------

/// Where a scenario execution stands.
#[derive(Debug, Clone, Copy, PartialEq, Eq)]
pub enum ScenarioPhase {
    /// Not started.
    Starting,
    /// About to play turn `i`: reads the flags.
    TurnCheck(usize),
    /// Waiting for the pause flag to be lifted before turn `i`.
    AwaitResume(usize),
    /// In the delay before turn `i`.
    PreDelay(usize),
    /// Decoding the audio of turn `i`.
    Decoding(usize),
    /// Loading the audio of turn `i` into the player.
    Loading(usize),
    /// Playing turn `i`: reads the flags.
    Playing(usize),
    /// Playback of turn `i` is paused.
    PlaybackPaused(usize),
    /// Waiting for the player to answer whether turn `i` has finished.
    AwaitPlayer(usize),
    /// In the delay after turn `i`.
    PostDelay(usize),
    /// The execution is over.
    Finished,
}

/// The turn a phase is about, if any.
pub open spec fn phase_turn(p: ScenarioPhase) -> Option<usize> {
    match p {
        ScenarioPhase::TurnCheck(i) => Some(i),
        ScenarioPhase::AwaitResume(i) => Some(i),
        ScenarioPhase::PreDelay(i) => Some(i),
        ScenarioPhase::Decoding(i) => Some(i),
        ScenarioPhase::Loading(i) => Some(i),
        ScenarioPhase::Playing(i) => Some(i),
        ScenarioPhase::PlaybackPaused(i) => Some(i),
        ScenarioPhase::AwaitPlayer(i) => Some(i),
        ScenarioPhase::PostDelay(i) => Some(i),
        _ => None,
    }
}

/// The phase names an existing turn, if it names one.
pub open spec fn phase_valid(p: ScenarioPhase, n: nat) -> bool {
    match phase_turn(p) {
        Some(i) => i < n,
        None => true,
    }
}

/// What ends an aborted execution.
pub open spec fn abort_actions(msg: Seq<char>) -> Seq<RunActionView> {
    seq![
        RunActionView::SetStatus(ScenarioExecStatusView::Aborted),
        RunActionView::Log { level: "warn"@, message: msg, turn_details: None },
        RunActionView::EndSession("aborted"@),
        RunActionView::Finish(Ok(())),
    ]
}

/// Moving on to turn `i`; past the last turn, the execution completes.
pub open spec fn enter_turn(s: ScenarioInfo, i: nat) -> (ScenarioPhase, Seq<RunActionView>) {
    if i < s.turns@.len() {
        (ScenarioPhase::TurnCheck(i as usize), seq![])
    } else {
        (
            ScenarioPhase::Finished,
            seq![
                RunActionView::SetStatus(ScenarioExecStatusView::Completed),
                RunActionView::Log {
                    level: "info"@,
                    message: summary_msg("Scenario completed: "@, s.name@, s.turns@.len()),
                    turn_details: None,
                },
                RunActionView::EndSession("completed"@),
                RunActionView::Finish(Ok(())),
            ],
        )
    }
}

/// Starting turn `i` once no pause holds it: mark it, log it, then the
/// delay before it or, without one, its decode.
pub open spec fn begin_turn(s: ScenarioInfo, i: int) -> (ScenarioPhase, Seq<RunActionView>) {
    let t = s.turns@[i];
    let f = turn_file_name(t.audio_file@);
    let head = seq![
        RunActionView::SetStatus(ScenarioExecStatusView::Running),
        RunActionView::SetCurrentTurn { index: i as usize, file_name: f },
        RunActionView::Log {
            level: "info"@,
            message: turn_msg("Starting turn "@, i as nat, s.turns@.len(), ": "@, f),
            turn_details: Some(i as usize),
        },
    ];
    if f64_bits_positive(t.delay_before_ms) {
        (
            ScenarioPhase::PreDelay(i as usize),
            head.push(
                RunActionView::Delay { length: DelayLength::Millis(t.delay_before_ms), honor_pause: true },
            ),
        )
    } else {
        (ScenarioPhase::Decoding(i as usize), head.push(RunActionView::Decode(t.audio_file@)))
    }
}

/// Turn `i` has played: log it, then the delay after it or the next turn.
pub open spec fn finish_turn(s: ScenarioInfo, i: int) -> (ScenarioPhase, Seq<RunActionView>) {
    let t = s.turns@[i];
    let done = seq![
        RunActionView::Log {
            level: "info"@,
            message: turn_msg(
                "Turn "@,
                i as nat,
                s.turns@.len(),
                " completed: "@,
                turn_file_name(t.audio_file@),
            ),
            turn_details: None,
        },
    ];
    if f64_bits_positive(t.delay_after_ms) {
        (
            ScenarioPhase::PostDelay(i as usize),
            done.push(
                RunActionView::Delay { length: DelayLength::Millis(t.delay_after_ms), honor_pause: true },
            ),
        )
    } else {
        let (p, a) = enter_turn(s, (i + 1) as nat);
        (p, done + a)
    }
}

/// The next phase of a scenario execution and the actions to perform,
/// from its phase and what was observed. An event the phase does not wait
/// for changes nothing.
pub open spec fn scenario_next(s: ScenarioInfo, phase: ScenarioPhase, ev: RunEvent) -> (
    ScenarioPhase,
    Seq<RunActionView>,
) {
    let unchanged = (phase, Seq::<RunActionView>::empty());
    match phase {
        ScenarioPhase::Starting => match ev {
            RunEvent::Begin => {
                let (p, a) = enter_turn(s, 0);
                (
                    p,
                    seq![
                        RunActionView::Log {
                            level: "info"@,
                            message: summary_msg("Starting scenario: "@, s.name@, s.turns@.len()),
                            turn_details: None,
                        },
                    ] + a,
                )
            },
            _ => unchanged,
        },
        ScenarioPhase::TurnCheck(i) => match ev {
            RunEvent::Flags { cancel, pause } => if cancel {
                (ScenarioPhase::Finished, abort_actions("Scenario execution aborted"@))
            } else if pause {
                (
                    ScenarioPhase::AwaitResume(i),
                    seq![
                        RunActionView::SetStatus(ScenarioExecStatusView::Paused),
                        RunActionView::Log {
                            level: "info"@,
                            message: "Scenario paused at turn "@ + decimal((i + 1) as nat),
                            turn_details: None,
                        },
                    ],
                )
            } else {
                (ScenarioPhase::AwaitResume(i), seq![])
            },
            _ => unchanged,
        },
        ScenarioPhase::AwaitResume(i) => match ev {
            RunEvent::Flags { cancel, pause } => if !pause {
                begin_turn(s, i as int)
            } else if cancel {
                (ScenarioPhase::Finished, abort_actions("Scenario aborted while paused"@))
            } else {
                (phase, seq![RunActionView::Sleep(POLL_INTERVAL_MS)])
            },
            _ => unchanged,
        },
        ScenarioPhase::PreDelay(i) => match ev {
            RunEvent::DelayDone { cancelled } => if cancelled {
                (ScenarioPhase::Finished, abort_actions("Scenario aborted during pre-delay"@))
            } else {
                (ScenarioPhase::Decoding(i), seq![RunActionView::Decode(s.turns@[i as int].audio_file@)])
            },
            _ => unchanged,
        },
        ScenarioPhase::Decoding(i) => match ev {
            RunEvent::Decoded(Ok(())) => (ScenarioPhase::Loading(i), seq![RunActionView::LoadAndPlay(i)]),
            RunEvent::Decoded(Err(e)) => {
                let m = decode_failed_msg(s.turns@[i as int].audio_file@, e@);
                (
                    ScenarioPhase::Finished,
                    seq![
                        RunActionView::Log { level: "error"@, message: m, turn_details: None },
                        RunActionView::SetStatus(ScenarioExecStatusView::Failed(m)),
                        RunActionView::EndSession("failed"@),
                        RunActionView::Finish(Err(m)),
                    ],
                )
            },
            _ => unchanged,
        },
        ScenarioPhase::Loading(i) => match ev {
            RunEvent::Loaded(LoadOutcome::Started) => (ScenarioPhase::Playing(i), seq![]),
            RunEvent::Loaded(LoadOutcome::NoPlayer) => (
                ScenarioPhase::Finished,
                seq![RunActionView::Finish(Err("Audio player not available"@))],
            ),
            RunEvent::Loaded(LoadOutcome::Failed(e)) => (
                ScenarioPhase::Finished,
                seq![RunActionView::Finish(Err("Failed to load audio: "@ + e@))],
            ),
            _ => unchanged,
        },
        ScenarioPhase::Playing(i) => match ev {
            RunEvent::Flags { cancel, pause } => if cancel {
                (
                    ScenarioPhase::Finished,
                    seq![RunActionView::StopPlayer] + abort_actions("Scenario aborted during playback"@),
                )
            } else if pause {
                (
                    ScenarioPhase::PlaybackPaused(i),
                    seq![
                        RunActionView::PausePlayer,
                        RunActionView::SetStatus(ScenarioExecStatusView::Paused),
                    ],
                )
            } else {
                (ScenarioPhase::AwaitPlayer(i), seq![RunActionView::QueryPlayer])
            },
            _ => unchanged,
        },
        ScenarioPhase::PlaybackPaused(i) => match ev {
            RunEvent::Flags { cancel, pause } => if !pause {
                (
                    ScenarioPhase::AwaitPlayer(i),
                    seq![
                        RunActionView::ResumePlayer,
                        RunActionView::SetStatus(ScenarioExecStatusView::Running),
                        RunActionView::QueryPlayer,
                    ],
                )
            } else if cancel {
                (
                    ScenarioPhase::Finished,
                    seq![RunActionView::StopPlayer] + abort_actions(
                        "Scenario aborted while paused during playback"@,
                    ),
                )
            } else {
                (phase, seq![RunActionView::Sleep(POLL_INTERVAL_MS)])
            },
            _ => unchanged,
        },
        ScenarioPhase::AwaitPlayer(i) => match ev {
            RunEvent::PlayerDone(done) => if done {
                finish_turn(s, i as int)
            } else {
                (ScenarioPhase::Playing(i), seq![RunActionView::Sleep(POLL_INTERVAL_MS)])
            },
            _ => unchanged,
        },
        ScenarioPhase::PostDelay(i) => match ev {
            RunEvent::DelayDone { cancelled } => if cancelled {
                (ScenarioPhase::Finished, abort_actions("Scenario aborted during post-delay"@))
            } else {
                enter_turn(s, (i + 1) as nat)
            },
            _ => unchanged,
        },
        ScenarioPhase::Finished => unchanged,
    }
}

fn abort_run(msg: &str) -> (r: Vec<RunAction>)
    ensures
        actions_view(r@) == abort_actions(msg@),
{
    let mut r: Vec<RunAction> = Vec::new();
    r.push(RunAction::SetStatus(ScenarioExecStatus::Aborted));
    r.push(log_action("warn", to_owned_string(msg), None));
    r.push(RunAction::EndSession(to_owned_string("aborted")));
    r.push(RunAction::Finish(Ok(())));
    assert(actions_view(r@) =~= abort_actions(msg@));
    r
}

fn stop_and_abort(msg: &str) -> (r: Vec<RunAction>)
    ensures
        actions_view(r@) == seq![RunActionView::StopPlayer] + abort_actions(msg@),
{
    let mut r: Vec<RunAction> = Vec::new();
    r.push(RunAction::StopPlayer);
    r.push(RunAction::SetStatus(ScenarioExecStatus::Aborted));
    r.push(log_action("warn", to_owned_string(msg), None));
    r.push(RunAction::EndSession(to_owned_string("aborted")));
    r.push(RunAction::Finish(Ok(())));
    assert(actions_view(r@) =~= seq![RunActionView::StopPlayer] + abort_actions(msg@));
    r
}

fn enter_turn_exec(s: &ScenarioInfo, i: usize, actions: &mut Vec<RunAction>) -> (r: ScenarioPhase)
    ensures
        r == enter_turn(*s, i as nat).0,
        actions_view(final(actions)@) == actions_view(old(actions)@) + enter_turn(*s, i as nat).1,
        phase_valid(r, s.turns@.len()),
{
    let ghost a0 = actions@;
    if i < s.turns.len() {
        assert(actions_view(actions@) =~= actions_view(a0) + enter_turn(*s, i as nat).1);
        ScenarioPhase::TurnCheck(i)
    } else {
        actions.push(RunAction::SetStatus(ScenarioExecStatus::Completed));
        actions.push(
            log_action(
                "info",
                summary_message("Scenario completed: ", s.name.as_str(), s.turns.len()),
                None,
            ),
        );
        actions.push(RunAction::EndSession(to_owned_string("completed")));
        actions.push(RunAction::Finish(Ok(())));
        assert(actions_view(actions@) =~= actions_view(a0) + enter_turn(*s, i as nat).1);
        ScenarioPhase::Finished
    }
}

fn begin_turn_exec(s: &ScenarioInfo, i: usize) -> (r: (ScenarioPhase, Vec<RunAction>))
    requires
        i < s.turns@.len(),
    ensures
        r.0 == begin_turn(*s, i as int).0,
        actions_view(r.1@) == begin_turn(*s, i as int).1,
        phase_valid(r.0, s.turns@.len()),
{
    let t = &s.turns[i];
    let f = file_name_of(t.audio_file.as_str());
    let msg = turn_message("Starting turn ", i, s.turns.len(), ": ", f.as_str());
    let mut a: Vec<RunAction> = Vec::new();
    a.push(RunAction::SetStatus(ScenarioExecStatus::Running));
    a.push(RunAction::SetCurrentTurn { index: i, file_name: f });
    a.push(log_action("info", msg, Some(i)));
    if t.delay_before_ms.is_positive() {
        a.push(RunAction::Delay { length: DelayLength::Millis(t.delay_before_ms), honor_pause: true });
        assert(actions_view(a@) =~= begin_turn(*s, i as int).1);
        (ScenarioPhase::PreDelay(i), a)
    } else {
        a.push(RunAction::Decode(t.audio_file.clone()));
        assert(actions_view(a@) =~= begin_turn(*s, i as int).1);
        (ScenarioPhase::Decoding(i), a)
    }
}

fn finish_turn_exec(s: &ScenarioInfo, i: usize) -> (r: (ScenarioPhase, Vec<RunAction>))
    requires
        i < s.turns@.len(),
    ensures
        r.0 == finish_turn(*s, i as int).0,
        actions_view(r.1@) == finish_turn(*s, i as int).1,
        phase_valid(r.0, s.turns@.len()),
{
    let t = &s.turns[i];
    let f = file_name_of(t.audio_file.as_str());
    let msg = turn_message("Turn ", i, s.turns.len(), " completed: ", f.as_str());
    let mut a: Vec<RunAction> = Vec::new();
    a.push(log_action("info", msg, None));
    if t.delay_after_ms.is_positive() {
        a.push(RunAction::Delay { length: DelayLength::Millis(t.delay_after_ms), honor_pause: true });
        assert(actions_view(a@) =~= finish_turn(*s, i as int).1);
        (ScenarioPhase::PostDelay(i), a)
    } else {
        let p = enter_turn_exec(s, i + 1, &mut a);
        (p, a)
    }
}

/// One step of a scenario execution (see [`scenario_next`]): the next
/// phase and the actions to perform, in order.
#[verifier::rlimit(50)]
pub fn scenario_step(s: &ScenarioInfo, phase: ScenarioPhase, ev: &RunEvent) -> (r: (
    ScenarioPhase,
    Vec<RunAction>,
))
    requires
        phase_valid(phase, s.turns@.len()),
    ensures
        r.0 == scenario_next(*s, phase, *ev).0,
        actions_view(r.1@) == scenario_next(*s, phase, *ev).1,
        phase_valid(r.0, s.turns@.len()),
{
    let n = s.turns.len();
    let mut a: Vec<RunAction> = Vec::new();
    assert(actions_view(a@) =~= Seq::<RunActionView>::empty());
    match phase {
        ScenarioPhase::Starting => match ev {
            RunEvent::Begin => {
                a.push(log_action("info", summary_message("Starting scenario: ", s.name.as_str(), n), None));
                let p = enter_turn_exec(s, 0, &mut a);
                (p, a)
            },
            _ => (phase, a),
        },
        ScenarioPhase::TurnCheck(i) => match ev {
            RunEvent::Flags { cancel, pause } => {
                if *cancel {
                    (ScenarioPhase::Finished, abort_run("Scenario execution aborted"))
                } else if *pause {
                    let mut m = to_owned_string("Scenario paused at turn ");
                    push_decimal(&mut m, (i + 1) as u64);
                    a.push(RunAction::SetStatus(ScenarioExecStatus::Paused));
                    a.push(log_action("info", m, None));
                    assert(actions_view(a@) =~= scenario_next(*s, phase, *ev).1);
                    (ScenarioPhase::AwaitResume(i), a)
                } else {
                    (ScenarioPhase::AwaitResume(i), a)
                }
            },
            _ => (phase, a),
        },
        ScenarioPhase::AwaitResume(i) => match ev {
            RunEvent::Flags { cancel, pause } => {
                if !*pause {
                    begin_turn_exec(s, i)
                } else if *cancel {
                    (ScenarioPhase::Finished, abort_run("Scenario aborted while paused"))
                } else {
                    a.push(RunAction::Sleep(POLL_INTERVAL_MS));
                    assert(actions_view(a@) =~= scenario_next(*s, phase, *ev).1);
                    (phase, a)
                }
            },
            _ => (phase, a),
        },
        ScenarioPhase::PreDelay(i) => match ev {
            RunEvent::DelayDone { cancelled } => {
                if *cancelled {
                    (ScenarioPhase::Finished, abort_run("Scenario aborted during pre-delay"))
                } else {
                    a.push(RunAction::Decode(s.turns[i].audio_file.clone()));
                    assert(actions_view(a@) =~= scenario_next(*s, phase, *ev).1);
                    (ScenarioPhase::Decoding(i), a)
                }
            },
            _ => (phase, a),
        },
        ScenarioPhase::Decoding(i) => match ev {
            RunEvent::Decoded(Ok(())) => {
                a.push(RunAction::LoadAndPlay(i));
                assert(actions_view(a@) =~= scenario_next(*s, phase, *ev).1);
                (ScenarioPhase::Loading(i), a)
            },
            RunEvent::Decoded(Err(e)) => {
                let m = concat3("Failed to decode audio file ", s.turns[i].audio_file.as_str(), ": ", e.as_str());
                a.push(log_action("error", m.clone(), None));
                a.push(RunAction::SetStatus(ScenarioExecStatus::Failed(m.clone())));
                a.push(RunAction::EndSession(to_owned_string("failed")));
                a.push(RunAction::Finish(Err(m)));
                assert(actions_view(a@) =~= scenario_next(*s, phase, *ev).1);
                (ScenarioPhase::Finished, a)
            },
            _ => (phase, a),
        },
        ScenarioPhase::Loading(i) => match ev {
            RunEvent::Loaded(LoadOutcome::Started) => (ScenarioPhase::Playing(i), a),
            RunEvent::Loaded(LoadOutcome::NoPlayer) => {
                a.push(RunAction::Finish(Err(to_owned_string("Audio player not available"))));
                assert(actions_view(a@) =~= scenario_next(*s, phase, *ev).1);
                (ScenarioPhase::Finished, a)
            },
            RunEvent::Loaded(LoadOutcome::Failed(e)) => {
                let mut m = to_owned_string("Failed to load audio: ");
                push_str(&mut m, e.as_str());
                a.push(RunAction::Finish(Err(m)));
                assert(actions_view(a@) =~= scenario_next(*s, phase, *ev).1);
                (ScenarioPhase::Finished, a)
            },
            _ => (phase, a),
        },
        ScenarioPhase::Playing(i) => match ev {
            RunEvent::Flags { cancel, pause } => {
                if *cancel {
                    (ScenarioPhase::Finished, stop_and_abort("Scenario aborted during playback"))
                } else if *pause {
                    a.push(RunAction::PausePlayer);
                    a.push(RunAction::SetStatus(ScenarioExecStatus::Paused));
                    assert(actions_view(a@) =~= scenario_next(*s, phase, *ev).1);
                    (ScenarioPhase::PlaybackPaused(i), a)
                } else {
                    a.push(RunAction::QueryPlayer);
                    assert(actions_view(a@) =~= scenario_next(*s, phase, *ev).1);
                    (ScenarioPhase::AwaitPlayer(i), a)
                }
            },
            _ => (phase, a),
        },
        ScenarioPhase::PlaybackPaused(i) => match ev {
            RunEvent::Flags { cancel, pause } => {
                if !*pause {
                    a.push(RunAction::ResumePlayer);
                    a.push(RunAction::SetStatus(ScenarioExecStatus::Running));
                    a.push(RunAction::QueryPlayer);
                    assert(actions_view(a@) =~= scenario_next(*s, phase, *ev).1);
                    (ScenarioPhase::AwaitPlayer(i), a)
                } else if *cancel {
                    (ScenarioPhase::Finished, stop_and_abort("Scenario aborted while paused during playback"))
                } else {
                    a.push(RunAction::Sleep(POLL_INTERVAL_MS));
                    assert(actions_view(a@) =~= scenario_next(*s, phase, *ev).1);
                    (phase, a)
                }
            },
            _ => (phase, a),
        },
        ScenarioPhase::AwaitPlayer(i) => match ev {
            RunEvent::PlayerDone(done) => {
                if *done {
                    finish_turn_exec(s, i)
                } else {
                    a.push(RunAction::Sleep(POLL_INTERVAL_MS));
                    assert(actions_view(a@) =~= scenario_next(*s, phase, *ev).1);
                    (ScenarioPhase::Playing(i), a)
                }
            },
            _ => (phase, a),
        },
        ScenarioPhase::PostDelay(i) => match ev {
            RunEvent::DelayDone { cancelled } => {
                if *cancelled {
                    (ScenarioPhase::Finished, abort_run("Scenario aborted during post-delay"))
                } else {
                    let p = enter_turn_exec(s, i + 1, &mut a);
                    (p, a)
                }
            },
            _ => (phase, a),
        },
        ScenarioPhase::Finished => (phase, a),
    }
}

// ---------------------------------------------------------------------
// Laws of the driver
// ---------------------------------------------------------------------

/// The event is a cancel that the phase acts on: a reading of the flags
/// with the cancel flag set (while paused, for the phases that wait out a
/// pause), or a delay that ended by cancellation.
pub open spec fn cancel_seen(phase: ScenarioPhase, ev: RunEvent) -> bool {
    match ev {
        RunEvent::Flags { cancel, pause } => cancel && match phase {
            ScenarioPhase::TurnCheck(_) => true,
            ScenarioPhase::Playing(_) => true,
            ScenarioPhase::AwaitResume(_) => pause,
            ScenarioPhase::PlaybackPaused(_) => pause,
            _ => false,
        },
        RunEvent::DelayDone { cancelled } => cancelled && (phase is PreDelay || phase is PostDelay),
        _ => false,
    }
}

/// The actions end an aborted execution: status aborted, then a warning,
/// the end of the session as aborted, and the end of the run.
pub open spec fn ends_aborted(a: Seq<RunActionView>) -> bool {
    &&& a.len() >= 4
    &&& a[a.len() - 4] == RunActionView::SetStatus(ScenarioExecStatusView::Aborted)
    &&& a[a.len() - 3] matches RunActionView::Log { level, .. } && level == "warn"@
    &&& a[a.len() - 2] == RunActionView::EndSession("aborted"@)
    &&& a[a.len() - 1] == RunActionView::Finish(Ok(()))
}

/// Abort: a cancel the execution sees ends it, with the session ended as
/// aborted.
pub proof fn law_cancel_aborts(s: ScenarioInfo, phase: ScenarioPhase, ev: RunEvent)
    requires
        phase_valid(phase, s.turns@.len()),
        cancel_seen(phase, ev),
    ensures
        scenario_next(s, phase, ev).0 == ScenarioPhase::Finished,
        ends_aborted(scenario_next(s, phase, ev).1),
{
}

/// Pause and resume: while the pause flag is set and no cancel is seen, a
/// paused execution (waiting before a turn, or with its playback paused)
/// only waits one poll interval in the same phase; once the pause is
/// lifted, paused playback resumes the player on the same turn.
pub proof fn law_pause_holds(s: ScenarioInfo, i: usize)
    ensures
        scenario_next(s, ScenarioPhase::AwaitResume(i), RunEvent::Flags { cancel: false, pause: true }) == (
            ScenarioPhase::AwaitResume(i),
            seq![RunActionView::Sleep(POLL_INTERVAL_MS)],
        ),
        scenario_next(s, ScenarioPhase::PlaybackPaused(i), RunEvent::Flags { cancel: false, pause: true }) == (
            ScenarioPhase::PlaybackPaused(i),
            seq![RunActionView::Sleep(POLL_INTERVAL_MS)],
        ),
        forall|cancel: bool|
            #![trigger scenario_next(s, ScenarioPhase::PlaybackPaused(i), RunEvent::Flags { cancel, pause: false })]
            scenario_next(s, ScenarioPhase::PlaybackPaused(i), RunEvent::Flags { cancel, pause: false }).0
                == ScenarioPhase::AwaitPlayer(i) && scenario_next(
                s,
                ScenarioPhase::PlaybackPaused(i),
                RunEvent::Flags { cancel, pause: false },
            ).1[0] == RunActionView::ResumePlayer,
{
}

/// A finished execution stays finished and does nothing more.
pub proof fn law_finished_is_final(s: ScenarioInfo, ev: RunEvent)
    ensures
        scenario_next(s, ScenarioPhase::Finished, ev) == (ScenarioPhase::Finished, Seq::<RunActionView>::empty()),
{
}

/// Turns are played in order: a step stays with its turn or moves on to
/// the next one; a run starts with the first turn.
pub proof fn law_turns_in_order(s: ScenarioInfo, phase: ScenarioPhase, ev: RunEvent)
    requires
        phase_valid(phase, s.turns@.len()),
        s.turns@.len() <= usize::MAX,
    ensures
        phase_valid(scenario_next(s, phase, ev).0, s.turns@.len()),
        phase_turn(phase) is Some && phase_turn(scenario_next(s, phase, ev).0) is Some ==> {
            let i = phase_turn(phase)->0;
            let j = phase_turn(scenario_next(s, phase, ev).0)->0;
            j == i || j == i + 1
        },
        phase is Starting && phase_turn(scenario_next(s, phase, ev).0) is Some ==> phase_turn(
            scenario_next(s, phase, ev).0,
        )->0 == 0,
{
    match phase {
        ScenarioPhase::AwaitResume(i) => {
            assert((i as int) as usize == i);
        },
        ScenarioPhase::AwaitPlayer(i) => {
            assert((i as int) as usize == i);
            if i + 1 < s.turns@.len() {
                assert(((i + 1) as nat) as usize == i + 1);
            }
        },
        ScenarioPhase::PostDelay(i) => {
            if i + 1 < s.turns@.len() {
                assert(((i + 1) as nat) as usize == i + 1);
            }
        },
        _ => {},
    }
}

/// An execution that ends says so last: the step that finishes it ends
/// with `Finish`, and the session is ended only by a step that finishes
/// the execution.
pub proof fn law_run_ends_with_finish(s: ScenarioInfo, phase: ScenarioPhase, ev: RunEvent)
    requires
        phase_valid(phase, s.turns@.len()),
        phase != ScenarioPhase::Finished,
    ensures
        ({
            let (next, a) = scenario_next(s, phase, ev);
            &&& next == ScenarioPhase::Finished ==> a.len() > 0 && a.last() is Finish
            &&& (exists|k: int| 0 <= k < a.len() && a[k] is EndSession) ==> next == ScenarioPhase::Finished
        }),
{
    let (next, a) = scenario_next(s, phase, ev);
    if exists|k: int| 0 <= k < a.len() && a[k] is EndSession {
        let k = choose|k: int| 0 <= k < a.len() && a[k] is EndSession;
        if next != ScenarioPhase::Finished {
            assert(a[k] is EndSession);
        }
    }
}


/// Each turn waits its own delays: once no pause holds turn `i`, a
/// positive `delay_before_ms` of that turn is waited (pausable) before
/// it, as the last action of the step, and without one its audio is
/// decoded at once; when the turn has played, a positive
/// `delay_after_ms` of that turn is waited after it; a pre-delay that
/// runs out decodes the turn's own audio.
pub proof fn law_turn_delays_are_its_own(s: ScenarioInfo, i: usize)
    requires
        i < s.turns@.len(),
    ensures
        ({
            let t = s.turns@[i as int];
            let (p, a) = scenario_next(s, ScenarioPhase::AwaitResume(i), RunEvent::Flags { cancel: false, pause: false });
            &&& 0 < t.delay_before_ms.0 <= 0x7ff0_0000_0000_0000u64 ==> p == ScenarioPhase::PreDelay(i) && a.len()
                > 0 && a.last() == RunActionView::Delay {
                length: DelayLength::Millis(t.delay_before_ms),
                honor_pause: true,
            }
            &&& !(0 < t.delay_before_ms.0 <= 0x7ff0_0000_0000_0000u64) ==> p == ScenarioPhase::Decoding(i) && a.len()
                > 0 && a.last() == RunActionView::Decode(t.audio_file@)
        }),
        ({
            let t = s.turns@[i as int];
            let (p, a) = scenario_next(s, ScenarioPhase::AwaitPlayer(i), RunEvent::PlayerDone(true));
            0 < t.delay_after_ms.0 <= 0x7ff0_0000_0000_0000u64 ==> p == ScenarioPhase::PostDelay(i) && a.len() > 0
                && a.last() == RunActionView::Delay { length: DelayLength::Millis(t.delay_after_ms), honor_pause: true }
        }),
        scenario_next(s, ScenarioPhase::PreDelay(i), RunEvent::DelayDone { cancelled: false }) == (
            ScenarioPhase::Decoding(i),
            seq![RunActionView::Decode(s.turns@[i as int].audio_file@)],
        ),
{
    assert((i as int) as usize == i);
}

} // verus!
