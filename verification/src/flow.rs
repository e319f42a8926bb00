//! Events and actions shared by the playback drivers, and the cancellable
//! delay.
//!
//! A driver (scenario execution, playlist playback) is a state machine: the
//! caller hands it what it observed (an [`RunEvent`]), the driver answers
//! with its next state and the [`RunAction`]s to perform, in order. At most
//! one action of a step asks for an answer (a delay, a decode, a load, a
//! player query); when none does, the next event is a fresh reading of the
//! cancel and pause flags.
use vstd::prelude::*;

use crate::scenario::executor::{ScenarioExecStatus, ScenarioExecStatusView};
use crate::types::{F32Bits, F64Bits};

verus! {

/// What loading an audio file into the player came to.
#[derive(Debug)]
pub enum LoadOutcome {
    /// Loaded and playback started.
    Started,
    /// The audio was not among the decoded files; nothing was loaded.
    NotCached,
    /// No audio player exists.
    NoPlayer,
    /// The player refused the audio, with the player's message.
    Failed(String),
}

/// What the caller observed since the last step.
#[derive(Debug)]
pub enum RunEvent {
    /// The run begins.
    Begin,
    /// A reading of the cancel and pause flags.
    Flags { cancel: bool, pause: bool },
    /// A requested delay ended, or was cancelled.
    DelayDone { cancelled: bool },
    /// A requested decode finished, or failed with this message.
    Decoded(Result<(), String>),
    /// A requested load finished.
    Loaded(LoadOutcome),
    /// A player query: whether playback has finished (neither playing nor
    /// paused).
    PlayerDone(bool),
}

/// Length of a requested delay, as the item or turn states it.
#[derive(Debug, Clone, Copy, PartialEq, Eq)]
pub enum DelayLength {
    /// Milliseconds, as an `f64`.
    Millis(F64Bits),
    /// Seconds, as an `f32`.
    Secs(F32Bits),
}

/// One thing for the caller to do.
#[derive(Debug)]
pub enum RunAction {
    /// Record an event in the session log; `turn_details` names the turn
    /// whose description goes with the entry.
    Log { level: String, message: String, turn_details: Option<usize> },
    /// Set the status of the execution.
    SetStatus(ScenarioExecStatus),
    /// Record the turn being played and its file name.
    SetCurrentTurn { index: usize, file_name: String },
    /// Record the playlist item being played.
    SetCurrentItem(usize),
    /// End the session with this status.
    EndSession(String),
    /// Sleep this many milliseconds.
    Sleep(u64),
    /// Run a cancellable delay ([`delay_step`]); answered by `DelayDone`.
    Delay { length: DelayLength, honor_pause: bool },
    /// Decode the audio file at this path; answered by `Decoded`.
    Decode(String),
    /// Load the audio of this turn or item and start playing it; answered
    /// by `Loaded`.
    LoadAndPlay(usize),
    /// Stop the player.
    StopPlayer,
    /// Pause the player.
    PausePlayer,
    /// Resume the player.
    ResumePlayer,
    /// Ask whether playback has finished; answered by `PlayerDone`.
    QueryPlayer,
    /// The run is over, with this result.
    Finish(Result<(), String>),
}

/// The abstract value of a [`RunAction`].
pub enum RunActionView {
    Log { level: Seq<char>, message: Seq<char>, turn_details: Option<usize> },
    SetStatus(ScenarioExecStatusView),
    SetCurrentTurn { index: usize, file_name: Seq<char> },
    SetCurrentItem(usize),
    EndSession(Seq<char>),
    Sleep(u64),
    Delay { length: DelayLength, honor_pause: bool },
    Decode(Seq<char>),
    LoadAndPlay(usize),
    StopPlayer,
    PausePlayer,
    ResumePlayer,
    QueryPlayer,
    Finish(Result<(), Seq<char>>),
}

impl View for RunAction {
    type V = RunActionView;

    open spec fn view(&self) -> RunActionView {
        match self {
            RunAction::Log { level, message, turn_details } => RunActionView::Log {
                level: level@,
                message: message@,
                turn_details: *turn_details,
            },
            RunAction::SetStatus(s) => RunActionView::SetStatus(s@),
            RunAction::SetCurrentTurn { index, file_name } => RunActionView::SetCurrentTurn {
                index: *index,
                file_name: file_name@,
            },
            RunAction::SetCurrentItem(i) => RunActionView::SetCurrentItem(*i),
            RunAction::EndSession(s) => RunActionView::EndSession(s@),
            RunAction::Sleep(ms) => RunActionView::Sleep(*ms),
            RunAction::Delay { length, honor_pause } => RunActionView::Delay {
                length: *length,
                honor_pause: *honor_pause,
            },
            RunAction::Decode(p) => RunActionView::Decode(p@),
            RunAction::LoadAndPlay(i) => RunActionView::LoadAndPlay(*i),
            RunAction::StopPlayer => RunActionView::StopPlayer,
            RunAction::PausePlayer => RunActionView::PausePlayer,
            RunAction::ResumePlayer => RunActionView::ResumePlayer,
            RunAction::QueryPlayer => RunActionView::QueryPlayer,
            RunAction::Finish(r) => RunActionView::Finish(
                match r {
                    Ok(()) => Ok(()),
                    Err(e) => Err(e@),
                },
            ),
        }
    }
}

/// The abstract values of a list of actions.
pub open spec fn actions_view(s: Seq<RunAction>) -> Seq<RunActionView> {
    s.map_values(|a: RunAction| a@)
}

/// Milliseconds between two readings of the flags while waiting.
pub const POLL_INTERVAL_MS: u64 = 100;

/// [`POLL_INTERVAL_MS`] in nanoseconds.
pub const POLL_INTERVAL_NS: u128 = 100_000_000;

/// State of a cancellable delay: the time still to wait, and whether the
/// delay is currently held by the pause flag.
#[derive(Debug, Clone, Copy, PartialEq, Eq)]
pub struct DelayState {
    pub remaining_ns: u128,
    pub held: bool,
}

/// What a cancellable delay does next.
#[derive(Debug, Clone, Copy, PartialEq, Eq)]
pub enum DelayAction {
    /// The delay was cancelled.
    Cancelled,
    /// The whole delay has elapsed.
    Elapsed,
    /// Sleep this many nanoseconds, then read the flags again.
    Sleep(u128),
}

/// A delay is held only while time is left.
pub open spec fn delay_wf(st: DelayState) -> bool {
    st.held ==> st.remaining_ns > 0
}

/// The smaller of the remaining time and one poll interval.
pub open spec fn delay_slice(remaining: u128) -> u128 {
    if remaining < POLL_INTERVAL_NS {
        remaining
    } else {
        POLL_INTERVAL_NS
    }
}

/// One step of a cancellable delay, from its state and a reading of the
/// flags.
///
/// Outside a pause: with nothing left the delay has elapsed; a cancel ends
/// it; a pause holds it (sleeping one interval without using up time);
/// otherwise it sleeps one interval, or what is left if less. While held:
/// as long as the pause lasts, a cancel ends it and otherwise it sleeps one
/// interval; once the pause is lifted it goes on sleeping where it stopped.
pub open spec fn delay_next(st: DelayState, cancel: bool, pause: bool) -> (DelayState, DelayAction) {
    if !st.held {
        if st.remaining_ns == 0 {
            (st, DelayAction::Elapsed)
        } else if cancel {
            (st, DelayAction::Cancelled)
        } else if pause {
            (DelayState { remaining_ns: st.remaining_ns, held: true }, DelayAction::Sleep(POLL_INTERVAL_NS))
        } else {
            (
                DelayState { remaining_ns: (st.remaining_ns - delay_slice(st.remaining_ns)) as u128, held: false },
                DelayAction::Sleep(delay_slice(st.remaining_ns)),
            )
        }
    } else if pause {
        if cancel {
            (st, DelayAction::Cancelled)
        } else {
            (st, DelayAction::Sleep(POLL_INTERVAL_NS))
        }
    } else {
        (
            DelayState { remaining_ns: (st.remaining_ns - delay_slice(st.remaining_ns)) as u128, held: false },
            DelayAction::Sleep(delay_slice(st.remaining_ns)),
        )
    }
}

/// A fresh delay of `ns` nanoseconds.
pub fn delay_start(ns: u128) -> (r: DelayState)
    ensures
        r == (DelayState { remaining_ns: ns, held: false }),
        delay_wf(r),
{
    DelayState { remaining_ns: ns, held: false }
}

/// One step of a cancellable delay (see [`delay_next`]). A delay that does
/// not honour the pause flag is driven with `pause` always false.
///
/// Time is only used up by sleeps outside a pause, and by exactly the
/// length slept, so an uncancelled delay sleeps its full length in those
/// sleeps before it elapses.
pub fn delay_step(st: DelayState, cancel: bool, pause: bool) -> (r: (DelayState, DelayAction))
    ensures
        r == delay_next(st, cancel, pause),
        r.0.remaining_ns <= st.remaining_ns,
        delay_wf(st) ==> delay_wf(r.0),
        delay_wf(st) && r.1 is Sleep ==> r.1->0 > 0,
        r.1 matches DelayAction::Sleep(ns) ==> (if r.0.held {
            r.0.remaining_ns == st.remaining_ns
        } else {
            r.0.remaining_ns + ns == st.remaining_ns
        }),
        r.1 is Elapsed ==> st.remaining_ns == 0,
{
    let slice: u128 = if st.remaining_ns < POLL_INTERVAL_NS {
        st.remaining_ns
    } else {
        POLL_INTERVAL_NS
    };
    if !st.held {
        if st.remaining_ns == 0 {
            (st, DelayAction::Elapsed)
        } else if cancel {
            (st, DelayAction::Cancelled)
        } else if pause {
            (DelayState { remaining_ns: st.remaining_ns, held: true }, DelayAction::Sleep(POLL_INTERVAL_NS))
        } else {
            (DelayState { remaining_ns: st.remaining_ns - slice, held: false }, DelayAction::Sleep(slice))
        }
    } else if pause {
        if cancel {
            (st, DelayAction::Cancelled)
        } else {
            (st, DelayAction::Sleep(POLL_INTERVAL_NS))
        }
    } else {
        (DelayState { remaining_ns: st.remaining_ns - slice, held: false }, DelayAction::Sleep(slice))
    }
}

/// A log action.
pub(crate) fn log_action(level: &str, message: String, turn_details: Option<usize>) -> (r: RunAction)
    ensures
        r@ == (RunActionView::Log { level: level@, message: message@, turn_details }),
{
    RunAction::Log { level: crate::text::to_owned_string(level), message, turn_details }
}

} // verus!
