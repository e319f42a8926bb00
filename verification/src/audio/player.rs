//! The player's control: what the playback thread does with each command.
//!
//! The thread owns the output stream, the current audio and at most one
//! sink (a queue playing the audio from some offset), and keeps the
//! playback position as an offset plus the time since a timer started,
//! scaled by the speed. Positions, volumes and speeds are floating point
//! and stay with the caller; this module decides, from the discrete state
//! and each event, which operations the thread performs, in order.
use vstd::prelude::*;

verus! {

/// The sink, if there is one, and whether it is paused.
#[derive(Debug, Clone, Copy, PartialEq, Eq, Structural)]
pub enum SinkState {
    Absent,
    Running,
    Held,
}

/// What the playback thread waits for next.
#[derive(Debug, Clone, Copy, PartialEq, Eq, Structural)]
pub enum Awaiting {
    /// A command, or the end of the poll interval.
    Command,
    /// Whether the sink asked for by a play could be created.
    SinkForPlay,
    /// Whether the sink asked for by a seek could be created.
    SinkForSeek,
    /// Whether the position computed from the timer has reached the end.
    Position,
    /// Nothing: the thread has ended.
    Exited,
}

/// The discrete state of the player.
#[derive(Debug, Clone, Copy, PartialEq, Eq, Structural)]
pub struct PlayerCore {
    /// An output stream could be opened.
    pub has_output: bool,
    /// Audio has been loaded.
    pub has_audio: bool,
    pub sink: SinkState,
    /// The playback timer runs.
    pub timing: bool,
    /// The published status: playing.
    pub playing: bool,
    /// The published status: paused.
    pub paused: bool,
    pub awaiting: Awaiting,
}

/// What the playback thread observed.
#[derive(Debug, Clone, Copy, PartialEq, Eq, Structural)]
pub enum PlayerEvent {
    Load,
    Play,
    Pause,
    Stop,
    Seek,
    SetVolume,
    SetSpeed,
    Shutdown,
    /// The poll interval ended without a command.
    Idle,
    /// The command channel is closed.
    Disconnected,
    /// The requested sink was created (and installed) or not.
    SinkCreated(bool),
    /// The position was computed from the timer; whether it reached the
    /// duration of the audio.
    PositionChecked { reached_end: bool },
}

/// Which position is published.
#[derive(Debug, Clone, Copy, PartialEq, Eq, Structural)]
pub enum PositionOf {
    Zero,
    /// The offset.
    Offset,
    /// The offset plus the scaled time of the timer.
    Current,
    /// The duration of the audio.
    Duration,
}

/// One operation of the playback thread.
#[derive(Debug, Clone, Copy, PartialEq, Eq, Structural)]
pub enum PlayerOp {
    /// Stop the sink and drop it.
    StopSink,
    ResumeSink,
    PauseSink,
    /// Create a sink playing the audio from the offset, with the
    /// configured volume and speed, and install it in place of any other;
    /// answered by `SinkCreated`.
    CreateSink,
    /// The audio just loaded becomes the current audio.
    TakeAudio,
    StartTimer,
    /// Add the scaled time of the timer to the offset, and stop the timer.
    AccumulateTime,
    ClearTimer,
    ResetOffset,
    /// The offset becomes the requested seek position, clamped to the
    /// audio.
    SeekOffset,
    /// The speed that scales the timer becomes the configured speed.
    UseConfiguredSpeed,
    /// Apply the requested volume (clamped) to the sink and the settings.
    ApplyVolume,
    /// Apply the requested speed (clamped) to the timer, the sink and the
    /// settings.
    ApplySpeed,
    SetPosition(PositionOf),
    /// End the thread.
    Exit,
}

/// The player before any command: idle, waiting for commands.
pub open spec fn initial_core(has_output: bool) -> PlayerCore {
    PlayerCore {
        has_output,
        has_audio: false,
        sink: SinkState::Absent,
        timing: false,
        playing: false,
        paused: false,
        awaiting: Awaiting::Command,
    }
}

/// After a command: the position is checked while playing with the timer
/// running; otherwise the next command is awaited.
pub open spec fn after_command(c: PlayerCore) -> PlayerCore {
    PlayerCore {
        awaiting: if c.playing && c.timing {
            Awaiting::Position
        } else {
            Awaiting::Command
        },
        ..c
    }
}

/// Stopping the sink where there is one.
pub open spec fn stop_sink_ops(c: PlayerCore) -> Seq<PlayerOp> {
    if c.sink == SinkState::Absent {
        seq![]
    } else {
        seq![PlayerOp::StopSink]
    }
}

/// The player with no sink, no timer, neither playing nor paused.
pub open spec fn idle(c: PlayerCore) -> PlayerCore {
    PlayerCore { sink: SinkState::Absent, timing: false, playing: false, paused: false, ..c }
}

/// What a command does while commands are awaited.
pub open spec fn on_command(c: PlayerCore, ev: PlayerEvent) -> (PlayerCore, Seq<PlayerOp>) {
    match ev {
        PlayerEvent::Load => (
            after_command(PlayerCore { has_audio: true, ..idle(c) }),
            stop_sink_ops(c) + seq![
                PlayerOp::ClearTimer,
                PlayerOp::ResetOffset,
                PlayerOp::TakeAudio,
                PlayerOp::SetPosition(PositionOf::Zero),
            ],
        ),
        PlayerEvent::Play => if c.has_output && c.has_audio {
            if c.sink == SinkState::Held {
                (
                    PlayerCore {
                        sink: SinkState::Running,
                        timing: true,
                        playing: true,
                        paused: false,
                        awaiting: Awaiting::Command,
                        ..c
                    },
                    seq![PlayerOp::ResumeSink, PlayerOp::StartTimer],
                )
            } else {
                (
                    PlayerCore { awaiting: Awaiting::SinkForPlay, ..c },
                    seq![PlayerOp::UseConfiguredSpeed, PlayerOp::CreateSink],
                )
            }
        } else {
            (after_command(c), seq![])
        },
        PlayerEvent::Pause => if c.sink == SinkState::Absent {
            (after_command(c), seq![])
        } else {
            (
                after_command(PlayerCore { sink: SinkState::Held, timing: false, playing: false, paused: true, ..c }),
                seq![PlayerOp::PauseSink] + (if c.timing {
                    seq![PlayerOp::AccumulateTime]
                } else {
                    seq![]
                }) + seq![
                    PlayerOp::SetPosition(PositionOf::Offset),
                ],
            )
        },
        PlayerEvent::Stop => (
            after_command(idle(c)),
            stop_sink_ops(c) + seq![
                PlayerOp::ClearTimer,
                PlayerOp::ResetOffset,
                PlayerOp::SetPosition(PositionOf::Zero),
            ],
        ),
        PlayerEvent::Seek => if !c.has_audio {
            (after_command(c), seq![])
        } else if c.playing {
            if c.has_output {
                (
                    PlayerCore { sink: SinkState::Absent, awaiting: Awaiting::SinkForSeek, ..c },
                    seq![PlayerOp::SeekOffset] + stop_sink_ops(c) + seq![
                        PlayerOp::UseConfiguredSpeed,
                        PlayerOp::CreateSink,
                    ],
                )
            } else {
                (
                    after_command(PlayerCore { sink: SinkState::Absent, ..c }),
                    seq![PlayerOp::SeekOffset] + stop_sink_ops(c) + seq![PlayerOp::SetPosition(PositionOf::Offset)],
                )
            }
        } else {
            (
                after_command(PlayerCore { sink: SinkState::Absent, timing: false, ..c }),
                seq![PlayerOp::SeekOffset] + stop_sink_ops(c) + seq![
                    PlayerOp::ClearTimer,
                    PlayerOp::SetPosition(PositionOf::Offset),
                ],
            )
        },
        PlayerEvent::SetVolume => (after_command(c), seq![PlayerOp::ApplyVolume]),
        PlayerEvent::SetSpeed => (
            after_command(c),
            (if c.timing {
                seq![PlayerOp::AccumulateTime, PlayerOp::StartTimer]
            } else {
                seq![]
            }) + seq![PlayerOp::ApplySpeed],
        ),
        PlayerEvent::Shutdown => (
            PlayerCore { awaiting: Awaiting::Exited, ..c },
            stop_sink_ops(c) + seq![PlayerOp::Exit],
        ),
        PlayerEvent::Disconnected => (PlayerCore { awaiting: Awaiting::Exited, ..c }, seq![PlayerOp::Exit]),
        PlayerEvent::Idle => (after_command(c), seq![]),
        _ => (c, seq![]),
    }
}

/// One step of the playback thread: its next state and the operations to
/// perform, in order. An event that does not answer what is awaited
/// changes nothing.
pub open spec fn player_next(c: PlayerCore, ev: PlayerEvent) -> (PlayerCore, Seq<PlayerOp>) {
    let unchanged = (c, Seq::<PlayerOp>::empty());
    match c.awaiting {
        Awaiting::Command => on_command(c, ev),
        Awaiting::SinkForPlay => match ev {
            PlayerEvent::SinkCreated(ok) => if ok {
                (
                    after_command(PlayerCore { sink: SinkState::Running, timing: true, playing: true, paused: false, ..c }),
                    seq![PlayerOp::StartTimer],
                )
            } else {
                (after_command(c), seq![])
            },
            _ => unchanged,
        },
        Awaiting::SinkForSeek => match ev {
            PlayerEvent::SinkCreated(ok) => if ok {
                (
                    after_command(PlayerCore { sink: SinkState::Running, timing: true, ..c }),
                    seq![PlayerOp::StartTimer, PlayerOp::SetPosition(PositionOf::Offset)],
                )
            } else {
                (after_command(c), seq![PlayerOp::SetPosition(PositionOf::Offset)])
            },
            _ => unchanged,
        },
        Awaiting::Position => match ev {
            PlayerEvent::PositionChecked { reached_end } => if reached_end {
                (
                    PlayerCore { awaiting: Awaiting::Command, ..idle(c) },
                    seq![
                        PlayerOp::SetPosition(PositionOf::Current),
                        PlayerOp::SetPosition(PositionOf::Duration),
                        PlayerOp::ClearTimer,
                        PlayerOp::ResetOffset,
                    ] + stop_sink_ops(c),
                )
            } else {
                (PlayerCore { awaiting: Awaiting::Command, ..c }, seq![PlayerOp::SetPosition(PositionOf::Current)])
            },
            _ => unchanged,
        },
        Awaiting::Exited => unchanged,
    }
}

/// The player of a playback thread that has just started, with or without
/// an output stream.
pub fn player_start(has_output: bool) -> (r: PlayerCore)
    ensures
        r == initial_core(has_output),
{
    PlayerCore {
        has_output,
        has_audio: false,
        sink: SinkState::Absent,
        timing: false,
        playing: false,
        paused: false,
        awaiting: Awaiting::Command,
    }
}

/// What loading new audio publishes at once, before the thread takes the
/// audio: neither playing nor paused.
pub fn load_requested(c: &mut PlayerCore)
    ensures
        *final(c) == (PlayerCore { playing: false, paused: false, ..*old(c) }),
{
    c.playing = false;
    c.paused = false;
}

fn stop_sink_into(c: PlayerCore, ops: &mut Vec<PlayerOp>)
    ensures
        final(ops)@ == old(ops)@ + stop_sink_ops(c),
{
    if c.sink != SinkState::Absent {
        ops.push(PlayerOp::StopSink);
    }
    assert(final(ops)@ =~= old(ops)@ + stop_sink_ops(c));
}

fn after_command_exec(c: PlayerCore) -> (r: PlayerCore)
    ensures
        r == after_command(c),
{
    PlayerCore {
        awaiting: if c.playing && c.timing {
            Awaiting::Position
        } else {
            Awaiting::Command
        },
        ..c
    }
}

fn idle_exec(c: PlayerCore) -> (r: PlayerCore)
    ensures
        r == idle(c),
{
    PlayerCore { sink: SinkState::Absent, timing: false, playing: false, paused: false, ..c }
}

fn on_command_exec(c: PlayerCore, ev: PlayerEvent) -> (r: (PlayerCore, Vec<PlayerOp>))
    ensures
        r.0 == on_command(c, ev).0,
        r.1@ == on_command(c, ev).1,
{
    let mut ops: Vec<PlayerOp> = Vec::new();
    match ev {
        PlayerEvent::Load => {
            stop_sink_into(c, &mut ops);
            ops.push(PlayerOp::ClearTimer);
            ops.push(PlayerOp::ResetOffset);
            ops.push(PlayerOp::TakeAudio);
            ops.push(PlayerOp::SetPosition(PositionOf::Zero));
            assert(ops@ =~= on_command(c, ev).1);
            (after_command_exec(PlayerCore { has_audio: true, ..idle_exec(c) }), ops)
        },
        PlayerEvent::Play => {
            if c.has_output && c.has_audio {
                if c.sink == SinkState::Held {
                    ops.push(PlayerOp::ResumeSink);
                    ops.push(PlayerOp::StartTimer);
                    assert(ops@ =~= on_command(c, ev).1);
                    (
                        PlayerCore {
                            sink: SinkState::Running,
                            timing: true,
                            playing: true,
                            paused: false,
                            awaiting: Awaiting::Command,
                            ..c
                        },
                        ops,
                    )
                } else {
                    ops.push(PlayerOp::UseConfiguredSpeed);
                    ops.push(PlayerOp::CreateSink);
                    assert(ops@ =~= on_command(c, ev).1);
                    (PlayerCore { awaiting: Awaiting::SinkForPlay, ..c }, ops)
                }
            } else {
                assert(ops@ =~= on_command(c, ev).1);
                (after_command_exec(c), ops)
            }
        },
        PlayerEvent::Pause => {
            if c.sink == SinkState::Absent {
                assert(ops@ =~= on_command(c, ev).1);
                (after_command_exec(c), ops)
            } else {
                ops.push(PlayerOp::PauseSink);
                if c.timing {
                    ops.push(PlayerOp::AccumulateTime);
                }
                ops.push(PlayerOp::SetPosition(PositionOf::Offset));
                assert(ops@ =~= on_command(c, ev).1);
                (
                    after_command_exec(
                        PlayerCore { sink: SinkState::Held, timing: false, playing: false, paused: true, ..c },
                    ),
                    ops,
                )
            }
        },
        PlayerEvent::Stop => {
            stop_sink_into(c, &mut ops);
            ops.push(PlayerOp::ClearTimer);
            ops.push(PlayerOp::ResetOffset);
            ops.push(PlayerOp::SetPosition(PositionOf::Zero));
            assert(ops@ =~= on_command(c, ev).1);
            (after_command_exec(idle_exec(c)), ops)
        },
        PlayerEvent::Seek => {
            if !c.has_audio {
                assert(ops@ =~= on_command(c, ev).1);
                (after_command_exec(c), ops)
            } else {
                ops.push(PlayerOp::SeekOffset);
                stop_sink_into(c, &mut ops);
                if c.playing {
                    if c.has_output {
                        ops.push(PlayerOp::UseConfiguredSpeed);
                        ops.push(PlayerOp::CreateSink);
                        assert(ops@ =~= on_command(c, ev).1);
                        (PlayerCore { sink: SinkState::Absent, awaiting: Awaiting::SinkForSeek, ..c }, ops)
                    } else {
                        ops.push(PlayerOp::SetPosition(PositionOf::Offset));
                        assert(ops@ =~= on_command(c, ev).1);
                        (after_command_exec(PlayerCore { sink: SinkState::Absent, ..c }), ops)
                    }
                } else {
                    ops.push(PlayerOp::ClearTimer);
                    ops.push(PlayerOp::SetPosition(PositionOf::Offset));
                    assert(ops@ =~= on_command(c, ev).1);
                    (after_command_exec(PlayerCore { sink: SinkState::Absent, timing: false, ..c }), ops)
                }
            }
        },
        PlayerEvent::SetVolume => {
            ops.push(PlayerOp::ApplyVolume);
            assert(ops@ =~= on_command(c, ev).1);
            (after_command_exec(c), ops)
        },
        PlayerEvent::SetSpeed => {
            if c.timing {
                ops.push(PlayerOp::AccumulateTime);
                ops.push(PlayerOp::StartTimer);
            }
            ops.push(PlayerOp::ApplySpeed);
            assert(ops@ =~= on_command(c, ev).1);
            (after_command_exec(c), ops)
        },
        PlayerEvent::Shutdown => {
            stop_sink_into(c, &mut ops);
            ops.push(PlayerOp::Exit);
            assert(ops@ =~= on_command(c, ev).1);
            (PlayerCore { awaiting: Awaiting::Exited, ..c }, ops)
        },
        PlayerEvent::Disconnected => {
            ops.push(PlayerOp::Exit);
            assert(ops@ =~= on_command(c, ev).1);
            (PlayerCore { awaiting: Awaiting::Exited, ..c }, ops)
        },
        PlayerEvent::Idle => {
            assert(ops@ =~= on_command(c, ev).1);
            (after_command_exec(c), ops)
        },
        _ => {
            assert(ops@ =~= on_command(c, ev).1);
            (c, ops)
        },
    }
}

/// One step of the playback thread (see [`player_next`]).
pub fn player_step(c: PlayerCore, ev: PlayerEvent) -> (r: (PlayerCore, Vec<PlayerOp>))
    ensures
        r.0 == player_next(c, ev).0,
        r.1@ == player_next(c, ev).1,
{
    let mut ops: Vec<PlayerOp> = Vec::new();
    match c.awaiting {
        Awaiting::Command => on_command_exec(c, ev),
        Awaiting::SinkForPlay => match ev {
            PlayerEvent::SinkCreated(ok) => {
                if ok {
                    ops.push(PlayerOp::StartTimer);
                    assert(ops@ =~= player_next(c, ev).1);
                    (
                        after_command_exec(
                            PlayerCore { sink: SinkState::Running, timing: true, playing: true, paused: false, ..c },
                        ),
                        ops,
                    )
                } else {
                    assert(ops@ =~= player_next(c, ev).1);
                    (after_command_exec(c), ops)
                }
            },
            _ => {
                assert(ops@ =~= player_next(c, ev).1);
                (c, ops)
            },
        },
        Awaiting::SinkForSeek => match ev {
            PlayerEvent::SinkCreated(ok) => {
                if ok {
                    ops.push(PlayerOp::StartTimer);
                    ops.push(PlayerOp::SetPosition(PositionOf::Offset));
                    assert(ops@ =~= player_next(c, ev).1);
                    (after_command_exec(PlayerCore { sink: SinkState::Running, timing: true, ..c }), ops)
                } else {
                    ops.push(PlayerOp::SetPosition(PositionOf::Offset));
                    assert(ops@ =~= player_next(c, ev).1);
                    (after_command_exec(c), ops)
                }
            },
            _ => {
                assert(ops@ =~= player_next(c, ev).1);
                (c, ops)
            },
        },
        Awaiting::Position => match ev {
            PlayerEvent::PositionChecked { reached_end } => {
                ops.push(PlayerOp::SetPosition(PositionOf::Current));
                if reached_end {
                    ops.push(PlayerOp::SetPosition(PositionOf::Duration));
                    ops.push(PlayerOp::ClearTimer);
                    ops.push(PlayerOp::ResetOffset);
                    stop_sink_into(c, &mut ops);
                    assert(ops@ =~= player_next(c, ev).1);
                    (PlayerCore { awaiting: Awaiting::Command, ..idle_exec(c) }, ops)
                } else {
                    assert(ops@ =~= player_next(c, ev).1);
                    (PlayerCore { awaiting: Awaiting::Command, ..c }, ops)
                }
            },
            _ => {
                assert(ops@ =~= player_next(c, ev).1);
                (c, ops)
            },
        },
        Awaiting::Exited => {
            assert(ops@ =~= player_next(c, ev).1);
            (c, ops)
        },
    }
}

// ---------------------------------------------------------------------
// Laws of the player
// ---------------------------------------------------------------------

/// The published status is never both playing and paused, and the timer
/// runs whenever it says playing.
pub open spec fn core_wf(c: PlayerCore) -> bool {
    &&& !(c.playing && c.paused)
    &&& c.playing ==> c.timing
}

/// Every step, and the status published when loading is requested, keep
/// the status consistent: never both playing and paused, and timed while
/// playing.
pub proof fn law_player_status_consistent(c: PlayerCore, ev: PlayerEvent)
    requires
        core_wf(c),
    ensures
        core_wf(player_next(c, ev).0),
        core_wf(PlayerCore { playing: false, paused: false, ..c }),
{
}

/// The player after a run from `c`: each element is either an event the
/// thread handles (`Some`) or a load requested by the caller (`None`),
/// which publishes neither playing nor paused.
pub open spec fn player_run(c: PlayerCore, evs: Seq<Option<PlayerEvent>>) -> PlayerCore
    decreases evs.len(),
{
    if evs.len() == 0 {
        c
    } else {
        let before = player_run(c, evs.drop_last());
        match evs.last() {
            Some(ev) => player_next(before, ev).0,
            None => PlayerCore { playing: false, paused: false, ..before },
        }
    }
}

proof fn lemma_run_keeps_wf(c: PlayerCore, evs: Seq<Option<PlayerEvent>>)
    requires
        core_wf(c),
    ensures
        core_wf(player_run(c, evs)),
    decreases evs.len(),
{
    if evs.len() > 0 {
        lemma_run_keeps_wf(c, evs.drop_last());
        let before = player_run(c, evs.drop_last());
        match evs.last() {
            Some(ev) => law_player_status_consistent(before, ev),
            None => {},
        }
    }
}

/// A playback thread's status stays consistent over any run: from its
/// start, through any sequence of commands, position checks and load
/// requests, it is never both playing and paused, and it is timed while
/// playing.
pub proof fn law_player_runs_consistent(has_output: bool, evs: Seq<Option<PlayerEvent>>)
    ensures
        core_wf(initial_core(has_output)),
        core_wf(player_run(initial_core(has_output), evs)),
{
    lemma_run_keeps_wf(initial_core(has_output), evs);
}

/// Stop, while commands are awaited, leaves the player without sink or
/// timer, neither playing nor paused, at position zero.
pub proof fn law_stop_resets(c: PlayerCore)
    requires
        c.awaiting == Awaiting::Command,
    ensures
        ({
            let (n, ops) = player_next(c, PlayerEvent::Stop);
            &&& n.sink == SinkState::Absent && !n.timing && !n.playing && !n.paused
            &&& n.awaiting == Awaiting::Command
            &&& n.has_audio == c.has_audio
            &&& ops.last() == PlayerOp::SetPosition(PositionOf::Zero)
        }),
{
}

/// Loading, while commands are awaited, makes the new audio current and
/// leaves the player stopped at its start.
pub proof fn law_load_starts_over(c: PlayerCore)
    requires
        c.awaiting == Awaiting::Command,
    ensures
        ({
            let (n, ops) = player_next(c, PlayerEvent::Load);
            &&& n.has_audio && n.sink == SinkState::Absent && !n.timing && !n.playing && !n.paused
            &&& ops.contains(PlayerOp::TakeAudio)
            &&& ops.last() == PlayerOp::SetPosition(PositionOf::Zero)
        }),
{
    let ops = player_next(c, PlayerEvent::Load).1;
    assert(ops[ops.len() - 2] == PlayerOp::TakeAudio);
}

/// Play without audio or without an output stream does nothing.
pub proof fn law_play_needs_audio_and_output(c: PlayerCore)
    requires
        c.awaiting == Awaiting::Command,
        !c.has_audio || !c.has_output,
    ensures
        player_next(c, PlayerEvent::Play).1.len() == 0,
        player_next(c, PlayerEvent::Play).0 == after_command(c),
{
}

/// Playback that reaches the end of the audio stops: no sink, no timer,
/// neither playing nor paused, the position at the duration.
pub proof fn law_end_of_audio_stops(c: PlayerCore)
    requires
        c.awaiting == Awaiting::Position,
    ensures
        ({
            let (n, ops) = player_next(c, PlayerEvent::PositionChecked { reached_end: true });
            &&& n.sink == SinkState::Absent && !n.timing && !n.playing && !n.paused
            &&& n.awaiting == Awaiting::Command
            &&& ops[1] == PlayerOp::SetPosition(PositionOf::Duration)
        }),
{
}

/// Once the thread has ended, nothing changes it.
pub proof fn law_exit_is_final(c: PlayerCore, ev: PlayerEvent)
    requires
        c.awaiting == Awaiting::Exited,
    ensures
        player_next(c, ev) == (c, Seq::<PlayerOp>::empty()),
{
}

} // verus!
