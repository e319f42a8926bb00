use voice_test_tool::audio::player::{
    load_requested, player_start, player_step, Awaiting, PlayerCore, PlayerEvent, PlayerOp, PositionOf, SinkState,
};

fn step(c: PlayerCore, ev: PlayerEvent) -> (PlayerCore, Vec<PlayerOp>) {
    player_step(c, ev)
}

#[test]
fn player_plays_pauses_resumes_and_stops() {
    let c = player_start(true);
    assert_eq!(c.awaiting, Awaiting::Command);
    assert!(!c.has_audio && !c.playing && !c.paused);

    let (c, ops) = step(c, PlayerEvent::Load);
    assert_eq!(
        ops,
        vec![
            PlayerOp::ClearTimer,
            PlayerOp::ResetOffset,
            PlayerOp::TakeAudio,
            PlayerOp::SetPosition(PositionOf::Zero)
        ]
    );
    assert!(c.has_audio);
    assert_eq!(c.awaiting, Awaiting::Command);

    let (c, ops) = step(c, PlayerEvent::Play);
    assert_eq!(ops, vec![PlayerOp::UseConfiguredSpeed, PlayerOp::CreateSink]);
    assert_eq!(c.awaiting, Awaiting::SinkForPlay);

    let (c, ops) = step(c, PlayerEvent::SinkCreated(true));
    assert_eq!(ops, vec![PlayerOp::StartTimer]);
    assert!(c.playing && !c.paused && c.timing);
    assert_eq!(c.sink, SinkState::Running);
    assert_eq!(c.awaiting, Awaiting::Position);

    let (c, ops) = step(c, PlayerEvent::PositionChecked { reached_end: false });
    assert_eq!(ops, vec![PlayerOp::SetPosition(PositionOf::Current)]);
    assert_eq!(c.awaiting, Awaiting::Command);

    let (c, ops) = step(c, PlayerEvent::Pause);
    assert_eq!(
        ops,
        vec![PlayerOp::PauseSink, PlayerOp::AccumulateTime, PlayerOp::SetPosition(PositionOf::Offset)]
    );
    assert!(!c.playing && c.paused && !c.timing);
    assert_eq!(c.sink, SinkState::Held);
    assert_eq!(c.awaiting, Awaiting::Command);

    // Resuming a paused sink skips the position check of that round.
    let (c, ops) = step(c, PlayerEvent::Play);
    assert_eq!(ops, vec![PlayerOp::ResumeSink, PlayerOp::StartTimer]);
    assert!(c.playing && !c.paused);
    assert_eq!(c.awaiting, Awaiting::Command);

    let (c, ops) = step(c, PlayerEvent::Stop);
    assert_eq!(
        ops,
        vec![
            PlayerOp::StopSink,
            PlayerOp::ClearTimer,
            PlayerOp::ResetOffset,
            PlayerOp::SetPosition(PositionOf::Zero)
        ]
    );
    assert!(!c.playing && !c.paused && !c.timing);
    assert_eq!(c.sink, SinkState::Absent);
    assert!(c.has_audio);
}

#[test]
fn player_finishes_at_the_end_of_the_audio() {
    let c = player_start(true);
    let (c, _) = step(c, PlayerEvent::Load);
    let (c, _) = step(c, PlayerEvent::Play);
    let (c, _) = step(c, PlayerEvent::SinkCreated(true));
    let (c, ops) = step(c, PlayerEvent::PositionChecked { reached_end: true });
    assert_eq!(
        ops,
        vec![
            PlayerOp::SetPosition(PositionOf::Current),
            PlayerOp::SetPosition(PositionOf::Duration),
            PlayerOp::ClearTimer,
            PlayerOp::ResetOffset,
            PlayerOp::StopSink
        ]
    );
    assert!(!c.playing && !c.paused && !c.timing);
    assert_eq!(c.sink, SinkState::Absent);
    assert_eq!(c.awaiting, Awaiting::Command);
}

#[test]
fn player_without_output_or_audio_does_not_play() {
    let c = player_start(false);
    let (c, _) = step(c, PlayerEvent::Load);
    let (c2, ops) = step(c, PlayerEvent::Play);
    assert!(ops.is_empty());
    assert!(!c2.playing);
    assert_eq!(c2.awaiting, Awaiting::Command);

    let c = player_start(true);
    let (c2, ops) = step(c, PlayerEvent::Play);
    assert!(ops.is_empty());
    assert_eq!(c2, c);

    // A failed sink leaves the player as it was.
    let (c, _) = step(c, PlayerEvent::Load);
    let (c, _) = step(c, PlayerEvent::Play);
    let (c, ops) = step(c, PlayerEvent::SinkCreated(false));
    assert!(ops.is_empty());
    assert!(!c.playing);
    assert_eq!(c.awaiting, Awaiting::Command);
}

#[test]
fn player_seeks_while_playing_and_while_stopped() {
    let c = player_start(true);
    let (c, _) = step(c, PlayerEvent::Load);
    let (c, _) = step(c, PlayerEvent::Play);
    let (c, _) = step(c, PlayerEvent::SinkCreated(true));
    let (c, _) = step(c, PlayerEvent::PositionChecked { reached_end: false });
    let (c, ops) = step(c, PlayerEvent::Seek);
    assert_eq!(
        ops,
        vec![PlayerOp::SeekOffset, PlayerOp::StopSink, PlayerOp::UseConfiguredSpeed, PlayerOp::CreateSink]
    );
    assert_eq!(c.awaiting, Awaiting::SinkForSeek);
    let (c, ops) = step(c, PlayerEvent::SinkCreated(true));
    assert_eq!(ops, vec![PlayerOp::StartTimer, PlayerOp::SetPosition(PositionOf::Offset)]);
    assert!(c.playing);
    assert_eq!(c.sink, SinkState::Running);

    let (c, _) = step(c, PlayerEvent::PositionChecked { reached_end: false });
    let (c, _) = step(c, PlayerEvent::Stop);
    let (c, ops) = step(c, PlayerEvent::Seek);
    assert_eq!(ops, vec![PlayerOp::SeekOffset, PlayerOp::ClearTimer, PlayerOp::SetPosition(PositionOf::Offset)]);
    assert!(!c.playing);
    assert_eq!(c.awaiting, Awaiting::Command);

    // Without audio, a seek does nothing.
    let fresh = player_start(true);
    let (same, ops) = step(fresh, PlayerEvent::Seek);
    assert!(ops.is_empty());
    assert_eq!(same, fresh);
}

#[test]
fn player_speed_volume_and_shutdown() {
    let c = player_start(true);
    let (c, ops) = step(c, PlayerEvent::SetVolume);
    assert_eq!(ops, vec![PlayerOp::ApplyVolume]);
    let (c, ops) = step(c, PlayerEvent::SetSpeed);
    assert_eq!(ops, vec![PlayerOp::ApplySpeed]);
    let (c, _) = step(c, PlayerEvent::Load);
    let (c, _) = step(c, PlayerEvent::Play);
    let (c, _) = step(c, PlayerEvent::SinkCreated(true));
    let (c, _) = step(c, PlayerEvent::PositionChecked { reached_end: false });
    let (c, ops) = step(c, PlayerEvent::SetSpeed);
    assert_eq!(ops, vec![PlayerOp::AccumulateTime, PlayerOp::StartTimer, PlayerOp::ApplySpeed]);
    let (c, _) = step(c, PlayerEvent::PositionChecked { reached_end: false });
    let (c, ops) = step(c, PlayerEvent::Shutdown);
    assert_eq!(ops, vec![PlayerOp::StopSink, PlayerOp::Exit]);
    assert_eq!(c.awaiting, Awaiting::Exited);
    let (c2, ops) = step(c, PlayerEvent::Play);
    assert!(ops.is_empty());
    assert_eq!(c2, c);

    let (d, ops) = step(player_start(true), PlayerEvent::Disconnected);
    assert_eq!(ops, vec![PlayerOp::Exit]);
    assert_eq!(d.awaiting, Awaiting::Exited);
}

#[test]
fn loading_publishes_a_stopped_status_at_once() {
    let c = player_start(true);
    let (c, _) = step(c, PlayerEvent::Load);
    let (c, _) = step(c, PlayerEvent::Play);
    let (mut c, _) = step(c, PlayerEvent::SinkCreated(true));
    assert!(c.playing);
    let before = c;
    load_requested(&mut c);
    assert!(!c.playing && !c.paused);
    assert_eq!(c.sink, before.sink);
    assert_eq!(c.timing, before.timing);
    // No position check is asked for a player that no longer says it plays.
    let (c, ops) = step(PlayerCore { awaiting: Awaiting::Command, ..c }, PlayerEvent::Idle);
    assert!(ops.is_empty());
    assert_eq!(c.awaiting, Awaiting::Command);
}
