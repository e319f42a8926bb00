//! Playlist playback: the driver that plays the items of a playlist in
//! order, with the silence before and after each item, once or in a loop,
//! until it is cancelled; and the record of the playback in progress.
use std::sync::atomic::AtomicBool;
use std::sync::Arc;
use vstd::prelude::*;

use crate::flow::{actions_view, DelayLength, LoadOutcome, RunAction, RunActionView, RunEvent, POLL_INTERVAL_MS};
use crate::state::PlaylistPlaybackState;
use crate::text::to_owned_string;
use crate::types::{f32_bits_positive, PlaylistItemInfo};

verus! {

/// Where a playlist playback stands.
#[derive(Debug, Clone, Copy, PartialEq, Eq)]
pub enum PlaylistPhase {
    /// Not started.
    Starting,
    /// About to play item `i`: reads the cancel flag.
    ItemCheck(usize),
    /// In the silence before item `i`.
    PreSilence(usize),
    /// Reads the cancel flag once more before loading item `i`.
    LoadCheck(usize),
    /// Loading item `i` into the player.
    Loading(usize),
    /// Playing item `i`: reads the cancel flag.
    Playing(usize),
    /// Waiting for the player to answer whether item `i` has finished.
    AwaitPlayer(usize),
    /// In the silence after item `i`.
    PostSilence(usize),
    /// The playback is over.
    Finished,
}

/// The item a phase is about, if any.
pub open spec fn playlist_phase_item(p: PlaylistPhase) -> Option<usize> {
    match p {
        PlaylistPhase::ItemCheck(i) => Some(i),
        PlaylistPhase::PreSilence(i) => Some(i),
        PlaylistPhase::LoadCheck(i) => Some(i),
        PlaylistPhase::Loading(i) => Some(i),
        PlaylistPhase::Playing(i) => Some(i),
        PlaylistPhase::AwaitPlayer(i) => Some(i),
        PlaylistPhase::PostSilence(i) => Some(i),
        _ => None,
    }
}

/// The phase names an existing item, if it names one.
pub open spec fn playlist_phase_valid(p: PlaylistPhase, n: nat) -> bool {
    match playlist_phase_item(p) {
        Some(i) => i < n,
        None => true,
    }
}

/// The end of a playback cancelled while the player may be playing.
pub open spec fn stop_and_finish() -> Seq<RunActionView> {
    seq![RunActionView::StopPlayer, RunActionView::Finish(Ok(()))]
}

/// Moving on to item `i`: past the last item, a looping playback starts
/// over and any other ends.
pub open spec fn enter_item(n: nat, loop_mode: bool, i: nat) -> (PlaylistPhase, Seq<RunActionView>) {
    if i < n {
        (PlaylistPhase::ItemCheck(i as usize), seq![])
    } else if loop_mode {
        (PlaylistPhase::ItemCheck(0), seq![])
    } else {
        (PlaylistPhase::Finished, seq![RunActionView::Finish(Ok(()))])
    }
}

/// The next phase of a playlist playback and the actions to perform, from
/// its phase and what was observed. An event the phase does not wait for
/// changes nothing.
pub open spec fn playlist_next(
    items: Seq<PlaylistItemInfo>,
    loop_mode: bool,
    phase: PlaylistPhase,
    ev: RunEvent,
) -> (PlaylistPhase, Seq<RunActionView>) {
    let n = items.len();
    let unchanged = (phase, Seq::<RunActionView>::empty());
    match phase {
        PlaylistPhase::Starting => match ev {
            RunEvent::Begin => enter_item(n, loop_mode, 0),
            _ => unchanged,
        },
        PlaylistPhase::ItemCheck(i) => match ev {
            RunEvent::Flags { cancel, .. } => if cancel {
                (PlaylistPhase::Finished, stop_and_finish())
            } else if f32_bits_positive(items[i as int].pre_silence_sec) {
                (
                    PlaylistPhase::PreSilence(i),
                    seq![
                        RunActionView::SetCurrentItem(i),
                        RunActionView::Delay {
                            length: DelayLength::Secs(items[i as int].pre_silence_sec),
                            honor_pause: false,
                        },
                    ],
                )
            } else {
                (PlaylistPhase::LoadCheck(i), seq![RunActionView::SetCurrentItem(i)])
            },
            _ => unchanged,
        },
        PlaylistPhase::PreSilence(i) => match ev {
            RunEvent::DelayDone { cancelled } => if cancelled {
                (PlaylistPhase::Finished, stop_and_finish())
            } else {
                (PlaylistPhase::LoadCheck(i), seq![])
            },
            _ => unchanged,
        },
        PlaylistPhase::LoadCheck(i) => match ev {
            RunEvent::Flags { cancel, .. } => if cancel {
                (PlaylistPhase::Finished, seq![RunActionView::Finish(Ok(()))])
            } else {
                (PlaylistPhase::Loading(i), seq![RunActionView::LoadAndPlay(i)])
            },
            _ => unchanged,
        },
        PlaylistPhase::Loading(i) => match ev {
            RunEvent::Loaded(LoadOutcome::Started) => (PlaylistPhase::Playing(i), seq![]),
            RunEvent::Loaded(LoadOutcome::NotCached) => enter_item(n, loop_mode, (i + 1) as nat),
            RunEvent::Loaded(LoadOutcome::NoPlayer) => (
                PlaylistPhase::Finished,
                seq![RunActionView::Finish(Err("Audio player not available"@))],
            ),
            RunEvent::Loaded(LoadOutcome::Failed(e)) => (
                PlaylistPhase::Finished,
                seq![RunActionView::Finish(Err(e@))],
            ),
            _ => unchanged,
        },
        PlaylistPhase::Playing(i) => match ev {
            RunEvent::Flags { cancel, .. } => if cancel {
                (PlaylistPhase::Finished, stop_and_finish())
            } else {
                (PlaylistPhase::AwaitPlayer(i), seq![RunActionView::QueryPlayer])
            },
            _ => unchanged,
        },
        PlaylistPhase::AwaitPlayer(i) => match ev {
            RunEvent::PlayerDone(done) => if !done {
                (PlaylistPhase::Playing(i), seq![RunActionView::Sleep(POLL_INTERVAL_MS)])
            } else if f32_bits_positive(items[i as int].post_silence_sec) {
                (
                    PlaylistPhase::PostSilence(i),
                    seq![
                        RunActionView::Delay {
                            length: DelayLength::Secs(items[i as int].post_silence_sec),
                            honor_pause: false,
                        },
                    ],
                )
            } else {
                enter_item(n, loop_mode, (i + 1) as nat)
            },
            _ => unchanged,
        },
        PlaylistPhase::PostSilence(i) => match ev {
            RunEvent::DelayDone { cancelled } => if cancelled {
                (PlaylistPhase::Finished, seq![RunActionView::Finish(Ok(()))])
            } else {
                enter_item(n, loop_mode, (i + 1) as nat)
            },
            _ => unchanged,
        },
        PlaylistPhase::Finished => unchanged,
    }
}

fn enter_item_exec(n: usize, loop_mode: bool, i: usize) -> (r: (PlaylistPhase, Vec<RunAction>))
    requires
        n > 0,
        i <= n,
    ensures
        r.0 == enter_item(n as nat, loop_mode, i as nat).0,
        actions_view(r.1@) == enter_item(n as nat, loop_mode, i as nat).1,
        playlist_phase_valid(r.0, n as nat),
{
    let mut a: Vec<RunAction> = Vec::new();
    if i < n {
        assert(actions_view(a@) =~= Seq::<RunActionView>::empty());
        (PlaylistPhase::ItemCheck(i), a)
    } else if loop_mode {
        assert(actions_view(a@) =~= Seq::<RunActionView>::empty());
        (PlaylistPhase::ItemCheck(0), a)
    } else {
        a.push(RunAction::Finish(Ok(())));
        assert(actions_view(a@) =~= seq![RunActionView::Finish(Ok(()))]);
        (PlaylistPhase::Finished, a)
    }
}

fn finish_only(stop: bool) -> (r: Vec<RunAction>)
    ensures
        actions_view(r@) == if stop {
            stop_and_finish()
        } else {
            seq![RunActionView::Finish(Ok(()))]
        },
{
    let mut a: Vec<RunAction> = Vec::new();
    if stop {
        a.push(RunAction::StopPlayer);
    }
    a.push(RunAction::Finish(Ok(())));
    assert(actions_view(a@) =~= if stop {
        stop_and_finish()
    } else {
        seq![RunActionView::Finish(Ok(()))]
    });
    a
}

/// One step of a playlist playback (see [`playlist_next`]) over the
/// playlist's items in play order: the next phase and the actions to
/// perform, in order.
#[verifier::rlimit(50)]
pub fn playlist_step(
    items: &[PlaylistItemInfo],
    loop_mode: bool,
    phase: PlaylistPhase,
    ev: &RunEvent,
) -> (r: (PlaylistPhase, Vec<RunAction>))
    requires
        items@.len() > 0,
        playlist_phase_valid(phase, items@.len()),
    ensures
        r.0 == playlist_next(items@, loop_mode, phase, *ev).0,
        actions_view(r.1@) == playlist_next(items@, loop_mode, phase, *ev).1,
        playlist_phase_valid(r.0, items@.len()),
{
    let n = items.len();
    let mut a: Vec<RunAction> = Vec::new();
    assert(actions_view(a@) =~= Seq::<RunActionView>::empty());
    match phase {
        PlaylistPhase::Starting => match ev {
            RunEvent::Begin => enter_item_exec(n, loop_mode, 0),
            _ => (phase, a),
        },
        PlaylistPhase::ItemCheck(i) => match ev {
            RunEvent::Flags { cancel, .. } => {
                if *cancel {
                    (PlaylistPhase::Finished, finish_only(true))
                } else {
                    a.push(RunAction::SetCurrentItem(i));
                    if items[i].pre_silence_sec.is_positive() {
                        a.push(
                            RunAction::Delay {
                                length: DelayLength::Secs(items[i].pre_silence_sec),
                                honor_pause: false,
                            },
                        );
                        assert(actions_view(a@) =~= playlist_next(items@, loop_mode, phase, *ev).1);
                        (PlaylistPhase::PreSilence(i), a)
                    } else {
                        assert(actions_view(a@) =~= playlist_next(items@, loop_mode, phase, *ev).1);
                        (PlaylistPhase::LoadCheck(i), a)
                    }
                }
            },
            _ => (phase, a),
        },
        PlaylistPhase::PreSilence(i) => match ev {
            RunEvent::DelayDone { cancelled } => {
                if *cancelled {
                    (PlaylistPhase::Finished, finish_only(true))
                } else {
                    (PlaylistPhase::LoadCheck(i), a)
                }
            },
            _ => (phase, a),
        },
        PlaylistPhase::LoadCheck(i) => match ev {
            RunEvent::Flags { cancel, .. } => {
                if *cancel {
                    (PlaylistPhase::Finished, finish_only(false))
                } else {
                    a.push(RunAction::LoadAndPlay(i));
                    assert(actions_view(a@) =~= playlist_next(items@, loop_mode, phase, *ev).1);
                    (PlaylistPhase::Loading(i), a)
                }
            },
            _ => (phase, a),
        },
        PlaylistPhase::Loading(i) => match ev {
            RunEvent::Loaded(LoadOutcome::Started) => (PlaylistPhase::Playing(i), a),
            RunEvent::Loaded(LoadOutcome::NotCached) => enter_item_exec(n, loop_mode, i + 1),
            RunEvent::Loaded(LoadOutcome::NoPlayer) => {
                a.push(RunAction::Finish(Err(to_owned_string("Audio player not available"))));
                assert(actions_view(a@) =~= playlist_next(items@, loop_mode, phase, *ev).1);
                (PlaylistPhase::Finished, a)
            },
            RunEvent::Loaded(LoadOutcome::Failed(e)) => {
                a.push(RunAction::Finish(Err(e.clone())));
                assert(actions_view(a@) =~= playlist_next(items@, loop_mode, phase, *ev).1);
                (PlaylistPhase::Finished, a)
            },
            _ => (phase, a),
        },
        PlaylistPhase::Playing(i) => match ev {
            RunEvent::Flags { cancel, .. } => {
                if *cancel {
                    (PlaylistPhase::Finished, finish_only(true))
                } else {
                    a.push(RunAction::QueryPlayer);
                    assert(actions_view(a@) =~= playlist_next(items@, loop_mode, phase, *ev).1);
                    (PlaylistPhase::AwaitPlayer(i), a)
                }
            },
            _ => (phase, a),
        },
        PlaylistPhase::AwaitPlayer(i) => match ev {
            RunEvent::PlayerDone(done) => {
                if !*done {
                    a.push(RunAction::Sleep(POLL_INTERVAL_MS));
                    assert(actions_view(a@) =~= playlist_next(items@, loop_mode, phase, *ev).1);
                    (PlaylistPhase::Playing(i), a)
                } else if items[i].post_silence_sec.is_positive() {
                    a.push(
                        RunAction::Delay {
                            length: DelayLength::Secs(items[i].post_silence_sec),
                            honor_pause: false,
                        },
                    );
                    assert(actions_view(a@) =~= playlist_next(items@, loop_mode, phase, *ev).1);
                    (PlaylistPhase::PostSilence(i), a)
                } else {
                    enter_item_exec(n, loop_mode, i + 1)
                }
            },
            _ => (phase, a),
        },
        PlaylistPhase::PostSilence(i) => match ev {
            RunEvent::DelayDone { cancelled } => {
                if *cancelled {
                    (PlaylistPhase::Finished, finish_only(false))
                } else {
                    enter_item_exec(n, loop_mode, i + 1)
                }
            },
            _ => (phase, a),
        },
        PlaylistPhase::Finished => (phase, a),
    }
}

/// The record of a playlist playback that starts now, at its first item.
pub fn new_playlist_playback(
    playlist_id: String,
    total_items: usize,
    loop_mode: bool,
    cancel: Arc<AtomicBool>,
) -> (r: PlaylistPlaybackState)
    ensures
        r.playlist_id == playlist_id,
        r.current_item_index == 0,
        r.total_items == total_items,
        r.is_playing,
        r.loop_mode == loop_mode,
        r.cancel == cancel,
{
    PlaylistPlaybackState { playlist_id, current_item_index: 0, total_items, is_playing: true, loop_mode, cancel }
}

/// Records the item a playback is at; with no playback, nothing changes.
pub fn set_current_item(playback: &mut Option<PlaylistPlaybackState>, index: usize)
    ensures
        match *old(playback) {
            None => *final(playback) is None,
            Some(pb) => *final(playback) matches Some(nb) && nb.current_item_index == index && nb.is_playing
                && nb.playlist_id == pb.playlist_id && nb.total_items == pb.total_items && nb.loop_mode
                == pb.loop_mode && nb.cancel == pb.cancel,
        },
{
    match playback {
        Some(pb) => {
            pb.current_item_index = index;
            pb.is_playing = true;
        },
        None => {},
    }
}

// ---------------------------------------------------------------------
// Laws of the driver
// ---------------------------------------------------------------------

/// The event stops a playback: a cancel read from the flags or ending a
/// delay, or a load that failed.
pub open spec fn stopping_event(ev: RunEvent) -> bool {
    match ev {
        RunEvent::Flags { cancel, .. } => cancel,
        RunEvent::DelayDone { cancelled } => cancelled,
        RunEvent::Loaded(LoadOutcome::NoPlayer) => true,
        RunEvent::Loaded(LoadOutcome::Failed(_)) => true,
        _ => false,
    }
}

/// A looping playback only ends when it is cancelled or an item cannot be
/// loaded.
pub proof fn law_loop_ends_only_when_stopped(items: Seq<PlaylistItemInfo>, phase: PlaylistPhase, ev: RunEvent)
    requires
        items.len() > 0,
        playlist_phase_valid(phase, items.len()),
        phase != PlaylistPhase::Finished,
        playlist_next(items, true, phase, ev).0 == PlaylistPhase::Finished,
    ensures
        stopping_event(ev),
{
}

/// Items are played in order: without looping, a step stays with its item
/// or moves on to the next one; with looping it may also start over at the
/// first item, and only after the last one.
pub proof fn law_items_in_order(items: Seq<PlaylistItemInfo>, loop_mode: bool, phase: PlaylistPhase, ev: RunEvent)
    requires
        items.len() > 0,
        items.len() <= usize::MAX,
        playlist_phase_valid(phase, items.len()),
    ensures
        playlist_phase_item(phase) is Some && playlist_phase_item(playlist_next(items, loop_mode, phase, ev).0)
            is Some ==> {
            let i = playlist_phase_item(phase)->0;
            let j = playlist_phase_item(playlist_next(items, loop_mode, phase, ev).0)->0;
            j == i || j == i + 1 || (loop_mode && j == 0 && i == items.len() - 1)
        },
{
    match phase {
        PlaylistPhase::Loading(i) => {
            if i + 1 < items.len() {
                assert(((i + 1) as nat) as usize == i + 1);
            }
        },
        PlaylistPhase::AwaitPlayer(i) => {
            if i + 1 < items.len() {
                assert(((i + 1) as nat) as usize == i + 1);
            }
        },
        PlaylistPhase::PostSilence(i) => {
            if i + 1 < items.len() {
                assert(((i + 1) as nat) as usize == i + 1);
            }
        },
        _ => {},
    }
}

/// A finished playback stays finished and does nothing more; a finishing
/// step ends with `Finish`.
pub proof fn law_playback_finish(items: Seq<PlaylistItemInfo>, loop_mode: bool, phase: PlaylistPhase, ev: RunEvent)
    ensures
        playlist_next(items, loop_mode, PlaylistPhase::Finished, ev) == (
            PlaylistPhase::Finished,
            Seq::<RunActionView>::empty(),
        ),
        phase != PlaylistPhase::Finished && playlist_next(items, loop_mode, phase, ev).0
            == PlaylistPhase::Finished ==> playlist_next(items, loop_mode, phase, ev).1.len() > 0
            && playlist_next(items, loop_mode, phase, ev).1.last() is Finish,
{
}


/// Each item is framed by its own silences: after item `i` plays, a
/// positive `post_silence_sec` of that item is waited (not pausable)
/// before anything else; without one, and once that silence has run out,
/// playback moves to the next item, past the last one back to the first
/// when looping, and otherwise ends. Before item `i` is played, a positive
/// `pre_silence_sec` of that item is waited.
pub proof fn law_item_silences_are_its_own(items: Seq<PlaylistItemInfo>, loop_mode: bool, i: usize, pause: bool)
    requires
        i < items.len(),
    ensures
        ({
            let next = if i + 1 < items.len() {
                (PlaylistPhase::ItemCheck((i + 1) as usize), Seq::<RunActionView>::empty())
            } else if loop_mode {
                (PlaylistPhase::ItemCheck(0), Seq::<RunActionView>::empty())
            } else {
                (PlaylistPhase::Finished, seq![RunActionView::Finish(Ok(()))])
            };
            let post = items[i as int].post_silence_sec;
            let after = playlist_next(items, loop_mode, PlaylistPhase::AwaitPlayer(i), RunEvent::PlayerDone(true));
            &&& 0 < post.0 <= 0x7f80_0000u32 ==> after == (
                PlaylistPhase::PostSilence(i),
                seq![RunActionView::Delay { length: DelayLength::Secs(post), honor_pause: false }],
            )
            &&& !(0 < post.0 <= 0x7f80_0000u32) ==> after == next
            &&& playlist_next(
                items,
                loop_mode,
                PlaylistPhase::PostSilence(i),
                RunEvent::DelayDone { cancelled: false },
            ) == next
        }),
        ({
            let pre = items[i as int].pre_silence_sec;
            let before = playlist_next(
                items,
                loop_mode,
                PlaylistPhase::ItemCheck(i),
                RunEvent::Flags { cancel: false, pause },
            );
            &&& 0 < pre.0 <= 0x7f80_0000u32 ==> before == (
                PlaylistPhase::PreSilence(i),
                seq![
                    RunActionView::SetCurrentItem(i),
                    RunActionView::Delay { length: DelayLength::Secs(pre), honor_pause: false },
                ],
            )
            &&& !(0 < pre.0 <= 0x7f80_0000u32) ==> before == (
                PlaylistPhase::LoadCheck(i),
                seq![RunActionView::SetCurrentItem(i)],
            )
        }),
{
    if i + 1 < items.len() {
        assert(((i + 1) as nat) as usize == (i + 1) as usize);
    }
}

} // verus!
