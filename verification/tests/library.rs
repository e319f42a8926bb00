use voice_test_tool::flow::{DelayLength, LoadOutcome, RunAction, RunEvent};
use voice_test_tool::logging::reporter::{escape_html, TestLogger};
use voice_test_tool::playback::{playlist_step, set_current_item, PlaylistPhase};
use voice_test_tool::playlist::{
    add_to_playlist_at, create_playlist_at, delete_playlist, get_playlist, get_playlist_playback_status,
    playlist_play_order, remove_from_playlist, reorder_playlist, sort_items_by_order, update_playlist_item_silence,
};
use voice_test_tool::state::PlaylistPlaybackState;
use voice_test_tool::types::{AudioFileInfo, EventDetails, F32Bits, F64Bits, PlaylistItemInfo};

fn secs(x: f32) -> F32Bits {
    F32Bits(x.to_bits())
}

fn file(id: &str, name: &str) -> AudioFileInfo {
    AudioFileInfo {
        id: id.to_string(),
        name: name.to_string(),
        path: format!("/m/{}", name),
        sample_rate: 16000,
        channels: 1,
        duration_sec: F64Bits(1.0f64.to_bits()),
        format: "wav".to_string(),
    }
}

fn item(id: &str, order: i32, pre: f32, post: f32) -> PlaylistItemInfo {
    PlaylistItemInfo {
        id: id.to_string(),
        audio_file_id: format!("f-{}", id),
        audio_file_name: format!("{}.wav", id),
        order_index: order,
        pre_silence_sec: secs(pre),
        post_silence_sec: secs(post),
    }
}

#[test]
fn playlist_add_remove_reorder() {
    let mut ps = Vec::new();
    let p = create_playlist_at(&mut ps, "p1".to_string(), "Mix".to_string(), "t".to_string());
    assert_eq!(p.name, "Mix");
    let files = vec![file("fa", "a.wav")];
    add_to_playlist_at(&mut ps, &files, "p1", "fa".to_string(), secs(0.5), secs(0.0), "i1".to_string()).unwrap();
    add_to_playlist_at(&mut ps, &files, "p1", "zz".to_string(), secs(0.0), secs(1.0), "i2".to_string()).unwrap();
    add_to_playlist_at(&mut ps, &files, "p1", "fa".to_string(), secs(0.0), secs(0.0), "i3".to_string()).unwrap();
    assert_eq!(
        add_to_playlist_at(&mut ps, &files, "nope", "fa".to_string(), secs(0.0), secs(0.0), "i".to_string()),
        Err("Playlist not found: nope".to_string())
    );
    let items = &ps[0].items;
    assert_eq!(items[0].audio_file_name, "a.wav");
    assert_eq!(items[1].audio_file_name, "unknown");
    assert_eq!(items.iter().map(|i| i.order_index).collect::<Vec<_>>(), vec![0, 1, 2]);

    reorder_playlist(&mut ps, "p1", &["i3".to_string(), "i1".to_string()]).unwrap();
    let ids: Vec<(String, i32)> = ps[0].items.iter().map(|i| (i.id.clone(), i.order_index)).collect();
    assert_eq!(ids, vec![("i3".to_string(), 0), ("i1".to_string(), 1), ("i2".to_string(), 2)]);
    assert_eq!(
        reorder_playlist(&mut ps, "p1", &["i9".to_string()]),
        Err("Item not found in playlist: i9".to_string())
    );

    remove_from_playlist(&mut ps, "p1", "i1").unwrap();
    let ids: Vec<(String, i32)> = ps[0].items.iter().map(|i| (i.id.clone(), i.order_index)).collect();
    assert_eq!(ids, vec![("i3".to_string(), 0), ("i2".to_string(), 1)]);
    assert_eq!(remove_from_playlist(&mut ps, "p1", "i1"), Err("Playlist item not found: i1".to_string()));

    update_playlist_item_silence(&mut ps, "p1", "i2", secs(2.0), secs(3.0)).unwrap();
    assert_eq!(f32::from_bits(ps[0].items[1].pre_silence_sec.0), 2.0);
    assert_eq!(get_playlist(&ps, "p1").unwrap().items.len(), 2);
    assert_eq!(delete_playlist(&mut ps, "p1"), Ok(()));
    assert_eq!(delete_playlist(&mut ps, "p1"), Err("Playlist not found: p1".to_string()));
}

#[test]
fn playlist_sort_is_stable() {
    let items = vec![item("a", 2, 0.0, 0.0), item("b", 1, 0.0, 0.0), item("c", 2, 0.0, 0.0), item("d", 0, 0.0, 0.0)];
    let sorted: Vec<String> = sort_items_by_order(&items).into_iter().map(|i| i.id).collect();
    assert_eq!(sorted, vec!["d", "b", "a", "c"]);
}

#[test]
fn playlist_order_and_status() {
    let mut ps = Vec::new();
    create_playlist_at(&mut ps, "p1".to_string(), "Mix".to_string(), "t".to_string());
    assert_eq!(playlist_play_order(&ps, "p1").err(), Some("Playlist is empty".to_string()));
    assert_eq!(playlist_play_order(&ps, "p2").err(), Some("Playlist not found: p2".to_string()));
    ps[0].items = vec![item("a", 1, 0.0, 0.0), item("b", 0, 0.0, 0.0)];
    let (order, name) = playlist_play_order(&ps, "p1").unwrap();
    assert_eq!(name, "Mix");
    assert_eq!(order[0].id, "b");
    let mut pb = Some(PlaylistPlaybackState {
        playlist_id: "p1".to_string(),
        current_item_index: 0,
        total_items: 2,
        is_playing: false,
        loop_mode: true,
        cancel: std::sync::Arc::new(std::sync::atomic::AtomicBool::new(false)),
    });
    set_current_item(&mut pb, 1);
    let info = get_playlist_playback_status(&ps, &pb).unwrap();
    assert_eq!(info.current_file_name, "a.wav");
    assert!(info.is_playing && info.loop_mode);
    pb.as_mut().unwrap().current_item_index = 7;
    assert_eq!(get_playlist_playback_status(&ps, &pb).unwrap().current_file_name, "unknown");
    assert!(get_playlist_playback_status(&ps, &None).is_none());
}

fn flags(cancel: bool) -> RunEvent {
    RunEvent::Flags { cancel, pause: false }
}

#[test]
fn playlist_driver_plays_loops_and_skips() {
    let items = vec![item("a", 0, 0.5, 0.0), item("b", 1, 0.0, 0.0)];
    let (p, _) = playlist_step(&items, true, PlaylistPhase::Starting, &RunEvent::Begin);
    assert_eq!(p, PlaylistPhase::ItemCheck(0));
    let (p, a) = playlist_step(&items, true, p, &flags(false));
    assert!(matches!(a.as_slice(), [RunAction::SetCurrentItem(0), RunAction::Delay { length: DelayLength::Secs(s), honor_pause: false }] if f32::from_bits(s.0) == 0.5));
    let (p, a) = playlist_step(&items, true, p, &RunEvent::DelayDone { cancelled: false });
    assert!(a.is_empty());
    assert_eq!(p, PlaylistPhase::LoadCheck(0));
    let (p, a) = playlist_step(&items, true, p, &flags(false));
    assert!(matches!(a.as_slice(), [RunAction::LoadAndPlay(0)]));
    // An item whose audio is not decoded is skipped.
    let (p, _) = playlist_step(&items, true, p, &RunEvent::Loaded(LoadOutcome::NotCached));
    assert_eq!(p, PlaylistPhase::ItemCheck(1));
    let (p, _) = playlist_step(&items, true, p, &flags(false));
    let (p, _) = playlist_step(&items, true, p, &flags(false));
    let (p, _) = playlist_step(&items, true, p, &RunEvent::Loaded(LoadOutcome::Started));
    let (p, a) = playlist_step(&items, true, p, &flags(false));
    assert!(matches!(a.as_slice(), [RunAction::QueryPlayer]));
    let (p, _) = playlist_step(&items, true, p, &RunEvent::PlayerDone(true));
    // In loop mode the last item leads back to the first.
    assert_eq!(p, PlaylistPhase::ItemCheck(0));
    let (p, a) = playlist_step(&items, true, p, &flags(true));
    assert_eq!(p, PlaylistPhase::Finished);
    assert!(matches!(a.as_slice(), [RunAction::StopPlayer, RunAction::Finish(Ok(()))]));
    // Without looping, the end of the list ends the playback.
    let (p, a) = playlist_step(&items, false, PlaylistPhase::AwaitPlayer(1), &RunEvent::PlayerDone(true));
    assert_eq!(p, PlaylistPhase::Finished);
    assert!(matches!(a.as_slice(), [RunAction::Finish(Ok(()))]));
    // A cancel before loading ends without stopping the player.
    let (_, a) = playlist_step(&items, false, PlaylistPhase::LoadCheck(1), &flags(true));
    assert!(matches!(a.as_slice(), [RunAction::Finish(Ok(()))]));
    let (_, a) = playlist_step(&items, false, PlaylistPhase::Loading(1), &RunEvent::Loaded(LoadOutcome::Failed("x".to_string())));
    assert!(matches!(a.as_slice(), [RunAction::Finish(Err(e))] if e == "x"));
}

#[test]
fn logger_sessions_and_reports() {
    let mut l = TestLogger::new();
    let id = l.create_session_at("s1".to_string(), "sc", "Demo <1>", "t0".to_string());
    assert_eq!(id, "s1");
    l.log_event_at("s1", "e1".to_string(), "t1".to_string(), "info", "said \"hi\"", None);
    l.log_event_at(
        "s1",
        "e2".to_string(),
        "t2".to_string(),
        "warn",
        "x",
        Some(EventDetails { compact: "{\"a\":1}".to_string(), pretty: "{\n  \"a\": 1\n}".to_string() }),
    );
    l.log_event_at("nope", "e3".to_string(), "t3".to_string(), "info", "dropped", None);
    let logs = l.get_session_logs("s1");
    assert_eq!(logs.len(), 2);
    assert_eq!(logs[1].message, "x");
    assert!(l.get_session_logs("nope").is_empty());
    l.end_session_at("s1", "completed", "t9".to_string());
    let s = l.get_session("s1").unwrap();
    assert_eq!(s.status, "completed");
    assert_eq!(s.ended_at.as_deref(), Some("t9"));
    assert_eq!(l.list_sessions().len(), 1);
    let csv = l.export_csv("s1").unwrap();
    assert_eq!(
        csv,
        "id,session_id,timestamp,level,message,details\n\
         e1,s1,t1,info,\"said \"\"hi\"\"\",\"\"\n\
         e2,s1,t2,warn,\"x\",\"{\"\"a\"\":1}\"\n"
    );
    let html = l.export_html("s1").unwrap();
    assert!(html.contains("<title>Test Report - Demo &lt;1&gt;</title>"));
    assert!(html.contains("said &quot;hi&quot;"));
    assert!(l.export_csv("zz").is_err());
    assert!(l.export_data("zz").is_err());
    assert_eq!(escape_html("a&b<'c'>\""), "a&amp;b&lt;&#39;c&#39;&gt;&quot;");
}

#[test]
fn logger_create_replaces_same_id() {
    let mut l = TestLogger::new();
    l.create_session_at("s1".to_string(), "a", "A", "t0".to_string());
    l.log_event_at("s1", "e1".to_string(), "t1".to_string(), "info", "m", None);
    l.create_session_at("s1".to_string(), "b", "B", "t5".to_string());
    assert!(l.get_session_logs("s1").is_empty());
    assert_eq!(l.get_session("s1").unwrap().scenario_name, "B");
    assert_eq!(l.list_sessions().len(), 1);
    let fresh = l.create_session("c", "C");
    assert_eq!(fresh.len(), 36);
    assert_eq!(l.get_session(&fresh).unwrap().status, "running");
}
