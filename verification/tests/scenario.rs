use std::sync::atomic::AtomicBool;
use std::sync::Arc;

use voice_test_tool::flow::{delay_start, delay_step, DelayAction, DelayLength, LoadOutcome, RunAction, RunEvent};
use voice_test_tool::scenario::catalog::{delete_scenario, find_scenario, scenario_for_execution};
use voice_test_tool::scenario::executor::{
    file_name_of, get_scenario_execution_status, lookup_execution, new_execution_state, scenario_step,
    set_current_turn, update_execution_status, ScenarioExecStatus, ScenarioPhase,
};
use voice_test_tool::scenario::parser::{
    detect_format, scenario_data_to_file_at, scenario_file_to_info, scenario_file_to_info_with, ScenarioFile,
    ScenarioMetadata,
    ScenarioTurnFile,
};
use voice_test_tool::types::{F64Bits, ScenarioData, ScenarioInfo, ScenarioTurnData, ScenarioTurnInfo};

fn turn(audio: &str, before: f64, after: f64) -> ScenarioTurnInfo {
    ScenarioTurnInfo {
        id: format!("id-{}", audio),
        audio_file: audio.to_string(),
        order_index: 0,
        delay_before_ms: F64Bits(before.to_bits()),
        delay_after_ms: F64Bits(after.to_bits()),
        expected_transcript: None,
        expected_response: None,
    }
}

fn scenario(turns: Vec<ScenarioTurnInfo>) -> ScenarioInfo {
    ScenarioInfo {
        id: "sc1".to_string(),
        name: "Greeting".to_string(),
        description: String::new(),
        turns,
        created_at: "t".to_string(),
    }
}

fn messages(a: &[RunAction]) -> Vec<String> {
    a.iter()
        .filter_map(|x| match x {
            RunAction::Log { message, .. } => Some(message.clone()),
            _ => None,
        })
        .collect()
}

fn flags(cancel: bool, pause: bool) -> RunEvent {
    RunEvent::Flags { cancel, pause }
}

#[test]
fn scenario_plays_turns_with_delays_and_completes() {
    let s = scenario(vec![turn("/a/one.wav", 0.0, 250.0), turn("/a/two.wav", 10.0, 0.0)]);
    let (p, a) = scenario_step(&s, ScenarioPhase::Starting, &RunEvent::Begin);
    assert_eq!(messages(&a), vec!["Starting scenario: Greeting (2 turns)"]);
    assert_eq!(p, ScenarioPhase::TurnCheck(0));
    let (p, a) = scenario_step(&s, p, &flags(false, false));
    assert!(a.is_empty());
    assert_eq!(p, ScenarioPhase::AwaitResume(0));
    let (p, a) = scenario_step(&s, p, &flags(false, false));
    assert_eq!(messages(&a), vec!["Starting turn 1/2: one.wav"]);
    assert!(matches!(a[0], RunAction::SetStatus(ScenarioExecStatus::Running)));
    assert!(matches!(&a[1], RunAction::SetCurrentTurn { index: 0, file_name } if file_name == "one.wav"));
    assert!(matches!(&a[2], RunAction::Log { turn_details: Some(0), .. }));
    assert!(matches!(&a[3], RunAction::Decode(path) if path == "/a/one.wav"));
    assert_eq!(p, ScenarioPhase::Decoding(0));
    let (p, a) = scenario_step(&s, p, &RunEvent::Decoded(Ok(())));
    assert!(matches!(a.as_slice(), [RunAction::LoadAndPlay(0)]));
    let (p, _) = scenario_step(&s, p, &RunEvent::Loaded(LoadOutcome::Started));
    assert_eq!(p, ScenarioPhase::Playing(0));
    let (p, a) = scenario_step(&s, p, &flags(false, false));
    assert!(matches!(a.as_slice(), [RunAction::QueryPlayer]));
    let (p, a) = scenario_step(&s, p, &RunEvent::PlayerDone(true));
    assert_eq!(messages(&a), vec!["Turn 1/2 completed: one.wav"]);
    assert!(matches!(a[1], RunAction::Delay { length: DelayLength::Millis(d), honor_pause: true } if f64::from_bits(d.0) == 250.0));
    assert_eq!(p, ScenarioPhase::PostDelay(0));
    let (p, _) = scenario_step(&s, p, &RunEvent::DelayDone { cancelled: false });
    assert_eq!(p, ScenarioPhase::TurnCheck(1));
    let (p, _) = scenario_step(&s, p, &flags(false, false));
    let (p, a) = scenario_step(&s, p, &flags(false, false));
    assert_eq!(p, ScenarioPhase::PreDelay(1));
    assert!(matches!(a.last(), Some(RunAction::Delay { .. })));
    let (p, a) = scenario_step(&s, p, &RunEvent::DelayDone { cancelled: false });
    assert!(matches!(&a[0], RunAction::Decode(path) if path == "/a/two.wav"));
    let (p, _) = scenario_step(&s, p, &RunEvent::Decoded(Ok(())));
    let (p, _) = scenario_step(&s, p, &RunEvent::Loaded(LoadOutcome::Started));
    let (p, _) = scenario_step(&s, p, &flags(false, false));
    let (p, a) = scenario_step(&s, p, &RunEvent::PlayerDone(true));
    assert_eq!(p, ScenarioPhase::Finished);
    assert_eq!(messages(&a), vec!["Turn 2/2 completed: two.wav", "Scenario completed: Greeting (2 turns)"]);
    assert!(matches!(a[1], RunAction::SetStatus(ScenarioExecStatus::Completed)));
    assert!(matches!(&a[3], RunAction::EndSession(s) if s == "completed"));
    assert!(matches!(a[4], RunAction::Finish(Ok(()))));
}

#[test]
fn scenario_pause_and_cancel() {
    let s = scenario(vec![turn("x.wav", 0.0, 0.0)]);
    let (p, a) = scenario_step(&s, ScenarioPhase::TurnCheck(0), &flags(false, true));
    assert_eq!(messages(&a), vec!["Scenario paused at turn 1"]);
    assert!(matches!(a[0], RunAction::SetStatus(ScenarioExecStatus::Paused)));
    let (p, a) = scenario_step(&s, p, &flags(false, true));
    assert!(matches!(a.as_slice(), [RunAction::Sleep(100)]));
    let (p, a) = scenario_step(&s, p, &flags(true, true));
    assert_eq!(p, ScenarioPhase::Finished);
    assert_eq!(messages(&a), vec!["Scenario aborted while paused"]);
    assert!(matches!(&a[2], RunAction::EndSession(x) if x == "aborted"));

    let (p, a) = scenario_step(&s, ScenarioPhase::Playing(0), &flags(false, true));
    assert_eq!(p, ScenarioPhase::PlaybackPaused(0));
    assert!(matches!(a.as_slice(), [RunAction::PausePlayer, RunAction::SetStatus(ScenarioExecStatus::Paused)]));
    let (p, a) = scenario_step(&s, p, &flags(false, false));
    assert_eq!(p, ScenarioPhase::AwaitPlayer(0));
    assert!(matches!(
        a.as_slice(),
        [RunAction::ResumePlayer, RunAction::SetStatus(ScenarioExecStatus::Running), RunAction::QueryPlayer]
    ));
    let (_, a) = scenario_step(&s, ScenarioPhase::Playing(0), &flags(true, false));
    assert!(matches!(a[0], RunAction::StopPlayer));
    assert_eq!(messages(&a), vec!["Scenario aborted during playback"]);
    let (_, a) = scenario_step(&s, ScenarioPhase::PreDelay(0), &RunEvent::DelayDone { cancelled: true });
    assert_eq!(messages(&a), vec!["Scenario aborted during pre-delay"]);
}

#[test]
fn scenario_decode_and_load_failures() {
    let s = scenario(vec![turn("/m/x.mp3", 0.0, 0.0)]);
    let (p, a) = scenario_step(&s, ScenarioPhase::Decoding(0), &RunEvent::Decoded(Err("bad data".to_string())));
    assert_eq!(p, ScenarioPhase::Finished);
    let m = "Failed to decode audio file /m/x.mp3: bad data";
    assert_eq!(messages(&a), vec![m]);
    assert!(matches!(&a[1], RunAction::SetStatus(ScenarioExecStatus::Failed(x)) if x == m));
    assert!(matches!(&a[3], RunAction::Finish(Err(x)) if x == m));
    let (_, a) = scenario_step(&s, ScenarioPhase::Loading(0), &RunEvent::Loaded(LoadOutcome::NoPlayer));
    assert!(matches!(a.as_slice(), [RunAction::Finish(Err(x))] if x == "Audio player not available"));
    let (_, a) = scenario_step(&s, ScenarioPhase::Loading(0), &RunEvent::Loaded(LoadOutcome::Failed("e".to_string())));
    assert!(matches!(a.as_slice(), [RunAction::Finish(Err(x))] if x == "Failed to load audio: e"));
    // An event the phase does not wait for changes nothing.
    let (p, a) = scenario_step(&s, ScenarioPhase::Loading(0), &RunEvent::PlayerDone(true));
    assert_eq!(p, ScenarioPhase::Loading(0));
    assert!(a.is_empty());
}

#[test]
fn scenario_without_turns_completes_at_once() {
    let s = scenario(vec![]);
    let (p, a) = scenario_step(&s, ScenarioPhase::Starting, &RunEvent::Begin);
    assert_eq!(p, ScenarioPhase::Finished);
    assert_eq!(messages(&a), vec!["Starting scenario: Greeting (0 turns)", "Scenario completed: Greeting (0 turns)"]);
}

#[test]
fn file_names_of_turns() {
    assert_eq!(file_name_of("/a/b/c.wav"), "c.wav");
    assert_eq!(file_name_of("c.wav"), "c.wav");
    assert_eq!(file_name_of("/"), "/");
}

#[test]
fn delay_sleeps_its_length_in_slices() {
    let mut st = delay_start(250_000_000);
    let mut slept: u128 = 0;
    loop {
        let (next, a) = delay_step(st, false, false);
        st = next;
        match a {
            DelayAction::Sleep(ns) => {
                assert!(ns <= 100_000_000);
                slept += ns;
            }
            DelayAction::Elapsed => break,
            DelayAction::Cancelled => panic!("cancelled"),
        }
    }
    assert_eq!(slept, 250_000_000);
    // A pause holds the delay without using time; a cancel during it ends it.
    let st = delay_start(50);
    let (st, a) = delay_step(st, false, true);
    assert_eq!(a, DelayAction::Sleep(100_000_000));
    assert!(st.held && st.remaining_ns == 50);
    let (_, a) = delay_step(st, true, true);
    assert_eq!(a, DelayAction::Cancelled);
    let (st, a) = delay_step(st, true, false);
    assert_eq!(a, DelayAction::Sleep(50));
    assert_eq!(st.remaining_ns, 0);
    assert_eq!(delay_step(delay_start(0), true, true).1, DelayAction::Elapsed);
}

#[test]
fn execution_registry() {
    let cancel = Arc::new(AtomicBool::new(false));
    let pause = Arc::new(AtomicBool::new(false));
    let mut execs = vec![new_execution_state("s1".to_string(), "sc1".to_string(), 3, cancel, pause)];
    update_execution_status(&mut execs, "s1", ScenarioExecStatus::Paused);
    set_current_turn(&mut execs, "s1", 2, "b.wav".to_string());
    update_execution_status(&mut execs, "nope", ScenarioExecStatus::Aborted);
    let info = get_scenario_execution_status(&execs, "s1").unwrap();
    assert_eq!(info.status, "paused");
    assert_eq!(info.current_turn, 2);
    assert_eq!(info.total_turns, 3);
    assert_eq!(info.current_file_name.as_deref(), Some("b.wav"));
    assert!(get_scenario_execution_status(&execs, "s2").is_none());
    assert_eq!(lookup_execution(&execs, "s2"), Err("Execution not found: s2".to_string()));
    assert_eq!(ScenarioExecStatus::Failed("x".to_string()).as_str(), "failed");
    assert_eq!(ScenarioExecStatus::Aborted.as_str(), "aborted");
    assert_eq!(ScenarioExecStatus::Completed.as_str(), "completed");
}

#[test]
fn catalog_checks() {
    let mut ss = vec![scenario(vec![]), ScenarioInfo { id: "sc2".to_string(), ..scenario(vec![turn("a", 0.0, 0.0)]) }];
    assert_eq!(scenario_for_execution(&ss, "sc1").err(), Some("Scenario has no turns".to_string()));
    assert_eq!(scenario_for_execution(&ss, "zz").err(), Some("Scenario not found: zz".to_string()));
    assert_eq!(scenario_for_execution(&ss, "sc2").unwrap().turns.len(), 1);
    assert_eq!(find_scenario(&ss, "sc2"), Some(1));
    assert_eq!(delete_scenario(&mut ss, "sc1"), Ok(()));
    assert_eq!(ss.len(), 1);
    assert_eq!(delete_scenario(&mut ss, "sc1"), Err("Scenario not found: sc1".to_string()));
}

#[test]
fn scenario_files() {
    assert_eq!(detect_format("a/b.JSON").unwrap(), "json");
    assert_eq!(detect_format("b.yml").unwrap(), "yaml");
    assert!(detect_format("b.txt").is_err());
    assert!(detect_format("noext").is_err());
    let file = ScenarioFile {
        name: "n".to_string(),
        description: None,
        metadata: Some(ScenarioMetadata { author: None, version: None, created_at: Some("c".to_string()) }),
        turns: vec![ScenarioTurnFile {
            audio_file: "x.wav".to_string(),
            expected_transcript: None,
            expected_response: None,
            delay_before_ms: None,
            delay_after_ms: Some(F64Bits(5.0f64.to_bits())),
        }],
    };
    let info = scenario_file_to_info_with(&file, "/s/sc.json", "id".to_string(), vec!["t".to_string()], "now".to_string());
    assert_eq!(info.created_at, "c");
    assert_eq!(info.description, "");
    assert_eq!(info.turns[0].audio_file, "/s/x.wav");
    assert_eq!(info.turns[0].delay_before_ms.0, 0);
    let data = ScenarioData {
        name: "n".to_string(),
        description: "d".to_string(),
        turns: vec![ScenarioTurnData {
            audio_file: "x.wav".to_string(),
            order_index: 0,
            delay_before_ms: F64Bits(0),
            delay_after_ms: F64Bits(0),
            expected_transcript: None,
            expected_response: None,
        }],
    };
    let f = scenario_data_to_file_at(&data, "now".to_string());
    assert_eq!(f.description.as_deref(), Some("d"));
    assert_eq!(f.turns.len(), 1);
}

fn file_turn(audio: &str, before: Option<f64>, after: Option<f64>) -> ScenarioTurnFile {
    ScenarioTurnFile {
        audio_file: audio.to_string(),
        expected_transcript: None,
        expected_response: None,
        delay_before_ms: before.map(|v| F64Bits(v.to_bits())),
        delay_after_ms: after.map(|v| F64Bits(v.to_bits())),
    }
}

#[test]
fn loaded_scenario_keeps_its_creation_time() {
    let file = ScenarioFile {
        name: "S".to_string(),
        description: None,
        metadata: Some(ScenarioMetadata {
            author: None,
            version: None,
            created_at: Some("2025-02-03T10:00:00Z".to_string()),
        }),
        turns: vec![file_turn("a.wav", None, Some(1000.0)), file_turn("/abs/b.wav", None, None)],
    };
    let i = scenario_file_to_info(&file, "/sc/x.json");
    assert_eq!(i.name, "S");
    assert_eq!(i.description, "");
    assert_eq!(i.created_at, "2025-02-03T10:00:00Z");
    assert_eq!(i.turns.len(), 2);
    assert_eq!(i.turns[0].audio_file, "/sc/a.wav");
    assert_eq!(i.turns[0].order_index, 0);
    assert_eq!(f64::from_bits(i.turns[0].delay_before_ms.0), 0.0);
    assert_eq!(f64::from_bits(i.turns[0].delay_after_ms.0), 1000.0);
    assert_eq!(i.turns[1].audio_file, "/abs/b.wav");
    assert_eq!(i.turns[1].order_index, 1);
    assert_eq!(f64::from_bits(i.turns[1].delay_after_ms.0), 0.0);
    assert_ne!(i.turns[0].id, i.turns[1].id);
}
