use voice_test_tool::audio::recording::RecordingConfig;
use voice_test_tool::flow::LoadOutcome;
use voice_test_tool::tts::config::{TtsConfig, TtsModel, TtsOutputFormat, TtsVoice};
use voice_test_tool::tts::csv_parser::{parse_csv_text, CsvError, TtsTestCase};
use voice_test_tool::tts::exporter::{archive_session, export_metadata};
use voice_test_tool::tts::generator::{
    azure_speech_path_of, build_azure_tts_url, plan_tts_request, TtsGeneratorError, TtsRequest,
};
use voice_test_tool::tts::runner::{
    case_start, case_step_at, find_runner, new_session, session_step, CaseAction, CaseEvent, CasePhase,
    SessionAction, SessionEvent, SessionPhase, TtsTestRunner,
};
use voice_test_tool::tts::types::{TtsTestResult, TtsTestSession, TtsTestStatus};
use voice_test_tool::types::F64Bits;

#[test]
fn test_status_as_str() {
    assert_eq!(TtsTestStatus::Pending.as_str(), "pending");
    assert_eq!(TtsTestStatus::Running { current_index: 0 }.as_str(), "running");
    assert_eq!(TtsTestStatus::Paused { current_index: 0 }.as_str(), "paused");
    assert_eq!(TtsTestStatus::Completed.as_str(), "completed");
    assert_eq!(TtsTestStatus::Aborted.as_str(), "aborted");
    assert_eq!(
        TtsTestStatus::Failed { message: "error".to_string() }.as_str(),
        "failed"
    );
}

// Each file's lines are written as `writeln!` would write them, and the
// text is parsed directly.

#[test]
fn test_parse_csv_basic() {
    let text = "Hello, world!\nThis is a test.\nAnother line.\n";
    let cases = parse_csv_text(text).unwrap();
    assert_eq!(cases.len(), 3);
    assert_eq!(cases[0].id, "001");
    assert_eq!(cases[0].text, "Hello, world!");
    assert_eq!(cases[1].id, "002");
    assert_eq!(cases[1].text, "This is a test.");
    assert_eq!(cases[2].id, "003");
    assert_eq!(cases[2].text, "Another line.");
}

#[test]
fn test_parse_csv_skips_empty_lines() {
    let text = "Line one\n\n   \nLine two\n";
    let cases = parse_csv_text(text).unwrap();
    assert_eq!(cases.len(), 2);
    assert_eq!(cases[0].text, "Line one");
    assert_eq!(cases[1].text, "Line two");
}

#[test]
fn test_parse_csv_empty_file() {
    let result = parse_csv_text("");
    assert!(matches!(result, Err(CsvError::EmptyFile)));
}

#[test]
fn test_parse_csv_trims_whitespace() {
    let cases = parse_csv_text("  trimmed text  \n").unwrap();
    assert_eq!(cases[0].text, "trimmed text");
}

#[test]
fn csv_numbers_records_and_counts_blank_ones() {
    // A whitespace-only record is numbered but gives no case; an empty line
    // is no record at all; CRLF endings are line breaks.
    let cases = parse_csv_text("a\r\n\r\n  \r\nb\rc").unwrap();
    let ids: Vec<&str> = cases.iter().map(|c| c.id.as_str()).collect();
    let texts: Vec<&str> = cases.iter().map(|c| c.text.as_str()).collect();
    assert_eq!(ids, vec!["001", "003", "004"]);
    assert_eq!(texts, vec!["a", "b", "c"]);
}

#[test]
fn csv_only_blank_records_is_empty() {
    assert!(matches!(parse_csv_text("  \n\t\n"), Err(CsvError::EmptyFile)));
    assert_eq!(CsvError::EmptyFile.message(), "Empty CSV file");
    assert_eq!(CsvError::IoError("x".to_string()).message(), "Failed to open file: x");
}

#[test]
fn csv_quoted_records_are_unquoted() {
    let text = "\"Hello, world\"\n\"say \"\"hi\"\"\"\n\"two\nlines\"\n\"ab\"cd\nplain \"q\" stays\n\"  padded  \"\n";
    let cases = parse_csv_text(text).unwrap();
    let ids: Vec<&str> = cases.iter().map(|c| c.id.as_str()).collect();
    let texts: Vec<&str> = cases.iter().map(|c| c.text.as_str()).collect();
    assert_eq!(ids, vec!["001", "002", "003", "004", "005", "006"]);
    assert_eq!(texts, vec!["Hello, world", "say \"hi\"", "two\nlines", "abcd", "plain \"q\" stays", "padded"]);
}

#[test]
fn csv_empty_quoted_record_is_numbered_without_a_case() {
    let cases = parse_csv_text("\"\"\nnext\n\"unclosed").unwrap();
    let ids: Vec<&str> = cases.iter().map(|c| c.id.as_str()).collect();
    let texts: Vec<&str> = cases.iter().map(|c| c.text.as_str()).collect();
    assert_eq!(ids, vec!["002", "003"]);
    assert_eq!(texts, vec!["next", "unclosed"]);
}

#[test]
fn csv_ids_past_999_are_not_truncated() {
    let text: String = (0..1001).map(|i| format!("t{}\n", i)).collect();
    let cases = parse_csv_text(&text).unwrap();
    assert_eq!(cases[998].id, "999");
    assert_eq!(cases[999].id, "1000");
    assert_eq!(cases[1000].text, "t1000");
}

#[test]
fn speech_path_built_twice_is_unchanged() {
    for p in ["/openai/deployments/d", "/openai/deployments/d/", "/d/audio", "/d/audio/speech//", ""] {
        let once = azure_speech_path_of(p);
        assert_eq!(azure_speech_path_of(&once), once);
    }
    // A stripped path that still ends with the endpoint is the exception.
    let once = azure_speech_path_of("/audio/speech/audio");
    assert_eq!(once, "/audio/speech/audio/speech");
    assert_eq!(azure_speech_path_of(&once), "/audio/speech");
    let url = build_azure_tts_url("https://r.openai.azure.com/openai/deployments/d/").unwrap();
    assert_eq!(build_azure_tts_url(&url).unwrap(), url);
}

#[test]
fn azure_url_keeps_the_path_guard_of_set_path() {
    // The path is set on the parsed URL itself, so the `/.` that guards a
    // path behind no host stays as `Url::set_path` leaves it.
    let url = build_azure_tts_url("non-spec:/.//").unwrap();
    assert_eq!(url, "non-spec:/./audio/speech?api-version=2024-12-01-preview");
}

#[test]
fn test_build_azure_tts_url_basic() {
    let url = build_azure_tts_url("https://my-resource.openai.azure.com/openai/deployments/my-tts").unwrap();
    assert!(url.contains("/openai/deployments/my-tts/audio/speech"));
    assert!(url.contains("api-version="));
}

#[test]
fn test_build_azure_tts_url_with_api_version() {
    let url = build_azure_tts_url(
        "https://my-resource.openai.azure.com/openai/deployments/my-tts?api-version=2024-08-01-preview",
    )
    .unwrap();
    assert!(url.contains("/openai/deployments/my-tts/audio/speech"));
    assert!(url.contains("api-version=2024-08-01-preview"));
}

#[test]
fn test_build_azure_tts_url_with_audio_suffix() {
    let url =
        build_azure_tts_url("https://my-resource.openai.azure.com/openai/deployments/my-tts/audio").unwrap();
    assert!(url.contains("/openai/deployments/my-tts/audio/speech"));
    assert!(!url.contains("/audio/audio/"));
}

#[test]
fn test_build_azure_tts_url_with_full_path() {
    let url = build_azure_tts_url(
        "https://my-resource.openai.azure.com/openai/deployments/my-tts/audio/speech?api-version=2024-08-01-preview",
    )
    .unwrap();
    assert!(url.contains("/openai/deployments/my-tts/audio/speech"));
    assert!(!url.contains("/audio/speech/audio/speech"));
    assert!(url.contains("api-version=2024-08-01-preview"));
}

#[test]
fn azure_url_exact_form() {
    let url = build_azure_tts_url("https://r.openai.azure.com/openai/deployments/d/").unwrap();
    assert_eq!(
        url,
        "https://r.openai.azure.com/openai/deployments/d/audio/speech?api-version=2024-12-01-preview"
    );
}

#[test]
fn azure_url_invalid_base() {
    match build_azure_tts_url("not a url") {
        Err(TtsGeneratorError::GenerationError(m)) => assert!(m.starts_with("Invalid base URL: ")),
        other => panic!("unexpected {:?}", other),
    }
}

#[test]
fn azure_speech_path_strips_repeated_suffixes() {
    assert_eq!(azure_speech_path_of("/x/audio/audio//"), "/x/audio/speech");
    assert_eq!(azure_speech_path_of("/x/audio/speech/audio/speech"), "/x/audio/speech");
    assert_eq!(azure_speech_path_of(""), "/audio/speech");
}

fn config(api_key: Option<&str>, base_url: Option<&str>, model: TtsModel) -> TtsConfig {
    TtsConfig {
        api_key: api_key.map(|s| s.to_string()),
        model,
        default_voice: TtsVoice::Nova,
        default_speed: voice_test_tool::types::F32Bits(1.5f32.to_bits()),
        default_instructions: Some("calm".to_string()),
        output_format: TtsOutputFormat::Flac,
        base_url: base_url.map(|s| s.to_string()),
    }
}

#[test]
fn plan_requires_api_key() {
    let c = config(None, None, TtsModel::Tts1);
    assert!(matches!(plan_tts_request("hi", &c), Err(TtsGeneratorError::MissingApiKey)));
    assert_eq!(TtsGeneratorError::MissingApiKey.message(), "API key is not configured");
    assert_eq!(
        TtsGeneratorError::GenerationError("boom".to_string()).message(),
        "TTS generation failed: boom"
    );
}

#[test]
fn plan_azure_request_body() {
    let c = config(Some("k"), Some("https://r.openai.azure.com/openai/deployments/d"), TtsModel::Tts1Hd);
    match plan_tts_request("hello", &c).unwrap() {
        TtsRequest::Azure { url, api_key, body } => {
            assert!(url.starts_with("https://r.openai.azure.com/openai/deployments/d/audio/speech"));
            assert_eq!(api_key, "k");
            assert_eq!(body.model, "tts-1-hd");
            assert_eq!(body.voice, "nova");
            assert_eq!(body.response_format, "flac");
            assert_eq!(body.input, "hello");
            assert_eq!(body.speed.map(|b| f32::from_bits(b.0)), Some(1.5));
            // Instructions only go with the model that takes them.
            assert_eq!(body.instructions, None);
        }
        other => panic!("unexpected {:?}", other),
    }
    let c = config(Some("k"), Some("https://r.openai.azure.com/x"), TtsModel::Gpt4oMiniTts);
    match plan_tts_request("hello", &c).unwrap() {
        TtsRequest::Azure { body, .. } => {
            assert_eq!(body.model, "gpt-4o-mini-tts");
            assert_eq!(body.instructions.as_deref(), Some("calm"));
        }
        other => panic!("unexpected {:?}", other),
    }
}

#[test]
fn plan_openai_request() {
    let c = config(Some("k"), Some("http://localhost:11434/v1"), TtsModel::Tts1);
    match plan_tts_request("hi", &c).unwrap() {
        TtsRequest::OpenAi(q) => {
            assert_eq!(q.base_url.as_deref(), Some("http://localhost:11434/v1"));
            assert_eq!(q.model, TtsModel::Tts1);
            assert_eq!(q.instructions.as_deref(), Some("calm"));
            assert_eq!(q.input, "hi");
        }
        other => panic!("unexpected {:?}", other),
    }
    let c = config(Some("k"), None, TtsModel::Tts1);
    assert!(matches!(plan_tts_request("hi", &c).unwrap(), TtsRequest::OpenAi(_)));
}

#[test]
fn tts_config_defaults() {
    let c = TtsConfig::default();
    assert_eq!(c.model, TtsModel::Gpt4oMiniTts);
    assert_eq!(c.default_voice, TtsVoice::Alloy);
    assert_eq!(c.output_format, TtsOutputFormat::Wav);
    assert_eq!(f32::from_bits(c.default_speed.0), 1.0);
    assert!(c.api_key.is_none() && c.base_url.is_none());
    let r = RecordingConfig::default();
    assert_eq!(f32::from_bits(r.silence_threshold_db.0), -40.0);
    assert_eq!((r.sample_rate, r.channels, r.silence_duration_ms, r.max_recording_sec), (16000, 1, 2000, 60));
    assert_eq!(TtsModel::Tts1Hd.debug_name(), format!("{:?}", TtsModel::Tts1Hd));
    assert_eq!(TtsVoice::Shimmer.debug_name(), format!("{:?}", TtsVoice::Shimmer));
}

fn result(tts: Vec<u8>, response: Option<Vec<u8>>) -> TtsTestResult {
    TtsTestResult {
        test_case_id: "001".to_string(),
        input_text: "Hello world".to_string(),
        tts_duration_sec: F64Bits(1.5f64.to_bits()),
        response_duration_sec: Some(F64Bits(2.0f64.to_bits())),
        started_at: "2024-01-01T00:00:00+00:00".to_string(),
        ended_at: "2024-01-01T00:00:05+00:00".to_string(),
        error: None,
        tts_audio: tts,
        response_audio: response,
    }
}

fn create_test_session() -> TtsTestSession {
    let mut s = new_session(
        "test-session-123".to_string(),
        "/test/path.csv".to_string(),
        vec![],
        TtsConfig::default(),
        RecordingConfig::default(),
        "2024-01-01T00:00:00+00:00".to_string(),
    );
    s.results = vec![result(vec![0u8; 100], Some(vec![0u8; 100]))];
    s.status = TtsTestStatus::Completed;
    s.ended_at = Some("2024-01-01T00:01:00+00:00".to_string());
    s
}

fn entry_names(zip_bytes: &[u8]) -> Vec<String> {
    let archive = zip::ZipArchive::new(std::io::Cursor::new(zip_bytes.to_vec())).unwrap();
    archive.file_names().map(|s| s.to_string()).collect()
}

#[test]
fn test_export_session_to_zip() {
    let session = create_test_session();
    let result = archive_session(&session, b"{}");
    assert!(result.is_ok());
    let bytes = result.unwrap();
    assert!(!bytes.is_empty());
    let mut names = entry_names(&bytes);
    names.sort();
    assert_eq!(names, vec!["metadata.json", "responses/001_response.wav", "tts/001_input.wav"]);
}

#[test]
fn test_export_empty_session() {
    let mut session = create_test_session();
    session.results = vec![];
    let result = archive_session(&session, b"{}");
    assert!(result.is_ok());
    assert_eq!(entry_names(&result.unwrap()), vec!["metadata.json"]);
}

#[test]
fn archive_holds_each_entry_in_order() {
    let mut session = create_test_session();
    session.results = vec![
        result(vec![1u8, 2, 3], None),
        result(vec![], Some(vec![])),
        result(vec![9u8; 7], Some(vec![4u8, 5])),
    ];
    let bytes = archive_session(&session, b"{\"k\":1}").unwrap();
    let mut archive = zip::ZipArchive::new(std::io::Cursor::new(bytes)).unwrap();
    let expected: Vec<(&str, Vec<u8>)> = vec![
        ("tts/001_input.wav", vec![1, 2, 3]),
        ("responses/002_response.wav", vec![]),
        ("tts/003_input.wav", vec![9; 7]),
        ("responses/003_response.wav", vec![4, 5]),
        ("metadata.json", b"{\"k\":1}".to_vec()),
    ];
    assert_eq!(archive.len(), expected.len());
    for (i, (name, data)) in expected.iter().enumerate() {
        let mut f = archive.by_index(i).unwrap();
        assert_eq!(f.name(), *name);
        let mut got = Vec::new();
        std::io::Read::read_to_end(&mut f, &mut got).unwrap();
        assert_eq!(&got, data);
    }
}

#[test]
fn export_metadata_records() {
    let mut session = create_test_session();
    session.results.push(result(vec![], None));
    let m = export_metadata(&session, "now".to_string());
    assert_eq!(m.session_id, "test-session-123");
    assert_eq!(m.csv_source, "/test/path.csv");
    assert_eq!(m.tts_config.model, "Gpt4oMiniTts");
    assert_eq!(m.tts_config.voice, "Alloy");
    assert_eq!(m.test_cases.len(), 2);
    assert_eq!(m.test_cases[0].id, "001");
    assert_eq!(m.test_cases[0].tts_audio_file.as_deref(), Some("tts/001_input.wav"));
    assert_eq!(m.test_cases[0].response_audio_file.as_deref(), Some("responses/001_response.wav"));
    assert_eq!(m.test_cases[1].id, "002");
    assert_eq!(m.test_cases[1].tts_audio_file, None);
    assert_eq!(m.test_cases[1].response_audio_file, None);
    assert_eq!(m.test_cases[1].timestamp, "2024-01-01T00:00:00+00:00");
    // The archive holds only the audio there is.
    let bytes = archive_session(&session, b"{}").unwrap();
    assert_eq!(entry_names(&bytes).len(), 3);
}

fn case() -> TtsTestCase {
    TtsTestCase { id: "007".to_string(), text: "speak".to_string() }
}

fn finish_of(actions: Vec<CaseAction>) -> TtsTestResult {
    match actions.into_iter().last() {
        Some(CaseAction::Finish(r)) => r,
        other => panic!("no result: {:?}", other),
    }
}

#[test]
fn case_runs_through_to_a_recorded_answer() {
    let c = case();
    let mut run = case_start("t0".to_string());
    let a = case_step_at(&c, &mut run, CaseEvent::Begin, "t".to_string());
    assert!(matches!(a.as_slice(), [CaseAction::Generate]));
    let a = case_step_at(&c, &mut run, CaseEvent::Generated(Ok(vec![1, 2, 3])), "t".to_string());
    assert!(matches!(a.as_slice(), [CaseAction::Decode]));
    let a = case_step_at(&c, &mut run, CaseEvent::Decoded(Ok(F64Bits(2.5f64.to_bits()))), "t".to_string());
    assert!(matches!(a.as_slice(), [CaseAction::StartRecording]));
    let a = case_step_at(&c, &mut run, CaseEvent::RecordingStarted(true), "t".to_string());
    assert!(matches!(a.as_slice(), [CaseAction::LoadAndPlay]));
    let a = case_step_at(&c, &mut run, CaseEvent::Loaded(LoadOutcome::Started), "t".to_string());
    assert!(a.is_empty());
    assert_eq!(run.phase, CasePhase::Playing);
    let a = case_step_at(&c, &mut run, CaseEvent::Flags { cancel: false, pause: false }, "t".to_string());
    assert!(matches!(a.as_slice(), [CaseAction::QueryPlayer]));
    let a = case_step_at(&c, &mut run, CaseEvent::PlayerDone(false), "t".to_string());
    assert!(matches!(a.as_slice(), [CaseAction::Sleep(50)]));
    let _ = case_step_at(&c, &mut run, CaseEvent::Flags { cancel: false, pause: false }, "t".to_string());
    let a = case_step_at(&c, &mut run, CaseEvent::PlayerDone(true), "t".to_string());
    assert!(matches!(a.as_slice(), [CaseAction::BeginSilenceWait]));
    let a = case_step_at(
        &c,
        &mut run,
        CaseEvent::SilenceCheck { cancel: false, silence: false, timed_out: false },
        "t".to_string(),
    );
    assert!(matches!(a.as_slice(), [CaseAction::Sleep(100)]));
    let a = case_step_at(
        &c,
        &mut run,
        CaseEvent::SilenceCheck { cancel: false, silence: true, timed_out: false },
        "t".to_string(),
    );
    assert!(matches!(a.as_slice(), [CaseAction::StopRecording, CaseAction::CollectRecording]));
    let a = case_step_at(
        &c,
        &mut run,
        CaseEvent::Collected { elapsed_sec: F64Bits(3.0f64.to_bits()), audio: Some(vec![9]) },
        "t9".to_string(),
    );
    let r = finish_of(a);
    assert_eq!(r.test_case_id, "007");
    assert_eq!(r.input_text, "speak");
    assert_eq!(f64::from_bits(r.tts_duration_sec.0), 2.5);
    assert_eq!(r.response_duration_sec.map(|b| f64::from_bits(b.0)), Some(3.0));
    assert_eq!((r.started_at.as_str(), r.ended_at.as_str()), ("t0", "t9"));
    assert_eq!(r.tts_audio, vec![1, 2, 3]);
    assert_eq!(r.response_audio, Some(vec![9]));
    assert_eq!(r.error, None);
    assert_eq!(run.phase, CasePhase::Finished);
}

#[test]
fn case_generation_failure() {
    let c = case();
    let mut run = case_start("t0".to_string());
    let _ = case_step_at(&c, &mut run, CaseEvent::Begin, "t".to_string());
    let a = case_step_at(&c, &mut run, CaseEvent::Generated(Err(TtsGeneratorError::MissingApiKey)), "t1".to_string());
    let r = finish_of(a);
    assert_eq!(r.error.as_deref(), Some("TTS generation failed: API key is not configured"));
    assert!(r.tts_audio.is_empty());
    assert_eq!(r.tts_duration_sec.0, 0);
}

#[test]
fn case_decode_failure_keeps_audio() {
    let c = case();
    let mut run = case_start("t0".to_string());
    let _ = case_step_at(&c, &mut run, CaseEvent::Begin, "t".to_string());
    let _ = case_step_at(&c, &mut run, CaseEvent::Generated(Ok(vec![5])), "t".to_string());
    let a = case_step_at(&c, &mut run, CaseEvent::Decoded(Err("bad".to_string())), "t".to_string());
    let r = finish_of(a);
    assert_eq!(r.error.as_deref(), Some("Failed to decode TTS audio: bad"));
    assert_eq!(r.tts_audio, vec![5]);
}

#[test]
fn case_cancel_and_missing_player() {
    let c = case();
    let mut run = case_start("t0".to_string());
    let _ = case_step_at(&c, &mut run, CaseEvent::Begin, "t".to_string());
    let _ = case_step_at(&c, &mut run, CaseEvent::Generated(Ok(vec![5])), "t".to_string());
    let _ = case_step_at(&c, &mut run, CaseEvent::Decoded(Ok(F64Bits(0))), "t".to_string());
    let _ = case_step_at(&c, &mut run, CaseEvent::RecordingStarted(true), "t".to_string());
    let a = case_step_at(&c, &mut run, CaseEvent::Loaded(LoadOutcome::NoPlayer), "t".to_string());
    assert!(matches!(a[0], CaseAction::StopRecording));
    assert_eq!(finish_of(a).error.as_deref(), Some("Audio player not available"));

    let mut run = case_start("t0".to_string());
    let _ = case_step_at(&c, &mut run, CaseEvent::Begin, "t".to_string());
    let _ = case_step_at(&c, &mut run, CaseEvent::Generated(Ok(vec![5])), "t".to_string());
    let _ = case_step_at(&c, &mut run, CaseEvent::Decoded(Ok(F64Bits(0))), "t".to_string());
    let _ = case_step_at(&c, &mut run, CaseEvent::RecordingStarted(false), "t".to_string());
    let _ = case_step_at(&c, &mut run, CaseEvent::Loaded(LoadOutcome::Started), "t".to_string());
    let a = case_step_at(&c, &mut run, CaseEvent::Flags { cancel: false, pause: true }, "t".to_string());
    assert!(matches!(a.as_slice(), [CaseAction::PausePlayer]));
    let a = case_step_at(&c, &mut run, CaseEvent::Flags { cancel: true, pause: true }, "t".to_string());
    assert!(matches!(a[0], CaseAction::StopPlayer));
    let r = finish_of(a);
    assert_eq!(r.error.as_deref(), Some("Cancelled"));
    assert_eq!(r.tts_audio, vec![5]);
    // Without a recording, a finished playback ends the case at once.
    let mut run = case_start("t0".to_string());
    for ev in [
        CaseEvent::Begin,
        CaseEvent::Generated(Ok(vec![5])),
        CaseEvent::Decoded(Ok(F64Bits(0))),
        CaseEvent::RecordingStarted(false),
        CaseEvent::Loaded(LoadOutcome::Started),
        CaseEvent::Flags { cancel: false, pause: false },
    ] {
        let _ = case_step_at(&c, &mut run, ev, "t".to_string());
    }
    let r = finish_of(case_step_at(&c, &mut run, CaseEvent::PlayerDone(true), "t".to_string()));
    assert_eq!(r.response_duration_sec, None);
    assert_eq!(r.error, None);
}

#[test]
fn session_runs_cases_and_completes() {
    let (p, a) = session_step(2, SessionPhase::Starting, &SessionEvent::Begin);
    assert_eq!(p, SessionPhase::CaseCheck(0));
    assert!(matches!(a.as_slice(), [SessionAction::SetStatus(TtsTestStatus::Running { current_index: 0 }), SessionAction::Emit]));
    let (p, a) = session_step(2, p, &SessionEvent::Flags { cancel: false, pause: true });
    assert_eq!(p, SessionPhase::AwaitResume(0));
    assert!(matches!(a[0], SessionAction::SetStatus(TtsTestStatus::Paused { current_index: 0 })));
    let (p, a) = session_step(2, p, &SessionEvent::Flags { cancel: false, pause: true });
    assert!(matches!(a.as_slice(), [SessionAction::Sleep(100)]));
    let (p, a) = session_step(2, p, &SessionEvent::Flags { cancel: false, pause: false });
    assert_eq!(p, SessionPhase::Running(0));
    assert!(matches!(a.last(), Some(SessionAction::RunCase(0))));
    let (p, a) = session_step(2, p, &SessionEvent::CaseDone);
    assert_eq!(p, SessionPhase::CaseCheck(1));
    assert!(matches!(a.as_slice(), [SessionAction::AddResult, SessionAction::Emit]));
    let (p, _) = session_step(2, p, &SessionEvent::Flags { cancel: false, pause: false });
    let (p, _) = session_step(2, p, &SessionEvent::Flags { cancel: false, pause: false });
    assert_eq!(p, SessionPhase::Running(1));
    let (p, a) = session_step(2, p, &SessionEvent::CaseDone);
    assert_eq!(p, SessionPhase::Finished);
    assert!(matches!(
        a.as_slice(),
        [
            SessionAction::AddResult,
            SessionAction::Emit,
            SessionAction::SetStatus(TtsTestStatus::Completed),
            SessionAction::Finalize,
            SessionAction::Emit,
            SessionAction::Finish
        ]
    ));
}

#[test]
fn session_cancel_aborts() {
    let (p, a) = session_step(3, SessionPhase::CaseCheck(1), &SessionEvent::Flags { cancel: true, pause: false });
    assert_eq!(p, SessionPhase::Finished);
    assert!(matches!(a[0], SessionAction::SetStatus(TtsTestStatus::Aborted)));
    assert_eq!(a.len(), 4);
    let (p, _) = session_step(3, SessionPhase::AwaitResume(1), &SessionEvent::Flags { cancel: true, pause: true });
    assert_eq!(p, SessionPhase::Finished);
    // Once the pause is lifted, the case runs even if cancel was asked.
    let (p, _) = session_step(3, SessionPhase::AwaitResume(1), &SessionEvent::Flags { cancel: true, pause: false });
    assert_eq!(p, SessionPhase::Running(1));
}

#[test]
fn runner_records_status_results_and_end() {
    let session = new_session(
        "s1".to_string(),
        "a.csv".to_string(),
        vec![case()],
        TtsConfig::default(),
        RecordingConfig::default(),
        "t0".to_string(),
    );
    assert!(matches!(session.status, TtsTestStatus::Pending));
    let mut runner = TtsTestRunner::new(session);
    runner.update_status(TtsTestStatus::Running { current_index: 0 });
    runner.add_result(result(vec![], None));
    runner.finalize_session_at("t1".to_string());
    let s = runner.get_session();
    assert!(matches!(s.status, TtsTestStatus::Running { current_index: 0 }));
    assert_eq!(s.results.len(), 1);
    assert_eq!(s.ended_at.as_deref(), Some("t1"));
    let flag = runner.cancel_flag();
    flag.store(true, std::sync::atomic::Ordering::SeqCst);
    assert!(runner.cancel_flag().load(std::sync::atomic::Ordering::SeqCst));
    assert!(!runner.pause_flag().load(std::sync::atomic::Ordering::SeqCst));
    let runners = vec![runner];
    assert_eq!(find_runner(&runners, "s1"), Ok(0));
    assert_eq!(find_runner(&runners, "zz"), Err("TTS test session not found: zz".to_string()));
}
