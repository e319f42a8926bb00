use voice_test_tool::audio::decoder::{decode_route, detect_format, frame_count, wav_open_error, DecoderKind};
use voice_test_tool::audio::files::{audio_file_info, player_unavailable_error, remove_audio_file, PlaybackState};
use voice_test_tool::audio::input::{choose_stream_config, find_input_device, list_input_devices_from, StreamChoice, StreamRange};
use voice_test_tool::audio::silence::SilenceCounter;
use voice_test_tool::config::{config_path_in, AppConfig, LoggingConfig, UiConfig};
use voice_test_tool::device::linux::{load_module_args, parse_pactl_sinks, sinks_from_output, unload_module_args, LinuxDeviceManager};
use voice_test_tool::device::macos::{is_virtual_device, MacOSDeviceManager};
use voice_test_tool::device::{create_device_manager, set_default_input_device, CommandOutcome, DeviceManager, Platform, VirtualDeviceManager};
use voice_test_tool::error::{AudioError, DeviceError};
use voice_test_tool::types::{DeviceInfo, F64Bits};

fn s(x: &str) -> String {
    x.to_string()
}

#[test]
fn pactl_output_is_read() {
    let out = "0\talsa_output.pci\tmodule-alsa-card.c\ts16le 2ch 44100Hz\tSUSPENDED\r\n1\t VoiceTest_Mic \tmodule-null-sink.c\nbad line\n";
    let sinks = parse_pactl_sinks(out);
    assert_eq!(sinks, vec![(s("0"), s("alsa_output.pci")), (s("1"), s("VoiceTest_Mic"))]);
    assert!(parse_pactl_sinks("").is_empty());
    match sinks_from_output(&CommandOutcome::Failed { stderr: s("  boom \n") }) {
        Err(DeviceError::NotFound(m)) => assert_eq!(m, "pactl list sinks failed: boom"),
        other => panic!("{:?}", other),
    }
}

#[test]
fn linux_create_list_status_destroy() {
    let mut m = LinuxDeviceManager::new();
    assert_eq!(
        load_module_args("Voice Test Mic"),
        vec![s("load-module"), s("module-null-sink"), s("sink_name=Voice_Test_Mic"), s("sink_properties=device.description=Voice Test Mic")]
    );
    match m.finish_create("Voice Test Mic", &CommandOutcome::Succeeded { stdout: s("nope\n") }) {
        Err(DeviceError::CreationFailed(msg)) => assert!(msg.starts_with("Failed to parse module ID from pactl output 'nope': ")),
        other => panic!("{:?}", other),
    }
    assert!(m.active_device_name.is_none());
    let d = m.finish_create("Voice Test Mic", &CommandOutcome::Succeeded { stdout: s("42\n") }).unwrap();
    assert_eq!((d.id.as_str(), d.name.as_str(), d.is_virtual, d.is_active), ("Voice_Test_Mic", "Voice Test Mic", true, true));
    assert_eq!(m.module_id, Some(42));
    assert_eq!(unload_module_args(42), vec![s("unload-module"), s("42")]);

    let sinks = vec![(s("0"), s("alsa")), (s("1"), s("Voice_Test_Mic")), (s("2"), s("alsa"))];
    let names = vec![s("default"), s("alsa"), s("default")];
    let list = m.list_devices_from(&names, &Some(s("alsa")), &sinks);
    let got: Vec<(String, bool, bool)> = list.iter().map(|d| (d.id.clone(), d.is_default, d.is_active)).collect();
    assert_eq!(got, vec![(s("default"), false, false), (s("alsa"), true, false), (s("1"), false, true)]);

    let st = m.get_status(&sinks);
    assert!(st.is_active && st.error.is_none());
    let st = m.get_status(&[]);
    assert_eq!(st.error.as_deref(), Some("PulseAudio null-sink 'Voice Test Mic' is no longer available (module may have been unloaded)"));

    assert_eq!(m.take_module(), Some(42));
    assert!(m.finish_destroy(&Some(CommandOutcome::Failed { stderr: s("gone") })).is_ok());
    assert!(m.active_device_name.is_none());
    assert_eq!(m.get_status(&sinks).error.as_deref(), Some("No virtual device active"));
}

#[test]
fn macos_detection() {
    assert!(is_virtual_device("BlackHole 2ch"));
    assert!(!is_virtual_device("MacBook Speakers"));
    let mut m = MacOSDeviceManager::new();
    let names = vec![s("MacBook Speakers"), s("BlackHole 2ch"), s("Loopback Audio")];
    let found = m.detect_in(&names, &Some(s("MacBook Speakers")));
    assert_eq!(found.as_ref().map(|d| d.name.as_str()), Some("BlackHole 2ch"));
    let d = m.create_device_from(found).unwrap();
    assert!(d.is_active && d.is_virtual);
    let again = m.detect_in(&names, &None);
    assert!(m.get_status(&again).is_active);
    let list = m.list_devices_from(&names, &Some(s("MacBook Speakers")));
    assert_eq!(list.iter().map(|d| (d.is_virtual, d.is_default, d.is_active)).collect::<Vec<_>>(), vec![(false, true, false), (true, false, true), (true, false, false)]);
    assert!(m.create_device_from(None).is_err());
    m.destroy_device();
    assert_eq!(m.active_device_name(), None);
    let mgr = create_device_manager(Platform::Linux);
    assert!(matches!(mgr, DeviceManager::Linux(_)));
    assert_eq!(mgr.active_device_name(), None);
}

#[test]
fn default_input_mark() {
    let mut active = Some(DeviceInfo { id: s("d1"), name: s("n"), is_virtual: true, is_default: false, is_active: true });
    set_default_input_device(&mut active, "other");
    assert!(!active.as_ref().unwrap().is_default);
    set_default_input_device(&mut active, "d1");
    assert!(active.as_ref().unwrap().is_default);
}

#[test]
fn audio_formats_and_routes() {
    assert_eq!(detect_format("/x/a.WAVE").unwrap(), "wav");
    assert_eq!(detect_format("a.oga").unwrap(), "ogg");
    assert!(matches!(detect_format("a.txt"), Err(AudioError::UnsupportedFormat(e)) if e == "txt"));
    assert!(matches!(detect_format("noext"), Err(AudioError::UnsupportedFormat(e)) if e == "no file extension"));
    assert!(matches!(decode_route("a.mp3", false), Err(AudioError::FileNotFound(p)) if p == "a.mp3"));
    assert!(matches!(decode_route("a.mp3", true), Ok((DecoderKind::Symphonia, f)) if f == "mp3"));
    assert!(matches!(decode_route("a.wav", true), Ok((DecoderKind::Wav, _))));
    assert!(matches!(wav_open_error("a.wav", "No such file or directory"), AudioError::FileNotFound(_)));
    assert!(matches!(wav_open_error("a.wav", "bad header"), AudioError::DecodeError(m) if m == "WAV read error: bad header"));
    assert_eq!(frame_count(11, 2), 5);
}

#[test]
fn files_and_playback_state() {
    let info = audio_file_info(s("id1"), "/m/song.mp3", 44100, 2, F64Bits(1.5f64.to_bits()), s("mp3"));
    assert_eq!(info.name, "song.mp3");
    let mut files = vec![info, audio_file_info(s("id2"), "/", 1, 1, F64Bits(0), s("wav"))];
    assert_eq!(files[1].name, "unknown");
    remove_audio_file(&mut files, "id1");
    assert_eq!(files.len(), 1);
    let mut st = PlaybackState::default();
    assert_eq!(f32::from_bits(st.volume.0), 0.8);
    assert!(st.needs_load("a"));
    st.loaded(s("a"), F64Bits(2.0f64.to_bits()));
    st.playing();
    assert!(!st.needs_load("a") && st.is_playing);
    st.paused();
    assert!(st.is_paused && !st.is_playing);
    st.stopped();
    assert!(!st.is_paused && !st.is_playing);
    assert_eq!(player_unavailable_error(&None), "Audio player not available");
    assert_eq!(player_unavailable_error(&Some(s("no device"))), "Audio player not available: no device");
}

#[test]
fn recording_devices() {
    let list = list_input_devices_from(&[s("mic"), s("usb")], &Some(s("usb")), &[s("spk"), s("mic"), s("spk")], &Some(s("spk")));
    let got: Vec<(String, bool, String)> = list.into_iter().map(|d| (d.name, d.is_default, d.device_type)).collect();
    assert_eq!(got, vec![(s("mic"), false, s("input")), (s("usb"), true, s("input")), (s("spk"), true, s("output"))]);
    assert_eq!(find_input_device(&[s("a"), s("b")], "b"), Ok(1));
    assert_eq!(find_input_device(&[s("a")], "z"), Err(s("Input device 'z' not found")));
    let cs = [
        StreamRange { channels: 2, min_sample_rate: 8000, max_sample_rate: 48000 },
        StreamRange { channels: 1, min_sample_rate: 44100, max_sample_rate: 48000 },
        StreamRange { channels: 1, min_sample_rate: 8000, max_sample_rate: 16000 },
    ];
    assert_eq!(choose_stream_config(&cs, 16000, 1), StreamChoice::AtRate(2));
    assert_eq!(choose_stream_config(&cs[..2], 16000, 1), StreamChoice::AtMaxRate(1));
    assert_eq!(choose_stream_config(&cs[..1], 16000, 1), StreamChoice::DeviceDefault);
}

fn silent(samples: &[f32], threshold: f32) -> Vec<bool> {
    samples.iter().map(|s| s.abs() < threshold).collect()
}

// A silence detector counts samples below an amplitude threshold of
// 10^(-40/20); the classification is made here, the counting by the
// library.

#[test]
fn test_silence_detection() {
    let threshold = 10f32.powf(-40.0 / 20.0);
    let required = ((100 as f32 / 1000.0) * 1000 as f32) as usize;
    let mut detector = SilenceCounter::new(required);
    let silent_samples: Vec<f32> = vec![0.001; 50];
    assert!(!detector.process(&silent(&silent_samples, threshold)));
    assert!(detector.process(&silent(&silent_samples, threshold)));
}

#[test]
fn test_silence_reset_on_sound() {
    let threshold = 10f32.powf(-40.0 / 20.0);
    let mut detector = SilenceCounter::new(100);
    let silent_samples: Vec<f32> = vec![0.001; 50];
    detector.process(&silent(&silent_samples, threshold));
    assert_eq!(detector.current_silence_samples(), 50);
    let loud_samples: Vec<f32> = vec![0.5];
    detector.process(&silent(&loud_samples, threshold));
    assert_eq!(detector.current_silence_samples(), 0);
}

#[test]
fn silence_stops_counting_where_reached() {
    let mut c = SilenceCounter::new(3);
    assert!(c.process(&[true, false, true, true, true, true]));
    assert_eq!(c.current_silence_samples(), 3);
    c.reset();
    assert_eq!(c.current_silence_samples(), 0);
    assert_eq!(c.required_silence_samples(), 3);
}

#[test]
fn app_config_defaults() {
    let c = AppConfig::default();
    assert_eq!(c.audio.default_sample_rate, 44100);
    assert_eq!(f32::from_bits(c.audio.default_volume.0), 0.8);
    assert_eq!(c.virtual_device.device_name, "VoiceTestTool Virtual Mic");
    assert!(c.virtual_device.cleanup_on_exit);
    let u = UiConfig::default();
    assert_eq!((u.window_width, u.window_height, u.language.as_str()), (1280, 800, "ja"));
    let l = LoggingConfig::with_data_dir(None);
    assert_eq!((l.level.as_str(), l.output_dir.as_str(), l.max_sessions), ("info", "logs", 100));
    let l = LoggingConfig::with_data_dir(Some(s("/d")));
    assert_eq!(l.output_dir, "/d/logs");
    assert_eq!(config_path_in(None), "config.toml");
    assert_eq!(config_path_in(Some(s("/c"))), "/c/config.toml");
    assert_eq!(c.shortcuts.seek_backward, "Left");
}

#[test]
fn module_numbers_are_read_as_pactl_prints_them() {
    let mut m = LinuxDeviceManager::new();
    m.finish_create("Mic", &CommandOutcome::Succeeded { stdout: s(" +7 \n") }).unwrap();
    assert_eq!(m.module_id, Some(7));

    let mut m = LinuxDeviceManager::new();
    for bad in ["-1", "4294967296", "", "1 2"] {
        match m.finish_create("Mic", &CommandOutcome::Succeeded { stdout: s(bad) }) {
            Err(DeviceError::CreationFailed(msg)) => {
                assert!(msg.starts_with(&format!("Failed to parse module ID from pactl output '{}': ", bad)))
            }
            other => panic!("{:?}", other),
        }
        assert_eq!(m.module_id, None);
    }
    m.finish_create("Mic", &CommandOutcome::Succeeded { stdout: s("4294967295") }).unwrap();
    assert_eq!(m.module_id, Some(u32::MAX));
}
