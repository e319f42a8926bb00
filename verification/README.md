# voice-test-tool

The core of a tool that automates tests of voice chatbots: it plays prepared
audio files into a virtual microphone, runs test scenarios and playlists,
generates speech from CSV test cases, records the answers, logs every test
session and exports reports and archives.

## Layout

- `src/` — the library, verified with Verus. Every public function states
  what it returns or changes; the laws of the library are public proof
  functions (`law_*`).
  - `playlist.rs`, `playback.rs` — playlists, and the playlist player as a
    state machine.
  - `scenario/` — scenario files, the scenario catalog, and scenario
    execution as a state machine.
  - `tts/` — CSV test cases, speech requests, test sessions and their
    execution (session and case state machines), ZIP export.
  - `logging/` — the test logger and its CSV / HTML reports.
  - `audio/` — audio formats, recording devices and settings, silence
    counting, and the control of the player thread.
  - `device/` — virtual devices (PulseAudio null-sinks, macOS drivers).
  - `flow.rs` — events and actions shared by the drivers, and the
    cancellable delay.
  - `text.rs`, `paths.rs`, `ids.rs` — text, paths, identifiers and time.
- `tests/` — tests of the library on concrete values.
- `app/` — the application around the library: files, the network,
  the sound output (`app/backends.rs`, written on rodio and cpal, which
  the manifest does not list), decoding (hound, symphonia), background
  tasks and the commands of the user interface. Floating-point work
  (samples, positions, volumes) stays here; the library carries such
  values as their bits.

The drivers in `app/drivers.rs` and `app/player.rs` feed each state
machine of the library with what they observe (flags, timer readings,
outcomes of I/O) and perform the actions it answers with.
