//! The audio files loaded in the application, and the playback state of
//! the player.
use vstd::prelude::*;

use crate::paths::{path_file_name, spec_path_file_name};
use crate::text::{push_str, str_eq, to_owned_string};
use crate::tts::types::opt_chars;
use crate::types::{AudioFileInfo, F32Bits, F64Bits};

verus! {

/// The name shown for a loaded file: the last component of its path, or
/// "unknown".
pub open spec fn loaded_file_name(path: Seq<char>) -> Seq<char> {
    match spec_path_file_name(path) {
        Some(n) => n,
        None => "unknown"@,
    }
}

/// The record of a file loaded from `path` under the id `id`, with what
/// decoding it found.
pub fn audio_file_info(
    id: String,
    path: &str,
    sample_rate: u32,
    channels: u16,
    duration_sec: F64Bits,
    format: String,
) -> (r: AudioFileInfo)
    ensures
        r.id == id,
        r.name@ == loaded_file_name(path@),
        r.path@ == path@,
        r.sample_rate == sample_rate,
        r.channels == channels,
        r.duration_sec == duration_sec,
        r.format == format,
{
    let name = match path_file_name(path) {
        Some(n) => n,
        None => to_owned_string("unknown"),
    };
    AudioFileInfo { id, name, path: to_owned_string(path), sample_rate, channels, duration_sec, format }
}

/// The predicate "this file does not have id `id`".
pub open spec fn other_file(id: Seq<char>) -> spec_fn(AudioFileInfo) -> bool {
    |f: AudioFileInfo| f.id@ != id
}

/// Removes every loaded file with the given id.
pub fn remove_audio_file(files: &mut Vec<AudioFileInfo>, file_id: &str)
    ensures
        final(files)@ == old(files)@.filter(other_file(file_id@)),
{
    let ghost old_fs = old(files)@;
    let ghost keep = other_file(file_id@);
    let mut j: usize = files.len();
    assert(old_fs.skip(old_fs.len() as int) =~= Seq::<AudioFileInfo>::empty());
    assert(old_fs.take(old_fs.len() as int) =~= old_fs);
    proof {
        reveal(Seq::filter);
    }
    while j > 0
        invariant
            j <= old_fs.len(),
            keep == other_file(file_id@),
            files@ == old_fs.take(j as int) + old_fs.skip(j as int).filter(keep),
        decreases j,
    {
        j = j - 1;
        let ghost tail = old_fs.skip(j + 1);
        assert(old_fs.skip(j as int) =~= seq![old_fs[j as int]] + tail);
        proof {
            tail.lemma_filter_prepend(old_fs[j as int], keep);
        }
        assert(old_fs.take(j + 1) =~= old_fs.take(j as int).push(old_fs[j as int]));
        assert(files@[j as int] == old_fs[j as int]);
        if str_eq(files[j].id.as_str(), file_id) {
            files.remove(j);
            assert(files@ =~= old_fs.take(j as int) + old_fs.skip(j as int).filter(keep));
        } else {
            assert(files@ =~= old_fs.take(j as int) + old_fs.skip(j as int).filter(keep));
        }
    }
    assert(old_fs.skip(0) =~= old_fs);
    assert(old_fs.take(0) =~= Seq::<AudioFileInfo>::empty());
    assert(files@ =~= old_fs.filter(keep));
}

/// Current playback state
#[derive(Debug)]
pub struct PlaybackState {
    pub file_id: Option<String>,
    pub is_playing: bool,
    pub is_paused: bool,
    /// Seconds, as an `f64`.
    pub current_position_sec: F64Bits,
    /// Seconds, as an `f64`.
    pub total_duration_sec: F64Bits,
    /// As an `f32` in 0.0..=1.0.
    pub volume: F32Bits,
    /// As an `f32` in 0.5..=2.0.
    pub speed: F32Bits,
}

/// The bits of the `f32` value `0.8`, the default volume.
pub const DEFAULT_VOLUME_BITS: u32 = 0x3f4c_cccd;

/// The bits of the `f32` value `1.0`, the normal speed.
pub const NORMAL_SPEED_BITS: u32 = 0x3f80_0000;

impl Default for PlaybackState {
    fn default() -> (r: Self)
        ensures
            r.file_id is None,
            !r.is_playing,
            !r.is_paused,
            r.current_position_sec == F64Bits(0),
            r.total_duration_sec == F64Bits(0),
            r.volume == F32Bits(DEFAULT_VOLUME_BITS),
            r.speed == F32Bits(NORMAL_SPEED_BITS),
    {
        PlaybackState {
            file_id: None,
            is_playing: false,
            is_paused: false,
            current_position_sec: F64Bits(0),
            total_duration_sec: F64Bits(0),
            volume: F32Bits(DEFAULT_VOLUME_BITS),
            speed: F32Bits(NORMAL_SPEED_BITS),
        }
    }
}

impl PlaybackState {
    /// Whether the player must load `file_id` before playing it: it holds
    /// another file, or none.
    pub fn needs_load(&self, file_id: &str) -> (r: bool)
        ensures
            r == (opt_chars(self.file_id) != Some(file_id@)),
    {
        match &self.file_id {
            Some(f) => !str_eq(f.as_str(), file_id),
            None => true,
        }
    }

    /// A file of this duration was loaded: at its start.
    pub fn loaded(&mut self, file_id: String, duration_sec: F64Bits)
        ensures
            final(self).file_id == Some(file_id),
            final(self).total_duration_sec == duration_sec,
            final(self).current_position_sec == F64Bits(0),
            final(self).is_playing == old(self).is_playing,
            final(self).is_paused == old(self).is_paused,
            final(self).volume == old(self).volume,
            final(self).speed == old(self).speed,
    {
        self.file_id = Some(file_id);
        self.total_duration_sec = duration_sec;
        self.current_position_sec = F64Bits(0);
    }

    /// Playing.
    pub fn playing(&mut self)
        ensures
            *final(self) == (PlaybackState { is_playing: true, is_paused: false, ..*old(self) }),
    {
        self.is_playing = true;
        self.is_paused = false;
    }

    /// Paused.
    pub fn paused(&mut self)
        ensures
            *final(self) == (PlaybackState { is_playing: false, is_paused: true, ..*old(self) }),
    {
        self.is_playing = false;
        self.is_paused = true;
    }

    /// Stopped: back at the start.
    pub fn stopped(&mut self)
        ensures
            *final(self) == (PlaybackState {
                is_playing: false,
                is_paused: false,
                current_position_sec: F64Bits(0),
                ..*old(self)
            }),
    {
        self.is_playing = false;
        self.is_paused = false;
        self.current_position_sec = F64Bits(0);
    }

    /// Takes the position and state the player reports.
    pub fn sync(&mut self, position_sec: F64Bits, is_playing: bool, is_paused: bool)
        ensures
            *final(self) == (PlaybackState {
                current_position_sec: position_sec,
                is_playing,
                is_paused,
                ..*old(self)
            }),
    {
        self.current_position_sec = position_sec;
        self.is_playing = is_playing;
        self.is_paused = is_paused;
    }
}

/// The message when no audio player exists, with the reason its creation
/// failed where it is known.
pub fn player_unavailable_error(init_error: &Option<String>) -> (r: String)
    ensures
        r@ == match *init_error {
            Some(reason) => "Audio player not available: "@ + reason@,
            None => "Audio player not available"@,
        },
{
    match init_error {
        Some(reason) => {
            let mut m = to_owned_string("Audio player not available: ");
            push_str(&mut m, reason.as_str());
            m
        },
        None => to_owned_string("Audio player not available"),
    }
}

} // verus!
