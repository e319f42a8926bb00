//! Audio files: which decoder reads a file, and the errors of opening it.
//! Decoding itself (samples are floating point) is done by the caller.
use vstd::prelude::*;

use crate::error::AudioError;
use crate::paths::{path_extension, spec_to_lowercase, to_lowercase};
use crate::scenario::parser::lowered_extension;
use crate::text::{contains_seq, push_str, str_contains, str_eq, to_owned_string};

verus! {

/// The audio format of a (lower-cased) extension, or what the unsupported
/// format error names.
pub open spec fn audio_format_spec(ext: Option<Seq<char>>) -> Result<Seq<char>, Seq<char>> {
    match ext {
        None => Err("no file extension"@),
        Some(e) => if e == "wav"@ || e == "wave"@ {
            Ok("wav"@)
        } else if e == "mp3"@ {
            Ok("mp3"@)
        } else if e == "flac"@ {
            Ok("flac"@)
        } else if e == "ogg"@ || e == "oga"@ {
            Ok("ogg"@)
        } else {
            Err(e)
        },
    }
}

/// Detect the audio format from a file extension (in any case).
pub fn detect_format(path: &str) -> (r: Result<String, AudioError>)
    ensures
        match audio_format_spec(lowered_extension(path@)) {
            Ok(f) => r matches Ok(s) && s@ == f,
            Err(m) => r matches Err(AudioError::UnsupportedFormat(x)) && x@ == m,
        },
{
    let ext = match path_extension(path) {
        Some(e) => to_lowercase(e.as_str()),
        None => return Err(AudioError::UnsupportedFormat(to_owned_string("no file extension"))),
    };
    let e = ext.as_str();
    if str_eq(e, "wav") || str_eq(e, "wave") {
        Ok(to_owned_string("wav"))
    } else if str_eq(e, "mp3") {
        Ok(to_owned_string("mp3"))
    } else if str_eq(e, "flac") {
        Ok(to_owned_string("flac"))
    } else if str_eq(e, "ogg") || str_eq(e, "oga") {
        Ok(to_owned_string("ogg"))
    } else {
        Err(AudioError::UnsupportedFormat(to_owned_string(e)))
    }
}

/// The decoder that reads a format.
#[derive(Debug, Clone, Copy, PartialEq, Eq, Structural)]
pub enum DecoderKind {
    /// The WAV reader.
    Wav,
    /// The general decoder, with the format as a hint.
    Symphonia,
}

/// How a file is read: an error for a missing file or an unsupported
/// format; the WAV reader for `wav`; the general decoder for `mp3`, `flac`
/// and `ogg`.
pub open spec fn route_spec(path: Seq<char>, exists: bool) -> Result<(DecoderKind, Seq<char>), AudioErrorView> {
    if !exists {
        Err(AudioErrorView::FileNotFound(path))
    } else {
        match audio_format_spec(lowered_extension(path)) {
            Err(m) => Err(AudioErrorView::UnsupportedFormat(m)),
            Ok(f) => if f == "wav"@ {
                Ok((DecoderKind::Wav, f))
            } else {
                Ok((DecoderKind::Symphonia, f))
            },
        }
    }
}

/// The abstract value of an [`AudioError`].
pub enum AudioErrorView {
    FileNotFound(Seq<char>),
    UnsupportedFormat(Seq<char>),
    PlaybackFailed(Seq<char>),
    DecodeError(Seq<char>),
}

/// The abstract value of an [`AudioError`].
pub open spec fn audio_error_view(e: AudioError) -> AudioErrorView {
    match e {
        AudioError::FileNotFound(s) => AudioErrorView::FileNotFound(s@),
        AudioError::UnsupportedFormat(s) => AudioErrorView::UnsupportedFormat(s@),
        AudioError::PlaybackFailed(s) => AudioErrorView::PlaybackFailed(s@),
        AudioError::DecodeError(s) => AudioErrorView::DecodeError(s@),
    }
}

/// Chooses how to read the file at `path`, given whether it exists (see
/// [`route_spec`]); the format is returned with the decoder.
pub fn decode_route(path: &str, exists: bool) -> (r: Result<(DecoderKind, String), AudioError>)
    ensures
        match route_spec(path@, exists) {
            Ok((k, f)) => r matches Ok((k2, f2)) && k2 == k && f2@ == f,
            Err(e) => r matches Err(x) && audio_error_view(x) == e,
        },
{
    if !exists {
        return Err(AudioError::FileNotFound(to_owned_string(path)));
    }
    let format = detect_format(path)?;
    if str_eq(format.as_str(), "wav") {
        Ok((DecoderKind::Wav, format))
    } else {
        Ok((DecoderKind::Symphonia, format))
    }
}

/// The error of opening a WAV file, from the reader's message: a missing
/// file where the message says so, a decode error otherwise.
pub fn wav_open_error(path: &str, message: &str) -> (r: AudioError)
    ensures
        if contains_seq(message@, "No such file"@) || contains_seq(message@, "not found"@) {
            audio_error_view(r) == AudioErrorView::FileNotFound(path@)
        } else {
            audio_error_view(r) == AudioErrorView::DecodeError("WAV read error: "@ + message@)
        },
{
    if str_contains(message, "No such file") || str_contains(message, "not found") {
        AudioError::FileNotFound(to_owned_string(path))
    } else {
        let mut m = to_owned_string("WAV read error: ");
        push_str(&mut m, message);
        AudioError::DecodeError(m)
    }
}

/// The error of opening a file for the general decoder: a missing file
/// where the system says it is not found, a decode error otherwise.
pub fn file_open_error(path: &str, not_found: bool, message: &str) -> (r: AudioError)
    ensures
        if not_found {
            audio_error_view(r) == AudioErrorView::FileNotFound(path@)
        } else {
            audio_error_view(r) == AudioErrorView::DecodeError("File open error: "@ + message@)
        },
{
    if not_found {
        AudioError::FileNotFound(to_owned_string(path))
    } else {
        let mut m = to_owned_string("File open error: ");
        push_str(&mut m, message);
        AudioError::DecodeError(m)
    }
}

/// The number of frames in `samples` interleaved samples of `channels`
/// channels (a partial frame does not count).
pub fn frame_count(samples: u64, channels: u16) -> (r: u64)
    requires
        channels > 0,
    ensures
        r == samples / (channels as u64),
{
    samples / (channels as u64)
}

} // verus!
