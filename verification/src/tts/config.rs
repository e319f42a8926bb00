//! Settings of speech generation.
use vstd::prelude::*;

use crate::text::to_owned_string;
use crate::types::F32Bits;

verus! {

/// Speech generation model.
#[derive(Debug, Clone, Copy, PartialEq, Eq, Structural)]
pub enum TtsModel {
    Tts1,
    Tts1Hd,
    Gpt4oMiniTts,
}

impl Default for TtsModel {
    fn default() -> (r: Self)
        ensures
            r == TtsModel::Gpt4oMiniTts,
    {
        TtsModel::Gpt4oMiniTts
    }
}

/// Voice of the generated speech.
#[derive(Debug, Clone, Copy, PartialEq, Eq, Structural)]
pub enum TtsVoice {
    Alloy,
    Ash,
    Ballad,
    Coral,
    Echo,
    Fable,
    Nova,
    Onyx,
    Sage,
    Shimmer,
    Verse,
}

impl Default for TtsVoice {
    fn default() -> (r: Self)
        ensures
            r == TtsVoice::Alloy,
    {
        TtsVoice::Alloy
    }
}

/// Audio format of the generated speech.
#[derive(Debug, Clone, Copy, PartialEq, Eq, Structural)]
pub enum TtsOutputFormat {
    Mp3,
    Opus,
    Aac,
    Flac,
    Wav,
    Pcm,
}

impl Default for TtsOutputFormat {
    fn default() -> (r: Self)
        ensures
            r == TtsOutputFormat::Wav,
    {
        TtsOutputFormat::Wav
    }
}

/// Settings of speech generation.
#[derive(Debug)]
pub struct TtsConfig {
    /// API key of the speech service.
    pub api_key: Option<String>,
    pub model: TtsModel,
    pub default_voice: TtsVoice,
    /// Speaking speed (an `f32`, 1.0 is normal).
    pub default_speed: F32Bits,
    /// Instructions on how to speak (used by models that take them).
    pub default_instructions: Option<String>,
    pub output_format: TtsOutputFormat,
    /// Base URL of an OpenAI-compatible or Azure OpenAI service; the
    /// standard OpenAI service without one.
    pub base_url: Option<String>,
}

impl Clone for TtsConfig {
    fn clone(&self) -> (r: Self)
        ensures
            r == *self,
    {
        TtsConfig {
            api_key: crate::types::clone_opt_string(&self.api_key),
            model: self.model,
            default_voice: self.default_voice,
            default_speed: self.default_speed,
            default_instructions: crate::types::clone_opt_string(&self.default_instructions),
            output_format: self.output_format,
            base_url: crate::types::clone_opt_string(&self.base_url),
        }
    }
}

/// The bits of the `f32` value `1.0`, the normal speaking speed.
pub const SPEED_NORMAL_BITS: u32 = 0x3f80_0000;

impl Default for TtsConfig {
    fn default() -> (r: Self)
        ensures
            r.api_key is None,
            r.model == TtsModel::Gpt4oMiniTts,
            r.default_voice == TtsVoice::Alloy,
            r.default_speed == F32Bits(SPEED_NORMAL_BITS),
            r.default_instructions is None,
            r.output_format == TtsOutputFormat::Wav,
            r.base_url is None,
    {
        TtsConfig {
            api_key: None,
            model: TtsModel::default(),
            default_voice: TtsVoice::default(),
            default_speed: F32Bits(SPEED_NORMAL_BITS),
            default_instructions: None,
            output_format: TtsOutputFormat::default(),
            base_url: None,
        }
    }
}

/// The name of a model as `Debug` renders it.
pub open spec fn model_debug_name(m: TtsModel) -> Seq<char> {
    match m {
        TtsModel::Tts1 => "Tts1"@,
        TtsModel::Tts1Hd => "Tts1Hd"@,
        TtsModel::Gpt4oMiniTts => "Gpt4oMiniTts"@,
    }
}

/// The name of a voice as `Debug` renders it.
pub open spec fn voice_debug_name(v: TtsVoice) -> Seq<char> {
    match v {
        TtsVoice::Alloy => "Alloy"@,
        TtsVoice::Ash => "Ash"@,
        TtsVoice::Ballad => "Ballad"@,
        TtsVoice::Coral => "Coral"@,
        TtsVoice::Echo => "Echo"@,
        TtsVoice::Fable => "Fable"@,
        TtsVoice::Nova => "Nova"@,
        TtsVoice::Onyx => "Onyx"@,
        TtsVoice::Sage => "Sage"@,
        TtsVoice::Shimmer => "Shimmer"@,
        TtsVoice::Verse => "Verse"@,
    }
}

impl TtsModel {
    /// The name of the model as `Debug` renders it.
    pub fn debug_name(&self) -> (r: String)
        ensures
            r@ == model_debug_name(*self),
    {
        match self {
            TtsModel::Tts1 => to_owned_string("Tts1"),
            TtsModel::Tts1Hd => to_owned_string("Tts1Hd"),
            TtsModel::Gpt4oMiniTts => to_owned_string("Gpt4oMiniTts"),
        }
    }
}

impl TtsVoice {
    /// The name of the voice as `Debug` renders it.
    pub fn debug_name(&self) -> (r: String)
        ensures
            r@ == voice_debug_name(*self),
    {
        match self {
            TtsVoice::Alloy => to_owned_string("Alloy"),
            TtsVoice::Ash => to_owned_string("Ash"),
            TtsVoice::Ballad => to_owned_string("Ballad"),
            TtsVoice::Coral => to_owned_string("Coral"),
            TtsVoice::Echo => to_owned_string("Echo"),
            TtsVoice::Fable => to_owned_string("Fable"),
            TtsVoice::Nova => to_owned_string("Nova"),
            TtsVoice::Onyx => to_owned_string("Onyx"),
            TtsVoice::Sage => to_owned_string("Sage"),
            TtsVoice::Shimmer => to_owned_string("Shimmer"),
            TtsVoice::Verse => to_owned_string("Verse"),
        }
    }
}

} // verus!
