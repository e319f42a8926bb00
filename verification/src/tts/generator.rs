//! Speech generation requests.
//!
//! From the settings and the text this module decides which service is
//! asked and with what: an Azure OpenAI deployment (recognised by its host)
//! gets a direct HTTP request at its speech URL; any other service goes
//! through the OpenAI client, at the configured base URL or the standard
//! one. Sending the request is left to the caller.
use url::Url;
use vstd::prelude::*;

use super::config::{TtsConfig, TtsModel, TtsOutputFormat, TtsVoice};
use crate::text::{chars_of, push_str, str_contains, string_from_chars, str_eq, to_owned_string};
use crate::types::{clone_opt_string, F32Bits};

verus! {

/// Errors of speech generation.
#[derive(Debug)]
pub enum TtsGeneratorError {
    MissingApiKey,
    GenerationError(String),
}

/// The message of a [`TtsGeneratorError`].
pub open spec fn generator_error_message(e: TtsGeneratorError) -> Seq<char> {
    match e {
        TtsGeneratorError::MissingApiKey => "API key is not configured"@,
        TtsGeneratorError::GenerationError(m) => "TTS generation failed: "@ + m@,
    }
}

impl TtsGeneratorError {
    /// The message of the error, as it is displayed.
    pub fn message(&self) -> (r: String)
        ensures
            r@ == generator_error_message(*self),
    {
        match self {
            TtsGeneratorError::MissingApiKey => to_owned_string("API key is not configured"),
            TtsGeneratorError::GenerationError(m) => {
                let mut r = to_owned_string("TTS generation failed: ");
                push_str(&mut r, m.as_str());
                r
            },
        }
    }
}

// ---------------------------------------------------------------------
// Wire names
// ---------------------------------------------------------------------

/// The identifier of a model in requests.
pub open spec fn model_id(m: TtsModel) -> Seq<char> {
    match m {
        TtsModel::Tts1 => "tts-1"@,
        TtsModel::Tts1Hd => "tts-1-hd"@,
        TtsModel::Gpt4oMiniTts => "gpt-4o-mini-tts"@,
    }
}

/// The identifier of a voice in requests.
pub open spec fn voice_id(v: TtsVoice) -> Seq<char> {
    match v {
        TtsVoice::Alloy => "alloy"@,
        TtsVoice::Ash => "ash"@,
        TtsVoice::Ballad => "ballad"@,
        TtsVoice::Coral => "coral"@,
        TtsVoice::Echo => "echo"@,
        TtsVoice::Fable => "fable"@,
        TtsVoice::Nova => "nova"@,
        TtsVoice::Onyx => "onyx"@,
        TtsVoice::Sage => "sage"@,
        TtsVoice::Shimmer => "shimmer"@,
        TtsVoice::Verse => "verse"@,
    }
}

/// The identifier of an audio format in requests.
pub open spec fn format_id(f: TtsOutputFormat) -> Seq<char> {
    match f {
        TtsOutputFormat::Mp3 => "mp3"@,
        TtsOutputFormat::Opus => "opus"@,
        TtsOutputFormat::Aac => "aac"@,
        TtsOutputFormat::Flac => "flac"@,
        TtsOutputFormat::Wav => "wav"@,
        TtsOutputFormat::Pcm => "pcm"@,
    }
}

/// The identifier of a model in requests.
pub fn model_id_str(m: TtsModel) -> (r: &'static str)
    ensures
        r@ == model_id(m),
{
    match m {
        TtsModel::Tts1 => "tts-1",
        TtsModel::Tts1Hd => "tts-1-hd",
        TtsModel::Gpt4oMiniTts => "gpt-4o-mini-tts",
    }
}

/// The identifier of a voice in requests.
pub fn voice_id_str(v: TtsVoice) -> (r: &'static str)
    ensures
        r@ == voice_id(v),
{
    match v {
        TtsVoice::Alloy => "alloy",
        TtsVoice::Ash => "ash",
        TtsVoice::Ballad => "ballad",
        TtsVoice::Coral => "coral",
        TtsVoice::Echo => "echo",
        TtsVoice::Fable => "fable",
        TtsVoice::Nova => "nova",
        TtsVoice::Onyx => "onyx",
        TtsVoice::Sage => "sage",
        TtsVoice::Shimmer => "shimmer",
        TtsVoice::Verse => "verse",
    }
}

/// The identifier of an audio format in requests.
pub fn format_id_str(f: TtsOutputFormat) -> (r: &'static str)
    ensures
        r@ == format_id(f),
{
    match f {
        TtsOutputFormat::Mp3 => "mp3",
        TtsOutputFormat::Opus => "opus",
        TtsOutputFormat::Aac => "aac",
        TtsOutputFormat::Flac => "flac",
        TtsOutputFormat::Wav => "wav",
        TtsOutputFormat::Pcm => "pcm",
    }
}

// ---------------------------------------------------------------------
// The Azure speech URL
// ---------------------------------------------------------------------

/// What `Url::parse` makes of a text: the serialization of the URL
/// (`Url::as_str`), or the message of its error (the `Display` of
/// `url::ParseError`).
pub uninterp spec fn spec_url_parse(s: Seq<char>) -> Result<Seq<char>, Seq<char>>;

/// The outcome of a parse that gives the URL serialized as `t`.
pub open spec fn url_parsed(t: Seq<char>) -> Result<Seq<char>, Seq<char>> {
    Ok(t)
}

/// The outcome of a parse that fails with the message `m`.
pub open spec fn url_refused(m: Seq<char>) -> Result<Seq<char>, Seq<char>> {
    Err(m)
}

/// `t` is the serialization of a URL: it parses back to itself.
pub open spec fn is_url_text(t: Seq<char>) -> bool {
    spec_url_parse(t) == url_parsed(t)
}

/// The path of the URL serialized as `url` (`Url::path`).
pub uninterp spec fn spec_url_path(url: Seq<char>) -> Seq<char>;

/// The serialization of the URL serialized as `url` once `Url::set_path`
/// has set its path to `path`.
pub uninterp spec fn spec_url_with_path(url: Seq<char>, path: Seq<char>) -> Seq<char>;

/// The names of the query parameters, in order (the first components of
/// `Url::query_pairs`), of the URL serialized as `url` once `Url::set_path`
/// has set its path to `path`.
pub uninterp spec fn spec_url_query_names(url: Seq<char>, path: Seq<char>) -> Seq<Seq<char>>;

/// The serialization of the URL serialized as `url` once `Url::set_path`
/// has set its path to `path` and the pair `name=value` has then been
/// appended to its query (`append_pair` on `Url::query_pairs_mut`).
pub uninterp spec fn spec_url_with_pair(
    url: Seq<char>,
    path: Seq<char>,
    name: Seq<char>,
    value: Seq<char>,
) -> Seq<char>;

/// Parses an absolute URL and gives its serialization.
///
/// Trusted: calls `Url::parse`; the outcome is named by
/// [`spec_url_parse`]. The URL is kept as its serialization, which the
/// `Display` of `Url` writes out; the crate's own invariant check
/// (`Url::check_invariants`) asserts that a URL's serialization parses
/// back to the same URL.
#[verifier::external_body]
fn url_parse(s: &str) -> (r: Result<String, String>)
    ensures
        match r {
            Ok(t) => spec_url_parse(s@) == url_parsed(t@) && is_url_text(t@),
            Err(e) => spec_url_parse(s@) == url_refused(e@),
        },
{
    Url::parse(s).map(|u| u.to_string()).map_err(|e| e.to_string())
}

/// The path of a URL given by its serialization.
///
/// Trusted: turns the serialization back into the `Url` (which succeeds,
/// see [`url_parse`]) and calls `Url::path`; the result is named by
/// [`spec_url_path`].
#[verifier::external_body]
fn url_path(url: &str) -> (r: String)
    requires
        is_url_text(url@),
    ensures
        r@ == spec_url_path(url@),
{
    match Url::parse(url) {
        Ok(u) => u.path().to_string(),
        Err(_) => String::new(),
    }
}

/// A URL, given by its serialization, with its path replaced.
///
/// Trusted: turns the serialization back into the `Url` (which succeeds,
/// see [`url_parse`]), calls `Url::set_path` and gives the new
/// serialization, named by [`spec_url_with_path`]. Nothing is stated of
/// parsing that text again: where the new path begins with `//` behind no
/// host, the serialization keeps a `/.` guard that a new parse would drop.
#[verifier::external_body]
fn url_set_path(url: &str, path: &str) -> (r: String)
    requires
        is_url_text(url@),
    ensures
        r@ == spec_url_with_path(url@, path@),
{
    match Url::parse(url) {
        Ok(mut u) => {
            u.set_path(path);
            u.to_string()
        },
        Err(_) => String::new(),
    }
}

/// The names of the query parameters, in order, of a URL given by its
/// serialization once its path is replaced.
///
/// Trusted: turns the serialization back into the `Url`, calls
/// `Url::set_path` and keeps the name of each pair of `Url::query_pairs`
/// of that same `Url` value; the result is named by
/// [`spec_url_query_names`].
#[verifier::external_body]
fn url_query_names(url: &str, path: &str) -> (r: Vec<String>)
    requires
        is_url_text(url@),
    ensures
        crate::device::linux::strings_view(r@) == spec_url_query_names(url@, path@),
{
    match Url::parse(url) {
        Ok(mut u) => {
            u.set_path(path);
            u.query_pairs().map(|(name, _)| name.into_owned()).collect()
        },
        Err(_) => Vec::new(),
    }
}

/// A URL, given by its serialization, with its path replaced and then a
/// query parameter appended.
///
/// Trusted: turns the serialization back into the `Url`, calls
/// `Url::set_path`, then `append_pair` on `Url::query_pairs_mut` of that
/// same `Url` value, and gives the new serialization, named by
/// [`spec_url_with_pair`].
#[verifier::external_body]
fn url_append_pair(url: &str, path: &str, name: &str, value: &str) -> (r: String)
    requires
        is_url_text(url@),
    ensures
        r@ == spec_url_with_pair(url@, path@, name@, value@),
{
    match Url::parse(url) {
        Ok(mut u) => {
            u.set_path(path);
            u.query_pairs_mut().append_pair(name, value);
            u.to_string()
        },
        Err(_) => String::new(),
    }
}

/// `s` without every copy of `suffix` repeated at its end (the meaning of
/// `str::trim_end_matches` for a non-empty pattern).
pub open spec fn trim_end_all(s: Seq<char>, suffix: Seq<char>) -> Seq<char>
    decreases s.len(),
{
    if suffix.len() > 0 && suffix.len() <= s.len() && s.subrange(s.len() - suffix.len(), s.len() as int)
        == suffix {
        trim_end_all(s.subrange(0, s.len() - suffix.len()), suffix)
    } else {
        s
    }
}

/// The deployment path without its trailing slashes, then without its
/// trailing `/audio/speech`, then without its trailing `/audio`.
pub open spec fn speech_base(path: Seq<char>) -> Seq<char> {
    trim_end_all(trim_end_all(trim_end_all(path, "/"@), "/audio/speech"@), "/audio"@)
}

/// The path of the speech endpoint under a deployment path: trailing
/// slashes, then trailing `/audio/speech`, then trailing `/audio` are
/// removed, and `/audio/speech` is appended.
pub open spec fn azure_speech_path(path: Seq<char>) -> Seq<char> {
    speech_base(path) + "/audio/speech"@
}

/// Whether `s` ends with `suffix`.
pub open spec fn ends_with_seq(s: Seq<char>, suffix: Seq<char>) -> bool {
    suffix.len() <= s.len() && s.subrange(s.len() - suffix.len(), s.len() as int) == suffix
}

/// What is left once every trailing copy of a suffix is removed no longer
/// ends with it.
proof fn lemma_trimmed_end(s: Seq<char>, suffix: Seq<char>)
    requires
        suffix.len() > 0,
    ensures
        !ends_with_seq(trim_end_all(s, suffix), suffix),
    decreases s.len(),
{
    if suffix.len() <= s.len() && s.subrange(s.len() - suffix.len(), s.len() as int) == suffix {
        lemma_trimmed_end(s.subrange(0, s.len() - suffix.len()), suffix);
    }
}

/// Removing trailing copies of `suffix` from `t + suffix` is removing them
/// from `t`.
proof fn lemma_trim_appended(t: Seq<char>, suffix: Seq<char>)
    requires
        suffix.len() > 0,
    ensures
        trim_end_all(t + suffix, suffix) == trim_end_all(t, suffix),
{
    let s = t + suffix;
    assert(s.subrange(s.len() - suffix.len(), s.len() as int) =~= suffix);
    assert(s.subrange(0, s.len() - suffix.len()) =~= t);
}

/// Building the speech path twice gives what building it once gave,
/// wherever the deployment path, stripped, does not itself end with
/// `/audio/speech` (as `/audio/speech/audio` does).
pub proof fn law_speech_path_idempotent(path: Seq<char>)
    requires
        !ends_with_seq(speech_base(path), "/audio/speech"@),
    ensures
        azure_speech_path(azure_speech_path(path)) == azure_speech_path(path),
{
    reveal_strlit("/");
    reveal_strlit("/audio/speech");
    reveal_strlit("/audio");
    let t = speech_base(path);
    let q = azure_speech_path(path);
    assert(q.last() == 'h');
    assert(q.subrange(q.len() - 1, q.len() as int)[0] == 'h');
    assert(trim_end_all(q, "/"@) == q);
    lemma_trim_appended(t, "/audio/speech"@);
    assert(trim_end_all(t, "/audio/speech"@) == t);
    lemma_trimmed_end(trim_end_all(trim_end_all(path, "/"@), "/audio/speech"@), "/audio"@);
    assert(trim_end_all(t, "/audio"@) == t);
}

fn ends_with(s: &[char], n: usize, suffix: &[char]) -> (r: bool)
    requires
        n <= s@.len(),
    ensures
        r == (suffix@.len() <= n && s@.subrange(n - suffix@.len(), n as int) == suffix@),
{
    if suffix.len() > n {
        return false;
    }
    let start = n - suffix.len();
    let mut k: usize = 0;
    while k < suffix.len()
        invariant
            suffix@.len() <= n <= s@.len(),
            start == n - suffix@.len(),
            k <= suffix@.len(),
            forall|j: int| 0 <= j < k ==> s@[start + j] == suffix@[j],
        decreases suffix@.len() - k,
    {
        if s[start + k] != suffix[k] {
            assert(s@.subrange(start as int, n as int)[k as int] != suffix@[k as int]);
            return false;
        }
        k = k + 1;
    }
    assert(s@.subrange(start as int, n as int) =~= suffix@);
    true
}

/// The length of `s[..n]` once every trailing copy of `suffix` is removed.
fn trim_end_len(s: &[char], n: usize, suffix: &[char]) -> (r: usize)
    requires
        n <= s@.len(),
        suffix@.len() > 0,
    ensures
        r <= n,
        s@.subrange(0, r as int) == trim_end_all(s@.subrange(0, n as int), suffix@),
{
    let mut m: usize = n;
    while ends_with(s, m, suffix)
        invariant
            m <= n <= s@.len(),
            suffix@.len() > 0,
            trim_end_all(s@.subrange(0, m as int), suffix@) == trim_end_all(
                s@.subrange(0, n as int),
                suffix@,
            ),
        decreases m,
    {
        let ghost before = s@.subrange(0, m as int);
        assert(before.subrange(before.len() - suffix@.len(), before.len() as int) =~= s@.subrange(
            m - suffix@.len(),
            m as int,
        ));
        assert(before.subrange(0, before.len() - suffix@.len()) =~= s@.subrange(0, m - suffix@.len()));
        m = m - suffix.len();
    }
    let ghost fin = s@.subrange(0, m as int);
    assert(fin.len() >= suffix@.len() ==> fin.subrange(fin.len() - suffix@.len(), fin.len() as int)
        =~= s@.subrange(m - suffix@.len(), m as int));
    m
}

/// The path of the speech endpoint under a deployment path (see
/// [`azure_speech_path`]).
pub fn azure_speech_path_of(path: &str) -> (r: String)
    ensures
        r@ == azure_speech_path(path@),
{
    let v = chars_of(path);
    let slash = chars_of("/");
    let speech = chars_of("/audio/speech");
    let audio = chars_of("/audio");
    proof {
        reveal_strlit("/");
        reveal_strlit("/audio/speech");
        reveal_strlit("/audio");
    }
    assert(v@.subrange(0, v@.len() as int) =~= v@);
    let a = trim_end_len(v.as_slice(), v.len(), slash.as_slice());
    let b = trim_end_len(v.as_slice(), a, speech.as_slice());
    let c = trim_end_len(v.as_slice(), b, audio.as_slice());
    let mut out: Vec<char> = Vec::new();
    let mut k: usize = 0;
    while k < c
        invariant
            c <= v@.len(),
            k <= c,
            out@ == v@.subrange(0, k as int),
        decreases c - k,
    {
        out.push(v[k]);
        k = k + 1;
        assert(out@ =~= v@.subrange(0, k as int));
    }
    let mut r = string_from_chars(out.as_slice());
    push_str(&mut r, "/audio/speech");
    r
}

/// Whether `names` holds `name`.
pub fn names_contain(names: &[String], name: &str) -> (r: bool)
    ensures
        r == exists|i: int| 0 <= i < names@.len() && names@[i]@ == name@,
{
    let mut i: usize = 0;
    while i < names.len()
        invariant
            i <= names@.len(),
            forall|j: int| 0 <= j < i ==> names@[j]@ != name@,
        decreases names@.len() - i,
    {
        if str_eq(names[i].as_str(), name) {
            return true;
        }
        i = i + 1;
    }
    false
}

/// The default `api-version` of Azure speech requests.
pub const DEFAULT_AZURE_API_VERSION: &'static str = "2024-12-01-preview";

/// The speech URL of an Azure deployment whose base URL is serialized as
/// `u`: its path replaced by the speech path under it
/// ([`azure_speech_path`]), and an `api-version` query parameter added
/// where it has none.
pub open spec fn azure_url(u: Seq<char>) -> Seq<char> {
    let p = azure_speech_path(spec_url_path(u));
    if spec_url_query_names(u, p).contains("api-version"@) {
        spec_url_with_path(u, p)
    } else {
        spec_url_with_pair(u, p, "api-version"@, DEFAULT_AZURE_API_VERSION@)
    }
}

/// The speech URL of an Azure OpenAI deployment (see [`azure_url`]).
/// Fails exactly when the base URL does not parse.
pub fn build_azure_tts_url(base_url: &str) -> (r: Result<String, TtsGeneratorError>)
    ensures
        match spec_url_parse(base_url@) {
            Err(m) => r matches Err(TtsGeneratorError::GenerationError(e)) && e@ == "Invalid base URL: "@
                + m,
            Ok(u) => r matches Ok(s) && s@ == azure_url(u),
        },
{
    let parsed = match url_parse(base_url) {
        Ok(u) => u,
        Err(e) => {
            let mut m = to_owned_string("Invalid base URL: ");
            push_str(&mut m, e.as_str());
            return Err(TtsGeneratorError::GenerationError(m));
        },
    };
    let path = url_path(parsed.as_str());
    let final_path = azure_speech_path_of(path.as_str());
    let names = url_query_names(parsed.as_str(), final_path.as_str());
    proof {
        reveal_strlit("api-version");
    }
    let has_version = names_contain(names.as_slice(), "api-version");
    assert(has_version == spec_url_query_names(parsed@, final_path@).contains("api-version"@)) by {
        let sv = crate::device::linux::strings_view(names@);
        if has_version {
            let i = choose|i: int| 0 <= i < names@.len() && names@[i]@ == "api-version"@;
            assert(sv[i] == "api-version"@);
        }
        if sv.contains("api-version"@) {
            let i = choose|i: int| 0 <= i < sv.len() && sv[i] == "api-version"@;
            assert(names@[i]@ == "api-version"@);
        }
    }
    if has_version {
        Ok(url_set_path(parsed.as_str(), final_path.as_str()))
    } else {
        Ok(url_append_pair(parsed.as_str(), final_path.as_str(), "api-version", DEFAULT_AZURE_API_VERSION))
    }
}

// ---------------------------------------------------------------------
// The request
// ---------------------------------------------------------------------

/// JSON body of an Azure speech request.
#[derive(Debug)]
pub struct AzureTtsRequest {
    pub model: String,
    pub input: String,
    pub voice: String,
    pub response_format: String,
    pub speed: Option<F32Bits>,
    pub instructions: Option<String>,
}

/// A request through the OpenAI client.
#[derive(Debug)]
pub struct OpenAiTtsRequest {
    pub api_key: String,
    /// The OpenAI-compatible service to ask; the standard one without it.
    pub base_url: Option<String>,
    pub input: String,
    pub model: TtsModel,
    pub voice: TtsVoice,
    pub format: TtsOutputFormat,
    pub speed: Option<F32Bits>,
    pub instructions: Option<String>,
}

/// How speech is to be generated.
#[derive(Debug)]
pub enum TtsRequest {
    /// An HTTP POST of `body` as JSON to `url`, with the key in the
    /// `api-key` header.
    Azure { url: String, api_key: String, body: AzureTtsRequest },
    /// A call of the OpenAI client.
    OpenAi(OpenAiTtsRequest),
}

/// Whether a base URL names an Azure OpenAI service.
pub open spec fn is_azure_base_url(u: Seq<char>) -> bool {
    crate::text::contains_seq(u, ".openai.azure.com"@)
}

/// Instructions are sent to Azure only with the model that takes them.
pub open spec fn azure_instructions(c: TtsConfig) -> Option<String> {
    if c.model == TtsModel::Gpt4oMiniTts {
        c.default_instructions
    } else {
        None
    }
}

/// The request that generates speech for `text` with the settings
/// `config`: refused without an API key; to Azure where the base URL names
/// an Azure service (and refused where that URL does not parse); through
/// the OpenAI client otherwise.
pub fn plan_tts_request(text: &str, config: &TtsConfig) -> (r: Result<TtsRequest, TtsGeneratorError>)
    ensures
        config.api_key is None ==> r matches Err(TtsGeneratorError::MissingApiKey),
        config.api_key matches Some(key) ==> match config.base_url {
            Some(b) if is_azure_base_url(b@) => match spec_url_parse(b@) {
                Err(m) => r matches Err(TtsGeneratorError::GenerationError(e)) && e@ == "Invalid base URL: "@
                    + m,
                Ok(u) => r matches Ok(TtsRequest::Azure { url, api_key, body }) && {
                    &&& url@ == azure_url(u)
                    &&& api_key == key
                    &&& body.model@ == model_id(config.model)
                    &&& body.input@ == text@
                    &&& body.voice@ == voice_id(config.default_voice)
                    &&& body.response_format@ == format_id(config.output_format)
                    &&& body.speed == Some(config.default_speed)
                    &&& body.instructions == azure_instructions(*config)
                },
            },
            _ => r matches Ok(TtsRequest::OpenAi(q)) && {
                &&& q.api_key == key
                &&& q.base_url == config.base_url
                &&& q.input@ == text@
                &&& q.model == config.model
                &&& q.voice == config.default_voice
                &&& q.format == config.output_format
                &&& q.speed == Some(config.default_speed)
                &&& q.instructions == config.default_instructions
            },
        },
{
    let api_key = match &config.api_key {
        Some(k) => k.clone(),
        None => return Err(TtsGeneratorError::MissingApiKey),
    };
    match &config.base_url {
        Some(b) => {
            if str_contains(b.as_str(), ".openai.azure.com") {
                let url = match build_azure_tts_url(b.as_str()) {
                    Ok(u) => u,
                    Err(e) => return Err(e),
                };
                let instructions = if config.model == TtsModel::Gpt4oMiniTts {
                    clone_opt_string(&config.default_instructions)
                } else {
                    None
                };
                let body = AzureTtsRequest {
                    model: to_owned_string(model_id_str(config.model)),
                    input: to_owned_string(text),
                    voice: to_owned_string(voice_id_str(config.default_voice)),
                    response_format: to_owned_string(format_id_str(config.output_format)),
                    speed: Some(config.default_speed),
                    instructions,
                };
                return Ok(TtsRequest::Azure { url, api_key, body });
            }
        },
        None => {},
    }
    Ok(
        TtsRequest::OpenAi(
            OpenAiTtsRequest {
                api_key,
                base_url: clone_opt_string(&config.base_url),
                input: to_owned_string(text),
                model: config.model,
                voice: config.default_voice,
                format: config.output_format,
                speed: Some(config.default_speed),
                instructions: clone_opt_string(&config.default_instructions),
            },
        ),
    )
}

} // verus!
