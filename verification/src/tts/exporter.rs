//! Export of a TTS test session as a ZIP archive:
//!
//! ```text
//! metadata.json           session, settings and one record per result
//! tts/001_input.wav       generated speech of result 1 (when there is some)
//! responses/001_response.wav  recorded answer of result 1 (when there is one)
//! ...
//! ```
//!
//! The metadata records are built here; their JSON text is made by the
//! caller and handed back as bytes. The archive is built in memory.
use std::io::{Cursor, Write};
use vstd::prelude::*;
use zip::write::SimpleFileOptions;
use zip::{CompressionMethod, ZipWriter};

use super::config::{model_debug_name, voice_debug_name};
use super::types::{opt_chars, results_view, TtsTestResult, TtsTestResultView, TtsTestSession};
use crate::device::linux::digits_value;
use crate::text::{decimal, digit_char, push_str, to_owned_string, zero_padded, zero_padded_string};
use crate::types::{clone_opt_string, F32Bits, F64Bits};

verus! {

// ---------------------------------------------------------------------
// Records
// ---------------------------------------------------------------------

/// Test case result for export.
#[derive(Debug)]
pub struct TestCaseExport {
    pub id: String,
    pub input_text: String,
    pub tts_audio_file: Option<String>,
    pub response_audio_file: Option<String>,
    pub tts_duration_sec: F64Bits,
    pub response_duration_sec: Option<F64Bits>,
    pub timestamp: String,
    pub error: Option<String>,
}

/// TTS configuration for export.
#[derive(Debug)]
pub struct TtsConfigExport {
    pub model: String,
    pub voice: String,
    pub speed: F32Bits,
    pub instructions: Option<String>,
}

/// Recording configuration for export.
#[derive(Debug)]
pub struct RecordingConfigExport {
    pub device: Option<String>,
    pub sample_rate: u32,
    pub silence_threshold_db: F32Bits,
    pub silence_duration_ms: u64,
}

/// Export metadata structure for the ZIP archive.
#[derive(Debug)]
pub struct ExportMetadata {
    pub session_id: String,
    pub csv_source: String,
    pub created_at: String,
    pub tts_config: TtsConfigExport,
    pub recording_config: RecordingConfigExport,
    pub test_cases: Vec<TestCaseExport>,
}

/// The number of result `k` (from 0) in three digits.
pub open spec fn export_id(k: int) -> Seq<char> {
    zero_padded((k + 1) as nat, 3)
}

/// Name in the archive of the speech of result `k`.
pub open spec fn tts_entry_name(k: int) -> Seq<char> {
    "tts/"@ + export_id(k) + "_input.wav"@
}

/// Name in the archive of the recorded answer of result `k`.
pub open spec fn response_entry_name(k: int) -> Seq<char> {
    "responses/"@ + export_id(k) + "_response.wav"@
}

/// The export record of result `k` is built from that result.
pub open spec fn is_case_export(e: TestCaseExport, r: TtsTestResultView, k: int) -> bool {
    &&& e.id@ == export_id(k)
    &&& e.input_text@ == r.input_text
    &&& opt_chars(e.tts_audio_file) == (if r.tts_audio.len() > 0 {
        Some(tts_entry_name(k))
    } else {
        None
    })
    &&& opt_chars(e.response_audio_file) == (if r.response_audio is Some {
        Some(response_entry_name(k))
    } else {
        None
    })
    &&& e.tts_duration_sec == r.tts_duration_sec
    &&& e.response_duration_sec == r.response_duration_sec
    &&& e.timestamp@ == r.started_at
    &&& opt_chars(e.error) == r.error
}

// ---------------------------------------------------------------------
// Entry names are distinct
// ---------------------------------------------------------------------

/// A string of `m` zeros.
pub open spec fn zeros(m: nat) -> Seq<char> {
    Seq::new(m, |i: int| '0')
}

proof fn lemma_zeros_value(m: nat)
    ensures
        digits_value(zeros(m)) == 0,
    decreases m,
{
    if m > 0 {
        lemma_zeros_value((m - 1) as nat);
        assert(zeros(m).drop_last() =~= zeros((m - 1) as nat));
    }
}

proof fn lemma_leading_zeros_value(m: nat, d: Seq<char>)
    ensures
        digits_value(zeros(m) + d) == digits_value(d),
    decreases d.len(),
{
    if d.len() == 0 {
        assert(zeros(m) + d =~= zeros(m));
        lemma_zeros_value(m);
    } else {
        lemma_leading_zeros_value(m, d.drop_last());
        assert((zeros(m) + d).drop_last() =~= zeros(m) + d.drop_last());
        assert((zeros(m) + d).last() == d.last());
    }
}

proof fn lemma_digit_value(d: nat)
    requires
        d < 10,
    ensures
        digit_char(d) as int - '0' as int == d,
{
    assert(d == 0 || d == 1 || d == 2 || d == 3 || d == 4 || d == 5 || d == 6 || d == 7 || d == 8 || d == 9);
}

proof fn lemma_decimal_value(n: nat)
    ensures
        digits_value(decimal(n)) == n,
    decreases n,
{
    let d = decimal(n);
    if n < 10 {
        lemma_digit_value(n);
        assert(d.drop_last() =~= Seq::<char>::empty());
        assert(d.last() == digit_char(n));
        assert(digits_value(d) == digits_value(d.drop_last()) * 10 + (d.last() as int - '0' as int));
    } else {
        lemma_decimal_value(n / 10);
        lemma_digit_value(n % 10);
        assert(d.drop_last() =~= decimal(n / 10));
        assert(d.last() == digit_char(n % 10));
        assert(digits_value(d) == digits_value(d.drop_last()) * 10 + (d.last() as int - '0' as int));
        assert((n / 10) * 10 + n % 10 == n);
    }
}

/// The number a padded rendering shows.
proof fn lemma_zero_padded_value(n: nat, w: nat)
    ensures
        digits_value(zero_padded(n, w)) == n,
{
    lemma_decimal_value(n);
    if decimal(n).len() < w {
        let m = (w - decimal(n).len()) as nat;
        lemma_leading_zeros_value(m, decimal(n));
        assert(Seq::new(m, |i: int| '0') == zeros(m));
    }
}

/// `a + x + b == a + y + b` gives `x == y`.
proof fn lemma_middle_equal(a: Seq<char>, x: Seq<char>, y: Seq<char>, b: Seq<char>)
    requires
        a + x + b == a + y + b,
    ensures
        x == y,
{
    let s = a + x + b;
    assert(s.len() == a.len() + x.len() + b.len());
    assert((a + y + b).len() == a.len() + y.len() + b.len());
    assert(x.len() == y.len());
    assert(x =~= s.subrange(a.len() as int, (a.len() + x.len()) as int));
    assert(y =~= (a + y + b).subrange(a.len() as int, (a.len() + y.len()) as int));
}

/// Archive entry names tell their results and kinds apart.
proof fn lemma_entry_names_distinct(j: int, k: int)
    requires
        0 <= j,
        0 <= k,
    ensures
        tts_entry_name(j) == tts_entry_name(k) ==> j == k,
        response_entry_name(j) == response_entry_name(k) ==> j == k,
        tts_entry_name(j) != response_entry_name(k),
        tts_entry_name(j) != "metadata.json"@,
        response_entry_name(j) != "metadata.json"@,
{
    reveal_strlit("tts/");
    reveal_strlit("responses/");
    reveal_strlit("metadata.json");
    assert(tts_entry_name(j)[0] == 't');
    assert(response_entry_name(k)[0] == 'r');
    assert(response_entry_name(j)[0] == 'r');
    assert("metadata.json"@[0] == 'm');
    if tts_entry_name(j) == tts_entry_name(k) {
        lemma_middle_equal("tts/"@, export_id(j), export_id(k), "_input.wav"@);
        lemma_zero_padded_value((j + 1) as nat, 3);
        lemma_zero_padded_value((k + 1) as nat, 3);
    }
    if response_entry_name(j) == response_entry_name(k) {
        lemma_middle_equal("responses/"@, export_id(j), export_id(k), "_response.wav"@);
        lemma_zero_padded_value((j + 1) as nat, 3);
        lemma_zero_padded_value((k + 1) as nat, 3);
    }
}

/// Ten to the power `m`.
pub open spec fn pow10(m: nat) -> nat
    decreases m,
{
    if m == 0 {
        1
    } else {
        10 * pow10((m - 1) as nat)
    }
}

/// A number below `10^m` has at most `m` digits.
proof fn lemma_decimal_short(n: nat, m: nat)
    requires
        1 <= m,
        n < pow10(m),
    ensures
        decimal(n).len() <= m,
    decreases m,
{
    if n >= 10 {
        reveal_with_fuel(pow10, 2);
        assert(m >= 2);
        assert(n / 10 < pow10((m - 1) as nat));
        lemma_decimal_short(n / 10, (m - 1) as nat);
    }
}

/// The three-digit rendering of a `u64` number has at most 20 characters.
proof fn lemma_export_id_short(n: u64)
    ensures
        zero_padded(n as nat, 3).len() <= 20,
{
    reveal_with_fuel(pow10, 21);
    assert(pow10(20) == 100000000000000000000nat);
    lemma_decimal_short(n as nat, 20);
}

fn entry_name(prefix: &str, k: usize, suffix: &str) -> (r: String)
    requires
        k < u64::MAX,
    ensures
        r@ == prefix@ + zero_padded((k + 1) as nat, 3) + suffix@,
        zero_padded((k + 1) as nat, 3).len() <= 20,
{
    proof {
        lemma_export_id_short((k + 1) as u64);
    }
    let mut r = to_owned_string(prefix);
    let id = zero_padded_string(k as u64 + 1, 3);
    push_str(&mut r, id.as_str());
    push_str(&mut r, suffix);
    r
}

/// The export record of result `k` (from 0).
pub fn case_export(r: &TtsTestResult, k: usize) -> (e: TestCaseExport)
    requires
        k < u64::MAX,
    ensures
        is_case_export(e, r@, k as int),
{
    let tts_audio_file = if r.tts_audio.len() > 0 {
        Some(entry_name("tts/", k, "_input.wav"))
    } else {
        None
    };
    let response_audio_file = match &r.response_audio {
        Some(_) => Some(entry_name("responses/", k, "_response.wav")),
        None => None,
    };
    TestCaseExport {
        id: zero_padded_string(k as u64 + 1, 3),
        input_text: r.input_text.clone(),
        tts_audio_file,
        response_audio_file,
        tts_duration_sec: r.tts_duration_sec,
        response_duration_sec: r.response_duration_sec,
        timestamp: r.started_at.clone(),
        error: clone_opt_string(&r.error),
    }
}

/// The export records of a session's results, in order.
pub fn case_exports(results: &[TtsTestResult]) -> (r: Vec<TestCaseExport>)
    ensures
        r@.len() == results@.len(),
        forall|k: int| 0 <= k < r@.len() ==> is_case_export(#[trigger] r@[k], results@[k]@, k),
{
    let mut r: Vec<TestCaseExport> = Vec::new();
    let mut k: usize = 0;
    while k < results.len()
        invariant
            k <= results@.len(),
            r@.len() == k,
            forall|j: int| 0 <= j < k ==> is_case_export(#[trigger] r@[j], results@[j]@, j),
        decreases results@.len() - k,
    {
        r.push(case_export(&results[k], k));
        k = k + 1;
    }
    r
}

/// The metadata of a session exported at `created_at`.
pub fn export_metadata(session: &TtsTestSession, created_at: String) -> (m: ExportMetadata)
    requires
        session.results@.len() < u64::MAX,
    ensures
        m.session_id == session.id,
        m.csv_source == session.csv_path,
        m.created_at == created_at,
        m.tts_config.model@ == model_debug_name(session.config.model),
        m.tts_config.voice@ == voice_debug_name(session.config.default_voice),
        m.tts_config.speed == session.config.default_speed,
        m.tts_config.instructions == session.config.default_instructions,
        m.recording_config.device == session.recording_config.device_name,
        m.recording_config.sample_rate == session.recording_config.sample_rate,
        m.recording_config.silence_threshold_db == session.recording_config.silence_threshold_db,
        m.recording_config.silence_duration_ms == session.recording_config.silence_duration_ms,
        m.test_cases@.len() == session.results@.len(),
        forall|k: int|
            0 <= k < m.test_cases@.len() ==> is_case_export(
                #[trigger] m.test_cases@[k],
                session.results@[k]@,
                k,
            ),
{
    ExportMetadata {
        session_id: session.id.clone(),
        csv_source: session.csv_path.clone(),
        created_at,
        tts_config: TtsConfigExport {
            model: session.config.model.debug_name(),
            voice: session.config.default_voice.debug_name(),
            speed: session.config.default_speed,
            instructions: clone_opt_string(&session.config.default_instructions),
        },
        recording_config: RecordingConfigExport {
            device: clone_opt_string(&session.recording_config.device_name),
            sample_rate: session.recording_config.sample_rate,
            silence_threshold_db: session.recording_config.silence_threshold_db,
            silence_duration_ms: session.recording_config.silence_duration_ms,
        },
        test_cases: case_exports(session.results.as_slice()),
    }
}

// ---------------------------------------------------------------------
// The archive
// ---------------------------------------------------------------------

/// A ZIP archive being written in memory.
///
/// The writer is held in a private field: Verus does not take a
/// declaration of `ZipWriter` itself (its `Write + Seek` bounds name
/// traits it does not know). What the archive holds is named by
/// [`zip_entries`].
#[verifier::external_body]
pub struct ZipBuffer {
    writer: ZipWriter<Cursor<Vec<u8>>>,
}

/// The entries written so far into a [`ZipBuffer`]: (name, contents), in
/// order.
pub uninterp spec fn zip_entries(z: ZipBuffer) -> Seq<(Seq<char>, Seq<u8>)>;

/// Whether an entry is being written: one was started and the archive has
/// not failed since (the writer's `writing_to_file`).
pub uninterp spec fn zip_open(z: ZipBuffer) -> bool;

/// The bytes of the finished archive of these entries (each compressed
/// with Deflate, with the `zip` crate's default options otherwise).
pub uninterp spec fn spec_zip_archive(entries: Seq<(Seq<char>, Seq<u8>)>) -> Seq<u8>;

/// The size up to which the contents of an entry are sure to fit an
/// archive without the ZIP64 "large file" option: the uncompressed and the
/// compressed size must stay within `0xFFFF_FFFF`, and Deflate at the
/// default level (miniz_oxide) falls back to a stored block, with at most
/// 5 bytes of overhead, wherever compressing a block would enlarge it.
pub const ZIP_ENTRY_LIMIT: u64 = 0xF000_0000;

/// The entry being written, if any, can still be closed: it holds at most
/// [`ZIP_ENTRY_LIMIT`] bytes.
pub open spec fn open_entry_fits(z: ZipBuffer) -> bool {
    zip_open(z) ==> zip_entries(z).len() > 0 && zip_entries(z).last().1.len() <= ZIP_ENTRY_LIMIT
}

/// `name` is the name of none of `es`.
pub open spec fn name_unused(es: Seq<(Seq<char>, Seq<u8>)>, name: Seq<char>) -> bool {
    forall|i: int| 0 <= i < es.len() ==> #[trigger] es[i].0 != name
}

/// An empty archive in memory.
///
/// Trusted: calls `ZipWriter::new` on an empty in-memory cursor; the
/// archive holds no entry and none is being written.
#[verifier::external_body]
fn zip_new() -> (z: ZipBuffer)
    ensures
        zip_entries(z) == Seq::<(Seq<char>, Seq<u8>)>::empty(),
        !zip_open(z),
{
    ZipBuffer { writer: ZipWriter::new(Cursor::new(Vec::new())) }
}

/// Starts a new entry, compressed with Deflate.
///
/// Trusted: calls `ZipWriter::start_file` with the default options and
/// the Deflate method. It closes the entry being written (which fails only
/// where its compressed size passes `0xFFFF_FFFF`, see
/// [`ZIP_ENTRY_LIMIT`]) and refuses a name already in the archive; writes
/// into the in-memory cursor do not fail. On success the archive has one
/// more entry, empty, with this name, being written. A name longer than
/// 65535 bytes would make it panic, so names are kept short. On failure
/// (the error's `Display` is returned) nothing is stated of the archive.
#[verifier::external_body]
fn zip_start_file(z: &mut ZipBuffer, name: &str) -> (r: Result<(), String>)
    requires
        name@.len() <= 16383,
    ensures
        r is Ok ==> zip_entries(*final(z)) == zip_entries(*old(z)).push((name@, Seq::<u8>::empty()))
            && zip_open(*final(z)),
        name_unused(zip_entries(*old(z)), name@) && open_entry_fits(*old(z)) ==> r is Ok,
{
    let options = SimpleFileOptions::default().compression_method(CompressionMethod::Deflated);
    z.writer.start_file(name, options).map_err(|e| e.to_string())
}

/// Writes bytes into the entry being written.
///
/// Trusted: calls `Write::write_all` on the `ZipWriter`. Empty data is
/// accepted at once and changes nothing (std's `write_all` does not call
/// `write` then). Otherwise `ZipWriter::write` refuses data while no entry
/// is being written, and fails once the entry passes `0xFFFF_FFFF` bytes;
/// writes into the in-memory cursor do not fail. On success the bytes are
/// appended to the contents of the entry being written, the last one. On
/// failure nothing is stated of the archive.
#[verifier::external_body]
fn zip_write(z: &mut ZipBuffer, data: &[u8]) -> (r: Result<(), String>)
    ensures
        r is Ok ==> zip_open(*final(z)) == zip_open(*old(z)),
        r is Ok && data@.len() == 0 ==> zip_entries(*final(z)) == zip_entries(*old(z)),
        r is Ok && data@.len() > 0 ==> {
            let old_e = zip_entries(*old(z));
            &&& zip_open(*old(z))
            &&& old_e.len() > 0
            &&& zip_entries(*final(z)) == old_e.update(
                old_e.len() - 1,
                (old_e.last().0, old_e.last().1 + data@),
            )
        },
        data@.len() == 0 ==> r is Ok,
        zip_open(*old(z)) && zip_entries(*old(z)).len() > 0 && zip_entries(*old(z)).last().1.len() + data@.len()
            <= 0xFFFF_FFFF ==> r is Ok,
{
    z.writer.write_all(data).map_err(|e| e.to_string())
}

/// Finishes the archive and returns its bytes.
///
/// Trusted: calls `ZipWriter::finish` and takes the bytes out of the
/// cursor. Finishing closes the entry being written (see
/// [`zip_start_file`]) and writes the central directory, with the ZIP64
/// records where the archive needs them; writes into the in-memory cursor
/// do not fail. On success the bytes are named by [`spec_zip_archive`] of
/// the entries written.
#[verifier::external_body]
fn zip_finish(z: ZipBuffer) -> (r: Result<Vec<u8>, String>)
    ensures
        r matches Ok(bytes) ==> bytes@ == spec_zip_archive(zip_entries(z)),
        open_entry_fits(z) ==> r is Ok,
{
    z.writer.finish().map(|c| c.into_inner()).map_err(|e| e.to_string())
}

/// The audio entries of a session's results: for each result in order,
/// its speech where there is some, then its recorded answer where there
/// is one.
pub open spec fn audio_entries(rs: Seq<TtsTestResultView>) -> Seq<(Seq<char>, Seq<u8>)>
    decreases rs.len(),
{
    if rs.len() == 0 {
        Seq::empty()
    } else {
        let k = rs.len() - 1;
        let r = rs.last();
        let tts: Seq<(Seq<char>, Seq<u8>)> = if r.tts_audio.len() > 0 {
            seq![(tts_entry_name(k), r.tts_audio)]
        } else {
            seq![]
        };
        let resp: Seq<(Seq<char>, Seq<u8>)> = match r.response_audio {
            Some(d) => seq![(response_entry_name(k), d)],
            None => seq![],
        };
        audio_entries(rs.drop_last()) + tts + resp
    }
}

/// The entries of a session's archive: its audio entries, then
/// `metadata.json`.
pub open spec fn archive_entries(rs: Seq<TtsTestResultView>, metadata_json: Seq<u8>) -> Seq<
    (Seq<char>, Seq<u8>),
> {
    audio_entries(rs).push(("metadata.json"@, metadata_json))
}

/// An export error: one of the archive steps failed with message `m`.
pub open spec fn is_archive_error(e: Seq<char>) -> bool {
    exists|m: Seq<char>|
        e == "Failed to add TTS file: "@ + m || e == "Failed to write TTS data: "@ + m || e
            == "Failed to add response file: "@ + m || e == "Failed to write response data: "@ + m || e
            == "Failed to add metadata file: "@ + m || e == "Failed to write metadata: "@ + m || e
            == "Failed to finalize ZIP: "@ + m
}

fn prefixed(prefix: &str, m: String) -> (r: String)
    ensures
        r@ == prefix@ + m@,
{
    let mut r = to_owned_string(prefix);
    push_str(&mut r, m.as_str());
    r
}

/// Every entry of `es` holds at most [`ZIP_ENTRY_LIMIT`] bytes.
pub open spec fn archive_fits(es: Seq<(Seq<char>, Seq<u8>)>) -> bool {
    forall|i: int| 0 <= i < es.len() ==> #[trigger] es[i].1.len() <= ZIP_ENTRY_LIMIT
}

/// The audio of a result holds at most [`ZIP_ENTRY_LIMIT`] bytes per entry.
pub open spec fn result_fits(r: TtsTestResultView) -> bool {
    &&& r.tts_audio.len() <= ZIP_ENTRY_LIMIT
    &&& r.response_audio matches Some(d) ==> d.len() <= ZIP_ENTRY_LIMIT
}

/// The names of results from `k` on, and `metadata.json`, are not yet
/// among the audio entries of the results before.
proof fn lemma_audio_names_unused(rs: Seq<TtsTestResultView>, k: int)
    requires
        k >= rs.len(),
    ensures
        name_unused(audio_entries(rs), tts_entry_name(k)),
        name_unused(audio_entries(rs), response_entry_name(k)),
        name_unused(audio_entries(rs), "metadata.json"@),
    decreases rs.len(),
{
    if rs.len() > 0 {
        let n = rs.len() - 1;
        let r = rs.last();
        lemma_audio_names_unused(rs.drop_last(), k);
        lemma_entry_names_distinct(n, k);
        lemma_entry_names_distinct(k, n);
        let pre = audio_entries(rs.drop_last());
        let es = audio_entries(rs);
        let tts: Seq<(Seq<char>, Seq<u8>)> = if r.tts_audio.len() > 0 {
            seq![(tts_entry_name(n), r.tts_audio)]
        } else {
            seq![]
        };
        let resp: Seq<(Seq<char>, Seq<u8>)> = match r.response_audio {
            Some(d) => seq![(response_entry_name(n), d)],
            None => seq![],
        };
        assert(es == pre + tts + resp);
        assert forall|i: int| 0 <= i < es.len() implies {
            &&& #[trigger] es[i].0 != tts_entry_name(k)
            &&& es[i].0 != response_entry_name(k)
            &&& es[i].0 != "metadata.json"@
        } by {
            if i < pre.len() {
                assert(es[i] == pre[i]);
            } else if i < pre.len() + tts.len() {
                assert(es[i] == tts[i - pre.len()]);
            } else {
                assert(es[i] == resp[i - pre.len() - tts.len()]);
            }
        }
    }
}

/// Where the audio entries fit, the audio of every result fits.
proof fn lemma_audio_sizes(rs: Seq<TtsTestResultView>)
    requires
        archive_fits(audio_entries(rs)),
    ensures
        forall|j: int| 0 <= j < rs.len() ==> result_fits(#[trigger] rs[j]),
    decreases rs.len(),
{
    if rs.len() > 0 {
        let n = rs.len() - 1;
        let r = rs.last();
        let pre = audio_entries(rs.drop_last());
        let es = audio_entries(rs);
        let tts: Seq<(Seq<char>, Seq<u8>)> = if r.tts_audio.len() > 0 {
            seq![(tts_entry_name(n), r.tts_audio)]
        } else {
            seq![]
        };
        let resp: Seq<(Seq<char>, Seq<u8>)> = match r.response_audio {
            Some(d) => seq![(response_entry_name(n), d)],
            None => seq![],
        };
        assert(es == pre + tts + resp);
        assert forall|i: int| 0 <= i < pre.len() implies #[trigger] pre[i].1.len() <= ZIP_ENTRY_LIMIT by {
            assert(es[i] == pre[i]);
        }
        lemma_audio_sizes(rs.drop_last());
        if r.tts_audio.len() > 0 {
            assert(es[pre.len() as int] == tts[0]);
            assert(es[pre.len() as int].1.len() <= ZIP_ENTRY_LIMIT);
        }
        if let Some(d) = r.response_audio {
            assert(es[es.len() - 1] == resp[0]);
            assert(es[es.len() - 1].1.len() <= ZIP_ENTRY_LIMIT);
        }
        assert(result_fits(r));
        assert forall|j: int| 0 <= j < rs.len() implies result_fits(#[trigger] rs[j]) by {
            if j < n {
                assert(rs[j] == rs.drop_last()[j]);
            }
        }
    }
}

fn add_entry(z: &mut ZipBuffer, name: &str, data: &[u8], add_err: &str, write_err: &str) -> (r: Result<
    (),
    String,
>)
    requires
        name@.len() <= 16383,
    ensures
        r is Ok ==> zip_entries(*final(z)) == zip_entries(*old(z)).push((name@, data@)) && zip_open(
            *final(z),
        ),
        r matches Err(e) ==> (exists|m: Seq<char>| e@ == add_err@ + m || e@ == write_err@ + m),
        name_unused(zip_entries(*old(z)), name@) && open_entry_fits(*old(z)) && data@.len()
            <= ZIP_ENTRY_LIMIT ==> r is Ok,
{
    match zip_start_file(z, name) {
        Ok(()) => {},
        Err(m) => {
            let e = prefixed(add_err, m);
            assert(e@ == add_err@ + m@);
            return Err(e);
        },
    }
    match zip_write(z, data) {
        Ok(()) => {
            assert(zip_entries(*z) =~= zip_entries(*old(z)).push((name@, data@))) by {
                assert(Seq::<u8>::empty() + data@ =~= data@);
            }
            Ok(())
        },
        Err(m) => {
            let e = prefixed(write_err, m);
            assert(e@ == write_err@ + m@);
            Err(e)
        },
    }
}

/// The ZIP archive of a session, with `metadata_json` as the contents of
/// `metadata.json`. Building it succeeds wherever every entry holds at
/// most [`ZIP_ENTRY_LIMIT`] bytes; whatever fails, the error names the
/// step.
pub fn archive_session(session: &TtsTestSession, metadata_json: &[u8]) -> (r: Result<Vec<u8>, String>)
    requires
        session.results@.len() < u64::MAX,
    ensures
        r matches Ok(bytes) ==> bytes@ == spec_zip_archive(
            archive_entries(results_view(session.results@), metadata_json@),
        ),
        r matches Err(e) ==> is_archive_error(e@),
        archive_fits(archive_entries(results_view(session.results@), metadata_json@)) ==> r is Ok,
{
    let results = &session.results;
    let ghost all = results_view(results@);
    let ghost fits = archive_fits(archive_entries(all, metadata_json@));
    proof {
        reveal_strlit("tts/");
        reveal_strlit("_input.wav");
        reveal_strlit("responses/");
        reveal_strlit("_response.wav");
        reveal_strlit("metadata.json");
        if fits {
            let es = archive_entries(all, metadata_json@);
            assert forall|i: int| 0 <= i < audio_entries(all).len() implies #[trigger] audio_entries(
                all,
            )[i].1.len() <= ZIP_ENTRY_LIMIT by {
                assert(es[i] == audio_entries(all)[i]);
            }
            lemma_audio_sizes(all);
            assert(es[audio_entries(all).len() as int].1 == metadata_json@);
        }
    }
    let mut z = zip_new();
    let mut k: usize = 0;
    assert(audio_entries(results_view(results@.take(0))) =~= Seq::<(Seq<char>, Seq<u8>)>::empty());
    while k < results.len()
        invariant
            k <= results@.len(),
            results@.len() < u64::MAX,
            all == results_view(results@),
            all == results_view(session.results@),
            zip_entries(z) == audio_entries(results_view(results@.take(k as int))),
            fits ==> open_entry_fits(z),
            fits ==> metadata_json@.len() <= ZIP_ENTRY_LIMIT,
            fits ==> forall|j: int| 0 <= j < all.len() ==> result_fits(#[trigger] all[j]),
            fits == archive_fits(archive_entries(all, metadata_json@)),
            "tts/"@.len() == 4,
            "_input.wav"@.len() == 10,
            "responses/"@.len() == 10,
            "_response.wav"@.len() == 13,
        decreases results@.len() - k,
    {
        let r = &results[k];
        proof {
            lemma_audio_names_unused(results_view(results@.take(k as int)), k as int);
            lemma_entry_names_distinct(k as int, k as int);
            assert(all[k as int] == r@);
        }
        if r.tts_audio.len() > 0 {
            let name = entry_name("tts/", k, "_input.wav");
            match add_entry(&mut z, name.as_str(), r.tts_audio.as_slice(), "Failed to add TTS file: ", "Failed to write TTS data: ") {
                Ok(()) => {},
                Err(e) => return Err(e),
            }
        }
        let ghost mid = zip_entries(z);
        match &r.response_audio {
            Some(d) => {
                let name = entry_name("responses/", k, "_response.wav");
                proof {
                    let pre = audio_entries(results_view(results@.take(k as int)));
                    assert forall|i: int| 0 <= i < mid.len() implies #[trigger] mid[i].0
                        != response_entry_name(k as int) by {
                        if i < pre.len() {
                            assert(mid[i] == pre[i]);
                        }
                    }
                }
                match add_entry(&mut z, name.as_str(), d.as_slice(), "Failed to add response file: ", "Failed to write response data: ") {
                    Ok(()) => {},
                    Err(e) => return Err(e),
                }
            },
            None => {},
        }
        proof {
            let rs = results_view(results@.take(k + 1));
            assert(rs.drop_last() =~= results_view(results@.take(k as int)));
            assert(rs.last() == results@[k as int]@);
            assert(rs.len() - 1 == k);
        }
        k = k + 1;
        assert(zip_entries(z) =~= audio_entries(results_view(results@.take(k as int))));
    }
    assert(results@.take(results@.len() as int) =~= results@);
    proof {
        lemma_audio_names_unused(all, all.len() as int);
    }
    match add_entry(&mut z, "metadata.json", metadata_json, "Failed to add metadata file: ", "Failed to write metadata: ") {
        Ok(()) => {},
        Err(e) => return Err(e),
    }
    match zip_finish(z) {
        Ok(bytes) => Ok(bytes),
        Err(m) => {
            let e = prefixed("Failed to finalize ZIP: ", m);
            assert(e@ == "Failed to finalize ZIP: "@ + m@);
            Err(e)
        },
    }
}

} // verus!
