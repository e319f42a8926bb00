//! Scenario files: format detection and conversion to and from the
//! scenario records the application works with. Reading, writing and the
//! JSON/YAML encodings themselves are done by the application.
use vstd::prelude::*;

use crate::error::ScenarioError;
use crate::ids::{new_uuid_string, now_rfc3339};
use crate::paths::{
    path_extension, path_extension_spec, path_is_absolute, path_join, path_parent,
    spec_path_is_absolute, spec_path_join, spec_path_parent, spec_to_lowercase, to_lowercase,
};
use crate::text::{push_str, str_eq, to_owned_string};
use crate::types::{
    clone_opt_string, F64Bits, ScenarioData, ScenarioInfo, ScenarioTurnData, ScenarioTurnInfo,
};

verus! {

/// Raw scenario file structure (JSON/YAML)
#[derive(Debug)]
pub struct ScenarioFile {
    pub name: String,
    pub description: Option<String>,
    pub metadata: Option<ScenarioMetadata>,
    pub turns: Vec<ScenarioTurnFile>,
}

/// Metadata about a scenario file
#[derive(Debug)]
pub struct ScenarioMetadata {
    pub author: Option<String>,
    pub version: Option<String>,
    pub created_at: Option<String>,
}

/// A single turn in a scenario file
#[derive(Debug)]
pub struct ScenarioTurnFile {
    pub audio_file: String,
    pub expected_transcript: Option<String>,
    pub expected_response: Option<String>,
    pub delay_before_ms: Option<F64Bits>,
    pub delay_after_ms: Option<F64Bits>,
}

/// The serialization format of a scenario file.
pub open spec fn scenario_format_spec(ext: Option<Seq<char>>) -> Result<Seq<char>, Seq<char>> {
    match ext {
        Some(e) => if e == "json"@ {
            Ok("json"@)
        } else if e == "yaml"@ || e == "yml"@ {
            Ok("yaml"@)
        } else {
            Err("Unsupported scenario file extension: "@ + e)
        },
        None => Err("Scenario file has no extension"@),
    }
}

/// The lower-cased extension of a path.
pub open spec fn lowered_extension(path: Seq<char>) -> Option<Seq<char>> {
    match path_extension_spec(path) {
        Some(e) => Some(spec_to_lowercase(e)),
        None => None,
    }
}

/// `r` matches the format outcome `f`: the format name, or a parse error
/// with the given message.
pub open spec fn format_result_matches(r: Result<&'static str, ScenarioError>, f: Result<Seq<char>, Seq<char>>) -> bool {
    match f {
        Ok(name) => r matches Ok(n) && n@ == name,
        Err(m) => r matches Err(ScenarioError::ParseError(msg)) && msg@ == m,
    }
}

/// Chooses the scenario format from a (lower-cased) file extension.
pub fn scenario_format_from_extension(ext: Option<&str>) -> (r: Result<&'static str, ScenarioError>)
    ensures
        format_result_matches(
            r,
            scenario_format_spec(
                match ext {
                    Some(e) => Some(e@),
                    None => None,
                },
            ),
        ),
{
    match ext {
        Some(e) => {
            if str_eq(e, "json") {
                Ok("json")
            } else if str_eq(e, "yaml") || str_eq(e, "yml") {
                Ok("yaml")
            } else {
                let mut m = String::new();
                push_str(&mut m, "Unsupported scenario file extension: ");
                push_str(&mut m, e);
                Err(ScenarioError::ParseError(m))
            }
        },
        None => Err(ScenarioError::ParseError(to_owned_string("Scenario file has no extension"))),
    }
}

/// Detect the scenario file format from the path's extension
/// (`json`, or `yaml`/`yml`, in any case).
pub fn detect_format(path: &str) -> (r: Result<&'static str, ScenarioError>)
    ensures
        format_result_matches(r, scenario_format_spec(lowered_extension(path@))),
{
    match path_extension(path) {
        Some(e) => {
            let lower = to_lowercase(e.as_str());
            scenario_format_from_extension(Some(lower.as_str()))
        },
        None => scenario_format_from_extension(None),
    }
}

/// Where a turn's audio file is: an absolute path as it is, otherwise
/// relative to the directory of the scenario file.
pub open spec fn resolved_audio_path(audio_file: Seq<char>, file_path: Seq<char>) -> Seq<char> {
    if spec_path_is_absolute(audio_file) {
        audio_file
    } else {
        match spec_path_parent(file_path) {
            Some(parent) => spec_path_join(parent, audio_file),
            None => audio_file,
        }
    }
}

/// Resolves a turn's audio file path against the scenario file's path.
pub fn resolve_audio_path(audio_file: &str, file_path: &str) -> (r: String)
    ensures
        r@ == resolved_audio_path(audio_file@, file_path@),
{
    if path_is_absolute(audio_file) {
        to_owned_string(audio_file)
    } else {
        match path_parent(file_path) {
            Some(parent) => path_join(parent.as_str(), audio_file),
            None => to_owned_string(audio_file),
        }
    }
}

/// The value of an optional delay, `0.0` when absent.
pub open spec fn delay_or_zero(d: Option<F64Bits>) -> F64Bits {
    match d {
        Some(x) => x,
        None => F64Bits(0),
    }
}

/// The turn record made from the `index`-th turn of a scenario file.
pub open spec fn is_turn_info(
    t: ScenarioTurnInfo,
    f: ScenarioTurnFile,
    index: int,
    id: Seq<char>,
    file_path: Seq<char>,
) -> bool {
    &&& t.id@ == id
    &&& t.audio_file@ == resolved_audio_path(f.audio_file@, file_path)
    &&& t.order_index == index as i32
    &&& t.delay_before_ms == delay_or_zero(f.delay_before_ms)
    &&& t.delay_after_ms == delay_or_zero(f.delay_after_ms)
    &&& t.expected_transcript == f.expected_transcript
    &&& t.expected_response == f.expected_response
}

/// The creation time of a loaded scenario: the file's own, or `now`.
pub open spec fn created_at_or(file: ScenarioFile, now: Seq<char>) -> Seq<char> {
    match file.metadata {
        Some(m) => match m.created_at {
            Some(c) => c@,
            None => now,
        },
        None => now,
    }
}

/// Convert a ScenarioFile to ScenarioInfo with the given scenario id, turn
/// ids (one per turn, in order) and load time.
pub fn scenario_file_to_info_with(
    file: &ScenarioFile,
    file_path: &str,
    scenario_id: String,
    turn_ids: Vec<String>,
    now: String,
) -> (r: ScenarioInfo)
    requires
        turn_ids@.len() == file.turns@.len(),
    ensures
        r.id == scenario_id,
        r.name == file.name,
        r.description@ == match file.description {
            Some(d) => d@,
            None => Seq::<char>::empty(),
        },
        r.created_at@ == created_at_or(*file, now@),
        r.turns@.len() == file.turns@.len(),
        forall|i: int|
            0 <= i < r.turns@.len() ==> is_turn_info(
                #[trigger] r.turns@[i],
                file.turns@[i],
                i,
                turn_ids@[i]@,
                file_path@,
            ),
{
    let mut turns: Vec<ScenarioTurnInfo> = Vec::new();
    let mut i: usize = 0;
    while i < file.turns.len()
        invariant
            i <= file.turns@.len(),
            turn_ids@.len() == file.turns@.len(),
            turns@.len() == i,
            forall|k: int|
                0 <= k < i ==> is_turn_info(
                    #[trigger] turns@[k],
                    file.turns@[k],
                    k,
                    turn_ids@[k]@,
                    file_path@,
                ),
        decreases file.turns@.len() - i,
    {
        let t = &file.turns[i];
        let delay_before_ms = match t.delay_before_ms {
            Some(d) => d,
            None => F64Bits(0),
        };
        let delay_after_ms = match t.delay_after_ms {
            Some(d) => d,
            None => F64Bits(0),
        };
        turns.push(
            ScenarioTurnInfo {
                id: turn_ids[i].clone(),
                audio_file: resolve_audio_path(t.audio_file.as_str(), file_path),
                order_index: i as i32,
                delay_before_ms,
                delay_after_ms,
                expected_transcript: clone_opt_string(&t.expected_transcript),
                expected_response: clone_opt_string(&t.expected_response),
            },
        );
        i = i + 1;
    }
    let description = match &file.description {
        Some(d) => d.clone(),
        None => String::new(),
    };
    let created_at = match &file.metadata {
        Some(m) => match &m.created_at {
            Some(c) => c.clone(),
            None => now,
        },
        None => now,
    };
    ScenarioInfo { id: scenario_id, name: file.name.clone(), description, turns, created_at }
}

/// Convert ScenarioFile to ScenarioInfo, with fresh ids and the current
/// time as the load time. The creation time is the file's own where it
/// records one, else the load time.
pub fn scenario_file_to_info(file: &ScenarioFile, file_path: &str) -> (r: ScenarioInfo)
    ensures
        r.name == file.name,
        r.description@ == match file.description {
            Some(d) => d@,
            None => Seq::<char>::empty(),
        },
        file.metadata matches Some(m) ==> (m.created_at matches Some(c) ==> r.created_at@ == c@),
        r.turns@.len() == file.turns@.len(),
        forall|i: int|
            0 <= i < r.turns@.len() ==> is_turn_info(
                #[trigger] r.turns@[i],
                file.turns@[i],
                i,
                r.turns@[i].id@,
                file_path@,
            ),
{
    let scenario_id = new_uuid_string();
    let now = now_rfc3339();
    let mut turn_ids: Vec<String> = Vec::new();
    let mut i: usize = 0;
    while i < file.turns.len()
        invariant
            i <= file.turns@.len(),
            turn_ids@.len() == i,
        decreases file.turns@.len() - i,
    {
        turn_ids.push(new_uuid_string());
        i = i + 1;
    }
    scenario_file_to_info_with(file, file_path, scenario_id, turn_ids, now)
}

/// The file turn made from a turn record.
pub open spec fn is_turn_file(f: ScenarioTurnFile, t: ScenarioTurnData) -> bool {
    &&& f.audio_file == t.audio_file
    &&& f.expected_transcript == t.expected_transcript
    &&& f.expected_response == t.expected_response
    &&& f.delay_before_ms == Some(t.delay_before_ms)
    &&& f.delay_after_ms == Some(t.delay_after_ms)
}

/// Convert ScenarioData to a ScenarioFile for saving, stamped with version
/// `1.0.0` and the given creation time.
pub fn scenario_data_to_file_at(data: &ScenarioData, now: String) -> (r: ScenarioFile)
    ensures
        r.name == data.name,
        r.description == Some(data.description),
        r.metadata matches Some(m) && m.author is None && (m.version matches Some(v) && v@ == "1.0.0"@)
            && m.created_at == Some(now),
        r.turns@.len() == data.turns@.len(),
        forall|i: int| 0 <= i < r.turns@.len() ==> is_turn_file(#[trigger] r.turns@[i], data.turns@[i]),
{
    let mut turns: Vec<ScenarioTurnFile> = Vec::new();
    let mut i: usize = 0;
    while i < data.turns.len()
        invariant
            i <= data.turns@.len(),
            turns@.len() == i,
            forall|k: int| 0 <= k < i ==> is_turn_file(#[trigger] turns@[k], data.turns@[k]),
        decreases data.turns@.len() - i,
    {
        let t = &data.turns[i];
        turns.push(
            ScenarioTurnFile {
                audio_file: t.audio_file.clone(),
                expected_transcript: clone_opt_string(&t.expected_transcript),
                expected_response: clone_opt_string(&t.expected_response),
                delay_before_ms: Some(t.delay_before_ms),
                delay_after_ms: Some(t.delay_after_ms),
            },
        );
        i = i + 1;
    }
    ScenarioFile {
        name: data.name.clone(),
        description: Some(data.description.clone()),
        metadata: Some(
            ScenarioMetadata {
                author: None,
                version: Some(to_owned_string("1.0.0")),
                created_at: Some(now),
            },
        ),
        turns,
    }
}

/// Convert ScenarioData to ScenarioFile for saving, created now.
pub fn scenario_data_to_file(data: &ScenarioData) -> (r: ScenarioFile)
    ensures
        r.name == data.name,
        r.description == Some(data.description),
        r.metadata matches Some(m) && m.author is None && (m.version matches Some(v) && v@ == "1.0.0"@)
            && m.created_at is Some,
        r.turns@.len() == data.turns@.len(),
        forall|i: int| 0 <= i < r.turns@.len() ==> is_turn_file(#[trigger] r.turns@[i], data.turns@[i]),
{
    let now = now_rfc3339();
    scenario_data_to_file_at(data, now)
}

} // verus!
