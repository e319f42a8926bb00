//! Recording devices: the list offered for recording, the device a
//! recording uses, and the stream configuration it asks for. Enumerating
//! the sound system's devices is done by the caller.
use vstd::prelude::*;

use crate::text::{push_str, str_eq, to_owned_string};
use crate::tts::types::opt_chars;

verus! {

/// Information about an audio device.
#[derive(Debug)]
pub struct InputDeviceInfo {
    /// Device name
    pub name: String,
    /// Whether this is the default device
    pub is_default: bool,
    /// Device type: "input" for microphones, "output" for speakers/loopback
    pub device_type: String,
}

/// The abstract value of an [`InputDeviceInfo`]: (name, default, type).
pub open spec fn input_info_view(d: InputDeviceInfo) -> (Seq<char>, bool, Seq<char>) {
    (d.name@, d.is_default, d.device_type@)
}

/// The entry of a device: its name, whether it is the default one of its
/// kind, and its kind.
pub open spec fn input_entry(name: Seq<char>, default: Option<Seq<char>>, kind: Seq<char>) -> (Seq<char>, bool, Seq<char>) {
    (name, default == Some(name), kind)
}

/// The output devices not listed earlier (among the inputs or the outputs
/// kept before them).
pub open spec fn new_outputs(inputs: Seq<Seq<char>>, outputs: Seq<Seq<char>>) -> Seq<Seq<char>>
    decreases outputs.len(),
{
    if outputs.len() == 0 {
        Seq::empty()
    } else {
        let p = new_outputs(inputs, outputs.drop_last());
        let x = outputs.last();
        if inputs.contains(x) || p.contains(x) {
            p
        } else {
            p.push(x)
        }
    }
}

/// The entries of input devices.
pub open spec fn input_entries(ns: Seq<Seq<char>>, d: Option<Seq<char>>) -> Seq<(Seq<char>, bool, Seq<char>)> {
    ns.map_values(|n: Seq<char>| input_entry(n, d, "input"@))
}

/// The entries of output devices.
pub open spec fn output_entries(ns: Seq<Seq<char>>, d: Option<Seq<char>>) -> Seq<(Seq<char>, bool, Seq<char>)> {
    ns.map_values(|n: Seq<char>| input_entry(n, d, "output"@))
}

/// The devices offered for recording: every input device, then the output
/// devices (for loopback) not already listed.
pub open spec fn recording_devices(
    inputs: Seq<Seq<char>>,
    default_input: Option<Seq<char>>,
    outputs: Seq<Seq<char>>,
    default_output: Option<Seq<char>>,
) -> Seq<(Seq<char>, bool, Seq<char>)> {
    input_entries(inputs, default_input) + output_entries(new_outputs(inputs, outputs), default_output)
}

/// The abstract values of a list of devices.
pub open spec fn infos_view(s: Seq<InputDeviceInfo>) -> Seq<(Seq<char>, bool, Seq<char>)> {
    s.map_values(|d: InputDeviceInfo| input_info_view(d))
}

/// The names of a list of devices.
pub open spec fn info_names(s: Seq<InputDeviceInfo>) -> Seq<Seq<char>> {
    s.map_values(|d: InputDeviceInfo| d.name@)
}

fn opt_str_eq(o: &Option<String>, s: &str) -> (r: bool)
    ensures
        r == (opt_chars(*o) == Some(s@)),
{
    match o {
        Some(x) => str_eq(x.as_str(), s),
        None => false,
    }
}

fn listed(v: &[InputDeviceInfo], name: &str) -> (r: bool)
    ensures
        r == info_names(v@).contains(name@),
{
    let mut j: usize = 0;
    while j < v.len()
        invariant
            j <= v@.len(),
            forall|k: int| 0 <= k < j ==> v@[k].name@ != name@,
        decreases v@.len() - j,
    {
        if str_eq(v[j].name.as_str(), name) {
            assert(info_names(v@)[j as int] == name@);
            return true;
        }
        j = j + 1;
    }
    assert(!info_names(v@).contains(name@)) by {
        if info_names(v@).contains(name@) {
            let k = choose|k: int| 0 <= k < info_names(v@).len() && info_names(v@)[k] == name@;
            assert(v@[k].name@ == name@);
        }
    }
    false
}

proof fn lemma_concat_contains(a: Seq<Seq<char>>, b: Seq<Seq<char>>, x: Seq<char>)
    ensures
        (a + b).contains(x) == (a.contains(x) || b.contains(x)),
{
    if (a + b).contains(x) {
        let j = choose|j: int| 0 <= j < (a + b).len() && (a + b)[j] == x;
        if j < a.len() {
            assert(a[j] == x);
        } else {
            assert(b[j - a.len()] == x);
        }
    }
    if a.contains(x) {
        let j = choose|j: int| 0 <= j < a.len() && a[j] == x;
        assert((a + b)[j] == x);
    }
    if b.contains(x) {
        let j = choose|j: int| 0 <= j < b.len() && b[j] == x;
        assert((a + b)[a.len() + j] == x);
    }
}

/// The devices offered for recording (see [`recording_devices`]), from the
/// names of the input and output devices and the default of each kind.
pub fn list_input_devices_from(
    inputs: &[String],
    default_input: &Option<String>,
    outputs: &[String],
    default_output: &Option<String>,
) -> (r: Vec<InputDeviceInfo>)
    ensures
        infos_view(r@) == recording_devices(
            crate::device::linux::strings_view(inputs@),
            opt_chars(*default_input),
            crate::device::linux::strings_view(outputs@),
            opt_chars(*default_output),
        ),
{
    let ghost ins = crate::device::linux::strings_view(inputs@);
    let ghost outs = crate::device::linux::strings_view(outputs@);
    let ghost di = opt_chars(*default_input);
    let ghost dout = opt_chars(*default_output);
    let mut r: Vec<InputDeviceInfo> = Vec::new();
    let mut i: usize = 0;
    while i < inputs.len()
        invariant
            i <= inputs@.len(),
            ins == crate::device::linux::strings_view(inputs@),
            di == opt_chars(*default_input),
            r@.len() == i,
            forall|j: int| 0 <= j < i ==> input_info_view(#[trigger] r@[j]) == input_entry(ins[j], di, "input"@),
        decreases inputs@.len() - i,
    {
        let name = &inputs[i];
        r.push(
            InputDeviceInfo {
                name: name.clone(),
                is_default: opt_str_eq(default_input, name.as_str()),
                device_type: to_owned_string("input"),
            },
        );
        i = i + 1;
    }
    let ghost head = infos_view(r@);
    assert(head =~= input_entries(ins, di));
    assert(info_names(r@) =~= ins);
    let mut k: usize = 0;
    assert(outs.take(0) =~= Seq::<Seq<char>>::empty());
    assert(infos_view(r@) =~= head + output_entries(new_outputs(ins, outs.take(0)), dout));
    assert(info_names(r@) =~= ins + new_outputs(ins, outs.take(0)));
    while k < outputs.len()
        invariant
            k <= outputs@.len(),
            ins == crate::device::linux::strings_view(inputs@),
            outs == crate::device::linux::strings_view(outputs@),
            dout == opt_chars(*default_output),
            infos_view(r@) == head + output_entries(new_outputs(ins, outs.take(k as int)), dout),
            info_names(r@) == ins + new_outputs(ins, outs.take(k as int)),
        decreases outputs@.len() - k,
    {
        let name = &outputs[k];
        let ghost t = outs.take(k + 1);
        let ghost prev = new_outputs(ins, outs.take(k as int));
        let ghost prev_r = infos_view(r@);
        let ghost prev_n = info_names(r@);
        assert(t.drop_last() =~= outs.take(k as int));
        assert(t.last() == name@);
        let seen = listed(r.as_slice(), name.as_str());
        proof {
            lemma_concat_contains(ins, prev, name@);
        }
        if !seen {
            r.push(
                InputDeviceInfo {
                    name: name.clone(),
                    is_default: opt_str_eq(default_output, name.as_str()),
                    device_type: to_owned_string("output"),
                },
            );
            assert(new_outputs(ins, t) == prev.push(name@));
            assert(infos_view(r@) =~= prev_r.push(input_entry(name@, dout, "output"@)));
            assert(info_names(r@) =~= prev_n.push(name@));
            assert(output_entries(prev.push(name@), dout) =~= output_entries(prev, dout).push(
                input_entry(name@, dout, "output"@),
            ));
        } else {
            assert(new_outputs(ins, t) == prev);
        }
        k = k + 1;
        assert(infos_view(r@) =~= head + output_entries(new_outputs(ins, outs.take(k as int)), dout));
        assert(info_names(r@) =~= ins + new_outputs(ins, outs.take(k as int)));
    }
    assert(outs.take(outs.len() as int) =~= outs);
    r
}

/// The input device a recording asks for, among the input devices (by
/// name): the first one with that name, or the error that names it.
pub fn find_input_device(names: &[String], wanted: &str) -> (r: Result<usize, String>)
    ensures
        match r {
            Ok(i) => 0 <= i < names@.len() && names@[i as int]@ == wanted@ && forall|j: int|
                0 <= j < i ==> names@[j]@ != wanted@,
            Err(e) => e@ == "Input device '"@ + wanted@ + "' not found"@ && forall|j: int|
                0 <= j < names@.len() ==> names@[j]@ != wanted@,
        },
{
    let mut i: usize = 0;
    while i < names.len()
        invariant
            i <= names@.len(),
            forall|j: int| 0 <= j < i ==> names@[j]@ != wanted@,
        decreases names@.len() - i,
    {
        if str_eq(names[i].as_str(), wanted) {
            return Ok(i);
        }
        i = i + 1;
    }
    let mut m = to_owned_string("Input device '");
    push_str(&mut m, wanted);
    push_str(&mut m, "' not found");
    Err(m)
}

/// A stream configuration a device supports: channels and the range of
/// sample rates.
#[derive(Debug, Clone, Copy, PartialEq, Eq, Structural)]
pub struct StreamRange {
    pub channels: u16,
    pub min_sample_rate: u32,
    pub max_sample_rate: u32,
}

/// The configuration a recording uses.
#[derive(Debug, Clone, Copy, PartialEq, Eq, Structural)]
pub enum StreamChoice {
    /// Configuration `i` at the wanted sample rate.
    AtRate(usize),
    /// Configuration `i` at its highest sample rate.
    AtMaxRate(usize),
    /// None fits: the device's default input configuration.
    DeviceDefault,
}

/// Configuration `i` has the wanted channel count.
pub open spec fn channels_match(cs: Seq<StreamRange>, i: int, channels: u16) -> bool {
    cs[i].channels == channels
}

/// Configuration `i` has the wanted channel count and rate.
pub open spec fn fits(cs: Seq<StreamRange>, i: int, rate: u32, channels: u16) -> bool {
    cs[i].channels == channels && cs[i].min_sample_rate <= rate && rate <= cs[i].max_sample_rate
}

/// The choice of configuration: the first that has the wanted channel
/// count and rate; else the first with the wanted channel count, at its
/// highest rate; else the device's default.
pub open spec fn stream_choice(cs: Seq<StreamRange>, rate: u32, channels: u16) -> StreamChoice {
    if exists|i: int| 0 <= i < cs.len() && fits(cs, i, rate, channels) {
        StreamChoice::AtRate(
            (choose|i: int|
                0 <= i < cs.len() && fits(cs, i, rate, channels) && forall|j: int|
                    0 <= j < i ==> !fits(cs, j, rate, channels)) as usize,
        )
    } else if exists|i: int| 0 <= i < cs.len() && channels_match(cs, i, channels) {
        StreamChoice::AtMaxRate(
            (choose|i: int|
                0 <= i < cs.len() && channels_match(cs, i, channels) && forall|j: int|
                    0 <= j < i ==> !channels_match(cs, j, channels)) as usize,
        )
    } else {
        StreamChoice::DeviceDefault
    }
}

/// Chooses the configuration a recording uses (see [`stream_choice`]).
pub fn choose_stream_config(cs: &[StreamRange], rate: u32, channels: u16) -> (r: StreamChoice)
    ensures
        match r {
            StreamChoice::AtRate(i) => 0 <= i < cs@.len() && fits(cs@, i as int, rate, channels) && forall|j: int|
                0 <= j < i ==> !fits(cs@, j, rate, channels),
            StreamChoice::AtMaxRate(i) => 0 <= i < cs@.len() && channels_match(cs@, i as int, channels)
                && (forall|j: int| 0 <= j < i ==> !channels_match(cs@, j, channels)) && forall|j: int|
                0 <= j < cs@.len() ==> !fits(cs@, j, rate, channels),
            StreamChoice::DeviceDefault => forall|j: int|
                0 <= j < cs@.len() ==> !channels_match(cs@, j, channels),
        },
{
    let mut fallback: Option<usize> = None;
    let mut i: usize = 0;
    while i < cs.len()
        invariant
            i <= cs@.len(),
            forall|j: int| 0 <= j < i ==> !fits(cs@, j, rate, channels),
            match fallback {
                Some(f) => f < i && channels_match(cs@, f as int, channels) && forall|j: int|
                    0 <= j < f ==> !channels_match(cs@, j, channels),
                None => forall|j: int| 0 <= j < i ==> !channels_match(cs@, j, channels),
            },
        decreases cs@.len() - i,
    {
        let c = cs[i];
        if c.channels == channels {
            if c.min_sample_rate <= rate && rate <= c.max_sample_rate {
                return StreamChoice::AtRate(i);
            }
            if fallback.is_none() {
                fallback = Some(i);
            }
        }
        i = i + 1;
    }
    match fallback {
        Some(f) => StreamChoice::AtMaxRate(f),
        None => StreamChoice::DeviceDefault,
    }
}

} // verus!
