//! Linux virtual devices: PulseAudio null-sink modules, created and
//! destroyed with the `pactl` tool.
//!
//! Running `pactl` and enumerating the sound system's devices are done by
//! the caller; this module decides what to run, reads what came back, and
//! keeps the state of the device it created.
use vstd::prelude::*;

use super::{device_view, devices_view, CommandOutcome, DeviceInfoView, VirtualDeviceManager};
use crate::error::DeviceError;
use crate::text::{
    chars_of, contains_seq, push_str, replace_char, replace_char_spec, str_contains, str_eq,
    string_from_chars, to_owned_string, trim_chars, trim_spec,
};
use crate::types::{DeviceInfo, DeviceStatus};

verus! {

/// Linux device manager that creates/destroys PulseAudio null-sink modules.
pub struct LinuxDeviceManager {
    /// Name of the currently active virtual device, if any.
    pub active_device_name: Option<String>,
    /// PulseAudio module ID returned by `pactl load-module`, used for cleanup.
    pub module_id: Option<u32>,
}

/// The sink name of a device name: spaces become underscores.
pub open spec fn sink_name_of(name: Seq<char>) -> Seq<char> {
    replace_char_spec(name, ' ', '_')
}

/// Whether a device or sink name belongs to the active device.
pub open spec fn belongs_to_active(active: Option<Seq<char>>, name: Seq<char>) -> bool {
    match active {
        Some(a) => contains_seq(name, sink_name_of(a)),
        None => false,
    }
}

/// The message of the error of `str::parse::<u32>` on a text it refuses
/// (the `Display` of `ParseIntError`).
pub uninterp spec fn spec_parse_u32_error(s: Seq<char>) -> Seq<char>;

/// An ASCII decimal digit.
pub open spec fn is_ascii_digit(c: char) -> bool {
    '0' <= c && c <= '9'
}

/// The value of a string of decimal digits.
pub open spec fn digits_value(d: Seq<char>) -> int
    decreases d.len(),
{
    if d.len() == 0 {
        0
    } else {
        digits_value(d.drop_last()) * 10 + (d.last() as int - '0' as int)
    }
}

/// The digits of a number text: without its leading `+`, if any.
pub open spec fn number_digits(s: Seq<char>) -> Seq<char> {
    if s.len() > 0 && s[0] == '+' {
        s.drop_first()
    } else {
        s
    }
}

/// Whether `str::parse::<u32>` accepts a text: an optional `+` followed by
/// at least one ASCII digit and nothing else, with a value that fits.
pub open spec fn parses_as_u32(s: Seq<char>) -> bool {
    let d = number_digits(s);
    &&& d.len() > 0
    &&& forall|i: int| 0 <= i < d.len() ==> is_ascii_digit(#[trigger] d[i])
    &&& digits_value(d) <= u32::MAX
}

/// The result of `str::parse::<u32>` on a text: the number, or the message
/// of the error.
pub open spec fn spec_parse_u32(s: Seq<char>) -> Result<u32, Seq<char>> {
    if parses_as_u32(s) {
        Ok(digits_value(number_digits(s)) as u32)
    } else {
        Err(spec_parse_u32_error(s))
    }
}

/// Parses a decimal `u32`.
///
/// Trusted: calls `str::parse::<u32>`, which (as the documentation of
/// `u32::from_str_radix` states) accepts an optional `+` followed by
/// digits only, and fails where the value does not fit; the message of
/// the error is named by [`spec_parse_u32_error`].
#[verifier::external_body]
fn parse_u32(s: &str) -> (r: Result<u32, String>)
    ensures
        match r {
            Ok(v) => parses_as_u32(s@) && v == digits_value(number_digits(s@)),
            Err(e) => !parses_as_u32(s@) && e@ == spec_parse_u32_error(s@),
        },
{
    s.parse::<u32>().map_err(|e| e.to_string())
}

// ---------------------------------------------------------------------
// Reading `pactl list sinks short`
// ---------------------------------------------------------------------

/// The pieces of `s` between occurrences of `c` (`str::split`).
pub open spec fn split_on(s: Seq<char>, c: char) -> Seq<Seq<char>>
    decreases s.len(),
{
    if s.len() == 0 {
        seq![Seq::empty()]
    } else {
        let p = split_on(s.drop_last(), c);
        if s.last() == c {
            p.push(Seq::empty())
        } else {
            p.update(p.len() - 1, p.last().push(s.last()))
        }
    }
}

/// A line without the `\r` of a `\r\n` ending.
pub open spec fn strip_cr(l: Seq<char>) -> Seq<char> {
    if l.len() > 0 && l.last() == '\r' {
        l.drop_last()
    } else {
        l
    }
}

/// The lines of a text (`str::lines`): split at `\n`, each line that
/// ended with `\r\n` loses its `\r`, and a final empty line is dropped.
pub open spec fn text_lines(s: Seq<char>) -> Seq<Seq<char>> {
    let p = split_on(s, '\n');
    let full = p.drop_last().map_values(|l: Seq<char>| strip_cr(l));
    if p.last().len() == 0 {
        full
    } else {
        full.push(p.last())
    }
}

/// The sink of a line `<index>\t<name>\t...`: its first two fields,
/// trimmed, where it has at least two.
pub open spec fn sink_of_line(l: Seq<char>) -> Option<(Seq<char>, Seq<char>)> {
    let f = split_on(l, '\t');
    if f.len() >= 2 {
        Some((trim_spec(f[0]), trim_spec(f[1])))
    } else {
        None
    }
}

/// The sinks listed in the output of `pactl list sinks short`: (index,
/// name) of every line that has at least two fields.
pub open spec fn sinks_of_lines(ls: Seq<Seq<char>>) -> Seq<(Seq<char>, Seq<char>)>
    decreases ls.len(),
{
    if ls.len() == 0 {
        Seq::empty()
    } else {
        match sink_of_line(ls.last()) {
            Some(s) => sinks_of_lines(ls.drop_last()).push(s),
            None => sinks_of_lines(ls.drop_last()),
        }
    }
}

/// The sinks listed in a text.
pub open spec fn pactl_sinks(s: Seq<char>) -> Seq<(Seq<char>, Seq<char>)> {
    sinks_of_lines(text_lines(s))
}

/// The abstract values of (index, name) pairs.
pub open spec fn pairs_view(s: Seq<(String, String)>) -> Seq<(Seq<char>, Seq<char>)> {
    s.map_values(|p: (String, String)| (p.0@, p.1@))
}

proof fn lemma_split_nonempty(s: Seq<char>, c: char)
    ensures
        split_on(s, c).len() >= 1,
    decreases s.len(),
{
    if s.len() > 0 {
        lemma_split_nonempty(s.drop_last(), c);
    }
}

/// Reads the sink of one line (see [`sink_of_line`]).
fn read_sink_line(l: &[char]) -> (r: Option<(String, String)>)
    ensures
        match r {
            Some(p) => sink_of_line(l@) == Some((p.0@, p.1@)),
            None => sink_of_line(l@) is None,
        },
{
    // fields[k] is the k-th field read so far (at most the first two, and
    // whether a second tab was seen).
    let mut f0: Vec<char> = Vec::new();
    let mut f1: Vec<char> = Vec::new();
    let mut tabs: usize = 0;
    let mut i: usize = 0;
    proof {
        lemma_split_nonempty(l@.take(0), '\t');
    }
    while i < l.len()
        invariant
            i <= l@.len(),
            split_on(l@.take(i as int), '\t').len() == tabs + 1,
            tabs >= 1 ==> split_on(l@.take(i as int), '\t')[0] == f0@,
            tabs == 0 ==> split_on(l@.take(i as int), '\t')[0] == f0@,
            tabs == 0 ==> f1@.len() == 0,
            tabs >= 1 ==> split_on(l@.take(i as int), '\t')[1] == f1@,
            tabs <= i,
        decreases l@.len() - i,
    {
        let c = l[i];
        let ghost pre = l@.take(i as int);
        assert(l@.take(i + 1).drop_last() =~= pre);
        proof {
            lemma_split_nonempty(pre, '\t');
        }
        if c == '\t' {
            tabs = tabs + 1;
        } else if tabs == 0 {
            f0.push(c);
        } else if tabs == 1 {
            f1.push(c);
        }
        i = i + 1;
    }
    assert(l@.take(l@.len() as int) =~= l@);
    if tabs >= 1 {
        let a = trim_chars(f0.as_slice());
        let b = trim_chars(f1.as_slice());
        Some((string_from_chars(a.as_slice()), string_from_chars(b.as_slice())))
    } else {
        None
    }
}

fn strip_cr_chars(l: &mut Vec<char>)
    ensures
        final(l)@ == strip_cr(old(l)@),
{
    if l.len() > 0 && l[l.len() - 1] == '\r' {
        l.pop();
    }
}

/// The sinks listed in the output of `pactl list sinks short` (see
/// [`pactl_sinks`]).
pub fn parse_pactl_sinks(stdout: &str) -> (r: Vec<(String, String)>)
    ensures
        pairs_view(r@) == pactl_sinks(stdout@),
{
    let v = chars_of(stdout);
    let mut r: Vec<(String, String)> = Vec::new();
    let mut cur: Vec<char> = Vec::new();
    let ghost mut done: Seq<Seq<char>> = Seq::empty();
    let mut i: usize = 0;
    assert(v@.take(0) =~= Seq::<char>::empty());
    assert(split_on(v@.take(0), '\n') =~= seq![Seq::<char>::empty()]);
    assert(pairs_view(r@) =~= Seq::<(Seq<char>, Seq<char>)>::empty());
    assert(done.map_values(|l: Seq<char>| strip_cr(l)) =~= Seq::<Seq<char>>::empty());
    while i < v.len()
        invariant
            i <= v@.len(),
            v@ == stdout@,
            split_on(v@.take(i as int), '\n') == done.push(cur@),
            pairs_view(r@) == sinks_of_lines(done.map_values(|l: Seq<char>| strip_cr(l))),
        decreases v@.len() - i,
    {
        let c = v[i];
        assert(v@.take(i + 1).drop_last() =~= v@.take(i as int));
        let ghost lines0 = done.map_values(|l: Seq<char>| strip_cr(l));
        if c == '\n' {
            let ghost whole = cur@;
            let mut line = cur;
            strip_cr_chars(&mut line);
            let got = read_sink_line(line.as_slice());
            proof {
                let lines1 = done.push(whole).map_values(|l: Seq<char>| strip_cr(l));
                assert(lines1 =~= lines0.push(strip_cr(whole)));
                assert(lines1.drop_last() =~= lines0);
            }
            match got {
                Some(p) => {
                    r.push(p);
                },
                None => {},
            }
            proof {
                done = done.push(whole);
            }
            assert(pairs_view(r@) =~= sinks_of_lines(done.map_values(|l: Seq<char>| strip_cr(l))));
            cur = Vec::new();
        } else {
            cur.push(c);
        }
        i = i + 1;
    }
    assert(v@.take(v@.len() as int) =~= v@);
    let ghost lines0 = done.map_values(|l: Seq<char>| strip_cr(l));
    proof {
        assert(split_on(stdout@, '\n').drop_last() =~= done);
    }
    if cur.len() > 0 {
        let got = read_sink_line(cur.as_slice());
        proof {
            assert(lines0.push(cur@).drop_last() =~= lines0);
        }
        match got {
            Some(p) => {
                r.push(p);
            },
            None => {},
        }
        assert(pairs_view(r@) =~= sinks_of_lines(lines0.push(cur@)));
    }
    r
}

// ---------------------------------------------------------------------
// Listing devices
// ---------------------------------------------------------------------

/// The abstract values of a list of strings.
pub open spec fn strings_view(s: Seq<String>) -> Seq<Seq<char>> {
    s.map_values(|x: String| x@)
}

/// `x` occurs among the first `n` elements of `s`.
pub open spec fn occurs_before<A>(s: Seq<A>, x: A, n: int) -> bool {
    exists|j: int| 0 <= j < n && s[j] == x
}

/// The names in order, each kept at its first occurrence only.
pub open spec fn first_occurrences(s: Seq<Seq<char>>) -> Seq<Seq<char>>
    decreases s.len(),
{
    if s.len() == 0 {
        Seq::empty()
    } else {
        let p = first_occurrences(s.drop_last());
        if occurs_before(s, s.last(), s.len() - 1) {
            p
        } else {
            p.push(s.last())
        }
    }
}

/// The sinks whose name is neither among `names` nor the name of an
/// earlier sink.
pub open spec fn unseen_sinks(names: Seq<Seq<char>>, sinks: Seq<(Seq<char>, Seq<char>)>) -> Seq<
    (Seq<char>, Seq<char>),
>
    decreases sinks.len(),
{
    if sinks.len() == 0 {
        Seq::empty()
    } else {
        let p = unseen_sinks(names, sinks.drop_last());
        let x = sinks.last();
        if names.contains(x.1) || exists|j: int| 0 <= j < sinks.len() - 1 && sinks[j].1 == x.1 {
            p
        } else {
            p.push(x)
        }
    }
}

/// The entry of an output device of the sound system.
pub open spec fn output_device(active: Option<Seq<char>>, default: Option<Seq<char>>, name: Seq<char>) -> DeviceInfoView {
    DeviceInfoView {
        id: name,
        name,
        is_virtual: belongs_to_active(active, name),
        is_default: default == Some(name),
        is_active: belongs_to_active(active, name),
    }
}

/// The entry of a PulseAudio sink the sound system did not list.
pub open spec fn sink_device(active: Option<Seq<char>>, s: (Seq<char>, Seq<char>)) -> DeviceInfoView {
    DeviceInfoView {
        id: s.0,
        name: s.1,
        is_virtual: belongs_to_active(active, s.1),
        is_default: false,
        is_active: belongs_to_active(active, s.1),
    }
}

/// The device list: the output devices of the sound system (each name
/// once), then the sinks it did not list.
pub open spec fn linux_device_list(
    active: Option<Seq<char>>,
    default: Option<Seq<char>>,
    names: Seq<Seq<char>>,
    sinks: Seq<(Seq<char>, Seq<char>)>,
) -> Seq<DeviceInfoView> {
    first_occurrences(names).map_values(|n: Seq<char>| output_device(active, default, n))
        + unseen_sinks(names, sinks).map_values(|x: (Seq<char>, Seq<char>)| sink_device(active, x))
}

fn belongs_exec(active: &Option<String>, name: &str) -> (r: bool)
    ensures
        r == belongs_to_active(crate::tts::types::opt_chars(*active), name@),
{
    match active {
        Some(a) => {
            let sink = replace_char(a.as_str(), ' ', '_');
            str_contains(name, sink.as_str())
        },
        None => false,
    }
}

fn opt_str_eq(o: &Option<String>, s: &str) -> (r: bool)
    ensures
        r == (crate::tts::types::opt_chars(*o) == Some(s@)),
{
    match o {
        Some(x) => str_eq(x.as_str(), s),
        None => false,
    }
}

fn name_before(v: &[String], n: usize, name: &str) -> (r: bool)
    requires
        n <= v@.len(),
    ensures
        r == occurs_before(strings_view(v@), name@, n as int),
{
    let mut j: usize = 0;
    while j < n
        invariant
            j <= n <= v@.len(),
            forall|k: int| 0 <= k < j ==> v@[k]@ != name@,
        decreases n - j,
    {
        if str_eq(v[j].as_str(), name) {
            assert(strings_view(v@)[j as int] == name@);
            return true;
        }
        j = j + 1;
    }
    false
}

fn sink_name_before(v: &[(String, String)], n: usize, name: &str) -> (r: bool)
    requires
        n <= v@.len(),
    ensures
        r == exists|j: int| 0 <= j < n && pairs_view(v@)[j].1 == name@,
{
    let mut j: usize = 0;
    while j < n
        invariant
            j <= n <= v@.len(),
            forall|k: int| 0 <= k < j ==> v@[k].1@ != name@,
        decreases n - j,
    {
        if str_eq(v[j].1.as_str(), name) {
            assert(pairs_view(v@)[j as int].1 == name@);
            return true;
        }
        j = j + 1;
    }
    assert forall|k: int| 0 <= k < n implies pairs_view(v@)[k].1 != name@ by {
        assert(pairs_view(v@)[k].1 == v@[k].1@);
    }
    false
}

impl LinuxDeviceManager {
    /// A manager with no device created.
    pub fn new() -> (r: Self)
        ensures
            r.active_device_name is None,
            r.module_id is None,
    {
        LinuxDeviceManager { active_device_name: None, module_id: None }
    }

    /// The device list from the output devices the sound system lists (by
    /// name, in order), its default output device, and the PulseAudio
    /// sinks (see [`linux_device_list`]).
    pub fn list_devices_from(
        &self,
        output_names: &[String],
        default_output: &Option<String>,
        sinks: &[(String, String)],
    ) -> (r: Vec<DeviceInfo>)
        ensures
            devices_view(r@) == linux_device_list(
                crate::tts::types::opt_chars(self.active_device_name),
                crate::tts::types::opt_chars(*default_output),
                strings_view(output_names@),
                pairs_view(sinks@),
            ),
    {
        let ghost active = crate::tts::types::opt_chars(self.active_device_name);
        let ghost default = crate::tts::types::opt_chars(*default_output);
        let ghost names = strings_view(output_names@);
        let ghost ps = pairs_view(sinks@);
        let mut r: Vec<DeviceInfo> = Vec::new();
        let mut i: usize = 0;
        assert(names.take(0) =~= Seq::<Seq<char>>::empty());
        assert(devices_view(r@) =~= first_occurrences(names.take(0)).map_values(
            |n: Seq<char>| output_device(active, default, n),
        ));
        while i < output_names.len()
            invariant
                i <= output_names@.len(),
                names == strings_view(output_names@),
                active == crate::tts::types::opt_chars(self.active_device_name),
                default == crate::tts::types::opt_chars(*default_output),
                devices_view(r@) == first_occurrences(names.take(i as int)).map_values(
                    |n: Seq<char>| output_device(active, default, n),
                ),
            decreases output_names@.len() - i,
        {
            let name = &output_names[i];
            let ghost t = names.take(i + 1);
            assert(t.drop_last() =~= names.take(i as int));
            assert(t.last() == name@);
            assert(occurs_before(t, name@, i as int) == occurs_before(names, name@, i as int)) by {
                if occurs_before(t, name@, i as int) {
                    let j = choose|j: int| 0 <= j < i && t[j] == name@;
                    assert(names[j] == t[j]);
                }
                if occurs_before(names, name@, i as int) {
                    let j = choose|j: int| 0 <= j < i && names[j] == name@;
                    assert(names[j] == t[j]);
                }
            }
            let ghost prev = first_occurrences(names.take(i as int));
            let ghost prev_r = devices_view(r@);
            if !name_before(output_names, i, name.as_str()) {
                let v = belongs_exec(&self.active_device_name, name.as_str());
                let d = opt_str_eq(default_output, name.as_str());
                r.push(DeviceInfo { id: name.clone(), name: name.clone(), is_virtual: v, is_default: d, is_active: v });
                assert(first_occurrences(t) == prev.push(name@));
                assert(devices_view(r@) =~= prev_r.push(output_device(active, default, name@)));
                assert(prev.push(name@).map_values(|n: Seq<char>| output_device(active, default, n))
                    =~= prev.map_values(|n: Seq<char>| output_device(active, default, n)).push(
                    output_device(active, default, name@),
                ));
            } else {
                assert(first_occurrences(t) == prev);
                assert(devices_view(r@) =~= prev_r);
            }
            i = i + 1;
            assert(devices_view(r@) =~= first_occurrences(names.take(i as int)).map_values(
                |n: Seq<char>| output_device(active, default, n),
            ));
        }
        assert(names.take(names.len() as int) =~= names);
        let ghost head = devices_view(r@);
        let mut k: usize = 0;
        assert(ps.take(0) =~= Seq::<(Seq<char>, Seq<char>)>::empty());
        assert(devices_view(r@) =~= head + unseen_sinks(names, ps.take(0)).map_values(
            |x: (Seq<char>, Seq<char>)| sink_device(active, x),
        ));
        while k < sinks.len()
            invariant
                k <= sinks@.len(),
                names == strings_view(output_names@),
                ps == pairs_view(sinks@),
                active == crate::tts::types::opt_chars(self.active_device_name),
                devices_view(r@) == head + unseen_sinks(names, ps.take(k as int)).map_values(
                    |x: (Seq<char>, Seq<char>)| sink_device(active, x),
                ),
            decreases sinks@.len() - k,
        {
            let s = &sinks[k];
            let ghost t = ps.take(k + 1);
            assert(t.drop_last() =~= ps.take(k as int));
            assert(t.last() == (s.0@, s.1@));
            let in_names = name_before(output_names, output_names.len(), s.1.as_str());
            let before = sink_name_before(sinks, k, s.1.as_str());
            proof {
                assert(in_names == names.contains(s.1@)) by {
                    if names.contains(s.1@) {
                        let j = choose|j: int| 0 <= j < names.len() && names[j] == s.1@;
                        assert(occurs_before(names, s.1@, names.len() as int));
                    }
                    if occurs_before(names, s.1@, output_names@.len() as int) {
                        let j = choose|j: int| 0 <= j < output_names@.len() && names[j] == s.1@;
                        assert(names.contains(s.1@));
                    }
                }
                assert(before == exists|j: int| 0 <= j < t.len() - 1 && t[j].1 == t.last().1) by {
                    if before {
                        let j = choose|j: int| 0 <= j < k && ps[j].1 == s.1@;
                        assert(t[j] == ps[j]);
                    }
                    if exists|j: int| 0 <= j < t.len() - 1 && t[j].1 == t.last().1 {
                        let j = choose|j: int| 0 <= j < t.len() - 1 && t[j].1 == t.last().1;
                        assert(t[j] == ps[j]);
                    }
                }
            }
            let ghost prev = unseen_sinks(names, ps.take(k as int));
            let ghost prev_r = devices_view(r@);
            if !in_names && !before {
                let v = belongs_exec(&self.active_device_name, s.1.as_str());
                r.push(DeviceInfo { id: s.0.clone(), name: s.1.clone(), is_virtual: v, is_default: false, is_active: v });
                assert(unseen_sinks(names, t) == prev.push((s.0@, s.1@)));
                assert(devices_view(r@) =~= prev_r.push(sink_device(active, (s.0@, s.1@))));
                assert(prev.push((s.0@, s.1@)).map_values(|x: (Seq<char>, Seq<char>)| sink_device(active, x))
                    =~= prev.map_values(|x: (Seq<char>, Seq<char>)| sink_device(active, x)).push(
                    sink_device(active, (s.0@, s.1@)),
                ));
            } else {
                assert(unseen_sinks(names, t) == prev);
                assert(devices_view(r@) =~= prev_r);
            }
            k = k + 1;
            assert(devices_view(r@) =~= head + unseen_sinks(names, ps.take(k as int)).map_values(
                |x: (Seq<char>, Seq<char>)| sink_device(active, x),
            ));
        }
        assert(ps.take(ps.len() as int) =~= ps);
        r
    }
}

// ---------------------------------------------------------------------
// Creating, destroying and watching the device
// ---------------------------------------------------------------------

/// The message when PulseAudio cannot be reached.
pub open spec fn pulseaudio_unavailable_msg() -> Seq<char> {
    "PulseAudio is not available. Please ensure PulseAudio is installed and running."@
}

/// The sinks from the outcome of `pactl list sinks short`.
pub open spec fn sinks_outcome(o: CommandOutcome) -> Result<Seq<(Seq<char>, Seq<char>)>, Seq<char>> {
    match o {
        CommandOutcome::SpawnFailed(e) => Err("Failed to run pactl list sinks: "@ + e@),
        CommandOutcome::Failed { stderr } => Err("pactl list sinks failed: "@ + trim_spec(stderr@)),
        CommandOutcome::Succeeded { stdout } => Ok(pactl_sinks(stdout@)),
    }
}

/// The position of the first sink at or after `i` whose name holds `t`.
pub open spec fn first_sink_holding(sinks: Seq<(Seq<char>, Seq<char>)>, t: Seq<char>, i: int) -> Option<int>
    decreases sinks.len() - i,
{
    if i < 0 || i >= sinks.len() {
        None
    } else if contains_seq(sinks[i].1, t) {
        Some(i)
    } else {
        first_sink_holding(sinks, t, i + 1)
    }
}

/// The device a sink list shows for the active device: the first sink
/// whose name holds the active device's sink name.
pub open spec fn active_sink(active: Option<Seq<char>>, sinks: Seq<(Seq<char>, Seq<char>)>) -> Option<
    DeviceInfoView,
> {
    match active {
        None => None,
        Some(a) => match first_sink_holding(sinks, sink_name_of(a), 0) {
            Some(j) => Some(
                DeviceInfoView { id: sinks[j].0, name: a, is_virtual: true, is_default: false, is_active: true },
            ),
            None => None,
        },
    }
}

/// The status of the device: none active; active and still listed; or
/// active but gone.
pub open spec fn linux_status(active: Option<Seq<char>>, available: bool) -> (Seq<char>, bool, Option<Seq<char>>) {
    match active {
        None => (Seq::empty(), false, Some("No virtual device active"@)),
        Some(a) => if available {
            (a, true, None)
        } else {
            (
                a,
                false,
                Some(
                    "PulseAudio null-sink '"@ + a
                        + "' is no longer available (module may have been unloaded)"@,
                ),
            )
        },
    }
}

fn prefixed(prefix: &str, m: &str) -> (r: String)
    ensures
        r@ == prefix@ + m@,
{
    let mut r = to_owned_string(prefix);
    push_str(&mut r, m);
    r
}

/// The sinks from the outcome of `pactl list sinks short` (see
/// [`sinks_outcome`]).
pub fn sinks_from_output(o: &CommandOutcome) -> (r: Result<Vec<(String, String)>, DeviceError>)
    ensures
        match sinks_outcome(*o) {
            Ok(ps) => r matches Ok(v) && pairs_view(v@) == ps,
            Err(m) => r matches Err(DeviceError::NotFound(e)) && e@ == m,
        },
{
    match o {
        CommandOutcome::SpawnFailed(e) => Err(DeviceError::NotFound(prefixed("Failed to run pactl list sinks: ", e.as_str()))),
        CommandOutcome::Failed { stderr } => {
            let t = crate::text::trim_str(stderr.as_str());
            Err(DeviceError::NotFound(prefixed("pactl list sinks failed: ", t.as_str())))
        },
        CommandOutcome::Succeeded { stdout } => Ok(parse_pactl_sinks(stdout.as_str())),
    }
}

/// The error when PulseAudio cannot be reached.
pub fn pulseaudio_unavailable() -> (r: DeviceError)
    ensures
        r matches DeviceError::CreationFailed(m) && m@ == pulseaudio_unavailable_msg(),
{
    DeviceError::CreationFailed(
        to_owned_string("PulseAudio is not available. Please ensure PulseAudio is installed and running."),
    )
}

/// The arguments of `pactl` that load a null-sink for a device name.
pub fn load_module_args(name: &str) -> (r: Vec<String>)
    ensures
        strings_view(r@) == seq![
            "load-module"@,
            "module-null-sink"@,
            "sink_name="@ + sink_name_of(name@),
            "sink_properties=device.description="@ + name@,
        ],
{
    let sink = replace_char(name, ' ', '_');
    let mut r: Vec<String> = Vec::new();
    r.push(to_owned_string("load-module"));
    r.push(to_owned_string("module-null-sink"));
    r.push(prefixed("sink_name=", sink.as_str()));
    r.push(prefixed("sink_properties=device.description=", name));
    assert(strings_view(r@) =~= seq![
        "load-module"@,
        "module-null-sink"@,
        "sink_name="@ + sink_name_of(name@),
        "sink_properties=device.description="@ + name@,
    ]);
    r
}

/// The arguments of `pactl` that unload a module.
pub fn unload_module_args(module_id: u32) -> (r: Vec<String>)
    ensures
        strings_view(r@) == seq!["unload-module"@, crate::text::decimal(module_id as nat)],
{
    let mut r: Vec<String> = Vec::new();
    r.push(to_owned_string("unload-module"));
    r.push(crate::text::decimal_string(module_id as u64));
    assert(strings_view(r@) =~= seq!["unload-module"@, crate::text::decimal(module_id as nat)]);
    r
}

impl LinuxDeviceManager {
    /// Completes the creation of a device named `name` from the outcome of
    /// `pactl load-module` (run with [`load_module_args`]): on success the
    /// module number printed by `pactl` is kept and the device becomes the
    /// active one; otherwise nothing changes.
    pub fn finish_create(&mut self, name: &str, o: &CommandOutcome) -> (r: Result<DeviceInfo, DeviceError>)
        ensures
            match *o {
                CommandOutcome::SpawnFailed(e) => {
                    &&& *final(self) == *old(self)
                    &&& r matches Err(DeviceError::CreationFailed(m)) && m@ == "Failed to run pactl load-module: "@ + e@
                },
                CommandOutcome::Failed { stderr } => {
                    &&& *final(self) == *old(self)
                    &&& r matches Err(DeviceError::CreationFailed(m)) && m@ == "pactl load-module failed: "@ + trim_spec(
                        stderr@,
                    )
                },
                CommandOutcome::Succeeded { stdout } => match spec_parse_u32(trim_spec(stdout@)) {
                    Ok(id) => r matches Ok(d) && device_view(d) == (DeviceInfoView {
                        id: sink_name_of(name@),
                        name: name@,
                        is_virtual: true,
                        is_default: false,
                        is_active: true,
                    }) && final(self).module_id == Some(id) && crate::tts::types::opt_chars(
                        final(self).active_device_name,
                    ) == Some(name@),
                    Err(e) => {
                        &&& *final(self) == *old(self)
                        &&& r matches Err(DeviceError::CreationFailed(m)) && m@
                            == "Failed to parse module ID from pactl output '"@ + trim_spec(stdout@) + "': "@ + e
                    },
                },
            },
    {
        match o {
            CommandOutcome::SpawnFailed(e) => Err(
                DeviceError::CreationFailed(prefixed("Failed to run pactl load-module: ", e.as_str())),
            ),
            CommandOutcome::Failed { stderr } => {
                let t = crate::text::trim_str(stderr.as_str());
                Err(DeviceError::CreationFailed(prefixed("pactl load-module failed: ", t.as_str())))
            },
            CommandOutcome::Succeeded { stdout } => {
                let t = crate::text::trim_str(stdout.as_str());
                match parse_u32(t.as_str()) {
                    Ok(id) => {
                        self.active_device_name = Some(to_owned_string(name));
                        self.module_id = Some(id);
                        Ok(
                            DeviceInfo {
                                id: replace_char(name, ' ', '_'),
                                name: to_owned_string(name),
                                is_virtual: true,
                                is_default: false,
                                is_active: true,
                            },
                        )
                    },
                    Err(e) => {
                        let mut m = to_owned_string("Failed to parse module ID from pactl output '");
                        push_str(&mut m, t.as_str());
                        push_str(&mut m, "': ");
                        push_str(&mut m, e.as_str());
                        Err(DeviceError::CreationFailed(m))
                    },
                }
            },
        }
    }

    /// Takes the module to unload, if any: the manager no longer holds it.
    pub fn take_module(&mut self) -> (r: Option<u32>)
        ensures
            r == old(self).module_id,
            final(self).module_id is None,
            final(self).active_device_name == old(self).active_device_name,
    {
        let r = self.module_id;
        self.module_id = None;
        r
    }

    /// Completes the destruction of the device from the outcome of
    /// `pactl unload-module` (`None` where there was no module to unload).
    /// Only a `pactl` that could not be run is an error, and then the
    /// device stays active; a failed unload is taken as a module already
    /// gone.
    pub fn finish_destroy(&mut self, o: &Option<CommandOutcome>) -> (r: Result<(), DeviceError>)
        ensures
            final(self).module_id == old(self).module_id,
            match *o {
                Some(CommandOutcome::SpawnFailed(e)) => {
                    &&& final(self).active_device_name == old(self).active_device_name
                    &&& r matches Err(DeviceError::NotFound(m)) && m@ == "Failed to run pactl unload-module: "@ + e@
                },
                _ => final(self).active_device_name is None && r is Ok,
            },
    {
        match o {
            Some(CommandOutcome::SpawnFailed(e)) => Err(
                DeviceError::NotFound(prefixed("Failed to run pactl unload-module: ", e.as_str())),
            ),
            _ => {
                self.active_device_name = None;
                Ok(())
            },
        }
    }

    /// The device the sink list shows for the active device, if any (see
    /// [`active_sink`]).
    pub fn detect_in(&self, sinks: &[(String, String)]) -> (r: Option<DeviceInfo>)
        ensures
            match active_sink(crate::tts::types::opt_chars(self.active_device_name), pairs_view(sinks@)) {
                Some(d) => r matches Some(x) && device_view(x) == d,
                None => r is None,
            },
    {
        let ghost ps = pairs_view(sinks@);
        match &self.active_device_name {
            None => None,
            Some(a) => {
                let sink = replace_char(a.as_str(), ' ', '_');
                let mut j: usize = 0;
                while j < sinks.len()
                    invariant
                        j <= sinks@.len(),
                        ps == pairs_view(sinks@),
                        sink@ == sink_name_of(a@),
                        crate::tts::types::opt_chars(self.active_device_name) == Some(a@),
                        first_sink_holding(ps, sink_name_of(a@), 0) == first_sink_holding(
                            ps,
                            sink_name_of(a@),
                            j as int,
                        ),
                    decreases sinks@.len() - j,
                {
                    assert(ps[j as int].1 == sinks@[j as int].1@);
                    if str_contains(sinks[j].1.as_str(), sink.as_str()) {
                        assert(first_sink_holding(ps, sink_name_of(a@), j as int) == Some(j as int));
                        assert(ps[j as int].0 == sinks@[j as int].0@);
                        assert(crate::tts::types::opt_chars(self.active_device_name) == Some(a@));
                        assert(active_sink(Some(a@), ps) == Some(
                            DeviceInfoView {
                                id: ps[j as int].0,
                                name: a@,
                                is_virtual: true,
                                is_default: false,
                                is_active: true,
                            },
                        ));
                        return Some(
                            DeviceInfo {
                                id: sinks[j].0.clone(),
                                name: a.clone(),
                                is_virtual: true,
                                is_default: false,
                                is_active: true,
                            },
                        );
                    }
                    j = j + 1;
                }
                None
            },
        }
    }

    /// The status of the device, given whether it is still listed (see
    /// [`linux_status`]).
    pub fn status_with(&self, available: bool) -> (r: DeviceStatus)
        ensures
            (r.device_name@, r.is_active, crate::tts::types::opt_chars(r.error)) == linux_status(
                crate::tts::types::opt_chars(self.active_device_name),
                available,
            ),
            !r.is_default,
    {
        match &self.active_device_name {
            Some(name) => {
                if available {
                    DeviceStatus { device_name: name.clone(), is_active: true, is_default: false, error: None }
                } else {
                    let mut m = to_owned_string("PulseAudio null-sink '");
                    push_str(&mut m, name.as_str());
                    push_str(&mut m, "' is no longer available (module may have been unloaded)");
                    DeviceStatus { device_name: name.clone(), is_active: false, is_default: false, error: Some(m) }
                }
            },
            None => DeviceStatus {
                device_name: String::new(),
                is_active: false,
                is_default: false,
                error: Some(to_owned_string("No virtual device active")),
            },
        }
    }

    /// The status of the device from the sink list (consulted only while
    /// a device is active).
    pub fn get_status(&self, sinks: &[(String, String)]) -> (r: DeviceStatus)
        ensures
            (r.device_name@, r.is_active, crate::tts::types::opt_chars(r.error)) == linux_status(
                crate::tts::types::opt_chars(self.active_device_name),
                active_sink(crate::tts::types::opt_chars(self.active_device_name), pairs_view(sinks@)) is Some,
            ),
            !r.is_default,
    {
        let found = self.detect_in(sinks);
        self.status_with(found.is_some())
    }
}

impl VirtualDeviceManager for LinuxDeviceManager {
    open spec fn spec_active_device_name(&self) -> Option<Seq<char>> {
        crate::tts::types::opt_chars(self.active_device_name)
    }

    fn active_device_name(&self) -> (r: Option<String>) {
        crate::types::clone_opt_string(&self.active_device_name)
    }
}

} // verus!
