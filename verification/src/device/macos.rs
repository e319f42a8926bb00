//! macOS virtual devices: virtual audio drivers are installed system-wide
//! (BlackHole, Soundflower, ...) and cannot be created; the manager finds
//! one among the output devices the sound system lists.
use vstd::prelude::*;

use super::{device_view, devices_view, DeviceInfoView, VirtualDeviceManager};
use crate::error::DeviceError;
use crate::text::{contains_seq, push_str, str_contains, str_eq, to_owned_string};
use crate::tts::types::opt_chars;
use crate::types::{clone_opt_string, DeviceInfo, DeviceStatus};

verus! {

/// Known virtual audio device name patterns on macOS.
pub open spec fn virtual_device_patterns() -> Seq<Seq<char>> {
    seq!["BlackHole"@, "Soundflower"@, "Background Music"@, "Loopback"@, "Virtual"@]
}

/// A device name holds one of the known virtual device patterns.
pub open spec fn is_virtual_name(name: Seq<char>) -> bool {
    exists|i: int| 0 <= i < virtual_device_patterns().len() && contains_seq(name, virtual_device_patterns()[i])
}

/// The message when no virtual driver is installed.
pub open spec fn no_virtual_device_msg() -> Seq<char> {
    "No virtual audio device found on macOS. Please install BlackHole (https://existential.audio/blackhole/) or Soundflower to use virtual audio routing."@
}

/// macOS device manager that detects BlackHole / Soundflower.
pub struct MacOSDeviceManager {
    /// Name of the currently active virtual device, if any.
    pub active_device_name: Option<String>,
}

/// The entry of an output device.
pub open spec fn mac_device(active: Option<Seq<char>>, default: Option<Seq<char>>, name: Seq<char>) -> DeviceInfoView {
    DeviceInfoView {
        id: name,
        name,
        is_virtual: is_virtual_name(name),
        is_default: default == Some(name),
        is_active: active == Some(name),
    }
}

/// The position of the first virtual device at or after `i`.
pub open spec fn first_virtual(names: Seq<Seq<char>>, i: int) -> Option<int>
    decreases names.len() - i,
{
    if i < 0 || i >= names.len() {
        None
    } else if is_virtual_name(names[i]) {
        Some(i)
    } else {
        first_virtual(names, i + 1)
    }
}

/// The virtual device among the output devices: the first one whose name
/// holds a known pattern.
pub open spec fn mac_detect(active: Option<Seq<char>>, default: Option<Seq<char>>, names: Seq<Seq<char>>) -> Option<
    DeviceInfoView,
> {
    match first_virtual(names, 0) {
        Some(i) => Some(mac_device(active, default, names[i])),
        None => None,
    }
}

/// The status of the device: none active; active and still found; or
/// active but gone.
pub open spec fn mac_status(active: Option<Seq<char>>, available: bool) -> (Seq<char>, bool, Option<Seq<char>>) {
    match active {
        None => (Seq::empty(), false, Some("No virtual device active"@)),
        Some(a) => if available {
            (a, true, None)
        } else {
            (a, false, Some("Virtual device '"@ + a + "' is no longer available"@))
        },
    }
}

/// Whether a device name holds a known virtual device pattern.
pub fn is_virtual_device(name: &str) -> (r: bool)
    ensures
        r == is_virtual_name(name@),
{
    let patterns: [&str; 5] = ["BlackHole", "Soundflower", "Background Music", "Loopback", "Virtual"];
    proof {
        assert(patterns@.len() == 5);
    }
    let mut i: usize = 0;
    while i < 5
        invariant
            i <= 5,
            patterns@ == seq!["BlackHole", "Soundflower", "Background Music", "Loopback", "Virtual"],
            forall|j: int| 0 <= j < i ==> !contains_seq(name@, #[trigger] virtual_device_patterns()[j]),
        decreases 5 - i,
    {
        let p = patterns[i];
        assert(p@ == virtual_device_patterns()[i as int]);
        if str_contains(name, p) {
            return true;
        }
        i = i + 1;
    }
    false
}

fn opt_str_eq(o: &Option<String>, s: &str) -> (r: bool)
    ensures
        r == (opt_chars(*o) == Some(s@)),
{
    match o {
        Some(x) => str_eq(x.as_str(), s),
        None => false,
    }
}

fn device_entry(active: &Option<String>, default_output: &Option<String>, name: &String) -> (r: DeviceInfo)
    ensures
        device_view(r) == mac_device(opt_chars(*active), opt_chars(*default_output), name@),
{
    DeviceInfo {
        id: name.clone(),
        name: name.clone(),
        is_virtual: is_virtual_device(name.as_str()),
        is_default: opt_str_eq(default_output, name.as_str()),
        is_active: opt_str_eq(active, name.as_str()),
    }
}

impl MacOSDeviceManager {
    /// A manager with no device in use.
    pub fn new() -> (r: Self)
        ensures
            r.active_device_name is None,
    {
        MacOSDeviceManager { active_device_name: None }
    }

    /// Check whether a device name matches any known virtual audio device pattern.
    pub fn is_virtual_device(name: &str) -> (r: bool)
        ensures
            r == is_virtual_name(name@),
    {
        is_virtual_device(name)
    }

    /// The device list from the output devices the sound system lists (by
    /// name, in order) and its default output device.
    pub fn list_devices_from(&self, output_names: &[String], default_output: &Option<String>) -> (r: Vec<DeviceInfo>)
        ensures
            devices_view(r@) == super::linux::strings_view(output_names@).map_values(
                |n: Seq<char>| mac_device(opt_chars(self.active_device_name), opt_chars(*default_output), n),
            ),
    {
        let ghost active = opt_chars(self.active_device_name);
        let ghost default = opt_chars(*default_output);
        let ghost names = super::linux::strings_view(output_names@);
        let mut r: Vec<DeviceInfo> = Vec::new();
        let mut i: usize = 0;
        while i < output_names.len()
            invariant
                i <= output_names@.len(),
                names == super::linux::strings_view(output_names@),
                active == opt_chars(self.active_device_name),
                default == opt_chars(*default_output),
                r@.len() == i,
                forall|j: int| 0 <= j < i ==> device_view(#[trigger] r@[j]) == mac_device(active, default, names[j]),
            decreases output_names@.len() - i,
        {
            r.push(device_entry(&self.active_device_name, default_output, &output_names[i]));
            i = i + 1;
        }
        assert(devices_view(r@) =~= names.map_values(|n: Seq<char>| mac_device(active, default, n)));
        r
    }

    /// The virtual device among the output devices, if any (see
    /// [`mac_detect`]).
    pub fn detect_in(&self, output_names: &[String], default_output: &Option<String>) -> (r: Option<DeviceInfo>)
        ensures
            match mac_detect(
                opt_chars(self.active_device_name),
                opt_chars(*default_output),
                super::linux::strings_view(output_names@),
            ) {
                Some(d) => r matches Some(x) && device_view(x) == d,
                None => r is None,
            },
    {
        let ghost names = super::linux::strings_view(output_names@);
        let mut i: usize = 0;
        while i < output_names.len()
            invariant
                i <= output_names@.len(),
                names == super::linux::strings_view(output_names@),
                first_virtual(names, 0) == first_virtual(names, i as int),
            decreases output_names@.len() - i,
        {
            assert(names[i as int] == output_names@[i as int]@);
            if is_virtual_device(output_names[i].as_str()) {
                assert(first_virtual(names, i as int) == Some(i as int));
                let mut d = device_entry(&self.active_device_name, default_output, &output_names[i]);
                d.is_virtual = true;
                return Some(d);
            }
            i = i + 1;
        }
        None
    }

    /// Takes the virtual device found (if any) as the active device; fails
    /// where none was found.
    pub fn create_device_from(&mut self, found: Option<DeviceInfo>) -> (r: Result<DeviceInfo, DeviceError>)
        ensures
            match found {
                Some(d) => r matches Ok(x) && device_view(x) == (DeviceInfoView { is_active: true, ..device_view(d) })
                    && opt_chars(final(self).active_device_name) == Some(d.name@),
                None => {
                    &&& *final(self) == *old(self)
                    &&& r matches Err(DeviceError::CreationFailed(m)) && m@ == no_virtual_device_msg()
                },
            },
    {
        match found {
            Some(d) => {
                self.active_device_name = Some(d.name.clone());
                Ok(DeviceInfo { is_active: true, ..d })
            },
            None => Err(
                DeviceError::CreationFailed(
                    to_owned_string(
                        "No virtual audio device found on macOS. Please install BlackHole (https://existential.audio/blackhole/) or Soundflower to use virtual audio routing.",
                    ),
                ),
            ),
        }
    }

    /// Releases the device: only the reference is dropped.
    pub fn destroy_device(&mut self)
        ensures
            final(self).active_device_name is None,
    {
        self.active_device_name = None;
    }

    /// The status of the device, given the virtual device found now (see
    /// [`mac_status`]): it is available when one was found under its name.
    pub fn get_status(&self, found: &Option<DeviceInfo>) -> (r: DeviceStatus)
        ensures
            (r.device_name@, r.is_active, opt_chars(r.error)) == mac_status(
                opt_chars(self.active_device_name),
                match *found {
                    Some(d) => opt_chars(self.active_device_name) == Some(d.name@),
                    None => false,
                },
            ),
            !r.is_default,
    {
        match &self.active_device_name {
            Some(name) => {
                let available = match found {
                    Some(d) => str_eq(d.name.as_str(), name.as_str()),
                    None => false,
                };
                if available {
                    DeviceStatus { device_name: name.clone(), is_active: true, is_default: false, error: None }
                } else {
                    let mut m = to_owned_string("Virtual device '");
                    push_str(&mut m, name.as_str());
                    push_str(&mut m, "' is no longer available");
                    DeviceStatus { device_name: name.clone(), is_active: false, is_default: false, error: Some(m) }
                }
            },
            None => DeviceStatus {
                device_name: String::new(),
                is_active: false,
                is_default: false,
                error: Some(to_owned_string("No virtual device active")),
            },
        }
    }
}

impl VirtualDeviceManager for MacOSDeviceManager {
    open spec fn spec_active_device_name(&self) -> Option<Seq<char>> {
        opt_chars(self.active_device_name)
    }

    fn active_device_name(&self) -> (r: Option<String>) {
        clone_opt_string(&self.active_device_name)
    }
}


/// A device is virtual exactly when its name contains one of the known
/// virtual driver names: BlackHole, Soundflower, Background Music,
/// Loopback or Virtual.
pub proof fn law_virtual_names(name: Seq<char>)
    ensures
        is_virtual_name(name) == (contains_seq(name, "BlackHole"@) || contains_seq(name, "Soundflower"@)
            || contains_seq(name, "Background Music"@) || contains_seq(name, "Loopback"@) || contains_seq(
            name,
            "Virtual"@,
        )),
{
    let ps = virtual_device_patterns();
    assert(ps[0] == "BlackHole"@);
    assert(ps[1] == "Soundflower"@);
    assert(ps[2] == "Background Music"@);
    assert(ps[3] == "Loopback"@);
    assert(ps[4] == "Virtual"@);
}

proof fn lemma_first_virtual(names: Seq<Seq<char>>, i: int)
    requires
        0 <= i,
    ensures
        match first_virtual(names, i) {
            Some(k) => i <= k < names.len() && is_virtual_name(names[k]) && forall|j: int|
                i <= j < k ==> !is_virtual_name(#[trigger] names[j]),
            None => forall|j: int| i <= j < names.len() ==> !is_virtual_name(#[trigger] names[j]),
        },
    decreases names.len() - i,
{
    if i < names.len() && !is_virtual_name(names[i]) {
        lemma_first_virtual(names, i + 1);
    }
}

/// Detection finds the first listed output device that is virtual, as
/// its own entry, and finds nothing only when no listed device is virtual.
pub proof fn law_detect_finds_first_virtual(
    active: Option<Seq<char>>,
    default: Option<Seq<char>>,
    names: Seq<Seq<char>>,
)
    ensures
        match mac_detect(active, default, names) {
            Some(d) => exists|k: int|
                0 <= k < names.len() && d.name == #[trigger] names[k] && d.id == names[k] && d.is_virtual
                    && is_virtual_name(names[k]) && (forall|j: int| 0 <= j < k ==> !is_virtual_name(names[j]))
                    && d.is_default == (default == Some(names[k])) && d.is_active == (active == Some(names[k])),
            None => forall|j: int| 0 <= j < names.len() ==> !is_virtual_name(#[trigger] names[j]),
        },
{
    lemma_first_virtual(names, 0);
}

} // verus!
