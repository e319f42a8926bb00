//! Virtual audio devices: on Linux a PulseAudio null-sink created for the
//! tool, on macOS a pre-installed virtual driver (BlackHole, Soundflower).
use vstd::prelude::*;

use crate::types::{DeviceInfo, DeviceStatus};

pub mod linux;
pub mod macos;

verus! {

/// What running an external command came to.
#[derive(Debug)]
pub enum CommandOutcome {
    /// The command could not be run; the message of the error.
    SpawnFailed(String),
    /// The command ran and failed; what it wrote on standard error.
    Failed { stderr: String },
    /// The command ran and succeeded; what it wrote on standard output.
    Succeeded { stdout: String },
}

/// The abstract value of a [`DeviceInfo`].
pub struct DeviceInfoView {
    pub id: Seq<char>,
    pub name: Seq<char>,
    pub is_virtual: bool,
    pub is_default: bool,
    pub is_active: bool,
}

/// The abstract value of a [`DeviceInfo`].
pub open spec fn device_view(d: DeviceInfo) -> DeviceInfoView {
    DeviceInfoView { id: d.id@, name: d.name@, is_virtual: d.is_virtual, is_default: d.is_default, is_active: d.is_active }
}

/// The abstract values of a list of devices.
pub open spec fn devices_view(s: Seq<DeviceInfo>) -> Seq<DeviceInfoView> {
    s.map_values(|d: DeviceInfo| device_view(d))
}

/// Platform-agnostic virtual device manager.
pub trait VirtualDeviceManager {
    /// The name of the active virtual device, if any.
    spec fn spec_active_device_name(&self) -> Option<Seq<char>>;

    /// Get the name of the currently active virtual device.
    fn active_device_name(&self) -> (r: Option<String>)
        ensures
            crate::tts::types::opt_chars(r) == self.spec_active_device_name();
}

/// The platforms with a device manager.
#[derive(Debug, Clone, Copy, PartialEq, Eq, Structural)]
pub enum Platform {
    Linux,
    MacOS,
}

/// The device manager of a platform.
pub enum DeviceManager {
    Linux(linux::LinuxDeviceManager),
    MacOS(macos::MacOSDeviceManager),
}

/// Create the device manager of the platform, with no device in use.
pub fn create_device_manager(platform: Platform) -> (r: DeviceManager)
    ensures
        match platform {
            Platform::Linux => r matches DeviceManager::Linux(m) && m.active_device_name is None
                && m.module_id is None,
            Platform::MacOS => r matches DeviceManager::MacOS(m) && m.active_device_name is None,
        },
{
    match platform {
        Platform::Linux => DeviceManager::Linux(linux::LinuxDeviceManager::new()),
        Platform::MacOS => DeviceManager::MacOS(macos::MacOSDeviceManager::new()),
    }
}

impl VirtualDeviceManager for DeviceManager {
    open spec fn spec_active_device_name(&self) -> Option<Seq<char>> {
        match self {
            DeviceManager::Linux(m) => m.spec_active_device_name(),
            DeviceManager::MacOS(m) => m.spec_active_device_name(),
        }
    }

    fn active_device_name(&self) -> (r: Option<String>) {
        match self {
            DeviceManager::Linux(m) => m.active_device_name(),
            DeviceManager::MacOS(m) => m.active_device_name(),
        }
    }
}

/// Marks the active device as the default input device when its id is
/// `device_id`; otherwise nothing changes.
pub fn set_default_input_device(active: &mut Option<DeviceInfo>, device_id: &str)
    ensures
        match *old(active) {
            Some(d) => if d.id@ == device_id@ {
                *final(active) == Some(DeviceInfo { is_default: true, ..d })
            } else {
                *final(active) == *old(active)
            },
            None => *final(active) is None,
        },
{
    match active {
        Some(d) => {
            if crate::text::str_eq(d.id.as_str(), device_id) {
                d.is_default = true;
            }
        },
        None => {},
    }
}

} // verus!
