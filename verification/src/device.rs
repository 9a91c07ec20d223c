//! Records of the device catalogue and of the capture configuration.

use vstd::prelude::*;

verus! {

/// Direction of an audio device.
#[derive(Clone, Copy, Debug, PartialEq, Eq, Structural)]
pub enum DeviceType {
    Input,
    Output,
}

/// Identity record of one host audio device, as of one enumeration.
#[derive(Clone, Debug)]
pub struct AudioDevice {
    /// Derived from direction and name; see [`device_id`].
    pub id: String,
    /// Display name; an input and an output may share one.
    pub name: String,
    pub device_type: DeviceType,
    /// Whether the name marks a virtual (software-only) device.
    pub is_virtual: bool,
    /// Whether the device was the host's default of its direction when the
    /// snapshot was taken.
    pub is_default: bool,
}

/// Mathematical value of an [`AudioDevice`].
pub struct AudioDeviceView {
    pub id: Seq<char>,
    pub name: Seq<char>,
    pub device_type: DeviceType,
    pub is_virtual: bool,
    pub is_default: bool,
}

impl View for AudioDevice {
    type V = AudioDeviceView;

    open spec fn view(&self) -> AudioDeviceView {
        AudioDeviceView {
            id: self.id@,
            name: self.name@,
            device_type: self.device_type,
            is_virtual: self.is_virtual,
            is_default: self.is_default,
        }
    }
}

/// The views of a list of devices, in order.
pub open spec fn device_views(devices: Seq<AudioDevice>) -> Seq<AudioDeviceView> {
    devices.map_values(|d: AudioDevice| d@)
}

impl AudioDevice {
    /// A copy of the record.
    pub fn duplicate(&self) -> (copy: AudioDevice)
        ensures
            copy@ == self@,
    {
        AudioDevice {
            id: self.id.clone(),
            name: self.name.clone(),
            device_type: self.device_type,
            is_virtual: self.is_virtual,
            is_default: self.is_default,
        }
    }
}

/// Capture target parameters.  They are read when a session starts; a change
/// reaches a running session only through stop and start.
#[derive(Clone, Copy, Debug, PartialEq, Eq, Structural)]
pub struct AudioConfig {
    /// Target sample rate in Hz.
    pub sample_rate: u32,
    /// Target channel count.
    pub channels: u16,
    /// Requested buffer size in frames; the hardware may clamp it.
    pub buffer_size: u32,
}

impl AudioConfig {
    /// All three parameters are positive.
    pub open spec fn spec_is_valid(&self) -> bool {
        self.sample_rate > 0 && self.channels > 0 && self.buffer_size > 0
    }

    /// Whether all three parameters are positive.
    #[verifier::when_used_as_spec(spec_is_valid)]
    pub fn is_valid(&self) -> (r: bool)
        ensures
            r == self.spec_is_valid(),
    {
        self.sample_rate > 0 && self.channels > 0 && self.buffer_size > 0
    }
}

impl Default for AudioConfig {
    /// 16 kHz mono with 1024-frame buffers.
    fn default() -> (config: AudioConfig)
        ensures
            config == (AudioConfig { sample_rate: 16000, channels: 1, buffer_size: 1024 }),
            config.is_valid(),
    {
        AudioConfig { sample_rate: 16000, channels: 1, buffer_size: 1024 }
    }
}

/// Native format of an input device, as the host reports it.
#[derive(Clone, Copy, Debug, PartialEq, Eq, Structural)]
pub struct DeviceFormat {
    /// Native sample rate in Hz.
    pub sample_rate: u32,
    /// Native channel count.
    pub channels: u16,
}

} // verus!
