//! Virtual audio drivers: which one belongs to a platform, and what a probe
//! of the system amounts to.

use vstd::prelude::*;
use vstd::string::StringExecFns;
use crate::platform::Platform;
use crate::text::string_views;

verus! {

/// Detection of the virtual audio driver that each platform uses.
pub struct VirtualAudioDriverInstaller;

impl VirtualAudioDriverInstaller {
    /// The virtual audio driver of a platform.
    pub open spec fn driver_name(platform: Platform) -> Seq<char> {
        match platform {
            Platform::Windows => "VB-Audio Cable"@,
            Platform::MacOS => "BlackHole"@,
            Platform::Linux => "PulseAudio Virtual"@,
        }
    }

    /// The virtual audio driver of a platform.
    pub fn driver_for(platform: Platform) -> (name: String)
        ensures
            name@ == Self::driver_name(platform),
    {
        match platform {
            Platform::Windows => String::from_str("VB-Audio Cable"),
            Platform::MacOS => String::from_str("BlackHole"),
            Platform::Linux => String::from_str("PulseAudio Virtual"),
        }
    }

    /// The virtual audio drivers that are installed: the platform's driver
    /// where the probe of the system found it, else none.  `found` is what
    /// the caller's probe for the platform's driver returned.
    pub fn detect_installed_drivers(platform: Platform, found: bool) -> (drivers: Vec<String>)
        ensures
            found ==> string_views(drivers@) == seq![Self::driver_name(platform)],
            !found ==> drivers@.len() == 0,
    {
        let mut drivers: Vec<String> = Vec::new();
        if found {
            drivers.push(Self::driver_for(platform));
            proof {
                assert(string_views(drivers@) =~= seq![Self::driver_name(platform)]);
            }
        }
        drivers
    }
}

} // verus!
