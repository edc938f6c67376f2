//! Operating modes of the device and their wire form.
use vstd::prelude::*;

verus! {

/// Who decides the device's sensitivity.
#[derive(Debug, Clone, Copy, PartialEq, Eq, Structural)]
pub enum DeviceMode {
    /// The device uses its own firmware defaults.
    Unmanaged,
    /// The device accepts sensitivity values from the host.
    Managed,
}

/// The code that the first byte of the `device_mode` file holds for a mode.
pub open spec fn mode_code(mode: DeviceMode) -> u8 {
    match mode {
        DeviceMode::Unmanaged => 0x00,
        DeviceMode::Managed => 0x03,
    }
}

/// The two bytes written to the `device_mode` file: the mode code, then a
/// reserved byte that is always zero.
pub open spec fn mode_bytes(mode: DeviceMode) -> Seq<u8> {
    seq![mode_code(mode), 0x00u8]
}

impl DeviceMode {
    /// The wire form of the mode.
    pub fn encode(self) -> (r: [u8; 2])
        ensures
            r@ == mode_bytes(self),
    {
        let first: u8 = match self {
            DeviceMode::Unmanaged => 0x00,
            DeviceMode::Managed => 0x03,
        };
        let r: [u8; 2] = [first, 0x00];
        assert(r@ =~= mode_bytes(self));
        r
    }
}

impl Default for DeviceMode {
    fn default() -> (r: DeviceMode)
        ensures
            r == DeviceMode::Unmanaged,
    {
        DeviceMode::Unmanaged
    }
}

} // verus!
