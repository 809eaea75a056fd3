use vstd::prelude::*;
use crate::port::{PortWrite, port_write};

verus! {

/// The register that takes the screen brightness.
pub const BRIGHTNESS_REGISTER: u16 = 0x3C8;

/// The port of the sound card that takes the volume.
pub const VOLUME_PORT: u16 = 0x220;

/// The register write that sets the screen brightness to `val`.
pub fn set_brightness(val: u8) -> (w: PortWrite)
    ensures
        w == port_write(0x3C8, val),
{
    PortWrite { port: BRIGHTNESS_REGISTER, value: val }
}

/// The port write that sets the sound volume to `val`.
pub fn set_volume(val: u8) -> (w: PortWrite)
    ensures
        w == port_write(0x220, val),
{
    PortWrite { port: VOLUME_PORT, value: val }
}

} // verus!
