use vstd::prelude::*;
use crate::port::{PortWrite, port_write};

verus! {

/// The input clock of the programmable interval timer, in Hz.
pub const PIT_FREQUENCY: u32 = 1193180;

/// The pitch of the speaker test, in Hz.
pub const TEST_TONE_HZ: u32 = 440;

/// How many idle loops the test tone lasts.
pub const TONE_LOOPS: u32 = 5000000;

/// The timer divisor that makes a tone of `freq` Hz.
pub open spec fn pit_divisor(freq: u32) -> int {
    1193180int / (freq as int)
}

/// The writes that set timer channel 2 to a square wave of `freq` Hz: the mode
/// byte, then the low and high byte of the divisor.
pub open spec fn tone_writes_spec(freq: u32) -> Seq<PortWrite> {
    seq![
        port_write(0x43, 0xB6),
        port_write(0x42, (pit_divisor(freq) % 256) as u8),
        port_write(0x42, ((pit_divisor(freq) / 256) % 256) as u8),
    ]
}

/// The writes that tune the speaker to `freq` Hz.
pub fn tone_writes(freq: u32) -> (w: Vec<PortWrite>)
    requires
        freq > 0,
    ensures
        w@ == tone_writes_spec(freq),
{
    let div = PIT_FREQUENCY / freq;
    let mut w: Vec<PortWrite> = Vec::new();
    w.push(PortWrite { port: 0x43, value: 0xB6 });
    w.push(PortWrite { port: 0x42, value: (div % 256) as u8 });
    w.push(PortWrite { port: 0x42, value: ((div / 256) % 256) as u8 });
    assert(w@ =~= tone_writes_spec(freq));
    w
}

/// Given the speaker control byte (port 0x61), the byte to write back to
/// connect the speaker to the timer: the byte with its two low bits set, or
/// nothing when they already are.
pub fn speaker_on(control: u8) -> (r: Option<u8>)
    ensures
        r == (if control | 3 != control { Some(control | 3) } else { None::<u8> }),
        r matches Some(v) ==> v & 3 == 3 && v & 0xFC == control & 0xFC,
{
    let on = control | 3;
    assert(on & 3 == 3 && on & 0xFC == control & 0xFC) by (bit_vector)
        requires on == control | 3;
    if control != on {
        Some(on)
    } else {
        None
    }
}

/// Given the speaker control byte, the byte that silences the speaker: its two
/// low bits cleared, the others kept.
pub fn speaker_off(control: u8) -> (r: u8)
    ensures
        r == control & 0xFC,
        r & 3 == 0,
        r | 3 == control | 3,
{
    let off = control & 0xFC;
    assert(off & 3 == 0 && off | 3 == control | 3) by (bit_vector)
        requires off == control & 0xFC;
    off
}

} // verus!
