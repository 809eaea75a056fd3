use vstd::prelude::*;

verus! {

/// The number of make codes the keyboard driver translates.
pub const TABLE_LEN: usize = 58;

/// The character of each make code below 58 without shift (US layout; 0 where
/// the key has none).
pub open spec fn lower_table() -> Seq<u8> {
    seq![0u8, 27u8, 49u8, 50u8, 51u8, 52u8, 53u8, 54u8, 55u8, 56u8, 57u8, 48u8, 45u8, 61u8, 8u8, 9u8, 113u8, 119u8, 101u8, 114u8, 116u8, 121u8, 117u8, 105u8, 111u8, 112u8, 91u8, 93u8, 10u8, 0u8, 97u8, 115u8, 100u8, 102u8, 103u8, 104u8, 106u8, 107u8, 108u8, 59u8, 39u8, 96u8, 0u8, 92u8, 122u8, 120u8, 99u8, 118u8, 98u8, 110u8, 109u8, 44u8, 46u8, 47u8, 0u8, 42u8, 0u8, 32u8]
}

/// The character of each make code below 58 with shift held.
pub open spec fn upper_table() -> Seq<u8> {
    seq![0u8, 27u8, 33u8, 64u8, 35u8, 36u8, 37u8, 94u8, 38u8, 42u8, 40u8, 41u8, 95u8, 43u8, 8u8, 9u8, 81u8, 87u8, 69u8, 82u8, 84u8, 89u8, 85u8, 73u8, 79u8, 80u8, 123u8, 125u8, 10u8, 0u8, 65u8, 83u8, 68u8, 70u8, 71u8, 72u8, 74u8, 75u8, 76u8, 58u8, 34u8, 126u8, 0u8, 124u8, 90u8, 88u8, 67u8, 86u8, 66u8, 78u8, 77u8, 60u8, 62u8, 63u8, 0u8, 42u8, 0u8, 32u8]
}

/// What the driver does after it reads the controller status byte.
#[derive(Clone, Copy, Debug, PartialEq, Eq, Structural)]
pub enum KeyPoll {
    /// No byte waits: the key is 0.
    NoData,
    /// The waiting byte comes from the mouse: read it, drop it; the key is 0.
    DiscardAux,
    /// A keyboard byte waits: read it and decode it.
    ReadScancode,
}

/// The action for a status byte: bit 0 says a byte waits, bit 5 that it
/// comes from the mouse.
pub open spec fn poll_spec(status: u8) -> KeyPoll {
    if status & 1 == 0 {
        KeyPoll::NoData
    } else if status & 0x20 != 0 {
        KeyPoll::DiscardAux
    } else {
        KeyPoll::ReadScancode
    }
}

/// What a scan code does to the shift flag, and the character it gives.
///
/// Pressing either shift key sets the flag and releasing either clears it,
/// giving 0; other releases (0x80 and above) give 0; other make codes give
/// their character from the table that the flag picks, and 0 past the table.
pub open spec fn decode_spec(shift: bool, scancode: u8) -> (bool, u8) {
    if scancode == 0x2A || scancode == 0x36 {
        (true, 0)
    } else if scancode == 0xAA || scancode == 0xB6 {
        (false, 0)
    } else if scancode >= 0x80 {
        (shift, 0)
    } else if scancode < 58 {
        (shift, if shift { upper_table()[scancode as int] } else { lower_table()[scancode as int] })
    } else {
        (shift, 0)
    }
}

/// The action for a status byte read from the keyboard controller.
pub fn poll_action(status: u8) -> (r: KeyPoll)
    ensures
        r == poll_spec(status),
{
    if status & 1 == 0 {
        KeyPoll::NoData
    } else if status & 0x20 != 0 {
        KeyPoll::DiscardAux
    } else {
        KeyPoll::ReadScancode
    }
}

/// The character of make code `idx` in the table that `shift` picks.
fn table_char(shift: bool, idx: usize) -> (r: u8)
    requires
        idx < 58,
    ensures
        r == (if shift { upper_table()[idx as int] } else { lower_table()[idx as int] }),
{
    let lower: [u8; TABLE_LEN] = [0, 27, 49, 50, 51, 52, 53, 54, 55, 56, 57, 48, 45, 61, 8, 9, 113, 119, 101, 114, 116, 121, 117, 105, 111, 112, 91, 93, 10, 0, 97, 115, 100, 102, 103, 104, 106, 107, 108, 59, 39, 96, 0, 92, 122, 120, 99, 118, 98, 110, 109, 44, 46, 47, 0, 42, 0, 32];
    let upper: [u8; TABLE_LEN] = [0, 27, 33, 64, 35, 36, 37, 94, 38, 42, 40, 41, 95, 43, 8, 9, 81, 87, 69, 82, 84, 89, 85, 73, 79, 80, 123, 125, 10, 0, 65, 83, 68, 70, 71, 72, 74, 75, 76, 58, 34, 126, 0, 124, 90, 88, 67, 86, 66, 78, 77, 60, 62, 63, 0, 42, 0, 32];
    assert(lower@ =~= lower_table());
    assert(upper@ =~= upper_table());
    if shift {
        upper[idx]
    } else {
        lower[idx]
    }
}

/// The letter keys: without shift each gives the lower-case form of the
/// capital it gives with shift, and with shift the capital of the letter it
/// gives without.
pub proof fn lemma_letter_keys_change_case(c: int)
    requires
        0 <= c < 58,
    ensures
        65 <= upper_table()[c] <= 90 ==> lower_table()[c] == upper_table()[c] + 32,
        97 <= lower_table()[c] <= 122 ==> upper_table()[c] == lower_table()[c] - 32,
{
}

/// No two keys type the same letter: the table without shift gives each
/// letter for one key only, and so does the table with shift.
pub proof fn lemma_letter_keys_distinct(c: int, d: int)
    requires
        0 <= c < 58,
        0 <= d < 58,
        c != d,
    ensures
        97 <= lower_table()[c] <= 122 ==> lower_table()[c] != lower_table()[d],
        65 <= upper_table()[c] <= 90 ==> upper_table()[c] != upper_table()[d],
{
}

/// All 26 letters can be typed: each lower-case letter is on some key.
pub proof fn lemma_every_letter_has_a_key(ch: u8)
    requires
        97 <= ch <= 122,
    ensures
        exists|c: int| 0 <= c < 58 && #[trigger] lower_table()[c] == ch,
{
    let t = lower_table();
    assert(t[16] == 113 && t[17] == 119 && t[18] == 101 && t[19] == 114 && t[20] == 116);
    assert(t[21] == 121 && t[22] == 117 && t[23] == 105 && t[24] == 111 && t[25] == 112);
    assert(t[30] == 97 && t[31] == 115 && t[32] == 100 && t[33] == 102 && t[34] == 103);
    assert(t[35] == 104 && t[36] == 106 && t[37] == 107 && t[38] == 108);
    assert(t[44] == 122 && t[45] == 120 && t[46] == 99 && t[47] == 118 && t[48] == 98);
    assert(t[49] == 110 && t[50] == 109);
}

/// Holding shift picks the upper table and releasing it the lower one, for any
/// key in the table other than the shift keys, whatever the state before; such
/// a key leaves the shift state as it was.
pub proof fn lemma_shift_selects_table(shift: bool, c: u8)
    requires
        c < 58,
        c != 0x2A,
        c != 0x36,
    ensures
        decode_spec(decode_spec(shift, 0x2A).0, c).1 == upper_table()[c as int],
        decode_spec(decode_spec(shift, 0x36).0, c).1 == upper_table()[c as int],
        decode_spec(decode_spec(shift, 0xAA).0, c).1 == lower_table()[c as int],
        decode_spec(decode_spec(shift, 0xB6).0, c).1 == lower_table()[c as int],
        decode_spec(shift, c).0 == shift,
{
}

/// A release of any key but shift changes nothing and gives no character.
pub proof fn lemma_release_gives_nothing(shift: bool, c: u8)
    requires
        c >= 0x80,
        c != 0xAA,
        c != 0xB6,
    ensures
        decode_spec(shift, c) == (shift, 0u8),
{
}

/// The keyboard driver: whether a shift key is held.
pub struct Keyboard {
    shift_pressed: bool,
}

impl Keyboard {
    /// The driver with no shift key held.
    pub fn new() -> (k: Keyboard)
        ensures
            !k.shift(),
    {
        Keyboard { shift_pressed: false }
    }

    /// Whether a shift key is held.
    pub closed spec fn shift(&self) -> bool {
        self.shift_pressed
    }

    /// Whether a shift key is held.
    pub fn shift_pressed(&self) -> (r: bool)
        ensures
            r == self.shift(),
    {
        self.shift_pressed
    }

    /// Decodes a byte read from the keyboard data port: the character it gives,
    /// or 0, and the new state of the shift flag.
    pub fn decode_scancode(&mut self, scancode: u8) -> (r: u8)
        ensures
            (final(self).shift(), r) == decode_spec(old(self).shift(), scancode),
    {
        if scancode == 0x2A || scancode == 0x36 {
            self.shift_pressed = true;
            return 0;
        }
        if scancode == 0xAA || scancode == 0xB6 {
            self.shift_pressed = false;
            return 0;
        }
        if scancode >= 0x80 {
            return 0;
        }
        let idx = scancode as usize;
        if idx < TABLE_LEN {
            return table_char(self.shift_pressed, idx);
        }
        0
    }
}

} // verus!
