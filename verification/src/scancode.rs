use vstd::prelude::*;
use crate::keyboard::lower_table;

verus! {

/// The character that the shell kernels echo for a set-1 make code: digits,
/// lower-case letters, space, newline (Enter) and backspace (8).
pub open spec fn scancode_ascii(scancode: u8) -> Option<u8> {
    if 0x02 <= scancode <= 0x0A {
        Some((scancode + 47) as u8)
    } else {
        match scancode {
            0x0B => Some(48u8),
            0x10 => Some(113u8),
            0x11 => Some(119u8),
            0x12 => Some(101u8),
            0x13 => Some(114u8),
            0x14 => Some(116u8),
            0x15 => Some(121u8),
            0x16 => Some(117u8),
            0x17 => Some(105u8),
            0x18 => Some(111u8),
            0x19 => Some(112u8),
            0x1E => Some(97u8),
            0x1F => Some(115u8),
            0x20 => Some(100u8),
            0x21 => Some(102u8),
            0x22 => Some(103u8),
            0x23 => Some(104u8),
            0x24 => Some(106u8),
            0x25 => Some(107u8),
            0x26 => Some(108u8),
            0x2C => Some(122u8),
            0x2D => Some(120u8),
            0x2E => Some(99u8),
            0x2F => Some(118u8),
            0x30 => Some(98u8),
            0x31 => Some(110u8),
            0x32 => Some(109u8),
            0x39 => Some(32u8),
            0x1C => Some(10u8),
            0x0E => Some(8u8),
            _ => None,
        }
    }
}

/// Translates a set-1 make code to the character the shell echoes, if any.
pub fn scancode_to_ascii(scancode: u8) -> (r: Option<u8>)
    ensures
        r == scancode_ascii(scancode),
{
    if 0x02 <= scancode && scancode <= 0x0A {
        // the digits 1 to 9 follow one another from scan code 2
        Some(scancode + 47)
    } else {
        match scancode {
            0x0B => Some(48),
            0x10 => Some(113),
            0x11 => Some(119),
            0x12 => Some(101),
            0x13 => Some(114),
            0x14 => Some(116),
            0x15 => Some(121),
            0x16 => Some(117),
            0x17 => Some(105),
            0x18 => Some(111),
            0x19 => Some(112),
            0x1E => Some(97),
            0x1F => Some(115),
            0x20 => Some(100),
            0x21 => Some(102),
            0x22 => Some(103),
            0x23 => Some(104),
            0x24 => Some(106),
            0x25 => Some(107),
            0x26 => Some(108),
            0x2C => Some(122),
            0x2D => Some(120),
            0x2E => Some(99),
            0x2F => Some(118),
            0x30 => Some(98),
            0x31 => Some(110),
            0x32 => Some(109),
            0x39 => Some(32),
            0x1C => Some(10),
            0x0E => Some(8),
            _ => None,
        }
    }
}

/// The shells echo the same character for a key as the keyboard driver gives
/// for it without shift: every key the shells echo is in the driver's table,
/// with the same character.
pub proof fn lemma_echo_agrees_with_keyboard(c: u8)
    ensures
        scancode_ascii(c) matches Some(x) ==> c < 58 && x == lower_table()[c as int],
{
}

/// No two keys echo the same character.
pub proof fn lemma_echo_distinct(c: u8, d: u8)
    requires
        c != d,
        scancode_ascii(c) is Some,
    ensures
        scancode_ascii(c) != scancode_ascii(d),
{
}

/// The shells echo every digit and every lower-case letter from some key.
pub proof fn lemma_echo_covers_digits_and_letters(ch: u8)
    requires
        48 <= ch <= 57 || 97 <= ch <= 122,
    ensures
        exists|c: u8| #[trigger] scancode_ascii(c) == Some(ch),
{
    if 49 <= ch <= 57 {
        assert(scancode_ascii((ch - 47) as u8) == Some(ch));
    } else {
        let keys = seq![
            0x0Bu8, 0x1Eu8, 0x30u8, 0x2Eu8, 0x20u8, 0x12u8, 0x21u8, 0x22u8, 0x23u8, 0x17u8, 0x24u8, 0x25u8, 0x26u8,
            0x32u8, 0x31u8, 0x18u8, 0x19u8, 0x10u8, 0x13u8, 0x1Fu8, 0x14u8, 0x16u8, 0x2Fu8, 0x11u8, 0x2Du8, 0x15u8, 0x2Cu8,
        ];
        let k = if ch == 48 { 0 } else { ch - 96 };
        assert(scancode_ascii(keys[k as int]) == Some(ch));
    }
}

/// The character that the shell loop echoes for a byte read from the keyboard
/// data port: releases (0x80 and above) and unmapped keys give nothing.
pub open spec fn echo_spec(scancode: u8) -> Option<u8> {
    if scancode < 0x80 {
        scancode_ascii(scancode)
    } else {
        None
    }
}

/// The character to echo for a byte read from the keyboard data port.
pub fn key_echo(scancode: u8) -> (r: Option<u8>)
    ensures
        r == echo_spec(scancode),
{
    if scancode < 0x80 {
        scancode_to_ascii(scancode)
    } else {
        None
    }
}

/// Whether a byte read from the keyboard status port says that a byte waits
/// in the data port (bit 0).
pub fn output_full(status: u8) -> (r: bool)
    ensures
        r == (status & 1 != 0),
{
    status & 1 != 0
}

} // verus!
