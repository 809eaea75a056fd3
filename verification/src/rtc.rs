use vstd::prelude::*;

verus! {

/// The RTC register that holds the hours.
pub const HOURS_REGISTER: u8 = 0x04;

/// The RTC register that holds the minutes.
pub const MINUTES_REGISTER: u8 = 0x02;

/// The value of a binary-coded-decimal byte: ten times the high nibble plus the low one.
pub open spec fn bcd_value(b: u8) -> int {
    (b % 16) + (b / 16) * 10
}

/// The ASCII digit for `d`, counted from '0'.
pub open spec fn digit(d: int) -> u8 {
    (48 + d) as u8
}

/// The clock text `HH:MM` for the RTC's BCD hours and minutes.
pub open spec fn time_text(h: u8, m: u8) -> Seq<u8> {
    seq![
        digit(bcd_value(h) / 10),
        digit(bcd_value(h) % 10),
        58u8,
        digit(bcd_value(m) / 10),
        digit(bcd_value(m) % 10),
    ]
}

/// The value of a BCD byte from the RTC.
pub fn bcd_to_binary(b: u8) -> (r: u8)
    ensures
        r == bcd_value(b),
{
    assert(b & 0x0F == b % 16) by (bit_vector);
    (b & 0x0F) + ((b / 16) * 10)
}

/// The clock text `HH:MM` for the hours and minutes registers of the RTC, in BCD.
pub fn get_time(hours: u8, minutes: u8) -> (text: [u8; 5])
    ensures
        text@ == time_text(hours, minutes),
{
    let h = bcd_to_binary(hours);
    let m = bcd_to_binary(minutes);
    let text: [u8; 5] = [48 + (h / 10), 48 + (h % 10), 58, 48 + (m / 10), 48 + (m % 10)];
    assert(text@ =~= time_text(hours, minutes));
    text
}

/// For a well-formed BCD time, the text shows the BCD digits the RTC holds:
/// the high and low nibble of the hours, a colon, and those of the minutes.
pub proof fn lemma_time_shows_bcd_digits(h: u8, m: u8)
    requires
        h % 16 <= 9,
        h / 16 <= 9,
        m % 16 <= 9,
        m / 16 <= 9,
    ensures
        time_text(h, m) == seq![
            (48 + h / 16) as u8,
            (48 + h % 16) as u8,
            58u8,
            (48 + m / 16) as u8,
            (48 + m % 16) as u8,
        ],
{
    assert(time_text(h, m) =~= seq![
        (48 + h / 16) as u8,
        (48 + h % 16) as u8,
        58u8,
        (48 + m / 16) as u8,
        (48 + m % 16) as u8,
    ]);
}

} // verus!
