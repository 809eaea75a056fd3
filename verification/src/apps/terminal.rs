use vstd::prelude::*;

verus! {

/// How many key presses the key logger shows before it returns.
pub const KEYS_TO_LOG: u8 = 3;

/// The upper-case hexadecimal digit for `n` below 16.
pub open spec fn hex_digit(n: int) -> u8 {
    if n < 10 { (48 + n) as u8 } else { (55 + n) as u8 }
}

/// The two upper-case hexadecimal digits of `b`.
pub open spec fn hex_spec(b: u8) -> Seq<u8> {
    seq![hex_digit(b as int / 16), hex_digit(b as int % 16)]
}

/// The two upper-case hexadecimal digits of `b`.
pub fn hex_byte(b: u8) -> (r: [u8; 2])
    ensures
        r@ == hex_spec(b),
{
    let hi = b / 16;
    let lo = b % 16;
    let h: u8 = if hi < 10 { 48 + hi } else { 55 + hi };
    let l: u8 = if lo < 10 { 48 + lo } else { 55 + lo };
    let r: [u8; 2] = [h, l];
    assert(r@ =~= hex_spec(b));
    r
}

/// The terminal's key logger: how many key presses it has shown.
pub struct KeyLogger {
    pressed: u8,
}

impl KeyLogger {
    /// The key presses shown so far.
    pub closed spec fn count(&self) -> u8 {
        self.pressed
    }

    /// A logger that has shown nothing.
    pub fn new() -> (k: KeyLogger)
        ensures
            k.count() == 0,
    {
        KeyLogger { pressed: 0 }
    }

    /// Whether three key presses have been shown.
    pub fn done(&self) -> (r: bool)
        ensures
            r == (self.count() >= 3),
    {
        self.pressed >= KEYS_TO_LOG
    }

    /// Takes a byte read from the keyboard data port: a key press (below 0x80)
    /// is counted and its code given back in hexadecimal to show; a release is dropped.
    pub fn on_scancode(&mut self, scancode: u8) -> (r: Option<[u8; 2]>)
        requires
            old(self).count() < 3,
        ensures
            scancode < 0x80 ==> final(self).count() == old(self).count() + 1
                && (r matches Some(d) && d@ == hex_spec(scancode)),
            scancode >= 0x80 ==> final(self).count() == old(self).count() && r is None,
    {
        if scancode < 0x80 {
            self.pressed = self.pressed + 1;
            Some(hex_byte(scancode))
        } else {
            None
        }
    }
}

} // verus!
