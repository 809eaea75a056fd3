use vstd::prelude::*;
use crate::screen::{Screen, SCREEN_WIDTH, put_cell, filled};
use crate::scancode::{key_echo, echo_spec};
use vstd::string::{StringSliceAdditionalSpecFns, is_ascii, is_ascii_spec_bytes};

verus! {

/// The cell the installer console blanks with: a space, white on black.
pub const BLANK_CELL: u16 = 0x0F20;

/// The attribute of text that the installer console prints: light magenta on black.
pub const TEXT_ATTR: u16 = 0x0D00;

/// What the installer's console holds. It never scrolls, so the cursor row
/// can pass the bottom of the screen.
pub struct BootState {
    pub cells: Seq<u16>,
    pub x: int,
    pub y: int,
}

/// The state after the installer console prints byte `c`.
pub open spec fn boot_print_char(s: BootState, c: u8) -> BootState {
    let s1 = if c == 10 {
        BootState { x: 0, y: s.y + 1, ..s }
    } else if c == 8 {
        if s.x > 0 {
            BootState { cells: put_cell(s.cells, s.y, s.x - 1, BLANK_CELL), x: s.x - 1, ..s }
        } else {
            s
        }
    } else {
        BootState { cells: put_cell(s.cells, s.y, s.x, (TEXT_ATTR + c) as u16), x: s.x + 1, ..s }
    };
    if s1.x >= 80 {
        BootState { x: 0, y: s1.y + 1, ..s1 }
    } else {
        s1
    }
}

/// Printing `c` writes no cell below the screen, and the row count does not overflow.
pub open spec fn boot_can_print(s: BootState, c: u8) -> bool {
    if c == 10 {
        s.y < usize::MAX
    } else if c == 8 {
        s.x > 0 ==> s.y < 25
    } else {
        s.y < 25
    }
}

/// The state after printing every byte of `bytes` in order.
pub open spec fn boot_print_bytes(s: BootState, bytes: Seq<u8>) -> BootState
    decreases bytes.len(),
{
    if bytes.len() == 0 {
        s
    } else {
        boot_print_char(boot_print_bytes(s, bytes.drop_last()), bytes.last())
    }
}

/// Every byte of `bytes`, printed in turn from `s`, stays on the screen.
pub open spec fn boot_can_print_bytes(s: BootState, bytes: Seq<u8>) -> bool {
    forall|i: int| 0 <= i < bytes.len() ==> boot_can_print(boot_print_bytes(s, bytes.take(i)), #[trigger] bytes[i])
}

/// The screen has its 2000 cells and the cursor column lies on it.
pub open spec fn boot_state_wf(s: BootState) -> bool {
    &&& s.cells.len() == 2000
    &&& 0 <= s.x < 80
    &&& 0 <= s.y <= usize::MAX
}

/// A byte that the installer console draws as a character (not a newline or backspace).
pub open spec fn plain(b: u8) -> bool {
    b != 10 && b != 8
}

/// The screen the installer shows after it starts, before any key.
pub open spec fn installer_startup(s: BootState) -> BootState {
    let a = BootState { cells: filled(BLANK_CELL), x: 0, y: 0 };
    let b = boot_print_bytes(a, "==================================\n".spec_bytes());
    let c = boot_print_bytes(b, "     OMNIX OS INSTALATOR v0.1     \n".spec_bytes());
    let d = boot_print_bytes(c, "==================================\n".spec_bytes());
    let e = boot_print_bytes(d, "Krok 1: Klavesnice inicializovana.\n\n".spec_bytes());
    boot_print_bytes(e, "Napis neco pro otestovani PS/2 ovladace:\n> ".spec_bytes())
}

proof fn lemma_can_print_push(s: BootState, bytes: Seq<u8>)
    requires
        bytes.len() > 0,
    ensures
        boot_can_print_bytes(s, bytes) <==> (boot_can_print_bytes(s, bytes.drop_last())
            && boot_can_print(boot_print_bytes(s, bytes.drop_last()), bytes.last())),
{
    let d = bytes.drop_last();
    assert forall|i: int| 0 <= i < d.len() implies d.take(i) == bytes.take(i) && d[i] == bytes[i] by {
        assert(d.take(i) =~= bytes.take(i));
    }
    assert(bytes.take(d.len() as int) =~= d);
    if boot_can_print_bytes(s, bytes) {
        assert forall|i: int| 0 <= i < d.len() implies boot_can_print(boot_print_bytes(s, d.take(i)), #[trigger] d[i]) by {
            assert(boot_can_print(boot_print_bytes(s, bytes.take(i)), bytes[i]));
        }
        assert(boot_can_print(boot_print_bytes(s, bytes.take(d.len() as int)), bytes[d.len() as int]));
    }
    if boot_can_print_bytes(s, d) && boot_can_print(boot_print_bytes(s, d), bytes.last()) {
        assert forall|i: int| 0 <= i < bytes.len() implies boot_can_print(boot_print_bytes(s, bytes.take(i)), #[trigger] bytes[i]) by {
            if i < d.len() {
                assert(boot_can_print(boot_print_bytes(s, d.take(i)), d[i]));
            }
        }
    }
}

/// Printing `a` then `b` is printing `a + b`, and stays on the screen when both parts do.
pub proof fn lemma_boot_print_concat(s: BootState, a: Seq<u8>, b: Seq<u8>)
    ensures
        boot_print_bytes(s, a + b) == boot_print_bytes(boot_print_bytes(s, a), b),
        boot_can_print_bytes(s, a) && boot_can_print_bytes(boot_print_bytes(s, a), b) ==> boot_can_print_bytes(s, a + b),
    decreases b.len(),
{
    if b.len() == 0 {
        assert(a + b =~= a);
    } else {
        let b0 = b.drop_last();
        lemma_boot_print_concat(s, a, b0);
        assert((a + b).drop_last() =~= a + b0);
        assert((a + b).last() == b.last());
        if boot_can_print_bytes(s, a) && boot_can_print_bytes(boot_print_bytes(s, a), b) {
            lemma_can_print_push(boot_print_bytes(s, a), b);
            lemma_can_print_push(s, a + b);
        }
    }
}

/// A run of drawn characters that ends before the last column, on a row of the
/// screen, stays on the screen and leaves the cursor after it on the same row.
pub proof fn lemma_boot_plain_run(s: BootState, bytes: Seq<u8>)
    requires
        0 <= s.x,
        0 <= s.y < 25,
        s.x + bytes.len() < 80,
        forall|i: int| 0 <= i < bytes.len() ==> plain(#[trigger] bytes[i]),
    ensures
        boot_can_print_bytes(s, bytes),
        boot_print_bytes(s, bytes).x == s.x + bytes.len(),
        boot_print_bytes(s, bytes).y == s.y,
    decreases bytes.len(),
{
    if bytes.len() > 0 {
        let d = bytes.drop_last();
        assert forall|i: int| 0 <= i < d.len() implies plain(#[trigger] d[i]) by {
            assert(d[i] == bytes[i]);
        }
        lemma_boot_plain_run(s, d);
        lemma_can_print_push(s, bytes);
    } else {
        assert(boot_can_print_bytes(s, bytes));
    }
}

/// A line of `k` drawn characters and a newline, started at the left of a row
/// of the screen, stays on the screen and leaves the cursor at the start of the next row.
pub proof fn lemma_boot_line(s: BootState, line: Seq<u8>)
    requires
        s.x == 0,
        0 <= s.y < 25,
        line.len() >= 1,
        line.len() < 81,
        line.last() == 10,
        forall|i: int| 0 <= i < line.len() - 1 ==> plain(#[trigger] line[i]),
    ensures
        boot_can_print_bytes(s, line),
        boot_print_bytes(s, line).x == 0,
        boot_print_bytes(s, line).y == s.y + 1,
{
    let d = line.drop_last();
    assert forall|i: int| 0 <= i < d.len() implies plain(#[trigger] d[i]) by {
        assert(d[i] == line[i]);
    }
    lemma_boot_plain_run(s, d);
    lemma_can_print_push(s, line);
}

/// The text console of the installer kernel.
pub struct BootConsole {
    screen: Screen,
    cursor_x: usize,
    cursor_y: usize,
}

impl View for BootConsole {
    type V = BootState;

    closed spec fn view(&self) -> BootState {
        BootState { cells: self.screen@, x: self.cursor_x as int, y: self.cursor_y as int }
    }
}

impl BootConsole {
    /// The screen has its cells and the cursor column lies on it.
    pub open spec fn wf(&self) -> bool {
        boot_state_wf(self@)
    }

    /// A blank console with the cursor at the top left.
    pub fn new() -> (b: BootConsole)
        ensures
            b.wf(),
            b@ == (BootState { cells: filled(BLANK_CELL), x: 0, y: 0 }),
    {
        BootConsole { screen: Screen::new_filled(BLANK_CELL), cursor_x: 0, cursor_y: 0 }
    }

    /// The screen contents, row by row.
    pub fn cells(&self) -> (r: &Vec<u16>)
        ensures
            r@ == self@.cells,
    {
        self.screen.cells()
    }

    /// Row of the cursor.
    pub fn cursor_y(&self) -> (r: usize)
        ensures
            r == self@.y,
    {
        self.cursor_y
    }

    /// Blanks the screen and homes the cursor.
    pub fn clear_screen(&mut self)
        requires
            old(self).wf(),
        ensures
            final(self).wf(),
            final(self)@ == (BootState { cells: filled(BLANK_CELL), x: 0, y: 0 }),
    {
        self.screen.fill(BLANK_CELL);
        self.cursor_x = 0;
        self.cursor_y = 0;
    }

    /// Whether printing `c` now stays on the screen.
    pub fn can_print(&self, c: u8) -> (r: bool)
        requires
            self.wf(),
        ensures
            r == boot_can_print(self@, c),
    {
        if c == 10 {
            self.cursor_y < usize::MAX
        } else if c == 8 {
            self.cursor_x == 0 || self.cursor_y < 25
        } else {
            self.cursor_y < 25
        }
    }

    /// Prints one byte, as `boot_print_char` describes.
    pub fn print_char(&mut self, c: u8)
        requires
            old(self).wf(),
            boot_can_print(old(self)@, c),
        ensures
            final(self).wf(),
            final(self)@ == boot_print_char(old(self)@, c),
    {
        if c == 10 {
            self.cursor_y = self.cursor_y + 1;
            self.cursor_x = 0;
        } else if c == 8 {
            if self.cursor_x > 0 {
                self.cursor_x = self.cursor_x - 1;
                self.screen.put(self.cursor_y, self.cursor_x, BLANK_CELL);
            }
        } else {
            self.screen.put(self.cursor_y, self.cursor_x, TEXT_ATTR + (c as u16));
            self.cursor_x = self.cursor_x + 1;
        }
        if self.cursor_x >= SCREEN_WIDTH {
            self.cursor_x = 0;
            self.cursor_y = self.cursor_y + 1;
        }
    }

    /// Prints the bytes of `bytes` in order.
    pub fn print_bytes(&mut self, bytes: &[u8])
        requires
            old(self).wf(),
            boot_can_print_bytes(old(self)@, bytes@),
        ensures
            final(self).wf(),
            final(self)@ == boot_print_bytes(old(self)@, bytes@),
    {
        let mut i: usize = 0;
        while i < bytes.len()
            invariant
                i <= bytes@.len(),
                self.wf(),
                boot_can_print_bytes(old(self)@, bytes@),
                self@ == boot_print_bytes(old(self)@, bytes@.take(i as int)),
            decreases bytes@.len() - i,
        {
            assert(bytes@.take(i as int + 1).drop_last() =~= bytes@.take(i as int));
            let c = bytes[i];
            assert(boot_can_print(self@, c));
            self.print_char(c);
            i = i + 1;
        }
        assert(bytes@.take(i as int) =~= bytes@);
    }

    /// Prints the UTF-8 bytes of `s` in order.
    pub fn print_str(&mut self, s: &str)
        requires
            old(self).wf(),
            boot_can_print_bytes(old(self)@, s.spec_bytes()),
        ensures
            final(self).wf(),
            final(self)@ == boot_print_bytes(old(self)@, s.spec_bytes()),
    {
        self.print_bytes(s.as_bytes());
    }

    /// Draws the installer's start-up screen: a framed title, the keyboard
    /// status and the prompt to type.
    pub fn start(&mut self)
        requires
            old(self).wf(),
        ensures
            final(self).wf(),
            final(self)@ == installer_startup(old(self)@),
            final(self)@.x == 2,
            final(self)@.y == 6,
    {
        self.clear_screen();
        let rule = "==================================\n";
        proof {
            reveal_strlit("==================================\n");
            assert(is_ascii(rule));
            is_ascii_spec_bytes(rule);
            lemma_boot_line(self@, rule.spec_bytes());
        }
        self.print_str(rule);
        let title = "     OMNIX OS INSTALATOR v0.1     \n";
        proof {
            reveal_strlit("     OMNIX OS INSTALATOR v0.1     \n");
            assert(is_ascii(title));
            is_ascii_spec_bytes(title);
            lemma_boot_line(self@, title.spec_bytes());
        }
        self.print_str(title);
        proof {
            lemma_boot_line(self@, rule.spec_bytes());
        }
        self.print_str(rule);
        let step = "Krok 1: Klavesnice inicializovana.\n\n";
        proof {
            reveal_strlit("Krok 1: Klavesnice inicializovana.\n\n");
            assert(is_ascii(step));
            is_ascii_spec_bytes(step);
            let b = step.spec_bytes();
            assert(b =~= b.take(35) + b.skip(35));
            lemma_boot_line(self@, b.take(35));
            let t = boot_print_bytes(self@, b.take(35));
            assert(b.skip(35).take(0) =~= Seq::<u8>::empty());
            assert(boot_can_print_bytes(t, b.skip(35)));
            lemma_boot_print_concat(self@, b.take(35), b.skip(35));
        }
        self.print_str(step);
        let prompt = "Napis neco pro otestovani PS/2 ovladace:\n> ";
        proof {
            reveal_strlit("Napis neco pro otestovani PS/2 ovladace:\n> ");
            assert(is_ascii(prompt));
            is_ascii_spec_bytes(prompt);
            let b = prompt.spec_bytes();
            assert(b =~= b.take(41) + b.skip(41));
            lemma_boot_line(self@, b.take(41));
            let t = boot_print_bytes(self@, b.take(41));
            lemma_boot_plain_run(t, b.skip(41));
            lemma_boot_print_concat(self@, b.take(41), b.skip(41));
        }
        self.print_str(prompt);
    }

    /// Whether printing `bytes` now stays on the screen throughout.
    pub fn can_print_bytes(&self, bytes: &[u8]) -> (r: bool)
        requires
            self.wf(),
        ensures
            r == boot_can_print_bytes(self@, bytes@),
    {
        let mut x: usize = self.cursor_x;
        let mut y: usize = self.cursor_y;
        let mut i: usize = 0;
        while i < bytes.len()
            invariant
                self.wf(),
                i <= bytes@.len(),
                x < 80,
                x == boot_print_bytes(self@, bytes@.take(i as int)).x,
                y == boot_print_bytes(self@, bytes@.take(i as int)).y,
                boot_can_print_bytes(self@, bytes@.take(i as int)),
            decreases bytes@.len() - i,
        {
            let c = bytes[i];
            let ghost before = boot_print_bytes(self@, bytes@.take(i as int));
            proof {
                assert(bytes@.take(i as int + 1).drop_last() =~= bytes@.take(i as int));
                lemma_can_print_push(self@, bytes@.take(i as int + 1));
            }
            let ok = if c == 10 {
                y < usize::MAX
            } else if c == 8 {
                x == 0 || y < 25
            } else {
                y < 25
            };
            if !ok {
                assert(!boot_can_print(boot_print_bytes(self@, bytes@.take(i as int)), bytes@[i as int]));
                return false;
            }
            if c == 10 {
                y = y + 1;
                x = 0;
            } else if c == 8 {
                if x > 0 {
                    x = x - 1;
                }
            } else {
                x = x + 1;
            }
            if x >= SCREEN_WIDTH {
                x = 0;
                y = y + 1;
            }
            i = i + 1;
        }
        assert(bytes@.take(i as int) =~= bytes@);
        true
    }

    /// Prints the installer's panic message.
    pub fn panic_screen(&mut self)
        requires
            old(self).wf(),
            boot_can_print_bytes(old(self)@, "FATAL ERROR: Kernel Panic!".spec_bytes()),
        ensures
            final(self).wf(),
            final(self)@ == boot_print_bytes(old(self)@, "FATAL ERROR: Kernel Panic!".spec_bytes()),
    {
        self.print_str("FATAL ERROR: Kernel Panic!");
    }

    /// Whether echoing the key of `scancode` now stays on the screen.
    pub fn can_echo(&self, scancode: u8) -> (r: bool)
        requires
            self.wf(),
        ensures
            r == match echo_spec(scancode) {
                Some(c) => boot_can_print(self@, c),
                None => true,
            },
    {
        match key_echo(scancode) {
            Some(c) => self.can_print(c),
            None => true,
        }
    }

    /// Echoes the key that the byte read from the keyboard data port stands for.
    pub fn handle_scancode(&mut self, scancode: u8)
        requires
            old(self).wf(),
            match echo_spec(scancode) {
                Some(c) => boot_can_print(old(self)@, c),
                None => true,
            },
        ensures
            final(self).wf(),
            final(self)@ == match echo_spec(scancode) {
                Some(c) => boot_print_char(old(self)@, c),
                None => old(self)@,
            },
    {
        if let Some(c) = key_echo(scancode) {
            self.print_char(c);
        }
    }
}

} // verus!
