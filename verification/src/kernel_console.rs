use vstd::prelude::*;
use crate::port::PortWrite;
use crate::screen::{Screen, SCREEN_WIDTH, SCREEN_HEIGHT, cell, make_cell, put_cell, scrolled, filled};
use crate::scancode::{key_echo, echo_spec};
use crate::vga::{attribute, cursor_writes};
use vstd::string::{StringSliceAdditionalSpecFns, is_ascii, is_ascii_spec_bytes};

verus! {

/// The attribute that the core kernel's console starts with: white on black.
pub const INITIAL_COLOR: u8 = 0x0F;

/// What the core kernel's console holds.
pub struct ConsoleState {
    pub cells: Seq<u16>,
    pub x: int,
    pub y: int,
    pub color: u8,
}

/// The state after the core kernel's console prints byte `c`.
///
/// Unlike the driver, a backspace at the start of a row moves to the end of
/// the row above and blanks that cell; at the top left it does nothing.
pub open spec fn console_print_char(s: ConsoleState, c: u8) -> ConsoleState {
    let blank = cell(s.color, 32);
    let s1 = if c == 10 {
        ConsoleState { x: 0, y: s.y + 1, ..s }
    } else if c == 8 {
        if s.x > 0 {
            ConsoleState { cells: put_cell(s.cells, s.y, s.x - 1, blank), x: s.x - 1, ..s }
        } else if s.y > 0 {
            ConsoleState { cells: put_cell(s.cells, s.y - 1, 79, blank), x: 79, y: s.y - 1, ..s }
        } else {
            s
        }
    } else {
        ConsoleState { cells: put_cell(s.cells, s.y, s.x, cell(s.color, c)), x: s.x + 1, ..s }
    };
    let s2 = if s1.x >= 80 { ConsoleState { x: 0, y: s1.y + 1, ..s1 } } else { s1 };
    if s2.y >= 25 {
        ConsoleState { cells: scrolled(s2.cells, blank), y: 24, ..s2 }
    } else {
        s2
    }
}

/// The state after printing every byte of `bytes` in order.
pub open spec fn console_print_bytes(s: ConsoleState, bytes: Seq<u8>) -> ConsoleState
    decreases bytes.len(),
{
    if bytes.len() == 0 {
        s
    } else {
        console_print_char(console_print_bytes(s, bytes.drop_last()), bytes.last())
    }
}

/// The state after the screen is blanked in the current attribute and the
/// cursor homed.
pub open spec fn console_cleared(s: ConsoleState) -> ConsoleState {
    ConsoleState { cells: filled(cell(s.color, 32)), x: 0, y: 0, ..s }
}

/// The state after the attribute is set to `fg` on `bg`.
pub open spec fn console_colored(s: ConsoleState, fg: u8, bg: u8) -> ConsoleState {
    ConsoleState { color: attribute(fg, bg), ..s }
}

/// The cursor lies on the screen and the screen has its 2000 cells.
pub open spec fn console_state_wf(s: ConsoleState) -> bool {
    &&& s.cells.len() == 2000
    &&& 0 <= s.x < 80
    &&& 0 <= s.y < 25
}

/// The screen that the core kernel shows after it starts, before any key.
pub open spec fn startup_spec(s: ConsoleState) -> ConsoleState {
    let a = console_cleared(console_colored(s, 0x0F, 0x00));
    let b = console_print_bytes(console_colored(a, 0x0B, 0x00), "OmniX OS Core v0.3\n".spec_bytes());
    let c = console_print_bytes(console_colored(b, 0x0A, 0x00), "Initializing Subsystems...\n".spec_bytes());
    let d = console_print_bytes(console_colored(c, 0x0F, 0x00), "VGA Display: [OK]\n".spec_bytes());
    let e = console_print_bytes(d, "Keyboard: [OK]\n".spec_bytes());
    let f = console_print_bytes(e, "Interrupts: [PENDING]\n\n".spec_bytes());
    console_print_bytes(f, "admin@omnix:~> ".spec_bytes())
}

/// Printing keeps the cursor on the screen and the screen at 2000 cells.
pub proof fn lemma_console_keeps_cursor_on_screen(s: ConsoleState, c: u8)
    requires
        console_state_wf(s),
    ensures
        console_state_wf(console_print_char(s, c)),
{
}

/// A newline on the last row scrolls: every row moves up by one, so the row
/// that was last is now the second to last, only the last row is blank, and
/// the cursor starts the last row.
pub proof fn lemma_console_newline_on_last_row_scrolls(s: ConsoleState)
    requires
        console_state_wf(s),
        s.y == 24,
    ensures
        console_print_char(s, 10).cells.len() == 2000,
        forall|r: int, col: int| 0 <= r < 24 && 0 <= col < 80 ==>
            #[trigger] console_print_char(s, 10).cells[r * 80 + col] == s.cells[(r + 1) * 80 + col],
        forall|col: int| 0 <= col < 80 ==>
            #[trigger] console_print_char(s, 10).cells[24 * 80 + col] == (s.color as int * 256 + 32) as u16,
        console_print_char(s, 10).x == 0,
        console_print_char(s, 10).y == 24,
{
    assert forall|r: int, col: int| 0 <= r < 24 && 0 <= col < 80 implies
        #[trigger] console_print_char(s, 10).cells[r * 80 + col] == s.cells[(r + 1) * 80 + col] by {
        assert(r * 80 + col < 1920);
        assert(r * 80 + col + 80 == (r + 1) * 80 + col);
    }
}

/// Printing `a` and then `b` is printing `a + b`.
pub proof fn lemma_console_print_concat(s: ConsoleState, a: Seq<u8>, b: Seq<u8>)
    ensures
        console_print_bytes(s, a + b) == console_print_bytes(console_print_bytes(s, a), b),
    decreases b.len(),
{
    if b.len() == 0 {
        assert(a + b =~= a);
    } else {
        lemma_console_print_concat(s, a, b.drop_last());
        assert((a + b).drop_last() =~= a + b.drop_last());
    }
}

/// A backspace right after a character takes it back, even when the character
/// ended a row: the cursor returns and the cell is blank. This holds everywhere
/// but in the bottom right cell, where the character scrolls the screen.
pub proof fn lemma_console_backspace_erases(s: ConsoleState, c: u8)
    requires
        console_state_wf(s),
        c != 10,
        c != 8,
        !(s.x == 79 && s.y == 24),
    ensures
        console_print_char(console_print_char(s, c), 8) == (ConsoleState {
            cells: put_cell(s.cells, s.y, s.x, cell(s.color, 32)),
            ..s
        }),
{
    let i = s.y * 80 + s.x;
    assert(s.cells.update(i, cell(s.color, c)).update(i, cell(s.color, 32)) =~= s.cells.update(i, cell(s.color, 32)));
}

/// A run of drawn characters (no newline or backspace) that ends before the
/// last column moves the cursor along its row and never scrolls.
pub proof fn lemma_console_plain_run(s: ConsoleState, bytes: Seq<u8>)
    requires
        0 <= s.x,
        0 <= s.y < 25,
        s.x + bytes.len() < 80,
        forall|i: int| 0 <= i < bytes.len() ==> #[trigger] bytes[i] != 10 && bytes[i] != 8,
    ensures
        console_print_bytes(s, bytes).x == s.x + bytes.len(),
        console_print_bytes(s, bytes).y == s.y,
    decreases bytes.len(),
{
    if bytes.len() > 0 {
        let d = bytes.drop_last();
        assert forall|i: int| 0 <= i < d.len() implies #[trigger] d[i] != 10 && d[i] != 8 by {
            assert(d[i] == bytes[i]);
        }
        lemma_console_plain_run(s, d);
    }
}

/// A line of drawn characters and a newline, started at the left of a row
/// above the last, leaves the cursor at the start of the next row.
pub proof fn lemma_console_line(s: ConsoleState, line: Seq<u8>)
    requires
        s.x == 0,
        0 <= s.y < 24,
        1 <= line.len() < 81,
        line.last() == 10,
        forall|i: int| 0 <= i < line.len() - 1 ==> #[trigger] line[i] != 10 && line[i] != 8,
    ensures
        console_print_bytes(s, line).x == 0,
        console_print_bytes(s, line).y == s.y + 1,
{
    let d = line.drop_last();
    assert forall|i: int| 0 <= i < d.len() implies #[trigger] d[i] != 10 && d[i] != 8 by {
        assert(d[i] == line[i]);
    }
    lemma_console_plain_run(s, d);
}

/// The text console of the core kernel.
pub struct KernelConsole {
    screen: Screen,
    cursor_x: usize,
    cursor_y: usize,
    color: u8,
}

impl View for KernelConsole {
    type V = ConsoleState;

    closed spec fn view(&self) -> ConsoleState {
        ConsoleState {
            cells: self.screen@,
            x: self.cursor_x as int,
            y: self.cursor_y as int,
            color: self.color,
        }
    }
}

impl KernelConsole {
    /// The screen has its cells and the cursor lies on it.
    pub open spec fn wf(&self) -> bool {
        console_state_wf(self@)
    }

    /// The console with the initial attribute, the cursor at the top left and
    /// a blank screen.
    pub fn new() -> (k: KernelConsole)
        ensures
            k.wf(),
            k@ == (ConsoleState { cells: filled(cell(INITIAL_COLOR, 32)), x: 0, y: 0, color: INITIAL_COLOR }),
    {
        let blank = make_cell(INITIAL_COLOR, 32);
        KernelConsole { screen: Screen::new_filled(blank), cursor_x: 0, cursor_y: 0, color: INITIAL_COLOR }
    }

    /// The screen contents, row by row.
    pub fn cells(&self) -> (r: &Vec<u16>)
        ensures
            r@ == self@.cells,
    {
        self.screen.cells()
    }

    /// Sets the attribute of new text to foreground `fg` on background `bg`.
    pub fn set_color(&mut self, fg: u8, bg: u8)
        requires
            old(self).wf(),
        ensures
            final(self).wf(),
            final(self)@ == console_colored(old(self)@, fg, bg),
    {
        self.color = (bg << 4u8) | fg;
    }

    /// The port writes that move the hardware cursor to the console's cursor.
    pub fn update_cursor(&self) -> (w: Vec<PortWrite>)
        requires
            self.wf(),
        ensures
            w@ == cursor_writes(self@.y * 80 + self@.x),
    {
        let pos = self.cursor_y * SCREEN_WIDTH + self.cursor_x;
        let mut w: Vec<PortWrite> = Vec::new();
        w.push(PortWrite { port: 0x3D4, value: 0x0F });
        w.push(PortWrite { port: 0x3D5, value: (pos % 256) as u8 });
        w.push(PortWrite { port: 0x3D4, value: 0x0E });
        w.push(PortWrite { port: 0x3D5, value: ((pos / 256) % 256) as u8 });
        assert(w@ =~= cursor_writes(self@.y * 80 + self@.x));
        w
    }

    /// Moves the screen up one row, blanks the last row and puts the cursor on it.
    pub fn scroll(&mut self)
        requires
            old(self).wf(),
        ensures
            final(self).wf(),
            final(self)@ == (ConsoleState {
                cells: scrolled(old(self)@.cells, cell(old(self)@.color, 32)),
                y: 24,
                ..old(self)@
            }),
    {
        let blank = make_cell(self.color, 32);
        self.screen.scroll_up(blank);
        self.cursor_y = SCREEN_HEIGHT - 1;
    }

    /// Blanks the whole screen in the current attribute and homes the cursor.
    pub fn clear_screen(&mut self)
        requires
            old(self).wf(),
        ensures
            final(self).wf(),
            final(self)@ == console_cleared(old(self)@),
    {
        let blank = make_cell(self.color, 32);
        self.screen.fill(blank);
        self.cursor_x = 0;
        self.cursor_y = 0;
    }

    /// Prints one byte, as `console_print_char` describes.
    pub fn print_char(&mut self, c: u8)
        requires
            old(self).wf(),
        ensures
            final(self).wf(),
            final(self)@ == console_print_char(old(self)@, c),
    {
        let blank = make_cell(self.color, 32);
        // the cursor may sit one past the last column or row until it is settled below
        let mut x: usize = self.cursor_x;
        let mut y: usize = self.cursor_y;
        if c == 10 {
            x = 0;
            y = y + 1;
        } else if c == 8 {
            if x > 0 {
                x = x - 1;
                self.screen.put(y, x, blank);
            } else if y > 0 {
                y = y - 1;
                x = SCREEN_WIDTH - 1;
                self.screen.put(y, x, blank);
            }
        } else {
            let drawn = make_cell(self.color, c);
            self.screen.put(y, x, drawn);
            x = x + 1;
        }
        if x >= SCREEN_WIDTH {
            x = 0;
            y = y + 1;
        }
        if y >= SCREEN_HEIGHT {
            self.screen.scroll_up(blank);
            y = SCREEN_HEIGHT - 1;
        }
        self.cursor_x = x;
        self.cursor_y = y;
    }

    /// Prints the bytes of `bytes` in order.
    pub fn print_bytes(&mut self, bytes: &[u8])
        requires
            old(self).wf(),
        ensures
            final(self).wf(),
            final(self)@ == console_print_bytes(old(self)@, bytes@),
    {
        let mut i: usize = 0;
        while i < bytes.len()
            invariant
                i <= bytes@.len(),
                self.wf(),
                self@ == console_print_bytes(old(self)@, bytes@.take(i as int)),
            decreases bytes@.len() - i,
        {
            assert(bytes@.take(i as int + 1).drop_last() =~= bytes@.take(i as int));
            self.print_char(bytes[i]);
            i = i + 1;
        }
        assert(bytes@.take(i as int) =~= bytes@);
    }

    /// Prints the UTF-8 bytes of `s` in order.
    pub fn print_str(&mut self, s: &str)
        requires
            old(self).wf(),
        ensures
            final(self).wf(),
            final(self)@ == console_print_bytes(old(self)@, s.spec_bytes()),
    {
        self.print_bytes(s.as_bytes());
    }

    /// Draws the start-up screen of the core kernel: the banner, the status of
    /// its subsystems and the prompt.
    pub fn start(&mut self)
        requires
            old(self).wf(),
        ensures
            final(self).wf(),
            final(self)@ == startup_spec(old(self)@),
            final(self)@.x == 15,
            final(self)@.y == 6,
    {
        self.set_color(0x0F, 0x00);
        self.clear_screen();
        self.set_color(0x0B, 0x00);
        let banner = "OmniX OS Core v0.3\n";
        proof {
            reveal_strlit("OmniX OS Core v0.3\n");
            assert(is_ascii(banner));
            is_ascii_spec_bytes(banner);
            lemma_console_line(self@, banner.spec_bytes());
        }
        self.print_str(banner);
        self.set_color(0x0A, 0x00);
        let init = "Initializing Subsystems...\n";
        proof {
            reveal_strlit("Initializing Subsystems...\n");
            assert(is_ascii(init));
            is_ascii_spec_bytes(init);
            lemma_console_line(self@, init.spec_bytes());
        }
        self.print_str(init);
        self.set_color(0x0F, 0x00);
        let vga = "VGA Display: [OK]\n";
        proof {
            reveal_strlit("VGA Display: [OK]\n");
            assert(is_ascii(vga));
            is_ascii_spec_bytes(vga);
            lemma_console_line(self@, vga.spec_bytes());
        }
        self.print_str(vga);
        let keyboard = "Keyboard: [OK]\n";
        proof {
            reveal_strlit("Keyboard: [OK]\n");
            assert(is_ascii(keyboard));
            is_ascii_spec_bytes(keyboard);
            lemma_console_line(self@, keyboard.spec_bytes());
        }
        self.print_str(keyboard);
        let interrupts = "Interrupts: [PENDING]\n\n";
        proof {
            reveal_strlit("Interrupts: [PENDING]\n\n");
            assert(is_ascii(interrupts));
            is_ascii_spec_bytes(interrupts);
            let b = interrupts.spec_bytes();
            assert(b =~= b.take(22) + b.skip(22));
            lemma_console_line(self@, b.take(22));
            assert(b.skip(22) =~= seq![10u8]);
            assert(seq![10u8].drop_last() =~= Seq::<u8>::empty());
            lemma_console_print_concat(self@, b.take(22), b.skip(22));
        }
        self.print_str(interrupts);
        let prompt = "admin@omnix:~> ";
        proof {
            reveal_strlit("admin@omnix:~> ");
            assert(is_ascii(prompt));
            is_ascii_spec_bytes(prompt);
            lemma_console_plain_run(self@, prompt.spec_bytes());
        }
        self.print_str(prompt);
    }

    /// The screen the core kernel shows when it panics: the message in white
    /// on red on a cleared screen.
    pub fn panic_screen(&mut self)
        requires
            old(self).wf(),
        ensures
            final(self).wf(),
            final(self)@ == console_print_bytes(
                console_cleared(console_colored(old(self)@, 0x0F, 0x04)),
                "FATAL KERNEL ERROR".spec_bytes(),
            ),
    {
        self.set_color(0x0F, 0x04);
        self.clear_screen();
        self.print_str("FATAL KERNEL ERROR");
    }

    /// Echoes the key that the byte read from the keyboard data port stands for.
    pub fn handle_scancode(&mut self, scancode: u8)
        requires
            old(self).wf(),
        ensures
            final(self).wf(),
            final(self)@ == match echo_spec(scancode) {
                Some(c) => console_print_char(old(self)@, c),
                None => old(self)@,
            },
    {
        if let Some(c) = key_echo(scancode) {
            self.print_char(c);
        }
    }
}

} // verus!
