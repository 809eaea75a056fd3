use vstd::prelude::*;
use crate::port::{PortWrite, port_write};
use vstd::string::StringSliceAdditionalSpecFns;
use crate::screen::{Screen, SCREEN_WIDTH, SCREEN_HEIGHT, cell, make_cell, put_cell, scrolled, filled};

verus! {

/// The attribute that the driver starts with: white text on magenta.
pub const DEFAULT_COLOR: u8 = 0x5F;

/// What the text driver holds: the screen, the cursor and the attribute of new text.
pub struct VgaState {
    pub cells: Seq<u16>,
    pub x: int,
    pub y: int,
    pub color: u8,
}

/// The attribute byte for foreground `fg` on background `bg`.
pub open spec fn attribute(fg: u8, bg: u8) -> u8 {
    (bg << 4u8) | fg
}

/// The state after the driver prints byte `c`.
///
/// A newline moves to the start of the next row; a backspace (8) moves one
/// column left, if it can, and blanks that cell; any other byte is drawn at the
/// cursor, which then advances and wraps at the end of the row. When the cursor
/// leaves the last row the screen scrolls up and the cursor stays on the last row.
pub open spec fn print_char_spec(s: VgaState, c: u8) -> VgaState {
    let moved = if c == 10 {
        VgaState { x: 0, y: s.y + 1, ..s }
    } else if c == 8 {
        let nx = if s.x > 0 { s.x - 1 } else { 0 };
        VgaState { cells: put_cell(s.cells, s.y, nx, cell(s.color, 32)), x: nx, ..s }
    } else {
        let drawn = put_cell(s.cells, s.y, s.x, cell(s.color, c));
        if s.x + 1 >= 80 {
            VgaState { cells: drawn, x: 0, y: s.y + 1, ..s }
        } else {
            VgaState { cells: drawn, x: s.x + 1, ..s }
        }
    };
    if moved.y >= 25 {
        VgaState { cells: scrolled(moved.cells, cell(s.color, 32)), y: 24, ..moved }
    } else {
        moved
    }
}

/// The state after printing every byte of `bytes` in order.
pub open spec fn print_bytes_spec(s: VgaState, bytes: Seq<u8>) -> VgaState
    decreases bytes.len(),
{
    if bytes.len() == 0 {
        s
    } else {
        print_char_spec(print_bytes_spec(s, bytes.drop_last()), bytes.last())
    }
}

/// The four port writes that move the hardware cursor to cell `pos`.
pub open spec fn cursor_writes(pos: int) -> Seq<PortWrite> {
    seq![
        port_write(0x3D4, 0x0F),
        port_write(0x3D5, (pos % 256) as u8),
        port_write(0x3D4, 0x0E),
        port_write(0x3D5, ((pos / 256) % 256) as u8),
    ]
}

/// For a foreground below 16 the attribute is the background's low nibble in
/// the high nibble and the foreground in the low one.
pub proof fn lemma_attribute_nibbles(fg: u8, bg: u8)
    requires
        fg < 16,
    ensures
        attribute(fg, bg) == (bg % 16) * 16 + fg,
{
    assert(fg < 16 ==> (bg << 4u8) | fg == (bg % 16) * 16 + fg) by (bit_vector);
}

/// A newline on the last row scrolls: every row moves up by one, so the row
/// that was last is now the second to last, the first row is gone, only the
/// last row is blank (in the current attribute), and the cursor starts the last row.
pub proof fn lemma_newline_on_last_row_scrolls(s: VgaState)
    requires
        vga_state_wf(s),
        s.y == 24,
    ensures
        print_char_spec(s, 10).cells.len() == 2000,
        forall|r: int, col: int| 0 <= r < 24 && 0 <= col < 80 ==>
            #[trigger] print_char_spec(s, 10).cells[r * 80 + col] == s.cells[(r + 1) * 80 + col],
        forall|col: int| 0 <= col < 80 ==>
            #[trigger] print_char_spec(s, 10).cells[24 * 80 + col] == (s.color as int * 256 + 32) as u16,
        print_char_spec(s, 10).x == 0,
        print_char_spec(s, 10).y == 24,
        print_char_spec(s, 10).color == s.color,
{
    assert forall|r: int, col: int| 0 <= r < 24 && 0 <= col < 80 implies
        #[trigger] print_char_spec(s, 10).cells[r * 80 + col] == s.cells[(r + 1) * 80 + col] by {
        assert(r * 80 + col < 1920);
        assert(r * 80 + col + 80 == (r + 1) * 80 + col);
    }
}

/// A newline above the last row changes no cell and moves to the start of the next row.
pub proof fn lemma_newline_above_last_row(s: VgaState)
    requires
        vga_state_wf(s),
        s.y < 24,
    ensures
        print_char_spec(s, 10) == (VgaState { x: 0, y: s.y + 1, ..s }),
{
}

/// The two data bytes of the cursor writes put together give back the
/// position, for every position on the screen.
pub proof fn lemma_cursor_writes_position(pos: int)
    requires
        0 <= pos < 2000,
    ensures
        cursor_writes(pos)[1].value + cursor_writes(pos)[3].value * 256 == pos,
        cursor_writes(pos)[0].port == 0x3D4 && cursor_writes(pos)[2].port == 0x3D4,
        cursor_writes(pos)[1].port == 0x3D5 && cursor_writes(pos)[3].port == 0x3D5,
{
}

/// Printing keeps the cursor on the screen and the screen at 2000 cells.
pub proof fn lemma_print_keeps_cursor_on_screen(s: VgaState, c: u8)
    requires
        vga_state_wf(s),
    ensures
        vga_state_wf(print_char_spec(s, c)),
{
}

/// Printing `a` and then `b` is printing `a + b`.
pub proof fn lemma_print_bytes_concat(s: VgaState, a: Seq<u8>, b: Seq<u8>)
    ensures
        print_bytes_spec(s, a + b) == print_bytes_spec(print_bytes_spec(s, a), b),
    decreases b.len(),
{
    if b.len() == 0 {
        assert(a + b =~= a);
    } else {
        lemma_print_bytes_concat(s, a, b.drop_last());
        assert((a + b).drop_last() =~= a + b.drop_last());
    }
}

/// A backspace right after a character that did not end the row takes the
/// character back: the cursor returns and the cell is blank in the current attribute.
pub proof fn lemma_backspace_erases(s: VgaState, c: u8)
    requires
        vga_state_wf(s),
        c != 10,
        c != 8,
        s.x < 79,
    ensures
        print_char_spec(print_char_spec(s, c), 8) == (VgaState {
            cells: put_cell(s.cells, s.y, s.x, cell(s.color, 32)),
            ..s
        }),
{
    let i = s.y * 80 + s.x;
    assert(s.cells.update(i, cell(s.color, c)).update(i, cell(s.color, 32)) =~= s.cells.update(i, cell(s.color, 32)));
}

/// The text-mode driver: the screen contents, the cursor and the current attribute.
pub struct Vga {
    screen: Screen,
    cursor_x: usize,
    cursor_y: usize,
    color: u8,
}

impl View for Vga {
    type V = VgaState;

    closed spec fn view(&self) -> VgaState {
        VgaState {
            cells: self.screen@,
            x: self.cursor_x as int,
            y: self.cursor_y as int,
            color: self.color,
        }
    }
}

/// The cursor lies on the screen and the screen has its 2000 cells.
pub open spec fn vga_state_wf(s: VgaState) -> bool {
    &&& s.cells.len() == 2000
    &&& 0 <= s.x < 80
    &&& 0 <= s.y < 25
}

impl Vga {
    /// The screen has its cells and the cursor lies on it.
    pub open spec fn wf(&self) -> bool {
        vga_state_wf(self@)
    }

    /// The driver as the kernel starts it: default attribute, cursor at the
    /// top left, and a blank screen in that attribute.
    pub fn new() -> (v: Vga)
        ensures
            v.wf(),
            v@ == (VgaState { cells: filled(cell(DEFAULT_COLOR, 32)), x: 0, y: 0, color: DEFAULT_COLOR }),
    {
        let blank = make_cell(DEFAULT_COLOR, 32);
        Vga { screen: Screen::new_filled(blank), cursor_x: 0, cursor_y: 0, color: DEFAULT_COLOR }
    }

    /// The screen contents, row by row.
    pub fn cells(&self) -> (r: &Vec<u16>)
        ensures
            r@ == self@.cells,
    {
        self.screen.cells()
    }

    /// Column of the cursor.
    pub fn cursor_x(&self) -> (r: usize)
        ensures
            r == self@.x,
    {
        self.cursor_x
    }

    /// Row of the cursor.
    pub fn cursor_y(&self) -> (r: usize)
        ensures
            r == self@.y,
    {
        self.cursor_y
    }

    /// The attribute used for new text.
    pub fn color(&self) -> (r: u8)
        ensures
            r == self@.color,
    {
        self.color
    }

    /// Sets the attribute of new text to foreground `fg` on background `bg`.
    pub fn set_color(&mut self, fg: u8, bg: u8)
        requires
            old(self).wf(),
        ensures
            final(self).wf(),
            final(self)@ == (VgaState { color: attribute(fg, bg), ..old(self)@ }),
    {
        self.color = (bg << 4u8) | fg;
    }

    /// Blanks the whole screen in the current attribute and homes the cursor.
    pub fn clear_screen(&mut self)
        requires
            old(self).wf(),
        ensures
            final(self).wf(),
            final(self)@ == (VgaState {
                cells: filled(cell(old(self)@.color, 32)),
                x: 0,
                y: 0,
                color: old(self)@.color,
            }),
    {
        let blank = make_cell(self.color, 32);
        self.screen.fill(blank);
        self.cursor_x = 0;
        self.cursor_y = 0;
    }

    /// Prints one byte, as `print_char_spec` describes.
    pub fn print_char(&mut self, c: u8)
        requires
            old(self).wf(),
        ensures
            final(self).wf(),
            final(self)@ == print_char_spec(old(self)@, c),
    {
        if c == 10 {
            self.cursor_x = 0;
            self.cursor_y = self.cursor_y + 1;
        } else if c == 8 {
            if self.cursor_x > 0 {
                self.cursor_x = self.cursor_x - 1;
            }
            let blank = make_cell(self.color, 32);
            self.screen.put(self.cursor_y, self.cursor_x, blank);
        } else {
            let drawn = make_cell(self.color, c);
            self.screen.put(self.cursor_y, self.cursor_x, drawn);
            self.cursor_x = self.cursor_x + 1;
            if self.cursor_x >= SCREEN_WIDTH {
                self.cursor_x = 0;
                self.cursor_y = self.cursor_y + 1;
            }
        }
        if self.cursor_y >= SCREEN_HEIGHT {
            let blank = make_cell(self.color, 32);
            self.screen.scroll_up(blank);
            self.cursor_y = SCREEN_HEIGHT - 1;
        }
    }

    /// Prints the bytes of `bytes` in order.
    pub fn print_bytes(&mut self, bytes: &[u8])
        requires
            old(self).wf(),
        ensures
            final(self).wf(),
            final(self)@ == print_bytes_spec(old(self)@, bytes@),
    {
        let mut i: usize = 0;
        while i < bytes.len()
            invariant
                i <= bytes@.len(),
                self.wf(),
                self@ == print_bytes_spec(old(self)@, bytes@.take(i as int)),
            decreases bytes@.len() - i,
        {
            assert(bytes@.take(i as int + 1).drop_last() =~= bytes@.take(i as int));
            self.print_char(bytes[i]);
            i = i + 1;
        }
        assert(bytes@.take(i as int) =~= bytes@);
    }

    /// Prints the UTF-8 bytes of `s` in order.
    pub fn print_str(&mut self, s: &str)
        requires
            old(self).wf(),
        ensures
            final(self).wf(),
            final(self)@ == print_bytes_spec(old(self)@, s.spec_bytes()),
    {
        self.print_bytes(s.as_bytes());
    }

    /// The port writes that move the hardware cursor to the driver's cursor.
    pub fn update_cursor(&self) -> (w: Vec<PortWrite>)
        requires
            self.wf(),
        ensures
            w@ == cursor_writes(self@.y * 80 + self@.x),
    {
        let pos = self.cursor_y * SCREEN_WIDTH + self.cursor_x;
        let mut w: Vec<PortWrite> = Vec::new();
        w.push(PortWrite { port: 0x3D4, value: 0x0F });
        w.push(PortWrite { port: 0x3D5, value: (pos % 256) as u8 });
        w.push(PortWrite { port: 0x3D4, value: 0x0E });
        w.push(PortWrite { port: 0x3D5, value: ((pos / 256) % 256) as u8 });
        assert(w@ =~= cursor_writes(self@.y * 80 + self@.x));
        w
    }
}

} // verus!
