use vstd::prelude::*;

verus! {

/// Columns of the VGA text screen.
pub const SCREEN_WIDTH: usize = 80;

/// Rows of the VGA text screen.
pub const SCREEN_HEIGHT: usize = 25;

/// Cells of the VGA text screen.
pub const SCREEN_CELLS: usize = 2000;

/// The cells of the last row start here.
pub const LAST_ROW_START: usize = 1920;

/// A VGA text cell: the character in the low byte, the attribute in the high byte.
pub open spec fn cell(attr: u8, ch: u8) -> u16 {
    (attr as int * 256 + ch as int) as u16
}

/// The cell holding `ch` drawn with attribute `attr`.
pub fn make_cell(attr: u8, ch: u8) -> (r: u16)
    ensures
        r == cell(attr, ch),
        r as int == attr as int * 256 + ch as int,
{
    (attr as u16) * 256 + (ch as u16)
}

/// Index of the cell at `row`, `col`.
pub open spec fn cell_index(row: int, col: int) -> int {
    row * 80 + col
}

/// The screen with the cell at `row`, `col` replaced.
pub open spec fn put_cell(cells: Seq<u16>, row: int, col: int, c: u16) -> Seq<u16> {
    cells.update(cell_index(row, col), c)
}

/// The screen moved up by one row, with a blank last row.
pub open spec fn scrolled(cells: Seq<u16>, blank: u16) -> Seq<u16> {
    Seq::new(2000, |i: int| if i < 1920 { cells[i + 80] } else { blank })
}

/// A screen of 2000 equal cells.
pub open spec fn filled(c: u16) -> Seq<u16> {
    Seq::new(2000, |i: int| c)
}

/// The 80 x 25 cells of a text screen, row by row.
pub struct Screen {
    cells: Vec<u16>,
}

impl View for Screen {
    type V = Seq<u16>;

    closed spec fn view(&self) -> Seq<u16> {
        self.cells@
    }
}

impl Screen {
    /// A screen whose every cell is `c`.
    pub fn new_filled(c: u16) -> (s: Screen)
        ensures
            s@ == filled(c),
    {
        let cells = vec![c; SCREEN_CELLS];
        let s = Screen { cells };
        assert(s@ =~= filled(c));
        s
    }

    /// The cells, row by row, for the code that copies them to video memory.
    pub fn cells(&self) -> (r: &Vec<u16>)
        ensures
            r@ == self@,
    {
        &self.cells
    }

    /// Writes `c` at `row`, `col`.
    pub fn put(&mut self, row: usize, col: usize, c: u16)
        requires
            old(self)@.len() == 2000,
            row < 25,
            col < 80,
        ensures
            final(self)@ == put_cell(old(self)@, row as int, col as int, c),
    {
        self.cells.set(row * 80 + col, c);
    }

    /// Sets every cell to `c`.
    pub fn fill(&mut self, c: u16)
        requires
            old(self)@.len() == 2000,
        ensures
            final(self)@ == filled(c),
    {
        let mut i: usize = 0;
        while i < SCREEN_CELLS
            invariant
                i <= 2000,
                self.cells@.len() == 2000,
                forall|j: int| 0 <= j < i ==> self.cells@[j] == c,
            decreases 2000 - i,
        {
            self.cells.set(i, c);
            i = i + 1;
        }
        assert(self@ =~= filled(c));
    }

    /// Moves every row up by one, drops the first and fills the last with `blank`.
    pub fn scroll_up(&mut self, blank: u16)
        requires
            old(self)@.len() == 2000,
        ensures
            final(self)@ == scrolled(old(self)@, blank),
    {
        let ghost start = self.cells@;
        let mut i: usize = 0;
        while i < LAST_ROW_START
            invariant
                i <= 1920,
                self.cells@.len() == 2000,
                start.len() == 2000,
                forall|j: int| 0 <= j < i ==> self.cells@[j] == start[j + 80],
                forall|j: int| i <= j < 2000 ==> self.cells@[j] == start[j],
            decreases 1920 - i,
        {
            let v = self.cells[i + 80];
            self.cells.set(i, v);
            i = i + 1;
        }
        while i < SCREEN_CELLS
            invariant
                1920 <= i <= 2000,
                self.cells@.len() == 2000,
                start.len() == 2000,
                forall|j: int| 0 <= j < 1920 ==> self.cells@[j] == start[j + 80],
                forall|j: int| 1920 <= j < i ==> self.cells@[j] == blank,
            decreases 2000 - i,
        {
            self.cells.set(i, blank);
            i = i + 1;
        }
        assert(self@ =~= scrolled(start, blank));
    }
}

} // verus!
