use vstd::prelude::*;

verus! {

/// How many windows the window manager holds.
pub const WINDOW_COUNT: usize = 8;

/// A window: its id, position, size and whether it has the focus.
#[derive(Clone, Copy, Debug, PartialEq, Eq, Structural)]
pub struct Window {
    pub id: u8,
    pub x: usize,
    pub y: usize,
    pub w: usize,
    pub h: usize,
    pub active: bool,
}

/// The window the kernel starts every slot with: id 0, empty, without focus.
pub open spec fn empty_window() -> Window {
    Window { id: 0, x: 0, y: 0, w: 0, h: 0, active: false }
}

/// The last of the first `n` windows that has the focus, or 0 when none has.
pub open spec fn last_active(ws: Seq<Window>, n: int) -> int
    decreases n,
{
    if n <= 0 {
        0
    } else if ws[n - 1].active {
        n - 1
    } else {
        last_active(ws, n - 1)
    }
}

/// The windows after Alt+Tab: the focus leaves every window and goes to the
/// one after the last focused window (after window 0 when none had it),
/// wrapping from the eighth to the first.
pub open spec fn alt_tab_spec(ws: Seq<Window>) -> Seq<Window> {
    let next = (last_active(ws, 8) + 1) % 8;
    Seq::new(8, |i: int| Window { active: i == next, ..ws[i] })
}

/// Exactly window `i` has the focus.
pub open spec fn only_active(ws: Seq<Window>, i: int) -> bool {
    forall|j: int| 0 <= j < ws.len() ==> (#[trigger] ws[j].active <==> j == i)
}

/// The eight windows of the desktop.
pub struct WindowManager {
    windows: Vec<Window>,
}

impl View for WindowManager {
    type V = Seq<Window>;

    closed spec fn view(&self) -> Seq<Window> {
        self.windows@
    }
}

impl WindowManager {
    /// Eight empty windows, none with the focus.
    pub fn new() -> (m: WindowManager)
        ensures
            m@ == Seq::new(8, |i: int| empty_window()),
    {
        let m = WindowManager { windows: vec![Window { id: 0, x: 0, y: 0, w: 0, h: 0, active: false }; WINDOW_COUNT] };
        assert(m@ =~= Seq::new(8, |i: int| empty_window()));
        m
    }

    /// A window manager over `windows`, when there are exactly eight.
    pub fn from_windows(windows: Vec<Window>) -> (m: Option<WindowManager>)
        ensures
            m is Some <==> windows@.len() == 8,
            m matches Some(w) ==> w@ == windows@,
    {
        if windows.len() == WINDOW_COUNT {
            Some(WindowManager { windows })
        } else {
            None
        }
    }

    /// The windows, in order.
    pub fn windows(&self) -> (r: &Vec<Window>)
        ensures
            r@ == self@,
    {
        &self.windows
    }

    /// Moves the focus to the next window, as `alt_tab_spec` describes.
    pub fn alt_tab(&mut self)
        requires
            old(self)@.len() == 8,
        ensures
            final(self)@ == alt_tab_spec(old(self)@),
    {
        let ghost start = self.windows@;
        let mut active_idx: usize = 0;
        let mut i: usize = 0;
        while i < WINDOW_COUNT
            invariant
                i <= 8,
                start.len() == 8,
                self.windows@.len() == 8,
                active_idx == last_active(start, i as int),
                active_idx < 8,
                forall|j: int| 0 <= j < i ==> self.windows@[j] == (Window { active: false, ..start[j] }),
                forall|j: int| i <= j < 8 ==> self.windows@[j] == start[j],
            decreases 8 - i,
        {
            if self.windows[i].active {
                active_idx = i;
                let mut w = self.windows[i];
                w.active = false;
                self.windows.set(i, w);
            }
            i = i + 1;
        }
        let next = (active_idx + 1) % WINDOW_COUNT;
        let mut w = self.windows[next];
        w.active = true;
        self.windows.set(next, w);
        assert(self.windows@ =~= alt_tab_spec(start));
    }
}

proof fn lemma_last_active_only(ws: Seq<Window>, i: int, n: int)
    requires
        ws.len() == 8,
        only_active(ws, i),
        0 <= i < n <= 8,
    ensures
        last_active(ws, n) == i,
    decreases n,
{
    if n - 1 != i {
        assert(!ws[n - 1].active);
        lemma_last_active_only(ws, i, n - 1);
    } else {
        assert(ws[n - 1].active);
    }
}

/// When exactly one window has the focus, Alt+Tab gives it to the next window
/// only, wrapping from the last to the first, and changes nothing else of any window.
pub proof fn lemma_alt_tab_cycles(ws: Seq<Window>, i: int)
    requires
        ws.len() == 8,
        0 <= i < 8,
        only_active(ws, i),
    ensures
        only_active(alt_tab_spec(ws), (i + 1) % 8),
        forall|j: int| 0 <= j < 8 ==> (#[trigger] alt_tab_spec(ws)[j]) == (Window { active: j == (i + 1) % 8, ..ws[j] }),
{
    lemma_last_active_only(ws, i, 8);
}

/// Whatever the focus was, after Alt+Tab exactly one window has it.
pub proof fn lemma_alt_tab_single_focus(ws: Seq<Window>)
    requires
        ws.len() == 8,
    ensures
        only_active(alt_tab_spec(ws), (last_active(ws, 8) + 1) % 8),
{
}

} // verus!
