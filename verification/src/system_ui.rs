use vstd::prelude::*;

verus! {

/// One drawing command of the 320 x 200 desktop.
#[derive(Clone, Copy, Debug, PartialEq, Eq)]
pub enum DrawOp {
    /// Fill the whole back buffer with a colour.
    Clear { color: u8 },
    /// Fill a rectangle.
    Rect { x: usize, y: usize, w: usize, h: usize, color: u8 },
    /// Draw a text at a position.
    Text { text: &'static str, x: usize, y: usize, color: u8 },
    /// Show the back buffer.
    Present,
}

/// The frames the boot animation lasts before the login screen.
pub const BOOT_FRAMES: u32 = 150;

/// How many frames a notification stays.
pub const NOTIF_FRAMES: u16 = 200;

pub open spec fn rect(x: int, y: int, w: int, h: int, color: u8) -> DrawOp {
    DrawOp::Rect { x: x as usize, y: y as usize, w: w as usize, h: h as usize, color }
}

/// A panel lit from the top left: the fill, white top and left edges, dark
/// grey right and bottom edges.
pub open spec fn raised_rect_ops(x: int, y: int, w: int, h: int, bg: u8) -> Seq<DrawOp> {
    seq![
        rect(x, y, w, h, bg),
        rect(x, y, w, 1, 15),
        rect(x, y, 1, h, 15),
        rect(x + w - 1, y, 1, h, 8),
        rect(x, y + h - 1, w, 1, 8),
    ]
}

/// A panel lit from the bottom right: dark grey top and left edges, white
/// right and bottom edges.
pub open spec fn sunken_rect_ops(x: int, y: int, w: int, h: int, bg: u8) -> Seq<DrawOp> {
    seq![
        rect(x, y, w, h, bg),
        rect(x, y, w, 1, 8),
        rect(x, y, 1, h, 8),
        rect(x + w - 1, y, 1, h, 15),
        rect(x, y + h - 1, w, 1, 15),
    ]
}

/// The white arrow of the mouse pointer.
pub open spec fn cursor_ops(x: int, y: int) -> Seq<DrawOp> {
    seq![rect(x, y, 2, 6, 15), rect(x, y, 5, 2, 15), rect(x + 2, y + 2, 2, 2, 15)]
}

/// The width of the filled part of the boot progress bar.
pub open spec fn bar_width(progress: u32) -> int {
    if progress > 196 { 196 } else { progress as int }
}

/// The boot screen: the logo, the caption and the progress bar.
pub open spec fn boot_ops(progress: u32) -> Seq<DrawOp> {
    seq![
        DrawOp::Clear { color: 0 },
        DrawOp::Text { text: "OMNIX OS", x: 120, y: 80, color: 15 },
        DrawOp::Text { text: "Starting...", x: 110, y: 100, color: 7 },
    ] + sunken_rect_ops(60, 120, 200, 15, 0) + seq![rect(62, 122, bar_width(progress), 11, 2)]
}

/// The colour of a login button: light green under the pointer, grey otherwise.
pub open spec fn button_color(hover: bool) -> u8 {
    if hover { 10 } else { 7 }
}

/// The pointer lies on the drawn ADMIN button.
pub open spec fn over_admin_button(mx: int, my: int) -> bool {
    110 < mx < 210 && 130 < my < 150
}

/// The pointer lies on the drawn USER button.
pub open spec fn over_user_button(mx: int, my: int) -> bool {
    110 < mx < 210 && 160 < my < 180
}

/// The login screen: the avatar, the name and the two buttons.
pub open spec fn login_ops(mx: int, my: int) -> Seq<DrawOp> {
    seq![DrawOp::Clear { color: 1 }]
        + raised_rect_ops(130, 40, 60, 60, 7)
        + seq![
            rect(145, 50, 30, 30, 15),
            rect(135, 85, 50, 15, 15),
            DrawOp::Text { text: "OMNIX", x: 140, y: 110, color: 15 },
        ]
        + raised_rect_ops(110, 130, 100, 20, button_color(over_admin_button(mx, my)))
        + seq![DrawOp::Text { text: "ADMIN", x: 140, y: 136, color: 0 }]
        + raised_rect_ops(110, 160, 100, 20, button_color(over_user_button(mx, my)))
        + seq![DrawOp::Text { text: "USER", x: 145, y: 166, color: 0 }]
}

/// The desktop: the background, the task bar and its START button.
pub open spec fn desktop_ops(bg: u8) -> Seq<DrawOp> {
    seq![DrawOp::Clear { color: bg }]
        + raised_rect_ops(0, 180, 320, 20, 7)
        + raised_rect_ops(2, 182, 45, 16, 10)
        + seq![DrawOp::Text { text: "START", x: 8, y: 186, color: 0 }]
}

/// Appends the commands of a raised panel.
pub fn draw_raised_rect(ops: &mut Vec<DrawOp>, x: usize, y: usize, w: usize, h: usize, bg: u8)
    requires
        1 <= x + w <= usize::MAX,
        1 <= y + h <= usize::MAX,
    ensures
        final(ops)@ == old(ops)@ + raised_rect_ops(x as int, y as int, w as int, h as int, bg),
{
    ops.push(DrawOp::Rect { x, y, w, h, color: bg });
    ops.push(DrawOp::Rect { x, y, w, h: 1, color: 15 });
    ops.push(DrawOp::Rect { x, y, w: 1, h, color: 15 });
    ops.push(DrawOp::Rect { x: x + w - 1, y, w: 1, h, color: 8 });
    ops.push(DrawOp::Rect { x, y: y + h - 1, w, h: 1, color: 8 });
    assert(final(ops)@ =~= old(ops)@ + raised_rect_ops(x as int, y as int, w as int, h as int, bg));
}

/// Appends the commands of a sunken panel.
pub fn draw_sunken_rect(ops: &mut Vec<DrawOp>, x: usize, y: usize, w: usize, h: usize, bg: u8)
    requires
        1 <= x + w <= usize::MAX,
        1 <= y + h <= usize::MAX,
    ensures
        final(ops)@ == old(ops)@ + sunken_rect_ops(x as int, y as int, w as int, h as int, bg),
{
    ops.push(DrawOp::Rect { x, y, w, h, color: bg });
    ops.push(DrawOp::Rect { x, y, w, h: 1, color: 8 });
    ops.push(DrawOp::Rect { x, y, w: 1, h, color: 8 });
    ops.push(DrawOp::Rect { x: x + w - 1, y, w: 1, h, color: 15 });
    ops.push(DrawOp::Rect { x, y: y + h - 1, w, h: 1, color: 15 });
    assert(final(ops)@ =~= old(ops)@ + sunken_rect_ops(x as int, y as int, w as int, h as int, bg));
}

/// Appends the commands of the mouse pointer at `x`, `y`.
pub fn draw_cursor(ops: &mut Vec<DrawOp>, x: usize, y: usize)
    requires
        x + 2 <= usize::MAX,
        y + 2 <= usize::MAX,
    ensures
        final(ops)@ == old(ops)@ + cursor_ops(x as int, y as int),
{
    ops.push(DrawOp::Rect { x, y, w: 2, h: 6, color: 15 });
    ops.push(DrawOp::Rect { x, y, w: 5, h: 2, color: 15 });
    ops.push(DrawOp::Rect { x: x + 2, y: y + 2, w: 2, h: 2, color: 15 });
    assert(final(ops)@ =~= old(ops)@ + cursor_ops(x as int, y as int));
}

/// Appends the commands of the boot screen for a progress count.
pub fn draw_boot_animation(ops: &mut Vec<DrawOp>, progress: u32)
    ensures
        final(ops)@ == old(ops)@ + boot_ops(progress),
{
    ops.push(DrawOp::Clear { color: 0 });
    ops.push(DrawOp::Text { text: "OMNIX OS", x: 120, y: 80, color: 15 });
    ops.push(DrawOp::Text { text: "Starting...", x: 110, y: 100, color: 7 });
    draw_sunken_rect(ops, 60, 120, 200, 15, 0);
    let bar: usize = if progress > 196 { 196 } else { progress as usize };
    ops.push(DrawOp::Rect { x: 62, y: 122, w: bar, h: 11, color: 2 });
    assert(final(ops)@ =~= old(ops)@ + boot_ops(progress));
}

/// Appends the commands of the login screen with the pointer at `mx`, `my`.
pub fn draw_windows_login(ops: &mut Vec<DrawOp>, mx: usize, my: usize)
    ensures
        final(ops)@ == old(ops)@ + login_ops(mx as int, my as int),
{
    ops.push(DrawOp::Clear { color: 1 });
    draw_raised_rect(ops, 130, 40, 60, 60, 7);
    ops.push(DrawOp::Rect { x: 145, y: 50, w: 30, h: 30, color: 15 });
    ops.push(DrawOp::Rect { x: 135, y: 85, w: 50, h: 15, color: 15 });
    ops.push(DrawOp::Text { text: "OMNIX", x: 140, y: 110, color: 15 });
    let admin_c: u8 = if mx > 110 && mx < 210 && my > 130 && my < 150 { 10 } else { 7 };
    draw_raised_rect(ops, 110, 130, 100, 20, admin_c);
    ops.push(DrawOp::Text { text: "ADMIN", x: 140, y: 136, color: 0 });
    let user_c: u8 = if mx > 110 && mx < 210 && my > 160 && my < 180 { 10 } else { 7 };
    draw_raised_rect(ops, 110, 160, 100, 20, user_c);
    ops.push(DrawOp::Text { text: "USER", x: 145, y: 166, color: 0 });
    assert(final(ops)@ =~= old(ops)@ + login_ops(mx as int, my as int));
}

/// Appends the commands of the desktop in background colour `bg`.
pub fn draw_desktop(ops: &mut Vec<DrawOp>, bg: u8)
    ensures
        final(ops)@ == old(ops)@ + desktop_ops(bg),
{
    ops.push(DrawOp::Clear { color: bg });
    draw_raised_rect(ops, 0, 180, 320, 20, 7);
    draw_raised_rect(ops, 2, 182, 45, 16, 10);
    ops.push(DrawOp::Text { text: "START", x: 8, y: 186, color: 0 });
    assert(final(ops)@ =~= old(ops)@ + desktop_ops(bg));
}

/// What the desktop holds between frames. `os_state` is 0 during the boot
/// animation, 1 on the login screen and 2 on the desktop.
pub struct UiState {
    pub os_state: u8,
    pub is_admin: bool,
    pub bg_color: u8,
    pub boot_progress: u32,
    pub notif_msg: Seq<char>,
    pub notif_timer: u16,
    pub start_menu_open: bool,
    pub blink_frame: u32,
    pub last_click: bool,
}

/// The state the desktop starts in.
pub open spec fn initial_ui() -> UiState {
    UiState {
        os_state: 0,
        is_admin: false,
        bg_color: 3,
        boot_progress: 0,
        notif_msg: ""@,
        notif_timer: 0,
        start_menu_open: false,
        blink_frame: 0,
        last_click: false,
    }
}

/// The phase is one of the three and the boot count stays below the end of the boot.
pub open spec fn ui_wf(s: UiState) -> bool {
    &&& s.os_state <= 2
    &&& s.os_state == 0 ==> s.boot_progress <= 150
}

/// The state after a login that sets the administrator flag to `admin`.
pub open spec fn logged_in(s: UiState, admin: bool) -> UiState {
    UiState { is_admin: admin, os_state: 2, notif_msg: "WELCOME!"@, notif_timer: 200, ..s }
}

/// The state after one frame with the pointer at `mx`, `my` and the left
/// button down when `clicked`. A click counts on the frame where the button
/// goes down. The boot animation ends after its 151st frame; a click in one of
/// the two login boxes logs in as administrator or as user; the desktop stays.
pub open spec fn ui_next(s: UiState, mx: int, my: int, clicked: bool) -> UiState {
    let b = UiState { blink_frame: s.blink_frame.wrapping_add(1), ..s };
    let press = clicked && !s.last_click;
    let t = if s.os_state == 0 {
        let p = (s.boot_progress + 1) as u32;
        UiState { boot_progress: p, os_state: if p > 150 { 1u8 } else { 0u8 }, ..b }
    } else if s.os_state == 1 && press {
        let a = if over_admin_button(mx, my) { logged_in(b, true) } else { b };
        if over_user_button(mx, my) { logged_in(a, false) } else { a }
    } else {
        b
    };
    UiState { last_click: clicked, ..t }
}

/// What one frame draws: the scene of the phase the frame starts in, the
/// pointer once the boot animation is over, then the command to show it.
pub open spec fn ui_frame(s: UiState, mx: int, my: int, clicked: bool) -> Seq<DrawOp> {
    let scene = if s.os_state == 0 {
        boot_ops(s.boot_progress)
    } else if s.os_state == 1 {
        login_ops(mx, my)
    } else {
        desktop_ops(s.bg_color)
    };
    let pointer = if ui_next(s, mx, my, clicked).os_state > 0 { cursor_ops(mx, my) } else { seq![] };
    scene + pointer + seq![DrawOp::Present]
}

/// The state after the frames of `inputs`, each a pointer position and button.
pub open spec fn ui_run(s: UiState, inputs: Seq<(int, int, bool)>) -> UiState
    decreases inputs.len(),
{
    if inputs.len() == 0 {
        s
    } else {
        let last = inputs.last();
        ui_next(ui_run(s, inputs.drop_last()), last.0, last.1, last.2)
    }
}

/// A frame keeps the state well formed, never moves back to an earlier phase,
/// and once on the desktop the desktop and the logged-in user stay.
pub proof fn lemma_phase_never_goes_back(s: UiState, mx: int, my: int, clicked: bool)
    requires
        ui_wf(s),
    ensures
        ui_wf(ui_next(s, mx, my, clicked)),
        ui_next(s, mx, my, clicked).os_state >= s.os_state,
        s.os_state == 2 ==> ui_next(s, mx, my, clicked).os_state == 2
            && ui_next(s, mx, my, clicked).is_admin == s.is_admin,
{
}

/// Whatever the mouse does, the boot animation runs for exactly 151 frames:
/// after `k` frames from the start, with `k` at most 151, the boot count is `k`,
/// and the login screen shows exactly when `k` is 151.
pub proof fn lemma_boot_length(inputs: Seq<(int, int, bool)>)
    requires
        inputs.len() <= 151,
    ensures
        ui_run(initial_ui(), inputs).boot_progress == inputs.len(),
        ui_run(initial_ui(), inputs).os_state == (if inputs.len() == 151 { 1u8 } else { 0u8 }),
    decreases inputs.len(),
{
    if inputs.len() > 0 {
        lemma_boot_length(inputs.drop_last());
    }
}

/// On the login screen, a fresh click on the drawn ADMIN button logs in as
/// administrator and one on the drawn USER button logs in as user; anything
/// else leaves the login screen showing.
pub proof fn lemma_login_choice(s: UiState, mx: int, my: int, clicked: bool)
    requires
        ui_wf(s),
        s.os_state == 1,
    ensures
        clicked && !s.last_click && over_admin_button(mx, my) ==> ui_next(s, mx, my, clicked).os_state == 2
            && ui_next(s, mx, my, clicked).is_admin,
        clicked && !s.last_click && over_user_button(mx, my) ==> ui_next(s, mx, my, clicked).os_state == 2
            && !ui_next(s, mx, my, clicked).is_admin,
        !(clicked && !s.last_click && (over_admin_button(mx, my) || over_user_button(mx, my)))
            ==> ui_next(s, mx, my, clicked).os_state == 1,
{
}

/// Over any run of frames the state stays well formed, the phase never moves
/// back, and once on the desktop the desktop and the logged-in user stay.
pub proof fn lemma_run_phase_never_goes_back(s: UiState, inputs: Seq<(int, int, bool)>)
    requires
        ui_wf(s),
    ensures
        ui_wf(ui_run(s, inputs)),
        ui_run(s, inputs).os_state >= s.os_state,
        s.os_state == 2 ==> ui_run(s, inputs).os_state == 2 && ui_run(s, inputs).is_admin == s.is_admin,
    decreases inputs.len(),
{
    if inputs.len() > 0 {
        let d = inputs.drop_last();
        let last = inputs.last();
        lemma_run_phase_never_goes_back(s, d);
        lemma_phase_never_goes_back(ui_run(s, d), last.0, last.1, last.2);
    }
}

/// Every frame ends with the command to show it; it draws the pointer last,
/// just before that, exactly when the new phase is past the boot animation;
/// and it logs in only on the frame where the button goes down.
pub proof fn lemma_frame_shape(s: UiState, mx: int, my: int, clicked: bool)
    requires
        ui_wf(s),
    ensures
        ui_frame(s, mx, my, clicked).last() == DrawOp::Present,
        ui_next(s, mx, my, clicked).os_state > 0 ==> ui_frame(s, mx, my, clicked).subrange(
            ui_frame(s, mx, my, clicked).len() - 4,
            ui_frame(s, mx, my, clicked).len() - 1,
        ) == cursor_ops(mx, my),
        ui_next(s, mx, my, clicked).os_state == 0 ==> ui_frame(s, mx, my, clicked) == boot_ops(s.boot_progress)
            + seq![DrawOp::Present],
        s.os_state == 1 && ui_next(s, mx, my, clicked).os_state == 2 ==> clicked && !s.last_click,
        ui_next(s, mx, my, clicked).last_click == clicked,
{
    let f = ui_frame(s, mx, my, clicked);
    let scene = if s.os_state == 0 {
        boot_ops(s.boot_progress)
    } else if s.os_state == 1 {
        login_ops(mx, my)
    } else {
        desktop_ops(s.bg_color)
    };
    if ui_next(s, mx, my, clicked).os_state > 0 {
        assert(f.subrange(f.len() - 4, f.len() - 1) =~= cursor_ops(mx, my));
    } else {
        assert(f =~= boot_ops(s.boot_progress) + seq![DrawOp::Present]);
    }
}

/// A button held down over many frames on the login screen is no click: while
/// it stays down from before the first frame, the login screen stays.
pub proof fn lemma_held_button_no_login(s: UiState, inputs: Seq<(int, int, bool)>)
    requires
        ui_wf(s),
        s.os_state == 1,
        s.last_click,
        forall|i: int| 0 <= i < inputs.len() ==> (#[trigger] inputs[i]).2,
    ensures
        ui_run(s, inputs).os_state == 1,
        ui_run(s, inputs).last_click,
    decreases inputs.len(),
{
    if inputs.len() > 0 {
        let d = inputs.drop_last();
        assert forall|i: int| 0 <= i < d.len() implies (#[trigger] d[i]).2 by {
            assert(d[i] == inputs[i]);
        }
        lemma_held_button_no_login(s, d);
        assert(inputs[inputs.len() - 1].2);
    } else {
    }
}

/// The login screen labels its two buttons by what they do: every text drawn
/// where a click logs in as administrator reads "ADMIN", every text drawn where
/// a click logs in as user reads "USER", and each button carries its label.
pub proof fn lemma_login_labels(mx: int, my: int)
    ensures
        forall|i: int| 0 <= i < login_ops(mx, my).len() ==> (#[trigger] login_ops(mx, my)[i] matches DrawOp::Text { text, x, y, .. }
            ==> (over_admin_button(x as int, y as int) ==> text@ == "ADMIN"@)),
        forall|i: int| 0 <= i < login_ops(mx, my).len() ==> (#[trigger] login_ops(mx, my)[i] matches DrawOp::Text { text, x, y, .. }
            ==> (over_user_button(x as int, y as int) ==> text@ == "USER"@)),
        exists|i: int| 0 <= i < login_ops(mx, my).len() && (#[trigger] login_ops(mx, my)[i] matches DrawOp::Text { text, x, y, .. }
            && over_admin_button(x as int, y as int) && text@ == "ADMIN"@),
        exists|i: int| 0 <= i < login_ops(mx, my).len() && (#[trigger] login_ops(mx, my)[i] matches DrawOp::Text { text, x, y, .. }
            && over_user_button(x as int, y as int) && text@ == "USER"@),
{
    let ops = login_ops(mx, my);
    let a = button_color(over_admin_button(mx, my));
    let u = button_color(over_user_button(mx, my));
    let expect = seq![
        DrawOp::Clear { color: 1 },
        rect(130, 40, 60, 60, 7),
        rect(130, 40, 60, 1, 15),
        rect(130, 40, 1, 60, 15),
        rect(189, 40, 1, 60, 8),
        rect(130, 99, 60, 1, 8),
        rect(145, 50, 30, 30, 15),
        rect(135, 85, 50, 15, 15),
        DrawOp::Text { text: "OMNIX", x: 140, y: 110, color: 15 },
        rect(110, 130, 100, 20, a),
        rect(110, 130, 100, 1, 15),
        rect(110, 130, 1, 20, 15),
        rect(209, 130, 1, 20, 8),
        rect(110, 149, 100, 1, 8),
        DrawOp::Text { text: "ADMIN", x: 140, y: 136, color: 0 },
        rect(110, 160, 100, 20, u),
        rect(110, 160, 100, 1, 15),
        rect(110, 160, 1, 20, 15),
        rect(209, 160, 1, 20, 8),
        rect(110, 179, 100, 1, 8),
        DrawOp::Text { text: "USER", x: 145, y: 166, color: 0 },
    ];
    assert(ops =~= expect);
    assert(ops[14] matches DrawOp::Text { text, x, y, .. } && over_admin_button(x as int, y as int) && text@ == "ADMIN"@);
    assert(ops[20] matches DrawOp::Text { text, x, y, .. } && over_user_button(x as int, y as int) && text@ == "USER"@);
}

/// The desktop: the phase, the user, the notification and the mouse button.
pub struct SystemUi {
    os_state: u8,
    is_admin: bool,
    bg_color: u8,
    boot_progress: u32,
    notif_msg: &'static str,
    notif_timer: u16,
    start_menu_open: bool,
    blink_frame: u32,
    last_click: bool,
}

impl View for SystemUi {
    type V = UiState;

    closed spec fn view(&self) -> UiState {
        UiState {
            os_state: self.os_state,
            is_admin: self.is_admin,
            bg_color: self.bg_color,
            boot_progress: self.boot_progress,
            notif_msg: self.notif_msg@,
            notif_timer: self.notif_timer,
            start_menu_open: self.start_menu_open,
            blink_frame: self.blink_frame,
            last_click: self.last_click,
        }
    }
}

impl SystemUi {
    /// The desktop as the system starts it: in the boot animation.
    pub fn new() -> (u: SystemUi)
        ensures
            u@ == initial_ui(),
            ui_wf(u@),
    {
        SystemUi {
            os_state: 0,
            is_admin: false,
            bg_color: 3,
            boot_progress: 0,
            notif_msg: "",
            notif_timer: 0,
            start_menu_open: false,
            blink_frame: 0,
            last_click: false,
        }
    }

    /// The phase: 0 boot animation, 1 login screen, 2 desktop.
    pub fn os_state(&self) -> (r: u8)
        ensures
            r == self@.os_state,
    {
        self.os_state
    }

    /// Whether the administrator logged in.
    pub fn is_admin(&self) -> (r: bool)
        ensures
            r == self@.is_admin,
    {
        self.is_admin
    }

    /// The notification text.
    pub fn notif_msg(&self) -> (r: &'static str)
        ensures
            r@ == self@.notif_msg,
    {
        self.notif_msg
    }

    /// The frames the notification has left.
    pub fn notif_timer(&self) -> (r: u16)
        ensures
            r == self@.notif_timer,
    {
        self.notif_timer
    }

    /// Shows a notification for 200 frames.
    pub fn show_notif(&mut self, msg: &'static str)
        ensures
            final(self)@ == (UiState { notif_msg: msg@, notif_timer: 200, ..old(self)@ }),
    {
        self.notif_msg = msg;
        self.notif_timer = NOTIF_FRAMES;
    }

    /// Runs one frame of the desktop with the pointer at `mx`, `my` and the left
    /// button down when `is_clicked`, and returns what the frame draws.
    pub fn step(&mut self, mx: usize, my: usize, is_clicked: bool) -> (ops: Vec<DrawOp>)
        requires
            ui_wf(old(self)@),
            mx + 2 <= usize::MAX,
            my + 2 <= usize::MAX,
        ensures
            ui_wf(final(self)@),
            final(self)@ == ui_next(old(self)@, mx as int, my as int, is_clicked),
            ops@ == ui_frame(old(self)@, mx as int, my as int, is_clicked),
    {
        let mut ops: Vec<DrawOp> = Vec::new();
        self.blink_frame = self.blink_frame.wrapping_add(1);
        let clicked_now = is_clicked && !self.last_click;
        if self.os_state == 0 {
            draw_boot_animation(&mut ops, self.boot_progress);
            self.boot_progress = self.boot_progress + 1;
            if self.boot_progress > BOOT_FRAMES {
                self.os_state = 1;
            }
        } else if self.os_state == 1 {
            draw_windows_login(&mut ops, mx, my);
            if clicked_now {
                if mx > 110 && mx < 210 && my > 130 && my < 150 {
                    self.is_admin = true;
                    self.os_state = 2;
                    self.show_notif("WELCOME!");
                }
                if mx > 110 && mx < 210 && my > 160 && my < 180 {
                    self.is_admin = false;
                    self.os_state = 2;
                    self.show_notif("WELCOME!");
                }
            }
        } else {
            draw_desktop(&mut ops, self.bg_color);
        }
        self.last_click = is_clicked;
        if self.os_state > 0 {
            draw_cursor(&mut ops, mx, my);
        }
        ops.push(DrawOp::Present);
        assert(ops@ =~= ui_frame(old(self)@, mx as int, my as int, is_clicked));
        ops
    }
}

} // verus!
