use vstd::prelude::*;
use crate::port::{PortWrite, port_write};

verus! {

/// The largest pointer column.
pub const MAX_X: i32 = 318;

/// The largest pointer row.
pub const MAX_Y: i32 = 198;

/// How many status reads a wait for the controller makes before it gives up.
pub const WAIT_TRIES: u32 = 100000;

/// The signed value of a movement byte.
pub open spec fn sign_extend(b: u8) -> int {
    if b < 128 { b as int } else { b as int - 256 }
}

/// `v` held within `lo` and `hi`.
pub open spec fn clamp_spec(v: int, lo: int, hi: int) -> int {
    if v < lo { lo } else if v > hi { hi } else { v }
}

/// The pointer position.
pub struct MouseState {
    pub x: int,
    pub y: int,
}

/// The position after a packet with header `status` and movements `dx`, `dy`:
/// when bit 3 of the header is set the pointer moves right by `dx` and up by
/// `dy`, held on the 319 x 199 screen; otherwise it stays.
pub open spec fn moved(s: MouseState, status: u8, dx: u8, dy: u8) -> MouseState {
    if status & 0x08 != 0 {
        MouseState {
            x: clamp_spec(s.x + sign_extend(dx), 0, 318),
            y: clamp_spec(s.y - sign_extend(dy), 0, 198),
        }
    } else {
        s
    }
}

/// The signed value of a movement byte.
fn movement(b: u8) -> (r: i32)
    ensures
        r == sign_extend(b),
{
    if b < 128 { b as i32 } else { b as i32 - 256 }
}

/// `v` held within `lo` and `hi`.
fn clamp_i32(v: i32, lo: i32, hi: i32) -> (r: i32)
    requires
        lo <= hi,
    ensures
        r == clamp_spec(v as int, lo as int, hi as int),
{
    if v < lo { lo } else if v > hi { hi } else { v }
}

/// The mouse driver: where the pointer is.
pub struct Mouse {
    x: i32,
    y: i32,
}

impl View for Mouse {
    type V = MouseState;

    closed spec fn view(&self) -> MouseState {
        MouseState { x: self.x as int, y: self.y as int }
    }
}

impl Mouse {
    /// The pointer lies on the 319 x 199 screen.
    pub open spec fn wf(&self) -> bool {
        0 <= self@.x <= 318 && 0 <= self@.y <= 198
    }

    /// The driver with the pointer at 160, 100.
    pub fn new() -> (m: Mouse)
        ensures
            m.wf(),
            m@ == (MouseState { x: 160, y: 100 }),
    {
        Mouse { x: 160, y: 100 }
    }

    /// The position and button state when no packet waits: the button counts as up.
    pub fn idle_state(&self) -> (r: (usize, usize, bool))
        requires
            self.wf(),
        ensures
            r.0 == self@.x,
            r.1 == self@.y,
            !r.2,
    {
        (self.x as usize, self.y as usize, false)
    }

    /// Applies a packet: header `status`, movements `dx` and `dy`. Returns the
    /// new position and whether the left button (bit 0 of the header) is down.
    pub fn apply_packet(&mut self, status: u8, dx: u8, dy: u8) -> (r: (usize, usize, bool))
        requires
            old(self).wf(),
        ensures
            final(self).wf(),
            final(self)@ == moved(old(self)@, status, dx, dy),
            r.0 == final(self)@.x,
            r.1 == final(self)@.y,
            r.2 == (status & 1 == 1),
    {
        let ddx = movement(dx);
        let ddy = movement(dy);
        if status & 0x08 != 0 {
            self.x = clamp_i32(self.x + ddx, 0, MAX_X);
            self.y = clamp_i32(self.y - ddy, 0, MAX_Y);
        }
        (self.x as usize, self.y as usize, status & 1 == 1)
    }
}

/// What a wait on the controller waits for.
#[derive(Clone, Copy, Debug, PartialEq, Eq, Structural)]
pub enum WaitKind {
    /// A byte to read (status bit 0 set).
    Readable,
    /// Room to write (status bit 1 clear).
    Writable,
}

/// The status byte ends a wait of this kind.
pub open spec fn wait_done(kind: WaitKind, status: u8) -> bool {
    match kind {
        WaitKind::Readable => status & 1 == 1,
        WaitKind::Writable => status & 2 == 0,
    }
}

/// A bounded wait on the controller status port.
pub struct PortWait {
    kind: WaitKind,
    remaining: u32,
}

impl PortWait {
    /// The kind of the wait.
    pub closed spec fn spec_kind(&self) -> WaitKind {
        self.kind
    }

    /// The status reads the wait may still make.
    pub closed spec fn spec_remaining(&self) -> u32 {
        self.remaining
    }

    /// A wait of `kind` with all its tries left.
    pub fn new(kind: WaitKind) -> (w: PortWait)
        ensures
            w.spec_kind() == kind,
            w.spec_remaining() == WAIT_TRIES,
    {
        PortWait { kind, remaining: WAIT_TRIES }
    }

    /// Whether the wait has used up its tries.
    pub fn expired(&self) -> (r: bool)
        ensures
            r == (self.spec_remaining() == 0),
    {
        self.remaining == 0
    }

    /// Takes a status byte: true when it ends the wait; otherwise one try is used.
    pub fn on_status(&mut self, status: u8) -> (done: bool)
        requires
            old(self).spec_remaining() > 0,
        ensures
            done == wait_done(old(self).spec_kind(), status),
            final(self).spec_kind() == old(self).spec_kind(),
            final(self).spec_remaining() == (if done {
                old(self).spec_remaining() as int
            } else {
                old(self).spec_remaining() - 1
            }),
    {
        let done = match self.kind {
            WaitKind::Readable => status & 1 == 1,
            WaitKind::Writable => status & 2 == 0,
        };
        if !done {
            self.remaining = self.remaining - 1;
        }
        done
    }
}

/// One step of the mouse set-up.
#[derive(Clone, Copy, Debug, PartialEq, Eq, Structural)]
pub enum InitStep {
    /// Wait until the controller has a byte or room for one.
    Wait(WaitKind),
    /// Write a byte to a port.
    Out(PortWrite),
    /// Read the controller configuration byte from the data port, turn on
    /// the mouse interrupt in it (`enable_aux_interrupt`) and keep it.
    ReadConfig,
    /// Write the kept configuration byte to the data port.
    WriteConfig,
    /// Read the mouse's acknowledgement from the data port and drop it.
    ReadAck,
}

/// The steps that send a byte to the mouse: through the controller's 0xD4 command.
pub open spec fn aux_write_steps(b: u8) -> Seq<InitStep> {
    seq![
        InitStep::Wait(WaitKind::Writable),
        InitStep::Out(port_write(0x64, 0xD4)),
        InitStep::Wait(WaitKind::Writable),
        InitStep::Out(port_write(0x60, b)),
    ]
}

/// The steps that read a byte from the mouse.
pub open spec fn aux_read_steps() -> Seq<InitStep> {
    seq![InitStep::Wait(WaitKind::Readable), InitStep::ReadAck]
}

/// The set-up: enable the auxiliary port, turn on its interrupt in the
/// configuration byte, restore the mouse defaults (0xF6) and start streaming (0xF4).
pub open spec fn init_steps() -> Seq<InitStep> {
    seq![
        InitStep::Wait(WaitKind::Writable),
        InitStep::Out(port_write(0x64, 0xA8)),
        InitStep::Wait(WaitKind::Writable),
        InitStep::Out(port_write(0x64, 0x20)),
        InitStep::Wait(WaitKind::Readable),
        InitStep::ReadConfig,
        InitStep::Wait(WaitKind::Writable),
        InitStep::Out(port_write(0x64, 0x60)),
        InitStep::Wait(WaitKind::Writable),
        InitStep::WriteConfig,
    ] + aux_write_steps(0xF6) + aux_read_steps() + aux_write_steps(0xF4) + aux_read_steps()
}

/// The configuration byte with the mouse interrupt (bit 1) turned on.
pub fn enable_aux_interrupt(config: u8) -> (r: u8)
    ensures
        r == config | 2,
{
    config | 2
}

/// Appends the steps that send `b` to the mouse.
fn push_aux_write(steps: &mut Vec<InitStep>, b: u8)
    ensures
        final(steps)@ == old(steps)@ + aux_write_steps(b),
{
    steps.push(InitStep::Wait(WaitKind::Writable));
    steps.push(InitStep::Out(PortWrite { port: 0x64, value: 0xD4 }));
    steps.push(InitStep::Wait(WaitKind::Writable));
    steps.push(InitStep::Out(PortWrite { port: 0x60, value: b }));
    assert(final(steps)@ =~= old(steps)@ + aux_write_steps(b));
}

/// Appends the steps that read a byte from the mouse.
fn push_aux_read(steps: &mut Vec<InitStep>)
    ensures
        final(steps)@ == old(steps)@ + aux_read_steps(),
{
    steps.push(InitStep::Wait(WaitKind::Readable));
    steps.push(InitStep::ReadAck);
    assert(final(steps)@ =~= old(steps)@ + aux_read_steps());
}

/// The steps that set up the mouse, in order.
pub fn init_script() -> (steps: Vec<InitStep>)
    ensures
        steps@ == init_steps(),
{
    let mut steps: Vec<InitStep> = Vec::new();
    steps.push(InitStep::Wait(WaitKind::Writable));
    steps.push(InitStep::Out(PortWrite { port: 0x64, value: 0xA8 }));
    steps.push(InitStep::Wait(WaitKind::Writable));
    steps.push(InitStep::Out(PortWrite { port: 0x64, value: 0x20 }));
    steps.push(InitStep::Wait(WaitKind::Readable));
    steps.push(InitStep::ReadConfig);
    steps.push(InitStep::Wait(WaitKind::Writable));
    steps.push(InitStep::Out(PortWrite { port: 0x64, value: 0x60 }));
    steps.push(InitStep::Wait(WaitKind::Writable));
    steps.push(InitStep::WriteConfig);
    push_aux_write(&mut steps, 0xF6);
    push_aux_read(&mut steps);
    push_aux_write(&mut steps, 0xF4);
    push_aux_read(&mut steps);
    assert(steps@ =~= init_steps());
    steps
}

/// Whatever packet comes, the pointer stays on the screen, within 0..=318 and 0..=198.
pub proof fn lemma_pointer_stays_on_screen(s: MouseState, status: u8, dx: u8, dy: u8)
    requires
        0 <= s.x <= 318,
        0 <= s.y <= 198,
    ensures
        0 <= moved(s, status, dx, dy).x <= 318,
        0 <= moved(s, status, dx, dy).y <= 198,
{
}

} // verus!
