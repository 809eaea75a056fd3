use vstd::prelude::*;
use crate::port::{PortWrite, port_write};

verus! {

/// Bytes in a sector.
pub const SECTOR_SIZE: usize = 512;

/// 16-bit words in a sector.
pub const SECTOR_WORDS: usize = 256;

/// The data port of the primary ATA channel.
pub const DATA_PORT: u16 = 0x1F0;

/// The command and status port of the primary ATA channel.
pub const COMMAND_PORT: u16 = 0x1F7;

/// How many status reads the driver makes while the drive is busy before it gives up.
pub const READY_TRIES: u32 = 0xFFFFFF;

/// The register writes that select one sector at `lba` (28-bit LBA mode, master
/// drive) and send the WRITE SECTORS command.
pub open spec fn setup_writes_spec(lba: u32) -> Seq<PortWrite> {
    seq![
        port_write(0x1F2, 1),
        port_write(0x1F3, (lba % 256) as u8),
        port_write(0x1F4, ((lba / 256) % 256) as u8),
        port_write(0x1F5, ((lba / 65536) % 256) as u8),
        port_write(0x1F6, (0xE0 + (lba / 0x1000000) % 16) as u8),
        port_write(0x1F7, 0x30),
    ]
}

/// The little-endian 16-bit words of a sector, in order.
pub open spec fn sector_words_spec(data: Seq<u8>) -> Seq<u16> {
    Seq::new(256, |i: int| (data[2 * i] + data[2 * i + 1] * 256) as u16)
}

/// The status says the drive is ready: not busy (bit 7) and ready (bit 6).
pub open spec fn drive_ready(status: u8) -> bool {
    status & 0xC0 == 0x40
}

/// The status says the drive wants data (bit 3).
pub open spec fn data_request(status: u8) -> bool {
    status & 0x08 != 0
}

/// The register writes that select the sector at `lba` and start a write.
pub fn setup_writes(lba: u32) -> (w: Vec<PortWrite>)
    ensures
        w@ == setup_writes_spec(lba),
{
    let mut w: Vec<PortWrite> = Vec::new();
    w.push(PortWrite { port: 0x1F2, value: 1 });
    w.push(PortWrite { port: 0x1F3, value: (lba % 256) as u8 });
    w.push(PortWrite { port: 0x1F4, value: ((lba / 256) % 256) as u8 });
    w.push(PortWrite { port: 0x1F5, value: ((lba / 65536) % 256) as u8 });
    w.push(PortWrite { port: 0x1F6, value: 0xE0 + ((lba / 0x1000000) % 16) as u8 });
    w.push(PortWrite { port: COMMAND_PORT, value: 0x30 });
    assert(w@ =~= setup_writes_spec(lba));
    w
}

/// The words that go out through the data port for the sector `data`.
pub fn sector_words(data: &[u8; SECTOR_SIZE]) -> (words: Vec<u16>)
    ensures
        words@ == sector_words_spec(data@),
{
    let mut words: Vec<u16> = Vec::new();
    let mut i: usize = 0;
    while i < SECTOR_WORDS
        invariant
            i <= 256,
            data@.len() == 512,
            words@.len() == i,
            forall|j: int| 0 <= j < i ==> words@[j] == sector_words_spec(data@)[j],
        decreases 256 - i,
    {
        let lo = data[i * 2] as u16;
        let hi = data[i * 2 + 1] as u16;
        words.push(lo + hi * 256);
        i = i + 1;
    }
    assert(words@ =~= sector_words_spec(data@));
    words
}

/// The write that flushes the drive's cache (CACHE FLUSH) after a sector.
pub fn flush_write() -> (w: PortWrite)
    ensures
        w == port_write(0x1F7, 0xE7),
{
    PortWrite { port: COMMAND_PORT, value: 0xE7 }
}

/// Whether the status says the drive wants the sector's data.
pub fn drq_ready(status: u8) -> (r: bool)
    ensures
        r == data_request(status),
{
    status & 0x08 != 0
}

/// What the driver does with a status byte while it waits for the drive.
#[derive(Clone, Copy, Debug, PartialEq, Eq, Structural)]
pub enum ReadyPoll {
    /// The drive is ready: go on with the write.
    Ready,
    /// Read the status again.
    Retry,
    /// The tries are used up: drop the write.
    GiveUp,
}

/// The wait for the drive to become ready, with its tries left.
pub struct ReadyWait {
    remaining: u32,
}

impl ReadyWait {
    /// The status reads the wait may still make.
    pub closed spec fn spec_remaining(&self) -> u32 {
        self.remaining
    }

    /// A wait with all its tries.
    pub fn new() -> (w: ReadyWait)
        ensures
            w.spec_remaining() == READY_TRIES,
    {
        ReadyWait { remaining: READY_TRIES }
    }

    /// Takes a status byte: ready, or one try used, giving up when none is left.
    pub fn on_status(&mut self, status: u8) -> (r: ReadyPoll)
        requires
            old(self).spec_remaining() > 0,
        ensures
            drive_ready(status) ==> r == ReadyPoll::Ready && final(self).spec_remaining() == old(self).spec_remaining(),
            !drive_ready(status) ==> final(self).spec_remaining() == old(self).spec_remaining() - 1
                && r == (if final(self).spec_remaining() == 0 { ReadyPoll::GiveUp } else { ReadyPoll::Retry }),
    {
        if status & 0xC0 == 0x40 {
            return ReadyPoll::Ready;
        }
        self.remaining = self.remaining - 1;
        if self.remaining == 0 {
            ReadyPoll::GiveUp
        } else {
            ReadyPoll::Retry
        }
    }
}

/// One step of writing a sector.
#[derive(Clone, Copy, Debug, PartialEq, Eq, Structural)]
pub enum AtaStep {
    /// Wait, with a `ReadyWait`, for the drive to be ready; drop the rest of
    /// the write when the wait gives up.
    WaitReady,
    /// Write a byte to a register.
    Out(PortWrite),
    /// Wait until the drive asks for the data (`drq_ready`).
    WaitDataRequest,
    /// Write a 16-bit word to the data port.
    OutWord(u16),
}

/// The register writes as steps.
pub open spec fn out_steps(ws: Seq<PortWrite>) -> Seq<AtaStep> {
    Seq::new(ws.len(), |i: int| AtaStep::Out(ws[i]))
}

/// The data words as steps.
pub open spec fn word_steps(ws: Seq<u16>) -> Seq<AtaStep> {
    Seq::new(ws.len(), |i: int| AtaStep::OutWord(ws[i]))
}

/// The whole write of `data` to the sector at `lba`: when `wait_ready`, first
/// the wait for the drive; then the register writes that select the sector and
/// start the write, the wait for the data request, the 256 words in order, and
/// the cache flush.
pub open spec fn write_steps_spec(lba: u32, data: Seq<u8>, wait_ready: bool) -> Seq<AtaStep> {
    (if wait_ready { seq![AtaStep::WaitReady] } else { Seq::<AtaStep>::empty() })
        + out_steps(setup_writes_spec(lba))
        + seq![AtaStep::WaitDataRequest]
        + word_steps(sector_words_spec(data))
        + seq![AtaStep::Out(port_write(0x1F7, 0xE7))]
}

/// The steps that write `data` to the sector at `lba`. The disk driver waits
/// for the drive first (`wait_ready`); the installer does not.
pub fn sector_write_steps(lba: u32, data: &[u8; SECTOR_SIZE], wait_ready: bool) -> (steps: Vec<AtaStep>)
    ensures
        steps@ == write_steps_spec(lba, data@, wait_ready),
{
    let mut steps: Vec<AtaStep> = Vec::new();
    if wait_ready {
        steps.push(AtaStep::WaitReady);
    }
    let ghost head = steps@;
    let setup = setup_writes(lba);
    let mut i: usize = 0;
    while i < setup.len()
        invariant
            i <= setup@.len(),
            steps@ == head + out_steps(setup@.take(i as int)),
        decreases setup@.len() - i,
    {
        assert(out_steps(setup@.take(i as int + 1)) =~= out_steps(setup@.take(i as int)).push(AtaStep::Out(setup@[i as int])));
        steps.push(AtaStep::Out(setup[i]));
        i = i + 1;
    }
    assert(setup@.take(i as int) =~= setup@);
    steps.push(AtaStep::WaitDataRequest);
    let ghost mid = steps@;
    let words = sector_words(data);
    let mut j: usize = 0;
    while j < words.len()
        invariant
            j <= words@.len(),
            steps@ == mid + word_steps(words@.take(j as int)),
        decreases words@.len() - j,
    {
        assert(word_steps(words@.take(j as int + 1)) =~= word_steps(words@.take(j as int)).push(AtaStep::OutWord(words@[j as int])));
        steps.push(AtaStep::OutWord(words[j]));
        j = j + 1;
    }
    assert(words@.take(j as int) =~= words@);
    steps.push(AtaStep::Out(flush_write()));
    assert(steps@ =~= write_steps_spec(lba, data@, wait_ready));
    steps
}

/// The installer's write: the sector the installation writes and what goes in it.
pub fn installation_sector() -> (r: (u32, [u8; SECTOR_SIZE]))
    ensures
        r.0 == 100,
        forall|i: int| 0 <= i < 512 ==> r.1@[i] == 0,
{
    (100, [0u8; SECTOR_SIZE])
}

/// The LBA registers hold the low 28 bits of the address: the three low bytes
/// and the low nibble of the drive register put together give `lba` modulo 2^28,
/// and the drive register always selects LBA mode on the master drive.
pub proof fn lemma_lba_registers(lba: u32)
    ensures
        setup_writes_spec(lba)[1].value + setup_writes_spec(lba)[2].value * 256
            + setup_writes_spec(lba)[3].value * 65536
            + (setup_writes_spec(lba)[4].value - 0xE0) * 0x1000000 == lba % 0x10000000,
        0xE0 <= setup_writes_spec(lba)[4].value <= 0xEF,
{
    assert(lba % 256 + ((lba / 256) % 256) * 256 + ((lba / 65536) % 256) * 65536
        + ((lba / 0x1000000) % 16) * 0x1000000 == lba % 0x10000000) by (bit_vector);
}

/// The words carry every byte of the sector once and in order: the low byte of
/// word `i` is byte `2i` and its high byte is byte `2i + 1`.
pub proof fn lemma_sector_words_carry_bytes(data: Seq<u8>, i: int)
    requires
        data.len() == 512,
        0 <= i < 256,
    ensures
        sector_words_spec(data)[i] % 256 == data[2 * i],
        sector_words_spec(data)[i] / 256 == data[2 * i + 1],
{
}

} // verus!
