use vstd::prelude::*;

verus! {

/// The port that takes a configuration address.
pub const CONFIG_ADDRESS_PORT: u16 = 0xCF8;

/// The port that gives the addressed configuration dword.
pub const CONFIG_DATA_PORT: u16 = 0xCFC;

/// Intel's PCI vendor id.
pub const INTEL_VENDOR: u16 = 0x8086;

/// The vendor id that an empty slot reads as.
pub const NO_DEVICE: u16 = 0xFFFF;

/// Bus and slot pairs the scan visits: 256 buses of 32 slots.
pub const SCAN_POSITIONS: u16 = 8192;

/// The configuration address of `offset` in function `func` of `slot` on
/// `bus`, with the enable bit set and the offset rounded down to a dword.
pub open spec fn config_address_spec(bus: u8, slot: u8, func: u8, offset: u8) -> u32 {
    ((bus as u32) << 16u32) | ((slot as u32) << 11u32) | ((func as u32) << 8u32)
        | ((offset as u32) & 0xFCu32) | 0x80000000u32
}

/// The 16-bit half of a configuration dword that `offset` selects: the upper
/// half when bit 1 of the offset is set, the lower half otherwise.
pub open spec fn word_at_spec(dword: u32, offset: u8) -> u16 {
    if offset & 2 != 0 {
        (dword / 65536) as u16
    } else {
        (dword % 65536) as u16
    }
}

/// The configuration address for a read of `offset` in `func` of `slot` on `bus`.
pub fn config_address(bus: u8, slot: u8, func: u8, offset: u8) -> (r: u32)
    ensures
        r == config_address_spec(bus, slot, func, offset),
{
    ((bus as u32) << 16u32) | ((slot as u32) << 11u32) | ((func as u32) << 8u32)
        | ((offset as u32) & 0xFCu32) | 0x80000000u32
}

/// The 16-bit value at `offset` within the dword read from the data port.
pub fn word_at(dword: u32, offset: u8) -> (r: u16)
    ensures
        r == word_at_spec(dword, offset),
{
    if offset & 2 != 0 {
        assert((dword >> 16u32) & 0xFFFFu32 == dword / 65536) by (bit_vector);
        ((dword >> 16u32) & 0xFFFFu32) as u16
    } else {
        assert(dword & 0xFFFFu32 == dword % 65536) by (bit_vector);
        (dword & 0xFFFFu32) as u16
    }
}

/// The address in a base address register, without its four flag bits.
pub fn bar_address(bar: u32) -> (r: u32)
    ensures
        r == bar & 0xFFFFFFF0u32,
        r % 16 == 0,
        r <= bar,
        bar - r < 16,
{
    assert((bar & 0xFFFFFFF0u32) % 16 == 0 && (bar & 0xFFFFFFF0u32) <= bar && bar - (bar & 0xFFFFFFF0u32) < 16) by (bit_vector);
    bar & 0xFFFFFFF0u32
}

/// For a slot below 32 and a function below 8, the address is the sum of its
/// fields: the enable bit, the bus, the slot, the function and the dword offset.
pub proof fn lemma_config_address_fields(bus: u8, slot: u8, func: u8, offset: u8)
    requires
        slot < 32,
        func < 8,
    ensures
        config_address_spec(bus, slot, func, offset) == 0x80000000 + bus * 65536 + slot * 2048 + func * 256
            + (offset - offset % 4),
{
    assert(slot < 32 && func < 8 ==> ((bus as u32) << 16u32) | ((slot as u32) << 11u32) | ((func as u32) << 8u32)
        | ((offset as u32) & 0xFCu32) | 0x80000000u32 == 0x80000000u32 + (bus as u32) * 65536 + (slot as u32) * 2048
        + (func as u32) * 256 + ((offset as u32) - (offset as u32) % 4)) by (bit_vector);
}

/// A configuration read the scan asks for, in function 0 of a slot.
#[derive(Clone, Copy, Debug, PartialEq, Eq, Structural)]
pub enum PciRequest {
    /// Read the 16-bit value at `offset`.
    Word { bus: u8, slot: u8, offset: u8 },
    /// Read the 32-bit value at `offset`.
    Dword { bus: u8, slot: u8, offset: u8 },
}

/// What the scan wants next.
#[derive(Clone, Copy, Debug, PartialEq, Eq, Structural)]
pub enum ScanStep {
    /// Perform this read and hand the value back.
    Read(PciRequest),
    /// An Intel device was found; this is its BAR0.
    Found(u32),
    /// No slot holds an Intel device.
    NotFound,
}

/// Which read of the current slot the scan waits for.
#[derive(Clone, Copy, Debug, PartialEq, Eq, Structural)]
pub enum ScanPhase {
    /// The vendor id (offset 0).
    Vendor,
    /// The device id (offset 2) of a slot whose vendor id is `vendor`.
    Device { vendor: u16 },
    /// BAR0 (offset 0x10) of an Intel device.
    Bar,
}

/// The scan's place: the slot `pos` (bus `pos / 32`, slot `pos % 32`) and the phase.
pub struct ScanState {
    pub pos: int,
    pub phase: ScanPhase,
}

/// The read the scan waits for in state `s`.
pub open spec fn request_of(s: ScanState) -> PciRequest {
    let bus = (s.pos / 32) as u8;
    let slot = (s.pos % 32) as u8;
    match s.phase {
        ScanPhase::Vendor => PciRequest::Word { bus, slot, offset: 0 },
        ScanPhase::Device { .. } => PciRequest::Word { bus, slot, offset: 2 },
        ScanPhase::Bar => PciRequest::Dword { bus, slot, offset: 0x10 },
    }
}

/// `id` is the device id of an Intel E1000 network card: one of the 8254x
/// gigabit controllers (82540, 82541, 82542, 82543, 82544, 82545, 82546 and
/// 82547, in all their copper, fibre, SerDes, LOM, mobile and quad-port
/// versions), the CE4100's controller, or the 82574L of the e1000e family.
pub open spec fn is_e1000_id(id: u16) -> bool {
    match id {
        0x1000 | 0x1001 | 0x1004 | 0x1008 | 0x1009 | 0x100C | 0x100D | 0x100E | 0x100F | 0x1010 | 0x1011 | 0x1012 | 0x1013 | 0x1014 | 0x1015 | 0x1016 | 0x1017 | 0x1018 | 0x1019 | 0x101A | 0x101D | 0x101E | 0x1026 | 0x1027 | 0x1028 | 0x1075 | 0x1076 | 0x1077 | 0x1078 | 0x1079 | 0x107A | 0x107B | 0x107C | 0x108A | 0x1099 | 0x10B5 | 0x10D3 | 0x2E6E => true,
        _ => false,
    }
}

/// Whether `id` is the device id of an Intel E1000 network card.
pub fn is_e1000_device(id: u16) -> (r: bool)
    ensures
        r == is_e1000_id(id),
{
    match id {
        0x1000 | 0x1001 | 0x1004 | 0x1008 | 0x1009 | 0x100C | 0x100D | 0x100E | 0x100F | 0x1010 | 0x1011 | 0x1012 | 0x1013 | 0x1014 | 0x1015 | 0x1016 | 0x1017 | 0x1018 | 0x1019 | 0x101A | 0x101D | 0x101E | 0x1026 | 0x1027 | 0x1028 | 0x1075 | 0x1076 | 0x1077 | 0x1078 | 0x1079 | 0x107A | 0x107B | 0x107C | 0x108A | 0x1099 | 0x10B5 | 0x10D3 | 0x2E6E => true,
        _ => false,
    }
}

/// The device ids of the Intel E1000 network cards: the 8254x gigabit
/// controllers in all their versions, the CE4100's controller and the 82574L.
pub open spec fn e1000_family() -> Seq<u16> {
    seq![0x1000u16, 0x1001u16, 0x1004u16, 0x1008u16, 0x1009u16, 0x100Cu16, 0x100Du16, 0x100Eu16, 0x100Fu16, 0x1010u16, 0x1011u16, 0x1012u16, 0x1013u16, 0x1014u16, 0x1015u16, 0x1016u16, 0x1017u16, 0x1018u16, 0x1019u16, 0x101Au16, 0x101Du16, 0x101Eu16, 0x1026u16, 0x1027u16, 0x1028u16, 0x1075u16, 0x1076u16, 0x1077u16, 0x1078u16, 0x1079u16, 0x107Au16, 0x107Bu16, 0x107Cu16, 0x108Au16, 0x1099u16, 0x10B5u16, 0x10D3u16, 0x2E6Eu16]
}

/// Every E1000 card is recognised as one, and nothing else is: an id is an
/// E1000 id exactly when it is in the family's list.
pub proof fn lemma_e1000_ids_are_the_family(id: u16)
    ensures
        is_e1000_id(id) <==> e1000_family().contains(id),
{
    let f = e1000_family();
    if e1000_family().contains(id) {
        let k = choose|k: int| 0 <= k < f.len() && f[k] == id;
        assert(is_e1000_id(f[k]));
    }
    if is_e1000_id(id) {
        assert(exists|k: int| 0 <= k < f.len() && f[k] == id) by {
            if id == 0x1000 { assert(f[0] == id); } if id == 0x1001 { assert(f[1] == id); } if id == 0x1004 { assert(f[2] == id); } if id == 0x1008 { assert(f[3] == id); } if id == 0x1009 { assert(f[4] == id); } if id == 0x100C { assert(f[5] == id); } if id == 0x100D { assert(f[6] == id); } if id == 0x100E { assert(f[7] == id); } if id == 0x100F { assert(f[8] == id); } if id == 0x1010 { assert(f[9] == id); } if id == 0x1011 { assert(f[10] == id); } if id == 0x1012 { assert(f[11] == id); } if id == 0x1013 { assert(f[12] == id); } if id == 0x1014 { assert(f[13] == id); } if id == 0x1015 { assert(f[14] == id); } if id == 0x1016 { assert(f[15] == id); } if id == 0x1017 { assert(f[16] == id); } if id == 0x1018 { assert(f[17] == id); } if id == 0x1019 { assert(f[18] == id); } if id == 0x101A { assert(f[19] == id); } if id == 0x101D { assert(f[20] == id); } if id == 0x101E { assert(f[21] == id); } if id == 0x1026 { assert(f[22] == id); } if id == 0x1027 { assert(f[23] == id); } if id == 0x1028 { assert(f[24] == id); } if id == 0x1075 { assert(f[25] == id); } if id == 0x1076 { assert(f[26] == id); } if id == 0x1077 { assert(f[27] == id); } if id == 0x1078 { assert(f[28] == id); } if id == 0x1079 { assert(f[29] == id); } if id == 0x107A { assert(f[30] == id); } if id == 0x107B { assert(f[31] == id); } if id == 0x107C { assert(f[32] == id); } if id == 0x108A { assert(f[33] == id); } if id == 0x1099 { assert(f[34] == id); } if id == 0x10B5 { assert(f[35] == id); } if id == 0x10D3 { assert(f[36] == id); } if id == 0x2E6E { assert(f[37] == id); }
        }
    }
}

/// An E1000 card of the family, in the first slot that holds an E1000 card, is
/// found: its BAR0 is what the scan reports.
pub proof fn lemma_scan_finds_family_card(cs: spec_fn(PciRequest) -> u32, p: int)
    requires
        0 <= p < 8192,
        (cs(request_of(ScanState { pos: p, phase: ScanPhase::Vendor })) as u16) == 0x8086,
        e1000_family().contains(cs(request_of(ScanState { pos: p, phase: ScanPhase::Device { vendor: 0x8086 } })) as u16),
        forall|q: int| 0 <= q < p ==> !#[trigger] is_e1000(cs, q),
    ensures
        scan_outcome(ScanState { pos: 0, phase: ScanPhase::Vendor }, cs) == ScanStep::Found(bar0_of(cs, p)),
{
    lemma_e1000_ids_are_the_family(cs(request_of(ScanState { pos: p, phase: ScanPhase::Device { vendor: 0x8086 } })) as u16);
    lemma_scan_finds_first_e1000(cs, 0);
    lemma_first_e1000_from_skips(cs, 0, p);
}

proof fn lemma_first_e1000_from_skips(cs: spec_fn(PciRequest) -> u32, q: int, p: int)
    requires
        0 <= q <= p < 8192,
        is_e1000(cs, p),
        forall|r: int| 0 <= r < p ==> !#[trigger] is_e1000(cs, r),
    ensures
        first_e1000_from(cs, q) == ScanStep::Found(bar0_of(cs, p)),
    decreases p - q,
{
    if q < p {
        assert(!is_e1000(cs, q));
        lemma_first_e1000_from_skips(cs, q + 1, p);
    }
}

/// The step to the next slot, or the end of the scan after the last.
pub open spec fn advance(s: ScanState) -> (ScanState, ScanStep) {
    if s.pos + 1 >= 8192 {
        (ScanState { pos: 8192, phase: ScanPhase::Vendor }, ScanStep::NotFound)
    } else {
        let n = ScanState { pos: s.pos + 1, phase: ScanPhase::Vendor };
        (n, ScanStep::Read(request_of(n)))
    }
}

/// The scan after it gets `value` for the read it asked for.
///
/// A vendor id of 0xFFFF means an empty slot: the scan moves on. Otherwise it
/// reads the device id, and then, when the vendor is Intel and the device is
/// an E1000 card, BAR0, which it reports; for any other device it moves on.
pub open spec fn scan_step(s: ScanState, value: u32) -> (ScanState, ScanStep) {
    match s.phase {
        ScanPhase::Vendor => {
            let vendor = value as u16;
            if vendor == 0xFFFF {
                advance(s)
            } else {
                let n = ScanState { phase: ScanPhase::Device { vendor }, ..s };
                (n, ScanStep::Read(request_of(n)))
            }
        },
        ScanPhase::Device { vendor } => {
            if vendor == 0x8086 && is_e1000_id(value as u16) {
                let n = ScanState { phase: ScanPhase::Bar, ..s };
                (n, ScanStep::Read(request_of(n)))
            } else {
                advance(s)
            }
        },
        ScanPhase::Bar => (s, ScanStep::Found(value)),
    }
}

/// How much work the scan has left from state `s`; each read lowers it.
pub open spec fn scan_measure(s: ScanState) -> int {
    let rank = match s.phase {
        ScanPhase::Vendor => 0int,
        ScanPhase::Device { .. } => 1int,
        ScanPhase::Bar => 2int,
    };
    3 * (8192 - s.pos) - rank
}

/// Slot `p` holds an Intel E1000 network card in the configuration space
/// `cs`, which gives the value of every read the scan can ask for: the vendor
/// id is Intel's and the device id one of the E1000 cards.
pub open spec fn is_e1000(cs: spec_fn(PciRequest) -> u32, p: int) -> bool {
    let vendor = cs(request_of(ScanState { pos: p, phase: ScanPhase::Vendor })) as u16;
    &&& vendor == 0x8086
    &&& is_e1000_id(cs(request_of(ScanState { pos: p, phase: ScanPhase::Device { vendor } })) as u16)
}

/// BAR0 of slot `p` in the configuration space `cs`.
pub open spec fn bar0_of(cs: spec_fn(PciRequest) -> u32, p: int) -> u32 {
    cs(request_of(ScanState { pos: p, phase: ScanPhase::Bar }))
}

/// The first slot from `p` on, in bus then slot order, that holds an Intel
/// E1000 card: its BAR0, or `NotFound` when none does.
pub open spec fn first_e1000_from(cs: spec_fn(PciRequest) -> u32, p: int) -> ScanStep
    decreases 8192 - p,
{
    if p >= 8192 || p < 0 {
        ScanStep::NotFound
    } else if is_e1000(cs, p) {
        ScanStep::Found(bar0_of(cs, p))
    } else {
        first_e1000_from(cs, p + 1)
    }
}

/// How the scan ends from state `s` when every read is answered from `cs`.
pub open spec fn scan_outcome(s: ScanState, cs: spec_fn(PciRequest) -> u32) -> ScanStep
    decreases scan_measure(s),
{
    if s.pos < 0 || s.pos >= 8192 {
        ScanStep::NotFound
    } else {
        let (n, out) = scan_step(s, cs(request_of(s)));
        match out {
            ScanStep::Read(_) => if scan_measure(n) < scan_measure(s) && 0 <= n.pos {
                scan_outcome(n, cs)
            } else {
                ScanStep::NotFound
            },
            _ => out,
        }
    }
}

/// Every read the scan asks for lowers its remaining work, so the scan ends.
pub proof fn lemma_scan_step_progress(s: ScanState, value: u32)
    requires
        0 <= s.pos < 8192,
    ensures
        scan_step(s, value).1 is Read ==> scan_measure(scan_step(s, value).0) < scan_measure(s)
            && 0 <= scan_step(s, value).0.pos < 8192
            && scan_step(s, value).1 == ScanStep::Read(request_of(scan_step(s, value).0)),
{
}

/// The scan finds the E1000 card in the first slot, in bus then slot order,
/// that holds one, and reports its BAR0; when no slot does it reports
/// `NotFound`. Other Intel devices, such as host bridges, are passed over.
pub proof fn lemma_scan_finds_first_e1000(cs: spec_fn(PciRequest) -> u32, p: int)
    requires
        0 <= p <= 8192,
    ensures
        scan_outcome(ScanState { pos: p, phase: ScanPhase::Vendor }, cs) == first_e1000_from(cs, p),
    decreases 8192 - p,
{
    let s = ScanState { pos: p, phase: ScanPhase::Vendor };
    if p < 8192 {
        lemma_scan_finds_first_e1000(cs, p + 1);
        let v = cs(request_of(s));
        if (v as u16) != 0xFFFF {
            let d = ScanState { phase: ScanPhase::Device { vendor: v as u16 }, ..s };
            assert(request_of(d) == request_of(ScanState { pos: p, phase: ScanPhase::Device { vendor: v as u16 } }));
            if is_e1000(cs, p) {
                let b = ScanState { phase: ScanPhase::Bar, ..s };
                assert(scan_outcome(b, cs) == ScanStep::Found(bar0_of(cs, p)));
            }
            assert(scan_outcome(d, cs) == first_e1000_from(cs, p));
        }
    }
}

/// How many reads the scan makes from state `s`, the one it waits for
/// included, when every read is answered from `cs`.
pub open spec fn scan_reads(s: ScanState, cs: spec_fn(PciRequest) -> u32) -> nat
    decreases scan_measure(s),
{
    if s.pos < 0 || s.pos >= 8192 {
        0
    } else {
        let (n, out) = scan_step(s, cs(request_of(s)));
        match out {
            ScanStep::Read(_) => if scan_measure(n) < scan_measure(s) && 0 <= n.pos {
                1 + scan_reads(n, cs)
            } else {
                1
            },
            _ => 1,
        }
    }
}

/// The most reads the scan can still make from state `s`: two per slot left
/// (vendor and device id) and one more for the BAR0 of the card it finds.
pub open spec fn read_bound(s: ScanState) -> int {
    match s.phase {
        ScanPhase::Vendor => 2 * (8192 - s.pos) + 1,
        ScanPhase::Device { .. } => 2 * (8192 - s.pos),
        ScanPhase::Bar => 1,
    }
}

/// The scan ends after at most two reads per slot and one BAR0 read: from
/// state `s` no more than `read_bound(s)` reads, and from the start no more
/// than 2 * 8192 + 1.
pub proof fn lemma_scan_read_bound(s: ScanState, cs: spec_fn(PciRequest) -> u32)
    requires
        0 <= s.pos <= 8192,
        s.pos == 8192 ==> s.phase == ScanPhase::Vendor,
    ensures
        scan_reads(s, cs) <= read_bound(s),
        s == (ScanState { pos: 0, phase: ScanPhase::Vendor }) ==> scan_reads(s, cs) <= 2 * 8192 + 1,
    decreases scan_measure(s),
{
    if s.pos < 8192 {
        let (n, out) = scan_step(s, cs(request_of(s)));
        if out is Read && scan_measure(n) < scan_measure(s) && 0 <= n.pos {
            lemma_scan_read_bound(n, cs);
        }
    }
}

/// The search for an Intel network card over every slot of every bus.
pub struct E1000Scan {
    pos: u16,
    phase: ScanPhase,
}

impl View for E1000Scan {
    type V = ScanState;

    closed spec fn view(&self) -> ScanState {
        ScanState { pos: self.pos as int, phase: self.phase }
    }
}

impl E1000Scan {
    /// The scan lies within the 8192 slots, and past them only before a vendor read.
    pub open spec fn wf(&self) -> bool {
        0 <= self@.pos <= 8192 && (self@.pos < 8192 || self@.phase == ScanPhase::Vendor)
    }

    /// The scan at bus 0, slot 0, and the first read it asks for.
    pub fn start() -> (r: (E1000Scan, ScanStep))
        ensures
            r.0.wf(),
            r.0@ == (ScanState { pos: 0, phase: ScanPhase::Vendor }),
            r.1 == ScanStep::Read(request_of(r.0@)),
    {
        let scan = E1000Scan { pos: 0, phase: ScanPhase::Vendor };
        let req = scan.request();
        (scan, ScanStep::Read(req))
    }

    /// The read the scan waits for.
    pub fn request(&self) -> (r: PciRequest)
        requires
            self.wf(),
            self@.pos < 8192,
        ensures
            r == request_of(self@),
    {
        let bus = (self.pos / 32) as u8;
        let slot = (self.pos % 32) as u8;
        match self.phase {
            ScanPhase::Vendor => PciRequest::Word { bus, slot, offset: 0 },
            ScanPhase::Device { .. } => PciRequest::Word { bus, slot, offset: 2 },
            ScanPhase::Bar => PciRequest::Dword { bus, slot, offset: 0x10 },
        }
    }

    fn advance(&mut self) -> (r: ScanStep)
        requires
            old(self).wf(),
            old(self)@.pos < 8192,
        ensures
            final(self).wf(),
            (final(self)@, r) == advance(old(self)@),
    {
        if self.pos + 1 >= SCAN_POSITIONS {
            self.pos = SCAN_POSITIONS;
            self.phase = ScanPhase::Vendor;
            ScanStep::NotFound
        } else {
            self.pos = self.pos + 1;
            self.phase = ScanPhase::Vendor;
            ScanStep::Read(self.request())
        }
    }

    /// Takes the value of the read the scan asked for and says what comes next.
    pub fn on_value(&mut self, value: u32) -> (r: ScanStep)
        requires
            old(self).wf(),
            old(self)@.pos < 8192,
        ensures
            final(self).wf(),
            (final(self)@, r) == scan_step(old(self)@, value),
    {
        match self.phase {
            ScanPhase::Vendor => {
                let vendor = value as u16;
                if vendor == NO_DEVICE {
                    self.advance()
                } else {
                    self.phase = ScanPhase::Device { vendor };
                    ScanStep::Read(self.request())
                }
            },
            ScanPhase::Device { vendor } => {
                if vendor == INTEL_VENDOR && is_e1000_device(value as u16) {
                    self.phase = ScanPhase::Bar;
                    ScanStep::Read(self.request())
                } else {
                    self.advance()
                }
            },
            ScanPhase::Bar => ScanStep::Found(value),
        }
    }
}

} // verus!
