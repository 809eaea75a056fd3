use omnix::ata::{sector_write_steps, AtaStep, drq_ready, flush_write, installation_sector, sector_words, setup_writes, ReadyPoll, ReadyWait};
use omnix::keyboard::{poll_action, KeyPoll, Keyboard};
use omnix::mouse::{enable_aux_interrupt, init_script, InitStep, Mouse, PortWait, WaitKind};
use omnix::pci::{is_e1000_device, bar_address, config_address, word_at, E1000Scan, PciRequest, ScanStep};
use omnix::port::PortWrite;
use omnix::rtc::{bcd_to_binary, get_time};
use omnix::scancode::{key_echo, output_full, scancode_to_ascii};

#[test]
fn scancodes_translate_to_ascii() {
    assert_eq!(scancode_to_ascii(0x02), Some(b'1'));
    assert_eq!(scancode_to_ascii(0x0A), Some(b'9'));
    assert_eq!(scancode_to_ascii(0x0B), Some(b'0'));
    assert_eq!(scancode_to_ascii(0x10), Some(b'q'));
    assert_eq!(scancode_to_ascii(0x26), Some(b'l'));
    assert_eq!(scancode_to_ascii(0x32), Some(b'm'));
    assert_eq!(scancode_to_ascii(0x39), Some(b' '));
    assert_eq!(scancode_to_ascii(0x1C), Some(b'\n'));
    assert_eq!(scancode_to_ascii(0x0E), Some(8));
    assert_eq!(scancode_to_ascii(0x01), None);
    assert_eq!(scancode_to_ascii(0x0C), None);
    assert_eq!(key_echo(0x9E), None);
    assert_eq!(key_echo(0x1E), Some(b'a'));
    assert!(output_full(0x1D));
    assert!(!output_full(0x1C));
}

#[test]
fn keyboard_poll_reads_status_bits() {
    assert_eq!(poll_action(0x00), KeyPoll::NoData);
    assert_eq!(poll_action(0x20), KeyPoll::NoData);
    assert_eq!(poll_action(0x01), KeyPoll::ReadScancode);
    assert_eq!(poll_action(0x21), KeyPoll::DiscardAux);
}

#[test]
fn keyboard_shift_picks_upper_table() {
    let mut k = Keyboard::new();
    assert_eq!(k.decode_scancode(0x1E), b'a');
    assert_eq!(k.decode_scancode(0x2A), 0);
    assert!(k.shift_pressed());
    assert_eq!(k.decode_scancode(0x1E), b'A');
    assert_eq!(k.decode_scancode(0x02), b'!');
    assert_eq!(k.decode_scancode(0x28), b'"');
    assert_eq!(k.decode_scancode(0xAA), 0);
    assert!(!k.shift_pressed());
    assert_eq!(k.decode_scancode(0x02), b'1');
    assert_eq!(k.decode_scancode(0x36), 0);
    assert_eq!(k.decode_scancode(0x2B), b'|');
    assert_eq!(k.decode_scancode(0xB6), 0);
    assert_eq!(k.decode_scancode(0x2B), b'\\');
}

#[test]
fn keyboard_ignores_releases_and_unknown_keys() {
    let mut k = Keyboard::new();
    assert_eq!(k.decode_scancode(0x9E), 0);
    assert_eq!(k.decode_scancode(0x3B), 0);
    assert_eq!(k.decode_scancode(0x39), b' ');
    assert_eq!(k.decode_scancode(0x1C), 10);
    assert_eq!(k.decode_scancode(0x0E), 8);
    assert_eq!(k.decode_scancode(0x01), 27);
}

#[test]
fn mouse_moves_and_clamps() {
    let mut m = Mouse::new();
    assert_eq!(m.idle_state(), (160, 100, false));
    assert_eq!(m.apply_packet(0x09, 10, 5), (170, 95, true));
    assert_eq!(m.apply_packet(0x08, 0xF6, 0xFB), (160, 100, false));
    assert_eq!(m.apply_packet(0x01, 100, 100), (160, 100, true));
    for _ in 0..3 {
        m.apply_packet(0x08, 127, 127);
    }
    assert_eq!(m.idle_state(), (318, 0, false));
    for _ in 0..4 {
        m.apply_packet(0x08, 0x80, 0x80);
    }
    assert_eq!(m.idle_state(), (0, 198, false));
}

#[test]
fn mouse_waits() {
    let mut r = PortWait::new(WaitKind::Readable);
    assert!(!r.expired());
    assert!(!r.on_status(0x00));
    assert!(r.on_status(0x01));
    let mut w = PortWait::new(WaitKind::Writable);
    assert!(!w.on_status(0x02));
    assert!(w.on_status(0x01));
    let mut e = PortWait::new(WaitKind::Readable);
    let mut tries = 0;
    while !e.expired() {
        assert!(!e.on_status(0));
        tries += 1;
    }
    assert_eq!(tries, 100000);
}

#[test]
fn mouse_init_script() {
    let s = init_script();
    assert_eq!(s.len(), 22);
    assert_eq!(s[0], InitStep::Wait(WaitKind::Writable));
    assert_eq!(s[1], InitStep::Out(PortWrite { port: 0x64, value: 0xA8 }));
    assert_eq!(s[3], InitStep::Out(PortWrite { port: 0x64, value: 0x20 }));
    assert_eq!(s[4], InitStep::Wait(WaitKind::Readable));
    assert_eq!(s[5], InitStep::ReadConfig);
    assert_eq!(s[7], InitStep::Out(PortWrite { port: 0x64, value: 0x60 }));
    assert_eq!(s[9], InitStep::WriteConfig);
    assert_eq!(s[11], InitStep::Out(PortWrite { port: 0x64, value: 0xD4 }));
    assert_eq!(s[13], InitStep::Out(PortWrite { port: 0x60, value: 0xF6 }));
    assert_eq!(s[15], InitStep::ReadAck);
    assert_eq!(s[19], InitStep::Out(PortWrite { port: 0x60, value: 0xF4 }));
    assert_eq!(s[21], InitStep::ReadAck);
    assert_eq!(enable_aux_interrupt(0x45), 0x47);
    assert_eq!(enable_aux_interrupt(0x47), 0x47);
}

#[test]
fn rtc_time_text() {
    assert_eq!(bcd_to_binary(0x59), 59);
    assert_eq!(&get_time(0x13, 0x45), b"13:45");
    assert_eq!(&get_time(0x09, 0x05), b"09:05");
    assert_eq!(&get_time(0x23, 0x59), b"23:59");
    assert_eq!(&get_time(0xFF, 0x00), b"@5:00");
}

#[test]
fn ata_setup_selects_lba() {
    assert_eq!(
        setup_writes(0x0A1B2C3D),
        vec![
            PortWrite { port: 0x1F2, value: 1 },
            PortWrite { port: 0x1F3, value: 0x3D },
            PortWrite { port: 0x1F4, value: 0x2C },
            PortWrite { port: 0x1F5, value: 0x1B },
            PortWrite { port: 0x1F6, value: 0xEA },
            PortWrite { port: 0x1F7, value: 0x30 },
        ]
    );
    assert_eq!(setup_writes(0xFFFFFFFF)[4].value, 0xEF);
    assert_eq!(setup_writes(100)[1].value, 100);
    assert_eq!(flush_write(), PortWrite { port: 0x1F7, value: 0xE7 });
}

#[test]
fn ata_sector_words_are_little_endian() {
    let mut data = [0u8; 512];
    data[0] = 0x34;
    data[1] = 0x12;
    data[510] = 0xCD;
    data[511] = 0xAB;
    let words = sector_words(&data);
    assert_eq!(words.len(), 256);
    assert_eq!(words[0], 0x1234);
    assert_eq!(words[1], 0);
    assert_eq!(words[255], 0xABCD);
}

#[test]
fn ata_status_bits() {
    assert!(drq_ready(0x08));
    assert!(drq_ready(0x58));
    assert!(!drq_ready(0x50));
    let mut w = ReadyWait::new();
    assert_eq!(w.on_status(0x40), ReadyPoll::Ready);
    assert_eq!(w.on_status(0x50), ReadyPoll::Ready);
    assert_eq!(w.on_status(0x80), ReadyPoll::Retry);
    assert_eq!(w.on_status(0xC0), ReadyPoll::Retry);
    assert_eq!(w.on_status(0x00), ReadyPoll::Retry);
}

#[test]
fn ata_gives_up_after_its_tries() {
    let mut w = ReadyWait::new();
    let mut retries: u32 = 0;
    loop {
        match w.on_status(0x80) {
            ReadyPoll::Retry => retries += 1,
            ReadyPoll::GiveUp => break,
            ReadyPoll::Ready => panic!("busy drive reported ready"),
        }
    }
    assert_eq!(retries, 0xFFFFFF - 1);
}

#[test]
fn installer_sector_is_zeroed_sector_100() {
    let (lba, data) = installation_sector();
    assert_eq!(lba, 100);
    assert!(data.iter().all(|&b| b == 0));
}

#[test]
fn pci_addresses_and_words() {
    assert_eq!(config_address(0, 0, 0, 0), 0x8000_0000);
    assert_eq!(config_address(1, 3, 0, 0x10), 0x8001_1810);
    assert_eq!(config_address(1, 3, 0, 0x13), 0x8001_1810);
    assert_eq!(config_address(0xFF, 31, 7, 0xFF), 0x80FF_FFFC);
    assert_eq!(word_at(0x1234_5678, 0), 0x5678);
    assert_eq!(word_at(0x1234_5678, 2), 0x1234);
    assert_eq!(word_at(0x1234_5678, 3), 0x1234);
    assert_eq!(bar_address(0xFEBC_0004), 0xFEBC_0000);
    assert_eq!(bar_address(0xC001), 0xC000);
}

fn answer(req: PciRequest) -> u32 {
    match req {
        PciRequest::Word { bus: 0, slot: 1, offset: 0 } => 0x1234,
        PciRequest::Word { bus: 0, slot: 3, offset: 0 } => 0x8086,
        PciRequest::Word { bus: 0, slot: 3, offset: 2 } => 0x100E,
        PciRequest::Dword { bus: 0, slot: 3, offset: 0x10 } => 0xFEBC_0000,
        PciRequest::Word { offset: 0, .. } => 0xFFFF,
        _ => 0,
    }
}

#[test]
fn pci_scan_finds_first_intel() {
    let (mut scan, mut step) = E1000Scan::start();
    let mut reads = Vec::new();
    let found = loop {
        match step {
            ScanStep::Read(req) => {
                reads.push(req);
                step = scan.on_value(answer(req));
            }
            ScanStep::Found(bar) => break Some(bar),
            ScanStep::NotFound => break None,
        }
    };
    assert_eq!(found, Some(0xFEBC_0000));
    assert_eq!(
        reads,
        vec![
            PciRequest::Word { bus: 0, slot: 0, offset: 0 },
            PciRequest::Word { bus: 0, slot: 1, offset: 0 },
            PciRequest::Word { bus: 0, slot: 1, offset: 2 },
            PciRequest::Word { bus: 0, slot: 2, offset: 0 },
            PciRequest::Word { bus: 0, slot: 3, offset: 0 },
            PciRequest::Word { bus: 0, slot: 3, offset: 2 },
            PciRequest::Dword { bus: 0, slot: 3, offset: 0x10 },
        ]
    );
}

#[test]
fn pci_scan_reports_none_on_empty_bus() {
    let (mut scan, mut step) = E1000Scan::start();
    let mut reads = 0u32;
    let mut last = None;
    let found = loop {
        match step {
            ScanStep::Read(req) => {
                reads += 1;
                last = Some(req);
                step = scan.on_value(0xFFFF);
            }
            ScanStep::Found(bar) => break Some(bar),
            ScanStep::NotFound => break None,
        }
    };
    assert_eq!(found, None);
    assert_eq!(reads, 8192);
    assert_eq!(last, Some(PciRequest::Word { bus: 255, slot: 31, offset: 0 }));
}

fn answer_with_bridge(req: PciRequest) -> u32 {
    match req {
        PciRequest::Word { bus: 0, slot: 0, offset: 0 } => 0x8086,
        PciRequest::Word { bus: 0, slot: 0, offset: 2 } => 0x1237,
        PciRequest::Dword { bus: 0, slot: 0, offset: 0x10 } => 0x1111_0000,
        PciRequest::Word { bus: 2, slot: 5, offset: 0 } => 0x8086,
        PciRequest::Word { bus: 2, slot: 5, offset: 2 } => 0x100F,
        PciRequest::Dword { bus: 2, slot: 5, offset: 0x10 } => 0xF000_0000,
        PciRequest::Word { offset: 0, .. } => 0xFFFF,
        _ => 0,
    }
}

#[test]
fn pci_scan_passes_over_other_intel_devices() {
    assert!(is_e1000_device(0x100E));
    assert!(is_e1000_device(0x100F));
    assert!(is_e1000_device(0x10D3));
    assert!(!is_e1000_device(0x1237));
    let (mut scan, mut step) = E1000Scan::start();
    let found = loop {
        match step {
            ScanStep::Read(req) => step = scan.on_value(answer_with_bridge(req)),
            ScanStep::Found(bar) => break Some(bar),
            ScanStep::NotFound => break None,
        }
    };
    assert_eq!(found, Some(0xF000_0000));
}

#[test]
fn ata_write_steps_in_order() {
    let mut data = [0u8; 512];
    data[0] = 0x34;
    data[1] = 0x12;
    let steps = sector_write_steps(7, &data, true);
    assert_eq!(steps.len(), 1 + 6 + 1 + 256 + 1);
    assert_eq!(steps[0], AtaStep::WaitReady);
    assert_eq!(steps[1], AtaStep::Out(PortWrite { port: 0x1F2, value: 1 }));
    assert_eq!(steps[2], AtaStep::Out(PortWrite { port: 0x1F3, value: 7 }));
    assert_eq!(steps[6], AtaStep::Out(PortWrite { port: 0x1F7, value: 0x30 }));
    assert_eq!(steps[7], AtaStep::WaitDataRequest);
    assert_eq!(steps[8], AtaStep::OutWord(0x1234));
    assert_eq!(steps[263], AtaStep::OutWord(0));
    assert_eq!(steps[264], AtaStep::Out(PortWrite { port: 0x1F7, value: 0xE7 }));
    let plain = sector_write_steps(7, &data, false);
    assert_eq!(plain.len(), 264);
    assert_eq!(plain[0], AtaStep::Out(PortWrite { port: 0x1F2, value: 1 }));
}

#[test]
fn pci_scan_finds_any_e1000_family_card() {
    assert!(is_e1000_device(0x107C));
    assert!(is_e1000_device(0x1000));
    assert!(is_e1000_device(0x2E6E));
    assert!(!is_e1000_device(0x10EA));
    let (mut scan, mut step) = E1000Scan::start();
    let mut reads = 0;
    let found = loop {
        match step {
            ScanStep::Read(req) => {
                reads += 1;
                step = scan.on_value(match req {
                    PciRequest::Word { bus: 0, slot: 0, offset: 0 } => 0x8086,
                    PciRequest::Word { bus: 0, slot: 0, offset: 2 } => 0x107C,
                    PciRequest::Dword { bus: 0, slot: 0, offset: 0x10 } => 0xFEB0_0000,
                    _ => 0xFFFF,
                });
            }
            ScanStep::Found(bar) => break Some(bar),
            ScanStep::NotFound => break None,
        }
    };
    assert_eq!(found, Some(0xFEB0_0000));
    assert_eq!(reads, 3);
}
