use omnix::boot_console::BootConsole;
use omnix::kernel_console::KernelConsole;
use omnix::port::PortWrite;
use omnix::vga::Vga;

fn text_cell(attr: u8, ch: u8) -> u16 {
    ((attr as u16) << 8) | ch as u16
}

#[test]
fn vga_starts_blank_at_home() {
    let v = Vga::new();
    assert_eq!(v.cursor_x(), 0);
    assert_eq!(v.cursor_y(), 0);
    assert_eq!(v.color(), 0x5F);
    assert_eq!(v.cells().len(), 2000);
    assert!(v.cells().iter().all(|&c| c == 0x5F20));
}

#[test]
fn vga_prints_and_advances() {
    let mut v = Vga::new();
    v.print_str("AB");
    assert_eq!(v.cells()[0], text_cell(0x5F, b'A'));
    assert_eq!(v.cells()[1], text_cell(0x5F, b'B'));
    assert_eq!(v.cursor_x(), 2);
    assert_eq!(v.cursor_y(), 0);
}

#[test]
fn vga_newline_starts_next_row() {
    let mut v = Vga::new();
    v.print_str("A\nB");
    assert_eq!(v.cells()[80], text_cell(0x5F, b'B'));
    assert_eq!((v.cursor_x(), v.cursor_y()), (1, 1));
}

#[test]
fn vga_backspace_blanks_previous_cell() {
    let mut v = Vga::new();
    v.print_str("AB");
    v.print_char(8);
    assert_eq!(v.cells()[1], 0x5F20);
    assert_eq!(v.cells()[0], text_cell(0x5F, b'A'));
    assert_eq!(v.cursor_x(), 1);
}

#[test]
fn vga_backspace_at_row_start_blanks_in_place() {
    let mut v = Vga::new();
    v.print_str("Q\n");
    v.set_color(0x02, 0x01);
    v.print_char(8);
    assert_eq!((v.cursor_x(), v.cursor_y()), (0, 1));
    assert_eq!(v.cells()[80], text_cell(0x12, b' '));
    assert_eq!(v.cells()[0], text_cell(0x5F, b'Q'));
}

#[test]
fn vga_wraps_at_end_of_row() {
    let mut v = Vga::new();
    for _ in 0..80 {
        v.print_char(b'x');
    }
    assert_eq!((v.cursor_x(), v.cursor_y()), (0, 1));
    assert_eq!(v.cells()[79], text_cell(0x5F, b'x'));
}

#[test]
fn vga_scrolls_past_last_row() {
    let mut v = Vga::new();
    v.print_str("A\nZ");
    for _ in 0..23 {
        v.print_char(b'\n');
    }
    assert_eq!(v.cursor_y(), 24);
    assert_eq!(v.cells()[0], text_cell(0x5F, b'A'));
    v.set_color(0x0E, 0x01);
    v.print_char(b'\n');
    assert_eq!(v.cursor_y(), 24);
    assert_eq!(v.cursor_x(), 0);
    assert_eq!(v.cells()[0], text_cell(0x5F, b'Z'));
    for i in 1920..2000 {
        assert_eq!(v.cells()[i], text_cell(0x1E, b' '));
    }
}

#[test]
fn vga_set_color_packs_nibbles() {
    let mut v = Vga::new();
    v.set_color(0x0F, 0x04);
    assert_eq!(v.color(), 0x4F);
    v.set_color(0x1F, 0x21);
    assert_eq!(v.color(), 0x1F);
}

#[test]
fn vga_clear_screen_uses_current_color() {
    let mut v = Vga::new();
    v.print_str("hello");
    v.set_color(0x0A, 0x00);
    v.clear_screen();
    assert_eq!((v.cursor_x(), v.cursor_y()), (0, 0));
    assert!(v.cells().iter().all(|&c| c == 0x0A20));
}

#[test]
fn vga_update_cursor_writes_position() {
    let mut v = Vga::new();
    v.print_str("\nabcde");
    assert_eq!(
        v.update_cursor(),
        vec![
            PortWrite { port: 0x3D4, value: 0x0F },
            PortWrite { port: 0x3D5, value: 85 },
            PortWrite { port: 0x3D4, value: 0x0E },
            PortWrite { port: 0x3D5, value: 0 },
        ]
    );
    let mut w = Vga::new();
    for _ in 0..24 {
        w.print_char(b'\n');
    }
    for _ in 0..79 {
        w.print_char(b'.');
    }
    let writes = w.update_cursor();
    assert_eq!(writes[1].value, 0xCF);
    assert_eq!(writes[3].value, 7);
}

#[test]
fn vga_print_str_sends_utf8_bytes() {
    let mut v = Vga::new();
    v.print_str("\u{e9}");
    assert_eq!(v.cells()[0], text_cell(0x5F, 0xC3));
    assert_eq!(v.cells()[1], text_cell(0x5F, 0xA9));
    assert_eq!(v.cursor_x(), 2);
}

#[test]
fn kernel_console_start_screen() {
    let mut k = KernelConsole::new();
    k.start();
    let cells = k.cells();
    assert_eq!(cells[0], text_cell(0x0B, b'O'));
    assert_eq!(cells[80], text_cell(0x0A, b'I'));
    assert_eq!(cells[160], text_cell(0x0F, b'V'));
    assert_eq!(cells[240], text_cell(0x0F, b'K'));
    assert_eq!(cells[320], text_cell(0x0F, b'I'));
    assert_eq!(cells[400], 0x0F20);
    assert_eq!(cells[480], text_cell(0x0F, b'a'));
    assert_eq!(cells[494], text_cell(0x0F, b' '));
    assert_eq!(
        k.update_cursor(),
        vec![
            PortWrite { port: 0x3D4, value: 0x0F },
            PortWrite { port: 0x3D5, value: 239 },
            PortWrite { port: 0x3D4, value: 0x0E },
            PortWrite { port: 0x3D5, value: 1 },
        ]
    );
}

#[test]
fn kernel_console_backspace_goes_to_previous_row() {
    let mut k = KernelConsole::new();
    k.print_str("ab\ncd");
    k.print_char(8);
    k.print_char(8);
    k.print_char(8);
    let cells = k.cells();
    assert_eq!(cells[80], 0x0F20);
    assert_eq!(cells[81], 0x0F20);
    assert_eq!(cells[79], 0x0F20);
    assert_eq!(cells[1], text_cell(0x0F, b'b'));
    k.print_char(b'z');
    assert_eq!(k.cells()[79], text_cell(0x0F, b'z'));
    k.print_char(b'y');
    assert_eq!(k.cells()[80], text_cell(0x0F, b'y'));
}

#[test]
fn kernel_console_backspace_at_home_does_nothing() {
    let mut k = KernelConsole::new();
    k.print_char(8);
    assert!(k.cells().iter().all(|&c| c == 0x0F20));
    let w = k.update_cursor();
    assert_eq!(w[1].value, 0);
    assert_eq!(w[3].value, 0);
}

#[test]
fn kernel_console_scrolls() {
    let mut k = KernelConsole::new();
    k.print_char(b'T');
    k.print_char(b'\n');
    k.print_char(b'U');
    for _ in 0..24 {
        k.print_char(b'\n');
    }
    assert_eq!(k.cells()[0], text_cell(0x0F, b'U'));
    k.scroll();
    assert_eq!(k.cells()[0], 0x0F20);
}

#[test]
fn kernel_console_panic_screen() {
    let mut k = KernelConsole::new();
    k.print_str("before");
    k.panic_screen();
    let cells = k.cells();
    assert_eq!(cells[0], text_cell(0x4F, b'F'));
    assert_eq!(cells[17], text_cell(0x4F, b'R'));
    assert_eq!(cells[18], text_cell(0x4F, b' '));
    assert_eq!(cells[1999], text_cell(0x4F, b' '));
}

#[test]
fn kernel_console_echoes_keys() {
    let mut k = KernelConsole::new();
    k.handle_scancode(0x1E);
    k.handle_scancode(0x9E);
    k.handle_scancode(0x3B);
    k.handle_scancode(0x02);
    assert_eq!(k.cells()[0], text_cell(0x0F, b'a'));
    assert_eq!(k.cells()[1], text_cell(0x0F, b'1'));
    assert_eq!(k.cells()[2], 0x0F20);
    k.handle_scancode(0x0E);
    assert_eq!(k.cells()[1], 0x0F20);
}

#[test]
fn boot_console_start_screen() {
    let mut b = BootConsole::new();
    b.start();
    let cells = b.cells();
    assert_eq!(cells[0], 0x0D00 | b'=' as u16);
    assert_eq!(cells[33], 0x0D00 | b'=' as u16);
    assert_eq!(cells[34], 0x0F20);
    assert_eq!(cells[85], 0x0D00 | b'O' as u16);
    assert_eq!(cells[240], 0x0D00 | b'K' as u16);
    assert_eq!(cells[320], 0x0F20);
    assert_eq!(cells[400], 0x0D00 | b'N' as u16);
    assert_eq!(cells[480], 0x0D00 | b'>' as u16);
    assert_eq!(cells[481], 0x0D00 | b' ' as u16);
    assert_eq!(b.cursor_y(), 6);
}

#[test]
fn boot_console_backspace_at_row_start_does_nothing() {
    let mut b = BootConsole::new();
    b.print_str("ab\n");
    b.print_char(8);
    assert_eq!(b.cells()[0], 0x0D00 | b'a' as u16);
    assert_eq!(b.cells()[1], 0x0D00 | b'b' as u16);
    b.print_str("c");
    b.print_char(8);
    assert_eq!(b.cells()[80], 0x0F20);
}

#[test]
fn boot_console_reports_leaving_the_screen() {
    let mut b = BootConsole::new();
    for _ in 0..24 {
        b.print_char(b'\n');
    }
    assert!(b.can_print(b'a'));
    assert!(b.can_print_bytes(b"ok\n"));
    b.print_char(b'\n');
    assert_eq!(b.cursor_y(), 25);
    assert!(!b.can_print(b'a'));
    assert!(b.can_print(b'\n'));
    assert!(b.can_print(8));
    assert!(!b.can_echo(0x1E));
    assert!(b.can_echo(0x9E));
    assert!(!b.can_print_bytes(b"\nx"));
    assert!(b.can_print_bytes(b"\n\n"));
}

#[test]
fn boot_console_wraps_without_scrolling() {
    let mut b = BootConsole::new();
    for _ in 0..24 {
        b.print_char(b'\n');
    }
    assert!(b.can_print_bytes(&[b'x'; 80]));
    for _ in 0..80 {
        b.print_char(b'x');
    }
    assert_eq!(b.cursor_y(), 25);
    assert_eq!(b.cells()[1999], 0x0D00 | b'x' as u16);
    assert!(!b.can_print_bytes(b"FATAL ERROR: Kernel Panic!"));
}

#[test]
fn boot_console_panic_message() {
    let mut b = BootConsole::new();
    b.print_str("x\n");
    b.panic_screen();
    assert_eq!(b.cells()[80], 0x0D00 | b'F' as u16);
    assert_eq!(b.cells()[105], 0x0D00 | b'!' as u16);
}

#[test]
fn boot_console_echoes_keys() {
    let mut b = BootConsole::new();
    b.handle_scancode(0x10);
    b.handle_scancode(0x90);
    b.handle_scancode(0x1C);
    b.handle_scancode(0x39);
    assert_eq!(b.cells()[0], 0x0D00 | b'q' as u16);
    assert_eq!(b.cells()[80], 0x0D00 | b' ' as u16);
    assert_eq!(b.cursor_y(), 1);
}

#[test]
fn printing_in_two_parts_is_printing_the_whole() {
    let mut one = Vga::new();
    one.print_str("split\nhere");
    let mut two = Vga::new();
    two.print_str("spl");
    two.print_str("it\nhere");
    assert_eq!(one.cells(), two.cells());
    assert_eq!((one.cursor_x(), one.cursor_y()), (two.cursor_x(), two.cursor_y()));
}

#[test]
fn vga_backspace_after_character_restores_cursor() {
    let mut v = Vga::new();
    v.print_str("ab");
    let before = (v.cursor_x(), v.cursor_y());
    v.print_char(b'c');
    v.print_char(8);
    assert_eq!((v.cursor_x(), v.cursor_y()), before);
    assert_eq!(v.cells()[2], 0x5F20);
}
