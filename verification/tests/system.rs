use omnix::apps::settings::{speaker_off, speaker_on, tone_writes, TEST_TONE_HZ};
use omnix::apps::terminal::{hex_byte, KeyLogger};
use omnix::auth::{check_perm, User};
use omnix::mem::{memcmp, memcpy, memmove, memset};
use omnix::notifications::Notifications;
use omnix::omxapk::{get_default_apps, parse_package, APP_COUNT};
use omnix::port::PortWrite;
use omnix::settings::{set_brightness, set_volume};
use omnix::system_ui::{draw_cursor, draw_raised_rect, draw_sunken_rect, DrawOp, SystemUi};
use omnix::wm::{Window, WindowManager};

#[test]
fn default_apps() {
    let apps = get_default_apps();
    assert_eq!(APP_COUNT, 3);
    assert_eq!(apps[0].num_id, 1);
    assert_eq!(apps[0].name, "Terminal");
    assert_eq!(apps[0].pkg_id, "com.omnix.terminal");
    assert_eq!(apps[1].name, "Explorer");
    assert_eq!(apps[1].pkg_id, "com.omnix.explorer");
    assert_eq!(apps[2].num_id, 3);
    assert_eq!(apps[2].name, "Settings");
    assert_eq!(apps[2].pkg_id, "com.omnix.settings");
    assert!(apps.iter().all(|a| a.payload.is_empty()));
}

#[test]
fn parse_package_reads_fields() {
    let mut data = b"OMX!".to_vec();
    data.extend_from_slice(&[7, 3, 4]);
    data.extend_from_slice(b"abc");
    data.extend_from_slice(b"a.bc");
    data.extend_from_slice(&[0x90, 0xC3]);
    let app = parse_package(&data).unwrap();
    assert_eq!(app.num_id, 7);
    assert_eq!(app.name, "abc");
    assert_eq!(app.pkg_id, "a.bc");
    assert_eq!(app.payload, &[0x90, 0xC3]);
}

#[test]
fn parse_package_rejects_bad_headers() {
    assert!(parse_package(b"OMX!\x01\x00").is_none());
    assert!(parse_package(b"OMY!\x01\x00\x00").is_none());
    assert!(parse_package(b"omx!\x01\x00\x00").is_none());
    assert!(parse_package(b"OMX!\x01\x02\x02abc").is_none());
    assert!(parse_package(b"").is_none());
}

#[test]
fn parse_package_empty_fields() {
    let app = parse_package(b"OMX!\x09\x00\x00").unwrap();
    assert_eq!(app.num_id, 9);
    assert_eq!(app.name, "");
    assert_eq!(app.pkg_id, "");
    assert!(app.payload.is_empty());
}

#[test]
fn parse_package_falls_back_on_bad_utf8() {
    let app = parse_package(b"OMX!\x02\x01\x02\xFF\xC3\x28rest").unwrap();
    assert_eq!(app.name, "Unknown");
    assert_eq!(app.pkg_id, "com.unknown");
    assert_eq!(app.payload, b"rest");
    let app = parse_package("OMX!\x02\x02\x01\u{e9}x".as_bytes()).unwrap();
    assert_eq!(app.name, "\u{e9}");
    assert_eq!(app.pkg_id, "x");
}

#[test]
fn auth_checks_admin_flag() {
    let root = User::boot_user();
    assert_eq!(root.uid, 0);
    assert!(check_perm(&root));
    assert!(!check_perm(&User { uid: 5, admin: false }));
}

#[test]
fn notifications_take_32_bytes() {
    let mut n = Notifications::new();
    assert_eq!(n.text(), &[0u8; 32]);
    let msg = *b"0123456789abcdef0123456789ABCDEF";
    n.push_notif(&msg);
    assert_eq!(n.text(), &msg);
}

#[test]
fn settings_register_writes() {
    assert_eq!(set_brightness(7), PortWrite { port: 0x3C8, value: 7 });
    assert_eq!(set_volume(200), PortWrite { port: 0x220, value: 200 });
}

#[test]
fn speaker_test_tone() {
    assert_eq!(
        tone_writes(TEST_TONE_HZ),
        vec![
            PortWrite { port: 0x43, value: 0xB6 },
            PortWrite { port: 0x42, value: 0x97 },
            PortWrite { port: 0x42, value: 0x0A },
        ]
    );
    assert_eq!(tone_writes(1)[2].value, 0x34);
    assert_eq!(speaker_on(0x30), Some(0x33));
    assert_eq!(speaker_on(0x31), Some(0x33));
    assert_eq!(speaker_on(0x33), None);
    assert_eq!(speaker_off(0x33), 0x30);
    assert_eq!(speaker_off(0xFF), 0xFC);
}

#[test]
fn terminal_logs_three_presses() {
    assert_eq!(hex_byte(0x1E), *b"1E");
    assert_eq!(hex_byte(0x00), *b"00");
    assert_eq!(hex_byte(0xAF), *b"AF");
    let mut k = KeyLogger::new();
    assert_eq!(k.on_scancode(0x1E), Some(*b"1E"));
    assert_eq!(k.on_scancode(0x9E), None);
    assert!(!k.done());
    assert_eq!(k.on_scancode(0x02), Some(*b"02"));
    assert_eq!(k.on_scancode(0x7F), Some(*b"7F"));
    assert!(k.done());
}

#[test]
fn memset_fills_prefix() {
    let mut b = [1u8; 6];
    memset(&mut b, 0x141, 4);
    assert_eq!(b, [0x41, 0x41, 0x41, 0x41, 1, 1]);
    memset(&mut b, -1, 1);
    assert_eq!(b[0], 0xFF);
}

#[test]
fn memcpy_copies_prefix() {
    let mut d = [0u8; 5];
    memcpy(&mut d, &[9, 8, 7, 6], 3);
    assert_eq!(d, [9, 8, 7, 0, 0]);
}

#[test]
fn memmove_handles_overlap() {
    let mut b = [1u8, 2, 3, 4, 5, 6];
    memmove(&mut b, 2, 0, 4);
    assert_eq!(b, [1, 2, 1, 2, 3, 4]);
    let mut c = [1u8, 2, 3, 4, 5, 6];
    memmove(&mut c, 0, 2, 4);
    assert_eq!(c, [3, 4, 5, 6, 5, 6]);
    let mut e = [1u8, 2, 3];
    memmove(&mut e, 1, 1, 2);
    assert_eq!(e, [1, 2, 3]);
}

#[test]
fn memcmp_returns_first_difference() {
    assert_eq!(memcmp(b"abcd", b"abzd", 4), b'c' as i32 - b'z' as i32);
    assert_eq!(memcmp(b"abcd", b"abzd", 2), 0);
    assert_eq!(memcmp(&[200, 1], &[10, 1], 2), 190);
    assert_eq!(memcmp(b"", b"", 0), 0);
}

#[test]
fn alt_tab_cycles_focus() {
    let mut m = WindowManager::new();
    assert!(m.windows().iter().all(|w| !w.active));
    m.alt_tab();
    let active: Vec<bool> = m.windows().iter().map(|w| w.active).collect();
    assert_eq!(active, vec![false, true, false, false, false, false, false, false]);
    m.alt_tab();
    assert!(m.windows()[2].active);
    assert!(!m.windows()[1].active);
    for _ in 0..6 {
        m.alt_tab();
    }
    assert!(m.windows()[0].active);
    assert_eq!(m.windows().iter().filter(|w| w.active).count(), 1);
}

#[test]
fn alt_tab_after_last_of_several_focused() {
    let mut ws = vec![Window { id: 0, x: 0, y: 0, w: 0, h: 0, active: false }; 8];
    for (i, w) in ws.iter_mut().enumerate() {
        w.id = i as u8;
        w.x = 10 * i;
    }
    ws[2].active = true;
    ws[5].active = true;
    let mut m = WindowManager::from_windows(ws).unwrap();
    m.alt_tab();
    let active: Vec<bool> = m.windows().iter().map(|w| w.active).collect();
    assert_eq!(active, vec![false, false, false, false, false, false, true, false]);
    assert_eq!(m.windows()[6].x, 60);
    assert_eq!(m.windows()[6].id, 6);
    assert!(WindowManager::from_windows(vec![]).is_none());
}

#[test]
fn panels_and_pointer() {
    let mut ops = Vec::new();
    draw_raised_rect(&mut ops, 2, 3, 10, 4, 7);
    assert_eq!(
        ops,
        vec![
            DrawOp::Rect { x: 2, y: 3, w: 10, h: 4, color: 7 },
            DrawOp::Rect { x: 2, y: 3, w: 10, h: 1, color: 15 },
            DrawOp::Rect { x: 2, y: 3, w: 1, h: 4, color: 15 },
            DrawOp::Rect { x: 11, y: 3, w: 1, h: 4, color: 8 },
            DrawOp::Rect { x: 2, y: 6, w: 10, h: 1, color: 8 },
        ]
    );
    let mut s = Vec::new();
    draw_sunken_rect(&mut s, 0, 0, 1, 1, 0);
    assert_eq!(s[1], DrawOp::Rect { x: 0, y: 0, w: 1, h: 1, color: 8 });
    assert_eq!(s[3], DrawOp::Rect { x: 0, y: 0, w: 1, h: 1, color: 15 });
    let mut c = Vec::new();
    draw_cursor(&mut c, 5, 6);
    assert_eq!(c[2], DrawOp::Rect { x: 7, y: 8, w: 2, h: 2, color: 15 });
}

#[test]
fn desktop_boots_then_logs_in() {
    let mut ui = SystemUi::new();
    let first = ui.step(10, 10, true);
    assert_eq!(first.len(), 10);
    assert_eq!(first[0], DrawOp::Clear { color: 0 });
    assert_eq!(first[1], DrawOp::Text { text: "OMNIX OS", x: 120, y: 80, color: 15 });
    assert_eq!(first[8], DrawOp::Rect { x: 62, y: 122, w: 0, h: 11, color: 2 });
    assert_eq!(first[9], DrawOp::Present);
    for _ in 1..150 {
        let ops = ui.step(10, 10, false);
        assert_eq!(ui.os_state(), 0);
        assert_eq!(ops.len(), 10);
    }
    let last_boot = ui.step(10, 10, false);
    assert_eq!(ui.os_state(), 1);
    assert_eq!(last_boot.len(), 13);
    assert_eq!(last_boot[8], DrawOp::Rect { x: 62, y: 122, w: 150, h: 11, color: 2 });
    assert_eq!(last_boot[9], DrawOp::Rect { x: 10, y: 10, w: 2, h: 6, color: 15 });

    let login = ui.step(150, 140, false);
    assert_eq!(login[0], DrawOp::Clear { color: 1 });
    assert_eq!(login[9], DrawOp::Rect { x: 110, y: 130, w: 100, h: 20, color: 10 });
    assert_eq!(login[15], DrawOp::Rect { x: 110, y: 160, w: 100, h: 20, color: 7 });
    assert_eq!(ui.os_state(), 1);

    ui.step(150, 140, true);
    assert_eq!(ui.os_state(), 2);
    assert!(ui.is_admin());
    assert_eq!(ui.notif_msg(), "WELCOME!");
    assert_eq!(ui.notif_timer(), 200);

    let desk = ui.step(5, 5, true);
    assert_eq!(desk.len(), 16);
    assert_eq!(desk[0], DrawOp::Clear { color: 3 });
    assert_eq!(desk[11], DrawOp::Text { text: "START", x: 8, y: 186, color: 0 });
    assert_eq!(desk[15], DrawOp::Present);
    assert_eq!(ui.os_state(), 2);
}

#[test]
fn login_needs_a_fresh_click() {
    let mut ui = SystemUi::new();
    for _ in 0..151 {
        ui.step(0, 0, false);
    }
    ui.step(300, 300, true);
    assert_eq!(ui.os_state(), 1);
    ui.step(300, 300, false);
    ui.step(150, 170, true);
    assert_eq!(ui.os_state(), 2);
    assert!(!ui.is_admin());

    let mut held = SystemUi::new();
    for _ in 0..151 {
        held.step(0, 0, true);
    }
    held.step(150, 170, true);
    assert_eq!(held.os_state(), 1);
    held.step(150, 170, false);
    held.step(150, 140, true);
    assert_eq!(held.os_state(), 2);
    assert!(held.is_admin());
}

#[test]
fn memcmp_is_antisymmetric_and_zero_after_copy() {
    let a = [5u8, 9, 2];
    let b = [5u8, 3, 7];
    assert_eq!(memcmp(&a, &b, 3), 6);
    assert_eq!(memcmp(&b, &a, 3), -6);
    let mut d = [0u8; 4];
    memcpy(&mut d, &a, 3);
    assert_eq!(memcmp(&d, &a, 3), 0);
    assert_eq!(memcmp(&a, &a, 3), 0);
}
