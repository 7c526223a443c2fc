use pausecat::events::AppEvent;
use pausecat::tray::{copy_tip, encode_utf16, menu_command_event, opens_menu, tip_text};

#[test]
fn tip_texts() {
    assert_eq!(tip_text(true), "PauseCat (Paused)");
    assert_eq!(tip_text(false), "PauseCat");
}

#[test]
fn utf16_matches_std() {
    for s in ["PauseCat", "", "héllo", "猫", "😺 cat", "a\u{10FFFF}b"] {
        let expected: Vec<u16> = s.encode_utf16().collect();
        assert_eq!(encode_utf16(s), expected);
    }
}

#[test]
fn tip_is_copied_and_terminated() {
    let mut buf = [0xFFFFu16; 128];
    copy_tip(&mut buf, "PauseCat");
    let expected: Vec<u16> = "PauseCat".encode_utf16().collect();
    assert_eq!(&buf[..8], &expected[..]);
    assert_eq!(buf[8], 0);
    assert_eq!(buf[9], 0xFFFF);

    let long: String = std::iter::repeat('x').take(300).collect();
    copy_tip(&mut buf, &long);
    assert!(buf[..127].iter().all(|&u| u == 'x' as u16));
    assert_eq!(buf[127], 0);
}

#[test]
fn menu_and_notifications() {
    assert!(matches!(menu_command_event(1001), Some(AppEvent::TogglePause)));
    assert!(matches!(menu_command_event(1002), Some(AppEvent::OpenSettings)));
    assert!(matches!(menu_command_event(1003), Some(AppEvent::Quit)));
    assert!(menu_command_event(999).is_none());
    assert!(opens_menu(0x0205));
    assert!(opens_menu(0x0400));
    assert!(!opens_menu(0x0201));
}
