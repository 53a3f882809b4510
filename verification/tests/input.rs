use orbterm::event::VtState;
use orbterm::input::{
    key_local, mouse_mode, push_decimal, push_key, push_mouse_report, push_utf8, LocalAction,
    MouseMode,
};

fn key(ctrl: bool, character: char, scancode: u8) -> Vec<u8> {
    let mut buf = Vec::new();
    push_key(&mut buf, ctrl, character, scancode);
    buf
}

#[test]
fn navigation_keys_send_their_sequences() {
    assert_eq!(key(false, '\0', 0x0E), b"\x7F");
    assert_eq!(key(false, '\0', 0x47), b"\x1B[H");
    assert_eq!(key(false, '\0', 0x48), b"\x1B[A");
    assert_eq!(key(false, '\0', 0x49), b"\x1B[5~");
    assert_eq!(key(false, '\0', 0x4B), b"\x1B[D");
    assert_eq!(key(false, '\0', 0x4D), b"\x1B[C");
    assert_eq!(key(false, '\0', 0x4F), b"\x1B[F");
    assert_eq!(key(false, '\0', 0x50), b"\x1B[B");
    assert_eq!(key(false, '\0', 0x51), b"\x1B[6~");
    assert_eq!(key(false, '\0', 0x52), b"\x1B[2~");
    assert_eq!(key(false, '\0', 0x53), b"\x1B[3~");
    assert_eq!(key(true, 'x', 0x48), b"\x1B[A");
}

#[test]
fn control_with_a_letter_sends_its_control_byte() {
    assert_eq!(key(true, 'a', 0x1E), vec![1]);
    assert_eq!(key(true, 'A', 0x1E), vec![1]);
    assert_eq!(key(true, 'c', 0x2E), vec![3]);
    assert_eq!(key(true, 'z', 0x2C), vec![26]);
    assert_eq!(key(true, 'Z', 0x2C), vec![26]);
}

#[test]
fn control_with_anything_else_sends_nothing() {
    assert_eq!(key(true, '1', 0x02), Vec::<u8>::new());
    assert_eq!(key(true, '[', 0x1A), Vec::<u8>::new());
    assert_eq!(key(true, '\0', 0x3B), Vec::<u8>::new());
    assert_eq!(key(true, 'é', 0x10), Vec::<u8>::new());
}

#[test]
fn other_characters_are_sent_as_utf8() {
    assert_eq!(key(false, 'a', 0x1E), b"a");
    assert_eq!(key(false, ' ', 0x39), b" ");
    assert_eq!(key(false, 'é', 0x10), "é".as_bytes());
    assert_eq!(key(false, '€', 0x10), "€".as_bytes());
    assert_eq!(key(false, '😀', 0x10), "😀".as_bytes());
    assert_eq!(key(false, '\0', 0x3B), Vec::<u8>::new());
}

#[test]
fn push_utf8_agrees_with_std_on_every_width() {
    for c in ['\0', 'A', '\u{7F}', '\u{80}', '\u{7FF}', '\u{800}', '\u{D7FF}', '\u{E000}', '\u{FFFF}', '\u{10000}', '\u{10FFFF}'] {
        let mut buf = vec![9u8];
        push_utf8(&mut buf, c);
        let mut expected = vec![9u8];
        expected.extend_from_slice(c.to_string().as_bytes());
        assert_eq!(buf, expected);
    }
}

#[test]
fn local_keys_are_told_apart() {
    assert_eq!(key_local(true, false, 0x0B), LocalAction::ResetSize);
    assert_eq!(key_local(true, false, 0x0C), LocalAction::Shrink);
    assert_eq!(key_local(true, false, 0x0D), LocalAction::Grow);
    assert_eq!(key_local(true, true, 0x2E), LocalAction::Copy);
    assert_eq!(key_local(true, true, 0x2F), LocalAction::Paste);
    assert_eq!(key_local(true, false, 0x2E), LocalAction::Forward);
    assert_eq!(key_local(false, true, 0x2E), LocalAction::Forward);
    assert_eq!(key_local(false, false, 0x0B), LocalAction::Forward);
    assert_eq!(key_local(true, true, 0x1E), LocalAction::Forward);
}

#[test]
fn decimal_digits_of_numbers() {
    for n in [0u16, 7, 9, 10, 42, 99, 100, 999, 1000, 12345, 65535] {
        let mut buf = vec![b'<'];
        push_decimal(&mut buf, n);
        assert_eq!(buf, format!("<{}", n).into_bytes());
    }
}

#[test]
fn mouse_reports_are_spelled_out() {
    let mut buf = Vec::new();
    push_mouse_report(&mut buf, 0, 1, 1, false);
    assert_eq!(buf, b"\x1B[<0;1;1M");
    let mut buf = Vec::new();
    push_mouse_report(&mut buf, 0, 12, 345, true);
    assert_eq!(buf, b"\x1B[<0;12;345m");
    let mut buf = Vec::new();
    push_mouse_report(&mut buf, 32, 80, 24, false);
    assert_eq!(buf, b"\x1B[<32;80;24M");
    let mut buf = b"ab".to_vec();
    push_mouse_report(&mut buf, 65, 65535, 0, false);
    assert_eq!(buf, b"ab\x1B[<65;65535;0M");
}

#[test]
fn the_mouse_mode_follows_the_parser() {
    let mut state = VtState { x: 0, y: 0, cursor: true, mouse_rxvt: false, mouse_btn: false };
    assert_eq!(mouse_mode(&state), MouseMode::Select);
    state.mouse_btn = true;
    assert_eq!(mouse_mode(&state), MouseMode::Select);
    state.mouse_rxvt = true;
    assert_eq!(mouse_mode(&state), MouseMode::Report { drag: true });
    state.mouse_btn = false;
    assert_eq!(mouse_mode(&state), MouseMode::Report { drag: false });
}
