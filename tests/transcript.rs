use tuicom::codec::{encode_utf8, hex_char, hex_char_value};
use tuicom::channel::{Channel, ChannelError, DummySerial};
use tuicom::screen::{Display, Rx, Tx, WithCursor};

fn text(d: &Display) -> String {
    d.text().to_string()
}

#[test]
fn new_transcript_is_empty_ascii() {
    let d = Display::new();
    assert!(d.raw().is_empty());
    assert_eq!(text(&d), "");
    assert!(d.is_ascii());
    assert_eq!(d.pending(), None);
}

#[test]
fn ascii_push_shows_byte_and_emits_it() {
    let mut d = Display::new();
    assert_eq!(d.push_char(b'A'), Some(0x41));
    assert_eq!(d.raw(), &[0x41]);
    assert_eq!(text(&d), "A");
}

#[test]
fn ascii_tab_renders_as_four_spaces() {
    let mut d = Display::new();
    d.push_char(b'\t');
    assert_eq!(d.raw(), &[9]);
    assert_eq!(text(&d), "    ");
    assert!(!text(&d).contains('\t'));
}

#[test]
fn switch_there_and_back_restores_ascii_text() {
    let mut d = Display::new();
    for &b in b"hi\tthere\n" {
        d.push_byte(b);
    }
    let before = text(&d);
    assert_eq!(before, "hi    there\n");
    d.switch_hex();
    assert!(!d.is_ascii());
    assert_eq!(text(&d), "68 69 09 74 68 65 72 65 0A ");
    d.switch_hex();
    assert!(d.is_ascii());
    assert_eq!(text(&d), before);
    assert_eq!(d.raw(), b"hi\tthere\n");
}

#[test]
fn switch_round_trip_on_high_bytes() {
    let mut d = Display::new();
    for b in [0x00u8, 0x7F, 0x80, 0xFF, 0x09] {
        d.push_byte(b);
    }
    let before = text(&d);
    d.switch_hex();
    assert_eq!(text(&d), "00 7F 80 FF 09 ");
    d.switch_hex();
    assert_eq!(text(&d), before);
}

#[test]
fn hex_digits_four_then_one_emit_0x41() {
    let mut d = Display::new();
    d.switch_hex();
    assert_eq!(d.push_char(b'4'), None);
    assert!(d.raw().is_empty());
    assert_eq!(d.push_char(b'1'), Some(0x41));
    assert_eq!(d.raw(), &[0x41]);
    assert!(text(&d).ends_with("41 "));
    assert_eq!(d.pending(), None);
}

#[test]
fn hex_lower_case_digits_show_upper_case() {
    let mut d = Display::new();
    d.switch_hex();
    d.push_char(b'a');
    assert_eq!(text(&d), "A");
    assert_eq!(d.push_char(b'f'), Some(0xAF));
    assert_eq!(text(&d), "AF ");
}

#[test]
fn hex_single_digit_is_held() {
    let mut d = Display::new();
    d.switch_hex();
    assert_eq!(d.push_char(b'7'), None);
    assert!(d.raw().is_empty());
    assert_eq!(d.pending(), Some(7));
    assert_eq!(text(&d), "7");
}

#[test]
fn hex_ignores_non_digits() {
    let mut d = Display::new();
    d.switch_hex();
    assert_eq!(d.push_char(b'z'), None);
    assert_eq!(d.push_char(b' '), None);
    assert_eq!(text(&d), "");
    assert_eq!(d.pending(), None);
}

#[test]
fn pop_after_hex_byte_removes_three_chars_and_one_byte() {
    let mut d = Display::new();
    d.switch_hex();
    d.push_char(b'1');
    d.push_char(b'0');
    d.push_char(b'4');
    d.push_char(b'1');
    assert_eq!(text(&d), "10 41 ");
    assert_eq!(d.pop(), Some(0x41));
    assert_eq!(text(&d), "10 ");
    assert_eq!(d.raw(), &[0x10]);
}

#[test]
fn pop_after_pending_digit_removes_only_the_digit() {
    let mut d = Display::new();
    d.switch_hex();
    d.push_char(b'4');
    d.push_char(b'1');
    d.push_char(b'c');
    assert_eq!(text(&d), "41 C");
    assert_eq!(d.pop(), None);
    assert_eq!(text(&d), "41 ");
    assert_eq!(d.raw(), &[0x41]);
    assert_eq!(d.pending(), None);
}

#[test]
fn pop_ascii_removes_one_char_and_byte() {
    let mut d = Display::new();
    d.push_char(b'a');
    d.push_char(b'b');
    assert_eq!(d.pop(), Some(b'b'));
    assert_eq!(text(&d), "a");
    assert_eq!(d.raw(), b"a");
}

#[test]
fn pop_ascii_tab_removes_its_four_spaces() {
    let mut d = Display::new();
    d.push_char(b'x');
    d.push_char(b'\t');
    assert_eq!(d.pop(), Some(9));
    assert_eq!(text(&d), "x");
}

#[test]
fn pop_on_empty_does_nothing() {
    let mut d = Display::new();
    assert_eq!(d.pop(), None);
    assert_eq!(text(&d), "");
}

#[test]
fn clear_empties_and_drops_pending_digit() {
    let mut d = Display::new();
    d.switch_hex();
    d.push_char(b'4');
    d.push_char(b'1');
    d.push_char(b'2');
    d.clear();
    assert!(d.raw().is_empty());
    assert_eq!(text(&d), "");
    assert_eq!(d.pending(), None);
    assert!(!d.is_ascii());
}

#[test]
fn switch_discards_pending_digit() {
    let mut d = Display::new();
    d.switch_hex();
    d.push_char(b'4');
    d.switch_hex();
    assert_eq!(d.pending(), None);
    assert_eq!(text(&d), "");
}

#[test]
fn incoming_newline_and_tab_in_ascii() {
    let mut rx = Rx::new();
    rx.receive(&[0x0A, 0x09]);
    let t = rx.display.text().to_string();
    assert!(t.ends_with("\n    "));
    assert!(!t.contains('\t'));
    assert_eq!(rx.display.raw(), &[0x0A, 0x09]);
}

#[test]
fn incoming_bytes_in_hex() {
    let mut rx = Rx::new();
    rx.display.switch_hex();
    rx.receive(&[0xDE, 0xAD]);
    assert_eq!(rx.display.text(), "DE AD ");
}

#[test]
fn incoming_byte_goes_before_a_pending_digit() {
    let mut d = Display::new();
    d.switch_hex();
    d.push_char(b'4');
    d.push_byte(0x10);
    assert_eq!(text(&d), "10 4");
    assert_eq!(d.push_char(b'1'), Some(0x41));
    assert_eq!(text(&d), "10 41 ");
}

#[test]
fn cursor_view_appends_glyph_and_leaves_text() {
    let mut tx = Tx::new();
    tx.display.push_char(b'o');
    tx.display.push_char(b'k');
    let view = tx.with_cursor('|');
    assert_eq!(view.as_str(), "ok|");
    assert_eq!(tx.display.text(), "ok");
    let rx = Rx::new();
    assert_eq!(rx.with_cursor('#').as_str(), "#");
    let s = String::from("ab");
    assert_eq!(WithCursor::new(&s, 'c').as_str(), "abc");
}

#[test]
fn tx_wire_bytes_map_newline_when_asked() {
    let mut tx = Tx::new();
    assert_eq!(tx.wire_bytes(10), vec![10]);
    tx.lf_crlf = true;
    assert_eq!(tx.wire_bytes(10), vec![10, 13]);
    assert_eq!(tx.wire_bytes(b'a'), vec![b'a']);
}

#[test]
fn tx_switch_hex_toggles() {
    let mut tx = Tx::new();
    assert!(tx.is_ascii());
    tx.switch_hex();
    assert!(!tx.is_ascii());
}

#[test]
fn utf8_encoding_of_each_length() {
    assert_eq!(encode_utf8('A'), vec![0x41]);
    assert_eq!(encode_utf8('\u{e9}'), vec![0xC3, 0xA9]);
    assert_eq!(encode_utf8('\u{20ac}'), vec![0xE2, 0x82, 0xAC]);
    assert_eq!(encode_utf8('\u{1f600}'), vec![0xF0, 0x9F, 0x98, 0x80]);
    for c in ['a', '\u{7ff}', '\u{800}', '\u{ffff}', '\u{10000}', '\u{10ffff}'] {
        let mut buf = [0u8; 4];
        assert_eq!(encode_utf8(c), c.encode_utf8(&mut buf).as_bytes().to_vec());
    }
}

#[test]
fn hex_digit_helpers() {
    assert_eq!(hex_char(0), '0');
    assert_eq!(hex_char(9), '9');
    assert_eq!(hex_char(10), 'A');
    assert_eq!(hex_char(15), 'F');
    assert_eq!(hex_char_value('b'), Some(11));
    assert_eq!(hex_char_value('B'), Some(11));
    assert_eq!(hex_char_value('9'), Some(9));
    assert_eq!(hex_char_value('g'), None);
}

#[test]
fn tx_settle_keeps_or_takes_back() {
    let mut tx = Tx::new();
    tx.display.push_char(b'A');
    assert!(tx.settle(Ok(())).is_ok());
    assert_eq!(tx.display.text(), "A");
    let r = tx.settle(Err(ChannelError::Io(String::from("gone"))));
    assert!(matches!(r, Err(ChannelError::Io(_))));
    assert_eq!(tx.display.text(), "");
    assert!(tx.display.raw().is_empty());
}

#[test]
fn rx_settle_read_appends_or_passes_error() {
    let mut rx = Rx::new();
    assert!(rx.settle_read(Ok(vec![b'h', b'i'])).is_ok());
    assert_eq!(rx.display.text(), "hi");
    assert!(matches!(rx.settle_read(Err(ChannelError::NotFound)), Err(ChannelError::NotFound)));
    assert_eq!(rx.display.text(), "hi");
}

#[test]
fn tx_send_writes_wire_bytes_to_the_device() {
    let mut p = Channel::new(DummySerial::new(9600));
    let mut tx = Tx::new();
    assert!(tx.send(b'A', &mut p).is_ok());
    tx.lf_crlf = true;
    assert!(tx.send(b'\n', &mut p).is_ok());
    assert!(tx.send(b'\t', &mut p).is_ok());
    assert_eq!(p.bytes_to_read().ok(), Some(4));
    assert_eq!(p.read_exact(4).ok(), Some(vec![0x41, 0x0A, 0x0D, 0x09]));
    assert_eq!(tx.display.text(), "A\n    ");
}

#[test]
fn tx_send_in_hex_writes_only_completed_bytes() {
    let mut p = Channel::new(DummySerial::new(9600));
    let mut tx = Tx::new();
    tx.switch_hex();
    assert!(tx.send(b'4', &mut p).is_ok());
    assert!(tx.send(b'z', &mut p).is_ok());
    assert_eq!(p.bytes_to_read().ok(), Some(0));
    assert_eq!(tx.display.text(), "4");
    assert!(tx.send(b'1', &mut p).is_ok());
    assert_eq!(p.read_exact(1).ok(), Some(vec![0x41]));
    assert_eq!(tx.display.raw(), &[0x41]);
    assert_eq!(tx.display.text(), "41 ");
}

#[test]
fn rx_recv_appends_the_bytes_read() {
    let mut d = DummySerial::new(9600);
    d.feed(&[b'o', b'k']);
    let mut p = Channel::new(d);
    let mut rx = Rx::new();
    assert!(rx.recv(&mut p).is_ok());
    assert_eq!(rx.display.text(), "ok");
    assert_eq!(p.bytes_to_read().ok(), Some(0));
}
