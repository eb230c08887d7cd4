use enhancecpu::registry::{parse_pid, pid_text, is_space_char, PID_FILE_NAME};

#[test]
fn pid_file_name_is_fixed() {
    assert_eq!(PID_FILE_NAME, "enhancecpu.pid");
}

#[test]
fn pid_text_is_decimal() {
    assert_eq!(pid_text(0), "0");
    assert_eq!(pid_text(7), "7");
    assert_eq!(pid_text(12345), "12345");
    assert_eq!(pid_text(u32::MAX), "4294967295");
}

#[test]
fn registry_round_trip() {
    for pid in [0u32, 1, 9, 10, 99, 4242, 65536, 1_000_000, u32::MAX - 1, u32::MAX] {
        assert_eq!(parse_pid(&pid_text(pid)), Some(pid));
    }
    assert_eq!(parse_pid(&pid_text(31337)), Some(31337));
}

#[test]
fn parse_pid_plain() {
    assert_eq!(parse_pid("1234"), Some(1234));
    assert_eq!(parse_pid("0"), Some(0));
    assert_eq!(parse_pid("007"), Some(7));
}

#[test]
fn parse_pid_ignores_surrounding_whitespace() {
    assert_eq!(parse_pid("  42\n"), Some(42));
    assert_eq!(parse_pid("\t\r\n99 \x0b\x0c"), Some(99));
    assert_eq!(parse_pid("\u{a0}5\u{3000}"), Some(5));
    assert_eq!(parse_pid("\u{2028}17\u{85}"), Some(17));
}

#[test]
fn parse_pid_accepts_one_plus_sign() {
    assert_eq!(parse_pid("+8"), Some(8));
    assert_eq!(parse_pid(" +8 "), Some(8));
    assert_eq!(parse_pid("++8"), None);
    assert_eq!(parse_pid("+"), None);
}

#[test]
fn parse_pid_rejects_garbage() {
    assert_eq!(parse_pid(""), None);
    assert_eq!(parse_pid("   \n"), None);
    assert_eq!(parse_pid("abc"), None);
    assert_eq!(parse_pid("12a"), None);
    assert_eq!(parse_pid("1 2"), None);
    assert_eq!(parse_pid("-5"), None);
    assert_eq!(parse_pid("1.0"), None);
}

#[test]
fn parse_pid_bounds() {
    assert_eq!(parse_pid("4294967295"), Some(u32::MAX));
    assert_eq!(parse_pid("4294967296"), None);
    assert_eq!(parse_pid("99999999999999999999"), None);
    assert_eq!(parse_pid("00000000004294967295"), Some(u32::MAX));
}

#[test]
fn parse_pid_agrees_with_std() {
    for s in ["12", " 12 ", "+3", "x", "", "4294967296", "\u{2003}6\u{2009}", "0x10", "٣"] {
        assert_eq!(parse_pid(s), s.trim().parse::<u32>().ok(), "{:?}", s);
    }
}

#[test]
fn space_chars_match_std() {
    for c in ['\t', '\n', '\x0b', '\x0c', '\r', ' ', '\u{85}', '\u{a0}', '\u{1680}', '\u{2000}',
              '\u{200a}', '\u{2028}', '\u{2029}', '\u{202f}', '\u{205f}', '\u{3000}', 'a', '0',
              '\u{200b}', '\u{feff}', '\u{180e}', '_'] {
        assert_eq!(is_space_char(c), c.is_whitespace(), "{:?}", c);
    }
}
