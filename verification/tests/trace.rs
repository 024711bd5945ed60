use simple_nes_rs::cpu_registers::Registers;
use simple_nes_rs::nestest::{parse_byte, parse_digit, parse_word, LogEntry};

const LINE: &str =
    "C000  4C F5 C5  JMP $C5F5                       A:00 X:01 Y:fe P:24 SP:FD CYC:  0";

#[test]
fn parses_trace_line() {
    let entry = LogEntry::parse(LINE.as_bytes()).unwrap();
    assert_eq!(entry, LogEntry { pc: 0xC000, a: 0x00, x: 0x01, y: 0xFE, p: 0x24, sp: 0xFD });
}

#[test]
fn rejects_short_or_malformed_line() {
    assert_eq!(LogEntry::parse(&LINE.as_bytes()[..72]), None);
    assert!(LogEntry::parse(&LINE.as_bytes()[..73]).is_some());
    let mut bad = LINE.as_bytes().to_vec();
    bad[2] = b'G';
    assert_eq!(LogEntry::parse(&bad), None);
    let mut bad = LINE.as_bytes().to_vec();
    bad[72] = b' ';
    assert_eq!(LogEntry::parse(&bad), None);
    assert_eq!(LogEntry::parse(b""), None);
}

#[test]
fn parses_hex_digits() {
    assert_eq!(parse_digit(b'0'), Some(0));
    assert_eq!(parse_digit(b'9'), Some(9));
    assert_eq!(parse_digit(b'a'), Some(10));
    assert_eq!(parse_digit(b'F'), Some(15));
    assert_eq!(parse_digit(b'g'), None);
    assert_eq!(parse_digit(b'/'), None);
    assert_eq!(parse_digit(b':'), None);
    assert_eq!(parse_digit(b'@'), None);
    assert_eq!(parse_byte(b"x7f", 1), Some(0x7F));
    assert_eq!(parse_byte(b"7 ", 0), None);
    assert_eq!(parse_word(b"BEEF", 0), Some(0xBEEF));
    assert_eq!(parse_word(b"BE EF", 0), None);
}

#[test]
fn entry_matches_registers() {
    let entry = LogEntry::parse(LINE.as_bytes()).unwrap();
    let mut regs = Registers::new();
    regs.pc = 0xC000;
    regs.x = 1;
    regs.y = 0xFE;
    assert!(entry.matches(&regs));
    regs.c = true;
    assert!(!entry.matches(&regs));
    regs.c = false;
    regs.sp = 0xFC;
    assert!(!entry.matches(&regs));
    regs.sp = 0xFD;
    regs.pc = 0xC001;
    assert!(!entry.matches(&regs));
}
