use core::fmt::Write;
use linux_kernel_module::printk::{KernelConsole, LogLineWriter, LOG_LINE_MAX};

#[test]
fn line_limit_is_the_kernels() {
    assert_eq!(LOG_LINE_MAX, 992);
}

#[test]
fn new_writer_is_empty() {
    let writer = LogLineWriter::new();
    assert!(writer.as_bytes().is_empty());
}

#[test]
fn write_str_appends_the_bytes() {
    let mut writer = LogLineWriter::new();
    assert!(writer.write_str("hello").is_ok());
    assert_eq!(writer.as_bytes(), b"hello");
    assert!(writer.write_str(", world\n").is_ok());
    assert_eq!(writer.as_bytes(), b"hello, world\n");
}

#[test]
fn write_str_of_nothing_changes_nothing() {
    let mut writer = LogLineWriter::new();
    assert!(writer.write_str("").is_ok());
    assert!(writer.as_bytes().is_empty());
    assert!(writer.write_str("x").is_ok());
    assert!(writer.write_str("").is_ok());
    assert_eq!(writer.as_bytes(), b"x");
}

#[test]
fn write_str_fills_the_line_to_the_brim() {
    let text = "a".repeat(LOG_LINE_MAX);
    let mut writer = LogLineWriter::new();
    assert!(writer.write_str(&text).is_ok());
    assert_eq!(writer.as_bytes().len(), 992);
    assert_eq!(writer.as_bytes(), text.as_bytes());
}

#[test]
fn write_str_cuts_what_does_not_fit() {
    let text = "b".repeat(LOG_LINE_MAX + 8);
    let mut writer = LogLineWriter::new();
    assert!(writer.write_str(&text).is_ok());
    assert_eq!(writer.as_bytes().len(), 992);
    assert_eq!(writer.as_bytes(), &text.as_bytes()[..992]);
}

#[test]
fn write_str_cuts_the_second_piece() {
    let head = "h".repeat(990);
    let mut writer = LogLineWriter::new();
    assert!(writer.write_str(&head).is_ok());
    assert!(writer.write_str("12345").is_ok());
    let mut expected = head.into_bytes();
    expected.extend_from_slice(b"12");
    assert_eq!(writer.as_bytes(), &expected[..]);
}

#[test]
fn full_line_takes_no_more() {
    let text = "c".repeat(LOG_LINE_MAX);
    let mut writer = LogLineWriter::new();
    assert!(writer.write_str(&text).is_ok());
    assert!(writer.write_str("more").is_ok());
    assert_eq!(writer.as_bytes(), text.as_bytes());
}

#[test]
fn cut_may_fall_inside_a_character() {
    let head = "d".repeat(991);
    let mut writer = LogLineWriter::new();
    assert!(writer.write_str(&head).is_ok());
    assert!(writer.write_str("\u{e9}").is_ok());
    assert_eq!(writer.as_bytes().len(), 992);
    assert_eq!(writer.as_bytes()[991], 0xc3);
}

#[test]
fn pieces_give_the_line_of_the_whole() {
    let first = "e".repeat(700);
    let second = "f".repeat(700);
    let mut in_pieces = LogLineWriter::new();
    assert!(in_pieces.write_str(&first).is_ok());
    assert!(in_pieces.write_str(&second).is_ok());
    let mut at_once = LogLineWriter::new();
    let whole = format!("{}{}", first, second);
    assert!(at_once.write_str(&whole).is_ok());
    assert_eq!(in_pieces.as_bytes(), at_once.as_bytes());
    assert_eq!(in_pieces.as_bytes().len(), 992);
}

#[test]
fn formatting_machinery_writes_through_the_writer() {
    let mut writer = LogLineWriter::new();
    assert!(writer.write_str("\u{1}6").is_ok());
    assert!(writer.write_char('x').is_ok());
    assert!(writer.write_char('\n').is_ok());
    assert_eq!(writer.as_bytes(), b"\x016x\n");
}

#[test]
fn console_is_a_plain_value() {
    let _console = KernelConsole;
}
