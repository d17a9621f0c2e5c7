use serve_control::logtail::{tail, LogLine};

fn text(s: &str) -> LogLine {
    LogLine::Text(s.to_string())
}

#[test]
fn empty_log_has_no_lines() {
    assert_eq!(tail(b""), Vec::<LogLine>::new());
}

#[test]
fn lines_come_in_file_order() {
    assert_eq!(tail(b"one\ntwo\nthree\n"), vec![text("one"), text("two"), text("three")]);
}

#[test]
fn last_line_needs_no_line_feed() {
    assert_eq!(tail(b"one\ntwo"), vec![text("one"), text("two")]);
}

#[test]
fn no_empty_line_follows_the_last_line_feed() {
    assert_eq!(tail(b"one\n"), vec![text("one")]);
    assert_eq!(tail(b"\n"), vec![text("")]);
}

#[test]
fn empty_lines_are_lines() {
    assert_eq!(tail(b"\n\n"), vec![text(""), text("")]);
    assert_eq!(tail(b"a\n\nb\n"), vec![text("a"), text(""), text("b")]);
}

#[test]
fn carriage_return_before_line_feed_belongs_to_the_ending() {
    assert_eq!(tail(b"one\r\ntwo\r\n"), vec![text("one"), text("two")]);
    assert_eq!(tail(b"\r\n"), vec![text("")]);
}

#[test]
fn only_one_carriage_return_is_dropped() {
    assert_eq!(tail(b"one\r\r\n"), vec![text("one\r")]);
}

#[test]
fn carriage_return_without_line_feed_stays() {
    assert_eq!(tail(b"one\ntwo\r"), vec![text("one"), text("two\r")]);
    assert_eq!(tail(b"a\rb\n"), vec![text("a\rb")]);
}

#[test]
fn unreadable_line_is_reported_and_the_pass_goes_on() {
    let mut content = b"good\n".to_vec();
    content.extend_from_slice(&[0xff, 0xfe, b'\n']);
    content.extend_from_slice(b"after\n");
    assert_eq!(tail(&content), vec![text("good"), LogLine::Unreadable, text("after")]);
}

#[test]
fn unreadable_last_line_is_reported() {
    assert_eq!(tail(&[b'a', b'\n', 0xc3]), vec![text("a"), LogLine::Unreadable]);
}

#[test]
fn text_beyond_ascii_is_read() {
    assert_eq!(tail("größe\n日本語\n".as_bytes()), vec![text("größe"), text("日本語")]);
}

#[test]
fn surrogate_and_overlong_encodings_are_unreadable() {
    assert_eq!(tail(&[0xed, 0xa0, 0x80, b'\n']), vec![LogLine::Unreadable]);
    assert_eq!(tail(&[0xc0, 0xaf, b'\n', b'x']), vec![LogLine::Unreadable, text("x")]);
}

#[test]
fn lines_agree_with_the_standard_line_reader() {
    let inputs: Vec<Vec<u8>> = vec![
        b"".to_vec(),
        b"\n".to_vec(),
        b"\r".to_vec(),
        b"\r\n".to_vec(),
        b"a".to_vec(),
        b"a\n".to_vec(),
        b"a\r\nb".to_vec(),
        b"a\r\r\n\nb\r".to_vec(),
        b"\n\n\n".to_vec(),
        vec![b'a', b'\n', 0xff, b'\n', b'b', b'\n'],
        vec![0xff],
        vec![0xe2, 0x82, b'\n', 0xe2, 0x82, 0xac, b'\r', b'\n'],
    ];
    for input in inputs {
        let expected: Vec<LogLine> = std::io::BufRead::lines(&input[..])
            .map(|line| match line {
                Ok(content) => LogLine::Text(content),
                Err(_) => LogLine::Unreadable,
            })
            .collect();
        assert_eq!(tail(&input), expected);
    }
}
