use mandala::frames::frame_lines;

fn lines(text: &str) -> Vec<String> {
    frame_lines(text)
}

#[test]
fn each_line_is_a_frame() {
    assert_eq!(lines("M 0 0 L 1 1\nM 0 0 L 2 2\nM 0 0 L 3 3\n"), vec!["M 0 0 L 1 1", "M 0 0 L 2 2", "M 0 0 L 3 3"]);
    assert_eq!(lines("a\nb"), vec!["a", "b"]);
    assert_eq!(lines("a"), vec!["a"]);
}

#[test]
fn text_without_lines_has_no_frame() {
    assert_eq!(lines(""), Vec::<String>::new());
}

#[test]
fn empty_lines_are_frames() {
    assert_eq!(lines("\n"), vec![""]);
    assert_eq!(lines("a\n\nb\n"), vec!["a", "", "b"]);
    assert_eq!(lines("\n\n"), vec!["", ""]);
}

#[test]
fn carriage_return_before_a_line_feed_is_dropped() {
    assert_eq!(lines("a\r\nb\r\n"), vec!["a", "b"]);
    assert_eq!(lines("\r\n"), vec![""]);
    assert_eq!(lines("x\r\r\ny"), vec!["x\r", "y"]);
    assert_eq!(lines("a\rb\n"), vec!["a\rb"]);
    assert_eq!(lines("a\r"), vec!["a\r"]);
    assert_eq!(lines("\n\r"), vec!["", "\r"]);
}

#[test]
fn frames_may_hold_any_sign() {
    assert_eq!(lines("\u{e9}t\u{e9}\n\u{6a19}\u{7c64}\r\nz"), vec!["\u{e9}t\u{e9}", "\u{6a19}\u{7c64}", "z"]);
}

#[test]
fn frames_agree_with_the_lines_of_the_text() {
    let text = "M 0 0 L 1 0\r\nM 0 0 L 2 0\n\nM 0 0 L 3 0";
    let expected: Vec<String> = text.lines().map(String::from).collect();
    assert_eq!(lines(text), expected);
}
